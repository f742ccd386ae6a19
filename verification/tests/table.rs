use uax_14::class::parse_class;
use uax_14::hex::parse_hex;
use uax_14::ucd::{search, MARK_PATTERN, RANGE_PATTERN};
use uax_14::{Class, ClassRange, ClassTable, RawClass, UcdError};

const LINE_BREAK: &str = "\
# LineBreak-11.0.0.txt
#
0000..0008;CM     # Cc   [9] <control-0000>..<control-0008>
0009;BA           # Cc       <control-0009>
000A;LF           # Cc       <control-000A>
000B..000C;BK     # Cc   [2] <control-000B>..<control-000C>
000D;CR           # Cc       <control-000D>
0020;SP           # Zs       SPACE
0041..005A;AL     # Lu  [26] LATIN CAPITAL LETTER A..LATIN CAPITAL LETTER Z
00A7;AI           # Po       SECTION SIGN
0E01..0E30;SA     # Lo  [48] THAI CHARACTER KO KAI..THAI CHARACTER SARA A
0E31;SA           # Mn       THAI CHARACTER MAI HAN-AKAT
0E32..0E33;SA     # Lo   [2] THAI CHARACTER SARA AA..THAI CHARACTER SARA AM
0E34..0E3A;SA     # Mn   [7] THAI CHARACTER SARA I..THAI CHARACTER PHINTHU
200D;ZWJ          # Cf       ZERO WIDTH JOINER
20A0..20BF;PR     # Sc  [32] EURO-CURRENCY SIGN..BITCOIN SIGN
3041;CJ           # Lo       HIRAGANA LETTER SMALL A
D800..DFFF;SG     # Cs [2048] <surrogate-D800>..<surrogate-DFFF>
E000..F8FF;XX     # Co [6400] <private-use-E000>..<private-use-F8FF>
1F1E6..1F1FF;RI   # So  [26] REGIONAL INDICATOR SYMBOL LETTER A..REGIONAL INDICATOR SYMBOL LETTER Z
1F466..1F469;EB   # So   [4] BOY..WOMAN
";

const UNICODE_DATA: &str = "\
0041;LATIN CAPITAL LETTER A;Lu;0;L;;;;;N;;;;0061;
0300;COMBINING GRAVE ACCENT;Mn;230;NSM;;;;;N;NON-SPACING GRAVE;;;;
0E30;THAI CHARACTER SARA A;Lo;0;L;;;;;N;THAI VOWEL SIGN SARA A;;;;
0E31;THAI CHARACTER MAI HAN-AKAT;Mn;0;NSM;;;;;N;THAI VOWEL SIGN MAI HAN-AKAT;;;;
0E32;THAI CHARACTER SARA AA;Lo;0;L;;;;;N;THAI VOWEL SIGN SARA AA;;;;
0E34;THAI CHARACTER SARA I;Mn;0;NSM;;;;;N;THAI VOWEL SIGN SARA I;;;;
0E35;THAI CHARACTER SARA II;Mn;0;NSM;;;;;N;THAI VOWEL SIGN SARA II;;;;
0E36;THAI CHARACTER SARA UE;Mn;0;NSM;;;;;N;THAI VOWEL SIGN SARA UE;;;;
102B;MYANMAR VOWEL SIGN TALL AA;Mc;0;L;;;;;N;;;;;
";

fn groups(texts: &[Option<&str>]) -> Vec<Option<String>> {
    texts.iter().map(|t| t.map(|s| s.to_string())).collect()
}

#[test]
fn table_from_the_data_files() {
    let table = ClassTable::from_ucd(LINE_BREAK, UNICODE_DATA).unwrap();
    assert_eq!(table.class('\u{0}'), Class::CM);
    assert_eq!(table.class('\t'), Class::BA);
    assert_eq!(table.class('\n'), Class::LF);
    assert_eq!(table.class('\u{B}'), Class::BK);
    assert_eq!(table.class('\u{C}'), Class::BK);
    assert_eq!(table.class('\r'), Class::CR);
    assert_eq!(table.class(' '), Class::SP);
    assert_eq!(table.class('A'), Class::AL);
    assert_eq!(table.class('Z'), Class::AL);
    assert_eq!(table.class('\u{200D}'), Class::ZWJ);
    assert_eq!(table.class('\u{1F1E6}'), Class::RI);
    assert_eq!(table.class('\u{1F1FF}'), Class::RI);
    assert_eq!(table.class('\u{1F467}'), Class::EB);
}

#[test]
fn resolved_classes_replace_the_raw_ones() {
    let table = ClassTable::from_ucd(LINE_BREAK, UNICODE_DATA).unwrap();
    assert_eq!(table.class('\u{A7}'), Class::AL);
    assert_eq!(table.class('\u{3041}'), Class::NS);
    assert_eq!(table.class('\u{E000}'), Class::AL);
    assert_eq!(table.class('\u{F8FF}'), Class::AL);
    assert_eq!(table.class('\u{0E01}'), Class::AL);
    assert_eq!(table.class('\u{0E30}'), Class::AL);
    assert_eq!(table.class('\u{0E31}'), Class::CM);
    assert_eq!(table.class('\u{0E32}'), Class::AL);
    assert_eq!(table.class('\u{0E34}'), Class::CM);
    assert_eq!(table.class('\u{0E36}'), Class::CM);
    assert_eq!(table.class('\u{0E37}'), Class::AL);
}

#[test]
fn unlisted_scalars_have_their_defaults() {
    let table = ClassTable::from_ucd(LINE_BREAK, UNICODE_DATA).unwrap();
    assert_eq!(table.class('a'), Class::AL);
    assert_eq!(table.class('\u{20A0}'), Class::PR);
    assert_eq!(table.class('\u{20C0}'), Class::PR);
    assert_eq!(table.class('\u{20CF}'), Class::PR);
    assert_eq!(table.class('\u{20D0}'), Class::AL);
    assert_eq!(table.class('\u{1F000}'), Class::ID);
    assert_eq!(table.class('\u{1FFFD}'), Class::ID);
    assert_eq!(table.class('\u{1FFFE}'), Class::AL);
    assert_eq!(table.class('\u{1EFFF}'), Class::AL);
    assert_eq!(table.class('\u{10FFFF}'), Class::AL);
    let empty = ClassTable::empty();
    assert_eq!(empty.class('\n'), Class::AL);
    assert_eq!(empty.class('\u{1F600}'), Class::ID);
}

#[test]
fn no_scalar_is_unknown() {
    let table = ClassTable::from_ucd(LINE_BREAK, UNICODE_DATA).unwrap();
    for cp in (0u32..0x110000).step_by(97) {
        if let Some(c) = char::from_u32(cp) {
            assert_ne!(table.class(c), Class::XX);
            assert_eq!(table.class(c), table.class(c));
        }
    }
}

#[test]
fn lookup_finds_every_listed_range() {
    let mut ranges = Vec::new();
    for i in 0u32..1000 {
        let class = if i % 2 == 0 { RawClass::NU } else { RawClass::ID };
        ranges.push(ClassRange { first: 0x100 + 4 * i, last: 0x100 + 4 * i + 2, class });
    }
    let table = ClassTable::new(ranges, Vec::new()).unwrap();
    for i in 0u32..1000 {
        let class = if i % 2 == 0 { Class::NU } else { Class::ID };
        for d in 0..3 {
            assert_eq!(table.class(char::from_u32(0x100 + 4 * i + d).unwrap()), class);
        }
        assert_eq!(table.class(char::from_u32(0x100 + 4 * i + 3).unwrap()), Class::AL);
    }
    assert_eq!(table.class('\u{FF}'), Class::AL);
}

#[test]
fn ranges_out_of_order_are_refused() {
    let a = ClassRange { first: 0x41, last: 0x5A, class: RawClass::AL };
    let b = ClassRange { first: 0x30, last: 0x39, class: RawClass::NU };
    assert!(ClassTable::new(vec![b, a], Vec::new()).is_some());
    assert!(ClassTable::new(vec![a, b], Vec::new()).is_none());
    assert!(ClassTable::new(vec![a, a], Vec::new()).is_none());
    assert!(ClassTable::new(Vec::new(), vec![a, b]).is_none());
    let overlapping = ClassRange { first: 0x5A, last: 0x60, class: RawClass::AL };
    assert!(ClassTable::new(vec![a, overlapping], Vec::new()).is_none());
    let backwards = ClassRange { first: 0x39, last: 0x30, class: RawClass::NU };
    assert!(ClassTable::new(vec![backwards], Vec::new()).is_none());
}

#[test]
fn data_out_of_order_is_an_error() {
    let r = ClassTable::from_ucd("0041;AL\n0030;NU\n", "");
    assert_eq!(r.err(), Some(UcdError::Order));
    let r = ClassTable::from_ucd("0041..0030;AL\n", "");
    assert_eq!(r.err(), Some(UcdError::Order));
    let r = ClassTable::from_ucd("", "0301;B;Mn;\n0300;A;Mn;\n");
    assert_eq!(r.err(), Some(UcdError::Order));
}

#[test]
fn an_unknown_class_is_an_error() {
    let r = ClassTable::from_ucd("0041;QQ\n", "");
    assert_eq!(r.err(), Some(UcdError::Class));
    let r = ClassTable::from_ucd("0041;ZWX\n", "");
    assert_eq!(r.err(), Some(UcdError::Class));
}

#[test]
fn a_bad_code_point_is_an_error() {
    let r = ClassTable::from_ucd("00G1;AL\n", "");
    assert_eq!(r.err(), Some(UcdError::Number));
    let r = ClassTable::from_ucd("100000000;AL\n", "");
    assert_eq!(r.err(), Some(UcdError::Number));
    let r = ClassTable::from_ucd("0041..zz;AL\n", "");
    assert_eq!(r.err(), Some(UcdError::Number));
    let r = ClassTable::from_ucd("", "FFFFFFFFF;X;Mn;\n");
    assert_eq!(r.err(), Some(UcdError::Number));
}

#[test]
fn a_match_without_its_groups_is_an_error() {
    let short = vec![groups(&[Some("0041;AL"), Some("0041")])];
    let r = ClassTable::from_captures(&short, &Vec::new());
    assert_eq!(r.err(), Some(UcdError::Groups));
    let no_left = vec![groups(&[Some(";AL"), Some(""), None, None, None, Some("AL")])];
    let r = ClassTable::from_captures(&no_left, &Vec::new());
    assert_eq!(r.err(), Some(UcdError::Groups));
    let no_mark = vec![groups(&[Some("x")])];
    let r = ClassTable::from_captures(&Vec::new(), &no_mark);
    assert_eq!(r.err(), Some(UcdError::Groups));
}

#[test]
fn the_marks_are_read_before_the_ranges() {
    let r = ClassTable::from_ucd("0041;QQ\n", "FFFFFFFFF;X;Mn;\n");
    assert_eq!(r.err(), Some(UcdError::Number));
}

#[test]
fn a_table_from_matches_given_by_hand() {
    let ranges = vec![
        groups(&[Some("0E01..0E3A;SA"), Some("0E01..0E3A"), Some("0E01"), Some("..0E3A"), Some("0E3A"), Some("SA")]),
        groups(&[Some("3041;CJ"), Some("3041"), Some("3041"), None, None, Some("CJ")]),
    ];
    let marks = vec![
        groups(&[Some("0E31;A;Mn;"), Some("0E31"), Some("Mn"), Some("Mn"), None]),
        groups(&[Some("0E34;B;Mn;"), Some("0E34"), Some("Mn"), Some("Mn"), None]),
        groups(&[Some("0E35;C;Mc;"), Some("0E35"), Some("Mc"), None, Some("Mc")]),
    ];
    let table = ClassTable::from_captures(&ranges, &marks).unwrap();
    assert_eq!(table.class('\u{0E30}'), Class::AL);
    assert_eq!(table.class('\u{0E31}'), Class::CM);
    assert_eq!(table.class('\u{0E33}'), Class::AL);
    assert_eq!(table.class('\u{0E35}'), Class::CM);
    assert_eq!(table.class('\u{3041}'), Class::NS);
    assert_eq!(table.class('\u{3042}'), Class::AL);
}

#[test]
fn hexadecimal_code_points() {
    assert_eq!(parse_hex("0"), Some(0));
    assert_eq!(parse_hex("0041"), Some(0x41));
    assert_eq!(parse_hex("10FFFF"), Some(0x10FFFF));
    assert_eq!(parse_hex("1f1e6"), Some(0x1F1E6));
    assert_eq!(parse_hex("FFFFFFFF"), Some(u32::MAX));
    assert_eq!(parse_hex("0000000000FFFFFFFF"), Some(u32::MAX));
    assert_eq!(parse_hex("100000000"), None);
    assert_eq!(parse_hex("FFFFFFFF0"), None);
    assert_eq!(parse_hex(""), None);
    assert_eq!(parse_hex("12G"), None);
    assert_eq!(parse_hex("G12"), None);
    assert_eq!(parse_hex("+12"), None);
    assert_eq!(parse_hex("1 2"), None);
}

#[test]
fn class_names() {
    assert_eq!(parse_class("AL"), Some(RawClass::AL));
    assert_eq!(parse_class("B2"), Some(RawClass::B2));
    assert_eq!(parse_class("H3"), Some(RawClass::H3));
    assert_eq!(parse_class("ZW"), Some(RawClass::ZW));
    assert_eq!(parse_class("ZWJ"), Some(RawClass::ZWJ));
    assert_eq!(parse_class("SA"), Some(RawClass::SA));
    assert_eq!(parse_class("XX"), Some(RawClass::XX));
    assert_eq!(parse_class(""), None);
    assert_eq!(parse_class("A"), None);
    assert_eq!(parse_class("al"), None);
    assert_eq!(parse_class("ALL"), None);
    assert_eq!(parse_class("ZWJJ"), None);
    assert_eq!(parse_class("ZZ"), None);
}

#[test]
fn resolving_by_rule_lb1() {
    assert_eq!(RawClass::SA.resolve(true), Class::CM);
    assert_eq!(RawClass::SA.resolve(false), Class::AL);
    assert_eq!(RawClass::CJ.resolve(false), Class::NS);
    assert_eq!(RawClass::AI.resolve(false), Class::AL);
    assert_eq!(RawClass::SG.resolve(false), Class::AL);
    assert_eq!(RawClass::XX.resolve(true), Class::AL);
    assert_eq!(RawClass::CM.resolve(false), Class::CM);
    assert_eq!(RawClass::RI.resolve(true), Class::RI);
}

#[test]
fn a_pattern_that_does_not_compile_is_an_error() {
    assert_eq!(search("(", "x"), Err(UcdError::Pattern));
    assert_eq!(search("[0-9", "123"), Err(UcdError::Pattern));
}

#[test]
fn a_search_gives_the_groups_of_each_match() {
    let found = search("([a-z]+)(=([0-9]+))?;", "ab=12; cd; =7;").unwrap();
    assert_eq!(
        found,
        vec![
            groups(&[Some("ab=12;"), Some("ab"), Some("=12"), Some("12")]),
            groups(&[Some("cd;"), Some("cd"), None, None]),
        ]
    );
    assert_eq!(search("x", "abc"), Ok(Vec::new()));
}

#[test]
fn the_range_pattern_finds_code_points_and_classes() {
    let found = search(RANGE_PATTERN, "0041..005A;AL # Lu\n000A;LF\n").unwrap();
    assert_eq!(
        found,
        vec![
            groups(&[Some("0041..005A;AL"), Some("0041..005A"), Some("0041"), Some("..005A"), Some("005A"), Some("AL")]),
            groups(&[Some("000A;LF"), Some("000A"), Some("000A"), None, None, Some("LF")]),
        ]
    );
}

#[test]
fn the_mark_pattern_finds_marks_only() {
    let found = search(MARK_PATTERN, UNICODE_DATA).unwrap();
    let codes: Vec<String> = found.iter().map(|m| m[1].clone().unwrap()).collect();
    assert_eq!(codes, vec!["0300", "0E31", "0E34", "0E35", "0E36", "102B"]);
    assert_eq!(found[0][3], Some("Mn".to_string()));
    assert_eq!(found[0][4], None);
    assert_eq!(found[5][3], None);
    assert_eq!(found[5][4], Some("Mc".to_string()));
}
