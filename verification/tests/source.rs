use uax_14::source::{generate_from_captures, join, render, write_patterns};
use uax_14::ucd::{Entry, Mark};
use uax_14::{generate, RawClass, UcdError};

const HEAD: &str = "use Class;
/// Converts a `char` to its corresponding [Line Breaking Class].
///
/// For more information see [`Class`].
///
/// [Line Breaking Class]: https://www.unicode.org/reports/tr14/#Table1
pub fn convert_to_break_class(n: char) -> Class {match n as u32 {
";

const TAIL: &str = "0x1F000...0x1FFFD // Plane 1 range
        => Class::ID,
        0x20A0...0x20CF // Currency Symbols
        => Class::PR,
        _ => Class::AL // Actually XX
    }
}
";

const MARKS: &str = "\
0E31;THAI CHARACTER MAI HAN-AKAT;Mn;0;NSM;;;;;N;THAI VOWEL SIGN MAI HAN-AKAT;;;;
0E34;THAI CHARACTER SARA I;Mn;0;NSM;;;;;N;THAI VOWEL SIGN SARA I;;;;
0E35;THAI CHARACTER SARA II;Mn;0;NSM;;;;;N;THAI VOWEL SIGN SARA II;;;;
102B;MYANMAR VOWEL SIGN TALL AA;Mc;0;L;;;;;N;;;;;
102C;MYANMAR VOWEL SIGN AA;Mc;0;L;;;;;N;;;;;
";

#[test]
fn the_source_of_a_small_table() {
    let line_break = "\
0041..005A;AL     # Lu  [26] LATIN CAPITAL LETTER A..LATIN CAPITAL LETTER Z
0061;AL
0062;AL
00A7;AI           # Po       SECTION SIGN
0E01..0E30;SA     # Lo  [48] THAI CHARACTER KO KAI..THAI CHARACTER SARA A
0E31;SA           # Mn       THAI CHARACTER MAI HAN-AKAT
3041;CJ           # Lo       HIRAGANA LETTER SMALL A
200D;ZWJ          # Cf       ZERO WIDTH JOINER
";
    let arms = "\
0xA7 => Class::AL,
0x41...0x5A | 0x61...0x62 => Class::AL,
0x3041 => Class::NS,
0xE01...0xE31 => match n as u32 {0xE31 | 0xE34...0xE35|0x102B...0x102C => Class::CM,_ => Class::AL}
0x200D => Class::ZWJ,
";
    let source = generate(line_break, MARKS).unwrap();
    assert_eq!(source, format!("{}{}{}", HEAD, arms, TAIL));
}

#[test]
fn the_source_without_entries_has_no_arms() {
    let source = generate("# nothing listed\n", MARKS).unwrap();
    assert_eq!(source, format!("{}{}", HEAD, TAIL));
}

#[test]
fn both_categories_of_marks_are_needed() {
    let only_mn = "0E31;THAI CHARACTER MAI HAN-AKAT;Mn;0;NSM;;;;;N;;;;;\n";
    assert_eq!(generate("0041;AL\n", only_mn), Err(UcdError::Marks));
    let only_mc = "102B;MYANMAR VOWEL SIGN TALL AA;Mc;0;L;;;;;N;;;;;\n";
    assert_eq!(generate("0041;AL\n", only_mc), Err(UcdError::Marks));
    assert_eq!(generate("0041;AL\n", ""), Err(UcdError::Marks));
}

#[test]
fn errors_in_the_data_stop_the_source() {
    assert_eq!(generate("0041;QQ\n", MARKS), Err(UcdError::Class));
    assert_eq!(generate("00G1;AL\n", MARKS), Err(UcdError::Number));
    assert_eq!(generate("0041;QQ\n", "FFFFFFFFF;X;Mn;\n"), Err(UcdError::Number));
    let short = vec![vec![Some("0041;AL".to_string())]];
    let marks = vec![
        vec![Some("1;a;Mn;".to_string()), Some("1".to_string()), Some("Mn".to_string()), Some("Mn".to_string()), None],
        vec![Some("2;a;Mc;".to_string()), Some("2".to_string()), Some("Mc".to_string()), None, Some("Mc".to_string())],
    ];
    assert_eq!(generate_from_captures(&short, &marks), Err(UcdError::Groups));
}

#[test]
fn entries_out_of_order_are_written_as_they_come() {
    let source = generate("0062;AL\n0041;AL\n0042;AL\n", MARKS).unwrap();
    assert_eq!(source, format!("{}{}{}", HEAD, "0x62 | 0x41...0x42 => Class::AL,\n", TAIL));
}

#[test]
fn rendering_entries_given_by_hand() {
    let entries = vec![
        Entry { first: 0x30, last: Some(0x39), class: RawClass::NU },
        Entry { first: 0x20, last: None, class: RawClass::SP },
        Entry { first: 0xE000, last: Some(0xF8FF), class: RawClass::XX },
        Entry { first: 0xD800, last: Some(0xDFFF), class: RawClass::SG },
    ];
    let marks = vec![Mark { code: 0x300, nonspacing: true }, Mark { code: 0x903, nonspacing: false }];
    let arms = "0x30...0x39 => Class::NU,\n0xD800...0xDFFF => Class::AL,\n0x20 => Class::SP,\n0xE000...0xF8FF => Class::AL,\n";
    assert_eq!(render(&entries, &marks), format!("{}{}{}", HEAD, arms, TAIL));
}

#[test]
fn joining_texts() {
    let parts = vec!["a".to_string(), "bc".to_string(), "".to_string(), "d".to_string()];
    assert_eq!(join(&parts, ", "), "a, bc, , d");
    assert_eq!(join(&parts[..1].to_vec(), ", "), "a");
    assert_eq!(join(&Vec::new(), ", "), "");
    assert_eq!(join(&parts, ", "), parts.join(", "));
}

#[test]
fn patterns_of_an_arm() {
    assert_eq!(write_patterns(vec![(0x41, None), (0x42, None), (0x61, Some(0x7A))]), "0x41...0x42 | 0x61...0x7A");
    assert_eq!(write_patterns(vec![(0x9, None)]), "0x9");
}

#[test]
fn class_names_are_written_as_they_are_read() {
    let all = uax_14::source::classes_in_order();
    assert_eq!(all.len(), 43);
    for class in all {
        assert_eq!(uax_14::class::parse_class(class.name()), Some(class));
    }
    assert_eq!(RawClass::XX.resolved_name(), "AL");
    assert_eq!(RawClass::CJ.resolved_name(), "NS");
    assert_eq!(RawClass::ZWJ.resolved_name(), "ZWJ");
}
