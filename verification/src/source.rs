//! The class table written out as the source of a Rust function.

use vstd::prelude::*;
use vstd::string::StringExecFns;
use crate::class::RawClass;
use crate::class::class_named;
use crate::codepoints::formatted;
use crate::codepoints::merged;
use crate::codepoints::squish;
use crate::ucd::Entry;
use crate::ucd::Mark;
use crate::ucd::UcdError;
use crate::ucd::entries_of;
use crate::ucd::MARK_PATTERN;
use crate::ucd::marks_of;
use crate::ucd::RANGE_PATTERN;
use crate::ucd::read_entries;
use crate::ucd::read_marks;
use crate::ucd::regex_captures;
use crate::ucd::search;

verus! {

impl RawClass {
    /// The name of the class in the data files.
    pub open spec fn name_of(self) -> Seq<char> {
        match self {
            RawClass::AI => "AI"@,
            RawClass::AL => "AL"@,
            RawClass::B2 => "B2"@,
            RawClass::BA => "BA"@,
            RawClass::BB => "BB"@,
            RawClass::BK => "BK"@,
            RawClass::CB => "CB"@,
            RawClass::CJ => "CJ"@,
            RawClass::CL => "CL"@,
            RawClass::CM => "CM"@,
            RawClass::CP => "CP"@,
            RawClass::CR => "CR"@,
            RawClass::EB => "EB"@,
            RawClass::EM => "EM"@,
            RawClass::EX => "EX"@,
            RawClass::GL => "GL"@,
            RawClass::H2 => "H2"@,
            RawClass::H3 => "H3"@,
            RawClass::HL => "HL"@,
            RawClass::HY => "HY"@,
            RawClass::ID => "ID"@,
            RawClass::IN => "IN"@,
            RawClass::IS => "IS"@,
            RawClass::JL => "JL"@,
            RawClass::JT => "JT"@,
            RawClass::JV => "JV"@,
            RawClass::LF => "LF"@,
            RawClass::NL => "NL"@,
            RawClass::NS => "NS"@,
            RawClass::NU => "NU"@,
            RawClass::OP => "OP"@,
            RawClass::PO => "PO"@,
            RawClass::PR => "PR"@,
            RawClass::QU => "QU"@,
            RawClass::RI => "RI"@,
            RawClass::SA => "SA"@,
            RawClass::SG => "SG"@,
            RawClass::SP => "SP"@,
            RawClass::SY => "SY"@,
            RawClass::WJ => "WJ"@,
            RawClass::XX => "XX"@,
            RawClass::ZW => "ZW"@,
            RawClass::ZWJ => "ZWJ"@,
        }
    }

    /// The name of the class in the data files.
    pub fn name(self) -> (text: &'static str)
        ensures
            text@ == self.name_of(),
    {
        match self {
            RawClass::AI => "AI",
            RawClass::AL => "AL",
            RawClass::B2 => "B2",
            RawClass::BA => "BA",
            RawClass::BB => "BB",
            RawClass::BK => "BK",
            RawClass::CB => "CB",
            RawClass::CJ => "CJ",
            RawClass::CL => "CL",
            RawClass::CM => "CM",
            RawClass::CP => "CP",
            RawClass::CR => "CR",
            RawClass::EB => "EB",
            RawClass::EM => "EM",
            RawClass::EX => "EX",
            RawClass::GL => "GL",
            RawClass::H2 => "H2",
            RawClass::H3 => "H3",
            RawClass::HL => "HL",
            RawClass::HY => "HY",
            RawClass::ID => "ID",
            RawClass::IN => "IN",
            RawClass::IS => "IS",
            RawClass::JL => "JL",
            RawClass::JT => "JT",
            RawClass::JV => "JV",
            RawClass::LF => "LF",
            RawClass::NL => "NL",
            RawClass::NS => "NS",
            RawClass::NU => "NU",
            RawClass::OP => "OP",
            RawClass::PO => "PO",
            RawClass::PR => "PR",
            RawClass::QU => "QU",
            RawClass::RI => "RI",
            RawClass::SA => "SA",
            RawClass::SG => "SG",
            RawClass::SP => "SP",
            RawClass::SY => "SY",
            RawClass::WJ => "WJ",
            RawClass::XX => "XX",
            RawClass::ZW => "ZW",
            RawClass::ZWJ => "ZWJ",
        }
    }

    /// The name of the class that rule LB1 puts in the place of this one,
    /// on a scalar value that is no combining mark.
    pub open spec fn resolved_name_of(self) -> Seq<char> {
        match self {
            RawClass::AI | RawClass::SG | RawClass::XX | RawClass::SA => RawClass::AL.name_of(),
            RawClass::CJ => RawClass::NS.name_of(),
            _ => self.name_of(),
        }
    }

    /// Computes [`RawClass::resolved_name_of`].
    pub fn resolved_name(self) -> (text: &'static str)
        ensures
            text@ == self.resolved_name_of(),
    {
        match self {
            RawClass::AI | RawClass::SG | RawClass::XX | RawClass::SA => RawClass::AL.name(),
            RawClass::CJ => RawClass::NS.name(),
            _ => self.name(),
        }
    }
}

/// The classes of the data files, in the order in which their arms are
/// written.
pub open spec fn class_order() -> Seq<RawClass> {
    seq![
        RawClass::AI,
        RawClass::AL,
        RawClass::B2,
        RawClass::BA,
        RawClass::BB,
        RawClass::BK,
        RawClass::CB,
        RawClass::CJ,
        RawClass::CL,
        RawClass::CM,
        RawClass::CP,
        RawClass::CR,
        RawClass::EB,
        RawClass::EM,
        RawClass::EX,
        RawClass::GL,
        RawClass::H2,
        RawClass::H3,
        RawClass::HL,
        RawClass::HY,
        RawClass::ID,
        RawClass::IN,
        RawClass::IS,
        RawClass::JL,
        RawClass::JT,
        RawClass::JV,
        RawClass::LF,
        RawClass::NL,
        RawClass::NS,
        RawClass::NU,
        RawClass::OP,
        RawClass::PO,
        RawClass::PR,
        RawClass::QU,
        RawClass::RI,
        RawClass::SA,
        RawClass::SG,
        RawClass::SP,
        RawClass::SY,
        RawClass::WJ,
        RawClass::XX,
        RawClass::ZW,
        RawClass::ZWJ,
    ]
}

/// Computes [`class_order`].
pub fn classes_in_order() -> (order: Vec<RawClass>)
    ensures
        order@ == class_order(),
{
    let order = vec![
        RawClass::AI,
        RawClass::AL,
        RawClass::B2,
        RawClass::BA,
        RawClass::BB,
        RawClass::BK,
        RawClass::CB,
        RawClass::CJ,
        RawClass::CL,
        RawClass::CM,
        RawClass::CP,
        RawClass::CR,
        RawClass::EB,
        RawClass::EM,
        RawClass::EX,
        RawClass::GL,
        RawClass::H2,
        RawClass::H3,
        RawClass::HL,
        RawClass::HY,
        RawClass::ID,
        RawClass::IN,
        RawClass::IS,
        RawClass::JL,
        RawClass::JT,
        RawClass::JV,
        RawClass::LF,
        RawClass::NL,
        RawClass::NS,
        RawClass::NU,
        RawClass::OP,
        RawClass::PO,
        RawClass::PR,
        RawClass::QU,
        RawClass::RI,
        RawClass::SA,
        RawClass::SG,
        RawClass::SP,
        RawClass::SY,
        RawClass::WJ,
        RawClass::XX,
        RawClass::ZW,
        RawClass::ZWJ,
    ];
    assert(order@ =~= class_order());
    order
}

/// The code points of the entries of class `class`, in their order.
pub open spec fn spans_of(entries: Seq<Entry>, class: RawClass) -> Seq<(u32, Option<u32>)>
    decreases entries.len(),
{
    if entries.len() == 0 {
        Seq::empty()
    } else if entries.last().class == class {
        spans_of(entries.drop_last(), class).push(entries.last().span())
    } else {
        spans_of(entries.drop_last(), class)
    }
}

/// The code points of the marks of one general category, in their order:
/// of Mn where `nonspacing` is set, else of Mc.
pub open spec fn marks_of_category(marks: Seq<Mark>, nonspacing: bool) -> Seq<(u32, Option<u32>)>
    decreases marks.len(),
{
    if marks.len() == 0 {
        Seq::empty()
    } else if marks.last().nonspacing == nonspacing {
        marks_of_category(marks.drop_last(), nonspacing).push((marks.last().code, None))
    } else {
        marks_of_category(marks.drop_last(), nonspacing)
    }
}

/// `parts` in a row, with `sep` between each two.
pub open spec fn joined(parts: Seq<Seq<char>>, sep: Seq<char>) -> Seq<char>
    decreases parts.len(),
{
    if parts.len() == 0 {
        Seq::empty()
    } else if parts.len() == 1 {
        parts[0]
    } else {
        joined(parts.drop_last(), sep) + sep + parts.last()
    }
}

/// The code points of `list` as the patterns of a match arm: in the fewest
/// entries, each in hexadecimal after `0x`, with ` | ` between them.
pub open spec fn patterns(list: Seq<(u32, Option<u32>)>) -> Seq<char> {
    let runs = merged(list);
    "0x"@ + joined(Seq::new(runs.len(), |i: int| formatted(runs[i])), " | 0x"@)
}

/// What the arm of `class` gives: the class that stands for it, and for SA
/// the choice between CM on a combining mark and AL elsewhere.
pub open spec fn target(class: RawClass, marks: Seq<Mark>) -> Seq<char> {
    if class == RawClass::SA {
        "match n as u32 {"@ + patterns(marks_of_category(marks, true)) + "|"@ + patterns(
            marks_of_category(marks, false),
        ) + " => Class::CM,_ => Class::AL}\n"@
    } else {
        "Class::"@ + class.resolved_name_of() + ",\n"@
    }
}

/// The arm of `class`: nothing where no entry has that class.
pub open spec fn arm(class: RawClass, entries: Seq<Entry>, marks: Seq<Mark>) -> Seq<char> {
    if spans_of(entries, class).len() == 0 {
        Seq::empty()
    } else {
        patterns(spans_of(entries, class)) + " => "@ + target(class, marks)
    }
}

/// The arms of the first `n` classes of [`class_order`].
pub open spec fn arms(entries: Seq<Entry>, marks: Seq<Mark>, n: nat) -> Seq<char>
    decreases n,
{
    if n == 0 {
        Seq::empty()
    } else {
        arms(entries, marks, (n - 1) as nat) + arm(class_order()[n - 1], entries, marks)
    }
}

/// What stands before the arms.
pub open spec fn head() -> Seq<char> {
    "use Class;\n/// Converts a `char` to its corresponding [Line Breaking Class].\n///\n/// For more information see [`Class`].\n///\n/// [Line Breaking Class]: https://www.unicode.org/reports/tr14/#Table1\npub fn convert_to_break_class(n: char) -> Class {match n as u32 {\n"@
}

/// What stands after the arms: the classes of what no arm lists.
pub open spec fn tail() -> Seq<char> {
    "0x1F000...0x1FFFD // Plane 1 range\n        => Class::ID,\n        0x20A0...0x20CF // Currency Symbols\n        => Class::PR,\n        _ => Class::AL // Actually XX\n    }\n}\n"@
}

/// The source of the function that gives each scalar value its class, by
/// the entries and marks given.
pub open spec fn rendered(entries: Seq<Entry>, marks: Seq<Mark>) -> Seq<char> {
    head() + arms(entries, marks, class_order().len()) + tail()
}

/// The code points of the entries of one class: see [`spans_of`].
pub fn spans_in(entries: &Vec<Entry>, class: RawClass) -> (spans: Vec<(u32, Option<u32>)>)
    ensures
        spans@ == spans_of(entries@, class),
{
    let mut spans: Vec<(u32, Option<u32>)> = Vec::new();
    let mut i: usize = 0;
    while i < entries.len()
        invariant
            i <= entries.len(),
            spans@ == spans_of(entries@.take(i as int), class),
        decreases entries.len() - i,
    {
        assert(entries@.take(i + 1).drop_last() =~= entries@.take(i as int));
        let entry = entries[i];
        if entry.class == class {
            spans.push((entry.first, entry.last));
        }
        i += 1;
    }
    assert(entries@.take(i as int) =~= entries@);
    spans
}

/// The code points of the marks of one category: see [`marks_of_category`].
pub fn marks_in(marks: &Vec<Mark>, nonspacing: bool) -> (spans: Vec<(u32, Option<u32>)>)
    ensures
        spans@ == marks_of_category(marks@, nonspacing),
{
    let mut spans: Vec<(u32, Option<u32>)> = Vec::new();
    let mut i: usize = 0;
    while i < marks.len()
        invariant
            i <= marks.len(),
            spans@ == marks_of_category(marks@.take(i as int), nonspacing),
        decreases marks.len() - i,
    {
        assert(marks@.take(i + 1).drop_last() =~= marks@.take(i as int));
        let mark = marks[i];
        if mark.nonspacing == nonspacing {
            spans.push((mark.code, None));
        }
        i += 1;
    }
    assert(marks@.take(i as int) =~= marks@);
    spans
}

/// Puts `parts` in a row, with `sep` between each two.
pub fn join(parts: &Vec<String>, sep: &str) -> (text: String)
    ensures
        text@ == joined(parts.deep_view(), sep@),
{
    let mut text = String::new();
    let mut i: usize = 0;
    let ghost all = parts.deep_view();
    while i < parts.len()
        invariant
            i <= parts.len(),
            all == parts.deep_view(),
            text@ == joined(all.take(i as int), sep@),
        decreases parts.len() - i,
    {
        proof {
            assert(all.take(i + 1).drop_last() =~= all.take(i as int));
            assert(all.take(i + 1).last() == parts@[i as int]@);
        }
        if i > 0 {
            text.append(sep);
        } else {
            assert(all.take(1)[0] == parts@[0]@);
        }
        text.append(parts[i].as_str());
        assert(text@ =~= joined(all.take(i + 1), sep@));
        i += 1;
    }
    assert(all.take(i as int) =~= all);
    text
}

/// Writes code points as the patterns of a match arm: see [`patterns`].
pub fn write_patterns(list: Vec<(u32, Option<u32>)>) -> (text: String)
    ensures
        text@ == patterns(list@),
{
    let parts = squish(list);
    let ghost runs = merged(list@);
    assert(parts.deep_view() =~= Seq::new(runs.len(), |i: int| formatted(runs[i])));
    let mut text = String::new();
    text.append("0x");
    text.append(join(&parts, " | 0x").as_str());
    assert(text@ =~= patterns(list@));
    text
}

/// Writes out the source of the function that gives each scalar value its
/// class: see [`rendered`].
pub fn render(entries: &Vec<Entry>, marks: &Vec<Mark>) -> (text: String)
    ensures
        text@ == rendered(entries@, marks@),
{
    let nonspacing = write_patterns(marks_in(marks, true));
    let spacing = write_patterns(marks_in(marks, false));
    let order = classes_in_order();
    let mut text = String::new();
    text.append(
        "use Class;\n/// Converts a `char` to its corresponding [Line Breaking Class].\n///\n/// For more information see [`Class`].\n///\n/// [Line Breaking Class]: https://www.unicode.org/reports/tr14/#Table1\npub fn convert_to_break_class(n: char) -> Class {match n as u32 {\n",
    );
    assert(text@ =~= head());
    let mut i: usize = 0;
    while i < order.len()
        invariant
            i <= order.len(),
            order@ == class_order(),
            nonspacing@ == patterns(marks_of_category(marks@, true)),
            spacing@ == patterns(marks_of_category(marks@, false)),
            text@ == head() + arms(entries@, marks@, i as nat),
        decreases order.len() - i,
    {
        let class = order[i];
        let spans = spans_in(entries, class);
        let ghost before = text@;
        if spans.len() > 0 {
            let mut arm_text = write_patterns(spans);
            arm_text.append(" => ");
            if class == RawClass::SA {
                arm_text.append("match n as u32 {");
                arm_text.append(nonspacing.as_str());
                arm_text.append("|");
                arm_text.append(spacing.as_str());
                arm_text.append(" => Class::CM,_ => Class::AL}\n");
                assert(arm_text@ =~= arm(class, entries@, marks@));
            } else {
                arm_text.append("Class::");
                arm_text.append(class.resolved_name());
                arm_text.append(",\n");
                assert(arm_text@ =~= arm(class, entries@, marks@));
            }
            text.append(arm_text.as_str());
        }
        assert(text@ =~= head() + arms(entries@, marks@, (i + 1) as nat)) by {
            assert(text@ =~= before + arm(class, entries@, marks@));
        }
        i += 1;
    }
    text.append(
        "0x1F000...0x1FFFD // Plane 1 range\n        => Class::ID,\n        0x20A0...0x20CF // Currency Symbols\n        => Class::PR,\n        _ => Class::AL // Actually XX\n    }\n}\n",
    );
    text
}

/// The source that is written for the matches of the range pattern and
/// those of the mark pattern, or the first error: one in the marks, a
/// category of marks without a member, one in the ranges.
pub open spec fn source_of(
    ranges: Seq<Seq<Option<Seq<char>>>>,
    marks: Seq<Seq<Option<Seq<char>>>>,
) -> Result<Seq<char>, UcdError> {
    match marks_of(marks) {
        Err(e) => Err(e),
        Ok(marks) => if marks_of_category(marks, true).len() == 0 || marks_of_category(
            marks,
            false,
        ).len() == 0 {
            Err(UcdError::Marks)
        } else {
            match entries_of(ranges) {
                Err(e) => Err(e),
                Ok(entries) => Ok(rendered(entries, marks)),
            }
        },
    }
}

/// Whether `source` is what `expected` asks for: that text, or that error.
pub open spec fn is_source(source: Result<String, UcdError>, expected: Result<Seq<char>, UcdError>) -> bool {
    match expected {
        Ok(text) => source matches Ok(s) && s@ == text,
        Err(e) => source matches Err(found) && found == e,
    }
}

/// Writes the source of the class function for what the range pattern found
/// in `LineBreak.txt` and what the mark pattern found in `UnicodeData.txt`:
/// see [`source_of`].
pub fn generate_from_captures(
    ranges: &Vec<Vec<Option<String>>>,
    marks: &Vec<Vec<Option<String>>>,
) -> (source: Result<String, UcdError>)
    ensures
        is_source(source, source_of(ranges.deep_view(), marks.deep_view())),
{
    let marks = match read_marks(marks) {
        Ok(marks) => marks,
        Err(e) => {
            return Err(e);
        },
    };
    if marks_in(&marks, true).len() == 0 || marks_in(&marks, false).len() == 0 {
        return Err(UcdError::Marks);
    }
    let entries = match read_entries(ranges) {
        Ok(entries) => entries,
        Err(e) => {
            return Err(e);
        },
    };
    Ok(render(&entries, &marks))
}

/// Writes the source of the class function for the text of `LineBreak.txt`
/// and of `UnicodeData.txt`.
///
/// Both are searched with the regex crate; where it refuses a pattern the
/// error is `Pattern`, and else the source is written for what it finds, as
/// [`generate_from_captures`] writes it.
pub fn generate(line_break: &str, unicode_data: &str) -> (source: Result<String, UcdError>)
    ensures
        match (
            regex_captures(MARK_PATTERN@, unicode_data@),
            regex_captures(RANGE_PATTERN@, line_break@),
        ) {
            (Some(marks), Some(ranges)) => is_source(source, source_of(ranges, marks)),
            _ => source matches Err(e) && e == UcdError::Pattern,
        },
{
    let marks = match search(MARK_PATTERN, unicode_data) {
        Ok(marks) => marks,
        Err(e) => {
            return Err(e);
        },
    };
    let ranges = match search(RANGE_PATTERN, line_break) {
        Ok(ranges) => ranges,
        Err(e) => {
            return Err(e);
        },
    };
    generate_from_captures(&ranges, &marks)
}

/// A class is read back from the name that it is written with.
pub proof fn law_names_are_read_back(class: RawClass)
    ensures
        class_named(class.name_of()) == Some(class),
{
    reveal_strlit("AI");
    reveal_strlit("AL");
    reveal_strlit("B2");
    reveal_strlit("BA");
    reveal_strlit("BB");
    reveal_strlit("BK");
    reveal_strlit("CB");
    reveal_strlit("CJ");
    reveal_strlit("CL");
    reveal_strlit("CM");
    reveal_strlit("CP");
    reveal_strlit("CR");
    reveal_strlit("EB");
    reveal_strlit("EM");
    reveal_strlit("EX");
    reveal_strlit("GL");
    reveal_strlit("H2");
    reveal_strlit("H3");
    reveal_strlit("HL");
    reveal_strlit("HY");
    reveal_strlit("ID");
    reveal_strlit("IN");
    reveal_strlit("IS");
    reveal_strlit("JL");
    reveal_strlit("JT");
    reveal_strlit("JV");
    reveal_strlit("LF");
    reveal_strlit("NL");
    reveal_strlit("NS");
    reveal_strlit("NU");
    reveal_strlit("OP");
    reveal_strlit("PO");
    reveal_strlit("PR");
    reveal_strlit("QU");
    reveal_strlit("RI");
    reveal_strlit("SA");
    reveal_strlit("SG");
    reveal_strlit("SP");
    reveal_strlit("SY");
    reveal_strlit("WJ");
    reveal_strlit("XX");
    reveal_strlit("ZW");
    reveal_strlit("ZWJ");
}

} // verus!
