//! Reading the Unicode data files that a class table is made from.
//!
//! `LineBreak.txt` lists code points and ranges of code points with their
//! line breaking class; `UnicodeData.txt` lists each code point with its
//! general category, of which the combining marks (Mn and Mc) are needed.
//! Both are searched with a regular expression; what it finds is read here.

use vstd::prelude::*;
use crate::class::RawClass;
use crate::class::class_named;
use crate::class::parse_class;
use crate::codepoints::covered;
use crate::codepoints::covers;
use crate::codepoints::end_of;
use crate::codepoints::forward;
use crate::codepoints::law_merged_keeps_code_points;
use crate::codepoints::merge_adjacent;
use crate::codepoints::merged;
use crate::hex::code_point;
use crate::hex::parse_hex;
use crate::table::ClassRange;
use crate::table::ClassTable;
use crate::table::listed;
use crate::table::ordered;

verus! {

/// The error of the regex crate: a pattern that it cannot compile.
#[verifier::external_type_specification]
#[verifier::external_body]
pub struct ExRegexError(regex::Error);

/// The pattern for a combining mark in `UnicodeData.txt`: a code point, a
/// name, and the general category Mn or Mc.
pub const MARK_PATTERN: &'static str = "([0-9A-F]+);[^;]+;((Mn)|(Mc));";

/// The pattern for an entry of `LineBreak.txt`: a code point, or two with
/// `..` between them, then `;` and the name of a class.
pub const RANGE_PATTERN: &'static str = "(([0-9a-zA-Z]+)(\\.\\.([0-9a-zA-Z]+))?);([A-Z0-9]+)";

/// What a search of `text` for `pattern` with the regex crate finds: `None`
/// where the crate refuses the pattern, and else, for each match in turn from
/// the start of the text, the text of each capture group, the whole match
/// first, with `None` for a group that took no part in the match.
pub uninterp spec fn regex_captures(pattern: Seq<char>, text: Seq<char>) -> Option<
    Seq<Seq<Option<Seq<char>>>>,
>;

/// Compiles `pattern` with `Regex::new` of the regex crate and walks
/// `Regex::captures_iter` over `text`, copying out of each `Captures` the
/// text of each group that `Captures::iter` yields (`Match::as_str`).
///
/// The contract claims only that the outcome depends on the pattern and the
/// text alone: it names it `regex_captures`.
#[verifier::external_body]
fn captures(pattern: &str, text: &str) -> (found: Result<Vec<Vec<Option<String>>>, regex::Error>)
    ensures
        found is Ok <==> regex_captures(pattern@, text@) is Some,
        found matches Ok(list) ==> regex_captures(pattern@, text@) == Some(list.deep_view()),
{
    let re = regex::Regex::new(pattern)?;
    let mut list = Vec::new();
    for caps in re.captures_iter(text) {
        let mut groups = Vec::new();
        for group in caps.iter() {
            groups.push(group.map(|m| m.as_str().to_string()));
        }
        list.push(groups);
    }
    Ok(list)
}

/// Searches `text` for `pattern` with the regex crate: see
/// [`regex_captures`]. A pattern that the crate refuses is the error
/// `Pattern`.
pub fn search(pattern: &str, text: &str) -> (found: Result<Vec<Vec<Option<String>>>, UcdError>)
    ensures
        match regex_captures(pattern@, text@) {
            Some(list) => found matches Ok(v) && v.deep_view() == list,
            None => found matches Err(e) && e == UcdError::Pattern,
        },
{
    match captures(pattern, text) {
        Ok(list) => Ok(list),
        Err(_) => Err(UcdError::Pattern),
    }
}

/// Why no table could be made of the data.
#[derive(Debug, PartialEq, Eq, Clone, Copy, Structural)]
pub enum UcdError {
    /// A pattern was refused.
    Pattern,
    /// A match lacks a group that holds a code point or a class.
    Groups,
    /// A code point is not a hexadecimal number of at most 32 bits.
    Number,
    /// No class has the name given.
    Class,
    /// The entries are not in rising order, or overlap, or one ends before
    /// it starts.
    Order,
    /// No combining mark of category Mn was found, or none of category Mc.
    Marks,
}

/// A combining mark as `UnicodeData.txt` lists it.
#[derive(Debug, PartialEq, Eq, Clone, Copy, Structural)]
pub struct Mark {
    /// The code point.
    pub code: u32,
    /// Whether its general category is Mn; else it is Mc.
    pub nonspacing: bool,
}

/// An entry of `LineBreak.txt`: one code point, or the code points from
/// `first` to `last`, and their class.
#[derive(Debug, PartialEq, Eq, Clone, Copy, Structural)]
pub struct Entry {
    pub first: u32,
    pub last: Option<u32>,
    pub class: RawClass,
}

impl Entry {
    /// The code points of the entry, without its class.
    pub open spec fn span(self) -> (u32, Option<u32>) {
        (self.first, self.last)
    }

    /// The entry as a range of a table.
    pub open spec fn range(self) -> ClassRange {
        ClassRange { first: self.first, last: end_of(self.span()), class: self.class }
    }
}

/// The text of group `i` of a match.
pub open spec fn group(cap: Seq<Option<Seq<char>>>, i: int) -> Option<Seq<char>> {
    if 0 <= i < cap.len() {
        cap[i]
    } else {
        None
    }
}

/// The combining mark that a match of the mark pattern stands for: the code
/// point in its first group, of category Mn where the third group took part
/// in the match.
pub open spec fn mark_of(cap: Seq<Option<Seq<char>>>) -> Result<Mark, UcdError> {
    match group(cap, 1) {
        None => Err(UcdError::Groups),
        Some(text) => match code_point(text) {
            None => Err(UcdError::Number),
            Some(code) => Ok(Mark { code, nonspacing: group(cap, 3) is Some }),
        },
    }
}

/// The combining marks that the matches stand for, or the first error.
pub open spec fn marks_of(caps: Seq<Seq<Option<Seq<char>>>>) -> Result<Seq<Mark>, UcdError>
    decreases caps.len(),
{
    if caps.len() == 0 {
        Ok(Seq::empty())
    } else {
        match marks_of(caps.drop_last()) {
            Err(e) => Err(e),
            Ok(list) => match mark_of(caps.last()) {
                Err(e) => Err(e),
                Ok(mark) => Ok(list.push(mark)),
            },
        }
    }
}

/// The entry that a match of the range pattern stands for: the code point
/// in group 2, the one in group 4 as its last where there is one, and the
/// class named in group 5.
pub open spec fn entry_of(cap: Seq<Option<Seq<char>>>) -> Result<Entry, UcdError> {
    match (group(cap, 2), group(cap, 5)) {
        (Some(left), Some(name)) => match code_point(left) {
            None => Err(UcdError::Number),
            Some(first) => if group(cap, 4) matches Some(right) && code_point(right) is None {
                Err(UcdError::Number)
            } else {
                let last = match group(cap, 4) {
                    None => None,
                    Some(right) => code_point(right),
                };
                match class_named(name) {
                    None => Err(UcdError::Class),
                    Some(class) => Ok(Entry { first, last, class }),
                }
            },
        },
        _ => Err(UcdError::Groups),
    }
}

/// The entries that the matches stand for, or the first error.
pub open spec fn entries_of(caps: Seq<Seq<Option<Seq<char>>>>) -> Result<Seq<Entry>, UcdError>
    decreases caps.len(),
{
    if caps.len() == 0 {
        Ok(Seq::empty())
    } else {
        match entries_of(caps.drop_last()) {
            Err(e) => Err(e),
            Ok(list) => match entry_of(caps.last()) {
                Err(e) => Err(e),
                Ok(entry) => Ok(list.push(entry)),
            },
        }
    }
}

/// The code points of the marks, one entry each.
pub open spec fn codes(marks: Seq<Mark>) -> Seq<(u32, Option<u32>)> {
    Seq::new(marks.len(), |i: int| (marks[i].code, None::<u32>))
}

/// The marks in the fewest ranges, each of class CM.
pub open spec fn mark_ranges(marks: Seq<Mark>) -> Seq<ClassRange> {
    let runs = merged(codes(marks));
    Seq::new(
        runs.len(),
        |i: int| ClassRange { first: runs[i].0, last: end_of(runs[i]), class: RawClass::CM },
    )
}

/// The entries as ranges of a table.
pub open spec fn ranges_of(entries: Seq<Entry>) -> Seq<ClassRange> {
    Seq::new(entries.len(), |i: int| entries[i].range())
}

/// The ranges and the marks of the table that is made of the matches of the
/// range pattern and those of the mark pattern, or the first error: one in
/// the marks, one in the ranges, and at last their order.
pub open spec fn table_of(
    ranges: Seq<Seq<Option<Seq<char>>>>,
    marks: Seq<Seq<Option<Seq<char>>>>,
) -> Result<(Seq<ClassRange>, Seq<ClassRange>), UcdError> {
    match marks_of(marks) {
        Err(e) => Err(e),
        Ok(marks) => match entries_of(ranges) {
            Err(e) => Err(e),
            Ok(entries) => if ordered(ranges_of(entries)) && ordered(mark_ranges(marks)) {
                Ok((ranges_of(entries), mark_ranges(marks)))
            } else {
                Err(UcdError::Order)
            },
        },
    }
}

/// Whether `table` is what `expected` asks for: a table with those ranges
/// and marks, or that error.
pub open spec fn is_outcome(
    table: Result<ClassTable, UcdError>,
    expected: Result<(Seq<ClassRange>, Seq<ClassRange>), UcdError>,
) -> bool {
    match expected {
        Ok((ranges, marks)) => table matches Ok(t) && t.ranges() == ranges && t.marks() == marks,
        Err(e) => table matches Err(found) && found == e,
    }
}

/// The text of group `i` of a match.
fn group_text(cap: &Vec<Option<String>>, i: usize) -> (text: Option<&str>)
    ensures
        text is Some <==> group(cap.deep_view(), i as int) is Some,
        text matches Some(s) ==> group(cap.deep_view(), i as int) == Some(s@),
{
    if i < cap.len() {
        assert(cap.deep_view()[i as int] == cap@[i as int].deep_view());
        match &cap[i] {
            Some(s) => Some(s.as_str()),
            None => None,
        }
    } else {
        None
    }
}

/// Reads one match of the mark pattern: see [`mark_of`].
pub fn read_mark(cap: &Vec<Option<String>>) -> (mark: Result<Mark, UcdError>)
    ensures
        mark == mark_of(cap.deep_view()),
{
    match group_text(cap, 1) {
        None => Err(UcdError::Groups),
        Some(text) => match parse_hex(text) {
            None => Err(UcdError::Number),
            Some(code) => Ok(Mark { code, nonspacing: group_text(cap, 3).is_some() }),
        },
    }
}

/// Reads one match of the range pattern: see [`entry_of`].
pub fn read_entry(cap: &Vec<Option<String>>) -> (entry: Result<Entry, UcdError>)
    ensures
        entry == entry_of(cap.deep_view()),
{
    let left = match group_text(cap, 2) {
        Some(left) => left,
        None => {
            return Err(UcdError::Groups);
        },
    };
    let name = match group_text(cap, 5) {
        Some(name) => name,
        None => {
            return Err(UcdError::Groups);
        },
    };
    let first = match parse_hex(left) {
        Some(first) => first,
        None => {
            return Err(UcdError::Number);
        },
    };
    let last = match group_text(cap, 4) {
        None => None,
        Some(right) => match parse_hex(right) {
            Some(last) => Some(last),
            None => {
                return Err(UcdError::Number);
            },
        },
    };
    match parse_class(name) {
        None => Err(UcdError::Class),
        Some(class) => Ok(Entry { first, last, class }),
    }
}

/// Reads the matches of the mark pattern: see [`marks_of`].
pub fn read_marks(caps: &Vec<Vec<Option<String>>>) -> (marks: Result<Vec<Mark>, UcdError>)
    ensures
        marks matches Ok(list) ==> marks_of(caps.deep_view()) == Ok::<_, UcdError>(list@),
        marks matches Err(e) ==> marks_of(caps.deep_view()) == Err::<Seq<Mark>, _>(e),
{
    let mut list: Vec<Mark> = Vec::new();
    let mut i: usize = 0;
    let ghost all = caps.deep_view();
    while i < caps.len()
        invariant
            i <= caps.len(),
            all == caps.deep_view(),
            marks_of(all.take(i as int)) == Ok::<_, UcdError>(list@),
        decreases caps.len() - i,
    {
        proof {
            assert(all.take(i + 1).drop_last() =~= all.take(i as int));
            assert(all.take(i + 1).last() == caps@[i as int].deep_view());
        }
        match read_mark(&caps[i]) {
            Err(e) => {
                proof {
                    lemma_marks_error_stays(all, i + 1, all.len() as int);
                    assert(all.take(all.len() as int) =~= all);
                }
                return Err(e);
            },
            Ok(mark) => {
                list.push(mark);
            },
        }
        i += 1;
    }
    assert(all.take(i as int) =~= all);
    Ok(list)
}

/// Reads the matches of the range pattern: see [`entries_of`].
pub fn read_entries(caps: &Vec<Vec<Option<String>>>) -> (entries: Result<Vec<Entry>, UcdError>)
    ensures
        entries matches Ok(list) ==> entries_of(caps.deep_view()) == Ok::<_, UcdError>(list@),
        entries matches Err(e) ==> entries_of(caps.deep_view()) == Err::<Seq<Entry>, _>(e),
{
    let mut list: Vec<Entry> = Vec::new();
    let mut i: usize = 0;
    let ghost all = caps.deep_view();
    while i < caps.len()
        invariant
            i <= caps.len(),
            all == caps.deep_view(),
            entries_of(all.take(i as int)) == Ok::<_, UcdError>(list@),
        decreases caps.len() - i,
    {
        proof {
            assert(all.take(i + 1).drop_last() =~= all.take(i as int));
            assert(all.take(i + 1).last() == caps@[i as int].deep_view());
        }
        match read_entry(&caps[i]) {
            Err(e) => {
                proof {
                    lemma_entries_error_stays(all, i + 1, all.len() as int);
                    assert(all.take(all.len() as int) =~= all);
                }
                return Err(e);
            },
            Ok(entry) => {
                list.push(entry);
            },
        }
        i += 1;
    }
    assert(all.take(i as int) =~= all);
    Ok(list)
}

/// The first error among the marks is the error of every longer list.
proof fn lemma_marks_error_stays(caps: Seq<Seq<Option<Seq<char>>>>, k: int, n: int)
    requires
        0 <= k <= n <= caps.len(),
        marks_of(caps.take(k)) is Err,
    ensures
        marks_of(caps.take(n)) == marks_of(caps.take(k)),
    decreases n - k,
{
    if k < n {
        lemma_marks_error_stays(caps, k, n - 1);
        assert(caps.take(n).drop_last() =~= caps.take(n - 1));
    }
}

/// The first error among the entries is the error of every longer list.
proof fn lemma_entries_error_stays(caps: Seq<Seq<Option<Seq<char>>>>, k: int, n: int)
    requires
        0 <= k <= n <= caps.len(),
        entries_of(caps.take(k)) is Err,
    ensures
        entries_of(caps.take(n)) == entries_of(caps.take(k)),
    decreases n - k,
{
    if k < n {
        lemma_entries_error_stays(caps, k, n - 1);
        assert(caps.take(n).drop_last() =~= caps.take(n - 1));
    }
}

/// The code points of the marks, one entry each: see [`codes`].
pub fn mark_codes(marks: &Vec<Mark>) -> (list: Vec<(u32, Option<u32>)>)
    ensures
        list@ == codes(marks@),
{
    let mut list: Vec<(u32, Option<u32>)> = Vec::new();
    let mut i: usize = 0;
    while i < marks.len()
        invariant
            i <= marks.len(),
            list@ == codes(marks@).take(i as int),
        decreases marks.len() - i,
    {
        list.push((marks[i].code, None));
        assert(list@ =~= codes(marks@).take(i + 1));
        i += 1;
    }
    assert(list@ =~= codes(marks@));
    list
}

/// The entries as ranges of a table: see [`ranges_of`].
pub fn entry_ranges(entries: &Vec<Entry>) -> (ranges: Vec<ClassRange>)
    ensures
        ranges@ == ranges_of(entries@),
{
    let mut ranges: Vec<ClassRange> = Vec::new();
    let mut i: usize = 0;
    while i < entries.len()
        invariant
            i <= entries.len(),
            ranges@ == ranges_of(entries@).take(i as int),
        decreases entries.len() - i,
    {
        let entry = entries[i];
        let last = match entry.last {
            Some(last) => last,
            None => entry.first,
        };
        ranges.push(ClassRange { first: entry.first, last, class: entry.class });
        assert(ranges@ =~= ranges_of(entries@).take(i + 1));
        i += 1;
    }
    assert(ranges@ =~= ranges_of(entries@));
    ranges
}

/// The marks in the fewest ranges: see [`mark_ranges`].
pub fn compact_marks(marks: &Vec<Mark>) -> (ranges: Vec<ClassRange>)
    ensures
        ranges@ == mark_ranges(marks@),
{
    let runs = merge_adjacent(&mark_codes(marks));
    let mut ranges: Vec<ClassRange> = Vec::new();
    let mut i: usize = 0;
    while i < runs.len()
        invariant
            i <= runs.len(),
            runs@ == merged(codes(marks@)),
            ranges@ == mark_ranges(marks@).take(i as int),
        decreases runs.len() - i,
    {
        let run = runs[i];
        let last = match run.1 {
            Some(last) => last,
            None => run.0,
        };
        ranges.push(ClassRange { first: run.0, last, class: RawClass::CM });
        assert(ranges@ =~= mark_ranges(marks@).take(i + 1));
        i += 1;
    }
    assert(ranges@ =~= mark_ranges(marks@));
    ranges
}

impl ClassTable {
    /// Makes a table of what the range pattern found in `LineBreak.txt` and
    /// what the mark pattern found in `UnicodeData.txt`: see [`table_of`].
    pub fn from_captures(
        ranges: &Vec<Vec<Option<String>>>,
        marks: &Vec<Vec<Option<String>>>,
    ) -> (table: Result<ClassTable, UcdError>)
        ensures
            is_outcome(table, table_of(ranges.deep_view(), marks.deep_view())),
    {
        let marks = match read_marks(marks) {
            Ok(marks) => marks,
            Err(e) => {
                return Err(e);
            },
        };
        let entries = match read_entries(ranges) {
            Ok(entries) => entries,
            Err(e) => {
                return Err(e);
            },
        };
        match ClassTable::new(entry_ranges(&entries), compact_marks(&marks)) {
            Some(table) => Ok(table),
            None => Err(UcdError::Order),
        }
    }

    /// Makes a table of the text of `LineBreak.txt` and of `UnicodeData.txt`.
    ///
    /// Both are searched with the regex crate; where it refuses a pattern the
    /// error is `Pattern`, and else the table is made of what it finds, as
    /// [`ClassTable::from_captures`] makes it.
    pub fn from_ucd(line_break: &str, unicode_data: &str) -> (table: Result<ClassTable, UcdError>)
        ensures
            match (
                regex_captures(MARK_PATTERN@, unicode_data@),
                regex_captures(RANGE_PATTERN@, line_break@),
            ) {
                (Some(marks), Some(ranges)) => is_outcome(table, table_of(ranges, marks)),
                _ => table matches Err(e) && e == UcdError::Pattern,
            },
    {
        let marks = match search(MARK_PATTERN, unicode_data) {
            Ok(marks) => marks,
            Err(e) => {
                return Err(e);
            },
        };
        let ranges = match search(RANGE_PATTERN, line_break) {
            Ok(ranges) => ranges,
            Err(e) => {
                return Err(e);
            },
        };
        ClassTable::from_captures(&ranges, &marks)
    }
}

/// The ranges of the marks list the code points of the marks and no others.
pub proof fn law_marks_are_listed(marks: Seq<Mark>, cp: u32)
    ensures
        listed(mark_ranges(marks), cp) is Some <==> exists|i: int|
            0 <= i < marks.len() && (#[trigger] marks[i]).code == cp,
{
    let list = codes(marks);
    let runs = merged(list);
    let ranges = mark_ranges(marks);
    assert(forward(list));
    law_merged_keeps_code_points(list, cp);
    if covered(list, cp) {
        let i = choose|i: int| 0 <= i < list.len() && covers(#[trigger] list[i], cp);
        assert(marks[i].code == cp);
    }
    if exists|i: int| 0 <= i < marks.len() && (#[trigger] marks[i]).code == cp {
        let i = choose|i: int| 0 <= i < marks.len() && (#[trigger] marks[i]).code == cp;
        assert(covers(list[i], cp));
    }
    if covered(runs, cp) {
        let i = choose|i: int| 0 <= i < runs.len() && covers(#[trigger] runs[i], cp);
        assert(ranges[i].covers(cp));
    }
    if listed(ranges, cp) is Some {
        let i = choose|i: int| 0 <= i < ranges.len() && (#[trigger] ranges[i]).covers(cp);
        assert(covers(runs[i], cp));
    }
}

} // verus!
