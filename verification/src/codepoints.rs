//! Lists of code points in the fewest entries.
//!
//! An entry `(first, None)` stands for the one code point `first`, an entry
//! `(first, Some(last))` for the code points `first..=last`.

use vstd::prelude::*;
use vstd::string::StringExecFns;

verus! {

/// The last code point of an entry.
pub open spec fn end_of(entry: (u32, Option<u32>)) -> u32 {
    match entry.1 {
        Some(last) => last,
        None => entry.0,
    }
}

/// Whether `b` starts at the code point after the last of `a`.
pub open spec fn adjacent(a: (u32, Option<u32>), b: (u32, Option<u32>)) -> bool {
    end_of(a) + 1 == b.0
}

/// The entry for the run of adjacent entries that ends with the `n`th entry
/// of `values`: the entry itself where it is adjacent to none before it, and
/// else the range from the start of the run to its own end.
pub open spec fn open_run(values: Seq<(u32, Option<u32>)>, n: nat) -> (u32, Option<u32>)
    recommends
        1 <= n <= values.len(),
    decreases n,
{
    if n <= 1 {
        values[0]
    } else if adjacent(values[n - 2], values[n - 1]) {
        (open_run(values, (n - 1) as nat).0, Some(end_of(values[n - 1])))
    } else {
        values[n - 1]
    }
}

/// The entries for the runs of adjacent entries that have ended before the
/// `n`th entry of `values`.
pub open spec fn closed_runs(values: Seq<(u32, Option<u32>)>, n: nat) -> Seq<(u32, Option<u32>)>
    recommends
        n <= values.len(),
    decreases n,
{
    if n <= 1 {
        Seq::empty()
    } else if adjacent(values[n - 2], values[n - 1]) {
        closed_runs(values, (n - 1) as nat)
    } else {
        closed_runs(values, (n - 1) as nat).push(open_run(values, (n - 1) as nat))
    }
}

/// `values` with each run of adjacent entries made one entry.
pub open spec fn merged(values: Seq<(u32, Option<u32>)>) -> Seq<(u32, Option<u32>)> {
    if values.len() == 0 {
        Seq::empty()
    } else {
        closed_runs(values, values.len()).push(open_run(values, values.len()))
    }
}

/// The upper-case hexadecimal digit for `d`.
pub open spec fn hex_digit(d: nat) -> char
    recommends
        d < 16,
{
    if d == 0 {
        '0'
    } else if d == 1 {
        '1'
    } else if d == 2 {
        '2'
    } else if d == 3 {
        '3'
    } else if d == 4 {
        '4'
    } else if d == 5 {
        '5'
    } else if d == 6 {
        '6'
    } else if d == 7 {
        '7'
    } else if d == 8 {
        '8'
    } else if d == 9 {
        '9'
    } else if d == 10 {
        'A'
    } else if d == 11 {
        'B'
    } else if d == 12 {
        'C'
    } else if d == 13 {
        'D'
    } else if d == 14 {
        'E'
    } else {
        'F'
    }
}

/// `n` in upper-case hexadecimal digits, without leading zeros.
pub open spec fn upper_hex(n: nat) -> Seq<char>
    decreases n,
{
    if n < 16 {
        seq![hex_digit(n)]
    } else {
        upper_hex(n / 16).push(hex_digit(n % 16))
    }
}

/// The text `...0x` that stands between the two ends of a range.
pub open spec fn range_mark() -> Seq<char> {
    seq!['.', '.', '.', '0', 'x']
}

/// An entry as text: the code point in hexadecimal digits, and for a range
/// its two ends with `...0x` between them.
pub open spec fn formatted(entry: (u32, Option<u32>)) -> Seq<char> {
    match entry.1 {
        Some(last) => upper_hex(entry.0 as nat) + range_mark() + upper_hex(last as nat),
        None => upper_hex(entry.0 as nat),
    }
}

/// Makes each run of adjacent entries one entry.
pub fn merge_adjacent(values: &Vec<(u32, Option<u32>)>) -> (out: Vec<(u32, Option<u32>)>)
    ensures
        out@ == merged(values@),
{
    let mut out: Vec<(u32, Option<u32>)> = Vec::new();
    if values.len() == 0 {
        return out;
    }
    let mut lower: u32 = values[0].0;
    let mut higher: Option<u32> = values[0].1;
    let mut i: usize = 1;
    while i < values.len()
        invariant
            1 <= i <= values.len(),
            out@ == closed_runs(values@, i as nat),
            (lower, higher) == open_run(values@, i as nat),
        decreases values.len() - i,
    {
        let (left_0, right_0) = values[i - 1];
        let (left_1, right_1) = values[i];
        let end_0: u32 = match right_0 {
            Some(x) => x,
            None => left_0,
        };
        let end_1: u32 = match right_1 {
            Some(x) => x,
            None => left_1,
        };
        if left_1 > 0 && end_0 == left_1 - 1 {
            higher = Some(end_1);
        } else {
            out.push((lower, higher));
            lower = left_1;
            higher = right_1;
        }
        i += 1;
    }
    out.push((lower, higher));
    out
}

/// One hexadecimal digit as text.
fn digit_text(d: u32) -> (text: &'static str)
    requires
        d < 16,
    ensures
        text@ == seq![hex_digit(d as nat)],
{
    proof {
        reveal_strlit("0");
        reveal_strlit("1");
        reveal_strlit("2");
        reveal_strlit("3");
        reveal_strlit("4");
        reveal_strlit("5");
        reveal_strlit("6");
        reveal_strlit("7");
        reveal_strlit("8");
        reveal_strlit("9");
        reveal_strlit("A");
        reveal_strlit("B");
        reveal_strlit("C");
        reveal_strlit("D");
        reveal_strlit("E");
        reveal_strlit("F");
    }
    let text = if d == 0 {
        "0"
    } else if d == 1 {
        "1"
    } else if d == 2 {
        "2"
    } else if d == 3 {
        "3"
    } else if d == 4 {
        "4"
    } else if d == 5 {
        "5"
    } else if d == 6 {
        "6"
    } else if d == 7 {
        "7"
    } else if d == 8 {
        "8"
    } else if d == 9 {
        "9"
    } else if d == 10 {
        "A"
    } else if d == 11 {
        "B"
    } else if d == 12 {
        "C"
    } else if d == 13 {
        "D"
    } else if d == 14 {
        "E"
    } else {
        "F"
    };
    assert(text@ =~= seq![hex_digit(d as nat)]);
    text
}

/// Appends `n` in upper-case hexadecimal digits to `out`.
pub fn push_upper_hex(out: &mut String, n: u32)
    ensures
        final(out)@ == old(out)@ + upper_hex(n as nat),
    decreases n,
{
    if n >= 16 {
        push_upper_hex(out, n / 16);
    }
    out.append(digit_text(n % 16));
    assert(out@ =~= old(out)@ + upper_hex(n as nat));
}

/// An entry as text: see [`formatted`].
pub fn format_codepoints(lower: u32, higher: Option<u32>) -> (text: String)
    ensures
        text@ == formatted((lower, higher)),
{
    let mut text = String::new();
    push_upper_hex(&mut text, lower);
    match higher {
        Some(last) => {
            proof {
                reveal_strlit("...0x");
            }
            text.append("...0x");
            push_upper_hex(&mut text, last);
            assert(text@ =~= formatted((lower, higher)));
        },
        None => {
            assert(text@ =~= formatted((lower, higher)));
        },
    }
    text
}

/// Turns a list of code points and ranges into the shortest list of texts
/// that stands for the same code points in the same order: each run of
/// adjacent entries becomes one range, and each entry is written in
/// hexadecimal digits. An empty list gives an empty list.
pub fn squish(values: Vec<(u32, Option<u32>)>) -> (out: Vec<String>)
    ensures
        out@.len() == merged(values@).len(),
        forall|i: int| 0 <= i < out@.len() ==> (#[trigger] out@[i])@ == formatted(merged(values@)[i]),
{
    let collected = merge_adjacent(&values);
    let mut out: Vec<String> = Vec::new();
    let mut i: usize = 0;
    while i < collected.len()
        invariant
            i <= collected.len(),
            out@.len() == i,
            forall|k: int| 0 <= k < i ==> (#[trigger] out@[k])@ == formatted(collected@[k]),
        decreases collected.len() - i,
    {
        let part = collected[i];
        out.push(format_codepoints(part.0, part.1));
        i += 1;
    }
    out
}

/// Whether `cp` is one of the code points of `entry`.
pub open spec fn covers(entry: (u32, Option<u32>), cp: u32) -> bool {
    entry.0 <= cp <= end_of(entry)
}

/// Whether `cp` is one of the code points of an entry of `values`.
pub open spec fn covered(values: Seq<(u32, Option<u32>)>, cp: u32) -> bool {
    exists|i: int| 0 <= i < values.len() && covers(#[trigger] values[i], cp)
}

/// Whether no range of `values` ends before it starts.
pub open spec fn forward(values: Seq<(u32, Option<u32>)>) -> bool {
    forall|i: int| 0 <= i < values.len() ==> (#[trigger] values[i]).0 <= end_of(values[i])
}

/// A list with one more entry covers what the list covers and what the
/// entry covers.
proof fn lemma_covered_push(values: Seq<(u32, Option<u32>)>, entry: (u32, Option<u32>), cp: u32)
    ensures
        covered(values.push(entry), cp) == (covered(values, cp) || covers(entry, cp)),
{
    let more = values.push(entry);
    if covered(values, cp) {
        let i = choose|i: int| 0 <= i < values.len() && covers(#[trigger] values[i], cp);
        assert(covers(more[i], cp));
    }
    if covers(entry, cp) {
        assert(covers(more[values.len() as int], cp));
    }
    if covered(more, cp) {
        let i = choose|i: int| 0 <= i < more.len() && covers(#[trigger] more[i], cp);
        if i < values.len() {
            assert(covers(values[i], cp));
        }
    }
}

/// The runs of the first `n` entries cover what those entries cover, and the
/// open run ends where the `n`th entry ends.
proof fn lemma_runs_cover(values: Seq<(u32, Option<u32>)>, n: nat, cp: u32)
    requires
        forward(values),
        1 <= n <= values.len(),
    ensures
        covered(closed_runs(values, n).push(open_run(values, n)), cp) == covered(
            values.take(n as int),
            cp,
        ),
        end_of(open_run(values, n)) == end_of(values[n - 1]),
        open_run(values, n).0 <= end_of(open_run(values, n)),
    decreases n,
{
    let closed = closed_runs(values, n);
    let open = open_run(values, n);
    if n == 1 {
        assert(closed.push(open) =~= values.take(1));
    } else {
        let before = (n - 1) as nat;
        lemma_runs_cover(values, before, cp);
        let closed_before = closed_runs(values, before);
        let open_before = open_run(values, before);
        assert(values.take(n as int) =~= values.take(before as int).push(values[n - 1]));
        lemma_covered_push(values.take(before as int), values[n - 1], cp);
        lemma_covered_push(closed_before, open_before, cp);
        lemma_covered_push(closed, open, cp);
        if !adjacent(values[n - 2], values[n - 1]) {
            lemma_covered_push(closed_before.push(open_before), values[n - 1], cp);
        }
    }
}

/// Merging keeps the code points: where no range ends before it starts, the
/// merged list covers a code point if and only if the list does.
pub proof fn law_merged_keeps_code_points(values: Seq<(u32, Option<u32>)>, cp: u32)
    requires
        forward(values),
    ensures
        covered(merged(values), cp) == covered(values, cp),
{
    if values.len() > 0 {
        lemma_runs_cover(values, values.len(), cp);
        assert(values.take(values.len() as int) =~= values);
    }
}

/// Whether no entry of `values` is adjacent to the one before it.
pub open spec fn compact(values: Seq<(u32, Option<u32>)>) -> bool {
    forall|i: int| 0 < i < values.len() ==> !adjacent(values[i - 1], #[trigger] values[i])
}

/// Among the runs of the first `n` entries none is adjacent to the one
/// before it.
proof fn lemma_runs_compact(values: Seq<(u32, Option<u32>)>, n: nat)
    requires
        1 <= n <= values.len(),
    ensures
        compact(closed_runs(values, n).push(open_run(values, n))),
        end_of(open_run(values, n)) == end_of(values[n - 1]),
    decreases n,
{
    if n > 1 {
        let before = (n - 1) as nat;
        lemma_runs_compact(values, before);
        let runs_before = closed_runs(values, before).push(open_run(values, before));
        let runs = closed_runs(values, n).push(open_run(values, n));
        assert forall|i: int| 0 < i < runs.len() implies !adjacent(runs[i - 1], #[trigger] runs[i]) by {
            if adjacent(values[n - 2], values[n - 1]) {
                assert(runs.len() == runs_before.len());
                assert(!adjacent(runs_before[i - 1], runs_before[i]));
            } else if i < runs_before.len() {
                assert(!adjacent(runs_before[i - 1], runs_before[i]));
            }
        }
    }
}

/// Merging leaves nothing to merge: no entry of the merged list is adjacent
/// to the one before it.
pub proof fn law_merged_is_compact(values: Seq<(u32, Option<u32>)>)
    ensures
        compact(merged(values)),
{
    if values.len() > 0 {
        lemma_runs_compact(values, values.len());
    }
}

} // verus!
