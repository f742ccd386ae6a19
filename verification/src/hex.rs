//! Reading code points written in hexadecimal digits.

use vstd::prelude::*;
use crate::scalars::split_first;

verus! {

/// The value of a hexadecimal digit, in either case.
pub open spec fn hex_digit_value(c: char) -> Option<nat> {
    if '0' <= c <= '9' {
        Some((c as u32 - '0' as u32) as nat)
    } else if 'A' <= c <= 'F' {
        Some((c as u32 - 'A' as u32 + 10) as nat)
    } else if 'a' <= c <= 'f' {
        Some((c as u32 - 'a' as u32 + 10) as nat)
    } else {
        None
    }
}

/// The number that `s` is in hexadecimal digits; `None` where `s` is empty
/// or holds anything but such digits.
pub open spec fn hex_value(s: Seq<char>) -> Option<nat>
    decreases s.len(),
{
    if s.len() == 0 {
        None
    } else {
        match hex_digit_value(s.last()) {
            None => None,
            Some(d) => if s.len() == 1 {
                Some(d)
            } else {
                match hex_value(s.drop_last()) {
                    None => None,
                    Some(v) => Some(16 * v + d),
                }
            },
        }
    }
}

/// The number that `s` is in hexadecimal digits, where it fits 32 bits.
pub open spec fn code_point(s: Seq<char>) -> Option<u32> {
    match hex_value(s) {
        Some(v) => if v <= u32::MAX {
            Some(v as u32)
        } else {
            None
        },
        None => None,
    }
}

/// The value of a hexadecimal digit.
pub fn digit_value(c: char) -> (d: Option<u32>)
    ensures
        d matches Some(v) ==> hex_digit_value(c) == Some(v as nat) && v < 16,
        d is None ==> hex_digit_value(c) is None,
{
    if '0' <= c && c <= '9' {
        Some(c as u32 - '0' as u32)
    } else if 'A' <= c && c <= 'F' {
        Some(c as u32 - 'A' as u32 + 10)
    } else if 'a' <= c && c <= 'f' {
        Some(c as u32 - 'a' as u32 + 10)
    } else {
        None
    }
}

/// Digits after a number that is too large leave it too large, and digits
/// after what is no number leave it none.
proof fn lemma_no_way_back(s: Seq<char>, k: int, n: int)
    requires
        1 <= k <= n <= s.len(),
        code_point(s.take(k)) is None,
    ensures
        code_point(s.take(n)) is None,
    decreases n - k,
{
    if k < n {
        lemma_no_way_back(s, k, n - 1);
        assert(s.take(n).drop_last() =~= s.take(n - 1));
    }
}

/// Reads a code point in hexadecimal digits: `None` where `text` is empty,
/// holds anything but such digits, or is a number that does not fit 32 bits.
pub fn parse_hex(text: &str) -> (r: Option<u32>)
    ensures
        r == code_point(text@),
{
    let mut rest: &str = text;
    let mut acc: u32 = 0;
    let mut any = false;
    let ghost mut done: int = 0;
    loop
        invariant
            0 <= done <= text@.len(),
            rest@ == text@.skip(done),
            done > 0 ==> hex_value(text@.take(done)) == Some(acc as nat),
            done == 0 ==> acc == 0,
            any == (done > 0),
        decreases rest@.len(),
    {
        match split_first(rest) {
            None => {
                assert(text@.take(done) =~= text@);
                if !any {
                    return None;
                }
                return Some(acc);
            },
            Some((c, tail)) => {
                proof {
                    assert(c == text@[done]);
                    assert(text@.skip(done).drop_first() =~= text@.skip(done + 1));
                    assert(text@.take(done + 1).drop_last() =~= text@.take(done));
                    assert(text@.take(done + 1).last() == c);
                    assert(text@.take(text@.len() as int) =~= text@);
                }
                match digit_value(c) {
                    None => {
                        proof {
                            lemma_no_way_back(text@, done + 1, text@.len() as int);
                        }
                        return None;
                    },
                    Some(d) => {
                        if acc > (u32::MAX - d) / 16 {
                            proof {
                                lemma_no_way_back(text@, done + 1, text@.len() as int);
                            }
                            return None;
                        }
                        acc = acc * 16 + d;
                        rest = tail;
                        any = true;
                        proof {
                            done = done + 1;
                        }
                    },
                }
            },
        }
    }
}

} // verus!
