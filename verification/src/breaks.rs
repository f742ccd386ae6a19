//! The engine: it walks a string and classifies the boundary after each
//! scalar value.

use vstd::prelude::*;
use crate::class::Class;
use crate::rules::Break;
use crate::rules::Rule;
use crate::rules::rule_for;
use crate::scalars::first;
use crate::scalars::split_first;
use crate::state::State;
use crate::state::breaks_of;
use crate::state::carried;
use crate::state::counted;
use crate::state::initial_state;
use crate::state::next_state;
use crate::state::rule_at;
use crate::state::state_at;
use crate::state::verdict_at;
use crate::table::ClassTable;

verus! {

/// A count of regional indicators in a row. Only whether it is zero, odd or
/// even is kept in memory, so that no text is long enough to overflow it.
struct RiCount {
    folded: u8,
    count: Ghost<nat>,
}

/// Zero for zero, one for an odd count, two for an even one.
spec fn fold(count: nat) -> u8 {
    if count == 0 {
        0
    } else if count % 2 == 1 {
        1
    } else {
        2
    }
}

impl RiCount {
    #[verifier::type_invariant]
    spec fn well_formed(&self) -> bool {
        self.folded == fold(self.count@)
    }

    /// The count.
    spec fn view(&self) -> nat {
        self.count@
    }

    /// A count of zero.
    fn zero() -> (r: RiCount)
        ensures
            r@ == 0,
    {
        RiCount { folded: 0, count: Ghost(0) }
    }

    /// The count after a boundary: see [`counted`].
    fn after(&self, left: Class, n2: Class) -> (r: RiCount)
        ensures
            r@ == counted(self@, left, n2),
    {
        proof {
            use_type_invariant(self);
        }
        if n2 == Class::RI {
            let started: u8 = if self.folded == 0 && left == Class::RI {
                1
            } else {
                self.folded
            };
            let folded: u8 = if started == 1 {
                2
            } else {
                1
            };
            RiCount { folded, count: Ghost(counted(self.count@, left, n2)) }
        } else {
            RiCount { folded: 0, count: Ghost(0) }
        }
    }

    /// Whether the count is even.
    fn is_even(&self) -> (even: bool)
        ensures
            even == (self@ % 2 == 0),
    {
        proof {
            use_type_invariant(self);
        }
        self.folded != 1
    }
}

/// The classes of the scalar values of `text` by `table`.
pub open spec fn classes_of(table: ClassTable, text: Seq<char>) -> Seq<Class> {
    Seq::new(text.len(), |i: int| table.class_of(text[i]))
}

/// What a walk over `text` yields: each scalar value with the break after it.
pub open spec fn break_info_of(table: ClassTable, text: Seq<char>) -> Seq<(char, Break)> {
    Seq::new(text.len(), |i: int| (text[i], breaks_of(classes_of(table, text))[i]))
}

/// A walk over a string that yields, for each scalar value, whether a line
/// may be broken after it.
///
/// The position before the first scalar value is not reported: no line is
/// broken there.
pub struct BreakInfo<'a> {
    table: &'a ClassTable,
    rest: &'a str,
    ri_count: RiCount,
    class_before_spaces: Option<Class>,
    next_is_prohibited: bool,
    treat_next_n1_as: Option<Class>,
}

impl<'a> BreakInfo<'a> {
    /// What the engine remembers.
    pub closed spec fn state(&self) -> State {
        State {
            ri_count: self.ri_count@,
            class_before_spaces: self.class_before_spaces,
            next_is_prohibited: self.next_is_prohibited,
            treat_next_n1_as: self.treat_next_n1_as,
        }
    }

    /// The scalar values that are yet to be yielded.
    pub closed spec fn remaining(&self) -> Seq<char> {
        self.rest@
    }

    /// The table that gives the scalar values their classes.
    pub closed spec fn table(&self) -> ClassTable {
        *self.table
    }

    /// Starts a walk over `input`, with classes by `table`.
    pub fn new(input: &'a str, table: &'a ClassTable) -> (info: BreakInfo<'a>)
        ensures
            info.state() == initial_state(),
            info.remaining() == input@,
            info.table() == *table,
    {
        BreakInfo {
            table,
            rest: input,
            ri_count: RiCount::zero(),
            class_before_spaces: None,
            next_is_prohibited: false,
            treat_next_n1_as: None,
        }
    }

    /// Classifies the boundary between a scalar value of class `n1` and one
    /// of class `n2`, and remembers what later boundaries need.
    pub fn get_break(&mut self, n1: Class, n2: Class) -> (b: Break)
        ensures
            b == verdict_at(old(self).state(), n1, n2),
            final(self).state() == next_state(old(self).state(), n1, n2),
            final(self).remaining() == old(self).remaining(),
            final(self).table() == old(self).table(),
    {
        if self.next_is_prohibited {
            self.next_is_prohibited = false;
            return Break::Prohibited;
        }
        let mut left = n1;
        if let Some(c) = self.treat_next_n1_as {
            if c != Class::ZWJ {
                left = c;
            }
            self.treat_next_n1_as = None;
        }
        assert(left == carried(old(self).state().treat_next_n1_as, n1));

        self.ri_count = self.ri_count.after(left, n2);

        if left != Class::SP && n2 == Class::SP {
            self.class_before_spaces = Some(left);
        }
        let base = if left == Class::CM {
            Class::AL
        } else {
            left
        };

        let rule = rule_for(base, n2, self.class_before_spaces, self.ri_count.is_even());
        assert(rule == rule_at(old(self).state(), n1, n2));
        if rule == Rule::LB9 {
            self.treat_next_n1_as = Some(base);
        }
        if rule == Rule::LB21 && base == Class::HL {
            self.next_is_prohibited = true;
        }
        if base == Class::SP && n2 != Class::SP {
            self.class_before_spaces = None;
        }
        rule.outcome()
    }

    /// Yields the next scalar value with the break after it, or `None` at
    /// the end of the string. The break after the last scalar value is an
    /// opportunity.
    pub fn next(&mut self) -> (item: Option<(char, Break)>)
        ensures
            final(self).table() == old(self).table(),
            old(self).remaining().len() == 0 ==> item is None && final(self).state() == old(
                self,
            ).state() && final(self).remaining() == old(self).remaining(),
            old(self).remaining().len() > 0 ==> final(self).remaining() == old(
                self,
            ).remaining().drop_first(),
            old(self).remaining().len() == 1 ==> item == Some(
                (old(self).remaining()[0], Break::Opportunity),
            ) && final(self).state() == old(self).state(),
            old(self).remaining().len() > 1 ==> ({
                let n1 = old(self).table().class_of(old(self).remaining()[0]);
                let n2 = old(self).table().class_of(old(self).remaining()[1]);
                &&& item == Some((old(self).remaining()[0], verdict_at(old(self).state(), n1, n2)))
                &&& final(self).state() == next_state(old(self).state(), n1, n2)
            }),
    {
        match split_first(self.rest) {
            None => None,
            Some((a, rest)) => {
                self.rest = rest;
                match first(rest) {
                    None => Some((a, Break::Opportunity)),
                    Some(b) => {
                        let n1 = self.table.class(a);
                        let n2 = self.table.class(b);
                        let br = self.get_break(n1, n2);
                        Some((a, br))
                    },
                }
            },
        }
    }
}

/// Walks over all of `input` and collects what the walk yields: one item for
/// each scalar value, with the break after it; the last break is an
/// opportunity.
pub fn break_info(input: &str, table: &ClassTable) -> (out: Vec<(char, Break)>)
    ensures
        out@ == break_info_of(*table, input@),
        out@.len() == input@.len(),
        out@.len() > 0 ==> out@.last().1 == Break::Opportunity,
{
    let mut info = BreakInfo::new(input, table);
    let mut out: Vec<(char, Break)> = Vec::new();
    let ghost classes = classes_of(*table, input@);
    let ghost all = break_info_of(*table, input@);
    loop
        invariant
            info.table() == *table,
            classes == classes_of(*table, input@),
            all == break_info_of(*table, input@),
            out@.len() <= input@.len(),
            info.remaining() == input@.skip(out@.len() as int),
            out@.len() < input@.len() ==> info.state() == state_at(classes, out@.len()),
            out@ == all.take(out@.len() as int),
        decreases info.remaining().len(),
    {
        let ghost done: int = out@.len() as int;
        match info.next() {
            None => {
                assert(all.take(out@.len() as int) =~= all);
                return out;
            },
            Some(item) => {
                out.push(item);
                proof {
                    assert(input@.skip(done).drop_first() =~= input@.skip(done + 1));
                    assert(input@.skip(done)[0] == input@[done]);
                    if done + 1 < input@.len() {
                        assert(input@.skip(done)[1] == input@[done + 1]);
                        assert(classes[done] == table.class_of(input@[done]));
                        assert(classes[done + 1] == table.class_of(input@[done + 1]));
                        assert(state_at(classes, (done + 1) as nat) == next_state(
                            state_at(classes, done as nat),
                            classes[done],
                            classes[done + 1],
                        ));
                    }
                    assert(item == all[done]);
                    assert(out@ =~= all.take(done + 1));
                }
            },
        }
    }
}

} // verus!
