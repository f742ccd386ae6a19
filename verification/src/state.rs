//! What the engine remembers between two boundaries, and how one boundary
//! changes it.

use vstd::prelude::*;
use crate::class::Class;
use crate::rules::Break;
use crate::rules::Rule;
use crate::rules::decide;

verus! {

/// What the engine remembers between two boundaries.
pub struct State {
    /// How many regional indicators in a row end at the scalar value on the
    /// left of the next boundary, as far as the engine has counted them.
    pub ri_count: nat,
    /// The class that stood before the run of spaces that is being read.
    pub class_before_spaces: Option<Class>,
    /// Whether the next boundary is prohibited whatever stands there.
    pub next_is_prohibited: bool,
    /// The class that the left side of the next boundary takes over from the
    /// base that it is attached to.
    pub treat_next_n1_as: Option<Class>,
}

/// The state before the first boundary: nothing counted, nothing remembered.
pub open spec fn initial_state() -> State {
    State {
        ri_count: 0,
        class_before_spaces: None,
        next_is_prohibited: false,
        treat_next_n1_as: None,
    }
}

/// The class that the left side of a boundary presents: the class that was
/// carried on to it, unless that is ZWJ, and else its own.
pub open spec fn carried(treat_as: Option<Class>, n1: Class) -> Class {
    match treat_as {
        Some(c) => if c != Class::ZWJ {
            c
        } else {
            n1
        },
        None => n1,
    }
}

/// The count of regional indicators after a boundary with `left` on its left
/// and `n2` on its right: a run that was not counted yet starts at one.
pub open spec fn counted(ri_count: nat, left: Class, n2: Class) -> nat {
    let started = if ri_count == 0 && left == Class::RI {
        1
    } else {
        ri_count
    };
    if n2 == Class::RI {
        started + 1
    } else {
        0
    }
}

/// The class remembered before a run of spaces: set where a run starts.
pub open spec fn remembered(before: Option<Class>, left: Class, n2: Class) -> Option<Class> {
    if left != Class::SP && n2 == Class::SP {
        Some(left)
    } else {
        before
    }
}

/// The left class as the rules see it: a combining mark without a base
/// counts as AL.
pub open spec fn as_base(left: Class) -> Class {
    if left == Class::CM {
        Class::AL
    } else {
        left
    }
}

/// The rule that decides on the boundary between `n1` and `n2` in state
/// `st`. It is meant for a state without a pending prohibition.
pub open spec fn rule_at(st: State, n1: Class, n2: Class) -> Rule {
    let left = carried(st.treat_next_n1_as, n1);
    decide(
        as_base(left),
        n2,
        remembered(st.class_before_spaces, left, n2),
        counted(st.ri_count, left, n2) % 2 == 0,
    )
}

/// The state after the boundary between `n1` and `n2`, reached in state `st`.
pub open spec fn next_state(st: State, n1: Class, n2: Class) -> State {
    if st.next_is_prohibited {
        State {
            ri_count: st.ri_count,
            class_before_spaces: st.class_before_spaces,
            next_is_prohibited: false,
            treat_next_n1_as: st.treat_next_n1_as,
        }
    } else {
        let left = carried(st.treat_next_n1_as, n1);
        let base = as_base(left);
        let rule = rule_at(st, n1, n2);
        State {
            ri_count: counted(st.ri_count, left, n2),
            class_before_spaces: if base == Class::SP && n2 != Class::SP {
                None
            } else {
                remembered(st.class_before_spaces, left, n2)
            },
            next_is_prohibited: rule == Rule::LB21 && base == Class::HL,
            treat_next_n1_as: if rule == Rule::LB9 {
                Some(base)
            } else {
                None
            },
        }
    }
}

/// What the engine says of the boundary between `n1` and `n2`, reached in
/// state `st`: a pending prohibition first, else the verdict of the rule.
pub open spec fn verdict_at(st: State, n1: Class, n2: Class) -> Break {
    if st.next_is_prohibited {
        Break::Prohibited
    } else {
        rule_at(st, n1, n2).verdict()
    }
}

/// The state in which the engine reaches the boundary after `classes[i]`,
/// having started at the first scalar value.
pub open spec fn state_at(classes: Seq<Class>, i: nat) -> State
    decreases i,
{
    if i == 0 {
        initial_state()
    } else {
        next_state(state_at(classes, (i - 1) as nat), classes[i - 1], classes[i as int])
    }
}

/// What the engine says of the boundary after `classes[i]`: the end of the
/// text is an opportunity.
pub open spec fn break_at(classes: Seq<Class>, i: nat) -> Break {
    if i + 1 >= classes.len() {
        Break::Opportunity
    } else {
        verdict_at(state_at(classes, i), classes[i as int], classes[i as int + 1])
    }
}

/// The breaks after each scalar value of a text with the given classes.
pub open spec fn breaks_of(classes: Seq<Class>) -> Seq<Break> {
    Seq::new(classes.len(), |i: int| break_at(classes, i as nat))
}

} // verus!
