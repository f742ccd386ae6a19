//! What holds of every text.

use vstd::prelude::*;
use crate::class::Class;
use crate::rules::Break;
use crate::rules::Rule;
use crate::state::State;
use crate::state::breaks_of;
use crate::state::carried;
use crate::state::next_state;
use crate::state::rule_at;
use crate::state::state_at;
use crate::table::ClassRange;
use crate::table::resolved_class;

verus! {

/// What a state that the engine can reach has in common with the class
/// `here` on the left of the boundary that it has come to: a class is carried
/// on only to a combining mark or joiner, a prohibition is pending only after
/// BA or HY, the two never at once, and regional indicators are counted only
/// while they last.
pub open spec fn fits(st: State, here: Class) -> bool {
    &&& st.treat_next_n1_as is Some ==> (here == Class::CM || here == Class::ZWJ)
        && !st.next_is_prohibited
    &&& st.next_is_prohibited ==> (here == Class::BA || here == Class::HY) && st.ri_count == 0
    &&& here != Class::RI ==> st.ri_count == 0
}

/// The class that the scalar value at `i` presents to the one after it: its
/// own, or the class of the base that it is attached to.
pub open spec fn presented(classes: Seq<Class>, i: nat) -> Class {
    carried(state_at(classes, i).treat_next_n1_as, classes[i as int])
}

/// One boundary takes a state that fits its left side to a state that fits
/// its right side.
pub proof fn lemma_step_fits(st: State, n1: Class, n2: Class)
    requires
        fits(st, n1),
    ensures
        fits(next_state(st, n1, n2), n2),
{
    if !st.next_is_prohibited {
        let rule = rule_at(st, n1, n2);
        assert(rule == Rule::LB9 ==> n2 == Class::CM || n2 == Class::ZWJ);
        assert(rule == Rule::LB21 ==> n2 == Class::BA || n2 == Class::HY);
    }
}

/// Every state on the way through a text fits the class that it has come to.
pub proof fn lemma_state_fits(classes: Seq<Class>, i: nat)
    requires
        i < classes.len(),
    ensures
        fits(state_at(classes, i), classes[i as int]),
    decreases i,
{
    if i > 0 {
        lemma_state_fits(classes, (i - 1) as nat);
        lemma_step_fits(state_at(classes, (i - 1) as nat), classes[i - 1], classes[i as int]);
    }
}

/// There is one break for each scalar value.
pub proof fn law_one_break_each(classes: Seq<Class>)
    ensures
        breaks_of(classes).len() == classes.len(),
{
}

/// The break after the last scalar value is an opportunity.
pub proof fn law_last_is_opportunity(classes: Seq<Class>)
    requires
        classes.len() > 0,
    ensures
        breaks_of(classes).last() == Break::Opportunity,
{
}

/// Between CR and an LF right after it no break is allowed, so none is
/// mandatory.
pub proof fn law_cr_lf_kept_together(classes: Seq<Class>, i: nat)
    requires
        i + 1 < classes.len(),
        classes[i as int] == Class::CR,
        classes[i as int + 1] == Class::LF,
    ensures
        breaks_of(classes)[i as int] == Break::Prohibited,
        breaks_of(classes)[i as int] != Break::Mandatory,
{
    lemma_state_fits(classes, i);
}

/// After BK, LF and NL the break is mandatory, and after a CR that no LF
/// follows, wherever another scalar value follows.
pub proof fn law_hard_breaks(classes: Seq<Class>, i: nat)
    requires
        i + 1 < classes.len(),
        classes[i as int] == Class::BK || classes[i as int] == Class::LF || classes[i as int]
            == Class::NL || (classes[i as int] == Class::CR && classes[i as int + 1] != Class::LF),
    ensures
        breaks_of(classes)[i as int] == Break::Mandatory,
{
    lemma_state_fits(classes, i);
}

/// Inside a run of regional indicators the count goes up by one at each
/// boundary, from two at the first.
proof fn lemma_ri_run_counts(classes: Seq<Class>, start: nat, i: nat)
    requires
        start <= i,
        i + 1 < classes.len(),
        forall|k: int| start <= k <= i + 1 ==> classes[k] == Class::RI,
        start == 0 || presented(classes, (start - 1) as nat) != Class::RI,
    ensures
        state_at(classes, (i + 1) as nat).ri_count == i - start + 2,
        !state_at(classes, i).next_is_prohibited,
        state_at(classes, i).treat_next_n1_as is None,
    decreases i,
{
    lemma_state_fits(classes, i);
    if i > start {
        lemma_ri_run_counts(classes, start, (i - 1) as nat);
    } else if start > 0 {
        lemma_state_fits(classes, (start - 1) as nat);
    }
}

/// In a run of regional indicators that starts the text, or follows a scalar
/// value that presents another class, the boundaries are prohibited and
/// allowed in turn: no break inside the first pair, one after it, none
/// inside the second pair, and so on.
pub proof fn law_regional_indicators_pair_up(classes: Seq<Class>, start: nat, i: nat)
    requires
        start <= i,
        i + 1 < classes.len(),
        forall|k: int| start <= k <= i + 1 ==> classes[k] == Class::RI,
        start == 0 || presented(classes, (start - 1) as nat) != Class::RI,
    ensures
        breaks_of(classes)[i as int] == if (i - start) % 2 == 0 {
            Break::Prohibited
        } else {
            Break::Opportunity
        },
{
    lemma_ri_run_counts(classes, start, i);
}

/// No scalar value is given one of the classes that rule LB1 resolves away:
/// AI, CJ, SA and SG have no variant in `Class`, and XX is never the result.
pub proof fn law_class_is_resolved(ranges: Seq<ClassRange>, marks: Seq<ClassRange>, cp: u32)
    ensures
        resolved_class(ranges, marks, cp) != Class::XX,
{
}

} // verus!
