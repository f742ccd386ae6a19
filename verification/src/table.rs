//! The table that gives each scalar value its line breaking class.

use vstd::prelude::*;
use crate::class::Class;
use crate::class::RawClass;
use crate::class::default_class;
use crate::class::unlisted_class;

verus! {

/// The scalar values `first..=last`, all of one class.
#[derive(Debug, PartialEq, Eq, Clone, Copy, Structural)]
pub struct ClassRange {
    pub first: u32,
    pub last: u32,
    pub class: RawClass,
}

impl ClassRange {
    /// Whether `cp` lies in the range.
    pub open spec fn covers(self, cp: u32) -> bool {
        self.first <= cp <= self.last
    }
}

/// Whether the ranges are non-empty, in rising order and apart from one
/// another.
pub open spec fn ordered(ranges: Seq<ClassRange>) -> bool {
    &&& forall|i: int| 0 <= i < ranges.len() ==> (#[trigger] ranges[i]).first <= ranges[i].last
    &&& forall|i: int, j: int|
        0 <= i < j < ranges.len() ==> (#[trigger] ranges[i]).last < (#[trigger] ranges[j]).first
}

/// The class of the range that covers `cp`, if one does.
pub open spec fn listed(ranges: Seq<ClassRange>, cp: u32) -> Option<RawClass> {
    if exists|i: int| 0 <= i < ranges.len() && (#[trigger] ranges[i]).covers(cp) {
        Some(ranges[choose|i: int| 0 <= i < ranges.len() && (#[trigger] ranges[i]).covers(cp)].class)
    } else {
        None
    }
}

/// The class that a table with the given ranges and marks gives to `cp`:
/// that of the range that lists it, with rule LB1 applied, where `cp` counts
/// as a combining mark if `marks` lists it; the default where no range does.
pub open spec fn resolved_class(ranges: Seq<ClassRange>, marks: Seq<ClassRange>, cp: u32) -> Class {
    match listed(ranges, cp) {
        Some(raw) => raw.resolved(listed(marks, cp) is Some),
        None => default_class(cp),
    }
}

/// In ordered ranges at most one range covers a scalar value, so `listed`
/// gives the class of any range that does.
pub proof fn lemma_listed_unique(ranges: Seq<ClassRange>, cp: u32, i: int)
    requires
        ordered(ranges),
        0 <= i < ranges.len(),
        ranges[i].covers(cp),
    ensures
        listed(ranges, cp) == Some(ranges[i].class),
{
    let j = choose|j: int| 0 <= j < ranges.len() && (#[trigger] ranges[j]).covers(cp);
    if j < i {
        assert(ranges[j].last < ranges[i].first);
    } else if i < j {
        assert(ranges[i].last < ranges[j].first);
    }
}

/// Tells whether `ranges` is ordered.
pub fn is_ordered(ranges: &Vec<ClassRange>) -> (ok: bool)
    ensures
        ok == ordered(ranges@),
{
    let mut i: usize = 0;
    while i < ranges.len()
        invariant
            i <= ranges.len(),
            ordered(ranges@.take(i as int)),
        decreases ranges.len() - i,
    {
        let r = ranges[i];
        if r.first > r.last {
            return false;
        }
        if i > 0 && ranges[i - 1].last >= r.first {
            assert(!(ranges@[i - 1].last < ranges@[i as int].first));
            return false;
        }
        proof {
            let before = ranges@.take(i as int);
            let now = ranges@.take(i + 1);
            assert forall|a: int, b: int| 0 <= a < b < now.len() implies (#[trigger] now[a]).last
                < (#[trigger] now[b]).first by {
                if b < i {
                    assert(before[a].last < before[b].first);
                } else if a < i - 1 {
                    assert(before[a].last < before[i - 1].first);
                }
            }
            assert forall|a: int| 0 <= a < now.len() implies (#[trigger] now[a]).first
                <= now[a].last by {
                if a < i {
                    assert(before[a].first <= before[a].last);
                }
            }
        }
        i += 1;
    }
    assert(ranges@.take(i as int) =~= ranges@);
    true
}

/// Looks `cp` up in ordered ranges.
pub fn find(ranges: &Vec<ClassRange>, cp: u32) -> (found: Option<RawClass>)
    requires
        ordered(ranges@),
    ensures
        found == listed(ranges@, cp),
{
    let mut lo: usize = 0;
    let mut hi: usize = ranges.len();
    while lo < hi
        invariant
            lo <= hi <= ranges.len(),
            ordered(ranges@),
            forall|k: int| 0 <= k < lo ==> (#[trigger] ranges@[k]).last < cp,
            forall|k: int| hi <= k < ranges.len() ==> cp < (#[trigger] ranges@[k]).first,
        decreases hi - lo,
    {
        let mid = lo + (hi - lo) / 2;
        let r = ranges[mid];
        if r.last < cp {
            assert forall|k: int| 0 <= k < mid + 1 implies (#[trigger] ranges@[k]).last < cp by {
                if k < mid {
                    assert(ranges@[k].last < ranges@[mid as int].first);
                }
            }
            lo = mid + 1;
        } else if cp < r.first {
            assert forall|k: int| mid <= k < ranges.len() implies cp < (#[trigger] ranges@[k]).first by {
                if mid < k {
                    assert(ranges@[mid as int].last < ranges@[k].first);
                }
            }
            hi = mid;
        } else {
            proof {
                lemma_listed_unique(ranges@, cp, mid as int);
            }
            return Some(r.class);
        }
    }
    None
}

/// A table of line breaking classes: ranges of scalar values with the class
/// that the Unicode data gives them, and the ranges of the combining marks.
pub struct ClassTable {
    ranges: Vec<ClassRange>,
    marks: Vec<ClassRange>,
}

impl ClassTable {
    #[verifier::type_invariant]
    spec fn well_formed(&self) -> bool {
        ordered(self.ranges@) && ordered(self.marks@)
    }

    /// The ranges that the table lists, in rising order.
    pub closed spec fn ranges(&self) -> Seq<ClassRange> {
        self.ranges@
    }

    /// The ranges of combining marks, in rising order.
    pub closed spec fn marks(&self) -> Seq<ClassRange> {
        self.marks@
    }

    /// The class of `c` by this table.
    pub open spec fn class_of(&self, c: char) -> Class {
        resolved_class(self.ranges(), self.marks(), c as u32)
    }

    /// A table that lists nothing: every scalar value has its default class.
    pub fn empty() -> (table: ClassTable)
        ensures
            table.ranges() == Seq::<ClassRange>::empty(),
            table.marks() == Seq::<ClassRange>::empty(),
    {
        ClassTable { ranges: Vec::new(), marks: Vec::new() }
    }

    /// Makes a table of `ranges` and `marks`, if both are ordered.
    pub fn new(ranges: Vec<ClassRange>, marks: Vec<ClassRange>) -> (table: Option<ClassTable>)
        ensures
            table is Some <==> ordered(ranges@) && ordered(marks@),
            table matches Some(t) ==> t.ranges() == ranges@ && t.marks() == marks@,
    {
        if is_ordered(&ranges) && is_ordered(&marks) {
            Some(ClassTable { ranges, marks })
        } else {
            None
        }
    }

    /// The line breaking class of `c`. It is never `XX`.
    pub fn class(&self, c: char) -> (class: Class)
        ensures
            class == self.class_of(c),
            class != Class::XX,
    {
        proof {
            use_type_invariant(self);
        }
        let cp: u32 = c as u32;
        match find(&self.ranges, cp) {
            Some(RawClass::SA) => RawClass::SA.resolve(find(&self.marks, cp).is_some()),
            Some(raw) => raw.resolve(false),
            None => unlisted_class(cp),
        }
    }
}

} // verus!
