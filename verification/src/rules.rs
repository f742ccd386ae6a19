//! The ordered rules that decide on a boundary between two classes.

use vstd::prelude::*;
use crate::class::Class;

verus! {

/// Whether a line may be broken at a boundary.
#[derive(Debug, PartialEq, Eq, Clone, Copy, Structural)]
pub enum Break {
    /// The line must be broken here.
    Mandatory,
    /// The line may be broken here.
    Opportunity,
    /// The line must not be broken here.
    Prohibited,
}

/// The rule that decides on a boundary. The rules are tried in the order of
/// the variants; the first whose guard holds decides.
#[derive(Debug, PartialEq, Eq, Clone, Copy, Structural)]
pub enum Rule {
    /// BK !
    LB4,
    /// CR × LF
    LB5a,
    /// CR !, LF !, NL !
    LB5b,
    /// × (BK | CR | LF | NL)
    LB6,
    /// × SP, × ZW
    LB7,
    /// ZW ÷
    LB8a,
    /// ZW SP+ ÷
    LB8b,
    /// ZWJ ×
    LB8c,
    /// × (CM | ZWJ) after a base that carries its class on
    LB9,
    /// × WJ, WJ ×
    LB11,
    /// GL ×
    LB12,
    /// [^SP BA HY] × GL
    LB12a,
    /// × (CL | CP | EX | IS | SY)
    LB13,
    /// OP ×
    LB14a,
    /// OP SP+ ×
    LB14b,
    /// QU × OP
    LB15a,
    /// QU SP+ × OP
    LB15b,
    /// (CL | CP) × NS
    LB16a,
    /// (CL | CP) SP+ × NS
    LB16b,
    /// B2 × B2
    LB17a,
    /// B2 SP+ × B2
    LB17b,
    /// SP ÷
    LB18,
    /// × QU, QU ×
    LB19,
    /// ÷ CB, CB ÷
    LB20,
    /// × BA, × HY
    LB21,
    /// × NS, BB ×
    LB21NsBb,
    /// SY × HL
    LB21b,
    /// (AL | HL | EX | ID | EB | EM | IN | NU) × IN
    LB22,
    /// (AL | HL) × NU, NU × (AL | HL)
    LB23,
    /// PR × (ID | EB | EM), (ID | EB | EM) × PO
    LB23a,
    /// (PR | PO) × (AL | HL), (AL | HL) × (PR | PO)
    LB24,
    /// Pairs inside a number
    LB25,
    /// Pairs inside a Korean syllable block
    LB26,
    /// A Korean syllable block before IN or PO, or after PR
    LB27,
    /// (AL | HL) × (AL | HL)
    LB28,
    /// IS × (AL | HL)
    LB29,
    /// (AL | HL | NU) × OP, CP × (AL | HL | NU)
    LB30,
    /// RI × RI, where that completes a pair
    LB30a,
    /// EB × EM
    LB30b,
    /// ÷ everywhere else
    LB31,
}

impl Rule {
    /// What the rule says of the boundary it decides on.
    pub open spec fn verdict(self) -> Break {
        match self {
            Rule::LB4 | Rule::LB5b => Break::Mandatory,
            Rule::LB8a | Rule::LB8b | Rule::LB18 | Rule::LB20 | Rule::LB31 => Break::Opportunity,
            _ => Break::Prohibited,
        }
    }

    /// Computes [`Rule::verdict`].
    pub fn outcome(self) -> (b: Break)
        ensures
            b == self.verdict(),
    {
        match self {
            Rule::LB4 | Rule::LB5b => Break::Mandatory,
            Rule::LB8a | Rule::LB8b | Rule::LB18 | Rule::LB20 | Rule::LB31 => Break::Opportunity,
            _ => Break::Prohibited,
        }
    }
}

/// AL or HL.
pub open spec fn is_letter(c: Class) -> bool {
    c == Class::AL || c == Class::HL
}

/// One of the Korean syllable classes JL, JV, JT, H2, H3.
pub open spec fn is_hangul(c: Class) -> bool {
    c == Class::JL || c == Class::JV || c == Class::JT || c == Class::H2 || c == Class::H3
}

/// The pairs that LB25 keeps together.
pub open spec fn is_numeric_pair(n1: Class, n2: Class) -> bool {
    ||| (n1 == Class::CL || n1 == Class::CP || n1 == Class::NU) && (n2 == Class::PO || n2
        == Class::PR)
    ||| (n1 == Class::PO || n1 == Class::PR) && (n2 == Class::OP || n2 == Class::NU)
    ||| (n1 == Class::HY || n1 == Class::IS || n1 == Class::NU || n1 == Class::SY) && n2
        == Class::NU
}

/// The pairs that LB26 keeps together.
pub open spec fn is_syllable_pair(n1: Class, n2: Class) -> bool {
    ||| n1 == Class::JL && (n2 == Class::JL || n2 == Class::JV || n2 == Class::H2 || n2
        == Class::H3)
    ||| (n1 == Class::JV || n1 == Class::H2) && (n2 == Class::JV || n2 == Class::JT)
    ||| (n1 == Class::JT || n1 == Class::H3) && n2 == Class::JT
}

/// The rule that decides on the boundary between a scalar value of class
/// `n1` and one of class `n2`.
///
/// `before_spaces` is the class that stood before the run of spaces that
/// `n1` belongs to, if it belongs to one; `ri_even` says whether `n2` is an
/// even-numbered member of its run of regional indicators.
pub open spec fn decide(n1: Class, n2: Class, before_spaces: Option<Class>, ri_even: bool) -> Rule {
    if n1 == Class::BK {
        Rule::LB4
    } else if n1 == Class::CR && n2 == Class::LF {
        Rule::LB5a
    } else if n1 == Class::CR || n1 == Class::LF || n1 == Class::NL {
        Rule::LB5b
    } else if n2 == Class::BK || n2 == Class::CR || n2 == Class::LF || n2 == Class::NL {
        Rule::LB6
    } else if n2 == Class::SP || n2 == Class::ZW {
        Rule::LB7
    } else if n1 == Class::ZW {
        Rule::LB8a
    } else if n1 == Class::SP && before_spaces == Some(Class::ZW) {
        Rule::LB8b
    } else if n1 == Class::ZWJ {
        Rule::LB8c
    } else if (n2 == Class::CM || n2 == Class::ZWJ) && n1 != Class::BK && n1 != Class::CR && n1
        != Class::LF && n1 != Class::NL && n1 != Class::SP && n1 != Class::ZW {
        Rule::LB9
    } else if n1 == Class::WJ || n2 == Class::WJ {
        Rule::LB11
    } else if n1 == Class::GL {
        Rule::LB12
    } else if n2 == Class::GL && n1 != Class::SP && n1 != Class::BA && n1 != Class::HY {
        Rule::LB12a
    } else if n2 == Class::CL || n2 == Class::CP || n2 == Class::EX || n2 == Class::IS || n2
        == Class::SY {
        Rule::LB13
    } else if n1 == Class::OP {
        Rule::LB14a
    } else if n1 == Class::SP && before_spaces == Some(Class::OP) {
        Rule::LB14b
    } else if n1 == Class::QU && n2 == Class::OP {
        Rule::LB15a
    } else if n1 == Class::SP && n2 == Class::OP && before_spaces == Some(Class::QU) {
        Rule::LB15b
    } else if (n1 == Class::CL || n1 == Class::CP) && n2 == Class::NS {
        Rule::LB16a
    } else if n1 == Class::SP && n2 == Class::NS && (before_spaces == Some(Class::CL)
        || before_spaces == Some(Class::CP)) {
        Rule::LB16b
    } else if n1 == Class::B2 && n2 == Class::B2 {
        Rule::LB17a
    } else if n1 == Class::SP && n2 == Class::B2 && before_spaces == Some(Class::B2) {
        Rule::LB17b
    } else if n1 == Class::SP {
        Rule::LB18
    } else if n1 == Class::QU || n2 == Class::QU {
        Rule::LB19
    } else if n1 == Class::CB || n2 == Class::CB {
        Rule::LB20
    } else if n2 == Class::BA || n2 == Class::HY {
        Rule::LB21
    } else if n2 == Class::NS || n1 == Class::BB {
        Rule::LB21NsBb
    } else if n1 == Class::SY && n2 == Class::HL {
        Rule::LB21b
    } else if n2 == Class::IN && (is_letter(n1) || n1 == Class::EX || n1 == Class::ID || n1
        == Class::EB || n1 == Class::EM || n1 == Class::IN || n1 == Class::NU) {
        Rule::LB22
    } else if is_letter(n1) && n2 == Class::NU || n1 == Class::NU && is_letter(n2) {
        Rule::LB23
    } else if n1 == Class::PR && (n2 == Class::ID || n2 == Class::EB || n2 == Class::EM) || (n1
        == Class::ID || n1 == Class::EB || n1 == Class::EM) && n2 == Class::PO {
        Rule::LB23a
    } else if (n1 == Class::PR || n1 == Class::PO) && is_letter(n2) || is_letter(n1) && (n2
        == Class::PR || n2 == Class::PO) {
        Rule::LB24
    } else if is_numeric_pair(n1, n2) {
        Rule::LB25
    } else if is_syllable_pair(n1, n2) {
        Rule::LB26
    } else if is_hangul(n1) && (n2 == Class::IN || n2 == Class::PO) || n1 == Class::PR
        && is_hangul(n2) {
        Rule::LB27
    } else if is_letter(n1) && is_letter(n2) {
        Rule::LB28
    } else if n1 == Class::IS && is_letter(n2) {
        Rule::LB29
    } else if (is_letter(n1) || n1 == Class::NU) && n2 == Class::OP || n1 == Class::CP && (
    is_letter(n2) || n2 == Class::NU) {
        Rule::LB30
    } else if n1 == Class::RI && n2 == Class::RI && ri_even {
        Rule::LB30a
    } else if n1 == Class::EB && n2 == Class::EM {
        Rule::LB30b
    } else {
        Rule::LB31
    }
}

/// Finds the rule that decides on the boundary between `n1` and `n2`.
pub fn rule_for(n1: Class, n2: Class, before_spaces: Option<Class>, ri_even: bool) -> (rule: Rule)
    ensures
        rule == decide(n1, n2, before_spaces, ri_even),
{
    let after_zw = before_spaces == Some(Class::ZW);
    let after_op = before_spaces == Some(Class::OP);
    let after_qu = before_spaces == Some(Class::QU);
    let after_close = before_spaces == Some(Class::CL) || before_spaces == Some(Class::CP);
    let after_b2 = before_spaces == Some(Class::B2);
    match (n1, n2) {
        (Class::BK, _) => Rule::LB4,
        (Class::CR, Class::LF) => Rule::LB5a,
        (Class::CR, _) | (Class::LF, _) | (Class::NL, _) => Rule::LB5b,
        (_, Class::BK) | (_, Class::CR) | (_, Class::LF) | (_, Class::NL) => Rule::LB6,
        (_, Class::SP) | (_, Class::ZW) => Rule::LB7,
        (Class::ZW, _) => Rule::LB8a,
        (Class::SP, _) if after_zw => Rule::LB8b,
        (Class::ZWJ, _) => Rule::LB8c,
        (x, Class::CM) if x != Class::SP => Rule::LB9,
        (x, Class::ZWJ) if x != Class::SP => Rule::LB9,
        (_, Class::WJ) | (Class::WJ, _) => Rule::LB11,
        (Class::GL, _) => Rule::LB12,
        (x, Class::GL) if x != Class::SP && x != Class::BA && x != Class::HY => Rule::LB12a,
        (_, Class::CL) | (_, Class::CP) | (_, Class::EX) | (_, Class::IS) | (_, Class::SY) => {
            Rule::LB13
        },
        (Class::OP, _) => Rule::LB14a,
        (Class::SP, _) if after_op => Rule::LB14b,
        (Class::QU, Class::OP) => Rule::LB15a,
        (Class::SP, Class::OP) if after_qu => Rule::LB15b,
        (Class::CL, Class::NS) | (Class::CP, Class::NS) => Rule::LB16a,
        (Class::SP, Class::NS) if after_close => Rule::LB16b,
        (Class::B2, Class::B2) => Rule::LB17a,
        (Class::SP, Class::B2) if after_b2 => Rule::LB17b,
        (Class::SP, _) => Rule::LB18,
        (Class::QU, _) | (_, Class::QU) => Rule::LB19,
        (Class::CB, _) | (_, Class::CB) => Rule::LB20,
        (_, Class::BA) | (_, Class::HY) => Rule::LB21,
        (_, Class::NS) | (Class::BB, _) => Rule::LB21NsBb,
        (Class::SY, Class::HL) => Rule::LB21b,
        (Class::AL, Class::IN)
        | (Class::HL, Class::IN)
        | (Class::EX, Class::IN)
        | (Class::ID, Class::IN)
        | (Class::EB, Class::IN)
        | (Class::EM, Class::IN)
        | (Class::IN, Class::IN)
        | (Class::NU, Class::IN) => Rule::LB22,
        (Class::AL, Class::NU)
        | (Class::HL, Class::NU)
        | (Class::NU, Class::AL)
        | (Class::NU, Class::HL) => Rule::LB23,
        (Class::PR, Class::ID)
        | (Class::PR, Class::EB)
        | (Class::PR, Class::EM)
        | (Class::ID, Class::PO)
        | (Class::EB, Class::PO)
        | (Class::EM, Class::PO) => Rule::LB23a,
        (Class::PR, Class::AL)
        | (Class::PR, Class::HL)
        | (Class::PO, Class::AL)
        | (Class::PO, Class::HL)
        | (Class::AL, Class::PR)
        | (Class::AL, Class::PO)
        | (Class::HL, Class::PR)
        | (Class::HL, Class::PO) => Rule::LB24,
        (Class::CL, Class::PO)
        | (Class::CP, Class::PO)
        | (Class::CL, Class::PR)
        | (Class::CP, Class::PR)
        | (Class::NU, Class::PO)
        | (Class::NU, Class::PR)
        | (Class::PO, Class::OP)
        | (Class::PO, Class::NU)
        | (Class::PR, Class::OP)
        | (Class::PR, Class::NU)
        | (Class::HY, Class::NU)
        | (Class::IS, Class::NU)
        | (Class::NU, Class::NU)
        | (Class::SY, Class::NU) => Rule::LB25,
        (Class::JL, Class::JL)
        | (Class::JL, Class::JV)
        | (Class::JL, Class::H2)
        | (Class::JL, Class::H3)
        | (Class::JV, Class::JV)
        | (Class::JV, Class::JT)
        | (Class::H2, Class::JV)
        | (Class::H2, Class::JT)
        | (Class::JT, Class::JT)
        | (Class::H3, Class::JT) => Rule::LB26,
        (Class::JL, Class::IN)
        | (Class::JV, Class::IN)
        | (Class::JT, Class::IN)
        | (Class::H2, Class::IN)
        | (Class::H3, Class::IN)
        | (Class::JL, Class::PO)
        | (Class::JV, Class::PO)
        | (Class::JT, Class::PO)
        | (Class::H2, Class::PO)
        | (Class::H3, Class::PO)
        | (Class::PR, Class::JL)
        | (Class::PR, Class::JV)
        | (Class::PR, Class::JT)
        | (Class::PR, Class::H2)
        | (Class::PR, Class::H3) => Rule::LB27,
        (Class::AL, Class::AL)
        | (Class::HL, Class::AL)
        | (Class::AL, Class::HL)
        | (Class::HL, Class::HL) => Rule::LB28,
        (Class::IS, Class::AL) | (Class::IS, Class::HL) => Rule::LB29,
        (Class::AL, Class::OP)
        | (Class::HL, Class::OP)
        | (Class::NU, Class::OP)
        | (Class::CP, Class::AL)
        | (Class::CP, Class::HL)
        | (Class::CP, Class::NU) => Rule::LB30,
        (Class::RI, Class::RI) if ri_even => Rule::LB30a,
        (Class::EB, Class::EM) => Rule::LB30b,
        (_, _) => Rule::LB31,
    }
}

} // verus!
