//! Line breaking classes.

use vstd::prelude::*;
use crate::scalars::split_first;

verus! {

/// A line breaking class, after the substitutions of rule LB1.
///
/// The classes that LB1 resolves away (AI, CJ, SA, SG) have no variant.
/// `XX` is kept for completeness; no scalar value is ever given it.
#[derive(Debug, PartialEq, Eq, Clone, Copy, Structural)]
pub enum Class {
    /// Mandatory break
    BK,
    /// Carriage return
    CR,
    /// Line feed
    LF,
    /// Combining mark
    CM,
    /// Next line
    NL,
    /// Word joiner
    WJ,
    /// Zero width space
    ZW,
    /// Non-breaking ("glue")
    GL,
    /// Space
    SP,
    /// Zero width joiner
    ZWJ,
    /// Break opportunity before and after
    B2,
    /// Break after
    BA,
    /// Break before
    BB,
    /// Hyphen
    HY,
    /// Contingent break opportunity
    CB,
    /// Close punctuation
    CL,
    /// Close parenthesis
    CP,
    /// Exclamation or interrogation
    EX,
    /// Inseparable
    IN,
    /// Nonstarter
    NS,
    /// Open punctuation
    OP,
    /// Quotation
    QU,
    /// Infix numeric separator
    IS,
    /// Numeric
    NU,
    /// Postfix numeric
    PO,
    /// Prefix numeric
    PR,
    /// Symbols allowing break after
    SY,
    /// Alphabetic
    AL,
    /// Emoji base
    EB,
    /// Emoji modifier
    EM,
    /// Hangul LV syllable
    H2,
    /// Hangul LVT syllable
    H3,
    /// Hebrew letter
    HL,
    /// Ideographic
    ID,
    /// Hangul L jamo
    JL,
    /// Hangul V jamo
    JV,
    /// Hangul T jamo
    JT,
    /// Regional indicator
    RI,
    /// Unknown
    XX,
}

/// The class that scalar values outside every listed range fall back to:
/// `ID` in U+1F000..=U+1FFFD, `PR` in U+20A0..=U+20CF, `AL` elsewhere.
pub open spec fn default_class(cp: u32) -> Class {
    if 0x1F000 <= cp <= 0x1FFFD {
        Class::ID
    } else if 0x20A0 <= cp <= 0x20CF {
        Class::PR
    } else {
        Class::AL
    }
}

/// Computes [`default_class`].
pub fn unlisted_class(cp: u32) -> (class: Class)
    ensures
        class == default_class(cp),
{
    if 0x1F000 <= cp && cp <= 0x1FFFD {
        Class::ID
    } else if 0x20A0 <= cp && cp <= 0x20CF {
        Class::PR
    } else {
        Class::AL
    }
}

/// A line breaking class as the Unicode data files name it, before the
/// substitutions of rule LB1.
#[derive(Debug, PartialEq, Eq, Clone, Copy, Structural)]
pub enum RawClass {
    AI,
    AL,
    B2,
    BA,
    BB,
    BK,
    CB,
    CJ,
    CL,
    CM,
    CP,
    CR,
    EB,
    EM,
    EX,
    GL,
    H2,
    H3,
    HL,
    HY,
    ID,
    IN,
    IS,
    JL,
    JT,
    JV,
    LF,
    NL,
    NS,
    NU,
    OP,
    PO,
    PR,
    QU,
    RI,
    SA,
    SG,
    SP,
    SY,
    WJ,
    XX,
    ZW,
    ZWJ,
}

impl RawClass {
    /// The class that rule LB1 puts in the place of this one. `mark` says
    /// whether the scalar value in question is a combining mark (general
    /// category Mn or Mc): SA becomes CM on a mark and AL elsewhere, CJ
    /// becomes NS, and AI, SG and XX become AL.
    pub open spec fn resolved(self, mark: bool) -> Class {
        match self {
            RawClass::AI | RawClass::SG | RawClass::XX | RawClass::AL => Class::AL,
            RawClass::SA => if mark {
                Class::CM
            } else {
                Class::AL
            },
            RawClass::CJ | RawClass::NS => Class::NS,
            RawClass::B2 => Class::B2,
            RawClass::BA => Class::BA,
            RawClass::BB => Class::BB,
            RawClass::BK => Class::BK,
            RawClass::CB => Class::CB,
            RawClass::CL => Class::CL,
            RawClass::CM => Class::CM,
            RawClass::CP => Class::CP,
            RawClass::CR => Class::CR,
            RawClass::EB => Class::EB,
            RawClass::EM => Class::EM,
            RawClass::EX => Class::EX,
            RawClass::GL => Class::GL,
            RawClass::H2 => Class::H2,
            RawClass::H3 => Class::H3,
            RawClass::HL => Class::HL,
            RawClass::HY => Class::HY,
            RawClass::ID => Class::ID,
            RawClass::IN => Class::IN,
            RawClass::IS => Class::IS,
            RawClass::JL => Class::JL,
            RawClass::JT => Class::JT,
            RawClass::JV => Class::JV,
            RawClass::LF => Class::LF,
            RawClass::NL => Class::NL,
            RawClass::NU => Class::NU,
            RawClass::OP => Class::OP,
            RawClass::PO => Class::PO,
            RawClass::PR => Class::PR,
            RawClass::QU => Class::QU,
            RawClass::RI => Class::RI,
            RawClass::SP => Class::SP,
            RawClass::SY => Class::SY,
            RawClass::WJ => Class::WJ,
            RawClass::ZW => Class::ZW,
            RawClass::ZWJ => Class::ZWJ,
        }
    }

    /// Applies rule LB1.
    pub fn resolve(self, mark: bool) -> (class: Class)
        ensures
            class == self.resolved(mark),
            class != Class::XX,
    {
        match self {
            RawClass::AI | RawClass::SG | RawClass::XX | RawClass::AL => Class::AL,
            RawClass::SA => if mark {
                Class::CM
            } else {
                Class::AL
            },
            RawClass::CJ | RawClass::NS => Class::NS,
            RawClass::B2 => Class::B2,
            RawClass::BA => Class::BA,
            RawClass::BB => Class::BB,
            RawClass::BK => Class::BK,
            RawClass::CB => Class::CB,
            RawClass::CL => Class::CL,
            RawClass::CM => Class::CM,
            RawClass::CP => Class::CP,
            RawClass::CR => Class::CR,
            RawClass::EB => Class::EB,
            RawClass::EM => Class::EM,
            RawClass::EX => Class::EX,
            RawClass::GL => Class::GL,
            RawClass::H2 => Class::H2,
            RawClass::H3 => Class::H3,
            RawClass::HL => Class::HL,
            RawClass::HY => Class::HY,
            RawClass::ID => Class::ID,
            RawClass::IN => Class::IN,
            RawClass::IS => Class::IS,
            RawClass::JL => Class::JL,
            RawClass::JT => Class::JT,
            RawClass::JV => Class::JV,
            RawClass::LF => Class::LF,
            RawClass::NL => Class::NL,
            RawClass::NU => Class::NU,
            RawClass::OP => Class::OP,
            RawClass::PO => Class::PO,
            RawClass::PR => Class::PR,
            RawClass::QU => Class::QU,
            RawClass::RI => Class::RI,
            RawClass::SP => Class::SP,
            RawClass::SY => Class::SY,
            RawClass::WJ => Class::WJ,
            RawClass::ZW => Class::ZW,
            RawClass::ZWJ => Class::ZWJ,
        }
    }
}

/// The class that the data files write with the two letters `a` and `b`.
pub open spec fn two_letter_class(a: char, b: char) -> Option<RawClass> {
    match (a, b) {
        ('A', 'I') => Some(RawClass::AI),
        ('A', 'L') => Some(RawClass::AL),
        ('B', '2') => Some(RawClass::B2),
        ('B', 'A') => Some(RawClass::BA),
        ('B', 'B') => Some(RawClass::BB),
        ('B', 'K') => Some(RawClass::BK),
        ('C', 'B') => Some(RawClass::CB),
        ('C', 'J') => Some(RawClass::CJ),
        ('C', 'L') => Some(RawClass::CL),
        ('C', 'M') => Some(RawClass::CM),
        ('C', 'P') => Some(RawClass::CP),
        ('C', 'R') => Some(RawClass::CR),
        ('E', 'B') => Some(RawClass::EB),
        ('E', 'M') => Some(RawClass::EM),
        ('E', 'X') => Some(RawClass::EX),
        ('G', 'L') => Some(RawClass::GL),
        ('H', '2') => Some(RawClass::H2),
        ('H', '3') => Some(RawClass::H3),
        ('H', 'L') => Some(RawClass::HL),
        ('H', 'Y') => Some(RawClass::HY),
        ('I', 'D') => Some(RawClass::ID),
        ('I', 'N') => Some(RawClass::IN),
        ('I', 'S') => Some(RawClass::IS),
        ('J', 'L') => Some(RawClass::JL),
        ('J', 'T') => Some(RawClass::JT),
        ('J', 'V') => Some(RawClass::JV),
        ('L', 'F') => Some(RawClass::LF),
        ('N', 'L') => Some(RawClass::NL),
        ('N', 'S') => Some(RawClass::NS),
        ('N', 'U') => Some(RawClass::NU),
        ('O', 'P') => Some(RawClass::OP),
        ('P', 'O') => Some(RawClass::PO),
        ('P', 'R') => Some(RawClass::PR),
        ('Q', 'U') => Some(RawClass::QU),
        ('R', 'I') => Some(RawClass::RI),
        ('S', 'A') => Some(RawClass::SA),
        ('S', 'G') => Some(RawClass::SG),
        ('S', 'P') => Some(RawClass::SP),
        ('S', 'Y') => Some(RawClass::SY),
        ('W', 'J') => Some(RawClass::WJ),
        ('X', 'X') => Some(RawClass::XX),
        ('Z', 'W') => Some(RawClass::ZW),
        _ => None,
    }
}

/// The class that the data files write as `name`: two upper-case letters or
/// digits, or `ZWJ`.
pub open spec fn class_named(name: Seq<char>) -> Option<RawClass> {
    if name.len() == 2 {
        two_letter_class(name[0], name[1])
    } else if name.len() == 3 && name[0] == 'Z' && name[1] == 'W' && name[2] == 'J' {
        Some(RawClass::ZWJ)
    } else {
        None
    }
}

/// Computes [`two_letter_class`].
fn two_letters(a: char, b: char) -> (class: Option<RawClass>)
    ensures
        class == two_letter_class(a, b),
{
    match (a, b) {
        ('A', 'I') => Some(RawClass::AI),
        ('A', 'L') => Some(RawClass::AL),
        ('B', '2') => Some(RawClass::B2),
        ('B', 'A') => Some(RawClass::BA),
        ('B', 'B') => Some(RawClass::BB),
        ('B', 'K') => Some(RawClass::BK),
        ('C', 'B') => Some(RawClass::CB),
        ('C', 'J') => Some(RawClass::CJ),
        ('C', 'L') => Some(RawClass::CL),
        ('C', 'M') => Some(RawClass::CM),
        ('C', 'P') => Some(RawClass::CP),
        ('C', 'R') => Some(RawClass::CR),
        ('E', 'B') => Some(RawClass::EB),
        ('E', 'M') => Some(RawClass::EM),
        ('E', 'X') => Some(RawClass::EX),
        ('G', 'L') => Some(RawClass::GL),
        ('H', '2') => Some(RawClass::H2),
        ('H', '3') => Some(RawClass::H3),
        ('H', 'L') => Some(RawClass::HL),
        ('H', 'Y') => Some(RawClass::HY),
        ('I', 'D') => Some(RawClass::ID),
        ('I', 'N') => Some(RawClass::IN),
        ('I', 'S') => Some(RawClass::IS),
        ('J', 'L') => Some(RawClass::JL),
        ('J', 'T') => Some(RawClass::JT),
        ('J', 'V') => Some(RawClass::JV),
        ('L', 'F') => Some(RawClass::LF),
        ('N', 'L') => Some(RawClass::NL),
        ('N', 'S') => Some(RawClass::NS),
        ('N', 'U') => Some(RawClass::NU),
        ('O', 'P') => Some(RawClass::OP),
        ('P', 'O') => Some(RawClass::PO),
        ('P', 'R') => Some(RawClass::PR),
        ('Q', 'U') => Some(RawClass::QU),
        ('R', 'I') => Some(RawClass::RI),
        ('S', 'A') => Some(RawClass::SA),
        ('S', 'G') => Some(RawClass::SG),
        ('S', 'P') => Some(RawClass::SP),
        ('S', 'Y') => Some(RawClass::SY),
        ('W', 'J') => Some(RawClass::WJ),
        ('X', 'X') => Some(RawClass::XX),
        ('Z', 'W') => Some(RawClass::ZW),
        _ => None,
    }
}

/// Reads the name of a class as the data files write it; `None` where no
/// class has that name.
pub fn parse_class(name: &str) -> (class: Option<RawClass>)
    ensures
        class == class_named(name@),
{
    match split_first(name) {
        None => None,
        Some((a, rest)) => match split_first(rest) {
            None => None,
            Some((b, rest)) => match split_first(rest) {
                None => {
                    assert(name@.len() == 2);
                    two_letters(a, b)
                },
                Some((c, rest)) => {
                    assert(name@.len() == 3 + rest@.len());
                    if rest.is_empty() && a == 'Z' && b == 'W' && c == 'J' {
                        Some(RawClass::ZWJ)
                    } else {
                        None
                    }
                },
            },
        },
    }
}

} // verus!
