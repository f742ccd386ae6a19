//! Line breaking for Unicode text, after UAX #14.
//!
//! A [`ClassTable`] gives every scalar value its line breaking class; it is
//! made of the Unicode data files `LineBreak.txt` and `UnicodeData.txt`. A
//! [`BreakInfo`] walks a string and says, after each scalar value, whether a
//! line break there is mandatory, allowed or prohibited.

pub mod breaks;
pub mod class;
pub mod codepoints;
pub mod hex;
pub mod laws;
pub mod rules;
pub mod scalars;
pub mod source;
pub mod state;
pub mod table;
pub mod ucd;

pub use breaks::break_info;
pub use breaks::BreakInfo;
pub use class::Class;
pub use class::RawClass;
pub use codepoints::squish;
pub use rules::Break;
pub use rules::Rule;
pub use source::generate;
pub use table::ClassRange;
pub use table::ClassTable;
pub use ucd::UcdError;
