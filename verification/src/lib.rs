pub mod convert;
pub mod lazy;
pub mod letter_laws;
pub mod letters;
pub mod numbers;
pub mod predicate;
pub mod spelling;
pub mod strings;
pub mod thirteen_strings;

pub use crate::convert::FromU64;
pub use crate::lazy::Returns;
pub use crate::letters::{AnagramOf, CanSpell};
pub use crate::numbers::{DivisibleBy, GreaterThan, LessThan};
pub use crate::predicate::IsThirteen;
pub use crate::spelling::{AtomicNumber, Backwards};
pub use crate::strings::is_thirteen_equal_chars;
pub use crate::thirteen_strings::ThirteenStrings;
