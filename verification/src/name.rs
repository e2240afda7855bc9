//! Names: restricted-alphabet identifiers, the rules that accept them and
//! the normaliser that repairs arbitrary text into them.

pub mod builder;
pub mod error;
pub mod laws;
pub mod normalize;
pub mod value;

pub use self::builder::{DefaultNameBuilder, NameBulder};
pub use self::error::{InvalidCharactersError, NameError};
pub use self::normalize::{
    is_name_safe_char, make_name, normalize_name, process_char, process_chars,
    process_transliteration, push_separator, validate_name_chars,
};
pub use self::value::Name;
