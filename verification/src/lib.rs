//! A small selector language for addressing nodes and properties inside a
//! hierarchical, path-like data structure, scoped to a named hierarchy owner.
//!
//! A selector string has three colon-delimited sections — an owner-moniker
//! pattern, a slash-delimited node-path pattern, and a property-name pattern —
//! each built from segments that may be literal text, escaped literal text, or
//! wildcarded text. The library tokenizes, validates and parses selector
//! strings, and translates parsed selectors into anchored regular expressions
//! ready to be matched against sanitized runtime strings.

use vstd::prelude::*;

mod strutil;

pub mod address;
pub mod compiled;
pub mod error;
pub mod parser;
pub mod tokenizer;
pub mod translate;
pub mod types;
pub mod validate;
pub mod witness;

pub use address::{Address, AddressParseError};
pub use compiled::{
    convert_path_selector_to_regex, convert_property_selector_to_regex, CompiledRegex,
};
pub use error::{LineError, ParseError};
pub use parser::{
    parse_component_selector, parse_selector, parse_selectors_from_lines, parse_tree_selector,
};
pub use tokenizer::{spec_tokenize, spec_tokenize_rec, tokenize_string};
pub use translate::{convert_string_selector_to_regex, sanitize_string_for_selectors};
pub use types::{ComponentSelector, Selector, StringSelector, TreeSelector};
pub use validate::{
    validate_component_selector, validate_path_selection_vector, validate_selector,
    validate_string_pattern,
    validate_tree_selector,
};
pub use witness::{
    BroadcastAddress, MulticastAddr, MulticastAddress, Sealed, UnicastAddr, UnicastAddress,
};

verus! {

/// The character that separates the three sections of a selector string.
pub const SELECTOR_DELIMITER: char = ':';

/// The character that separates the segments of a path pattern.
pub const PATH_NODE_DELIMITER: char = '/';

/// The character that escapes the selector language's special characters.
pub const ESCAPE_CHARACTER: char = '\\';

/// The wildcard token, as a string.
pub const WILDCARD_SYMBOL_STR: &'static str = "*";

/// The wildcard character.
pub const WILDCARD_SYMBOL_CHAR: char = '*';

/// The selector language's special characters: the escape character, the two
/// delimiters, and the wildcard.
pub open spec fn spec_is_special_char(c: char) -> bool {
    c == '\\' || c == '/' || c == ':' || c == '*'
}

/// Whether `character` is special in the selector language and must be escaped
/// when meant literally.
pub fn is_special_character(character: char) -> (r: bool)
    ensures
        r == spec_is_special_char(character),
{
    character == '\\' || character == '/' || character == ':' || character == '*'
}

} // verus!
