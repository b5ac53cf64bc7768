//! Field-offset tables for struct declarations.
//!
//! A struct declaration, given as Rust source text, is read into a small
//! model ([`Decl`]); from the model the library writes the source of an
//! accessor `field_offsets()` that lists, in declaration order, each named
//! field with the byte offset that the compiler gives it.
use vstd::prelude::*;

pub mod decl;
pub mod expand;
pub mod syntax;
pub mod table;

pub use decl::{field_names, Decl, DeclShape, DeriveError};
pub use expand::{expand_decl, expand_parsed};
pub use syntax::read_decl;
pub use table::field_offset_table;

use decl::DeclModel;
use expand::{parsed_view, spec_expand, text_result};
use syntax::parse_decl;

verus! {

/// The source of the `field_offsets()` accessor for the declaration in
/// `input`: an `impl` block on the declared type whose associated function
/// returns, for each named field in declaration order, its name and its
/// offset in bytes. Text that does not parse is refused with the parser's
/// message; an enum, a union and a struct without named fields are refused,
/// each with its own error. The input goes to the parser unchanged, and
/// what follows the parse is [`expand_parsed`].
pub fn field_offsets_derive(input: &str) -> (r: Result<String, DeriveError>)
    ensures
        r matches Err(DeriveError::Unparsable(_)) || exists|d: DeclModel|
            text_result(r) == #[trigger] spec_expand(d),
{
    let parsed = parse_decl(input);
    let ghost outcome = parsed_view(parsed);
    let r = expand_parsed(parsed);
    proof {
        if let Ok(d) = outcome {
            assert(text_result(r) == spec_expand(d));
        }
    }
    r
}

} // verus!
