//! Reading a declaration from Rust source text.
use vstd::prelude::*;

use crate::decl::{Decl, DeclShape, DeriveError};

verus! {

/// Relies on `syn::parse_str::<syn::DeriveInput>` to read `text` as a
/// struct, enum or union declaration, on `Ident::to_string` for the text of
/// the type's and the fields' names, and on `syn::Error`'s `to_string` for
/// the parser's message. Which texts parse, and how names are normalised,
/// depends on whether proc-macro2 lexes with the compiler or with its own
/// lexer, so nothing is stated of the outcome.
#[verifier::external_body]
pub(crate) fn parse_decl(text: &str) -> Result<Decl, String> {
    let input = syn::parse_str::<syn::DeriveInput>(text).map_err(|e| e.to_string())?;
    let shape = match input.data {
        syn::Data::Struct(s) => match s.fields {
            syn::Fields::Named(f) => DeclShape::NamedStruct(
                f.named.iter().map(|f| f.ident.as_ref().unwrap().to_string()).collect(),
            ),
            syn::Fields::Unnamed(f) => DeclShape::TupleStruct(f.unnamed.len()),
            syn::Fields::Unit => DeclShape::UnitStruct,
        },
        syn::Data::Enum(_) => DeclShape::Enum,
        syn::Data::Union(_) => DeclShape::Union,
    };
    Ok(Decl { name: input.ident.to_string(), shape })
}

/// Reads a struct, enum or union declaration from Rust source text; text
/// that does not parse gives the parser's message.
pub fn read_decl(text: &str) -> (r: Result<Decl, DeriveError>)
    ensures
        r matches Err(e) ==> e is Unparsable,
{
    match parse_decl(text) {
        Ok(d) => Ok(d),
        Err(message) => Err(DeriveError::Unparsable(message)),
    }
}

} // verus!
