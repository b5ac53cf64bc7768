//! The source text of the generated `field_offsets()` accessor.
use vstd::prelude::*;
use vstd::string::*;

use crate::decl::{field_names, spec_field_names, texts, Decl, DeclModel, DeriveError, ErrorModel};

verus! {

/// The decimal digit for `d`, below ten.
pub open spec fn digit_char(d: nat) -> char {
    seq!['0', '1', '2', '3', '4', '5', '6', '7', '8', '9'][d as int]
}

/// The decimal text of `n`, without leading zeros.
pub open spec fn decimal(n: nat) -> Seq<char>
    decreases n,
{
    if n < 10 {
        seq![digit_char(n)]
    } else {
        decimal(n / 10).push(digit_char(n % 10))
    }
}

/// Appends the decimal text of `n` to `out`.
fn push_decimal(out: &mut String, n: usize)
    ensures
        final(out)@ == old(out)@ + decimal(n as nat),
    decreases n,
{
    if n >= 10 {
        push_decimal(out, n / 10);
    }
    let ghost before = out@;
    let d: usize = n % 10;
    proof {
        reveal_strlit("0123456789");
    }
    let digit = "0123456789".substring_char(d, d + 1);
    assert(digit@ =~= seq![digit_char(d as nat)]);
    out.append(digit);
    assert(out@ =~= before + seq![digit_char(d as nat)]);
}

/// One entry of the generated table: the field's name as text, and its
/// offset in `ty` as the compiler lays it out.
pub open spec fn entry_text(ty: Seq<char>, field: Seq<char>) -> Seq<char> {
    "(stringify!("@ + field + "), std::mem::offset_of!("@ + ty + ", "@ + field + "))"@
}

/// The entries for `fields`, in order, separated by commas.
pub open spec fn entries_text(ty: Seq<char>, fields: Seq<Seq<char>>) -> Seq<char>
    decreases fields.len(),
{
    if fields.len() == 0 {
        Seq::empty()
    } else if fields.len() == 1 {
        entry_text(ty, fields[0])
    } else {
        entries_text(ty, fields.drop_last()) + ", "@ + entry_text(ty, fields.last())
    }
}

/// The source of the accessor generated for type `ty` with named fields
/// `fields`: an associated function `field_offsets()` that returns an array
/// with one (name, offset) pair per field, in declaration order.
pub open spec fn expansion_text(ty: Seq<char>, fields: Seq<Seq<char>>) -> Seq<char> {
    "impl "@ + ty + " { pub fn field_offsets() -> [(&'static str, usize); "@
        + decimal(fields.len()) + "] { ["@ + entries_text(ty, fields) + "] } }"@
}

/// Appends the entry of `field` in `ty` to `out`.
fn push_entry(out: &mut String, ty: &str, field: &str)
    ensures
        final(out)@ == old(out)@ + entry_text(ty@, field@),
{
    let ghost before = out@;
    out.append("(stringify!(");
    out.append(field);
    out.append("), std::mem::offset_of!(");
    out.append(ty);
    out.append(", ");
    out.append(field);
    out.append("))");
    assert(out@ =~= before + entry_text(ty@, field@));
}

/// Appends the entries of `fields` in `ty` to `out`.
fn push_entries(out: &mut String, ty: &str, fields: &Vec<String>)
    ensures
        final(out)@ == old(out)@ + entries_text(ty@, texts(fields@)),
{
    let ghost before = out@;
    let mut i: usize = 0;
    while i < fields.len()
        invariant
            i <= fields.len(),
            out@ == before + entries_text(ty@, texts(fields@).take(i as int)),
        decreases fields.len() - i,
    {
        let ghost done = out@;
        let ghost next = texts(fields@).take(i + 1);
        assert(next.drop_last() =~= texts(fields@).take(i as int));
        assert(next.last() == fields@[i as int]@);
        if i > 0 {
            out.append(", ");
        }
        push_entry(out, ty, fields[i].as_str());
        if i == 0 {
            assert(entries_text(ty@, texts(fields@).take(0)) =~= Seq::empty());
        }
        assert(out@ =~= before + entries_text(ty@, next));
        i += 1;
    }
    assert(texts(fields@).take(fields.len() as int) =~= texts(fields@));
}

/// The source of the accessor for `ty` with named fields `fields`.
fn write_expansion(ty: &str, fields: &Vec<String>) -> (r: String)
    ensures
        r@ == expansion_text(ty@, texts(fields@)),
{
    let mut out = String::new();
    out.append("impl ");
    out.append(ty);
    out.append(" { pub fn field_offsets() -> [(&'static str, usize); ");
    push_decimal(&mut out, fields.len());
    out.append("] { [");
    push_entries(&mut out, ty, fields);
    out.append("] } }");
    assert(out@ =~= expansion_text(ty@, texts(fields@)));
    out
}

/// The view of a generated text, or of why there is none.
pub open spec fn text_result(r: Result<String, DeriveError>) -> Result<Seq<char>, ErrorModel> {
    match r {
        Ok(s) => Ok(s@),
        Err(e) => Err(e@),
    }
}

/// What is generated for declaration `d`: the accessor's source when `d` is
/// a struct with named fields, else the reason why not.
pub open spec fn spec_expand(d: DeclModel) -> Result<Seq<char>, ErrorModel> {
    match spec_field_names(d.shape) {
        Ok(fields) => Ok(expansion_text(d.name, fields)),
        Err(e) => Err(e),
    }
}

/// The source of the `field_offsets()` accessor for `decl`; an enum, a union
/// and a struct without named fields are refused.
pub fn expand_decl(decl: &Decl) -> (r: Result<String, DeriveError>)
    ensures
        text_result(r) == spec_expand(decl@),
{
    match field_names(&decl.shape) {
        Ok(fields) => Ok(write_expansion(decl.name.as_str(), &fields)),
        Err(e) => Err(e),
    }
}

/// The outcome of a derive given the outcome of reading its input: the
/// parser's message when the text did not parse, else what is generated for
/// the declaration read.
pub open spec fn spec_expand_parsed(
    parsed: Result<DeclModel, Seq<char>>,
) -> Result<Seq<char>, ErrorModel> {
    match parsed {
        Ok(d) => spec_expand(d),
        Err(message) => Err(ErrorModel::Unparsable(message)),
    }
}

/// The view of a parse outcome.
pub open spec fn parsed_view(parsed: Result<Decl, String>) -> Result<DeclModel, Seq<char>> {
    match parsed {
        Ok(d) => Ok(d@),
        Err(message) => Err(message@),
    }
}

/// What a derive produces from the outcome of reading its input: the
/// accessor's source for a struct with named fields, the parser's message
/// unchanged for text that did not parse, else the reason for refusal.
pub fn expand_parsed(parsed: Result<Decl, String>) -> (r: Result<String, DeriveError>)
    ensures
        text_result(r) == spec_expand_parsed(parsed_view(parsed)),
{
    match parsed {
        Ok(decl) => expand_decl(&decl),
        Err(message) => Err(DeriveError::Unparsable(message)),
    }
}

} // verus!
