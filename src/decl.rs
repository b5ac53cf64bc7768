//! The model of a type declaration, and which declarations have a table.
use vstd::prelude::*;

verus! {

/// The shape of a type declaration, as far as field offsets are concerned.
pub enum DeclShape {
    /// A struct with named fields, their names in declaration order.
    NamedStruct(Vec<String>),
    /// A tuple struct, with its number of positional fields.
    TupleStruct(usize),
    /// A struct without fields or braces (`struct S;`).
    UnitStruct,
    Enum,
    Union,
}

/// A type declaration: the type's name and its shape.
pub struct Decl {
    pub name: String,
    pub shape: DeclShape,
}

/// What a [`DeclShape`] stands for.
pub enum ShapeModel {
    NamedStruct(Seq<Seq<char>>),
    TupleStruct(nat),
    UnitStruct,
    Enum,
    Union,
}

/// What a [`Decl`] stands for.
pub struct DeclModel {
    pub name: Seq<char>,
    pub shape: ShapeModel,
}

/// The texts of a sequence of strings.
pub open spec fn texts(v: Seq<String>) -> Seq<Seq<char>> {
    v.map_values(|s: String| s@)
}

impl View for DeclShape {
    type V = ShapeModel;

    open spec fn view(&self) -> ShapeModel {
        match self {
            DeclShape::NamedStruct(v) => ShapeModel::NamedStruct(texts(v@)),
            DeclShape::TupleStruct(n) => ShapeModel::TupleStruct(*n as nat),
            DeclShape::UnitStruct => ShapeModel::UnitStruct,
            DeclShape::Enum => ShapeModel::Enum,
            DeclShape::Union => ShapeModel::Union,
        }
    }
}

impl View for Decl {
    type V = DeclModel;

    open spec fn view(&self) -> DeclModel {
        DeclModel { name: self.name@, shape: self.shape@ }
    }
}

/// Why no offset table can be made for a declaration.
#[derive(Clone, Debug, PartialEq, Eq)]
pub enum DeriveError {
    /// The text is not a struct, enum or union declaration; the parser's
    /// message says where and why.
    Unparsable(String),
    /// The declaration is an enum or a union.
    NotAStruct,
    /// The struct has positional fields, or none at all (`struct S;`).
    FieldsNotNamed,
}

/// What a [`DeriveError`] stands for.
pub enum ErrorModel {
    Unparsable(Seq<char>),
    NotAStruct,
    FieldsNotNamed,
}

impl View for DeriveError {
    type V = ErrorModel;

    open spec fn view(&self) -> ErrorModel {
        match self {
            DeriveError::Unparsable(message) => ErrorModel::Unparsable(message@),
            DeriveError::NotAStruct => ErrorModel::NotAStruct,
            DeriveError::FieldsNotNamed => ErrorModel::FieldsNotNamed,
        }
    }
}

/// The field names of a declaration shape, in order, or why it has none
/// that a table could list.
pub open spec fn spec_field_names(s: ShapeModel) -> Result<Seq<Seq<char>>, ErrorModel> {
    match s {
        ShapeModel::NamedStruct(names) => Ok(names),
        ShapeModel::TupleStruct(_) => Err(ErrorModel::FieldsNotNamed),
        ShapeModel::UnitStruct => Err(ErrorModel::FieldsNotNamed),
        ShapeModel::Enum => Err(ErrorModel::NotAStruct),
        ShapeModel::Union => Err(ErrorModel::NotAStruct),
    }
}

/// A copy of the strings of `v`, in the same order.
fn copy_names(v: &Vec<String>) -> (r: Vec<String>)
    ensures
        texts(r@) == texts(v@),
{
    let mut r: Vec<String> = Vec::new();
    let mut i: usize = 0;
    while i < v.len()
        invariant
            i <= v.len(),
            r.len() == i,
            texts(r@) == texts(v@).take(i as int),
        decreases v.len() - i,
    {
        let s = v[i].clone();
        assert(s@ == v@[i as int]@);
        let ghost prev = r@;
        r.push(s);
        assert(texts(r@) =~= texts(v@).take(i + 1)) by {
            assert forall|j: int| 0 <= j <= i implies #[trigger] texts(r@)[j] == texts(v@)[j] by {
                if j < i {
                    assert(r@[j] == prev[j]);
                    assert(texts(prev)[j] == texts(v@).take(i as int)[j]);
                }
            }
        }
        i += 1;
    }
    assert(texts(v@).take(v.len() as int) =~= texts(v@));
    r
}

/// The names of the fields that a table for `shape` lists, in declaration
/// order: only a struct with named fields has them.
pub fn field_names(shape: &DeclShape) -> (r: Result<Vec<String>, DeriveError>)
    ensures
        match (r, spec_field_names(shape@)) {
            (Ok(v), Ok(names)) => texts(v@) == names,
            (Err(e), Err(f)) => e@ == f,
            _ => false,
        },
{
    match shape {
        DeclShape::NamedStruct(v) => Ok(copy_names(v)),
        DeclShape::TupleStruct(_) => Err(DeriveError::FieldsNotNamed),
        DeclShape::UnitStruct => Err(DeriveError::FieldsNotNamed),
        DeclShape::Enum => Err(DeriveError::NotAStruct),
        DeclShape::Union => Err(DeriveError::NotAStruct),
    }
}

} // verus!
