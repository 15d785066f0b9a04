//! The input side of the generator: descriptions of user type definitions,
//! and the validation that rejects every unsupported shape.

use vstd::prelude::*;

verus! {

/// One named, typed field of a record definition. The type is carried as
/// source text: the generator never interprets it, it only splices it into
/// the emitted declarations.
pub struct FieldDef {
    pub name: String,
    pub ty: String,
}

/// The field layout of a struct-shaped input, as the host syntax reports it.
pub enum FieldShape {
    /// Curly-brace fields, each with a name.
    Named(Vec<FieldDef>),
    /// Parenthesised positional fields; only their number is relevant,
    /// since the shape is rejected.
    Positional(usize),
    /// A unit struct with no field list at all.
    Unit,
}

/// The data shape of a user type definition.
pub enum TypeDefKind {
    Struct(FieldShape),
    Enum,
    Union,
}

/// A user type definition handed to the generator: its name and its shape.
pub struct TypeDef {
    pub name: String,
    pub kind: TypeDefKind,
}

/// Why a type definition was rejected before any code was emitted.
#[derive(Debug, PartialEq)]
pub enum ShapeError {
    EnumNotSupported,
    UnionNotSupported,
    PositionalFields,
    NoFields,
}

/// A validated record definition: a name and a non-empty ordered list of
/// named fields. Only values satisfying `wf` are ever produced.
pub struct RecordDef {
    pub name: String,
    pub fields: Vec<FieldDef>,
}

impl RecordDef {
    /// A record definition is well formed when it has at least one field.
    pub open spec fn wf(&self) -> bool {
        self.fields@.len() > 0
    }
}

impl ShapeError {
    /// The diagnostic text reported when generation aborts.
    pub fn message(&self) -> (r: &'static str)
        ensures
            r@ == self.message_text(),
    {
        match self {
            ShapeError::EnumNotSupported => "The macro only supports structs, not enums",
            ShapeError::UnionNotSupported => "The macro only supports structs, not unions",
            ShapeError::PositionalFields => "This macro only supports structs with named fields",
            ShapeError::NoFields => "This macro only supports structs with at least one field",
        }
    }

    /// The diagnostic text of each rejection, as a sequence of characters.
    pub open spec fn message_text(&self) -> Seq<char> {
        match self {
            ShapeError::EnumNotSupported => "The macro only supports structs, not enums"@,
            ShapeError::UnionNotSupported => "The macro only supports structs, not unions"@,
            ShapeError::PositionalFields => "This macro only supports structs with named fields"@,
            ShapeError::NoFields => "This macro only supports structs with at least one field"@,
        }
    }
}

/// Checks that a type definition has a supported shape: a struct with at
/// least one named field. Every other shape is rejected with the error
/// that names it, and nothing is generated for it.
pub fn validate(def: TypeDef) -> (r: Result<RecordDef, ShapeError>)
    ensures
        match r {
            Ok(rec) => {
                &&& def.kind matches TypeDefKind::Struct(FieldShape::Named(fs)) && fs == rec.fields
                &&& rec.fields@.len() > 0
                &&& rec.name@ == def.name@
                &&& rec.wf()
            },
            Err(e) => match e {
                ShapeError::EnumNotSupported => def.kind is Enum,
                ShapeError::UnionNotSupported => def.kind is Union,
                ShapeError::PositionalFields => def.kind matches TypeDefKind::Struct(
                    FieldShape::Positional(_),
                ),
                ShapeError::NoFields => def.kind matches TypeDefKind::Struct(FieldShape::Unit)
                    || (def.kind matches TypeDefKind::Struct(FieldShape::Named(fs))
                        && fs@.len() == 0),
            },
        },
{
    let TypeDef { name, kind } = def;
    match kind {
        TypeDefKind::Enum => Err(ShapeError::EnumNotSupported),
        TypeDefKind::Union => Err(ShapeError::UnionNotSupported),
        TypeDefKind::Struct(FieldShape::Positional(_)) => Err(ShapeError::PositionalFields),
        TypeDefKind::Struct(FieldShape::Unit) => Err(ShapeError::NoFields),
        TypeDefKind::Struct(FieldShape::Named(fields)) => {
            if fields.len() == 0 {
                Err(ShapeError::NoFields)
            } else {
                Ok(RecordDef { name, fields })
            }
        },
    }
}

} // verus!
