//! The output side of the generator: the source text of the companion
//! builder type, specified character for character.
//!
//! Every field-dependent piece of the emitted code is produced by one pass
//! over the field list, and the whole emission is the concatenation of a
//! factory block, the builder struct declaration, and the builder's own
//! impl block with the setters and the assembly operation.

use vstd::prelude::*;
use vstd::string::StringExecFns;
use crate::schema::{FieldDef, FieldShape, RecordDef, ShapeError, TypeDef, TypeDefKind};
use crate::schema::validate;

verus! {

/// The deterministic name of the companion type: the record's own name with
/// a fixed suffix appended. No collision detection is performed; a clash is
/// left to the host compiler's redefinition diagnostic.
pub open spec fn builder_ident(name: Seq<char>) -> Seq<char> {
    name + "Builder"@
}

/// The four field-dependent pieces of the emission, each produced by its own
/// pass over the field list. The passes are independent of one another.
#[derive(Clone, Copy)]
pub enum Piece {
    /// One `field: None` initializer inside the factory.
    InitField,
    /// One optional-wrapped field declaration of the builder struct.
    DeclField,
    /// One fluent setter method.
    Setter,
    /// One extract-or-fail expression of the assembly operation.
    BuildArm,
}

/// The text one field contributes to one piece of the emission.
pub open spec fn piece_text(p: Piece, f: FieldDef) -> Seq<char> {
    match p {
        Piece::InitField => "            "@ + f.name@ + ": None,\n"@,
        Piece::DeclField => "    "@ + f.name@ + ": Option<"@ + f.ty@ + ">,\n"@,
        Piece::Setter => "    fn "@ + f.name@ + "(&mut self, "@ + f.name@ + ": "@ + f.ty@
            + ") -> &mut Self {\n        self."@ + f.name@ + " = Some("@ + f.name@
            + ");\n        self\n    }\n"@,
        Piece::BuildArm => "            "@ + f.name@ + ": self."@ + f.name@
            + ".clone().ok_or(\""@ + f.name@ + " is missing\".to_string())?,\n"@,
    }
}

/// One piece's text for a whole field list, in declaration order.
pub open spec fn pieces_text(p: Piece, fields: Seq<FieldDef>) -> Seq<char>
    decreases fields.len(),
{
    if fields.len() == 0 {
        Seq::<char>::empty()
    } else {
        piece_text(p, fields[0]) + pieces_text(p, fields.drop_first())
    }
}

proof fn lemma_pieces_text_snoc(p: Piece, fields: Seq<FieldDef>, f: FieldDef)
    ensures
        pieces_text(p, fields.push(f)) == pieces_text(p, fields) + piece_text(p, f),
    decreases fields.len(),
{
    if fields.len() == 0 {
        assert(fields.push(f).drop_first() =~= fields);
        assert(fields.push(f)[0] == f);
        assert(pieces_text(p, fields.push(f)) =~= pieces_text(p, fields) + piece_text(p, f));
    } else {
        assert(fields.push(f).drop_first() =~= fields.drop_first().push(f));
        lemma_pieces_text_snoc(p, fields.drop_first(), f);
        assert(fields.push(f)[0] == fields[0]);
        assert(pieces_text(p, fields.push(f)) =~= pieces_text(p, fields) + piece_text(p, f));
    }
}

/// The factory block: an impl on the record type whose `builder` operation
/// returns a fresh builder with every field initialized to absent.
pub open spec fn factory_impl_text(name: Seq<char>, fields: Seq<FieldDef>) -> Seq<char> {
    "impl "@ + name + " {\n    pub fn builder() -> "@ + builder_ident(name) + " {\n        "@
        + builder_ident(name) + " {\n"@ + pieces_text(Piece::InitField, fields)
        + "        }\n    }\n}\n\n"@
}

/// The builder struct declaration: one optional-wrapped field per record
/// field, in declaration order.
pub open spec fn builder_struct_text(name: Seq<char>, fields: Seq<FieldDef>) -> Seq<char> {
    "pub struct "@ + builder_ident(name) + " {\n"@ + pieces_text(Piece::DeclField, fields)
        + "}\n\n"@
}

/// The builder's impl block: the setters in declaration order, then the
/// assembly operation that clones each stored value out or fails on the
/// first absent field.
pub open spec fn builder_impl_text(name: Seq<char>, fields: Seq<FieldDef>) -> Seq<char> {
    "impl "@ + builder_ident(name) + " {\n"@ + pieces_text(Piece::Setter, fields)
        + "\n    pub fn build(&mut self) -> Result<"@ + name
        + ", Box<dyn std::error::Error>> {\n        Ok("@ + name + " {\n"@
        + pieces_text(Piece::BuildArm, fields) + "        })\n    }\n}\n"@
}

/// The whole emission for one validated record definition.
pub open spec fn generated_source(name: Seq<char>, fields: Seq<FieldDef>) -> Seq<char> {
    factory_impl_text(name, fields) + builder_struct_text(name, fields) + builder_impl_text(
        name,
        fields,
    )
}

/// The companion type's name as an owned string.
pub fn builder_type_name(record_name: &str) -> (r: String)
    ensures
        r@ == builder_ident(record_name@),
{
    let mut out = record_name.to_owned();
    out.append("Builder");
    out
}

fn emit_piece(p: Piece, f: &FieldDef) -> (r: String)
    ensures
        r@ == piece_text(p, *f),
{
    match p {
        Piece::InitField => {
            let mut out = "            ".to_owned();
            out.append(f.name.as_str());
            out.append(": None,\n");
            out
        },
        Piece::DeclField => {
            let mut out = "    ".to_owned();
            out.append(f.name.as_str());
            out.append(": Option<");
            out.append(f.ty.as_str());
            out.append(">,\n");
            out
        },
        Piece::Setter => {
            let mut out = "    fn ".to_owned();
            out.append(f.name.as_str());
            out.append("(&mut self, ");
            out.append(f.name.as_str());
            out.append(": ");
            out.append(f.ty.as_str());
            out.append(") -> &mut Self {\n        self.");
            out.append(f.name.as_str());
            out.append(" = Some(");
            out.append(f.name.as_str());
            out.append(");\n        self\n    }\n");
            out
        },
        Piece::BuildArm => {
            let mut out = "            ".to_owned();
            out.append(f.name.as_str());
            out.append(": self.");
            out.append(f.name.as_str());
            out.append(".clone().ok_or(\"");
            out.append(f.name.as_str());
            out.append(" is missing\".to_string())?,\n");
            out
        },
    }
}

fn emit_pieces(p: Piece, fields: &Vec<FieldDef>) -> (r: String)
    ensures
        r@ == pieces_text(p, fields@),
{
    let mut out = String::new();
    let n = fields.len();
    for i in 0..n
        invariant
            n == fields@.len(),
            out@ == pieces_text(p, fields@.take(i as int)),
    {
        let piece = emit_piece(p, &fields[i]);
        out.append(piece.as_str());
        proof {
            assert(fields@.take(i as int).push(fields@[i as int]) =~= fields@.take(i + 1));
            lemma_pieces_text_snoc(p, fields@.take(i as int), fields@[i as int]);
        }
    }
    proof {
        assert(fields@.take(n as int) =~= fields@);
    }
    out
}

fn emit_factory_impl(rec: &RecordDef, bname: &str) -> (r: String)
    requires
        bname@ == builder_ident(rec.name@),
    ensures
        r@ == factory_impl_text(rec.name@, rec.fields@),
{
    let mut out = "impl ".to_owned();
    out.append(rec.name.as_str());
    out.append(" {\n    pub fn builder() -> ");
    out.append(bname);
    out.append(" {\n        ");
    out.append(bname);
    out.append(" {\n");
    let init = emit_pieces(Piece::InitField, &rec.fields);
    out.append(init.as_str());
    out.append("        }\n    }\n}\n\n");
    out
}

fn emit_builder_struct(rec: &RecordDef, bname: &str) -> (r: String)
    requires
        bname@ == builder_ident(rec.name@),
    ensures
        r@ == builder_struct_text(rec.name@, rec.fields@),
{
    let mut out = "pub struct ".to_owned();
    out.append(bname);
    out.append(" {\n");
    let decls = emit_pieces(Piece::DeclField, &rec.fields);
    out.append(decls.as_str());
    out.append("}\n\n");
    out
}

fn emit_builder_impl(rec: &RecordDef, bname: &str) -> (r: String)
    requires
        bname@ == builder_ident(rec.name@),
    ensures
        r@ == builder_impl_text(rec.name@, rec.fields@),
{
    let mut out = "impl ".to_owned();
    out.append(bname);
    out.append(" {\n");
    let setters = emit_pieces(Piece::Setter, &rec.fields);
    out.append(setters.as_str());
    out.append("\n    pub fn build(&mut self) -> Result<");
    out.append(rec.name.as_str());
    out.append(", Box<dyn std::error::Error>> {\n        Ok(");
    out.append(rec.name.as_str());
    out.append(" {\n");
    let arms = emit_pieces(Piece::BuildArm, &rec.fields);
    out.append(arms.as_str());
    out.append("        })\n    }\n}\n");
    out
}

/// Emits the companion code for a validated record definition: the factory,
/// the builder struct, and the builder impl, exactly in that order.
pub fn generate(rec: &RecordDef) -> (r: String)
    ensures
        r@ == generated_source(rec.name@, rec.fields@),
{
    let bname = builder_type_name(rec.name.as_str());
    let mut out = emit_factory_impl(rec, bname.as_str());
    let part2 = emit_builder_struct(rec, bname.as_str());
    out.append(part2.as_str());
    let part3 = emit_builder_impl(rec, bname.as_str());
    out.append(part3.as_str());
    out
}

/// The whole generator: validates the shape of one type definition and, for
/// a supported one, returns the emitted companion source; every unsupported
/// shape is rejected with the error that names it, and nothing is emitted.
pub fn derive_builder(def: TypeDef) -> (r: Result<String, ShapeError>)
    ensures
        match r {
            Ok(s) => def.kind matches TypeDefKind::Struct(FieldShape::Named(fs)) && fs@.len() > 0
                && s@ == generated_source(def.name@, fs@),
            Err(e) => match e {
                ShapeError::EnumNotSupported => def.kind is Enum,
                ShapeError::UnionNotSupported => def.kind is Union,
                ShapeError::PositionalFields => def.kind matches TypeDefKind::Struct(
                    FieldShape::Positional(_),
                ),
                ShapeError::NoFields => def.kind matches TypeDefKind::Struct(FieldShape::Unit)
                    || (def.kind matches TypeDefKind::Struct(FieldShape::Named(fs))
                        && fs@.len() == 0),
            },
        },
{
    let rec = match validate(def) {
        Ok(rec) => rec,
        Err(e) => {
            return Err(e);
        },
    };
    Ok(generate(&rec))
}

} // verus!
