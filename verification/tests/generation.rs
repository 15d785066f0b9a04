use builder::emit::{builder_type_name, derive_builder, generate};
use builder::schema::{validate, FieldDef, FieldShape, RecordDef, ShapeError, TypeDef, TypeDefKind};

fn field(name: &str, ty: &str) -> FieldDef {
    FieldDef { name: name.to_string(), ty: ty.to_string() }
}

fn named_struct(name: &str, fields: Vec<FieldDef>) -> TypeDef {
    TypeDef { name: name.to_string(), kind: TypeDefKind::Struct(FieldShape::Named(fields)) }
}

#[test]
fn builder_name_appends_fixed_suffix() {
    assert_eq!(builder_type_name("Command"), "CommandBuilder");
    assert_eq!(builder_type_name("Person"), "PersonBuilder");
}

#[test]
fn generate_emits_exact_companion_source() {
    let rec = RecordDef {
        name: "Person".to_string(),
        fields: vec![field("name", "String"), field("age", "u32")],
    };
    let expected = "impl Person {
    pub fn builder() -> PersonBuilder {
        PersonBuilder {
            name: None,
            age: None,
        }
    }
}

pub struct PersonBuilder {
    name: Option<String>,
    age: Option<u32>,
}

impl PersonBuilder {
    fn name(&mut self, name: String) -> &mut Self {
        self.name = Some(name);
        self
    }
    fn age(&mut self, age: u32) -> &mut Self {
        self.age = Some(age);
        self
    }

    pub fn build(&mut self) -> Result<Person, Box<dyn std::error::Error>> {
        Ok(Person {
            name: self.name.clone().ok_or(\"name is missing\".to_string())?,
            age: self.age.clone().ok_or(\"age is missing\".to_string())?,
        })
    }
}
";
    assert_eq!(generate(&rec), expected);
}

#[test]
fn derive_builder_emits_for_supported_shape() {
    let def = named_struct("Point", vec![field("x", "i64"), field("y", "i64")]);
    let rec = RecordDef {
        name: "Point".to_string(),
        fields: vec![field("x", "i64"), field("y", "i64")],
    };
    assert_eq!(derive_builder(def).unwrap(), generate(&rec));
}

#[test]
fn setters_and_checks_follow_declaration_order() {
    let def = named_struct("Pair", vec![field("first", "u8"), field("second", "u8")]);
    let source = derive_builder(def).unwrap();
    let first_setter = source.find("fn first(").unwrap();
    let second_setter = source.find("fn second(").unwrap();
    assert!(first_setter < second_setter);
    let first_check = source.find("\"first is missing\"").unwrap();
    let second_check = source.find("\"second is missing\"").unwrap();
    assert!(first_check < second_check);
}

#[test]
fn enum_input_is_rejected() {
    let def = TypeDef { name: "Shape".to_string(), kind: TypeDefKind::Enum };
    let err = derive_builder(def).unwrap_err();
    assert_eq!(err, ShapeError::EnumNotSupported);
    assert_eq!(err.message(), "The macro only supports structs, not enums");
}

#[test]
fn union_input_is_rejected() {
    let def = TypeDef { name: "Raw".to_string(), kind: TypeDefKind::Union };
    let err = derive_builder(def).unwrap_err();
    assert_eq!(err, ShapeError::UnionNotSupported);
    assert_eq!(err.message(), "The macro only supports structs, not unions");
}

#[test]
fn positional_fields_are_rejected() {
    let def = TypeDef {
        name: "Wrapper".to_string(),
        kind: TypeDefKind::Struct(FieldShape::Positional(2)),
    };
    let err = derive_builder(def).unwrap_err();
    assert_eq!(err, ShapeError::PositionalFields);
    assert_eq!(err.message(), "This macro only supports structs with named fields");
}

#[test]
fn unit_struct_is_rejected() {
    let def = TypeDef { name: "Marker".to_string(), kind: TypeDefKind::Struct(FieldShape::Unit) };
    assert_eq!(derive_builder(def).unwrap_err(), ShapeError::NoFields);
}

#[test]
fn empty_field_list_is_rejected() {
    let def = named_struct("Empty", vec![]);
    let err = derive_builder(def).unwrap_err();
    assert_eq!(err, ShapeError::NoFields);
    assert_eq!(err.message(), "This macro only supports structs with at least one field");
}

#[test]
fn validate_accepts_named_fields_in_order() {
    let def = named_struct("Command", vec![field("executable", "String"), field("args", "Vec<String>")]);
    let rec = validate(def).unwrap();
    assert_eq!(rec.name, "Command");
    assert_eq!(rec.fields.len(), 2);
    assert_eq!(rec.fields[0].name, "executable");
    assert_eq!(rec.fields[0].ty, "String");
    assert_eq!(rec.fields[1].name, "args");
    assert_eq!(rec.fields[1].ty, "Vec<String>");
}
