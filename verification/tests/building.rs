use builder::assembly::Value;
use builder::schema::{FieldDef, RecordDef};

fn field(name: &str, ty: &str) -> FieldDef {
    FieldDef { name: name.to_string(), ty: ty.to_string() }
}

fn person() -> RecordDef {
    RecordDef {
        name: "Person".to_string(),
        fields: vec![field("name", "Text"), field("age", "Integer")],
    }
}

fn text(s: &str) -> Value {
    Value::Text(s.to_string())
}

#[test]
fn untouched_builder_reports_first_declared_field() {
    let mut b = person().builder();
    let err = b.build().unwrap_err();
    assert_eq!(err.field, "name");
    assert_eq!(err.message(), "name is missing");
}

#[test]
fn setting_every_field_in_declaration_order_succeeds() {
    let mut b = person().builder();
    b.set(0, text("Grace"));
    b.set(1, Value::Integer(85));
    let rec = b.build().unwrap();
    assert_eq!(rec.name, "Person");
    assert_eq!(rec.values, vec![text("Grace"), Value::Integer(85)]);
}

#[test]
fn setting_every_field_in_reverse_order_succeeds() {
    let mut b = person().builder();
    b.set(1, Value::Integer(52));
    b.set(0, text("Alan"));
    let rec = b.build().unwrap();
    assert_eq!(rec.values, vec![text("Alan"), Value::Integer(52)]);
}

#[test]
fn second_set_overwrites_first_value() {
    let mut b = person().builder();
    b.set(0, text("draft"));
    b.set(0, text("final"));
    b.set(1, Value::Integer(1));
    let rec = b.build().unwrap();
    assert_eq!(rec.values[0], text("final"));
}

#[test]
fn failed_assembly_can_be_patched_and_retried() {
    let mut b = person().builder();
    b.set(1, Value::Integer(30));
    let err = b.build().unwrap_err();
    assert_eq!(err.message(), "name is missing");
    b.set(0, text("Ada"));
    let rec = b.build().unwrap();
    assert_eq!(rec.values, vec![text("Ada"), Value::Integer(30)]);
}

#[test]
fn failed_assembly_leaves_the_builder_unchanged() {
    let mut b = person().builder();
    b.set(1, Value::Integer(9));
    let first = b.build().unwrap_err();
    let second = b.build().unwrap_err();
    assert_eq!(first.field, second.field);
}

#[test]
fn successful_assembly_leaves_the_builder_reusable() {
    let mut b = person().builder();
    b.set(0, text("Ada"));
    b.set(1, Value::Integer(30));
    let first = b.build().unwrap();
    let second = b.build().unwrap();
    assert_eq!(first, second);
    b.set(1, Value::Integer(31));
    let third = b.build().unwrap();
    assert_eq!(third.values[1], Value::Integer(31));
}

#[test]
fn earliest_declared_missing_field_is_reported() {
    let rec = RecordDef {
        name: "Triple".to_string(),
        fields: vec![field("a", "u8"), field("b", "u8"), field("c", "u8")],
    };
    let mut b = rec.builder();
    b.set(2, Value::Integer(3));
    assert_eq!(b.build().unwrap_err().field, "a");
    b.set(0, Value::Integer(1));
    assert_eq!(b.build().unwrap_err().field, "b");
}

#[test]
fn single_field_record_round_trip() {
    let rec = RecordDef { name: "Tag".to_string(), fields: vec![field("label", "Text")] };
    let mut b = rec.builder();
    assert_eq!(b.build().unwrap_err().field, "label");
    b.set(0, text("release"));
    let built = b.build().unwrap();
    assert_eq!(built.name, "Tag");
    assert_eq!(built.values, vec![text("release")]);
}
