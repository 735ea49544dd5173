use staged_builder::render::{generate, Gate};
use staged_builder::shape::{extract_fields, Body, Field, RawField, RecordShape, ShapeError};
use staged_builder::{builder, consumer};

fn named(name: &str, ty: &str) -> RawField {
    RawField { name: Some(name.to_string()), ty: ty.to_string() }
}

fn point() -> RecordShape {
    RecordShape {
        name: "Point".to_string(),
        body: Body::Fields(vec![named("x", "i64"), named("y", "i64")]),
    }
}

#[test]
fn point_builder_source() {
    let text = builder(&point()).unwrap();
    let want = [
        "pub struct PointBuilder<const xSET: bool, const ySET: bool> { x: Option<i64>, y: Option<i64> }\n",
        "impl<const ySET: bool> PointBuilder<false, ySET> { pub fn set_x(mut self, x: i64) -> PointBuilder<true, ySET> { self.x = Some(x); PointBuilder { x: self.x, y: self.y } } }\n",
        "impl<const xSET: bool> PointBuilder<xSET, false> { pub fn set_y(mut self, y: i64) -> PointBuilder<xSET, true> { self.y = Some(y); PointBuilder { x: self.x, y: self.y } } }\n",
        "impl PointBuilder<false, false> { pub fn new() -> PointBuilder<false, false> { PointBuilder { x: None, y: None } } }\n",
        "impl Point { pub fn builder() -> PointBuilder<false, false> { PointBuilder { x: None, y: None } } }\n",
        "impl PointBuilder<true, true> { pub fn complete(self) -> Point { Point { x: self.x.unwrap(), y: self.y.unwrap() } } }\n",
    ]
    .concat();
    assert_eq!(text, want);
}

#[test]
fn point_consumer_source() {
    let text = consumer(&point()).unwrap();
    let want = [
        "pub struct PointConsumer<const xCONSUMED: bool, const yCONSUMED: bool> { x: Option<i64>, y: Option<i64> }\n",
        "impl<const yCONSUMED: bool> PointConsumer<false, yCONSUMED> { pub fn consume_x(mut self) -> (i64, PointConsumer<true, yCONSUMED>) { let value = self.x.take().unwrap(); (value, PointConsumer { x: self.x, y: self.y }) } }\n",
        "impl<const xCONSUMED: bool> PointConsumer<xCONSUMED, false> { pub fn consume_y(mut self) -> (i64, PointConsumer<xCONSUMED, true>) { let value = self.y.take().unwrap(); (value, PointConsumer { x: self.x, y: self.y }) } }\n",
        "impl Point { pub fn consumer(self) -> PointConsumer<false, false> { PointConsumer { x: Some(self.x), y: Some(self.y) } } }\n",
        "impl PointConsumer<true, true> { pub fn consume(self) {} }\n",
    ]
    .concat();
    assert_eq!(text, want);
}

#[test]
fn three_fields_gate_only_their_own_flag() {
    let shape = RecordShape {
        name: "R".to_string(),
        body: Body::Fields(vec![named("a", "u8"), named("b", "String"), named("c", "Vec < u8 >")]),
    };
    let text = builder(&shape).unwrap();
    assert!(text.contains(
        "impl<const aSET: bool, const cSET: bool> RBuilder<aSET, false, cSET> { pub fn set_b(mut self, b: String) -> RBuilder<aSET, true, cSET> {"
    ));
    assert!(text.contains("c: Option<Vec < u8 >>"));
    assert!(text.contains("impl RBuilder<true, true, true> { pub fn complete(self) -> R {"));
}

#[test]
fn empty_record_is_complete_at_once() {
    let shape = RecordShape { name: "E".to_string(), body: Body::Fields(vec![]) };
    let text = builder(&shape).unwrap();
    let want = [
        "pub struct EBuilder<> {  }\n",
        "impl EBuilder<> { pub fn new() -> EBuilder<> { EBuilder {  } } }\n",
        "impl E { pub fn builder() -> EBuilder<> { EBuilder {  } } }\n",
        "impl EBuilder<> { pub fn complete(self) -> E { E {  } } }\n",
    ]
    .concat();
    assert_eq!(text, want);
    let text = consumer(&shape).unwrap();
    let want = [
        "pub struct EConsumer<> {  }\n",
        "impl E { pub fn consumer(self) -> EConsumer<> { EConsumer {  } } }\n",
        "impl EConsumer<> { pub fn consume(self) {} }\n",
    ]
    .concat();
    assert_eq!(text, want);
}

#[test]
fn enum_and_union_are_not_structs() {
    for body in [Body::Enum, Body::Union, Body::Unit] {
        let shape = RecordShape { name: "T".to_string(), body };
        assert_eq!(builder(&shape), Err(ShapeError::NotAStruct));
    }
    let shape = RecordShape { name: "T".to_string(), body: Body::Enum };
    assert_eq!(consumer(&shape), Err(ShapeError::NotAStruct));
}

#[test]
fn positional_fields_are_rejected() {
    let tuple = RecordShape {
        name: "Pair".to_string(),
        body: Body::Fields(vec![
            RawField { name: None, ty: "i32".to_string() },
            RawField { name: None, ty: "i32".to_string() },
        ]),
    };
    assert_eq!(builder(&tuple), Err(ShapeError::UnnamedField(0)));
    assert_eq!(consumer(&tuple), Err(ShapeError::UnnamedField(0)));
    let mixed = RecordShape {
        name: "M".to_string(),
        body: Body::Fields(vec![named("a", "u8"), RawField { name: None, ty: "u8".to_string() }]),
    };
    assert_eq!(builder(&mixed), Err(ShapeError::UnnamedField(1)));
}

#[test]
fn error_messages() {
    assert_eq!(ShapeError::NotAStruct.message(true), "Can only define builders for structs");
    assert_eq!(ShapeError::NotAStruct.message(false), "Can only define consumers for structs");
    assert_eq!(ShapeError::UnnamedField(3).message(true), "Expected identifier");
}

#[test]
fn extraction_keeps_declaration_order() {
    let fields = extract_fields(&point()).unwrap();
    let names: Vec<&str> = fields.iter().map(|f: &Field| f.name.as_str()).collect();
    assert_eq!(names, vec!["x", "y"]);
    assert_eq!(fields[1].ty, "i64");
}

#[test]
fn generate_for_given_fields() {
    let fs = vec![Field { name: "n".to_string(), ty: "u32".to_string() }];
    let text = generate(Gate::Consumer, &"One".to_string(), &fs);
    assert!(text.starts_with("pub struct OneConsumer<const nCONSUMED: bool> { n: Option<u32> }\n"));
    assert!(text.contains("impl<> OneConsumer<false> { pub fn consume_n(mut self) -> (u32, OneConsumer<true>) {"));
}
