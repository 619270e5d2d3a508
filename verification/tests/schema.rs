use openapi::codec::Codec;
use openapi::error::{ErrorKind, Expected, Segment};
use openapi::json::{Json, JsonKind, Number};
use openapi::ordered_map::OrderedMap;
use openapi::text::{parse, parse_json, print, print_json};
use openapi::v3_0::component_ser_as_ref::{deserialize, serialize, PATH_REF_PREFIX};
use openapi::v3_0::schema::{decode_nested, decode_schema, encode_schema, MAX_SCHEMA_DEPTH};
use openapi::v3_0::{ComponentOrInlineSchema, Schema, Type};

fn inline(schema: Schema) -> ComponentOrInlineSchema {
    ComponentOrInlineSchema::Inline(schema)
}

fn component(name: &str) -> ComponentOrInlineSchema {
    ComponentOrInlineSchema::Component { name: name.to_string() }
}

fn nested_items(levels: usize) -> Schema {
    let mut schema = Schema { schema_type: Some(Type::String), ..Schema::default() };
    for _ in 1..levels {
        schema = Schema {
            schema_type: Some(Type::Array),
            items: Some(Box::new(inline(schema))),
            ..Schema::default()
        };
    }
    schema
}

#[test]
fn component_name_is_written_behind_the_prefix() {
    assert_eq!(PATH_REF_PREFIX, "#/components/schemas/");
    assert_eq!(serialize("Pet"), "#/components/schemas/Pet");
    assert_eq!(serialize(""), "#/components/schemas/");
}

#[test]
fn component_name_is_read_from_behind_the_prefix() {
    assert_eq!(deserialize("#/components/schemas/Pet"), Ok("Pet".to_string()));
    assert_eq!(deserialize("#/components/schemas/"), Ok(String::new()));
    assert_eq!(deserialize("#/components/schemas/Größe/x"), Ok("Größe/x".to_string()));
}

#[test]
fn pointer_without_the_prefix_is_an_invalid_reference() {
    let err = deserialize("Pet").unwrap_err();
    assert_eq!(err.kind, ErrorKind::InvalidReferenceFormat("Pet".to_string()));
    let err = deserialize("#/components/parameters/Pet").unwrap_err();
    assert_eq!(
        err.kind,
        ErrorKind::InvalidReferenceFormat("#/components/parameters/Pet".to_string())
    );
    let err = deserialize("other.json#/components/schemas/Pet").unwrap_err();
    assert!(matches!(err.kind, ErrorKind::InvalidReferenceFormat(_)));
    let err = deserialize("#/components/schemas").unwrap_err();
    assert!(matches!(err.kind, ErrorKind::InvalidReferenceFormat(_)));
}

#[test]
fn nested_schema_component_round_trips_through_its_pointer() {
    let pet = component("Pet");
    assert_eq!(print(&pet), r##"{"$ref":"#/components/schemas/Pet"}"##);
    assert_eq!(parse::<ComponentOrInlineSchema>(&print(&pet)).unwrap(), pet);
}

#[test]
fn nested_schema_with_a_foreign_pointer_fails_under_the_pointer_key() {
    let err =
        parse::<ComponentOrInlineSchema>(r##"{"$ref":"#/definitions/Pet"}"##).unwrap_err();
    assert_eq!(err.kind, ErrorKind::InvalidReferenceFormat("#/definitions/Pet".to_string()));
    assert_eq!(err.path, vec![Segment::Key("$ref".to_string())]);
}

#[test]
fn pointer_wins_over_a_complete_inline_schema() {
    let text = r##"{"type":"object","description":"a pet","properties":{"id":{"type":"integer"}},"$ref":"#/components/schemas/Pet","required":["id"]}"##;
    let decoded: ComponentOrInlineSchema = parse(text).unwrap();
    assert_eq!(decoded, component("Pet"));
    assert!(decoded.unwrap().is_none());
    // The same value without the pointer is the schema written in place.
    let text = r##"{"type":"object","description":"a pet","properties":{"id":{"type":"integer"}},"required":["id"]}"##;
    let decoded: ComponentOrInlineSchema = parse(text).unwrap();
    let schema = decoded.unwrap().expect("inline");
    assert_eq!(schema.schema_type, Some(Type::Object));
    assert_eq!(schema.description, "a pet");
    assert_eq!(schema.required, vec!["id".to_string()]);
}

#[test]
fn pointer_that_is_no_string_does_not_make_a_reference() {
    let decoded: ComponentOrInlineSchema = parse(r#"{"$ref":17,"title":"t"}"#).unwrap();
    assert_eq!(decoded, inline(Schema { title: "t".to_string(), ..Schema::default() }));
}

#[test]
fn unwrap_gives_the_inline_schema_only() {
    let schema = Schema { title: "t".to_string(), ..Schema::default() };
    assert_eq!(inline(schema.clone()).unwrap(), Some(&schema));
    assert_eq!(component("Pet").unwrap(), None);
}

#[test]
fn nullable_false_is_written_and_unset_is_left_out() {
    let set = Schema { nullable: Some(false), ..Schema::default() };
    assert_eq!(print(&set), r#"{"nullable":false}"#);
    let json = set.encode();
    assert_eq!(json, Json::Object(vec![("nullable".to_string(), Json::Bool(false))]));
    let unset = Schema::default();
    assert_eq!(print(&unset), "{}");
    assert_eq!(unset.encode(), Json::Object(vec![]));
    let on = Schema { nullable: Some(true), read_only: Some(false), ..Schema::default() };
    assert_eq!(print(&on), r#"{"readOnly":false,"nullable":true}"#);
    assert_eq!(parse::<Schema>(r#"{"nullable":false}"#).unwrap(), set);
    assert_eq!(parse::<Schema>("{}").unwrap(), unset);
    assert_eq!(parse::<Schema>(r#"{"nullable":null}"#).unwrap(), unset);
}

#[test]
fn each_field_is_left_out_by_its_own_empty_value() {
    let schema = Schema {
        description: String::new(),
        enum_values: vec![],
        max_length: Some(0),
        unique_items: Some(false),
        required: vec![String::new()],
        example: Some(Json::Bool(false)),
        default: Some(Json::String(String::new())),
        const_value: Some(Json::Array(vec![])),
        minimum: Some(Json::Number(Number::Unsigned(0))),
        ..Schema::default()
    };
    let text = print(&schema);
    assert_eq!(
        text,
        r#"{"example":false,"default":"","const":[],"minimum":0,"maxLength":0,"uniqueItems":false,"required":[""]}"#
    );
    assert_eq!(parse::<Schema>(&text).unwrap(), schema);
}

#[test]
fn schema_fields_are_written_in_the_order_of_declaration() {
    let mut properties = OrderedMap::new();
    properties.insert("zeta".to_string(), component("Zeta"));
    properties.insert("alpha".to_string(), inline(Schema {
        schema_type: Some(Type::Integer),
        format: "int64".to_string(),
        ..Schema::default()
    }));
    let mut dependent_required = OrderedMap::new();
    dependent_required.insert("b".to_string(), vec!["a".to_string()]);
    dependent_required.insert("a".to_string(), vec![]);
    let schema = Schema {
        description: "d".to_string(),
        format: "f".to_string(),
        items: Some(Box::new(component("Item"))),
        properties,
        read_only: Some(true),
        write_only: Some(false),
        nullable: Some(true),
        additional_properties: Some(Box::new(inline(Schema::default()))),
        example: Some(Json::Number(Number::Negative(-3))),
        title: "t".to_string(),
        default: Some(Json::Number(Number::Real("1.5".to_string()))),
        all_of: vec![component("A")],
        one_of: vec![component("B"), component("C")],
        any_of: vec![inline(Schema { title: "x".to_string(), ..Schema::default() })],
        schema_type: Some(Type::Object),
        enum_values: vec!["e1".to_string(), "e2".to_string()],
        const_value: Some(Json::String("c".to_string())),
        multiple_of: Some(Json::Number(Number::Unsigned(2))),
        minimum: Some(Json::Number(Number::Unsigned(1))),
        exclusive_minimum: Some(Json::Bool(true)),
        maximum: Some(Json::Number(Number::Unsigned(9))),
        exclusive_maximum: Some(Json::Bool(false)),
        max_length: Some(10),
        min_length: Some(1),
        pattern: "^a".to_string(),
        max_items: Some(5),
        min_items: Some(0),
        unique_items: Some(true),
        max_properties: Some(7),
        min_properties: Some(2),
        required: vec!["zeta".to_string()],
        dependent_required,
    };
    let text = print(&schema);
    assert_eq!(
        text,
        concat_all(&[
            r##"{"description":"d","format":"f","items":{"$ref":"#/components/schemas/Item"},"##,
            r##""properties":{"zeta":{"$ref":"#/components/schemas/Zeta"},"alpha":{"format":"int64","type":"integer"}},"##,
            r##""readOnly":true,"writeOnly":false,"nullable":true,"additionalProperties":{},"##,
            r##""example":-3,"title":"t","default":1.5,"##,
            r##""allOf":[{"$ref":"#/components/schemas/A"}],"##,
            r##""oneOf":[{"$ref":"#/components/schemas/B"},{"$ref":"#/components/schemas/C"}],"##,
            r##""anyOf":[{"title":"x"}],"type":"object","enum":["e1","e2"],"const":"c","##,
            r##""multipleOf":2,"minimum":1,"exclusiveMinimum":true,"maximum":9,"exclusiveMaximum":false,"##,
            r##""maxLength":10,"minLength":1,"pattern":"^a","maxItems":5,"minItems":0,"uniqueItems":true,"##,
            r##""maxProperties":7,"minProperties":2,"required":["zeta"],"##,
            r##""dependentRequired":{"b":["a"],"a":[]}}"##,
        ])
    );
    assert_eq!(parse::<Schema>(&text).unwrap(), schema);
    assert_eq!(print(&parse::<Schema>(&text).unwrap()), text);
}

fn concat_all(parts: &[&str]) -> String {
    let mut out = String::new();
    for part in parts {
        out.push_str(part);
    }
    out
}

#[test]
fn properties_keep_the_order_of_the_text() {
    let text = r#"{"properties":{"m":{},"z":{},"a":{},"k":{}}}"#;
    let schema: Schema = parse(text).unwrap();
    let keys: Vec<&str> = schema.properties.entries.iter().map(|e| e.0.as_str()).collect();
    assert_eq!(keys, vec!["m", "z", "a", "k"]);
    assert_eq!(print(&schema), text);
}

#[test]
fn keys_that_the_schema_does_not_know_are_passed_over() {
    let schema: Schema = parse(r#"{"x-vendor":{"a":1},"title":"t","unknown":[1,2]}"#).unwrap();
    assert_eq!(schema, Schema { title: "t".to_string(), ..Schema::default() });
    assert_eq!(print(&schema), r#"{"title":"t"}"#);
}

#[test]
fn five_levels_of_items_round_trip() {
    let schema = nested_items(5);
    let text = print(&schema);
    assert_eq!(
        text,
        r#"{"items":{"items":{"items":{"items":{"type":"string"},"type":"array"},"type":"array"},"type":"array"},"type":"array"}"#
    );
    let back: Schema = parse(&text).unwrap();
    assert_eq!(back, schema);
    let mut depth = 1;
    let mut cursor = &back;
    while let Some(next) = &cursor.items {
        cursor = next.unwrap().expect("inline");
        depth += 1;
    }
    assert_eq!(depth, 5);
    assert_eq!(cursor.schema_type, Some(Type::String));
}

#[test]
fn schemas_nest_as_deep_as_the_limit_and_no_deeper() {
    assert_eq!(MAX_SCHEMA_DEPTH, 64);
    let at_limit = nested_items(MAX_SCHEMA_DEPTH);
    let json = at_limit.encode();
    assert_eq!(Schema::decode(&json), Ok(at_limit));
    let too_deep = nested_items(MAX_SCHEMA_DEPTH + 1);
    let json = too_deep.encode();
    let err = Schema::decode(&json).unwrap_err();
    assert_eq!(err.kind, ErrorKind::DepthLimitExceeded);
    assert_eq!(err.path.len(), MAX_SCHEMA_DEPTH);
    assert!(err.path.iter().all(|s| *s == Segment::Key("items".to_string())));
}

#[test]
fn depth_counts_schemas_written_in_place_only() {
    let json = parse_json(r##"{"items":{"$ref":"#/components/schemas/Pet"}}"##).unwrap();
    let schema = decode_schema(&json, 1).unwrap();
    assert_eq!(schema.items, Some(Box::new(component("Pet"))));
    let json = parse_json(r#"{"items":{}}"#).unwrap();
    assert_eq!(decode_schema(&json, 1).unwrap_err().kind, ErrorKind::DepthLimitExceeded);
    assert_eq!(decode_schema(&json, 2).unwrap(), nested_items_plain());
    assert_eq!(decode_schema(&json, 0).unwrap_err().kind, ErrorKind::DepthLimitExceeded);
    let pointer = parse_json(r##"{"$ref":"#/components/schemas/Pet"}"##).unwrap();
    assert_eq!(decode_nested(&pointer, 0), Ok(component("Pet")));
    assert_eq!(encode_schema(&nested_items_plain()), json);
}

fn nested_items_plain() -> Schema {
    Schema { items: Some(Box::new(inline(Schema::default()))), ..Schema::default() }
}

#[test]
fn a_field_of_the_wrong_shape_is_a_mismatch_that_names_it() {
    let err = parse::<Schema>(r#"{"nullable":"yes"}"#).unwrap_err();
    assert_eq!(
        err.kind,
        ErrorKind::TypeMismatch {
            field: "nullable".to_string(),
            expected: Expected::Bool,
            found: JsonKind::String,
        }
    );
    assert_eq!(err.path, vec![Segment::Key("nullable".to_string())]);
    let err = parse::<Schema>(r#"{"maxLength":-1}"#).unwrap_err();
    assert_eq!(
        err.kind,
        ErrorKind::TypeMismatch {
            field: "maxLength".to_string(),
            expected: Expected::Unsigned,
            found: JsonKind::Number,
        }
    );
    let err = parse::<Schema>(r#"{"maxLength":1.5}"#).unwrap_err();
    assert!(matches!(err.kind, ErrorKind::TypeMismatch { expected: Expected::Unsigned, .. }));
    let err = parse::<Schema>(r#"{"description":null}"#).unwrap_err();
    assert!(matches!(
        err.kind,
        ErrorKind::TypeMismatch { expected: Expected::String, found: JsonKind::Null, .. }
    ));
    let err = parse::<Schema>(r#"[1]"#).unwrap_err();
    assert_eq!(
        err.kind,
        ErrorKind::TypeMismatch {
            field: String::new(),
            expected: Expected::Object,
            found: JsonKind::Array,
        }
    );
    assert!(err.path.is_empty());
}

#[test]
fn a_failure_deep_in_a_schema_carries_the_chain_of_keys() {
    let text = r#"{"properties":{"pet":{"allOf":[{},{"items":{"required":["a",7]}}]}}}"#;
    let err = parse::<Schema>(text).unwrap_err();
    assert_eq!(
        err.path,
        vec![
            Segment::Key("properties".to_string()),
            Segment::Key("pet".to_string()),
            Segment::Key("allOf".to_string()),
            Segment::Index(1),
            Segment::Key("items".to_string()),
            Segment::Key("required".to_string()),
            Segment::Index(1),
        ]
    );
    assert_eq!(
        err.kind,
        ErrorKind::TypeMismatch {
            field: "required".to_string(),
            expected: Expected::String,
            found: JsonKind::Number,
        }
    );
}

#[test]
fn the_first_field_that_fails_in_declaration_order_is_reported() {
    let err = parse::<Schema>(r#"{"required":1,"title":2,"format":3}"#).unwrap_err();
    assert_eq!(err.path, vec![Segment::Key("format".to_string())]);
}

#[test]
fn an_unknown_type_word_is_an_unknown_discriminant() {
    let err = parse::<Schema>(r#"{"type":"tuple"}"#).unwrap_err();
    assert_eq!(err.kind, ErrorKind::UnknownDiscriminant("tuple".to_string()));
    assert_eq!(err.path, vec![Segment::Key("type".to_string())]);
    for (word, ty) in [
        ("string", Type::String),
        ("number", Type::Number),
        ("integer", Type::Integer),
        ("boolean", Type::Boolean),
        ("array", Type::Array),
        ("object", Type::Object),
        ("file", Type::File),
    ] {
        assert_eq!(ty.encode(), Json::String(word.to_string()));
        assert_eq!(Type::decode(&Json::String(word.to_string())), Ok(ty));
    }
    assert!(Type::decode(&Json::String("String".to_string())).is_err());
}

#[test]
fn a_key_that_comes_again_keeps_its_place_and_takes_the_later_value() {
    let json = Json::Object(vec![(
        "dependentRequired".to_string(),
        Json::Object(vec![
            ("a".to_string(), Json::Array(vec![Json::String("x".to_string())])),
            ("b".to_string(), Json::Array(vec![])),
            ("a".to_string(), Json::Array(vec![Json::String("y".to_string())])),
        ]),
    )]);
    let schema = Schema::decode(&json).unwrap();
    assert_eq!(
        schema.dependent_required.entries,
        vec![("a".to_string(), vec!["y".to_string()]), ("b".to_string(), vec![])]
    );
    // A lookup in a tree takes the first entry with the key.
    let json = Json::Object(vec![
        ("title".to_string(), Json::String("first".to_string())),
        ("title".to_string(), Json::String("second".to_string())),
    ]);
    assert_eq!(Schema::decode(&json).unwrap().title, "first");
}

#[test]
fn a_free_form_value_set_to_null_does_not_come_back() {
    // The input that the round trip leaves out: `null` reads as unset.
    let schema = Schema { example: Some(Json::Null), ..Schema::default() };
    let json = schema.encode();
    assert_eq!(json, Json::Object(vec![("example".to_string(), Json::Null)]));
    assert_eq!(Schema::decode(&json).unwrap(), Schema::default());
}

#[test]
fn trees_are_printed_compactly_and_parsed_back() {
    let text = r#"{"a":[1,-2,3.5,true,null,"x\ny"],"b":{"c":{}}}"#;
    let tree = parse_json(text).unwrap();
    assert_eq!(
        tree,
        Json::Object(vec![
            (
                "a".to_string(),
                Json::Array(vec![
                    Json::Number(Number::Unsigned(1)),
                    Json::Number(Number::Negative(-2)),
                    Json::Number(Number::Real("3.5".to_string())),
                    Json::Bool(true),
                    Json::Null,
                    Json::String("x\ny".to_string()),
                ])
            ),
            ("b".to_string(), Json::Object(vec![("c".to_string(), Json::Object(vec![]))])),
        ])
    );
    assert_eq!(print_json(&tree), text);
    assert_eq!(parse_json(" [ 1 , 2 ] ").unwrap(), parse_json("[1,2]").unwrap());
    assert_eq!(print_json(&Json::Number(Number::Unsigned(u64::MAX))), "18446744073709551615");
    assert_eq!(print_json(&Json::Number(Number::Negative(i64::MIN))), "-9223372036854775808");
    assert_eq!(parse_json("18446744073709551615").unwrap(), Json::Number(Number::Unsigned(u64::MAX)));
}

#[test]
fn numbers_are_printed_in_their_normal_form() {
    // A signed integer that is not negative prints as the unsigned one.
    assert_eq!(print_json(&Json::Number(Number::Negative(5))), "5");
    assert_eq!(parse_json("5").unwrap(), Json::Number(Number::Unsigned(5)));
    // A number kept as text prints as what the text parses to.
    assert_eq!(print_json(&Json::Number(Number::Real("1e2".to_string()))), "100.0");
    assert_eq!(print_json(&Json::Number(Number::Real("7".to_string()))), "7");
    // Text that is no number prints as null.
    assert_eq!(print_json(&Json::Number(Number::Real("seven".to_string()))), "null");
    assert_eq!(print_json(&Json::Number(Number::Real("[1]".to_string()))), "null");
    assert_eq!(print_json(&Json::Number(Number::Real(String::new()))), "null");
}

#[test]
fn an_object_is_printed_with_each_key_once() {
    let tree = Json::Object(vec![
        ("a".to_string(), Json::Bool(true)),
        ("b".to_string(), Json::Null),
        ("a".to_string(), Json::Bool(false)),
    ]);
    assert_eq!(print_json(&tree), r#"{"a":false,"b":null}"#);
    assert_eq!(
        parse_json(r#"{"a":true,"b":null,"a":false}"#).unwrap(),
        Json::Object(vec![("a".to_string(), Json::Bool(false)), ("b".to_string(), Json::Null)])
    );
}

#[test]
fn text_that_is_not_json_is_malformed_input() {
    for text in ["", "{", "{\"a\":}", "nul", "[1,]", "{'a':1}", "1 2"] {
        let err = parse_json(text).unwrap_err();
        assert_eq!(err.kind, ErrorKind::MalformedInput, "{:?}", text);
        assert!(err.path.is_empty());
    }
    assert_eq!(parse::<Schema>("not json").unwrap_err().kind, ErrorKind::MalformedInput);
}

#[test]
fn text_nested_beyond_what_the_parser_allows_is_malformed_input() {
    let mut text = String::new();
    for _ in 0..200 {
        text.push('[');
    }
    for _ in 0..200 {
        text.push(']');
    }
    assert_eq!(parse_json(&text).unwrap_err().kind, ErrorKind::MalformedInput);
    let mut text = String::new();
    for _ in 0..100 {
        text.push('[');
    }
    for _ in 0..100 {
        text.push(']');
    }
    let tree = parse_json(&text).unwrap();
    assert_eq!(print_json(&tree), text);
}

#[test]
fn a_copy_of_a_tree_is_equal_to_it() {
    let tree = parse_json(r#"{"a":[1,{"b":null}],"c":"d"}"#).unwrap();
    assert_eq!(tree.clone(), tree);
    assert_eq!(tree.kind(), JsonKind::Object);
    assert_eq!(Json::default(), Json::Null);
    let schema: Schema = parse(r##"{"items":{"$ref":"#/components/schemas/A"},"allOf":[{"title":"t"}],"properties":{"p":{}}}"##).unwrap();
    assert_eq!(schema.clone(), schema);
}

#[test]
fn what_was_read_is_read_again_from_what_is_written_for_it() {
    let text = r##"{"x-extra":1,"description":"","title":"t","nullable":null,"required":[],"properties":{"b":{"$ref":"#/components/schemas/B","title":"lost"},"a":{"enum":[]}},"items":{"type":"string","unknown":true}}"##;
    let first: Schema = parse(text).unwrap();
    let written = print(&first);
    assert_eq!(
        written,
        r##"{"items":{"type":"string"},"properties":{"b":{"$ref":"#/components/schemas/B"},"a":{}},"title":"t"}"##
    );
    let second: Schema = parse(&written).unwrap();
    assert_eq!(second, first);
    assert_eq!(print(&second), written);
}
