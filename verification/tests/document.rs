use openapi::codec::Codec;
use openapi::error::{ErrorKind, Expected, Segment};
use openapi::json::{Json, JsonKind, Number};
use openapi::ordered_map::OrderedMap;
use openapi::text::{parse, print};
use openapi::v3_0::{
    Callback, Components, Contact, Example, ExampleValue, ExternalDoc, Header, Info, License,
    Link, LinkOperation, Location, MediaType, MediaTypeExample, ObjectOrReference, Operation,
    Parameter, ParameterExamples, ParameterRepresentation, ParameterStyle, PathItem, RequestBody,
    Response, RuntimeExpressionOrValue, Schema, Server, ServerVariable, Spec, Tag, Type,
    ComponentOrInlineSchema,
};
use openapi::{decode, encode, OpenApi};

fn petstore() -> String {
    [
    r##"{"openapi":"3.0.1","info":{"title":"Petstore","description":"A sample","##,
    r##""termsOfService":"https://example.com/terms/","version":"1.0.0","##,
    r##""contact":{"name":"API Support","url":"https://example.com/support","email":"support@example.com"},"##,
    r##""license":{"name":"MIT","url":"https://example.com/license"}},"##,
    r##""servers":[{"url":"https://{env}.example.com/v1","description":"main","##,
    r##""variables":{"env":{"default":"prod","enum":["prod","staging"],"description":"environment"}}}],"##,
    r##""paths":{"/pets":{"summary":"pets","get":{"tags":["pets"],"summary":"List pets","operationId":"listPets","##,
    r##""parameters":[{"name":"limit","in":"query","description":"How many","required":false,"style":"form","explode":true,"##,
    r##""schema":{"format":"int32","type":"integer"},"example":20},{"$ref":"#/components/parameters/Page"}],"##,
    r##""responses":{"200":{"description":"A list","headers":{"x-next":{"schema":{"type":"string"},"description":"next page"}},"##,
    r##""content":{"application/json":{"schema":{"$ref":"#/components/schemas/Pets"},"##,
    r##""examples":{"two":{"summary":"two pets","value":[{"id":1},{"id":2}]},"far":{"externalValue":"https://example.com/pets.json"}}}},"##,
    r##""links":{"next":{"operationId":"listPets","parameters":{"page":"$response.body#/next","size":10},"description":"the next page"}}},"##,
    r##""default":{"description":"unexpected error"}},"deprecated":false,"security":[{"petstore_auth":["read:pets"]},{}]},"##,
    r##""post":{"operationId":"createPet","requestBody":{"description":"the pet","content":{"application/json":{"##,
    r##""schema":{"$ref":"#/components/schemas/Pet"},"example":{"id":3,"name":"Rex"},"##,
    r##""encoding":{"photo":{"contentType":"image/png","explode":false}}}},"required":true},"##,
    r##""responses":{"201":{"description":"created"}},"callbacks":{"onCreated":{"{$request.body#/url}":{"post":{"responses":{}}}}}}},"##,
    r##""/pets/{id}":{"$ref":"other.json#/pets","parameters":[{"name":"id","in":"path","required":true,"schema":{"type":"string"}}]}},"##,
    r##""components":{"schemas":{"Pet":{"properties":{"id":{"format":"int64","type":"integer"},"name":{"type":"string"},"##,
    r##""tag":{"nullable":true,"type":"string"}},"type":"object","required":["id","name"]},"##,
    r##""Pets":{"items":{"$ref":"#/components/schemas/Pet"},"type":"array"},"Alias":{"$ref":"#/components/schemas/Pet"}},"##,
    r##""parameters":{"Page":{"name":"page","in":"query","content":{"application/json":{"schema":{"type":"integer"}}},"##,
    r##""examples":{"first":{"value":1}}}},"##,
    r##""securitySchemes":{"petstore_auth":{"type":"oauth2","flows":{"implicit":{"authorizationUrl":"https://example.com/auth","##,
    r##""scopes":{"write:pets":"modify pets","read:pets":"read pets"}}}},"key":{"type":"apiKey","name":"api_key","in":"header"}}},"##,
    r##""security":[{"key":[]}],"tags":[{"name":"pets","description":"Everything about pets"},{"name":"store"}],"##,
    r##""externalDocs":{"url":"https://example.com/docs","description":"more"}}"##,
    ]
    .concat()
}

fn text(s: &str) -> String {
    s.to_string()
}

fn minimal() -> Spec {
    Spec {
        openapi: text("3.0.1"),
        info: Info { title: text("t"), version: text("1"), ..Info::default() },
        ..Spec::default()
    }
}

#[test]
fn a_document_in_canonical_form_is_printed_as_it_was_read() {
    let doc = decode(&petstore()).unwrap();
    assert_eq!(encode(&doc), petstore());
    assert_eq!(decode(&encode(&doc)).unwrap(), doc);
}

#[test]
fn a_document_is_read_into_its_fields() {
    let OpenApi::V3_0(spec) = decode(&petstore()).unwrap();
    assert_eq!(spec.openapi, "3.0.1");
    assert_eq!(spec.info.title, "Petstore");
    assert_eq!(spec.info.contact.as_ref().unwrap().email, "support@example.com");
    assert_eq!(spec.info.terms_of_service.as_ref().unwrap().as_str(), "https://example.com/terms/");
    assert_eq!(spec.servers.len(), 1);
    assert_eq!(spec.servers[0].variables.get("env").unwrap().substitutions_enum, vec!["prod", "staging"]);
    let keys: Vec<&str> = spec.paths.entries.iter().map(|e| e.0.as_str()).collect();
    assert_eq!(keys, vec!["/pets", "/pets/{id}"]);
    let pets = spec.paths.get("/pets").unwrap();
    let get = pets.get.as_ref().unwrap();
    assert_eq!(get.operation_id, "listPets");
    assert_eq!(get.deprecated, Some(false));
    assert_eq!(get.parameters.len(), 2);
    match &get.parameters[0] {
        ObjectOrReference::Object(p) => {
            assert_eq!(p.name, "limit");
            assert_eq!(p.location, Location::Query);
            assert_eq!(p.style, Some(ParameterStyle::Form));
            assert_eq!(p.required, Some(false));
            match p.representation.as_ref().unwrap() {
                ParameterRepresentation::Simple { schema } => {
                    assert_eq!(schema.unwrap().unwrap().schema_type, Some(Type::Integer));
                }
                other => panic!("{:?}", other),
            }
            assert_eq!(
                p.example,
                Some(ParameterExamples::One { example: Some(Json::Number(Number::Unsigned(20))) })
            );
        }
        other => panic!("{:?}", other),
    }
    assert_eq!(
        get.parameters[1],
        ObjectOrReference::Ref { ref_path: text("#/components/parameters/Page") }
    );
    let ok = get.responses.get("200").unwrap();
    let media = ok.content.get("application/json").unwrap();
    assert_eq!(
        media.schema,
        Some(ComponentOrInlineSchema::Component { name: text("Pets") })
    );
    match media.examples.as_ref().unwrap() {
        MediaTypeExample::Examples { examples } => {
            assert_eq!(examples.len(), 2);
            match examples.get("far").unwrap() {
                ObjectOrReference::Object(e) => assert_eq!(
                    e.value,
                    Some(ExampleValue::External { external_value: text("https://example.com/pets.json") })
                ),
                other => panic!("{:?}", other),
            }
        }
        other => panic!("{:?}", other),
    }
    match ok.links.get("next").unwrap() {
        ObjectOrReference::Object(link) => {
            assert_eq!(link.operation, LinkOperation::Id { operation_id: text("listPets") });
            assert_eq!(
                link.parameters.get("page"),
                Some(&RuntimeExpressionOrValue::RuntimeExpression(text("$response.body#/next")))
            );
            assert_eq!(
                link.parameters.get("size"),
                Some(&RuntimeExpressionOrValue::LiteralValue(Json::Number(Number::Unsigned(10))))
            );
        }
        other => panic!("{:?}", other),
    }
    assert_eq!(get.security.len(), 2);
    assert_eq!(get.security[0].get("petstore_auth"), Some(&vec![text("read:pets")]));
    assert!(get.security[1].is_empty());
    let post = pets.post.as_ref().unwrap();
    assert!(post.callbacks.contains_key("onCreated"));
    match post.request_body.as_ref().unwrap() {
        ObjectOrReference::Object(body) => {
            assert_eq!(body.required, Some(true));
            let media = body.content.get("application/json").unwrap();
            assert!(matches!(media.examples, Some(MediaTypeExample::Example { .. })));
            assert_eq!(media.encoding.get("photo").unwrap().content_type, "image/png");
        }
        other => panic!("{:?}", other),
    }
    assert_eq!(spec.paths.get("/pets/{id}").unwrap().reference, "other.json#/pets");
    let components = spec.components.as_ref().unwrap();
    assert!(matches!(components.schemas.get("Pet"), Some(ObjectOrReference::Object(_))));
    assert_eq!(
        components.schemas.get("Alias"),
        Some(&ObjectOrReference::Ref { ref_path: text("#/components/schemas/Pet") })
    );
    assert_eq!(components.security_schemes.len(), 2);
    assert_eq!(spec.tags[1], Tag { name: text("store"), description: String::new() });
    assert_eq!(spec.external_docs.as_ref().unwrap().url.as_str(), "https://example.com/docs");
}

#[test]
fn a_document_built_in_memory_round_trips() {
    let mut paths = OrderedMap::new();
    let mut responses = OrderedMap::new();
    responses.insert(text("204"), Response { description: text("done"), ..Response::default() });
    paths.insert(
        text("/z"),
        PathItem {
            delete: Some(Operation { responses, ..Operation::default() }),
            ..PathItem::default()
        },
    );
    paths.insert(text("/a"), PathItem::default());
    let mut schemas = OrderedMap::new();
    schemas.insert(
        text("Thing"),
        ObjectOrReference::Object(Schema { nullable: Some(false), ..Schema::default() }),
    );
    let spec = Spec {
        paths,
        components: Some(Components { schemas, ..Components::default() }),
        tags: vec![Tag { name: text("x"), description: text("y") }],
        ..minimal()
    };
    let doc = OpenApi::V3_0(spec);
    let printed = encode(&doc);
    assert_eq!(
        printed,
        [
            r#"{"openapi":"3.0.1","info":{"title":"t","version":"1"},"#,
            r#""paths":{"/z":{"delete":{"responses":{"204":{"description":"done"}}}},"/a":{}},"#,
            r#""components":{"schemas":{"Thing":{"nullable":false}}},"tags":[{"name":"x","description":"y"}]}"#,
        ]
        .concat()
    );
    assert_eq!(decode(&printed).unwrap(), doc);
    assert_eq!(OpenApi::decode(&doc.encode()).unwrap(), doc);
}

#[test]
fn a_document_without_a_required_field_is_refused() {
    let err = decode(r#"{"info":{"title":"t","version":"1"},"paths":{}}"#).unwrap_err();
    assert_eq!(err.kind, ErrorKind::MissingRequiredField(text("openapi")));
    assert!(err.path.is_empty());
    let err = decode(r#"{"openapi":"3.0.1","info":{"version":"1"},"paths":{}}"#).unwrap_err();
    assert_eq!(err.kind, ErrorKind::MissingRequiredField(text("title")));
    assert_eq!(err.path, vec![Segment::Key(text("info"))]);
    let err = decode(r#"{"openapi":"3.0.1","info":{"title":"t","version":"1"}}"#).unwrap_err();
    assert_eq!(err.kind, ErrorKind::MissingRequiredField(text("paths")));
    let err = decode(
        r#"{"openapi":"3.0.1","info":{"title":"t","version":"1"},"paths":{"/a":{"get":{}}}}"#,
    )
    .unwrap_err();
    assert_eq!(err.kind, ErrorKind::MissingRequiredField(text("responses")));
    assert_eq!(
        err.path,
        vec![Segment::Key(text("paths")), Segment::Key(text("/a")), Segment::Key(text("get"))]
    );
    assert_eq!(decode("{").unwrap_err().kind, ErrorKind::MalformedInput);
    assert!(matches!(decode("[]").unwrap_err().kind, ErrorKind::TypeMismatch { .. }));
}

#[test]
fn no_part_of_a_document_comes_back_when_one_node_fails() {
    let broken = petstore().replace(r#""nullable":true"#, r#""nullable":"maybe""#);
    let err = decode(&broken).unwrap_err();
    assert_eq!(
        err.kind,
        ErrorKind::TypeMismatch {
            field: text("nullable"),
            expected: Expected::Bool,
            found: JsonKind::String,
        }
    );
    assert_eq!(
        err.path,
        vec![
            Segment::Key(text("components")),
            Segment::Key(text("schemas")),
            Segment::Key(text("Pet")),
            Segment::Key(text("properties")),
            Segment::Key(text("tag")),
            Segment::Key(text("nullable")),
        ]
    );
}

#[test]
fn embedded_and_external_example_values_are_told_apart_by_their_key() {
    let embedded: ExampleValue = parse(r#"{"value":{"a":1}}"#).unwrap();
    assert_eq!(
        embedded,
        ExampleValue::Embedded {
            value: Json::Object(vec![(text("a"), Json::Number(Number::Unsigned(1)))])
        }
    );
    let external: ExampleValue = parse(r#"{"externalValue":"https://example.com/e"}"#).unwrap();
    assert_eq!(external, ExampleValue::External { external_value: text("https://example.com/e") });
    assert_eq!(print(&embedded), r#"{"value":{"a":1}}"#);
    assert_eq!(print(&external), r#"{"externalValue":"https://example.com/e"}"#);
    let null: ExampleValue = parse(r#"{"value":null}"#).unwrap();
    assert_eq!(null, ExampleValue::Embedded { value: Json::Null });
    assert_eq!(print(&null), r#"{"value":null}"#);
}

#[test]
fn keys_that_select_no_variant_are_ambiguous_or_missing() {
    let err = parse::<ExampleValue>(r#"{"summary":"s","x":1}"#).unwrap_err();
    assert_eq!(
        err.kind,
        ErrorKind::AmbiguousOrMissingVariant {
            candidates: vec![vec![text("value")], vec![text("externalValue")]],
            keys_seen: vec![text("summary"), text("x")],
        }
    );
    let err = parse::<ExampleValue>("{}").unwrap_err();
    assert!(matches!(err.kind, ErrorKind::AmbiguousOrMissingVariant { .. }));
    let err = parse::<LinkOperation>(r#"{"description":"d"}"#).unwrap_err();
    assert_eq!(
        err.kind,
        ErrorKind::AmbiguousOrMissingVariant {
            candidates: vec![vec![text("operationId")], vec![text("operationRef")]],
            keys_seen: vec![text("description")],
        }
    );
    let err = parse::<Link>(r#"{"description":"d"}"#).unwrap_err();
    assert!(matches!(err.kind, ErrorKind::AmbiguousOrMissingVariant { .. }));
    let err = parse::<MediaTypeExample>("{}").unwrap_err();
    assert!(matches!(err.kind, ErrorKind::AmbiguousOrMissingVariant { .. }));
    let err = parse::<ParameterRepresentation>("{}").unwrap_err();
    assert!(matches!(err.kind, ErrorKind::AmbiguousOrMissingVariant { .. }));
    let err = parse::<ParameterExamples>("{}").unwrap_err();
    assert!(matches!(err.kind, ErrorKind::AmbiguousOrMissingVariant { .. }));
}

#[test]
fn the_first_declared_variant_wins_where_both_keys_are_present() {
    let both: ExampleValue = parse(r#"{"externalValue":"https://example.com/e","value":1}"#).unwrap();
    assert_eq!(both, ExampleValue::Embedded { value: Json::Number(Number::Unsigned(1)) });
    let both: LinkOperation = parse(r#"{"operationRef":"r","operationId":"i"}"#).unwrap();
    assert_eq!(both, LinkOperation::Id { operation_id: text("i") });
    let both: MediaTypeExample = parse(r#"{"examples":{},"example":7}"#).unwrap();
    assert_eq!(both, MediaTypeExample::Example { example: Json::Number(Number::Unsigned(7)) });
    // Once the variant is selected its payload is read; there is no second try.
    let err = parse::<LinkOperation>(r#"{"operationRef":"r","operationId":5}"#).unwrap_err();
    assert!(matches!(err.kind, ErrorKind::TypeMismatch { expected: Expected::String, .. }));
    assert_eq!(err.path, vec![Segment::Key(text("operationId"))]);
}

#[test]
fn a_union_inside_an_object_is_unset_where_no_key_selects_it() {
    let example: Example = parse(r#"{"summary":"s"}"#).unwrap();
    assert_eq!(example, Example { summary: text("s"), description: String::new(), value: None });
    assert_eq!(print(&example), r#"{"summary":"s"}"#);
    let example: Example = parse(r#"{"summary":"s","externalValue":"u"}"#).unwrap();
    assert_eq!(example.value, Some(ExampleValue::External { external_value: text("u") }));
    assert_eq!(print(&example), r#"{"summary":"s","externalValue":"u"}"#);
    let media: MediaType = parse(r#"{"encoding":{}}"#).unwrap();
    assert_eq!(media, MediaType::default());
    assert_eq!(print(&media), "{}");
}

#[test]
fn a_single_example_of_a_parameter_may_be_unset() {
    let p: Parameter = parse(r#"{"name":"n","in":"header","example":null}"#).unwrap();
    assert_eq!(p.example, Some(ParameterExamples::One { example: None }));
    assert_eq!(p.location, Location::Header);
    assert_eq!(print(&p), r#"{"name":"n","in":"header","example":null}"#);
    let p: Parameter = parse(r#"{"name":"n","in":"formData"}"#).unwrap();
    assert_eq!(p.example, None);
    assert_eq!(p.representation, None);
    assert_eq!(p.location, Location::FormData);
    let p: Parameter = parse(r#"{"name":"n","in":"path","examples":{"a":{"$ref":"x"}},"content":{}}"#).unwrap();
    match p.example {
        Some(ParameterExamples::Multiple { examples }) => {
            assert_eq!(examples.get("a"), Some(&ObjectOrReference::Ref { ref_path: text("x") }));
        }
        other => panic!("{:?}", other),
    }
    assert_eq!(p.representation, Some(ParameterRepresentation::Content { content: OrderedMap::new() }));
    assert_eq!(Location::default(), Location::Query);
    let err = parse::<Parameter>(r#"{"name":"n","in":"cookie"}"#).unwrap_err();
    assert_eq!(err.kind, ErrorKind::UnknownDiscriminant(text("cookie")));
    let err = parse::<Parameter>(r#"{"name":"n","in":"query","style":"Form"}"#).unwrap_err();
    assert_eq!(err.kind, ErrorKind::UnknownDiscriminant(text("Form")));
    for (word, style) in [
        ("matrix", ParameterStyle::Matrix),
        ("label", ParameterStyle::Label),
        ("form", ParameterStyle::Form),
        ("simple", ParameterStyle::Simple),
        ("spaceDelimited", ParameterStyle::SpaceDelimited),
        ("pipeDelimited", ParameterStyle::PipeDelimited),
        ("deepObject", ParameterStyle::DeepObject),
    ] {
        assert_eq!(style.encode(), Json::String(text(word)));
        assert_eq!(ParameterStyle::decode(&Json::String(text(word))), Ok(style));
    }
}

#[test]
fn a_reference_wins_over_any_object() {
    let r: ObjectOrReference<Parameter> =
        parse(r##"{"name":"n","in":"query","$ref":"#/components/parameters/P","description":"d"}"##).unwrap();
    assert_eq!(r, ObjectOrReference::Ref { ref_path: text("#/components/parameters/P") });
    assert_eq!(print(&r), r##"{"$ref":"#/components/parameters/P"}"##);
    let r: ObjectOrReference<Response> = parse(r#"{"$ref":"anything at all"}"#).unwrap();
    assert_eq!(r, ObjectOrReference::Ref { ref_path: text("anything at all") });
    let o: ObjectOrReference<Response> = parse(r#"{"$ref":null,"description":"d"}"#).unwrap();
    assert_eq!(
        o,
        ObjectOrReference::Object(Response { description: text("d"), ..Response::default() })
    );
    let err = parse::<ObjectOrReference<Response>>(r#"{"headers":{}}"#).unwrap_err();
    assert_eq!(err.kind, ErrorKind::MissingRequiredField(text("description")));
}

#[test]
fn a_string_is_an_expression_and_anything_else_a_literal() {
    let e: RuntimeExpressionOrValue = parse(r#""$request.path.id""#).unwrap();
    assert_eq!(e, RuntimeExpressionOrValue::RuntimeExpression(text("$request.path.id")));
    let l: RuntimeExpressionOrValue = parse("[1]").unwrap();
    assert_eq!(
        l,
        RuntimeExpressionOrValue::LiteralValue(Json::Array(vec![Json::Number(Number::Unsigned(1))]))
    );
    assert_eq!(print(&e), r#""$request.path.id""#);
    assert_eq!(print(&l), "[1]");
    // A literal that is a string reads back as an expression.
    let s = RuntimeExpressionOrValue::LiteralValue(Json::String(text("x")));
    assert_eq!(
        parse::<RuntimeExpressionOrValue>(&print(&s)).unwrap(),
        RuntimeExpressionOrValue::RuntimeExpression(text("x"))
    );
}

#[test]
fn small_objects_round_trip() {
    let contact = Contact { name: text("n"), url: None, email: String::new() };
    assert_eq!(print(&contact), r#"{"name":"n"}"#);
    assert_eq!(parse::<Contact>("{}").unwrap(), Contact::default());
    let license: License = parse(r#"{"name":"MIT","url":"https://a.b/c"}"#).unwrap();
    assert_eq!(license.url.as_ref().unwrap().as_str(), "https://a.b/c");
    assert_eq!(print(&license), r#"{"name":"MIT","url":"https://a.b/c"}"#);
    let doc: ExternalDoc = parse(r#"{"url":"https://a.b"}"#).unwrap();
    assert_eq!(print(&doc), r#"{"url":"https://a.b/"}"#);
    let server = Server { url: text("/"), description: String::new(), variables: OrderedMap::new() };
    assert_eq!(print(&server), r#"{"url":"/"}"#);
    let variable: ServerVariable = parse(r#"{"default":"x","enum":[]}"#).unwrap();
    assert_eq!(print(&variable), r#"{"default":"x"}"#);
    let header: Header = parse(r#"{"type":"array","uniqueItems":true,"format":"csv"}"#).unwrap();
    assert_eq!(header.param_type, Some(Type::Array));
    assert_eq!(print(&header), r#"{"uniqueItems":true,"type":"array","format":"csv"}"#);
    let body: RequestBody = parse(r#"{"content":{}}"#).unwrap();
    assert_eq!(print(&body), r#"{"content":{}}"#);
    let callback: Callback = parse(r#"{"a":[1]}"#).unwrap();
    assert_eq!(print(&callback), r#"{"a":[1]}"#);
    assert_eq!(Callback::default(), Callback(Json::Null));
    let link = Link {
        operation: LinkOperation::Ref { operation_ref: text("#/paths/~1pets/get") },
        parameters: OrderedMap::new(),
        request_body: Some(RuntimeExpressionOrValue::LiteralValue(Json::Bool(true))),
        description: String::new(),
        server: None,
    };
    assert_eq!(print(&link), r##"{"operationRef":"#/paths/~1pets/get","requestBody":true}"##);
    assert_eq!(parse::<Link>(&print(&link)).unwrap(), link);
}
