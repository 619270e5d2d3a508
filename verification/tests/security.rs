use openapi::address::Url;
use openapi::error::ErrorKind;
use openapi::text::{parse, print};
use openapi::v3_0::{Flows, ImplicitFlow, SecurityScheme};
use openapi::ordered_map::OrderedMap;

#[test]
fn test_security_scheme_oauth_deser() {
    const IMPLICIT_OAUTH2_SAMPLE: &str = r#"{
          "type": "oauth2",
          "flows": {
            "implicit": {
              "authorizationUrl": "https://example.com/api/oauth/dialog",
              "scopes": {
                "write:pets": "modify pets in your account",
                "read:pets": "read your pets"
              }
            },
            "authorizationCode": {
              "authorizationUrl": "https://example.com/api/oauth/dialog",
              "tokenUrl": "https://example.com/api/oauth/token",
              "scopes": {
                "write:pets": "modify pets in your account",
                "read:pets": "read your pets"
              }
            }
          }
        }"#;
    let obj: SecurityScheme = parse(&IMPLICIT_OAUTH2_SAMPLE).unwrap();
    match obj {
        SecurityScheme::OAuth2 { flows } => {
            assert!(flows.implicit.is_some());
            let implicit = flows.implicit.unwrap();
            assert_eq!(
                implicit.authorization_url,
                Url::parse("https://example.com/api/oauth/dialog").unwrap()
            );
            assert!(implicit.scopes.contains_key("write:pets"));
            assert!(implicit.scopes.contains_key("read:pets"));

            assert!(flows.authorization_code.is_some());
            let auth_code = flows.authorization_code.unwrap();
            assert_eq!(
                auth_code.authorization_url,
                Url::parse("https://example.com/api/oauth/dialog").unwrap()
            );
            assert_eq!(
                auth_code.token_url,
                Url::parse("https://example.com/api/oauth/token").unwrap()
            );
            assert!(implicit.scopes.contains_key("write:pets"));
            assert!(implicit.scopes.contains_key("read:pets"));
        }
        _ => assert!(false, "wrong security scheme type"),
    }
}

#[test]
fn oauth2_with_only_implicit_flow_leaves_the_other_flows_unset() {
    let text = r#"{"type":"oauth2","flows":{"implicit":{"authorizationUrl":"https://example.com/auth","scopes":{"read":"read things"}}}}"#;
    let scheme: SecurityScheme = parse(text).unwrap();
    match scheme {
        SecurityScheme::OAuth2 { flows } => {
            let implicit = flows.implicit.expect("implicit flow");
            assert_eq!(implicit.authorization_url.as_str(), "https://example.com/auth");
            assert_eq!(implicit.refresh_url, None);
            assert_eq!(implicit.scopes.len(), 1);
            assert_eq!(implicit.scopes.get("read"), Some(&"read things".to_string()));
            assert!(flows.password.is_none());
            assert!(flows.client_credentials.is_none());
            assert!(flows.authorization_code.is_none());
        }
        other => panic!("wrong variant: {:?}", other),
    }
}

#[test]
fn unknown_security_scheme_tag_is_an_unknown_discriminant() {
    let err = parse::<SecurityScheme>(r#"{"type":"kerberos","name":"x"}"#).unwrap_err();
    assert_eq!(err.kind, ErrorKind::UnknownDiscriminant("kerberos".to_string()));
    assert!(err.path.is_empty());
}

#[test]
fn security_scheme_without_tag_is_a_missing_field() {
    let err = parse::<SecurityScheme>(r#"{"name":"x","in":"header"}"#).unwrap_err();
    assert_eq!(err.kind, ErrorKind::MissingRequiredField("type".to_string()));
}

#[test]
fn tag_alone_decides_the_payload() {
    // The keys of another variant beside the tag are passed over.
    let text = r#"{"type":"apiKey","name":"token","in":"header","scheme":"basic","flows":{}}"#;
    let scheme: SecurityScheme = parse(text).unwrap();
    assert_eq!(
        scheme,
        SecurityScheme::ApiKey { name: "token".to_string(), location: "header".to_string() }
    );
    let err = parse::<SecurityScheme>(r#"{"type":"http","name":"token","in":"header"}"#)
        .unwrap_err();
    assert_eq!(err.kind, ErrorKind::MissingRequiredField("scheme".to_string()));
}

#[test]
fn security_schemes_are_written_with_their_tag_first() {
    let api_key =
        SecurityScheme::ApiKey { name: "token".to_string(), location: "header".to_string() };
    assert_eq!(print(&api_key), r#"{"type":"apiKey","name":"token","in":"header"}"#);
    let http =
        SecurityScheme::Http { scheme: "bearer".to_string(), bearer_format: "JWT".to_string() };
    assert_eq!(print(&http), r#"{"type":"http","scheme":"bearer","bearerFormat":"JWT"}"#);
    let open_id = SecurityScheme::OpenIdConnect {
        open_id_connect_url: "https://example.com/.well-known".to_string(),
    };
    assert_eq!(
        print(&open_id),
        r#"{"type":"openIdConnect","openIdConnectUrl":"https://example.com/.well-known"}"#
    );
    let mut scopes = OrderedMap::new();
    scopes.insert("write".to_string(), "write things".to_string());
    scopes.insert("read".to_string(), "read things".to_string());
    let oauth = SecurityScheme::OAuth2 {
        flows: Flows {
            implicit: Some(ImplicitFlow {
                authorization_url: Url::parse("https://example.com/auth").unwrap(),
                refresh_url: None,
                scopes,
            }),
            password: None,
            client_credentials: None,
            authorization_code: None,
        },
    };
    let text = print(&oauth);
    assert_eq!(
        text,
        r#"{"type":"oauth2","flows":{"implicit":{"authorizationUrl":"https://example.com/auth","scopes":{"write":"write things","read":"read things"}}}}"#
    );
    assert_eq!(parse::<SecurityScheme>(&text).unwrap(), oauth);
    for scheme in [api_key, http, open_id] {
        assert_eq!(parse::<SecurityScheme>(&print(&scheme)).unwrap(), scheme);
    }
}

#[test]
fn a_flow_without_its_url_is_a_missing_field_under_its_keys() {
    let text = r#"{"type":"oauth2","flows":{"password":{"scopes":{}}}}"#;
    let err = parse::<SecurityScheme>(text).unwrap_err();
    assert_eq!(err.kind, ErrorKind::MissingRequiredField("tokenUrl".to_string()));
    assert_eq!(format!("{:?}", err.path), r#"[Key("flows"), Key("password")]"#);
}

#[test]
fn a_url_that_does_not_parse_is_a_mismatch_under_its_key() {
    let text = r#"{"type":"oauth2","flows":{"implicit":{"authorizationUrl":"not a url","scopes":{}}}}"#;
    let err = parse::<SecurityScheme>(text).unwrap_err();
    match err.kind {
        ErrorKind::TypeMismatch { field, expected, found } => {
            assert_eq!(field, "authorizationUrl");
            assert_eq!(expected, openapi::error::Expected::Url);
            assert_eq!(found, openapi::json::JsonKind::String);
        }
        other => panic!("wrong kind: {:?}", other),
    }
    assert_eq!(
        format!("{:?}", err.path),
        r#"[Key("flows"), Key("implicit"), Key("authorizationUrl")]"#
    );
}

#[test]
fn urls_are_kept_in_their_canonical_spelling() {
    let url = Url::parse("HTTPS://Example.COM").unwrap();
    assert_eq!(url.as_str(), "https://example.com/");
    assert_eq!(url, Url::parse("https://example.com/").unwrap());
    assert!(Url::parse("example.com/no-scheme").is_none());
    assert!(Url::parse("").is_none());
}
