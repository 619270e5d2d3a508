//! Security schemes and the OAuth flows.

use crate::address::Url;
use crate::codec::Codec;
use crate::error::{Error, ErrorKind, ErrorKindView, ErrorView, Expected};
use crate::json::{Json, JsonView};
use crate::object::{
    always, entries_of, get_optional, get_required, if_some, lemma_lookup_empty,
    lemma_lookup_with_entry, lemma_read_always, lemma_read_if_some, no_entries, object,
    optional_field, put, required_field, slot_always, slot_if_some, with_entry,
};
use crate::ordered_map::OrderedMap;
use crate::strings::{lemma_spell, same_text};
use crate::v3_0::components::pointer_in;
use vstd::prelude::*;

verus! {

/// The implicit OAuth flow.
#[derive(Clone, Debug, PartialEq)]
pub struct ImplicitFlow {
    /// The authorization URL of the flow.
    pub authorization_url: Url,
    /// The URL for obtaining refresh tokens.
    pub refresh_url: Option<Url>,
    /// The scopes of the flow, each with a short description.
    pub scopes: OrderedMap<String>,
}

/// View of an [`ImplicitFlow`].
pub struct ImplicitFlowView {
    pub authorization_url: Seq<char>,
    pub refresh_url: Option<Seq<char>>,
    pub scopes: Seq<(Seq<char>, Seq<char>)>,
}

impl DeepView for ImplicitFlow {
    type V = ImplicitFlowView;

    open spec fn deep_view(&self) -> ImplicitFlowView {
        ImplicitFlowView {
            authorization_url: self.authorization_url.deep_view(),
            refresh_url: self.refresh_url.deep_view(),
            scopes: self.scopes.deep_view(),
        }
    }
}

impl Codec for ImplicitFlow {
    open spec fn to_json(v: ImplicitFlowView) -> JsonView {
        let e = Seq::empty();
        let e = with_entry(e, "authorizationUrl"@, always::<Url>(v.authorization_url));
        let e = with_entry(e, "refreshUrl"@, if_some::<Url>(v.refresh_url));
        let e = with_entry(e, "scopes"@, always::<OrderedMap<String>>(v.scopes));
        JsonView::Object(e)
    }

    open spec fn from_json(j: JsonView) -> Result<ImplicitFlowView, ErrorView> {
        match j {
            JsonView::Object(e) => {
                let authorization_url = required_field::<Url>(e, "authorizationUrl"@);
                let refresh_url = optional_field::<Url>(e, "refreshUrl"@);
                let scopes = required_field::<OrderedMap<String>>(e, "scopes"@);
                if authorization_url is Err {
                    Err(authorization_url->Err_0)
                } else if refresh_url is Err {
                    Err(refresh_url->Err_0)
                } else if scopes is Err {
                    Err(scopes->Err_0)
                } else {
                    Ok(
                        ImplicitFlowView {
                            authorization_url: authorization_url->Ok_0,
                            refresh_url: refresh_url->Ok_0,
                            scopes: scopes->Ok_0,
                        },
                    )
                }
            },
            _ => Err(ErrorView::mismatch(Expected::Object, j.kind())),
        }
    }

    open spec fn valid(v: ImplicitFlowView) -> bool {
        &&& Url::valid(v.authorization_url)
        &&& (v.refresh_url matches Some(x) ==> Url::valid(x))
        &&& <OrderedMap<String> as Codec>::valid(v.scopes)
    }

    proof fn lemma_round_trip(v: ImplicitFlowView) {
        broadcast use {lemma_lookup_with_entry, lemma_lookup_empty};

        reveal_strlit("authorizationUrl");
        lemma_spell("authorizationUrl"@);
        reveal_strlit("refreshUrl");
        lemma_spell("refreshUrl"@);
        reveal_strlit("scopes");
        lemma_spell("scopes"@);
        lemma_read_always::<Url>(v.authorization_url, "authorizationUrl"@);
        lemma_read_if_some::<Url>(v.refresh_url, "refreshUrl"@);
        lemma_read_always::<OrderedMap<String>>(v.scopes, "scopes"@);
    }

    fn encode(&self) -> (j: Json) {
        let mut out = no_entries();
        put(&mut out, "authorizationUrl", slot_always(&self.authorization_url));
        put(&mut out, "refreshUrl", slot_if_some(&self.refresh_url));
        put(&mut out, "scopes", slot_always(&self.scopes));
        object(out)
    }

    fn decode(j: &Json) -> (r: Result<Self, Error>) {
        let e = entries_of(j)?;
        let authorization_url = get_required::<Url>(e, "authorizationUrl")?;
        let refresh_url = get_optional::<Url>(e, "refreshUrl")?;
        let scopes = get_required::<OrderedMap<String>>(e, "scopes")?;
        Ok(ImplicitFlow { authorization_url, refresh_url, scopes })
    }
}

/// The resource owner password OAuth flow.
#[derive(Clone, Debug, PartialEq)]
pub struct PasswordFlow {
    /// The token URL of the flow.
    pub token_url: Url,
    /// The URL for obtaining refresh tokens.
    pub refresh_url: Option<Url>,
    /// The scopes of the flow, each with a short description.
    pub scopes: OrderedMap<String>,
}

/// View of a [`PasswordFlow`].
pub struct PasswordFlowView {
    pub token_url: Seq<char>,
    pub refresh_url: Option<Seq<char>>,
    pub scopes: Seq<(Seq<char>, Seq<char>)>,
}

impl DeepView for PasswordFlow {
    type V = PasswordFlowView;

    open spec fn deep_view(&self) -> PasswordFlowView {
        PasswordFlowView {
            token_url: self.token_url.deep_view(),
            refresh_url: self.refresh_url.deep_view(),
            scopes: self.scopes.deep_view(),
        }
    }
}

impl Codec for PasswordFlow {
    open spec fn to_json(v: PasswordFlowView) -> JsonView {
        let e = Seq::empty();
        let e = with_entry(e, "tokenUrl"@, always::<Url>(v.token_url));
        let e = with_entry(e, "refreshUrl"@, if_some::<Url>(v.refresh_url));
        let e = with_entry(e, "scopes"@, always::<OrderedMap<String>>(v.scopes));
        JsonView::Object(e)
    }

    open spec fn from_json(j: JsonView) -> Result<PasswordFlowView, ErrorView> {
        match j {
            JsonView::Object(e) => {
                let token_url = required_field::<Url>(e, "tokenUrl"@);
                let refresh_url = optional_field::<Url>(e, "refreshUrl"@);
                let scopes = required_field::<OrderedMap<String>>(e, "scopes"@);
                if token_url is Err {
                    Err(token_url->Err_0)
                } else if refresh_url is Err {
                    Err(refresh_url->Err_0)
                } else if scopes is Err {
                    Err(scopes->Err_0)
                } else {
                    Ok(
                        PasswordFlowView {
                            token_url: token_url->Ok_0,
                            refresh_url: refresh_url->Ok_0,
                            scopes: scopes->Ok_0,
                        },
                    )
                }
            },
            _ => Err(ErrorView::mismatch(Expected::Object, j.kind())),
        }
    }

    open spec fn valid(v: PasswordFlowView) -> bool {
        &&& Url::valid(v.token_url)
        &&& (v.refresh_url matches Some(x) ==> Url::valid(x))
        &&& <OrderedMap<String> as Codec>::valid(v.scopes)
    }

    proof fn lemma_round_trip(v: PasswordFlowView) {
        broadcast use {lemma_lookup_with_entry, lemma_lookup_empty};

        reveal_strlit("tokenUrl");
        lemma_spell("tokenUrl"@);
        reveal_strlit("refreshUrl");
        lemma_spell("refreshUrl"@);
        reveal_strlit("scopes");
        lemma_spell("scopes"@);
        lemma_read_always::<Url>(v.token_url, "tokenUrl"@);
        lemma_read_if_some::<Url>(v.refresh_url, "refreshUrl"@);
        lemma_read_always::<OrderedMap<String>>(v.scopes, "scopes"@);
    }

    fn encode(&self) -> (j: Json) {
        let mut out = no_entries();
        put(&mut out, "tokenUrl", slot_always(&self.token_url));
        put(&mut out, "refreshUrl", slot_if_some(&self.refresh_url));
        put(&mut out, "scopes", slot_always(&self.scopes));
        object(out)
    }

    fn decode(j: &Json) -> (r: Result<Self, Error>) {
        let e = entries_of(j)?;
        let token_url = get_required::<Url>(e, "tokenUrl")?;
        let refresh_url = get_optional::<Url>(e, "refreshUrl")?;
        let scopes = get_required::<OrderedMap<String>>(e, "scopes")?;
        Ok(PasswordFlow { token_url, refresh_url, scopes })
    }
}

/// The client credentials OAuth flow.
#[derive(Clone, Debug, PartialEq)]
pub struct ClientCredentialsFlow {
    /// The token URL of the flow.
    pub token_url: Url,
    /// The URL for obtaining refresh tokens.
    pub refresh_url: Option<Url>,
    /// The scopes of the flow, each with a short description.
    pub scopes: OrderedMap<String>,
}

/// View of a [`ClientCredentialsFlow`].
pub struct ClientCredentialsFlowView {
    pub token_url: Seq<char>,
    pub refresh_url: Option<Seq<char>>,
    pub scopes: Seq<(Seq<char>, Seq<char>)>,
}

impl DeepView for ClientCredentialsFlow {
    type V = ClientCredentialsFlowView;

    open spec fn deep_view(&self) -> ClientCredentialsFlowView {
        ClientCredentialsFlowView {
            token_url: self.token_url.deep_view(),
            refresh_url: self.refresh_url.deep_view(),
            scopes: self.scopes.deep_view(),
        }
    }
}

impl Codec for ClientCredentialsFlow {
    open spec fn to_json(v: ClientCredentialsFlowView) -> JsonView {
        let e = Seq::empty();
        let e = with_entry(e, "tokenUrl"@, always::<Url>(v.token_url));
        let e = with_entry(e, "refreshUrl"@, if_some::<Url>(v.refresh_url));
        let e = with_entry(e, "scopes"@, always::<OrderedMap<String>>(v.scopes));
        JsonView::Object(e)
    }

    open spec fn from_json(j: JsonView) -> Result<ClientCredentialsFlowView, ErrorView> {
        match j {
            JsonView::Object(e) => {
                let token_url = required_field::<Url>(e, "tokenUrl"@);
                let refresh_url = optional_field::<Url>(e, "refreshUrl"@);
                let scopes = required_field::<OrderedMap<String>>(e, "scopes"@);
                if token_url is Err {
                    Err(token_url->Err_0)
                } else if refresh_url is Err {
                    Err(refresh_url->Err_0)
                } else if scopes is Err {
                    Err(scopes->Err_0)
                } else {
                    Ok(
                        ClientCredentialsFlowView {
                            token_url: token_url->Ok_0,
                            refresh_url: refresh_url->Ok_0,
                            scopes: scopes->Ok_0,
                        },
                    )
                }
            },
            _ => Err(ErrorView::mismatch(Expected::Object, j.kind())),
        }
    }

    open spec fn valid(v: ClientCredentialsFlowView) -> bool {
        &&& Url::valid(v.token_url)
        &&& (v.refresh_url matches Some(x) ==> Url::valid(x))
        &&& <OrderedMap<String> as Codec>::valid(v.scopes)
    }

    proof fn lemma_round_trip(v: ClientCredentialsFlowView) {
        broadcast use {lemma_lookup_with_entry, lemma_lookup_empty};

        reveal_strlit("tokenUrl");
        lemma_spell("tokenUrl"@);
        reveal_strlit("refreshUrl");
        lemma_spell("refreshUrl"@);
        reveal_strlit("scopes");
        lemma_spell("scopes"@);
        lemma_read_always::<Url>(v.token_url, "tokenUrl"@);
        lemma_read_if_some::<Url>(v.refresh_url, "refreshUrl"@);
        lemma_read_always::<OrderedMap<String>>(v.scopes, "scopes"@);
    }

    fn encode(&self) -> (j: Json) {
        let mut out = no_entries();
        put(&mut out, "tokenUrl", slot_always(&self.token_url));
        put(&mut out, "refreshUrl", slot_if_some(&self.refresh_url));
        put(&mut out, "scopes", slot_always(&self.scopes));
        object(out)
    }

    fn decode(j: &Json) -> (r: Result<Self, Error>) {
        let e = entries_of(j)?;
        let token_url = get_required::<Url>(e, "tokenUrl")?;
        let refresh_url = get_optional::<Url>(e, "refreshUrl")?;
        let scopes = get_required::<OrderedMap<String>>(e, "scopes")?;
        Ok(ClientCredentialsFlow { token_url, refresh_url, scopes })
    }
}

/// The authorization code OAuth flow.
#[derive(Clone, Debug, PartialEq)]
pub struct AuthorizationCodeFlow {
    /// The authorization URL of the flow.
    pub authorization_url: Url,
    /// The token URL of the flow.
    pub token_url: Url,
    /// The URL for obtaining refresh tokens.
    pub refresh_url: Option<Url>,
    /// The scopes of the flow, each with a short description.
    pub scopes: OrderedMap<String>,
}

/// View of an [`AuthorizationCodeFlow`].
pub struct AuthorizationCodeFlowView {
    pub authorization_url: Seq<char>,
    pub token_url: Seq<char>,
    pub refresh_url: Option<Seq<char>>,
    pub scopes: Seq<(Seq<char>, Seq<char>)>,
}

impl DeepView for AuthorizationCodeFlow {
    type V = AuthorizationCodeFlowView;

    open spec fn deep_view(&self) -> AuthorizationCodeFlowView {
        AuthorizationCodeFlowView {
            authorization_url: self.authorization_url.deep_view(),
            token_url: self.token_url.deep_view(),
            refresh_url: self.refresh_url.deep_view(),
            scopes: self.scopes.deep_view(),
        }
    }
}

impl Codec for AuthorizationCodeFlow {
    open spec fn to_json(v: AuthorizationCodeFlowView) -> JsonView {
        let e = Seq::empty();
        let e = with_entry(e, "authorizationUrl"@, always::<Url>(v.authorization_url));
        let e = with_entry(e, "tokenUrl"@, always::<Url>(v.token_url));
        let e = with_entry(e, "refreshUrl"@, if_some::<Url>(v.refresh_url));
        let e = with_entry(e, "scopes"@, always::<OrderedMap<String>>(v.scopes));
        JsonView::Object(e)
    }

    open spec fn from_json(j: JsonView) -> Result<AuthorizationCodeFlowView, ErrorView> {
        match j {
            JsonView::Object(e) => {
                let authorization_url = required_field::<Url>(e, "authorizationUrl"@);
                let token_url = required_field::<Url>(e, "tokenUrl"@);
                let refresh_url = optional_field::<Url>(e, "refreshUrl"@);
                let scopes = required_field::<OrderedMap<String>>(e, "scopes"@);
                if authorization_url is Err {
                    Err(authorization_url->Err_0)
                } else if token_url is Err {
                    Err(token_url->Err_0)
                } else if refresh_url is Err {
                    Err(refresh_url->Err_0)
                } else if scopes is Err {
                    Err(scopes->Err_0)
                } else {
                    Ok(
                        AuthorizationCodeFlowView {
                            authorization_url: authorization_url->Ok_0,
                            token_url: token_url->Ok_0,
                            refresh_url: refresh_url->Ok_0,
                            scopes: scopes->Ok_0,
                        },
                    )
                }
            },
            _ => Err(ErrorView::mismatch(Expected::Object, j.kind())),
        }
    }

    open spec fn valid(v: AuthorizationCodeFlowView) -> bool {
        &&& Url::valid(v.authorization_url)
        &&& Url::valid(v.token_url)
        &&& (v.refresh_url matches Some(x) ==> Url::valid(x))
        &&& <OrderedMap<String> as Codec>::valid(v.scopes)
    }

    proof fn lemma_round_trip(v: AuthorizationCodeFlowView) {
        broadcast use {lemma_lookup_with_entry, lemma_lookup_empty};

        reveal_strlit("authorizationUrl");
        lemma_spell("authorizationUrl"@);
        reveal_strlit("tokenUrl");
        lemma_spell("tokenUrl"@);
        reveal_strlit("refreshUrl");
        lemma_spell("refreshUrl"@);
        reveal_strlit("scopes");
        lemma_spell("scopes"@);
        lemma_read_always::<Url>(v.authorization_url, "authorizationUrl"@);
        lemma_read_always::<Url>(v.token_url, "tokenUrl"@);
        lemma_read_if_some::<Url>(v.refresh_url, "refreshUrl"@);
        lemma_read_always::<OrderedMap<String>>(v.scopes, "scopes"@);
    }

    fn encode(&self) -> (j: Json) {
        let mut out = no_entries();
        put(&mut out, "authorizationUrl", slot_always(&self.authorization_url));
        put(&mut out, "tokenUrl", slot_always(&self.token_url));
        put(&mut out, "refreshUrl", slot_if_some(&self.refresh_url));
        put(&mut out, "scopes", slot_always(&self.scopes));
        object(out)
    }

    fn decode(j: &Json) -> (r: Result<Self, Error>) {
        let e = entries_of(j)?;
        let authorization_url = get_required::<Url>(e, "authorizationUrl")?;
        let token_url = get_required::<Url>(e, "tokenUrl")?;
        let refresh_url = get_optional::<Url>(e, "refreshUrl")?;
        let scopes = get_required::<OrderedMap<String>>(e, "scopes")?;
        Ok(AuthorizationCodeFlow { authorization_url, token_url, refresh_url, scopes })
    }
}

/// The OAuth flows that a security scheme supports.
#[derive(Clone, Debug, PartialEq)]
pub struct Flows {
    pub implicit: Option<ImplicitFlow>,
    pub password: Option<PasswordFlow>,
    pub client_credentials: Option<ClientCredentialsFlow>,
    pub authorization_code: Option<AuthorizationCodeFlow>,
}

/// View of a [`Flows`].
pub struct FlowsView {
    pub implicit: Option<ImplicitFlowView>,
    pub password: Option<PasswordFlowView>,
    pub client_credentials: Option<ClientCredentialsFlowView>,
    pub authorization_code: Option<AuthorizationCodeFlowView>,
}

impl DeepView for Flows {
    type V = FlowsView;

    open spec fn deep_view(&self) -> FlowsView {
        FlowsView {
            implicit: self.implicit.deep_view(),
            password: self.password.deep_view(),
            client_credentials: self.client_credentials.deep_view(),
            authorization_code: self.authorization_code.deep_view(),
        }
    }
}

impl Codec for Flows {
    open spec fn to_json(v: FlowsView) -> JsonView {
        let e = Seq::empty();
        let e = with_entry(e, "implicit"@, if_some::<ImplicitFlow>(v.implicit));
        let e = with_entry(e, "password"@, if_some::<PasswordFlow>(v.password));
        let e = with_entry(
            e,
            "clientCredentials"@,
            if_some::<ClientCredentialsFlow>(v.client_credentials),
        );
        let e = with_entry(
            e,
            "authorizationCode"@,
            if_some::<AuthorizationCodeFlow>(v.authorization_code),
        );
        JsonView::Object(e)
    }

    open spec fn from_json(j: JsonView) -> Result<FlowsView, ErrorView> {
        match j {
            JsonView::Object(e) => {
                let implicit = optional_field::<ImplicitFlow>(e, "implicit"@);
                let password = optional_field::<PasswordFlow>(e, "password"@);
                let client_credentials = optional_field::<ClientCredentialsFlow>(
                    e,
                    "clientCredentials"@,
                );
                let authorization_code = optional_field::<AuthorizationCodeFlow>(
                    e,
                    "authorizationCode"@,
                );
                if implicit is Err {
                    Err(implicit->Err_0)
                } else if password is Err {
                    Err(password->Err_0)
                } else if client_credentials is Err {
                    Err(client_credentials->Err_0)
                } else if authorization_code is Err {
                    Err(authorization_code->Err_0)
                } else {
                    Ok(
                        FlowsView {
                            implicit: implicit->Ok_0,
                            password: password->Ok_0,
                            client_credentials: client_credentials->Ok_0,
                            authorization_code: authorization_code->Ok_0,
                        },
                    )
                }
            },
            _ => Err(ErrorView::mismatch(Expected::Object, j.kind())),
        }
    }

    open spec fn valid(v: FlowsView) -> bool {
        &&& (v.implicit matches Some(x) ==> ImplicitFlow::valid(x))
        &&& (v.password matches Some(x) ==> PasswordFlow::valid(x))
        &&& (v.client_credentials matches Some(x) ==> ClientCredentialsFlow::valid(x))
        &&& (v.authorization_code matches Some(x) ==> AuthorizationCodeFlow::valid(x))
    }

    proof fn lemma_round_trip(v: FlowsView) {
        broadcast use {lemma_lookup_with_entry, lemma_lookup_empty};

        reveal_strlit("implicit");
        lemma_spell("implicit"@);
        reveal_strlit("password");
        lemma_spell("password"@);
        reveal_strlit("clientCredentials");
        lemma_spell("clientCredentials"@);
        reveal_strlit("authorizationCode");
        lemma_spell("authorizationCode"@);
        lemma_read_if_some::<ImplicitFlow>(v.implicit, "implicit"@);
        lemma_read_if_some::<PasswordFlow>(v.password, "password"@);
        lemma_read_if_some::<ClientCredentialsFlow>(v.client_credentials, "clientCredentials"@);
        lemma_read_if_some::<AuthorizationCodeFlow>(v.authorization_code, "authorizationCode"@);
    }

    fn encode(&self) -> (j: Json) {
        let mut out = no_entries();
        put(&mut out, "implicit", slot_if_some(&self.implicit));
        put(&mut out, "password", slot_if_some(&self.password));
        put(&mut out, "clientCredentials", slot_if_some(&self.client_credentials));
        put(&mut out, "authorizationCode", slot_if_some(&self.authorization_code));
        object(out)
    }

    fn decode(j: &Json) -> (r: Result<Self, Error>) {
        let e = entries_of(j)?;
        let implicit = get_optional::<ImplicitFlow>(e, "implicit")?;
        let password = get_optional::<PasswordFlow>(e, "password")?;
        let client_credentials = get_optional::<ClientCredentialsFlow>(e, "clientCredentials")?;
        let authorization_code = get_optional::<AuthorizationCodeFlow>(e, "authorizationCode")?;
        Ok(Flows { implicit, password, client_credentials, authorization_code })
    }
}

/// A security scheme. The entry `type` of its JSON form says which.
#[derive(Clone, Debug, PartialEq)]
pub enum SecurityScheme {
    /// An API key, sent in a header, in the query or in a cookie.
    ApiKey { name: String, location: String },
    /// HTTP authentication.
    Http { scheme: String, bearer_format: String },
    /// OAuth 2.
    OAuth2 { flows: Flows },
    /// OpenID Connect discovery.
    OpenIdConnect { open_id_connect_url: String },
}

/// View of a [`SecurityScheme`].
pub enum SecuritySchemeView {
    ApiKey { name: Seq<char>, location: Seq<char> },
    Http { scheme: Seq<char>, bearer_format: Seq<char> },
    OAuth2 { flows: FlowsView },
    OpenIdConnect { open_id_connect_url: Seq<char> },
}

impl DeepView for SecurityScheme {
    type V = SecuritySchemeView;

    open spec fn deep_view(&self) -> SecuritySchemeView {
        match self {
            SecurityScheme::ApiKey { name, location } => SecuritySchemeView::ApiKey {
                name: name.deep_view(),
                location: location.deep_view(),
            },
            SecurityScheme::Http { scheme, bearer_format } => SecuritySchemeView::Http {
                scheme: scheme.deep_view(),
                bearer_format: bearer_format.deep_view(),
            },
            SecurityScheme::OAuth2 { flows } => SecuritySchemeView::OAuth2 {
                flows: flows.deep_view(),
            },
            SecurityScheme::OpenIdConnect {
                open_id_connect_url,
            } => SecuritySchemeView::OpenIdConnect {
                open_id_connect_url: open_id_connect_url.deep_view(),
            },
        }
    }
}

impl SecuritySchemeView {
    /// The tag of the variant.
    pub open spec fn tag(self) -> Seq<char> {
        match self {
            SecuritySchemeView::ApiKey { .. } => "apiKey"@,
            SecuritySchemeView::Http { .. } => "http"@,
            SecuritySchemeView::OAuth2 { .. } => "oauth2"@,
            SecuritySchemeView::OpenIdConnect { .. } => "openIdConnect"@,
        }
    }

    /// The payload of the tag `apiKey`, read from the entries beside the tag.
    pub open spec fn api_key_from(
        e: Seq<(Seq<char>, JsonView)>,
    ) -> Result<SecuritySchemeView, ErrorView> {
        let name = required_field::<String>(e, "name"@);
        let location = required_field::<String>(e, "in"@);
        if name is Err {
            Err(name->Err_0)
        } else if location is Err {
            Err(location->Err_0)
        } else {
            Ok(SecuritySchemeView::ApiKey { name: name->Ok_0, location: location->Ok_0 })
        }
    }

    /// The payload of the tag `http`, read from the entries beside the tag.
    pub open spec fn http_from(
        e: Seq<(Seq<char>, JsonView)>,
    ) -> Result<SecuritySchemeView, ErrorView> {
        let scheme = required_field::<String>(e, "scheme"@);
        let bearer_format = required_field::<String>(e, "bearerFormat"@);
        if scheme is Err {
            Err(scheme->Err_0)
        } else if bearer_format is Err {
            Err(bearer_format->Err_0)
        } else {
            Ok(
                SecuritySchemeView::Http {
                    scheme: scheme->Ok_0,
                    bearer_format: bearer_format->Ok_0,
                },
            )
        }
    }

    /// The payload of the tag `oauth2`, read from the entries beside the tag.
    pub open spec fn oauth2_from(
        e: Seq<(Seq<char>, JsonView)>,
    ) -> Result<SecuritySchemeView, ErrorView> {
        let flows = required_field::<Flows>(e, "flows"@);
        if flows is Err {
            Err(flows->Err_0)
        } else {
            Ok(SecuritySchemeView::OAuth2 { flows: flows->Ok_0 })
        }
    }

    /// The payload of the tag `openIdConnect`, read from the entries beside the tag.
    pub open spec fn open_id_connect_from(
        e: Seq<(Seq<char>, JsonView)>,
    ) -> Result<SecuritySchemeView, ErrorView> {
        let open_id_connect_url = required_field::<String>(e, "openIdConnectUrl"@);
        if open_id_connect_url is Err {
            Err(open_id_connect_url->Err_0)
        } else {
            Ok(SecuritySchemeView::OpenIdConnect { open_id_connect_url: open_id_connect_url->Ok_0 })
        }
    }

}

impl Codec for SecurityScheme {
    open spec fn to_json(v: SecuritySchemeView) -> JsonView {
        let e = with_entry(Seq::empty(), "type"@, always::<String>(v.tag()));
        match v {
            SecuritySchemeView::ApiKey { name, location } => {
                let e = with_entry(e, "name"@, always::<String>(name));
                let e = with_entry(e, "in"@, always::<String>(location));
                JsonView::Object(e)
            },
            SecuritySchemeView::Http { scheme, bearer_format } => {
                let e = with_entry(e, "scheme"@, always::<String>(scheme));
                let e = with_entry(e, "bearerFormat"@, always::<String>(bearer_format));
                JsonView::Object(e)
            },
            SecuritySchemeView::OAuth2 { flows } => {
                let e = with_entry(e, "flows"@, always::<Flows>(flows));
                JsonView::Object(e)
            },
            SecuritySchemeView::OpenIdConnect { open_id_connect_url } => {
                let e = with_entry(e, "openIdConnectUrl"@, always::<String>(open_id_connect_url));
                JsonView::Object(e)
            },
        }
    }

    /// The tag is read first and decides alone which payload is read. A tag
    /// outside the closed set fails with `UnknownDiscriminant`.
    open spec fn from_json(j: JsonView) -> Result<SecuritySchemeView, ErrorView> {
        match j {
            JsonView::Object(e) => match required_field::<String>(e, "type"@) {
                Err(err) => Err(err),
                Ok(tag) => if tag == "apiKey"@ {
                    SecuritySchemeView::api_key_from(e)
                } else if tag == "http"@ {
                    SecuritySchemeView::http_from(e)
                } else if tag == "oauth2"@ {
                    SecuritySchemeView::oauth2_from(e)
                } else if tag == "openIdConnect"@ {
                    SecuritySchemeView::open_id_connect_from(e)
                } else {
                    Err(ErrorView::here(ErrorKindView::UnknownDiscriminant(tag)))
                },
            },
            _ => Err(ErrorView::mismatch(Expected::Object, j.kind())),
        }
    }

    open spec fn valid(v: SecuritySchemeView) -> bool {
        match v {
            SecuritySchemeView::OAuth2 { flows } => Flows::valid(flows),
            _ => true,
        }
    }

    proof fn lemma_round_trip(v: SecuritySchemeView) {
        broadcast use {lemma_lookup_with_entry, lemma_lookup_empty};

        reveal_strlit("type");
        lemma_spell("type"@);
        reveal_strlit("apiKey");
        lemma_spell("apiKey"@);
        reveal_strlit("name");
        lemma_spell("name"@);
        reveal_strlit("in");
        lemma_spell("in"@);
        reveal_strlit("http");
        lemma_spell("http"@);
        reveal_strlit("scheme");
        lemma_spell("scheme"@);
        reveal_strlit("bearerFormat");
        lemma_spell("bearerFormat"@);
        reveal_strlit("oauth2");
        lemma_spell("oauth2"@);
        reveal_strlit("flows");
        lemma_spell("flows"@);
        reveal_strlit("openIdConnect");
        lemma_spell("openIdConnect"@);
        reveal_strlit("openIdConnectUrl");
        lemma_spell("openIdConnectUrl"@);
        lemma_read_always::<String>(v.tag(), "type"@);
        match v {
            SecuritySchemeView::ApiKey { name, location } => {
                lemma_read_always::<String>(name, "name"@);
                lemma_read_always::<String>(location, "in"@);
            },
            SecuritySchemeView::Http { scheme, bearer_format } => {
                lemma_read_always::<String>(scheme, "scheme"@);
                lemma_read_always::<String>(bearer_format, "bearerFormat"@);
            },
            SecuritySchemeView::OAuth2 { flows } => {
                lemma_read_always::<Flows>(flows, "flows"@);
            },
            SecuritySchemeView::OpenIdConnect { open_id_connect_url } => {
                lemma_read_always::<String>(open_id_connect_url, "openIdConnectUrl"@);
            },
        }
    }

    fn encode(&self) -> (j: Json) {
        let mut out = no_entries();
        match self {
            SecurityScheme::ApiKey { name, location } => {
                put(&mut out, "type", Some(Json::String("apiKey".to_owned())));
                put(&mut out, "name", slot_always(name));
                put(&mut out, "in", slot_always(location));
            },
            SecurityScheme::Http { scheme, bearer_format } => {
                put(&mut out, "type", Some(Json::String("http".to_owned())));
                put(&mut out, "scheme", slot_always(scheme));
                put(&mut out, "bearerFormat", slot_always(bearer_format));
            },
            SecurityScheme::OAuth2 { flows } => {
                put(&mut out, "type", Some(Json::String("oauth2".to_owned())));
                put(&mut out, "flows", slot_always(flows));
            },
            SecurityScheme::OpenIdConnect { open_id_connect_url } => {
                put(&mut out, "type", Some(Json::String("openIdConnect".to_owned())));
                put(&mut out, "openIdConnectUrl", slot_always(open_id_connect_url));
            },
        }
        object(out)
    }

    fn decode(j: &Json) -> (r: Result<Self, Error>) {
        let e = entries_of(j)?;
        let tag = get_required::<String>(e, "type")?;
        let tag = tag.as_str();
        if same_text(tag, "apiKey") {
            let name = get_required::<String>(e, "name")?;
            let location = get_required::<String>(e, "in")?;
            Ok(SecurityScheme::ApiKey { name, location })
        } else if same_text(tag, "http") {
            let scheme = get_required::<String>(e, "scheme")?;
            let bearer_format = get_required::<String>(e, "bearerFormat")?;
            Ok(SecurityScheme::Http { scheme, bearer_format })
        } else if same_text(tag, "oauth2") {
            let flows = get_required::<Flows>(e, "flows")?;
            Ok(SecurityScheme::OAuth2 { flows })
        } else if same_text(tag, "openIdConnect") {
            let open_id_connect_url = get_required::<String>(e, "openIdConnectUrl")?;
            Ok(SecurityScheme::OpenIdConnect { open_id_connect_url })
        } else {
            Err(Error::here(ErrorKind::UnknownDiscriminant(tag.to_owned())))
        }
    }
}

/// A tag outside the closed set fails with `UnknownDiscriminant`, whatever
/// the other entries are.
pub proof fn lemma_unknown_tag(e: Seq<(Seq<char>, JsonView)>, tag: Seq<char>)
    requires
        required_field::<String>(e, "type"@) == Ok::<Seq<char>, ErrorView>(tag),
        tag != "apiKey"@,
        tag != "http"@,
        tag != "oauth2"@,
        tag != "openIdConnect"@,
    ensures
        SecurityScheme::from_json(JsonView::Object(e)) == Err::<SecuritySchemeView, ErrorView>(
            ErrorView::here(ErrorKindView::UnknownDiscriminant(tag)),
        ),
{
}

impl SecuritySchemeView {
    /// The JSON form holds no pointer, so that the value written in place is
    /// not taken for a reference.
    pub proof fn lemma_no_pointer(self)
        ensures
            pointer_in(SecurityScheme::to_json(self)) is None,
    {
        broadcast use {lemma_lookup_with_entry, lemma_lookup_empty};

        reveal_strlit("$ref");
        lemma_spell("$ref"@);
        reveal_strlit("type");
        lemma_spell("type"@);
        reveal_strlit("apiKey");
        lemma_spell("apiKey"@);
        reveal_strlit("name");
        lemma_spell("name"@);
        reveal_strlit("in");
        lemma_spell("in"@);
        reveal_strlit("http");
        lemma_spell("http"@);
        reveal_strlit("scheme");
        lemma_spell("scheme"@);
        reveal_strlit("bearerFormat");
        lemma_spell("bearerFormat"@);
        reveal_strlit("oauth2");
        lemma_spell("oauth2"@);
        reveal_strlit("flows");
        lemma_spell("flows"@);
        reveal_strlit("openIdConnect");
        lemma_spell("openIdConnect"@);
        reveal_strlit("openIdConnectUrl");
        lemma_spell("openIdConnectUrl"@);
    }
}

} // verus!
