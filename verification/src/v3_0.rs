//! The document model of version 3.0 of the format.

pub mod component_ser_as_ref;
pub mod components;
pub mod document;
pub mod info;
pub mod media;
pub mod operation;
pub mod parameter;
pub mod schema;
pub mod security;
pub mod server;

pub use components::{Components, ObjectOrReference};
pub use document::Spec;
pub use info::{Contact, ExternalDoc, Info, License, Tag};
pub use media::{Encoding, Example, ExampleValue, MediaType, MediaTypeExample};
pub use operation::{
    Callback, Link, LinkOperation, Operation, PathItem, RequestBody, Response,
    RuntimeExpressionOrValue, SecurityRequirement,
};
pub use parameter::{
    Header, Location, Parameter, ParameterExamples, ParameterRepresentation, ParameterStyle,
};
pub use schema::{ComponentOrInlineSchema, Schema, Type};
pub use security::{
    AuthorizationCodeFlow, ClientCredentialsFlow, Flows, ImplicitFlow, PasswordFlow, SecurityScheme,
};
pub use server::{Server, ServerVariable};
