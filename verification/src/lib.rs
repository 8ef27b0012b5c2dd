//! Reconstruction of GraphQL schema descriptions from introspection results:
//! resolution of wrapped type references, rendering of types and fields in
//! schema definition language, the introspection query texts, and the
//! analysis of a query field's argument and return shapes.

pub mod text;
pub mod schema;
pub mod graphql_client;
pub mod introspection;
pub mod json;
pub mod transport;
pub mod lookup;
pub mod shape;
pub mod outcome;
pub mod explorer;
pub mod graphql_fullschema;
pub mod graphql_discovery;
pub mod decode;
