//! The catalog objects an edge agent polls for its desired state.
//!
//! A catalog of type `staged` carries the components an agent is to
//! reconcile. These types mirror the orchestrator's wire format; the HTTP
//! client reading them lives outside the library.

use vstd::prelude::*;

use crate::models::{ComponentSpec, ObjectMeta, StringMap};

verus! {

/// A bearer token answered by the orchestrator's auth endpoint.
#[derive(Debug)]
pub struct Token {
    pub access_token: String,
    pub token_type: String,
    pub user_name: String,
    pub roles: Option<Vec<String>>,
}

/// A reference to the object a catalog was derived from.
#[derive(Debug)]
pub struct ObjectRef {
    pub site_id: String,
    pub name: String,
    pub group: String,
    pub version: String,
    pub kind: String,
    pub namespace: String,
}

/// The components staged for an agent, and those removed.
#[derive(Debug)]
pub struct StagedProperties {
    pub components: Option<Vec<ComponentSpec>>,
    pub removed_components: Option<Vec<ComponentSpec>>,
}

/// The desired shape of a catalog.
#[derive(Debug)]
pub struct CatalogSpec {
    pub name: String,
    pub catalog_type: String,
    pub properties: StagedProperties,
    pub object_ref: Option<ObjectRef>,
    pub generation: String,
}

/// Status of a catalog.
#[derive(Debug)]
pub struct CatalogStatus {
    pub properties: Option<StringMap>,
}

/// A catalog object: metadata, spec, optional status.
#[derive(Debug)]
pub struct CatalogState {
    pub metadata: ObjectMeta,
    pub spec: CatalogSpec,
    pub status: Option<CatalogStatus>,
}

} // verus!
