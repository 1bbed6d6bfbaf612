//! Taking in the components that a list of components declares.

use crate::constructor::merge::{http_server_catalog, known_http_server};
use crate::constructor::{ConstructorManifest, GraphView};
use crate::decode::{
    binary_catalog, has_magic, process_wasm_file, Binary, BinaryView, DecodeError, DecodedView,
};
use crate::models::{Entity, EntityView, Source, SourceView};
use crate::text::{contains_text, holds_text};
use vstd::prelude::*;

verus! {

/// Why a declared component could not be taken in.
#[derive(Debug)]
pub enum EntityError {
    /// The binary of the entity could not be had.
    MissingBinary,
    /// The binary of the entity gave no catalog.
    Decode(DecodeError),
}

impl EntityView {
    /// Whether the entity's catalog comes from a binary file: it does
    /// unless the entity comes from a registry.
    pub open spec fn needs_binary(self) -> bool {
        !(self.source matches Some(SourceView::OCI { .. }))
    }

    /// Whether the entity is the HTTP server provider, whose catalog is
    /// known without a binary: its reference names it.
    pub open spec fn is_http_server(self) -> bool {
        self.source matches Some(SourceView::OCI { reference }) && holds_text(
            reference,
            "wasmcloud/http-server"@,
        )
    }
}

impl GraphView {
    /// The graph after the declared component `e` was taken in, where that
    /// goes well. `binary` is the binary in the entity's file. An entity
    /// with a file is merged with the catalog that its binary gives, at the
    /// path of the file. The HTTP server provider is merged with its known
    /// catalog, at its reference. Any other entity from a registry changes
    /// nothing.
    pub open spec fn with_entity(self, e: EntityView, binary: Option<BinaryView>) -> Option<
        GraphView,
    > {
        if e.needs_binary() {
            match binary {
                Some(b) => match binary_catalog(b) {
                    Some(catalog) => Some(self.merged(e.name, catalog, e.source_path())),
                    None => None,
                },
                None => None,
            }
        } else if e.is_http_server() {
            Some(self.merged(e.name, http_server_catalog(), e.source->Some_0->reference))
        } else {
            Some(self)
        }
    }
}

/// The path of the file that holds the entity's binary, for an entity that
/// has one: its own path, or the conventional place of the build output.
/// There is none for an entity from a registry.
pub fn binary_path(entity: &Entity) -> (r: Option<String>)
    ensures
        r is Some <==> entity@.needs_binary(),
        r matches Some(path) ==> path@ == entity@.source_path(),
{
    match &entity.source {
        Some(Source::OCI { .. }) => None,
        _ => Some(entity.get_source()),
    }
}

/// Takes in a component whose binary is the file at `path`: builds its
/// catalog from the binary and merges it. A binary that gives no catalog is
/// an error, and leaves the registry as it was.
pub fn process_file_entity(
    constructor: &mut ConstructorManifest,
    entity: &Entity,
    path: &str,
    binary: &Binary,
) -> (r: Result<(), DecodeError>)
    ensures
        match binary_catalog(binary@) {
            Some(catalog) => r is Ok && final(constructor)@ == old(constructor)@.merged(
                entity@.name,
                catalog,
                path@,
            ),
            None => r is Err && final(constructor)@ == old(constructor)@,
        },
        match r {
            Ok(_) => true,
            Err(DecodeError::NotWasm(n)) => !has_magic(binary@.bytes) && n@ == entity@.name,
            Err(DecodeError::Malformed(m)) => has_magic(binary@.bytes) && binary@.decoded
                == Err::<DecodedView, Seq<char>>(m@),
        },
{
    match process_wasm_file(entity.name.as_str(), binary) {
        Ok(info) => {
            let _ = constructor.merge_component_info(
                entity.name.clone(),
                info,
                path.to_owned(),
            );
            Ok(())
        },
        Err(e) => Err(e),
    }
}

/// Takes in one declared component. `binary` is the binary in the entity's
/// file, where the entity has a file and it could be read. An entity with a
/// file fails without its binary, and where the binary gives no catalog. An
/// entity from a registry never fails: the HTTP server provider is merged
/// with its known catalog, and any other is passed over. A failure leaves
/// the registry as it was.
pub fn process_entity(
    constructor: &mut ConstructorManifest,
    entity: &Entity,
    binary: Option<&Binary>,
) -> (r: Result<(), EntityError>)
    ensures
        match old(constructor)@.with_entity(
            entity@,
            match binary {
                Some(b) => Some(b@),
                None => None,
            },
        ) {
            Some(g) => r is Ok && final(constructor)@ == g,
            None => r is Err && final(constructor)@ == old(constructor)@,
        },
        match r {
            Ok(_) => true,
            Err(EntityError::MissingBinary) => binary is None,
            Err(EntityError::Decode(DecodeError::NotWasm(n))) => binary is Some && !has_magic(
                binary->Some_0@.bytes,
            ) && n@ == entity@.name,
            Err(EntityError::Decode(DecodeError::Malformed(m))) => binary is Some && has_magic(
                binary->Some_0@.bytes,
            ) && binary->Some_0@.decoded == Err::<DecodedView, Seq<char>>(m@),
        },
{
    match &entity.source {
        Some(Source::OCI { reference }) => {
            if contains_text(reference.as_str(), "wasmcloud/http-server") {
                let _ = constructor.merge_component_info(
                    entity.name.clone(),
                    known_http_server(),
                    reference.clone(),
                );
            }
            Ok(())
        },
        _ => {
            let path = entity.get_source();
            match binary {
                Some(b) => match process_file_entity(constructor, entity, path.as_str(), b) {
                    Ok(_) => Ok(()),
                    Err(e) => Err(EntityError::Decode(e)),
                },
                None => Err(EntityError::MissingBinary),
            }
        },
    }
}

} // verus!
