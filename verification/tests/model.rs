use wail::constructor::ConstructorManifest;
use wail::decode::{Binary, DecodeError};
use wail::entity::{binary_path, process_entity, process_file_entity, EntityError};
use wail::models::source_file_format;
use wail::models::source_oci_format;
use wail::models::{
    ComponentsConfig, Direction, Entity, InterfaceIdentifier, InterfaceRequirement, Source,
};

fn file_entity(name: &str, path: &str) -> Entity {
    Entity { name: name.to_string(), source: Some(Source::File { path: path.to_string() }) }
}

fn registry_entity(name: &str, reference: &str) -> Entity {
    Entity {
        name: name.to_string(),
        source: Some(Source::OCI { reference: reference.to_string() }),
    }
}

#[test]
fn opposite_swaps_import_and_export() {
    assert_eq!(Direction::Import.opposite(), Direction::Export);
    assert_eq!(Direction::Export.opposite(), Direction::Import);
    assert_eq!(Direction::Import.opposite().opposite(), Direction::Import);
}

#[test]
fn requirement_holds_what_it_was_made_of() {
    let r = InterfaceRequirement::new(
        "x".to_string(),
        "ns".to_string(),
        "pkg".to_string(),
        Direction::Export,
        "a".to_string(),
    );
    assert_eq!(r.identifier.name, "x");
    assert_eq!(r.identifier.namespace, "ns");
    assert_eq!(r.identifier.package, "pkg");
    assert_eq!(r.direction, Direction::Export);
    assert_eq!(r.component, "a");
    let copy = r.clone();
    assert!(copy.identifier == r.identifier);
    let other = InterfaceIdentifier {
        name: "x".to_string(),
        namespace: "pkg".to_string(),
        package: "ns".to_string(),
    };
    assert!(other != r.identifier);
}

#[test]
fn source_path_of_each_kind() {
    assert_eq!(file_entity("a", "/tmp/a.wasm").get_source(), "/tmp/a.wasm");
    assert_eq!(registry_entity("a", "ghcr.io/x").get_source(), "");
    assert_eq!(Entity { name: "a".to_string(), source: None }.get_source(), "./a/build/*.wasm");
    assert_eq!(binary_path(&file_entity("a", "p")), Some("p".to_string()));
    assert_eq!(binary_path(&registry_entity("a", "r")), None);
    assert_eq!(
        binary_path(&Entity { name: "n".to_string(), source: None }),
        Some("./n/build/*.wasm".to_string())
    );
    let config = ComponentsConfig { entities: vec![file_entity("a", "p")] };
    assert_eq!(config.clone().entities[0].name, "a");
}

#[test]
fn file_source_is_written_with_its_scheme() {
    assert_eq!(source_file_format::serialize(&"./a.wasm".to_string()), "file://./a.wasm");
    assert_eq!(
        source_file_format::deserialize("file://./a.wasm".to_string()),
        Ok("./a.wasm".to_string())
    );
    assert_eq!(
        source_file_format::deserialize("file://file://x".to_string()),
        Ok("file://x".to_string())
    );
    assert_eq!(source_file_format::deserialize("file://".to_string()), Ok(String::new()));
    assert_eq!(
        source_file_format::deserialize("oci://x".to_string()),
        Err("path must start with file://".to_string())
    );
}

#[test]
fn registry_source_is_written_with_its_scheme() {
    assert_eq!(source_oci_format::serialize("ghcr.io/x:1"), "oci://ghcr.io/x:1");
    assert_eq!(
        source_oci_format::deserialize("oci://ghcr.io/x:1".to_string()),
        Ok("ghcr.io/x:1".to_string())
    );
    assert_eq!(
        source_oci_format::deserialize("file://x".to_string()),
        Err("reference must start with oci://".to_string())
    );
    assert_eq!(
        source_oci_format::deserialize("oci:/".to_string()),
        Err("reference must start with oci://".to_string())
    );
}

#[test]
fn registry_entity_is_merged_only_as_http_server() {
    let mut graph = ConstructorManifest::new();
    assert!(process_entity(&mut graph, &registry_entity("kv", "ghcr.io/wasmcloud/keyvalue"), None)
        .is_ok());
    assert!(graph.spec.components.is_empty());
    let reference = "ghcr.io/wasmcloud/http-server:0.23.0";
    assert!(process_entity(&mut graph, &registry_entity("web", reference), None).is_ok());
    assert_eq!(graph.spec.components.len(), 1);
    assert_eq!(graph.spec.components[0].name, "web");
    assert_eq!(graph.component_interfaces[0].info.imports[0].name, "incoming-handler");
    assert_eq!(graph.link_constructors.len(), 1);
    assert_eq!(graph.link_constructors[0].pre_component_id, "web");
}

#[test]
fn file_entity_needs_a_binary_that_decodes() {
    let mut graph = ConstructorManifest::new();
    let entity = file_entity("a", "./a.wasm");
    assert!(matches!(process_entity(&mut graph, &entity, None), Err(EntityError::MissingBinary)));
    let junk = Binary { bytes: b"junk".to_vec(), decoded: Err("no".to_string()) };
    assert!(matches!(
        process_entity(&mut graph, &entity, Some(&junk)),
        Err(EntityError::Decode(DecodeError::NotWasm(name))) if name == "a"
    ));
    let refused = Binary { bytes: b"\0asm".to_vec(), decoded: Err("too short".to_string()) };
    assert!(matches!(
        process_file_entity(&mut graph, &entity, "./a.wasm", &refused),
        Err(DecodeError::Malformed(m)) if m == "too short"
    ));
    assert!(graph.spec.components.is_empty());
    assert!(graph.component_interfaces.is_empty());
    let unnamed = Entity { name: "b".to_string(), source: None };
    assert!(matches!(process_entity(&mut graph, &unnamed, None), Err(EntityError::MissingBinary)));
}
