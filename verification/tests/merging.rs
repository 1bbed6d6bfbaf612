use wail::constructor::merge::known_http_server;
use wail::constructor::validation::ValidationError;
use wail::constructor::ConstructorManifest;
use wail::decode::Binary;
use wail::description::{
    CapabilityProperties, Component, ComponentProperties, ConfigDefinition, Entry, LinkProperty,
    Manifest, Metadata, Policy, Properties, Specification, SpreadScalerProperty, TargetConfig,
    Trait, TraitProperty,
};
use wail::emit::transform_to_wadm;
use wail::models::{ComponentInfo, InterfaceInfo, PackageInfo};

fn item(namespace: &str, package: &str, name: &str) -> InterfaceInfo {
    InterfaceInfo {
        name: name.to_string(),
        namespace: namespace.to_string(),
        package: package.to_string(),
    }
}

fn info(imports: Vec<InterfaceInfo>, exports: Vec<InterfaceInfo>) -> ComponentInfo {
    ComponentInfo { imports, exports, package: None }
}

fn link_trait(namespace: &str, package: &str, interface: &str, target: &str) -> Trait {
    Trait {
        trait_type: "link".to_string(),
        properties: TraitProperty::Link(LinkProperty {
            namespace: namespace.to_string(),
            package: package.to_string(),
            interfaces: vec![interface.to_string()],
            source: Some(ConfigDefinition { config: vec![], secrets: vec![] }),
            target: TargetConfig { name: target.to_string(), config: vec![], secrets: vec![] },
            name: None,
            source_config: None,
            target_config: None,
        }),
    }
}

fn entry(name: &str, image: Option<&str>, traits: Option<Vec<Trait>>) -> Component {
    Component {
        name: name.to_string(),
        properties: Properties::Component {
            properties: ComponentProperties {
                image: image.map(|i| i.to_string()),
                application: None,
                id: None,
                config: vec![],
                secrets: vec![],
            },
        },
        traits,
    }
}

fn description(components: Vec<Component>, policies: Vec<Policy>) -> Manifest {
    Manifest {
        api_version: "core.oam.dev/v1beta1".to_string(),
        kind: "Application".to_string(),
        metadata: Metadata { name: "described".to_string(), annotations: vec![], labels: vec![] },
        spec: Specification { components, policies },
    }
}

fn three_components() -> ConstructorManifest {
    let mut graph = ConstructorManifest::new();
    graph
        .merge_component_info(
            "a".to_string(),
            info(vec![item("ns", "pkg", "x")], vec![]),
            "./a.wasm".to_string(),
        )
        .unwrap();
    graph
        .merge_component_info(
            "b".to_string(),
            info(vec![], vec![item("ns", "pkg", "x")]),
            "./b.wasm".to_string(),
        )
        .unwrap();
    graph
        .merge_component_info(
            "c".to_string(),
            info(vec![], vec![item("ns", "pkg", "y")]),
            "./c.wasm".to_string(),
        )
        .unwrap();
    graph
}

#[test]
fn new_registry_is_empty() {
    let graph = ConstructorManifest::new();
    assert!(graph.api_version.is_none());
    assert!(graph.kind.is_none());
    assert!(graph.metadata.is_none());
    assert!(graph.spec.components.is_empty());
    assert!(graph.spec.policies.is_empty());
    assert!(graph.component_interfaces.is_empty());
    assert!(graph.link_constructors.is_empty());
    assert!(!graph.component_exists("a"));
    assert!(graph.get_component("a").is_none());
}

#[test]
fn merge_adds_entry_catalog_and_links() {
    let mut graph = ConstructorManifest::new();
    let result = graph.merge_component_info(
        "a".to_string(),
        info(
            vec![item("ns", "pkg", "x"), item("wasi", "io", "poll"), item("ns", "pkg", "y")],
            vec![item("ns", "pkg", "z")],
        ),
        "./a.wasm".to_string(),
    );
    assert!(result.is_ok());
    assert!(graph.component_exists("a"));
    assert!(!graph.component_exists("b"));
    assert_eq!(graph.component_position("a"), 0);
    assert_eq!(graph.component_position("b"), 1);
    assert_eq!(graph.catalog_position("a"), 0);
    let component = graph.get_component("a").unwrap();
    assert_eq!(
        component,
        &Component {
            name: "a".to_string(),
            properties: Properties::Component {
                properties: ComponentProperties {
                    image: Some("./a.wasm".to_string()),
                    application: None,
                    id: Some("a".to_string()),
                    config: vec![],
                    secrets: vec![],
                },
            },
            traits: Some(vec![]),
        }
    );
    assert_eq!(graph.component_interfaces.len(), 1);
    assert_eq!(graph.component_interfaces[0].name, "a");
    assert_eq!(graph.component_interfaces[0].info.exports.len(), 1);
    assert_eq!(graph.link_constructors.len(), 2);
    assert_eq!(graph.link_constructors[0].interfaces, vec!["x".to_string()]);
    assert_eq!(graph.link_constructors[1].interfaces, vec!["y".to_string()]);
    assert_eq!(graph.link_constructors[1].namespace, "ns");
    assert_eq!(graph.link_constructors[1].package, "pkg");
    assert_eq!(graph.link_constructors[1].pre_component_id, "a");
    assert_eq!(graph.link_constructors[1].post_component_id, None);
}

#[test]
fn merging_again_replaces_catalog_and_location_and_doubles_links() {
    let mut graph = three_components();
    graph
        .merge_component_info(
            "a".to_string(),
            info(vec![item("ns", "pkg", "x")], vec![item("ns", "pkg", "w")]),
            "./elsewhere.wasm".to_string(),
        )
        .unwrap();
    assert_eq!(graph.spec.components.len(), 3);
    assert_eq!(graph.component_interfaces.len(), 3);
    assert_eq!(graph.component_interfaces[0].name, "a");
    assert_eq!(graph.component_interfaces[0].info.exports.len(), 1);
    match &graph.spec.components[0].properties {
        Properties::Component { properties } => {
            assert_eq!(properties.image, Some("./elsewhere.wasm".to_string()));
            assert_eq!(properties.id, Some("a".to_string()));
        }
        other => panic!("not a component: {:?}", other),
    }
    assert_eq!(graph.link_constructors.len(), 2);
    assert_eq!(graph.link_constructors[0].interfaces, graph.link_constructors[1].interfaces);
}

#[test]
fn merge_leaves_a_capability_entry_as_it_is() {
    let mut graph = ConstructorManifest::new();
    graph.spec.components.push(Component {
        name: "provider".to_string(),
        properties: Properties::Capability {
            properties: CapabilityProperties {
                image: Some("oci-image".to_string()),
                application: None,
                id: None,
                config: vec![],
                secrets: vec![],
            },
        },
        traits: None,
    });
    graph
        .merge_component_info("provider".to_string(), info(vec![], vec![]), "./p.wasm".to_string())
        .unwrap();
    assert_eq!(graph.spec.components.len(), 1);
    match &graph.spec.components[0].properties {
        Properties::Capability { properties } => {
            assert_eq!(properties.image, Some("oci-image".to_string()))
        }
        other => panic!("not a capability: {:?}", other),
    }
    assert_eq!(graph.component_interfaces.len(), 1);
}

#[test]
fn description_pins_a_link() {
    let mut graph = three_components();
    let wadm = description(
        vec![entry("a", Some("other.wasm"), Some(vec![link_trait("ns", "pkg", "x", "b")]))],
        vec![],
    );
    assert!(graph.merge_wadm_with(&wadm, &vec![]).is_ok());
    assert_eq!(graph.link_constructors[0].post_component_id, Some("b".to_string()));
    assert_eq!(graph.spec.components.len(), 3);
    match &graph.spec.components[0].properties {
        Properties::Component { properties } => {
            assert_eq!(properties.image, Some("./a.wasm".to_string()))
        }
        other => panic!("not a component: {:?}", other),
    }
    assert_eq!(graph.api_version, Some("core.oam.dev/v1beta1".to_string()));
    assert_eq!(graph.kind, Some("Application".to_string()));
    assert_eq!(graph.metadata.as_ref().unwrap().name, "described");
    let report = graph.validate().unwrap();
    assert!(report.is_valid);
}

#[test]
fn description_pin_to_non_exporter_is_an_interface_error() {
    let mut graph = three_components();
    let wadm = description(
        vec![entry("a", None, Some(vec![link_trait("ns", "pkg", "x", "c")]))],
        vec![],
    );
    assert!(graph.merge_wadm_with(&wadm, &vec![]).is_ok());
    assert_eq!(graph.link_constructors[0].post_component_id, Some("c".to_string()));
    let report = graph.validate().unwrap();
    assert!(!report.is_valid);
    assert_eq!(report.errors.len(), 1);
    match &report.errors[0] {
        ValidationError::InterfaceError(m) => {
            assert_eq!(m, "Component c does not export interface ns:pkg:x required by a")
        }
        other => panic!("wrong kind: {:?}", other),
    }
    assert_eq!(graph.link_constructors[0].post_component_id, Some("c".to_string()));
}

#[test]
fn description_link_for_foreign_interface_is_rejected() {
    let mut graph = three_components();
    let wadm = description(
        vec![
            entry("b", None, Some(vec![link_trait("ns", "pkg", "x", "a")])),
            entry("a", None, Some(vec![link_trait("ns", "pkg", "x", "b")])),
        ],
        vec![Policy { name: "p".to_string(), properties: vec![], policy_type: "t".to_string() }],
    );
    let result = graph.merge_wadm_with(&wadm, &vec![]);
    match result {
        Err(ValidationError::ComponentError(m)) => {
            assert_eq!(m, "Component b does not import interface ns:pkg:x")
        }
        other => panic!("not rejected: {:?}", other),
    }
    assert_eq!(graph.link_constructors[0].post_component_id, None);
    assert!(graph.spec.policies.is_empty());
}

#[test]
fn description_link_without_interface_is_rejected() {
    let mut graph = three_components();
    let mut bad = link_trait("ns", "pkg", "x", "b");
    if let TraitProperty::Link(p) = &mut bad.properties {
        p.interfaces.clear();
    }
    let wadm = description(vec![entry("a", None, Some(vec![bad]))], vec![]);
    match graph.merge_wadm_with(&wadm, &vec![]) {
        Err(ValidationError::ComponentError(m)) => {
            assert_eq!(m, "Component a does not import interface ns:pkg:")
        }
        other => panic!("not rejected: {:?}", other),
    }
}

#[test]
fn description_other_traits_are_passed_over() {
    let mut graph = three_components();
    let scaler = Trait {
        trait_type: "spreadscaler".to_string(),
        properties: TraitProperty::SpreadScaler(SpreadScalerProperty {
            instances: 2,
            spread: vec![],
        }),
    };
    let custom = Trait {
        trait_type: "link".to_string(),
        properties: TraitProperty::Custom("{}".to_string()),
    };
    let mislabelled = Trait {
        trait_type: "other".to_string(),
        properties: match link_trait("ns", "pkg", "nothing", "b").properties {
            TraitProperty::Link(p) => TraitProperty::Link(p),
            other => other,
        },
    };
    let wadm = description(
        vec![entry("a", None, Some(vec![scaler, custom, mislabelled])), entry("b", None, None)],
        vec![],
    );
    assert!(graph.merge_wadm_with(&wadm, &vec![]).is_ok());
    assert_eq!(graph.link_constructors[0].post_component_id, None);
}

#[test]
fn description_keeps_own_metadata_and_appends_policies() {
    let mut graph = three_components();
    graph.metadata =
        Some(Metadata { name: "mine".to_string(), annotations: vec![], labels: vec![] });
    graph.kind = Some("Mine".to_string());
    let policy =
        Policy { name: "p".to_string(), properties: vec![], policy_type: "t".to_string() };
    let wadm = description(vec![], vec![policy.clone()]);
    assert!(graph.merge_wadm_with(&wadm, &vec![]).is_ok());
    assert!(graph.merge_wadm_with(&wadm, &vec![]).is_ok());
    assert_eq!(graph.metadata.as_ref().unwrap().name, "mine");
    assert_eq!(graph.kind, Some("Mine".to_string()));
    assert_eq!(graph.api_version, Some("core.oam.dev/v1beta1".to_string()));
    assert_eq!(graph.spec.policies, vec![policy.clone(), policy]);
}

#[test]
fn description_brings_a_new_component_with_its_catalog() {
    let mut graph = three_components();
    let wadm = description(
        vec![
            entry("d", Some("file://file://./d.wasm"), None),
            entry("e", Some("./e.wasm"), None),
            entry("f", None, None),
        ],
        vec![],
    );
    let catalogs = vec![
        Some(info(vec![item("ns", "pkg", "y")], vec![])),
        None,
        Some(info(vec![], vec![])),
    ];
    assert!(graph.merge_wadm_with(&wadm, &catalogs).is_ok());
    assert_eq!(graph.spec.components.len(), 4);
    assert_eq!(graph.spec.components[3].name, "d");
    match &graph.spec.components[3].properties {
        Properties::Component { properties } => {
            assert_eq!(properties.image, Some("./d.wasm".to_string()))
        }
        other => panic!("not a component: {:?}", other),
    }
    assert!(!graph.component_exists("e"));
    assert!(!graph.component_exists("f"));
    assert_eq!(graph.link_constructors.len(), 2);
    assert_eq!(graph.link_constructors[1].pre_component_id, "d");
}

#[test]
fn description_brings_the_http_server() {
    let mut graph = ConstructorManifest::new();
    let provider = |name: &str| Component {
        name: name.to_string(),
        properties: Properties::Capability {
            properties: CapabilityProperties {
                image: Some("ghcr.io/wasmcloud/http-server:0.23.0".to_string()),
                application: None,
                id: None,
                config: vec![],
                secrets: vec![],
            },
        },
        traits: None,
    };
    let wadm = description(vec![provider("httpserver"), provider("keyvalue")], vec![]);
    assert!(graph.merge_wadm_with(&wadm, &vec![]).is_ok());
    assert_eq!(graph.spec.components.len(), 1);
    assert_eq!(graph.spec.components[0].name, "httpserver");
    match &graph.spec.components[0].properties {
        Properties::Component { properties } => assert_eq!(
            properties.image,
            Some("ghcr.io/wasmcloud/http-server:0.23.0".to_string())
        ),
        other => panic!("not a component: {:?}", other),
    }
    assert_eq!(graph.link_constructors.len(), 1);
    assert_eq!(graph.link_constructors[0].namespace, "wasi");
    assert_eq!(graph.link_constructors[0].package, "http");
    assert_eq!(graph.link_constructors[0].interfaces, vec!["incoming-handler".to_string()]);
    let known = known_http_server();
    assert_eq!(known.exports[0].name, "outgoing-handler");
    let package = known.package.unwrap();
    assert_eq!(package.namespace, "wasmcloud");
    assert_eq!(package.name, "httpserver");
}

#[test]
fn known_provider_of_another_name_is_left_out() {
    let mut graph = ConstructorManifest::new();
    let other = entry("keyvalue", Some("img"), None);
    assert!(graph.process_known_provider(&other).is_ok());
    assert!(graph.spec.components.is_empty());
    let server = entry("httpserver", None, None);
    assert!(graph.process_known_provider(&server).is_ok());
    match &graph.spec.components[0].properties {
        Properties::Component { properties } => {
            assert_eq!(properties.image, Some(String::new()))
        }
        other => panic!("not a component: {:?}", other),
    }
}

#[test]
fn wanted_binary_is_the_image_without_its_scheme() {
    let graph = three_components();
    assert_eq!(
        graph.wanted_binary(&entry("new", Some("file://./new.wasm"), None)),
        Some("./new.wasm".to_string())
    );
    assert_eq!(graph.wanted_binary(&entry("a", Some("file://./a.wasm"), None)), None);
    assert_eq!(graph.wanted_binary(&entry("new", None, None)), None);
}

#[test]
fn binaries_that_do_not_decode_leave_their_entries_out() {
    let mut graph = three_components();
    let wadm = description(
        vec![entry("d", Some("./d.wasm"), None), entry("e", Some("./e.wasm"), None)],
        vec![],
    );
    let junk = Binary {
        bytes: b"not wasm at all".to_vec(),
        decoded: Err("not decoded".to_string()),
    };
    let binaries = vec![Some(junk), None];
    assert!(graph.merge_wadm(&wadm, &binaries).is_ok());
    assert_eq!(graph.spec.components.len(), 3);
    assert_eq!(graph.link_constructors.len(), 1);
}

#[test]
fn emitted_description_merges_back_to_the_same_targets() {
    let mut graph = ConstructorManifest::new();
    let parts = vec![
        ("front", info(vec![item("ns", "pkg", "x"), item("wasi", "io", "poll")], vec![])),
        ("back", info(vec![item("ns", "data", "store")], vec![item("ns", "pkg", "x")])),
        ("spare", info(vec![], vec![item("ns", "pkg", "x")])),
        ("store", info(vec![], vec![item("ns", "data", "store")])),
    ];
    for (name, catalog) in parts.iter() {
        graph
            .merge_component_info(name.to_string(), catalog.clone(), format!("./{}.wasm", name))
            .unwrap();
    }
    graph.link_constructors[0].post_component_id = Some("spare".to_string());
    assert!(graph.validate().unwrap().is_valid);
    let targets: Vec<Option<String>> =
        graph.link_constructors.iter().map(|l| l.post_component_id.clone()).collect();
    assert_eq!(targets, vec![Some("spare".to_string()), Some("store".to_string())]);

    let emitted =
        transform_to_wadm(graph, "app".to_string(), "1".to_string(), "about".to_string());

    let mut fresh = ConstructorManifest::new();
    for (name, catalog) in parts.iter() {
        fresh
            .merge_component_info(name.to_string(), catalog.clone(), format!("./{}.wasm", name))
            .unwrap();
    }
    assert!(fresh.merge_wadm_with(&emitted, &vec![]).is_ok());
    let pinned: Vec<Option<String>> =
        fresh.link_constructors.iter().map(|l| l.post_component_id.clone()).collect();
    assert_eq!(pinned, targets);
    assert!(fresh.validate().unwrap().is_valid);
    let after: Vec<Option<String>> =
        fresh.link_constructors.iter().map(|l| l.post_component_id.clone()).collect();
    assert_eq!(after, targets);
    let again =
        transform_to_wadm(fresh, "other".to_string(), "2".to_string(), "else".to_string());
    assert_eq!(again.spec.components.len(), emitted.spec.components.len());
    assert_eq!(again.metadata, emitted.metadata);
    assert_eq!(again.spec.components[1].name, "back");
    assert_eq!(again.spec.components[1].traits.as_ref().unwrap().len(), 1);
    assert_eq!(again.spec.components[0].traits.as_ref().unwrap().len(), 1);
}

#[test]
fn package_info_is_carried() {
    let with_package = ComponentInfo {
        imports: vec![],
        exports: vec![],
        package: Some(PackageInfo { namespace: "ns".to_string(), name: "pkg".to_string() }),
    };
    let copy = with_package.clone();
    assert_eq!(copy.package.as_ref().unwrap().namespace, "ns");
    assert_eq!(copy.package.unwrap().name, "pkg");
    let entry = Entry { key: "k".to_string(), value: "v".to_string() };
    assert_eq!(entry.clone(), entry);
}

#[test]
fn description_pin_sets_one_target_whatever_the_target_is() {
    let mut graph = three_components();
    graph
        .merge_component_info(
            "d".to_string(),
            info(vec![item("ns", "pkg", "x"), item("ns", "pkg", "y")], vec![]),
            "./d.wasm".to_string(),
        )
        .unwrap();
    let before: Vec<Option<String>> =
        graph.link_constructors.iter().map(|l| l.post_component_id.clone()).collect();
    assert_eq!(before, vec![None, None, None]);
    let wadm = description(
        vec![entry("d", None, Some(vec![link_trait("ns", "pkg", "y", "nobody")]))],
        vec![],
    );
    assert!(graph.merge_wadm_with(&wadm, &vec![]).is_ok());
    let after: Vec<Option<String>> =
        graph.link_constructors.iter().map(|l| l.post_component_id.clone()).collect();
    assert_eq!(after, vec![None, None, Some("nobody".to_string())]);
    assert_eq!(graph.spec.components.len(), 4);
    assert_eq!(graph.component_interfaces.len(), 4);
}

#[test]
fn steps_of_a_merge_give_what_the_merge_gives() {
    let wadm = description(
        vec![
            entry("a", None, Some(vec![link_trait("ns", "pkg", "x", "b")])),
            entry("d", Some("file://./d.wasm"), None),
        ],
        vec![Policy { name: "p".to_string(), properties: vec![], policy_type: "t".to_string() }],
    );
    let catalog = info(vec![item("ns", "pkg", "y")], vec![]);

    let mut whole = three_components();
    assert!(whole.merge_wadm_with(&wadm, &vec![None, Some(catalog.clone())]).is_ok());

    let mut stepped = three_components();
    stepped.adopt(&wadm);
    assert_eq!(stepped.wanted_binary(&wadm.spec.components[0]), None);
    assert!(stepped.merge_entry(&wadm.spec.components[0], None).is_ok());
    assert_eq!(stepped.wanted_binary(&wadm.spec.components[1]), Some("./d.wasm".to_string()));
    assert!(stepped.merge_entry(&wadm.spec.components[1], Some(catalog)).is_ok());
    stepped.append_policies(&wadm);

    assert_eq!(stepped.spec.components, whole.spec.components);
    assert_eq!(stepped.spec.policies, whole.spec.policies);
    assert_eq!(stepped.metadata, whole.metadata);
    assert_eq!(stepped.api_version, whole.api_version);
    assert_eq!(stepped.kind, whole.kind);
    let targets = |g: &ConstructorManifest| -> Vec<(String, Option<String>)> {
        g.link_constructors
            .iter()
            .map(|l| (l.pre_component_id.clone(), l.post_component_id.clone()))
            .collect()
    };
    assert_eq!(targets(&stepped), targets(&whole));
    assert_eq!(
        targets(&whole),
        vec![("a".to_string(), Some("b".to_string())), ("d".to_string(), None)]
    );
}
