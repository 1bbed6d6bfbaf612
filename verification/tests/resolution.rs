use wail::constructor::link::LinkConstructor;
use wail::constructor::validation::ValidationError;
use wail::constructor::ConstructorManifest;
use wail::description::{
    CapabilityProperties, Component, ComponentProperties, Properties, TraitProperty,
};
use wail::emit::transform_to_wadm;
use wail::models::{ComponentInfo, InterfaceInfo};

fn iface(namespace: &str, package: &str, name: &str) -> InterfaceInfo {
    InterfaceInfo {
        name: name.to_string(),
        namespace: namespace.to_string(),
        package: package.to_string(),
    }
}

fn catalog(imports: Vec<InterfaceInfo>, exports: Vec<InterfaceInfo>) -> ComponentInfo {
    ComponentInfo { imports, exports, package: None }
}

fn graph_of(parts: Vec<(&str, ComponentInfo)>) -> ConstructorManifest {
    let mut graph = ConstructorManifest::new();
    for (name, info) in parts {
        graph
            .merge_component_info(name.to_string(), info, format!("./{}.wasm", name))
            .unwrap();
    }
    graph
}

fn error_text(e: &ValidationError) -> String {
    e.to_text()
}

#[test]
fn front_and_back_are_linked() {
    let mut graph = graph_of(vec![
        ("front", catalog(vec![iface("ns", "pkg", "backend-call")], vec![])),
        ("back", catalog(vec![], vec![iface("ns", "pkg", "backend-call")])),
    ]);
    let report = graph.validate().unwrap();
    assert!(report.is_valid);
    assert_eq!(report.errors.len(), 0);
    assert_eq!(graph.link_constructors.len(), 1);
    assert_eq!(graph.link_constructors[0].post_component_id, Some("back".to_string()));

    let manifest = transform_to_wadm(
        graph,
        "app".to_string(),
        "0.1.0".to_string(),
        "an app".to_string(),
    );
    assert_eq!(manifest.spec.components.len(), 2);
    let front = &manifest.spec.components[0];
    assert_eq!(front.name, "front");
    let traits = front.traits.as_ref().unwrap();
    assert_eq!(traits.len(), 1);
    assert_eq!(traits[0].trait_type, "link");
    match &traits[0].properties {
        TraitProperty::Link(p) => {
            assert_eq!(p.namespace, "ns");
            assert_eq!(p.package, "pkg");
            assert_eq!(p.interfaces, vec!["backend-call".to_string()]);
            assert_eq!(p.target.name, "back");
            assert_eq!(p.name, Some("front-back".to_string()));
        }
        other => panic!("not a link: {:?}", other),
    }
    let back = &manifest.spec.components[1];
    assert_eq!(back.traits.as_ref().unwrap().len(), 0);
}

#[test]
fn runtime_imports_give_no_link_and_no_error() {
    let mut graph = graph_of(vec![(
        "solo",
        catalog(
            vec![
                iface("wasi", "io", "poll"),
                iface("wasi", "io", "error"),
                iface("wasi", "io", "streams"),
                iface("wasi", "http", "types"),
                iface("wasi", "cli", "environment"),
                iface("wasi", "cli", "exit"),
                iface("wasi", "cli", "stdin"),
                iface("wasi", "cli", "stdout"),
                iface("wasi", "cli", "stderr"),
                iface("wasi", "clocks", "wall-clock"),
                iface("wasi", "filesystem", "types"),
                iface("wasi", "filesystem", "preopens"),
            ],
            vec![],
        ),
    )]);
    assert_eq!(graph.link_constructors.len(), 0);
    let report = graph.validate().unwrap();
    assert!(report.is_valid);
    assert!(report.errors.is_empty());
}

#[test]
fn only_the_exact_triple_is_a_runtime_interface() {
    let graph = graph_of(vec![(
        "solo",
        catalog(
            vec![
                iface("wasi", "http", "incoming-handler"),
                iface("other", "io", "poll"),
                iface("wasi", "io", "types"),
            ],
            vec![],
        ),
    )]);
    assert_eq!(graph.link_constructors.len(), 3);
    assert_eq!(graph.link_constructors[0].interfaces, vec!["incoming-handler".to_string()]);
    assert_eq!(graph.link_constructors[1].namespace, "other");
    assert_eq!(graph.link_constructors[2].package, "io");
    assert!(graph.link_constructors.iter().all(|l| l.post_component_id.is_none()));
    assert!(graph.link_constructors.iter().all(|l| l.pre_component_id == "solo"));
}

#[test]
fn first_of_two_exporters_is_chosen() {
    let mut graph = graph_of(vec![
        ("first", catalog(vec![], vec![iface("ns", "pkg", "x")])),
        ("asker", catalog(vec![iface("ns", "pkg", "x")], vec![])),
        ("second", catalog(vec![], vec![iface("ns", "pkg", "x")])),
    ]);
    let report = graph.validate().unwrap();
    assert!(report.is_valid);
    assert!(report.errors.is_empty());
    assert_eq!(graph.link_constructors[0].post_component_id, Some("first".to_string()));
}

#[test]
fn a_component_is_never_linked_to_itself() {
    let mut graph = graph_of(vec![
        ("selfish", catalog(vec![iface("ns", "pkg", "x")], vec![iface("ns", "pkg", "x")])),
        ("other", catalog(vec![], vec![iface("ns", "pkg", "x")])),
    ]);
    let report = graph.validate().unwrap();
    assert!(report.is_valid);
    assert_eq!(graph.link_constructors[0].post_component_id, Some("other".to_string()));

    let mut alone = graph_of(vec![(
        "selfish",
        catalog(vec![iface("ns", "pkg", "x")], vec![iface("ns", "pkg", "x")]),
    )]);
    let report = alone.validate().unwrap();
    assert!(!report.is_valid);
    assert_eq!(alone.link_constructors[0].post_component_id, None);
}

#[test]
fn missing_exporter_is_one_interface_error() {
    let mut graph = graph_of(vec![
        ("asker", catalog(vec![iface("ns", "pkg", "x")], vec![])),
        ("other", catalog(vec![], vec![iface("ns", "pkg", "y"), iface("ns", "other", "x")])),
    ]);
    let report = graph.validate().unwrap();
    assert!(!report.is_valid);
    assert_eq!(report.errors.len(), 1);
    match &report.errors[0] {
        ValidationError::InterfaceError(m) => assert_eq!(
            m,
            "No component found that exports interface ns:pkg:x required by asker"
        ),
        other => panic!("wrong kind: {:?}", other),
    }
    assert_eq!(
        error_text(&report.errors[0]),
        "Interface error: No component found that exports interface ns:pkg:x required by asker"
    );
    assert_eq!(graph.link_constructors[0].post_component_id, None);
}

#[test]
fn pinned_target_is_kept_and_checked() {
    let mut graph = graph_of(vec![
        ("asker", catalog(vec![iface("ns", "pkg", "x")], vec![])),
        ("good", catalog(vec![], vec![iface("ns", "pkg", "x")])),
        ("bad", catalog(vec![], vec![iface("ns", "pkg", "y")])),
    ]);
    graph.link_constructors[0].post_component_id = Some("bad".to_string());
    let report = graph.validate().unwrap();
    assert!(!report.is_valid);
    assert_eq!(report.errors.len(), 1);
    match &report.errors[0] {
        ValidationError::InterfaceError(m) => assert_eq!(
            m,
            "Component bad does not export interface ns:pkg:x required by asker"
        ),
        other => panic!("wrong kind: {:?}", other),
    }
    assert_eq!(graph.link_constructors[0].post_component_id, Some("bad".to_string()));
}

#[test]
fn pinned_target_without_catalog_is_a_component_error() {
    let mut graph = graph_of(vec![("asker", catalog(vec![iface("ns", "pkg", "x")], vec![]))]);
    graph.link_constructors[0].post_component_id = Some("ghost".to_string());
    let report = graph.validate().unwrap();
    assert!(!report.is_valid);
    let texts: Vec<String> = report.errors.iter().map(error_text).collect();
    assert_eq!(
        texts,
        vec![
            "Link error: Post-component 'ghost' not found".to_string(),
            "Component error: Target component ghost not found".to_string(),
        ]
    );
}

#[test]
fn basic_requirements_are_all_reported() {
    let mut graph = ConstructorManifest::new();
    graph.spec.components.push(Component {
        name: "bare".to_string(),
        properties: Properties::Component {
            properties: ComponentProperties {
                image: None,
                application: None,
                id: None,
                config: vec![],
                secrets: vec![],
            },
        },
        traits: None,
    });
    graph.spec.components.push(Component {
        name: "provider".to_string(),
        properties: Properties::Capability {
            properties: CapabilityProperties {
                image: None,
                application: None,
                id: None,
                config: vec![],
                secrets: vec![],
            },
        },
        traits: None,
    });
    graph.link_constructors.push(LinkConstructor {
        pre_component_id: "nobody".to_string(),
        post_component_id: None,
        interfaces: vec!["poll".to_string()],
        namespace: "wasi".to_string(),
        package: "io".to_string(),
    });
    graph.link_constructors.push(LinkConstructor {
        pre_component_id: "bare".to_string(),
        post_component_id: None,
        interfaces: vec![],
        namespace: "ns".to_string(),
        package: "pkg".to_string(),
    });
    graph.link_constructors.push(LinkConstructor {
        pre_component_id: "bare".to_string(),
        post_component_id: Some("provider".to_string()),
        interfaces: vec!["poll".to_string()],
        namespace: String::new(),
        package: "io".to_string(),
    });
    let report = graph.validate().unwrap();
    assert!(!report.is_valid);
    let texts: Vec<String> = report.errors.iter().map(error_text).collect();
    assert_eq!(
        texts,
        vec![
            "Component error: bare must specify image or application".to_string(),
            "Component error: provider must specify image or application".to_string(),
            "Link error: Pre-component 'nobody' not found".to_string(),
            "Link error: Link must have at least one interface".to_string(),
            "Link error: Namespace cannot be empty".to_string(),
            "Component error: Target component provider not found".to_string(),
        ]
    );
    assert_eq!(graph.link_constructors.len(), 3);
}

#[test]
fn validation_twice_changes_nothing_more() {
    let mut graph = graph_of(vec![
        ("a", catalog(vec![iface("ns", "pkg", "x"), iface("ns", "pkg", "z")], vec![])),
        ("b", catalog(vec![], vec![iface("ns", "pkg", "x")])),
    ]);
    let first = graph.validate().unwrap();
    let targets: Vec<Option<String>> =
        graph.link_constructors.iter().map(|l| l.post_component_id.clone()).collect();
    assert_eq!(targets, vec![Some("b".to_string()), None]);
    let second = graph.validate().unwrap();
    let again: Vec<Option<String>> =
        graph.link_constructors.iter().map(|l| l.post_component_id.clone()).collect();
    assert_eq!(targets, again);
    assert_eq!(first.errors.len(), 1);
    assert_eq!(second.errors.len(), 1);
}

#[test]
fn resolve_link_leaves_the_registry_alone() {
    let graph = graph_of(vec![
        ("a", catalog(vec![iface("ns", "pkg", "x")], vec![])),
        ("b", catalog(vec![], vec![iface("ns", "pkg", "x")])),
    ]);
    let (link, error) = graph.resolve_link(&graph.link_constructors[0]);
    assert!(error.is_none());
    assert_eq!(link.post_component_id, Some("b".to_string()));
    assert_eq!(link.pre_component_id, "a");
    assert_eq!(graph.link_constructors[0].post_component_id, None);
}
