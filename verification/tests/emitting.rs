use wail::constructor::link::LinkConstructor;
use wail::constructor::validation::ValidationError;
use wail::constructor::ConstructorManifest;
use wail::description::{
    Component, ComponentProperties, ConfigDefinition, Entry, LinkProperty, Metadata, Policy,
    Properties, SpreadScalerProperty, TargetConfig, Trait, TraitProperty,
};
use wail::emit::{add_traits, transform_to_wadm};

fn scaler() -> Trait {
    Trait {
        trait_type: "spreadscaler".to_string(),
        properties: TraitProperty::SpreadScaler(SpreadScalerProperty {
            instances: 1,
            spread: vec![],
        }),
    }
}

fn plain_entry(name: &str, traits: Option<Vec<Trait>>) -> Component {
    Component {
        name: name.to_string(),
        properties: Properties::Component {
            properties: ComponentProperties {
                image: Some(format!("./{}.wasm", name)),
                application: None,
                id: None,
                config: vec![],
                secrets: vec![],
            },
        },
        traits,
    }
}

fn link(source: &str, target: Option<&str>, namespace: &str, package: &str, name: &str)
    -> LinkConstructor {
    LinkConstructor {
        pre_component_id: source.to_string(),
        post_component_id: target.map(|t| t.to_string()),
        interfaces: vec![name.to_string()],
        namespace: namespace.to_string(),
        package: package.to_string(),
    }
}

fn sample() -> ConstructorManifest {
    let mut graph = ConstructorManifest::new();
    graph.spec.components.push(plain_entry("a", Some(vec![scaler()])));
    graph.spec.components.push(plain_entry("b", None));
    graph.link_constructors.push(link("a", Some("b"), "ns", "pkg", "x"));
    graph.link_constructors.push(link("b", Some("a"), "ns", "pkg", "y"));
    graph.link_constructors.push(link("a", None, "wasi", "io", "poll"));
    graph.link_constructors.push(link("a", None, "ns", "pkg", "z"));
    graph
}

#[test]
fn link_becomes_a_link_trait() {
    let made = link("a", Some("b"), "ns", "pkg", "x").to_wadm_link();
    assert_eq!(
        made,
        Trait {
            trait_type: "link".to_string(),
            properties: TraitProperty::Link(LinkProperty {
                namespace: "ns".to_string(),
                package: "pkg".to_string(),
                interfaces: vec!["x".to_string()],
                source: Some(ConfigDefinition { config: vec![], secrets: vec![] }),
                target: TargetConfig { name: "b".to_string(), config: vec![], secrets: vec![] },
                name: Some("a-b".to_string()),
                source_config: None,
                target_config: None,
            }),
        }
    );
    let open = link("a", None, "ns", "pkg", "x").to_wadm_link();
    match open.properties {
        TraitProperty::Link(p) => {
            assert_eq!(p.target.name, "");
            assert_eq!(p.name, Some("a-".to_string()));
        }
        other => panic!("not a link: {:?}", other),
    }
}

#[test]
fn link_validation_names_what_is_missing() {
    assert_eq!(link("a", None, "ns", "pkg", "x").validate(), Ok(()));
    let mut l = link("a", None, "", "", "x");
    assert_eq!(l.validate(), Err("Namespace cannot be empty".to_string()));
    l.namespace = "ns".to_string();
    assert_eq!(l.validate(), Err("Package cannot be empty".to_string()));
    l.interfaces.clear();
    l.namespace.clear();
    assert_eq!(l.validate(), Err("Link must have at least one interface".to_string()));
}

#[test]
fn transform_appends_links_and_skips_runtime_interfaces() {
    let manifest =
        transform_to_wadm(sample(), "app".to_string(), "1.2".to_string(), "about".to_string());
    assert_eq!(manifest.api_version, "core.oam.dev/v1beta1");
    assert_eq!(manifest.kind, "Application");
    assert_eq!(
        manifest.metadata,
        Metadata {
            name: "app".to_string(),
            annotations: vec![
                Entry { key: "description".to_string(), value: "about".to_string() },
                Entry { key: "version".to_string(), value: "1.2".to_string() },
            ],
            labels: vec![],
        }
    );
    let a = manifest.spec.components[0].traits.as_ref().unwrap();
    assert_eq!(a.len(), 3);
    assert_eq!(a[0], scaler());
    assert_eq!(a[1], link("a", Some("b"), "ns", "pkg", "x").to_wadm_link());
    assert_eq!(a[2], link("a", None, "ns", "pkg", "z").to_wadm_link());
    let b = manifest.spec.components[1].traits.as_ref().unwrap();
    assert_eq!(b, &vec![link("b", Some("a"), "ns", "pkg", "y").to_wadm_link()]);
    assert_eq!(manifest.spec.components[1].properties, plain_entry("b", None).properties);
}

#[test]
fn transform_keeps_the_registry_s_own_metadata() {
    let mut graph = sample();
    graph.link_constructors.clear();
    graph.api_version = Some("v9".to_string());
    graph.kind = Some("Kind".to_string());
    graph.metadata =
        Some(Metadata { name: "own".to_string(), annotations: vec![], labels: vec![] });
    graph.spec.policies.push(Policy {
        name: "p".to_string(),
        properties: vec![Entry { key: "k".to_string(), value: "v".to_string() }],
        policy_type: "t".to_string(),
    });
    let manifest =
        transform_to_wadm(graph, "app".to_string(), "1".to_string(), "about".to_string());
    assert_eq!(manifest.api_version, "v9");
    assert_eq!(manifest.kind, "Kind");
    assert_eq!(manifest.metadata.name, "own");
    assert!(manifest.metadata.annotations.is_empty());
    assert_eq!(manifest.spec.policies.len(), 1);
    assert_eq!(manifest.spec.components[0].traits, Some(vec![scaler()]));
    assert_eq!(manifest.spec.components[1].traits, Some(vec![]));
}

#[test]
fn to_wadm_needs_metadata() {
    let graph = sample();
    match graph.to_wadm() {
        Err(ValidationError::ComponentError(m)) => assert_eq!(m, "Manifest metadata is required"),
        other => panic!("not refused: {:?}", other),
    }
}

#[test]
fn to_wadm_leaves_runtime_links_out() {
    let mut graph = sample();
    graph.link_constructors.remove(1);
    graph.metadata =
        Some(Metadata { name: "own".to_string(), annotations: vec![], labels: vec![] });
    let manifest = graph.to_wadm().unwrap();
    assert_eq!(manifest.api_version, "v1");
    assert_eq!(manifest.kind, "Application");
    assert_eq!(manifest.metadata.name, "own");
    let a = manifest.spec.components[0].traits.as_ref().unwrap();
    assert_eq!(
        a,
        &vec![
            scaler(),
            link("a", Some("b"), "ns", "pkg", "x").to_wadm_link(),
            link("a", None, "ns", "pkg", "z").to_wadm_link(),
        ]
    );
    assert_eq!(manifest.spec.components[1].traits, None);
    assert_eq!(graph.link_traits("a").len(), 2);
    assert_eq!(graph.link_traits("c").len(), 0);

    let mut only_runtime = sample();
    only_runtime.link_constructors.retain(|l| l.namespace == "wasi");
    only_runtime.metadata =
        Some(Metadata { name: "own".to_string(), annotations: vec![], labels: vec![] });
    let manifest = only_runtime.to_wadm().unwrap();
    assert_eq!(manifest.spec.components[0].traits, Some(vec![scaler()]));
    assert_eq!(manifest.spec.components[1].traits, None);
    assert!(only_runtime.link_traits("a").is_empty());
}

#[test]
fn add_traits_keeps_what_is_there() {
    let extra = vec![link("a", Some("b"), "ns", "pkg", "x").to_wadm_link()];
    let with = add_traits(&plain_entry("a", Some(vec![scaler()])), extra.clone());
    assert_eq!(with.traits, Some(vec![scaler(), extra[0].clone()]));
    let without = add_traits(&plain_entry("a", None), extra.clone());
    assert_eq!(without.traits, Some(extra));
    assert_eq!(without.name, "a");
}
