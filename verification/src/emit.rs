//! Emitting the registry as a deployment description, with the resolved
//! links among the traits of their sources.

use crate::constructor::link::LinkView;
use crate::constructor::validation::{ValidationError, ValidationErrorView};
use crate::constructor::{ConstructorManifest, GraphView};
use crate::description::{
    Component, ComponentView, Entry, EntryView, Manifest, ManifestView, Metadata, MetadataView,
    Specification, SpecificationView, Trait, TraitView,
};
use crate::runtime::is_runtime_interface;
use crate::seqs::{lemma_present_push, present};
use crate::text::same_text;
use vstd::prelude::*;
use vstd::string::StringExecFns;

verus! {

/// The link trait that the link `l` gives the component `name`, if any:
/// the link must have `name` as its source, and must not be for an
/// interface that the runtime provides.
pub open spec fn trait_for(l: LinkView, name: Seq<char>) -> Option<TraitView> {
    if l.source == name && !l.is_runtime() {
        Some(l.link_trait())
    } else {
        None
    }
}

/// The entry `c` with the link traits `extra` behind the traits that it has.
pub open spec fn with_traits(c: ComponentView, extra: Seq<TraitView>) -> ComponentView {
    ComponentView {
        traits: Some(
            match c.traits {
                Some(t) => t + extra,
                None => extra,
            },
        ),
        ..c
    }
}

/// The entry `c` with the link traits `extra` behind the traits that it has,
/// and unchanged where there is no link trait to add.
pub open spec fn with_links(c: ComponentView, extra: Seq<TraitView>) -> ComponentView {
    if extra.len() == 0 {
        c
    } else {
        with_traits(c, extra)
    }
}

/// The metadata that a description gets where the registry has none: the
/// given name, and the description and the version as annotations.
pub open spec fn default_metadata(name: Seq<char>, version: Seq<char>, description: Seq<char>)
    -> MetadataView {
    MetadataView {
        name,
        annotations: seq![
            EntryView { key: "description"@, value: description },
            EntryView { key: "version"@, value: version },
        ],
        labels: Seq::empty(),
    }
}

impl GraphView {
    /// The link traits of the component `name`, in the order of the links.
    /// A link for an interface that the runtime provides gives none.
    pub open spec fn link_traits_of(self, name: Seq<char>) -> Seq<TraitView> {
        present(Seq::new(self.links.len(), |i: int| trait_for(self.links[i], name)))
    }

    /// The description that the registry is emitted as. Every entry keeps
    /// what it has and gets, behind its own traits, one link trait for each
    /// of its links that is not for a runtime interface. The registry's own
    /// version, kind and metadata are kept; where it has none, the
    /// description gets the defaults and the caller's name, version and
    /// description.
    pub open spec fn emitted(self, name: Seq<char>, version: Seq<char>, description: Seq<char>)
        -> ManifestView {
        ManifestView {
            api_version: match self.api_version {
                Some(v) => v,
                None => "core.oam.dev/v1beta1"@,
            },
            kind: match self.kind {
                Some(k) => k,
                None => "Application"@,
            },
            metadata: match self.metadata {
                Some(m) => m,
                None => default_metadata(name, version, description),
            },
            spec: SpecificationView {
                components: Seq::new(
                    self.components.len(),
                    |i: int|
                        with_traits(
                            self.components[i],
                            self.link_traits_of(self.components[i].name),
                        ),
                ),
                policies: self.policies,
            },
        }
    }

    /// The description that the registry stands for as it is, which needs
    /// the registry to have metadata. Every entry gets, behind its own
    /// traits, one link trait for each of its links that is not for a
    /// runtime interface; an entry without such a link stays as it is.
    pub open spec fn described(self) -> ManifestView
        recommends
            self.metadata is Some,
    {
        ManifestView {
            api_version: match self.api_version {
                Some(v) => v,
                None => "v1"@,
            },
            kind: match self.kind {
                Some(k) => k,
                None => "Application"@,
            },
            metadata: self.metadata->Some_0,
            spec: SpecificationView {
                components: Seq::new(
                    self.components.len(),
                    |i: int|
                        with_links(
                            self.components[i],
                            self.link_traits_of(self.components[i].name),
                        ),
                ),
                policies: self.policies,
            },
        }
    }
}

impl ConstructorManifest {
    /// The link traits of the component `name`, in the order of the links. A
    /// link for an interface that the runtime provides gives none.
    pub fn link_traits(&self, name: &str) -> (r: Vec<Trait>)
        ensures
            r.deep_view() == self@.link_traits_of(name@),
    {
        let ghost options = Seq::new(
            self@.links.len(),
            |i: int| trait_for(self@.links[i], name@),
        );
        let mut traits: Vec<Trait> = Vec::new();
        let mut i: usize = 0;
        while i < self.link_constructors.len()
            invariant
                i <= self.link_constructors.len(),
                options == Seq::new(
                    self@.links.len(),
                    |i: int| trait_for(self@.links[i], name@),
                ),
                traits.deep_view() == present(options.take(i as int)),
            decreases self.link_constructors.len() - i,
        {
            let link = &self.link_constructors[i];
            proof {
                assert(options.take(i as int + 1) =~= options.take(i as int).push(
                    options[i as int],
                ));
                lemma_present_push(options.take(i as int), options[i as int]);
            }
            if same_text(link.pre_component_id.as_str(), name) {
                let mut runtime = false;
                if link.interfaces.len() > 0 {
                    runtime = is_runtime_interface(
                        link.namespace.as_str(),
                        link.package.as_str(),
                        link.interfaces[0].as_str(),
                    );
                }
                if !runtime {
                    traits.push(link.to_wadm_link());
                }
            }
            i += 1;
        }
        assert(options.take(i as int) =~= options);
        traits
    }

    /// The registry as a description, with the links of every component
    /// among its traits, those for runtime interfaces left out. Fails with a
    /// component error exactly when the registry has no metadata.
    pub fn to_wadm(&self) -> (r: Result<Manifest, ValidationError>)
        ensures
            match r {
                Ok(m) => self@.metadata is Some && m@ == self@.described(),
                Err(e) => self@.metadata is None && e@ == ValidationErrorView::ComponentError(
                    "Manifest metadata is required"@,
                ),
            },
    {
        let metadata = match &self.metadata {
            Some(m) => m.clone(),
            None => {
                return Err(
                    ValidationError::ComponentError(
                        String::from_str("Manifest metadata is required"),
                    ),
                );
            },
        };
        let api_version = match &self.api_version {
            Some(v) => v.clone(),
            None => String::from_str("v1"),
        };
        let kind = match &self.kind {
            Some(k) => k.clone(),
            None => String::from_str("Application"),
        };
        let mut components: Vec<Component> = Vec::new();
        let mut i: usize = 0;
        while i < self.spec.components.len()
            invariant
                i <= self.spec.components.len(),
                components.len() == i,
                forall|j: int|
                    0 <= j < i ==> components.deep_view()[j] == with_links(
                        self@.components[j],
                        self@.link_traits_of(self@.components[j].name),
                    ),
            decreases self.spec.components.len() - i,
        {
            let entry = &self.spec.components[i];
            let extra = self.link_traits(entry.name.as_str());
            let ghost before = components.deep_view();
            let ghost wanted = with_links(entry@, extra.deep_view());
            let component = if extra.len() == 0 {
                entry.clone()
            } else {
                add_traits(entry, extra)
            };
            components.push(component);
            assert(components.deep_view() =~= before.push(wanted));
            i += 1;
        }
        let policies = self.spec.policies.clone();
        let manifest = Manifest {
            api_version,
            kind,
            metadata,
            spec: Specification { components, policies },
        };
        assert(manifest@.spec.components =~= self@.described().spec.components);
        Ok(manifest)
    }
}

/// The entry `entry` with the traits `extra` behind the traits that it has.
pub fn add_traits(entry: &Component, extra: Vec<Trait>) -> (r: Component)
    ensures
        r@ == with_traits(entry@, extra.deep_view()),
{
    let Component { name, properties, traits } = entry.clone();
    let mut extra = extra;
    let ghost added = extra.deep_view();
    let mut all = match traits {
        Some(t) => t,
        None => Vec::new(),
    };
    let ghost own = all.deep_view();
    all.append(&mut extra);
    assert(all.deep_view() =~= own + added);
    Component { name, properties, traits: Some(all) }
}

/// Emits the registry as a deployment description. Every entry keeps its
/// own traits and gets behind them one link trait for each of its links,
/// those for runtime interfaces left out. A link that has no target yet is
/// emitted with an empty target name. Where the registry has no version,
/// kind or metadata of its own, the description gets the defaults, with
/// `name` as its name and `version` and `description` as annotations.
pub fn transform_to_wadm(
    input: ConstructorManifest,
    name: String,
    version: String,
    description: String,
) -> (m: Manifest)
    ensures
        m@ == input@.emitted(name@, version@, description@),
{
    let mut components: Vec<Component> = Vec::new();
    let mut i: usize = 0;
    while i < input.spec.components.len()
        invariant
            i <= input.spec.components.len(),
            components.len() == i,
            forall|j: int|
                0 <= j < i ==> components.deep_view()[j] == with_traits(
                    input@.components[j],
                    input@.link_traits_of(input@.components[j].name),
                ),
        decreases input.spec.components.len() - i,
    {
        let entry = &input.spec.components[i];
        let extra = input.link_traits(entry.name.as_str());
        let ghost before = components.deep_view();
        let ghost wanted = with_traits(entry@, extra.deep_view());
        components.push(add_traits(entry, extra));
        assert(components.deep_view() =~= before.push(wanted));
        i += 1;
    }
    let ConstructorManifest { api_version, kind, metadata, spec, .. } = input;
    let api_version = match api_version {
        Some(v) => v,
        None => String::from_str("core.oam.dev/v1beta1"),
    };
    let kind = match kind {
        Some(k) => k,
        None => String::from_str("Application"),
    };
    let metadata = match metadata {
        Some(m) => m,
        None => {
            let mut annotations: Vec<Entry> = Vec::new();
            annotations.push(Entry { key: String::from_str("description"), value: description });
            annotations.push(Entry { key: String::from_str("version"), value: version });
            let m = Metadata { name, annotations, labels: Vec::new() };
            assert(m@.annotations =~= default_metadata(
                name@,
                version@,
                description@,
            ).annotations);
            assert(m@.labels =~= Seq::empty());
            m
        },
    };
    let manifest = Manifest {
        api_version,
        kind,
        metadata,
        spec: Specification { components, policies: spec.policies },
    };
    assert(manifest@.spec.components =~= input@.emitted(
        name@,
        version@,
        description@,
    ).spec.components);
    manifest
}

} // verus!
