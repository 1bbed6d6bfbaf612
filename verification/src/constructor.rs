//! The registry of components: their entries, their catalogs in the order in
//! which they first came, and the links between them.

use crate::description::{
    Component, ComponentProperties, ComponentPropertiesView, ComponentView, Metadata,
    MetadataView, PolicyView, Properties, PropertiesView, Specification,
};
use crate::models::{Catalog, ComponentInfo, InterfaceTriple};
use crate::runtime::{is_runtime_interface, runtime_interface};
use crate::seqs::{first_true, lemma_first_true_is, lemma_present_push, present};
use crate::text::same_text;
use vstd::prelude::*;

pub mod link;
pub mod merge;
pub mod validation;

use link::{LinkConstructor, LinkView};

verus! {

/// The mathematical content of a [`CatalogEntry`].
pub struct CatalogEntryView {
    pub name: Seq<char>,
    pub catalog: Catalog,
}

/// The interface catalog of one component, under the component's name.
#[derive(Debug)]
pub struct CatalogEntry {
    pub name: String,
    pub info: ComponentInfo,
}

impl View for CatalogEntry {
    type V = CatalogEntryView;

    open spec fn view(&self) -> CatalogEntryView {
        CatalogEntryView { name: self.name@, catalog: self.info@ }
    }
}

impl DeepView for CatalogEntry {
    type V = CatalogEntryView;

    open spec fn deep_view(&self) -> CatalogEntryView {
        self@
    }
}

impl Clone for CatalogEntry {
    fn clone(&self) -> (r: Self)
        ensures
            r@ == self@,
    {
        CatalogEntry { name: self.name.clone(), info: self.info.clone() }
    }
}

/// The mathematical content of a [`ConstructorManifest`]: the component
/// entries and policies of the description under construction, the catalogs
/// of the known components in the order in which they first came, and the
/// links.
pub struct GraphView {
    pub api_version: Option<Seq<char>>,
    pub kind: Option<Seq<char>>,
    pub metadata: Option<MetadataView>,
    pub components: Seq<ComponentView>,
    pub policies: Seq<PolicyView>,
    pub catalogs: Seq<CatalogEntryView>,
    pub links: Seq<LinkView>,
}

impl GraphView {
    /// The graph that holds nothing.
    pub open spec fn empty() -> GraphView {
        GraphView {
            api_version: None,
            kind: None,
            metadata: None,
            components: Seq::empty(),
            policies: Seq::empty(),
            catalogs: Seq::empty(),
            links: Seq::empty(),
        }
    }

    /// The place of the first component entry called `name`, or the number
    /// of entries if there is none.
    pub open spec fn component_index(self, name: Seq<char>) -> int {
        first_true(self.component_flags(name))
    }

    /// For each component entry, whether it is called `name`.
    pub open spec fn component_flags(self, name: Seq<char>) -> Seq<bool> {
        Seq::new(self.components.len(), |i: int| self.components[i].name == name)
    }

    /// For each catalog, whether it stands under `name`.
    pub open spec fn catalog_flags(self, name: Seq<char>) -> Seq<bool> {
        Seq::new(self.catalogs.len(), |i: int| self.catalogs[i].name == name)
    }

    /// Whether a component entry called `name` exists.
    pub open spec fn component_exists(self, name: Seq<char>) -> bool {
        self.component_index(name) < self.components.len()
    }

    /// The place of the first catalog under `name`, or the number of
    /// catalogs if there is none.
    pub open spec fn catalog_index(self, name: Seq<char>) -> int {
        first_true(self.catalog_flags(name))
    }

    /// Whether the catalog of a component called `name` is known.
    pub open spec fn knows(self, name: Seq<char>) -> bool {
        self.catalog_index(name) < self.catalogs.len()
    }

    /// The catalog of the component called `name`.
    pub open spec fn catalog(self, name: Seq<char>) -> Catalog
        recommends
            self.knows(name),
    {
        self.catalogs[self.catalog_index(name)].catalog
    }

    /// No two catalogs stand under one name, and no two component entries
    /// share a name.
    pub open spec fn well_formed(self) -> bool {
        &&& forall|i: int, j: int|
            0 <= i < j < self.catalogs.len() ==> self.catalogs[i].name != self.catalogs[j].name
        &&& forall|i: int, j: int|
            0 <= i < j < self.components.len() ==> self.components[i].name
                != self.components[j].name
    }

    /// The catalogs after `catalog` was put under `name`: in the place of
    /// the one that stood there, or behind all others.
    pub open spec fn catalogs_with(self, name: Seq<char>, catalog: Catalog) -> Seq<
        CatalogEntryView,
    > {
        let entry = CatalogEntryView { name, catalog };
        if self.knows(name) {
            self.catalogs.update(self.catalog_index(name), entry)
        } else {
            self.catalogs.push(entry)
        }
    }

    /// The component entries after the component `name` was given the
    /// binary location `location`: the entry of that name with its location
    /// replaced, or a new entry behind all others.
    pub open spec fn components_with(self, name: Seq<char>, location: Seq<char>) -> Seq<
        ComponentView,
    > {
        if self.component_exists(name) {
            let i = self.component_index(name);
            self.components.update(i, relocated(self.components[i], location))
        } else {
            self.components.push(fresh_component(name, location))
        }
    }

    /// The graph after the component `name` with the catalog `catalog` and
    /// the binary location `location` was merged into it.
    pub open spec fn merged(self, name: Seq<char>, catalog: Catalog, location: Seq<char>)
        -> GraphView {
        GraphView {
            components: self.components_with(name, location),
            catalogs: self.catalogs_with(name, catalog),
            links: self.links + new_links(name, catalog.imports),
            ..self
        }
    }
}

/// The entry `c` with its binary location replaced by `location`. Only the
/// entry of a component has its location replaced; that of a capability
/// provider stays as it is.
pub open spec fn relocated(c: ComponentView, location: Seq<char>) -> ComponentView {
    match c.properties {
        PropertiesView::Component { properties } => ComponentView {
            properties: PropertiesView::Component {
                properties: ComponentPropertiesView { image: Some(location), ..properties },
            },
            ..c
        },
        PropertiesView::Capability { .. } => c,
    }
}

/// The entry of a component that was not known before: default deployment
/// properties and an empty trait list.
pub open spec fn fresh_component(name: Seq<char>, location: Seq<char>) -> ComponentView {
    ComponentView {
        name,
        properties: PropertiesView::Component {
            properties: ComponentPropertiesView {
                image: Some(location),
                application: None,
                id: Some(name),
                config: Seq::empty(),
                secrets: Seq::empty(),
            },
        },
        traits: Some(Seq::empty()),
    }
}

/// The pending link by which `source` asks for the interface `t`.
pub open spec fn pending_link(source: Seq<char>, t: InterfaceTriple) -> LinkView {
    LinkView {
        source,
        target: None,
        interfaces: seq![t.name],
        namespace: t.namespace,
        package: t.package,
    }
}

/// The link, if any, that an import gives rise to: none for an interface
/// that the runtime provides.
pub open spec fn link_for_import(source: Seq<char>, t: InterfaceTriple) -> Option<LinkView> {
    if runtime_interface(t) {
        None
    } else {
        Some(pending_link(source, t))
    }
}

/// The links that the imports of `source` give rise to, in the order of the
/// imports.
pub open spec fn new_links(source: Seq<char>, imports: Seq<InterfaceTriple>) -> Seq<LinkView> {
    present(Seq::new(imports.len(), |i: int| link_for_import(source, imports[i])))
}

/// The registry of an application under construction: the component entries
/// and policies of its description, the interface catalog of every known
/// component, and the links between them.
#[derive(Debug)]
pub struct ConstructorManifest {
    pub api_version: Option<String>,
    pub kind: Option<String>,
    pub metadata: Option<Metadata>,
    pub spec: Specification,
    /// The catalog of every known component, in the order in which the
    /// components first came.
    pub component_interfaces: Vec<CatalogEntry>,
    /// One link for each import that needs a provider.
    pub link_constructors: Vec<LinkConstructor>,
}

impl View for ConstructorManifest {
    type V = GraphView;

    open spec fn view(&self) -> GraphView {
        GraphView {
            api_version: self.api_version.deep_view(),
            kind: self.kind.deep_view(),
            metadata: self.metadata.deep_view(),
            components: self.spec.components.deep_view(),
            policies: self.spec.policies.deep_view(),
            catalogs: self.component_interfaces.deep_view(),
            links: self.link_constructors.deep_view(),
        }
    }
}

impl ConstructorManifest {
    /// Creates a registry that holds nothing.
    pub fn new() -> (r: Self)
        ensures
            r@ == GraphView::empty(),
    {
        let r = ConstructorManifest {
            api_version: None,
            kind: None,
            metadata: None,
            spec: Specification { components: Vec::new(), policies: Vec::new() },
            component_interfaces: Vec::new(),
            link_constructors: Vec::new(),
        };
        assert(r@.components =~= Seq::empty());
        assert(r@.policies =~= Seq::empty());
        assert(r@.catalogs =~= Seq::empty());
        assert(r@.links =~= Seq::empty());
        r
    }

    /// The place of the first component entry called `name`, or the number
    /// of entries if there is none.
    pub fn component_position(&self, name: &str) -> (i: usize)
        ensures
            i == self@.component_index(name@),
            i <= self.spec.components.len(),
    {
        let ghost flags = self@.component_flags(name@);
        let mut i: usize = 0;
        while i < self.spec.components.len()
            invariant
                i <= self.spec.components.len(),
                flags == self@.component_flags(name@),
                flags.len() == self.spec.components.len(),
                forall|j: int| 0 <= j < flags.len() ==> flags[j] == (self.spec.components[j].name@
                    == name@),
                forall|j: int| 0 <= j < i ==> !flags[j],
            decreases self.spec.components.len() - i,
        {
            if same_text(self.spec.components[i].name.as_str(), name) {
                proof {
                    lemma_first_true_is(flags, i as int);
                }
                return i;
            }
            i += 1;
        }
        proof {
            lemma_first_true_is(flags, i as int);
        }
        i
    }

    /// The place of the first catalog under `name`, or the number of
    /// catalogs if there is none.
    pub fn catalog_position(&self, name: &str) -> (i: usize)
        ensures
            i == self@.catalog_index(name@),
            i <= self.component_interfaces.len(),
    {
        let ghost flags = self@.catalog_flags(name@);
        let mut i: usize = 0;
        while i < self.component_interfaces.len()
            invariant
                i <= self.component_interfaces.len(),
                flags == self@.catalog_flags(name@),
                flags.len() == self.component_interfaces.len(),
                forall|j: int| 0 <= j < flags.len() ==> flags[j] == (
                self.component_interfaces[j].name@ == name@),
                forall|j: int| 0 <= j < i ==> !flags[j],
            decreases self.component_interfaces.len() - i,
        {
            if same_text(self.component_interfaces[i].name.as_str(), name) {
                proof {
                    lemma_first_true_is(flags, i as int);
                }
                return i;
            }
            i += 1;
        }
        proof {
            lemma_first_true_is(flags, i as int);
        }
        i
    }

    /// Whether a component entry called `name` exists.
    pub fn component_exists(&self, name: &str) -> (r: bool)
        ensures
            r == self@.component_exists(name@),
    {
        self.component_position(name) < self.spec.components.len()
    }

    /// The first component entry called `name`, if there is one.
    pub fn get_component(&self, name: &str) -> (r: Option<&Component>)
        ensures
            match r {
                Some(c) => self@.component_exists(name@) && c@ == self@.components[self@.component_index(
                    name@,
                )],
                None => !self@.component_exists(name@),
            },
    {
        let i = self.component_position(name);
        if i < self.spec.components.len() {
            Some(&self.spec.components[i])
        } else {
            None
        }
    }
}

impl ConstructorManifest {
    /// Puts `info` under `name` among the catalogs: in the place of the
    /// catalog that stood there, or behind all others.
    fn store_catalog(&mut self, name: &String, info: &ComponentInfo)
        ensures
            final(self)@ == (GraphView {
                catalogs: old(self)@.catalogs_with(name@, info@),
                ..old(self)@
            }),
    {
        let i = self.catalog_position(name.as_str());
        let entry = CatalogEntry { name: name.clone(), info: info.clone() };
        if i < self.component_interfaces.len() {
            self.component_interfaces.set(i, entry);
        } else {
            self.component_interfaces.push(entry);
        }
        assert(self@.catalogs =~= old(self)@.catalogs_with(name@, info@));
    }

    /// Gives the component `name` the binary location `location`: in its
    /// entry where it has one, in a new entry otherwise.
    fn store_component(&mut self, name: &String, location: &String)
        ensures
            final(self)@ == (GraphView {
                components: old(self)@.components_with(name@, location@),
                ..old(self)@
            }),
    {
        let i = self.component_position(name.as_str());
        if i < self.spec.components.len() {
            let Component { name: entry_name, properties, traits } =
                self.spec.components[i].clone();
            let properties = match properties {
                Properties::Component { properties } => Properties::Component {
                    properties: ComponentProperties {
                        image: Some(location.clone()),
                        application: properties.application,
                        id: properties.id,
                        config: properties.config,
                        secrets: properties.secrets,
                    },
                },
                Properties::Capability { properties } => Properties::Capability { properties },
            };
            let entry = Component { name: entry_name, properties, traits };
            self.spec.components.set(i, entry);
        } else {
            let entry = Component {
                name: name.clone(),
                properties: Properties::Component {
                    properties: ComponentProperties {
                        image: Some(location.clone()),
                        application: None,
                        id: Some(name.clone()),
                        config: Vec::new(),
                        secrets: Vec::new(),
                    },
                },
                traits: Some(Vec::new()),
            };
            proof {
                let p = entry.properties->Component_properties;
                assert(p@.config =~= Seq::empty());
                assert(p@.secrets =~= Seq::empty());
                assert(entry@.traits->Some_0 =~= Seq::empty());
            }
            self.spec.components.push(entry);
        }
        assert(self@.components =~= old(self)@.components_with(name@, location@));
    }

    /// Merges a component into the registry. Its catalog takes the place of
    /// any catalog that stood under its name. Its entry gets the binary
    /// location `file_path`; a component without an entry gets a new one with
    /// default deployment properties and no traits. Each import that the
    /// runtime does not provide adds one pending link, in the order of the
    /// imports. Merging the same component twice adds its links twice.
    pub fn merge_component_info(&mut self, name: String, info: ComponentInfo, file_path: String)
        -> (r: Result<(), String>)
        ensures
            r is Ok,
            final(self)@ == old(self)@.merged(name@, info@, file_path@),
    {
        self.store_catalog(&name, &info);
        self.store_component(&name, &file_path);
        let ghost options = Seq::new(
            info@.imports.len(),
            |i: int| link_for_import(name@, info@.imports[i]),
        );
        let mut i: usize = 0;
        while i < info.imports.len()
            invariant
                i <= info.imports.len(),
                options == Seq::new(
                    info@.imports.len(),
                    |i: int| link_for_import(name@, info@.imports[i]),
                ),
                self@ == (GraphView {
                    components: old(self)@.components_with(name@, file_path@),
                    catalogs: old(self)@.catalogs_with(name@, info@),
                    links: old(self)@.links + present(options.take(i as int)),
                    ..old(self)@
                }),
            decreases info.imports.len() - i,
        {
            let import = &info.imports[i];
            let ghost before = self@.links;
            if !is_runtime_interface(
                import.namespace.as_str(),
                import.package.as_str(),
                import.name.as_str(),
            ) {
                let mut interfaces: Vec<String> = Vec::new();
                interfaces.push(import.name.clone());
                let link = LinkConstructor {
                    pre_component_id: name.clone(),
                    post_component_id: None,
                    interfaces,
                    namespace: import.namespace.clone(),
                    package: import.package.clone(),
                };
                assert(link@.interfaces =~= seq![import.name@]);
                self.link_constructors.push(link);
                assert(self@.links =~= before.push(pending_link(name@, import@)));
            }
            proof {
                assert(options.take(i as int + 1) =~= options.take(i as int).push(
                    options[i as int],
                ));
                lemma_present_push(options.take(i as int), options[i as int]);
            }
            i += 1;
        }
        proof {
            assert(options.take(i as int) =~= options);
        }
        Ok(())
    }
}

} // verus!
