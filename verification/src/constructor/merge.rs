//! Folding a deployment description into the registry: entries of known
//! components pin links, entries of new components are merged.

use crate::constructor::link::{LinkConstructor, LinkView};
use crate::constructor::validation::{lists_interface, triple_text, ValidationError};
use crate::constructor::{ConstructorManifest, GraphView};
use crate::decode::{binary_catalog, read_catalog, Binary, BinaryView};
use crate::description::{
    Component, ComponentView, LinkProperty, LinkPropertyView, Manifest, ManifestView, Properties,
    PropertiesView, Trait, TraitProperty, TraitPropertyView, TraitView,
};
use crate::models::{
    Catalog, ComponentInfo, InterfaceInfo, InterfaceTriple, PackageId, PackageInfo,
};
use crate::seqs::{first_true, lemma_first_true_is};
use crate::text::{same_text, same_texts, trim_start, trim_start_matches};
use vstd::prelude::*;
use vstd::string::StringExecFns;

verus! {

/// What a merge arrives at: the graph as it then stands, and the message of
/// the error that stopped the merge, if one did.
pub struct Outcome {
    pub graph: GraphView,
    pub error: Option<Seq<char>>,
}

/// The catalog of the HTTP server provider, which is known without a
/// binary: it imports the incoming handler and exports the outgoing one.
pub open spec fn http_server_catalog() -> Catalog {
    Catalog {
        imports: seq![
            InterfaceTriple {
                namespace: "wasi"@,
                package: "http"@,
                name: "incoming-handler"@,
            },
        ],
        exports: seq![
            InterfaceTriple {
                namespace: "wasi"@,
                package: "http"@,
                name: "outgoing-handler"@,
            },
        ],
        package: Some(PackageId { namespace: "wasmcloud"@, name: "httpserver"@ }),
    }
}

/// The interface that a link trait is for: the first of its list, with its
/// namespace and package. A trait without interfaces is for the interface
/// with the empty name.
pub open spec fn asked_triple(p: LinkPropertyView) -> InterfaceTriple {
    InterfaceTriple {
        namespace: p.namespace,
        package: p.package,
        name: if p.interfaces.len() > 0 {
            p.interfaces[0]
        } else {
            Seq::empty()
        },
    }
}

/// The message for a link trait on a component that does not import the
/// trait's interface.
pub open spec fn not_imported_message(component: Seq<char>, p: LinkPropertyView) -> Seq<char> {
    "Component "@ + component + " does not import interface "@ + triple_text(asked_triple(p))
}

/// The binary location that an image reference stands for: the reference
/// without its leading `file://`.
pub open spec fn image_location(image: Seq<char>) -> Seq<char> {
    trim_start(image, "file://"@)
}

/// The image of the properties, or the empty text where there is none.
pub open spec fn image_or_empty(p: PropertiesView) -> Seq<char> {
    match p.image() {
        Some(i) => i,
        None => Seq::empty(),
    }
}

impl GraphView {
    /// For each link, whether the link trait `p` on the component `source`
    /// speaks of it: same source, same interface list, same namespace and
    /// package.
    pub open spec fn pin_flags(self, source: Seq<char>, p: LinkPropertyView) -> Seq<bool> {
        Seq::new(
            self.links.len(),
            |i: int|
                self.links[i].source == source && self.links[i].interfaces == p.interfaces
                    && self.links[i].namespace == p.namespace && self.links[i].package
                    == p.package,
        )
    }

    /// The graph after the link trait `p` on the component `source` has pinned
    /// its link: the first link that the trait speaks of has the trait's
    /// target. Where it speaks of none, nothing changes.
    pub open spec fn pinned(self, source: Seq<char>, p: LinkPropertyView) -> GraphView {
        let k = first_true(self.pin_flags(source, p));
        if k < self.links.len() {
            GraphView {
                links: self.links.update(
                    k,
                    LinkView { target: Some(p.target.name), ..self.links[k] },
                ),
                ..self
            }
        } else {
            self
        }
    }

    /// Folds one trait of the known component `source` into the graph. Only a
    /// link trait on a component with a catalog matters: its interface must
    /// be one of the component's imports, else the merge stops with an
    /// error; then it pins its link.
    pub open spec fn with_pin(self, source: Seq<char>, t: TraitView) -> Outcome {
        match t.properties {
            TraitPropertyView::Link(p) => if t.trait_type == "link"@ && self.knows(source) {
                if p.interfaces.len() > 0 && self.catalog(source).imports.contains(
                    asked_triple(p),
                ) {
                    Outcome { graph: self.pinned(source, p), error: None }
                } else {
                    Outcome { graph: self, error: Some(not_imported_message(source, p)) }
                }
            } else {
                Outcome { graph: self, error: None }
            },
            _ => Outcome { graph: self, error: None },
        }
    }

    /// Folds the traits of the known component `source` into the graph, in
    /// order, up to the first that stops the merge.
    pub open spec fn with_pins(self, source: Seq<char>, traits: Seq<TraitView>) -> Outcome
        decreases traits.len(),
    {
        if traits.len() == 0 {
            Outcome { graph: self, error: None }
        } else {
            let before = self.with_pins(source, traits.drop_last());
            if before.error is Some {
                before
            } else {
                before.graph.with_pin(source, traits.last())
            }
        }
    }

    /// Whether the entry `c` of a description needs its binary decoded: its
    /// component has no entry in the graph yet, and it names an image.
    pub open spec fn wants_binary(self, c: ComponentView) -> bool {
        !self.component_exists(c.name) && c.properties is Component && c.properties.image()
            is Some
    }

    /// Folds one entry of a description into the graph. An entry of a
    /// component that the graph has an entry for only pins links. An entry
    /// of another component that names an image is merged with the catalog
    /// `decoded` that its binary gave, and left out where the binary gave
    /// none. The HTTP server provider is merged with its known catalog.
    /// Every other entry is left out.
    pub open spec fn with_entry(self, c: ComponentView, decoded: Option<Catalog>) -> Outcome {
        if self.component_exists(c.name) {
            match c.traits {
                Some(traits) => self.with_pins(c.name, traits),
                None => Outcome { graph: self, error: None },
            }
        } else {
            Outcome {
                graph: match c.properties {
                    PropertiesView::Component { properties } => match (properties.image, decoded) {
                        (Some(image), Some(catalog)) => self.merged(
                            c.name,
                            catalog,
                            image_location(image),
                        ),
                        _ => self,
                    },
                    PropertiesView::Capability { properties } => if c.name == "httpserver"@ {
                        self.merged(c.name, http_server_catalog(), image_or_empty(c.properties))
                    } else {
                        self
                    },
                },
                error: None,
            }
        }
    }

    /// Folds the entries of a description into the graph, in order, up to
    /// the first that stops the merge. `decoded` holds, at the place of each
    /// entry, the catalog that the entry's binary gave, if any.
    pub open spec fn with_entries(
        self,
        entries: Seq<ComponentView>,
        decoded: Seq<Option<Catalog>>,
    ) -> Outcome
        decreases entries.len(),
    {
        if entries.len() == 0 {
            Outcome { graph: self, error: None }
        } else {
            let before = self.with_entries(entries.drop_last(), decoded);
            if before.error is Some {
                before
            } else {
                before.graph.with_entry(entries.last(), catalog_at(decoded, entries.len() - 1))
            }
        }
    }

    /// The graph with the version, kind and metadata of the description
    /// `m`, each only where the graph has none of its own.
    pub open spec fn adopting(self, m: ManifestView) -> GraphView {
        GraphView {
            api_version: if self.api_version is None {
                Some(m.api_version)
            } else {
                self.api_version
            },
            kind: if self.kind is None {
                Some(m.kind)
            } else {
                self.kind
            },
            metadata: if self.metadata is None {
                Some(m.metadata)
            } else {
                self.metadata
            },
            ..self
        }
    }

    /// Folds a whole description into the graph: its version, kind and
    /// metadata where the graph has none, then its entries in order, then
    /// its policies behind those of the graph. A merge that an entry stops
    /// leaves the policies out.
    pub open spec fn with_description(self, m: ManifestView, decoded: Seq<Option<Catalog>>)
        -> Outcome {
        let after = self.adopting(m).with_entries(m.spec.components, decoded);
        if after.error is Some {
            after
        } else {
            Outcome {
                graph: GraphView {
                    policies: after.graph.policies + m.spec.policies,
                    ..after.graph
                },
                error: None,
            }
        }
    }
}

/// The catalog at place `i` of `decoded`, or none where `decoded` is too
/// short.
pub open spec fn catalog_at(decoded: Seq<Option<Catalog>>, i: int) -> Option<Catalog> {
    if 0 <= i < decoded.len() {
        decoded[i]
    } else {
        None
    }
}

/// The catalog of the HTTP server provider.
pub fn known_http_server() -> (r: ComponentInfo)
    ensures
        r@ == http_server_catalog(),
{
    let mut imports: Vec<InterfaceInfo> = Vec::new();
    imports.push(
        InterfaceInfo {
            name: String::from_str("incoming-handler"),
            namespace: String::from_str("wasi"),
            package: String::from_str("http"),
        },
    );
    let mut exports: Vec<InterfaceInfo> = Vec::new();
    exports.push(
        InterfaceInfo {
            name: String::from_str("outgoing-handler"),
            namespace: String::from_str("wasi"),
            package: String::from_str("http"),
        },
    );
    let r = ComponentInfo {
        imports,
        exports,
        package: Some(
            PackageInfo {
                namespace: String::from_str("wasmcloud"),
                name: String::from_str("httpserver"),
            },
        ),
    };
    assert(r@.imports =~= http_server_catalog().imports);
    assert(r@.exports =~= http_server_catalog().exports);
    r
}

impl ConstructorManifest {
    /// Pins the link that the link trait `p` on the component `source`
    /// speaks of: the first link with that source, interface list, namespace
    /// and package gets the trait's target.
    pub fn pin_link(&mut self, source: &str, p: &LinkProperty)
        ensures
            final(self)@ == old(self)@.pinned(source@, p@),
    {
        let ghost flags = self@.pin_flags(source@, p@);
        let mut k: usize = 0;
        let mut found = false;
        while k < self.link_constructors.len() && !found
            invariant
                k <= self.link_constructors.len(),
                self@ == old(self)@,
                flags == self@.pin_flags(source@, p@),
                forall|j: int| 0 <= j < k ==> !flags[j],
                found ==> k < self.link_constructors.len() && flags[k as int],
            decreases self.link_constructors.len() - k, (if found { 0int } else { 1int }),
        {
            let l = &self.link_constructors[k];
            if same_text(l.pre_component_id.as_str(), source) && same_texts(
                &l.interfaces,
                &p.interfaces,
            ) && same_text(l.namespace.as_str(), p.namespace.as_str()) && same_text(
                l.package.as_str(),
                p.package.as_str(),
            ) {
                found = true;
            } else {
                k += 1;
            }
        }
        proof {
            lemma_first_true_is(flags, k as int);
        }
        if found {
            let l = &self.link_constructors[k];
            let interfaces = l.interfaces.clone();
            let pinned = LinkConstructor {
                pre_component_id: l.pre_component_id.clone(),
                post_component_id: Some(p.target.name.clone()),
                interfaces,
                namespace: l.namespace.clone(),
                package: l.package.clone(),
            };
            self.link_constructors.set(k, pinned);
            assert(self@.links =~= old(self)@.pinned(source@, p@).links);
        }
    }

    /// Folds one trait of the known component `source` into the registry.
    /// A link trait must be for an interface that the component imports;
    /// one that is not stops the merge with a component error.
    pub fn merge_trait(&mut self, source: &str, t: &Trait) -> (r: Result<(), ValidationError>)
        ensures
            final(self)@ == old(self)@.with_pin(source@, t@).graph,
            match r {
                Ok(_) => old(self)@.with_pin(source@, t@).error is None,
                Err(e) => old(self)@.with_pin(source@, t@).error == Some(e@->ComponentError_0)
                    && e@ is ComponentError,
            },
    {
        match &t.properties {
            TraitProperty::Link(p) => {
                if same_text(t.trait_type.as_str(), "link") {
                    let k = self.catalog_position(source);
                    if k < self.component_interfaces.len() {
                        let entry = &self.component_interfaces[k];
                        let mut imported = false;
                        if p.interfaces.len() > 0 {
                            imported = lists_interface(
                                &entry.info.imports,
                                p.namespace.as_str(),
                                p.package.as_str(),
                                p.interfaces[0].as_str(),
                            );
                        }
                        if !imported {
                            let empty = String::new();
                            let name: &String = if p.interfaces.len() > 0 {
                                &p.interfaces[0]
                            } else {
                                &empty
                            };
                            let message = String::from_str("Component ").concat(source).concat(
                                " does not import interface ",
                            ).concat(
                                String::from_str(p.namespace.as_str()).concat(":").concat(
                                    p.package.as_str(),
                                ).concat(":").concat(name.as_str()).as_str(),
                            );
                            return Err(ValidationError::ComponentError(message));
                        }
                        self.pin_link(source, p);
                    }
                }
                Ok(())
            },
            _ => Ok(()),
        }
    }

    /// Merges the HTTP server provider with the catalog that is known for
    /// it, under the entry's name and with the entry's image as its
    /// location. An entry of any other name is left out.
    pub fn process_known_provider(&mut self, component: &Component) -> (r: Result<(), String>)
        ensures
            r is Ok,
            final(self)@ == if component@.name == "httpserver"@ {
                old(self)@.merged(
                    component@.name,
                    http_server_catalog(),
                    image_or_empty(component@.properties),
                )
            } else {
                old(self)@
            },
    {
        if same_text(component.name.as_str(), "httpserver") {
            let image = match &component.properties {
                Properties::Component { properties } => &properties.image,
                Properties::Capability { properties } => &properties.image,
            };
            let location = match image {
                Some(i) => i.clone(),
                None => String::new(),
            };
            self.merge_component_info(component.name.clone(), known_http_server(), location)
        } else {
            Ok(())
        }
    }

    /// The image whose binary the entry `component` needs decoded, if it
    /// needs any: the entry must be of a component that has no entry in the
    /// registry yet, and must name an image.
    pub fn wanted_binary(&self, component: &Component) -> (r: Option<String>)
        ensures
            r is Some <==> self@.wants_binary(component@),
            r matches Some(location) ==> location@ == image_location(
                component@.properties.image()->Some_0,
            ),
    {
        if self.component_exists(component.name.as_str()) {
            return None;
        }
        match &component.properties {
            Properties::Component { properties } => match &properties.image {
                Some(image) => Some(trim_start_matches(image.as_str(), "file://")),
                None => None,
            },
            Properties::Capability { .. } => None,
        }
    }

    /// Folds one entry of a description into the registry. `decoded` is the
    /// catalog that the entry's binary gave, if it named one that could be
    /// decoded. An entry of a component that already has an entry only pins
    /// links, and stops the merge with a component error where a link trait
    /// is for an interface that the component does not import.
    pub fn merge_entry(&mut self, component: &Component, decoded: Option<ComponentInfo>) -> (r:
        Result<(), ValidationError>)
        ensures
            final(self)@ == old(self)@.with_entry(component@, decoded.deep_view()).graph,
            match r {
                Ok(_) => old(self)@.with_entry(component@, decoded.deep_view()).error is None,
                Err(e) => e@ is ComponentError && old(self)@.with_entry(
                    component@,
                    decoded.deep_view(),
                ).error == Some(e@->ComponentError_0),
            },
    {
        if self.component_exists(component.name.as_str()) {
            match &component.traits {
                Some(traits) => {
                    let mut i: usize = 0;
                    while i < traits.len()
                        invariant
                            i <= traits.len(),
                            old(self)@.component_exists(component@.name),
                            component@.traits == Some(traits.deep_view()),
                            old(self)@.with_pins(
                                component@.name,
                                traits.deep_view().take(i as int),
                            ) == (Outcome { graph: self@, error: None }),
                        decreases traits.len() - i,
                    {
                        proof {
                            assert(traits.deep_view().take(i as int + 1).drop_last()
                                =~= traits.deep_view().take(i as int));
                        }
                        match self.merge_trait(component.name.as_str(), &traits[i]) {
                            Ok(_) => {},
                            Err(e) => {
                                proof {
                                    lemma_pins_stop(
                                        old(self)@,
                                        component@.name,
                                        traits.deep_view(),
                                        i as int + 1,
                                    );
                                }
                                return Err(e);
                            },
                        }
                        i += 1;
                    }
                    assert(traits.deep_view().take(i as int) =~= traits.deep_view());
                    Ok(())
                },
                None => Ok(()),
            }
        } else {
            match &component.properties {
                Properties::Component { properties } => match (&properties.image, decoded) {
                    (Some(image), Some(info)) => {
                        let location = trim_start_matches(image.as_str(), "file://");
                        let _ = self.merge_component_info(component.name.clone(), info, location);
                    },
                    _ => {},
                },
                Properties::Capability { .. } => {
                    let _ = self.process_known_provider(component);
                },
            }
            Ok(())
        }
    }
}

/// Once the traits up to place `n` have stopped the merge, the whole list
/// stops it in the same way.
pub proof fn lemma_pins_stop(g: GraphView, source: Seq<char>, traits: Seq<TraitView>, n: int)
    requires
        0 <= n <= traits.len(),
        g.with_pins(source, traits.take(n)).error is Some,
    ensures
        g.with_pins(source, traits) == g.with_pins(source, traits.take(n)),
    decreases traits.len() - n,
{
    if n < traits.len() {
        assert(traits.take(n + 1).drop_last() =~= traits.take(n));
        lemma_pins_stop(g, source, traits, n + 1);
    } else {
        assert(traits.take(n) =~= traits);
    }
}

/// The catalog that the binary gives, if there is a binary and it gives
/// one.
pub open spec fn catalog_of_binary(binary: Option<BinaryView>) -> Option<Catalog> {
    match binary {
        Some(b) => binary_catalog(b),
        None => None,
    }
}

/// The catalogs that the binaries give, place by place.
pub open spec fn catalogs_of_binaries(binaries: Seq<Option<BinaryView>>) -> Seq<
    Option<Catalog>,
> {
    Seq::new(binaries.len(), |i: int| catalog_of_binary(binaries[i]))
}

/// Builds the catalog that each binary gives. A binary that gives none
/// leaves its place empty.
pub fn catalogs_from(binaries: &Vec<Option<Binary>>) -> (r: Vec<Option<ComponentInfo>>)
    ensures
        r.deep_view() == catalogs_of_binaries(binaries.deep_view()),
{
    let mut catalogs: Vec<Option<ComponentInfo>> = Vec::new();
    let mut i: usize = 0;
    while i < binaries.len()
        invariant
            i <= binaries.len(),
            catalogs.len() == i,
            forall|j: int|
                0 <= j < i ==> catalogs.deep_view()[j] == catalog_of_binary(
                    binaries.deep_view()[j],
                ),
        decreases binaries.len() - i,
    {
        let ghost before = catalogs.deep_view();
        let catalog = match &binaries[i] {
            Some(b) => read_catalog(b),
            None => None,
        };
        assert(binaries.deep_view()[i as int] == binaries[i as int].deep_view());
        catalogs.push(catalog);
        assert(catalogs.deep_view() =~= before.push(
            catalog_of_binary(binaries.deep_view()[i as int]),
        ));
        i += 1;
    }
    assert(catalogs.deep_view() =~= catalogs_of_binaries(binaries.deep_view()));
    catalogs
}

/// Once the entries up to place `n` have stopped the merge, the whole list
/// stops it in the same way.
pub proof fn lemma_entries_stop(
    g: GraphView,
    entries: Seq<ComponentView>,
    decoded: Seq<Option<Catalog>>,
    n: int,
)
    requires
        0 <= n <= entries.len(),
        g.with_entries(entries.take(n), decoded).error is Some,
    ensures
        g.with_entries(entries, decoded) == g.with_entries(entries.take(n), decoded),
    decreases entries.len() - n,
{
    if n < entries.len() {
        assert(entries.take(n + 1).drop_last() =~= entries.take(n));
        lemma_entries_stop(g, entries, decoded, n + 1);
    } else {
        assert(entries.take(n) =~= entries);
    }
}

impl ConstructorManifest {
    /// Takes the version, kind and metadata of a description, each only
    /// where the registry has none of its own. This is the first step of
    /// the merge of a description.
    pub fn adopt(&mut self, wadm: &Manifest)
        ensures
            final(self)@ == old(self)@.adopting(wadm@),
    {
        if self.metadata.is_none() {
            self.metadata = Some(wadm.metadata.clone());
        }
        if self.api_version.is_none() {
            self.api_version = Some(wadm.api_version.clone());
        }
        if self.kind.is_none() {
            self.kind = Some(wadm.kind.clone());
        }
    }

    /// Puts the policies of a description behind those of the registry.
    /// This is the last step of the merge of a description, which is taken
    /// only where no entry has stopped the merge.
    pub fn append_policies(&mut self, wadm: &Manifest)
        ensures
            final(self)@ == (GraphView {
                policies: old(self)@.policies + wadm@.spec.policies,
                ..old(self)@
            }),
    {
        let mut policies = wadm.spec.policies.clone();
        self.spec.policies.append(&mut policies);
        assert(self@.policies =~= old(self)@.policies + wadm@.spec.policies);
    }

    /// Folds a description into the registry, with the catalogs that the
    /// binaries of its entries gave: `catalogs` holds, at the place of each
    /// entry, the catalog of the entry's binary, if the entry named one
    /// that could be read and decoded. The description's version, kind and
    /// metadata are taken where the registry has none. Then each entry is
    /// folded in, in order. Last the policies are appended. A link trait
    /// for an interface that its component does not import stops the merge
    /// with a component error, before the policies are appended.
    pub fn merge_wadm_with(&mut self, wadm: &Manifest, catalogs: &Vec<Option<ComponentInfo>>) -> (r:
        Result<(), ValidationError>)
        ensures
            final(self)@ == old(self)@.with_description(wadm@, catalogs.deep_view()).graph,
            match r {
                Ok(_) => old(self)@.with_description(wadm@, catalogs.deep_view()).error is None,
                Err(e) => e@ is ComponentError && old(self)@.with_description(
                    wadm@,
                    catalogs.deep_view(),
                ).error == Some(e@->ComponentError_0),
            },
    {
        self.adopt(wadm);
        let ghost start = self@;
        let ghost entries = wadm@.spec.components;
        let mut i: usize = 0;
        while i < wadm.spec.components.len()
            invariant
                i <= wadm.spec.components.len(),
                entries == wadm@.spec.components,
                start == old(self)@.adopting(wadm@),
                start.with_entries(entries.take(i as int), catalogs.deep_view()) == (Outcome {
                    graph: self@,
                    error: None,
                }),
            decreases wadm.spec.components.len() - i,
        {
            let entry = &wadm.spec.components[i];
            let decoded = if i < catalogs.len() {
                catalogs[i].clone()
            } else {
                None
            };
            proof {
                assert(entries.take(i as int + 1).drop_last() =~= entries.take(i as int));
            }
            match self.merge_entry(entry, decoded) {
                Ok(_) => {},
                Err(e) => {
                    proof {
                        lemma_entries_stop(start, entries, catalogs.deep_view(), i as int + 1);
                    }
                    return Err(e);
                },
            }
            i += 1;
        }
        assert(entries.take(i as int) =~= entries);
        self.append_policies(wadm);
        Ok(())
    }

    /// Folds a description into the registry. `binaries` holds, at the
    /// place of each entry, the binary of the entry's image where it could
    /// be read. A binary that gives no catalog leaves its entry out and
    /// does not stop the merge. All else is as in
    /// [`ConstructorManifest::merge_wadm_with`].
    pub fn merge_wadm(&mut self, wadm: &Manifest, binaries: &Vec<Option<Binary>>) -> (r: Result<
        (),
        ValidationError,
    >)
        ensures
            final(self)@ == old(self)@.with_description(
                wadm@,
                catalogs_of_binaries(binaries.deep_view()),
            ).graph,
            match r {
                Ok(_) => old(self)@.with_description(
                    wadm@,
                    catalogs_of_binaries(binaries.deep_view()),
                ).error is None,
                Err(e) => e@ is ComponentError && old(self)@.with_description(
                    wadm@,
                    catalogs_of_binaries(binaries.deep_view()),
                ).error == Some(e@->ComponentError_0),
            },
    {
        let catalogs = catalogs_from(binaries);
        self.merge_wadm_with(wadm, &catalogs)
    }
}

} // verus!
