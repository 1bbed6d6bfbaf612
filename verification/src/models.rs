//! The data of components: their interfaces, their catalogs, and how a list
//! of components declares them.

use vstd::prelude::*;
use vstd::std_specs::cmp::PartialEqSpecImpl;
use vstd::string::StringExecFns;

pub mod source_file_format;
pub mod source_oci_format;

verus! {

/// The mathematical identity of an interface: namespace, package and name.
/// Two interfaces are the same exactly when their triples are equal.
pub struct InterfaceTriple {
    pub namespace: Seq<char>,
    pub package: Seq<char>,
    pub name: Seq<char>,
}

/// The mathematical content of a package identity.
pub struct PackageId {
    pub namespace: Seq<char>,
    pub name: Seq<char>,
}

/// The mathematical content of a component's interface catalog.
pub struct Catalog {
    pub imports: Seq<InterfaceTriple>,
    pub exports: Seq<InterfaceTriple>,
    pub package: Option<PackageId>,
}

/// One interface that a component imports or exports.
#[derive(Debug)]
pub struct InterfaceInfo {
    pub name: String,
    pub namespace: String,
    pub package: String,
}

impl View for InterfaceInfo {
    type V = InterfaceTriple;

    open spec fn view(&self) -> InterfaceTriple {
        InterfaceTriple { namespace: self.namespace@, package: self.package@, name: self.name@ }
    }
}

impl DeepView for InterfaceInfo {
    type V = InterfaceTriple;

    open spec fn deep_view(&self) -> InterfaceTriple {
        self@
    }
}

impl Clone for InterfaceInfo {
    fn clone(&self) -> (r: Self)
        ensures
            r@ == self@,
    {
        InterfaceInfo {
            name: self.name.clone(),
            namespace: self.namespace.clone(),
            package: self.package.clone(),
        }
    }
}

/// The package that owns a component.
#[derive(Debug)]
pub struct PackageInfo {
    pub namespace: String,
    pub name: String,
}

impl View for PackageInfo {
    type V = PackageId;

    open spec fn view(&self) -> PackageId {
        PackageId { namespace: self.namespace@, name: self.name@ }
    }
}

impl DeepView for PackageInfo {
    type V = PackageId;

    open spec fn deep_view(&self) -> PackageId {
        self@
    }
}

impl Clone for PackageInfo {
    fn clone(&self) -> (r: Self)
        ensures
            r@ == self@,
    {
        PackageInfo { namespace: self.namespace.clone(), name: self.name.clone() }
    }
}

/// The full interface catalog of one component: what it requires, what it
/// provides, and the package that owns it, if known.
#[derive(Debug)]
pub struct ComponentInfo {
    pub imports: Vec<InterfaceInfo>,
    pub exports: Vec<InterfaceInfo>,
    pub package: Option<PackageInfo>,
}

impl View for ComponentInfo {
    type V = Catalog;

    open spec fn view(&self) -> Catalog {
        Catalog {
            imports: self.imports.deep_view(),
            exports: self.exports.deep_view(),
            package: self.package.deep_view(),
        }
    }
}

impl DeepView for ComponentInfo {
    type V = Catalog;

    open spec fn deep_view(&self) -> Catalog {
        self@
    }
}

impl Clone for ComponentInfo {
    fn clone(&self) -> (r: Self)
        ensures
            r@ == self@,
    {
        let package = match &self.package {
            Some(p) => Some(p.clone()),
            None => None,
        };
        ComponentInfo {
            imports: self.imports.clone(),
            exports: self.exports.clone(),
            package,
        }
    }
}

/// Whether a component requires an interface or provides it.
#[derive(Clone, Copy, Hash, PartialEq, Eq, Structural, Debug)]
pub enum Direction {
    Import,
    Export,
}

impl Direction {
    /// The other direction.
    pub open spec fn flipped(&self) -> Direction {
        match *self {
            Direction::Import => Direction::Export,
            Direction::Export => Direction::Import,
        }
    }

    /// The other direction: an import is met by an export, and an export
    /// by an import.
    #[verifier::when_used_as_spec(flipped)]
    pub fn opposite(&self) -> (r: Self)
        ensures
            r == self.flipped(),
    {
        match self {
            Direction::Import => Direction::Export,
            Direction::Export => Direction::Import,
        }
    }
}

/// The identity of an interface, as executable data.
#[derive(Debug, Hash, Eq)]
pub struct InterfaceIdentifier {
    pub name: String,
    pub namespace: String,
    pub package: String,
}

impl View for InterfaceIdentifier {
    type V = InterfaceTriple;

    open spec fn view(&self) -> InterfaceTriple {
        InterfaceTriple { namespace: self.namespace@, package: self.package@, name: self.name@ }
    }
}

impl DeepView for InterfaceIdentifier {
    type V = InterfaceTriple;

    open spec fn deep_view(&self) -> InterfaceTriple {
        self@
    }
}

impl Clone for InterfaceIdentifier {
    fn clone(&self) -> (r: Self)
        ensures
            r@ == self@,
    {
        InterfaceIdentifier {
            name: self.name.clone(),
            namespace: self.namespace.clone(),
            package: self.package.clone(),
        }
    }
}

impl PartialEq for InterfaceIdentifier {
    fn eq(&self, other: &Self) -> (r: bool) {
        self.name == other.name && self.namespace == other.namespace && self.package
            == other.package
    }
}

impl PartialEqSpecImpl for InterfaceIdentifier {
    open spec fn obeys_eq_spec() -> bool {
        true
    }

    open spec fn eq_spec(&self, other: &Self) -> bool {
        self.name@ == other.name@ && self.namespace@ == other.namespace@ && self.package@
            == other.package@
    }
}

/// The mathematical content of an [`InterfaceRequirement`].
pub struct RequirementView {
    pub identifier: InterfaceTriple,
    pub direction: Direction,
    pub component: Seq<char>,
}

/// An interface that a component declares: one that it needs, if the
/// direction is import, or one that it offers, if the direction is export.
#[derive(Debug)]
pub struct InterfaceRequirement {
    pub identifier: InterfaceIdentifier,
    pub direction: Direction,
    pub component: String,
}

impl View for InterfaceRequirement {
    type V = RequirementView;

    open spec fn view(&self) -> RequirementView {
        RequirementView {
            identifier: self.identifier@,
            direction: self.direction,
            component: self.component@,
        }
    }
}

impl DeepView for InterfaceRequirement {
    type V = RequirementView;

    open spec fn deep_view(&self) -> RequirementView {
        self@
    }
}

impl Clone for InterfaceRequirement {
    fn clone(&self) -> (r: Self)
        ensures
            r@ == self@,
    {
        InterfaceRequirement {
            identifier: self.identifier.clone(),
            direction: self.direction,
            component: self.component.clone(),
        }
    }
}

impl InterfaceRequirement {
    /// Makes the requirement of `component` for, or its offer of, the
    /// interface `(namespace, package, name)`.
    pub fn new(
        name: String,
        namespace: String,
        package: String,
        direction: Direction,
        component: String,
    ) -> (r: Self)
        ensures
            r@ == (RequirementView {
                identifier: InterfaceTriple {
                    namespace: namespace@,
                    package: package@,
                    name: name@,
                },
                direction,
                component: component@,
            }),
    {
        InterfaceRequirement {
            identifier: InterfaceIdentifier { name, namespace, package },
            direction,
            component,
        }
    }
}

/// The mathematical content of a [`Source`].
pub enum SourceView {
    File { path: Seq<char> },
    OCI { reference: Seq<char> },
}

/// Where the binary of a component comes from: a file, or a registry.
#[derive(Debug)]
pub enum Source {
    File { path: String },
    OCI { reference: String },
}

impl View for Source {
    type V = SourceView;

    open spec fn view(&self) -> SourceView {
        match self {
            Source::File { path } => SourceView::File { path: path@ },
            Source::OCI { reference } => SourceView::OCI { reference: reference@ },
        }
    }
}

impl DeepView for Source {
    type V = SourceView;

    open spec fn deep_view(&self) -> SourceView {
        self@
    }
}

impl Clone for Source {
    fn clone(&self) -> (r: Self)
        ensures
            r@ == self@,
    {
        match self {
            Source::File { path } => Source::File { path: path.clone() },
            Source::OCI { reference } => Source::OCI { reference: reference.clone() },
        }
    }
}

/// The mathematical content of an [`Entity`].
pub struct EntityView {
    pub name: Seq<char>,
    pub source: Option<SourceView>,
}

impl EntityView {
    /// The path of the entity's binary: that of its file; the conventional
    /// place of the build output where it names no source; and the empty
    /// path for an entity from a registry, which has no file.
    pub open spec fn source_path(self) -> Seq<char> {
        match self.source {
            Some(SourceView::File { path }) => path,
            Some(SourceView::OCI { .. }) => Seq::empty(),
            None => "./"@ + self.name + "/build/*.wasm"@,
        }
    }
}

/// A component as a list of components declares it: its name, and where
/// its binary comes from.
#[derive(Debug)]
pub struct Entity {
    pub name: String,
    pub source: Option<Source>,
}

impl View for Entity {
    type V = EntityView;

    open spec fn view(&self) -> EntityView {
        EntityView { name: self.name@, source: self.source.deep_view() }
    }
}

impl DeepView for Entity {
    type V = EntityView;

    open spec fn deep_view(&self) -> EntityView {
        self@
    }
}

impl Clone for Entity {
    fn clone(&self) -> (r: Self)
        ensures
            r@ == self@,
    {
        Entity { name: self.name.clone(), source: self.source.clone() }
    }
}

impl Entity {
    /// The path of the entity's binary: that of its file; the conventional
    /// place of the build output where it names no source; and the empty
    /// path for an entity from a registry.
    pub fn get_source(&self) -> (r: String)
        ensures
            r@ == self@.source_path(),
    {
        match &self.source {
            Some(Source::File { path }) => path.clone(),
            Some(Source::OCI { .. }) => String::new(),
            None => String::from_str("./").concat(self.name.as_str()).concat("/build/*.wasm"),
        }
    }
}

/// A list of components, as its file declares them.
#[derive(Debug)]
pub struct ComponentsConfig {
    pub entities: Vec<Entity>,
}

impl View for ComponentsConfig {
    type V = Seq<EntityView>;

    open spec fn view(&self) -> Seq<EntityView> {
        self.entities.deep_view()
    }
}

impl Clone for ComponentsConfig {
    fn clone(&self) -> (r: Self)
        ensures
            r@ == self@,
    {
        ComponentsConfig { entities: self.entities.clone() }
    }
}

} // verus!
