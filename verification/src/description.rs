//! The deployment description as this library holds it: the entries of an
//! application with their properties and traits, and its policies. Maps are
//! held as lists of entries.

use vstd::prelude::*;

verus! {

/// The mathematical content of an [`Entry`].
pub struct EntryView {
    pub key: Seq<char>,
    pub value: Seq<char>,
}

/// A key with its value, as the description's maps hold them.
#[derive(Debug, PartialEq, Eq)]
pub struct Entry {
    pub key: String,
    pub value: String,
}

impl View for Entry {
    type V = EntryView;

    open spec fn view(&self) -> EntryView {
        EntryView {
            key: self.key@,
            value: self.value@,
        }
    }
}

impl DeepView for Entry {
    type V = EntryView;

    open spec fn deep_view(&self) -> EntryView {
        self@
    }
}

impl Clone for Entry {
    fn clone(&self) -> (r: Self)
        ensures
            r@ == self@,
    {
        Entry {
            key: self.key.clone(),
            value: self.value.clone(),
        }
    }
}

/// The mathematical content of a [`ConfigProperty`].
pub struct ConfigPropertyView {
    pub name: Seq<char>,
    pub properties: Option<Seq<EntryView>>,
}

/// A named configuration, with its inline properties if it has any.
#[derive(Debug, PartialEq, Eq)]
pub struct ConfigProperty {
    pub name: String,
    pub properties: Option<Vec<Entry>>,
}

impl View for ConfigProperty {
    type V = ConfigPropertyView;

    open spec fn view(&self) -> ConfigPropertyView {
        ConfigPropertyView {
            name: self.name@,
            properties: self.properties.deep_view(),
        }
    }
}

impl DeepView for ConfigProperty {
    type V = ConfigPropertyView;

    open spec fn deep_view(&self) -> ConfigPropertyView {
        self@
    }
}

impl Clone for ConfigProperty {
    fn clone(&self) -> (r: Self)
        ensures
            r@ == self@,
    {
        ConfigProperty {
            name: self.name.clone(),
            properties: self.properties.clone(),
        }
    }
}

/// The mathematical content of a [`SecretSourceProperty`].
pub struct SecretSourcePropertyView {
    pub policy: Seq<char>,
    pub key: Seq<char>,
    pub field: Option<Seq<char>>,
    pub version: Option<Seq<char>>,
}

/// Where a secret comes from.
#[derive(Debug, PartialEq, Eq)]
pub struct SecretSourceProperty {
    pub policy: String,
    pub key: String,
    pub field: Option<String>,
    pub version: Option<String>,
}

impl View for SecretSourceProperty {
    type V = SecretSourcePropertyView;

    open spec fn view(&self) -> SecretSourcePropertyView {
        SecretSourcePropertyView {
            policy: self.policy@,
            key: self.key@,
            field: self.field.deep_view(),
            version: self.version.deep_view(),
        }
    }
}

impl DeepView for SecretSourceProperty {
    type V = SecretSourcePropertyView;

    open spec fn deep_view(&self) -> SecretSourcePropertyView {
        self@
    }
}

impl Clone for SecretSourceProperty {
    fn clone(&self) -> (r: Self)
        ensures
            r@ == self@,
    {
        SecretSourceProperty {
            policy: self.policy.clone(),
            key: self.key.clone(),
            field: self.field.clone(),
            version: self.version.clone(),
        }
    }
}

/// The mathematical content of a [`SecretProperty`].
pub struct SecretPropertyView {
    pub name: Seq<char>,
    pub properties: SecretSourcePropertyView,
}

/// A named secret and its source.
#[derive(Debug, PartialEq, Eq)]
pub struct SecretProperty {
    pub name: String,
    pub properties: SecretSourceProperty,
}

impl View for SecretProperty {
    type V = SecretPropertyView;

    open spec fn view(&self) -> SecretPropertyView {
        SecretPropertyView {
            name: self.name@,
            properties: self.properties.deep_view(),
        }
    }
}

impl DeepView for SecretProperty {
    type V = SecretPropertyView;

    open spec fn deep_view(&self) -> SecretPropertyView {
        self@
    }
}

impl Clone for SecretProperty {
    fn clone(&self) -> (r: Self)
        ensures
            r@ == self@,
    {
        SecretProperty {
            name: self.name.clone(),
            properties: self.properties.clone(),
        }
    }
}

/// The mathematical content of a [`SharedApplicationComponentProperties`].
pub struct SharedApplicationComponentPropertiesView {
    pub name: Seq<char>,
    pub component: Seq<char>,
}

/// A reference to a component of another, shared application.
#[derive(Debug, PartialEq, Eq)]
pub struct SharedApplicationComponentProperties {
    pub name: String,
    pub component: String,
}

impl View for SharedApplicationComponentProperties {
    type V = SharedApplicationComponentPropertiesView;

    open spec fn view(&self) -> SharedApplicationComponentPropertiesView {
        SharedApplicationComponentPropertiesView {
            name: self.name@,
            component: self.component@,
        }
    }
}

impl DeepView for SharedApplicationComponentProperties {
    type V = SharedApplicationComponentPropertiesView;

    open spec fn deep_view(&self) -> SharedApplicationComponentPropertiesView {
        self@
    }
}

impl Clone for SharedApplicationComponentProperties {
    fn clone(&self) -> (r: Self)
        ensures
            r@ == self@,
    {
        SharedApplicationComponentProperties {
            name: self.name.clone(),
            component: self.component.clone(),
        }
    }
}

/// The mathematical content of a [`ComponentProperties`].
pub struct ComponentPropertiesView {
    pub image: Option<Seq<char>>,
    pub application: Option<SharedApplicationComponentPropertiesView>,
    pub id: Option<Seq<char>>,
    pub config: Seq<ConfigPropertyView>,
    pub secrets: Seq<SecretPropertyView>,
}

/// The deployment properties of a component.
#[derive(Debug, PartialEq, Eq)]
pub struct ComponentProperties {
    pub image: Option<String>,
    pub application: Option<SharedApplicationComponentProperties>,
    pub id: Option<String>,
    pub config: Vec<ConfigProperty>,
    pub secrets: Vec<SecretProperty>,
}

impl View for ComponentProperties {
    type V = ComponentPropertiesView;

    open spec fn view(&self) -> ComponentPropertiesView {
        ComponentPropertiesView {
            image: self.image.deep_view(),
            application: self.application.deep_view(),
            id: self.id.deep_view(),
            config: self.config.deep_view(),
            secrets: self.secrets.deep_view(),
        }
    }
}

impl DeepView for ComponentProperties {
    type V = ComponentPropertiesView;

    open spec fn deep_view(&self) -> ComponentPropertiesView {
        self@
    }
}

impl Clone for ComponentProperties {
    fn clone(&self) -> (r: Self)
        ensures
            r@ == self@,
    {
        ComponentProperties {
            image: self.image.clone(),
            application: self.application.clone(),
            id: self.id.clone(),
            config: self.config.clone(),
            secrets: self.secrets.clone(),
        }
    }
}

/// The mathematical content of a [`CapabilityProperties`].
pub struct CapabilityPropertiesView {
    pub image: Option<Seq<char>>,
    pub application: Option<SharedApplicationComponentPropertiesView>,
    pub id: Option<Seq<char>>,
    pub config: Seq<ConfigPropertyView>,
    pub secrets: Seq<SecretPropertyView>,
}

/// The deployment properties of a capability provider.
#[derive(Debug, PartialEq, Eq)]
pub struct CapabilityProperties {
    pub image: Option<String>,
    pub application: Option<SharedApplicationComponentProperties>,
    pub id: Option<String>,
    pub config: Vec<ConfigProperty>,
    pub secrets: Vec<SecretProperty>,
}

impl View for CapabilityProperties {
    type V = CapabilityPropertiesView;

    open spec fn view(&self) -> CapabilityPropertiesView {
        CapabilityPropertiesView {
            image: self.image.deep_view(),
            application: self.application.deep_view(),
            id: self.id.deep_view(),
            config: self.config.deep_view(),
            secrets: self.secrets.deep_view(),
        }
    }
}

impl DeepView for CapabilityProperties {
    type V = CapabilityPropertiesView;

    open spec fn deep_view(&self) -> CapabilityPropertiesView {
        self@
    }
}

impl Clone for CapabilityProperties {
    fn clone(&self) -> (r: Self)
        ensures
            r@ == self@,
    {
        CapabilityProperties {
            image: self.image.clone(),
            application: self.application.clone(),
            id: self.id.clone(),
            config: self.config.clone(),
            secrets: self.secrets.clone(),
        }
    }
}

/// The mathematical content of a [`ConfigDefinition`].
pub struct ConfigDefinitionView {
    pub config: Seq<ConfigPropertyView>,
    pub secrets: Seq<SecretPropertyView>,
}

/// Configuration and secrets for one side of a link.
#[derive(Debug, PartialEq, Eq)]
pub struct ConfigDefinition {
    pub config: Vec<ConfigProperty>,
    pub secrets: Vec<SecretProperty>,
}

impl View for ConfigDefinition {
    type V = ConfigDefinitionView;

    open spec fn view(&self) -> ConfigDefinitionView {
        ConfigDefinitionView {
            config: self.config.deep_view(),
            secrets: self.secrets.deep_view(),
        }
    }
}

impl DeepView for ConfigDefinition {
    type V = ConfigDefinitionView;

    open spec fn deep_view(&self) -> ConfigDefinitionView {
        self@
    }
}

impl Clone for ConfigDefinition {
    fn clone(&self) -> (r: Self)
        ensures
            r@ == self@,
    {
        ConfigDefinition {
            config: self.config.clone(),
            secrets: self.secrets.clone(),
        }
    }
}

/// The mathematical content of a [`TargetConfig`].
pub struct TargetConfigView {
    pub name: Seq<char>,
    pub config: Seq<ConfigPropertyView>,
    pub secrets: Seq<SecretPropertyView>,
}

/// The target of a link: the component's name, with configuration and secrets.
#[derive(Debug, PartialEq, Eq)]
pub struct TargetConfig {
    pub name: String,
    pub config: Vec<ConfigProperty>,
    pub secrets: Vec<SecretProperty>,
}

impl View for TargetConfig {
    type V = TargetConfigView;

    open spec fn view(&self) -> TargetConfigView {
        TargetConfigView {
            name: self.name@,
            config: self.config.deep_view(),
            secrets: self.secrets.deep_view(),
        }
    }
}

impl DeepView for TargetConfig {
    type V = TargetConfigView;

    open spec fn deep_view(&self) -> TargetConfigView {
        self@
    }
}

impl Clone for TargetConfig {
    fn clone(&self) -> (r: Self)
        ensures
            r@ == self@,
    {
        TargetConfig {
            name: self.name.clone(),
            config: self.config.clone(),
            secrets: self.secrets.clone(),
        }
    }
}

/// The mathematical content of a [`LinkProperty`].
pub struct LinkPropertyView {
    pub namespace: Seq<char>,
    pub package: Seq<char>,
    pub interfaces: Seq<Seq<char>>,
    pub source: Option<ConfigDefinitionView>,
    pub target: TargetConfigView,
    pub name: Option<Seq<char>>,
    pub source_config: Option<Seq<ConfigPropertyView>>,
    pub target_config: Option<Seq<ConfigPropertyView>>,
}

/// The properties of a link trait.
#[derive(Debug, PartialEq, Eq)]
pub struct LinkProperty {
    pub namespace: String,
    pub package: String,
    pub interfaces: Vec<String>,
    pub source: Option<ConfigDefinition>,
    pub target: TargetConfig,
    pub name: Option<String>,
    pub source_config: Option<Vec<ConfigProperty>>,
    pub target_config: Option<Vec<ConfigProperty>>,
}

impl View for LinkProperty {
    type V = LinkPropertyView;

    open spec fn view(&self) -> LinkPropertyView {
        LinkPropertyView {
            namespace: self.namespace@,
            package: self.package@,
            interfaces: self.interfaces.deep_view(),
            source: self.source.deep_view(),
            target: self.target.deep_view(),
            name: self.name.deep_view(),
            source_config: self.source_config.deep_view(),
            target_config: self.target_config.deep_view(),
        }
    }
}

impl DeepView for LinkProperty {
    type V = LinkPropertyView;

    open spec fn deep_view(&self) -> LinkPropertyView {
        self@
    }
}

impl Clone for LinkProperty {
    fn clone(&self) -> (r: Self)
        ensures
            r@ == self@,
    {
        LinkProperty {
            namespace: self.namespace.clone(),
            package: self.package.clone(),
            interfaces: self.interfaces.clone(),
            source: self.source.clone(),
            target: self.target.clone(),
            name: self.name.clone(),
            source_config: self.source_config.clone(),
            target_config: self.target_config.clone(),
        }
    }
}

/// The mathematical content of a [`Spread`].
pub struct SpreadView {
    pub name: Seq<char>,
    pub requirements: Seq<EntryView>,
    pub weight: Option<usize>,
}

/// One spread of a scaler.
#[derive(Debug, PartialEq, Eq)]
pub struct Spread {
    pub name: String,
    pub requirements: Vec<Entry>,
    pub weight: Option<usize>,
}

impl View for Spread {
    type V = SpreadView;

    open spec fn view(&self) -> SpreadView {
        SpreadView {
            name: self.name@,
            requirements: self.requirements.deep_view(),
            weight: self.weight,
        }
    }
}

impl DeepView for Spread {
    type V = SpreadView;

    open spec fn deep_view(&self) -> SpreadView {
        self@
    }
}

impl Clone for Spread {
    fn clone(&self) -> (r: Self)
        ensures
            r@ == self@,
    {
        Spread {
            name: self.name.clone(),
            requirements: self.requirements.clone(),
            weight: self.weight,
        }
    }
}

/// The mathematical content of a [`SpreadScalerProperty`].
pub struct SpreadScalerPropertyView {
    pub instances: usize,
    pub spread: Seq<SpreadView>,
}

/// The properties of a scaler trait.
#[derive(Debug, PartialEq, Eq)]
pub struct SpreadScalerProperty {
    pub instances: usize,
    pub spread: Vec<Spread>,
}

impl View for SpreadScalerProperty {
    type V = SpreadScalerPropertyView;

    open spec fn view(&self) -> SpreadScalerPropertyView {
        SpreadScalerPropertyView {
            instances: self.instances,
            spread: self.spread.deep_view(),
        }
    }
}

impl DeepView for SpreadScalerProperty {
    type V = SpreadScalerPropertyView;

    open spec fn deep_view(&self) -> SpreadScalerPropertyView {
        self@
    }
}

impl Clone for SpreadScalerProperty {
    fn clone(&self) -> (r: Self)
        ensures
            r@ == self@,
    {
        SpreadScalerProperty {
            instances: self.instances,
            spread: self.spread.clone(),
        }
    }
}

/// The mathematical content of a [`Properties`].
#[allow(inconsistent_fields)]
pub enum PropertiesView {
    Component { properties: ComponentPropertiesView },
    Capability { properties: CapabilityPropertiesView },
}

/// The deployment properties of an entry: those of a component or those of a
/// capability provider.
#[derive(Debug, PartialEq, Eq)]
#[allow(inconsistent_fields)]
pub enum Properties {
    Component { properties: ComponentProperties },
    Capability { properties: CapabilityProperties },
}

impl View for Properties {
    type V = PropertiesView;

    open spec fn view(&self) -> PropertiesView {
        match self {
            Properties::Component { properties } => PropertiesView::Component {
                properties: properties@,
            },
            Properties::Capability { properties } => PropertiesView::Capability {
                properties: properties@,
            },
        }
    }
}

impl DeepView for Properties {
    type V = PropertiesView;

    open spec fn deep_view(&self) -> PropertiesView {
        self@
    }
}

impl Clone for Properties {
    fn clone(&self) -> (r: Self)
        ensures
            r@ == self@,
    {
        match self {
            Properties::Component { properties } => Properties::Component {
                properties: properties.clone(),
            },
            Properties::Capability { properties } => Properties::Capability {
                properties: properties.clone(),
            },
        }
    }
}

impl PropertiesView {
    /// The binary location of the entry, if it has one.
    pub open spec fn image(self) -> Option<Seq<char>> {
        match self {
            PropertiesView::Component { properties } => properties.image,
            PropertiesView::Capability { properties } => properties.image,
        }
    }

    /// Whether the entry names a binary location or refers to a shared
    /// application.
    pub open spec fn has_source(self) -> bool {
        match self {
            PropertiesView::Component { properties } => properties.image is Some
                || properties.application is Some,
            PropertiesView::Capability { properties } => properties.image is Some
                || properties.application is Some,
        }
    }
}

/// The mathematical content of a [`TraitProperty`].
pub enum TraitPropertyView {
    Link(LinkPropertyView),
    SpreadScaler(SpreadScalerPropertyView),
    Custom(Seq<char>),
}

/// The properties of a trait. A custom trait carries its properties as JSON
/// text, which this library never looks into.
#[derive(Debug, PartialEq, Eq)]
pub enum TraitProperty {
    Link(LinkProperty),
    SpreadScaler(SpreadScalerProperty),
    Custom(String),
}

impl View for TraitProperty {
    type V = TraitPropertyView;

    open spec fn view(&self) -> TraitPropertyView {
        match self {
            TraitProperty::Link(p) => TraitPropertyView::Link(p@),
            TraitProperty::SpreadScaler(p) => TraitPropertyView::SpreadScaler(p@),
            TraitProperty::Custom(text) => TraitPropertyView::Custom(text@),
        }
    }
}

impl DeepView for TraitProperty {
    type V = TraitPropertyView;

    open spec fn deep_view(&self) -> TraitPropertyView {
        self@
    }
}

impl Clone for TraitProperty {
    fn clone(&self) -> (r: Self)
        ensures
            r@ == self@,
    {
        match self {
            TraitProperty::Link(p) => TraitProperty::Link(p.clone()),
            TraitProperty::SpreadScaler(p) => TraitProperty::SpreadScaler(p.clone()),
            TraitProperty::Custom(text) => TraitProperty::Custom(text.clone()),
        }
    }
}

/// The mathematical content of a [`Trait`].
pub struct TraitView {
    pub trait_type: Seq<char>,
    pub properties: TraitPropertyView,
}

/// A trait attached to a component: its type and its properties.
#[derive(Debug, PartialEq, Eq)]
pub struct Trait {
    pub trait_type: String,
    pub properties: TraitProperty,
}

impl View for Trait {
    type V = TraitView;

    open spec fn view(&self) -> TraitView {
        TraitView {
            trait_type: self.trait_type@,
            properties: self.properties.deep_view(),
        }
    }
}

impl DeepView for Trait {
    type V = TraitView;

    open spec fn deep_view(&self) -> TraitView {
        self@
    }
}

impl Clone for Trait {
    fn clone(&self) -> (r: Self)
        ensures
            r@ == self@,
    {
        Trait {
            trait_type: self.trait_type.clone(),
            properties: self.properties.clone(),
        }
    }
}

/// The mathematical content of a [`Component`].
pub struct ComponentView {
    pub name: Seq<char>,
    pub properties: PropertiesView,
    pub traits: Option<Seq<TraitView>>,
}

/// One entry of a deployment description.
#[derive(Debug, PartialEq, Eq)]
pub struct Component {
    pub name: String,
    pub properties: Properties,
    pub traits: Option<Vec<Trait>>,
}

impl View for Component {
    type V = ComponentView;

    open spec fn view(&self) -> ComponentView {
        ComponentView {
            name: self.name@,
            properties: self.properties.deep_view(),
            traits: self.traits.deep_view(),
        }
    }
}

impl DeepView for Component {
    type V = ComponentView;

    open spec fn deep_view(&self) -> ComponentView {
        self@
    }
}

impl Clone for Component {
    fn clone(&self) -> (r: Self)
        ensures
            r@ == self@,
    {
        Component {
            name: self.name.clone(),
            properties: self.properties.clone(),
            traits: self.traits.clone(),
        }
    }
}

/// The mathematical content of a [`Policy`].
pub struct PolicyView {
    pub name: Seq<char>,
    pub properties: Seq<EntryView>,
    pub policy_type: Seq<char>,
}

/// A policy entry of a deployment description.
#[derive(Debug, PartialEq, Eq)]
pub struct Policy {
    pub name: String,
    pub properties: Vec<Entry>,
    pub policy_type: String,
}

impl View for Policy {
    type V = PolicyView;

    open spec fn view(&self) -> PolicyView {
        PolicyView {
            name: self.name@,
            properties: self.properties.deep_view(),
            policy_type: self.policy_type@,
        }
    }
}

impl DeepView for Policy {
    type V = PolicyView;

    open spec fn deep_view(&self) -> PolicyView {
        self@
    }
}

impl Clone for Policy {
    fn clone(&self) -> (r: Self)
        ensures
            r@ == self@,
    {
        Policy {
            name: self.name.clone(),
            properties: self.properties.clone(),
            policy_type: self.policy_type.clone(),
        }
    }
}

/// The mathematical content of a [`Metadata`].
pub struct MetadataView {
    pub name: Seq<char>,
    pub annotations: Seq<EntryView>,
    pub labels: Seq<EntryView>,
}

/// The metadata of a deployment description.
#[derive(Debug, PartialEq, Eq)]
pub struct Metadata {
    pub name: String,
    pub annotations: Vec<Entry>,
    pub labels: Vec<Entry>,
}

impl View for Metadata {
    type V = MetadataView;

    open spec fn view(&self) -> MetadataView {
        MetadataView {
            name: self.name@,
            annotations: self.annotations.deep_view(),
            labels: self.labels.deep_view(),
        }
    }
}

impl DeepView for Metadata {
    type V = MetadataView;

    open spec fn deep_view(&self) -> MetadataView {
        self@
    }
}

impl Clone for Metadata {
    fn clone(&self) -> (r: Self)
        ensures
            r@ == self@,
    {
        Metadata {
            name: self.name.clone(),
            annotations: self.annotations.clone(),
            labels: self.labels.clone(),
        }
    }
}

/// The mathematical content of a [`Specification`].
pub struct SpecificationView {
    pub components: Seq<ComponentView>,
    pub policies: Seq<PolicyView>,
}

/// The components and policies of a deployment description.
#[derive(Debug, PartialEq, Eq)]
pub struct Specification {
    pub components: Vec<Component>,
    pub policies: Vec<Policy>,
}

impl View for Specification {
    type V = SpecificationView;

    open spec fn view(&self) -> SpecificationView {
        SpecificationView {
            components: self.components.deep_view(),
            policies: self.policies.deep_view(),
        }
    }
}

impl DeepView for Specification {
    type V = SpecificationView;

    open spec fn deep_view(&self) -> SpecificationView {
        self@
    }
}

impl Clone for Specification {
    fn clone(&self) -> (r: Self)
        ensures
            r@ == self@,
    {
        Specification {
            components: self.components.clone(),
            policies: self.policies.clone(),
        }
    }
}

/// The mathematical content of a [`Manifest`].
pub struct ManifestView {
    pub api_version: Seq<char>,
    pub kind: Seq<char>,
    pub metadata: MetadataView,
    pub spec: SpecificationView,
}

/// A deployment description.
#[derive(Debug, PartialEq, Eq)]
pub struct Manifest {
    pub api_version: String,
    pub kind: String,
    pub metadata: Metadata,
    pub spec: Specification,
}

impl View for Manifest {
    type V = ManifestView;

    open spec fn view(&self) -> ManifestView {
        ManifestView {
            api_version: self.api_version@,
            kind: self.kind@,
            metadata: self.metadata.deep_view(),
            spec: self.spec.deep_view(),
        }
    }
}

impl DeepView for Manifest {
    type V = ManifestView;

    open spec fn deep_view(&self) -> ManifestView {
        self@
    }
}

impl Clone for Manifest {
    fn clone(&self) -> (r: Self)
        ensures
            r@ == self@,
    {
        Manifest {
            api_version: self.api_version.clone(),
            kind: self.kind.clone(),
            metadata: self.metadata.clone(),
            spec: self.spec.clone(),
        }
    }
}

} // verus!
