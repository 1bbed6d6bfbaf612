//! The link: a pending or resolved requirement of one component for an
//! interface of another.

use crate::description::{
    ConfigDefinition, ConfigDefinitionView, LinkProperty, LinkPropertyView, TargetConfig,
    TargetConfigView, Trait, TraitProperty, TraitPropertyView, TraitView,
};
use crate::models::InterfaceTriple;
use crate::runtime::runtime_interface;
use vstd::prelude::*;
use vstd::string::StringExecFns;

verus! {

/// The mathematical content of a [`LinkConstructor`].
pub struct LinkView {
    pub source: Seq<char>,
    pub target: Option<Seq<char>>,
    pub interfaces: Seq<Seq<char>>,
    pub namespace: Seq<char>,
    pub package: Seq<char>,
}

impl LinkView {
    /// The interface that the link satisfies: the first of its list.
    pub open spec fn triple(self) -> InterfaceTriple {
        InterfaceTriple {
            namespace: self.namespace,
            package: self.package,
            name: self.interfaces[0],
        }
    }

    /// Whether the link names an interface that the runtime provides by
    /// itself. A link without any interface names none.
    pub open spec fn is_runtime(self) -> bool {
        self.interfaces.len() > 0 && runtime_interface(self.triple())
    }

    /// Whether the link has to be given a provider: it names an interface,
    /// and the runtime does not provide that interface by itself.
    pub open spec fn needs_provider(self) -> bool {
        self.interfaces.len() > 0 && !runtime_interface(self.triple())
    }

    /// The structural invariant of a link: at least one interface, and a
    /// namespace and a package that are not empty.
    pub open spec fn well_formed(self) -> bool {
        self.interfaces.len() > 0 && self.namespace.len() > 0 && self.package.len() > 0
    }

    /// The name of the target, or the empty text while there is none.
    pub open spec fn target_name(self) -> Seq<char> {
        match self.target {
            Some(t) => t,
            None => Seq::empty(),
        }
    }

    /// What self-validation answers for the link.
    pub open spec fn validation(self) -> Result<(), Seq<char>> {
        if self.interfaces.len() == 0 {
            Err("Link must have at least one interface"@)
        } else if self.namespace.len() == 0 {
            Err("Namespace cannot be empty"@)
        } else if self.package.len() == 0 {
            Err("Package cannot be empty"@)
        } else {
            Ok(())
        }
    }

    /// The link trait that stands for the link in a deployment description.
    pub open spec fn link_trait(self) -> TraitView {
        TraitView {
            trait_type: "link"@,
            properties: TraitPropertyView::Link(
                LinkPropertyView {
                    namespace: self.namespace,
                    package: self.package,
                    interfaces: self.interfaces,
                    source: Some(
                        ConfigDefinitionView { config: Seq::empty(), secrets: Seq::empty() },
                    ),
                    target: TargetConfigView {
                        name: self.target_name(),
                        config: Seq::empty(),
                        secrets: Seq::empty(),
                    },
                    name: Some(self.source + "-"@ + self.target_name()),
                    source_config: None,
                    target_config: None,
                },
            ),
        }
    }
}

/// A directional requirement: the component `pre_component_id` imports an
/// interface, and `post_component_id`, once set, names the component that
/// provides it.
#[derive(Debug)]
pub struct LinkConstructor {
    /// The importing component.
    pub pre_component_id: String,
    /// The providing component: `None` until the link is pinned or resolved.
    pub post_component_id: Option<String>,
    /// The interfaces that the provider must export.
    pub interfaces: Vec<String>,
    /// The namespace of the interfaces.
    pub namespace: String,
    /// The package of the interfaces.
    pub package: String,
}

impl View for LinkConstructor {
    type V = LinkView;

    open spec fn view(&self) -> LinkView {
        LinkView {
            source: self.pre_component_id@,
            target: self.post_component_id.deep_view(),
            interfaces: self.interfaces.deep_view(),
            namespace: self.namespace@,
            package: self.package@,
        }
    }
}

impl DeepView for LinkConstructor {
    type V = LinkView;

    open spec fn deep_view(&self) -> LinkView {
        self@
    }
}

impl Clone for LinkConstructor {
    fn clone(&self) -> (r: Self)
        ensures
            r@ == self@,
    {
        LinkConstructor {
            pre_component_id: self.pre_component_id.clone(),
            post_component_id: self.post_component_id.clone(),
            interfaces: self.interfaces.clone(),
            namespace: self.namespace.clone(),
            package: self.package.clone(),
        }
    }
}

impl LinkConstructor {
    /// Builds the link trait that stands for this link in a deployment
    /// description: the shared namespace and package, the interface list,
    /// the target's name (empty while unresolved), and a link name made of
    /// the source's name, a hyphen and the target's name.
    pub fn to_wadm_link(&self) -> (t: Trait)
        ensures
            t@ == self@.link_trait(),
    {
        let target_name = match &self.post_component_id {
            Some(t) => t.clone(),
            None => String::new(),
        };
        let name = self.pre_component_id.clone().concat("-").concat(target_name.as_str());
        let interfaces = self.interfaces.clone();
        let t = Trait {
            trait_type: String::from_str("link"),
            properties: TraitProperty::Link(
                LinkProperty {
                    namespace: self.namespace.clone(),
                    package: self.package.clone(),
                    interfaces,
                    source: Some(ConfigDefinition { config: Vec::new(), secrets: Vec::new() }),
                    target: TargetConfig {
                        name: target_name,
                        config: Vec::new(),
                        secrets: Vec::new(),
                    },
                    name: Some(name),
                    source_config: None,
                    target_config: None,
                },
            ),
        };
        proof {
            let p = t.properties->Link_0;
            assert(p.source.deep_view()->Some_0.config =~= Seq::empty());
            assert(p.source.deep_view()->Some_0.secrets =~= Seq::empty());
        }
        t
    }

    /// Checks the structural invariant of the link and says what is missing.
    pub fn validate(&self) -> (r: Result<(), String>)
        ensures
            match r {
                Ok(()) => self@.validation() is Ok,
                Err(e) => self@.validation() == Err::<(), Seq<char>>(e@),
            },
            r is Ok <==> self@.well_formed(),
    {
        if self.interfaces.len() == 0 {
            return Err(String::from_str("Link must have at least one interface"));
        }
        if self.namespace.as_str().unicode_len() == 0 {
            return Err(String::from_str("Namespace cannot be empty"));
        }
        if self.package.as_str().unicode_len() == 0 {
            return Err(String::from_str("Package cannot be empty"));
        }
        Ok(())
    }
}

} // verus!
