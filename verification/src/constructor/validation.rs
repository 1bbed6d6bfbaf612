//! Validation: the basic requirements of entries and links, and the
//! resolution of every link to a component that exports its interface.

use crate::constructor::link::{LinkConstructor, LinkView};
use crate::constructor::{ConstructorManifest, GraphView};
use crate::description::{Component, ComponentView, Properties};
use crate::models::{InterfaceInfo, InterfaceRequirement, InterfaceTriple, RequirementView};
use crate::runtime::is_runtime_interface;
use crate::seqs::{first_true, lemma_first_true_is, lemma_present_push, present};
use crate::text::{decimal, decimal_text, join_all, joined, same_text};
use vstd::prelude::*;
use vstd::string::StringExecFns;

verus! {

/// The mathematical content of an [`UnlinkedInterface`].
pub struct UnlinkedInterfaceView {
    pub component: Seq<char>,
    pub interface: RequirementView,
    pub potential_matches: Seq<Seq<char>>,
}

/// An interface that no link satisfies, with the components that might.
#[derive(Debug)]
pub struct UnlinkedInterface {
    pub component: String,
    pub interface: InterfaceRequirement,
    pub potential_matches: Vec<String>,
}

impl View for UnlinkedInterface {
    type V = UnlinkedInterfaceView;

    open spec fn view(&self) -> UnlinkedInterfaceView {
        UnlinkedInterfaceView {
            component: self.component@,
            interface: self.interface@,
            potential_matches: self.potential_matches.deep_view(),
        }
    }
}

impl DeepView for UnlinkedInterface {
    type V = UnlinkedInterfaceView;

    open spec fn deep_view(&self) -> UnlinkedInterfaceView {
        self@
    }
}

/// The mathematical content of a [`ValidationError`].
pub enum ValidationErrorView {
    ComponentError(Seq<char>),
    LinkError(Seq<char>),
    InterfaceError(Seq<char>),
}

impl ValidationErrorView {
    /// The error as one line of text: its kind, then its message.
    pub open spec fn text(self) -> Seq<char> {
        match self {
            ValidationErrorView::ComponentError(m) => "Component error: "@ + m,
            ValidationErrorView::LinkError(m) => "Link error: "@ + m,
            ValidationErrorView::InterfaceError(m) => "Interface error: "@ + m,
        }
    }
}

/// What validation can find wrong. A component error: a component that a
/// link or a description refers to is missing, or an entry names neither a
/// binary nor a shared application. A link error: a link refers to a
/// component without an entry, or lacks an interface, a namespace or a
/// package. An interface error: the target of a link does not export the
/// interface, or no component exports it.
#[derive(Debug)]
pub enum ValidationError {
    ComponentError(String),
    LinkError(String),
    InterfaceError(String),
}

impl View for ValidationError {
    type V = ValidationErrorView;

    open spec fn view(&self) -> ValidationErrorView {
        match self {
            ValidationError::ComponentError(m) => ValidationErrorView::ComponentError(m@),
            ValidationError::LinkError(m) => ValidationErrorView::LinkError(m@),
            ValidationError::InterfaceError(m) => ValidationErrorView::InterfaceError(m@),
        }
    }
}

impl DeepView for ValidationError {
    type V = ValidationErrorView;

    open spec fn deep_view(&self) -> ValidationErrorView {
        self@
    }
}

impl Clone for ValidationError {
    fn clone(&self) -> (r: Self)
        ensures
            r@ == self@,
    {
        match self {
            ValidationError::ComponentError(m) => ValidationError::ComponentError(m.clone()),
            ValidationError::LinkError(m) => ValidationError::LinkError(m.clone()),
            ValidationError::InterfaceError(m) => ValidationError::InterfaceError(m.clone()),
        }
    }
}

impl ValidationError {
    /// The error as one line of text: its kind, then its message.
    pub fn to_text(&self) -> (r: String)
        ensures
            r@ == self@.text(),
    {
        match self {
            ValidationError::ComponentError(m) => String::from_str("Component error: ").concat(
                m.as_str(),
            ),
            ValidationError::LinkError(m) => String::from_str("Link error: ").concat(m.as_str()),
            ValidationError::InterfaceError(m) => String::from_str("Interface error: ").concat(
                m.as_str(),
            ),
        }
    }
}

/// The mathematical content of a [`ValidationReport`].
pub struct ReportView {
    pub discovered_links: Seq<LinkView>,
    pub unlinked_interfaces: Seq<UnlinkedInterfaceView>,
    pub warnings: Seq<Seq<char>>,
    pub errors: Seq<ValidationErrorView>,
    pub is_valid: bool,
}

impl ReportView {
    /// The report of a validation that has found nothing yet.
    pub open spec fn empty() -> ReportView {
        ReportView {
            discovered_links: Seq::empty(),
            unlinked_interfaces: Seq::empty(),
            warnings: Seq::empty(),
            errors: Seq::empty(),
            is_valid: true,
        }
    }

    /// The report of a validation that found the errors `errors` and
    /// nothing else.
    pub open spec fn of_errors(errors: Seq<ValidationErrorView>) -> ReportView {
        ReportView { errors, is_valid: errors.len() == 0, ..ReportView::empty() }
    }
}

/// The line of a summary that counts `n` findings, between the words
/// `before` and `after`; none where there is nothing to count.
pub open spec fn count_line(before: Seq<char>, n: nat, after: Seq<char>) -> Option<Seq<char>> {
    if n == 0 {
        None
    } else {
        Some(before + decimal(n) + after)
    }
}

impl ReportView {
    /// The lines of the summary: one for each kind of finding that the
    /// report holds.
    pub open spec fn summary_lines(self) -> Seq<Seq<char>> {
        present(
            seq![
                count_line("Discovered "@, self.discovered_links.len(), " implicit links"@),
                count_line("Found "@, self.unlinked_interfaces.len(), " unlinked interfaces"@),
                count_line(Seq::empty(), self.warnings.len(), " warnings"@),
                count_line(Seq::empty(), self.errors.len(), " errors"@),
            ],
        )
    }

    /// The summary of the report: its lines with commas between them, or
    /// the word that all went well where it holds nothing.
    pub open spec fn summary(self) -> Seq<char> {
        if self.summary_lines().len() == 0 {
            "All validations passed successfully"@
        } else {
            joined(self.summary_lines(), ", "@)
        }
    }
}

fn write_count(before: &str, n: usize, after: &str) -> (r: Option<String>)
    ensures
        r.deep_view() == count_line(before@, n as nat, after@),
{
    if n == 0 {
        None
    } else {
        Some(String::from_str(before).concat(decimal_text(n).as_str()).concat(after))
    }
}

/// What one validation found: errors by kind, warnings, and whether the
/// registry is valid, which it is exactly when no error was recorded.
#[derive(Debug)]
pub struct ValidationReport {
    pub discovered_links: Vec<LinkConstructor>,
    pub unlinked_interfaces: Vec<UnlinkedInterface>,
    pub warnings: Vec<String>,
    pub errors: Vec<ValidationError>,
    pub is_valid: bool,
}

impl View for ValidationReport {
    type V = ReportView;

    open spec fn view(&self) -> ReportView {
        ReportView {
            discovered_links: self.discovered_links.deep_view(),
            unlinked_interfaces: self.unlinked_interfaces.deep_view(),
            warnings: self.warnings.deep_view(),
            errors: self.errors.deep_view(),
            is_valid: self.is_valid,
        }
    }
}

impl Default for ValidationReport {
    /// The report that holds nothing and is not yet valid.
    fn default() -> (r: Self)
        ensures
            r@ == (ReportView { is_valid: false, ..ReportView::empty() }),
    {
        let r = ValidationReport {
            discovered_links: Vec::new(),
            unlinked_interfaces: Vec::new(),
            warnings: Vec::new(),
            errors: Vec::new(),
            is_valid: false,
        };
        assert(r@.discovered_links =~= Seq::empty());
        assert(r@.unlinked_interfaces =~= Seq::empty());
        assert(r@.warnings =~= Seq::empty());
        assert(r@.errors =~= Seq::empty());
        r
    }
}

impl ValidationReport {
    /// A report without findings, which is valid.
    pub fn new() -> (r: Self)
        ensures
            r@ == ReportView::empty(),
    {
        let r = ValidationReport {
            discovered_links: Vec::new(),
            unlinked_interfaces: Vec::new(),
            warnings: Vec::new(),
            errors: Vec::new(),
            is_valid: true,
        };
        assert(r@.discovered_links =~= Seq::empty());
        assert(r@.unlinked_interfaces =~= Seq::empty());
        assert(r@.warnings =~= Seq::empty());
        assert(r@.errors =~= Seq::empty());
        r
    }

    /// Sums the report up in one line: how many links were discovered, how
    /// many interfaces are unlinked, how many warnings and how many errors
    /// there are, each only where there is any; or that all validations
    /// passed.
    pub fn summary(&self) -> (r: String)
        ensures
            r@ == self@.summary(),
    {
        let ghost options = seq![
            count_line("Discovered "@, self@.discovered_links.len(), " implicit links"@),
            count_line("Found "@, self@.unlinked_interfaces.len(), " unlinked interfaces"@),
            count_line(Seq::empty(), self@.warnings.len(), " warnings"@),
            count_line(Seq::empty(), self@.errors.len(), " errors"@),
        ];
        let mut lines: Vec<String> = Vec::new();
        let mut found: Vec<Option<String>> = Vec::new();
        found.push(write_count("Discovered ", self.discovered_links.len(), " implicit links"));
        found.push(write_count("Found ", self.unlinked_interfaces.len(), " unlinked interfaces"));
        found.push(write_count("", self.warnings.len(), " warnings"));
        found.push(write_count("", self.errors.len(), " errors"));
        proof {
            reveal_strlit("");
            assert(found.deep_view() =~= options);
        }
        let mut i: usize = 0;
        while i < found.len()
            invariant
                i <= found.len(),
                lines.deep_view() == present(found.deep_view().take(i as int)),
            decreases found.len() - i,
        {
            proof {
                assert(found.deep_view().take(i as int + 1) =~= found.deep_view().take(
                    i as int,
                ).push(found.deep_view()[i as int]));
                lemma_present_push(found.deep_view().take(i as int), found.deep_view()[i as int]);
            }
            match &found[i] {
                Some(line) => {
                    lines.push(line.clone());
                },
                None => {},
            }
            i += 1;
        }
        assert(found.deep_view().take(i as int) =~= found.deep_view());
        if lines.len() == 0 {
            String::from_str("All validations passed successfully")
        } else {
            join_all(&lines, ", ")
        }
    }

    /// Records a warning. A warning leaves the report as valid as it was.
    pub fn add_warning(&mut self, warning: String)
        ensures
            final(self)@ == (ReportView {
                warnings: old(self)@.warnings.push(warning@),
                ..old(self)@
            }),
    {
        self.warnings.push(warning);
        assert(self@.warnings =~= old(self)@.warnings.push(warning@));
    }

    /// Records an error. From then on the report is not valid.
    pub fn add_error(&mut self, error: ValidationError)
        ensures
            final(self)@ == (ReportView {
                errors: old(self)@.errors.push(error@),
                is_valid: false,
                ..old(self)@
            }),
    {
        self.is_valid = false;
        self.errors.push(error);
        assert(self@.errors =~= old(self)@.errors.push(error@));
    }
}

/// The interface `t` written as namespace, package and name with colons
/// between them.
pub open spec fn triple_text(t: InterfaceTriple) -> Seq<char> {
    t.namespace + ":"@ + t.package + ":"@ + t.name
}

/// The message for an entry that names neither a binary nor a shared
/// application.
pub open spec fn missing_source_message(name: Seq<char>) -> Seq<char> {
    name + " must specify image or application"@
}

/// The message for a link whose source has no component entry.
pub open spec fn missing_pre_message(name: Seq<char>) -> Seq<char> {
    "Pre-component '"@ + name + "' not found"@
}

/// The message for a link whose target has no component entry.
pub open spec fn missing_post_message(name: Seq<char>) -> Seq<char> {
    "Post-component '"@ + name + "' not found"@
}

/// The message for a link whose target is not a known component.
pub open spec fn unknown_target_message(target: Seq<char>) -> Seq<char> {
    "Target component "@ + target + " not found"@
}

/// The message for a link whose target does not export the interface.
pub open spec fn not_exported_message(target: Seq<char>, l: LinkView) -> Seq<char> {
    "Component "@ + target + " does not export interface "@ + triple_text(l.triple())
        + " required by "@ + l.source
}

/// The message for a link whose interface no other component exports.
pub open spec fn no_exporter_message(l: LinkView) -> Seq<char> {
    "No component found that exports interface "@ + triple_text(l.triple()) + " required by "@
        + l.source
}

/// What is wrong with a component entry, if anything: it has to name a
/// binary or a shared application.
pub open spec fn component_error(c: ComponentView) -> Option<ValidationErrorView> {
    if c.properties.has_source() {
        None
    } else {
        Some(ValidationErrorView::ComponentError(missing_source_message(c.name)))
    }
}

impl GraphView {
    /// What is wrong with the references and the structure of a link, if
    /// anything: its source must have an entry, its target too where it has
    /// one, and the link must pass its own validation. The first of these
    /// that fails is the one reported.
    pub open spec fn reference_error(self, l: LinkView) -> Option<ValidationErrorView> {
        if !self.component_exists(l.source) {
            Some(ValidationErrorView::LinkError(missing_pre_message(l.source)))
        } else if l.target is Some && !self.component_exists(l.target->Some_0) {
            Some(ValidationErrorView::LinkError(missing_post_message(l.target->Some_0)))
        } else {
            match l.validation() {
                Ok(_) => None,
                Err(m) => Some(ValidationErrorView::LinkError(m)),
            }
        }
    }

    /// The errors of the basic requirements: those of the component entries
    /// in their order, then those of the links in theirs.
    pub open spec fn basic_errors(self) -> Seq<ValidationErrorView> {
        present(Seq::new(self.components.len(), |i: int| component_error(self.components[i])))
            + present(Seq::new(self.links.len(), |i: int| self.reference_error(self.links[i])))
    }

    /// For each known component, whether it can provide what `l` asks for:
    /// it is not the source of `l`, and it exports the interface of `l`.
    pub open spec fn exporter_flags(self, l: LinkView) -> Seq<bool> {
        Seq::new(
            self.catalogs.len(),
            |i: int|
                self.catalogs[i].name != l.source && self.catalogs[i].catalog.exports.contains(
                    l.triple(),
                ),
        )
    }

    /// The place of the first known component that can provide what `l`
    /// asks for, or the number of known components if none can.
    pub open spec fn exporter_index(self, l: LinkView) -> int {
        first_true(self.exporter_flags(l))
    }

    /// The link `l` after resolution. A link that needs a provider and has
    /// no target gets the first known component that can provide its
    /// interface. Every other link stays as it is: a pinned target is never
    /// replaced.
    pub open spec fn resolved_link(self, l: LinkView) -> LinkView {
        if l.needs_provider() && l.target is None && self.exporter_index(l)
            < self.catalogs.len() {
            LinkView { target: Some(self.catalogs[self.exporter_index(l)].name), ..l }
        } else {
            l
        }
    }

    /// The error that resolution records for the link `l`, if any. None for
    /// a link that needs no provider. For a pinned link: a component error
    /// where the target is not known, an interface error where it does not
    /// export the interface. For a link without target: an interface error
    /// where no other known component exports the interface.
    pub open spec fn resolution_error(self, l: LinkView) -> Option<ValidationErrorView> {
        if !l.needs_provider() {
            None
        } else {
            match l.target {
                Some(t) => if !self.knows(t) {
                    Some(ValidationErrorView::ComponentError(unknown_target_message(t)))
                } else if !self.catalog(t).exports.contains(l.triple()) {
                    Some(ValidationErrorView::InterfaceError(not_exported_message(t, l)))
                } else {
                    None
                },
                None => if self.exporter_index(l) < self.catalogs.len() {
                    None
                } else {
                    Some(ValidationErrorView::InterfaceError(no_exporter_message(l)))
                },
            }
        }
    }

    /// The errors that resolution records, in the order of the links.
    pub open spec fn resolution_errors(self) -> Seq<ValidationErrorView> {
        present(Seq::new(self.links.len(), |i: int| self.resolution_error(self.links[i])))
    }

    /// All errors of one validation: the basic requirements first, then
    /// resolution.
    pub open spec fn validation_errors(self) -> Seq<ValidationErrorView> {
        self.basic_errors() + self.resolution_errors()
    }

    /// The graph after resolution: every link resolved, all else unchanged.
    pub open spec fn resolved(self) -> GraphView {
        GraphView {
            links: Seq::new(self.links.len(), |i: int| self.resolved_link(self.links[i])),
            ..self
        }
    }
}

/// Whether `list` holds the interface `(namespace, package, name)`.
pub fn lists_interface(
    list: &Vec<InterfaceInfo>,
    namespace: &str,
    package: &str,
    name: &str,
) -> (r: bool)
    ensures
        r == list.deep_view().contains(
            InterfaceTriple { namespace: namespace@, package: package@, name: name@ },
        ),
{
    let ghost t = InterfaceTriple { namespace: namespace@, package: package@, name: name@ };
    let mut i: usize = 0;
    while i < list.len()
        invariant
            i <= list.len(),
            t == (InterfaceTriple { namespace: namespace@, package: package@, name: name@ }),
            forall|j: int| 0 <= j < i ==> list.deep_view()[j] != t,
        decreases list.len() - i,
    {
        let item = &list[i];
        if same_text(item.name.as_str(), name) && same_text(item.namespace.as_str(), namespace)
            && same_text(item.package.as_str(), package) {
            assert(list.deep_view()[i as int] == t);
            return true;
        }
        i += 1;
    }
    false
}

fn write_triple(namespace: &str, package: &str, name: &str) -> (r: String)
    ensures
        r@ == triple_text(
            InterfaceTriple { namespace: namespace@, package: package@, name: name@ },
        ),
{
    String::from_str(namespace).concat(":").concat(package).concat(":").concat(name)
}

impl ConstructorManifest {
    /// The place of the first known component that can provide what `link`
    /// asks for, or the number of known components if none can.
    fn exporter_position(&self, link: &LinkConstructor) -> (k: usize)
        requires
            link.interfaces.len() > 0,
        ensures
            k == self@.exporter_index(link@),
            k <= self.component_interfaces.len(),
    {
        let ghost flags = self@.exporter_flags(link@);
        let mut k: usize = 0;
        while k < self.component_interfaces.len()
            invariant
                k <= self.component_interfaces.len(),
                link.interfaces.len() > 0,
                flags == self@.exporter_flags(link@),
                forall|j: int| 0 <= j < k ==> !flags[j],
            decreases self.component_interfaces.len() - k,
        {
            let entry = &self.component_interfaces[k];
            if !same_text(entry.name.as_str(), link.pre_component_id.as_str()) && lists_interface(
                &entry.info.exports,
                link.namespace.as_str(),
                link.package.as_str(),
                link.interfaces[0].as_str(),
            ) {
                proof {
                    lemma_first_true_is(flags, k as int);
                }
                return k;
            }
            k += 1;
        }
        proof {
            lemma_first_true_is(flags, k as int);
        }
        k
    }

    /// Resolves one link against the known components: the link as it
    /// stands after resolution, and the error that resolution records for
    /// it, if any.
    pub fn resolve_link(&self, link: &LinkConstructor) -> (r: (
        LinkConstructor,
        Option<ValidationError>,
    ))
        ensures
            r.0@ == self@.resolved_link(link@),
            r.1.deep_view() == self@.resolution_error(link@),
    {
        if link.interfaces.len() == 0 {
            return (link.clone(), None);
        }
        let interface = &link.interfaces[0];
        if is_runtime_interface(
            link.namespace.as_str(),
            link.package.as_str(),
            interface.as_str(),
        ) {
            return (link.clone(), None);
        }
        match &link.post_component_id {
            Some(target) => {
                let k = self.catalog_position(target.as_str());
                if k < self.component_interfaces.len() {
                    let entry = &self.component_interfaces[k];
                    if lists_interface(
                        &entry.info.exports,
                        link.namespace.as_str(),
                        link.package.as_str(),
                        interface.as_str(),
                    ) {
                        (link.clone(), None)
                    } else {
                        let message = String::from_str("Component ").concat(
                            target.as_str(),
                        ).concat(" does not export interface ").concat(
                            write_triple(
                                link.namespace.as_str(),
                                link.package.as_str(),
                                interface.as_str(),
                            ).as_str(),
                        ).concat(" required by ").concat(link.pre_component_id.as_str());
                        (link.clone(), Some(ValidationError::InterfaceError(message)))
                    }
                } else {
                    let message = String::from_str("Target component ").concat(
                        target.as_str(),
                    ).concat(" not found");
                    (link.clone(), Some(ValidationError::ComponentError(message)))
                }
            },
            None => {
                let k = self.exporter_position(link);
                if k < self.component_interfaces.len() {
                    let entry = &self.component_interfaces[k];
                    let interfaces = link.interfaces.clone();
                    let resolved = LinkConstructor {
                        pre_component_id: link.pre_component_id.clone(),
                        post_component_id: Some(entry.name.clone()),
                        interfaces,
                        namespace: link.namespace.clone(),
                        package: link.package.clone(),
                    };
                    (resolved, None)
                } else {
                    let message = String::from_str(
                        "No component found that exports interface ",
                    ).concat(
                        write_triple(
                            link.namespace.as_str(),
                            link.package.as_str(),
                            interface.as_str(),
                        ).as_str(),
                    ).concat(" required by ").concat(link.pre_component_id.as_str());
                    (link.clone(), Some(ValidationError::InterfaceError(message)))
                }
            },
        }
    }

    /// Checks one component entry: it has to name a binary or refer to a
    /// shared application.
    pub fn validate_component_properties(&self, component: &Component) -> (r: Result<
        (),
        ValidationError,
    >)
        ensures
            match r {
                Ok(_) => component_error(component@) is None,
                Err(e) => component_error(component@) == Some(e@),
            },
    {
        let missing = match &component.properties {
            Properties::Component { properties } => properties.image.is_none()
                && properties.application.is_none(),
            Properties::Capability { properties } => properties.image.is_none()
                && properties.application.is_none(),
        };
        if missing {
            return Err(
                ValidationError::ComponentError(
                    component.name.clone().concat(" must specify image or application"),
                ),
            );
        }
        Ok(())
    }

    /// Checks the references and the structure of one link: its source has
    /// an entry, its target too where it has one, and the link passes its
    /// own validation.
    pub fn validate_link_references(&self, link: &LinkConstructor) -> (r: Result<
        (),
        ValidationError,
    >)
        ensures
            match r {
                Ok(_) => self@.reference_error(link@) is None,
                Err(e) => self@.reference_error(link@) == Some(e@),
            },
    {
        if !self.component_exists(link.pre_component_id.as_str()) {
            return Err(
                ValidationError::LinkError(
                    String::from_str("Pre-component '").concat(
                        link.pre_component_id.as_str(),
                    ).concat("' not found"),
                ),
            );
        }
        match &link.post_component_id {
            Some(post) => {
                if !self.component_exists(post.as_str()) {
                    return Err(
                        ValidationError::LinkError(
                            String::from_str("Post-component '").concat(post.as_str()).concat(
                                "' not found",
                            ),
                        ),
                    );
                }
            },
            None => {},
        }
        match link.validate() {
            Ok(_) => Ok(()),
            Err(m) => Err(ValidationError::LinkError(m)),
        }
    }

    /// Checks the basic requirements of every component entry and of every
    /// link, and records what fails in `report`: the entries first, then the
    /// links, each in its order.
    pub fn validate_basic_requirements(&self, report: &mut ValidationReport) -> (r: Result<
        (),
        ValidationError,
    >)
        ensures
            r is Ok,
            final(report)@.errors == old(report)@.errors + self@.basic_errors(),
            final(report)@.is_valid == (old(report)@.is_valid && self@.basic_errors().len() == 0),
            final(report)@.warnings == old(report)@.warnings,
            final(report)@.discovered_links == old(report)@.discovered_links,
            final(report)@.unlinked_interfaces == old(report)@.unlinked_interfaces,
    {
        let ghost of_components = Seq::new(
            self@.components.len(),
            |i: int| component_error(self@.components[i]),
        );
        let ghost of_links = Seq::new(
            self@.links.len(),
            |i: int| self@.reference_error(self@.links[i]),
        );
        let mut i: usize = 0;
        while i < self.spec.components.len()
            invariant
                i <= self.spec.components.len(),
                of_components == Seq::new(
                    self@.components.len(),
                    |i: int| component_error(self@.components[i]),
                ),
                report@.errors == old(report)@.errors + present(of_components.take(i as int)),
                report@.is_valid == (old(report)@.is_valid && present(
                    of_components.take(i as int),
                ).len() == 0),
                report@.warnings == old(report)@.warnings,
                report@.discovered_links == old(report)@.discovered_links,
                report@.unlinked_interfaces == old(report)@.unlinked_interfaces,
            decreases self.spec.components.len() - i,
        {
            let component = &self.spec.components[i];
            proof {
                assert(of_components.take(i as int + 1) =~= of_components.take(i as int).push(
                    of_components[i as int],
                ));
                lemma_present_push(of_components.take(i as int), of_components[i as int]);
            }
            match self.validate_component_properties(component) {
                Ok(_) => {},
                Err(e) => {
                    report.add_error(e);
                },
            }
            i += 1;
        }
        assert(of_components.take(i as int) =~= of_components);
        let ghost middle = report@;
        let mut j: usize = 0;
        while j < self.link_constructors.len()
            invariant
                j <= self.link_constructors.len(),
                of_links == Seq::new(
                    self@.links.len(),
                    |i: int| self@.reference_error(self@.links[i]),
                ),
                report@.errors == middle.errors + present(of_links.take(j as int)),
                report@.is_valid == (middle.is_valid && present(of_links.take(j as int)).len()
                    == 0),
                report@.warnings == middle.warnings,
                report@.discovered_links == middle.discovered_links,
                report@.unlinked_interfaces == middle.unlinked_interfaces,
            decreases self.link_constructors.len() - j,
        {
            let link = &self.link_constructors[j];
            proof {
                assert(of_links.take(j as int + 1) =~= of_links.take(j as int).push(
                    of_links[j as int],
                ));
                lemma_present_push(of_links.take(j as int), of_links[j as int]);
            }
            match self.validate_link_references(link) {
                Ok(_) => {},
                Err(e) => {
                    report.add_error(e);
                },
            }
            j += 1;
        }
        assert(of_links.take(j as int) =~= of_links);
        Ok(())
    }

    /// Validates the registry and resolves its links, in one pass that never
    /// stops early. The basic requirements are checked first, on the links
    /// as they stand. Then each link, in order, is resolved: one that the
    /// runtime satisfies is skipped; a pinned target is checked and kept; a
    /// link without target gets the first known component, other than its
    /// source, that exports its interface, or an error where there is none.
    /// The report holds every error found, and is valid exactly when there
    /// is none.
    pub fn validate(&mut self) -> (r: Result<ValidationReport, ValidationError>)
        ensures
            r is Ok,
            r->Ok_0@ == ReportView::of_errors(old(self)@.validation_errors()),
            final(self)@ == old(self)@.resolved(),
    {
        let mut report = ValidationReport::new();
        let _ = self.validate_basic_requirements(&mut report);
        let ghost basic = report@;
        let ghost errors = Seq::new(
            self@.links.len(),
            |i: int| self@.resolution_error(self@.links[i]),
        );
        let mut resolved: Vec<LinkConstructor> = Vec::new();
        let mut i: usize = 0;
        while i < self.link_constructors.len()
            invariant
                i <= self.link_constructors.len(),
                self@ == old(self)@,
                errors == Seq::new(
                    self@.links.len(),
                    |i: int| self@.resolution_error(self@.links[i]),
                ),
                resolved.len() == i,
                forall|j: int|
                    0 <= j < i ==> resolved.deep_view()[j] == self@.resolved_link(self@.links[j]),
                report@.errors == basic.errors + present(errors.take(i as int)),
                report@.is_valid == (basic.is_valid && present(errors.take(i as int)).len() == 0),
                report@.warnings == basic.warnings,
                report@.discovered_links == basic.discovered_links,
                report@.unlinked_interfaces == basic.unlinked_interfaces,
            decreases self.link_constructors.len() - i,
        {
            let link = &self.link_constructors[i];
            proof {
                assert(errors.take(i as int + 1) =~= errors.take(i as int).push(
                    errors[i as int],
                ));
                lemma_present_push(errors.take(i as int), errors[i as int]);
            }
            let ghost before = resolved.deep_view();
            let (after, error) = self.resolve_link(link);
            resolved.push(after);
            assert(resolved.deep_view() =~= before.push(self@.resolved_link(link@)));
            match error {
                Some(e) => {
                    report.add_error(e);
                },
                None => {},
            }
            i += 1;
        }
        assert(errors.take(i as int) =~= errors);
        assert(resolved.deep_view() =~= old(self)@.resolved().links);
        self.link_constructors = resolved;
        Ok(report)
    }
}

} // verus!
