//! What holds of merging, resolution and emission, proved from the
//! definitions that the contracts are stated over.

use crate::constructor::link::LinkView;
use crate::constructor::merge::{
    asked_triple, catalog_at, http_server_catalog, image_location, image_or_empty,
    lemma_entries_stop, not_imported_message, Outcome,
};
use crate::description::{ManifestView, PropertiesView};
use crate::constructor::validation::{
    no_exporter_message, not_exported_message, ReportView, ValidationErrorView,
};
use crate::constructor::{link_for_import, new_links, pending_link, GraphView};
use crate::description::{ComponentView, TraitPropertyView, TraitView};
use crate::emit::trait_for;
use crate::models::{Catalog, InterfaceTriple};
use crate::roundtrip::reads_as_link;
use crate::runtime::runtime_interface;
use crate::seqs::{
    lemma_first_true_bounds, lemma_first_true_is, lemma_present_from, lemma_present_has,
    lemma_present_is_filter_map, lemma_present_none, lemma_present_single, present,
};
use vstd::prelude::*;

verus! {

/// Every link that a merge adds has the merged component as its source, no
/// target, and one interface, which the runtime does not provide.
pub proof fn law_new_links_are_pending(source: Seq<char>, imports: Seq<InterfaceTriple>, k: int)
    requires
        0 <= k < new_links(source, imports).len(),
    ensures
        new_links(source, imports)[k].source == source,
        new_links(source, imports)[k].target is None,
        new_links(source, imports)[k].interfaces.len() == 1,
        new_links(source, imports)[k].needs_provider(),
        imports.contains(new_links(source, imports)[k].triple()),
{
    let options = Seq::new(imports.len(), |i: int| link_for_import(source, imports[i]));
    lemma_present_from(options, k);
    let i = choose|i: int| 0 <= i < options.len() && options[i] == Some(present(options)[k]);
    assert(new_links(source, imports)[k] == pending_link(source, imports[i]));
    assert(pending_link(source, imports[i]).triple() == imports[i]);
}

/// A component whose imports are all provided by the runtime gets no link
/// when it is merged. So where it had no link before, it has none after, and
/// resolution has nothing to record for it.
pub proof fn law_runtime_imports_add_no_link(
    g: GraphView,
    name: Seq<char>,
    catalog: Catalog,
    location: Seq<char>,
)
    requires
        forall|i: int| 0 <= i < catalog.imports.len() ==> runtime_interface(catalog.imports[i]),
    ensures
        g.merged(name, catalog, location).links == g.links,
        (forall|i: int| 0 <= i < g.links.len() ==> g.links[i].source != name) ==> (forall|i: int|
            0 <= i < g.merged(name, catalog, location).links.len() ==> g.merged(
                name,
                catalog,
                location,
            ).links[i].source != name),
{
    let options = Seq::new(
        catalog.imports.len(),
        |i: int| link_for_import(name, catalog.imports[i]),
    );
    lemma_present_none(options);
    assert(g.links + Seq::<LinkView>::empty() =~= g.links);
}

/// Resolution records no error for a link whose interface the runtime
/// provides, and leaves the link as it is.
pub proof fn law_runtime_link_is_skipped(g: GraphView, l: LinkView)
    requires
        l.is_runtime(),
    ensures
        g.resolution_error(l) is None,
        g.resolved_link(l) == l,
{
}

/// Merging a component that imports exactly one interface, which the runtime
/// provides, adds no link.
pub proof fn law_runtime_import_adds_no_link(
    g: GraphView,
    name: Seq<char>,
    catalog: Catalog,
    location: Seq<char>,
    t: InterfaceTriple,
)
    requires
        runtime_interface(t),
        catalog.imports == seq![t],
    ensures
        g.merged(name, catalog, location).links == g.links,
{
    law_runtime_imports_add_no_link(g, name, catalog, location);
}

/// Where exactly one known component other than the source exports the
/// interface of a link without target, resolution gives the link that
/// component as its target and records no error.
pub proof fn law_single_exporter_is_chosen(g: GraphView, l: LinkView, b: Seq<char>)
    requires
        l.needs_provider(),
        l.target is None,
        b != l.source,
        exists|k: int|
            0 <= k < g.catalogs.len() && g.catalogs[k].name == b
                && g.catalogs[k].catalog.exports.contains(l.triple()),
        forall|k: int|
            0 <= k < g.catalogs.len() && g.catalogs[k].catalog.exports.contains(l.triple())
                ==> g.catalogs[k].name == b,
    ensures
        g.resolved_link(l) == (LinkView { target: Some(b), ..l }),
        g.resolution_error(l) is None,
{
    let flags = g.exporter_flags(l);
    lemma_first_true_bounds(flags);
    let k = choose|k: int|
        0 <= k < g.catalogs.len() && g.catalogs[k].name == b
            && g.catalogs[k].catalog.exports.contains(l.triple());
    assert(flags[k]);
}

/// A resolved link shows in the emitted description: the entry of its source
/// gets the link's trait, which names the link's target.
pub proof fn law_link_is_emitted(g: GraphView, i: int)
    requires
        0 <= i < g.links.len(),
        !g.links[i].is_runtime(),
    ensures
        g.link_traits_of(g.links[i].source).contains(g.links[i].link_trait()),
        g.links[i].link_trait().properties matches TraitPropertyView::Link(p) && p.target.name
            == g.links[i].target_name() && p.interfaces == g.links[i].interfaces && p.namespace
            == g.links[i].namespace && p.package == g.links[i].package,
{
    let name = g.links[i].source;
    let options = Seq::new(g.links.len(), |j: int| trait_for(g.links[j], name));
    lemma_present_has(options, i);
}

/// Where `b` is the only known component that exports the interface of a
/// link without target, and `b` is not the link's source, resolution gives
/// the link the target `b`, and the description that the resolved graph is
/// emitted as carries, on every entry of the source, the link's trait, which
/// names `b`.
pub proof fn law_sole_exporter_is_linked_and_emitted(
    g: GraphView,
    i: int,
    b: Seq<char>,
    c: int,
    name: Seq<char>,
    version: Seq<char>,
    description: Seq<char>,
)
    requires
        0 <= i < g.links.len(),
        g.links[i].needs_provider(),
        g.links[i].target is None,
        b != g.links[i].source,
        exists|k: int|
            0 <= k < g.catalogs.len() && g.catalogs[k].name == b
                && g.catalogs[k].catalog.exports.contains(g.links[i].triple()),
        forall|k: int|
            0 <= k < g.catalogs.len() && g.catalogs[k].catalog.exports.contains(
                g.links[i].triple(),
            ) ==> g.catalogs[k].name == b,
        0 <= c < g.components.len(),
        g.components[c].name == g.links[i].source,
    ensures
        g.resolved().links[i] == (LinkView { target: Some(b), ..g.links[i] }),
        g.resolution_error(g.links[i]) is None,
        g.resolved().emitted(name, version, description).spec.components[c].traits is Some,
        g.resolved().emitted(name, version, description).spec.components[c].traits->Some_0.contains(
            g.resolved().links[i].link_trait(),
        ),
        g.resolved().links[i].link_trait().properties matches TraitPropertyView::Link(p)
            && p.target.name == b,
{
    law_single_exporter_is_chosen(g, g.links[i], b);
    let h = g.resolved();
    law_link_is_emitted(h, i);
    let added = h.link_traits_of(h.links[i].source);
    let t = h.links[i].link_trait();
    let k = choose|k: int| 0 <= k < added.len() && added[k] == t;
    let all = h.emitted(name, version, description).spec.components[c].traits->Some_0;
    match h.components[c].traits {
        Some(own) => {
            assert(all[own.len() + k] == t);
        },
        None => {
            assert(all[k] == t);
        },
    }
}

/// Where some known component other than the source exports the interface of
/// a link without target, resolution picks one of them, the first in the
/// order of the catalogs, and records no error, however many there are.
pub proof fn law_first_exporter_is_chosen(g: GraphView, l: LinkView, k: int)
    requires
        l.needs_provider(),
        l.target is None,
        0 <= k < g.catalogs.len(),
        g.catalogs[k].name != l.source,
        g.catalogs[k].catalog.exports.contains(l.triple()),
    ensures
        g.resolution_error(l) is None,
        0 <= g.exporter_index(l) <= k,
        g.resolved_link(l).target == Some(g.catalogs[g.exporter_index(l)].name),
        g.catalogs[g.exporter_index(l)].name != l.source,
        g.catalogs[g.exporter_index(l)].catalog.exports.contains(l.triple()),
{
    let flags = g.exporter_flags(l);
    lemma_first_true_bounds(flags);
    assert(flags[k]);
}

/// Where no known component other than the source exports the interface of a
/// link without target, resolution records exactly the interface error that
/// names the source and the interface, and leaves the link without target.
pub proof fn law_missing_exporter_is_reported(g: GraphView, l: LinkView)
    requires
        l.needs_provider(),
        l.target is None,
        forall|k: int|
            0 <= k < g.catalogs.len() ==> g.catalogs[k].name == l.source
                || !g.catalogs[k].catalog.exports.contains(l.triple()),
    ensures
        g.resolution_error(l) == Some(
            ValidationErrorView::InterfaceError(no_exporter_message(l)),
        ),
        g.resolved_link(l) == l,
{
    let flags = g.exporter_flags(l);
    lemma_first_true_is(flags, flags.len() as int);
}

/// Where the basic requirements hold and a single link lacks an exporter,
/// all else resolving without error, validation records exactly one error:
/// the interface error that names the link's source and its interface. The
/// report is then not valid.
pub proof fn law_lone_missing_exporter_is_the_only_error(g: GraphView, i: int)
    requires
        0 <= i < g.links.len(),
        g.links[i].needs_provider(),
        g.links[i].target is None,
        forall|k: int|
            0 <= k < g.catalogs.len() ==> g.catalogs[k].name == g.links[i].source
                || !g.catalogs[k].catalog.exports.contains(g.links[i].triple()),
        g.basic_errors().len() == 0,
        forall|j: int|
            0 <= j < g.links.len() && j != i ==> g.resolution_error(#[trigger] g.links[j])
                is None,
    ensures
        g.validation_errors() == seq![
            ValidationErrorView::InterfaceError(no_exporter_message(g.links[i])),
        ],
        !ReportView::of_errors(g.validation_errors()).is_valid,
        g.resolved().links[i].target is None,
{
    law_missing_exporter_is_reported(g, g.links[i]);
    let options = Seq::new(g.links.len(), |j: int| g.resolution_error(g.links[j]));
    lemma_present_single(options, i);
    assert(g.validation_errors() =~= g.resolution_errors());
}

/// A link for which resolution records an error makes the report invalid.
pub proof fn law_unresolved_link_invalidates(g: GraphView, i: int)
    requires
        0 <= i < g.links.len(),
        g.resolution_error(g.links[i]) is Some,
    ensures
        g.validation_errors().contains(g.resolution_error(g.links[i])->Some_0),
        !ReportView::of_errors(g.validation_errors()).is_valid,
{
    let options = Seq::new(g.links.len(), |j: int| g.resolution_error(g.links[j]));
    lemma_present_has(options, i);
    let e = g.resolution_error(g.links[i])->Some_0;
    let k = choose|k: int| 0 <= k < present(options).len() && present(options)[k] == e;
    assert(g.validation_errors()[g.basic_errors().len() + k] == e);
}

/// A report is valid exactly when it holds no error.
pub proof fn law_valid_means_no_error(errors: Seq<ValidationErrorView>)
    ensures
        ReportView::of_errors(errors).is_valid <==> errors.len() == 0,
{
}

/// A pinned target is authoritative: resolution never replaces it.
pub proof fn law_pinned_target_is_kept(g: GraphView, l: LinkView)
    requires
        l.target is Some,
    ensures
        g.resolved_link(l) == l,
{
}

/// Where a link is pinned to a known component that does not export the
/// link's interface, resolution records the interface error that names that
/// component.
pub proof fn law_wrong_pin_is_reported(g: GraphView, l: LinkView, c: Seq<char>)
    requires
        l.needs_provider(),
        l.target == Some(c),
        g.knows(c),
        !g.catalog(c).exports.contains(l.triple()),
    ensures
        g.resolution_error(l) == Some(
            ValidationErrorView::InterfaceError(not_exported_message(c, l)),
        ),
{
}

/// A link trait of a description pins the link that it speaks of. Where the
/// component `a` imports the trait's interface and the link at place `i` is
/// the first with that source, interface, namespace and package, the merge
/// of the trait gives that link the trait's target and changes nothing else.
pub proof fn law_link_trait_pins(g: GraphView, a: Seq<char>, t: TraitView, i: int)
    requires
        t.trait_type == "link"@,
        t.properties is Link,
        g.knows(a),
        t.properties->Link_0.interfaces.len() > 0,
        g.catalog(a).imports.contains(asked_triple(t.properties->Link_0)),
        0 <= i < g.links.len(),
        g.pin_flags(a, t.properties->Link_0)[i],
        forall|j: int| 0 <= j < i ==> !g.pin_flags(a, t.properties->Link_0)[j],
    ensures
        g.with_pin(a, t).error is None,
        g.with_pin(a, t).graph == (GraphView {
            links: g.links.update(
                i,
                LinkView { target: Some(t.properties->Link_0.target.name), ..g.links[i] },
            ),
            ..g
        }),
{
    lemma_first_true_is(g.pin_flags(a, t.properties->Link_0), i);
}

/// A description that pins an import of `a` to a component `c` that does not
/// export the interface is merged without complaint, and resolution then
/// records the interface error that names `c`.
pub proof fn law_pin_to_non_exporter_is_reported(
    g: GraphView,
    a: Seq<char>,
    t: TraitView,
    i: int,
    c: Seq<char>,
)
    requires
        t.trait_type == "link"@,
        t.properties is Link,
        t.properties->Link_0.target.name == c,
        g.knows(a),
        g.knows(c),
        t.properties->Link_0.interfaces.len() > 0,
        !runtime_interface(asked_triple(t.properties->Link_0)),
        g.catalog(a).imports.contains(asked_triple(t.properties->Link_0)),
        !g.catalog(c).exports.contains(asked_triple(t.properties->Link_0)),
        0 <= i < g.links.len(),
        g.pin_flags(a, t.properties->Link_0)[i],
        forall|j: int| 0 <= j < i ==> !g.pin_flags(a, t.properties->Link_0)[j],
    ensures
        g.with_pin(a, t).error is None,
        g.with_pin(a, t).graph.resolution_error(g.with_pin(a, t).graph.links[i]) == Some(
            ValidationErrorView::InterfaceError(
                not_exported_message(c, g.with_pin(a, t).graph.links[i]),
            ),
        ),
{
    law_link_trait_pins(g, a, t, i);
    let h = g.with_pin(a, t).graph;
    let l = h.links[i];
    assert(l.triple() == asked_triple(t.properties->Link_0));
    assert(h.catalogs == g.catalogs);
}

/// Emission leaves the runtime out: every link trait that an entry is given
/// is the trait of one of its links, and that link is not for an interface
/// that the runtime provides.
pub proof fn law_emitted_traits_are_of_open_links(g: GraphView, name: Seq<char>, k: int)
    requires
        0 <= k < g.link_traits_of(name).len(),
    ensures
        exists|i: int|
            0 <= i < g.links.len() && g.links[i].source == name && !g.links[i].is_runtime()
                && g.link_traits_of(name)[k] == #[trigger] g.links[i].link_trait(),
{
    let options = Seq::new(g.links.len(), |j: int| trait_for(g.links[j], name));
    lemma_present_from(options, k);
    let i = choose|i: int| 0 <= i < options.len() && options[i] == Some(present(options)[k]);
    assert(g.link_traits_of(name)[k] == g.links[i].link_trait());
}

/// A description that pins one import sets one target. Let the description
/// hold a single entry, for a component `a` that has an entry and a
/// catalog, and let the trait at place `j` of the entry be a link trait for
/// an interface that `a` imports, all its other traits being no link
/// traits. Let the link at place `i` be the first that the trait speaks of.
/// Then the merge goes well and gives that link the trait's target, whether
/// or not the target is a known component or exports the interface. Every
/// other link, every entry and every catalog stays as it was.
pub proof fn law_description_pins_one_link(
    g: GraphView,
    m: ManifestView,
    decoded: Seq<Option<Catalog>>,
    i: int,
    j: int,
)
    requires
        m.spec.components.len() == 1,
        g.component_exists(m.spec.components[0].name),
        g.knows(m.spec.components[0].name),
        m.spec.components[0].traits is Some,
        0 <= j < m.spec.components[0].traits->Some_0.len(),
        reads_as_link(m.spec.components[0].traits->Some_0[j]),
        forall|k: int|
            0 <= k < m.spec.components[0].traits->Some_0.len() && k != j ==> !reads_as_link(
                #[trigger] m.spec.components[0].traits->Some_0[k],
            ),
        ({
            let a = m.spec.components[0].name;
            let p = m.spec.components[0].traits->Some_0[j].properties->Link_0;
            &&& p.interfaces.len() > 0
            &&& g.catalog(a).imports.contains(asked_triple(p))
            &&& 0 <= i < g.links.len()
            &&& g.pin_flags(a, p)[i]
            &&& forall|n: int| 0 <= n < i ==> !g.pin_flags(a, p)[n]
        }),
    ensures
        g.with_description(m, decoded).error is None,
        g.with_description(m, decoded).graph.links == g.links.update(
            i,
            LinkView {
                target: Some(
                    m.spec.components[0].traits->Some_0[j].properties->Link_0.target.name,
                ),
                ..g.links[i]
            },
        ),
        g.with_description(m, decoded).graph.components == g.components,
        g.with_description(m, decoded).graph.catalogs == g.catalogs,
{
    let c = m.spec.components[0];
    let a = c.name;
    let traits = c.traits->Some_0;
    let t = traits[j];
    let p = t.properties->Link_0;
    let start = g.adopting(m);
    assert(start.component_flags(a) =~= g.component_flags(a));
    assert(start.catalog_flags(a) =~= g.catalog_flags(a));
    assert(start.pin_flags(a, p) =~= g.pin_flags(a, p));
    lemma_pins_of_one_link(start, a, traits, i, j, traits.len() as int);
    assert(traits.take(traits.len() as int) =~= traits);
    let entries = m.spec.components;
    assert(entries.drop_last() =~= Seq::<ComponentView>::empty());
    assert(entries.last() == c);
    assert(start.with_entries(entries.drop_last(), decoded) == (Outcome {
        graph: start,
        error: None,
    }));
    assert(start.with_entries(entries, decoded) == start.with_entry(c, catalog_at(decoded, 0)));
}

/// Such a description, where its link trait names a known target that does
/// not export the interface, is merged without complaint; resolution then
/// records for the pinned link the interface error that names the target,
/// and keeps the target.
pub proof fn law_description_pin_to_non_exporter_is_reported(
    g: GraphView,
    m: ManifestView,
    decoded: Seq<Option<Catalog>>,
    i: int,
    j: int,
)
    requires
        m.spec.components.len() == 1,
        g.component_exists(m.spec.components[0].name),
        g.knows(m.spec.components[0].name),
        m.spec.components[0].traits is Some,
        0 <= j < m.spec.components[0].traits->Some_0.len(),
        reads_as_link(m.spec.components[0].traits->Some_0[j]),
        forall|k: int|
            0 <= k < m.spec.components[0].traits->Some_0.len() && k != j ==> !reads_as_link(
                #[trigger] m.spec.components[0].traits->Some_0[k],
            ),
        ({
            let a = m.spec.components[0].name;
            let p = m.spec.components[0].traits->Some_0[j].properties->Link_0;
            &&& p.interfaces.len() > 0
            &&& !runtime_interface(asked_triple(p))
            &&& g.catalog(a).imports.contains(asked_triple(p))
            &&& 0 <= i < g.links.len()
            &&& g.pin_flags(a, p)[i]
            &&& forall|n: int| 0 <= n < i ==> !g.pin_flags(a, p)[n]
            &&& g.knows(p.target.name)
            &&& !g.catalog(p.target.name).exports.contains(asked_triple(p))
        }),
    ensures
        g.with_description(m, decoded).error is None,
        ({
            let h = g.with_description(m, decoded).graph;
            let c = m.spec.components[0].traits->Some_0[j].properties->Link_0.target.name;
            &&& h.links[i].target == Some(c)
            &&& h.resolution_error(h.links[i]) == Some(
                ValidationErrorView::InterfaceError(not_exported_message(c, h.links[i])),
            )
            &&& h.resolved().links[i].target == Some(c)
        }),
{
    law_description_pins_one_link(g, m, decoded, i, j);
    let h = g.with_description(m, decoded).graph;
    let p = m.spec.components[0].traits->Some_0[j].properties->Link_0;
    assert(h.links[i].triple() == asked_triple(p));
    assert(h.catalog_flags(p.target.name) =~= g.catalog_flags(p.target.name));
}

proof fn lemma_pins_of_one_link(
    g: GraphView,
    a: Seq<char>,
    traits: Seq<TraitView>,
    i: int,
    j: int,
    n: int,
)
    requires
        g.knows(a),
        0 <= j < traits.len(),
        0 <= n <= traits.len(),
        reads_as_link(traits[j]),
        forall|k: int| 0 <= k < traits.len() && k != j ==> !reads_as_link(#[trigger] traits[k]),
        traits[j].properties->Link_0.interfaces.len() > 0,
        g.catalog(a).imports.contains(asked_triple(traits[j].properties->Link_0)),
        0 <= i < g.links.len(),
        g.pin_flags(a, traits[j].properties->Link_0)[i],
        forall|k: int| 0 <= k < i ==> !g.pin_flags(a, traits[j].properties->Link_0)[k],
    ensures
        g.with_pins(a, traits.take(n)) == (Outcome {
            graph: if n <= j {
                g
            } else {
                GraphView {
                    links: g.links.update(
                        i,
                        LinkView {
                            target: Some(traits[j].properties->Link_0.target.name),
                            ..g.links[i]
                        },
                    ),
                    ..g
                }
            },
            error: None,
        }),
    decreases n,
{
    if n > 0 {
        lemma_pins_of_one_link(g, a, traits, i, j, n - 1);
        let prefix = traits.take(n);
        assert(prefix.drop_last() =~= traits.take(n - 1));
        assert(prefix.last() == traits[n - 1]);
        if n - 1 == j {
            law_link_trait_pins(g, a, traits[j], i);
        } else {
            assert(!reads_as_link(traits[n - 1]));
        }
    } else {
        assert(traits.take(0) =~= Seq::<TraitView>::empty());
    }
}

/// A link trait for an interface that its component does not import stops
/// the merge with an error, and leaves the graph as it was.
pub proof fn law_foreign_link_trait_is_rejected(g: GraphView, a: Seq<char>, t: TraitView)
    requires
        t.trait_type == "link"@,
        t.properties is Link,
        g.knows(a),
        !g.catalog(a).imports.contains(asked_triple(t.properties->Link_0)),
    ensures
        g.with_pin(a, t).error == Some(not_imported_message(a, t.properties->Link_0)),
        g.with_pin(a, t).graph == g,
{
}

/// Pins change nothing but links: the component entries and the catalogs
/// stay as they are, and no link comes or goes.
pub proof fn law_pins_keep_catalogs(g: GraphView, a: Seq<char>, traits: Seq<TraitView>)
    ensures
        g.with_pins(a, traits).graph.catalogs == g.catalogs,
        g.with_pins(a, traits).graph.components == g.components,
        g.with_pins(a, traits).graph.links.len() == g.links.len(),
    decreases traits.len(),
{
    if traits.len() > 0 {
        law_pins_keep_catalogs(g, a, traits.drop_last());
        let before = g.with_pins(a, traits.drop_last()).graph;
        if traits.last().properties is Link {
            lemma_first_true_bounds(before.pin_flags(a, traits.last().properties->Link_0));
        }
    }
}

/// An entry for a known component that carries a link trait for an interface
/// that the component does not import stops the merge of the entry with an
/// error, whatever else the entry carries.
pub proof fn law_foreign_link_entry_is_rejected(
    g: GraphView,
    c: ComponentView,
    j: int,
    decoded: Option<Catalog>,
)
    requires
        g.component_exists(c.name),
        g.knows(c.name),
        c.traits is Some,
        0 <= j < c.traits->Some_0.len(),
        c.traits->Some_0[j].trait_type == "link"@,
        c.traits->Some_0[j].properties is Link,
        !g.catalog(c.name).imports.contains(asked_triple(c.traits->Some_0[j].properties->Link_0)),
    ensures
        g.with_entry(c, decoded).error is Some,
{
    lemma_pins_reject(g, c.name, c.traits->Some_0, j, c.traits->Some_0.len() as int);
    assert(c.traits->Some_0.take(c.traits->Some_0.len() as int) =~= c.traits->Some_0);
}

/// A description with such an entry is rejected as a whole. Let the entry at
/// place `k` of the description be for a component that has an entry and a
/// catalog when the merge comes to it, and let it carry a link trait for an
/// interface that the catalog does not import. Then the merge of the
/// description ends in an error, and appends no policy.
pub proof fn law_foreign_link_description_is_rejected(
    g: GraphView,
    m: ManifestView,
    decoded: Seq<Option<Catalog>>,
    k: int,
    j: int,
)
    requires
        0 <= k < m.spec.components.len(),
        ({
            let before = g.adopting(m).with_entries(m.spec.components.take(k), decoded).graph;
            let c = m.spec.components[k];
            &&& before.component_exists(c.name)
            &&& before.knows(c.name)
            &&& c.traits is Some
            &&& 0 <= j < c.traits->Some_0.len()
            &&& c.traits->Some_0[j].trait_type == "link"@
            &&& c.traits->Some_0[j].properties is Link
            &&& !before.catalog(c.name).imports.contains(
                asked_triple(c.traits->Some_0[j].properties->Link_0),
            )
        }),
    ensures
        g.with_description(m, decoded).error is Some,
        g.with_description(m, decoded).graph.policies == g.policies,
{
    let start = g.adopting(m);
    let entries = m.spec.components;
    let before = start.with_entries(entries.take(k), decoded);
    if before.error is Some {
        lemma_entries_stop(start, entries, decoded, k);
    } else {
        law_foreign_link_entry_is_rejected(
            before.graph,
            entries[k],
            j,
            catalog_at(decoded, k),
        );
        assert(entries.take(k + 1).drop_last() =~= entries.take(k));
        assert(entries.take(k + 1).last() == entries[k]);
        lemma_entries_stop(start, entries, decoded, k + 1);
    }
    lemma_entries_keep_policies(start, entries, decoded);
}

proof fn lemma_entries_keep_policies(
    g: GraphView,
    entries: Seq<ComponentView>,
    decoded: Seq<Option<Catalog>>,
)
    ensures
        g.with_entries(entries, decoded).graph.policies == g.policies,
    decreases entries.len(),
{
    if entries.len() > 0 {
        lemma_entries_keep_policies(g, entries.drop_last(), decoded);
        let before = g.with_entries(entries.drop_last(), decoded).graph;
        let c = entries.last();
        if before.component_exists(c.name) && c.traits is Some {
            lemma_pins_keep_policies(before, c.name, c.traits->Some_0);
        }
    }
}

proof fn lemma_pins_keep_policies(g: GraphView, a: Seq<char>, traits: Seq<TraitView>)
    ensures
        g.with_pins(a, traits).graph.policies == g.policies,
    decreases traits.len(),
{
    if traits.len() > 0 {
        lemma_pins_keep_policies(g, a, traits.drop_last());
    }
}

proof fn lemma_pins_reject(g: GraphView, a: Seq<char>, traits: Seq<TraitView>, j: int, n: int)
    requires
        g.knows(a),
        0 <= j < n <= traits.len(),
        traits[j].trait_type == "link"@,
        traits[j].properties is Link,
        !g.catalog(a).imports.contains(asked_triple(traits[j].properties->Link_0)),
    ensures
        g.with_pins(a, traits.take(n)).error is Some,
    decreases n,
{
    let prefix = traits.take(n);
    assert(prefix.drop_last() =~= traits.take(n - 1));
    if j < n - 1 {
        lemma_pins_reject(g, a, traits, j, n - 1);
    } else {
        law_pins_keep_catalogs(g, a, traits.take(n - 1));
        let before = g.with_pins(a, traits.take(n - 1));
        assert(prefix.last() == traits[j]);
        if before.error is None {
            assert(before.graph.catalog_flags(a) =~= g.catalog_flags(a));
        }
    }
}

/// The trait that a link is emitted as pins the same target when it is
/// merged again. Where the component `l.source` imports the interface of the
/// resolved link `l`, and the link at place `i` of the graph `f` is the first
/// with the source, interface list, namespace and package of `l`, the merge
/// of the emitted trait gives that link the target of `l`.
pub proof fn law_emitted_trait_pins_same_target(f: GraphView, l: LinkView, i: int)
    requires
        l.target is Some,
        l.interfaces.len() > 0,
        f.knows(l.source),
        f.catalog(l.source).imports.contains(l.triple()),
        0 <= i < f.links.len(),
        f.links[i].source == l.source,
        f.links[i].interfaces == l.interfaces,
        f.links[i].namespace == l.namespace,
        f.links[i].package == l.package,
        forall|j: int|
            0 <= j < i ==> !(f.links[j].source == l.source && f.links[j].interfaces
                == l.interfaces && f.links[j].namespace == l.namespace && f.links[j].package
                == l.package),
    ensures
        f.with_pin(l.source, l.link_trait()).error is None,
        f.with_pin(l.source, l.link_trait()).graph.links[i] == l,
        f.with_pin(l.source, l.link_trait()).graph.links == f.links.update(i, l),
{
    let t = l.link_trait();
    assert(asked_triple(t.properties->Link_0) == l.triple());
    law_link_trait_pins(f, l.source, t, i);
}

/// A merge keeps names unique: where no two catalogs and no two component
/// entries shared a name before, none do after. Nothing is ever removed:
/// each list keeps its length or grows by one, and the links only grow.
pub proof fn law_merge_only_grows(
    g: GraphView,
    name: Seq<char>,
    catalog: Catalog,
    location: Seq<char>,
)
    ensures
        g.well_formed() ==> g.merged(name, catalog, location).well_formed(),
        g.merged(name, catalog, location).knows(name),
        g.merged(name, catalog, location).catalog(name) == catalog,
        g.merged(name, catalog, location).component_exists(name),
        g.catalogs.len() <= g.merged(name, catalog, location).catalogs.len() <= g.catalogs.len()
            + 1,
        g.components.len() <= g.merged(name, catalog, location).components.len()
            <= g.components.len() + 1,
        g.links.is_prefix_of(g.merged(name, catalog, location).links),
        forall|i: int|
            0 <= i < g.components.len() ==> g.merged(name, catalog, location).components[i].name
                == g.components[i].name,
        forall|i: int|
            0 <= i < g.catalogs.len() ==> g.merged(name, catalog, location).catalogs[i].name
                == g.catalogs[i].name,
{
    let h = g.merged(name, catalog, location);
    lemma_first_true_bounds(g.catalog_flags(name));
    lemma_first_true_bounds(g.component_flags(name));
    let ci = g.catalog_index(name);
    let mi = g.component_index(name);
    assert forall|i: int| 0 <= i < g.catalogs.len() implies h.catalogs[i].name
        == g.catalogs[i].name by {
        assert(g.catalog_flags(name)[i] == (g.catalogs[i].name == name));
    }
    assert forall|i: int| 0 <= i < g.components.len() implies h.components[i].name
        == g.components[i].name by {
        assert(g.component_flags(name)[i] == (g.components[i].name == name));
    }
    if g.knows(name) {
        assert(g.catalog_flags(name)[ci]);
    }
    if g.component_exists(name) {
        assert(g.component_flags(name)[mi]);
    }
    assert(forall|j: int| 0 <= j < ci ==> !g.catalog_flags(name)[j]);
    assert(forall|j: int| 0 <= j < mi ==> !g.component_flags(name)[j]);
    assert(h.catalog_flags(name).len() == h.catalogs.len());
    assert(h.catalog_flags(name)[ci]);
    assert forall|j: int| 0 <= j < ci implies !h.catalog_flags(name)[j] by {
        assert(!g.catalog_flags(name)[j]);
    }
    lemma_first_true_is(h.catalog_flags(name), ci);
    assert(h.component_flags(name)[mi]);
    assert forall|j: int| 0 <= j < mi implies !h.component_flags(name)[j] by {
        assert(!g.component_flags(name)[j]);
    }
    lemma_first_true_is(h.component_flags(name), mi);
    if g.well_formed() {
        assert forall|i: int, j: int| 0 <= i < j < h.catalogs.len() implies h.catalogs[i].name
            != h.catalogs[j].name by {
            if j == g.catalogs.len() {
                assert(!g.catalog_flags(name)[i]);
            }
        }
        assert forall|i: int, j: int| 0 <= i < j < h.components.len() implies h.components[i].name
            != h.components[j].name by {
            if j == g.components.len() {
                assert(!g.component_flags(name)[i]);
            }
        }
    }
}

/// The merge of a description keeps names unique: where no two catalogs and
/// no two component entries shared a name before, none do after, whether
/// the merge ends in an error or not.
pub proof fn law_description_keeps_names_unique(
    g: GraphView,
    m: ManifestView,
    decoded: Seq<Option<Catalog>>,
)
    requires
        g.well_formed(),
    ensures
        g.with_description(m, decoded).graph.well_formed(),
{
    lemma_entries_keep_names_unique(g.adopting(m), m.spec.components, decoded);
}

proof fn lemma_entries_keep_names_unique(
    g: GraphView,
    entries: Seq<ComponentView>,
    decoded: Seq<Option<Catalog>>,
)
    requires
        g.well_formed(),
    ensures
        g.with_entries(entries, decoded).graph.well_formed(),
    decreases entries.len(),
{
    if entries.len() > 0 {
        lemma_entries_keep_names_unique(g, entries.drop_last(), decoded);
        let before = g.with_entries(entries.drop_last(), decoded);
        let c = entries.last();
        let d = catalog_at(decoded, entries.len() - 1);
        if before.error is None {
            if before.graph.component_exists(c.name) {
                if c.traits is Some {
                    law_pins_keep_catalogs(before.graph, c.name, c.traits->Some_0);
                }
            } else {
                match c.properties {
                    PropertiesView::Component { properties } => {
                        if properties.image is Some && d is Some {
                            law_merge_only_grows(
                                before.graph,
                                c.name,
                                d->Some_0,
                                image_location(properties.image->Some_0),
                            );
                        }
                    },
                    PropertiesView::Capability { .. } => {
                        law_merge_only_grows(
                            before.graph,
                            c.name,
                            http_server_catalog(),
                            image_or_empty(c.properties),
                        );
                    },
                }
            }
        }
    }
}

/// A merge adds exactly one link for each import that the runtime does not
/// provide, in the order of the imports.
pub proof fn law_one_link_per_import(source: Seq<char>, imports: Seq<InterfaceTriple>)
    ensures
        new_links(source, imports) == imports.filter_map(
            |t: InterfaceTriple| link_for_import(source, t),
        ),
{
    let f = |t: InterfaceTriple| link_for_import(source, t);
    lemma_present_is_filter_map(imports, f);
    assert(Seq::new(imports.len(), |i: int| f(imports[i])) =~= Seq::new(
        imports.len(),
        |i: int| link_for_import(source, imports[i]),
    ));
}

/// Whether every catalog and every link of the graph belongs to a
/// component that has an entry.
pub open spec fn references_hold(g: GraphView) -> bool {
    &&& forall|k: int|
        0 <= k < g.catalogs.len() ==> g.component_exists(#[trigger] g.catalogs[k].name)
    &&& forall|i: int| 0 <= i < g.links.len() ==> g.component_exists(#[trigger] g.links[i].source)
}

/// A merge keeps references whole: where every catalog and every link
/// belonged to a component with an entry before, they do after. The graph
/// that holds nothing is such a graph.
pub proof fn law_merge_keeps_references(
    g: GraphView,
    name: Seq<char>,
    catalog: Catalog,
    location: Seq<char>,
)
    requires
        references_hold(g),
    ensures
        references_hold(g.merged(name, catalog, location)),
        references_hold(GraphView::empty()),
{
    let h = g.merged(name, catalog, location);
    law_merge_only_grows(g, name, catalog, location);
    assert forall|n: Seq<char>| g.component_exists(n) implies h.component_exists(n) by {
        law_existence_is_membership(g, n);
        law_existence_is_membership(h, n);
        let i = choose|i: int| 0 <= i < g.components.len() && #[trigger] g.components[i].name == n;
        assert(h.components[i].name == n);
    }
    lemma_first_true_bounds(g.catalog_flags(name));
    assert forall|k: int| 0 <= k < h.catalogs.len() implies h.component_exists(
        #[trigger] h.catalogs[k].name,
    ) by {
        if k < g.catalogs.len() {
            assert(h.catalogs[k].name == g.catalogs[k].name);
            assert(g.component_exists(g.catalogs[k].name));
        }
    }
    assert forall|i: int| 0 <= i < h.links.len() implies h.component_exists(
        #[trigger] h.links[i].source,
    ) by {
        if i < g.links.len() {
            assert(h.links[i] == g.links[i]);
            assert(g.component_exists(g.links[i].source));
        } else {
            law_new_links_are_pending(name, catalog.imports, i - g.links.len());
        }
    }
}

/// In a graph whose references are whole, every target that resolution
/// sets is a component with an entry, and no link has a source without an
/// entry.
pub proof fn law_resolved_targets_exist(g: GraphView, i: int)
    requires
        references_hold(g),
        0 <= i < g.links.len(),
        g.links[i].target is None,
        g.resolved().links[i].target is Some,
    ensures
        g.component_exists(g.resolved().links[i].target->Some_0),
        g.component_exists(g.links[i].source),
        references_hold(g.resolved()),
{
    lemma_first_true_bounds(g.exporter_flags(g.links[i]));
    let h = g.resolved();
    assert forall|n: Seq<char>| g.component_exists(n) == h.component_exists(n) by {
        assert(h.component_flags(n) =~= g.component_flags(n));
    }
    assert forall|j: int| 0 <= j < h.links.len() implies h.component_exists(
        #[trigger] h.links[j].source,
    ) by {
        assert(g.component_exists(g.links[j].source));
    }
    assert forall|k: int| 0 <= k < h.catalogs.len() implies h.component_exists(
        #[trigger] h.catalogs[k].name,
    ) by {
        assert(g.component_exists(g.catalogs[k].name));
    }
}

/// Resolution changes nothing but the targets of links: as many links as
/// before, each with its source, interfaces, namespace and package.
pub proof fn law_resolution_keeps_links(g: GraphView, i: int)
    requires
        0 <= i < g.links.len(),
    ensures
        g.resolved().links.len() == g.links.len(),
        g.resolved().links[i].source == g.links[i].source,
        g.resolved().links[i].interfaces == g.links[i].interfaces,
        g.resolved().links[i].namespace == g.links[i].namespace,
        g.resolved().links[i].package == g.links[i].package,
        g.links[i].target is Some ==> g.resolved().links[i] == g.links[i],
        g.resolved().components == g.components,
        g.resolved().catalogs == g.catalogs,
{
}

/// Resolution is idempotent: a second pass over a resolved graph changes
/// nothing.
pub proof fn law_resolution_is_idempotent(g: GraphView)
    ensures
        g.resolved().resolved() == g.resolved(),
{
    let h = g.resolved();
    assert forall|i: int| 0 <= i < h.links.len() implies h.resolved_link(h.links[i])
        == h.links[i] by {
        let l = g.links[i];
        assert(h.links[i] == g.resolved_link(l));
        if h.links[i].target is None {
            assert(h.links[i] == l);
            assert(h.exporter_flags(l) =~= g.exporter_flags(l));
        }
    }
    assert(h.resolved().links =~= h.links);
}

/// A component entry of a name exists exactly when some entry is called so,
/// and a component is known exactly when some catalog stands under its
/// name.
pub proof fn law_existence_is_membership(g: GraphView, name: Seq<char>)
    ensures
        g.component_exists(name) <==> exists|i: int|
            0 <= i < g.components.len() && #[trigger] g.components[i].name == name,
        g.knows(name) <==> exists|i: int|
            0 <= i < g.catalogs.len() && #[trigger] g.catalogs[i].name == name,
        g.knows(name) ==> g.catalogs[g.catalog_index(name)].name == name,
        g.component_exists(name) ==> g.components[g.component_index(name)].name == name,
{
    lemma_first_true_bounds(g.component_flags(name));
    lemma_first_true_bounds(g.catalog_flags(name));
    if g.component_exists(name) {
        assert(g.component_flags(name)[g.component_index(name)]);
    }
    if g.knows(name) {
        assert(g.catalog_flags(name)[g.catalog_index(name)]);
    }
    if exists|i: int| 0 <= i < g.components.len() && #[trigger] g.components[i].name == name {
        let i = choose|i: int| 0 <= i < g.components.len() && #[trigger] g.components[i].name == name;
        assert(g.component_flags(name)[i]);
    }
    if exists|i: int| 0 <= i < g.catalogs.len() && #[trigger] g.catalogs[i].name == name {
        let i = choose|i: int| 0 <= i < g.catalogs.len() && #[trigger] g.catalogs[i].name == name;
        assert(g.catalog_flags(name)[i]);
    }
}

} // verus!
