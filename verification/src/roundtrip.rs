//! Emitting a registry and merging the description back restores the
//! targets of its links.

use crate::constructor::link::LinkView;
use crate::constructor::merge::{asked_triple, catalog_at};
use crate::constructor::GraphView;
use crate::description::{ComponentView, TraitView};
use crate::emit::{trait_for, with_traits};
use crate::models::Catalog;
use crate::seqs::{
    lemma_first_true_bounds, lemma_first_true_is, lemma_present_from, lemma_present_has, present,
};
use vstd::prelude::*;

verus! {

/// The link `l` without its target.
pub open spec fn unpinned(l: LinkView) -> LinkView {
    LinkView { target: None, ..l }
}

/// Whether two links ask for the same thing: same source, same interface
/// list, same namespace and package.
pub open spec fn same_request(a: LinkView, b: LinkView) -> bool {
    a.source == b.source && a.interfaces == b.interfaces && a.namespace == b.namespace
        && a.package == b.package
}

/// Whether the trait is one that a merge reads as a link trait.
pub open spec fn reads_as_link(t: TraitView) -> bool {
    t.trait_type == "link"@ && t.properties is Link
}

/// The traits that the entry has of its own.
pub open spec fn own_traits(c: ComponentView) -> Seq<TraitView> {
    match c.traits {
        Some(t) => t,
        None => Seq::empty(),
    }
}

/// Whether the link at place `j` of `g` is in order: it names an interface;
/// and where it needs a provider, it has a target, its source has an entry
/// and a catalog, and that catalog imports the link's interface.
pub open spec fn link_in_order(g: GraphView, j: int) -> bool {
    let l = g.links[j];
    &&& l.interfaces.len() > 0
    &&& l.needs_provider() ==> {
        &&& l.target is Some
        &&& g.component_exists(l.source)
        &&& g.knows(l.source)
        &&& g.catalog(l.source).imports.contains(l.triple())
    }
}

/// A graph whose links are all pinned: every link is in order, no two
/// links ask for the same thing, and no entry carries a link trait of its
/// own.
pub open spec fn settled(g: GraphView) -> bool {
    &&& forall|j: int| 0 <= j < g.links.len() ==> link_in_order(g, j)
    &&& forall|i: int, j: int|
        0 <= i < j < g.links.len() ==> !same_request(#[trigger] g.links[i], #[trigger] g.links[j])
    &&& forall|i: int, k: int|
        0 <= i < g.components.len() && 0 <= k < own_traits(g.components[i]).len()
            ==> !reads_as_link(#[trigger] own_traits(g.components[i])[k])
}

/// Whether the link at place `j` of `h` is that of `g`, with its target or
/// without.
pub open spec fn link_follows(g: GraphView, h: GraphView, j: int) -> bool {
    h.links[j] == g.links[j] || h.links[j] == unpinned(g.links[j])
}

/// Whether `h` stands for `g` with some of its targets missing: the same
/// entries and catalogs, and each link that of `g`, with its target or
/// without.
pub open spec fn follows(g: GraphView, h: GraphView) -> bool {
    &&& h.components == g.components
    &&& h.catalogs == g.catalogs
    &&& h.links.len() == g.links.len()
    &&& forall|j: int| 0 <= j < g.links.len() ==> link_follows(g, h, j)
}

/// Whether `h` has every target of `g` that `before` has.
pub open spec fn keeps(g: GraphView, before: GraphView, h: GraphView) -> bool {
    forall|j: int|
        0 <= j < g.links.len() && before.links[j] == g.links[j] ==> #[trigger] h.links[j]
            == g.links[j]
}

/// Whether the trait `t` on the component `name` comes from `g`: it is the
/// trait of a link of `name` that needs a provider, or it is no link trait
/// at all.
pub open spec fn replays(g: GraphView, name: Seq<char>, t: TraitView) -> bool {
    !reads_as_link(t) || exists|i: int| is_trait_of(g, name, t, i)
}

/// Whether `t` is the trait of the link at place `i` of `g`, which has the
/// source `name` and needs a provider.
pub open spec fn is_trait_of(g: GraphView, name: Seq<char>, t: TraitView, i: int) -> bool {
    0 <= i < g.links.len() && g.links[i].source == name && g.links[i].needs_provider() && t
        == g.links[i].link_trait()
}

proof fn lemma_pin_restores(g: GraphView, h: GraphView, name: Seq<char>, t: TraitView, i: int)
    requires
        settled(g),
        follows(g, h),
        is_trait_of(g, name, t, i),
    ensures
        h.with_pin(name, t).error is None,
        follows(g, h.with_pin(name, t).graph),
        keeps(g, h, h.with_pin(name, t).graph),
        h.with_pin(name, t).graph.links[i] == g.links[i],
{
    let l = g.links[i];
    let p = t.properties->Link_0;
    assert(link_in_order(g, i));
    assert(asked_triple(p) == l.triple());
    assert(h.catalog_flags(name) =~= g.catalog_flags(name));
    let flags = h.pin_flags(name, p);
    assert(link_follows(g, h, i));
    assert(flags[i]);
    assert forall|j: int| 0 <= j < i implies !flags[j] by {
        assert(link_follows(g, h, j));
        assert(!same_request(g.links[j], g.links[i]));
    }
    lemma_first_true_is(flags, i);
    let after = h.with_pin(name, t).graph;
    assert(after.links == h.links.update(i, LinkView { target: Some(p.target.name), ..h.links[i] }));
    assert(after.links[i] == l);
    assert forall|j: int| 0 <= j < g.links.len() implies link_follows(g, after, j) by {
        assert(link_follows(g, h, j));
    }
}

proof fn lemma_pins_restore(g: GraphView, h: GraphView, name: Seq<char>, ts: Seq<TraitView>)
    requires
        settled(g),
        follows(g, h),
        forall|k: int| 0 <= k < ts.len() ==> replays(g, name, #[trigger] ts[k]),
    ensures
        h.with_pins(name, ts).error is None,
        follows(g, h.with_pins(name, ts).graph),
        keeps(g, h, h.with_pins(name, ts).graph),
        forall|k: int, i: int|
            0 <= k < ts.len() && is_trait_of(g, name, #[trigger] ts[k], i) ==> #[trigger] h.with_pins(
                name,
                ts,
            ).graph.links[i] == g.links[i],
    decreases ts.len(),
{
    if ts.len() > 0 {
        let rest = ts.drop_last();
        assert forall|k: int| 0 <= k < rest.len() implies replays(g, name, #[trigger] rest[k]) by {
            assert(rest[k] == ts[k]);
        }
        lemma_pins_restore(g, h, name, rest);
        let before = h.with_pins(name, rest).graph;
        let t = ts.last();
        let after = before.with_pin(name, t).graph;
        assert(replays(g, name, ts[ts.len() - 1]));
        if reads_as_link(t) {
            let i = choose|i: int| is_trait_of(g, name, t, i);
            lemma_pin_restores(g, before, name, t, i);
            assert forall|k: int, j: int|
                0 <= k < ts.len() && is_trait_of(g, name, #[trigger] ts[k], j) implies #[trigger] after.links[j]
                == g.links[j] by {
                if k < ts.len() - 1 {
                    assert(rest[k] == ts[k]);
                    assert(before.links[j] == g.links[j]);
                } else {
                    lemma_pin_restores(g, before, name, t, j);
                }
            }
        } else {
            assert(after == before);
            assert forall|k: int, j: int|
                0 <= k < ts.len() && is_trait_of(g, name, #[trigger] ts[k], j) implies #[trigger] after.links[j]
                == g.links[j] by {
                assert(rest[k] == ts[k]);
            }
        }
    }
}

/// The traits of an emitted entry all come from the graph, and the trait of
/// every link of the entry that needs a provider is among them.
proof fn lemma_emitted_traits(g: GraphView, c: int)
    requires
        settled(g),
        0 <= c < g.components.len(),
    ensures
        forall|k: int|
            0 <= k < emitted_traits(g, c).len() ==> replays(
                g,
                g.components[c].name,
                #[trigger] emitted_traits(g, c)[k],
            ),
        forall|i: int|
            0 <= i < g.links.len() && g.links[i].source == g.components[c].name
                && g.links[i].needs_provider() ==> exists|k: int|
                0 <= k < emitted_traits(g, c).len() && is_trait_of(
                    g,
                    g.components[c].name,
                    #[trigger] emitted_traits(g, c)[k],
                    i,
                ),
{
    let name = g.components[c].name;
    let own = own_traits(g.components[c]);
    let options = Seq::new(g.links.len(), |j: int| trait_for(g.links[j], name));
    let added = present(options);
    let all = emitted_traits(g, c);
    assert(all =~= own + added);
    assert forall|k: int| 0 <= k < all.len() implies replays(g, name, #[trigger] all[k]) by {
        if k < own.len() {
            assert(all[k] == own[k]);
            assert(!reads_as_link(own_traits(g.components[c])[k]));
        } else {
            lemma_present_from(options, k - own.len());
            let j = choose|j: int| 0 <= j < options.len() && options[j] == Some(added[k - own.len()]);
            assert(link_in_order(g, j));
            assert(is_trait_of(g, name, all[k], j));
        }
    }
    assert forall|i: int|
        0 <= i < g.links.len() && g.links[i].source == name
            && g.links[i].needs_provider() implies exists|k: int|
        0 <= k < all.len() && is_trait_of(g, name, #[trigger] all[k], i) by {
        assert(link_in_order(g, i));
        lemma_present_has(options, i);
        let k = choose|k: int| 0 <= k < added.len() && added[k] == options[i]->Some_0;
        assert(all[own.len() + k] == added[k]);
        assert(is_trait_of(g, name, all[own.len() + k], i));
    }
}

/// The traits of the entry at place `c` of the description that `g` is
/// emitted as: its own, then those of its links.
pub open spec fn emitted_traits(g: GraphView, c: int) -> Seq<TraitView> {
    own_traits(g.components[c]) + g.link_traits_of(g.components[c].name)
}

/// The entry at place `c` of the description that `g` is emitted as.
pub open spec fn emitted_entry(g: GraphView, c: int) -> ComponentView {
    with_traits(g.components[c], g.link_traits_of(g.components[c].name))
}

proof fn lemma_entry_restores(g: GraphView, h: GraphView, c: int, decoded: Option<Catalog>)
    requires
        settled(g),
        follows(g, h),
        0 <= c < g.components.len(),
    ensures
        h.with_entry(emitted_entry(g, c), decoded).error is None,
        follows(g, h.with_entry(emitted_entry(g, c), decoded).graph),
        keeps(g, h, h.with_entry(emitted_entry(g, c), decoded).graph),
        forall|i: int|
            0 <= i < g.links.len() && g.links[i].source == g.components[c].name
                && g.links[i].needs_provider() ==> #[trigger] h.with_entry(
                emitted_entry(g, c),
                decoded,
            ).graph.links[i] == g.links[i],
{
    let name = g.components[c].name;
    let entry = emitted_entry(g, c);
    let ts = emitted_traits(g, c);
    assert(entry.traits == Some(ts)) by {
        if g.components[c].traits is None {
            assert(ts =~= g.link_traits_of(name));
        }
    }
    lemma_first_true_bounds(h.component_flags(name));
    assert(h.component_flags(name)[c]);
    assert(h.component_exists(name));
    lemma_emitted_traits(g, c);
    lemma_pins_restore(g, h, name, ts);
    let after = h.with_pins(name, ts).graph;
    assert forall|i: int|
        0 <= i < g.links.len() && g.links[i].source == name
            && g.links[i].needs_provider() implies #[trigger] after.links[i] == g.links[i] by {
        let k = choose|k: int| 0 <= k < ts.len() && is_trait_of(g, name, #[trigger] ts[k], i);
        assert(is_trait_of(g, name, ts[k], i));
    }
}

/// The first `n` entries of the description that `g` is emitted as.
pub open spec fn emitted_entries(g: GraphView, n: int) -> Seq<ComponentView> {
    Seq::new(n as nat, |c: int| emitted_entry(g, c))
}

proof fn lemma_entries_restore(
    g: GraphView,
    h: GraphView,
    n: int,
    decoded: Seq<Option<Catalog>>,
)
    requires
        settled(g),
        follows(g, h),
        0 <= n <= g.components.len(),
    ensures
        h.with_entries(emitted_entries(g, n), decoded).error is None,
        follows(g, h.with_entries(emitted_entries(g, n), decoded).graph),
        keeps(g, h, h.with_entries(emitted_entries(g, n), decoded).graph),
        forall|i: int, c: int|
            0 <= i < g.links.len() && 0 <= c < n && g.links[i].source
                == #[trigger] g.components[c].name && g.links[i].needs_provider()
                ==> #[trigger] h.with_entries(emitted_entries(g, n), decoded).graph.links[i]
                == g.links[i],
    decreases n,
{
    if n > 0 {
        let es = emitted_entries(g, n);
        assert(es.drop_last() =~= emitted_entries(g, n - 1));
        assert(es.last() == emitted_entry(g, n - 1));
        lemma_entries_restore(g, h, n - 1, decoded);
        let before = h.with_entries(emitted_entries(g, n - 1), decoded).graph;
        let d = catalog_at(decoded, n - 1);
        lemma_entry_restores(g, before, n - 1, d);
        let after = before.with_entry(emitted_entry(g, n - 1), d).graph;
        assert(h.with_entries(es, decoded).graph == after);
        assert forall|i: int, c: int|
            0 <= i < g.links.len() && 0 <= c < n && g.links[i].source
                == #[trigger] g.components[c].name
                && g.links[i].needs_provider() implies #[trigger] after.links[i]
            == g.links[i] by {
            if c < n - 1 {
                assert(before.links[i] == g.links[i]);
            }
        }
    }
}

/// Emitting and merging back restores every target. Let `g` be a graph
/// whose links are all pinned, and `f` a graph with the entries, catalogs
/// and links of `g` but with targets missing, as a graph has them that was
/// built anew from the same components. Then the description that `g` is
/// emitted as merges into `f` without error, and gives every link that
/// needs a provider the target that it has in `g`.
pub proof fn law_emitted_description_restores_targets(
    g: GraphView,
    f: GraphView,
    name: Seq<char>,
    version: Seq<char>,
    description: Seq<char>,
    decoded: Seq<Option<Catalog>>,
)
    requires
        settled(g),
        follows(g, f),
    ensures
        f.with_description(g.emitted(name, version, description), decoded).error is None,
        follows(g, f.with_description(g.emitted(name, version, description), decoded).graph),
        forall|i: int|
            0 <= i < g.links.len() && g.links[i].needs_provider() ==> #[trigger] f.with_description(
                g.emitted(name, version, description),
                decoded,
            ).graph.links[i] == g.links[i],
{
    let m = g.emitted(name, version, description);
    let start = f.adopting(m);
    assert(follows(g, start)) by {
        assert forall|j: int| 0 <= j < g.links.len() implies link_follows(g, start, j) by {
            assert(link_follows(g, f, j));
        }
    }
    let n = g.components.len() as int;
    assert(m.spec.components =~= emitted_entries(g, n));
    lemma_entries_restore(g, start, n, decoded);
    let after = start.with_entries(emitted_entries(g, n), decoded).graph;
    let o = f.with_description(m, decoded);
    assert(o.graph.links == after.links);
    assert forall|j: int| 0 <= j < g.links.len() implies link_follows(g, o.graph, j) by {
        assert(link_follows(g, after, j));
    }
    assert forall|i: int| 0 <= i < g.links.len() && g.links[i].needs_provider() implies #[trigger] o.graph.links[i]
        == g.links[i] by {
        assert(link_in_order(g, i));
        let s = g.links[i].source;
        lemma_first_true_bounds(g.component_flags(s));
        let c = g.component_index(s);
        assert(g.component_flags(s)[c]);
        assert(g.components[c].name == s);
    }
}

} // verus!
