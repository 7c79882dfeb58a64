//! Global guarantees of the graph compiler, stated over the ghost views and
//! proved once and for all.

use vstd::prelude::*;

use crate::filter::FilterView;
use crate::labels::lemma_result_label_distinct_ids;
use crate::labels::lemma_result_label_version_injective;
use crate::labels::result_label;
use crate::stream::filter_block;
use crate::stream::fresh_stream;
use crate::stream::input_args;
use crate::stream::invocation_args;
use crate::stream::overlay_node;
use crate::stream::overlay_step;
use crate::stream::render_graph;
use crate::stream::unary_step;
use crate::stream::StreamView;

verus! {

/// A stream state reached from a fresh stream by unary chaining calls alone:
/// the `j`-th appended node carries the `j`-th result label.
pub open spec fn unary_chain(v: StreamView) -> bool {
    &&& v.results == v.filters.len()
    &&& forall|j: int|
        0 <= j < v.filters.len() ==> (#[trigger] v.filters[j]).to == result_label(v.id, j as nat)
}

/// A fresh stream is a unary chain.
pub proof fn lemma_fresh_is_unary_chain(id: u32, path: Seq<char>)
    ensures
        unary_chain(fresh_stream(id, path)),
{
}

/// Unary chaining calls keep a stream a unary chain.
pub proof fn lemma_unary_step_preserves_chain(v: StreamView, name: Seq<char>, args: Seq<Seq<char>>)
    requires
        unary_chain(v),
    ensures
        unary_chain(unary_step(v, name, args)),
{
    let w = unary_step(v, name, args);
    assert forall|j: int| 0 <= j < w.filters.len() implies (#[trigger] w.filters[j]).to
        == result_label(w.id, j as nat) by {
        if j < v.filters.len() {
            assert(w.filters[j] == v.filters[j]);
        } else {
            assert(w.filters[j].to == result_label(v.id, v.results));
        }
    }
}

/// For every sequence of unary chaining calls on a fresh stream, each node's
/// output label is unique within that stream's compiled graph.
pub proof fn lemma_chain_output_labels_unique(v: StreamView)
    requires
        unary_chain(v),
    ensures
        forall|i: int, j: int|
            0 <= i < j < v.filters.len() ==> (#[trigger] v.filters[i]).to != (
            #[trigger] v.filters[j]).to,
{
    assert forall|i: int, j: int| 0 <= i < j < v.filters.len() implies (#[trigger] v.filters[i]).to
        != (#[trigger] v.filters[j]).to by {
        if v.filters[i].to == v.filters[j].to {
            lemma_result_label_version_injective(v.id, i as nat, j as nat);
        }
    }
}

/// The chain of `v` was contributed by the streams with ids in `ids`, all of
/// one decimal digit: each node's output label is some contributed stream's
/// result label, labels of `v`'s own making stay below its version counter,
/// and all output labels are pairwise distinct.  Ids of differing digit
/// counts are excluded because the label grammar itself can alias them: id 1
/// at version 10 and id 11 at version 0 both render `r110`.
/// The node's output label was allocated by a stream with an id in `ids`;
/// one of `v`'s own labels stays below `v`'s version counter.
pub open spec fn node_contributed(f: FilterView, v: StreamView, ids: Set<u32>) -> bool {
    exists|id: u32, k: nat|
        #![trigger result_label(id, k)]
        ids.contains(id) && f.to == result_label(id, k) && (id == v.id ==> k < v.results)
}

pub open spec fn labels_from(v: StreamView, ids: Set<u32>) -> bool {
    &&& ids.contains(v.id)
    &&& forall|id: u32| ids.contains(id) ==> id < 10
    &&& forall|j: int|
        0 <= j < v.filters.len() ==> node_contributed(#[trigger] v.filters[j], v, ids)
    &&& forall|i: int, j: int|
        0 <= i < j < v.filters.len() ==> (#[trigger] v.filters[i]).to != (
        #[trigger] v.filters[j]).to
}

/// A fresh stream's chain is contributed by any single-digit id set holding
/// its own id.
pub proof fn lemma_fresh_labels_from(id: u32, path: Seq<char>, ids: Set<u32>)
    requires
        ids.contains(id),
        forall|i: u32| ids.contains(i) ==> i < 10,
    ensures
        labels_from(fresh_stream(id, path), ids),
{
}

/// A unary chain with a single-digit id is contributed by that id alone.
pub proof fn lemma_unary_chain_labels_from(v: StreamView)
    requires
        unary_chain(v),
        v.id < 10,
    ensures
        labels_from(v, Set::empty().insert(v.id)),
{
    lemma_chain_output_labels_unique(v);
    let ids = Set::empty().insert(v.id);
    assert(ids.contains(v.id));
    assert forall|i: u32| ids.contains(i) implies i < 10 by {
        assert(i == v.id);
    }
    assert forall|j: int| 0 <= j < v.filters.len() implies node_contributed(
        #[trigger] v.filters[j],
        v,
        ids,
    ) by {
        assert(ids.contains(v.id) && v.filters[j].to == result_label(v.id, j as nat) && j
            < v.results);
    }
}

/// A unary chaining call keeps the chain contributed by the same ids.
pub proof fn lemma_unary_step_labels_from(
    v: StreamView,
    ids: Set<u32>,
    name: Seq<char>,
    args: Seq<Seq<char>>,
)
    requires
        labels_from(v, ids),
    ensures
        labels_from(unary_step(v, name, args), ids),
{
    let w = unary_step(v, name, args);
    let n = v.filters.len() as int;
    assert forall|j: int| 0 <= j < w.filters.len() implies node_contributed(
        #[trigger] w.filters[j],
        w,
        ids,
    ) by {
        if j < n {
            assert(w.filters[j] == v.filters[j]);
            let (id, k) = origin(v, ids, j);
            assert(ids.contains(id) && w.filters[j].to == result_label(id, k) && (id == w.id ==> k
                < w.results));
        } else {
            assert(w.filters[j].to == result_label(v.id, v.results));
            assert(ids.contains(v.id) && w.filters[j].to == result_label(v.id, v.results) && (
            v.results < w.results));
        }
    }
    assert forall|i: int, j: int| 0 <= i < j < w.filters.len() implies (#[trigger] w.filters[i]).to
        != (#[trigger] w.filters[j]).to by {
        if j < n {
            assert(w.filters[i] == v.filters[i] && w.filters[j] == v.filters[j]);
        } else {
            assert(w.filters[i] == v.filters[i]);
            assert(w.filters[j].to == result_label(v.id, v.results));
            let (id, k) = origin(v, ids, i);
            if w.filters[i].to == w.filters[j].to {
                if id == v.id {
                    lemma_result_label_version_injective(v.id, k, v.results);
                } else {
                    lemma_result_label_distinct_ids(id, k, v.id, v.results);
                }
            }
        }
    }
}

/// An overlay merges the contributing ids: when the two sides' id sets are
/// disjoint, every output label of the combined chain is still unique.
pub proof fn lemma_overlay_labels_from(
    a: StreamView,
    b: StreamView,
    x: u32,
    y: u32,
    ids_a: Set<u32>,
    ids_b: Set<u32>,
)
    requires
        labels_from(a, ids_a),
        labels_from(b, ids_b),
        ids_a.disjoint(ids_b),
    ensures
        labels_from(overlay_step(a, b, x, y), ids_a.union(ids_b)),
{
    let v = overlay_step(a, b, x, y);
    let ids = ids_a.union(ids_b);
    let la = a.filters.len() as int;
    let lb = b.filters.len() as int;
    assert forall|j: int| 0 <= j < v.filters.len() implies node_contributed(
        #[trigger] v.filters[j],
        v,
        ids,
    ) by {
        if j < la {
            assert(v.filters[j] == a.filters[j]);
            let (id, k) = origin(a, ids_a, j);
            assert(ids.contains(id) && v.filters[j].to == result_label(id, k) && (id == v.id ==> k
                < v.results));
        } else if j < la + lb {
            assert(v.filters[j] == b.filters[j - la]);
            let (id, k) = origin(b, ids_b, j - la);
            assert(!ids_a.contains(id));
            assert(ids.contains(id) && v.filters[j].to == result_label(id, k) && (id == v.id ==> k
                < v.results));
        } else {
            assert(v.filters[j] == overlay_node(a, b, x, y));
            assert(ids.contains(a.id) && v.filters[j].to == result_label(a.id, a.results) && (
            a.results < v.results));
        }
    }
    assert forall|i: int, j: int| 0 <= i < j < v.filters.len() implies (#[trigger] v.filters[i]).to
        != (#[trigger] v.filters[j]).to by {
        if v.filters[i].to == v.filters[j].to {
            if i < la && j < la {
                assert(v.filters[i] == a.filters[i] && v.filters[j] == a.filters[j]);
            } else if i < la && j < la + lb {
                assert(v.filters[i] == a.filters[i] && v.filters[j] == b.filters[j - la]);
                let (id1, k1) = origin(a, ids_a, i);
                let (id2, k2) = origin(b, ids_b, j - la);
                assert(!ids_b.contains(id1));
                if id1 == id2 {
                    lemma_result_label_version_injective(id1, k1, k2);
                } else {
                    lemma_result_label_distinct_ids(id1, k1, id2, k2);
                }
            } else if i < la {
                assert(v.filters[i] == a.filters[i] && v.filters[j] == overlay_node(a, b, x, y));
                let (id1, k1) = origin(a, ids_a, i);
                if id1 == a.id {
                    lemma_result_label_version_injective(a.id, k1, a.results);
                } else {
                    lemma_result_label_distinct_ids(id1, k1, a.id, a.results);
                }
            } else if i < la + lb && j < la + lb {
                assert(v.filters[i] == b.filters[i - la] && v.filters[j] == b.filters[j - la]);
            } else if i < la + lb {
                assert(v.filters[i] == b.filters[i - la] && v.filters[j] == overlay_node(
                    a,
                    b,
                    x,
                    y,
                ));
                let (id1, k1) = origin(b, ids_b, i - la);
                assert(!ids_a.contains(id1));
                lemma_result_label_distinct_ids(id1, k1, a.id, a.results);
            }
        }
    }
}

/// The id and version that contributed the `j`-th node's output label.
proof fn origin(v: StreamView, ids: Set<u32>, j: int) -> (r: (u32, nat))
    requires
        labels_from(v, ids),
        0 <= j < v.filters.len(),
    ensures
        ids.contains(r.0),
        v.filters[j].to == result_label(r.0, r.1),
        r.0 == v.id ==> r.1 < v.results,
        r.0 < 10,
{
    assert(node_contributed(v.filters[j], v, ids));
    let (id, k) = choose|id: u32, k: nat|
        #![trigger result_label(id, k)]
        ids.contains(id) && v.filters[j].to == result_label(id, k) && (id == v.id ==> k
            < v.results);
    (id, k)
}

/// For every sequence of chained operations on fresh streams — unary steps,
/// and overlays whose sides were contributed by disjoint single-digit id
/// sets — every node's output label is unique within the compiled graph.
pub proof fn lemma_nested_output_labels_unique(v: StreamView, ids: Set<u32>)
    requires
        labels_from(v, ids),
    ensures
        forall|i: int, j: int|
            0 <= i < j < v.filters.len() ==> (#[trigger] v.filters[i]).to != (
            #[trigger] v.filters[j]).to,
{
}

/// Compiling the same configured stream state twice yields byte-identical
/// graph text: the compiled text is a function of the accumulated view alone.
pub proof fn lemma_compile_deterministic(v1: StreamView, v2: StreamView)
    requires
        v1 == v2,
    ensures
        render_graph(v1.filters) == render_graph(v2.filters),
{
}

/// When stream `a` overlays stream `b`, every node pulled in from `b` stands
/// in `a`'s chain before the overlay node that consumes `b`'s current label.
pub proof fn lemma_overlay_ordering(a: StreamView, b: StreamView, x: u32, y: u32)
    ensures
        overlay_step(a, b, x, y).filters.len() == a.filters.len() + b.filters.len() + 1,
        forall|j: int|
            0 <= j < b.filters.len() ==> overlay_step(a, b, x, y).filters[a.filters.len() + j] == (
            #[trigger] b.filters[j]),
        overlay_step(a, b, x, y).filters.last() == overlay_node(a, b, x, y),
        overlay_node(a, b, x, y).from == seq![a.current_label(), b.current_label()],
{
    let v = overlay_step(a, b, x, y);
    assert forall|j: int| 0 <= j < b.filters.len() implies v.filters[a.filters.len() + j] == (
    #[trigger] b.filters[j]) by {
        assert((a.filters + b.filters)[a.filters.len() + j] == b.filters[j]);
    }
}

/// A stream with zero chained operations compiles to empty graph text, and
/// its command line carries no filter-graph directive at all: only the input
/// directives, the passthrough arguments, the forced overwrite, and the
/// output path.
pub proof fn lemma_empty_chain(v: StreamView)
    requires
        v.filters.len() == 0,
    ensures
        render_graph(v.filters) == Seq::<char>::empty(),
        filter_block(v) == Seq::<Seq<char>>::empty(),
        invocation_args(v) == seq!["-i"@, v.path] + input_args(v.extra_inputs) + v.arguments
            + seq!["-y"@, v.output_path->Some_0],
{
    assert(invocation_args(v) =~= seq!["-i"@, v.path] + input_args(v.extra_inputs) + v.arguments
        + seq!["-y"@, v.output_path->Some_0]);
}

} // verus!
