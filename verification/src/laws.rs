//! Laws of the transactional stack, proved over its model.
//!
//! Each law speaks of layers (`Seq<Seq<T>>`) and of the model functions that
//! the contracts of [`crate::TxStack`] are stated with, so it holds of every
//! stack that those operations can produce.

use vstd::prelude::*;
use crate::model::{
    began, committed, duplicates, extracted, live, nonempty, pop_result, popped, pushed,
    rolled_back, same_checkpoints, single, with_live,
};

verus! {

/// A pop right after a push hands the pushed item back and leaves the layers
/// as they were before the push.
pub proof fn lemma_pop_undoes_push<T>(layers: Seq<Seq<T>>, item: T)
    requires
        nonempty(layers),
    ensures
        pop_result(pushed(layers, item)) == Some(item),
        popped(pushed(layers, item)) == layers,
{
    let top = live(layers).push(item);
    let after = pushed(layers, item);
    assert(live(after) == top);
    assert(top.drop_last() =~= live(layers));
    assert(after.drop_last() =~= layers.drop_last());
    assert(popped(after) =~= layers);
}

/// Last in, first out: after `a`, `b` and `c` were pushed in this order, three
/// pops hand out `c`, then `b`, then `a`, and the layers are as at the start.
/// Where the live layer was empty at the start, a fourth pop hands out
/// nothing.
pub proof fn lemma_pops_reverse_pushes<T>(layers: Seq<Seq<T>>, a: T, b: T, c: T)
    requires
        nonempty(layers),
    ensures
        pop_result(pushed(pushed(pushed(layers, a), b), c)) == Some(c),
        popped(pushed(pushed(pushed(layers, a), b), c)) == pushed(pushed(layers, a), b),
        pop_result(pushed(pushed(layers, a), b)) == Some(b),
        popped(pushed(pushed(layers, a), b)) == pushed(layers, a),
        pop_result(pushed(layers, a)) == Some(a),
        popped(pushed(layers, a)) == layers,
        live(layers).len() == 0 ==> pop_result(layers) == None::<T> && popped(layers) == layers,
{
    lemma_pop_undoes_push(layers, a);
    lemma_pop_undoes_push(pushed(layers, a), b);
    lemma_pop_undoes_push(pushed(pushed(layers, a), b), c);
}

/// A push touches the live layer only: depth and checkpoints stay.
pub proof fn lemma_push_keeps_checkpoints<T>(layers: Seq<Seq<T>>, item: T)
    requires
        nonempty(layers),
    ensures
        same_checkpoints(layers, pushed(layers, item)),
        live(pushed(layers, item)) == live(layers).push(item),
{
    assert(pushed(layers, item).drop_last() =~= layers.drop_last());
}

/// A pop touches the live layer only: depth and checkpoints stay.
pub proof fn lemma_pop_keeps_checkpoints<T>(layers: Seq<Seq<T>>)
    requires
        nonempty(layers),
    ensures
        same_checkpoints(layers, popped(layers)),
        live(layers).len() > 0 ==> live(popped(layers)) == live(layers).drop_last(),
        live(layers).len() == 0 ==> popped(layers) == layers,
{
    assert(popped(layers).drop_last() =~= layers.drop_last());
}

/// Rollback isolation: whatever was done to the live layer since the last
/// `begin`, a rollback gives back exactly the layers from before that `begin`.
pub proof fn lemma_rollback_restores<T: Clone>(
    before: Seq<Seq<T>>,
    opened: Seq<Seq<T>>,
    edited: Seq<Seq<T>>,
)
    requires
        nonempty(before),
        began(before, opened),
        same_checkpoints(opened, edited),
    ensures
        rolled_back(edited) == before,
{
}

/// Commit propagation: a commit keeps the live layer as the transaction left
/// it and puts it in the place of the layer that was live before the `begin`;
/// the layers beneath are untouched.
pub proof fn lemma_commit_keeps_changes<T: Clone>(
    before: Seq<Seq<T>>,
    opened: Seq<Seq<T>>,
    edited: Seq<Seq<T>>,
)
    requires
        nonempty(before),
        began(before, opened),
        same_checkpoints(opened, edited),
    ensures
        committed(edited) == with_live(before, live(edited)),
        live(committed(edited)) == live(edited),
{
}

/// A transaction that is opened and closed at once leaves a live layer that
/// duplicates the old one item by item, by rollback (which gives back the old
/// layer itself) and by commit alike.
pub proof fn lemma_empty_transaction<T: Clone>(before: Seq<Seq<T>>, opened: Seq<Seq<T>>)
    requires
        nonempty(before),
        began(before, opened),
    ensures
        rolled_back(opened) == before,
        same_checkpoints(before, committed(opened)),
        duplicates(live(before), live(committed(opened))),
{
    assert(committed(opened).drop_last() =~= before.drop_last());
}

/// Nesting: `begin`, `begin`, push `w`, rollback, push `v`, commit. The inner
/// rollback drops `w`; the outer commit keeps `v` on top of the duplicate that
/// the first `begin` made.
pub proof fn lemma_inner_rollback_outer_commit<T: Clone>(
    start: Seq<Seq<T>>,
    outer: Seq<Seq<T>>,
    inner: Seq<Seq<T>>,
    w: T,
    v: T,
)
    requires
        nonempty(start),
        began(start, outer),
        began(outer, inner),
    ensures
        rolled_back(pushed(inner, w)) == outer,
        committed(pushed(rolled_back(pushed(inner, w)), v)) == with_live(
            start,
            live(outer).push(v),
        ),
{
    lemma_push_keeps_checkpoints(inner, w);
    lemma_rollback_restores(outer, inner, pushed(inner, w));
    lemma_push_keeps_checkpoints(outer, v);
    lemma_commit_keeps_changes(start, outer, pushed(outer, v));
}

/// Round trip: a stack made from a sequence and turned back into one, with
/// nothing done in between, gives that sequence.
pub proof fn lemma_round_trip<T>(items: Seq<T>)
    ensures
        extracted(single(items)) == items,
        nonempty(single(items)),
{
}

/// Without an open transaction, rollback and commit change nothing.
pub proof fn lemma_close_without_transaction<T>(layers: Seq<Seq<T>>)
    requires
        layers.len() == 1,
    ensures
        rolled_back(layers) == layers,
        committed(layers) == layers,
{
}

/// No operation removes the last layer: from layers that are not empty, each
/// of them leads to layers that are not empty, so there is always a live
/// layer to read.
pub proof fn lemma_always_a_live_layer<T: Clone>(layers: Seq<Seq<T>>, item: T, opened: Seq<Seq<T>>)
    requires
        nonempty(layers),
    ensures
        nonempty(pushed(layers, item)),
        nonempty(popped(layers)),
        nonempty(rolled_back(layers)),
        nonempty(committed(layers)),
        began(layers, opened) ==> nonempty(opened),
{
}

/// How each operation changes the depth: `push` and `pop` keep it, `begin`
/// adds one, and `rollback` and `commit` take one away while a transaction is
/// open.
pub proof fn lemma_depth<T: Clone>(layers: Seq<Seq<T>>, item: T, opened: Seq<Seq<T>>)
    requires
        nonempty(layers),
    ensures
        pushed(layers, item).len() == layers.len(),
        popped(layers).len() == layers.len(),
        began(layers, opened) ==> opened.len() == layers.len() + 1,
        layers.len() >= 2 ==> rolled_back(layers).len() == layers.len() - 1,
        layers.len() >= 2 ==> committed(layers).len() == layers.len() - 1,
        layers.len() == 1 ==> rolled_back(layers).len() == 1 && committed(layers).len() == 1,
{
}

} // verus!
