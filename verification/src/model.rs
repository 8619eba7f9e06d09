//! The mathematical model of a transactional stack.
//!
//! A stack is modelled by its layers, a `Seq<Seq<T>>` with the base layer
//! first and the live layer last. Each operation of the container is a
//! function (or, for the duplicating `begin`, a relation) on such layers.

use vstd::prelude::*;

verus! {

/// Layers are well formed when there is at least one of them.
pub open spec fn nonempty<T>(layers: Seq<Seq<T>>) -> bool {
    layers.len() >= 1
}

/// The layers of a stack made from one sequence: that sequence alone.
pub open spec fn single<T>(items: Seq<T>) -> Seq<Seq<T>> {
    seq![items]
}

/// What is left when a stack is turned back into a plain sequence: the live
/// layer, or nothing where there is no layer at all.
pub open spec fn extracted<T>(layers: Seq<Seq<T>>) -> Seq<T> {
    if layers.len() > 0 {
        layers.last()
    } else {
        Seq::empty()
    }
}

/// The live layer: the one that `push`, `pop` and `top` see.
pub open spec fn live<T>(layers: Seq<Seq<T>>) -> Seq<T> {
    layers.last()
}

/// The layers with the live one replaced by `top`.
pub open spec fn with_live<T>(layers: Seq<Seq<T>>, top: Seq<T>) -> Seq<Seq<T>> {
    layers.drop_last().push(top)
}

/// `a` and `b` have the same depth and the same checkpoints; only their live
/// layers may differ.
pub open spec fn same_checkpoints<T>(a: Seq<Seq<T>>, b: Seq<Seq<T>>) -> bool {
    &&& a.len() == b.len()
    &&& a.drop_last() == b.drop_last()
}

/// The layers after `item` was pushed onto the live layer.
pub open spec fn pushed<T>(layers: Seq<Seq<T>>, item: T) -> Seq<Seq<T>> {
    with_live(layers, live(layers).push(item))
}

/// What a pop hands out: the last item of the live layer, if there is one.
pub open spec fn pop_result<T>(layers: Seq<Seq<T>>) -> Option<T> {
    if live(layers).len() == 0 {
        None
    } else {
        Some(live(layers).last())
    }
}

/// The layers after a pop: the live layer loses its last item, if it has one.
pub open spec fn popped<T>(layers: Seq<Seq<T>>) -> Seq<Seq<T>> {
    if live(layers).len() == 0 {
        layers
    } else {
        with_live(layers, live(layers).drop_last())
    }
}

/// `copy` is an item-by-item duplicate of `source`, as `Clone` makes it.
pub open spec fn duplicates<T: Clone>(source: Seq<T>, copy: Seq<T>) -> bool {
    &&& copy.len() == source.len()
    &&& forall|i: int| 0 <= i < source.len() ==> cloned::<T>(#[trigger] source[i], copy[i])
}

/// `after` is what a `begin` may leave of `before`: the old layers untouched,
/// with a duplicate of the old live layer on top of them.
pub open spec fn began<T: Clone>(before: Seq<Seq<T>>, after: Seq<Seq<T>>) -> bool {
    &&& after.len() == before.len() + 1
    &&& after.drop_last() == before
    &&& duplicates(live(before), live(after))
}

/// The layers after a rollback: the live layer is dropped and the checkpoint
/// beneath it becomes live. With no open transaction nothing changes.
pub open spec fn rolled_back<T>(layers: Seq<Seq<T>>) -> Seq<Seq<T>> {
    if layers.len() <= 1 {
        layers
    } else {
        layers.drop_last()
    }
}

/// The layers after a commit: the checkpoint beneath the live layer is
/// dropped and the live layer stays. With no open transaction nothing changes.
pub open spec fn committed<T>(layers: Seq<Seq<T>>) -> Seq<Seq<T>> {
    if layers.len() <= 1 {
        layers
    } else {
        layers.drop_last().drop_last().push(live(layers))
    }
}

} // verus!
