//! The executable container.

use vstd::prelude::*;
use crate::model::{
    began, committed, extracted, live, nonempty, pop_result, popped, pushed, rolled_back, single,
};

verus! {

/// A stack with nested transactions.
///
/// The layers are held base first; the last one is live. Every operation
/// keeps at least one layer.
pub struct TxStack<T: Clone> {
    layers: Vec<Vec<T>>,
}

impl<T: Clone> View for TxStack<T> {
    type V = Seq<Seq<T>>;

    /// The layers, base first, each as the sequence of its items.
    closed spec fn view(&self) -> Seq<Seq<T>> {
        Seq::new(self.layers@.len(), |i: int| self.layers@[i]@)
    }
}

impl<T: Clone> TxStack<T> {
    /// The invariant of the container: there is at least one layer.
    pub open spec fn wf(&self) -> bool {
        nonempty(self@)
    }

    /// The number of layers: one more than the number of open transactions.
    pub open spec fn depth(&self) -> nat {
        self@.len()
    }

    /// A stack with one empty layer and no open transaction.
    pub fn new() -> (s: TxStack<T>)
        ensures
            s@ == single(Seq::<T>::empty()),
            s.wf(),
    {
        let mut layers: Vec<Vec<T>> = Vec::new();
        layers.push(Vec::new());
        let s = TxStack { layers };
        assert(s@ =~= single(Seq::<T>::empty()));
        s
    }

    /// The live layer, bottom first. The stack is left as it was.
    pub fn top(&self) -> (r: &Vec<T>)
        requires
            self.wf(),
        ensures
            r@ == live(self@),
    {
        &self.layers[self.layers.len() - 1]
    }

    /// Puts `t` on the live layer. The checkpoints and the depth stay.
    pub fn push(&mut self, t: T)
        requires
            old(self).wf(),
        ensures
            final(self)@ == pushed(old(self)@, t),
            final(self).wf(),
    {
        let mut top = self.layers.pop().unwrap();
        top.push(t);
        self.layers.push(top);
        assert(self@ =~= pushed(old(self)@, t));
    }

    /// Takes the last item off the live layer and returns it, or returns
    /// `None` and changes nothing where the live layer is empty.
    pub fn pop(&mut self) -> (out: Option<T>)
        requires
            old(self).wf(),
        ensures
            out == pop_result(old(self)@),
            final(self)@ == popped(old(self)@),
            final(self).wf(),
    {
        let mut top = self.layers.pop().unwrap();
        let out = top.pop();
        self.layers.push(top);
        assert(self@ =~= popped(old(self)@));
        out
    }

    /// Opens a transaction: a duplicate of the live layer becomes the new live
    /// layer, and the layer that was live stays beneath it as the checkpoint.
    pub fn begin(&mut self)
        requires
            old(self).wf(),
        ensures
            began(old(self)@, final(self)@),
            final(self).depth() == old(self).depth() + 1,
            final(self).wf(),
    {
        let top = self.layers.pop().unwrap();
        let copy = top.clone();
        self.layers.push(top);
        self.layers.push(copy);
        assert(self@.drop_last() =~= old(self)@);
    }

    /// Closes the innermost transaction and drops what it did: the live layer
    /// goes, and the checkpoint beneath it is live again. With no open
    /// transaction this does nothing.
    pub fn rollback(&mut self)
        requires
            old(self).wf(),
        ensures
            final(self)@ == rolled_back(old(self)@),
            final(self).depth() == (if old(self).depth() > 1 {
                old(self).depth() - 1
            } else {
                1
            }),
            final(self).wf(),
    {
        if self.layers.len() > 1 {
            self.layers.pop();
        }
        assert(self@ =~= rolled_back(old(self)@));
    }

    /// Closes the innermost transaction and keeps what it did: the checkpoint
    /// beneath the live layer goes, and the live layer stays live. With no
    /// open transaction this does nothing.
    pub fn commit(&mut self)
        requires
            old(self).wf(),
        ensures
            final(self)@ == committed(old(self)@),
            final(self).depth() == (if old(self).depth() > 1 {
                old(self).depth() - 1
            } else {
                1
            }),
            final(self).wf(),
    {
        let top = self.layers.pop().unwrap();
        self.layers.pop();
        self.layers.push(top);
        assert(self@ =~= committed(old(self)@));
    }
}

impl<T: Clone> From<Vec<T>> for TxStack<T> {
    /// A stack whose only layer is `v`, taken over as it is.
    fn from(v: Vec<T>) -> (s: TxStack<T>)
        ensures
            s@ == single(v@),
            s.wf(),
    {
        let mut layers: Vec<Vec<T>> = Vec::new();
        layers.push(v);
        let s = TxStack { layers };
        assert(s@ =~= single(v@));
        s
    }
}

impl<T: Clone> vstd::std_specs::convert::FromSpecImpl<Vec<T>> for TxStack<T> {
    /// Two vectors with the same items need not be the same value, so the
    /// result of `from` is stated over its view, in the `ensures` of `from`.
    open spec fn obeys_from_spec() -> bool {
        false
    }

    open spec fn from_spec(v: Vec<T>) -> TxStack<T> {
        choose|s: TxStack<T>| s@ == single(v@)
    }
}

impl<T: Clone> Into<Vec<T>> for TxStack<T> {
    /// The live layer; the checkpoints are dropped. A stack without any layer
    /// gives an empty vector.
    fn into(self) -> (v: Vec<T>)
        ensures
            Vec::<T>::view(&v) == extracted(self@),
    {
        let mut s = self;
        if s.layers.len() > 0 {
            s.layers.pop().unwrap()
        } else {
            Vec::new()
        }
    }
}

impl<T: Clone> vstd::std_specs::convert::IntoSpecImpl<Vec<T>> for TxStack<T> {
    /// As for `from`: the result of `into` is stated over its view.
    open spec fn obeys_into_spec() -> bool {
        false
    }

    open spec fn into_spec(self) -> Vec<T> {
        choose|v: Vec<T>| v@ == extracted(self@)
    }
}

} // verus!
