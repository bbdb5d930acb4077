use vstd::prelude::*;

use crate::convert::{IntoDynamic, ToDynamic};
use crate::small_vec::SmallVec;
use crate::value::{lemma_models_of, models_of, DynModel, DynValue};

verus! {

impl<T: ToDynamic, const N: usize> ToDynamic for SmallVec<T, N> {
    open spec fn encode(m: Seq<T::V>) -> DynModel {
        DynModel::List(m.map_values(|x: T::V| T::encode(x)))
    }

    /// A list object of the elements' own conversions; the vector is only
    /// borrowed.
    fn to_object(&self) -> (r: DynValue) {
        let items = self.as_slice();
        let mut out: Vec<DynValue> = Vec::with_capacity(items.len());
        proof {
            self.lemma_view_of_elems();
        }
        for i in 0..items.len()
            invariant
                items@ == self.elems(),
                self@.len() == self.elems().len(),
                forall|j: int| 0 <= j < self@.len() ==> self@[j] == (#[trigger] self.elems()[j])@,
                out@.len() == i,
                forall|j: int| 0 <= j < i ==> (#[trigger] out@[j])@ == T::encode(self@[j]),
        {
            out.push(items[i].to_object());
        }
        proof {
            lemma_models_of(out@);
            assert(models_of(out@) =~= self@.map_values(|x: T::V| T::encode(x)));
        }
        DynValue::new_list(out)
    }
}

impl<T: IntoDynamic, const N: usize> IntoDynamic for SmallVec<T, N> {
    open spec fn encode_owned(m: Seq<T::V>) -> DynModel {
        DynModel::List(m.map_values(|x: T::V| T::encode_owned(x)))
    }

    /// A list object of the elements, each consumed once, in order.
    fn into_object(self) -> (r: DynValue) {
        proof {
            self.lemma_view_of_elems();
        }
        let ghost elems = self.elems();
        let ghost model = self@;
        let items = self.into_vec();
        let mut out: Vec<DynValue> = Vec::with_capacity(items.len());
        broadcast use vstd::std_specs::vec::axiom_spec_into_iter;
        for x in it: items.into_iter()
            invariant
                it.seq() == elems,
                model.len() == elems.len(),
                forall|j: int| 0 <= j < elems.len() ==> model[j] == (#[trigger] elems[j])@,
                out@.len() == it.index(),
                forall|j: int| 0 <= j < it.index() ==> (#[trigger] out@[j])@ == T::encode_owned(model[j]),
        {
            out.push(x.into_object());
        }
        proof {
            lemma_models_of(out@);
            assert(models_of(out@) =~= model.map_values(|x: T::V| T::encode_owned(x)));
        }
        DynValue::new_list(out)
    }
}

} // verus!
