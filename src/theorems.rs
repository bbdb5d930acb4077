use vstd::prelude::*;

use crate::convert::{FromDynamic, ToDynamic};
use crate::error::ConversionError;
use crate::extract::{decode_prefix, extract_model, lemma_prefix_failure_persists};
use crate::small_vec::SmallVec;
use crate::value::{DynModel, HostError};

verus! {

/// Converting a prefix of items that all convert gives their models in order.
proof fn lemma_prefix_all_convert<T: FromDynamic>(items: Seq<DynModel>, vals: Seq<T::V>, n: nat)
    requires
        n <= items.len(),
        n <= vals.len(),
        forall|j: int| 0 <= j < n ==> T::decode(#[trigger] items[j]) == Ok::<T::V, ConversionError>(vals[j]),
    ensures
        decode_prefix::<T>(items, n) == Ok::<Seq<T::V>, ConversionError>(vals.take(n as int)),
    decreases n,
{
    if n > 0 {
        lemma_prefix_all_convert::<T>(items, vals, (n - 1) as nat);
        assert(vals.take(n as int) =~= vals.take(n - 1).push(vals[n - 1]));
    } else {
        assert(vals.take(0) =~= Seq::<T::V>::empty());
    }
}

/// Round trip: a vector turned into a dynamic value by the borrowing
/// conversion and extracted again gives back the same elements in the same
/// order, whenever each element on its own converts back to itself.
pub proof fn lemma_round_trip<T: ToDynamic + FromDynamic, const N: usize>(c: Seq<T::V>)
    requires
        forall|i: int| 0 <= i < c.len() ==> T::decode(T::encode(#[trigger] c[i])) == Ok::<T::V, ConversionError>(c[i]),
    ensures
        <SmallVec<T, N> as FromDynamic>::decode(<SmallVec<T, N> as ToDynamic>::encode(c))
            == Ok::<Seq<T::V>, ConversionError>(c),
{
    let v = <SmallVec<T, N> as ToDynamic>::encode(c);
    let items = c.map_values(|x: T::V| T::encode(x));
    assert(v.items() == items);
    assert forall|j: int| 0 <= j < items.len() implies T::decode(#[trigger] items[j]) == Ok::<T::V, ConversionError>(c[j]) by {
        assert(items[j] == T::encode(c[j]));
    }
    lemma_prefix_all_convert::<T>(items, c, items.len());
    assert(c.take(c.len() as int) =~= c);
}

/// Extracting from a sequence whose items all convert succeeds, with exactly
/// as many elements as the walk yields, each the conversion of the item at
/// the same position.
pub proof fn lemma_all_items_convert<T: FromDynamic>(v: DynModel)
    requires
        v.is_sequence(),
        v.text_probe() != Ok::<bool, HostError>(true),
        v.raised() is None,
        forall|i: int| 0 <= i < v.items().len() ==> T::decode(#[trigger] v.items()[i]) is Ok,
    ensures
        extract_model::<T>(v) is Ok,
        extract_model::<T>(v)->Ok_0.len() == v.items().len(),
        forall|i: int|
            0 <= i < v.items().len() ==> T::decode(v.items()[i]) == Ok::<T::V, ConversionError>(
                #[trigger] extract_model::<T>(v)->Ok_0[i],
            ),
{
    let items = v.items();
    let vals = Seq::new(items.len(), |i: int| T::decode(items[i])->Ok_0);
    lemma_prefix_all_convert::<T>(items, vals, items.len());
    assert(vals.take(items.len() as int) =~= vals);
}

/// A text value is refused as a whole, whatever its characters would convert
/// to.
pub proof fn lemma_text_refused<T: FromDynamic>(s: Seq<char>)
    ensures
        extract_model::<T>(DynModel::Text(s)) == Err::<Seq<T::V>, ConversionError>(
            ConversionError::TypeMismatch,
        ),
{
}

/// A value without the sequence capability is refused with a capability
/// mismatch.
pub proof fn lemma_non_sequence_refused<T: FromDynamic>(v: DynModel)
    requires
        !v.is_sequence(),
    ensures
        extract_model::<T>(v) == Err::<Seq<T::V>, ConversionError>(
            ConversionError::CapabilityMismatch,
        ),
{
}

/// When the item at position `i` is the first that does not convert,
/// extraction fails with that item's position and error, whatever follows it.
pub proof fn lemma_first_failure_reported<T: FromDynamic>(v: DynModel, i: int, e: ConversionError)
    requires
        v.is_sequence(),
        v.text_probe() != Ok::<bool, HostError>(true),
        0 <= i < v.items().len(),
        forall|j: int| 0 <= j < i ==> T::decode(#[trigger] v.items()[j]) is Ok,
        T::decode(v.items()[i]) == Err::<T::V, ConversionError>(e),
    ensures
        extract_model::<T>(v) == Err::<Seq<T::V>, ConversionError>(
            ConversionError::ElementConversionFailure { index: i as usize, cause: Box::new(e) },
        ),
{
    let items = v.items();
    let vals = Seq::new(items.len(), |j: int| T::decode(items[j])->Ok_0);
    lemma_prefix_all_convert::<T>(items, vals, i as nat);
    assert(decode_prefix::<T>(items, (i + 1) as nat) is Err);
    lemma_prefix_failure_persists::<T>(items, (i + 1) as nat, items.len());
}

} // verus!
