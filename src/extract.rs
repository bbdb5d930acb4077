use vstd::prelude::*;

use crate::convert::{result_view, FromDynamic, IntoDynamic, ToDynamic};
use crate::error::ConversionError;
use crate::sequence::SequenceRef;
use crate::small_vec::SmallVec;
use crate::value::{DynModel, DynValue, HostError};

verus! {

/// Converting the first `n` of `items` in order: the converted models, or the
/// failure of the first item that does not convert.
pub open spec fn decode_prefix<T: FromDynamic>(items: Seq<DynModel>, n: nat) -> Result<
    Seq<T::V>,
    ConversionError,
>
    decreases n,
{
    if n == 0 {
        Ok(Seq::empty())
    } else {
        match decode_prefix::<T>(items, (n - 1) as nat) {
            Err(e) => Err(e),
            Ok(done) => match T::decode(items[n - 1]) {
                Ok(x) => Ok(done.push(x)),
                Err(e) => Err(
                    ConversionError::ElementConversionFailure {
                        index: (n - 1) as usize,
                        cause: Box::new(e),
                    },
                ),
            },
        }
    }
}

/// Once converting a prefix has failed, every longer prefix fails the same way.
pub proof fn lemma_prefix_failure_persists<T: FromDynamic>(items: Seq<DynModel>, m: nat, n: nat)
    requires
        m <= n,
        decode_prefix::<T>(items, m) is Err,
    ensures
        decode_prefix::<T>(items, n) == decode_prefix::<T>(items, m),
    decreases n - m,
{
    if m < n {
        lemma_prefix_failure_persists::<T>(items, m, (n - 1) as nat);
    }
}

/// Walking the sequence `v` and converting each item: the first element
/// failure, else the error that the walk raises, else all converted items.
pub open spec fn decode_items<T: FromDynamic>(v: DynModel) -> Result<Seq<T::V>, ConversionError> {
    match decode_prefix::<T>(v.items(), v.items().len()) {
        Err(e) => Err(e),
        Ok(all) => match v.raised() {
            Some(e) => Err(ConversionError::IterationFailure(e)),
            None => Ok(all),
        },
    }
}

/// What extracting a vector of `T` from `v` gives: text values are refused
/// (a failing type probe lets the value through), then values without the
/// sequence capability, then the items are converted in order.
pub open spec fn extract_model<T: FromDynamic>(v: DynModel) -> Result<Seq<T::V>, ConversionError> {
    if v.text_probe() == Ok::<bool, HostError>(true) {
        Err(ConversionError::TypeMismatch)
    } else if !v.is_sequence() {
        Err(ConversionError::CapabilityMismatch)
    } else {
        decode_items::<T>(v)
    }
}

/// Reads a vector of `T` from a value that supports the sequence protocol,
/// stopping at the first failure.
pub fn extract_sequence<T: FromDynamic, const N: usize>(obj: &DynValue) -> (r: Result<
    SmallVec<T, N>,
    ConversionError,
>)
    ensures
        result_view(r) == if obj@.is_sequence() {
            decode_items::<T>(obj@)
        } else {
            Err(ConversionError::CapabilityMismatch)
        },
{
    let seq = match SequenceRef::downcast(obj) {
        Ok(s) => s,
        Err(e) => return Err(e),
    };
    let hint = match seq.len() {
        Ok(n) => n,
        Err(_) => 0,
    };
    let ghost items = obj@.items();
    let mut out = SmallVec::<T, N>::with_capacity(hint);
    let mut it = seq.iter();
    let mut i: usize = 0;
    loop
        invariant
            obj@.is_sequence(),
            items == obj@.items(),
            it.source() == obj@,
            it.position() == i,
            i <= items.len(),
            !it.finished(),
            decode_prefix::<T>(items, i as nat) == Ok::<Seq<T::V>, ConversionError>(out@),
        decreases items.len() - i,
    {
        match it.next_item() {
            None => {
                return Ok(out);
            },
            Some(Err(e)) => {
                return Err(ConversionError::IterationFailure(e));
            },
            Some(Ok(item)) => {
                match T::extract(&item) {
                    Ok(x) => {
                        out.push(x);
                    },
                    Err(e) => {
                        proof {
                            lemma_prefix_failure_persists::<T>(items, (i + 1) as nat, items.len());
                        }
                        return Err(
                            ConversionError::ElementConversionFailure { index: i, cause: Box::new(e) },
                        );
                    },
                }
                i = i + 1;
            },
        }
    }
}

impl<T: FromDynamic, const N: usize> FromDynamic for SmallVec<T, N> {
    open spec fn decode(d: DynModel) -> Result<Seq<T::V>, ConversionError> {
        extract_model::<T>(d)
    }

    fn extract(obj: &DynValue) -> (r: Result<SmallVec<T, N>, ConversionError>) {
        if let Ok(true) = obj.text_probe() {
            return Err(ConversionError::TypeMismatch);
        }
        extract_sequence(obj)
    }
}

} // verus!
