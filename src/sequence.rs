use vstd::prelude::*;
use vstd::string::StrSliceExecFns;

use crate::error::ConversionError;
use crate::value::{lemma_models_of, DynModel, DynValue, HostError};

verus! {

/// A borrowed view of a value that is known to support the generic sequence
/// protocol. The only way to get one is `SequenceRef::downcast`, so walking a
/// sequence is reachable only after the capability test has passed.
pub struct SequenceRef<'a> {
    obj: &'a DynValue,
}

/// A walk over the items of a sequence, in order.
pub struct SequenceIter<'a> {
    source: &'a DynValue,
    pos: usize,
    finished: bool,
}

/// The value that a walk over `v` reads from: `v` itself, or the value that
/// an object with a failing type probe stands for.
fn resolve(v: &DynValue) -> (r: &DynValue)
    ensures
        r@.items() == v@.items(),
        r@.raised() == v@.raised(),
        r@.is_sequence() == v@.is_sequence(),
        !(r@ is Opaque),
    decreases v,
{
    match v {
        DynValue::Opaque { inner, .. } => resolve(inner),
        _ => v,
    }
}

impl<'a> SequenceRef<'a> {
    #[verifier::type_invariant]
    closed spec fn inv(self) -> bool {
        self.obj@.is_sequence()
    }

    /// The value this view borrows.
    pub closed spec fn model(self) -> DynModel {
        self.obj@
    }

    /// Tests the sequence capability of `obj` and, if it holds, borrows `obj`
    /// as a sequence.
    pub fn downcast(obj: &'a DynValue) -> (r: Result<SequenceRef<'a>, ConversionError>)
        ensures
            obj@.is_sequence() ==> (r matches Ok(s) && s.model() == obj@),
            !obj@.is_sequence() ==> r == Err::<SequenceRef<'a>, ConversionError>(
                ConversionError::CapabilityMismatch,
            ),
    {
        if obj.is_sequence() {
            Ok(SequenceRef { obj })
        } else {
            Err(ConversionError::CapabilityMismatch)
        }
    }

    /// The number of items, as the host reports it; the query may raise.
    pub fn len(&self) -> (r: Result<usize, HostError>)
        ensures
            self.model().is_sequence(),
            r matches Ok(n) ==> n == self.model().items().len(),
            r matches Err(e) ==> self.model().raised() == Some(e),
    {
        proof {
            use_type_invariant(self);
        }
        let src = resolve(self.obj);
        match src {
            DynValue::Text(s) => {
                let n = s.as_str().unicode_len();
                Ok(n)
            },
            DynValue::List(items) | DynValue::Tuple(items) => {
                proof {
                    lemma_models_of(items@);
                }
                Ok(items.len())
            },
            DynValue::Failing { error, .. } => Err(*error),
            DynValue::Null | DynValue::Bool(_) | DynValue::Int(_) | DynValue::Opaque { .. } => Ok(0),
        }
    }

    /// Starts a walk over the items.
    pub fn iter(&self) -> (r: SequenceIter<'a>)
        ensures
            self.model().is_sequence(),
            r.source() == self.model(),
            r.position() == 0,
            !r.finished(),
    {
        proof {
            use_type_invariant(self);
        }
        SequenceIter { source: self.obj, pos: 0, finished: false }
    }
}

impl<'a> SequenceIter<'a> {
    /// The value being walked.
    pub closed spec fn source(self) -> DynModel {
        self.source@
    }

    /// How many items have been yielded.
    pub closed spec fn position(self) -> nat {
        self.pos as nat
    }

    /// Whether the walk has raised its error.
    pub closed spec fn finished(self) -> bool {
        self.finished
    }

    /// Advances the walk: the next item, then the error that the walk raises
    /// after its items (once), then nothing.
    pub fn next_item(&mut self) -> (r: Option<Result<DynValue, HostError>>)
        requires
            old(self).position() <= old(self).source().items().len(),
        ensures
            final(self).source() == old(self).source(),
            final(self).position() <= final(self).source().items().len(),
            final(self).position() <= usize::MAX,
            old(self).position() < old(self).source().items().len() ==> {
                &&& r matches Some(Ok(x))
                &&& x@ == old(self).source().items()[old(self).position() as int]
                &&& final(self).position() == old(self).position() + 1
                &&& final(self).finished() == old(self).finished()
            },
            old(self).position() == old(self).source().items().len() ==> {
                &&& final(self).position() == old(self).position()
                &&& match old(self).source().raised() {
                    Some(e) => if old(self).finished() {
                        r is None && final(self).finished()
                    } else {
                        r == Some(Err::<DynValue, HostError>(e)) && final(self).finished()
                    },
                    None => r is None && final(self).finished() == old(self).finished(),
                }
            },
    {
        let src = resolve(self.source);
        let ghost items = self.source@.items();
        match src {
            DynValue::Text(s) => {
                let n = s.as_str().unicode_len();
                assert(items =~= Seq::new(s@.len(), |i: int| DynModel::Text(s@.subrange(i, i + 1))));
                if self.pos < n {
                    let piece = s.as_str().substring_char(self.pos, self.pos + 1);
                    let r = DynValue::Text(piece.to_owned());
                    assert(r@ == items[self.pos as int]);
                    self.pos = self.pos + 1;
                    Some(Ok(r))
                } else {
                    None
                }
            },
            DynValue::List(v) | DynValue::Tuple(v) => {
                proof {
                    lemma_models_of(v@);
                }
                if self.pos < v.len() {
                    let r = v[self.pos].duplicate();
                    self.pos = self.pos + 1;
                    Some(Ok(r))
                } else {
                    None
                }
            },
            DynValue::Failing { yielded, error } => {
                proof {
                    lemma_models_of(yielded@);
                }
                if self.pos < yielded.len() {
                    let r = yielded[self.pos].duplicate();
                    self.pos = self.pos + 1;
                    Some(Ok(r))
                } else if self.finished {
                    None
                } else {
                    self.finished = true;
                    Some(Err(*error))
                }
            },
            DynValue::Null | DynValue::Bool(_) | DynValue::Int(_) | DynValue::Opaque { .. } => None,
        }
    }
}

} // verus!
