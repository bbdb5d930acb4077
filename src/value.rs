use vstd::prelude::*;

verus! {

/// An error raised by the host runtime.
#[derive(Debug, Clone, Copy, PartialEq, Eq, Structural)]
pub struct HostError {
    pub code: u32,
}

/// A value of the host runtime, as this library sees it.
#[derive(Debug, PartialEq)]
pub enum DynValue {
    Null,
    Bool(bool),
    Int(i64),
    Text(String),
    List(Vec<DynValue>),
    Tuple(Vec<DynValue>),
    /// A sequence whose iteration raises `error` after yielding `yielded`.
    Failing { yielded: Vec<DynValue>, error: HostError },
    /// An object whose type probe raises `probe_error` and which otherwise
    /// behaves as `inner`.
    Opaque { inner: Box<DynValue>, probe_error: HostError },
}

/// The mathematical model of a `DynValue`.
pub enum DynModel {
    Null,
    Bool(bool),
    Int(i64),
    Text(Seq<char>),
    List(Seq<DynModel>),
    Tuple(Seq<DynModel>),
    Failing { yielded: Seq<DynModel>, error: HostError },
    Opaque { inner: Box<DynModel>, probe_error: HostError },
}

pub open spec fn model_of(v: DynValue) -> DynModel
    decreases v,
{
    match v {
        DynValue::Null => DynModel::Null,
        DynValue::Bool(b) => DynModel::Bool(b),
        DynValue::Int(i) => DynModel::Int(i),
        DynValue::Text(s) => DynModel::Text(s@),
        DynValue::List(items) => DynModel::List(models_of(items@)),
        DynValue::Tuple(items) => DynModel::Tuple(models_of(items@)),
        DynValue::Failing { yielded, error } => DynModel::Failing { yielded: models_of(yielded@), error },
        DynValue::Opaque { inner, probe_error } => DynModel::Opaque { inner: Box::new(model_of(*inner)), probe_error },
    }
}

pub open spec fn models_of(s: Seq<DynValue>) -> Seq<DynModel>
    decreases s,
{
    Seq::new(s.len(), |i: int| if 0 <= i < s.len() { model_of(s[i]) } else { DynModel::Null })
}

/// The models of a sequence of values, one for one.
pub proof fn lemma_models_of(s: Seq<DynValue>)
    ensures
        models_of(s).len() == s.len(),
        forall|i: int| 0 <= i < s.len() ==> #[trigger] models_of(s)[i] == s[i]@,
{
}

impl View for DynValue {
    type V = DynModel;

    open spec fn view(&self) -> DynModel {
        model_of(*self)
    }
}

impl DynModel {
    /// The answer of the host's "is this a text object" probe.
    pub open spec fn text_probe(self) -> Result<bool, HostError> {
        match self {
            DynModel::Text(_) => Ok(true),
            DynModel::Opaque { probe_error, .. } => Err(probe_error),
            _ => Ok(false),
        }
    }

    /// Whether the value supports the generic sequence protocol.
    pub open spec fn is_sequence(self) -> bool
        decreases self,
    {
        match self {
            DynModel::Text(_) | DynModel::List(_) | DynModel::Tuple(_) => true,
            DynModel::Failing { .. } => true,
            DynModel::Opaque { inner, .. } => inner.is_sequence(),
            _ => false,
        }
    }

    /// The items that iterating the value yields, in order, before it ends
    /// or raises.
    pub open spec fn items(self) -> Seq<DynModel>
        decreases self,
    {
        match self {
            DynModel::Text(s) => Seq::new(s.len(), |i: int| DynModel::Text(s.subrange(i, i + 1))),
            DynModel::List(items) => items,
            DynModel::Tuple(items) => items,
            DynModel::Failing { yielded, .. } => yielded,
            DynModel::Opaque { inner, .. } => inner.items(),
            _ => Seq::empty(),
        }
    }

    /// The error that iterating the value raises after its items, if any.
    pub open spec fn raised(self) -> Option<HostError>
        decreases self,
    {
        match self {
            DynModel::Failing { error, .. } => Some(error),
            DynModel::Opaque { inner, .. } => inner.raised(),
            _ => None,
        }
    }
}

impl DynValue {
    /// Asks the host whether the value is a text object; the probe itself
    /// may raise.
    pub fn text_probe(&self) -> (r: Result<bool, HostError>)
        ensures
            r == self@.text_probe(),
    {
        match self {
            DynValue::Text(_) => Ok(true),
            DynValue::Opaque { probe_error, .. } => Err(*probe_error),
            _ => Ok(false),
        }
    }

    /// Whether the value supports the generic sequence protocol.
    pub fn is_sequence(&self) -> (r: bool)
        ensures
            r == self@.is_sequence(),
        decreases self,
    {
        match self {
            DynValue::Text(_) | DynValue::List(_) | DynValue::Tuple(_) => true,
            DynValue::Failing { .. } => true,
            DynValue::Opaque { inner, .. } => inner.is_sequence(),
            _ => false,
        }
    }

    /// A new value with the same model.
    pub fn duplicate(&self) -> (r: DynValue)
        ensures
            r@ == self@,
        decreases self,
    {
        match self {
            DynValue::Null => DynValue::Null,
            DynValue::Bool(b) => DynValue::Bool(*b),
            DynValue::Int(i) => DynValue::Int(*i),
            DynValue::Text(s) => DynValue::Text(s.clone()),
            DynValue::List(items) => DynValue::List(duplicate_all(items)),
            DynValue::Tuple(items) => DynValue::Tuple(duplicate_all(items)),
            DynValue::Failing { yielded, error } => DynValue::Failing {
                yielded: duplicate_all(yielded),
                error: *error,
            },
            DynValue::Opaque { inner, probe_error } => DynValue::Opaque {
                inner: Box::new(inner.duplicate()),
                probe_error: *probe_error,
            },
        }
    }

    /// The host's list constructor: a list object of the given items.
    pub fn new_list(items: Vec<DynValue>) -> (r: DynValue)
        ensures
            r@ == DynModel::List(models_of(items@)),
    {
        DynValue::List(items)
    }
}

fn duplicate_all(items: &Vec<DynValue>) -> (r: Vec<DynValue>)
    ensures
        models_of(r@) == models_of(items@),
    decreases items,
{
    let mut out: Vec<DynValue> = Vec::with_capacity(items.len());
    let mut i: usize = 0;
    while i < items.len()
        invariant
            i <= items.len(),
            out@.len() == i,
            forall|j: int| 0 <= j < i ==> (#[trigger] out@[j])@ == items@[j]@,
        decreases items.len() - i,
    {
        proof {
            assert(decreases_to!(items => items@[i as int]));
        }
        out.push(items[i].duplicate());
        i = i + 1;
    }
    assert(models_of(out@) =~= models_of(items@));
    out
}

} // verus!
