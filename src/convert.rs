use vstd::prelude::*;

use crate::error::ConversionError;
use crate::value::{DynModel, DynValue};

verus! {

/// A borrowing conversion into a dynamic value.
pub trait ToDynamic: View {
    /// The dynamic value that a native value with model `m` becomes.
    spec fn encode(m: Self::V) -> DynModel;

    fn to_object(&self) -> (r: DynValue)
        ensures
            r@ == Self::encode(self@),
    ;
}

/// A consuming conversion into a dynamic value.
pub trait IntoDynamic: View + Sized {
    /// The dynamic value that a native value with model `m` is turned into.
    spec fn encode_owned(m: Self::V) -> DynModel;

    fn into_object(self) -> (r: DynValue)
        ensures
            r@ == Self::encode_owned(self@),
    ;
}

/// A fallible conversion out of a dynamic value.
pub trait FromDynamic: View + Sized {
    /// The model of the value read from `d`, or the error reported.
    spec fn decode(d: DynModel) -> Result<Self::V, ConversionError>;

    fn extract(obj: &DynValue) -> (r: Result<Self, ConversionError>)
        ensures
            result_view(r) == Self::decode(obj@),
    ;
}

/// A result with its success value replaced by that value's model.
pub open spec fn result_view<T: View>(r: Result<T, ConversionError>) -> Result<T::V, ConversionError> {
    match r {
        Ok(x) => Ok(x@),
        Err(e) => Err(e),
    }
}

impl ToDynamic for i64 {
    open spec fn encode(m: i64) -> DynModel {
        DynModel::Int(m)
    }

    fn to_object(&self) -> (r: DynValue) {
        DynValue::Int(*self)
    }
}

impl IntoDynamic for i64 {
    open spec fn encode_owned(m: i64) -> DynModel {
        DynModel::Int(m)
    }

    fn into_object(self) -> (r: DynValue) {
        DynValue::Int(self)
    }
}

impl FromDynamic for i64 {
    open spec fn decode(d: DynModel) -> Result<i64, ConversionError> {
        match d {
            DynModel::Int(i) => Ok(i),
            _ => Err(ConversionError::Incompatible),
        }
    }

    fn extract(obj: &DynValue) -> (r: Result<i64, ConversionError>) {
        match obj {
            DynValue::Int(i) => Ok(*i),
            _ => Err(ConversionError::Incompatible),
        }
    }
}

impl ToDynamic for bool {
    open spec fn encode(m: bool) -> DynModel {
        DynModel::Bool(m)
    }

    fn to_object(&self) -> (r: DynValue) {
        DynValue::Bool(*self)
    }
}

impl IntoDynamic for bool {
    open spec fn encode_owned(m: bool) -> DynModel {
        DynModel::Bool(m)
    }

    fn into_object(self) -> (r: DynValue) {
        DynValue::Bool(self)
    }
}

impl FromDynamic for bool {
    open spec fn decode(d: DynModel) -> Result<bool, ConversionError> {
        match d {
            DynModel::Bool(b) => Ok(b),
            _ => Err(ConversionError::Incompatible),
        }
    }

    fn extract(obj: &DynValue) -> (r: Result<bool, ConversionError>) {
        match obj {
            DynValue::Bool(b) => Ok(*b),
            _ => Err(ConversionError::Incompatible),
        }
    }
}

impl ToDynamic for String {
    open spec fn encode(m: Seq<char>) -> DynModel {
        DynModel::Text(m)
    }

    fn to_object(&self) -> (r: DynValue) {
        DynValue::Text(self.clone())
    }
}

impl IntoDynamic for String {
    open spec fn encode_owned(m: Seq<char>) -> DynModel {
        DynModel::Text(m)
    }

    fn into_object(self) -> (r: DynValue) {
        DynValue::Text(self)
    }
}

impl FromDynamic for String {
    open spec fn decode(d: DynModel) -> Result<Seq<char>, ConversionError> {
        match d {
            DynModel::Text(s) => Ok(s),
            _ => Err(ConversionError::Incompatible),
        }
    }

    fn extract(obj: &DynValue) -> (r: Result<String, ConversionError>) {
        match obj {
            DynValue::Text(s) => Ok(s.clone()),
            _ => Err(ConversionError::Incompatible),
        }
    }
}

impl ToDynamic for DynValue {
    open spec fn encode(m: DynModel) -> DynModel {
        m
    }

    fn to_object(&self) -> (r: DynValue) {
        self.duplicate()
    }
}

impl IntoDynamic for DynValue {
    open spec fn encode_owned(m: DynModel) -> DynModel {
        m
    }

    fn into_object(self) -> (r: DynValue) {
        self
    }
}

impl FromDynamic for DynValue {
    open spec fn decode(d: DynModel) -> Result<DynModel, ConversionError> {
        Ok(d)
    }

    fn extract(obj: &DynValue) -> (r: Result<DynValue, ConversionError>) {
        Ok(obj.duplicate())
    }
}

} // verus!
