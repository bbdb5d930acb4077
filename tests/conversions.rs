use dynseq::{
    extract_sequence, ConversionError, DynValue, FromDynamic, HostError, IntoDynamic, SequenceRef,
    SmallVec, ToDynamic,
};

fn ints(values: &[i64]) -> Vec<DynValue> {
    values.iter().map(|v| DynValue::Int(*v)).collect()
}

fn text(s: &str) -> DynValue {
    DynValue::Text(s.to_string())
}

fn small(values: &[i64]) -> SmallVec<i64, 4> {
    SmallVec::from_vec(values.to_vec())
}

#[test]
fn round_trip_ints() {
    let c = small(&[3, -1, 7]);
    let obj = c.to_object();
    assert_eq!(obj, DynValue::List(ints(&[3, -1, 7])));
    let back = <SmallVec<i64, 4> as FromDynamic>::extract(&obj);
    assert_eq!(back, Ok(c));
}

#[test]
fn round_trip_spilled_strings() {
    let words: Vec<String> = ["a", "bc", "", "déf", "g", "h"].iter().map(|w| w.to_string()).collect();
    let c: SmallVec<String, 2> = SmallVec::from_vec(words.clone());
    assert!(c.is_spilled());
    let back = <SmallVec<String, 2> as FromDynamic>::extract(&c.to_object()).unwrap();
    assert_eq!(back.as_slice(), words.as_slice());
    assert_eq!(back, c);
}

#[test]
fn round_trip_empty() {
    let c: SmallVec<bool, 3> = SmallVec::new();
    let obj = c.to_object();
    assert_eq!(obj, DynValue::List(Vec::new()));
    assert_eq!(<SmallVec<bool, 3> as FromDynamic>::extract(&obj), Ok(c));
}

#[test]
fn round_trip_nested() {
    let inner_a: SmallVec<i64, 2> = SmallVec::from_vec(vec![1, 2, 3]);
    let inner_b: SmallVec<i64, 2> = SmallVec::new();
    let c: SmallVec<SmallVec<i64, 2>, 1> = SmallVec::from_vec(vec![inner_a, inner_b]);
    let obj = c.to_object();
    assert_eq!(
        obj,
        DynValue::List(vec![DynValue::List(ints(&[1, 2, 3])), DynValue::List(Vec::new())])
    );
    assert_eq!(<SmallVec<SmallVec<i64, 2>, 1> as FromDynamic>::extract(&obj), Ok(c));
}

#[test]
fn extract_keeps_length_and_order() {
    let obj = DynValue::List(ints(&[9, 8, 7, 6, 5]));
    let v = <SmallVec<i64, 2> as FromDynamic>::extract(&obj).unwrap();
    assert_eq!(v.len(), 5);
    assert_eq!(v.as_slice(), &[9, 8, 7, 6, 5]);
    assert!(v.is_spilled());
    assert_eq!(v.inline_capacity(), 2);
}

#[test]
fn extract_from_tuple() {
    let obj = DynValue::Tuple(vec![DynValue::Bool(true), DynValue::Bool(false)]);
    let v = <SmallVec<bool, 4> as FromDynamic>::extract(&obj).unwrap();
    assert_eq!(v.as_slice(), &[true, false]);
    assert!(!v.is_spilled());
}

#[test]
fn extract_empty_list() {
    let v = <SmallVec<i64, 4> as FromDynamic>::extract(&DynValue::List(Vec::new())).unwrap();
    assert!(v.is_empty());
}

#[test]
fn extract_dynamic_elements() {
    let obj = DynValue::List(vec![DynValue::Null, text("x"), DynValue::Int(4)]);
    let v = <SmallVec<DynValue, 4> as FromDynamic>::extract(&obj).unwrap();
    assert_eq!(v.as_slice(), &[DynValue::Null, text("x"), DynValue::Int(4)]);
}

#[test]
fn text_is_refused() {
    let obj = text("abc");
    assert_eq!(
        <SmallVec<String, 4> as FromDynamic>::extract(&obj),
        Err(ConversionError::TypeMismatch)
    );
    assert_eq!(
        <SmallVec<DynValue, 4> as FromDynamic>::extract(&obj),
        Err(ConversionError::TypeMismatch)
    );
    assert_eq!(
        <SmallVec<i64, 4> as FromDynamic>::extract(&text("")),
        Err(ConversionError::TypeMismatch)
    );
}

#[test]
fn non_sequence_is_refused() {
    for obj in [DynValue::Int(5), DynValue::Null, DynValue::Bool(true)] {
        assert_eq!(
            <SmallVec<i64, 4> as FromDynamic>::extract(&obj),
            Err(ConversionError::CapabilityMismatch)
        );
    }
}

#[test]
fn first_failing_element_is_reported() {
    let obj = DynValue::List(vec![DynValue::Int(1), text("x"), DynValue::Null]);
    assert_eq!(
        <SmallVec<i64, 4> as FromDynamic>::extract(&obj),
        Err(ConversionError::ElementConversionFailure {
            index: 1,
            cause: Box::new(ConversionError::Incompatible),
        })
    );
}

#[test]
fn nested_failure_is_wrapped() {
    let obj = DynValue::List(vec![
        DynValue::List(ints(&[1])),
        DynValue::List(vec![DynValue::Int(2), text("a")]),
    ]);
    assert_eq!(
        <SmallVec<SmallVec<i64, 2>, 2> as FromDynamic>::extract(&obj),
        Err(ConversionError::ElementConversionFailure {
            index: 1,
            cause: Box::new(ConversionError::ElementConversionFailure {
                index: 1,
                cause: Box::new(ConversionError::Incompatible),
            }),
        })
    );
    let with_text = DynValue::List(vec![text("ab")]);
    assert_eq!(
        <SmallVec<SmallVec<String, 2>, 2> as FromDynamic>::extract(&with_text),
        Err(ConversionError::ElementConversionFailure {
            index: 0,
            cause: Box::new(ConversionError::TypeMismatch),
        })
    );
}

#[test]
fn iteration_failure_is_reported() {
    let obj = DynValue::Failing { yielded: ints(&[1, 2]), error: HostError { code: 7 } };
    assert_eq!(
        <SmallVec<i64, 4> as FromDynamic>::extract(&obj),
        Err(ConversionError::IterationFailure(HostError { code: 7 }))
    );
}

#[test]
fn element_failure_comes_before_iteration_failure() {
    let obj = DynValue::Failing {
        yielded: vec![DynValue::Int(1), DynValue::Bool(false)],
        error: HostError { code: 3 },
    };
    assert_eq!(
        <SmallVec<i64, 4> as FromDynamic>::extract(&obj),
        Err(ConversionError::ElementConversionFailure {
            index: 1,
            cause: Box::new(ConversionError::Incompatible),
        })
    );
}

#[test]
fn failing_type_probe_lets_the_value_through() {
    let hidden_text =
        DynValue::Opaque { inner: Box::new(text("hé!")), probe_error: HostError { code: 1 } };
    let v = <SmallVec<String, 4> as FromDynamic>::extract(&hidden_text).unwrap();
    assert_eq!(v.as_slice(), &["h".to_string(), "é".to_string(), "!".to_string()]);

    let hidden_list =
        DynValue::Opaque { inner: Box::new(DynValue::List(ints(&[4, 5]))), probe_error: HostError { code: 2 } };
    let v = <SmallVec<i64, 1> as FromDynamic>::extract(&hidden_list).unwrap();
    assert_eq!(v.as_slice(), &[4, 5]);

    let hidden_int =
        DynValue::Opaque { inner: Box::new(DynValue::Int(3)), probe_error: HostError { code: 2 } };
    assert_eq!(
        <SmallVec<i64, 1> as FromDynamic>::extract(&hidden_int),
        Err(ConversionError::CapabilityMismatch)
    );
}

#[test]
fn extract_sequence_skips_the_text_guard() {
    let v: SmallVec<String, 4> = extract_sequence(&text("ab")).unwrap();
    assert_eq!(v.as_slice(), &["a".to_string(), "b".to_string()]);
    let r: Result<SmallVec<i64, 4>, ConversionError> = extract_sequence(&DynValue::Int(1));
    assert_eq!(r, Err(ConversionError::CapabilityMismatch));
}

#[test]
fn consuming_conversion_moves_elements() {
    let c: SmallVec<String, 1> = SmallVec::from_vec(vec!["x".to_string(), "yz".to_string()]);
    let expected = c.to_object();
    let obj = c.into_object();
    assert_eq!(obj, expected);
    assert_eq!(obj, DynValue::List(vec![text("x"), text("yz")]));
}

#[test]
fn consuming_conversion_of_empty_vector() {
    let c: SmallVec<i64, 4> = SmallVec::new();
    assert_eq!(c.into_object(), DynValue::List(Vec::new()));
}

#[test]
fn borrowing_conversion_leaves_vector_unchanged() {
    let mut c = small(&[1, 2]);
    c.push(3);
    let before = c.clone();
    let obj = c.to_object();
    assert_eq!(c, before);
    assert_eq!(c.as_slice(), &[1, 2, 3]);
    assert_eq!(obj, DynValue::List(ints(&[1, 2, 3])));
}

#[test]
fn scalar_conversions() {
    assert_eq!(i64::extract(&DynValue::Int(-4)), Ok(-4));
    assert_eq!(i64::extract(&DynValue::Bool(true)), Err(ConversionError::Incompatible));
    assert_eq!(bool::extract(&DynValue::Int(1)), Err(ConversionError::Incompatible));
    assert_eq!(String::extract(&text("q")), Ok("q".to_string()));
    assert_eq!(5i64.into_object(), DynValue::Int(5));
    assert_eq!(false.to_object(), DynValue::Bool(false));
}

#[test]
fn sequence_view_reports_length_and_items() {
    assert_eq!(
        SequenceRef::downcast(&DynValue::Int(1)).err(),
        Some(ConversionError::CapabilityMismatch)
    );
    let t = text("añb");
    let seq = SequenceRef::downcast(&t).unwrap();
    assert_eq!(seq.len(), Ok(3));
    let mut it = seq.iter();
    assert_eq!(it.next_item(), Some(Ok(text("a"))));
    assert_eq!(it.next_item(), Some(Ok(text("ñ"))));
    assert_eq!(it.next_item(), Some(Ok(text("b"))));
    assert_eq!(it.next_item(), None);

    let f = DynValue::Failing { yielded: ints(&[1]), error: HostError { code: 9 } };
    let seq = SequenceRef::downcast(&f).unwrap();
    assert_eq!(seq.len(), Err(HostError { code: 9 }));
    let mut it = seq.iter();
    assert_eq!(it.next_item(), Some(Ok(DynValue::Int(1))));
    assert_eq!(it.next_item(), Some(Err(HostError { code: 9 })));
    assert_eq!(it.next_item(), None);
}

#[test]
fn duplicate_and_probe() {
    let v = DynValue::Opaque {
        inner: Box::new(DynValue::Tuple(vec![text("z"), DynValue::Null])),
        probe_error: HostError { code: 4 },
    };
    assert_eq!(v.duplicate(), v);
    assert_eq!(v.text_probe(), Err(HostError { code: 4 }));
    assert!(v.is_sequence());
    assert_eq!(text("z").text_probe(), Ok(true));
    assert_eq!(DynValue::Int(0).text_probe(), Ok(false));
    assert!(!DynValue::Null.is_sequence());
}

#[test]
fn with_capacity_starts_empty() {
    let mut v: SmallVec<i64, 2> = SmallVec::with_capacity(10);
    assert!(v.is_empty());
    v.push(1);
    v.push(2);
    assert!(!v.is_spilled());
    v.push(3);
    assert!(v.is_spilled());
    assert_eq!(v.into_vec(), vec![1, 2, 3]);
}
