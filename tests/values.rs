use napi_values::finalizer::{plan_define_properties, ClosureRegistry};
use napi_values::handle::{
    from_napi_value, from_raw, to_napi_value, JsExternal, JsNull, JsObject, JsSymbol, JsValue,
    NapiValue, TypeName, Unknown, Value,
};
use napi_values::kind::{validate, validate_either, HandleFacts, KindSpec, Shape};
use napi_values::object::{
    annotate_property_error, check_property_name, finish_get, finish_get_named_property,
    finish_get_named_property_unchecked, finish_get_unchecked, on_array_length, on_is_array,
    start_array_length, ArrayLengthStep, KeyCollectionMode, KeyConversion, KeyFilter,
};
use napi_values::property::{
    collect_closures, PropertyAttributes, PropertyDescriptor, PropertyPayload,
};
use napi_values::status::{check_status, check_status_with, finish_bool_query, Error, Status};
use napi_values::value_type::ValueType;

fn facts(t: ValueType) -> HandleFacts {
    HandleFacts::of_type(t)
}

fn descriptor(name: &str, closure: usize) -> PropertyDescriptor {
    PropertyDescriptor {
        name: name.to_string(),
        payload: PropertyPayload::Method(7),
        attributes: PropertyAttributes::none(),
        closure,
    }
}

#[test]
fn status_codes_map_to_statuses() {
    assert_eq!(Status::from_code(0), Status::Success);
    assert_eq!(Status::from_code(1), Status::InvalidArg);
    assert_eq!(Status::from_code(8), Status::ArrayExpected);
    assert_eq!(Status::from_code(9), Status::GenericFailure);
    assert_eq!(Status::from_code(10), Status::PendingException);
    assert_eq!(Status::from_code(23), Status::CannotRunJs);
    assert_eq!(Status::from_code(24), Status::Unknown);
    assert_eq!(Status::from_code(-1), Status::Unknown);
}

#[test]
fn check_status_passes_success_and_propagates_failures() {
    assert!(check_status(0).is_ok());
    let e = check_status(10).unwrap_err();
    assert_eq!(e.status, Status::PendingException);
    assert_eq!(e.reason, "");
    assert!(!e.is_type_mismatch());
    let e = check_status_with(9, "define failed").unwrap_err();
    assert_eq!(e.status, Status::GenericFailure);
    assert_eq!(e.reason, "define failed");
    assert!(check_status_with(0, "unused").is_ok());
}

#[test]
fn bool_queries_return_the_host_answer() {
    assert_eq!(finish_bool_query(0, true).unwrap(), true);
    assert_eq!(finish_bool_query(0, false).unwrap(), false);
    assert_eq!(finish_bool_query(1, true).unwrap_err().status, Status::InvalidArg);
}

#[test]
fn value_type_codes_map_to_kinds() {
    assert_eq!(ValueType::from_code(0), ValueType::Undefined);
    assert_eq!(ValueType::from_code(5), ValueType::Symbol);
    assert_eq!(ValueType::from_code(6), ValueType::Object);
    assert_eq!(ValueType::from_code(9), ValueType::BigInt);
    assert_eq!(ValueType::from_code(42), ValueType::Unknown);
    assert_eq!(ValueType::Symbol.name(), "symbol");
}

#[test]
fn validate_succeeds_for_the_true_kind_only() {
    let kinds = [
        ValueType::Undefined,
        ValueType::Null,
        ValueType::Boolean,
        ValueType::Number,
        ValueType::String,
        ValueType::Symbol,
        ValueType::Object,
        ValueType::Function,
        ValueType::External,
        ValueType::BigInt,
    ];
    for actual in kinds {
        for expected in kinds {
            let r = validate(KindSpec::plain(expected), facts(actual));
            if expected == actual {
                assert!(r.is_ok());
            } else {
                let e = r.unwrap_err();
                assert_eq!(e.status, Status::InvalidArg);
                let m = e.mismatch.unwrap();
                assert_eq!(m.expected, KindSpec::plain(expected));
                assert_eq!(m.actual, actual);
            }
        }
    }
}

#[test]
fn validate_mismatch_reason_names_both_kinds() {
    let e = validate(KindSpec::plain(ValueType::String), facts(ValueType::Number)).unwrap_err();
    assert_eq!(e.reason, "Expect value to be string, but received number");
}

#[test]
fn unknown_kind_accepts_every_handle() {
    assert!(validate(KindSpec::plain(ValueType::Unknown), facts(ValueType::Symbol)).is_ok());
    assert!(validate(KindSpec::plain(ValueType::Unknown), facts(ValueType::Null)).is_ok());
}

#[test]
fn shaped_kind_needs_its_probe() {
    let array = KindSpec { value_type: ValueType::Object, shape: Shape::Array };
    let e = validate(array, facts(ValueType::Object)).unwrap_err();
    assert_eq!(e.reason, "Expect value to be Array, but received object");
    let mut f = facts(ValueType::Object);
    f.is_array = true;
    assert!(validate(array, f).is_ok());
    assert_eq!(array.name(), "Array");
}

#[test]
fn union_kind_takes_the_first_match() {
    let alts = vec![
        KindSpec::plain(ValueType::String),
        KindSpec::plain(ValueType::Number),
        KindSpec::plain(ValueType::Unknown),
    ];
    assert_eq!(validate_either(&alts, facts(ValueType::Number)).unwrap(), 1);
    assert_eq!(validate_either(&alts, facts(ValueType::String)).unwrap(), 0);
    assert_eq!(validate_either(&alts, facts(ValueType::Null)).unwrap(), 2);
}

#[test]
fn union_kind_fails_when_no_alternative_matches() {
    let alts = vec![KindSpec::plain(ValueType::String), KindSpec::plain(ValueType::Number)];
    let e = validate_either(&alts, facts(ValueType::Object)).unwrap_err();
    assert_eq!(e.status, Status::InvalidArg);
}

#[test]
fn from_raw_checks_the_kind() {
    let o: JsObject = from_raw(1, 100, facts(ValueType::Object)).unwrap();
    assert_eq!(o.value(), Value { env: 1, value: 100, value_type: ValueType::Object });
    let e = from_raw::<JsObject>(1, 100, facts(ValueType::Number)).unwrap_err();
    assert_eq!(e.mismatch.unwrap().actual, ValueType::Number);
    let n: JsNull = from_raw(1, 5, facts(ValueType::Null)).unwrap();
    assert_eq!(n.value().value_type, ValueType::Null);
}

#[test]
fn unchecked_conversion_only_wraps() {
    let s: JsSymbol = from_napi_value(3, 40).unwrap();
    assert_eq!(s.value(), Value { env: 3, value: 40, value_type: ValueType::Symbol });
    let x = JsExternal::from_raw_unchecked(3, 41);
    assert_eq!(x.value().value_type, ValueType::External);
}

#[test]
fn kind_names_and_tags() {
    assert_eq!(JsNull::display_name(), "null");
    assert_eq!(JsSymbol::display_name(), "symbol");
    assert_eq!(JsExternal::display_name(), "external");
    assert_eq!(Unknown::display_name(), "unknown");
    assert_eq!(JsObject::value_type(), ValueType::Object);
    assert_eq!(JsSymbol::kind(), KindSpec::plain(ValueType::Symbol));
}

#[test]
fn array_length_probes_before_reading() {
    assert!(matches!(start_array_length(true), ArrayLengthStep::ProbeIsArray));
    assert!(matches!(on_is_array(0, true), ArrayLengthStep::ReadLength));
    match on_is_array(0, false) {
        ArrayLengthStep::Finished(Err(e)) => {
            assert_eq!(e.status, Status::ArrayExpected);
            assert_eq!(e.reason, "Object is not array");
        }
        _ => panic!("a non-array must not reach the length call"),
    }
    match on_is_array(9, true) {
        ArrayLengthStep::Finished(Err(e)) => assert_eq!(e.status, Status::GenericFailure),
        _ => panic!("a failed probe must finish"),
    }
}

#[test]
fn unchecked_array_length_reads_directly() {
    assert!(matches!(start_array_length(false), ArrayLengthStep::ReadLength));
    match on_array_length(0, 3) {
        ArrayLengthStep::Finished(Ok(n)) => assert_eq!(n, 3),
        _ => panic!("a successful read finishes with the length"),
    }
    match on_array_length(1, 3) {
        ArrayLengthStep::Finished(Err(e)) => assert_eq!(e.status, Status::InvalidArg),
        _ => panic!("a failed read finishes with its error"),
    }
}

#[test]
fn checked_named_property_names_the_property() {
    let e = finish_get_named_property::<JsObject>("age", 0, 1, 9, facts(ValueType::Number))
        .unwrap_err();
    assert!(e.reason.contains("'age'"));
    assert_eq!(
        e.reason,
        "Object property 'age' type mismatch. Expect value to be object, but received number"
    );
    assert_eq!(e.status, Status::InvalidArg);
    let o = finish_get_named_property::<JsObject>("age", 0, 1, 9, facts(ValueType::Object)).unwrap();
    assert_eq!(o.value().value, 9);
}

#[test]
fn unchecked_named_property_is_lenient() {
    let o = finish_get_named_property_unchecked::<JsObject>(0, 1, 9).unwrap();
    assert_eq!(o.value().value_type, ValueType::Object);
    let e = finish_get_named_property_unchecked::<JsObject>(10, 1, 9).unwrap_err();
    assert_eq!(e.status, Status::PendingException);
    assert!(!e.reason.contains("'age'"));
    let e = finish_get_named_property::<JsObject>("age", 10, 1, 9, facts(ValueType::Object))
        .unwrap_err();
    assert_eq!(e.reason, "get_named_property error");
}

#[test]
fn annotation_keeps_status_and_mismatch() {
    let e = Error::new(Status::InvalidArg, "bad".to_string());
    let a = annotate_property_error("x", e);
    assert_eq!(a.status, Status::InvalidArg);
    assert_eq!(a.reason, "Object property 'x' type mismatch. bad");
    assert!(a.mismatch.is_none());
}

#[test]
fn property_names_with_nul_are_rejected() {
    assert!(check_property_name("width").is_ok());
    assert!(check_property_name("").is_ok());
    assert_eq!(check_property_name("wi\0dth").unwrap_err().status, Status::InvalidArg);
}

#[test]
fn get_by_key_checked_and_unchecked() {
    let s: JsSymbol = finish_get(0, 2, 11, facts(ValueType::Symbol)).unwrap();
    assert_eq!(s.value().value, 11);
    assert!(finish_get::<JsSymbol>(0, 2, 11, facts(ValueType::String)).is_err());
    assert_eq!(finish_get::<JsSymbol>(9, 2, 11, facts(ValueType::Symbol)).unwrap_err().status, Status::GenericFailure);
    let u: JsSymbol = finish_get_unchecked(0, 2, 11).unwrap();
    assert_eq!(u.value().value_type, ValueType::Symbol);
}

#[test]
fn define_then_finalize_releases_each_closure_once() {
    let mut registry = ClosureRegistry::new();
    let ds = vec![
        descriptor("a", 0x10),
        descriptor("b", 0),
        descriptor("c", 0x30),
        descriptor("d", 0),
    ];
    assert_eq!(collect_closures(&ds), vec![0x10, 0x30]);
    let plan = plan_define_properties(&mut registry, &ds);
    assert_eq!(plan.closure_count, 2);
    assert!(registry.is_pending(plan.token));
    assert_eq!(registry.finalize(plan.token), Some(vec![0x10, 0x30]));
    assert!(!registry.is_pending(plan.token));
    assert_eq!(registry.finalize(plan.token), None);
}

#[test]
fn batches_get_distinct_tokens() {
    let mut registry = ClosureRegistry::new();
    let first = plan_define_properties(&mut registry, &vec![descriptor("a", 1)]);
    let second = plan_define_properties(&mut registry, &vec![descriptor("b", 0)]);
    assert_ne!(first.token, second.token);
    assert_eq!(second.closure_count, 0);
    assert_eq!(registry.finalize(second.token), Some(vec![]));
    assert_eq!(registry.finalize(first.token), Some(vec![1]));
    assert_eq!(registry.finalize(99), None);
}

#[test]
fn round_trip_through_the_raw_token() {
    let s = JsSymbol::from_raw_unchecked(4, 77);
    let raw = to_napi_value(&s);
    assert_eq!(raw, 77);
    let back: JsSymbol = from_raw(4, raw, facts(ValueType::Symbol)).unwrap();
    assert_eq!(back.value(), s.value());
}

#[test]
fn erasing_keeps_the_handle_and_validation() {
    let o = JsObject::from_raw_unchecked(2, 55);
    let u = o.to_unknown().to_unknown().to_unknown();
    assert_eq!(u.value(), Value { env: 2, value: 55, value_type: ValueType::Unknown });
    let back: JsObject = u.validate(facts(ValueType::Object)).unwrap();
    assert_eq!(back.value(), o.value());
    let c: JsObject = u.cast();
    assert_eq!(c.value(), o.value());
    assert_eq!(u.get_type(6), ValueType::Object);
    assert_eq!(Unknown::from_raw_unchecked(2, 55).value(), u.value());
}

#[test]
fn key_options_encode_as_host_codes() {
    assert_eq!(KeyCollectionMode::IncludePrototypes.code(), 0);
    assert_eq!(KeyCollectionMode::OwnOnly.code(), 1);
    assert_eq!(KeyConversion::KeepNumbers.code(), 0);
    assert_eq!(KeyConversion::NumbersToStrings.code(), 1);
    assert_eq!(KeyFilter::all_properties().code(), 0);
    let f = KeyFilter {
        writable: true,
        enumerable: true,
        configurable: false,
        skip_strings: false,
        skip_symbols: true,
    };
    assert_eq!(f.code(), 19);
}

#[test]
fn attributes_encode_as_host_bits() {
    assert_eq!(PropertyAttributes::none().bits(), 0);
    let a = PropertyAttributes { writable: true, enumerable: false, configurable: true, is_static: true };
    assert_eq!(a.bits(), 1029);
}

#[test]
fn descriptor_constructors_fill_one_payload() {
    let v = PropertyDescriptor::with_value("v".to_string(), 5, PropertyAttributes::none(), 0);
    assert_eq!(v.payload, PropertyPayload::Value(5));
    let m = PropertyDescriptor::with_method("m".to_string(), 6, PropertyAttributes::none(), 0x20);
    assert_eq!(m.payload, PropertyPayload::Method(6));
    assert_eq!(m.closure, 0x20);
    let a = PropertyDescriptor::with_accessor(
        "a".to_string(),
        Some(7),
        None,
        PropertyAttributes::none(),
        0,
    );
    assert_eq!(a.payload, PropertyPayload::Accessor { getter: Some(7), setter: None });
    assert_eq!(a.name, "a");
    assert_eq!(collect_closures(&vec![v, m, a]), vec![0x20]);
}
