use slack_api::facade::{
    DispatchError, MethodError, OkInfo, ParamValue, RtResponse, classify_error, dispatch_variant,
    encode_opt_param_value, encode_param_value, u32_to_decimal,
};
use slack_api::json::parse_json;

fn declared() -> Vec<String> {
    vec!["channel_not_found".to_string(), "not_authed".to_string()]
}

#[test]
fn obj_facade_ok_true_returns_object_unchanged() {
    let obj = RtResponse::Obj(OkInfo { ok: true, error: None });
    let result = obj.to_result(&declared()).unwrap();
    match result {
        RtResponse::Obj(info) => {
            assert!(info.ok);
            assert!(info.error.is_none());
        }
        _ => panic!("the extraction must hand the object back"),
    }
}

#[test]
fn obj_facade_classifies_declared_code() {
    let obj = RtResponse::Obj(OkInfo { ok: false, error: Some("not_authed".to_string()) });
    match obj.to_result(&declared()) {
        Err(MethodError::Declared(i)) => assert_eq!(i, 1),
        _ => panic!("a declared code must classify to its variant"),
    }
}

#[test]
fn obj_facade_keeps_unknown_code_verbatim() {
    let obj = RtResponse::Obj(OkInfo { ok: false, error: Some("brand_new_error".to_string()) });
    match obj.to_result(&declared()) {
        Err(MethodError::Unknown(code)) => assert_eq!(code, "brand_new_error"),
        _ => panic!("an undeclared code must be kept verbatim"),
    }
}

#[test]
fn obj_facade_malformed_without_code() {
    let obj = RtResponse::Obj(OkInfo { ok: false, error: None });
    assert!(matches!(obj.to_result(&declared()), Err(MethodError::MalformedResponse)));
}

#[test]
fn enum_facade_rewraps_same_variant() {
    let inner = RtResponse::Obj(OkInfo { ok: true, error: None });
    let wrapped = RtResponse::Variant(3, Box::new(inner));
    match wrapped.to_result(&declared()) {
        Ok(RtResponse::Variant(tag, payload)) => {
            assert_eq!(tag, 3);
            assert!(matches!(*payload, RtResponse::Obj(_)));
        }
        _ => panic!("success must re-wrap into the same variant"),
    }
}

#[test]
fn enum_facade_fails_iff_inner_fails() {
    let inner = RtResponse::Obj(OkInfo { ok: false, error: Some("channel_not_found".to_string()) });
    let wrapped = RtResponse::Variant(0, Box::new(inner));
    match wrapped.to_result(&declared()) {
        Err(MethodError::Declared(i)) => assert_eq!(i, 0),
        _ => panic!("failure must surface the payload's classification"),
    }
}

#[test]
fn classification_is_exact_and_case_sensitive() {
    assert!(matches!(classify_error("channel_not_found", &declared()), MethodError::Declared(0)));
    assert!(matches!(classify_error("Channel_Not_Found", &declared()), MethodError::Unknown(_)));
    assert!(matches!(classify_error("channel_not_foun", &declared()), MethodError::Unknown(_)));
    assert!(matches!(classify_error("channel_not_found2", &declared()), MethodError::Unknown(_)));
}

fn tags() -> Vec<String> {
    vec!["standard".to_string(), "bot_message".to_string()]
}

#[test]
fn dispatch_matching_tag_selects_variant() {
    let payload = parse_json(r#"{"type": "bot_message", "other": 1, "extra": "x"}"#).unwrap();
    assert_eq!(dispatch_variant("Item", &tags(), &payload).unwrap(), 1);
}

#[test]
fn dispatch_missing_field_never_defaults() {
    let payload = parse_json(r#"{"other": 1}"#).unwrap();
    assert!(matches!(
        dispatch_variant("Item", &tags(), &payload),
        Err(DispatchError::MissingField)
    ));
}

#[test]
fn dispatch_non_string_discriminator_is_invalid() {
    let payload = parse_json(r#"{"type": 5}"#).unwrap();
    assert!(matches!(
        dispatch_variant("Item", &tags(), &payload),
        Err(DispatchError::InvalidType)
    ));
}

#[test]
fn dispatch_unknown_tag_names_the_tag() {
    let payload = parse_json(r#"{"type": "something_else"}"#).unwrap();
    match dispatch_variant("Item", &tags(), &payload) {
        Err(DispatchError::UnknownVariant(t)) => assert_eq!(t, "something_else"),
        _ => panic!("an unrecognized tag must fail as unknown"),
    }
}

#[test]
fn dispatch_message_reads_subtype() {
    let payload = parse_json(r#"{"subtype": "standard", "type": "ignored"}"#).unwrap();
    assert_eq!(dispatch_variant("Message", &tags(), &payload).unwrap(), 0);
    let payload = parse_json(r#"{"type": "standard"}"#).unwrap();
    assert!(matches!(
        dispatch_variant("Message", &tags(), &payload),
        Err(DispatchError::MissingField)
    ));
}

#[test]
fn parameter_encoding_table() {
    // A required boolean true encodes to "1".
    assert_eq!(encode_param_value(&ParamValue::B(true)), "1");
    assert_eq!(encode_param_value(&ParamValue::B(false)), "0");
    // A required integer encodes in decimal form.
    assert_eq!(encode_param_value(&ParamValue::I(42)), "42");
    // A present optional text value is carried unchanged.
    let present = Some(ParamValue::S(":smile:".to_string()));
    assert_eq!(encode_opt_param_value(&present).unwrap(), ":smile:");
    // An absent optional parameter contributes no entry.
    assert!(encode_opt_param_value(&None).is_none());
}

#[test]
fn decimal_rendering() {
    assert_eq!(u32_to_decimal(0), "0");
    assert_eq!(u32_to_decimal(7), "7");
    assert_eq!(u32_to_decimal(42), "42");
    assert_eq!(u32_to_decimal(1000), "1000");
    assert_eq!(u32_to_decimal(4294967295), "4294967295");
}
