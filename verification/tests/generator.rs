use slack_api::generator::format_docs;
use slack_api::schema::{
    ApiError, JsonEnum, JsonEnumVariant, JsonObject, JsonObjectFieldInfo, Method, Module, Okable,
    Param, PropType, Response,
};

fn field(name: &str, ty: PropType) -> JsonObjectFieldInfo {
    JsonObjectFieldInfo { name: name.to_string(), ty, rename: None, description: None }
}

fn post_message_method() -> Method {
    Method {
        name: "chat.postMessage".to_string(),
        description: "Sends a message to a channel.".to_string(),
        documentation_url: "https://api.slack.com/methods/chat.postMessage".to_string(),
        params: vec![
            Param {
                name: "channel".to_string(),
                description: "Channel to send message to.".to_string(),
                ty: "string".to_string(),
                optional: false,
            },
            Param {
                name: "text".to_string(),
                description: "Text of the message.".to_string(),
                ty: "string".to_string(),
                optional: false,
            },
            Param {
                name: "as_user".to_string(),
                description: "Pass true to post as the authed user.".to_string(),
                ty: "boolean".to_string(),
                optional: true,
            },
        ],
        response: Response {
            sample: String::new(),
            schema: PropType::Obj(Box::new(JsonObject {
                name: "response".to_string(),
                fields: vec![
                    field("ok", PropType::Bool),
                    field("ts", PropType::Str),
                    field("channel", PropType::Str),
                ],
            })),
            errors: vec![ApiError {
                name: "channel_not_found".to_string(),
                description: "Value passed for channel was invalid.".to_string(),
            }],
        },
    }
}

#[test]
fn end_to_end_post_message_generation() {
    let method = post_message_method();
    let code = method.generate().unwrap();
    // The request type has the three declared fields, as_user optional.
    assert!(code.contains("pub struct PostMessageRequest"));
    assert!(code.contains("pub channel: String,"));
    assert!(code.contains("pub text: String,"));
    assert!(code.contains("pub as_user: Option<bool>,"));
    // The callable serializes channel and text always, as_user when present.
    assert!(code.contains("pub fn post_message<R>"));
    assert!(code.contains("params.insert(\"channel\", request.channel.clone());"));
    assert!(code.contains("params.insert(\"text\", request.text.clone());"));
    assert!(code.contains(
        "if let Some(as_user) = request.as_user { params.insert(\"as_user\", if as_user { \"1\".to_owned() } else { \"0\".to_owned() }); }"
    ));
    // The response type keeps ts and channel public and defaults ok.
    assert!(code.contains("pub struct PostMessageResponse"));
    assert!(code.contains("pub ts: String,"));
    assert!(code.contains("pub channel: String,"));
    assert!(code.contains("#[serde(default)] ok: bool,"));
    // The result facade is synthesized and folded into the call.
    assert!(code.contains("impl ToResult<PostMessageResponse, PostMessageError> for PostMessageResponse"));
    assert!(code.contains("if self.ok {"));
    assert!(code.contains(".and_then(|o| o.to_result())"));
    // The declared error code becomes a variant with its classification.
    assert!(code.contains("ChannelNotFound,"));
    assert!(code.contains("\"channel_not_found\" => PostMessageError::ChannelNotFound,"));
    assert!(code.contains("MalformedResponse,"));
    assert!(code.contains("Unknown(String),"));
    assert!(code.contains("Client(ClientError)"));
}

#[test]
fn generated_fields_are_name_sorted() {
    let method = post_message_method();
    let code = method.generate().unwrap();
    let response_at = code.find("pub struct PostMessageResponse").unwrap();
    let tail = &code[response_at..];
    let channel_at = tail.find("pub channel: String,").unwrap();
    let ok_at = tail.find("ok: bool,").unwrap();
    let ts_at = tail.find("pub ts: String,").unwrap();
    assert!(channel_at < ok_at);
    assert!(ok_at < ts_at);
}

#[test]
fn generation_is_idempotent() {
    let module = Module {
        name: "chat".to_string(),
        description: None,
        methods: vec![post_message_method()],
    };
    let first = module.generate().unwrap();
    let second = module.generate().unwrap();
    assert_eq!(first, second);
}

#[test]
fn fatal_path_bare_string_response() {
    let mut method = post_message_method();
    method.response.schema = PropType::Str;
    let result = method.generate();
    let err = result.err().expect("a bare string response must abort generation");
    assert_eq!(
        err.message,
        "Top-level response for post_message is not an object or enum."
    );
}

#[test]
fn fatal_path_enum_without_ok() {
    let mut method = post_message_method();
    method.response.schema = PropType::Enum(Box::new(JsonEnum {
        name: "response".to_string(),
        variants: vec![JsonEnumVariant {
            name: "Standard".to_string(),
            qualified_name: "Response::Standard".to_string(),
            inner: PropType::Obj(Box::new(JsonObject {
                name: "Inner".to_string(),
                fields: vec![field("text", PropType::Str)],
            })),
        }],
    }));
    let result = method.generate();
    let err = result.err().expect("a top-level enum without ok must abort generation");
    assert_eq!(
        err.message,
        "Top-level response enum for post_message does not have an \"ok\" field in every variant."
    );
}

#[test]
fn parameter_insertion_table() {
    let p = |name: &str, ty: &str, optional: bool| Param {
        name: name.to_string(),
        description: String::new(),
        ty: ty.to_string(),
        optional,
    };
    assert_eq!(
        p("as_user", "boolean", false).get_insertion(),
        "params.insert(\"as_user\", if request.as_user { \"1\".to_owned() } else { \"0\".to_owned() });"
    );
    assert_eq!(
        p("as_user", "boolean", true).get_insertion(),
        "if let Some(as_user) = request.as_user { params.insert(\"as_user\", if as_user { \"1\".to_owned() } else { \"0\".to_owned() }); }"
    );
    assert_eq!(
        p("count", "integer", false).get_insertion(),
        "params.insert(\"count\", request.count.to_string());"
    );
    assert_eq!(
        p("count", "integer", true).get_insertion(),
        "if let Some(count) = request.count { params.insert(\"count\", count.to_string()); }"
    );
    assert_eq!(
        p("channel", "string", false).get_insertion(),
        "params.insert(\"channel\", request.channel.clone());"
    );
    assert_eq!(
        p("icon_emoji", "string", true).get_insertion(),
        "if let Some(ref icon_emoji) = request.icon_emoji { params.insert(\"icon_emoji\", icon_emoji.to_owned()); }"
    );
    // An unrecognized declared type falls back to the text row.
    assert_eq!(
        p("thing", "decimal", false).get_insertion(),
        "params.insert(\"thing\", request.thing.clone());"
    );
}

#[test]
fn rust_types_of_parameters() {
    assert_eq!(slack_api::generator::get_rust_type("boolean", false), "bool");
    assert_eq!(slack_api::generator::get_rust_type("integer", false), "u32");
    assert_eq!(slack_api::generator::get_rust_type("string", false), "String");
    assert_eq!(slack_api::generator::get_rust_type("boolean", true), "Option<bool>");
    assert_eq!(slack_api::generator::get_rust_type("anything", true), "Option<String>");
}

#[test]
fn enum_dispatch_uses_subtype_only_for_message() {
    let variant = JsonEnumVariant {
        name: "Standard".to_string(),
        qualified_name: "Message::Standard".to_string(),
        inner: PropType::Obj(Box::new(JsonObject {
            name: "MessageStandard".to_string(),
            fields: vec![field("ok", PropType::Bool)],
        })),
    };
    let message_enum = JsonEnum { name: "Message".to_string(), variants: vec![variant] };
    let code = message_enum.to_code();
    assert!(code.contains("value.get(\"subtype\")"));
    assert!(code.contains("D::Error::missing_field(\"subtype\")"));
    assert!(code.contains("\"standard\" => {"));
    assert!(code.contains("D::Error::unknown_variant(ty, VARIANTS)"));

    let other = JsonEnum {
        name: "Item".to_string(),
        variants: vec![JsonEnumVariant {
            name: "FileItem".to_string(),
            qualified_name: "Item::FileItem".to_string(),
            inner: PropType::Obj(Box::new(JsonObject {
                name: "ItemFile".to_string(),
                fields: vec![field("ok", PropType::Bool)],
            })),
        }],
    };
    let code = other.to_code();
    assert!(code.contains("value.get(\"type\")"));
    assert!(code.contains("\"file_item\" => {"));
}

#[test]
fn has_ok_marker() {
    let with_ok = JsonObject {
        name: "A".to_string(),
        fields: vec![field("ok", PropType::Bool), field("x", PropType::Str)],
    };
    let without_ok = JsonObject { name: "B".to_string(), fields: vec![field("x", PropType::Str)] };
    assert!(with_ok.has_ok());
    assert!(!without_ok.has_ok());
    let nested = JsonEnum {
        name: "E".to_string(),
        variants: vec![
            JsonEnumVariant {
                name: "V1".to_string(),
                qualified_name: "E::V1".to_string(),
                inner: PropType::Obj(Box::new(JsonObject {
                    name: "A".to_string(),
                    fields: vec![field("ok", PropType::Bool)],
                })),
            },
            JsonEnumVariant {
                name: "V2".to_string(),
                qualified_name: "E::V2".to_string(),
                inner: PropType::Obj(Box::new(JsonObject {
                    name: "B".to_string(),
                    fields: vec![field("x", PropType::Str)],
                })),
            },
        ],
    };
    assert!(!nested.has_ok());
}

#[test]
fn docs_and_safe_names() {
    assert_eq!(format_docs("///", "one\ntwo"), "/// one\n/// two\n");
    assert_eq!(format_docs("///", ""), "");
    let module = Module { name: "chat.history".to_string(), description: None, methods: vec![] };
    assert_eq!(module.get_safe_name(), "chat_history");
}

#[test]
fn nested_shapes_are_rendered_once_per_occurrence() {
    let inner = JsonObject { name: "Inner".to_string(), fields: vec![field("x", PropType::Str)] };
    let inner2 = JsonObject { name: "Inner".to_string(), fields: vec![field("x", PropType::Str)] };
    let outer = JsonObject {
        name: "Outer".to_string(),
        fields: vec![
            field("a", PropType::Obj(Box::new(inner))),
            field("b", PropType::Arr(Box::new(PropType::Obj(Box::new(inner2))))),
        ],
    };
    let code = outer.to_code();
    let occurrences = code.matches("pub struct Inner").count();
    assert_eq!(occurrences, 2);
}
