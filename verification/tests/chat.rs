use slack_api::chat::{delete, post_message, update};
use slack_api::message_events::Message;
use slack_api::{ClientError, SlackWebRequestSender};

struct MockSlackWebRequestSender {
    body: String,
}

impl MockSlackWebRequestSender {
    fn respond_with(body: &str) -> MockSlackWebRequestSender {
        MockSlackWebRequestSender { body: body.to_string() }
    }
}

impl SlackWebRequestSender for MockSlackWebRequestSender {
    fn send(&self, _method: &str, _params: &Vec<(String, String)>) -> Result<String, ClientError> {
        Ok(self.body.clone())
    }
}

#[test]
fn chat_general_api_error_response() {
    let client = MockSlackWebRequestSender::respond_with(r#"{"ok": false, "err": "some_error"}"#);
    let result = post_message(
        &client,
        "TEST_TOKEN",
        "TEST_CHANNEL",
        "Test message",
        None,
        None,
        None,
        None,
        None,
        None,
        None,
        None,
        None,
    );
    assert!(result.is_err());
}

#[test]
fn delete_ok_response() {
    let client = MockSlackWebRequestSender::respond_with(
        r#"{
        "ok": true,
        "channel": "C024BE91L",
        "ts": "1401383885.000061"
    }"#,
    );
    let result = delete(&client, "TEST_TOKEN", "1401383885.000061", "C024BE91L");
    if let Err(err) = result {
        panic!("{}", format!("{:?}", err));
    }
    assert_eq!(result.unwrap().ts, "1401383885.000061");
}

#[test]
fn post_message_ok_response() {
    let client = MockSlackWebRequestSender::respond_with(
        r#"{
        "ok": true,
        "ts": "1405895017.000506",
        "channel": "C024BE91L",
        "message": {
            "type": "message",
            "user": "U024BE7LH",
            "text": "Test message",
            "ts": "1444078138.000084"
        }
    }"#,
    );
    let result = post_message(
        &client,
        "TEST_TOKEN",
        "TEST_CHANNEL",
        "Test message",
        None,
        Some(true),
        None,
        None,
        None,
        None,
        None,
        None,
        None,
    );
    if let Err(err) = result {
        panic!("{}", format!("{:?}", err));
    }
    match result.unwrap().message {
        Message::Standard {
            ts: _,
            channel: _,
            user: _,
            text,
            is_starred: _,
            pinned_to: _,
            reactions: _,
            edited: _,
            attachments: _,
        } => {
            assert_eq!(text.unwrap(), "Test message");
        }
        _ => panic!("Message decoded into incorrect variant."),
    }
}

#[test]
fn bot_post_message_ok_response() {
    let sender = MockSlackWebRequestSender::respond_with(
        r#"{
        "ok": true,
        "ts": "1405895017.000506",
        "channel": "C024BE91L",
        "message": {
            "type": "message",
            "text": "Test message",
            "ts": "1444078138.000084"
        }
    }"#,
    );
    let result = post_message(
        &sender,
        "TEST_TOKEN",
        "TEST_CHANNEL",
        "Test message",
        None,
        None,
        None,
        None,
        None,
        None,
        None,
        None,
        None,
    );
    if let Err(err) = result {
        panic!("{}", format!("{:?}", err));
    }
    match result.unwrap().message.clone() {
        Message::Standard {
            ts: _,
            channel: _,
            user: _,
            text,
            is_starred: _,
            pinned_to: _,
            reactions: _,
            edited: _,
            attachments: _,
        } => {
            assert_eq!(text.unwrap(), "Test message")
        }
        _ => panic!("Message decoded into incorrect variant."),
    }
}

#[test]
fn update_ok_response() {
    let client = MockSlackWebRequestSender::respond_with(
        r#"{
        "ok": true,
        "channel": "C024BE91L",
        "ts": "1401383885.000061",
        "text": "Test message"
    }"#,
    );
    let result = update(
        &client,
        "TEST_TOKEN",
        "TEST_CHANNEL",
        "1401383885.000061",
        "Test message",
        None,
        None,
        None,
    );
    if let Err(err) = result {
        panic!("{}", format!("{:?}", err));
    }
    assert_eq!(result.unwrap().text, "Test message");
}

#[test]
fn post_message_params_encoding() {
    let params = slack_api::chat::post_message_params(
        "C1",
        "hi",
        None,
        Some(true),
        None,
        Some(false),
        None,
        None,
        None,
        None,
        Some(":smile:"),
    );
    assert_eq!(
        params,
        vec![
            ("channel".to_string(), "C1".to_string()),
            ("text".to_string(), "hi".to_string()),
            ("as_user".to_string(), "true".to_string()),
            ("link_names".to_string(), "0".to_string()),
            ("icon_emoji".to_string(), ":smile:".to_string()),
        ]
    );
}
