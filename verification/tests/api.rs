use slack_api::{ClientError, SlackWebRequestSender};

struct MockSlackWebRequestSender {
    body: String,
}

impl MockSlackWebRequestSender {
    fn respond_with(body: &str) -> MockSlackWebRequestSender {
        MockSlackWebRequestSender { body: body.to_string() }
    }
}

impl SlackWebRequestSender for MockSlackWebRequestSender {
    fn send(&self, _method: &str, _params: &Vec<(String, String)>) -> Result<String, ClientError> {
        Ok(self.body.clone())
    }
}

#[test]
fn api_general_api_error_response() {
    let client = MockSlackWebRequestSender::respond_with(r#"{"ok": false, "err": "some_error"}"#);
    let result = slack_api::api::test(&client, None, Some("some_error"));
    assert!(result.is_err());
}

#[test]
fn test_ok_response() {
    let client = MockSlackWebRequestSender::respond_with(
        r#"{
            "ok": true,
            "args": {
                "arg1": "val1",
                "arg2": "val2"
            }
        }"#,
    );
    let mut args: Vec<(String, String)> = Vec::new();
    args.push(("arg1".to_string(), "val1".to_string()));
    args.push(("arg2".to_string(), "val2".to_string()));
    let result = slack_api::api::test(&client, Some(&args), None);
    if let Err(err) = result {
        panic!("{}", format!("{:?}", err));
    }
    let echoed = result.unwrap().args.unwrap();
    let arg1 = echoed.iter().find(|p| p.0 == "arg1").unwrap();
    assert_eq!(arg1.1, "val1");
}

#[test]
fn parse_slack_response_outcomes() {
    // Not JSON at all.
    let r = slack_api::parse_slack_response("not json", true);
    assert!(matches!(r, Err(slack_api::Error::Json)));
    // Not an object.
    let r = slack_api::parse_slack_response("[1, 2]", true);
    match r {
        Err(slack_api::Error::Api(m)) => {
            assert_eq!(m, "bad slack json response (not an object)")
        }
        _ => panic!("expected an API error"),
    }
    // Missing ok.
    let r = slack_api::parse_slack_response(r#"{"x": 1}"#, true);
    match r {
        Err(slack_api::Error::Api(m)) => {
            assert_eq!(m, "slack json response does not contain \"ok\" field")
        }
        _ => panic!("expected an API error"),
    }
    // ok not a boolean.
    let r = slack_api::parse_slack_response(r#"{"ok": "yes"}"#, true);
    match r {
        Err(slack_api::Error::Api(m)) => {
            assert_eq!(m, "slack json response \"ok\" is not a boolean")
        }
        _ => panic!("expected an API error"),
    }
    // ok false with a reported code.
    let r = slack_api::parse_slack_response(r#"{"ok": false, "error": "channel_not_found"}"#, true);
    match r {
        Err(slack_api::Error::Api(m)) => assert_eq!(m, "channel_not_found"),
        _ => panic!("expected an API error"),
    }
    // ok false without a code.
    let r = slack_api::parse_slack_response(r#"{"ok": false}"#, true);
    match r {
        Err(slack_api::Error::Api(m)) => {
            assert_eq!(m, "slack json response \"ok\" is not true")
        }
        _ => panic!("expected an API error"),
    }
    // ok true passes the tree through.
    let r = slack_api::parse_slack_response(r#"{"ok": true, "ts": "1"}"#, true);
    assert!(r.is_ok());
    // Without the check, any JSON passes.
    let r = slack_api::parse_slack_response(r#"[1, 2]"#, false);
    assert!(r.is_ok());
}

struct FailingSender;

impl SlackWebRequestSender for FailingSender {
    fn send(&self, _method: &str, _params: &Vec<(String, String)>) -> Result<String, ClientError> {
        Err(ClientError { message: "connection refused".to_string() })
    }
}

#[test]
fn transport_error_is_client() {
    let result = slack_api::api::test(&FailingSender, None, None);
    match result {
        Err(slack_api::Error::Client(c)) => assert_eq!(c.message, "connection refused"),
        _ => panic!("expected a client error"),
    }
}
