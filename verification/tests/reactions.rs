use slack_api::message_events::Message;
use slack_api::reactions::{add, get, list, remove};
use slack_api::types::Item;
use slack_api::{ClientError, SlackWebRequestSender};

struct MockSlackWebRequestSender {
    body: String,
}

impl MockSlackWebRequestSender {
    fn respond_with(body: &str) -> MockSlackWebRequestSender {
        MockSlackWebRequestSender { body: body.to_string() }
    }
}

impl SlackWebRequestSender for MockSlackWebRequestSender {
    fn send(&self, _method: &str, _params: &Vec<(String, String)>) -> Result<String, ClientError> {
        Ok(self.body.clone())
    }
}

#[test]
fn reactions_general_api_error_response() {
    let client = MockSlackWebRequestSender::respond_with(r#"{"ok": false, "err": "some_error"}"#);
    let result = add(
        &client,
        "TEST_TOKEN",
        "thumbsup",
        None,
        None,
        Some("C1234567890"),
        Some("1234567890.123456"),
    );
    assert!(result.is_err());
}

#[test]
fn add_ok_response() {
    let client = MockSlackWebRequestSender::respond_with(r#"{"ok": true}"#);
    let result = add(
        &client,
        "TEST_TOKEN",
        "thumbsup",
        None,
        None,
        Some("C1234567890"),
        Some("1234567890.123456"),
    );
    if let Err(err) = result {
        panic!("{}", format!("{:?}", err));
    }
}

#[test]
fn get_ok_response() {
    let client = MockSlackWebRequestSender::respond_with(
        r#"{
        "ok": true,
        "type": "message",
        "channel": "C1234567890",
        "message": {
            "type": "message",
            "channel": "C1234567890",
            "user": "U2147483697",
            "text": "Hello world",
            "ts": "1234567890.123456",
            "reactions": [
                {
                    "name": "astonished",
                    "count": 3,
                    "users": [ "U1", "U2", "U3" ]
                },
                {
                    "name": "clock1",
                    "count": 2,
                    "users": [ "U1", "U2", "U3" ]
                }
            ]
        }
    }"#,
    );
    let result = get(
        &client,
        "TEST_TOKEN",
        None,
        None,
        Some("C1234567890"),
        Some("1234567890.123456"),
        None,
    );
    if let Err(err) = result {
        panic!("{}", format!("{:?}", err));
    }
    match result.unwrap().clone() {
        Item::Message { channel: c, message: m } => {
            assert_eq!(c, "C1234567890");
            match *m.clone() {
                Message::Standard {
                    ts: _,
                    channel: _,
                    user: _,
                    text,
                    is_starred: _,
                    pinned_to: _,
                    reactions,
                    edited: _,
                    attachments: _,
                } => {
                    assert_eq!(text.unwrap(), "Hello world");
                    assert_eq!(reactions.unwrap()[0].name, "astonished");
                }
                _ => panic!("Message decoded into incorrect variant."),
            }
        }
        _ => panic!("Item decoded into incorrect variant."),
    }
}

#[test]
fn list_ok_response() {
    let client = MockSlackWebRequestSender::respond_with(
        r#"{
        "ok": true,
        "items": [
            {
                "type": "message",
                "channel": "C1234567890",
                "message": {
                    "type": "message",
                    "channel": "C1234567890",
                    "user": "U2147483697",
                    "text": "Hello world",
                    "ts": "1234567890.123456",
                    "reactions": [
                        {
                            "name": "astonished",
                            "count": 3,
                            "users": [ "U1", "U2", "U3" ]
                        },
                        {
                            "name": "clock1",
                            "count": 2,
                            "users": [ "U1", "U2", "U3" ]
                        }
                    ]
                }
            },
            {
                "type": "file",
                "file": {
                    "id": "F12345678",
                    "created": 1444929467,
                    "timestamp": 1444929467,
                    "name": "test_img.png",
                    "title": "test_img",
                    "mimetype": "image\/png",
                    "filetype": "png",
                    "pretty_type": "PNG",
                    "user": "U12345678",
                    "editable": false,
                    "size": 16153,
                    "mode": "hosted",
                    "is_external": false,
                    "external_type": "",
                    "is_public": true,
                    "public_url_shared": false,
                    "display_as_bot": false,
                    "username": "",
                    "url": "https:\/\/slack-files.com\/files-pub\/PUBLIC-TEST-GUID\/test_img.png",
                    "url_download": "https:\/\/slack-files.com\/files-pub\/PUBLIC-TEST-GUID\/download\/test_img.png",
                    "url_private": "https:\/\/files.slack.com\/files-pri\/PRIVATE-ID\/test_img.png",
                    "url_private_download": "https:\/\/files.slack.com\/files-pri\/PRIVATE-ID\/download\/test_img.png",
                    "thumb_64": "https:\/\/slack-files.com\/files-tmb\/PRIVATE-TEST-GUID\/test_img_64.png",
                    "thumb_80": "https:\/\/slack-files.com\/files-tmb\/PRIVATE-TEST-GUID\/test_img_80.png",
                    "thumb_360": "https:\/\/slack-files.com\/files-tmb\/PRIVATE-TEST-GUID\/test_img_360.png",
                    "thumb_360_w": 360,
                    "thumb_360_h": 28,
                    "thumb_480": "https:\/\/slack-files.com\/files-tmb\/PRIVATE-TEST-GUID\/test_img_480.png",
                    "thumb_480_w": 480,
                    "thumb_480_h": 37,
                    "thumb_160": "https:\/\/slack-files.com\/files-tmb\/PRIVATE-TEST-GUID\/test_img_160.png",
                    "thumb_720": "https:\/\/slack-files.com\/files-tmb\/PRIVATE-TEST-GUID\/test_img_720.png",
                    "thumb_720_w": 720,
                    "thumb_720_h": 56,
                    "image_exif_rotation": 1,
                    "original_w": 895,
                    "original_h": 69,
                    "permalink": "https:\/\/test-team.slack.com\/files\/testuser\/F12345678\/test_img.png",
                    "permalink_public": "https:\/\/slack-files.com\/PUBLIC-TEST-GUID",
                    "channels": [
                        "C12345678"
                    ],
                    "groups": [

                    ],
                    "ims": [

                    ],
                    "comments_count": 0,
                    "reactions": [
                        {
                            "name": "thumbsup",
                            "count": 1,
                            "users": [ "U1" ]
                        }
                    ]
                }
            }
        ],
        "paging": {
            "count": 100,
            "total": 5,
            "page": 1,
            "pages": 1
        }
    }"#,
    );
    let result = list(&client, "TEST_TOKEN", None, None, None, None);
    if let Err(err) = result {
        panic!("{}", format!("{:?}", err));
    }
    match result.unwrap().items[1] {
        Item::File { file: ref f } => {
            assert_eq!(f.id, "F12345678");
            assert_eq!(f.reactions.as_ref().unwrap()[0].name, "thumbsup");
        }
        _ => panic!("Item decoded into incorrect variant."),
    }
}

#[test]
fn remove_ok_response() {
    let client = MockSlackWebRequestSender::respond_with(r#"{"ok": true}"#);
    let result = remove(
        &client,
        "TEST_TOKEN",
        "thumbsup",
        None,
        None,
        Some("C1234567890"),
        Some("1234567890.123456"),
    );
    if let Err(err) = result {
        panic!("{}", format!("{:?}", err));
    }
}

#[test]
fn list_pagination_decoded() {
    let client = MockSlackWebRequestSender::respond_with(
        r#"{"ok": true, "items": [], "paging": {"count": 100, "total": 5, "page": 1, "pages": 1}}"#,
    );
    let result = list(&client, "TEST_TOKEN", Some("U1"), None, Some(42), Some(7)).unwrap();
    assert_eq!(result.items.len(), 0);
    assert_eq!(result.paging.count, 100);
    assert_eq!(result.paging.total, 5);
    assert_eq!(result.paging.page, 1);
    assert_eq!(result.paging.pages, 1);
}
