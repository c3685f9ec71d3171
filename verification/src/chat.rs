//! Post, update and delete chat messages.

use vstd::prelude::*;
use crate::json::{
    JsonVal, JsonValue, json_of, jv_obj_view, obj_get, str_field,
};
use crate::message_events::{Message, MessageV, dec_message, decode_message};
use crate::{
    ApiResult, Error, SlackWebRequestSender, make_authed_api_call, params_view, slack_ok_check,
};
use vstd::string::StringExecFns;

verus! {

pub open spec fn opt_ref_view(o: Option<&str>) -> Option<Seq<char>> {
    match o {
        Option::Some(s) => Option::Some(s@),
        Option::None => Option::None,
    }
}

/// The parameter entry of an optional text parameter: present only when
/// the value is.
pub open spec fn opt_entry(key: Seq<char>, v: Option<Seq<char>>) -> Seq<(Seq<char>, Seq<char>)> {
    match v {
        Option::Some(s) => seq![(key, s)],
        Option::None => Seq::empty(),
    }
}

/// The parameter entry of an optional boolean parameter, encoded by the
/// two given words; absent values contribute no entry.
pub open spec fn opt_bool_entry(
    key: Seq<char>,
    v: Option<bool>,
    t: Seq<char>,
    f: Seq<char>,
) -> Seq<(Seq<char>, Seq<char>)> {
    match v {
        Option::Some(b) => seq![(key, if b { t } else { f })],
        Option::None => Seq::empty(),
    }
}

fn push_pair(params: &mut Vec<(String, String)>, key: &str, value: &str)
    ensures
        params_view(final(params)@) == params_view(old(params)@).push((key@, value@)),
{
    params.push((key.to_owned(), value.to_owned()));
    proof {
        assert(params_view(params@) =~= params_view(old(params)@).push((key@, value@)));
    }
}

fn push_opt(params: &mut Vec<(String, String)>, key: &str, v: Option<&str>)
    ensures
        params_view(final(params)@) == params_view(old(params)@) + opt_entry(
            key@,
            opt_ref_view(v),
        ),
{
    if let Option::Some(value) = v {
        push_pair(params, key, value);
        proof {
            assert(params_view(params@) =~= params_view(old(params)@) + opt_entry(
                key@,
                opt_ref_view(v),
            ));
        }
    } else {
        proof {
            assert(params_view(params@) =~= params_view(old(params)@) + opt_entry(
                key@,
                opt_ref_view(v),
            ));
        }
    }
}

fn push_opt_bool(params: &mut Vec<(String, String)>, key: &str, v: Option<bool>, t: &str, f: &str)
    ensures
        params_view(final(params)@) == params_view(old(params)@) + opt_bool_entry(
            key@,
            v,
            t@,
            f@,
        ),
{
    if let Option::Some(b) = v {
        push_pair(params, key, if b { t } else { f });
        proof {
            assert(params_view(params@) =~= params_view(old(params)@) + opt_bool_entry(
                key@,
                v,
                t@,
                f@,
            ));
        }
    } else {
        proof {
            assert(params_view(params@) =~= params_view(old(params)@) + opt_bool_entry(
                key@,
                v,
                t@,
                f@,
            ));
        }
    }
}

// --------------------------------------------------------------------------
// chat.delete
// --------------------------------------------------------------------------

/// The reply to a message deletion.
#[derive(Clone, Debug)]
pub struct DeleteResponse {
    pub channel: String,
    pub ts: String,
}

pub struct DeleteResponseV {
    pub channel: Seq<char>,
    pub ts: Seq<char>,
}

impl View for DeleteResponse {
    type V = DeleteResponseV;

    open spec fn view(&self) -> DeleteResponseV {
        DeleteResponseV { channel: self.channel@, ts: self.ts@ }
    }
}

/// The deletion reply a JSON tree decodes to: an object with text
/// `channel` and `ts` fields.
pub open spec fn dec_delete(v: JsonVal) -> Option<DeleteResponseV> {
    match v {
        JsonVal::Obj(fs) => {
            match (str_field(fs, "channel"@), str_field(fs, "ts"@)) {
                (Option::Some(channel), Option::Some(ts)) => Option::Some(
                    DeleteResponseV { channel, ts },
                ),
                _ => Option::None,
            }
        },
        _ => Option::None,
    }
}

/// Decodes a deletion reply from its checked JSON tree.
pub fn decode_delete_response(v: &JsonValue) -> (r: ApiResult<DeleteResponse>)
    ensures
        dec_delete(v@) matches Some(dv) ==> (r matches Ok(d) && d@ == dv),
        dec_delete(v@) is None ==> (r matches Err(e) && e is Api),
{
    match v {
        JsonValue::Obj(fields) => {
            proof {
                assert(v@ == JsonVal::Obj(jv_obj_view(fields@, 0)));
            }
            let channel = crate::json::field_str(fields, "channel");
            let ts = crate::json::field_str(fields, "ts");
            match (channel, ts) {
                (Option::Some(channel), Option::Some(ts)) => Result::Ok(
                    DeleteResponse { channel, ts },
                ),
                _ => Result::Err(Error::Api("could not decode delete response".to_owned())),
            }
        },
        _ => Result::Err(Error::Api("could not decode delete response".to_owned())),
    }
}

/// The parameters a deletion sends: the message timestamp and its channel.
pub fn delete_params(ts: &str, channel: &str) -> (r: Vec<(String, String)>)
    ensures
        params_view(r@) == seq![("ts"@, ts@), ("channel"@, channel@)],
{
    let mut params: Vec<(String, String)> = Vec::new();
    push_pair(&mut params, "ts", ts);
    push_pair(&mut params, "channel", channel);
    proof {
        assert(params_view(params@) =~= seq![("ts"@, ts@), ("channel"@, channel@)]);
    }
    params
}

/// Deletes a message. Any successful result is the decoding of a reply
/// that parsed as JSON and carried `"ok": true`.
pub fn delete<R: SlackWebRequestSender>(client: &R, token: &str, ts: &str, channel: &str) -> (r:
    ApiResult<DeleteResponse>)
    ensures
        r matches Ok(d) ==> exists|body: Seq<char>|
            (#[trigger] json_of(body)) matches Some(w) && slack_ok_check(w) matches Ok(u)
                && dec_delete(u) matches Some(dv) && d@ == dv,
{
    let params = delete_params(ts, channel);
    let checked = match make_authed_api_call(client, "chat.delete", token, params) {
        Result::Ok(v) => v,
        Result::Err(e) => {
            return Result::Err(e);
        },
    };
    decode_delete_response(&checked)
}

// --------------------------------------------------------------------------
// chat.postMessage
// --------------------------------------------------------------------------

/// The reply to posting a message.
#[derive(Clone, Debug)]
pub struct PostMessageResponse {
    pub ts: String,
    pub channel: String,
    pub message: Message,
}

pub struct PostMessageResponseV {
    pub ts: Seq<char>,
    pub channel: Seq<char>,
    pub message: MessageV,
}

impl View for PostMessageResponse {
    type V = PostMessageResponseV;

    open spec fn view(&self) -> PostMessageResponseV {
        PostMessageResponseV { ts: self.ts@, channel: self.channel@, message: self.message@ }
    }
}

/// The posting reply a JSON tree decodes to: text `ts` and `channel`
/// fields and a `message` payload that decodes as a message event.
pub open spec fn dec_post_message(v: JsonVal) -> Option<PostMessageResponseV> {
    match v {
        JsonVal::Obj(fs) => {
            match (str_field(fs, "ts"@), str_field(fs, "channel"@)) {
                (Option::Some(ts), Option::Some(channel)) => {
                    match obj_get(fs, "message"@) {
                        Option::Some(mv) => match dec_message(mv) {
                            Option::Some(m) => Option::Some(
                                PostMessageResponseV { ts, channel, message: m },
                            ),
                            Option::None => Option::None,
                        },
                        Option::None => Option::None,
                    }
                },
                _ => Option::None,
            }
        },
        _ => Option::None,
    }
}

/// Decodes a posting reply from its checked JSON tree.
pub fn decode_post_message_response(v: &JsonValue) -> (r: ApiResult<PostMessageResponse>)
    ensures
        dec_post_message(v@) matches Some(dv) ==> (r matches Ok(d) && d@ == dv),
        dec_post_message(v@) is None ==> (r matches Err(e) && e is Api),
{
    match v {
        JsonValue::Obj(fields) => {
            proof {
                assert(v@ == JsonVal::Obj(jv_obj_view(fields@, 0)));
            }
            let ts = crate::json::field_str(fields, "ts");
            let channel = crate::json::field_str(fields, "channel");
            match (ts, channel) {
                (Option::Some(ts), Option::Some(channel)) => {
                    match crate::json::get_field(fields, "message") {
                        Option::Some(mv) => match decode_message(mv) {
                            Option::Some(message) => Result::Ok(
                                PostMessageResponse { ts, channel, message },
                            ),
                            Option::None => Result::Err(
                                Error::Api("could not decode message event".to_owned()),
                            ),
                        },
                        Option::None => Result::Err(
                            Error::Api("could not decode post message response".to_owned()),
                        ),
                    }
                },
                _ => Result::Err(
                    Error::Api("could not decode post message response".to_owned()),
                ),
            }
        },
        _ => Result::Err(Error::Api("could not decode post message response".to_owned())),
    }
}

/// The parameter list a message posting sends: channel and text always,
/// each optional parameter only when present, booleans as words.
pub open spec fn post_message_params_spec(
    channel: Seq<char>,
    text: Seq<char>,
    username: Option<Seq<char>>,
    as_user: Option<bool>,
    parse: Option<Seq<char>>,
    link_names: Option<bool>,
    attachments: Option<Seq<char>>,
    unfurl_links: Option<bool>,
    unfurl_media: Option<bool>,
    icon_url: Option<Seq<char>>,
    icon_emoji: Option<Seq<char>>,
) -> Seq<(Seq<char>, Seq<char>)> {
    seq![("channel"@, channel), ("text"@, text)] + opt_entry("username"@, username)
        + opt_bool_entry("as_user"@, as_user, "true"@, "false"@) + opt_entry("parse"@, parse)
        + opt_bool_entry("link_names"@, link_names, "1"@, "0"@) + opt_entry(
        "attachments"@,
        attachments,
    ) + opt_bool_entry("unfurl_links"@, unfurl_links, "true"@, "false"@) + opt_bool_entry(
        "unfurl_media"@,
        unfurl_media,
        "true"@,
        "false"@,
    ) + opt_entry("icon_url"@, icon_url) + opt_entry("icon_emoji"@, icon_emoji)
}

/// Builds the posting parameters by the encoding table.
pub fn post_message_params(
    channel: &str,
    text: &str,
    username: Option<&str>,
    as_user: Option<bool>,
    parse: Option<&str>,
    link_names: Option<bool>,
    attachments: Option<&str>,
    unfurl_links: Option<bool>,
    unfurl_media: Option<bool>,
    icon_url: Option<&str>,
    icon_emoji: Option<&str>,
) -> (r: Vec<(String, String)>)
    ensures
        params_view(r@) == post_message_params_spec(
            channel@,
            text@,
            opt_ref_view(username),
            as_user,
            opt_ref_view(parse),
            link_names,
            opt_ref_view(attachments),
            unfurl_links,
            unfurl_media,
            opt_ref_view(icon_url),
            opt_ref_view(icon_emoji),
        ),
{
    let mut params: Vec<(String, String)> = Vec::new();
    push_pair(&mut params, "channel", channel);
    push_pair(&mut params, "text", text);
    proof {
        assert(params_view(params@) =~= seq![("channel"@, channel@), ("text"@, text@)]);
    }
    push_opt(&mut params, "username", username);
    push_opt_bool(&mut params, "as_user", as_user, "true", "false");
    push_opt(&mut params, "parse", parse);
    push_opt_bool(&mut params, "link_names", link_names, "1", "0");
    push_opt(&mut params, "attachments", attachments);
    push_opt_bool(&mut params, "unfurl_links", unfurl_links, "true", "false");
    push_opt_bool(&mut params, "unfurl_media", unfurl_media, "true", "false");
    push_opt(&mut params, "icon_url", icon_url);
    push_opt(&mut params, "icon_emoji", icon_emoji);
    params
}

/// Sends a message to a channel. Any successful result is the decoding of
/// a reply that parsed as JSON and carried `"ok": true`.
pub fn post_message<R: SlackWebRequestSender>(
    client: &R,
    token: &str,
    channel: &str,
    text: &str,
    username: Option<&str>,
    as_user: Option<bool>,
    parse: Option<&str>,
    link_names: Option<bool>,
    attachments: Option<&str>,
    unfurl_links: Option<bool>,
    unfurl_media: Option<bool>,
    icon_url: Option<&str>,
    icon_emoji: Option<&str>,
) -> (r: ApiResult<PostMessageResponse>)
    ensures
        r matches Ok(d) ==> exists|body: Seq<char>|
            (#[trigger] json_of(body)) matches Some(w) && slack_ok_check(w) matches Ok(u)
                && dec_post_message(u) matches Some(dv) && d@ == dv,
{
    let params = post_message_params(
        channel,
        text,
        username,
        as_user,
        parse,
        link_names,
        attachments,
        unfurl_links,
        unfurl_media,
        icon_url,
        icon_emoji,
    );
    let checked = match make_authed_api_call(client, "chat.postMessage", token, params) {
        Result::Ok(v) => v,
        Result::Err(e) => {
            return Result::Err(e);
        },
    };
    decode_post_message_response(&checked)
}

// --------------------------------------------------------------------------
// chat.update
// --------------------------------------------------------------------------

/// The reply to updating a message.
#[derive(Clone, Debug)]
pub struct UpdateResponse {
    pub channel: String,
    pub ts: String,
    pub text: String,
}

pub struct UpdateResponseV {
    pub channel: Seq<char>,
    pub ts: Seq<char>,
    pub text: Seq<char>,
}

impl View for UpdateResponse {
    type V = UpdateResponseV;

    open spec fn view(&self) -> UpdateResponseV {
        UpdateResponseV { channel: self.channel@, ts: self.ts@, text: self.text@ }
    }
}

/// The update reply a JSON tree decodes to: text `channel`, `ts` and
/// `text` fields.
pub open spec fn dec_update(v: JsonVal) -> Option<UpdateResponseV> {
    match v {
        JsonVal::Obj(fs) => {
            match (str_field(fs, "channel"@), str_field(fs, "ts"@)) {
                (Option::Some(channel), Option::Some(ts)) => {
                    match str_field(fs, "text"@) {
                        Option::Some(text) => Option::Some(
                            UpdateResponseV { channel, ts, text },
                        ),
                        Option::None => Option::None,
                    }
                },
                _ => Option::None,
            }
        },
        _ => Option::None,
    }
}

/// Decodes an update reply from its checked JSON tree.
pub fn decode_update_response(v: &JsonValue) -> (r: ApiResult<UpdateResponse>)
    ensures
        dec_update(v@) matches Some(dv) ==> (r matches Ok(d) && d@ == dv),
        dec_update(v@) is None ==> (r matches Err(e) && e is Api),
{
    match v {
        JsonValue::Obj(fields) => {
            proof {
                assert(v@ == JsonVal::Obj(jv_obj_view(fields@, 0)));
            }
            let channel = crate::json::field_str(fields, "channel");
            let ts = crate::json::field_str(fields, "ts");
            let text = crate::json::field_str(fields, "text");
            match (channel, ts, text) {
                (Option::Some(channel), Option::Some(ts), Option::Some(text)) => Result::Ok(
                    UpdateResponse { channel, ts, text },
                ),
                _ => Result::Err(Error::Api("could not decode update response".to_owned())),
            }
        },
        _ => Result::Err(Error::Api("could not decode update response".to_owned())),
    }
}

/// The parameter list an update sends: the timestamp, channel and new
/// text always, each optional parameter only when present.
pub fn update_params(
    ts: &str,
    channel: &str,
    text: &str,
    attachments: Option<&str>,
    parse: Option<&str>,
    link_names: Option<bool>,
) -> (r: Vec<(String, String)>)
    ensures
        params_view(r@) == seq![("ts"@, ts@), ("channel"@, channel@), ("text"@, text@)]
            + opt_entry("attachments"@, opt_ref_view(attachments)) + opt_entry(
            "parse"@,
            opt_ref_view(parse),
        ) + opt_bool_entry("link_names"@, link_names, "1"@, "0"@),
{
    let mut params: Vec<(String, String)> = Vec::new();
    push_pair(&mut params, "ts", ts);
    push_pair(&mut params, "channel", channel);
    push_pair(&mut params, "text", text);
    proof {
        assert(params_view(params@) =~= seq![
            ("ts"@, ts@),
            ("channel"@, channel@),
            ("text"@, text@),
        ]);
    }
    push_opt(&mut params, "attachments", attachments);
    push_opt(&mut params, "parse", parse);
    push_opt_bool(&mut params, "link_names", link_names, "1", "0");
    params
}

/// Updates a message. Any successful result is the decoding of a reply
/// that parsed as JSON and carried `"ok": true`.
pub fn update<R: SlackWebRequestSender>(
    client: &R,
    token: &str,
    ts: &str,
    channel: &str,
    text: &str,
    attachments: Option<&str>,
    parse: Option<&str>,
    link_names: Option<bool>,
) -> (r: ApiResult<UpdateResponse>)
    ensures
        r matches Ok(d) ==> exists|body: Seq<char>|
            (#[trigger] json_of(body)) matches Some(w) && slack_ok_check(w) matches Ok(u)
                && dec_update(u) matches Some(dv) && d@ == dv,
{
    let params = update_params(ts, channel, text, attachments, parse, link_names);
    let checked = match make_authed_api_call(client, "chat.update", token, params) {
        Result::Ok(v) => v,
        Result::Err(e) => {
            return Result::Err(e);
        },
    };
    decode_update_response(&checked)
}

} // verus!
