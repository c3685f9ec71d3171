//! Add, list and remove reactions on items.

use vstd::prelude::*;
use crate::chat::{opt_entry, opt_ref_view};
use crate::json::{
    JsonVal, JsonValue, json_of, jv_obj_view, obj_get, str_field,
};
use crate::types::{
    Item, ItemV, Pagination, PaginationV, dec_item, dec_items_i, dec_pagination, decode_item,
    decode_items, decode_pagination, items_view,
};
use crate::{
    ApiResult, Error, SlackWebRequestSender, make_authed_api_call, params_view, slack_ok_check,
};
use vstd::string::StringExecFns;

verus! {

fn push_entry(params: &mut Vec<(String, String)>, key: &str, value: &str)
    ensures
        params_view(final(params)@) == params_view(old(params)@).push((key@, value@)),
{
    params.push((key.to_owned(), value.to_owned()));
    proof {
        assert(params_view(params@) =~= params_view(old(params)@).push((key@, value@)));
    }
}

fn push_opt_entry(params: &mut Vec<(String, String)>, key: &str, v: Option<&str>)
    ensures
        params_view(final(params)@) == params_view(old(params)@) + opt_entry(
            key@,
            opt_ref_view(v),
        ),
{
    if let Option::Some(value) = v {
        push_entry(params, key, value);
        proof {
            assert(params_view(params@) =~= params_view(old(params)@) + opt_entry(
                key@,
                opt_ref_view(v),
            ));
        }
    } else {
        proof {
            assert(params_view(params@) =~= params_view(old(params)@) + opt_entry(
                key@,
                opt_ref_view(v),
            ));
        }
    }
}

/// The parameters every reaction target shares: the item's file, file
/// comment, channel and timestamp, each only when present.
pub fn target_params(
    file: Option<&str>,
    file_comment: Option<&str>,
    channel: Option<&str>,
    timestamp: Option<&str>,
) -> (r: Vec<(String, String)>)
    ensures
        params_view(r@) == opt_entry("file"@, opt_ref_view(file)) + opt_entry(
            "file_comment"@,
            opt_ref_view(file_comment),
        ) + opt_entry("channel"@, opt_ref_view(channel)) + opt_entry(
            "timestamp"@,
            opt_ref_view(timestamp),
        ),
{
    let mut params: Vec<(String, String)> = Vec::new();
    proof {
        assert(params_view(params@) =~= Seq::<(Seq<char>, Seq<char>)>::empty());
    }
    push_opt_entry(&mut params, "file", file);
    push_opt_entry(&mut params, "file_comment", file_comment);
    push_opt_entry(&mut params, "channel", channel);
    push_opt_entry(&mut params, "timestamp", timestamp);
    proof {
        assert(Seq::<(Seq<char>, Seq<char>)>::empty() + opt_entry("file"@, opt_ref_view(file))
            =~= opt_entry("file"@, opt_ref_view(file)));
    }
    params
}

// --------------------------------------------------------------------------
// reactions.add
// --------------------------------------------------------------------------

/// The reply to adding a reaction: it carries nothing beyond success.
#[derive(Clone, Debug)]
pub struct AddResponse;

/// Adds a reaction to an item. Any successful result comes from a reply
/// that parsed as JSON and carried `"ok": true`.
pub fn add<R: SlackWebRequestSender>(
    client: &R,
    token: &str,
    name: &str,
    file: Option<&str>,
    file_comment: Option<&str>,
    channel: Option<&str>,
    timestamp: Option<&str>,
) -> (r: ApiResult<AddResponse>)
    ensures
        r matches Ok(_) ==> exists|body: Seq<char>|
            (#[trigger] json_of(body)) matches Some(w) && slack_ok_check(w) is Ok,
{
    let mut params = target_params(file, file_comment, channel, timestamp);
    push_entry(&mut params, "name", name);
    match make_authed_api_call(client, "reactions.add", token, params) {
        Result::Ok(_) => Result::Ok(AddResponse),
        Result::Err(e) => Result::Err(e),
    }
}

// --------------------------------------------------------------------------
// reactions.get
// --------------------------------------------------------------------------

/// The reply to fetching reactions: an item, inlined at the reply's top
/// level rather than nested as elsewhere.
pub type GetResponse = Item;

/// Decodes the reply of a reactions fetch: the checked reply itself is the
/// item.
pub fn decode_get_response(v: &JsonValue) -> (r: ApiResult<GetResponse>)
    ensures
        dec_item(v@) matches Some(iv) ==> (r matches Ok(x) && x@ == iv),
        dec_item(v@) is None ==> (r matches Err(e) && e is Api),
{
    match decode_item(v) {
        Option::Some(x) => Result::Ok(x),
        Option::None => Result::Err(Error::Api("could not decode item".to_owned())),
    }
}

/// Gets the reactions on an item. Any successful result is the decoding
/// of a reply that parsed as JSON and carried `"ok": true`.
pub fn get<R: SlackWebRequestSender>(
    client: &R,
    token: &str,
    file: Option<&str>,
    file_comment: Option<&str>,
    channel: Option<&str>,
    timestamp: Option<&str>,
    full: Option<&str>,
) -> (r: ApiResult<GetResponse>)
    ensures
        r matches Ok(x) ==> exists|body: Seq<char>|
            (#[trigger] json_of(body)) matches Some(w) && slack_ok_check(w) matches Ok(u)
                && dec_item(u) matches Some(iv) && x@ == iv,
{
    let mut params = target_params(file, file_comment, channel, timestamp);
    push_opt_entry(&mut params, "full", full);
    let checked = match make_authed_api_call(client, "reactions.get", token, params) {
        Result::Ok(v) => v,
        Result::Err(e) => {
            return Result::Err(e);
        },
    };
    decode_get_response(&checked)
}

// --------------------------------------------------------------------------
// reactions.list
// --------------------------------------------------------------------------

/// The reply to listing reactions: the items and their paging block.
#[derive(Clone, Debug)]
pub struct ListResponse {
    pub items: Vec<Item>,
    pub paging: Pagination,
}

pub struct ListResponseV {
    pub items: Seq<ItemV>,
    pub paging: PaginationV,
}

impl View for ListResponse {
    type V = ListResponseV;

    open spec fn view(&self) -> ListResponseV {
        ListResponseV { items: items_view(self.items@), paging: self.paging@ }
    }
}

/// The listing reply a JSON tree decodes to: an `items` array whose every
/// element decodes, and a `paging` block.
pub open spec fn dec_list(v: JsonVal) -> Option<ListResponseV> {
    match v {
        JsonVal::Obj(fs) => {
            match (obj_get(fs, "items"@), obj_get(fs, "paging"@)) {
                (Option::Some(JsonVal::Arr(raw)), Option::Some(pv)) => {
                    match (dec_items_i(raw, 0), dec_pagination(pv)) {
                        (Option::Some(items), Option::Some(paging)) => Option::Some(
                            ListResponseV { items, paging },
                        ),
                        _ => Option::None,
                    }
                },
                _ => Option::None,
            }
        },
        _ => Option::None,
    }
}

/// Decodes a listing reply from its checked JSON tree.
pub fn decode_list_response(v: &JsonValue) -> (r: ApiResult<ListResponse>)
    ensures
        dec_list(v@) matches Some(lv) ==> (r matches Ok(l) && l@ == lv),
        dec_list(v@) is None ==> (r matches Err(e) && e is Api),
{
    match v {
        JsonValue::Obj(fields) => {
            proof {
                assert(v@ == JsonVal::Obj(jv_obj_view(fields@, 0)));
            }
            let raw = match crate::json::get_field(fields, "items") {
                Option::Some(rv) => rv,
                Option::None => {
                    return Result::Err(Error::Api("could not decode list response".to_owned()));
                },
            };
            let items = match raw {
                JsonValue::Arr(raw_items) => match decode_items(raw_items, 0) {
                    Option::Some(items) => items,
                    Option::None => {
                        return Result::Err(
                            Error::Api("could not decode list response".to_owned()),
                        );
                    },
                },
                _ => {
                    return Result::Err(Error::Api("could not decode list response".to_owned()));
                },
            };
            let paging = match crate::json::get_field(fields, "paging") {
                Option::Some(pv) => match decode_pagination(pv) {
                    Option::Some(p) => p,
                    Option::None => {
                        return Result::Err(
                            Error::Api("could not decode list response".to_owned()),
                        );
                    },
                },
                Option::None => {
                    return Result::Err(Error::Api("could not decode list response".to_owned()));
                },
            };
            Result::Ok(ListResponse { items, paging })
        },
        _ => Result::Err(Error::Api("could not decode list response".to_owned())),
    }
}

/// Lists reactions made by a user. Any successful result is the decoding
/// of a reply that parsed as JSON and carried `"ok": true`. Numeric
/// paging arguments are sent in decimal form.
pub fn list<R: SlackWebRequestSender>(
    client: &R,
    token: &str,
    user: Option<&str>,
    full: Option<&str>,
    count: Option<u32>,
    page: Option<u32>,
) -> (r: ApiResult<ListResponse>)
    ensures
        r matches Ok(l) ==> exists|body: Seq<char>|
            (#[trigger] json_of(body)) matches Some(w) && slack_ok_check(w) matches Ok(u)
                && dec_list(u) matches Some(lv) && l@ == lv,
{
    let mut params: Vec<(String, String)> = Vec::new();
    push_opt_entry(&mut params, "user", user);
    push_opt_entry(&mut params, "full", full);
    if let Option::Some(count) = count {
        let c = crate::facade::u32_to_decimal(count);
        params.push(("count".to_owned(), c));
    }
    if let Option::Some(page) = page {
        let p = crate::facade::u32_to_decimal(page);
        params.push(("page".to_owned(), p));
    }
    let checked = match make_authed_api_call(client, "reactions.list", token, params) {
        Result::Ok(v) => v,
        Result::Err(e) => {
            return Result::Err(e);
        },
    };
    decode_list_response(&checked)
}

// --------------------------------------------------------------------------
// reactions.remove
// --------------------------------------------------------------------------

/// The reply to removing a reaction: it carries nothing beyond success.
#[derive(Clone, Debug)]
pub struct RemoveResponse;

/// Removes a reaction from an item. Any successful result comes from a
/// reply that parsed as JSON and carried `"ok": true`.
pub fn remove<R: SlackWebRequestSender>(
    client: &R,
    token: &str,
    name: &str,
    file: Option<&str>,
    file_comment: Option<&str>,
    channel: Option<&str>,
    timestamp: Option<&str>,
) -> (r: ApiResult<RemoveResponse>)
    ensures
        r matches Ok(_) ==> exists|body: Seq<char>|
            (#[trigger] json_of(body)) matches Some(w) && slack_ok_check(w) is Ok,
{
    let mut params = target_params(file, file_comment, channel, timestamp);
    push_entry(&mut params, "name", name);
    match make_authed_api_call(client, "reactions.remove", token, params) {
        Result::Ok(_) => Result::Ok(RemoveResponse),
        Result::Err(e) => Result::Err(e),
    }
}

} // verus!
