//! Low-level, direct interface for the Slack Web API, together with the
//! schema-driven generator that produces typed client bindings for it.

use vstd::prelude::*;

pub mod api;
pub mod chat;
pub mod facade;
pub mod generator;
pub mod json;
pub mod message_events;
pub mod naming;
pub mod reactions;
pub mod schema;
pub mod strutil;
pub mod types;

use vstd::string::StringExecFns;
use crate::json::{
    JsonVal, JsonValue, json_of, jv_obj_view, obj_get, parse_json, str_field,
};

verus! {

/// A failure reported by the transport capability that carries requests to
/// the service.
#[derive(Debug)]
pub struct ClientError {
    pub message: String,
}

impl ClientError {
    /// A human-readable description of the transport failure.
    pub fn description(&self) -> (r: String)
        ensures
            r@ == self.message@,
    {
        self.message.clone()
    }
}

/// An error returned by an API call: a transport failure, a reply that was
/// not valid JSON, or a reply whose shape or content reported failure.
#[derive(Debug)]
pub enum Error {
    /// The transport capability failed to carry the request.
    Client(ClientError),
    /// The reply was not valid JSON.
    Json,
    /// The reply was JSON but reported failure or had the wrong shape; the
    /// message is the reported error code when one was given.
    Api(String),
}

impl Error {
    /// A human-readable description of the failure.
    pub fn description(&self) -> (r: String)
        ensures
            self matches Error::Api(m) ==> r@ == m@,
            self matches Error::Client(c) ==> r@ == c.message@,
            self is Json ==> r@ == "the response was not valid JSON"@,
    {
        match self {
            Error::Client(c) => c.description(),
            Error::Json => String::from_str("the response was not valid JSON"),
            Error::Api(m) => m.clone(),
        }
    }
}

pub type ApiResult<T> = Result<T, Error>;

/// The transport capability: carries one request, named by the method's
/// wire name and a list of key/value parameters, and hands back the raw
/// response text. Implementations live outside the library; nothing is
/// assumed of what they return.
pub trait SlackWebRequestSender {
    fn send(&self, method: &str, params: &Vec<(String, String)>) -> Result<String, ClientError>;
}

/// The checked outcome of a wire reply, at the level of its JSON tree.
pub open spec fn slack_ok_check(v: JsonVal) -> Result<JsonVal, Seq<char>> {
    match v {
        JsonVal::Obj(fields) => {
            match obj_get(fields, "ok"@) {
                Option::Some(JsonVal::Bool(b)) => {
                    if b {
                        Result::Ok(v)
                    } else {
                        match str_field(fields, "error"@) {
                            Option::Some(code) => Result::Err(code),
                            Option::None => Result::Err(
                                "slack json response \"ok\" is not true"@,
                            ),
                        }
                    }
                },
                Option::Some(_) => Result::Err("slack json response \"ok\" is not a boolean"@),
                Option::None => Result::Err(
                    "slack json response does not contain \"ok\" field"@,
                ),
            }
        },
        _ => Result::Err("bad slack json response (not an object)"@),
    }
}

/// Parses a raw reply and, when asked, checks that it is an object whose
/// `ok` field is `true`; a false `ok` reports the reply's `error` code when
/// one is present.
pub fn parse_slack_response(body: &str, check_ok: bool) -> (r: ApiResult<JsonValue>)
    ensures
        json_of(body@) is None ==> (r matches Err(e) && e is Json),
        json_of(body@) matches Some(v) ==> {
            &&& !check_ok ==> (r matches Ok(jv) && jv@ == v)
            &&& check_ok ==> match slack_ok_check(v) {
                Result::Ok(w) => r matches Ok(jv) && jv@ == w,
                Result::Err(m) => r matches Err(e) && (e matches Error::Api(s) && s@ == m),
            }
        },
{
    let parsed = match parse_json(body) {
        Option::Some(v) => v,
        Option::None => {
            return Result::Err(Error::Json);
        },
    };
    if !check_ok {
        return Result::Ok(parsed);
    }
    match &parsed {
        JsonValue::Obj(fields) => {
            proof {
                assert(parsed@ == JsonVal::Obj(jv_obj_view(fields@, 0)));
            }
            match crate::json::get_field(fields, "ok") {
                Option::Some(okv) => match okv {
                    JsonValue::Bool(b) => {
                        if *b {
                            Result::Ok(parsed)
                        } else {
                            match crate::json::field_str(fields, "error") {
                                Option::Some(code) => Result::Err(Error::Api(code)),
                                Option::None => {
                                    Result::Err(Error::Api(String::from_str(
                                        "slack json response \"ok\" is not true",
                                    )))
                                },
                            }
                        }
                    },
                    _ => {
                        Result::Err(Error::Api(String::from_str("slack json response \"ok\" is not a boolean")))
                    },
                },
                Option::None => {
                    Result::Err(Error::Api(String::from_str("slack json response does not contain \"ok\" field")))
                },
            }
        },
        _ => {
            Result::Err(Error::Api(String::from_str("bad slack json response (not an object)")))
        },
    }
}

/// The view of a parameter list: each pair as its character sequences.
pub open spec fn params_view(s: Seq<(String, String)>) -> Seq<(Seq<char>, Seq<char>)> {
    s.map_values(|p: (String, String)| (p.0@, p.1@))
}

/// Carries one request through the transport and parses the reply, checking
/// its `ok` field. Nothing is assumed of the transport: any value it hands
/// back satisfies this parse.
pub fn make_api_call<R: SlackWebRequestSender>(
    client: &R,
    method: &str,
    params: &Vec<(String, String)>,
) -> (r: ApiResult<JsonValue>)
    ensures
        r matches Ok(v) ==> exists|body: Seq<char>|
            (#[trigger] json_of(body)) matches Some(w) && slack_ok_check(w) matches Ok(u) && v@
                == u,
{
    let body = match client.send(method, params) {
        Result::Ok(b) => b,
        Result::Err(e) => {
            return Result::Err(Error::Client(e));
        },
    };
    let r = parse_slack_response(body.as_str(), true);
    proof {
        if r is Ok {
            assert(json_of(body@) is Some);
        }
    }
    r
}

/// Adds the authentication token to the parameter list, then carries the
/// request through the transport and checks the reply.
pub fn make_authed_api_call<R: SlackWebRequestSender>(
    client: &R,
    method: &str,
    token: &str,
    params: Vec<(String, String)>,
) -> (r: ApiResult<JsonValue>)
    ensures
        r matches Ok(v) ==> exists|body: Seq<char>|
            (#[trigger] json_of(body)) matches Some(w) && slack_ok_check(w) matches Ok(u) && v@
                == u,
{
    let mut params = params;
    params.push(("token".to_owned(), token.to_owned()));
    make_api_call(client, method, &params)
}

} // verus!
