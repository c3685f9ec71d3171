//! Checks API calling code.

use vstd::prelude::*;
use crate::chat::{opt_entry, opt_ref_view};
use crate::json::{
    JsonVal, JsonValue, json_of, jv_obj_view, obj_get, opt_seq_view, str_field,
};
use crate::{
    ApiResult, Error, SlackWebRequestSender, make_api_call, params_view, slack_ok_check,
};
use vstd::string::StringExecFns;

verus! {

/// The reply to the connectivity check: the error that was asked to be
/// echoed, and the echoed arguments.
#[derive(Clone, Debug)]
pub struct ApiTestResponse {
    pub error: Option<String>,
    pub args: Option<Vec<(String, String)>>,
}

pub struct ApiTestResponseV {
    pub error: Option<Seq<char>>,
    pub args: Option<Seq<(Seq<char>, Seq<char>)>>,
}

pub open spec fn opt_pairs_view(o: Option<Vec<(String, String)>>) -> Option<
    Seq<(Seq<char>, Seq<char>)>,
> {
    match o {
        Option::Some(v) => Option::Some(params_view(v@)),
        Option::None => Option::None,
    }
}

impl View for ApiTestResponse {
    type V = ApiTestResponseV;

    open spec fn view(&self) -> ApiTestResponseV {
        ApiTestResponseV { error: opt_seq_view(self.error), args: opt_pairs_view(self.args) }
    }
}

/// The text pairs of an object's fields, when every value is text.
pub open spec fn dec_str_pairs_i(s: Seq<(Seq<char>, JsonVal)>, i: int) -> Option<
    Seq<(Seq<char>, Seq<char>)>,
>
    decreases s.len() - i,
{
    if i < 0 || i >= s.len() {
        Option::Some(Seq::empty())
    } else {
        match s[i].1 {
            JsonVal::Str(t) => match dec_str_pairs_i(s, i + 1) {
                Option::Some(rest) => Option::Some(seq![(s[i].0, t)] + rest),
                Option::None => Option::None,
            },
            _ => Option::None,
        }
    }
}

fn decode_str_pairs(fields: &Vec<(String, JsonValue)>, i: usize) -> (r: Option<
    Vec<(String, String)>,
>)
    requires
        i <= fields@.len(),
    ensures
        dec_str_pairs_i(jv_obj_view(fields@, 0), i as int) matches Some(ss) ==> (r matches Some(
            vs,
        ) && params_view(vs@) == ss),
        dec_str_pairs_i(jv_obj_view(fields@, 0), i as int) is None ==> r is None,
    decreases fields@.len() - i,
{
    proof {
        crate::json::lemma_jv_obj_view(fields@, 0);
    }
    if i >= fields.len() {
        let out: Vec<(String, String)> = Vec::new();
        proof {
            assert(params_view(out@) =~= Seq::<(Seq<char>, Seq<char>)>::empty());
        }
        return Option::Some(out);
    }
    match &fields[i].1 {
        JsonValue::Str(t) => {
            match decode_str_pairs(fields, i + 1) {
                Option::Some(rest) => {
                    let ghost rest_v = rest@;
                    let mut rest = rest;
                    rest.insert(0, (fields[i].0.clone(), t.clone()));
                    proof {
                        assert(params_view(rest@) =~= seq![(fields@[i as int].0@, t@)]
                            + params_view(rest_v));
                    }
                    Option::Some(rest)
                },
                Option::None => Option::None,
            }
        },
        _ => Option::None,
    }
}

/// The connectivity reply a JSON tree decodes to: an optional text `error`
/// field, and an optional `args` object whose every value is text.
pub open spec fn dec_api_test(v: JsonVal) -> Option<ApiTestResponseV> {
    match v {
        JsonVal::Obj(fs) => {
            match obj_get(fs, "args"@) {
                Option::None => Option::Some(
                    ApiTestResponseV { error: str_field(fs, "error"@), args: Option::None },
                ),
                Option::Some(JsonVal::Obj(afs)) => {
                    match dec_str_pairs_i(afs, 0) {
                        Option::Some(pairs) => Option::Some(
                            ApiTestResponseV {
                                error: str_field(fs, "error"@),
                                args: Option::Some(pairs),
                            },
                        ),
                        Option::None => Option::None,
                    }
                },
                Option::Some(_) => Option::None,
            }
        },
        _ => Option::None,
    }
}

/// Decodes a connectivity reply from its checked JSON tree.
pub fn decode_api_test_response(v: &JsonValue) -> (r: ApiResult<ApiTestResponse>)
    ensures
        dec_api_test(v@) matches Some(dv) ==> (r matches Ok(d) && d@ == dv),
        dec_api_test(v@) is None ==> (r matches Err(e) && e is Api),
{
    match v {
        JsonValue::Obj(fields) => {
            proof {
                assert(v@ == JsonVal::Obj(jv_obj_view(fields@, 0)));
            }
            let error = crate::json::field_str(fields, "error");
            match crate::json::get_field(fields, "args") {
                Option::None => Result::Ok(ApiTestResponse { error, args: Option::None }),
                Option::Some(av) => match av {
                    JsonValue::Obj(afields) => {
                        proof {
                            assert(av@ == JsonVal::Obj(jv_obj_view(afields@, 0)));
                        }
                        match decode_str_pairs(afields, 0) {
                            Option::Some(pairs) => Result::Ok(
                                ApiTestResponse { error, args: Option::Some(pairs) },
                            ),
                            Option::None => Result::Err(
                                Error::Api("could not decode test response".to_owned()),
                            ),
                        }
                    },
                    _ => Result::Err(Error::Api("could not decode test response".to_owned())),
                },
            }
        },
        _ => Result::Err(Error::Api("could not decode test response".to_owned())),
    }
}

/// The parameters the connectivity check sends: the error to echo when
/// asked, then the caller's arguments in order.
pub fn test_params(args: Option<&Vec<(String, String)>>, error: Option<&str>) -> (r: Vec<
    (String, String),
>)
    ensures
        params_view(r@) == opt_entry("error"@, opt_ref_view(error)) + (match args {
            Option::Some(a) => params_view(a@),
            Option::None => Seq::<(Seq<char>, Seq<char>)>::empty(),
        }),
{
    let mut params: Vec<(String, String)> = Vec::new();
    if let Option::Some(error) = error {
        params.push(("error".to_owned(), error.to_owned()));
    }
    proof {
        assert(params_view(params@) =~= opt_entry("error"@, opt_ref_view(error)));
    }
    if let Option::Some(args) = args {
        let ghost before = params_view(params@);
        let mut i: usize = 0;
        while i < args.len()
            invariant
                i <= args@.len(),
                params_view(params@) =~= before + params_view(args@).take(i as int),
            decreases args@.len() - i,
        {
            let pair = (args[i].0.clone(), args[i].1.clone());
            params.push(pair);
            proof {
                let pv = params_view(args@);
                assert(pv[i as int] == (args@[i as int].0@, args@[i as int].1@));
                assert(params_view(params@) =~= (before + pv.take(i as int)).push(pv[i as int]));
                assert((before + pv.take(i as int)).push(pv[i as int]) =~= before + pv.take(
                    i + 1,
                ));
                assert(params_view(params@) =~= before + pv.take(i + 1));
            }
            i = i + 1;
        }
        proof {
            assert(params_view(args@).take(args@.len() as int) =~= params_view(args@));
        }
    }
    params
}

/// Checks API calling code. Any successful result is the decoding of a
/// reply that parsed as JSON and carried `"ok": true`.
pub fn test<R: SlackWebRequestSender>(
    client: &R,
    args: Option<&Vec<(String, String)>>,
    error: Option<&str>,
) -> (r: ApiResult<ApiTestResponse>)
    ensures
        r matches Ok(d) ==> exists|body: Seq<char>|
            (#[trigger] json_of(body)) matches Some(w) && slack_ok_check(w) matches Ok(u)
                && dec_api_test(u) matches Some(dv) && d@ == dv,
{
    let params = test_params(args, error);
    let checked = match make_api_call(client, "api.test", &params) {
        Result::Ok(v) => v,
        Result::Err(e) => {
            return Result::Err(e);
        },
    };
    decode_api_test_response(&checked)
}

} // verus!
