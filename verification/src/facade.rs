//! The runtime behaviour that generated bindings exhibit, as verified
//! functions: the success/failure extraction facade, the error-code
//! classification, the discriminator dispatch of polymorphic responses,
//! and the parameter-value encoding table.

use vstd::prelude::*;
use crate::json::{JsonVal, JsonValue, jv_obj_view, obj_get, opt_seq_view};
use crate::strutil::{push_char, str_eq, views_of};
use crate::ClientError;
use vstd::string::StringExecFns;

verus! {

// --------------------------------------------------------------------------
// Decimal rendering of integers
// --------------------------------------------------------------------------

pub open spec fn digit_char(d: nat) -> char {
    if d == 0 {
        '0'
    } else if d == 1 {
        '1'
    } else if d == 2 {
        '2'
    } else if d == 3 {
        '3'
    } else if d == 4 {
        '4'
    } else if d == 5 {
        '5'
    } else if d == 6 {
        '6'
    } else if d == 7 {
        '7'
    } else if d == 8 {
        '8'
    } else {
        '9'
    }
}

/// The decimal form of `n`, most significant digit first, no sign and no
/// leading zeros (zero itself is one digit).
pub open spec fn dec_digits(n: nat) -> Seq<char>
    decreases n,
{
    if n < 10 {
        seq![digit_char(n)]
    } else {
        dec_digits(n / 10).push(digit_char(n % 10))
    }
}

fn digit_of(d: u32) -> (c: char)
    requires
        d < 10,
    ensures
        c == digit_char(d as nat),
{
    if d == 0 {
        '0'
    } else if d == 1 {
        '1'
    } else if d == 2 {
        '2'
    } else if d == 3 {
        '3'
    } else if d == 4 {
        '4'
    } else if d == 5 {
        '5'
    } else if d == 6 {
        '6'
    } else if d == 7 {
        '7'
    } else if d == 8 {
        '8'
    } else {
        '9'
    }
}

/// Renders an unsigned integer in decimal form.
pub fn u32_to_decimal(n: u32) -> (r: String)
    ensures
        r@ == dec_digits(n as nat),
    decreases n,
{
    if n < 10 {
        let mut out = String::new();
        push_char(&mut out, digit_of(n));
        proof {
            assert(out@ =~= seq![digit_char(n as nat)]);
        }
        out
    } else {
        let mut out = u32_to_decimal(n / 10);
        push_char(&mut out, digit_of(n % 10));
        out
    }
}

// --------------------------------------------------------------------------
// Error classification
// --------------------------------------------------------------------------

/// The first declared code equal to `code`, scanning from `i`.
pub open spec fn tag_index_i(tags: Seq<Seq<char>>, code: Seq<char>, i: int) -> Option<int>
    decreases tags.len() - i,
{
    if i < 0 || i >= tags.len() {
        Option::None
    } else if tags[i] == code {
        Option::Some(i)
    } else {
        tag_index_i(tags, code, i + 1)
    }
}

/// The index of the first declared code equal to `code`, case-sensitively
/// and exactly, or nothing.
pub open spec fn tag_index(tags: Seq<Seq<char>>, code: Seq<char>) -> Option<int> {
    tag_index_i(tags, code, 0)
}

/// An error of a generated method at runtime: a declared error condition
/// (by its position in the method's declared list), a payload that was not
/// ok but carried no recognizable code, an undeclared code kept verbatim,
/// or a wrapped transport failure.
#[derive(Debug)]
pub enum MethodError {
    Declared(usize),
    MalformedResponse,
    Unknown(String),
    Client(ClientError),
}

pub enum MethodErrorV {
    Declared(int),
    MalformedResponse,
    Unknown(Seq<char>),
    Client(Seq<char>),
}

impl View for MethodError {
    type V = MethodErrorV;

    open spec fn view(&self) -> MethodErrorV {
        match self {
            MethodError::Declared(i) => MethodErrorV::Declared(*i as int),
            MethodError::MalformedResponse => MethodErrorV::MalformedResponse,
            MethodError::Unknown(s) => MethodErrorV::Unknown(s@),
            MethodError::Client(c) => MethodErrorV::Client(c.message@),
        }
    }
}

/// The classification of a raw wire code against the declared list: the
/// matching declared variant, else "unknown" keeping the code verbatim.
pub open spec fn spec_classify(code: Seq<char>, declared: Seq<Seq<char>>) -> MethodErrorV {
    match tag_index(declared, code) {
        Option::Some(i) => MethodErrorV::Declared(i),
        Option::None => MethodErrorV::Unknown(code),
    }
}

/// Classifies a raw wire error code against the declared code list,
/// case-sensitively and exactly; an undeclared code is kept verbatim.
pub fn classify_error(code: &str, declared: &Vec<String>) -> (r: MethodError)
    ensures
        r@ == spec_classify(code@, views_of(declared@)),
{
    let ghost tags = views_of(declared@);
    let mut i: usize = 0;
    while i < declared.len()
        invariant
            i <= declared@.len(),
            tags == views_of(declared@),
            tags.len() == declared@.len(),
            forall|j: int| 0 <= j < tags.len() ==> tags[j] == declared@[j]@,
            tag_index_i(tags, code@, 0) == tag_index_i(tags, code@, i as int),
        decreases declared@.len() - i,
    {
        if str_eq(declared[i].as_str(), code) {
            proof {
                assert(tag_index_i(tags, code@, i as int) == Some(i as int));
            }
            return MethodError::Declared(i);
        }
        i = i + 1;
    }
    MethodError::Unknown(code.to_owned())
}

// --------------------------------------------------------------------------
// The success/failure extraction facade
// --------------------------------------------------------------------------

/// What the facade reads of a generated response object: its success flag
/// and its optional wire error code.
#[derive(Debug)]
pub struct OkInfo {
    pub ok: bool,
    pub error: Option<String>,
}

pub struct OkInfoV {
    pub ok: bool,
    pub error: Option<Seq<char>>,
}

impl View for OkInfo {
    type V = OkInfoV;

    open spec fn view(&self) -> OkInfoV {
        OkInfoV { ok: self.ok, error: opt_seq_view(self.error) }
    }
}

/// A runtime value of a generated response type: a plain object carrying
/// the facade's fields, or one variant of a discriminated union wrapping
/// an inner response (the variant identified by its position).
#[derive(Debug)]
pub enum RtResponse {
    Obj(OkInfo),
    Variant(usize, Box<RtResponse>),
}

pub enum RtResponseV {
    Obj(OkInfoV),
    Variant(int, Box<RtResponseV>),
}

pub open spec fn rt_view(v: RtResponse) -> RtResponseV
    decreases v,
{
    match v {
        RtResponse::Obj(info) => RtResponseV::Obj(info@),
        RtResponse::Variant(tag, inner) => RtResponseV::Variant(
            tag as int,
            Box::new(rt_view(*inner)),
        ),
    }
}

impl View for RtResponse {
    type V = RtResponseV;

    open spec fn view(&self) -> RtResponseV {
        rt_view(*self)
    }
}

/// The extraction: an object succeeds as itself when `ok` is true, else
/// yields its classified error code, or "malformed response" when there is
/// none; a variant delegates to its payload and re-wraps success under the
/// same tag.
pub open spec fn spec_to_result(v: RtResponseV, declared: Seq<Seq<char>>) -> Result<
    RtResponseV,
    MethodErrorV,
>
    decreases v,
{
    match v {
        RtResponseV::Obj(info) => {
            if info.ok {
                Result::Ok(RtResponseV::Obj(info))
            } else {
                match info.error {
                    Option::Some(code) => Result::Err(spec_classify(code, declared)),
                    Option::None => Result::Err(MethodErrorV::MalformedResponse),
                }
            }
        },
        RtResponseV::Variant(tag, inner) => {
            match spec_to_result(*inner, declared) {
                Result::Ok(w) => Result::Ok(RtResponseV::Variant(tag, Box::new(w))),
                Result::Err(e) => Result::Err(e),
            }
        },
    }
}

impl RtResponse {
    /// Extracts success or failure from a response value, exactly as the
    /// synthesized facade of a generated type does.
    pub fn to_result(&self, declared: &Vec<String>) -> (r: Result<RtResponse, MethodError>)
        ensures
            spec_to_result(self@, views_of(declared@)) matches Ok(w) ==> (r matches Ok(x) && x@
                == w),
            spec_to_result(self@, views_of(declared@)) matches Err(e) ==> (r matches Err(x) && x@
                == e),
        decreases *self,
    {
        match self {
            RtResponse::Obj(info) => {
                proof {
                    assert(self@ == RtResponseV::Obj(info@));
                }
                if info.ok {
                    let copied = OkInfo {
                        ok: info.ok,
                        error: match &info.error {
                            Option::Some(s) => Option::Some(s.clone()),
                            Option::None => Option::None,
                        },
                    };
                    Result::Ok(RtResponse::Obj(copied))
                } else {
                    match &info.error {
                        Option::Some(code) => Result::Err(
                            classify_error(code.as_str(), declared),
                        ),
                        Option::None => Result::Err(MethodError::MalformedResponse),
                    }
                }
            },
            RtResponse::Variant(tag, inner) => {
                proof {
                    assert(self@ == RtResponseV::Variant(*tag as int, Box::new(rt_view(**inner))));
                }
                match inner.to_result(declared) {
                    Result::Ok(w) => Result::Ok(RtResponse::Variant(*tag, Box::new(w))),
                    Result::Err(e) => Result::Err(e),
                }
            },
        }
    }
}

/// An object that has-ok extracts to itself, unchanged, exactly when its
/// `ok` flag is true; when false, to its classified error code, or to
/// "malformed response" when it carries none.
pub proof fn lemma_obj_facade(info: OkInfoV, declared: Seq<Seq<char>>)
    ensures
        info.ok ==> spec_to_result(RtResponseV::Obj(info), declared) == Result::<
            RtResponseV,
            MethodErrorV,
        >::Ok(RtResponseV::Obj(info)),
        info.error matches Some(code) ==> (!info.ok ==> spec_to_result(
            RtResponseV::Obj(info),
            declared,
        ) == Result::<RtResponseV, MethodErrorV>::Err(spec_classify(code, declared))),
        (!info.ok && info.error is None) ==> spec_to_result(RtResponseV::Obj(info), declared)
            == Result::<RtResponseV, MethodErrorV>::Err(MethodErrorV::MalformedResponse),
{
}

/// A variant of an enum whose every payload has-ok extracts successfully
/// exactly when its payload does, and success re-wraps the payload's
/// extraction under the same variant tag.
pub proof fn lemma_enum_facade(tag: int, inner: RtResponseV, declared: Seq<Seq<char>>)
    ensures
        spec_to_result(RtResponseV::Variant(tag, Box::new(inner)), declared) is Ok
            <==> spec_to_result(inner, declared) is Ok,
        spec_to_result(inner, declared) matches Ok(w) ==> spec_to_result(
            RtResponseV::Variant(tag, Box::new(inner)),
            declared,
        ) == Result::<RtResponseV, MethodErrorV>::Ok(RtResponseV::Variant(tag, Box::new(w))),
        spec_to_result(inner, declared) matches Err(e) ==> spec_to_result(
            RtResponseV::Variant(tag, Box::new(inner)),
            declared,
        ) == Result::<RtResponseV, MethodErrorV>::Err(e),
{
}

// --------------------------------------------------------------------------
// Discriminator dispatch
// --------------------------------------------------------------------------

/// The wire field that selects a union's variant: `subtype` only for the
/// enum named `Message`, else `type`.
pub open spec fn discriminator_field(enum_name: Seq<char>) -> Seq<char> {
    if enum_name == "Message"@ {
        "subtype"@
    } else {
        "type"@
    }
}

/// A failure of the discriminator dispatch.
#[derive(Debug)]
pub enum DispatchError {
    /// The payload has no discriminator field.
    MissingField,
    /// The discriminator field is present but not text.
    InvalidType,
    /// The discriminator matches no declared tag; the received tag is kept.
    UnknownVariant(String),
}

pub enum DispatchErrorV {
    MissingField,
    InvalidType,
    UnknownVariant(Seq<char>),
}

impl View for DispatchError {
    type V = DispatchErrorV;

    open spec fn view(&self) -> DispatchErrorV {
        match self {
            DispatchError::MissingField => DispatchErrorV::MissingField,
            DispatchError::InvalidType => DispatchErrorV::InvalidType,
            DispatchError::UnknownVariant(s) => DispatchErrorV::UnknownVariant(s@),
        }
    }
}

/// The dispatch: read the discriminator field of the payload object; a
/// missing field fails as missing, a non-text field as invalid, a tag
/// matching no declared variant as unknown; a match selects that variant,
/// whatever other fields the payload carries.
pub open spec fn spec_dispatch(
    enum_name: Seq<char>,
    tags: Seq<Seq<char>>,
    payload: JsonVal,
) -> Result<int, DispatchErrorV> {
    match payload {
        JsonVal::Obj(fs) => {
            match obj_get(fs, discriminator_field(enum_name)) {
                Option::Some(JsonVal::Str(t)) => {
                    match tag_index(tags, t) {
                        Option::Some(i) => Result::Ok(i),
                        Option::None => Result::Err(DispatchErrorV::UnknownVariant(t)),
                    }
                },
                Option::Some(_) => Result::Err(DispatchErrorV::InvalidType),
                Option::None => Result::Err(DispatchErrorV::MissingField),
            }
        },
        _ => Result::Err(DispatchErrorV::MissingField),
    }
}


/// A payload whose discriminator matches a declared tag always selects
/// that tag's variant, whatever other fields the payload carries; a
/// payload without the discriminator field always fails as missing, never
/// silently selecting a default; an unrecognized discriminator always
/// fails as unknown, keeping the received tag.
pub proof fn lemma_dispatch_contract(enum_name: Seq<char>, tags: Seq<Seq<char>>, payload: JsonVal)
    ensures
        payload matches JsonVal::Obj(fs) ==> {
            &&& obj_get(fs, discriminator_field(enum_name)) is None ==> spec_dispatch(
                enum_name,
                tags,
                payload,
            ) == Result::<int, DispatchErrorV>::Err(DispatchErrorV::MissingField)
            &&& obj_get(fs, discriminator_field(enum_name)) matches Some(JsonVal::Str(t))
                ==> match tag_index(tags, t) {
                Option::Some(i) => spec_dispatch(enum_name, tags, payload) == Result::<
                    int,
                    DispatchErrorV,
                >::Ok(i),
                Option::None => spec_dispatch(enum_name, tags, payload) == Result::<
                    int,
                    DispatchErrorV,
                >::Err(DispatchErrorV::UnknownVariant(t)),
            }
        },
        !(payload is Obj) ==> spec_dispatch(enum_name, tags, payload) == Result::<
            int,
            DispatchErrorV,
        >::Err(DispatchErrorV::MissingField),
{
}

/// Selects the variant of a discriminated union that a payload represents,
/// by the dispatch contract of every generated deserialization routine.
pub fn dispatch_variant(enum_name: &str, tags: &Vec<String>, payload: &JsonValue) -> (r: Result<
    usize,
    DispatchError,
>)
    ensures
        spec_dispatch(enum_name@, views_of(tags@), payload@) matches Ok(i) ==> (r matches Ok(j)
            && j as int == i),
        spec_dispatch(enum_name@, views_of(tags@), payload@) matches Err(e) ==> (r matches Err(x)
            && x@ == e),
{
    let field = if str_eq(enum_name, "Message") {
        "subtype"
    } else {
        "type"
    };
    match payload {
        JsonValue::Obj(fields) => {
            proof {
                assert(payload@ == JsonVal::Obj(jv_obj_view(fields@, 0)));
            }
            match crate::json::get_field(fields, field) {
                Option::Some(tv) => match tv {
                    JsonValue::Str(t) => {
                        proof {
                            assert(tv@ == JsonVal::Str(t@));
                        }
                        let ghost tag_seq = views_of(tags@);
                        let mut i: usize = 0;
                        while i < tags.len()
                            invariant
                                i <= tags@.len(),
                                tag_seq == views_of(tags@),
                                tag_seq.len() == tags@.len(),
                                forall|j: int|
                                    0 <= j < tag_seq.len() ==> tag_seq[j] == tags@[j]@,
                                tag_index_i(tag_seq, t@, 0) == tag_index_i(
                                    tag_seq,
                                    t@,
                                    i as int,
                                ),
                                payload@ == JsonVal::Obj(jv_obj_view(fields@, 0)),
                                obj_get(
                                    jv_obj_view(fields@, 0),
                                    discriminator_field(enum_name@),
                                ) == Some(JsonVal::Str(t@)),
                            decreases tags@.len() - i,
                        {
                            if str_eq(tags[i].as_str(), t.as_str()) {
                                proof {
                                    assert(tag_index_i(tag_seq, t@, i as int) == Some(i as int));
                                }
                                return Result::Ok(i);
                            }
                            i = i + 1;
                        }
                        Result::Err(DispatchError::UnknownVariant(t.clone()))
                    },
                    _ => Result::Err(DispatchError::InvalidType),
                },
                Option::None => Result::Err(DispatchError::MissingField),
            }
        },
        _ => Result::Err(DispatchError::MissingField),
    }
}

// --------------------------------------------------------------------------
// Parameter-value encoding
// --------------------------------------------------------------------------

/// A typed parameter value at runtime.
#[derive(Debug)]
pub enum ParamValue {
    B(bool),
    I(u32),
    S(String),
}

pub enum ParamValueV {
    B(bool),
    I(u32),
    S(Seq<char>),
}

impl View for ParamValue {
    type V = ParamValueV;

    open spec fn view(&self) -> ParamValueV {
        match self {
            ParamValue::B(b) => ParamValueV::B(*b),
            ParamValue::I(n) => ParamValueV::I(*n),
            ParamValue::S(s) => ParamValueV::S(s@),
        }
    }
}

/// The wire encoding of one parameter value: booleans as `"1"`/`"0"`,
/// integers in decimal form, text as itself.
pub open spec fn spec_encode_value(v: ParamValueV) -> Seq<char> {
    match v {
        ParamValueV::B(b) => if b {
            "1"@
        } else {
            "0"@
        },
        ParamValueV::I(n) => dec_digits(n as nat),
        ParamValueV::S(s) => s,
    }
}

/// Encodes a required parameter value for the outgoing parameter map.
pub fn encode_param_value(v: &ParamValue) -> (r: String)
    ensures
        r@ == spec_encode_value(v@),
{
    match v {
        ParamValue::B(b) => {
            if *b {
                "1".to_owned()
            } else {
                "0".to_owned()
            }
        },
        ParamValue::I(n) => u32_to_decimal(*n),
        ParamValue::S(s) => s.clone(),
    }
}

/// Encodes an optional parameter value: an absent value contributes no
/// entry at all.
pub fn encode_opt_param_value(v: &Option<ParamValue>) -> (r: Option<String>)
    ensures
        v matches Some(pv) ==> (r matches Some(s) && s@ == spec_encode_value(pv@)),
        v is None ==> r is None,
{
    match v {
        Option::Some(pv) => Option::Some(encode_param_value(pv)),
        Option::None => Option::None,
    }
}

} // verus!
