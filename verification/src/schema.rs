//! The abstract schema model that generation works on: modules of methods,
//! their parameters, and the recursive property-shape tree of each response.
//!
//! Every exec-level type has a mathematical view (the `...V` types) over
//! which the generator's contracts are stated.

use vstd::prelude::*;
use crate::strutil::str_eq;

verus! {

// --------------------------------------------------------------------------
// Exec-level model
// --------------------------------------------------------------------------

/// The recursive description of a JSON value's shape.
#[derive(Debug)]
pub enum PropType {
    /// Text.
    Str,
    /// An integer.
    Int,
    /// A boolean.
    Bool,
    /// A structured object with named fields.
    Obj(Box<JsonObject>),
    /// A discriminated union of shapes.
    Enum(Box<JsonEnum>),
    /// An array whose elements share one shape.
    Arr(Box<PropType>),
    /// A string-keyed map whose values share one shape.
    MapOf(Box<PropType>),
    /// A value that may be absent.
    Optional(Box<PropType>),
}

/// One named, typed field of a [`JsonObject`].
#[derive(Debug)]
pub struct JsonObjectFieldInfo {
    pub name: String,
    pub ty: PropType,
    pub rename: Option<String>,
    pub description: Option<String>,
}

/// A named object shape: an ordered list of named, typed fields.
#[derive(Debug)]
pub struct JsonObject {
    pub name: String,
    pub fields: Vec<JsonObjectFieldInfo>,
}

/// One variant of a [`JsonEnum`]: a wire-level tag name, the identifier
/// generated for it, and the payload shape it carries.
#[derive(Debug)]
pub struct JsonEnumVariant {
    pub name: String,
    pub qualified_name: String,
    pub inner: PropType,
}

/// A named discriminated union of payload shapes.
#[derive(Debug)]
pub struct JsonEnum {
    pub name: String,
    pub variants: Vec<JsonEnumVariant>,
}

/// One declared failure mode of a method: a wire-level error code and its
/// human-readable description.
#[derive(Debug)]
pub struct ApiError {
    pub name: String,
    pub description: String,
}

/// One declared parameter of a method.
#[derive(Debug)]
pub struct Param {
    pub name: String,
    pub description: String,
    pub ty: String,
    pub optional: bool,
}

/// The declared response of a method: an illustrative sample, the shape of
/// the payload, and the declared error codes.
#[derive(Debug)]
pub struct Response {
    pub sample: String,
    pub schema: PropType,
    pub errors: Vec<ApiError>,
}

/// One remote operation: a dotted name, documentation, parameters and a
/// response shape.
#[derive(Debug)]
pub struct Method {
    pub name: String,
    pub description: String,
    pub documentation_url: String,
    pub params: Vec<Param>,
    pub response: Response,
}

/// A named group of related methods.
#[derive(Debug)]
pub struct Module {
    pub name: String,
    pub description: Option<String>,
    pub methods: Vec<Method>,
}

// --------------------------------------------------------------------------
// Mathematical views
// --------------------------------------------------------------------------

pub enum PropTypeV {
    Str,
    Int,
    Bool,
    Obj(JsonObjectV),
    Enum(JsonEnumV),
    Arr(Box<PropTypeV>),
    MapOf(Box<PropTypeV>),
    Optional(Box<PropTypeV>),
}

pub struct FieldV {
    pub name: Seq<char>,
    pub ty: PropTypeV,
    pub rename: Option<Seq<char>>,
    pub description: Option<Seq<char>>,
}

pub struct JsonObjectV {
    pub name: Seq<char>,
    pub fields: Seq<FieldV>,
}

pub struct VariantV {
    pub name: Seq<char>,
    pub qualified_name: Seq<char>,
    pub inner: PropTypeV,
}

pub struct JsonEnumV {
    pub name: Seq<char>,
    pub variants: Seq<VariantV>,
}

pub open spec fn opt_str_view(o: Option<String>) -> Option<Seq<char>> {
    match o {
        Option::None => Option::None,
        Option::Some(s) => Option::Some(s@),
    }
}

pub open spec fn prop_view(p: PropType) -> PropTypeV
    decreases p, 0int,
{
    match p {
        PropType::Str => PropTypeV::Str,
        PropType::Int => PropTypeV::Int,
        PropType::Bool => PropTypeV::Bool,
        PropType::Obj(o) => PropTypeV::Obj(obj_view(*o)),
        PropType::Enum(e) => PropTypeV::Enum(enum_view(*e)),
        PropType::Arr(t) => PropTypeV::Arr(Box::new(prop_view(*t))),
        PropType::MapOf(t) => PropTypeV::MapOf(Box::new(prop_view(*t))),
        PropType::Optional(t) => PropTypeV::Optional(Box::new(prop_view(*t))),
    }
}

pub open spec fn field_view(f: JsonObjectFieldInfo) -> FieldV
    decreases f, 0int,
{
    FieldV {
        name: f.name@,
        ty: prop_view(f.ty),
        rename: opt_str_view(f.rename),
        description: opt_str_view(f.description),
    }
}

pub open spec fn fields_view_i(s: Seq<JsonObjectFieldInfo>, i: int) -> Seq<FieldV>
    decreases s, s.len() - i,
{
    if i < 0 || i >= s.len() {
        Seq::empty()
    } else {
        seq![field_view(s[i])] + fields_view_i(s, i + 1)
    }
}

pub open spec fn obj_view(o: JsonObject) -> JsonObjectV
    decreases o, 0int,
{
    JsonObjectV { name: o.name@, fields: fields_view_i(o.fields@, 0) }
}

pub open spec fn variant_view(v: JsonEnumVariant) -> VariantV
    decreases v, 0int,
{
    VariantV { name: v.name@, qualified_name: v.qualified_name@, inner: prop_view(v.inner) }
}

pub open spec fn variants_view_i(s: Seq<JsonEnumVariant>, i: int) -> Seq<VariantV>
    decreases s, s.len() - i,
{
    if i < 0 || i >= s.len() {
        Seq::empty()
    } else {
        seq![variant_view(s[i])] + variants_view_i(s, i + 1)
    }
}

pub open spec fn enum_view(e: JsonEnum) -> JsonEnumV
    decreases e, 0int,
{
    JsonEnumV { name: e.name@, variants: variants_view_i(e.variants@, 0) }
}

impl View for PropType {
    type V = PropTypeV;

    open spec fn view(&self) -> PropTypeV {
        prop_view(*self)
    }
}

impl View for JsonObject {
    type V = JsonObjectV;

    open spec fn view(&self) -> JsonObjectV {
        obj_view(*self)
    }
}

impl View for JsonEnum {
    type V = JsonEnumV;

    open spec fn view(&self) -> JsonEnumV {
        enum_view(*self)
    }
}

impl View for JsonObjectFieldInfo {
    type V = FieldV;

    open spec fn view(&self) -> FieldV {
        field_view(*self)
    }
}

impl View for JsonEnumVariant {
    type V = VariantV;

    open spec fn view(&self) -> VariantV {
        variant_view(*self)
    }
}

pub broadcast proof fn lemma_fields_view(s: Seq<JsonObjectFieldInfo>, i: int)
    requires
        0 <= i <= s.len(),
    ensures
        (#[trigger] fields_view_i(s, i)).len() == s.len() - i,
        forall|j: int|
            0 <= j < s.len() - i ==> fields_view_i(s, i)[j] == field_view(s[i + j]),
    decreases s.len() - i,
{
    if i < s.len() {
        lemma_fields_view(s, i + 1);
    }
}

pub broadcast proof fn lemma_variants_view(s: Seq<JsonEnumVariant>, i: int)
    requires
        0 <= i <= s.len(),
    ensures
        (#[trigger] variants_view_i(s, i)).len() == s.len() - i,
        forall|j: int|
            0 <= j < s.len() - i ==> variants_view_i(s, i)[j] == variant_view(s[i + j]),
    decreases s.len() - i,
{
    if i < s.len() {
        lemma_variants_view(s, i + 1);
    }
}

// --------------------------------------------------------------------------
// The "ok" marker
// --------------------------------------------------------------------------

/// An object has-ok when one of its fields is literally named `ok`.
pub open spec fn obj_has_ok(o: JsonObjectV) -> bool {
    exists|i: int| 0 <= i < o.fields.len() && o.fields[i].name == "ok"@
}

/// An enum has-ok when every variant's inner shape recursively has-ok.
pub open spec fn enum_has_ok(e: JsonEnumV) -> bool
    decreases e, 0int,
{
    variants_have_ok(e.variants, 0)
}

pub open spec fn variants_have_ok(s: Seq<VariantV>, i: int) -> bool
    decreases s, s.len() - i,
{
    if i < 0 || i >= s.len() {
        true
    } else {
        let inner_ok = match s[i].inner {
            PropTypeV::Obj(o) => obj_has_ok(o),
            PropTypeV::Enum(e) => enum_has_ok(e),
            _ => false,
        };
        inner_ok && variants_have_ok(s, i + 1)
    }
}

/// The types for which the "did the call succeed" marker is defined.
pub trait Okable {
    spec fn spec_has_ok(&self) -> bool;

    /// Whether a success/failure extraction facade is synthesized for this
    /// shape.
    fn has_ok(&self) -> (r: bool)
        ensures
            r == self.spec_has_ok(),
    ;
}

pub fn obj_has_ok_exec(o: &JsonObject) -> (r: bool)
    ensures
        r == obj_has_ok(o@),
{
    proof {
        lemma_fields_view(o.fields@, 0);
    }
    let mut i: usize = 0;
    while i < o.fields.len()
        invariant
            i <= o.fields@.len(),
            o@.fields.len() == o.fields@.len(),
            forall|j: int| 0 <= j < o@.fields.len() ==> o@.fields[j] == field_view(o.fields@[j]),
            forall|j: int| 0 <= j < i ==> o@.fields[j].name != "ok"@,
        decreases o.fields@.len() - i,
    {
        if str_eq(o.fields[i].name.as_str(), "ok") {
            proof {
                assert(o@.fields[i as int].name == "ok"@);
            }
            return true;
        }
        i = i + 1;
    }
    false
}

pub fn enum_has_ok_exec(e: &JsonEnum) -> (r: bool)
    ensures
        r == enum_has_ok(e@),
    decreases *e, 0int,
{
    variants_have_ok_exec(&e.variants, 0)
}

pub fn variants_have_ok_exec(vs: &Vec<JsonEnumVariant>, i: usize) -> (r: bool)
    ensures
        r == variants_have_ok(variants_view_i(vs@, 0), i as int),
    decreases vs@, vs@.len() - i,
{
    proof {
        lemma_variants_view(vs@, 0);
    }
    if i >= vs.len() {
        return true;
    }
    let inner_ok = match &vs[i].inner {
        PropType::Obj(o) => obj_has_ok_exec(o),
        PropType::Enum(e2) => enum_has_ok_exec(e2),
        _ => false,
    };
    if !inner_ok {
        return false;
    }
    variants_have_ok_exec(vs, i + 1)
}

impl Okable for JsonObject {
    open spec fn spec_has_ok(&self) -> bool {
        obj_has_ok(self@)
    }

    fn has_ok(&self) -> (r: bool) {
        obj_has_ok_exec(self)
    }
}

impl Okable for JsonEnum {
    open spec fn spec_has_ok(&self) -> bool {
        enum_has_ok(self@)
    }

    fn has_ok(&self) -> (r: bool) {
        enum_has_ok_exec(self)
    }
}

// --------------------------------------------------------------------------
// Deep copies with view-preserving contracts
// --------------------------------------------------------------------------

pub fn clone_opt_string(o: &Option<String>) -> (r: Option<String>)
    ensures
        r == *o,
{
    match o {
        Option::None => Option::None,
        Option::Some(s) => Option::Some(s.clone()),
    }
}

pub fn clone_prop(p: &PropType) -> (r: PropType)
    ensures
        r@ == p@,
    decreases *p, 0int,
{
    match p {
        PropType::Str => PropType::Str,
        PropType::Int => PropType::Int,
        PropType::Bool => PropType::Bool,
        PropType::Obj(o) => PropType::Obj(Box::new(clone_obj(o))),
        PropType::Enum(e) => PropType::Enum(Box::new(clone_enum(e))),
        PropType::Arr(t) => PropType::Arr(Box::new(clone_prop(t))),
        PropType::MapOf(t) => PropType::MapOf(Box::new(clone_prop(t))),
        PropType::Optional(t) => PropType::Optional(Box::new(clone_prop(t))),
    }
}

pub fn clone_field(f: &JsonObjectFieldInfo) -> (r: JsonObjectFieldInfo)
    ensures
        r@ == f@,
    decreases *f, 0int,
{
    JsonObjectFieldInfo {
        name: f.name.clone(),
        ty: clone_prop(&f.ty),
        rename: clone_opt_string(&f.rename),
        description: clone_opt_string(&f.description),
    }
}

pub fn clone_fields(v: &Vec<JsonObjectFieldInfo>, i: usize) -> (r: Vec<JsonObjectFieldInfo>)
    requires
        i <= v@.len(),
    ensures
        r@.len() == v@.len() - i,
        forall|j: int| 0 <= j < r@.len() ==> (#[trigger] r@[j])@ == v@[i + j]@,
    decreases v@, v@.len() - i,
{
    if i >= v.len() {
        Vec::new()
    } else {
        let first = clone_field(&v[i]);
        let mut rest = clone_fields(v, i + 1);
        rest.insert(0, first);
        rest
    }
}

pub fn clone_obj(o: &JsonObject) -> (r: JsonObject)
    ensures
        r@ == o@,
    decreases *o, 0int,
{
    let fields = clone_fields(&o.fields, 0);
    let r = JsonObject { name: o.name.clone(), fields };
    proof {
        lemma_fields_view(o.fields@, 0);
        lemma_fields_view(r.fields@, 0);
        assert(fields_view_i(r.fields@, 0) =~= fields_view_i(o.fields@, 0));
    }
    r
}

pub fn clone_variant(v: &JsonEnumVariant) -> (r: JsonEnumVariant)
    ensures
        r@ == v@,
    decreases *v, 0int,
{
    JsonEnumVariant {
        name: v.name.clone(),
        qualified_name: v.qualified_name.clone(),
        inner: clone_prop(&v.inner),
    }
}

pub fn clone_variants(v: &Vec<JsonEnumVariant>, i: usize) -> (r: Vec<JsonEnumVariant>)
    requires
        i <= v@.len(),
    ensures
        r@.len() == v@.len() - i,
        forall|j: int| 0 <= j < r@.len() ==> (#[trigger] r@[j])@ == v@[i + j]@,
    decreases v@, v@.len() - i,
{
    if i >= v.len() {
        Vec::new()
    } else {
        let first = clone_variant(&v[i]);
        let mut rest = clone_variants(v, i + 1);
        rest.insert(0, first);
        rest
    }
}

pub fn clone_enum(e: &JsonEnum) -> (r: JsonEnum)
    ensures
        r@ == e@,
    decreases *e, 0int,
{
    let variants = clone_variants(&e.variants, 0);
    let r = JsonEnum { name: e.name.clone(), variants };
    proof {
        lemma_variants_view(e.variants@, 0);
        lemma_variants_view(r.variants@, 0);
        assert(variants_view_i(r.variants@, 0) =~= variants_view_i(e.variants@, 0));
    }
    r
}

} // verus!
