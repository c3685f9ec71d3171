//! The generation engine: maps the abstract schema model to the source text
//! of typed client bindings.
//!
//! Every function's contract pins the produced text exactly, as a spec-level
//! function of the schema's mathematical view; generation is therefore a
//! pure function of the schema tree.

use vstd::prelude::*;
use crate::naming::{pascal_of, snake_of, to_pascal_case, to_snake_case};
use crate::schema::{
    ApiError, JsonEnum, JsonEnumVariant, JsonEnumV, JsonObject, JsonObjectFieldInfo, JsonObjectV,
    FieldV, Method, Module, Okable, Param, PropType, PropTypeV, Response, VariantV,
    enum_has_ok, obj_has_ok, field_view, fields_view_i, variant_view, variants_view_i,
    variants_have_ok, clone_variants,
    obj_view, enum_view, prop_view,
    lemma_fields_view, lemma_variants_view, opt_str_view, clone_prop, clone_field, clone_fields,
    clone_obj, clone_enum, obj_has_ok_exec, enum_has_ok_exec,
};
use crate::strutil::{
    join_strings, joined, last_segment, lex_lt, replace_char, str_eq, str_last_segment,
    str_lex_lt, str_replace_char, views_of,
};
use vstd::multiset::Multiset;
use vstd::string::StrSliceExecFns;
use vstd::string::StringExecFns;

verus! {

// --------------------------------------------------------------------------
// Views for the non-recursive model types
// --------------------------------------------------------------------------

pub struct ParamV {
    pub name: Seq<char>,
    pub description: Seq<char>,
    pub ty: Seq<char>,
    pub optional: bool,
}

pub struct ApiErrorV {
    pub name: Seq<char>,
    pub description: Seq<char>,
}

pub struct ResponseV {
    pub sample: Seq<char>,
    pub schema: PropTypeV,
    pub errors: Seq<ApiErrorV>,
}

pub struct MethodV {
    pub name: Seq<char>,
    pub description: Seq<char>,
    pub documentation_url: Seq<char>,
    pub params: Seq<ParamV>,
    pub response: ResponseV,
}

pub struct ModuleV {
    pub name: Seq<char>,
    pub description: Option<Seq<char>>,
    pub methods: Seq<MethodV>,
}

impl View for Param {
    type V = ParamV;

    open spec fn view(&self) -> ParamV {
        ParamV {
            name: self.name@,
            description: self.description@,
            ty: self.ty@,
            optional: self.optional,
        }
    }
}

impl View for ApiError {
    type V = ApiErrorV;

    open spec fn view(&self) -> ApiErrorV {
        ApiErrorV { name: self.name@, description: self.description@ }
    }
}

impl View for Response {
    type V = ResponseV;

    open spec fn view(&self) -> ResponseV {
        ResponseV {
            sample: self.sample@,
            schema: self.schema@,
            errors: self.errors@.map_values(|e: ApiError| e@),
        }
    }
}

impl View for Method {
    type V = MethodV;

    open spec fn view(&self) -> MethodV {
        MethodV {
            name: self.name@,
            description: self.description@,
            documentation_url: self.documentation_url@,
            params: self.params@.map_values(|p: Param| p@),
            response: self.response@,
        }
    }
}

impl View for Module {
    type V = ModuleV;

    open spec fn view(&self) -> ModuleV {
        ModuleV {
            name: self.name@,
            description: opt_str_view(self.description),
            methods: self.methods@.map_values(|m: Method| m@),
        }
    }
}

/// An error detected while generating: a schema-authoring violation,
/// carrying a message that names the offending method or type.
#[derive(Debug)]
pub struct GenError {
    pub message: String,
}

// --------------------------------------------------------------------------
// Documentation comments
// --------------------------------------------------------------------------

/// The index of the first `'\n'` in `s`, or `s.len()` when none occurs.
pub open spec fn first_nl(s: Seq<char>) -> int
    decreases s.len(),
{
    if s.len() == 0 {
        0
    } else if s[0] == '\n' {
        0
    } else {
        1 + first_nl(s.drop_first())
    }
}

proof fn lemma_first_nl(s: Seq<char>, i: int)
    requires
        0 <= i <= s.len(),
        forall|j: int| 0 <= j < i ==> s[j] != '\n',
        i < s.len() ==> s[i] == '\n',
    ensures
        first_nl(s) == i,
    decreases s.len(),
{
    if s.len() > 0 && i > 0 {
        lemma_first_nl(s.drop_first(), i - 1);
    }
}

/// Each line of `s`, prefixed by `prefix` and a space, each ending in a
/// newline; empty text yields no lines at all.
pub open spec fn docs_code(prefix: Seq<char>, s: Seq<char>) -> Seq<char>
    decreases s.len(),
{
    if s.len() == 0 {
        Seq::empty()
    } else {
        let n0 = first_nl(s);
        let n = if 0 <= n0 && n0 <= s.len() { n0 } else { s.len() as int };
        let line = s.subrange(0, n);
        let rest = if n < s.len() {
            s.subrange(n + 1, s.len() as int)
        } else {
            Seq::empty()
        };
        prefix + " "@ + line + "\n"@ + docs_code(prefix, rest)
    }
}

fn find_nl(s: &str) -> (n: usize)
    ensures
        n as int == first_nl(s@),
        n <= s@.len(),
{
    let len: usize = s.unicode_len();
    let mut n: usize = 0;
    while n < len
        invariant
            n <= len,
            len == s@.len(),
            forall|j: int| 0 <= j < n ==> s@[j] != '\n',
        decreases len - n,
    {
        if s.get_char(n) == '\n' {
            proof {
                lemma_first_nl(s@, n as int);
            }
            return n;
        }
        n = n + 1;
    }
    proof {
        lemma_first_nl(s@, n as int);
    }
    n
}

/// Prefixes every line of `s` with `prefix` and a space, one doc line per
/// input line.
pub fn format_docs(prefix: &str, s: &str) -> (r: String)
    ensures
        r@ == docs_code(prefix@, s@),
    decreases s@.len(),
{
    let len: usize = s.unicode_len();
    if len == 0 {
        return String::new();
    }
    let n: usize = find_nl(s);
    let line = s.substring_char(0, n);
    let mut out = String::from_str(prefix);
    out.append(" ");
    out.append(line);
    out.append("\n");
    if n < len {
        let rest = s.substring_char(n + 1, len);
        let tail = format_docs(prefix, rest);
        out.append(tail.as_str());
    } else {
        proof {
            assert(docs_code(prefix@, Seq::<char>::empty()) =~= Seq::<char>::empty());
            assert(out@ =~= docs_code(prefix@, s@));
        }
    }
    out
}

// --------------------------------------------------------------------------
// Parameters
// --------------------------------------------------------------------------

/// The target-language type of a declared parameter, by the primitive table;
/// unrecognized type tags fall back to text.
pub open spec fn param_rust_type(ty: Seq<char>, optional: bool) -> Seq<char> {
    let base = if ty == "boolean"@ {
        "bool"@
    } else if ty == "integer"@ {
        "u32"@
    } else {
        "String"@
    };
    if optional {
        "Option<"@ + base + ">"@
    } else {
        base
    }
}

/// Maps a declared parameter type to the generated field type.
pub fn get_rust_type(ty: &str, optional: bool) -> (r: String)
    ensures
        r@ == param_rust_type(ty@, optional),
{
    let base = if str_eq(ty, "boolean") {
        "bool"
    } else if str_eq(ty, "integer") {
        "u32"
    } else {
        "String"
    };
    if optional {
        let mut out = String::from_str("Option<");
        out.append(base);
        out.append(">");
        out
    } else {
        base.to_owned()
    }
}

/// The declaration of one generated request field: the parameter's
/// documentation, then a public field of the mapped type.
pub open spec fn param_code(p: ParamV) -> Seq<char> {
    docs_code("///"@, p.description) + "\n"@ + "pub "@ + p.name + ": "@ + param_rust_type(
        p.ty,
        p.optional,
    ) + ","@
}

impl Param {
    /// Renders this parameter as a documented public field of the request
    /// type.
    pub fn generate(&self) -> (r: String)
        ensures
            r@ == param_code(self@),
    {
        let mut out = format_docs("///", self.description.as_str());
        out.append("\n");
        out.append("pub ");
        out.append(self.name.as_str());
        out.append(": ");
        let ty = get_rust_type(self.ty.as_str(), self.optional);
        out.append(ty.as_str());
        out.append(",");
        out
    }
}

/// The statement that inserts one parameter into the outgoing parameter
/// map: booleans encode as `"1"`/`"0"`, integers in decimal form, all other
/// types as the value itself; optional parameters insert only when present.
pub open spec fn insertion_code(name: Seq<char>, ty: Seq<char>, optional: bool) -> Seq<char> {
    if ty == "boolean"@ {
        if optional {
            "if let Some("@ + name + ") = request."@ + name + " { params.insert(\""@ + name
                + "\", if "@ + name + " { \"1\".to_owned() } else { \"0\".to_owned() }); }"@
        } else {
            "params.insert(\""@ + name + "\", if request."@ + name
                + " { \"1\".to_owned() } else { \"0\".to_owned() });"@
        }
    } else if ty == "integer"@ {
        if optional {
            "if let Some("@ + name + ") = request."@ + name + " { params.insert(\""@ + name
                + "\", "@ + name + ".to_string()); }"@
        } else {
            "params.insert(\""@ + name + "\", request."@ + name + ".to_string());"@
        }
    } else {
        if optional {
            "if let Some(ref "@ + name + ") = request."@ + name + " { params.insert(\""@ + name
                + "\", "@ + name + ".to_owned()); }"@
        } else {
            "params.insert(\""@ + name + "\", request."@ + name + ".clone());"@
        }
    }
}

impl Param {
    /// Renders the statement that binds this parameter into the outgoing
    /// parameter map.
    pub fn get_insertion(&self) -> (r: String)
        ensures
            r@ == insertion_code(self@.name, self@.ty, self@.optional),
    {
        let name = self.name.as_str();
        if str_eq(self.ty.as_str(), "boolean") {
            if self.optional {
                let mut out = String::from_str("if let Some(");
                out.append(name);
                out.append(") = request.");
                out.append(name);
                out.append(" { params.insert(\"");
                out.append(name);
                out.append("\", if ");
                out.append(name);
                out.append(" { \"1\".to_owned() } else { \"0\".to_owned() }); }");
                out
            } else {
                let mut out = String::from_str("params.insert(\"");
                out.append(name);
                out.append("\", if request.");
                out.append(name);
                out.append(" { \"1\".to_owned() } else { \"0\".to_owned() });");
                out
            }
        } else if str_eq(self.ty.as_str(), "integer") {
            if self.optional {
                let mut out = String::from_str("if let Some(");
                out.append(name);
                out.append(") = request.");
                out.append(name);
                out.append(" { params.insert(\"");
                out.append(name);
                out.append("\", ");
                out.append(name);
                out.append(".to_string()); }");
                out
            } else {
                let mut out = String::from_str("params.insert(\"");
                out.append(name);
                out.append("\", request.");
                out.append(name);
                out.append(".to_string());");
                out
            }
        } else {
            if self.optional {
                let mut out = String::from_str("if let Some(ref ");
                out.append(name);
                out.append(") = request.");
                out.append(name);
                out.append(" { params.insert(\"");
                out.append(name);
                out.append("\", ");
                out.append(name);
                out.append(".to_owned()); }");
                out
            } else {
                let mut out = String::from_str("params.insert(\"");
                out.append(name);
                out.append("\", request.");
                out.append(name);
                out.append(".clone());");
                out
            }
        }
    }
}

// --------------------------------------------------------------------------
// Name-sorted field order
// --------------------------------------------------------------------------

/// Inserts `f` after every already-placed field whose name does not compare
/// strictly greater, keeping the sequence sorted and the sort stable.
pub open spec fn spec_insert_field(s: Seq<FieldV>, f: FieldV) -> Seq<FieldV>
    decreases s.len(),
{
    if s.len() == 0 {
        seq![f]
    } else if lex_lt(f.name, s[0].name) {
        seq![f] + s
    } else {
        seq![s[0]] + spec_insert_field(s.drop_first(), f)
    }
}

/// The fields of `s` in name-sorted order (insertion sort, stable).
pub open spec fn spec_sort_fields(s: Seq<FieldV>) -> Seq<FieldV>
    decreases s.len(),
{
    if s.len() == 0 {
        s
    } else {
        spec_insert_field(spec_sort_fields(s.drop_last()), s.last())
    }
}


/// No field later in the sequence has a name that orders strictly before
/// an earlier field's name.
pub open spec fn fields_sorted_by_name(s: Seq<FieldV>) -> bool {
    forall|i: int, j: int| 0 <= i < j < s.len() ==> !lex_lt(s[j].name, s[i].name)
}

proof fn lemma_lex_lt_irrefl(a: Seq<char>)
    ensures
        !lex_lt(a, a),
    decreases a.len(),
{
    if a.len() > 0 {
        lemma_lex_lt_irrefl(a.drop_first());
    }
}

proof fn lemma_lex_lt_trans(a: Seq<char>, b: Seq<char>, c: Seq<char>)
    requires
        lex_lt(a, b),
        lex_lt(b, c),
    ensures
        lex_lt(a, c),
    decreases a.len(),
{
    if a.len() != 0 && b.len() != 0 && c.len() != 0 && a[0] == b[0] && b[0] == c[0] {
        lemma_lex_lt_trans(a.drop_first(), b.drop_first(), c.drop_first());
    }
}

proof fn lemma_insert_field_sorted(s: Seq<FieldV>, f: FieldV)
    requires
        fields_sorted_by_name(s),
    ensures
        fields_sorted_by_name(spec_insert_field(s, f)),
        spec_insert_field(s, f).len() == s.len() + 1,
        forall|j: int|
            0 <= j < spec_insert_field(s, f).len() ==> ((#[trigger] spec_insert_field(s, f)[j])
                == f || s.contains(spec_insert_field(s, f)[j])),
        spec_insert_field(s, f).to_multiset() == s.to_multiset().insert(f),
    decreases s.len(),
{
    broadcast use vstd::seq_lib::group_to_multiset_ensures;

    let r = spec_insert_field(s, f);
    if s.len() == 0 {
        assert(r =~= Seq::<FieldV>::empty().push(f));
        assert(r.to_multiset() =~= s.to_multiset().insert(f));
    } else if lex_lt(f.name, s[0].name) {
        assert(r =~= seq![f] + s);
        assert forall|i: int, j: int| 0 <= i < j < r.len() implies !lex_lt(
            r[j].name,
            r[i].name,
        ) by {
            if i == 0 {
                assert(r[j] == s[j - 1]);
                if lex_lt(s[j - 1].name, f.name) {
                    if j == 1 {
                        lemma_lex_lt_trans(s[0].name, f.name, s[0].name);
                        lemma_lex_lt_irrefl(s[0].name);
                    } else {
                        lemma_lex_lt_trans(s[j - 1].name, f.name, s[0].name);
                    }
                }
            }
        }
        vstd::seq_lib::lemma_multiset_commutative(seq![f], s);
        assert(seq![f].to_multiset() =~= Multiset::<FieldV>::empty().insert(f));
        assert(r.to_multiset() =~= s.to_multiset().insert(f));
    } else {
        let rest = s.drop_first();
        assert(fields_sorted_by_name(rest)) by {
            assert forall|i: int, j: int| 0 <= i < j < rest.len() implies !lex_lt(
                rest[j].name,
                rest[i].name,
            ) by {
                assert(rest[j] == s[j + 1] && rest[i] == s[i + 1]);
            }
        }
        lemma_insert_field_sorted(rest, f);
        let tail = spec_insert_field(rest, f);
        assert(r =~= seq![s[0]] + tail);
        assert forall|i: int, j: int| 0 <= i < j < r.len() implies !lex_lt(
            r[j].name,
            r[i].name,
        ) by {
            if i == 0 {
                assert(r[j] == tail[j - 1]);
                if tail[j - 1] == f {
                } else {
                    assert(rest.contains(tail[j - 1]));
                    let k = choose|k: int| 0 <= k < rest.len() && rest[k] == tail[j - 1];
                    assert(rest[k] == s[k + 1]);
                }
            } else {
                assert(r[i] == tail[i - 1] && r[j] == tail[j - 1]);
            }
        }
        assert forall|j: int| 0 <= j < r.len() implies (r[j] == f || s.contains(r[j])) by {
            if j > 0 && r[j] != f {
                assert(r[j] == tail[j - 1]);
                assert(rest.contains(tail[j - 1]));
                let k = choose|k: int| 0 <= k < rest.len() && rest[k] == tail[j - 1];
                assert(s[k + 1] == r[j]);
            }
        }
        vstd::seq_lib::lemma_multiset_commutative(seq![s[0]], tail);
        assert(s =~= seq![s[0]] + rest);
        vstd::seq_lib::lemma_multiset_commutative(seq![s[0]], rest);
        assert(r.to_multiset() =~= s.to_multiset().insert(f));
    }
}

/// Rendering an object's fields sorts them by name and keeps exactly the
/// declared fields: the sorted order is a permutation, so regeneration is
/// stable and independent of the declared field order's rendering.
pub proof fn lemma_sort_fields_sorted(s: Seq<FieldV>)
    ensures
        fields_sorted_by_name(spec_sort_fields(s)),
        spec_sort_fields(s).to_multiset() == s.to_multiset(),
    decreases s.len(),
{
    broadcast use vstd::seq_lib::group_to_multiset_ensures;

    if s.len() > 0 {
        lemma_sort_fields_sorted(s.drop_last());
        lemma_insert_field_sorted(spec_sort_fields(s.drop_last()), s.last());
        assert(s =~= s.drop_last().push(s.last()));
        assert(spec_sort_fields(s).to_multiset() =~= s.to_multiset());
    }
}

fn insert_field_sorted(v: Vec<JsonObjectFieldInfo>, f: JsonObjectFieldInfo) -> (r: Vec<
    JsonObjectFieldInfo,
>)
    ensures
        fields_view_i(r@, 0) == spec_insert_field(fields_view_i(v@, 0), f@),
    decreases v@.len(),
{
    proof {
        lemma_fields_view(v@, 0);
    }
    let mut v = v;
    if v.len() == 0 {
        v.push(f);
        proof {
            lemma_fields_view(v@, 0);
            assert(fields_view_i(v@, 0) =~= seq![f@]);
        }
        v
    } else if str_lex_lt(f.name.as_str(), v[0].name.as_str()) {
        proof {
            assert(fields_view_i(v@, 0)[0] == field_view(v@[0]));
        }
        let ghost old_view = fields_view_i(v@, 0);
        v.insert(0, f);
        proof {
            lemma_fields_view(v@, 0);
            assert(fields_view_i(v@, 0) =~= seq![f@] + old_view);
        }
        v
    } else {
        proof {
            assert(fields_view_i(v@, 0)[0] == field_view(v@[0]));
        }
        let ghost old_view = fields_view_i(v@, 0);
        let head = v.remove(0);
        proof {
            lemma_fields_view(v@, 0);
            assert(fields_view_i(v@, 0) =~= old_view.drop_first());
        }
        let mut rest = insert_field_sorted(v, f);
        let ghost rest_view = fields_view_i(rest@, 0);
        proof {
            lemma_fields_view(rest@, 0);
        }
        rest.insert(0, head);
        proof {
            lemma_fields_view(rest@, 0);
            assert(fields_view_i(rest@, 0) =~= seq![head@] + rest_view);
            assert(seq![head@] == seq![old_view[0]]);
        }
        rest
    }
}

/// Sorts a freshly copied field list by field name.
pub fn sort_fields(v: Vec<JsonObjectFieldInfo>) -> (r: Vec<JsonObjectFieldInfo>)
    ensures
        fields_view_i(r@, 0) == spec_sort_fields(fields_view_i(v@, 0)),
    decreases v@.len(),
{
    proof {
        lemma_fields_view(v@, 0);
    }
    let mut v = v;
    if v.len() == 0 {
        proof {
            assert(fields_view_i(v@, 0) =~= Seq::<FieldV>::empty());
            assert(spec_sort_fields(fields_view_i(v@, 0)) =~= fields_view_i(v@, 0));
        }
        v
    } else {
        let ghost old_view = fields_view_i(v@, 0);
        let last = v.pop().unwrap();
        proof {
            lemma_fields_view(v@, 0);
            assert(fields_view_i(v@, 0) =~= old_view.drop_last());
            assert(last@ == old_view.last());
        }
        let sorted = sort_fields(v);
        insert_field_sorted(sorted, last)
    }
}


// --------------------------------------------------------------------------
// Property types and declarations
// --------------------------------------------------------------------------

/// The target-language type that a property shape resolves to.
pub open spec fn rs_type_code(t: PropTypeV) -> Seq<char>
    decreases t,
{
    match t {
        PropTypeV::Str => "String"@,
        PropTypeV::Int => "i32"@,
        PropTypeV::Bool => "bool"@,
        PropTypeV::Obj(o) => o.name,
        PropTypeV::Enum(e) => e.name,
        PropTypeV::Arr(b) => "Vec<"@ + rs_type_code(*b) + ">"@,
        PropTypeV::MapOf(b) => "HashMap<String, "@ + rs_type_code(*b) + ">"@,
        PropTypeV::Optional(b) => "Option<"@ + rs_type_code(*b) + ">"@,
    }
}

impl PropType {
    /// Resolves this shape to the target-language type it is rendered as.
    pub fn to_rs_type(&self) -> (r: String)
        ensures
            r@ == rs_type_code(self@),
        decreases *self,
    {
        let r = match self {
            PropType::Str => String::from_str("String"),
            PropType::Int => String::from_str("i32"),
            PropType::Bool => String::from_str("bool"),
            PropType::Obj(o) => {
                proof {
                    assert(self@ == PropTypeV::Obj(obj_view(**o)));
                    assert(obj_view(**o).name == o.name@);
                }
                o.name.clone()
            },
            PropType::Enum(e) => {
                proof {
                    assert(self@ == PropTypeV::Enum(enum_view(**e)));
                    assert(enum_view(**e).name == e.name@);
                }
                e.name.clone()
            },
            PropType::Arr(b) => {
                let mut out = String::from_str("Vec<");
                let inner = b.to_rs_type();
                out.append(inner.as_str());
                out.append(">");
                out
            },
            PropType::MapOf(b) => {
                let mut out = String::from_str("HashMap<String, ");
                let inner = b.to_rs_type();
                out.append(inner.as_str());
                out.append(">");
                out
            },
            PropType::Optional(b) => {
                let mut out = String::from_str("Option<");
                let inner = b.to_rs_type();
                out.append(inner.as_str());
                out.append(">");
                out
            },
        };
        proof {
            assert(r@ == rs_type_code(self@));
        }
        r
    }
}

/// The visibility-and-attribute prefix of a generated field: the `ok` field
/// is tolerated when absent and defaulted, `ok` and `error` stay internal so
/// access goes through the result facade, every other field is public.
pub open spec fn field_prefix(name: Seq<char>) -> Seq<char> {
    if name == "ok"@ {
        "#[serde(default)]"@
    } else if name == "error"@ {
        ""@
    } else {
        "pub"@
    }
}

/// The declaration of one generated struct field: its documentation, a
/// wire-name annotation when the in-memory identifier differs from the wire
/// key, its prefix, and its resolved type.
pub open spec fn field_decl_code(f: FieldV) -> Seq<char> {
    (match f.description {
        Option::Some(d) => docs_code("///"@, d),
        Option::None => Seq::empty(),
    }) + (match f.rename {
        Option::Some(r) => "#[serde(rename = \""@ + r + "\")]\n"@,
        Option::None => Seq::empty(),
    }) + field_prefix(f.name) + " "@ + f.name + ": "@ + rs_type_code(f.ty) + ","@
}

fn field_decl(f: &JsonObjectFieldInfo) -> (r: String)
    ensures
        r@ == field_decl_code(f@),
{
    proof {
        assert(f@ == FieldV {
            name: f.name@,
            ty: f.ty@,
            rename: opt_str_view(f.rename),
            description: opt_str_view(f.description),
        });
    }
    let mut out = match &f.description {
        Option::Some(d) => format_docs("///", d.as_str()),
        Option::None => String::new(),
    };
    match &f.rename {
        Option::Some(rn) => {
            out.append("#[serde(rename = \"");
            out.append(rn.as_str());
            out.append("\")]\n");
        },
        Option::None => {},
    }
    if str_eq(f.name.as_str(), "ok") {
        out.append("#[serde(default)]");
    } else if str_eq(f.name.as_str(), "error") {
    } else {
        out.append("pub");
    }
    out.append(" ");
    out.append(f.name.as_str());
    out.append(": ");
    let ty = f.ty.to_rs_type();
    out.append(ty.as_str());
    out.append(",");
    proof {
        reveal_strlit("");
        assert(out@ =~= field_decl_code(f@));
    }
    out
}

/// The declaration of one enum variant: its identifier and payload type.
pub open spec fn variant_decl_code(v: VariantV) -> Seq<char> {
    v.name + "("@ + rs_type_code(v.inner) + "),"@
}

/// The quoted wire tag of a variant: its name in the wire naming convention.
pub open spec fn variant_tag_code(v: VariantV) -> Seq<char> {
    "\""@ + snake_of(v.name) + "\""@
}

/// One arm of the generated discriminator dispatch: on the variant's wire
/// tag, re-parse the full payload as the variant's payload type.
pub open spec fn variant_match_code(v: VariantV) -> Seq<char> {
    "\""@ + snake_of(v.name) + "\" => { ::serde_json::from_value::<"@ + rs_type_code(v.inner)
        + ">(value.clone()).map(|obj| "@ + v.qualified_name
        + "(obj)).map_err(|e| D::Error::custom(&format!(\"{}\", e))) }"@
}

/// The deserialization routine generated for a discriminated union: reads
/// the discriminator field (`subtype` only for the enum named `Message`,
/// else `type`), fails when it is missing or not a string, dispatches on it
/// case-sensitively, and rejects unknown tags listing the known ones.
pub open spec fn enum_deser_code(e: JsonEnumV) -> Seq<char> {
    let discr = if e.name == "Message"@ {
        "subtype"@
    } else {
        "type"@
    };
    "impl ::serde::Deserialize for "@ + e.name
        + " {\nfn deserialize<D>(deserializer: D) -> Result<Self, D::Error>\nwhere D: ::serde::Deserializer\n{\nuse ::serde::de::Error as SerdeError;\nconst VARIANTS: &'static [&'static str] = &["@
        + joined(e.variants.map_values(|v: VariantV| variant_tag_code(v)), ","@)
        + "];\nlet value = ::serde_json::Value::deserialize(deserializer)?;\nif let Some(ty_val) = value.get(\""@
        + discr + "\") {\nif let Some(ty) = ty_val.as_str() {\nmatch ty {\n"@ + joined(
        e.variants.map_values(|v: VariantV| variant_match_code(v)),
        "\n"@,
    )
        + "\n_ => Err(D::Error::unknown_variant(ty, VARIANTS))\n}\n} else {\nErr(D::Error::invalid_type(::serde::de::Unexpected::Unit, &\"a string\"))\n}\n} else {\nErr(D::Error::missing_field(\""@
        + discr + "\"))\n}\n}\n}"@
}

// --------------------------------------------------------------------------
// Rendering objects and enums, with their nested shapes
// --------------------------------------------------------------------------

/// The declarations of every object or enum shape nested inside `t`,
/// depth-first, one piece per occurrence (duplicates are not merged).
pub open spec fn prop_subobj_pieces(t: PropTypeV) -> Seq<Seq<char>>
    decreases t, 0int,
{
    match t {
        PropTypeV::Obj(o) => seq![obj_code(o)],
        PropTypeV::Enum(e) => seq![enum_code(e)],
        PropTypeV::Arr(b) => prop_subobj_pieces(*b),
        PropTypeV::MapOf(b) => prop_subobj_pieces(*b),
        PropTypeV::Optional(b) => prop_subobj_pieces(*b),
        _ => Seq::empty(),
    }
}

pub open spec fn field_subobj_pieces(s: Seq<FieldV>, i: int) -> Seq<Seq<char>>
    decreases s, s.len() - i,
{
    if i < 0 || i >= s.len() {
        Seq::empty()
    } else {
        prop_subobj_pieces(s[i].ty) + field_subobj_pieces(s, i + 1)
    }
}

pub open spec fn variant_subobj_pieces(s: Seq<VariantV>, i: int) -> Seq<Seq<char>>
    decreases s, s.len() - i,
{
    if i < 0 || i >= s.len() {
        Seq::empty()
    } else {
        prop_subobj_pieces(s[i].inner) + variant_subobj_pieces(s, i + 1)
    }
}

/// The full declaration of an object shape: the struct with its fields in
/// name-sorted order, then every nested shape, depth-first.
pub open spec fn obj_code(o: JsonObjectV) -> Seq<char>
    decreases o, 0int,
{
    "#[derive(Clone, Debug, Deserialize)]\npub struct "@ + o.name + " {\n"@ + joined(
        spec_sort_fields(o.fields).map_values(|f: FieldV| field_decl_code(f)),
        "\n"@,
    ) + "\n}\n\n"@ + joined(field_subobj_pieces(o.fields, 0), "\n"@)
}

/// The full declaration of a discriminated union: the enum with one variant
/// per declared variant, its deserialization routine, then every nested
/// shape, depth-first.
pub open spec fn enum_code(e: JsonEnumV) -> Seq<char>
    decreases e, 0int,
{
    "#[derive(Clone, Debug)]\npub enum "@ + e.name + " {\n"@ + joined(
        e.variants.map_values(|v: VariantV| variant_decl_code(v)),
        "\n"@,
    ) + "\n}\n\n"@ + enum_deser_code(e) + "\n\n"@ + joined(
        variant_subobj_pieces(e.variants, 0),
        "\n"@,
    )
}



// --------------------------------------------------------------------------
// Exec mapping loops over variants and fields
// --------------------------------------------------------------------------

fn variant_decl_strings(vs: &Vec<JsonEnumVariant>) -> (r: Vec<String>)
    ensures
        views_of(r@) == variants_view_i(vs@, 0).map_values(|v: VariantV| variant_decl_code(v)),
{
    proof {
        lemma_variants_view(vs@, 0);
    }
    let mut out: Vec<String> = Vec::new();
    let mut i: usize = 0;
    while i < vs.len()
        invariant
            i <= vs@.len(),
            out@.len() == i,
            variants_view_i(vs@, 0).len() == vs@.len(),
            forall|j: int|
                0 <= j < vs@.len() ==> variants_view_i(vs@, 0)[j] == variant_view(vs@[j]),
            forall|j: int|
                0 <= j < i ==> (#[trigger] out@[j])@ == variant_decl_code(variant_view(vs@[j])),
        decreases vs@.len() - i,
    {
        let v = &vs[i];
        proof {
            assert(v@ == (VariantV {
                name: v.name@,
                qualified_name: v.qualified_name@,
                inner: v.inner@,
            }));
        }
        let mut s = v.name.clone();
        s.append("(");
        let t = v.inner.to_rs_type();
        s.append(t.as_str());
        s.append("),");
        out.push(s);
        i = i + 1;
    }
    proof {
        assert(views_of(out@) =~= variants_view_i(vs@, 0).map_values(
            |v: VariantV| variant_decl_code(v),
        ));
    }
    out
}

fn variant_tag_strings(vs: &Vec<JsonEnumVariant>) -> (r: Vec<String>)
    ensures
        views_of(r@) == variants_view_i(vs@, 0).map_values(|v: VariantV| variant_tag_code(v)),
{
    proof {
        lemma_variants_view(vs@, 0);
    }
    let mut out: Vec<String> = Vec::new();
    let mut i: usize = 0;
    while i < vs.len()
        invariant
            i <= vs@.len(),
            out@.len() == i,
            variants_view_i(vs@, 0).len() == vs@.len(),
            forall|j: int|
                0 <= j < vs@.len() ==> variants_view_i(vs@, 0)[j] == variant_view(vs@[j]),
            forall|j: int|
                0 <= j < i ==> (#[trigger] out@[j])@ == variant_tag_code(variant_view(vs@[j])),
        decreases vs@.len() - i,
    {
        let v = &vs[i];
        proof {
            assert(v@ == (VariantV {
                name: v.name@,
                qualified_name: v.qualified_name@,
                inner: v.inner@,
            }));
        }
        let mut s = String::from_str("\"");
        let snake = to_snake_case(v.name.as_str());
        s.append(snake.as_str());
        s.append("\"");
        out.push(s);
        i = i + 1;
    }
    proof {
        assert(views_of(out@) =~= variants_view_i(vs@, 0).map_values(
            |v: VariantV| variant_tag_code(v),
        ));
    }
    out
}

fn variant_match_strings(vs: &Vec<JsonEnumVariant>) -> (r: Vec<String>)
    ensures
        views_of(r@) == variants_view_i(vs@, 0).map_values(|v: VariantV| variant_match_code(v)),
{
    proof {
        lemma_variants_view(vs@, 0);
    }
    let mut out: Vec<String> = Vec::new();
    let mut i: usize = 0;
    while i < vs.len()
        invariant
            i <= vs@.len(),
            out@.len() == i,
            variants_view_i(vs@, 0).len() == vs@.len(),
            forall|j: int|
                0 <= j < vs@.len() ==> variants_view_i(vs@, 0)[j] == variant_view(vs@[j]),
            forall|j: int|
                0 <= j < i ==> (#[trigger] out@[j])@ == variant_match_code(variant_view(vs@[j])),
        decreases vs@.len() - i,
    {
        let v = &vs[i];
        proof {
            assert(v@ == (VariantV {
                name: v.name@,
                qualified_name: v.qualified_name@,
                inner: v.inner@,
            }));
        }
        let mut s = String::from_str("\"");
        let snake = to_snake_case(v.name.as_str());
        s.append(snake.as_str());
        s.append("\" => { ::serde_json::from_value::<");
        let t = v.inner.to_rs_type();
        s.append(t.as_str());
        s.append(">(value.clone()).map(|obj| ");
        s.append(v.qualified_name.as_str());
        s.append("(obj)).map_err(|e| D::Error::custom(&format!(\"{}\", e))) }");
        out.push(s);
        i = i + 1;
    }
    proof {
        assert(views_of(out@) =~= variants_view_i(vs@, 0).map_values(
            |v: VariantV| variant_match_code(v),
        ));
    }
    out
}

fn field_decl_strings(fs: &Vec<JsonObjectFieldInfo>) -> (r: Vec<String>)
    ensures
        views_of(r@) == fields_view_i(fs@, 0).map_values(|f: FieldV| field_decl_code(f)),
{
    proof {
        lemma_fields_view(fs@, 0);
    }
    let mut out: Vec<String> = Vec::new();
    let mut i: usize = 0;
    while i < fs.len()
        invariant
            i <= fs@.len(),
            out@.len() == i,
            fields_view_i(fs@, 0).len() == fs@.len(),
            forall|j: int| 0 <= j < fs@.len() ==> fields_view_i(fs@, 0)[j] == field_view(fs@[j]),
            forall|j: int|
                0 <= j < i ==> (#[trigger] out@[j])@ == field_decl_code(field_view(fs@[j])),
        decreases fs@.len() - i,
    {
        let s = field_decl(&fs[i]);
        out.push(s);
        i = i + 1;
    }
    proof {
        assert(views_of(out@) =~= fields_view_i(fs@, 0).map_values(
            |f: FieldV| field_decl_code(f),
        ));
    }
    out
}

fn enum_deser(e: &JsonEnum) -> (r: String)
    ensures
        r@ == enum_deser_code(e@),
{
    proof {
        assert(e@ == (JsonEnumV { name: e.name@, variants: variants_view_i(e.variants@, 0) }));
    }
    let discr = if str_eq(e.name.as_str(), "Message") {
        "subtype"
    } else {
        "type"
    };
    let mut out = String::from_str("impl ::serde::Deserialize for ");
    out.append(e.name.as_str());
    out.append(
        " {\nfn deserialize<D>(deserializer: D) -> Result<Self, D::Error>\nwhere D: ::serde::Deserializer\n{\nuse ::serde::de::Error as SerdeError;\nconst VARIANTS: &'static [&'static str] = &[",
    );
    let tags = variant_tag_strings(&e.variants);
    let tags_joined = join_strings(&tags, ",");
    out.append(tags_joined.as_str());
    out.append(
        "];\nlet value = ::serde_json::Value::deserialize(deserializer)?;\nif let Some(ty_val) = value.get(\"",
    );
    out.append(discr);
    out.append("\") {\nif let Some(ty) = ty_val.as_str() {\nmatch ty {\n");
    let arms = variant_match_strings(&e.variants);
    let arms_joined = join_strings(&arms, "\n");
    out.append(arms_joined.as_str());
    out.append(
        "\n_ => Err(D::Error::unknown_variant(ty, VARIANTS))\n}\n} else {\nErr(D::Error::invalid_type(::serde::de::Unexpected::Unit, &\"a string\"))\n}\n} else {\nErr(D::Error::missing_field(\"",
    );
    out.append(discr);
    out.append("\"))\n}\n}\n}");
    out
}

// --------------------------------------------------------------------------
// Exec rendering of objects, enums, and their nested shapes
// --------------------------------------------------------------------------

fn prop_subobj_strings(t: &PropType) -> (r: Vec<String>)
    ensures
        views_of(r@) == prop_subobj_pieces(t@),
    decreases *t, 2int,
{
    match t {
        PropType::Obj(o) => {
            proof {
                assert(t@ == PropTypeV::Obj(obj_view(**o)));
            }
            let code = obj_to_code_exec(o);
            let mut out: Vec<String> = Vec::new();
            out.push(code);
            proof {
                assert(views_of(out@) =~= seq![obj_code(obj_view(**o))]);
            }
            out
        },
        PropType::Enum(e) => {
            proof {
                assert(t@ == PropTypeV::Enum(enum_view(**e)));
            }
            let code = enum_to_code_exec(e);
            let mut out: Vec<String> = Vec::new();
            out.push(code);
            proof {
                assert(views_of(out@) =~= seq![enum_code(enum_view(**e))]);
            }
            out
        },
        PropType::Arr(b) => {
            proof {
                assert(t@ == PropTypeV::Arr(Box::new(prop_view(**b))));
            }
            prop_subobj_strings(b)
        },
        PropType::MapOf(b) => {
            proof {
                assert(t@ == PropTypeV::MapOf(Box::new(prop_view(**b))));
            }
            prop_subobj_strings(b)
        },
        PropType::Optional(b) => {
            proof {
                assert(t@ == PropTypeV::Optional(Box::new(prop_view(**b))));
            }
            prop_subobj_strings(b)
        },
        _ => {
            let out: Vec<String> = Vec::new();
            proof {
                assert(views_of(out@) =~= prop_subobj_pieces(t@));
            }
            out
        },
    }
}

fn field_subobj_strings(fs: &Vec<JsonObjectFieldInfo>, i: usize) -> (r: Vec<String>)
    requires
        i <= fs@.len(),
    ensures
        views_of(r@) == field_subobj_pieces(fields_view_i(fs@, 0), i as int),
    decreases fs@, fs@.len() - i,
{
    proof {
        lemma_fields_view(fs@, 0);
    }
    if i >= fs.len() {
        let out: Vec<String> = Vec::new();
        proof {
            assert(views_of(out@) =~= field_subobj_pieces(fields_view_i(fs@, 0), i as int));
        }
        out
    } else {
        proof {
            assert(fs@[i as int]@ == (FieldV {
                name: fs@[i as int].name@,
                ty: fs@[i as int].ty@,
                rename: opt_str_view(fs@[i as int].rename),
                description: opt_str_view(fs@[i as int].description),
            }));
        }
        let mut first = prop_subobj_strings(&fs[i].ty);
        let mut rest = field_subobj_strings(fs, i + 1);
        let ghost first_v = first@;
        let ghost rest_v = rest@;
        first.append(&mut rest);
        proof {
            assert(views_of(first@) =~= views_of(first_v) + views_of(rest_v));
            assert(views_of(first@) =~= field_subobj_pieces(fields_view_i(fs@, 0), i as int));
        }
        first
    }
}

fn variant_subobj_strings(vs: &Vec<JsonEnumVariant>, i: usize) -> (r: Vec<String>)
    requires
        i <= vs@.len(),
    ensures
        views_of(r@) == variant_subobj_pieces(variants_view_i(vs@, 0), i as int),
    decreases vs@, vs@.len() - i,
{
    proof {
        lemma_variants_view(vs@, 0);
    }
    if i >= vs.len() {
        let out: Vec<String> = Vec::new();
        proof {
            assert(views_of(out@) =~= variant_subobj_pieces(variants_view_i(vs@, 0), i as int));
        }
        out
    } else {
        proof {
            assert(vs@[i as int]@ == (VariantV {
                name: vs@[i as int].name@,
                qualified_name: vs@[i as int].qualified_name@,
                inner: vs@[i as int].inner@,
            }));
        }
        let mut first = prop_subobj_strings(&vs[i].inner);
        let mut rest = variant_subobj_strings(vs, i + 1);
        let ghost first_v = first@;
        let ghost rest_v = rest@;
        first.append(&mut rest);
        proof {
            assert(views_of(first@) =~= views_of(first_v) + views_of(rest_v));
            assert(views_of(first@) =~= variant_subobj_pieces(variants_view_i(vs@, 0), i as int));
        }
        first
    }
}

fn obj_to_code_exec(o: &JsonObject) -> (r: String)
    ensures
        r@ == obj_code(o@),
    decreases *o, 3int,
{
    proof {
        assert(o@ == (JsonObjectV { name: o.name@, fields: fields_view_i(o.fields@, 0) }));
    }
    let copied = clone_fields(&o.fields, 0);
    proof {
        lemma_fields_view(copied@, 0);
        lemma_fields_view(o.fields@, 0);
        assert(fields_view_i(copied@, 0) =~= fields_view_i(o.fields@, 0));
    }
    let sorted = sort_fields(copied);
    let decls = field_decl_strings(&sorted);
    let decls_joined = join_strings(&decls, "\n");
    let mut out = String::from_str("#[derive(Clone, Debug, Deserialize)]\npub struct ");
    out.append(o.name.as_str());
    out.append(" {\n");
    out.append(decls_joined.as_str());
    out.append("\n}\n\n");
    let subs = field_subobj_strings(&o.fields, 0);
    let subs_joined = join_strings(&subs, "\n");
    out.append(subs_joined.as_str());
    out
}

fn enum_to_code_exec(e: &JsonEnum) -> (r: String)
    ensures
        r@ == enum_code(e@),
    decreases *e, 3int,
{
    proof {
        assert(e@ == (JsonEnumV { name: e.name@, variants: variants_view_i(e.variants@, 0) }));
    }
    let decls = variant_decl_strings(&e.variants);
    let decls_joined = join_strings(&decls, "\n");
    let mut out = String::from_str("#[derive(Clone, Debug)]\npub enum ");
    out.append(e.name.as_str());
    out.append(" {\n");
    out.append(decls_joined.as_str());
    out.append("\n}\n\n");
    let deser = enum_deser(e);
    out.append(deser.as_str());
    out.append("\n\n");
    let subs = variant_subobj_strings(&e.variants, 0);
    let subs_joined = join_strings(&subs, "\n");
    out.append(subs_joined.as_str());
    out
}

impl JsonEnum {
    /// Renders this discriminated union: its tagged variants, the
    /// discriminator-dispatch deserialization routine, and every nested
    /// shape.
    pub fn to_code(&self) -> (r: String)
        ensures
            r@ == enum_code(self@),
    {
        enum_to_code_exec(self)
    }
}

impl JsonObject {
    /// Renders this object: its struct declaration with name-sorted fields,
    /// and every nested shape.
    pub fn to_code(&self) -> (r: String)
        ensures
            r@ == obj_code(self@),
    {
        obj_to_code_exec(self)
    }
}



// --------------------------------------------------------------------------
// The result facade (success/failure extraction), as generated source
// --------------------------------------------------------------------------

/// The extraction impl generated for an object that has-ok: success when
/// `ok` is true, else the classified `error` code, else "malformed
/// response".
pub open spec fn obj_to_result_code(name: Seq<char>, err: Seq<char>) -> Seq<char> {
    "impl ToResult<"@ + name + ", "@ + err + "> for "@ + name
        + " {\nfn to_result(&self) -> Result<"@ + name + ", "@ + err
        + "> {\nif self.ok {\nOk(self.clone())\n} else {\nErr(self.error.as_ref().map(|s| s[..].into()).unwrap_or("@
        + err + "::MalformedResponse))\n}\n}\n}"@
}

fn obj_to_result_string(name: &str, err: &str) -> (r: String)
    ensures
        r@ == obj_to_result_code(name@, err@),
{
    let mut out = String::from_str("impl ToResult<");
    out.append(name);
    out.append(", ");
    out.append(err);
    out.append("> for ");
    out.append(name);
    out.append(" {\nfn to_result(&self) -> Result<");
    out.append(name);
    out.append(", ");
    out.append(err);
    out.append(
        "> {\nif self.ok {\nOk(self.clone())\n} else {\nErr(self.error.as_ref().map(|s| s[..].into()).unwrap_or(",
    );
    out.append(err);
    out.append("::MalformedResponse))\n}\n}\n}");
    out
}

/// Synthesizes the extraction impl for an object, when it has-ok.
pub fn get_obj_to_response_impl(obj: &JsonObject, error_type: &str) -> (r: Option<String>)
    ensures
        obj_has_ok(obj@) ==> (r matches Some(s) && s@ == obj_to_result_code(obj@.name, error_type@)),
        !obj_has_ok(obj@) ==> r is None,
{
    proof {
        assert(obj@ == (JsonObjectV { name: obj.name@, fields: fields_view_i(obj.fields@, 0) }));
    }
    if obj_has_ok_exec(obj) {
        Option::Some(obj_to_result_string(obj.name.as_str(), error_type))
    } else {
        Option::None
    }
}

/// One arm of the enum facade: delegate to the variant payload's own
/// extraction, re-wrapping success into the same variant.
pub open spec fn to_result_arm_code(v: VariantV) -> Seq<char> {
    "&"@ + v.qualified_name + "(ref inner) => inner.to_result().clone().map(|r| "@
        + v.qualified_name + "(r)),"@
}

fn to_result_arm_strings(vs: &Vec<JsonEnumVariant>) -> (r: Vec<String>)
    ensures
        views_of(r@) == variants_view_i(vs@, 0).map_values(|v: VariantV| to_result_arm_code(v)),
{
    proof {
        lemma_variants_view(vs@, 0);
    }
    let mut out: Vec<String> = Vec::new();
    let mut i: usize = 0;
    while i < vs.len()
        invariant
            i <= vs@.len(),
            out@.len() == i,
            variants_view_i(vs@, 0).len() == vs@.len(),
            forall|j: int|
                0 <= j < vs@.len() ==> variants_view_i(vs@, 0)[j] == variant_view(vs@[j]),
            forall|j: int|
                0 <= j < i ==> (#[trigger] out@[j])@ == to_result_arm_code(variant_view(vs@[j])),
        decreases vs@.len() - i,
    {
        let v = &vs[i];
        proof {
            assert(v@ == (VariantV {
                name: v.name@,
                qualified_name: v.qualified_name@,
                inner: v.inner@,
            }));
        }
        let mut s = String::from_str("&");
        s.append(v.qualified_name.as_str());
        s.append("(ref inner) => inner.to_result().clone().map(|r| ");
        s.append(v.qualified_name.as_str());
        s.append("(r)),");
        out.push(s);
        i = i + 1;
    }
    proof {
        assert(views_of(out@) =~= variants_view_i(vs@, 0).map_values(
            |v: VariantV| to_result_arm_code(v),
        ));
    }
    out
}

/// The extraction impls of every variant payload of an enum that has-ok,
/// one piece per variant, depth-first.
pub open spec fn inner_impl_pieces(s: Seq<VariantV>, err: Seq<char>, i: int) -> Seq<Seq<char>>
    decreases s, s.len() - i,
{
    if i < 0 || i >= s.len() {
        Seq::empty()
    } else {
        (match s[i].inner {
            PropTypeV::Obj(o) => seq![obj_to_result_code(o.name, err)],
            PropTypeV::Enum(e) => seq![enum_to_result_code(e, err)],
            _ => Seq::empty(),
        }) + inner_impl_pieces(s, err, i + 1)
    }
}

/// The extraction impl generated for an enum that has-ok: match on the
/// active variant, delegate to its payload, re-wrap on success; then the
/// impls of every variant payload.
pub open spec fn enum_to_result_code(e: JsonEnumV, err: Seq<char>) -> Seq<char>
    decreases e, 1int,
{
    "impl ToResult<"@ + e.name + ", "@ + err + "> for "@ + e.name
        + " {\nfn to_result(&self) -> Result<"@ + e.name + ", "@ + err + "> {\nmatch self {\n"@
        + joined(e.variants.map_values(|v: VariantV| to_result_arm_code(v)), "\n"@)
        + "\n}\n}\n}\n\n"@ + joined(inner_impl_pieces(e.variants, err, 0), "\n"@)
}

proof fn lemma_variants_have_ok_at(s: Seq<VariantV>, k: int, i: int)
    requires
        variants_have_ok(s, k),
        0 <= k <= i < s.len(),
    ensures
        match s[i].inner {
            PropTypeV::Obj(o) => obj_has_ok(o),
            PropTypeV::Enum(e) => enum_has_ok(e),
            _ => false,
        },
    decreases i - k,
{
    if k < i {
        lemma_variants_have_ok_at(s, k + 1, i);
    }
}

fn enum_inner_impl_strings(vs: &Vec<JsonEnumVariant>, err: &str, i: usize) -> (r: Vec<String>)
    requires
        i <= vs@.len(),
        variants_have_ok(variants_view_i(vs@, 0), 0),
    ensures
        views_of(r@) == inner_impl_pieces(variants_view_i(vs@, 0), err@, i as int),
    decreases vs@, vs@.len() - i,
{
    proof {
        lemma_variants_view(vs@, 0);
    }
    if i >= vs.len() {
        let out: Vec<String> = Vec::new();
        proof {
            assert(views_of(out@) =~= inner_impl_pieces(variants_view_i(vs@, 0), err@, i as int));
        }
        out
    } else {
        proof {
            lemma_variants_have_ok_at(variants_view_i(vs@, 0), 0, i as int);
            assert(vs@[i as int]@ == (VariantV {
                name: vs@[i as int].name@,
                qualified_name: vs@[i as int].qualified_name@,
                inner: vs@[i as int].inner@,
            }));
        }
        let piece: String = match &vs[i].inner {
            PropType::Obj(o) => {
                proof {
                    assert(vs@[i as int].inner@ == PropTypeV::Obj(obj_view(**o)));
                }
                match get_obj_to_response_impl(o, err) {
                    Option::Some(s) => s,
                    Option::None => {
                        proof {
                            assert(false);
                        }
                        String::new()
                    },
                }
            },
            PropType::Enum(e2) => {
                proof {
                    assert(vs@[i as int].inner@ == PropTypeV::Enum(enum_view(**e2)));
                }
                match get_enum_to_response_impl(e2, err) {
                    Option::Some(s) => s,
                    Option::None => {
                        proof {
                            assert(false);
                        }
                        String::new()
                    },
                }
            },
            _ => {
                proof {
                    assert(false);
                }
                String::new()
            },
        };
        let mut out: Vec<String> = Vec::new();
        out.push(piece);
        let mut rest = enum_inner_impl_strings(vs, err, i + 1);
        let ghost out_v = out@;
        let ghost rest_v = rest@;
        out.append(&mut rest);
        proof {
            assert(views_of(out@) =~= views_of(out_v) + views_of(rest_v));
            assert(views_of(out@) =~= inner_impl_pieces(variants_view_i(vs@, 0), err@, i as int));
        }
        out
    }
}

/// Synthesizes the extraction impl for an enum, when every variant payload
/// recursively has-ok.
pub fn get_enum_to_response_impl(enm: &JsonEnum, error_type: &str) -> (r: Option<String>)
    ensures
        enum_has_ok(enm@) ==> (r matches Some(s) && s@ == enum_to_result_code(enm@, error_type@)),
        !enum_has_ok(enm@) ==> r is None,
    decreases *enm, 4int,
{
    proof {
        assert(enm@ == (JsonEnumV { name: enm.name@, variants: variants_view_i(enm.variants@, 0) }));
    }
    if !enum_has_ok_exec(enm) {
        return Option::None;
    }
    let arms = to_result_arm_strings(&enm.variants);
    let arms_joined = join_strings(&arms, "\n");
    let inners = enum_inner_impl_strings(&enm.variants, error_type, 0);
    let inners_joined = join_strings(&inners, "\n");
    let mut out = String::from_str("impl ToResult<");
    out.append(enm.name.as_str());
    out.append(", ");
    out.append(error_type);
    out.append("> for ");
    out.append(enm.name.as_str());
    out.append(" {\nfn to_result(&self) -> Result<");
    out.append(enm.name.as_str());
    out.append(", ");
    out.append(error_type);
    out.append("> {\nmatch self {\n");
    out.append(arms_joined.as_str());
    out.append("\n}\n}\n}\n\n");
    out.append(inners_joined.as_str());
    Option::Some(out)
}

/// The match arms of the enum facade, one per variant, joined line by line.
pub fn generate_matches(enm: &JsonEnum) -> (r: String)
    ensures
        r@ == joined(enm@.variants.map_values(|v: VariantV| to_result_arm_code(v)), "\n"@),
{
    proof {
        assert(enm@ == (JsonEnumV { name: enm.name@, variants: variants_view_i(enm.variants@, 0) }));
    }
    let arms = to_result_arm_strings(&enm.variants);
    join_strings(&arms, "\n")
}



// --------------------------------------------------------------------------
// The error taxonomy, as generated source
// --------------------------------------------------------------------------

/// One declared error variant: its documentation and its identifier.
pub open spec fn error_variant_code(e: ApiErrorV) -> Seq<char> {
    docs_code("///"@, e.description) + pascal_of(e.name) + ","@
}

/// One classification arm: the wire code string to its declared variant.
pub open spec fn error_match_code(e: ApiErrorV, err_ty: Seq<char>) -> Seq<char> {
    "\""@ + e.name + "\" => "@ + err_ty + "::"@ + pascal_of(e.name) + ","@
}

/// One description arm: a declared variant back to its wire code string.
pub open spec fn error_desc_code(e: ApiErrorV, err_ty: Seq<char>) -> Seq<char> {
    "&"@ + err_ty + "::"@ + pascal_of(e.name) + " => \""@ + e.name + "\","@
}

/// The closed error enumeration generated for a method: one variant per
/// declared error code plus the three fixed fallbacks, the classification
/// from a raw code string, and the description accessor.
pub open spec fn error_enum_code(errs: Seq<ApiErrorV>, err_ty: Seq<char>) -> Seq<char> {
    "#[derive(Clone, Debug)]\npub enum "@ + err_ty + " {\n"@ + joined(
        errs.map_values(|e: ApiErrorV| error_variant_code(e)),
        "\n"@,
    )
        + "\n/// The response was not \"ok\" but provided no error\nMalformedResponse,\n/// The response returned an error that was unknown to the library\nUnknown(String),\n/// The client had an error sending the request to Slack\nClient(ClientError)\n}\n\nimpl From<ClientError> for "@
        + err_ty + " {\nfn from(err: ClientError) -> Self {\n"@ + err_ty
        + "::Client(err)\n}\n}\n\nimpl<'a> From<&'a str> for "@ + err_ty
        + " {\nfn from(s: &'a str) -> Self {\nmatch s {\n"@ + joined(
        errs.map_values(|e: ApiErrorV| error_match_code(e, err_ty)),
        "\n"@,
    ) + "\n_ => "@ + err_ty + "::Unknown(s.to_owned())\n}\n}\n}\n\nimpl fmt::Display for "@
        + err_ty
        + " {\nfn fmt(&self, f: &mut fmt::Formatter) -> fmt::Result {\nwrite!(f, \"{}\", self.description())\n}\n}\n\nimpl Error for "@
        + err_ty + " {\nfn description(&self) -> &str {\nmatch self {\n"@ + joined(
        errs.map_values(|e: ApiErrorV| error_desc_code(e, err_ty)),
        "\n"@,
    )
        + "\n&"@ + err_ty + "::MalformedResponse => \"Malformed response data from Slack.\",\n&"@
        + err_ty + "::Unknown(ref s) => s,\n&"@ + err_ty
        + "::Client(ref inner) => inner.description()\n}\n}\n\nfn cause(&self) -> Option<&Error> {\nmatch self {\n&"@
        + err_ty + "::Client(ref inner) => Some(inner),\n_ => None\n}\n}\n}"@
}

fn error_variant_strings(errs: &Vec<ApiError>) -> (r: Vec<String>)
    ensures
        views_of(r@) == errs@.map_values(|e: ApiError| e@).map_values(
            |e: ApiErrorV| error_variant_code(e),
        ),
{
    let mut out: Vec<String> = Vec::new();
    let mut i: usize = 0;
    while i < errs.len()
        invariant
            i <= errs@.len(),
            out@.len() == i,
            forall|j: int|
                0 <= j < i ==> (#[trigger] out@[j])@ == error_variant_code(errs@[j]@),
        decreases errs@.len() - i,
    {
        let e = &errs[i];
        let mut s = format_docs("///", e.description.as_str());
        let pascal = to_pascal_case(e.name.as_str());
        s.append(pascal.as_str());
        s.append(",");
        out.push(s);
        i = i + 1;
    }
    proof {
        assert(views_of(out@) =~= errs@.map_values(|e: ApiError| e@).map_values(
            |e: ApiErrorV| error_variant_code(e),
        ));
    }
    out
}

fn error_match_strings(errs: &Vec<ApiError>, err_ty: &str) -> (r: Vec<String>)
    ensures
        views_of(r@) == errs@.map_values(|e: ApiError| e@).map_values(
            |e: ApiErrorV| error_match_code(e, err_ty@),
        ),
{
    let mut out: Vec<String> = Vec::new();
    let mut i: usize = 0;
    while i < errs.len()
        invariant
            i <= errs@.len(),
            out@.len() == i,
            forall|j: int|
                0 <= j < i ==> (#[trigger] out@[j])@ == error_match_code(errs@[j]@, err_ty@),
        decreases errs@.len() - i,
    {
        let e = &errs[i];
        let mut s = String::from_str("\"");
        s.append(e.name.as_str());
        s.append("\" => ");
        s.append(err_ty);
        s.append("::");
        let pascal = to_pascal_case(e.name.as_str());
        s.append(pascal.as_str());
        s.append(",");
        out.push(s);
        i = i + 1;
    }
    proof {
        assert(views_of(out@) =~= errs@.map_values(|e: ApiError| e@).map_values(
            |e: ApiErrorV| error_match_code(e, err_ty@),
        ));
    }
    out
}

fn error_desc_strings(errs: &Vec<ApiError>, err_ty: &str) -> (r: Vec<String>)
    ensures
        views_of(r@) == errs@.map_values(|e: ApiError| e@).map_values(
            |e: ApiErrorV| error_desc_code(e, err_ty@),
        ),
{
    let mut out: Vec<String> = Vec::new();
    let mut i: usize = 0;
    while i < errs.len()
        invariant
            i <= errs@.len(),
            out@.len() == i,
            forall|j: int|
                0 <= j < i ==> (#[trigger] out@[j])@ == error_desc_code(errs@[j]@, err_ty@),
        decreases errs@.len() - i,
    {
        let e = &errs[i];
        let mut s = String::from_str("&");
        s.append(err_ty);
        s.append("::");
        let pascal = to_pascal_case(e.name.as_str());
        s.append(pascal.as_str());
        s.append(" => \"");
        s.append(e.name.as_str());
        s.append("\",");
        out.push(s);
        i = i + 1;
    }
    proof {
        assert(views_of(out@) =~= errs@.map_values(|e: ApiError| e@).map_values(
            |e: ApiErrorV| error_desc_code(e, err_ty@),
        ));
    }
    out
}

// --------------------------------------------------------------------------
// The response emitter
// --------------------------------------------------------------------------

/// The response's top-level shape, renamed after the generated response
/// type; other shapes pass through unchanged.
pub open spec fn response_resolved(schema: PropTypeV, ty: Seq<char>) -> PropTypeV {
    match schema {
        PropTypeV::Obj(o) => PropTypeV::Obj(JsonObjectV { name: ty, fields: o.fields }),
        PropTypeV::Enum(e) => PropTypeV::Enum(JsonEnumV { name: ty, variants: e.variants }),
        t => t,
    }
}

/// Whether a response shape is acceptable at the top level: an object, or
/// an enum whose every variant has-ok (a top-level response must be able to
/// answer whether the call succeeded).
pub open spec fn response_ok(schema: PropTypeV) -> bool {
    match schema {
        PropTypeV::Obj(_) => true,
        PropTypeV::Enum(e) => enum_has_ok(e),
        _ => false,
    }
}

/// Whether the generated response type carries a result facade.
pub open spec fn response_has_facade(schema: PropTypeV) -> bool {
    match schema {
        PropTypeV::Obj(o) => obj_has_ok(o),
        PropTypeV::Enum(e) => enum_has_ok(e),
        _ => false,
    }
}

/// The extraction impl of the response type, or nothing when the shape
/// carries no facade.
pub open spec fn response_to_result_code(schema: PropTypeV, ty: Seq<char>, err: Seq<char>) -> Seq<
    char,
> {
    match schema {
        PropTypeV::Obj(o) => if obj_has_ok(o) {
            obj_to_result_code(ty, err)
        } else {
            Seq::empty()
        },
        PropTypeV::Enum(e) => if enum_has_ok(e) {
            enum_to_result_code(JsonEnumV { name: ty, variants: e.variants }, err)
        } else {
            Seq::empty()
        },
        _ => Seq::empty(),
    }
}

/// The full response unit: the rendered response type, its facade when it
/// has one, and the method's error enumeration.
pub open spec fn response_body_code(r: ResponseV, ty: Seq<char>, err: Seq<char>) -> Seq<char> {
    (match response_resolved(r.schema, ty) {
        PropTypeV::Obj(o) => obj_code(o),
        PropTypeV::Enum(e) => enum_code(e),
        _ => Seq::empty(),
    }) + "\n"@ + response_to_result_code(r.schema, ty, err) + "\n"@ + error_enum_code(
        r.errors,
        err,
    )
}

/// The message reported for a schema whose top-level response shape is
/// rejected.
pub open spec fn response_err_msg(schema: PropTypeV, ty: Seq<char>) -> Seq<char> {
    if !(schema is Obj) && !(schema is Enum) {
        "Top level response schema for "@ + ty + " is not an object or enum."@
    } else {
        "Top level response enum "@ + ty + " does not have an \"ok\" field in every variant."@
    }
}

impl Response {
    /// Resolves the response's schema to the type it is generated as,
    /// renaming the top-level object or enum after the response type.
    pub fn get_response_type(&self, ty_name: &str) -> (r: PropType)
        ensures
            r@ == response_resolved(self.schema@, ty_name@),
    {
        match &self.schema {
            PropType::Obj(o) => {
                proof {
                    assert(self.schema@ == PropTypeV::Obj(obj_view(**o)));
                }
                let fields = clone_fields(&o.fields, 0);
                let r = PropType::Obj(
                    Box::new(JsonObject { name: ty_name.to_owned(), fields }),
                );
                proof {
                    if let PropType::Obj(ref ro) = r {
                        lemma_fields_view(ro.fields@, 0);
                        lemma_fields_view(o.fields@, 0);
                        assert(fields_view_i(ro.fields@, 0) =~= fields_view_i(o.fields@, 0));
                        assert(r@ == PropTypeV::Obj(obj_view(**ro)));
                    }
                }
                r
            },
            PropType::Enum(e) => {
                proof {
                    assert(self.schema@ == PropTypeV::Enum(enum_view(**e)));
                }
                let variants = clone_variants(&e.variants, 0);
                let r = PropType::Enum(
                    Box::new(JsonEnum { name: ty_name.to_owned(), variants }),
                );
                proof {
                    if let PropType::Enum(ref re) = r {
                        lemma_variants_view(re.variants@, 0);
                        lemma_variants_view(e.variants@, 0);
                        assert(variants_view_i(re.variants@, 0) =~= variants_view_i(
                            e.variants@,
                            0,
                        ));
                        assert(r@ == PropTypeV::Enum(enum_view(**re)));
                    }
                }
                r
            },
            other => clone_prop(other),
        }
    }

    /// Renders the method's error enumeration: declared variants, the three
    /// fixed fallbacks, classification from a raw code, and descriptions.
    pub fn get_error_enum(&self, error_ty: &str) -> (r: String)
        ensures
            r@ == error_enum_code(self@.errors, error_ty@),
    {
        let variants = error_variant_strings(&self.errors);
        let variants_joined = join_strings(&variants, "\n");
        let matches = error_match_strings(&self.errors, error_ty);
        let matches_joined = join_strings(&matches, "\n");
        let descs = error_desc_strings(&self.errors, error_ty);
        let descs_joined = join_strings(&descs, "\n");
        let mut out = String::from_str("#[derive(Clone, Debug)]\npub enum ");
        out.append(error_ty);
        out.append(" {\n");
        out.append(variants_joined.as_str());
        out.append(
            "\n/// The response was not \"ok\" but provided no error\nMalformedResponse,\n/// The response returned an error that was unknown to the library\nUnknown(String),\n/// The client had an error sending the request to Slack\nClient(ClientError)\n}\n\nimpl From<ClientError> for ",
        );
        out.append(error_ty);
        out.append(" {\nfn from(err: ClientError) -> Self {\n");
        out.append(error_ty);
        out.append("::Client(err)\n}\n}\n\nimpl<'a> From<&'a str> for ");
        out.append(error_ty);
        out.append(" {\nfn from(s: &'a str) -> Self {\nmatch s {\n");
        out.append(matches_joined.as_str());
        out.append("\n_ => ");
        out.append(error_ty);
        out.append(
            "::Unknown(s.to_owned())\n}\n}\n}\n\nimpl fmt::Display for ",
        );
        out.append(error_ty);
        out.append(
            " {\nfn fmt(&self, f: &mut fmt::Formatter) -> fmt::Result {\nwrite!(f, \"{}\", self.description())\n}\n}\n\nimpl Error for ",
        );
        out.append(error_ty);
        out.append(" {\nfn description(&self) -> &str {\nmatch self {\n");
        out.append(descs_joined.as_str());
        out.append("\n&");
        out.append(error_ty);
        out.append("::MalformedResponse => \"Malformed response data from Slack.\",\n&");
        out.append(error_ty);
        out.append("::Unknown(ref s) => s,\n&");
        out.append(error_ty);
        out.append(
            "::Client(ref inner) => inner.description()\n}\n}\n\nfn cause(&self) -> Option<&Error> {\nmatch self {\n&",
        );
        out.append(error_ty);
        out.append("::Client(ref inner) => Some(inner),\n_ => None\n}\n}\n}");
        out
    }

    /// Renders the whole response unit, or reports the schema-authoring
    /// violation when the top-level shape is rejected.
    pub fn generate(&self, ty_name: &str, error_ty: &str) -> (r: Result<String, GenError>)
        ensures
            response_ok(self.schema@) ==> (r matches Ok(s) && s@ == response_body_code(
                self@,
                ty_name@,
                error_ty@,
            )),
            !response_ok(self.schema@) ==> (r matches Err(e) && e.message@ == response_err_msg(
                self.schema@,
                ty_name@,
            )),
    {
        let resolved = self.get_response_type(ty_name);
        let objs: String = match &resolved {
            PropType::Obj(o) => {
                proof {
                    assert(resolved@ == PropTypeV::Obj(obj_view(**o)));
                }
                obj_to_code_exec(o)
            },
            PropType::Enum(e) => {
                proof {
                    assert(resolved@ == PropTypeV::Enum(enum_view(**e)));
                }
                if !enum_has_ok_exec(e) {
                    let mut msg = String::from_str("Top level response enum ");
                    msg.append(ty_name);
                    msg.append(" does not have an \"ok\" field in every variant.");
                    return Result::Err(GenError { message: msg });
                }
                enum_to_code_exec(e)
            },
            _ => {
                let mut msg = String::from_str("Top level response schema for ");
                msg.append(ty_name);
                msg.append(" is not an object or enum.");
                return Result::Err(GenError { message: msg });
            },
        };
        let to_result: String = match &resolved {
            PropType::Obj(o) => {
                match get_obj_to_response_impl(o, error_ty) {
                    Option::Some(s) => s,
                    Option::None => String::new(),
                }
            },
            PropType::Enum(e) => {
                match get_enum_to_response_impl(e, error_ty) {
                    Option::Some(s) => s,
                    Option::None => String::new(),
                }
            },
            _ => String::new(),
        };
        let errors = self.get_error_enum(error_ty);
        let mut out = objs;
        out.append("\n");
        out.append(to_result.as_str());
        out.append("\n");
        out.append(errors.as_str());
        proof {
            reveal_strlit("");
            assert(out@ =~= response_body_code(self@, ty_name@, error_ty@));
        }
        Result::Ok(out)
    }
}



// --------------------------------------------------------------------------
// The method emitter
// --------------------------------------------------------------------------

/// The message reported when a method's response shape is rejected,
/// identifying the method by its derived callable name.
pub open spec fn method_err_msg(m: MethodV) -> Seq<char> {
    let fn_name = snake_of(last_segment(m.name));
    if !(m.response.schema is Obj) && !(m.response.schema is Enum) {
        "Top-level response for "@ + fn_name + " is not an object or enum."@
    } else {
        "Top-level response enum for "@ + fn_name
            + " does not have an \"ok\" field in every variant."@
    }
}

/// The generated request type: one public field per declared parameter.
pub open spec fn request_struct_code(params: Seq<ParamV>, req: Seq<char>) -> Seq<char> {
    "#[derive(Clone, Default, Debug)]\npub struct "@ + req + " {\n"@ + joined(
        params.map_values(|p: ParamV| param_code(p)),
        "\n"@,
    ) + "\n}"@
}

/// The generated call sequence: send the request, parse the reply as the
/// response type (a parse failure becomes the "malformed response" error),
/// and fold it through the result facade when the type carries one.
pub open spec fn send_call_code(m: MethodV, resp: Seq<char>, err: Seq<char>) -> Seq<char> {
    "client.send(\""@ + m.name
        + "\", params)\n.map_err(|err| err.into())\n.and_then(|result| {\nserde_json::from_str::<"@
        + resp + ">(&result)\n.map_err(|_| "@ + err + "::MalformedResponse)\n})"@ + (
    if response_has_facade(m.response.schema) {
        ".and_then(|o| o.to_result())"@
    } else {
        Seq::empty()
    })
}

/// One full generated method unit: the documented callable, the request
/// type, and the response unit.
pub open spec fn method_code(m: MethodV) -> Seq<char> {
    let seg = last_segment(m.name);
    let fn_name = snake_of(seg);
    let prefix = pascal_of(seg);
    let req = prefix + "Request"@;
    let resp = prefix + "Response"@;
    let err = prefix + "Error"@;
    docs_code("///"@, m.description + "\n\nWraps "@ + m.documentation_url) + "pub fn "@ + fn_name
        + "<R>(client: &R, request: &"@ + req + ") -> Result<"@ + resp + ", "@ + err
        + ">\nwhere R: SlackWebRequestSender\n{\nlet mut params = HashMap::new();\n"@ + joined(
        m.params.map_values(|p: ParamV| insertion_code(p.name, p.ty, p.optional)),
        "\n"@,
    ) + "\n"@ + send_call_code(m, resp, err) + "\n}\n\n"@ + request_struct_code(m.params, req)
        + "\n\n"@ + response_body_code(m.response, resp, err)
}

fn insertion_strings(params: &Vec<Param>) -> (r: Vec<String>)
    ensures
        views_of(r@) == params@.map_values(|p: Param| p@).map_values(
            |p: ParamV| insertion_code(p.name, p.ty, p.optional),
        ),
{
    let mut out: Vec<String> = Vec::new();
    let mut i: usize = 0;
    while i < params.len()
        invariant
            i <= params@.len(),
            out@.len() == i,
            forall|j: int|
                0 <= j < i ==> (#[trigger] out@[j])@ == insertion_code(
                    params@[j]@.name,
                    params@[j]@.ty,
                    params@[j]@.optional,
                ),
        decreases params@.len() - i,
    {
        let s = params[i].get_insertion();
        out.push(s);
        i = i + 1;
    }
    proof {
        assert(views_of(out@) =~= params@.map_values(|p: Param| p@).map_values(
            |p: ParamV| insertion_code(p.name, p.ty, p.optional),
        ));
    }
    out
}

fn param_decl_strings(params: &Vec<Param>) -> (r: Vec<String>)
    ensures
        views_of(r@) == params@.map_values(|p: Param| p@).map_values(|p: ParamV| param_code(p)),
{
    let mut out: Vec<String> = Vec::new();
    let mut i: usize = 0;
    while i < params.len()
        invariant
            i <= params@.len(),
            out@.len() == i,
            forall|j: int| 0 <= j < i ==> (#[trigger] out@[j])@ == param_code(params@[j]@),
        decreases params@.len() - i,
    {
        let s = params[i].generate();
        out.push(s);
        i = i + 1;
    }
    proof {
        assert(views_of(out@) =~= params@.map_values(|p: Param| p@).map_values(
            |p: ParamV| param_code(p),
        ));
    }
    out
}

fn send_call_string(name: &str, resp: &str, err: &str, facade: bool) -> (r: String)
    ensures
        r@ == "client.send(\""@ + name@
            + "\", params)\n.map_err(|err| err.into())\n.and_then(|result| {\nserde_json::from_str::<"@
            + resp@ + ">(&result)\n.map_err(|_| "@ + err@ + "::MalformedResponse)\n})"@ + (
        if facade {
            ".and_then(|o| o.to_result())"@
        } else {
            Seq::<char>::empty()
        }),
{
    let mut out = String::from_str("client.send(\"");
    out.append(name);
    out.append(
        "\", params)\n.map_err(|err| err.into())\n.and_then(|result| {\nserde_json::from_str::<",
    );
    out.append(resp);
    out.append(">(&result)\n.map_err(|_| ");
    out.append(err);
    out.append("::MalformedResponse)\n})");
    if facade {
        out.append(".and_then(|o| o.to_result())");
    }
    proof {
        assert(out@ =~= "client.send(\""@ + name@
            + "\", params)\n.map_err(|err| err.into())\n.and_then(|result| {\nserde_json::from_str::<"@
            + resp@ + ">(&result)\n.map_err(|_| "@ + err@ + "::MalformedResponse)\n})"@ + (
        if facade {
            ".and_then(|o| o.to_result())"@
        } else {
            Seq::<char>::empty()
        }));
    }
    out
}

impl Method {
    fn get_request_struct(&self, ty_name: &str) -> (r: String)
        ensures
            r@ == request_struct_code(self@.params, ty_name@),
    {
        let decls = param_decl_strings(&self.params);
        let decls_joined = join_strings(&decls, "\n");
        let mut out = String::from_str("#[derive(Clone, Default, Debug)]\npub struct ");
        out.append(ty_name);
        out.append(" {\n");
        out.append(decls_joined.as_str());
        out.append("\n}");
        out
    }

    /// Emits this method's full unit: callable, request type, response type
    /// with facade, and error enumeration; a rejected top-level response
    /// shape aborts with a message naming the method.
    #[verifier::rlimit(100)]
    pub fn generate(&self) -> (r: Result<String, GenError>)
        ensures
            response_ok(self.response.schema@) ==> (r matches Ok(s) && s@ == method_code(self@)),
            !response_ok(self.response.schema@) ==> (r matches Err(e) && e.message@
                == method_err_msg(self@)),
    {
        let seg = str_last_segment(self.name.as_str());
        let fn_name = to_snake_case(seg.as_str());
        let type_prefix = to_pascal_case(seg.as_str());
        let shape_ok: bool = match &self.response.schema {
            PropType::Obj(o) => {
                proof {
                    assert(self.response.schema@ == PropTypeV::Obj(obj_view(**o)));
                }
                true
            },
            PropType::Enum(e) => {
                proof {
                    assert(self.response.schema@ == PropTypeV::Enum(enum_view(**e)));
                }
                if !enum_has_ok_exec(e) {
                    let mut msg = String::from_str("Top-level response enum for ");
                    msg.append(fn_name.as_str());
                    msg.append(" does not have an \"ok\" field in every variant.");
                    return Result::Err(GenError { message: msg });
                }
                true
            },
            _ => false,
        };
        if !shape_ok {
            let mut msg = String::from_str("Top-level response for ");
            msg.append(fn_name.as_str());
            msg.append(" is not an object or enum.");
            return Result::Err(GenError { message: msg });
        }
        let mut request_struct_name = type_prefix.clone();
        request_struct_name.append("Request");
        let mut response_struct_name = type_prefix.clone();
        response_struct_name.append("Response");
        let mut error_enum_name = type_prefix.clone();
        error_enum_name.append("Error");
        let response = match self.response.generate(
            response_struct_name.as_str(),
            error_enum_name.as_str(),
        ) {
            Result::Ok(s) => s,
            Result::Err(e) => {
                proof {
                    assert(false);
                }
                return Result::Err(e);
            },
        };
        let has_facade: bool = match &self.response.schema {
            PropType::Obj(o) => obj_has_ok_exec(o),
            PropType::Enum(_) => true,
            _ => false,
        };
        let mut docs_input = self.description.clone();
        docs_input.append("\n\nWraps ");
        docs_input.append(self.documentation_url.as_str());
        let mut out = format_docs("///", docs_input.as_str());
        out.append("pub fn ");
        out.append(fn_name.as_str());
        out.append("<R>(client: &R, request: &");
        out.append(request_struct_name.as_str());
        out.append(") -> Result<");
        out.append(response_struct_name.as_str());
        out.append(", ");
        out.append(error_enum_name.as_str());
        out.append(
            ">\nwhere R: SlackWebRequestSender\n{\nlet mut params = HashMap::new();\n",
        );
        let insertions = insertion_strings(&self.params);
        let insertions_joined = join_strings(&insertions, "\n");
        out.append(insertions_joined.as_str());
        out.append("\n");
        let send_call = send_call_string(
            self.name.as_str(),
            response_struct_name.as_str(),
            error_enum_name.as_str(),
            has_facade,
        );
        proof {
            assert(has_facade == response_has_facade(self.response.schema@));
            assert(send_call@ == send_call_code(
                self@,
                response_struct_name@,
                error_enum_name@,
            ));
        }
        out.append(send_call.as_str());
        out.append("\n}\n\n");
        let request = self.get_request_struct(request_struct_name.as_str());
        out.append(request.as_str());
        out.append("\n\n");
        out.append(response.as_str());
        proof {
            reveal_strlit("");
            assert(out@ =~= method_code(self@));
        }
        Result::Ok(out)
    }
}

// --------------------------------------------------------------------------
// The module emitter
// --------------------------------------------------------------------------

/// The shared imports and aliases placed at the head of a generated module.
pub open spec fn module_header() -> Seq<char> {
    "use std::collections::HashMap;\nuse std::convert::From;\nuse std::error::Error;\nuse std::fmt;\n\nuse serde_json;\n\nuse crate::{ClientError, SlackWebRequestSender, ToResult};\n\n"@
}

/// Whether every method of the module has an acceptable top-level response
/// shape.
pub open spec fn module_ok(m: ModuleV) -> bool {
    forall|i: int| 0 <= i < m.methods.len() ==> response_ok(#[trigger] m.methods[i].response.schema)
}

/// The whole generated module: the shared header, then each method's unit
/// in declared order.
pub open spec fn module_code(m: ModuleV) -> Seq<char> {
    module_header() + joined(m.methods.map_values(|x: MethodV| method_code(x)), "\n"@)
}

impl Module {
    /// The module's name with dots made safe for use as an identifier.
    pub fn get_safe_name(&self) -> (r: String)
        ensures
            r@ == replace_char(self.name@, '.', '_'),
    {
        str_replace_char(self.name.as_str(), '.', '_')
    }

    /// Emits the whole module, or stops at the first method whose response
    /// shape is rejected, reporting that method's violation.
    pub fn generate(&self) -> (r: Result<String, GenError>)
        ensures
            module_ok(self@) ==> (r matches Ok(s) && s@ == module_code(self@)),
            !module_ok(self@) ==> (r matches Err(e) && exists|i: int|
                0 <= i < self@.methods.len() && !response_ok(
                    #[trigger] self@.methods[i].response.schema,
                ) && (forall|j: int|
                    0 <= j < i ==> response_ok(#[trigger] self@.methods[j].response.schema))
                    && e.message@ == method_err_msg(self@.methods[i])),
    {
        let mut pieces: Vec<String> = Vec::new();
        let mut i: usize = 0;
        while i < self.methods.len()
            invariant
                i <= self.methods@.len(),
                pieces@.len() == i,
                forall|j: int|
                    0 <= j < i ==> response_ok(#[trigger] self@.methods[j].response.schema),
                forall|j: int|
                    0 <= j < i ==> (#[trigger] pieces@[j])@ == method_code(self@.methods[j]),
            decreases self.methods@.len() - i,
        {
            match self.methods[i].generate() {
                Result::Ok(s) => {
                    pieces.push(s);
                },
                Result::Err(e) => {
                    proof {
                        assert(!response_ok(self@.methods[i as int].response.schema));
                    }
                    return Result::Err(e);
                },
            }
            i = i + 1;
        }
        let joined_methods = join_strings(&pieces, "\n");
        let mut out = String::from_str(
            "use std::collections::HashMap;\nuse std::convert::From;\nuse std::error::Error;\nuse std::fmt;\n\nuse serde_json;\n\nuse crate::{ClientError, SlackWebRequestSender, ToResult};\n\n",
        );
        out.append(joined_methods.as_str());
        proof {
            assert(views_of(pieces@) =~= self@.methods.map_values(|x: MethodV| method_code(x)));
            assert(out@ == module_code(self@));
        }
        Result::Ok(out)
    }
}

/// Generation is a pure function of the schema tree: two runs on one module
/// yield byte-identical output, independent of anything but the tree (field
/// order inside a rendered struct is name-sorted, not input-dependent).
pub proof fn lemma_generation_deterministic(m: ModuleV, r1: Seq<char>, r2: Seq<char>)
    requires
        module_ok(m),
        r1 == module_code(m),
        r2 == module_code(m),
    ensures
        r1 == r2,
{
}


} // verus!
