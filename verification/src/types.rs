//! Shared wire types carried inside responses: reactions, files, paging
//! information, and the polymorphic item selected by a `type` field.

use vstd::prelude::*;
use crate::json::{
    JsonVal, JsonValue, jv_arr_view, jv_obj_view, lemma_jv_arr_view, obj_get, opt_seq_view,
    str_field, u32_field,
};
use crate::message_events::{Message, MessageV, dec_message, decode_message};
use crate::strutil::{str_eq, views_of};

verus! {

/// One reaction on an item: the emoji name, how many users reacted, and
/// who.
#[derive(Clone, Debug)]
pub struct Reaction {
    pub name: String,
    pub count: u32,
    pub users: Vec<String>,
}

pub struct ReactionV {
    pub name: Seq<char>,
    pub count: u32,
    pub users: Seq<Seq<char>>,
}

impl View for Reaction {
    type V = ReactionV;

    open spec fn view(&self) -> ReactionV {
        ReactionV { name: self.name@, count: self.count, users: views_of(self.users@) }
    }
}

/// Paging information of a listing response.
#[derive(Clone, Debug)]
pub struct Pagination {
    pub count: u32,
    pub total: u32,
    pub page: u32,
    pub pages: u32,
}

pub struct PaginationV {
    pub count: u32,
    pub total: u32,
    pub page: u32,
    pub pages: u32,
}

impl View for Pagination {
    type V = PaginationV;

    open spec fn view(&self) -> PaginationV {
        PaginationV {
            count: self.count,
            total: self.total,
            page: self.page,
            pages: self.pages,
        }
    }
}

/// A file, as far as this client reads it.
#[derive(Clone, Debug)]
pub struct File {
    pub id: String,
    pub name: Option<String>,
    pub title: Option<String>,
    pub user: Option<String>,
    pub reactions: Option<Vec<Reaction>>,
}

pub struct FileV {
    pub id: Seq<char>,
    pub name: Option<Seq<char>>,
    pub title: Option<Seq<char>>,
    pub user: Option<Seq<char>>,
    pub reactions: Option<Seq<ReactionV>>,
}

pub open spec fn opt_strs_view(o: Option<Vec<String>>) -> Option<Seq<Seq<char>>> {
    match o {
        Option::Some(v) => Option::Some(views_of(v@)),
        Option::None => Option::None,
    }
}

pub open spec fn reactions_view(s: Seq<Reaction>) -> Seq<ReactionV> {
    s.map_values(|r: Reaction| r@)
}

pub open spec fn opt_reactions_view(o: Option<Vec<Reaction>>) -> Option<Seq<ReactionV>> {
    match o {
        Option::Some(v) => Option::Some(reactions_view(v@)),
        Option::None => Option::None,
    }
}

impl View for File {
    type V = FileV;

    open spec fn view(&self) -> FileV {
        FileV {
            id: self.id@,
            name: opt_seq_view(self.name),
            title: opt_seq_view(self.title),
            user: opt_seq_view(self.user),
            reactions: opt_reactions_view(self.reactions),
        }
    }
}

/// One item a reaction can be attached to, discriminated by its wire
/// `type` field.
#[derive(Clone, Debug)]
pub enum Item {
    Message { channel: String, message: Box<Message> },
    File { file: File },
}

pub enum ItemV {
    Message { channel: Seq<char>, message: MessageV },
    File { file: FileV },
}

impl View for Item {
    type V = ItemV;

    open spec fn view(&self) -> ItemV {
        match self {
            Item::Message { channel, message } => ItemV::Message {
                channel: channel@,
                message: (**message)@,
            },
            Item::File { file } => ItemV::File { file: file@ },
        }
    }
}

// --------------------------------------------------------------------------
// Decoding sequences
// --------------------------------------------------------------------------

/// The texts of an array's elements, when every element is text.
pub open spec fn dec_strs_i(s: Seq<JsonVal>, i: int) -> Option<Seq<Seq<char>>>
    decreases s.len() - i,
{
    if i < 0 || i >= s.len() {
        Option::Some(Seq::empty())
    } else {
        match s[i] {
            JsonVal::Str(t) => match dec_strs_i(s, i + 1) {
                Option::Some(rest) => Option::Some(seq![t] + rest),
                Option::None => Option::None,
            },
            _ => Option::None,
        }
    }
}

fn decode_strs(items: &Vec<JsonValue>, i: usize) -> (r: Option<Vec<String>>)
    requires
        i <= items@.len(),
    ensures
        dec_strs_i(jv_arr_view(items@, 0), i as int) matches Some(ss) ==> (r matches Some(vs)
            && views_of(vs@) == ss),
        dec_strs_i(jv_arr_view(items@, 0), i as int) is None ==> r is None,
    decreases items@.len() - i,
{
    proof {
        lemma_jv_arr_view(items@, 0);
    }
    if i >= items.len() {
        let out: Vec<String> = Vec::new();
        proof {
            assert(views_of(out@) =~= Seq::<Seq<char>>::empty());
        }
        return Option::Some(out);
    }
    match &items[i] {
        JsonValue::Str(t) => {
            match decode_strs(items, i + 1) {
                Option::Some(rest) => {
                    let ghost rest_v = rest@;
                    let mut rest = rest;
                    rest.insert(0, t.clone());
                    proof {
                        assert(views_of(rest@) =~= seq![t@] + views_of(rest_v));
                    }
                    Option::Some(rest)
                },
                Option::None => Option::None,
            }
        },
        _ => Option::None,
    }
}

/// The reaction a JSON tree decodes to: an object carrying a text `name`,
/// an unsigned 32-bit `count`, and a `users` array of text.
pub open spec fn dec_reaction(v: JsonVal) -> Option<ReactionV> {
    match v {
        JsonVal::Obj(fs) => {
            match (str_field(fs, "name"@), u32_field(fs, "count"@)) {
                (Option::Some(name), Option::Some(count)) => {
                    match obj_get(fs, "users"@) {
                        Option::Some(JsonVal::Arr(items)) => match dec_strs_i(items, 0) {
                            Option::Some(users) => Option::Some(
                                ReactionV { name, count, users },
                            ),
                            Option::None => Option::None,
                        },
                        _ => Option::None,
                    }
                },
                _ => Option::None,
            }
        },
        _ => Option::None,
    }
}

/// Decodes one reaction from its JSON tree.
pub fn decode_reaction(v: &JsonValue) -> (r: Option<Reaction>)
    ensures
        dec_reaction(v@) matches Some(rv) ==> (r matches Some(x) && x@ == rv),
        dec_reaction(v@) is None ==> r is None,
{
    match v {
        JsonValue::Obj(fields) => {
            proof {
                assert(v@ == JsonVal::Obj(jv_obj_view(fields@, 0)));
            }
            let name = match crate::json::field_str(fields, "name") {
                Option::Some(n) => n,
                Option::None => {
                    return Option::None;
                },
            };
            let count = match crate::json::field_u32(fields, "count") {
                Option::Some(c) => c,
                Option::None => {
                    return Option::None;
                },
            };
            match crate::json::get_field(fields, "users") {
                Option::Some(uv) => match uv {
                    JsonValue::Arr(items) => match decode_strs(items, 0) {
                        Option::Some(users) => Option::Some(Reaction { name, count, users }),
                        Option::None => Option::None,
                    },
                    _ => Option::None,
                },
                _ => Option::None,
            }
        },
        _ => Option::None,
    }
}

/// The reactions of an array's elements, when every element decodes.
pub open spec fn dec_reactions_i(s: Seq<JsonVal>, i: int) -> Option<Seq<ReactionV>>
    decreases s.len() - i,
{
    if i < 0 || i >= s.len() {
        Option::Some(Seq::empty())
    } else {
        match dec_reaction(s[i]) {
            Option::Some(rv) => match dec_reactions_i(s, i + 1) {
                Option::Some(rest) => Option::Some(seq![rv] + rest),
                Option::None => Option::None,
            },
            Option::None => Option::None,
        }
    }
}

fn decode_reactions(items: &Vec<JsonValue>, i: usize) -> (r: Option<Vec<Reaction>>)
    requires
        i <= items@.len(),
    ensures
        dec_reactions_i(jv_arr_view(items@, 0), i as int) matches Some(ss) ==> (r matches Some(
            vs,
        ) && reactions_view(vs@) == ss),
        dec_reactions_i(jv_arr_view(items@, 0), i as int) is None ==> r is None,
    decreases items@.len() - i,
{
    proof {
        lemma_jv_arr_view(items@, 0);
    }
    if i >= items.len() {
        let out: Vec<Reaction> = Vec::new();
        proof {
            assert(reactions_view(out@) =~= Seq::<ReactionV>::empty());
        }
        return Option::Some(out);
    }
    match decode_reaction(&items[i]) {
        Option::Some(x) => {
            match decode_reactions(items, i + 1) {
                Option::Some(rest) => {
                    let ghost rest_v = rest@;
                    let ghost xv = x@;
                    let mut rest = rest;
                    rest.insert(0, x);
                    proof {
                        assert(reactions_view(rest@) =~= seq![xv] + reactions_view(rest_v));
                    }
                    Option::Some(rest)
                },
                Option::None => Option::None,
            }
        },
        Option::None => Option::None,
    }
}

/// The optional text-array field named `key`: present only when the field
/// is an array whose every element is text.
pub open spec fn dec_opt_strs(fs: Seq<(Seq<char>, JsonVal)>, key: Seq<char>) -> Option<
    Seq<Seq<char>>,
> {
    match obj_get(fs, key) {
        Option::Some(JsonVal::Arr(items)) => dec_strs_i(items, 0),
        _ => Option::None,
    }
}

/// Reads an optional array-of-text field.
pub fn decode_opt_strs(fields: &Vec<(String, JsonValue)>, key: &str) -> (r: Option<Vec<String>>)
    ensures
        dec_opt_strs(jv_obj_view(fields@, 0), key@) matches Some(ss) ==> (r matches Some(vs)
            && views_of(vs@) == ss),
        dec_opt_strs(jv_obj_view(fields@, 0), key@) is None ==> r is None,
{
    match crate::json::get_field(fields, key) {
        Option::Some(v) => match v {
            JsonValue::Arr(items) => decode_strs(items, 0),
            _ => Option::None,
        },
        Option::None => Option::None,
    }
}

/// The optional reactions field named `key`: present only when the field
/// is an array whose every element decodes as a reaction.
pub open spec fn dec_opt_reactions(fs: Seq<(Seq<char>, JsonVal)>, key: Seq<char>) -> Option<
    Seq<ReactionV>,
> {
    match obj_get(fs, key) {
        Option::Some(JsonVal::Arr(items)) => dec_reactions_i(items, 0),
        _ => Option::None,
    }
}

/// Reads an optional array-of-reactions field.
pub fn decode_opt_reactions(fields: &Vec<(String, JsonValue)>, key: &str) -> (r: Option<
    Vec<Reaction>,
>)
    ensures
        dec_opt_reactions(jv_obj_view(fields@, 0), key@) matches Some(ss) ==> (r matches Some(vs)
            && reactions_view(vs@) == ss),
        dec_opt_reactions(jv_obj_view(fields@, 0), key@) is None ==> r is None,
{
    match crate::json::get_field(fields, key) {
        Option::Some(v) => match v {
            JsonValue::Arr(items) => decode_reactions(items, 0),
            _ => Option::None,
        },
        Option::None => Option::None,
    }
}

// --------------------------------------------------------------------------
// Files, paging, items
// --------------------------------------------------------------------------

/// The file a JSON tree decodes to: an object with a required text `id`;
/// the other fields are read when present and well-shaped.
pub open spec fn dec_file(v: JsonVal) -> Option<FileV> {
    match v {
        JsonVal::Obj(fs) => {
            match str_field(fs, "id"@) {
                Option::Some(id) => Option::Some(
                    FileV {
                        id,
                        name: str_field(fs, "name"@),
                        title: str_field(fs, "title"@),
                        user: str_field(fs, "user"@),
                        reactions: dec_opt_reactions(fs, "reactions"@),
                    },
                ),
                Option::None => Option::None,
            }
        },
        _ => Option::None,
    }
}

/// Decodes a file from its JSON tree.
pub fn decode_file(v: &JsonValue) -> (r: Option<File>)
    ensures
        dec_file(v@) matches Some(fv) ==> (r matches Some(f) && f@ == fv),
        dec_file(v@) is None ==> r is None,
{
    match v {
        JsonValue::Obj(fields) => {
            proof {
                assert(v@ == JsonVal::Obj(jv_obj_view(fields@, 0)));
            }
            match crate::json::field_str(fields, "id") {
                Option::Some(id) => Option::Some(
                    File {
                        id,
                        name: crate::json::field_str(fields, "name"),
                        title: crate::json::field_str(fields, "title"),
                        user: crate::json::field_str(fields, "user"),
                        reactions: decode_opt_reactions(fields, "reactions"),
                    },
                ),
                Option::None => Option::None,
            }
        },
        _ => Option::None,
    }
}

/// The paging block a JSON tree decodes to: four required unsigned counts.
pub open spec fn dec_pagination(v: JsonVal) -> Option<PaginationV> {
    match v {
        JsonVal::Obj(fs) => {
            match (u32_field(fs, "count"@), u32_field(fs, "total"@)) {
                (Option::Some(count), Option::Some(total)) => {
                    match (u32_field(fs, "page"@), u32_field(fs, "pages"@)) {
                        (Option::Some(page), Option::Some(pages)) => Option::Some(
                            PaginationV { count, total, page, pages },
                        ),
                        _ => Option::None,
                    }
                },
                _ => Option::None,
            }
        },
        _ => Option::None,
    }
}

/// Decodes a paging block from its JSON tree.
pub fn decode_pagination(v: &JsonValue) -> (r: Option<Pagination>)
    ensures
        dec_pagination(v@) matches Some(pv) ==> (r matches Some(p) && p@ == pv),
        dec_pagination(v@) is None ==> r is None,
{
    match v {
        JsonValue::Obj(fields) => {
            proof {
                assert(v@ == JsonVal::Obj(jv_obj_view(fields@, 0)));
            }
            let count = crate::json::field_u32(fields, "count");
            let total = crate::json::field_u32(fields, "total");
            let page = crate::json::field_u32(fields, "page");
            let pages = crate::json::field_u32(fields, "pages");
            match (count, total, page, pages) {
                (
                    Option::Some(count),
                    Option::Some(total),
                    Option::Some(page),
                    Option::Some(pages),
                ) => Option::Some(Pagination { count, total, page, pages }),
                _ => Option::None,
            }
        },
        _ => Option::None,
    }
}

/// The item a JSON tree decodes to, dispatched on its `type` field:
/// `message` carries a channel and a message payload, `file` a file
/// payload; a missing or unrecognized type is rejected.
pub open spec fn dec_item(v: JsonVal) -> Option<ItemV> {
    match v {
        JsonVal::Obj(fs) => {
            match str_field(fs, "type"@) {
                Option::Some(ty) => {
                    if ty == "message"@ {
                        match (str_field(fs, "channel"@), obj_get(fs, "message"@)) {
                            (Option::Some(channel), Option::Some(mv)) => match dec_message(mv) {
                                Option::Some(m) => Option::Some(
                                    ItemV::Message { channel, message: m },
                                ),
                                Option::None => Option::None,
                            },
                            _ => Option::None,
                        }
                    } else if ty == "file"@ {
                        match obj_get(fs, "file"@) {
                            Option::Some(fv) => match dec_file(fv) {
                                Option::Some(f) => Option::Some(ItemV::File { file: f }),
                                Option::None => Option::None,
                            },
                            Option::None => Option::None,
                        }
                    } else {
                        Option::None
                    }
                },
                Option::None => Option::None,
            }
        },
        _ => Option::None,
    }
}

/// Decodes one item from its JSON tree.
pub fn decode_item(v: &JsonValue) -> (r: Option<Item>)
    ensures
        dec_item(v@) matches Some(iv) ==> (r matches Some(x) && x@ == iv),
        dec_item(v@) is None ==> r is None,
{
    match v {
        JsonValue::Obj(fields) => {
            proof {
                assert(v@ == JsonVal::Obj(jv_obj_view(fields@, 0)));
            }
            let ty = match crate::json::field_str(fields, "type") {
                Option::Some(t) => t,
                Option::None => {
                    return Option::None;
                },
            };
            if str_eq(ty.as_str(), "message") {
                let channel = match crate::json::field_str(fields, "channel") {
                    Option::Some(c) => c,
                    Option::None => {
                        return Option::None;
                    },
                };
                match crate::json::get_field(fields, "message") {
                    Option::Some(mv) => match decode_message(mv) {
                        Option::Some(m) => Option::Some(
                            Item::Message { channel, message: Box::new(m) },
                        ),
                        Option::None => Option::None,
                    },
                    Option::None => Option::None,
                }
            } else if str_eq(ty.as_str(), "file") {
                match crate::json::get_field(fields, "file") {
                    Option::Some(fv) => match decode_file(fv) {
                        Option::Some(f) => Option::Some(Item::File { file: f }),
                        Option::None => Option::None,
                    },
                    Option::None => Option::None,
                }
            } else {
                Option::None
            }
        },
        _ => Option::None,
    }
}

/// The items of an array, when every element decodes.
pub open spec fn dec_items_i(s: Seq<JsonVal>, i: int) -> Option<Seq<ItemV>>
    decreases s.len() - i,
{
    if i < 0 || i >= s.len() {
        Option::Some(Seq::empty())
    } else {
        match dec_item(s[i]) {
            Option::Some(iv) => match dec_items_i(s, i + 1) {
                Option::Some(rest) => Option::Some(seq![iv] + rest),
                Option::None => Option::None,
            },
            Option::None => Option::None,
        }
    }
}

pub open spec fn items_view(s: Seq<Item>) -> Seq<ItemV> {
    s.map_values(|x: Item| x@)
}

/// Decodes an array of items, failing when any element fails.
pub fn decode_items(items: &Vec<JsonValue>, i: usize) -> (r: Option<Vec<Item>>)
    requires
        i <= items@.len(),
    ensures
        dec_items_i(jv_arr_view(items@, 0), i as int) matches Some(ss) ==> (r matches Some(vs)
            && items_view(vs@) == ss),
        dec_items_i(jv_arr_view(items@, 0), i as int) is None ==> r is None,
    decreases items@.len() - i,
{
    proof {
        lemma_jv_arr_view(items@, 0);
    }
    if i >= items.len() {
        let out: Vec<Item> = Vec::new();
        proof {
            assert(items_view(out@) =~= Seq::<ItemV>::empty());
        }
        return Option::Some(out);
    }
    match decode_item(&items[i]) {
        Option::Some(x) => {
            match decode_items(items, i + 1) {
                Option::Some(rest) => {
                    let ghost rest_v = rest@;
                    let ghost xv = x@;
                    let mut rest = rest;
                    rest.insert(0, x);
                    proof {
                        assert(items_view(rest@) =~= seq![xv] + items_view(rest_v));
                    }
                    Option::Some(rest)
                },
                Option::None => Option::None,
            }
        },
        Option::None => Option::None,
    }
}

} // verus!
