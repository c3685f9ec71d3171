//! The polymorphic message event carried inside chat responses, selected by
//! the wire payload's `subtype` field; a payload without a subtype is a
//! standard message.

use vstd::prelude::*;
use crate::json::{
    JsonVal, JsonValue, bool_field, jv_obj_view, obj_get, str_field,
};
use crate::types::{
    Reaction, ReactionV, dec_opt_reactions, dec_opt_strs, decode_opt_reactions, decode_opt_strs,
    opt_reactions_view, opt_strs_view,
};
use crate::json::opt_seq_view;
use crate::strutil::str_eq;

verus! {

/// One message event, discriminated by its wire subtype.
#[derive(Clone, Debug)]
pub enum Message {
    /// A plain user message: a payload with no `subtype` field.
    Standard {
        ts: Option<String>,
        channel: Option<String>,
        user: Option<String>,
        text: Option<String>,
        is_starred: Option<bool>,
        pinned_to: Option<Vec<String>>,
        reactions: Option<Vec<Reaction>>,
        edited: Option<String>,
        attachments: Option<String>,
    },
    /// A message posted by a bot: subtype `bot_message`.
    BotMessage { ts: Option<String>, username: Option<String>, text: Option<String> },
}

pub enum MessageV {
    Standard {
        ts: Option<Seq<char>>,
        channel: Option<Seq<char>>,
        user: Option<Seq<char>>,
        text: Option<Seq<char>>,
        is_starred: Option<bool>,
        pinned_to: Option<Seq<Seq<char>>>,
        reactions: Option<Seq<ReactionV>>,
        edited: Option<Seq<char>>,
        attachments: Option<Seq<char>>,
    },
    BotMessage { ts: Option<Seq<char>>, username: Option<Seq<char>>, text: Option<Seq<char>> },
}

impl View for Message {
    type V = MessageV;

    open spec fn view(&self) -> MessageV {
        match *self {
            Message::Standard {
                ts,
                channel,
                user,
                text,
                is_starred,
                pinned_to,
                reactions,
                edited,
                attachments,
            } => MessageV::Standard {
                ts: opt_seq_view(ts),
                channel: opt_seq_view(channel),
                user: opt_seq_view(user),
                text: opt_seq_view(text),
                is_starred: is_starred,
                pinned_to: opt_strs_view(pinned_to),
                reactions: opt_reactions_view(reactions),
                edited: opt_seq_view(edited),
                attachments: opt_seq_view(attachments),
            },
            Message::BotMessage { ts, username, text } => MessageV::BotMessage {
                ts: opt_seq_view(ts),
                username: opt_seq_view(username),
                text: opt_seq_view(text),
            },
        }
    }
}

/// The message that a JSON tree decodes to: a missing `subtype` selects a
/// standard message, `bot_message` a bot message; any other subtype, a
/// subtype that is not text, or a payload that is not an object is
/// rejected.
pub open spec fn dec_message(v: JsonVal) -> Option<MessageV> {
    match v {
        JsonVal::Obj(fs) => {
            match obj_get(fs, "subtype"@) {
                Option::None => Option::Some(
                    MessageV::Standard {
                        ts: str_field(fs, "ts"@),
                        channel: str_field(fs, "channel"@),
                        user: str_field(fs, "user"@),
                        text: str_field(fs, "text"@),
                        is_starred: bool_field(fs, "is_starred"@),
                        pinned_to: dec_opt_strs(fs, "pinned_to"@),
                        reactions: dec_opt_reactions(fs, "reactions"@),
                        edited: str_field(fs, "edited"@),
                        attachments: str_field(fs, "attachments"@),
                    },
                ),
                Option::Some(JsonVal::Str(st)) => if st == "bot_message"@ {
                    Option::Some(
                        MessageV::BotMessage {
                            ts: str_field(fs, "ts"@),
                            username: str_field(fs, "username"@),
                            text: str_field(fs, "text"@),
                        },
                    )
                } else {
                    Option::None
                },
                Option::Some(_) => Option::None,
            }
        },
        _ => Option::None,
    }
}

/// Decodes a message event from its JSON tree.
pub fn decode_message(v: &JsonValue) -> (r: Option<Message>)
    ensures
        dec_message(v@) matches Some(mv) ==> (r matches Some(m) && m@ == mv),
        dec_message(v@) is None ==> r is None,
{
    match v {
        JsonValue::Obj(fields) => {
            proof {
                assert(v@ == JsonVal::Obj(jv_obj_view(fields@, 0)));
            }
            match crate::json::get_field(fields, "subtype") {
                Option::None => Option::Some(
                    Message::Standard {
                        ts: crate::json::field_str(fields, "ts"),
                        channel: crate::json::field_str(fields, "channel"),
                        user: crate::json::field_str(fields, "user"),
                        text: crate::json::field_str(fields, "text"),
                        is_starred: crate::json::field_bool(fields, "is_starred"),
                        pinned_to: decode_opt_strs(fields, "pinned_to"),
                        reactions: decode_opt_reactions(fields, "reactions"),
                        edited: crate::json::field_str(fields, "edited"),
                        attachments: crate::json::field_str(fields, "attachments"),
                    },
                ),
                Option::Some(sv) => match sv {
                    JsonValue::Str(st) => {
                        if str_eq(st.as_str(), "bot_message") {
                            Option::Some(
                                Message::BotMessage {
                                    ts: crate::json::field_str(fields, "ts"),
                                    username: crate::json::field_str(fields, "username"),
                                    text: crate::json::field_str(fields, "text"),
                                },
                            )
                        } else {
                            Option::None
                        }
                    },
                    _ => Option::None,
                },
            }
        },
        _ => Option::None,
    }
}

} // verus!
