//! Decoding of dispatch bodies into typed events.
use vstd::prelude::*;

use crate::jsonval::{as_bool, as_text, as_u64, bool_at, member, text_at, u64_at, Doc};
use crate::models::{ApplicationData, Author, MessageData, ReadyData};

verus! {

/// The event names that this client decodes.
#[derive(Clone, Copy, Debug, PartialEq, Eq, Structural)]
pub enum EventKind {
    Ready,
    MessageCreate,
    Other,
}

/// A decoded dispatch event.
pub enum Event {
    Ready(ReadyData),
    MessageCreate(MessageData),
    /// An event name this client has no decoder for.
    Unimplemented(String),
}

pub open spec fn ready_name() -> Seq<char> {
    seq!['R', 'E', 'A', 'D', 'Y']
}

pub open spec fn message_create_name() -> Seq<char> {
    seq!['M', 'E', 'S', 'S', 'A', 'G', 'E', '_', 'C', 'R', 'E', 'A', 'T', 'E']
}

/// The decoder that an event name selects.
pub open spec fn kind_of(name: Seq<char>) -> EventKind {
    if name == ready_name() {
        EventKind::Ready
    } else if name == message_create_name() {
        EventKind::MessageCreate
    } else {
        EventKind::Other
    }
}

pub fn event_kind(name: &String) -> (r: EventKind)
    ensures
        r == kind_of(name@),
{
    let ready = "READY".to_owned();
    let message_create = "MESSAGE_CREATE".to_owned();
    proof {
        reveal_strlit("READY");
        reveal_strlit("MESSAGE_CREATE");
        assert(ready@ == ready_name());
        assert(message_create@ == message_create_name());
    }
    if name.eq(&ready) {
        EventKind::Ready
    } else if name.eq(&message_create) {
        EventKind::MessageCreate
    } else {
        EventKind::Other
    }
}

/// A `READY` body from its members; `None` when a required one is missing.
pub fn ready_from_members(
    session_type: Option<String>,
    session_id: Option<String>,
    resume_gateway_url: Option<String>,
    application_id: Option<String>,
    application_flags: Option<u64>,
) -> (r: Option<ReadyData>)
    ensures
        r.is_some() == (session_type.is_some() && session_id.is_some()
            && resume_gateway_url.is_some() && application_id.is_some()
            && application_flags.is_some()),
        r.is_some() ==> r.unwrap() == (ReadyData {
            session_type: session_type.unwrap(),
            session_id: session_id.unwrap(),
            resume_gateway_url: resume_gateway_url.unwrap(),
            application: ApplicationData {
                id: application_id.unwrap(),
                flags: application_flags.unwrap(),
            },
        }),
{
    match (session_type, session_id, resume_gateway_url, application_id, application_flags) {
        (Some(session_type), Some(session_id), Some(resume_gateway_url), Some(id), Some(flags)) => {
            Some(
                ReadyData {
                    session_type,
                    session_id,
                    resume_gateway_url,
                    application: ApplicationData { id, flags },
                },
            )
        },
        _ => None,
    }
}

/// The optional flags of a message default to false and zero.
pub open spec fn flag_or_false(b: Option<bool>) -> bool {
    match b {
        Some(v) => v,
        None => false,
    }
}

/// A message from its members; `None` when a required one is missing.
pub fn message_from_members(
    content: Option<String>,
    channel_id: Option<String>,
    message_id: Option<String>,
    author: Option<Author>,
    guild_id: Option<String>,
    timestamp: Option<String>,
    edited_timestamp: Option<String>,
    tts: Option<bool>,
    pinned: Option<bool>,
    mention_everyone: Option<bool>,
    flags: Option<u64>,
) -> (r: Option<MessageData>)
    ensures
        r.is_some() == (content.is_some() && channel_id.is_some() && message_id.is_some()
            && author.is_some()),
        r.is_some() ==> {
            let m = r.unwrap();
            &&& m.content == content.unwrap()
            &&& m.channel_id == channel_id.unwrap()
            &&& m.message_id == message_id.unwrap()
            &&& m.author == author.unwrap()
            &&& m.guild_id == guild_id
            &&& m.timestamp == timestamp
            &&& m.edited_timestamp == edited_timestamp
            &&& m.tts == flag_or_false(tts)
            &&& m.pinned == flag_or_false(pinned)
            &&& m.mention_everyone == flag_or_false(mention_everyone)
            &&& m.flags == match flags { Some(f) => f, None => 0 }
        },
{
    match (content, channel_id, message_id, author) {
        (Some(content), Some(channel_id), Some(message_id), Some(author)) => {
            Some(
                MessageData {
                    tts: match tts { Some(v) => v, None => false },
                    timestamp,
                    pinned: match pinned { Some(v) => v, None => false },
                    mention_everyone: match mention_everyone { Some(v) => v, None => false },
                    flags: match flags { Some(f) => f, None => 0 },
                    edited_timestamp,
                    content,
                    channel_id,
                    author,
                    guild_id,
                    message_id,
                },
            )
        },
        _ => None,
    }
}

/// An author from its members; `None` when one is missing.
pub fn author_from_members(id: Option<String>, username: Option<String>) -> (r: Option<Author>)
    ensures
        r.is_some() == (id.is_some() && username.is_some()),
        r.is_some() ==> r.unwrap() == (Author { id: id.unwrap(), username: username.unwrap() }),
{
    match (id, username) {
        (Some(id), Some(username)) => Some(Author { id, username }),
        _ => None,
    }
}

/// The text member under `key` of the value at `path`.
pub open spec fn text_of(text: Seq<char>, path: Seq<Seq<char>>, key: Seq<char>) -> Option<Seq<char>> {
    text_at(text, path.push(key))
}

/// An optional text field holds what the member holds.
pub open spec fn same_text(o: Option<String>, t: Option<Seq<char>>) -> bool {
    o.is_some() == t.is_some() && (o.is_some() ==> o.unwrap()@ == t.unwrap())
}

/// The members that a `READY` body must have.
pub open spec fn ready_present(text: Seq<char>, p: Seq<Seq<char>>) -> bool {
    &&& text_of(text, p, "session_type"@).is_some()
    &&& text_of(text, p, "session_id"@).is_some()
    &&& text_of(text, p, "resume_gateway_url"@).is_some()
    &&& text_of(text, p.push("application"@), "id"@).is_some()
    &&& u64_at(text, p.push("application"@).push("flags"@)).is_some()
}

/// `r` holds the members of the `READY` body at `p`.
pub open spec fn ready_matches(r: ReadyData, text: Seq<char>, p: Seq<Seq<char>>) -> bool {
    &&& r.session_type@ == text_of(text, p, "session_type"@).unwrap()
    &&& r.session_id@ == text_of(text, p, "session_id"@).unwrap()
    &&& r.resume_gateway_url@ == text_of(text, p, "resume_gateway_url"@).unwrap()
    &&& r.application.id@ == text_of(text, p.push("application"@), "id"@).unwrap()
    &&& r.application.flags == u64_at(text, p.push("application"@).push("flags"@)).unwrap()
}

/// The members that a message body must have.
pub open spec fn message_present(text: Seq<char>, p: Seq<Seq<char>>) -> bool {
    &&& text_of(text, p, "content"@).is_some()
    &&& text_of(text, p, "channel_id"@).is_some()
    &&& text_of(text, p, "id"@).is_some()
    &&& text_of(text, p.push("author"@), "id"@).is_some()
    &&& text_of(text, p.push("author"@), "username"@).is_some()
}

/// `m` holds the members of the message body at `p`; missing flags read as
/// false and zero.
pub open spec fn message_matches(m: MessageData, text: Seq<char>, p: Seq<Seq<char>>) -> bool {
    &&& m.content@ == text_of(text, p, "content"@).unwrap()
    &&& m.channel_id@ == text_of(text, p, "channel_id"@).unwrap()
    &&& m.message_id@ == text_of(text, p, "id"@).unwrap()
    &&& m.author.id@ == text_of(text, p.push("author"@), "id"@).unwrap()
    &&& m.author.username@ == text_of(text, p.push("author"@), "username"@).unwrap()
    &&& same_text(m.guild_id, text_of(text, p, "guild_id"@))
    &&& same_text(m.timestamp, text_of(text, p, "timestamp"@))
    &&& same_text(m.edited_timestamp, text_of(text, p, "edited_timestamp"@))
    &&& m.tts == flag_or_false(bool_at(text, p.push("tts"@)))
    &&& m.pinned == flag_or_false(bool_at(text, p.push("pinned"@)))
    &&& m.mention_everyone == flag_or_false(bool_at(text, p.push("mention_everyone"@)))
    &&& m.flags == match u64_at(text, p.push("flags"@)) {
        Some(f) => f,
        None => 0,
    }
}

fn text_member(v: &Doc, key: &str) -> (r: Option<String>)
    ensures
        same_text(r, text_of(v.text(), v.path(), key@)),
{
    as_text(&member(v, key))
}

/// Decodes a `READY` body; `None` when a required member is missing.
pub fn decode_ready(d: &Doc) -> (r: Option<ReadyData>)
    ensures
        r.is_some() == ready_present(d.text(), d.path()),
        r matches Some(rd) ==> ready_matches(rd, d.text(), d.path()),
{
    let application = member(d, "application");
    ready_from_members(
        text_member(d, "session_type"),
        text_member(d, "session_id"),
        text_member(d, "resume_gateway_url"),
        text_member(&application, "id"),
        as_u64(&member(&application, "flags")),
    )
}

/// Decodes a message body, as the gateway and the REST API both send it;
/// `None` when a required member is missing.
pub fn decode_message(d: &Doc) -> (r: Option<MessageData>)
    ensures
        r.is_some() == message_present(d.text(), d.path()),
        r matches Some(m) ==> message_matches(m, d.text(), d.path()),
{
    let author = member(d, "author");
    message_from_members(
        text_member(d, "content"),
        text_member(d, "channel_id"),
        text_member(d, "id"),
        author_from_members(text_member(&author, "id"), text_member(&author, "username")),
        text_member(d, "guild_id"),
        text_member(d, "timestamp"),
        text_member(d, "edited_timestamp"),
        as_bool(&member(d, "tts")),
        as_bool(&member(d, "pinned")),
        as_bool(&member(d, "mention_everyone")),
        as_u64(&member(d, "flags")),
    )
}

/// The event decoded from the body at `p` under the name `name`: a `READY`
/// or `MESSAGE_CREATE` body with all its required members gives the event
/// holding them, one without gives nothing, and a name without a decoder
/// is kept in an `Unimplemented` event.
pub open spec fn decoded_as(
    name: Seq<char>,
    text: Seq<char>,
    p: Seq<Seq<char>>,
    event: Option<Event>,
) -> bool {
    match kind_of(name) {
        EventKind::Ready => if ready_present(text, p) {
            event matches Some(Event::Ready(rd)) && ready_matches(rd, text, p)
        } else {
            event.is_none()
        },
        EventKind::MessageCreate => if message_present(text, p) {
            event matches Some(Event::MessageCreate(m)) && message_matches(m, text, p)
        } else {
            event.is_none()
        },
        EventKind::Other => event matches Some(Event::Unimplemented(n)) && n@ == name,
    }
}

/// Decodes a dispatch body by its event name. Names without a decoder give
/// `Unimplemented`; a body that its decoder rejects gives `None`.
pub fn decode_event(name: &String, data: &Doc) -> (r: Option<Event>)
    ensures
        decoded_as(name@, data.text(), data.path(), r),
{
    match event_kind(name) {
        EventKind::Ready => match decode_ready(data) {
            Some(ready) => Some(Event::Ready(ready)),
            None => None,
        },
        EventKind::MessageCreate => match decode_message(data) {
            Some(message) => Some(Event::MessageCreate(message)),
            None => None,
        },
        EventKind::Other => Some(Event::Unimplemented(name.clone())),
    }
}

} // verus!
