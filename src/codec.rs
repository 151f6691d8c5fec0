//! Decoding of raw text frames into envelopes.
use vstd::prelude::*;

use crate::jsonval::{as_text, as_u64, is_json, member, parse_document, text_at, u64_at, Doc};
use crate::opcode::{opcode_of, OpCode};

verus! {

/// One decoded gateway frame.
pub struct Envelope {
    pub op: OpCode,
    /// The sequence number; present exactly on dispatch frames.
    pub sequence: Option<u64>,
    /// The event name; present exactly on dispatch frames.
    pub event_type: Option<String>,
    /// The frame's `d` member, left undecoded.
    pub data: Doc,
    /// The frame text as it came in.
    pub raw: String,
}

impl Envelope {
    /// Sequence number and event name are there if and only if the frame is a dispatch.
    pub open spec fn well_formed(&self) -> bool {
        &&& (self.op == OpCode::Dispatch) == self.sequence.is_some()
        &&& (self.op == OpCode::Dispatch) == self.event_type.is_some()
    }

    /// This envelope is what the frame text `raw` holds: its operation code,
    /// and on a dispatch its sequence number and event name, are the frame's
    /// members, and `data` is the frame's `d` member.
    pub open spec fn decoded_from(&self, raw: Seq<char>) -> bool {
        &&& self.well_formed()
        &&& self.raw@ == raw
        &&& self.op == opcode_of(op_member(raw).unwrap())
        &&& self.data.text() == raw
        &&& self.data.path() == seq![key_d()]
        &&& self.op == OpCode::Dispatch ==> self.sequence == seq_member(raw)
            && self.event_type.unwrap()@ == type_member(raw).unwrap()
    }
}

pub open spec fn key_op() -> Seq<char> {
    seq!['o', 'p']
}

pub open spec fn key_s() -> Seq<char> {
    seq!['s']
}

pub open spec fn key_t() -> Seq<char> {
    seq!['t']
}

pub open spec fn key_d() -> Seq<char> {
    seq!['d']
}

/// The frame's operation code member, as an unsigned integer.
pub open spec fn op_member(raw: Seq<char>) -> Option<u64> {
    u64_at(raw, seq![key_op()])
}

/// The frame's sequence number member.
pub open spec fn seq_member(raw: Seq<char>) -> Option<u64> {
    u64_at(raw, seq![key_s()])
}

/// The frame's event name member.
pub open spec fn type_member(raw: Seq<char>) -> Option<Seq<char>> {
    text_at(raw, seq![key_t()])
}

/// Whether a frame text decodes to an envelope: it is JSON, and its members
/// make an envelope.
pub open spec fn frame_is_envelope(raw: Seq<char>) -> bool {
    is_json(raw) && fields_make_envelope(op_member(raw), seq_member(raw), type_member(raw).is_some())
}

/// Whether the members read from a frame make an envelope: an operation code
/// is there, and a dispatch carries both a sequence number and an event name.
pub open spec fn fields_make_envelope(op: Option<u64>, sequence: Option<u64>, has_type: bool) -> bool {
    &&& op.is_some()
    &&& op == Some(0u64) ==> sequence.is_some() && has_type
}

/// Builds an envelope from the members read from a frame; `None` when they are
/// structurally invalid. Members that only a dispatch may carry are dropped
/// from any other frame.
pub fn assemble(
    op: Option<u64>,
    sequence: Option<u64>,
    event_type: Option<String>,
    data: Doc,
    raw: String,
) -> (r: Option<Envelope>)
    ensures
        r.is_some() == fields_make_envelope(op, sequence, event_type.is_some()),
        r.is_some() ==> {
            let e = r.unwrap();
            &&& e.op == opcode_of(op.unwrap())
            &&& e.data == data
            &&& e.raw == raw
            &&& op.unwrap() == 0 ==> e.sequence == sequence && e.event_type == event_type
            &&& op.unwrap() != 0 ==> e.sequence.is_none() && e.event_type.is_none()
            &&& e.well_formed()
        },
{
    match op {
        None => None,
        Some(code) => {
            let kind = OpCode::from_code(code);
            if code == 0 {
                if sequence.is_some() && event_type.is_some() {
                    Some(Envelope { op: kind, sequence, event_type, data, raw })
                } else {
                    None
                }
            } else {
                Some(Envelope { op: kind, sequence: None, event_type: None, data, raw })
            }
        },
    }
}

/// Decodes one text frame. Malformed JSON or a structurally invalid
/// envelope gives `None`, never an error.
pub fn parse(raw: &str) -> (r: Option<Envelope>)
    ensures
        r.is_some() == frame_is_envelope(raw@),
        r matches Some(e) ==> e.decoded_from(raw@),
{
    match parse_document(raw) {
        None => None,
        Some(doc) => {
            proof {
                reveal_strlit("op");
                reveal_strlit("s");
                reveal_strlit("t");
                reveal_strlit("d");
                assert("op"@ == key_op());
                assert("s"@ == key_s());
                assert("t"@ == key_t());
                assert("d"@ == key_d());
                assert(Seq::<Seq<char>>::empty().push(key_op()) == seq![key_op()]);
                assert(Seq::<Seq<char>>::empty().push(key_s()) == seq![key_s()]);
                assert(Seq::<Seq<char>>::empty().push(key_t()) == seq![key_t()]);
                assert(Seq::<Seq<char>>::empty().push(key_d()) == seq![key_d()]);
            }
            let op = as_u64(&member(&doc, "op"));
            let sequence = as_u64(&member(&doc, "s"));
            let event_type = as_text(&member(&doc, "t"));
            let data = member(&doc, "d");
            assemble(op, sequence, event_type, data, raw.to_owned())
        },
    }
}

/// A decoded frame that is not a dispatch carries neither sequence number nor
/// event name.
pub proof fn lemma_non_dispatch_bare(e: Envelope)
    requires
        e.well_formed(),
        e.op != OpCode::Dispatch,
    ensures
        e.sequence.is_none(),
        e.event_type.is_none(),
{
}

} // verus!
