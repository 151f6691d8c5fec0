//! Text commands: argument coercion and the registry of commands by name.
use vstd::prelude::*;

use crate::models::{MessageData, ParamType, Value};

verus! {

/// The whitespace-separated words of a text, in order.
pub uninterp spec fn words_of(s: Seq<char>) -> Seq<Seq<char>>;

/// The integer that `str::parse::<isize>` reads from a text, if any.
pub uninterp spec fn isize_of(s: Seq<char>) -> Option<isize>;

/// Relies on `str::split_whitespace`: the words of the text, in order.
#[verifier::external_body]
pub(crate) fn split_words(s: &str) -> (r: Vec<String>)
    ensures
        r@.map_values(|w: String| w@) == words_of(s@),
{
    s.split_whitespace().map(|w| w.to_string()).collect()
}

/// Relies on `str::parse::<isize>`: the integer the text spells, if any.
#[verifier::external_body]
fn parse_isize(s: &str) -> (r: Option<isize>)
    ensures
        r == isize_of(s@),
{
    s.parse::<isize>().ok()
}

/// What `str::parse::<bool>` accepts: exactly `true` and `false`.
pub open spec fn bool_of(s: Seq<char>) -> Option<bool> {
    if s == seq!['t', 'r', 'u', 'e'] {
        Some(true)
    } else if s == seq!['f', 'a', 'l', 's', 'e'] {
        Some(false)
    } else {
        None
    }
}

/// Reads a boolean as `str::parse::<bool>` does: `true` or `false` only.
fn parse_bool(s: &String) -> (r: Option<bool>)
    ensures
        r == bool_of(s@),
{
    let yes = "true".to_owned();
    let no = "false".to_owned();
    proof {
        reveal_strlit("true");
        reveal_strlit("false");
        assert(yes@ == seq!['t', 'r', 'u', 'e']);
        assert(no@ == seq!['f', 'a', 'l', 's', 'e']);
    }
    if s.eq(&yes) {
        Some(true)
    } else if s.eq(&no) {
        Some(false)
    } else {
        None
    }
}

/// Why a command invocation was refused.
#[derive(Clone, Copy, Debug, PartialEq, Eq, Structural)]
pub enum ArgError {
    /// The number of words after the command name is not the number of parameters.
    CountMismatch { expected: usize, found: usize },
    /// The first word is not the command's name.
    NameMismatch,
    /// The argument at this position does not parse as its declared type.
    BadArgument { index: usize },
}

/// A command: its name, whether the name carries its own prefix, and the
/// types of its parameters. The handler it runs lives with the caller.
#[derive(Clone, Debug)]
pub struct Command {
    pub name: String,
    pub custom_prefix: bool,
    pub args: Vec<ParamType>,
}

/// Whether a word reads as a value of the given type.
pub open spec fn coercible(ty: ParamType, w: Seq<char>) -> bool {
    match ty {
        ParamType::String => true,
        ParamType::Int => isize_of(w).is_some(),
        ParamType::Bool => bool_of(w).is_some(),
    }
}

/// Whether `v` is the word `w` read as a value of type `ty`.
pub open spec fn coerced(v: Value, ty: ParamType, w: Seq<char>) -> bool {
    match ty {
        ParamType::String => v matches Value::String(s) && s@ == w,
        ParamType::Int => isize_of(w) matches Some(i) && v == Value::Int(i),
        ParamType::Bool => bool_of(w) matches Some(b) && v == Value::Bool(b),
    }
}

/// The number of words matches the name plus the declared parameters.
pub open spec fn count_ok(ws: Seq<Seq<char>>, types: Seq<ParamType>) -> bool {
    ws.len() >= 1 && ws.len() - 1 == types.len()
}

/// The position of the first argument that does not read as its type.
pub open spec fn first_bad(ws: Seq<Seq<char>>, types: Seq<ParamType>, k: int) -> bool {
    &&& 0 <= k < types.len()
    &&& !coercible(types[k], ws[k + 1])
    &&& forall|j: int| 0 <= j < k ==> coercible(#[trigger] types[j], ws[j + 1])
}

/// The outcome of reading a command's arguments: the word count is checked
/// first, then the name, then each argument in order.
pub open spec fn call_outcome(
    name: Seq<char>,
    types: Seq<ParamType>,
    ws: Seq<Seq<char>>,
    r: Result<Vec<Value>, ArgError>,
) -> bool {
    &&& (r matches Err(ArgError::CountMismatch { expected, found })) == !count_ok(ws, types)
    &&& r matches Err(ArgError::CountMismatch { expected, found }) ==> expected == types.len()
        && found as int == (if ws.len() == 0 { 0 } else { ws.len() - 1 })
    &&& (r == Err::<Vec<Value>, ArgError>(ArgError::NameMismatch)) == (count_ok(ws, types) && ws[0]
        != name)
    &&& forall|k: usize|
        (r == Err::<Vec<Value>, ArgError>(ArgError::BadArgument { index: k })) == (count_ok(ws, types)
            && ws[0] == name && first_bad(ws, types, k as int))
    &&& r.is_ok() == (count_ok(ws, types) && ws[0] == name && forall|j: int|
        0 <= j < types.len() ==> coercible(#[trigger] types[j], ws[j + 1]))
    &&& r matches Ok(vals) ==> vals@.len() == types.len() && forall|j: int|
        0 <= j < types.len() ==> coerced(#[trigger] vals@[j], types[j], ws[j + 1])
}

fn coerce(ty: ParamType, w: &String) -> (r: Option<Value>)
    ensures
        r.is_some() == coercible(ty, w@),
        r.is_some() ==> coerced(r.unwrap(), ty, w@),
{
    match ty {
        ParamType::String => Some(Value::String(w.clone())),
        ParamType::Int => match parse_isize(w.as_str()) {
            Some(i) => Some(Value::Int(i)),
            None => None,
        },
        ParamType::Bool => match parse_bool(w) {
            Some(b) => Some(Value::Bool(b)),
            None => None,
        },
    }
}

impl Command {
    /// Reads the arguments of this command from a message's content: the
    /// first word must be the command's name and the remaining words, one per
    /// declared parameter, are coerced in order.
    pub fn call(&self, data: &MessageData) -> (r: Result<Vec<Value>, ArgError>)
        ensures
            call_outcome(self.name@, self.args@, words_of(data.content@), r),
    {
        let words = split_words(data.content.as_str());
        self.call_words(&words)
    }

    /// Reads the arguments of this command from the words of a message.
    pub fn call_words(&self, words: &Vec<String>) -> (r: Result<Vec<Value>, ArgError>)
        ensures
            call_outcome(self.name@, self.args@, words@.map_values(|w: String| w@), r),
    {
        let ghost ws = words@.map_values(|w: String| w@);
        proof {
            assert forall|i: int| 0 <= i < words@.len() implies #[trigger] words@[i]@ == ws[i] by {}
        }
        if words.len() == 0 || words.len() - 1 != self.args.len() {
            let found: usize = if words.len() == 0 { 0 } else { words.len() - 1 };
            return Err(ArgError::CountMismatch { expected: self.args.len(), found });
        }
        if !words[0].eq(&self.name) {
            return Err(ArgError::NameMismatch);
        }
        let mut vals: Vec<Value> = Vec::new();
        let mut i: usize = 0;
        while i < self.args.len()
            invariant
                ws == words@.map_values(|w: String| w@),
                count_ok(ws, self.args@),
                ws[0] == self.name@,
                words@.len() == ws.len(),
                forall|j: int| 0 <= j < words@.len() ==> #[trigger] words@[j]@ == ws[j],
                0 <= i <= self.args@.len(),
                vals@.len() == i,
                forall|j: int| 0 <= j < i ==> coercible(#[trigger] self.args@[j], ws[j + 1]),
                forall|j: int|
                    0 <= j < i ==> coerced(#[trigger] vals@[j], self.args@[j], ws[j + 1]),
            decreases self.args@.len() - i,
        {
            match coerce(self.args[i], &words[i + 1]) {
                Some(v) => {
                    vals.push(v);
                },
                None => {
                    proof {
                        assert(first_bad(ws, self.args@, i as int));
                        assert forall|k: usize| first_bad(ws, self.args@, k as int) implies k == i by {
                            if k < i {
                                assert(coercible(self.args@[k as int], ws[k + 1]));
                            } else if k > i {
                                assert(coercible(self.args@[i as int], ws[i + 1]));
                            }
                        }
                    }
                    let r: Result<Vec<Value>, ArgError> = Err(ArgError::BadArgument { index: i });
                    proof {
                        assert forall|k: usize|
                            (r == Err::<Vec<Value>, ArgError>(ArgError::BadArgument { index: k }))
                                == (count_ok(ws, self.args@) && ws[0] == self.name@ && first_bad(
                                ws,
                                self.args@,
                                k as int,
                            )) by {}
                        assert(!coercible(self.args@[i as int], ws[i + 1]));
                    }
                    return r;
                },
            }
            i = i + 1;
        }
        proof {
            assert forall|k: usize| !first_bad(ws, self.args@, k as int) by {}
        }
        Ok(vals)
    }
}

} // verus!
