use vstd::prelude::*;
use crate::message::{Message, MessageModel};
use crate::stack::{StackReply, ReplyModel};

verus! {

/// Lower-case hexadecimal digit of `d`, for `d < 16`.
pub open spec fn hex_digit(d: u32) -> char {
    "0123456789abcdef"@[d as int]
}

/// How one character is written inside a JSON string.
pub open spec fn escape_char(c: char) -> Seq<char> {
    if c == '"' {
        seq!['\\', '"']
    } else if c == '\\' {
        seq!['\\', '\\']
    } else if c == '\n' {
        seq!['\\', 'n']
    } else if c == '\r' {
        seq!['\\', 'r']
    } else if c == '\t' {
        seq!['\\', 't']
    } else if c == '\x08' {
        seq!['\\', 'b']
    } else if c == '\x0c' {
        seq!['\\', 'f']
    } else if (c as u32) < 0x20 {
        seq!['\\', 'u', '0', '0', hex_digit((c as u32) / 16), hex_digit((c as u32) % 16)]
    } else {
        seq![c]
    }
}

/// The characters of `s`, each escaped for a JSON string.
pub open spec fn escape(s: Seq<char>) -> Seq<char>
    decreases s.len(),
{
    if s.len() == 0 {
        seq![]
    } else {
        escape(s.drop_last()) + escape_char(s.last())
    }
}

/// `s` as a quoted JSON string.
pub open spec fn json_string(s: Seq<char>) -> Seq<char> {
    seq!['"'] + escape(s) + seq!['"']
}

/// JSON for an optional flag.
pub open spec fn json_flag(b: Option<bool>) -> Seq<char> {
    match b {
        Some(true) => "true"@,
        Some(false) => "false"@,
        None => "null"@,
    }
}

/// JSON object of a message.
pub open spec fn message_json(m: MessageModel) -> Seq<char> {
    "{\"message\":"@ + json_string(m.0) + ",\"important\":"@ + json_flag(m.1) + "}"@
}

/// JSON object of a reply.
pub open spec fn reply_json(r: ReplyModel) -> Seq<char> {
    match r {
        ReplyModel::Pushed => "{\"status\":\"pushed onto stack\"}"@,
        ReplyModel::NoMoreMessages => "{\"status\":\"no more messages\"}"@,
        ReplyModel::DecodeFailed => "{\"status\":\"stored message could not be decoded\"}"@,
        ReplyModel::Popped(m) => message_json(m),
    }
}

/// Relies on std's `String::push`: appends one character.
#[verifier::external_body]
fn push_char(s: &mut String, c: char)
    ensures
        final(s)@ == old(s)@.push(c),
{
    s.push(c)
}

fn hex_digit_exec(d: u32) -> (r: char)
    requires
        d < 16,
    ensures
        r == hex_digit(d),
{
    let digits = "0123456789abcdef";
    proof {
        reveal_strlit("0123456789abcdef");
    }
    digits.get_char(d as usize)
}

/// Appends the JSON escape of `c` to `out`.
fn push_escaped(out: &mut String, c: char)
    ensures
        final(out)@ == old(out)@ + escape_char(c),
{
    let u = c as u32;
    if c == '"' {
        push_char(out, '\\');
        push_char(out, '"');
    } else if c == '\\' {
        push_char(out, '\\');
        push_char(out, '\\');
    } else if c == '\n' {
        push_char(out, '\\');
        push_char(out, 'n');
    } else if c == '\r' {
        push_char(out, '\\');
        push_char(out, 'r');
    } else if c == '\t' {
        push_char(out, '\\');
        push_char(out, 't');
    } else if c == '\x08' {
        push_char(out, '\\');
        push_char(out, 'b');
    } else if c == '\x0c' {
        push_char(out, '\\');
        push_char(out, 'f');
    } else if u < 0x20 {
        push_char(out, '\\');
        push_char(out, 'u');
        push_char(out, '0');
        push_char(out, '0');
        push_char(out, hex_digit_exec(u / 16));
        push_char(out, hex_digit_exec(u % 16));
    } else {
        push_char(out, c);
    }
    assert(out@ =~= old(out)@ + escape_char(c));
}

/// Appends `s` to `out` as a quoted JSON string.
pub fn push_json_string(out: &mut String, s: &str)
    ensures
        final(out)@ == old(out)@ + json_string(s@),
{
    push_char(out, '"');
    let ghost start = out@;
    for c in it: s.chars()
        invariant
            it.seq() == s@,
            out@ == start + escape(s@.take(it.index() as int)),
    {
        proof {
            let i = it.index() as int;
            assert(s@.take(i + 1).drop_last() =~= s@.take(i));
        }
        push_escaped(out, c);
    }
    assert(s@.take(s@.len() as int) =~= s@);
    push_char(out, '"');
    assert(out@ =~= old(out)@ + json_string(s@));
}

/// JSON object of a message, `{"message":...,"important":...}`.
pub fn message_to_json(m: &Message) -> (r: String)
    ensures
        r@ == message_json(m@),
{
    let mut r = String::from_str("{\"message\":");
    push_json_string(&mut r, m.message.as_str());
    r.append(",\"important\":");
    match m.important {
        Some(true) => r.append("true"),
        Some(false) => r.append("false"),
        None => r.append("null"),
    }
    r.append("}");
    proof {
        reveal_strlit("{\"message\":");
        reveal_strlit(",\"important\":");
        reveal_strlit("true");
        reveal_strlit("false");
        reveal_strlit("null");
        reveal_strlit("}");
        assert(r@ =~= message_json(m@));
    }
    r
}

impl StackReply {
    /// The JSON body that answers a push or a pop.
    pub fn to_json(&self) -> (r: String)
        ensures
            r@ == reply_json(self@),
    {
        match self {
            StackReply::Pushed => {
                let r = String::from_str("{\"status\":\"pushed onto stack\"}");
                r
            },
            StackReply::NoMoreMessages => {
                let r = String::from_str("{\"status\":\"no more messages\"}");
                r
            },
            StackReply::DecodeFailed => {
                let r = String::from_str("{\"status\":\"stored message could not be decoded\"}");
                r
            },
            StackReply::Popped(m) => message_to_json(m),
        }
    }
}

} // verus!
