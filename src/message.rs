use vstd::prelude::*;

verus! {

/// Mathematical model of a message: its text and its importance flag,
/// where `None` (flag not given) stays distinct from `Some(false)`.
pub type MessageModel = (Seq<char>, Option<bool>);

/// A message as submitted through the form: required text and an
/// optional importance flag.
#[derive(Debug, Clone)]
pub struct Message {
    pub message: String,
    pub important: Option<bool>,
}

impl View for Message {
    type V = MessageModel;

    open spec fn view(&self) -> MessageModel {
        (self.message@, self.important)
    }
}

/// Why a submission was turned away.
#[derive(Debug, Clone, Copy, PartialEq, Eq, Structural)]
pub enum SubmitError {
    /// The required `message` field was empty.
    EmptyMessage,
}

/// A submission is accepted when its text is not empty.
pub open spec fn valid_submission(text: Seq<char>) -> bool {
    text.len() > 0
}

impl Message {
    /// Builds a message from submitted form fields, rejecting an empty text.
    pub fn from_form(message: &str, important: Option<bool>) -> (r: Result<Message, SubmitError>)
        ensures
            valid_submission(message@) ==> (r matches Ok(m) && m@ == (message@, important)),
            !valid_submission(message@) ==> r == Err::<Message, SubmitError>(
                SubmitError::EmptyMessage,
            ),
    {
        if message.unicode_len() == 0 {
            Err(SubmitError::EmptyMessage)
        } else {
            Ok(Message { message: String::from_str(message), important })
        }
    }
}

/// The leading character that records the importance flag in an entry.
pub open spec fn flag_char(important: Option<bool>) -> char {
    match important {
        Some(true) => 't',
        Some(false) => 'f',
        None => 'n',
    }
}

/// Canonical text encoding of a message: one flag character, then the text.
pub open spec fn encode_spec(m: MessageModel) -> Seq<char> {
    seq![flag_char(m.1)] + m.0
}

/// Reading an entry back; `None` for text that no message encodes to.
pub open spec fn decode_spec(s: Seq<char>) -> Option<MessageModel> {
    if s.len() == 0 {
        None
    } else if s[0] == 't' {
        Some((s.drop_first(), Some(true)))
    } else if s[0] == 'f' {
        Some((s.drop_first(), Some(false)))
    } else if s[0] == 'n' {
        Some((s.drop_first(), None))
    } else {
        None
    }
}

/// An entry that could not be read back as a message.
#[derive(Debug, Clone, Copy, PartialEq, Eq, Structural)]
pub struct DecodeError;

/// Decoding the encoding of any message gives that message back.
pub proof fn lemma_entry_round_trip(m: MessageModel)
    ensures
        decode_spec(encode_spec(m)) == Some(m),
{
    let s = encode_spec(m);
    assert(s.drop_first() =~= m.0);
}

/// Encodes a message to its canonical entry text.
pub fn encode_entry(m: &Message) -> (r: String)
    ensures
        r@ == encode_spec(m@),
{
    let mut r = match m.important {
        Some(true) => String::from_str("t"),
        Some(false) => String::from_str("f"),
        None => String::from_str("n"),
    };
    proof {
        reveal_strlit("t");
        reveal_strlit("f");
        reveal_strlit("n");
        assert(r@ =~= seq![flag_char(m.important)]);
    }
    r.append(m.message.as_str());
    r
}

/// Decodes an entry text back into a message.
pub fn decode_entry(s: &str) -> (r: Result<Message, DecodeError>)
    ensures
        match decode_spec(s@) {
            Some(m) => r matches Ok(x) && x@ == m,
            None => r is Err,
        },
{
    let n = s.unicode_len();
    if n == 0 {
        return Err(DecodeError);
    }
    let c = s.get_char(0);
    let important = if c == 't' {
        Some(true)
    } else if c == 'f' {
        Some(false)
    } else if c == 'n' {
        None
    } else {
        return Err(DecodeError);
    };
    let rest = s.substring_char(1, n);
    assert(rest@ =~= s@.drop_first());
    Ok(Message { message: String::from_str(rest), important })
}

} // verus!
