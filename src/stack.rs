use vstd::prelude::*;
use crate::message::{
    Message,
    MessageModel,
    encode_spec,
    decode_spec,
    encode_entry,
    decode_entry,
    lemma_entry_round_trip,
};

verus! {

/// What a push or a pop answers with.
#[derive(Debug)]
pub enum StackReply {
    /// The message was stored on top of the stack.
    Pushed,
    /// A pop found the stack empty.
    NoMoreMessages,
    /// The popped entry could not be read back as a message.
    DecodeFailed,
    /// The message that was on top of the stack.
    Popped(Message),
}

/// Model of a reply, with the popped message seen through its view.
pub enum ReplyModel {
    Pushed,
    NoMoreMessages,
    DecodeFailed,
    Popped(MessageModel),
}

impl View for StackReply {
    type V = ReplyModel;

    open spec fn view(&self) -> ReplyModel {
        match self {
            StackReply::Pushed => ReplyModel::Pushed,
            StackReply::NoMoreMessages => ReplyModel::NoMoreMessages,
            StackReply::DecodeFailed => ReplyModel::DecodeFailed,
            StackReply::Popped(m) => ReplyModel::Popped(m@),
        }
    }
}

/// The reply that popping the entry `e` gives.
pub open spec fn pop_reply(e: Seq<char>) -> ReplyModel {
    match decode_spec(e) {
        Some(m) => ReplyModel::Popped(m),
        None => ReplyModel::DecodeFailed,
    }
}

/// The stack after pushing `m` onto `s`.
pub open spec fn push_model(s: Seq<Seq<char>>, m: MessageModel) -> Seq<Seq<char>> {
    s.push(encode_spec(m))
}

/// The stack after a pop from `s`, and the reply the pop gives.
pub open spec fn pop_model(s: Seq<Seq<char>>) -> (Seq<Seq<char>>, ReplyModel) {
    if s.len() == 0 {
        (s, ReplyModel::NoMoreMessages)
    } else {
        (s.drop_last(), pop_reply(s.last()))
    }
}

/// In-memory last-in first-out stack of encoded messages.
pub struct MessageStack {
    entries: Vec<String>,
}

impl View for MessageStack {
    type V = Seq<Seq<char>>;

    /// The encoded entries, bottom first.
    closed spec fn view(&self) -> Seq<Seq<char>> {
        self.entries@.map_values(|s: String| s@)
    }
}

impl MessageStack {
    /// Every entry reads back as a message.
    pub open spec fn wf(&self) -> bool {
        forall|i: int| 0 <= i < self@.len() ==> (#[trigger] decode_spec(self@[i])) is Some
    }

    /// An empty stack.
    pub fn new() -> (r: MessageStack)
        ensures
            r@ == Seq::<Seq<char>>::empty(),
            r.wf(),
    {
        let r = MessageStack { entries: Vec::new() };
        assert(r@ =~= Seq::<Seq<char>>::empty());
        r
    }

    /// Number of entries on the stack.
    pub fn len(&self) -> (r: usize)
        ensures
            r == self@.len(),
    {
        self.entries.len()
    }

    /// Encodes `m` and puts it on top of the stack.
    pub fn push(&mut self, m: &Message) -> (r: StackReply)
        ensures
            final(self)@ == push_model(old(self)@, m@),
            r@ == ReplyModel::Pushed,
            old(self).wf() ==> final(self).wf(),
    {
        let e = encode_entry(m);
        self.entries.push(e);
        proof {
            assert(self@ =~= old(self)@.push(encode_spec(m@)));
            lemma_entry_round_trip(m@);
        }
        StackReply::Pushed
    }

    /// Takes the top entry off the stack and reads it back as a message.
    pub fn pop(&mut self) -> (r: StackReply)
        ensures
            (final(self)@, r@) == pop_model(old(self)@),
            old(self).wf() ==> final(self).wf() && !(r@ is DecodeFailed),
    {
        match self.entries.pop() {
            None => StackReply::NoMoreMessages,
            Some(e) => {
                proof {
                    assert(self@ =~= old(self)@.drop_last());
                }
                match decode_entry(e.as_str()) {
                    Ok(m) => StackReply::Popped(m),
                    Err(_) => StackReply::DecodeFailed,
                }
            },
        }
    }
}

/// One operation on the stack, as a caller issues it.
pub enum StackOp {
    Push(MessageModel),
    Pop,
}

/// The stack after `op`.
pub open spec fn step(s: Seq<Seq<char>>, op: StackOp) -> Seq<Seq<char>> {
    match op {
        StackOp::Push(m) => push_model(s, m),
        StackOp::Pop => pop_model(s).0,
    }
}

/// The stack after the operations `ops`, applied one after another from `s`.
pub open spec fn run_ops(s: Seq<Seq<char>>, ops: Seq<StackOp>) -> Seq<Seq<char>>
    decreases ops.len(),
{
    if ops.len() == 0 {
        s
    } else {
        step(run_ops(s, ops.drop_last()), ops.last())
    }
}

/// Number of pushes among `ops`.
pub open spec fn count_pushes(ops: Seq<StackOp>) -> nat
    decreases ops.len(),
{
    if ops.len() == 0 {
        0
    } else {
        count_pushes(ops.drop_last()) + if ops.last() is Push {
            1nat
        } else {
            0nat
        }
    }
}

/// Number of pops among `ops`.
pub open spec fn count_pops(ops: Seq<StackOp>) -> nat
    decreases ops.len(),
{
    if ops.len() == 0 {
        0
    } else {
        count_pops(ops.drop_last()) + if ops.last() is Pop {
            1nat
        } else {
            0nat
        }
    }
}

/// No prefix of `ops` pops more often than it pushes.
pub open spec fn pops_covered(ops: Seq<StackOp>) -> bool {
    forall|k: int| 0 <= k <= ops.len() ==> count_pops(#[trigger] ops.take(k)) <= count_pushes(
        ops.take(k),
    )
}

/// Pushing `a` then `b` onto any stack, the first pop gives `b`, the second
/// `a`, and the stack is as before; on an empty stack a third pop answers
/// that there are no more messages.
pub proof fn lemma_lifo(s: Seq<Seq<char>>, a: MessageModel, b: MessageModel)
    ensures
        pop_model(push_model(push_model(s, a), b)).1 == ReplyModel::Popped(b),
        pop_model(pop_model(push_model(push_model(s, a), b)).0).1 == ReplyModel::Popped(a),
        pop_model(pop_model(push_model(push_model(s, a), b)).0).0 == s,
        s.len() == 0 ==> pop_model(pop_model(pop_model(push_model(push_model(s, a), b)).0).0).1
            == ReplyModel::NoMoreMessages,
{
    lemma_entry_round_trip(a);
    lemma_entry_round_trip(b);
    assert(push_model(push_model(s, a), b).drop_last() =~= push_model(s, a));
    assert(push_model(s, a).drop_last() =~= s);
}

/// A message pushed and then popped straight away comes back unchanged, and
/// the stack is as before.
pub proof fn lemma_push_pop_round_trip(s: Seq<Seq<char>>, m: MessageModel)
    ensures
        pop_model(push_model(s, m)) == (s, ReplyModel::Popped(m)),
{
    lemma_entry_round_trip(m);
    assert(push_model(s, m).drop_last() =~= s);
}

/// Starting from an empty stack, any sequence of pushes and pops in which no
/// prefix pops more than it pushes leaves as many entries as pushes minus pops.
pub proof fn lemma_interleaving_count(ops: Seq<StackOp>)
    requires
        pops_covered(ops),
    ensures
        run_ops(Seq::empty(), ops).len() == count_pushes(ops) - count_pops(ops),
        count_pops(ops) <= count_pushes(ops),
    decreases ops.len(),
{
    assert(ops.take(ops.len() as int) =~= ops);
    if ops.len() > 0 {
        let p = ops.drop_last();
        assert forall|k: int| 0 <= k <= p.len() implies count_pops(#[trigger] p.take(k))
            <= count_pushes(p.take(k)) by {
            assert(p.take(k) =~= ops.take(k));
        }
        lemma_interleaving_count(p);
    }
}

} // verus!
