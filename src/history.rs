use vstd::prelude::*;
use crate::message::{Message, Role};

verus! {

/// The most messages the buffer holds once trimmed: the instruction and
/// twenty user/assistant pairs.
pub const MAX_MESSAGES: usize = 41;

/// How many of the latest messages a trim keeps after the instruction.
pub const KEPT_RECENT: usize = 20;

/// A well-formed buffer: the instruction first, and no other instruction.
pub open spec fn history_wf(h: Seq<(Role, Seq<char>)>) -> bool {
    &&& h.len() >= 1
    &&& h[0].0 == Role::System
    &&& forall|i: int| 1 <= i < h.len() ==> (#[trigger] h[i]).0 != Role::System
}

/// The buffer after a trim: past the bound, the instruction followed by the
/// latest `KEPT_RECENT` messages; otherwise unchanged.
pub open spec fn trimmed(h: Seq<(Role, Seq<char>)>) -> Seq<(Role, Seq<char>)> {
    if h.len() > MAX_MESSAGES {
        seq![h[0]] + h.subrange(h.len() - KEPT_RECENT, h.len() as int)
    } else {
        h
    }
}

/// The buffer after each message of `ms` was appended, with a trim after each.
pub open spec fn replay(h: Seq<(Role, Seq<char>)>, ms: Seq<(Role, Seq<char>)>) -> Seq<
    (Role, Seq<char>),
>
    decreases ms.len(),
{
    if ms.len() == 0 {
        h
    } else {
        replay(trimmed(h.push(ms[0])), ms.drop_first())
    }
}

/// The ordered messages of one conversation, led by its instruction.
pub struct Conversation {
    messages: Vec<Message>,
}

impl View for Conversation {
    type V = Seq<(Role, Seq<char>)>;

    closed spec fn view(&self) -> Seq<(Role, Seq<char>)> {
        self.messages@.map_values(|m: Message| m@)
    }
}

impl Conversation {
    pub open spec fn wf(&self) -> bool {
        history_wf(self@)
    }

    /// A conversation that holds only its instruction.
    pub fn new(instruction: &str) -> (r: Conversation)
        ensures
            r@ == seq![(Role::System, instruction@)],
            r.wf(),
    {
        let mut messages: Vec<Message> = Vec::new();
        messages.push(Message::system(instruction));
        let r = Conversation { messages };
        assert(r@ =~= seq![(Role::System, instruction@)]);
        r
    }

    /// Appends a message at the end.
    pub fn append(&mut self, role: Role, content: &str)
        requires
            old(self).wf(),
            role != Role::System,
        ensures
            final(self)@ == old(self)@.push((role, content@)),
            final(self).wf(),
    {
        self.messages.push(Message::new(role, content));
        assert(self@ =~= old(self)@.push((role, content@)));
    }

    /// Bounds the buffer: past `MAX_MESSAGES`, drops the oldest messages
    /// after the instruction so that the latest `KEPT_RECENT` remain.
    pub fn trim(&mut self)
        requires
            old(self).wf(),
        ensures
            final(self)@ == trimmed(old(self)@),
            final(self).wf(),
            final(self)@.len() <= MAX_MESSAGES,
    {
        let n = self.messages.len();
        if n > MAX_MESSAGES {
            let mut recent = self.messages.split_off(n - KEPT_RECENT);
            self.messages.truncate(1);
            self.messages.append(&mut recent);
            assert(self@ =~= trimmed(old(self)@));
        }
        proof {
            lemma_history_invariant(old(self)@);
        }
    }

    /// The messages, oldest first.
    pub fn messages(&self) -> (r: &Vec<Message>)
        ensures
            r@.map_values(|m: Message| m@) == self@,
    {
        &self.messages
    }

    /// How many messages the buffer holds.
    pub fn len(&self) -> (r: usize)
        ensures
            r == self@.len(),
    {
        self.messages.len()
    }
}

/// A trim keeps a well-formed buffer well formed, with its instruction in
/// front, and never leaves more than `MAX_MESSAGES` messages; an append of a
/// message that is no instruction keeps it well formed too.
pub proof fn lemma_history_invariant(h: Seq<(Role, Seq<char>)>)
    requires
        history_wf(h),
    ensures
        history_wf(trimmed(h)),
        trimmed(h)[0] == h[0],
        trimmed(h).len() <= MAX_MESSAGES,
        forall|m: (Role, Seq<char>)| m.0 != Role::System ==> #[trigger] history_wf(h.push(m)),
{
    if h.len() > MAX_MESSAGES {
        let t = trimmed(h);
        assert forall|i: int| 1 <= i < t.len() implies (#[trigger] t[i]).0 != Role::System by {
            assert(t[i] == h[h.len() - KEPT_RECENT + i - 1]);
        }
    }
    assert forall|m: (Role, Seq<char>)| m.0 != Role::System implies #[trigger] history_wf(
        h.push(m),
    ) by {
        let p = h.push(m);
        assert forall|i: int| 1 <= i < p.len() implies (#[trigger] p[i]).0 != Role::System by {
            if i < h.len() {
                assert(p[i] == h[i]);
            }
        }
    }
}

/// After any run of appends, each followed by a trim, the buffer is still well
/// formed, still starts with the same instruction, and holds at most
/// `MAX_MESSAGES` messages.
pub proof fn lemma_replay_invariant(h: Seq<(Role, Seq<char>)>, ms: Seq<(Role, Seq<char>)>)
    requires
        history_wf(h),
        h.len() <= MAX_MESSAGES,
        forall|i: int| 0 <= i < ms.len() ==> (#[trigger] ms[i]).0 != Role::System,
    ensures
        history_wf(replay(h, ms)),
        replay(h, ms)[0] == h[0],
        replay(h, ms).len() <= MAX_MESSAGES,
    decreases ms.len(),
{
    if ms.len() > 0 {
        lemma_history_invariant(h);
        let p = h.push(ms[0]);
        assert(history_wf(p));
        lemma_history_invariant(p);
        assert(p[0] == h[0]);
        assert forall|i: int| 0 <= i < ms.drop_first().len() implies (
        #[trigger] ms.drop_first()[i]).0 != Role::System by {
            assert(ms.drop_first()[i] == ms[i + 1]);
        }
        lemma_replay_invariant(trimmed(p), ms.drop_first());
    }
}

/// A trim of an over-long buffer leaves exactly the instruction and the
/// latest `KEPT_RECENT` messages, in the order they had.
pub proof fn lemma_trim_keeps_recent(h: Seq<(Role, Seq<char>)>)
    requires
        h.len() > MAX_MESSAGES,
    ensures
        trimmed(h).len() == KEPT_RECENT + 1,
        trimmed(h)[0] == h[0],
        forall|i: int|
            0 <= i < KEPT_RECENT ==> #[trigger] trimmed(h)[i + 1] == h[h.len() - KEPT_RECENT + i],
{
}

} // verus!
