//! The conversation buffer: role-tagged messages behind a fixed system
//! directive, with a running size kept within a character budget by pruning
//! the oldest exchanges.
use vstd::prelude::*;
use crate::chars::{sanitize, sanitized, alphanumeric};

verus! {

/// The usual budget of a conversation, in scalar values.
pub const CONTEXT_BUDGET: usize = 1000;

/// Who wrote a message.
#[derive(Clone, Copy, Debug, PartialEq, Eq, Structural)]
pub enum Role {
    System,
    User,
    Assistant,
}

impl Role {
    /// The role's name as inference engines expect it.
    pub fn as_str(&self) -> (s: &'static str)
        ensures
            *self == Role::System ==> s@ == "system"@,
            *self == Role::User ==> s@ == "user"@,
            *self == Role::Assistant ==> s@ == "assistant"@,
    {
        match self {
            Role::System => "system",
            Role::User => "user",
            Role::Assistant => "assistant",
        }
    }
}

/// One entry of the conversation.
#[derive(Debug)]
pub struct Message {
    pub role: Role,
    pub content: String,
}

/// The sum of the lengths, in scalar values, of the contents of `ms`.
pub open spec fn total_len(ms: Seq<Message>) -> nat
    decreases ms.len(),
{
    if ms.len() == 0 {
        0
    } else {
        total_len(ms.drop_last()) + ms.last().content@.len()
    }
}

/// `ms` after pruning to `budget`: while its total length exceeds the budget
/// and an exchange follows the first message, the two messages after the
/// first are dropped.
pub open spec fn pruned(ms: Seq<Message>, budget: nat) -> Seq<Message>
    decreases ms.len(),
{
    if total_len(ms) > budget && ms.len() >= 3 {
        pruned(seq![ms[0]] + ms.subrange(3, ms.len() as int), budget)
    } else {
        ms
    }
}

/// What a conversation holds.
pub struct ConversationView {
    pub messages: Seq<Message>,
    pub running_length: nat,
    pub budget: nat,
    pub directive: Seq<char>,
}

/// The ordered messages of one session, the first of which is the system
/// directive.
pub struct Conversation {
    messages: Vec<Message>,
    running_length: usize,
    budget: usize,
    directive: Ghost<Seq<char>>,
}

impl View for Conversation {
    type V = ConversationView;

    closed spec fn view(&self) -> ConversationView {
        ConversationView {
            messages: self.messages@,
            running_length: self.running_length as nat,
            budget: self.budget as nat,
            directive: self.directive@,
        }
    }
}

proof fn lemma_total_len_append(a: Seq<Message>, b: Seq<Message>)
    ensures
        total_len(a + b) == total_len(a) + total_len(b),
    decreases b.len(),
{
    if b.len() > 0 {
        assert((a + b).drop_last() =~= a + b.drop_last());
        lemma_total_len_append(a, b.drop_last());
    }
}

/// Pruning messages that follow the first one in whole exchanges keeps the
/// first message and drops whole exchanges from the front only; afterwards the
/// total length is within the budget, or the first message is all that is left.
pub proof fn lemma_pruning_keeps_exchanges(ms: Seq<Message>, budget: nat)
    requires
        ms.len() % 2 == 1,
    ensures
        total_len(pruned(ms, budget)) <= budget || pruned(ms, budget).len() == 1,
        exists|k: int|
            0 <= k && 2 * k + 1 <= ms.len() && pruned(ms, budget) == seq![ms[0]]
                + #[trigger] ms.subrange(2 * k + 1, ms.len() as int),
    decreases ms.len(),
{
    if total_len(ms) > budget && ms.len() >= 3 {
        let next = seq![ms[0]] + ms.subrange(3, ms.len() as int);
        lemma_pruning_keeps_exchanges(next, budget);
        let k = choose|k: int|
            0 <= k && 2 * k + 1 <= next.len() && pruned(next, budget) == seq![next[0]]
                + #[trigger] next.subrange(2 * k + 1, next.len() as int);
        assert(next.subrange(2 * k + 1, next.len() as int) =~= ms.subrange(
            2 * (k + 1) + 1,
            ms.len() as int,
        ));
        assert(pruned(ms, budget) == seq![ms[0]] + ms.subrange(
            2 * (k + 1) + 1,
            ms.len() as int,
        ));
    } else {
        assert(ms =~= seq![ms[0]] + ms.subrange(1, ms.len() as int));
        assert(pruned(ms, budget) == seq![ms[0]] + ms.subrange(2 * (0 as int) + 1, ms.len() as int));
    }
}

impl Conversation {
    /// The first message is the system directive, no other message is a system
    /// message, and the running length is the total length of the contents.
    pub open spec fn wf(&self) -> bool {
        let v = self@;
        &&& v.messages.len() >= 1
        &&& v.messages[0].role == Role::System
        &&& v.messages[0].content@ == v.directive
        &&& forall|i: int| 1 <= i < v.messages.len() ==> #[trigger] v.messages[i].role != Role::System
        &&& v.running_length == total_len(v.messages)
        &&& v.running_length <= usize::MAX
    }

    /// A conversation holding only the system directive, pruned to `budget`
    /// scalar values.
    pub fn new(directive: String, budget: usize) -> (c: Conversation)
        ensures
            c.wf(),
            c@.messages.len() == 1,
            c@.directive == directive@,
            c@.budget == budget,
    {
        let ghost d = directive@;
        let n = directive.as_str().unicode_len();
        let mut messages: Vec<Message> = Vec::new();
        messages.push(Message { role: Role::System, content: directive });
        assert(messages@.drop_last() =~= Seq::<Message>::empty());
        assert(total_len(Seq::<Message>::empty()) == 0);
        assert(total_len(messages@) == d.len());
        Conversation { messages, running_length: n, budget, directive: Ghost(d) }
    }

    /// Adds a user message holding `text`.
    pub fn append_user(&mut self, text: String)
        requires
            old(self).wf(),
            old(self)@.running_length + text@.len() <= usize::MAX,
        ensures
            final(self).wf(),
            final(self)@.messages == old(self)@.messages.push(
                Message { role: Role::User, content: text },
            ),
            final(self)@.running_length == old(self)@.running_length + text@.len(),
            final(self)@.budget == old(self)@.budget,
            final(self)@.directive == old(self)@.directive,
    {
        let n = text.as_str().unicode_len();
        let ghost before = self.messages@;
        self.messages.push(Message { role: Role::User, content: text });
        assert(self.messages@.drop_last() =~= before);
        self.running_length = self.running_length + n;
    }

    /// Adds an assistant message holding the alphanumeric scalar values of
    /// `raw`, and hands `raw` back unchanged for display.
    pub fn append_assistant(&mut self, raw: String) -> (shown: String)
        requires
            old(self).wf(),
            old(self)@.running_length + raw@.len() <= usize::MAX,
        ensures
            final(self).wf(),
            shown == raw,
            final(self)@.messages.len() == old(self)@.messages.len() + 1,
            final(self)@.messages.drop_last() == old(self)@.messages,
            final(self)@.messages.last().role == Role::Assistant,
            final(self)@.messages.last().content@ == sanitized(raw@),
            final(self)@.running_length == old(self)@.running_length + sanitized(raw@).len(),
            final(self)@.budget == old(self)@.budget,
            final(self)@.directive == old(self)@.directive,
    {
        let kept = sanitize(raw.as_str());
        proof {
            raw@.lemma_filter_len(|c: char| alphanumeric(c));
        }
        let n = kept.as_str().unicode_len();
        let ghost before = self.messages@;
        self.messages.push(Message { role: Role::Assistant, content: kept });
        assert(self.messages@.drop_last() =~= before);
        self.running_length = self.running_length + n;
        raw
    }

    /// Drops the oldest exchanges, two messages at a time right after the
    /// system directive, while the running length exceeds the budget. The
    /// budget stays exceeded when only the directive, or the directive and one
    /// message, are left.
    pub fn enforce_budget(&mut self)
        requires
            old(self).wf(),
        ensures
            final(self).wf(),
            final(self)@.messages == pruned(old(self)@.messages, old(self)@.budget),
            final(self)@.budget == old(self)@.budget,
            final(self)@.directive == old(self)@.directive,
    {
        while self.running_length > self.budget && self.messages.len() >= 3
            invariant
                self.wf(),
                self@.budget == old(self)@.budget,
                self@.directive == old(self)@.directive,
                pruned(self@.messages, self@.budget as nat) == pruned(
                    old(self)@.messages,
                    old(self)@.budget,
                ),
            decreases self@.messages.len(),
        {
            let ghost ms = self.messages@;
            let question = self.messages.remove(1);
            let answer = self.messages.remove(1);
            proof {
                let head = seq![ms[0]];
                let pair = seq![ms[1], ms[2]];
                let rest = ms.subrange(3, ms.len() as int);
                assert(ms =~= head + pair + rest);
                assert(self.messages@ =~= head + rest);
                lemma_total_len_append(head + pair, rest);
                lemma_total_len_append(head, pair);
                lemma_total_len_append(head, rest);
                assert(pair.drop_last() =~= seq![ms[1]]);
                assert(seq![ms[1]].drop_last() =~= Seq::<Message>::empty());
                assert(total_len(Seq::<Message>::empty()) == 0);
                assert(total_len(seq![ms[1]]) == ms[1].content@.len());
                assert(total_len(pair) == ms[1].content@.len() + ms[2].content@.len());
                assert forall|i: int| 1 <= i < self.messages@.len() implies #[trigger] self.messages@[i].role
                    != Role::System by {
                    assert(self.messages@[i] == ms[i + 2]);
                }
            }
            let q = question.content.as_str().unicode_len();
            let a = answer.content.as_str().unicode_len();
            self.running_length = self.running_length - q - a;
        }
    }

    /// The ordered messages, roles and contents, to hand to the inference engine.
    pub fn snapshot_for_request(&self) -> (r: Vec<Message>)
        ensures
            r@ == self@.messages,
    {
        let mut r: Vec<Message> = Vec::new();
        let mut i: usize = 0;
        while i < self.messages.len()
            invariant
                i <= self@.messages.len(),
                r@ == self@.messages.take(i as int),
            decreases self@.messages.len() - i,
        {
            let m = &self.messages[i];
            r.push(Message { role: m.role, content: m.content.clone() });
            i = i + 1;
            assert(r@ =~= self@.messages.take(i as int));
        }
        assert(self@.messages.take(self@.messages.len() as int) =~= self@.messages);
        r
    }

    /// The number of messages held, the system directive included.
    pub fn len(&self) -> (n: usize)
        ensures
            n == self@.messages.len(),
    {
        self.messages.len()
    }

    /// The total length, in scalar values, of the contents held.
    pub fn running_length(&self) -> (n: usize)
        ensures
            n == self@.running_length,
    {
        self.running_length
    }

    /// The budget that pruning keeps the running length within.
    pub fn budget(&self) -> (n: usize)
        ensures
            n == self@.budget,
    {
        self.budget
    }
}

} // verus!
