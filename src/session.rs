//! The interaction state machine: it routes key events to the editor and
//! sequences one request/response cycle with the inference engine per turn.
//! The caller performs the engine call itself and hands the reply back.
use vstd::prelude::*;
use crate::chars::sanitized;
use crate::conversation::{
    Conversation, Message, Role, pruned, lemma_pruning_keeps_exchanges,
};
use crate::editor::{Editor, EditorView, inserted, deleted, moved_left, moved_right};

verus! {

/// What the session is doing.
#[derive(Clone, Copy, Debug, PartialEq, Eq, Structural)]
pub enum Mode {
    /// Display only; `e` starts editing and `q` quits.
    Browsing,
    /// Keys edit the input line.
    Editing,
    /// A request is being answered.
    Awaiting,
}

/// Who a transcript entry is shown as.
#[derive(Clone, Copy, Debug, PartialEq, Eq, Structural)]
pub enum Speaker {
    Me,
    Assistant,
    /// The blank label of the second and later lines of an entry.
    Continuation,
}

impl Speaker {
    /// The label shown before a line of this speaker.
    pub fn label(&self) -> (s: &'static str)
        ensures
            *self == Speaker::Me ==> s@ == "Me"@,
            *self == Speaker::Assistant ==> s@ == "QS"@,
            *self == Speaker::Continuation ==> s@ == "  "@,
    {
        match self {
            Speaker::Me => "Me",
            Speaker::Assistant => "QS",
            Speaker::Continuation => "  ",
        }
    }
}

/// A key press.
#[derive(Clone, Copy, Debug, PartialEq, Eq, Structural)]
pub enum Key {
    Char(char),
    Backspace,
    Left,
    Right,
    Enter,
    Esc,
    /// Any key that the session does not use.
    Other,
}

/// What the caller's loop does after a key.
#[derive(Clone, Copy, Debug, PartialEq, Eq, Structural)]
pub enum Control {
    Continue,
    Quit,
}

/// The inference engine's answer to one request.
#[derive(Debug)]
pub enum EngineReply {
    /// A completed result, with the content of its first choice, if any.
    Done(Option<String>),
    /// The request could not be sent, the reply channel closed, or the
    /// engine reported an error or a result that is not complete.
    Failed,
}

/// Why a turn could not be completed. Either is fatal to the session.
#[derive(Clone, Copy, Debug, PartialEq, Eq, Structural)]
pub enum TurnError {
    EngineFailure,
    MissingContent,
}

/// One entry of the display transcript.
#[derive(Debug)]
pub struct Entry {
    pub speaker: Speaker,
    pub text: String,
}

/// The mode that follows `mode` on `key`.
pub open spec fn next_mode(mode: Mode, key: Key) -> Mode {
    match mode {
        Mode::Browsing => if key == Key::Char('e') {
            Mode::Editing
        } else {
            Mode::Browsing
        },
        Mode::Editing => match key {
            Key::Esc => Mode::Browsing,
            Key::Enter => Mode::Awaiting,
            _ => Mode::Editing,
        },
        Mode::Awaiting => Mode::Awaiting,
    }
}

/// What `key` does to the editor while editing.
pub open spec fn edited(e: EditorView, key: Key) -> EditorView {
    match key {
        Key::Char(c) => inserted(e, c),
        Key::Backspace => deleted(e),
        Key::Left => moved_left(e),
        Key::Right => moved_right(e),
        _ => e,
    }
}

/// What a session holds.
pub struct SessionView {
    pub mode: Mode,
    pub conversation: Conversation,
    pub editor: Editor,
    pub transcript: Seq<Entry>,
    /// A request has been built and its reply not yet taken in.
    pub pending: bool,
}

/// The session: mode, conversation, input line and display transcript.
pub struct Session {
    mode: Mode,
    conversation: Conversation,
    editor: Editor,
    transcript: Vec<Entry>,
    pending: bool,
}

impl View for Session {
    type V = SessionView;

    closed spec fn view(&self) -> SessionView {
        SessionView {
            mode: self.mode,
            conversation: self.conversation,
            editor: self.editor,
            transcript: self.transcript@,
            pending: self.pending,
        }
    }
}

impl Session {
    /// The conversation and the editor are well formed, and the messages after
    /// the system directive are whole exchanges, followed by the user message
    /// of the pending request, if there is one.
    pub open spec fn wf(&self) -> bool {
        let v = self@;
        &&& v.conversation.wf()
        &&& v.editor.wf()
        &&& v.pending ==> v.mode == Mode::Awaiting
        &&& v.conversation@.messages.len() % 2 == if v.pending {
            0int
        } else {
            1int
        }
    }

    /// A session in browsing mode whose conversation holds only `directive`,
    /// pruned to `budget` scalar values.
    pub fn new(directive: String, budget: usize) -> (s: Session)
        ensures
            s.wf(),
            s@.mode == Mode::Browsing,
            s@.conversation@.messages.len() == 1,
            s@.conversation@.directive == directive@,
            s@.conversation@.budget == budget,
            s@.editor@.buffer.len() == 0,
            s@.transcript.len() == 0,
            !s@.pending,
    {
        Session {
            mode: Mode::Browsing,
            conversation: Conversation::new(directive, budget),
            editor: Editor::new(),
            transcript: Vec::new(),
            pending: false,
        }
    }

    /// Handles one key press: `e` and `q` in browsing mode, editing keys,
    /// `Esc` and `Enter` in editing mode; keys are ignored while awaiting.
    pub fn handle_key(&mut self, key: Key) -> (c: Control)
        requires
            old(self).wf(),
        ensures
            final(self).wf(),
            (c == Control::Quit) == (old(self)@.mode == Mode::Browsing && key == Key::Char('q')),
            final(self)@.mode == next_mode(old(self)@.mode, key),
            final(self)@.editor@ == if old(self)@.mode == Mode::Editing {
                edited(old(self)@.editor@, key)
            } else {
                old(self)@.editor@
            },
            final(self)@.conversation == old(self)@.conversation,
            final(self)@.transcript == old(self)@.transcript,
            final(self)@.pending == old(self)@.pending,
    {
        match self.mode {
            Mode::Browsing => {
                if key == Key::Char('e') {
                    self.mode = Mode::Editing;
                } else if key == Key::Char('q') {
                    return Control::Quit;
                }
            },
            Mode::Editing => {
                match key {
                    Key::Char(c) => self.editor.insert(c),
                    Key::Backspace => self.editor.delete_before_cursor(),
                    Key::Left => self.editor.move_left(),
                    Key::Right => self.editor.move_right(),
                    Key::Enter => self.mode = Mode::Awaiting,
                    Key::Esc => self.mode = Mode::Browsing,
                    Key::Other => {},
                }
            },
            Mode::Awaiting => {},
        }
        Control::Continue
    }

    /// Starts the turn: the input line becomes a user message and a transcript
    /// entry, and the full conversation is returned for the request.
    pub fn begin_turn(&mut self) -> (request: Vec<Message>)
        requires
            old(self).wf(),
            old(self)@.mode == Mode::Awaiting,
            !old(self)@.pending,
            old(self)@.conversation@.running_length + old(self)@.editor@.buffer.len() <= usize::MAX,
        ensures
            final(self).wf(),
            final(self)@.mode == Mode::Awaiting,
            final(self)@.pending,
            final(self)@.editor == old(self)@.editor,
            final(self)@.conversation@.messages.len() == old(self)@.conversation@.messages.len() + 1,
            final(self)@.conversation@.messages.drop_last() == old(self)@.conversation@.messages,
            final(self)@.conversation@.messages.last().role == Role::User,
            final(self)@.conversation@.messages.last().content@ == old(self)@.editor@.buffer,
            final(self)@.conversation@.budget == old(self)@.conversation@.budget,
            final(self)@.conversation@.directive == old(self)@.conversation@.directive,
            final(self)@.transcript.len() == old(self)@.transcript.len() + 1,
            final(self)@.transcript.drop_last() == old(self)@.transcript,
            final(self)@.transcript.last().speaker == Speaker::Me,
            final(self)@.transcript.last().text@ == old(self)@.editor@.buffer,
            request@ == final(self)@.conversation@.messages,
    {
        let text = self.editor.snapshot();
        let ghost before = self.transcript@;
        self.transcript.push(Entry { speaker: Speaker::Me, text: text.clone() });
        assert(self.transcript@.drop_last() =~= before);
        self.conversation.append_user(text);
        self.pending = true;
        self.conversation.snapshot_for_request()
    }

    /// Completes the pending turn with the engine's reply. With content, the
    /// literal text joins the transcript, its alphanumeric scalar values join
    /// the conversation, the conversation is pruned to its budget, the input
    /// line is cleared and editing resumes. A failure or a reply without
    /// content changes nothing and is reported.
    pub fn finish_turn(&mut self, reply: EngineReply) -> (r: Result<(), TurnError>)
        requires
            old(self).wf(),
            old(self)@.pending,
            reply matches EngineReply::Done(Some(t)) ==> old(self)@.conversation@.running_length
                + t@.len() <= usize::MAX,
        ensures
            final(self).wf(),
            final(self)@.conversation@.directive == old(self)@.conversation@.directive,
            final(self)@.conversation@.budget == old(self)@.conversation@.budget,
            reply is Failed ==> r == Err::<(), TurnError>(TurnError::EngineFailure) && final(self)@
                == old(self)@,
            reply == EngineReply::Done(None) ==> r == Err::<(), TurnError>(
                TurnError::MissingContent,
            ) && final(self)@ == old(self)@,
            reply matches EngineReply::Done(Some(t)) ==> {
                &&& r is Ok
                &&& final(self)@.mode == Mode::Editing
                &&& !final(self)@.pending
                &&& final(self)@.editor@.buffer.len() == 0
                &&& final(self)@.editor@.cursor == 0
                &&& final(self)@.transcript.len() == old(self)@.transcript.len() + 1
                &&& final(self)@.transcript.drop_last() == old(self)@.transcript
                &&& final(self)@.transcript.last().speaker == Speaker::Assistant
                &&& final(self)@.transcript.last().text == t
                &&& exists|m: Message|
                    m.role == Role::Assistant && m.content@ == sanitized(t@)
                        && final(self)@.conversation@.messages == pruned(
                        #[trigger] old(self)@.conversation@.messages.push(m),
                        old(self)@.conversation@.budget,
                    )
                &&& final(self)@.conversation@.running_length <= final(self)@.conversation@.budget
                    || final(self)@.conversation@.messages.len() == 1
            },
    {
        match reply {
            EngineReply::Failed => Err(TurnError::EngineFailure),
            EngineReply::Done(None) => Err(TurnError::MissingContent),
            EngineReply::Done(Some(text)) => {
                let ghost old_messages = self.conversation@.messages;
                let shown = self.conversation.append_assistant(text);
                let ghost m = self.conversation@.messages.last();
                assert(self.conversation@.messages =~= old_messages.push(m));
                let ghost before = self.transcript@;
                self.transcript.push(Entry { speaker: Speaker::Assistant, text: shown });
                assert(self.transcript@.drop_last() =~= before);
                proof {
                    lemma_pruning_keeps_exchanges(
                        self.conversation@.messages,
                        self.conversation@.budget,
                    );
                }
                self.conversation.enforce_budget();
                proof {
                    let ms = old_messages.push(m);
                    let k = choose|k: int|
                        0 <= k && 2 * k + 1 <= ms.len() && pruned(ms, self.conversation@.budget)
                            == seq![ms[0]] + #[trigger] ms.subrange(2 * k + 1, ms.len() as int);
                    assert(self.conversation@.messages.len() == 1 + ms.len() - (2 * k + 1));
                }
                self.editor.clear();
                self.mode = Mode::Editing;
                self.pending = false;
                Ok(())
            },
        }
    }

    /// The current mode.
    pub fn mode(&self) -> (m: Mode)
        ensures
            m == self@.mode,
    {
        self.mode
    }

    /// The input line.
    pub fn editor(&self) -> (e: &Editor)
        ensures
            *e == self@.editor,
    {
        &self.editor
    }

    /// The conversation as it will be sent with the next request.
    pub fn conversation(&self) -> (c: &Conversation)
        ensures
            *c == self@.conversation,
    {
        &self.conversation
    }

    /// The display transcript, oldest entry first.
    pub fn transcript(&self) -> (t: &Vec<Entry>)
        ensures
            t@ == self@.transcript,
    {
        &self.transcript
    }
}

} // verus!
