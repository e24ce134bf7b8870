//! The application controller: a state machine over the phases of the
//! editor that applies edit intents to the session and decides, by the
//! version guard, when a debounce timer starts a save.

use crate::writing::{created, Error, SaveRequest, SaveRequestView, Version, Writing, WritingView};
use vstd::prelude::*;

verus! {

/// The phases of the editor; exactly one is active.
#[derive(Debug)]
pub enum Kanso {
    /// No session yet; a load is in flight.
    Loading,
    /// No session yet; the name of a new file is being typed.
    Creating { filename: String },
    /// One session is open.
    Editing { writing: Writing },
    /// An I/O operation failed; nothing changes any more.
    Errored { error: Error },
}

/// An event handed to the controller.
#[derive(Debug)]
pub enum Message {
    /// The load finished, with the session or the error.
    Loaded(Result<Writing, Error>),
    /// The name of the new file now reads this.
    FilenameChanged(String),
    /// The name of the new file was confirmed.
    FilenameSubmitted,
    /// A printable character was typed.
    Write(char),
    /// Delete-backward was pressed.
    Amend,
    /// The debounce timer scheduled after the edit that reached this
    /// version fired.
    Save(Version),
    /// A save finished.
    Saved(Result<(), Error>),
}

/// What the controller asks its host to do next.
#[derive(Debug)]
pub enum Action {
    /// Nothing to do.
    Nothing,
    /// Schedule a debounce timer that hands back `Message::Save` with this
    /// version.
    Wait(Version),
    /// Write this snapshot, then hand back `Message::Saved`.
    Persist(SaveRequest),
}

/// The model of `Kanso`: the phase, with the session's model.
pub enum Phase {
    Loading,
    Creating(Seq<char>),
    Editing(WritingView),
    Errored(Error),
}

/// The model of `Message`.
pub enum MessageView {
    Loaded(Result<WritingView, Error>),
    FilenameChanged(Seq<char>),
    FilenameSubmitted,
    Write(char),
    Amend,
    Save(nat),
    Saved(Result<(), Error>),
}

/// The model of `Action`.
pub enum ActionView {
    Nothing,
    Wait(nat),
    Persist(SaveRequestView),
}

impl View for Kanso {
    type V = Phase;

    open spec fn view(&self) -> Phase {
        match self {
            Kanso::Loading => Phase::Loading,
            Kanso::Creating { filename } => Phase::Creating(filename@),
            Kanso::Editing { writing } => Phase::Editing(writing@),
            Kanso::Errored { error } => Phase::Errored(*error),
        }
    }
}

impl View for Message {
    type V = MessageView;

    open spec fn view(&self) -> MessageView {
        match self {
            Message::Loaded(Ok(w)) => MessageView::Loaded(Ok(w@)),
            Message::Loaded(Err(e)) => MessageView::Loaded(Err(*e)),
            Message::FilenameChanged(name) => MessageView::FilenameChanged(name@),
            Message::FilenameSubmitted => MessageView::FilenameSubmitted,
            Message::Write(c) => MessageView::Write(*c),
            Message::Amend => MessageView::Amend,
            Message::Save(v) => MessageView::Save(v.0 as nat),
            Message::Saved(r) => MessageView::Saved(*r),
        }
    }
}

impl View for Action {
    type V = ActionView;

    open spec fn view(&self) -> ActionView {
        match self {
            Action::Nothing => ActionView::Nothing,
            Action::Wait(v) => ActionView::Wait(v.0 as nat),
            Action::Persist(req) => ActionView::Persist(req@),
        }
    }
}

impl Phase {
    pub open spec fn wf(self) -> bool {
        match self {
            Phase::Editing(w) => w.wf(),
            _ => true,
        }
    }

    /// The controller can take `m` here: an edit intent needs room in the
    /// version counter.
    pub open spec fn ready_for(self, m: MessageView) -> bool {
        match (self, m) {
            (Phase::Editing(w), MessageView::Write(_)) => w.version < u64::MAX,
            (Phase::Editing(w), MessageView::Amend) => w.version < u64::MAX,
            _ => true,
        }
    }

    /// One transition: the next phase and the action it asks for.
    pub open spec fn step(self, m: MessageView) -> (Phase, ActionView) {
        match self {
            Phase::Loading => match m {
                MessageView::Loaded(Ok(w)) => (Phase::Editing(w), ActionView::Nothing),
                MessageView::Loaded(Err(e)) => (Phase::Errored(e), ActionView::Nothing),
                _ => (self, ActionView::Nothing),
            },
            Phase::Creating(name) => match m {
                MessageView::FilenameChanged(new_name) => (
                    Phase::Creating(new_name),
                    ActionView::Nothing,
                ),
                MessageView::FilenameSubmitted => (
                    Phase::Editing(created(name)),
                    ActionView::Wait(created(name).version),
                ),
                _ => (self, ActionView::Nothing),
            },
            Phase::Editing(w) => match m {
                MessageView::Write(c) => (
                    Phase::Editing(w.written(c)),
                    ActionView::Wait(w.version + 1),
                ),
                MessageView::Amend => (Phase::Editing(w.amended()), ActionView::Wait(w.version + 1)),
                MessageView::Save(v) => if w.is_dirty() && w.version == v {
                    (Phase::Editing(w.saved()), ActionView::Persist(w.snapshot()))
                } else {
                    (self, ActionView::Nothing)
                },
                MessageView::Saved(Err(e)) => (Phase::Errored(e), ActionView::Nothing),
                _ => (self, ActionView::Nothing),
            },
            Phase::Errored(_) => (self, ActionView::Nothing),
        }
    }
}

impl MessageView {
    /// An insert or delete intent.
    pub open spec fn is_edit(self) -> bool {
        self is Write || self is Amend
    }
}

impl Phase {
    /// The phase after a sequence of events, in order.
    pub open spec fn run(self, ms: Seq<MessageView>) -> Phase
        decreases ms.len(),
    {
        if ms.len() == 0 {
            self
        } else {
            self.run(ms.drop_last()).step(ms.last()).0
        }
    }
}

/// Debounce coalescing: when three edits arrive before any of their timers
/// fires, the timers of the first two start no save, and the timer of the
/// third starts the one save, of the buffer as the third edit left it.
pub proof fn lemma_debounce_coalesces(s: Phase, e1: MessageView, e2: MessageView, e3: MessageView)
    requires
        s is Editing,
        s.wf(),
        e1.is_edit(),
        e2.is_edit(),
        e3.is_edit(),
    ensures
        ({
            let v = s->Editing_0.version;
            let (s1, a1) = s.step(e1);
            let (s2, a2) = s1.step(e2);
            let (s3, a3) = s2.step(e3);
            let w3 = s3->Editing_0;
            &&& a1 == ActionView::Wait(v + 1)
            &&& a2 == ActionView::Wait(v + 2)
            &&& a3 == ActionView::Wait(v + 3)
            &&& s3 is Editing
            &&& s3.step(MessageView::Save(v + 1)) == (s3, ActionView::Nothing)
            &&& s3.step(MessageView::Save(v + 2)) == (s3, ActionView::Nothing)
            &&& s3.step(MessageView::Save(v + 3)) == (
                Phase::Editing(w3.saved()),
                ActionView::Persist(w3.snapshot()),
            )
            &&& w3.snapshot().content == w3.content
        }),
{
}

/// Stale-timer safety: once an edit has moved the version past `v`, the
/// timer for `v` starts no save and changes nothing, and the timer of that
/// edit starts the save.
pub proof fn lemma_stale_timer_is_noop(s: Phase, e: MessageView)
    requires
        s is Editing,
        s.wf(),
        e.is_edit(),
    ensures
        ({
            let v = s->Editing_0.version;
            let (s1, a1) = s.step(e);
            let w1 = s1->Editing_0;
            &&& a1 == ActionView::Wait(v + 1)
            &&& s1 is Editing
            &&& s1.step(MessageView::Save(v)) == (s1, ActionView::Nothing)
            &&& s1.step(MessageView::Save(v + 1)) == (
                Phase::Editing(w1.saved()),
                ActionView::Persist(w1.snapshot()),
            )
        }),
{
}

/// A finished save never makes a session look clean: a session that had
/// edits after the save was started stays as it is.
pub proof fn lemma_completed_save_keeps_state(s: Phase)
    requires
        s is Editing,
    ensures
        s.step(MessageView::Saved(Ok(()))) == (s, ActionView::Nothing),
{
}

/// Error terminality: once errored, no event changes the phase or asks for
/// any action, however many arrive.
pub proof fn lemma_errored_is_terminal(e: Error, ms: Seq<MessageView>)
    ensures
        forall|m: MessageView| #[trigger]
            Phase::Errored(e).step(m) == (Phase::Errored(e), ActionView::Nothing),
        Phase::Errored(e).run(ms) == Phase::Errored(e),
    decreases ms.len(),
{
    if ms.len() > 0 {
        lemma_errored_is_terminal(e, ms.drop_last());
    }
}

impl Message {
    /// A loaded session in the message is well formed.
    pub open spec fn wf(&self) -> bool {
        match self {
            Message::Loaded(Ok(w)) => w@.wf(),
            _ => true,
        }
    }
}

impl Kanso {
    /// Handles one event and returns the action the host is to perform.
    pub fn update(&mut self, message: Message) -> (r: Action)
        requires
            old(self)@.wf(),
            message.wf(),
            old(self)@.ready_for(message@),
        ensures
            (final(self)@, r@) == old(self)@.step(message@),
            final(self)@.wf(),
    {
        match message {
            Message::Loaded(result) => {
                if let Kanso::Loading = self {
                    match result {
                        Ok(writing) => {
                            *self = Kanso::Editing { writing };
                        },
                        Err(error) => {
                            *self = Kanso::Errored { error };
                        },
                    }
                }
                Action::Nothing
            },
            Message::FilenameChanged(name) => {
                if let Kanso::Creating { .. } = self {
                    *self = Kanso::Creating { filename: name };
                }
                Action::Nothing
            },
            Message::FilenameSubmitted => {
                if let Kanso::Creating { filename } = self {
                    let writing = Writing::create(filename.clone());
                    let version = writing.version();
                    *self = Kanso::Editing { writing };
                    Action::Wait(version)
                } else {
                    Action::Nothing
                }
            },
            Message::Write(character) => {
                if let Kanso::Editing { writing } = self {
                    writing.write(character);
                    Action::Wait(writing.version())
                } else {
                    Action::Nothing
                }
            },
            Message::Amend => {
                if let Kanso::Editing { writing } = self {
                    writing.amend();
                    Action::Wait(writing.version())
                } else {
                    Action::Nothing
                }
            },
            Message::Save(version) => {
                if let Kanso::Editing { writing } = self {
                    if writing.is_dirty() && writing.version().0 == version.0 {
                        Action::Persist(writing.save())
                    } else {
                        Action::Nothing
                    }
                } else {
                    Action::Nothing
                }
            },
            Message::Saved(Ok(())) => Action::Nothing,
            Message::Saved(Err(error)) => {
                if let Kanso::Editing { .. } = self {
                    *self = Kanso::Errored { error };
                }
                Action::Nothing
            },
        }
    }
}

} // verus!
