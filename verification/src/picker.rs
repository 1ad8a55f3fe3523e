//! The folder picker, seen from the loop that must not block.
//!
//! The dialog runs as a background task that ends with the folder the user
//! chose, or with nothing if the user closed the dialog. At most one dialog
//! is open at a time. The loop asks once per tick what has become of it.

use crate::task::{Task, TaskPhase};
use std::sync::mpsc::Receiver;
use vstd::prelude::*;

verus! {

/// What a tick found of the folder picker.
#[derive(Debug, Clone, PartialEq, Eq)]
pub enum PickEvent {
    /// No dialog is open.
    Idle,
    /// A dialog is open and has not answered.
    Pending,
    /// The dialog was closed without a choice.
    Cancelled,
    /// The user chose this folder.
    Chosen(String),
}

/// The event for what the dialog's task handed out: nothing yet, the
/// dialog's empty answer, or its choice.
pub open spec fn event_of(taken: Option<Option<String>>) -> PickEvent {
    match taken {
        None => PickEvent::Pending,
        Some(None) => PickEvent::Cancelled,
        Some(Some(folder)) => PickEvent::Chosen(folder),
    }
}

/// Reads the event off what the dialog's task handed out.
pub fn pick_event(taken: Option<Option<String>>) -> (event: PickEvent)
    ensures
        event == event_of(taken),
{
    match taken {
        None => PickEvent::Pending,
        Some(None) => PickEvent::Cancelled,
        Some(Some(folder)) => PickEvent::Chosen(folder),
    }
}

/// The folder picker's state: the task of the open dialog, if one is open.
pub struct FolderPicker {
    task: Option<Task<Option<String>>>,
}

impl FolderPicker {
    /// Whether a dialog is open.
    pub closed spec fn in_flight(&self) -> bool {
        self.task is Some
    }

    /// Where the open dialog's task stands.
    pub closed spec fn phase(&self) -> TaskPhase
        recommends
            self.in_flight(),
    {
        self.task->0.phase()
    }

    /// The channel that the open dialog answers through.
    pub closed spec fn answer_channel(&self) -> Receiver<Option<String>>
        recommends
            self.in_flight(),
    {
        self.task->0.channel()
    }

    /// A picker with no dialog open.
    pub fn new() -> (picker: Self)
        ensures
            !picker.in_flight(),
    {
        FolderPicker { task: None }
    }

    /// Whether a dialog is open.
    pub fn is_busy(&self) -> (busy: bool)
        ensures
            busy == self.in_flight(),
    {
        self.task.is_some()
    }

    /// Whether a click on the picker's button opens a dialog: it does
    /// unless one is open already.
    pub fn should_open(&self, clicked: bool) -> (open: bool)
        ensures
            open == (clicked && !self.in_flight()),
    {
        clicked && self.task.is_none()
    }

    /// Records that a dialog was opened whose answer will come through
    /// `answer`.
    pub fn begin(&mut self, answer: Receiver<Option<String>>)
        requires
            !old(self).in_flight(),
        ensures
            final(self).in_flight(),
            final(self).phase() == TaskPhase::Waiting,
            final(self).answer_channel() == answer,
    {
        self.task = Some(Task::from_receiver(answer));
    }

    /// Asks what has become of the dialog, without waiting.
    ///
    /// With no dialog open the answer is `Idle`. With one open it is
    /// `Pending` until the dialog answers; the tick that finds the answer
    /// reports it, as `Chosen` or `Cancelled`, and the picker is free again.
    /// A dialog that dies without an answer stays `Pending`.
    pub fn poll(&mut self) -> (event: PickEvent)
        ensures
            !old(self).in_flight() ==> event == PickEvent::Idle && !final(self).in_flight(),
            old(self).in_flight() ==> event != PickEvent::Idle,
            old(self).in_flight() ==> (final(self).in_flight() <==> event == PickEvent::Pending),
            old(self).in_flight() && old(self).phase() != TaskPhase::Waiting ==> event
                == PickEvent::Pending,
            (event is Chosen || event is Cancelled) ==> old(self).in_flight() && old(self).phase()
                == TaskPhase::Waiting,
            final(self).in_flight() ==> {
                &&& final(self).answer_channel() == old(self).answer_channel()
                &&& Task::<Option<String>>::poll_outcome(
                    old(self).phase(),
                    final(self).phase(),
                    None,
                )
            },
    {
        let taken = match &mut self.task {
            Some(task) => task.try_take(),
            None => {
                return PickEvent::Idle;
            },
        };
        if taken.is_some() {
            self.task = None;
        }
        pick_event(taken)
    }
}

} // verus!
