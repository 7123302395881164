//! Processing of a list of paths, one after another, as a state machine: the
//! caller performs each action on the filesystem and hands back what came of
//! it. No outcome of one path stops the batch.

use vstd::prelude::*;
use crate::outcome::{
    after_read, after_write, read_step, write_outcome, IoFailure, Outcome, Step, WriteFailure,
};

verus! {

/// What the caller is to do next.
#[derive(Clone, Copy, Debug, PartialEq, Eq)]
pub enum Action {
    /// Read the mode and file type of the path at this index.
    Read(usize),
    /// Write this mode to the path at this index.
    Write(usize, u32),
    /// Every path has been processed.
    Finish,
}

/// What came of the last action.
#[derive(Clone, Copy, Debug, PartialEq, Eq)]
pub enum Event {
    /// The result of reading a path's mode.
    Read(Result<u32, IoFailure>),
    /// The result of writing a path's mode.
    Written(Result<(), WriteFailure>),
}

/// The abstract state of a batch: how many paths it has, the mode waiting to
/// be written to the current path, and the outcome of each path done so far.
/// The current path is the one after the last outcome.
pub struct BatchModel {
    pub total: nat,
    pub pending: Option<u32>,
    pub outcomes: Seq<Outcome>,
}

impl BatchModel {
    /// The state of a batch of `total` paths before any work.
    pub open spec fn initial(total: nat) -> BatchModel {
        BatchModel { total, pending: None, outcomes: Seq::empty() }
    }

    pub open spec fn wf(self) -> bool {
        &&& self.outcomes.len() <= self.total
        &&& self.pending is Some ==> self.outcomes.len() < self.total
    }

    /// The action that the batch asks for in this state.
    pub open spec fn action(self) -> Action {
        if self.outcomes.len() < self.total {
            match self.pending {
                None => Action::Read(self.outcomes.len() as usize),
                Some(m) => Action::Write(self.outcomes.len() as usize, m),
            }
        } else {
            Action::Finish
        }
    }

    /// The state after `ev`. An event that answers no action asked for
    /// changes nothing.
    pub open spec fn next(self, ev: Event) -> BatchModel {
        if self.outcomes.len() >= self.total {
            self
        } else {
            match (self.pending, ev) {
                (None, Event::Read(read)) => match read_step(read) {
                    Step::Done(o) => BatchModel { pending: None, outcomes: self.outcomes.push(o), ..self },
                    Step::Write(m) => BatchModel { pending: Some(m), ..self },
                },
                (Some(m), Event::Written(written)) => BatchModel {
                    pending: None,
                    outcomes: self.outcomes.push(write_outcome(m, written)),
                    ..self
                },
                _ => self,
            }
        }
    }
}

/// A batch of paths being normalised in order.
pub struct Batch {
    total: usize,
    pending: Option<u32>,
    outcomes: Vec<Outcome>,
}

impl View for Batch {
    type V = BatchModel;

    closed spec fn view(&self) -> BatchModel {
        BatchModel { total: self.total as nat, pending: self.pending, outcomes: self.outcomes@ }
    }
}

impl Batch {
    /// Holds of every batch that `new` and `handle` give out.
    pub open spec fn wf(self) -> bool {
        self@.wf()
    }

    /// Starts a batch of `total` paths.
    pub fn new(total: usize) -> (r: Batch)
        ensures
            r@ == BatchModel::initial(total as nat),
            r.wf(),
    {
        Batch { total, pending: None, outcomes: Vec::new() }
    }

    /// The action that the batch asks for now.
    pub fn next_action(&self) -> (r: Action)
        requires
            self.wf(),
        ensures
            r == self@.action(),
    {
        if self.outcomes.len() < self.total {
            match self.pending {
                None => Action::Read(self.outcomes.len()),
                Some(m) => Action::Write(self.outcomes.len(), m),
            }
        } else {
            Action::Finish
        }
    }

    /// Takes in what came of the last action and returns the next one.
    pub fn handle(&mut self, ev: Event) -> (r: Action)
        requires
            old(self).wf(),
        ensures
            final(self).wf(),
            final(self)@ == old(self)@.next(ev),
            r == final(self)@.action(),
    {
        if self.outcomes.len() < self.total {
            match (self.pending, ev) {
                (None, Event::Read(read)) => match after_read(read) {
                    Step::Done(o) => {
                        self.outcomes.push(o);
                    },
                    Step::Write(m) => {
                        self.pending = Some(m);
                    },
                },
                (Some(m), Event::Written(written)) => {
                    let o = after_write(m, written);
                    self.pending = None;
                    self.outcomes.push(o);
                },
                _ => {},
            }
        }
        self.next_action()
    }

    /// The outcome of each path done so far, in order.
    pub fn outcomes(&self) -> (r: &Vec<Outcome>)
        ensures
            r@ == self@.outcomes,
    {
        &self.outcomes
    }
}

} // verus!
