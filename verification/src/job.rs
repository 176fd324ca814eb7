//! Hooks a job exposes to its tasks: idling, exiting, execution state and labels.

use std::marker::PhantomData;

use vstd::prelude::*;

verus! {

/// A zero-sized marker tagging an entity with a type.
pub struct Tag<T> {
    pub _phantom: PhantomData<T>,
}

impl<T> Tag<T> {
    pub fn new() -> (r: Tag<T>) {
        Tag { _phantom: PhantomData }
    }
}

/// Label of a task of a job.
#[derive(Copy, Clone, PartialEq, Eq, Debug, Hash)]
pub struct TaskLabel(pub &'static str);

/// Whether a job runs.
#[derive(Copy, Clone, PartialEq, Eq, Structural, Debug)]
pub enum ExecutionState {
    Active,
    Suspended,
}

impl ExecutionState {
    /// Whether this state is the suspended one.
    pub fn suspended(&self) -> (r: bool)
        ensures
            r == (*self == ExecutionState::Suspended),
    {
        match self {
            ExecutionState::Suspended => true,
            ExecutionState::Active => false,
        }
    }

    /// Whether this state is the active one.
    pub fn resumed(&self) -> (r: bool)
        ensures
            r == (*self == ExecutionState::Active),
    {
        match self {
            ExecutionState::Active => true,
            ExecutionState::Suspended => false,
        }
    }
}

/// Idle hook: set when the loop may wait for new events.
#[derive(Copy, Clone, PartialEq, Eq, Structural, Debug)]
pub struct Idle {
    pub can_idle: bool,
}

impl Idle {
    pub fn new() -> (r: Idle)
        ensures
            !r.can_idle,
    {
        Idle { can_idle: false }
    }
}

/// Run at the start of each loop: idling is allowed unless a task says otherwise.
pub fn attempt_to_idle(idle: &mut Idle)
    ensures
        final(idle).can_idle,
{
    idle.can_idle = true;
}

/// Exit hook: set when a task asks the application to exit.
#[derive(Copy, Clone, PartialEq, Eq, Structural, Debug)]
pub struct Exit {
    pub exit_requested: bool,
}

impl Exit {
    pub fn new() -> (r: Exit)
        ensures
            !r.exit_requested,
    {
        Exit { exit_requested: false }
    }

    pub fn request_exit(&mut self)
        ensures
            final(self).exit_requested,
    {
        self.exit_requested = true;
    }
}

/// Synchronisation point of a job's idle behaviour.
#[derive(Copy, Clone, PartialEq, Eq, Structural, Debug, Hash)]
pub enum JobSyncPoint {
    Idle,
}

} // verus!
