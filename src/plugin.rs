//! The decisions that the service takes as a plugin of the core system:
//! what to do with each message of the command stream, and which arm
//! status a toggle asks for.

use vstd::prelude::*;

verus! {

/// The arm status that a command asks the core system to take.
#[derive(Debug, Clone, Copy, PartialEq, Eq, Structural)]
pub enum ArmStatus {
    Unspecified,
    Armed,
    Disarmed,
}

/// A toggle asks for the status opposite to the current one.
pub fn toggled_arm_status(armed: bool) -> (r: ArmStatus)
    ensures
        r == if armed {
            ArmStatus::Disarmed
        } else {
            ArmStatus::Armed
        },
{
    if armed {
        ArmStatus::Disarmed
    } else {
        ArmStatus::Armed
    }
}

/// What the listener does with one message of the command stream.
#[derive(Debug, Clone, Copy, PartialEq, Eq, Structural)]
pub enum StreamStep {
    /// The service is already shutting down: stop listening.
    Stop,
    /// The message carries no command, or not a shutdown: wait for the next.
    Skip,
    /// The message is a shutdown command: signal the shutdown and go on.
    SignalShutdown,
}

/// The step for a message whose command has type `command_type` (none where
/// the message carries no command), given whether a shutdown is under way
/// and the type code of a shutdown command.
pub fn stream_step(shutting_down: bool, command_type: Option<i32>, shutdown_type: i32) -> (r:
    StreamStep)
    ensures
        shutting_down ==> r == StreamStep::Stop,
        !shutting_down && command_type == Some(shutdown_type) ==> r == StreamStep::SignalShutdown,
        !shutting_down && command_type != Some(shutdown_type) ==> r == StreamStep::Skip,
{
    if shutting_down {
        return StreamStep::Stop;
    }
    match command_type {
        Some(t) => if t == shutdown_type {
            StreamStep::SignalShutdown
        } else {
            StreamStep::Skip
        },
        None => StreamStep::Skip,
    }
}

} // verus!
