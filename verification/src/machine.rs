//! The control state of a running tank program: between steps it is either
//! ready to run or waiting for the simulator to carry out an upcall.
use vstd::prelude::*;

use crate::upcall::{Reply, Upcall};
use crate::value::{RuntimeValue, ValueType};

verus! {

/// Whether the program can simply be resumed, or is suspended on an upcall
/// whose answer it expects when resumed.
#[derive(Clone, Debug, PartialEq)]
pub enum VMState {
    Ready,
    Waiting(Upcall),
}

/// How a stretch of execution of the program ended.
#[derive(Clone, Debug, PartialEq)]
pub enum RunOutcome {
    /// The instruction budget of the stretch was used up.
    OutOfInstructions,
    /// The program called an upcall and is suspended on it.
    Host(Upcall),
    /// The program trapped for another reason.
    Trapped,
    /// The program returned from its entry point, or could not be resumed.
    Finished,
}

/// The type of the value a program receives when it is resumed after
/// upcall `uc`: the answers to `Scan`, `GPSX`, `GPSY` and `Temp`; nothing
/// for every other upcall.
pub open spec fn answer_type(uc: Upcall) -> Option<ValueType> {
    match uc {
        Upcall::Scan(_, _) => Some(ValueType::I64),
        Upcall::GPSX => Some(ValueType::F32),
        Upcall::GPSY => Some(ValueType::F32),
        Upcall::Temp => Some(ValueType::I32),
        _ => None,
    }
}

/// `reply` is an answer of the kind that upcall `uc` asks for; any reply
/// will do for an upcall that asks for nothing.
pub open spec fn reply_fits(uc: Upcall, reply: Option<Reply>) -> bool {
    match uc {
        Upcall::Scan(_, _) => reply matches Some(Reply::ScanCount(_)),
        Upcall::GPSX | Upcall::GPSY => reply matches Some(Reply::Coordinate(_)),
        Upcall::Temp => reply matches Some(Reply::Temperature(_)),
        _ => true,
    }
}

impl VMState {
    /// The reply fits the upcall the program waits on, if any.
    pub open spec fn accepts(self, reply: Option<Reply>) -> bool {
        match self {
            VMState::Ready => true,
            VMState::Waiting(uc) => reply_fits(uc, reply),
        }
    }

    /// The value handed to the program when it is resumed with `reply`: the
    /// answer to the query it waits on (a scan count with the same bits as
    /// an `i64`), nothing otherwise.
    pub open spec fn resume_value(self, reply: Option<Reply>) -> Option<RuntimeValue> {
        match self {
            VMState::Ready => None,
            VMState::Waiting(uc) => match (uc, reply) {
                (Upcall::Scan(_, _), Some(Reply::ScanCount(n))) => Some(RuntimeValue::I64(n as i64)),
                (Upcall::GPSX, Some(Reply::Coordinate(x))) => Some(RuntimeValue::F32(x)),
                (Upcall::GPSY, Some(Reply::Coordinate(y))) => Some(RuntimeValue::F32(y)),
                (Upcall::Temp, Some(Reply::Temperature(t))) => Some(RuntimeValue::I32(t)),
                _ => None,
            },
        }
    }

    /// The state of a program whose first stretch of execution ended with
    /// `outcome`: ready when it used up its budget, `None` (the program is
    /// rejected) when it ended in any other way before that.
    pub fn after_start(outcome: &RunOutcome) -> (r: Option<VMState>)
        ensures
            r == (if *outcome is OutOfInstructions {
                Some(VMState::Ready)
            } else {
                None
            }),
    {
        match outcome {
            RunOutcome::OutOfInstructions => Some(VMState::Ready),
            _ => None,
        }
    }

    /// Takes the value to resume the program with, given the simulator's
    /// `reply` to the upcall it waits on; the program is then ready.
    pub fn take_resume_value(&mut self, reply: Option<Reply>) -> (v: Option<RuntimeValue>)
        requires
            old(self).accepts(reply),
        ensures
            v == old(self).resume_value(reply),
            *final(self) == VMState::Ready,
    {
        let v = match self {
            VMState::Ready => None,
            VMState::Waiting(uc) => match (uc, reply) {
                (Upcall::Scan(_, _), Some(Reply::ScanCount(n))) => Some(RuntimeValue::I64(n as i64)),
                (Upcall::GPSX, Some(Reply::Coordinate(x))) => Some(RuntimeValue::F32(x)),
                (Upcall::GPSY, Some(Reply::Coordinate(y))) => Some(RuntimeValue::F32(y)),
                (Upcall::Temp, Some(Reply::Temperature(t))) => Some(RuntimeValue::I32(t)),
                _ => None,
            },
        };
        *self = VMState::Ready;
        v
    }

    /// Records how a stretch of execution ended and returns the upcall for
    /// the simulator: nothing when the budget was used up, the program's
    /// request when it called an upcall (the program then waits on it), and
    /// `Explode` when it trapped otherwise or finished.
    pub fn settle(&mut self, outcome: RunOutcome) -> (uc: Upcall)
        ensures
            match outcome {
                RunOutcome::OutOfInstructions => uc == Upcall::Nothing && *final(self)
                    == VMState::Ready,
                RunOutcome::Host(u) => uc == u && *final(self) == VMState::Waiting(u),
                _ => uc == Upcall::Explode && *final(self) == VMState::Ready,
            },
    {
        match outcome {
            RunOutcome::OutOfInstructions => {
                *self = VMState::Ready;
                Upcall::Nothing
            },
            RunOutcome::Host(u) => {
                *self = VMState::Waiting(u.duplicate());
                u
            },
            _ => {
                *self = VMState::Ready;
                Upcall::Explode
            },
        }
    }
}

} // verus!
