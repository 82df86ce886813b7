//! What the host does when a tank program imports or calls a host function.
use vstd::prelude::*;

use crate::calls::{BinaryOp, Configuration, HostCall, UnaryOp, UpcallId};
use crate::text::{c_string_text, read_c_string, scan_overruns_addresses};
use crate::upcall::Upcall;
use crate::value::{RuntimeValue, ValueType};

verus! {

/// Why a host call stops the program with a trap.
#[derive(Clone, Copy, Debug, PartialEq, Eq, Structural)]
pub enum TrapReason {
    /// No host call has the called id.
    TableAccessOutOfBounds,
    /// An argument is missing or has the wrong type.
    UnexpectedSignature,
}

/// What answering a host call amounts to.
#[derive(Clone, Debug, PartialEq)]
pub enum HostOutcome {
    /// The program stops with a trap.
    Trap(TrapReason),
    /// The program is suspended with a request to the simulator.
    Suspend(Upcall),
    /// The call returns this value.
    Return(RuntimeValue),
    /// The call returns the floating-point function `op` applied to the
    /// operand, computed by the caller.
    Unary(UnaryOp, RuntimeValue),
    /// The call returns the floating-point function `op` applied to the two
    /// operands, computed by the caller.
    Binary(BinaryOp, RuntimeValue, RuntimeValue),
}

/// Why an import cannot be resolved.
#[derive(Clone, Copy, Debug, PartialEq, Eq, Structural)]
pub enum ResolveError {
    /// No host call has the requested name.
    NotFound,
    /// The host call with the requested name has another signature.
    IncorrectSignature,
}

/// Argument `i`, or a trap when there are not that many arguments.
pub open spec fn arg(args: Seq<RuntimeValue>, i: int) -> Result<RuntimeValue, TrapReason> {
    if 0 <= i < args.len() {
        Ok(args[i])
    } else {
        Err(TrapReason::UnexpectedSignature)
    }
}

/// Argument `i` as an `i32`; a trap when it is missing or of another type.
pub open spec fn arg_i32(args: Seq<RuntimeValue>, i: int) -> Result<i32, TrapReason> {
    match arg(args, i) {
        Ok(RuntimeValue::I32(x)) => Ok(x),
        _ => Err(TrapReason::UnexpectedSignature),
    }
}

/// Argument `i` as an `i64`; a trap when it is missing or of another type.
pub open spec fn arg_i64(args: Seq<RuntimeValue>, i: int) -> Result<i64, TrapReason> {
    match arg(args, i) {
        Ok(RuntimeValue::I64(x)) => Ok(x),
        _ => Err(TrapReason::UnexpectedSignature),
    }
}

/// Argument `i` as the bits of an `f32`; a trap when it is missing or of
/// another type.
pub open spec fn arg_f32(args: Seq<RuntimeValue>, i: int) -> Result<u32, TrapReason> {
    match arg(args, i) {
        Ok(RuntimeValue::F32(x)) => Ok(x),
        _ => Err(TrapReason::UnexpectedSignature),
    }
}

/// Argument `i` as the bits of an `f64`; a trap when it is missing or of
/// another type.
pub open spec fn arg_f64(args: Seq<RuntimeValue>, i: int) -> Result<u64, TrapReason> {
    match arg(args, i) {
        Ok(RuntimeValue::F64(x)) => Ok(x),
        _ => Err(TrapReason::UnexpectedSignature),
    }
}

/// The request that upcall `u` makes with arguments `args`, or the trap it
/// raises. `PostString` also reads memory and is described by `yields`
/// instead; it has no meaningful entry here.
pub open spec fn upcall_request(u: UpcallId, args: Seq<RuntimeValue>) -> Result<Upcall, TrapReason> {
    match u {
        UpcallId::Scan => match (arg_f32(args, 0), arg_f32(args, 1)) {
            (Ok(a), Ok(b)) => Ok(Upcall::Scan(a, b)),
            _ => Err(TrapReason::UnexpectedSignature),
        },
        UpcallId::Fire => Ok(Upcall::Fire),
        UpcallId::Aim => match arg_f32(args, 0) {
            Ok(h) => Ok(Upcall::Aim(h)),
            Err(e) => Err(e),
        },
        UpcallId::Turn => match arg_f32(args, 0) {
            Ok(h) => Ok(Upcall::Turn(h)),
            Err(e) => Err(e),
        },
        UpcallId::GPSX => Ok(Upcall::GPSX),
        UpcallId::GPSY => Ok(Upcall::GPSY),
        UpcallId::Temp => Ok(Upcall::Temp),
        UpcallId::Forward => Ok(Upcall::Forward),
        UpcallId::Explode => Ok(Upcall::Explode),
        UpcallId::PostString => Err(TrapReason::UnexpectedSignature),
        UpcallId::PostI32 => match arg_i32(args, 0) {
            Ok(x) => Ok(Upcall::PostI32(x)),
            Err(e) => Err(e),
        },
        UpcallId::PostU32 => match arg_i32(args, 0) {
            Ok(x) => Ok(Upcall::PostU32(x as u32)),
            Err(e) => Err(e),
        },
        UpcallId::PostI64 => match arg_i64(args, 0) {
            Ok(x) => Ok(Upcall::PostI64(x)),
            Err(e) => Err(e),
        },
        UpcallId::PostU64 => match arg_i64(args, 0) {
            Ok(x) => Ok(Upcall::PostU64(x as u64)),
            Err(e) => Err(e),
        },
        UpcallId::PostF32 => match arg_f32(args, 0) {
            Ok(x) => Ok(Upcall::PostF32(x)),
            Err(e) => Err(e),
        },
        UpcallId::PostF64 => match arg_f64(args, 0) {
            Ok(x) => Ok(Upcall::PostF64(x)),
            Err(e) => Err(e),
        },
        UpcallId::Yield => Ok(Upcall::Nothing),
    }
}

/// `r` is what upcall `u` yields for arguments `args` and linear memory
/// `memory`: its request, or the trap it raises. `PostString` takes its
/// argument as the address of a NUL-terminated UTF-8 string and requests
/// `Explode` when no such string is there.
pub open spec fn yields(
    u: UpcallId,
    args: Seq<RuntimeValue>,
    memory: Seq<u8>,
    r: Result<Upcall, TrapReason>,
) -> bool {
    match u {
        UpcallId::PostString => match arg_i32(args, 0) {
            Err(e) => r == Err::<Upcall, TrapReason>(e),
            Ok(p) => match c_string_text(memory, p as u32 as int) {
                Some(t) => r matches Ok(Upcall::PostString(s)) && s@ == t,
                None => r == Ok::<Upcall, TrapReason>(Upcall::Explode),
            },
        },
        _ => r == upcall_request(u, args),
    }
}

/// `r` is how host call `h` answers arguments `args`, with the simulation
/// parameters `config` and the program's linear memory `memory`.
///
/// An upcall suspends the program with its request (see `yields`). A
/// constant returns its value; a floating-point function returns its
/// result on its operands. A missing or mistyped argument traps.
pub open spec fn answers(
    h: HostCall,
    args: Seq<RuntimeValue>,
    config: Configuration,
    memory: Seq<u8>,
    r: HostOutcome,
) -> bool {
    match h {
        HostCall::Upcall(u) => match r {
            HostOutcome::Suspend(uc) => yields(u, args, memory, Ok(uc)),
            HostOutcome::Trap(e) => yields(u, args, memory, Err(e)),
            _ => false,
        },
        HostCall::Constant(c) => r == HostOutcome::Return(c.value_in(config)),
        HostCall::UnaryOpF32(op) | HostCall::UnaryOpF64(op) => match arg(args, 0) {
            Ok(v) => r == HostOutcome::Unary(op, v),
            Err(e) => r == HostOutcome::Trap(e),
        },
        HostCall::BinaryOpF32(op) | HostCall::BinaryOpF64(op) => match (arg(args, 0), arg(args, 1)) {
            (Ok(a), Ok(b)) => r == HostOutcome::Binary(op, a, b),
            _ => r == HostOutcome::Trap(TrapReason::UnexpectedSignature),
        },
    }
}

/// The string argument of a `PostString` call can be read without running
/// past the last 32-bit address.
pub open spec fn string_argument_readable(id: nat, args: Seq<RuntimeValue>, memory: Seq<u8>) -> bool {
    HostCall::with_id(id) == Some(HostCall::Upcall(UpcallId::PostString))
        && arg_i32(args, 0) is Ok ==> !scan_overruns_addresses(
        memory,
        arg_i32(args, 0)->Ok_0 as u32 as int,
    )
}

fn nth_value(args: &[RuntimeValue], i: usize) -> (r: Result<RuntimeValue, TrapReason>)
    ensures
        r == arg(args@, i as int),
{
    if i < args.len() {
        Ok(args[i])
    } else {
        Err(TrapReason::UnexpectedSignature)
    }
}

fn nth_i32(args: &[RuntimeValue], i: usize) -> (r: Result<i32, TrapReason>)
    ensures
        r == arg_i32(args@, i as int),
{
    match nth_value(args, i) {
        Ok(RuntimeValue::I32(x)) => Ok(x),
        _ => Err(TrapReason::UnexpectedSignature),
    }
}

fn nth_i64(args: &[RuntimeValue], i: usize) -> (r: Result<i64, TrapReason>)
    ensures
        r == arg_i64(args@, i as int),
{
    match nth_value(args, i) {
        Ok(RuntimeValue::I64(x)) => Ok(x),
        _ => Err(TrapReason::UnexpectedSignature),
    }
}

fn nth_f32(args: &[RuntimeValue], i: usize) -> (r: Result<u32, TrapReason>)
    ensures
        r == arg_f32(args@, i as int),
{
    match nth_value(args, i) {
        Ok(RuntimeValue::F32(x)) => Ok(x),
        _ => Err(TrapReason::UnexpectedSignature),
    }
}

fn nth_f64(args: &[RuntimeValue], i: usize) -> (r: Result<u64, TrapReason>)
    ensures
        r == arg_f64(args@, i as int),
{
    match nth_value(args, i) {
        Ok(RuntimeValue::F64(x)) => Ok(x),
        _ => Err(TrapReason::UnexpectedSignature),
    }
}

/// The request of upcall `u` made with `args`, or the trap it raises.
fn request(u: UpcallId, args: &[RuntimeValue], memory: &[u8]) -> (r: Result<Upcall, TrapReason>)
    requires
        u == UpcallId::PostString && arg_i32(args@, 0) is Ok ==> !scan_overruns_addresses(
            memory@,
            arg_i32(args@, 0)->Ok_0 as u32 as int,
        ),
    ensures
        yields(u, args@, memory@, r),
{
    match u {
        UpcallId::Scan => {
            let a = nth_f32(args, 0)?;
            let b = nth_f32(args, 1)?;
            Ok(Upcall::Scan(a, b))
        },
        UpcallId::Fire => Ok(Upcall::Fire),
        UpcallId::Aim => Ok(Upcall::Aim(nth_f32(args, 0)?)),
        UpcallId::Turn => Ok(Upcall::Turn(nth_f32(args, 0)?)),
        UpcallId::GPSX => Ok(Upcall::GPSX),
        UpcallId::GPSY => Ok(Upcall::GPSY),
        UpcallId::Temp => Ok(Upcall::Temp),
        UpcallId::Forward => Ok(Upcall::Forward),
        UpcallId::Explode => Ok(Upcall::Explode),
        UpcallId::PostString => {
            let ptr = nth_i32(args, 0)? as u32;
            match read_c_string(memory, ptr) {
                Some(s) => Ok(Upcall::PostString(s)),
                None => Ok(Upcall::Explode),
            }
        },
        UpcallId::PostI32 => Ok(Upcall::PostI32(nth_i32(args, 0)?)),
        UpcallId::PostU32 => Ok(Upcall::PostU32(nth_i32(args, 0)? as u32)),
        UpcallId::PostI64 => Ok(Upcall::PostI64(nth_i64(args, 0)?)),
        UpcallId::PostU64 => Ok(Upcall::PostU64(nth_i64(args, 0)? as u64)),
        UpcallId::PostF32 => Ok(Upcall::PostF32(nth_f32(args, 0)?)),
        UpcallId::PostF64 => Ok(Upcall::PostF64(nth_f64(args, 0)?)),
        UpcallId::Yield => Ok(Upcall::Nothing),
    }
}

/// Answers a call of the host function registered under `index`, made by a
/// program with arguments `args`, under simulation parameters `config` and
/// with linear memory `memory`. An unknown index traps.
pub fn dispatch(index: usize, args: &[RuntimeValue], config: &Configuration, memory: &[u8]) -> (r:
    HostOutcome)
    requires
        string_argument_readable(index as nat, args@, memory@),
    ensures
        match HostCall::with_id(index as nat) {
            None => r == HostOutcome::Trap(TrapReason::TableAccessOutOfBounds),
            Some(h) => answers(h, args@, *config, memory@, r),
        },
{
    let call = match HostCall::from_id(index) {
        Some(call) => call,
        None => return HostOutcome::Trap(TrapReason::TableAccessOutOfBounds),
    };
    match call {
        HostCall::Upcall(u) => match request(u, args, memory) {
            Ok(uc) => HostOutcome::Suspend(uc),
            Err(e) => HostOutcome::Trap(e),
        },
        HostCall::Constant(c) => HostOutcome::Return(c.runtime_value(config)),
        HostCall::UnaryOpF32(op) | HostCall::UnaryOpF64(op) => match nth_value(args, 0) {
            Ok(v) => HostOutcome::Unary(op, v),
            Err(e) => HostOutcome::Trap(e),
        },
        HostCall::BinaryOpF32(op) | HostCall::BinaryOpF64(op) => {
            let a = match nth_value(args, 0) {
                Ok(a) => a,
                Err(e) => return HostOutcome::Trap(e),
            };
            let b = match nth_value(args, 1) {
                Ok(b) => b,
                Err(e) => return HostOutcome::Trap(e),
            };
            HostOutcome::Binary(op, a, b)
        },
    }
}

/// Whether two sequences of value types are equal.
fn types_eq(a: &[ValueType], b: &[ValueType]) -> (r: bool)
    ensures
        r == (a@ == b@),
{
    if a.len() != b.len() {
        return false;
    }
    let mut i: usize = 0;
    while i < a.len()
        invariant
            a@.len() == b@.len(),
            i <= a@.len(),
            forall|j: int| 0 <= j < i ==> a@[j] == b@[j],
        decreases a@.len() - i,
    {
        if a[i] != b[i] {
            return false;
        }
        i += 1;
    }
    assert(a@ =~= b@);
    true
}

/// Resolves a program's import of `field_name` with parameter types
/// `params` and result type `result` to the id of the host call that serves
/// it. The import fails when no host call has that name, or when the one
/// that has it has another signature.
pub fn resolve(field_name: &str, params: &[ValueType], result: Option<ValueType>) -> (r: Result<
    usize,
    ResolveError,
>)
    ensures
        (forall|h: HostCall| #[trigger] h.name() != field_name@) ==> r == Err::<usize, ResolveError>(
            ResolveError::NotFound,
        ),
        forall|h: HostCall|
            #[trigger] h.name() == field_name@ ==> r == (if h.params() == params@ && h.result()
                == result {
                Ok::<usize, ResolveError>(h.id() as usize)
            } else {
                Err(ResolveError::IncorrectSignature)
            }),
{
    let call = match HostCall::from_name(field_name) {
        Ok(call) => call,
        Err(()) => return Err(ResolveError::NotFound),
    };
    let (expected_params, expected_result) = call.signature();
    proof {
        assert forall|h: HostCall| #[trigger] h.name() == field_name@ implies h == call by {
            crate::laws::lemma_names_distinct(h, call);
        }
    }
    if !types_eq(expected_params.as_slice(), params) || expected_result != result {
        return Err(ResolveError::IncorrectSignature);
    }
    Ok(call.to_id())
}

} // verus!
