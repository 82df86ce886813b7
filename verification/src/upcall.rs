//! Requests that a tank program makes of the simulator.
use vstd::prelude::*;

verus! {

/// A request from a tank program to the simulator, made when the program
/// calls an upcall. Floating-point arguments are held by the bit pattern of
/// their `f32` or `f64`. The simulator's answer to a query (`Scan`, `GPSX`,
/// `GPSY`, `Temp`) is handed back separately, as a [`Reply`].
#[derive(Clone, Debug, PartialEq)]
pub enum Upcall {
    /// Nothing requested: the program yielded or ran out of instructions.
    Nothing,
    /// Scan between two headings (bit patterns of `f32`); answered by a
    /// `Reply::ScanCount`.
    Scan(u32, u32),
    Fire,
    /// Aim the turret at a heading (bit pattern of an `f32`).
    Aim(u32),
    /// Turn the tank to a heading (bit pattern of an `f32`).
    Turn(u32),
    /// Ask for the x coordinate; answered by a `Reply::Coordinate`.
    GPSX,
    /// Ask for the y coordinate; answered by a `Reply::Coordinate`.
    GPSY,
    /// Ask for the temperature; answered by a `Reply::Temperature`.
    Temp,
    Forward,
    PostString(String),
    PostI32(i32),
    PostU32(u32),
    PostI64(i64),
    PostU64(u64),
    /// Post an `f32` (its bit pattern).
    PostF32(u32),
    /// Post an `f64` (its bit pattern).
    PostF64(u64),
    Explode,
}

/// The simulator's answer to a query upcall.
#[derive(Clone, Copy, Debug, PartialEq, Eq, Structural)]
pub enum Reply {
    /// Answer to `Scan`: an unsigned 64-bit count.
    ScanCount(u64),
    /// Answer to `GPSX` or `GPSY`: bit pattern of an `f32` coordinate.
    Coordinate(u32),
    /// Answer to `Temp`.
    Temperature(i32),
}

impl Upcall {
    /// Whether carrying out this upcall changes the simulated world:
    /// firing, moving forward and exploding do; everything else does not.
    pub fn alters_world(&self) -> (r: bool)
        ensures
            r == (*self is Fire || *self is Forward || *self is Explode),
    {
        match self {
            Upcall::Nothing => false,
            Upcall::Scan(_, _) => false,
            Upcall::Fire => true,
            Upcall::Aim(_) => false,
            Upcall::Turn(_) => false,
            Upcall::GPSX => false,
            Upcall::GPSY => false,
            Upcall::Temp => false,
            Upcall::Forward => true,
            Upcall::PostString(_) => false,
            Upcall::PostI32(_) => false,
            Upcall::PostU32(_) => false,
            Upcall::PostI64(_) => false,
            Upcall::PostU64(_) => false,
            Upcall::PostF32(_) => false,
            Upcall::PostF64(_) => false,
            Upcall::Explode => true,
        }
    }

    /// A copy of this upcall.
    pub fn duplicate(&self) -> (r: Upcall)
        ensures
            r == *self,
    {
        match self {
            Upcall::Nothing => Upcall::Nothing,
            Upcall::Scan(a, b) => Upcall::Scan(*a, *b),
            Upcall::Fire => Upcall::Fire,
            Upcall::Aim(h) => Upcall::Aim(*h),
            Upcall::Turn(h) => Upcall::Turn(*h),
            Upcall::GPSX => Upcall::GPSX,
            Upcall::GPSY => Upcall::GPSY,
            Upcall::Temp => Upcall::Temp,
            Upcall::Forward => Upcall::Forward,
            Upcall::PostString(s) => Upcall::PostString(s.clone()),
            Upcall::PostI32(x) => Upcall::PostI32(*x),
            Upcall::PostU32(x) => Upcall::PostU32(*x),
            Upcall::PostI64(x) => Upcall::PostI64(*x),
            Upcall::PostU64(x) => Upcall::PostU64(*x),
            Upcall::PostF32(x) => Upcall::PostF32(*x),
            Upcall::PostF64(x) => Upcall::PostF64(*x),
            Upcall::Explode => Upcall::Explode,
        }
    }
}

} // verus!
