//! The table of host calls: names, numeric ids and signatures.
use vstd::prelude::*;

use crate::text::str_eq;
use crate::value::{RuntimeValue, ValueType};

verus! {

/// Number of upcalls (`UpcallId` variants).
pub const NUM_UPCALLS: usize = 17;
/// Number of readable constants (`ConstantId` variants).
pub const NUM_CONSTANTS: usize = 10;
/// Number of one-argument float functions (`UnaryOp` variants).
pub const NUM_UNOPS: usize = 29;
/// Number of two-argument float functions (`BinaryOp` variants).
pub const NUM_BINOPS: usize = 9;

/// First id of the upcalls.
pub const UPCALL_BASE: usize = 0;
/// First id of the constants.
pub const CONSTANT_BASE: usize = NUM_UPCALLS;
/// First id of the one-argument `f32` functions.
pub const UNARY_F32_BASE: usize = NUM_UPCALLS + NUM_CONSTANTS;
/// First id of the two-argument `f32` functions.
pub const BINARY_F32_BASE: usize = NUM_UPCALLS + NUM_CONSTANTS + NUM_UNOPS;
/// First id of the one-argument `f64` functions.
pub const UNARY_F64_BASE: usize = NUM_UPCALLS + NUM_CONSTANTS + NUM_UNOPS + NUM_BINOPS;
/// First id of the two-argument `f64` functions.
pub const BINARY_F64_BASE: usize = NUM_UPCALLS + NUM_CONSTANTS + 2 * NUM_UNOPS + NUM_BINOPS;
/// Number of host calls: every id below this one names a host call.
pub const NUM_HOST_CALLS: usize = NUM_UPCALLS + NUM_CONSTANTS + 2 * NUM_UNOPS + 2 * NUM_BINOPS;

/// The host services a tank program may request from the simulator.
#[derive(Clone, Copy, Debug, PartialEq, Eq, Structural)]
pub enum UpcallId {
    Scan,
    Fire,
    Aim,
    Turn,
    GPSX,
    GPSY,
    Temp,
    Forward,
    Explode,
    PostString,
    PostI32,
    PostU32,
    PostI64,
    PostU64,
    PostF32,
    PostF64,
    Yield,
}

/// The simulation constants a tank program may read.
#[derive(Clone, Copy, Debug, PartialEq, Eq, Structural)]
pub enum ConstantId {
    ShootHeat,
    IdleHeat,
    MoveHeat,
    DeathHeat,
    InstrsPerStep,
    BulletVelocity,
    BulletSpacing,
    TankHitRadius,
    TankVelocity,
    ExplosionRadius,
}

/// The one-argument floating-point functions offered to tank programs.
#[derive(Clone, Copy, Debug, PartialEq, Eq, Structural)]
pub enum UnaryOp {
    Abs,
    Acos,
    Acosh,
    Asin,
    Asinh,
    Atan,
    Atanh,
    Cbrt,
    Ceil,
    Cos,
    Cosh,
    Exp,
    Exp2,
    ExpM1,
    Floor,
    Fract,
    Ln,
    Ln1p,
    Log10,
    Log2,
    Recip,
    Round,
    Signum,
    Sin,
    Sinh,
    Sqrt,
    Tan,
    Tanh,
    Trunc,
}

/// The two-argument floating-point functions offered to tank programs.
#[derive(Clone, Copy, Debug, PartialEq, Eq, Structural)]
pub enum BinaryOp {
    Atan2,
    Copysign,
    DivEuclid,
    Hypot,
    Log,
    Max,
    Min,
    Powf,
    RemEuclid,
}

impl UpcallId {
    /// Position of the variant in declaration order.
    pub open spec fn index(self) -> nat {
        match self {
            UpcallId::Scan => 0,
            UpcallId::Fire => 1,
            UpcallId::Aim => 2,
            UpcallId::Turn => 3,
            UpcallId::GPSX => 4,
            UpcallId::GPSY => 5,
            UpcallId::Temp => 6,
            UpcallId::Forward => 7,
            UpcallId::Explode => 8,
            UpcallId::PostString => 9,
            UpcallId::PostI32 => 10,
            UpcallId::PostU32 => 11,
            UpcallId::PostI64 => 12,
            UpcallId::PostU64 => 13,
            UpcallId::PostF32 => 14,
            UpcallId::PostF64 => 15,
            UpcallId::Yield => 16,
        }
    }

    /// Position of the variant in declaration order.
    pub fn to_index(&self) -> (i: usize)
        ensures
            i == self.index(),
            i < NUM_UPCALLS,
    {
        match self {
            UpcallId::Scan => 0,
            UpcallId::Fire => 1,
            UpcallId::Aim => 2,
            UpcallId::Turn => 3,
            UpcallId::GPSX => 4,
            UpcallId::GPSY => 5,
            UpcallId::Temp => 6,
            UpcallId::Forward => 7,
            UpcallId::Explode => 8,
            UpcallId::PostString => 9,
            UpcallId::PostI32 => 10,
            UpcallId::PostU32 => 11,
            UpcallId::PostI64 => 12,
            UpcallId::PostU64 => 13,
            UpcallId::PostF32 => 14,
            UpcallId::PostF64 => 15,
            UpcallId::Yield => 16,
        }
    }

    /// The variant at position `i` in declaration order (the last one when
    /// `i` is past the end).
    pub open spec fn at(i: nat) -> Self {
        if i == 0 {
            UpcallId::Scan
        } else if i == 1 {
            UpcallId::Fire
        } else if i == 2 {
            UpcallId::Aim
        } else if i == 3 {
            UpcallId::Turn
        } else if i == 4 {
            UpcallId::GPSX
        } else if i == 5 {
            UpcallId::GPSY
        } else if i == 6 {
            UpcallId::Temp
        } else if i == 7 {
            UpcallId::Forward
        } else if i == 8 {
            UpcallId::Explode
        } else if i == 9 {
            UpcallId::PostString
        } else if i == 10 {
            UpcallId::PostI32
        } else if i == 11 {
            UpcallId::PostU32
        } else if i == 12 {
            UpcallId::PostI64
        } else if i == 13 {
            UpcallId::PostU64
        } else if i == 14 {
            UpcallId::PostF32
        } else if i == 15 {
            UpcallId::PostF64
        } else {
            UpcallId::Yield
        }
    }

    /// The variant at position `i` in declaration order, if there is one.
    pub fn from_index(i: usize) -> (r: Option<Self>)
        ensures
            r == (if i < NUM_UPCALLS { Some(Self::at(i as nat)) } else { None }),
    {
        match i {
            0 => Some(UpcallId::Scan),
            1 => Some(UpcallId::Fire),
            2 => Some(UpcallId::Aim),
            3 => Some(UpcallId::Turn),
            4 => Some(UpcallId::GPSX),
            5 => Some(UpcallId::GPSY),
            6 => Some(UpcallId::Temp),
            7 => Some(UpcallId::Forward),
            8 => Some(UpcallId::Explode),
            9 => Some(UpcallId::PostString),
            10 => Some(UpcallId::PostI32),
            11 => Some(UpcallId::PostU32),
            12 => Some(UpcallId::PostI64),
            13 => Some(UpcallId::PostU64),
            14 => Some(UpcallId::PostF32),
            15 => Some(UpcallId::PostF64),
            16 => Some(UpcallId::Yield),
            _ => None,
        }
    }

    /// Positions and variants correspond one to one: distinct variants
    /// have distinct positions, each below `NUM_UPCALLS`, and `at` inverts `index`.
    pub proof fn lemma_index_injective(a: Self, b: Self)
        ensures
            a.index() == b.index() ==> a == b,
            a.index() < NUM_UPCALLS,
            Self::at(a.index()) == a,
    {
    }

    /// `index` inverts `at` below `NUM_UPCALLS`.
    pub proof fn lemma_at_index(i: nat)
        requires
            i < NUM_UPCALLS,
        ensures
            Self::at(i).index() == i,
    {
    }
}

impl ConstantId {
    /// Position of the variant in declaration order.
    pub open spec fn index(self) -> nat {
        match self {
            ConstantId::ShootHeat => 0,
            ConstantId::IdleHeat => 1,
            ConstantId::MoveHeat => 2,
            ConstantId::DeathHeat => 3,
            ConstantId::InstrsPerStep => 4,
            ConstantId::BulletVelocity => 5,
            ConstantId::BulletSpacing => 6,
            ConstantId::TankHitRadius => 7,
            ConstantId::TankVelocity => 8,
            ConstantId::ExplosionRadius => 9,
        }
    }

    /// Position of the variant in declaration order.
    pub fn to_index(&self) -> (i: usize)
        ensures
            i == self.index(),
            i < NUM_CONSTANTS,
    {
        match self {
            ConstantId::ShootHeat => 0,
            ConstantId::IdleHeat => 1,
            ConstantId::MoveHeat => 2,
            ConstantId::DeathHeat => 3,
            ConstantId::InstrsPerStep => 4,
            ConstantId::BulletVelocity => 5,
            ConstantId::BulletSpacing => 6,
            ConstantId::TankHitRadius => 7,
            ConstantId::TankVelocity => 8,
            ConstantId::ExplosionRadius => 9,
        }
    }

    /// The variant at position `i` in declaration order (the last one when
    /// `i` is past the end).
    pub open spec fn at(i: nat) -> Self {
        if i == 0 {
            ConstantId::ShootHeat
        } else if i == 1 {
            ConstantId::IdleHeat
        } else if i == 2 {
            ConstantId::MoveHeat
        } else if i == 3 {
            ConstantId::DeathHeat
        } else if i == 4 {
            ConstantId::InstrsPerStep
        } else if i == 5 {
            ConstantId::BulletVelocity
        } else if i == 6 {
            ConstantId::BulletSpacing
        } else if i == 7 {
            ConstantId::TankHitRadius
        } else if i == 8 {
            ConstantId::TankVelocity
        } else {
            ConstantId::ExplosionRadius
        }
    }

    /// The variant at position `i` in declaration order, if there is one.
    pub fn from_index(i: usize) -> (r: Option<Self>)
        ensures
            r == (if i < NUM_CONSTANTS { Some(Self::at(i as nat)) } else { None }),
    {
        match i {
            0 => Some(ConstantId::ShootHeat),
            1 => Some(ConstantId::IdleHeat),
            2 => Some(ConstantId::MoveHeat),
            3 => Some(ConstantId::DeathHeat),
            4 => Some(ConstantId::InstrsPerStep),
            5 => Some(ConstantId::BulletVelocity),
            6 => Some(ConstantId::BulletSpacing),
            7 => Some(ConstantId::TankHitRadius),
            8 => Some(ConstantId::TankVelocity),
            9 => Some(ConstantId::ExplosionRadius),
            _ => None,
        }
    }

    /// Positions and variants correspond one to one: distinct variants
    /// have distinct positions, each below `NUM_CONSTANTS`, and `at` inverts `index`.
    pub proof fn lemma_index_injective(a: Self, b: Self)
        ensures
            a.index() == b.index() ==> a == b,
            a.index() < NUM_CONSTANTS,
            Self::at(a.index()) == a,
    {
    }

    /// `index` inverts `at` below `NUM_CONSTANTS`.
    pub proof fn lemma_at_index(i: nat)
        requires
            i < NUM_CONSTANTS,
        ensures
            Self::at(i).index() == i,
    {
    }
}

impl UnaryOp {
    /// Position of the variant in declaration order.
    pub open spec fn index(self) -> nat {
        match self {
            UnaryOp::Abs => 0,
            UnaryOp::Acos => 1,
            UnaryOp::Acosh => 2,
            UnaryOp::Asin => 3,
            UnaryOp::Asinh => 4,
            UnaryOp::Atan => 5,
            UnaryOp::Atanh => 6,
            UnaryOp::Cbrt => 7,
            UnaryOp::Ceil => 8,
            UnaryOp::Cos => 9,
            UnaryOp::Cosh => 10,
            UnaryOp::Exp => 11,
            UnaryOp::Exp2 => 12,
            UnaryOp::ExpM1 => 13,
            UnaryOp::Floor => 14,
            UnaryOp::Fract => 15,
            UnaryOp::Ln => 16,
            UnaryOp::Ln1p => 17,
            UnaryOp::Log10 => 18,
            UnaryOp::Log2 => 19,
            UnaryOp::Recip => 20,
            UnaryOp::Round => 21,
            UnaryOp::Signum => 22,
            UnaryOp::Sin => 23,
            UnaryOp::Sinh => 24,
            UnaryOp::Sqrt => 25,
            UnaryOp::Tan => 26,
            UnaryOp::Tanh => 27,
            UnaryOp::Trunc => 28,
        }
    }

    /// Position of the variant in declaration order.
    pub fn to_index(&self) -> (i: usize)
        ensures
            i == self.index(),
            i < NUM_UNOPS,
    {
        match self {
            UnaryOp::Abs => 0,
            UnaryOp::Acos => 1,
            UnaryOp::Acosh => 2,
            UnaryOp::Asin => 3,
            UnaryOp::Asinh => 4,
            UnaryOp::Atan => 5,
            UnaryOp::Atanh => 6,
            UnaryOp::Cbrt => 7,
            UnaryOp::Ceil => 8,
            UnaryOp::Cos => 9,
            UnaryOp::Cosh => 10,
            UnaryOp::Exp => 11,
            UnaryOp::Exp2 => 12,
            UnaryOp::ExpM1 => 13,
            UnaryOp::Floor => 14,
            UnaryOp::Fract => 15,
            UnaryOp::Ln => 16,
            UnaryOp::Ln1p => 17,
            UnaryOp::Log10 => 18,
            UnaryOp::Log2 => 19,
            UnaryOp::Recip => 20,
            UnaryOp::Round => 21,
            UnaryOp::Signum => 22,
            UnaryOp::Sin => 23,
            UnaryOp::Sinh => 24,
            UnaryOp::Sqrt => 25,
            UnaryOp::Tan => 26,
            UnaryOp::Tanh => 27,
            UnaryOp::Trunc => 28,
        }
    }

    /// The variant at position `i` in declaration order (the last one when
    /// `i` is past the end).
    pub open spec fn at(i: nat) -> Self {
        if i == 0 {
            UnaryOp::Abs
        } else if i == 1 {
            UnaryOp::Acos
        } else if i == 2 {
            UnaryOp::Acosh
        } else if i == 3 {
            UnaryOp::Asin
        } else if i == 4 {
            UnaryOp::Asinh
        } else if i == 5 {
            UnaryOp::Atan
        } else if i == 6 {
            UnaryOp::Atanh
        } else if i == 7 {
            UnaryOp::Cbrt
        } else if i == 8 {
            UnaryOp::Ceil
        } else if i == 9 {
            UnaryOp::Cos
        } else if i == 10 {
            UnaryOp::Cosh
        } else if i == 11 {
            UnaryOp::Exp
        } else if i == 12 {
            UnaryOp::Exp2
        } else if i == 13 {
            UnaryOp::ExpM1
        } else if i == 14 {
            UnaryOp::Floor
        } else if i == 15 {
            UnaryOp::Fract
        } else if i == 16 {
            UnaryOp::Ln
        } else if i == 17 {
            UnaryOp::Ln1p
        } else if i == 18 {
            UnaryOp::Log10
        } else if i == 19 {
            UnaryOp::Log2
        } else if i == 20 {
            UnaryOp::Recip
        } else if i == 21 {
            UnaryOp::Round
        } else if i == 22 {
            UnaryOp::Signum
        } else if i == 23 {
            UnaryOp::Sin
        } else if i == 24 {
            UnaryOp::Sinh
        } else if i == 25 {
            UnaryOp::Sqrt
        } else if i == 26 {
            UnaryOp::Tan
        } else if i == 27 {
            UnaryOp::Tanh
        } else {
            UnaryOp::Trunc
        }
    }

    /// The variant at position `i` in declaration order, if there is one.
    pub fn from_index(i: usize) -> (r: Option<Self>)
        ensures
            r == (if i < NUM_UNOPS { Some(Self::at(i as nat)) } else { None }),
    {
        match i {
            0 => Some(UnaryOp::Abs),
            1 => Some(UnaryOp::Acos),
            2 => Some(UnaryOp::Acosh),
            3 => Some(UnaryOp::Asin),
            4 => Some(UnaryOp::Asinh),
            5 => Some(UnaryOp::Atan),
            6 => Some(UnaryOp::Atanh),
            7 => Some(UnaryOp::Cbrt),
            8 => Some(UnaryOp::Ceil),
            9 => Some(UnaryOp::Cos),
            10 => Some(UnaryOp::Cosh),
            11 => Some(UnaryOp::Exp),
            12 => Some(UnaryOp::Exp2),
            13 => Some(UnaryOp::ExpM1),
            14 => Some(UnaryOp::Floor),
            15 => Some(UnaryOp::Fract),
            16 => Some(UnaryOp::Ln),
            17 => Some(UnaryOp::Ln1p),
            18 => Some(UnaryOp::Log10),
            19 => Some(UnaryOp::Log2),
            20 => Some(UnaryOp::Recip),
            21 => Some(UnaryOp::Round),
            22 => Some(UnaryOp::Signum),
            23 => Some(UnaryOp::Sin),
            24 => Some(UnaryOp::Sinh),
            25 => Some(UnaryOp::Sqrt),
            26 => Some(UnaryOp::Tan),
            27 => Some(UnaryOp::Tanh),
            28 => Some(UnaryOp::Trunc),
            _ => None,
        }
    }

    /// Positions and variants correspond one to one: distinct variants
    /// have distinct positions, each below `NUM_UNOPS`, and `at` inverts `index`.
    pub proof fn lemma_index_injective(a: Self, b: Self)
        ensures
            a.index() == b.index() ==> a == b,
            a.index() < NUM_UNOPS,
            Self::at(a.index()) == a,
    {
    }

    /// `index` inverts `at` below `NUM_UNOPS`.
    pub proof fn lemma_at_index(i: nat)
        requires
            i < NUM_UNOPS,
        ensures
            Self::at(i).index() == i,
    {
    }
}

impl BinaryOp {
    /// Position of the variant in declaration order.
    pub open spec fn index(self) -> nat {
        match self {
            BinaryOp::Atan2 => 0,
            BinaryOp::Copysign => 1,
            BinaryOp::DivEuclid => 2,
            BinaryOp::Hypot => 3,
            BinaryOp::Log => 4,
            BinaryOp::Max => 5,
            BinaryOp::Min => 6,
            BinaryOp::Powf => 7,
            BinaryOp::RemEuclid => 8,
        }
    }

    /// Position of the variant in declaration order.
    pub fn to_index(&self) -> (i: usize)
        ensures
            i == self.index(),
            i < NUM_BINOPS,
    {
        match self {
            BinaryOp::Atan2 => 0,
            BinaryOp::Copysign => 1,
            BinaryOp::DivEuclid => 2,
            BinaryOp::Hypot => 3,
            BinaryOp::Log => 4,
            BinaryOp::Max => 5,
            BinaryOp::Min => 6,
            BinaryOp::Powf => 7,
            BinaryOp::RemEuclid => 8,
        }
    }

    /// The variant at position `i` in declaration order (the last one when
    /// `i` is past the end).
    pub open spec fn at(i: nat) -> Self {
        if i == 0 {
            BinaryOp::Atan2
        } else if i == 1 {
            BinaryOp::Copysign
        } else if i == 2 {
            BinaryOp::DivEuclid
        } else if i == 3 {
            BinaryOp::Hypot
        } else if i == 4 {
            BinaryOp::Log
        } else if i == 5 {
            BinaryOp::Max
        } else if i == 6 {
            BinaryOp::Min
        } else if i == 7 {
            BinaryOp::Powf
        } else {
            BinaryOp::RemEuclid
        }
    }

    /// The variant at position `i` in declaration order, if there is one.
    pub fn from_index(i: usize) -> (r: Option<Self>)
        ensures
            r == (if i < NUM_BINOPS { Some(Self::at(i as nat)) } else { None }),
    {
        match i {
            0 => Some(BinaryOp::Atan2),
            1 => Some(BinaryOp::Copysign),
            2 => Some(BinaryOp::DivEuclid),
            3 => Some(BinaryOp::Hypot),
            4 => Some(BinaryOp::Log),
            5 => Some(BinaryOp::Max),
            6 => Some(BinaryOp::Min),
            7 => Some(BinaryOp::Powf),
            8 => Some(BinaryOp::RemEuclid),
            _ => None,
        }
    }

    /// Positions and variants correspond one to one: distinct variants
    /// have distinct positions, each below `NUM_BINOPS`, and `at` inverts `index`.
    pub proof fn lemma_index_injective(a: Self, b: Self)
        ensures
            a.index() == b.index() ==> a == b,
            a.index() < NUM_BINOPS,
            Self::at(a.index()) == a,
    {
    }

    /// `index` inverts `at` below `NUM_BINOPS`.
    pub proof fn lemma_at_index(i: nat)
        requires
            i < NUM_BINOPS,
        ensures
            Self::at(i).index() == i,
    {
    }
}

/// The simulation parameters that tank programs can read as constants.
/// Floating-point parameters are held by the bit pattern of their `f32`.
#[derive(Clone, Copy, Debug, PartialEq, Eq)]
pub struct Configuration {
    pub shoot_heat: i32,
    pub idle_heat: i32,
    pub move_heat: i32,
    pub death_heat: i32,
    pub instrs_per_step: u64,
    /// Bit pattern of the bullet velocity (`f32`).
    pub bullet_v: u32,
    /// Bit pattern of the bullet spacing (`f32`).
    pub bullet_s: u32,
    /// Bit pattern of the tank hit radius (`f32`).
    pub hit_rad: u32,
    /// Bit pattern of the tank velocity (`f32`).
    pub tank_v: u32,
    /// Bit pattern of the explosion radius (`f32`).
    pub explode_rad: u32,
}

impl ConstantId {
    /// The type of this constant's value.
    pub open spec fn spec_value_type(self) -> ValueType {
        match self {
            ConstantId::ShootHeat => ValueType::I32,
            ConstantId::IdleHeat => ValueType::I32,
            ConstantId::MoveHeat => ValueType::I32,
            ConstantId::DeathHeat => ValueType::I32,
            ConstantId::InstrsPerStep => ValueType::I64,
            ConstantId::BulletVelocity => ValueType::F32,
            ConstantId::BulletSpacing => ValueType::F32,
            ConstantId::TankHitRadius => ValueType::F32,
            ConstantId::TankVelocity => ValueType::F32,
            ConstantId::ExplosionRadius => ValueType::F32,
        }
    }

    /// The value of this constant under `config`. The instruction budget is
    /// an unsigned 64-bit count handed over with the same bits as an `i64`.
    pub open spec fn value_in(self, config: Configuration) -> RuntimeValue {
        match self {
            ConstantId::ShootHeat => RuntimeValue::I32(config.shoot_heat),
            ConstantId::IdleHeat => RuntimeValue::I32(config.idle_heat),
            ConstantId::MoveHeat => RuntimeValue::I32(config.move_heat),
            ConstantId::DeathHeat => RuntimeValue::I32(config.death_heat),
            ConstantId::InstrsPerStep => RuntimeValue::I64(config.instrs_per_step as i64),
            ConstantId::BulletVelocity => RuntimeValue::F32(config.bullet_v),
            ConstantId::BulletSpacing => RuntimeValue::F32(config.bullet_s),
            ConstantId::TankHitRadius => RuntimeValue::F32(config.hit_rad),
            ConstantId::TankVelocity => RuntimeValue::F32(config.tank_v),
            ConstantId::ExplosionRadius => RuntimeValue::F32(config.explode_rad),
        }
    }

    /// The type of this constant's value.
    pub fn value_type(&self) -> (t: ValueType)
        ensures
            t == self.spec_value_type(),
    {
        match self {
            ConstantId::ShootHeat => ValueType::I32,
            ConstantId::IdleHeat => ValueType::I32,
            ConstantId::MoveHeat => ValueType::I32,
            ConstantId::DeathHeat => ValueType::I32,
            ConstantId::InstrsPerStep => ValueType::I64,
            ConstantId::BulletVelocity => ValueType::F32,
            ConstantId::BulletSpacing => ValueType::F32,
            ConstantId::TankHitRadius => ValueType::F32,
            ConstantId::TankVelocity => ValueType::F32,
            ConstantId::ExplosionRadius => ValueType::F32,
        }
    }

    /// The value of this constant under `config`.
    pub fn runtime_value(&self, config: &Configuration) -> (v: RuntimeValue)
        ensures
            v == self.value_in(*config),
    {
        match self {
            ConstantId::ShootHeat => RuntimeValue::I32(config.shoot_heat),
            ConstantId::IdleHeat => RuntimeValue::I32(config.idle_heat),
            ConstantId::MoveHeat => RuntimeValue::I32(config.move_heat),
            ConstantId::DeathHeat => RuntimeValue::I32(config.death_heat),
            ConstantId::InstrsPerStep => RuntimeValue::I64(config.instrs_per_step as i64),
            ConstantId::BulletVelocity => RuntimeValue::F32(config.bullet_v),
            ConstantId::BulletSpacing => RuntimeValue::F32(config.bullet_s),
            ConstantId::TankHitRadius => RuntimeValue::F32(config.hit_rad),
            ConstantId::TankVelocity => RuntimeValue::F32(config.tank_v),
            ConstantId::ExplosionRadius => RuntimeValue::F32(config.explode_rad),
        }
    }
}

/// A host function that a tank program can import.
#[derive(Clone, Copy, Debug, PartialEq, Eq, Structural)]
pub enum HostCall {
    Upcall(UpcallId),
    Constant(ConstantId),
    UnaryOpF32(UnaryOp),
    BinaryOpF32(BinaryOp),
    UnaryOpF64(UnaryOp),
    BinaryOpF64(BinaryOp),
}

impl HostCall {
    /// The import name under which a tank program finds this host call.
    pub open spec fn name(self) -> Seq<char> {
        match self {
            HostCall::Upcall(u) => match u {
                UpcallId::Scan => "scan"@,
                UpcallId::Fire => "fire"@,
                UpcallId::Aim => "aim"@,
                UpcallId::Turn => "turn"@,
                UpcallId::GPSX => "gpsx"@,
                UpcallId::GPSY => "gpsy"@,
                UpcallId::Temp => "temp"@,
                UpcallId::Forward => "forward"@,
                UpcallId::Explode => "explode"@,
                UpcallId::PostString => "post_string"@,
                UpcallId::PostI32 => "post_int32"@,
                UpcallId::PostU32 => "post_uint32"@,
                UpcallId::PostI64 => "post_int64"@,
                UpcallId::PostU64 => "post_uint64"@,
                UpcallId::PostF32 => "post_float"@,
                UpcallId::PostF64 => "post_double"@,
                UpcallId::Yield => "yield"@,
            },
            HostCall::Constant(c) => match c {
                ConstantId::ShootHeat => "SHOOT_HEAT"@,
                ConstantId::IdleHeat => "IDLE_HEAT"@,
                ConstantId::MoveHeat => "MOVE_HEAT"@,
                ConstantId::DeathHeat => "DEATH_HEAT"@,
                ConstantId::InstrsPerStep => "INSTRS_PER_STEP"@,
                ConstantId::BulletVelocity => "BULLET_VELOCITY"@,
                ConstantId::BulletSpacing => "BULLET_SPACING"@,
                ConstantId::TankHitRadius => "TANK_HIT_RADIUS"@,
                ConstantId::TankVelocity => "TANK_VELOCITY"@,
                ConstantId::ExplosionRadius => "EXPLOSION_RADIUS"@,
            },
            HostCall::UnaryOpF32(op) => match op {
                UnaryOp::Abs => "abs_float"@,
                UnaryOp::Acos => "acos_float"@,
                UnaryOp::Acosh => "acosh_float"@,
                UnaryOp::Asin => "asin_float"@,
                UnaryOp::Asinh => "asinh_float"@,
                UnaryOp::Atan => "atan_float"@,
                UnaryOp::Atanh => "atanh_float"@,
                UnaryOp::Cbrt => "cbrt_float"@,
                UnaryOp::Ceil => "ceil_float"@,
                UnaryOp::Cos => "cos_float"@,
                UnaryOp::Cosh => "cosh_float"@,
                UnaryOp::Exp => "exp_float"@,
                UnaryOp::Exp2 => "exp2_float"@,
                UnaryOp::ExpM1 => "expm1_float"@,
                UnaryOp::Floor => "floor_float"@,
                UnaryOp::Fract => "fract_float"@,
                UnaryOp::Ln => "ln_float"@,
                UnaryOp::Ln1p => "ln1p_float"@,
                UnaryOp::Log10 => "log10_float"@,
                UnaryOp::Log2 => "log2_float"@,
                UnaryOp::Recip => "recip_float"@,
                UnaryOp::Round => "round_float"@,
                UnaryOp::Signum => "signum_float"@,
                UnaryOp::Sin => "sin_float"@,
                UnaryOp::Sinh => "sinh_float"@,
                UnaryOp::Sqrt => "sqrt_float"@,
                UnaryOp::Tan => "tan_float"@,
                UnaryOp::Tanh => "tanh_float"@,
                UnaryOp::Trunc => "trunc_float"@,
            },
            HostCall::BinaryOpF32(op) => match op {
                BinaryOp::Atan2 => "atan2_float"@,
                BinaryOp::Copysign => "copysign_float"@,
                BinaryOp::DivEuclid => "div_euclid_float"@,
                BinaryOp::Hypot => "hypot_float"@,
                BinaryOp::Log => "log_float"@,
                BinaryOp::Max => "max_float"@,
                BinaryOp::Min => "min_float"@,
                BinaryOp::Powf => "powf_float"@,
                BinaryOp::RemEuclid => "rem_euclid_float"@,
            },
            HostCall::UnaryOpF64(op) => match op {
                UnaryOp::Abs => "abs_double"@,
                UnaryOp::Acos => "acos_double"@,
                UnaryOp::Acosh => "acosh_double"@,
                UnaryOp::Asin => "asin_double"@,
                UnaryOp::Asinh => "asinh_double"@,
                UnaryOp::Atan => "atan_double"@,
                UnaryOp::Atanh => "atanh_double"@,
                UnaryOp::Cbrt => "cbrt_double"@,
                UnaryOp::Ceil => "ceil_double"@,
                UnaryOp::Cos => "cos_double"@,
                UnaryOp::Cosh => "cosh_double"@,
                UnaryOp::Exp => "exp_double"@,
                UnaryOp::Exp2 => "exp2_double"@,
                UnaryOp::ExpM1 => "expm1_double"@,
                UnaryOp::Floor => "floor_double"@,
                UnaryOp::Fract => "fract_double"@,
                UnaryOp::Ln => "ln_double"@,
                UnaryOp::Ln1p => "ln1p_double"@,
                UnaryOp::Log10 => "log10_double"@,
                UnaryOp::Log2 => "log2_double"@,
                UnaryOp::Recip => "recip_double"@,
                UnaryOp::Round => "round_double"@,
                UnaryOp::Signum => "signum_double"@,
                UnaryOp::Sin => "sin_double"@,
                UnaryOp::Sinh => "sinh_double"@,
                UnaryOp::Sqrt => "sqrt_double"@,
                UnaryOp::Tan => "tan_double"@,
                UnaryOp::Tanh => "tanh_double"@,
                UnaryOp::Trunc => "trunc_double"@,
            },
            HostCall::BinaryOpF64(op) => match op {
                BinaryOp::Atan2 => "atan2_double"@,
                BinaryOp::Copysign => "copysign_double"@,
                BinaryOp::DivEuclid => "div_euclid_double"@,
                BinaryOp::Hypot => "hypot_double"@,
                BinaryOp::Log => "log_double"@,
                BinaryOp::Max => "max_double"@,
                BinaryOp::Min => "min_double"@,
                BinaryOp::Powf => "powf_double"@,
                BinaryOp::RemEuclid => "rem_euclid_double"@,
            },
        }
    }

    /// The import name of this host call, as a string.
    pub fn name_str(&self) -> (s: &'static str)
        ensures
            s@ == self.name(),
    {
        match self {
            HostCall::Upcall(u) => match u {
                UpcallId::Scan => "scan",
                UpcallId::Fire => "fire",
                UpcallId::Aim => "aim",
                UpcallId::Turn => "turn",
                UpcallId::GPSX => "gpsx",
                UpcallId::GPSY => "gpsy",
                UpcallId::Temp => "temp",
                UpcallId::Forward => "forward",
                UpcallId::Explode => "explode",
                UpcallId::PostString => "post_string",
                UpcallId::PostI32 => "post_int32",
                UpcallId::PostU32 => "post_uint32",
                UpcallId::PostI64 => "post_int64",
                UpcallId::PostU64 => "post_uint64",
                UpcallId::PostF32 => "post_float",
                UpcallId::PostF64 => "post_double",
                UpcallId::Yield => "yield",
            },
            HostCall::Constant(c) => match c {
                ConstantId::ShootHeat => "SHOOT_HEAT",
                ConstantId::IdleHeat => "IDLE_HEAT",
                ConstantId::MoveHeat => "MOVE_HEAT",
                ConstantId::DeathHeat => "DEATH_HEAT",
                ConstantId::InstrsPerStep => "INSTRS_PER_STEP",
                ConstantId::BulletVelocity => "BULLET_VELOCITY",
                ConstantId::BulletSpacing => "BULLET_SPACING",
                ConstantId::TankHitRadius => "TANK_HIT_RADIUS",
                ConstantId::TankVelocity => "TANK_VELOCITY",
                ConstantId::ExplosionRadius => "EXPLOSION_RADIUS",
            },
            HostCall::UnaryOpF32(op) => match op {
                UnaryOp::Abs => "abs_float",
                UnaryOp::Acos => "acos_float",
                UnaryOp::Acosh => "acosh_float",
                UnaryOp::Asin => "asin_float",
                UnaryOp::Asinh => "asinh_float",
                UnaryOp::Atan => "atan_float",
                UnaryOp::Atanh => "atanh_float",
                UnaryOp::Cbrt => "cbrt_float",
                UnaryOp::Ceil => "ceil_float",
                UnaryOp::Cos => "cos_float",
                UnaryOp::Cosh => "cosh_float",
                UnaryOp::Exp => "exp_float",
                UnaryOp::Exp2 => "exp2_float",
                UnaryOp::ExpM1 => "expm1_float",
                UnaryOp::Floor => "floor_float",
                UnaryOp::Fract => "fract_float",
                UnaryOp::Ln => "ln_float",
                UnaryOp::Ln1p => "ln1p_float",
                UnaryOp::Log10 => "log10_float",
                UnaryOp::Log2 => "log2_float",
                UnaryOp::Recip => "recip_float",
                UnaryOp::Round => "round_float",
                UnaryOp::Signum => "signum_float",
                UnaryOp::Sin => "sin_float",
                UnaryOp::Sinh => "sinh_float",
                UnaryOp::Sqrt => "sqrt_float",
                UnaryOp::Tan => "tan_float",
                UnaryOp::Tanh => "tanh_float",
                UnaryOp::Trunc => "trunc_float",
            },
            HostCall::BinaryOpF32(op) => match op {
                BinaryOp::Atan2 => "atan2_float",
                BinaryOp::Copysign => "copysign_float",
                BinaryOp::DivEuclid => "div_euclid_float",
                BinaryOp::Hypot => "hypot_float",
                BinaryOp::Log => "log_float",
                BinaryOp::Max => "max_float",
                BinaryOp::Min => "min_float",
                BinaryOp::Powf => "powf_float",
                BinaryOp::RemEuclid => "rem_euclid_float",
            },
            HostCall::UnaryOpF64(op) => match op {
                UnaryOp::Abs => "abs_double",
                UnaryOp::Acos => "acos_double",
                UnaryOp::Acosh => "acosh_double",
                UnaryOp::Asin => "asin_double",
                UnaryOp::Asinh => "asinh_double",
                UnaryOp::Atan => "atan_double",
                UnaryOp::Atanh => "atanh_double",
                UnaryOp::Cbrt => "cbrt_double",
                UnaryOp::Ceil => "ceil_double",
                UnaryOp::Cos => "cos_double",
                UnaryOp::Cosh => "cosh_double",
                UnaryOp::Exp => "exp_double",
                UnaryOp::Exp2 => "exp2_double",
                UnaryOp::ExpM1 => "expm1_double",
                UnaryOp::Floor => "floor_double",
                UnaryOp::Fract => "fract_double",
                UnaryOp::Ln => "ln_double",
                UnaryOp::Ln1p => "ln1p_double",
                UnaryOp::Log10 => "log10_double",
                UnaryOp::Log2 => "log2_double",
                UnaryOp::Recip => "recip_double",
                UnaryOp::Round => "round_double",
                UnaryOp::Signum => "signum_double",
                UnaryOp::Sin => "sin_double",
                UnaryOp::Sinh => "sinh_double",
                UnaryOp::Sqrt => "sqrt_double",
                UnaryOp::Tan => "tan_double",
                UnaryOp::Tanh => "tanh_double",
                UnaryOp::Trunc => "trunc_double",
            },
            HostCall::BinaryOpF64(op) => match op {
                BinaryOp::Atan2 => "atan2_double",
                BinaryOp::Copysign => "copysign_double",
                BinaryOp::DivEuclid => "div_euclid_double",
                BinaryOp::Hypot => "hypot_double",
                BinaryOp::Log => "log_double",
                BinaryOp::Max => "max_double",
                BinaryOp::Min => "min_double",
                BinaryOp::Powf => "powf_double",
                BinaryOp::RemEuclid => "rem_euclid_double",
            },
        }
    }

    /// Looks up a host call by its import name. Ids are tried in
    /// increasing order, so of two calls with the same name the one with
    /// the smaller id would be found (names are in fact distinct, see
    /// `crate::laws::lemma_names_distinct`).
    pub fn from_name(name: &str) -> (r: Result<Self, ()>)
        ensures
            match r {
                Ok(h) => h.name() == name@,
                Err(()) => forall|h: HostCall| #[trigger] h.name() != name@,
            },
    {
        let mut id: usize = 0;
        while id < NUM_HOST_CALLS
            invariant
                id <= NUM_HOST_CALLS,
                forall|g: HostCall| g.id() < id ==> #[trigger] g.name() != name@,
            decreases NUM_HOST_CALLS - id,
        {
            let h = HostCall::from_id(id).unwrap();
            if str_eq(h.name_str(), name) {
                return Ok(h);
            }
            assert forall|g: HostCall| g.id() < id + 1 implies #[trigger] g.name() != name@ by {
                HostCall::lemma_id_injective(g, h);
            }
            id += 1;
        }
        assert forall|g: HostCall| #[trigger] g.name() != name@ by {
            HostCall::lemma_id_injective(g, g);
        }
        Err(())
    }

    /// The parameter types of this host call.
    pub open spec fn params(self) -> Seq<ValueType> {
        match self {
            HostCall::Upcall(UpcallId::Scan) => seq![ValueType::F32, ValueType::F32],
            HostCall::Upcall(UpcallId::Fire) => seq![],
            HostCall::Upcall(UpcallId::Aim) => seq![ValueType::F32],
            HostCall::Upcall(UpcallId::Turn) => seq![ValueType::F32],
            HostCall::Upcall(UpcallId::GPSX) => seq![],
            HostCall::Upcall(UpcallId::GPSY) => seq![],
            HostCall::Upcall(UpcallId::Temp) => seq![],
            HostCall::Upcall(UpcallId::Forward) => seq![],
            HostCall::Upcall(UpcallId::Explode) => seq![],
            HostCall::Upcall(UpcallId::PostString) => seq![ValueType::I32],
            HostCall::Upcall(UpcallId::PostI32) => seq![ValueType::I32],
            HostCall::Upcall(UpcallId::PostU32) => seq![ValueType::I64],
            HostCall::Upcall(UpcallId::PostI64) => seq![ValueType::I32],
            HostCall::Upcall(UpcallId::PostU64) => seq![ValueType::I64],
            HostCall::Upcall(UpcallId::PostF32) => seq![ValueType::F32],
            HostCall::Upcall(UpcallId::PostF64) => seq![ValueType::F64],
            HostCall::Upcall(UpcallId::Yield) => seq![],
            HostCall::Constant(_) => seq![],
            HostCall::UnaryOpF32(_) => seq![ValueType::F32],
            HostCall::BinaryOpF32(_) => seq![ValueType::F32, ValueType::F32],
            HostCall::UnaryOpF64(_) => seq![ValueType::F64],
            HostCall::BinaryOpF64(_) => seq![ValueType::F64, ValueType::F64],
        }
    }

    /// The result type of this host call, `None` when it returns nothing.
    pub open spec fn result(self) -> Option<ValueType> {
        match self {
            HostCall::Upcall(UpcallId::Scan) => Some(ValueType::I64),
            HostCall::Upcall(UpcallId::Fire) => None,
            HostCall::Upcall(UpcallId::Aim) => None,
            HostCall::Upcall(UpcallId::Turn) => None,
            HostCall::Upcall(UpcallId::GPSX) => Some(ValueType::F32),
            HostCall::Upcall(UpcallId::GPSY) => Some(ValueType::F32),
            HostCall::Upcall(UpcallId::Temp) => Some(ValueType::I32),
            HostCall::Upcall(UpcallId::Forward) => None,
            HostCall::Upcall(UpcallId::Explode) => None,
            HostCall::Upcall(UpcallId::PostString) => None,
            HostCall::Upcall(UpcallId::PostI32) => None,
            HostCall::Upcall(UpcallId::PostU32) => None,
            HostCall::Upcall(UpcallId::PostI64) => None,
            HostCall::Upcall(UpcallId::PostU64) => None,
            HostCall::Upcall(UpcallId::PostF32) => None,
            HostCall::Upcall(UpcallId::PostF64) => None,
            HostCall::Upcall(UpcallId::Yield) => None,
            HostCall::Constant(c) => Some(c.spec_value_type()),
            HostCall::UnaryOpF32(_) => Some(ValueType::F32),
            HostCall::BinaryOpF32(_) => Some(ValueType::F32),
            HostCall::UnaryOpF64(_) => Some(ValueType::F64),
            HostCall::BinaryOpF64(_) => Some(ValueType::F64),
        }
    }

    /// The signature under which this host call is offered: its parameter
    /// types and its result type.
    pub fn signature(&self) -> (sig: (Vec<ValueType>, Option<ValueType>))
        ensures
            sig.0@ == self.params(),
            sig.1 == self.result(),
    {
        match self {
            HostCall::Upcall(UpcallId::Scan) => (vec![ValueType::F32, ValueType::F32], Some(ValueType::I64)),
            HostCall::Upcall(UpcallId::Fire) => (vec![], None),
            HostCall::Upcall(UpcallId::Aim) => (vec![ValueType::F32], None),
            HostCall::Upcall(UpcallId::Turn) => (vec![ValueType::F32], None),
            HostCall::Upcall(UpcallId::GPSX) => (vec![], Some(ValueType::F32)),
            HostCall::Upcall(UpcallId::GPSY) => (vec![], Some(ValueType::F32)),
            HostCall::Upcall(UpcallId::Temp) => (vec![], Some(ValueType::I32)),
            HostCall::Upcall(UpcallId::Forward) => (vec![], None),
            HostCall::Upcall(UpcallId::Explode) => (vec![], None),
            HostCall::Upcall(UpcallId::PostString) => (vec![ValueType::I32], None),
            HostCall::Upcall(UpcallId::PostI32) => (vec![ValueType::I32], None),
            HostCall::Upcall(UpcallId::PostU32) => (vec![ValueType::I64], None),
            HostCall::Upcall(UpcallId::PostI64) => (vec![ValueType::I32], None),
            HostCall::Upcall(UpcallId::PostU64) => (vec![ValueType::I64], None),
            HostCall::Upcall(UpcallId::PostF32) => (vec![ValueType::F32], None),
            HostCall::Upcall(UpcallId::PostF64) => (vec![ValueType::F64], None),
            HostCall::Upcall(UpcallId::Yield) => (vec![], None),
            HostCall::Constant(c) => (vec![], Some(c.value_type())),
            HostCall::UnaryOpF32(_) => (vec![ValueType::F32], Some(ValueType::F32)),
            HostCall::BinaryOpF32(_) => (vec![ValueType::F32, ValueType::F32], Some(ValueType::F32)),
            HostCall::UnaryOpF64(_) => (vec![ValueType::F64], Some(ValueType::F64)),
            HostCall::BinaryOpF64(_) => (vec![ValueType::F64, ValueType::F64], Some(ValueType::F64)),
        }
    }

    /// The numeric id of a host call: the first id of its group plus its
    /// position within the group.
    pub open spec fn id(self) -> nat {
        match self {
            HostCall::Upcall(x) => UPCALL_BASE as nat + x.index(),
            HostCall::Constant(x) => CONSTANT_BASE as nat + x.index(),
            HostCall::UnaryOpF32(x) => UNARY_F32_BASE as nat + x.index(),
            HostCall::BinaryOpF32(x) => BINARY_F32_BASE as nat + x.index(),
            HostCall::UnaryOpF64(x) => UNARY_F64_BASE as nat + x.index(),
            HostCall::BinaryOpF64(x) => BINARY_F64_BASE as nat + x.index(),
        }
    }

    /// Distinct host calls have distinct ids, and every id is below
    /// `NUM_HOST_CALLS`.
    pub proof fn lemma_id_injective(a: Self, b: Self)
        ensures
            a.id() == b.id() ==> a == b,
            a.id() < NUM_HOST_CALLS,
    {
        match a {
            HostCall::Upcall(x) => UpcallId::lemma_index_injective(x, x),
            HostCall::Constant(x) => ConstantId::lemma_index_injective(x, x),
            HostCall::UnaryOpF32(x) => UnaryOp::lemma_index_injective(x, x),
            HostCall::BinaryOpF32(x) => BinaryOp::lemma_index_injective(x, x),
            HostCall::UnaryOpF64(x) => UnaryOp::lemma_index_injective(x, x),
            HostCall::BinaryOpF64(x) => BinaryOp::lemma_index_injective(x, x),
        }
        match b {
            HostCall::Upcall(y) => UpcallId::lemma_index_injective(y, y),
            HostCall::Constant(y) => ConstantId::lemma_index_injective(y, y),
            HostCall::UnaryOpF32(y) => UnaryOp::lemma_index_injective(y, y),
            HostCall::BinaryOpF32(y) => BinaryOp::lemma_index_injective(y, y),
            HostCall::UnaryOpF64(y) => UnaryOp::lemma_index_injective(y, y),
            HostCall::BinaryOpF64(y) => BinaryOp::lemma_index_injective(y, y),
        }
        match (a, b) {
            (HostCall::Upcall(x), HostCall::Upcall(y)) => UpcallId::lemma_index_injective(x, y),
            (HostCall::Constant(x), HostCall::Constant(y)) => ConstantId::lemma_index_injective(x, y),
            (HostCall::UnaryOpF32(x), HostCall::UnaryOpF32(y)) => UnaryOp::lemma_index_injective(x, y),
            (HostCall::BinaryOpF32(x), HostCall::BinaryOpF32(y)) => BinaryOp::lemma_index_injective(x, y),
            (HostCall::UnaryOpF64(x), HostCall::UnaryOpF64(y)) => UnaryOp::lemma_index_injective(x, y),
            (HostCall::BinaryOpF64(x), HostCall::BinaryOpF64(y)) => BinaryOp::lemma_index_injective(x, y),
            _ => {},
        }
    }

    /// The numeric id under which this host call is registered.
    pub fn to_id(&self) -> (id: usize)
        ensures
            id == self.id(),
            id < NUM_HOST_CALLS,
    {
        match self {
            HostCall::Upcall(x) => x.to_index() + UPCALL_BASE,
            HostCall::Constant(x) => x.to_index() + CONSTANT_BASE,
            HostCall::UnaryOpF32(x) => x.to_index() + UNARY_F32_BASE,
            HostCall::BinaryOpF32(x) => x.to_index() + BINARY_F32_BASE,
            HostCall::UnaryOpF64(x) => x.to_index() + UNARY_F64_BASE,
            HostCall::BinaryOpF64(x) => x.to_index() + BINARY_F64_BASE,
        }
    }

    /// The host call registered under `id`, `None` past the last id: ids
    /// are laid out group by group, and within a group by position.
    pub open spec fn with_id(id: nat) -> Option<HostCall> {
        if id < CONSTANT_BASE {
            Some(HostCall::Upcall(UpcallId::at((id - UPCALL_BASE) as nat)))
        } else if id < UNARY_F32_BASE {
            Some(HostCall::Constant(ConstantId::at((id - CONSTANT_BASE) as nat)))
        } else if id < BINARY_F32_BASE {
            Some(HostCall::UnaryOpF32(UnaryOp::at((id - UNARY_F32_BASE) as nat)))
        } else if id < UNARY_F64_BASE {
            Some(HostCall::BinaryOpF32(BinaryOp::at((id - BINARY_F32_BASE) as nat)))
        } else if id < BINARY_F64_BASE {
            Some(HostCall::UnaryOpF64(UnaryOp::at((id - UNARY_F64_BASE) as nat)))
        } else if id < NUM_HOST_CALLS {
            Some(HostCall::BinaryOpF64(BinaryOp::at((id - BINARY_F64_BASE) as nat)))
        } else {
            None
        }
    }

    /// The host call registered under `id`; `None` when no host call has
    /// that id.
    pub fn from_id(id: usize) -> (r: Option<Self>)
        ensures
            r == HostCall::with_id(id as nat),
    {
        if id < CONSTANT_BASE {
            Some(HostCall::Upcall(UpcallId::from_index(id - UPCALL_BASE).unwrap()))
        } else if id < UNARY_F32_BASE {
            Some(HostCall::Constant(ConstantId::from_index(id - CONSTANT_BASE).unwrap()))
        } else if id < BINARY_F32_BASE {
            Some(HostCall::UnaryOpF32(UnaryOp::from_index(id - UNARY_F32_BASE).unwrap()))
        } else if id < UNARY_F64_BASE {
            Some(HostCall::BinaryOpF32(BinaryOp::from_index(id - BINARY_F32_BASE).unwrap()))
        } else if id < BINARY_F64_BASE {
            Some(HostCall::UnaryOpF64(UnaryOp::from_index(id - UNARY_F64_BASE).unwrap()))
        } else if id < NUM_HOST_CALLS {
            Some(HostCall::BinaryOpF64(BinaryOp::from_index(id - BINARY_F64_BASE).unwrap()))
        } else {
            None
        }
    }
}

} // verus!
