//! Properties of the library that span several functions.
use vstd::prelude::*;

use crate::host::{answers, yields, HostOutcome, TrapReason};
use crate::machine::{reply_fits, VMState};
use crate::text::{c_string_text, terminates_at};
use vstd::utf8::encode_utf8;
use crate::upcall::{Reply, Upcall};
use crate::value::{type_of, type_of_option, types_of, RuntimeValue, ValueType};
use crate::calls::{
    Configuration, BinaryOp, ConstantId, HostCall, UnaryOp, UpcallId, BINARY_F32_BASE, BINARY_F64_BASE, CONSTANT_BASE,
    NUM_HOST_CALLS, UNARY_F32_BASE, UNARY_F64_BASE, UPCALL_BASE,
};

verus! {

/// Ids and host calls correspond one to one: every host call is found
/// again under its own id, an id leads only to the host call registered
/// under it, and exactly the ids below `NUM_HOST_CALLS` lead to one.
pub proof fn lemma_id_round_trip(h: HostCall, id: nat)
    ensures
        HostCall::with_id(h.id()) == Some(h),
        HostCall::with_id(id) == Some(h) ==> h.id() == id,
        HostCall::with_id(id) is Some <==> id < NUM_HOST_CALLS,
{
    HostCall::lemma_id_injective(h, h);
    match h {
        HostCall::Upcall(x) => UpcallId::lemma_index_injective(x, x),
        HostCall::Constant(x) => ConstantId::lemma_index_injective(x, x),
        HostCall::UnaryOpF32(x) => UnaryOp::lemma_index_injective(x, x),
        HostCall::BinaryOpF32(x) => BinaryOp::lemma_index_injective(x, x),
        HostCall::UnaryOpF64(x) => UnaryOp::lemma_index_injective(x, x),
        HostCall::BinaryOpF64(x) => BinaryOp::lemma_index_injective(x, x),
    }
    if id < CONSTANT_BASE {
        UpcallId::lemma_at_index((id - UPCALL_BASE) as nat);
    } else if id < UNARY_F32_BASE {
        ConstantId::lemma_at_index((id - CONSTANT_BASE) as nat);
    } else if id < BINARY_F32_BASE {
        UnaryOp::lemma_at_index((id - UNARY_F32_BASE) as nat);
    } else if id < UNARY_F64_BASE {
        BinaryOp::lemma_at_index((id - BINARY_F32_BASE) as nat);
    } else if id < BINARY_F64_BASE {
        UnaryOp::lemma_at_index((id - UNARY_F64_BASE) as nat);
    } else if id < NUM_HOST_CALLS {
        BinaryOp::lemma_at_index((id - BINARY_F64_BASE) as nat);
    }
}

/// No two host calls share an import name, so a name identifies a host call.
pub proof fn lemma_names_distinct(a: HostCall, b: HostCall)
    ensures
        a.name() == b.name() ==> a == b,
{
        reveal_strlit("scan");
        reveal_strlit("fire");
        reveal_strlit("aim");
        reveal_strlit("turn");
        reveal_strlit("gpsx");
        reveal_strlit("gpsy");
        reveal_strlit("temp");
        reveal_strlit("forward");
        reveal_strlit("explode");
        reveal_strlit("post_string");
        reveal_strlit("post_int32");
        reveal_strlit("post_uint32");
        reveal_strlit("post_int64");
        reveal_strlit("post_uint64");
        reveal_strlit("post_float");
        reveal_strlit("post_double");
        reveal_strlit("yield");
        reveal_strlit("SHOOT_HEAT");
        reveal_strlit("IDLE_HEAT");
        reveal_strlit("MOVE_HEAT");
        reveal_strlit("DEATH_HEAT");
        reveal_strlit("INSTRS_PER_STEP");
        reveal_strlit("BULLET_VELOCITY");
        reveal_strlit("BULLET_SPACING");
        reveal_strlit("TANK_HIT_RADIUS");
        reveal_strlit("TANK_VELOCITY");
        reveal_strlit("EXPLOSION_RADIUS");
        reveal_strlit("abs_float");
        reveal_strlit("acos_float");
        reveal_strlit("acosh_float");
        reveal_strlit("asin_float");
        reveal_strlit("asinh_float");
        reveal_strlit("atan_float");
        reveal_strlit("atanh_float");
        reveal_strlit("cbrt_float");
        reveal_strlit("ceil_float");
        reveal_strlit("cos_float");
        reveal_strlit("cosh_float");
        reveal_strlit("exp_float");
        reveal_strlit("exp2_float");
        reveal_strlit("expm1_float");
        reveal_strlit("floor_float");
        reveal_strlit("fract_float");
        reveal_strlit("ln_float");
        reveal_strlit("ln1p_float");
        reveal_strlit("log10_float");
        reveal_strlit("log2_float");
        reveal_strlit("recip_float");
        reveal_strlit("round_float");
        reveal_strlit("signum_float");
        reveal_strlit("sin_float");
        reveal_strlit("sinh_float");
        reveal_strlit("sqrt_float");
        reveal_strlit("tan_float");
        reveal_strlit("tanh_float");
        reveal_strlit("trunc_float");
        reveal_strlit("atan2_float");
        reveal_strlit("copysign_float");
        reveal_strlit("div_euclid_float");
        reveal_strlit("hypot_float");
        reveal_strlit("log_float");
        reveal_strlit("max_float");
        reveal_strlit("min_float");
        reveal_strlit("powf_float");
        reveal_strlit("rem_euclid_float");
        reveal_strlit("abs_double");
        reveal_strlit("acos_double");
        reveal_strlit("acosh_double");
        reveal_strlit("asin_double");
        reveal_strlit("asinh_double");
        reveal_strlit("atan_double");
        reveal_strlit("atanh_double");
        reveal_strlit("cbrt_double");
        reveal_strlit("ceil_double");
        reveal_strlit("cos_double");
        reveal_strlit("cosh_double");
        reveal_strlit("exp_double");
        reveal_strlit("exp2_double");
        reveal_strlit("expm1_double");
        reveal_strlit("floor_double");
        reveal_strlit("fract_double");
        reveal_strlit("ln_double");
        reveal_strlit("ln1p_double");
        reveal_strlit("log10_double");
        reveal_strlit("log2_double");
        reveal_strlit("recip_double");
        reveal_strlit("round_double");
        reveal_strlit("signum_double");
        reveal_strlit("sin_double");
        reveal_strlit("sinh_double");
        reveal_strlit("sqrt_double");
        reveal_strlit("tan_double");
        reveal_strlit("tanh_double");
        reveal_strlit("trunc_double");
        reveal_strlit("atan2_double");
        reveal_strlit("copysign_double");
        reveal_strlit("div_euclid_double");
        reveal_strlit("hypot_double");
        reveal_strlit("log_double");
        reveal_strlit("max_double");
        reveal_strlit("min_double");
        reveal_strlit("powf_double");
        reveal_strlit("rem_euclid_double");
    if a.name() == b.name() {
        let s = a.name();
        let t = b.name();
        assert(s.len() == t.len() && s[0] == t[0] && s[2] == t[2] && s[4] == t[4]
            && s[s.len() - 1] == t[t.len() - 1]);
    }
}

/// A constant's value has the type that the constant is declared with, which
/// is also the result type of its host call.
pub proof fn lemma_constant_types(c: ConstantId, config: Configuration)
    ensures
        type_of(c.value_in(config)) == c.spec_value_type(),
        HostCall::Constant(c).result() == Some(c.spec_value_type()),
{
}

/// A host call given arguments of the types in its signature does not trap,
/// returns a value of its result type, and hands a floating-point function
/// operands of the float type it was imported for. This fails for exactly
/// two upcalls, whose signatures declare another type than the one their
/// argument is read as: `post_uint32` (declared `i64`, read as `i32`) and
/// `post_int64` (declared `i32`, read as `i64`).
pub proof fn lemma_well_typed_calls_succeed(
    h: HostCall,
    args: Seq<RuntimeValue>,
    config: Configuration,
    memory: Seq<u8>,
    r: HostOutcome,
)
    requires
        types_of(args) == h.params(),
        h != HostCall::Upcall(UpcallId::PostU32),
        h != HostCall::Upcall(UpcallId::PostI64),
        answers(h, args, config, memory, r),
    ensures
        !(r is Trap),
        r matches HostOutcome::Return(v) ==> Some(type_of(v)) == h.result(),
        r matches HostOutcome::Unary(_, v) ==> Some(type_of(v)) == h.result(),
        r matches HostOutcome::Binary(_, a, b) ==> Some(type_of(a)) == h.result() && Some(type_of(b))
            == h.result(),
{
    assert(types_of(args).len() == args.len());
    if args.len() > 0 {
        assert(types_of(args)[0] == type_of(args[0]));
    }
    if args.len() > 1 {
        assert(types_of(args)[1] == type_of(args[1]));
    }
}

/// A program suspended on an upcall and resumed with a fitting reply
/// receives a value of exactly the result type that the upcall was imported
/// with (nothing when it returns nothing).
pub proof fn lemma_resume_matches_signature(
    u: UpcallId,
    args: Seq<RuntimeValue>,
    memory: Seq<u8>,
    uc: Upcall,
    reply: Option<Reply>,
)
    requires
        yields(u, args, memory, Ok(uc)),
        reply_fits(uc, reply),
    ensures
        type_of_option(VMState::Waiting(uc).resume_value(reply)) == HostCall::Upcall(u).result(),
{
}

/// An import resolved by name reaches the host call of that name: the id
/// that `resolve` hands out for a host call leads back to that very call,
/// and no other host call answers to its name.
pub proof fn lemma_import_reaches_named_call(h: HostCall)
    ensures
        HostCall::with_id(h.id()) == Some(h),
        forall|g: HostCall| #[trigger] g.name() == h.name() ==> g == h,
{
    lemma_id_round_trip(h, h.id());
    assert forall|g: HostCall| #[trigger] g.name() == h.name() implies g == h by {
        lemma_names_distinct(g, h);
    }
}

/// The import names of the host calls, and their ids: upcalls from 0,
/// constants from 17, one-argument `f32` functions from 27, two-argument
/// `f32` functions from 56, one-argument `f64` functions from 65 and
/// two-argument `f64` functions from 94, each group in declaration order.
pub proof fn lemma_names_and_ids()
    ensures
        HostCall::Upcall(UpcallId::Scan).name() == "scan"@ && HostCall::Upcall(UpcallId::Scan).id() == 0,
        HostCall::Upcall(UpcallId::Fire).name() == "fire"@ && HostCall::Upcall(UpcallId::Fire).id() == 1,
        HostCall::Upcall(UpcallId::Aim).name() == "aim"@ && HostCall::Upcall(UpcallId::Aim).id() == 2,
        HostCall::Upcall(UpcallId::Turn).name() == "turn"@ && HostCall::Upcall(UpcallId::Turn).id() == 3,
        HostCall::Upcall(UpcallId::GPSX).name() == "gpsx"@ && HostCall::Upcall(UpcallId::GPSX).id() == 4,
        HostCall::Upcall(UpcallId::GPSY).name() == "gpsy"@ && HostCall::Upcall(UpcallId::GPSY).id() == 5,
        HostCall::Upcall(UpcallId::Temp).name() == "temp"@ && HostCall::Upcall(UpcallId::Temp).id() == 6,
        HostCall::Upcall(UpcallId::Forward).name() == "forward"@ && HostCall::Upcall(UpcallId::Forward).id() == 7,
        HostCall::Upcall(UpcallId::Explode).name() == "explode"@ && HostCall::Upcall(UpcallId::Explode).id() == 8,
        HostCall::Upcall(UpcallId::PostString).name() == "post_string"@ && HostCall::Upcall(UpcallId::PostString).id() == 9,
        HostCall::Upcall(UpcallId::PostI32).name() == "post_int32"@ && HostCall::Upcall(UpcallId::PostI32).id() == 10,
        HostCall::Upcall(UpcallId::PostU32).name() == "post_uint32"@ && HostCall::Upcall(UpcallId::PostU32).id() == 11,
        HostCall::Upcall(UpcallId::PostI64).name() == "post_int64"@ && HostCall::Upcall(UpcallId::PostI64).id() == 12,
        HostCall::Upcall(UpcallId::PostU64).name() == "post_uint64"@ && HostCall::Upcall(UpcallId::PostU64).id() == 13,
        HostCall::Upcall(UpcallId::PostF32).name() == "post_float"@ && HostCall::Upcall(UpcallId::PostF32).id() == 14,
        HostCall::Upcall(UpcallId::PostF64).name() == "post_double"@ && HostCall::Upcall(UpcallId::PostF64).id() == 15,
        HostCall::Upcall(UpcallId::Yield).name() == "yield"@ && HostCall::Upcall(UpcallId::Yield).id() == 16,
        HostCall::Constant(ConstantId::ShootHeat).name() == "SHOOT_HEAT"@ && HostCall::Constant(ConstantId::ShootHeat).id() == 17,
        HostCall::Constant(ConstantId::IdleHeat).name() == "IDLE_HEAT"@ && HostCall::Constant(ConstantId::IdleHeat).id() == 18,
        HostCall::Constant(ConstantId::MoveHeat).name() == "MOVE_HEAT"@ && HostCall::Constant(ConstantId::MoveHeat).id() == 19,
        HostCall::Constant(ConstantId::DeathHeat).name() == "DEATH_HEAT"@ && HostCall::Constant(ConstantId::DeathHeat).id() == 20,
        HostCall::Constant(ConstantId::InstrsPerStep).name() == "INSTRS_PER_STEP"@ && HostCall::Constant(ConstantId::InstrsPerStep).id() == 21,
        HostCall::Constant(ConstantId::BulletVelocity).name() == "BULLET_VELOCITY"@ && HostCall::Constant(ConstantId::BulletVelocity).id() == 22,
        HostCall::Constant(ConstantId::BulletSpacing).name() == "BULLET_SPACING"@ && HostCall::Constant(ConstantId::BulletSpacing).id() == 23,
        HostCall::Constant(ConstantId::TankHitRadius).name() == "TANK_HIT_RADIUS"@ && HostCall::Constant(ConstantId::TankHitRadius).id() == 24,
        HostCall::Constant(ConstantId::TankVelocity).name() == "TANK_VELOCITY"@ && HostCall::Constant(ConstantId::TankVelocity).id() == 25,
        HostCall::Constant(ConstantId::ExplosionRadius).name() == "EXPLOSION_RADIUS"@ && HostCall::Constant(ConstantId::ExplosionRadius).id() == 26,
        HostCall::UnaryOpF32(UnaryOp::Abs).name() == "abs_float"@ && HostCall::UnaryOpF32(UnaryOp::Abs).id() == 27,
        HostCall::UnaryOpF32(UnaryOp::Acos).name() == "acos_float"@ && HostCall::UnaryOpF32(UnaryOp::Acos).id() == 28,
        HostCall::UnaryOpF32(UnaryOp::Acosh).name() == "acosh_float"@ && HostCall::UnaryOpF32(UnaryOp::Acosh).id() == 29,
        HostCall::UnaryOpF32(UnaryOp::Asin).name() == "asin_float"@ && HostCall::UnaryOpF32(UnaryOp::Asin).id() == 30,
        HostCall::UnaryOpF32(UnaryOp::Asinh).name() == "asinh_float"@ && HostCall::UnaryOpF32(UnaryOp::Asinh).id() == 31,
        HostCall::UnaryOpF32(UnaryOp::Atan).name() == "atan_float"@ && HostCall::UnaryOpF32(UnaryOp::Atan).id() == 32,
        HostCall::UnaryOpF32(UnaryOp::Atanh).name() == "atanh_float"@ && HostCall::UnaryOpF32(UnaryOp::Atanh).id() == 33,
        HostCall::UnaryOpF32(UnaryOp::Cbrt).name() == "cbrt_float"@ && HostCall::UnaryOpF32(UnaryOp::Cbrt).id() == 34,
        HostCall::UnaryOpF32(UnaryOp::Ceil).name() == "ceil_float"@ && HostCall::UnaryOpF32(UnaryOp::Ceil).id() == 35,
        HostCall::UnaryOpF32(UnaryOp::Cos).name() == "cos_float"@ && HostCall::UnaryOpF32(UnaryOp::Cos).id() == 36,
        HostCall::UnaryOpF32(UnaryOp::Cosh).name() == "cosh_float"@ && HostCall::UnaryOpF32(UnaryOp::Cosh).id() == 37,
        HostCall::UnaryOpF32(UnaryOp::Exp).name() == "exp_float"@ && HostCall::UnaryOpF32(UnaryOp::Exp).id() == 38,
        HostCall::UnaryOpF32(UnaryOp::Exp2).name() == "exp2_float"@ && HostCall::UnaryOpF32(UnaryOp::Exp2).id() == 39,
        HostCall::UnaryOpF32(UnaryOp::ExpM1).name() == "expm1_float"@ && HostCall::UnaryOpF32(UnaryOp::ExpM1).id() == 40,
        HostCall::UnaryOpF32(UnaryOp::Floor).name() == "floor_float"@ && HostCall::UnaryOpF32(UnaryOp::Floor).id() == 41,
        HostCall::UnaryOpF32(UnaryOp::Fract).name() == "fract_float"@ && HostCall::UnaryOpF32(UnaryOp::Fract).id() == 42,
        HostCall::UnaryOpF32(UnaryOp::Ln).name() == "ln_float"@ && HostCall::UnaryOpF32(UnaryOp::Ln).id() == 43,
        HostCall::UnaryOpF32(UnaryOp::Ln1p).name() == "ln1p_float"@ && HostCall::UnaryOpF32(UnaryOp::Ln1p).id() == 44,
        HostCall::UnaryOpF32(UnaryOp::Log10).name() == "log10_float"@ && HostCall::UnaryOpF32(UnaryOp::Log10).id() == 45,
        HostCall::UnaryOpF32(UnaryOp::Log2).name() == "log2_float"@ && HostCall::UnaryOpF32(UnaryOp::Log2).id() == 46,
        HostCall::UnaryOpF32(UnaryOp::Recip).name() == "recip_float"@ && HostCall::UnaryOpF32(UnaryOp::Recip).id() == 47,
        HostCall::UnaryOpF32(UnaryOp::Round).name() == "round_float"@ && HostCall::UnaryOpF32(UnaryOp::Round).id() == 48,
        HostCall::UnaryOpF32(UnaryOp::Signum).name() == "signum_float"@ && HostCall::UnaryOpF32(UnaryOp::Signum).id() == 49,
        HostCall::UnaryOpF32(UnaryOp::Sin).name() == "sin_float"@ && HostCall::UnaryOpF32(UnaryOp::Sin).id() == 50,
        HostCall::UnaryOpF32(UnaryOp::Sinh).name() == "sinh_float"@ && HostCall::UnaryOpF32(UnaryOp::Sinh).id() == 51,
        HostCall::UnaryOpF32(UnaryOp::Sqrt).name() == "sqrt_float"@ && HostCall::UnaryOpF32(UnaryOp::Sqrt).id() == 52,
        HostCall::UnaryOpF32(UnaryOp::Tan).name() == "tan_float"@ && HostCall::UnaryOpF32(UnaryOp::Tan).id() == 53,
        HostCall::UnaryOpF32(UnaryOp::Tanh).name() == "tanh_float"@ && HostCall::UnaryOpF32(UnaryOp::Tanh).id() == 54,
        HostCall::UnaryOpF32(UnaryOp::Trunc).name() == "trunc_float"@ && HostCall::UnaryOpF32(UnaryOp::Trunc).id() == 55,
        HostCall::BinaryOpF32(BinaryOp::Atan2).name() == "atan2_float"@ && HostCall::BinaryOpF32(BinaryOp::Atan2).id() == 56,
        HostCall::BinaryOpF32(BinaryOp::Copysign).name() == "copysign_float"@ && HostCall::BinaryOpF32(BinaryOp::Copysign).id() == 57,
        HostCall::BinaryOpF32(BinaryOp::DivEuclid).name() == "div_euclid_float"@ && HostCall::BinaryOpF32(BinaryOp::DivEuclid).id() == 58,
        HostCall::BinaryOpF32(BinaryOp::Hypot).name() == "hypot_float"@ && HostCall::BinaryOpF32(BinaryOp::Hypot).id() == 59,
        HostCall::BinaryOpF32(BinaryOp::Log).name() == "log_float"@ && HostCall::BinaryOpF32(BinaryOp::Log).id() == 60,
        HostCall::BinaryOpF32(BinaryOp::Max).name() == "max_float"@ && HostCall::BinaryOpF32(BinaryOp::Max).id() == 61,
        HostCall::BinaryOpF32(BinaryOp::Min).name() == "min_float"@ && HostCall::BinaryOpF32(BinaryOp::Min).id() == 62,
        HostCall::BinaryOpF32(BinaryOp::Powf).name() == "powf_float"@ && HostCall::BinaryOpF32(BinaryOp::Powf).id() == 63,
        HostCall::BinaryOpF32(BinaryOp::RemEuclid).name() == "rem_euclid_float"@ && HostCall::BinaryOpF32(BinaryOp::RemEuclid).id() == 64,
        HostCall::UnaryOpF64(UnaryOp::Abs).name() == "abs_double"@ && HostCall::UnaryOpF64(UnaryOp::Abs).id() == 65,
        HostCall::UnaryOpF64(UnaryOp::Acos).name() == "acos_double"@ && HostCall::UnaryOpF64(UnaryOp::Acos).id() == 66,
        HostCall::UnaryOpF64(UnaryOp::Acosh).name() == "acosh_double"@ && HostCall::UnaryOpF64(UnaryOp::Acosh).id() == 67,
        HostCall::UnaryOpF64(UnaryOp::Asin).name() == "asin_double"@ && HostCall::UnaryOpF64(UnaryOp::Asin).id() == 68,
        HostCall::UnaryOpF64(UnaryOp::Asinh).name() == "asinh_double"@ && HostCall::UnaryOpF64(UnaryOp::Asinh).id() == 69,
        HostCall::UnaryOpF64(UnaryOp::Atan).name() == "atan_double"@ && HostCall::UnaryOpF64(UnaryOp::Atan).id() == 70,
        HostCall::UnaryOpF64(UnaryOp::Atanh).name() == "atanh_double"@ && HostCall::UnaryOpF64(UnaryOp::Atanh).id() == 71,
        HostCall::UnaryOpF64(UnaryOp::Cbrt).name() == "cbrt_double"@ && HostCall::UnaryOpF64(UnaryOp::Cbrt).id() == 72,
        HostCall::UnaryOpF64(UnaryOp::Ceil).name() == "ceil_double"@ && HostCall::UnaryOpF64(UnaryOp::Ceil).id() == 73,
        HostCall::UnaryOpF64(UnaryOp::Cos).name() == "cos_double"@ && HostCall::UnaryOpF64(UnaryOp::Cos).id() == 74,
        HostCall::UnaryOpF64(UnaryOp::Cosh).name() == "cosh_double"@ && HostCall::UnaryOpF64(UnaryOp::Cosh).id() == 75,
        HostCall::UnaryOpF64(UnaryOp::Exp).name() == "exp_double"@ && HostCall::UnaryOpF64(UnaryOp::Exp).id() == 76,
        HostCall::UnaryOpF64(UnaryOp::Exp2).name() == "exp2_double"@ && HostCall::UnaryOpF64(UnaryOp::Exp2).id() == 77,
        HostCall::UnaryOpF64(UnaryOp::ExpM1).name() == "expm1_double"@ && HostCall::UnaryOpF64(UnaryOp::ExpM1).id() == 78,
        HostCall::UnaryOpF64(UnaryOp::Floor).name() == "floor_double"@ && HostCall::UnaryOpF64(UnaryOp::Floor).id() == 79,
        HostCall::UnaryOpF64(UnaryOp::Fract).name() == "fract_double"@ && HostCall::UnaryOpF64(UnaryOp::Fract).id() == 80,
        HostCall::UnaryOpF64(UnaryOp::Ln).name() == "ln_double"@ && HostCall::UnaryOpF64(UnaryOp::Ln).id() == 81,
        HostCall::UnaryOpF64(UnaryOp::Ln1p).name() == "ln1p_double"@ && HostCall::UnaryOpF64(UnaryOp::Ln1p).id() == 82,
        HostCall::UnaryOpF64(UnaryOp::Log10).name() == "log10_double"@ && HostCall::UnaryOpF64(UnaryOp::Log10).id() == 83,
        HostCall::UnaryOpF64(UnaryOp::Log2).name() == "log2_double"@ && HostCall::UnaryOpF64(UnaryOp::Log2).id() == 84,
        HostCall::UnaryOpF64(UnaryOp::Recip).name() == "recip_double"@ && HostCall::UnaryOpF64(UnaryOp::Recip).id() == 85,
        HostCall::UnaryOpF64(UnaryOp::Round).name() == "round_double"@ && HostCall::UnaryOpF64(UnaryOp::Round).id() == 86,
        HostCall::UnaryOpF64(UnaryOp::Signum).name() == "signum_double"@ && HostCall::UnaryOpF64(UnaryOp::Signum).id() == 87,
        HostCall::UnaryOpF64(UnaryOp::Sin).name() == "sin_double"@ && HostCall::UnaryOpF64(UnaryOp::Sin).id() == 88,
        HostCall::UnaryOpF64(UnaryOp::Sinh).name() == "sinh_double"@ && HostCall::UnaryOpF64(UnaryOp::Sinh).id() == 89,
        HostCall::UnaryOpF64(UnaryOp::Sqrt).name() == "sqrt_double"@ && HostCall::UnaryOpF64(UnaryOp::Sqrt).id() == 90,
        HostCall::UnaryOpF64(UnaryOp::Tan).name() == "tan_double"@ && HostCall::UnaryOpF64(UnaryOp::Tan).id() == 91,
        HostCall::UnaryOpF64(UnaryOp::Tanh).name() == "tanh_double"@ && HostCall::UnaryOpF64(UnaryOp::Tanh).id() == 92,
        HostCall::UnaryOpF64(UnaryOp::Trunc).name() == "trunc_double"@ && HostCall::UnaryOpF64(UnaryOp::Trunc).id() == 93,
        HostCall::BinaryOpF64(BinaryOp::Atan2).name() == "atan2_double"@ && HostCall::BinaryOpF64(BinaryOp::Atan2).id() == 94,
        HostCall::BinaryOpF64(BinaryOp::Copysign).name() == "copysign_double"@ && HostCall::BinaryOpF64(BinaryOp::Copysign).id() == 95,
        HostCall::BinaryOpF64(BinaryOp::DivEuclid).name() == "div_euclid_double"@ && HostCall::BinaryOpF64(BinaryOp::DivEuclid).id() == 96,
        HostCall::BinaryOpF64(BinaryOp::Hypot).name() == "hypot_double"@ && HostCall::BinaryOpF64(BinaryOp::Hypot).id() == 97,
        HostCall::BinaryOpF64(BinaryOp::Log).name() == "log_double"@ && HostCall::BinaryOpF64(BinaryOp::Log).id() == 98,
        HostCall::BinaryOpF64(BinaryOp::Max).name() == "max_double"@ && HostCall::BinaryOpF64(BinaryOp::Max).id() == 99,
        HostCall::BinaryOpF64(BinaryOp::Min).name() == "min_double"@ && HostCall::BinaryOpF64(BinaryOp::Min).id() == 100,
        HostCall::BinaryOpF64(BinaryOp::Powf).name() == "powf_double"@ && HostCall::BinaryOpF64(BinaryOp::Powf).id() == 101,
        HostCall::BinaryOpF64(BinaryOp::RemEuclid).name() == "rem_euclid_double"@ && HostCall::BinaryOpF64(BinaryOp::RemEuclid).id() == 102,
{
}

/// The signatures under which the host calls are offered.
pub proof fn lemma_signatures(u: UnaryOp, b: BinaryOp)
    ensures
        HostCall::Upcall(UpcallId::Scan).params() == seq![ValueType::F32, ValueType::F32] && HostCall::Upcall(UpcallId::Scan).result() == Some(ValueType::I64),
        HostCall::Upcall(UpcallId::Fire).params() == Seq::<ValueType>::empty() && HostCall::Upcall(UpcallId::Fire).result() == None::<ValueType>,
        HostCall::Upcall(UpcallId::Aim).params() == seq![ValueType::F32] && HostCall::Upcall(UpcallId::Aim).result() == None::<ValueType>,
        HostCall::Upcall(UpcallId::Turn).params() == seq![ValueType::F32] && HostCall::Upcall(UpcallId::Turn).result() == None::<ValueType>,
        HostCall::Upcall(UpcallId::GPSX).params() == Seq::<ValueType>::empty() && HostCall::Upcall(UpcallId::GPSX).result() == Some(ValueType::F32),
        HostCall::Upcall(UpcallId::GPSY).params() == Seq::<ValueType>::empty() && HostCall::Upcall(UpcallId::GPSY).result() == Some(ValueType::F32),
        HostCall::Upcall(UpcallId::Temp).params() == Seq::<ValueType>::empty() && HostCall::Upcall(UpcallId::Temp).result() == Some(ValueType::I32),
        HostCall::Upcall(UpcallId::Forward).params() == Seq::<ValueType>::empty() && HostCall::Upcall(UpcallId::Forward).result() == None::<ValueType>,
        HostCall::Upcall(UpcallId::Explode).params() == Seq::<ValueType>::empty() && HostCall::Upcall(UpcallId::Explode).result() == None::<ValueType>,
        HostCall::Upcall(UpcallId::PostString).params() == seq![ValueType::I32] && HostCall::Upcall(UpcallId::PostString).result() == None::<ValueType>,
        HostCall::Upcall(UpcallId::PostI32).params() == seq![ValueType::I32] && HostCall::Upcall(UpcallId::PostI32).result() == None::<ValueType>,
        HostCall::Upcall(UpcallId::PostU32).params() == seq![ValueType::I64] && HostCall::Upcall(UpcallId::PostU32).result() == None::<ValueType>,
        HostCall::Upcall(UpcallId::PostI64).params() == seq![ValueType::I32] && HostCall::Upcall(UpcallId::PostI64).result() == None::<ValueType>,
        HostCall::Upcall(UpcallId::PostU64).params() == seq![ValueType::I64] && HostCall::Upcall(UpcallId::PostU64).result() == None::<ValueType>,
        HostCall::Upcall(UpcallId::PostF32).params() == seq![ValueType::F32] && HostCall::Upcall(UpcallId::PostF32).result() == None::<ValueType>,
        HostCall::Upcall(UpcallId::PostF64).params() == seq![ValueType::F64] && HostCall::Upcall(UpcallId::PostF64).result() == None::<ValueType>,
        HostCall::Upcall(UpcallId::Yield).params() == Seq::<ValueType>::empty() && HostCall::Upcall(UpcallId::Yield).result() == None::<ValueType>,
        HostCall::Constant(ConstantId::ShootHeat).params() == Seq::<ValueType>::empty() && HostCall::Constant(ConstantId::ShootHeat).result() == Some(ValueType::I32),
        HostCall::Constant(ConstantId::IdleHeat).params() == Seq::<ValueType>::empty() && HostCall::Constant(ConstantId::IdleHeat).result() == Some(ValueType::I32),
        HostCall::Constant(ConstantId::MoveHeat).params() == Seq::<ValueType>::empty() && HostCall::Constant(ConstantId::MoveHeat).result() == Some(ValueType::I32),
        HostCall::Constant(ConstantId::DeathHeat).params() == Seq::<ValueType>::empty() && HostCall::Constant(ConstantId::DeathHeat).result() == Some(ValueType::I32),
        HostCall::Constant(ConstantId::InstrsPerStep).params() == Seq::<ValueType>::empty() && HostCall::Constant(ConstantId::InstrsPerStep).result() == Some(ValueType::I64),
        HostCall::Constant(ConstantId::BulletVelocity).params() == Seq::<ValueType>::empty() && HostCall::Constant(ConstantId::BulletVelocity).result() == Some(ValueType::F32),
        HostCall::Constant(ConstantId::BulletSpacing).params() == Seq::<ValueType>::empty() && HostCall::Constant(ConstantId::BulletSpacing).result() == Some(ValueType::F32),
        HostCall::Constant(ConstantId::TankHitRadius).params() == Seq::<ValueType>::empty() && HostCall::Constant(ConstantId::TankHitRadius).result() == Some(ValueType::F32),
        HostCall::Constant(ConstantId::TankVelocity).params() == Seq::<ValueType>::empty() && HostCall::Constant(ConstantId::TankVelocity).result() == Some(ValueType::F32),
        HostCall::Constant(ConstantId::ExplosionRadius).params() == Seq::<ValueType>::empty() && HostCall::Constant(ConstantId::ExplosionRadius).result() == Some(ValueType::F32),
        HostCall::UnaryOpF32(u).params() == seq![ValueType::F32] && HostCall::UnaryOpF32(u).result() == Some(ValueType::F32),
        HostCall::UnaryOpF64(u).params() == seq![ValueType::F64] && HostCall::UnaryOpF64(u).result() == Some(ValueType::F64),
        HostCall::BinaryOpF32(b).params() == seq![ValueType::F32, ValueType::F32] && HostCall::BinaryOpF32(b).result() == Some(ValueType::F32),
        HostCall::BinaryOpF64(b).params() == seq![ValueType::F64, ValueType::F64] && HostCall::BinaryOpF64(b).result() == Some(ValueType::F64),
{
}

/// A floating-point host call hands its function the program's arguments as
/// operands in the order given: argument 0 first, argument 1 second; it traps
/// when an operand is missing.
pub proof fn lemma_float_calls_take_operands_in_order(
    u: UnaryOp,
    b: BinaryOp,
    args: Seq<RuntimeValue>,
    config: Configuration,
    memory: Seq<u8>,
    r: HostOutcome,
)
    ensures
        args.len() >= 1 && answers(HostCall::UnaryOpF32(u), args, config, memory, r) ==> r
            == HostOutcome::Unary(u, args[0]),
        args.len() >= 1 && answers(HostCall::UnaryOpF64(u), args, config, memory, r) ==> r
            == HostOutcome::Unary(u, args[0]),
        args.len() >= 2 && answers(HostCall::BinaryOpF32(b), args, config, memory, r) ==> r
            == HostOutcome::Binary(b, args[0], args[1]),
        args.len() >= 2 && answers(HostCall::BinaryOpF64(b), args, config, memory, r) ==> r
            == HostOutcome::Binary(b, args[0], args[1]),
        args.len() < 1 && answers(HostCall::UnaryOpF32(u), args, config, memory, r) ==> r
            == HostOutcome::Trap(TrapReason::UnexpectedSignature),
        args.len() < 2 && answers(HostCall::BinaryOpF64(b), args, config, memory, r) ==> r
            == HostOutcome::Trap(TrapReason::UnexpectedSignature),
{
}

/// An upcall's request carries the bits of its arguments unchanged, in
/// order; the unsigned posts reinterpret the bits of their signed argument.
pub proof fn lemma_upcalls_carry_their_arguments(
    u: UpcallId,
    args: Seq<RuntimeValue>,
    config: Configuration,
    memory: Seq<u8>,
    r: HostOutcome,
    a: u32,
    b: u32,
    x: i32,
    y: i64,
    z: u64,
)
    requires
        answers(HostCall::Upcall(u), args, config, memory, r),
    ensures
        u == UpcallId::Scan && args.len() >= 2 && args[0] == RuntimeValue::F32(a) && args[1]
            == RuntimeValue::F32(b) ==> r == HostOutcome::Suspend(Upcall::Scan(a, b)),
        u == UpcallId::Aim && args.len() >= 1 && args[0] == RuntimeValue::F32(a) ==> r
            == HostOutcome::Suspend(Upcall::Aim(a)),
        u == UpcallId::Turn && args.len() >= 1 && args[0] == RuntimeValue::F32(a) ==> r
            == HostOutcome::Suspend(Upcall::Turn(a)),
        u == UpcallId::PostF32 && args.len() >= 1 && args[0] == RuntimeValue::F32(a) ==> r
            == HostOutcome::Suspend(Upcall::PostF32(a)),
        u == UpcallId::PostF64 && args.len() >= 1 && args[0] == RuntimeValue::F64(z) ==> r
            == HostOutcome::Suspend(Upcall::PostF64(z)),
        u == UpcallId::PostI32 && args.len() >= 1 && args[0] == RuntimeValue::I32(x) ==> r
            == HostOutcome::Suspend(Upcall::PostI32(x)),
        u == UpcallId::PostU32 && args.len() >= 1 && args[0] == RuntimeValue::I32(x) ==> r
            == HostOutcome::Suspend(Upcall::PostU32(x as u32)),
        u == UpcallId::PostI64 && args.len() >= 1 && args[0] == RuntimeValue::I64(y) ==> r
            == HostOutcome::Suspend(Upcall::PostI64(y)),
        u == UpcallId::PostU64 && args.len() >= 1 && args[0] == RuntimeValue::I64(y) ==> r
            == HostOutcome::Suspend(Upcall::PostU64(y as u64)),
        u == UpcallId::Fire ==> r == HostOutcome::Suspend(Upcall::Fire),
        u == UpcallId::GPSX ==> r == HostOutcome::Suspend(Upcall::GPSX),
        u == UpcallId::GPSY ==> r == HostOutcome::Suspend(Upcall::GPSY),
        u == UpcallId::Temp ==> r == HostOutcome::Suspend(Upcall::Temp),
        u == UpcallId::Forward ==> r == HostOutcome::Suspend(Upcall::Forward),
        u == UpcallId::Explode ==> r == HostOutcome::Suspend(Upcall::Explode),
        u == UpcallId::Yield ==> r == HostOutcome::Suspend(Upcall::Nothing),
{
}

/// Every parameter a host call declares is read: given fewer arguments than
/// its signature declares, a call traps.
pub proof fn lemma_declared_parameters_are_read(
    h: HostCall,
    args: Seq<RuntimeValue>,
    config: Configuration,
    memory: Seq<u8>,
    r: HostOutcome,
)
    requires
        answers(h, args, config, memory, r),
        args.len() < h.params().len(),
    ensures
        r == HostOutcome::Trap(TrapReason::UnexpectedSignature),
{
}

/// A program resumed after a query receives the simulator's answer with its
/// bits unchanged (a scan count as the `i64` with the same bits), and
/// nothing after any other upcall or when it was not waiting.
pub proof fn lemma_resume_hands_back_the_reply(t: i32, x: u32, n: u64, a: u32, b: u32, uc: Upcall, reply: Option<Reply>)
    ensures
        VMState::Waiting(Upcall::Temp).resume_value(Some(Reply::Temperature(t))) == Some(
            RuntimeValue::I32(t),
        ),
        VMState::Waiting(Upcall::GPSX).resume_value(Some(Reply::Coordinate(x))) == Some(
            RuntimeValue::F32(x),
        ),
        VMState::Waiting(Upcall::GPSY).resume_value(Some(Reply::Coordinate(x))) == Some(
            RuntimeValue::F32(x),
        ),
        VMState::Waiting(Upcall::Scan(a, b)).resume_value(Some(Reply::ScanCount(n))) matches Some(
            RuntimeValue::I64(i),
        ) && i as u64 == n,
        answer_type_free(uc) ==> VMState::Waiting(uc).resume_value(reply) is None,
        VMState::Ready.resume_value(reply) is None,
{
    assert((n as i64) as u64 == n) by (bit_vector);
}

/// Upcalls that ask no question of the simulator.
pub open spec fn answer_type_free(uc: Upcall) -> bool {
    !(uc is Scan || uc is GPSX || uc is GPSY || uc is Temp)
}

/// Each constant reads its own parameter: the heats as `i32`, the
/// instruction budget as the `i64` with the same bits, and the distances and
/// speeds as `f32` bits unchanged.
pub proof fn lemma_constant_values(config: Configuration)
    ensures
        ConstantId::ShootHeat.value_in(config) == RuntimeValue::I32(config.shoot_heat),
        ConstantId::IdleHeat.value_in(config) == RuntimeValue::I32(config.idle_heat),
        ConstantId::MoveHeat.value_in(config) == RuntimeValue::I32(config.move_heat),
        ConstantId::DeathHeat.value_in(config) == RuntimeValue::I32(config.death_heat),
        ConstantId::InstrsPerStep.value_in(config) matches RuntimeValue::I64(i) && i as u64
            == config.instrs_per_step,
        ConstantId::BulletVelocity.value_in(config) == RuntimeValue::F32(config.bullet_v),
        ConstantId::BulletSpacing.value_in(config) == RuntimeValue::F32(config.bullet_s),
        ConstantId::TankHitRadius.value_in(config) == RuntimeValue::F32(config.hit_rad),
        ConstantId::TankVelocity.value_in(config) == RuntimeValue::F32(config.tank_v),
        ConstantId::ExplosionRadius.value_in(config) == RuntimeValue::F32(config.explode_rad),
{
    let n = config.instrs_per_step;
    assert((n as i64) as u64 == n) by (bit_vector);
}


/// A posted string is exactly what memory holds at its address: the UTF-8
/// encoding of the text, free of zero bytes and followed by a zero byte.
/// Conversely, whenever memory holds such an encoding at an address, that
/// text is what is read there.
pub proof fn lemma_c_string_is_memory_contents(memory: Seq<u8>, start: int, t: Seq<char>)
    requires
        0 <= start,
    ensures
        c_string_text(memory, start) == Some(t) ==> {
            let e = encode_utf8(t);
            &&& start + e.len() < memory.len()
            &&& memory.subrange(start, start + e.len()) == e
            &&& memory[start + e.len()] == 0
            &&& forall|k: int| 0 <= k < e.len() ==> e[k] != 0
        },
        ({
            let e = encode_utf8(t);
            &&& start + e.len() < memory.len()
            &&& memory.subrange(start, start + e.len()) == e
            &&& memory[start + e.len()] == 0
            &&& forall|k: int| 0 <= k < e.len() ==> e[k] != 0
        }) ==> c_string_text(memory, start) == Some(t),
{
    let e = encode_utf8(t);
    if c_string_text(memory, start) == Some(t) {
        let end = choose|end: int| terminates_at(memory, start, end);
        let bytes = memory.subrange(start, end);
        vstd::utf8::decode_utf8_encode_utf8(bytes);
        assert(e == bytes);
        assert forall|k: int| 0 <= k < e.len() implies e[k] != 0 by {
            assert(memory[start + k] != 0);
        }
    }
    if start + e.len() < memory.len() && memory.subrange(start, start + e.len()) == e && memory[start
        + e.len()] == 0 && (forall|k: int| 0 <= k < e.len() ==> e[k] != 0) {
        let end = start + e.len();
        assert forall|k: int| start <= k < end implies memory[k] != 0 by {
            assert(memory[k] == memory.subrange(start, end)[k - start]);
        }
        assert(terminates_at(memory, start, end));
        assert forall|f: int| terminates_at(memory, start, f) implies f == end by {
            if f < end {
                assert(memory[f] != 0);
            } else if f > end {
                assert(memory[end] != 0);
            }
        }
        assert(memory.subrange(start, end) =~= e);
        vstd::utf8::encode_utf8_valid_utf8(t);
        vstd::utf8::encode_utf8_decode_utf8(t);
    }
}

/// An upcall that goes through has arguments of the types it declares: a
/// missing or mistyped argument makes it trap (`post_uint32` and
/// `post_int64` read their argument as another type than they declare, and
/// are left out; see `lemma_well_typed_calls_succeed`). A constant reads no
/// argument and returns its value.
pub proof fn lemma_upcalls_check_argument_types(
    h: HostCall,
    args: Seq<RuntimeValue>,
    config: Configuration,
    memory: Seq<u8>,
    r: HostOutcome,
)
    requires
        answers(h, args, config, memory, r),
    ensures
        h is Upcall && h != HostCall::Upcall(UpcallId::PostU32) && h != HostCall::Upcall(
            UpcallId::PostI64,
        ) && !(r is Trap) ==> args.len() >= h.params().len() && forall|i: int|
            0 <= i < h.params().len() ==> #[trigger] type_of(args[i]) == h.params()[i],
        h matches HostCall::Constant(c) ==> r == HostOutcome::Return(c.value_in(config)),
{
}

} // verus!
