use tank_vm::calls::{BinaryOp, Configuration, ConstantId, HostCall, UnaryOp, UpcallId};
use tank_vm::host::{dispatch, resolve, HostOutcome, ResolveError, TrapReason};
use tank_vm::upcall::Upcall;
use tank_vm::value::{RuntimeValue, ValueType};

fn config() -> Configuration {
    Configuration {
        shoot_heat: 12,
        idle_heat: 1,
        move_heat: 2,
        death_heat: 500,
        instrs_per_step: 1000,
        bullet_v: 3.0f32.to_bits(),
        bullet_s: 0.5f32.to_bits(),
        hit_rad: 8.0f32.to_bits(),
        tank_v: 2.0f32.to_bits(),
        explode_rad: 25.0f32.to_bits(),
    }
}

fn id(h: HostCall) -> usize {
    h.to_id()
}

fn call(h: HostCall, args: &[RuntimeValue]) -> HostOutcome {
    dispatch(id(h), args, &config(), b"")
}

#[test]
fn unknown_index_traps() {
    assert_eq!(
        dispatch(103, &[], &config(), b""),
        HostOutcome::Trap(TrapReason::TableAccessOutOfBounds)
    );
    assert_eq!(
        dispatch(usize::MAX, &[], &config(), b""),
        HostOutcome::Trap(TrapReason::TableAccessOutOfBounds)
    );
}

#[test]
fn scan_reads_two_headings() {
    let a = RuntimeValue::F32(1.0f32.to_bits());
    let b = RuntimeValue::F32(2.5f32.to_bits());
    assert_eq!(
        call(HostCall::Upcall(UpcallId::Scan), &[a, b]),
        HostOutcome::Suspend(Upcall::Scan(1.0f32.to_bits(), 2.5f32.to_bits()))
    );
    assert_eq!(
        call(HostCall::Upcall(UpcallId::Scan), &[a]),
        HostOutcome::Trap(TrapReason::UnexpectedSignature)
    );
    assert_eq!(
        call(HostCall::Upcall(UpcallId::Scan), &[a, RuntimeValue::I32(2)]),
        HostOutcome::Trap(TrapReason::UnexpectedSignature)
    );
}

#[test]
fn argumentless_upcalls() {
    assert_eq!(call(HostCall::Upcall(UpcallId::Fire), &[]), HostOutcome::Suspend(Upcall::Fire));
    assert_eq!(call(HostCall::Upcall(UpcallId::GPSX), &[]), HostOutcome::Suspend(Upcall::GPSX));
    assert_eq!(call(HostCall::Upcall(UpcallId::GPSY), &[]), HostOutcome::Suspend(Upcall::GPSY));
    assert_eq!(call(HostCall::Upcall(UpcallId::Temp), &[]), HostOutcome::Suspend(Upcall::Temp));
    assert_eq!(
        call(HostCall::Upcall(UpcallId::Forward), &[]),
        HostOutcome::Suspend(Upcall::Forward)
    );
    assert_eq!(
        call(HostCall::Upcall(UpcallId::Explode), &[]),
        HostOutcome::Suspend(Upcall::Explode)
    );
    assert_eq!(
        call(HostCall::Upcall(UpcallId::Yield), &[]),
        HostOutcome::Suspend(Upcall::Nothing)
    );
}

#[test]
fn aim_and_turn_take_a_heading() {
    let h = RuntimeValue::F32(0.75f32.to_bits());
    assert_eq!(
        call(HostCall::Upcall(UpcallId::Aim), &[h]),
        HostOutcome::Suspend(Upcall::Aim(0.75f32.to_bits()))
    );
    assert_eq!(
        call(HostCall::Upcall(UpcallId::Turn), &[h]),
        HostOutcome::Suspend(Upcall::Turn(0.75f32.to_bits()))
    );
    assert_eq!(
        call(HostCall::Upcall(UpcallId::Turn), &[RuntimeValue::F64(0)]),
        HostOutcome::Trap(TrapReason::UnexpectedSignature)
    );
}

#[test]
fn posts_of_numbers() {
    assert_eq!(
        call(HostCall::Upcall(UpcallId::PostI32), &[RuntimeValue::I32(-5)]),
        HostOutcome::Suspend(Upcall::PostI32(-5))
    );
    assert_eq!(
        call(HostCall::Upcall(UpcallId::PostU32), &[RuntimeValue::I32(-1)]),
        HostOutcome::Suspend(Upcall::PostU32(u32::MAX))
    );
    assert_eq!(
        call(HostCall::Upcall(UpcallId::PostI64), &[RuntimeValue::I64(-7)]),
        HostOutcome::Suspend(Upcall::PostI64(-7))
    );
    assert_eq!(
        call(HostCall::Upcall(UpcallId::PostU64), &[RuntimeValue::I64(-1)]),
        HostOutcome::Suspend(Upcall::PostU64(u64::MAX))
    );
    assert_eq!(
        call(HostCall::Upcall(UpcallId::PostF32), &[RuntimeValue::F32(1.25f32.to_bits())]),
        HostOutcome::Suspend(Upcall::PostF32(1.25f32.to_bits()))
    );
    assert_eq!(
        call(HostCall::Upcall(UpcallId::PostF64), &[RuntimeValue::F64(1.25f64.to_bits())]),
        HostOutcome::Suspend(Upcall::PostF64(1.25f64.to_bits()))
    );
}

#[test]
fn posts_whose_signature_disagrees_with_their_argument_trap() {
    // Declared with an i64 parameter, read as an i32.
    assert_eq!(
        call(HostCall::Upcall(UpcallId::PostU32), &[RuntimeValue::I64(3)]),
        HostOutcome::Trap(TrapReason::UnexpectedSignature)
    );
    // Declared with an i32 parameter, read as an i64.
    assert_eq!(
        call(HostCall::Upcall(UpcallId::PostI64), &[RuntimeValue::I32(3)]),
        HostOutcome::Trap(TrapReason::UnexpectedSignature)
    );
}

#[test]
fn post_string_reads_memory() {
    let memory = b"\0\0hi there\0junk".to_vec();
    let h = id(HostCall::Upcall(UpcallId::PostString));
    assert_eq!(
        dispatch(h, &[RuntimeValue::I32(2)], &config(), &memory),
        HostOutcome::Suspend(Upcall::PostString("hi there".to_string()))
    );
    assert_eq!(
        dispatch(h, &[RuntimeValue::I32(0)], &config(), &memory),
        HostOutcome::Suspend(Upcall::PostString(String::new()))
    );
    assert_eq!(
        dispatch(h, &[RuntimeValue::I32(12)], &config(), &memory),
        HostOutcome::Suspend(Upcall::Explode)
    );
    assert_eq!(
        dispatch(h, &[RuntimeValue::I32(-1)], &config(), &memory),
        HostOutcome::Suspend(Upcall::Explode)
    );
    assert_eq!(
        dispatch(h, &[RuntimeValue::I64(2)], &config(), &memory),
        HostOutcome::Trap(TrapReason::UnexpectedSignature)
    );
    let bad = vec![0xF0, 0x28, 0x8C, 0x28, 0];
    assert_eq!(
        dispatch(h, &[RuntimeValue::I32(0)], &config(), &bad),
        HostOutcome::Suspend(Upcall::Explode)
    );
}

#[test]
fn constants_return_their_values() {
    assert_eq!(
        call(HostCall::Constant(ConstantId::ShootHeat), &[]),
        HostOutcome::Return(RuntimeValue::I32(12))
    );
    assert_eq!(
        call(HostCall::Constant(ConstantId::InstrsPerStep), &[]),
        HostOutcome::Return(RuntimeValue::I64(1000))
    );
    assert_eq!(
        call(HostCall::Constant(ConstantId::ExplosionRadius), &[]),
        HostOutcome::Return(RuntimeValue::F32(25.0f32.to_bits()))
    );
}

#[test]
fn float_functions_pass_their_operands() {
    let x = RuntimeValue::F32(4.0f32.to_bits());
    let y = RuntimeValue::F64(9.0f64.to_bits());
    assert_eq!(
        call(HostCall::UnaryOpF32(UnaryOp::Sqrt), &[x]),
        HostOutcome::Unary(UnaryOp::Sqrt, x)
    );
    assert_eq!(
        call(HostCall::UnaryOpF64(UnaryOp::Sqrt), &[y]),
        HostOutcome::Unary(UnaryOp::Sqrt, y)
    );
    assert_eq!(
        call(HostCall::UnaryOpF64(UnaryOp::Cos), &[]),
        HostOutcome::Trap(TrapReason::UnexpectedSignature)
    );
    assert_eq!(
        call(HostCall::BinaryOpF32(BinaryOp::Max), &[x, x]),
        HostOutcome::Binary(BinaryOp::Max, x, x)
    );
    assert_eq!(
        call(HostCall::BinaryOpF64(BinaryOp::Powf), &[y, y]),
        HostOutcome::Binary(BinaryOp::Powf, y, y)
    );
    assert_eq!(
        call(HostCall::BinaryOpF64(BinaryOp::Powf), &[y]),
        HostOutcome::Trap(TrapReason::UnexpectedSignature)
    );
}

#[test]
fn well_typed_calls_do_not_trap() {
    for i in 0..tank_vm::calls::NUM_HOST_CALLS {
        let h = HostCall::from_id(i).unwrap();
        if h == HostCall::Upcall(UpcallId::PostU32) || h == HostCall::Upcall(UpcallId::PostI64) {
            continue;
        }
        let (params, result) = h.signature();
        let args: Vec<RuntimeValue> = params
            .iter()
            .map(|t| match t {
                ValueType::I32 => RuntimeValue::I32(0),
                ValueType::I64 => RuntimeValue::I64(0),
                ValueType::F32 => RuntimeValue::F32(0),
                ValueType::F64 => RuntimeValue::F64(0),
            })
            .collect();
        let out = dispatch(i, &args, &config(), b"\0");
        assert!(!matches!(out, HostOutcome::Trap(_)), "{:?} trapped", h);
        if let HostOutcome::Unary(_, v) | HostOutcome::Binary(_, v, _) = out {
            let t = match v {
                RuntimeValue::F32(_) => ValueType::F32,
                RuntimeValue::F64(_) => ValueType::F64,
                _ => ValueType::I32,
            };
            assert_eq!(Some(t), result);
        }
    }
}

#[test]
fn resolve_checks_name_and_signature() {
    assert_eq!(resolve("scan", &[ValueType::F32, ValueType::F32], Some(ValueType::I64)), Ok(0));
    assert_eq!(resolve("rem_euclid_double", &[ValueType::F64, ValueType::F64], Some(ValueType::F64)), Ok(102));
    assert_eq!(resolve("TANK_VELOCITY", &[], Some(ValueType::F32)), Ok(25));
    assert_eq!(resolve("fire", &[], None), Ok(1));
    assert_eq!(resolve("scan", &[ValueType::F32], Some(ValueType::I64)), Err(ResolveError::IncorrectSignature));
    assert_eq!(resolve("scan", &[ValueType::F32, ValueType::F32], None), Err(ResolveError::IncorrectSignature));
    assert_eq!(resolve("fire", &[], Some(ValueType::I32)), Err(ResolveError::IncorrectSignature));
    assert_eq!(resolve("launch", &[], None), Err(ResolveError::NotFound));
    assert_eq!(resolve("", &[], None), Err(ResolveError::NotFound));
}

#[test]
fn resolved_imports_dispatch_to_the_named_call() {
    let i = resolve("temp", &[], Some(ValueType::I32)).unwrap();
    assert_eq!(dispatch(i, &[], &config(), b""), HostOutcome::Suspend(Upcall::Temp));
    let j = resolve("DEATH_HEAT", &[], Some(ValueType::I32)).unwrap();
    assert_eq!(dispatch(j, &[], &config(), b""), HostOutcome::Return(RuntimeValue::I32(500)));
}

#[test]
fn upcalls_that_alter_the_world() {
    assert!(Upcall::Fire.alters_world());
    assert!(Upcall::Forward.alters_world());
    assert!(Upcall::Explode.alters_world());
    assert!(!Upcall::Nothing.alters_world());
    assert!(!Upcall::Scan(0, 0).alters_world());
    assert!(!Upcall::Aim(0).alters_world());
    assert!(!Upcall::Turn(0).alters_world());
    assert!(!Upcall::GPSX.alters_world());
    assert!(!Upcall::GPSY.alters_world());
    assert!(!Upcall::Temp.alters_world());
    assert!(!Upcall::PostString("x".to_string()).alters_world());
    assert!(!Upcall::PostI32(1).alters_world());
    assert!(!Upcall::PostU32(1).alters_world());
    assert!(!Upcall::PostI64(1).alters_world());
    assert!(!Upcall::PostU64(1).alters_world());
    assert!(!Upcall::PostF32(1).alters_world());
    assert!(!Upcall::PostF64(1).alters_world());
}
