use tank_vm::calls::{
    BinaryOp, Configuration, ConstantId, HostCall, UnaryOp, UpcallId, NUM_HOST_CALLS,
};
use tank_vm::value::{RuntimeValue, ValueType};

#[test]
fn from_name_finds_upcalls_and_constants() {
    assert_eq!(HostCall::from_name("scan"), Ok(HostCall::Upcall(UpcallId::Scan)));
    assert_eq!(HostCall::from_name("yield"), Ok(HostCall::Upcall(UpcallId::Yield)));
    assert_eq!(HostCall::from_name("post_uint32"), Ok(HostCall::Upcall(UpcallId::PostU32)));
    assert_eq!(HostCall::from_name("post_float"), Ok(HostCall::Upcall(UpcallId::PostF32)));
    assert_eq!(
        HostCall::from_name("EXPLOSION_RADIUS"),
        Ok(HostCall::Constant(ConstantId::ExplosionRadius))
    );
    assert_eq!(
        HostCall::from_name("INSTRS_PER_STEP"),
        Ok(HostCall::Constant(ConstantId::InstrsPerStep))
    );
}

#[test]
fn from_name_finds_float_functions() {
    assert_eq!(HostCall::from_name("abs_float"), Ok(HostCall::UnaryOpF32(UnaryOp::Abs)));
    assert_eq!(HostCall::from_name("expm1_double"), Ok(HostCall::UnaryOpF64(UnaryOp::ExpM1)));
    assert_eq!(HostCall::from_name("atan2_float"), Ok(HostCall::BinaryOpF32(BinaryOp::Atan2)));
    assert_eq!(
        HostCall::from_name("rem_euclid_double"),
        Ok(HostCall::BinaryOpF64(BinaryOp::RemEuclid))
    );
}

#[test]
fn from_name_rejects_unknown_names() {
    assert_eq!(HostCall::from_name(""), Err(()));
    assert_eq!(HostCall::from_name("Scan"), Err(()));
    assert_eq!(HostCall::from_name("scan "), Err(()));
    assert_eq!(HostCall::from_name("abs"), Err(()));
    assert_eq!(HostCall::from_name("abs_half"), Err(()));
    assert_eq!(HostCall::from_name("écran"), Err(()));
}

#[test]
fn to_id_lays_out_groups_in_order() {
    assert_eq!(HostCall::Upcall(UpcallId::Scan).to_id(), 0);
    assert_eq!(HostCall::Upcall(UpcallId::Yield).to_id(), 16);
    assert_eq!(HostCall::Constant(ConstantId::ShootHeat).to_id(), 17);
    assert_eq!(HostCall::Constant(ConstantId::ExplosionRadius).to_id(), 26);
    assert_eq!(HostCall::UnaryOpF32(UnaryOp::Abs).to_id(), 27);
    assert_eq!(HostCall::UnaryOpF32(UnaryOp::Trunc).to_id(), 55);
    assert_eq!(HostCall::BinaryOpF32(BinaryOp::Atan2).to_id(), 56);
    assert_eq!(HostCall::BinaryOpF32(BinaryOp::RemEuclid).to_id(), 64);
    assert_eq!(HostCall::UnaryOpF64(UnaryOp::Abs).to_id(), 65);
    assert_eq!(HostCall::UnaryOpF64(UnaryOp::Trunc).to_id(), 93);
    assert_eq!(HostCall::BinaryOpF64(BinaryOp::Atan2).to_id(), 94);
    assert_eq!(HostCall::BinaryOpF64(BinaryOp::RemEuclid).to_id(), 102);
    assert_eq!(NUM_HOST_CALLS, 103);
}

#[test]
fn from_id_decodes_ids() {
    assert_eq!(HostCall::from_id(0), Some(HostCall::Upcall(UpcallId::Scan)));
    assert_eq!(HostCall::from_id(9), Some(HostCall::Upcall(UpcallId::PostString)));
    assert_eq!(HostCall::from_id(21), Some(HostCall::Constant(ConstantId::InstrsPerStep)));
    assert_eq!(HostCall::from_id(40), Some(HostCall::UnaryOpF32(UnaryOp::ExpM1)));
    assert_eq!(HostCall::from_id(61), Some(HostCall::BinaryOpF32(BinaryOp::Max)));
    assert_eq!(HostCall::from_id(90), Some(HostCall::UnaryOpF64(UnaryOp::Sqrt)));
    assert_eq!(HostCall::from_id(98), Some(HostCall::BinaryOpF64(BinaryOp::Log)));
    assert_eq!(HostCall::from_id(103), None);
    assert_eq!(HostCall::from_id(usize::MAX), None);
}

#[test]
fn ids_round_trip() {
    for id in 0..NUM_HOST_CALLS {
        let h = HostCall::from_id(id).unwrap();
        assert_eq!(h.to_id(), id);
    }
}

#[test]
fn names_are_distinct_and_round_trip() {
    let mut names: Vec<&str> = Vec::new();
    for id in 0..NUM_HOST_CALLS {
        let h = HostCall::from_id(id).unwrap();
        let name = h.name_str();
        assert!(!names.contains(&name));
        names.push(name);
        assert_eq!(HostCall::from_name(name), Ok(h));
    }
}

#[test]
fn signatures_of_upcalls() {
    assert_eq!(HostCall::Upcall(UpcallId::Scan).signature(), (vec![ValueType::F32, ValueType::F32], Some(ValueType::I64)));
    assert_eq!(HostCall::Upcall(UpcallId::Fire).signature(), (vec![], None));
    assert_eq!(HostCall::Upcall(UpcallId::Aim).signature(), (vec![ValueType::F32], None));
    assert_eq!(HostCall::Upcall(UpcallId::GPSY).signature(), (vec![], Some(ValueType::F32)));
    assert_eq!(HostCall::Upcall(UpcallId::Temp).signature(), (vec![], Some(ValueType::I32)));
    assert_eq!(HostCall::Upcall(UpcallId::PostString).signature(), (vec![ValueType::I32], None));
    assert_eq!(HostCall::Upcall(UpcallId::PostU32).signature(), (vec![ValueType::I64], None));
    assert_eq!(HostCall::Upcall(UpcallId::PostI64).signature(), (vec![ValueType::I32], None));
    assert_eq!(HostCall::Upcall(UpcallId::PostF64).signature(), (vec![ValueType::F64], None));
    assert_eq!(HostCall::Upcall(UpcallId::Yield).signature(), (vec![], None));
}

#[test]
fn signatures_of_constants_and_functions() {
    assert_eq!(HostCall::Constant(ConstantId::ShootHeat).signature(), (vec![], Some(ValueType::I32)));
    assert_eq!(HostCall::Constant(ConstantId::InstrsPerStep).signature(), (vec![], Some(ValueType::I64)));
    assert_eq!(HostCall::Constant(ConstantId::TankVelocity).signature(), (vec![], Some(ValueType::F32)));
    assert_eq!(HostCall::UnaryOpF32(UnaryOp::Sqrt).signature(), (vec![ValueType::F32], Some(ValueType::F32)));
    assert_eq!(HostCall::BinaryOpF32(BinaryOp::Hypot).signature(), (vec![ValueType::F32, ValueType::F32], Some(ValueType::F32)));
    assert_eq!(HostCall::UnaryOpF64(UnaryOp::Ln).signature(), (vec![ValueType::F64], Some(ValueType::F64)));
    assert_eq!(HostCall::BinaryOpF64(BinaryOp::Powf).signature(), (vec![ValueType::F64, ValueType::F64], Some(ValueType::F64)));
}

fn config() -> Configuration {
    Configuration {
        shoot_heat: 7,
        idle_heat: -2,
        move_heat: 3,
        death_heat: 1000,
        instrs_per_step: u64::MAX,
        bullet_v: 5.5f32.to_bits(),
        bullet_s: 0.25f32.to_bits(),
        hit_rad: 10.0f32.to_bits(),
        tank_v: 1.5f32.to_bits(),
        explode_rad: 20.0f32.to_bits(),
    }
}

#[test]
fn constants_have_their_values_and_types() {
    let c = config();
    assert_eq!(ConstantId::ShootHeat.runtime_value(&c), RuntimeValue::I32(7));
    assert_eq!(ConstantId::IdleHeat.runtime_value(&c), RuntimeValue::I32(-2));
    assert_eq!(ConstantId::MoveHeat.runtime_value(&c), RuntimeValue::I32(3));
    assert_eq!(ConstantId::DeathHeat.runtime_value(&c), RuntimeValue::I32(1000));
    assert_eq!(ConstantId::InstrsPerStep.runtime_value(&c), RuntimeValue::I64(-1));
    assert_eq!(ConstantId::BulletVelocity.runtime_value(&c), RuntimeValue::F32(5.5f32.to_bits()));
    assert_eq!(ConstantId::BulletSpacing.runtime_value(&c), RuntimeValue::F32(0.25f32.to_bits()));
    assert_eq!(ConstantId::TankHitRadius.runtime_value(&c), RuntimeValue::F32(10.0f32.to_bits()));
    assert_eq!(ConstantId::TankVelocity.runtime_value(&c), RuntimeValue::F32(1.5f32.to_bits()));
    assert_eq!(ConstantId::ExplosionRadius.runtime_value(&c), RuntimeValue::F32(20.0f32.to_bits()));
    assert_eq!(ConstantId::DeathHeat.value_type(), ValueType::I32);
    assert_eq!(ConstantId::InstrsPerStep.value_type(), ValueType::I64);
    assert_eq!(ConstantId::TankHitRadius.value_type(), ValueType::F32);
}

#[test]
fn constant_types_agree_with_values() {
    let c = Configuration { instrs_per_step: 5000, ..config() };
    assert_eq!(ConstantId::InstrsPerStep.runtime_value(&c), RuntimeValue::I64(5000));
    for i in 0..10 {
        let k = ConstantId::from_index(i).unwrap();
        let ty = match k.runtime_value(&c) {
            RuntimeValue::I32(_) => ValueType::I32,
            RuntimeValue::I64(_) => ValueType::I64,
            RuntimeValue::F32(_) => ValueType::F32,
            RuntimeValue::F64(_) => ValueType::F64,
        };
        assert_eq!(ty, k.value_type());
        assert_eq!(HostCall::Constant(k).signature().1, Some(ty));
    }
}

#[test]
fn index_helpers() {
    assert_eq!(UpcallId::from_index(16), Some(UpcallId::Yield));
    assert_eq!(UpcallId::from_index(17), None);
    assert_eq!(UnaryOp::Sqrt.to_index(), 25);
    assert_eq!(BinaryOp::from_index(9), None);
    assert_eq!(ConstantId::BulletSpacing.to_index(), 6);
}
