use tank_vm::machine::{RunOutcome, VMState};
use tank_vm::upcall::{Reply, Upcall};
use tank_vm::calls::{Configuration, HostCall, UpcallId};
use tank_vm::host::{dispatch, HostOutcome};
use tank_vm::value::{RuntimeValue, ValueType};

#[test]
fn start_accepts_only_a_used_up_budget() {
    assert_eq!(VMState::after_start(&RunOutcome::OutOfInstructions), Some(VMState::Ready));
    assert_eq!(VMState::after_start(&RunOutcome::Finished), None);
    assert_eq!(VMState::after_start(&RunOutcome::Trapped), None);
    assert_eq!(VMState::after_start(&RunOutcome::Host(Upcall::Fire)), None);
}

#[test]
fn settle_records_upcalls() {
    let mut s = VMState::Ready;
    assert_eq!(s.settle(RunOutcome::OutOfInstructions), Upcall::Nothing);
    assert_eq!(s, VMState::Ready);
    assert_eq!(s.settle(RunOutcome::Host(Upcall::PostString("hi".to_string()))), Upcall::PostString("hi".to_string()));
    assert_eq!(s, VMState::Waiting(Upcall::PostString("hi".to_string())));
    assert_eq!(s.settle(RunOutcome::Trapped), Upcall::Explode);
    assert_eq!(s, VMState::Ready);
    assert_eq!(s.settle(RunOutcome::Host(Upcall::Temp)), Upcall::Temp);
    assert_eq!(s.settle(RunOutcome::Finished), Upcall::Explode);
    assert_eq!(s, VMState::Ready);
}

#[test]
fn resume_hands_back_the_answer() {
    let mut s = VMState::Waiting(Upcall::Scan(0, 0));
    assert_eq!(s.take_resume_value(Some(Reply::ScanCount(u64::MAX))), Some(RuntimeValue::I64(-1)));
    assert_eq!(s, VMState::Ready);

    let mut s = VMState::Waiting(Upcall::GPSX);
    assert_eq!(
        s.take_resume_value(Some(Reply::Coordinate(12.5f32.to_bits()))),
        Some(RuntimeValue::F32(12.5f32.to_bits()))
    );
    let mut s = VMState::Waiting(Upcall::GPSY);
    assert_eq!(s.take_resume_value(Some(Reply::Coordinate(7))), Some(RuntimeValue::F32(7)));
    let mut s = VMState::Waiting(Upcall::Temp);
    assert_eq!(s.take_resume_value(Some(Reply::Temperature(-40))), Some(RuntimeValue::I32(-40)));
    assert_eq!(s, VMState::Ready);
}

#[test]
fn resume_without_a_query_hands_back_nothing() {
    let mut s = VMState::Ready;
    assert_eq!(s.take_resume_value(None), None);
    let mut s = VMState::Waiting(Upcall::Fire);
    assert_eq!(s.take_resume_value(Some(Reply::Temperature(3))), None);
    assert_eq!(s, VMState::Ready);
    let mut s = VMState::Waiting(Upcall::Nothing);
    assert_eq!(s.take_resume_value(None), None);
    let mut s = VMState::Waiting(Upcall::Explode);
    assert_eq!(s.take_resume_value(None), None);
}

#[test]
fn duplicate_copies() {
    let u = Upcall::PostString("abc".to_string());
    assert_eq!(u.duplicate(), u);
    assert_eq!(Upcall::Scan(1, 2).duplicate(), Upcall::Scan(1, 2));
}

#[test]
fn resumed_value_has_the_imported_result_type() {



    let config = Configuration {
        shoot_heat: 0,
        idle_heat: 0,
        move_heat: 0,
        death_heat: 0,
        instrs_per_step: 0,
        bullet_v: 0,
        bullet_s: 0,
        hit_rad: 0,
        tank_v: 0,
        explode_rad: 0,
    };
    let cases = [
        (UpcallId::Scan, vec![RuntimeValue::F32(0), RuntimeValue::F32(0)], Some(Reply::ScanCount(3))),
        (UpcallId::GPSX, vec![], Some(Reply::Coordinate(1))),
        (UpcallId::GPSY, vec![], Some(Reply::Coordinate(2))),
        (UpcallId::Temp, vec![], Some(Reply::Temperature(4))),
        (UpcallId::Fire, vec![], None),
        (UpcallId::PostI32, vec![RuntimeValue::I32(9)], None),
        (UpcallId::Yield, vec![], None),
    ];
    for (u, args, reply) in cases {
        let h = HostCall::Upcall(u);
        let uc = match dispatch(h.to_id(), &args, &config, b"") {
            HostOutcome::Suspend(uc) => uc,
            other => panic!("unexpected {:?}", other),
        };
        let mut s = VMState::Ready;
        s.settle(RunOutcome::Host(uc));
        let v = s.take_resume_value(reply);
        let t = v.map(|v| match v {
            RuntimeValue::I32(_) => ValueType::I32,
            RuntimeValue::I64(_) => ValueType::I64,
            RuntimeValue::F32(_) => ValueType::F32,
            RuntimeValue::F64(_) => ValueType::F64,
        });
        assert_eq!(t, h.signature().1);
    }
}
