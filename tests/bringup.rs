use aarch64_rt::{
    descriptor_slot, trampoline, BringupAction, BringupEvent, BringupStage, CoreBringup,
    CpuOnRequest, LayoutError, StartCoreStack, TrampolineError,
};
use std::cell::Cell;

const BASE: u64 = 0x4008_0000;
const ENTRY: u64 = 0x4000_1000;
const TRAMPOLINE: u64 = 0x4000_2000;

#[test]
fn slot_sits_at_top_of_stack() {
    assert_eq!(descriptor_slot(BASE, 4, 32), Ok(BASE + 4 * 4096 - 32));
    assert_eq!(descriptor_slot(BASE, 1, 4096), Ok(BASE));
    // A size that is not a multiple of 16 is rounded up.
    assert_eq!(descriptor_slot(BASE, 4, 20), Ok(BASE + 4 * 4096 - 32));
    assert_eq!(descriptor_slot(BASE, 4, 0), Ok(BASE + 4 * 4096));
}

#[test]
fn oversized_entry_is_rejected() {
    assert_eq!(descriptor_slot(BASE, 4, 4 * 4096 + 1), Err(LayoutError::EntryTooLarge));
    assert_eq!(descriptor_slot(BASE, 1, 4090), Ok(BASE));
    assert_eq!(descriptor_slot(BASE, 1, 4097), Err(LayoutError::EntryTooLarge));
    assert_eq!(descriptor_slot(BASE, 0, 16), Err(LayoutError::EntryTooLarge));
    assert_eq!(
        CoreBringup::new(1, ENTRY, BASE, 4, 5 * 4096),
        Err(LayoutError::EntryTooLarge)
    );
}

#[test]
fn descriptor_is_taken_once() {
    let mut d = StartCoreStack::new(TRAMPOLINE, 7u32);
    assert!(d.is_pending());
    assert_eq!(d.take_entry(), Ok(7));
    assert!(!d.is_pending());
    assert_eq!(d.take_entry(), Err(TrampolineError::AlreadyTaken));
    assert_eq!(d.trampoline_ptr, TRAMPOLINE);
}

#[test]
fn second_trampoline_is_fatal_and_runs_nothing() {
    let runs = Cell::new(0u32);
    let mut d = StartCoreStack::new(TRAMPOLINE, || runs.set(runs.get() + 1));
    assert_eq!(trampoline(&mut d), TrampolineError::EntryReturned);
    assert_eq!(runs.get(), 1);
    assert_eq!(trampoline(&mut d), TrampolineError::AlreadyTaken);
    assert_eq!(runs.get(), 1);
}

#[test]
fn start_core_one_with_four_pages() {
    let sentinel = Cell::new(0u32);
    let mut bringup = CoreBringup::new(1, ENTRY, BASE, 4, 32).unwrap();
    assert_eq!(bringup.stage, BringupStage::Ready);
    let slot = BASE + 4 * 4096 - 32;

    let mut target: Option<StartCoreStack<_>> = None;
    match bringup.step(BringupEvent::Start) {
        BringupAction::WriteDescriptor { addr } => {
            assert_eq!(addr, slot);
            target = Some(StartCoreStack::new(TRAMPOLINE, || sentinel.set(sentinel.get() + 1)));
        }
        _ => panic!("expected the descriptor write first"),
    }
    assert!(matches!(
        bringup.step(BringupEvent::DescriptorWritten),
        BringupAction::StoreBarrier
    ));
    match bringup.step(BringupEvent::BarrierDone) {
        BringupAction::CpuOn(req) => {
            assert_eq!(
                req,
                CpuOnRequest { target_cpu: 1, entry_point: ENTRY, context_id: slot }
            );
            // The started core finds a complete descriptor at its stack pointer.
            let d = target.as_mut().unwrap();
            assert!(d.is_pending());
            assert_eq!(trampoline(d), TrampolineError::EntryReturned);
        }
        _ => panic!("expected the CPU_ON call after the barrier"),
    }
    match bringup.step(BringupEvent::FirmwareReturned(Ok(()))) {
        BringupAction::Complete(r) => assert_eq!(r, Ok(())),
        _ => panic!("expected completion"),
    }
    assert_eq!(bringup.stage, BringupStage::Finished);
    assert_eq!(sentinel.get(), 1);
    assert_eq!(trampoline(target.as_mut().unwrap()), TrampolineError::AlreadyTaken);
    assert_eq!(sentinel.get(), 1);
}

#[test]
fn core_already_on_is_reported() {
    let mut bringup = CoreBringup::new(3, ENTRY, BASE, 4, 32).unwrap();
    bringup.step(BringupEvent::Start);
    bringup.step(BringupEvent::DescriptorWritten);
    bringup.step(BringupEvent::BarrierDone);
    match bringup.step(BringupEvent::FirmwareReturned(Err(smccc::psci::Error::AlreadyOn))) {
        BringupAction::Complete(r) => assert_eq!(r, Err(smccc::psci::Error::AlreadyOn)),
        _ => panic!("expected completion"),
    }
    assert_eq!(bringup.stage, BringupStage::Finished);
    assert!(matches!(
        bringup.step(BringupEvent::FirmwareReturned(Ok(()))),
        BringupAction::Nothing
    ));
}

#[test]
fn cpu_on_never_precedes_the_barrier() {
    let mut bringup = CoreBringup::new(2, ENTRY, BASE, 8, 48).unwrap();
    assert!(matches!(bringup.step(BringupEvent::BarrierDone), BringupAction::Nothing));
    assert!(matches!(
        bringup.step(BringupEvent::DescriptorWritten),
        BringupAction::Nothing
    ));
    assert_eq!(bringup.stage, BringupStage::Ready);
    assert!(matches!(
        bringup.step(BringupEvent::Start),
        BringupAction::WriteDescriptor { .. }
    ));
    assert!(matches!(bringup.step(BringupEvent::BarrierDone), BringupAction::Nothing));
    assert_eq!(bringup.stage, BringupStage::Writing);
    assert!(matches!(
        bringup.step(BringupEvent::DescriptorWritten),
        BringupAction::StoreBarrier
    ));
    assert!(matches!(
        bringup.step(BringupEvent::FirmwareReturned(Ok(()))),
        BringupAction::Nothing
    ));
    assert!(matches!(bringup.step(BringupEvent::BarrierDone), BringupAction::CpuOn(_)));
}

#[test]
fn new_bringup_records_request() {
    let m = CoreBringup::new(0x8000_0101, ENTRY, BASE, 2, 48).unwrap();
    assert_eq!(m.target_cpu, 0x8000_0101);
    assert_eq!(m.entry_point, ENTRY);
    assert_eq!(m.descriptor_addr, BASE + 2 * 4096 - 48);
    assert_eq!(m.descriptor_addr % 16, 0);
    assert_eq!(m.stage, BringupStage::Ready);
}
