//! Starting a secondary core: placing the descriptor at the top of the core's
//! stack, publishing it with a store barrier, and only then asking firmware to
//! power the core on.
//!
//! The sequence is a state machine. Its driver performs each action it is given
//! (a raw store, a barrier, the `CPU_ON` call) and reports back with an event.
//!
//! The descriptor is written before firmware is asked anything. When firmware
//! then answers that the core is already on, the write has happened all the
//! same: the stack handed over must not be in use by any running core, which
//! is the caller's obligation and is not checked here.

use crate::stack::{page_aligned, stack_size, PAGE_SIZE};
use vstd::prelude::*;

verus! {

/// Alignment, in bytes, that AArch64 requires of the stack pointer.
pub const STACK_ALIGN: usize = 16;

/// `n` rounded up to a multiple of the stack alignment.
pub open spec fn align_up(n: int) -> int {
    if n % STACK_ALIGN as int == 0 {
        n
    } else {
        n + STACK_ALIGN as int - n % STACK_ALIGN as int
    }
}

/// The address of the descriptor at the top of a stack of `num_pages` pages
/// starting at `stack_base`, for a descriptor of `descriptor_size` bytes.
pub open spec fn slot_spec(stack_base: u64, num_pages: usize, descriptor_size: usize) -> int {
    stack_base + stack_size(num_pages as nat) - align_up(descriptor_size as int)
}

/// Whether a descriptor of `descriptor_size` bytes fits in a stack of `num_pages` pages.
pub open spec fn fits(num_pages: usize, descriptor_size: usize) -> bool {
    align_up(descriptor_size as int) <= stack_size(num_pages as nat)
}

/// Why a core cannot be started with the given stack.
#[derive(Clone, Copy, Debug, PartialEq, Eq, Structural)]
pub enum LayoutError {
    /// The descriptor holding the unit of work is larger than the stack.
    EntryTooLarge,
}

proof fn lemma_slot_aligned(base: int, pages: int, size: int)
    requires
        base % PAGE_SIZE as int == 0,
        pages >= 0,
        size >= 0,
    ensures
        align_up(size) % STACK_ALIGN as int == 0,
        align_up(size) >= size,
        (base + pages * PAGE_SIZE as int - align_up(size)) % STACK_ALIGN as int == 0,
{
    let r = size % 16;
    assert(0 <= r < 16);
    assert((size - r) % 16 == 0) by (nonlinear_arith)
        requires r == size % 16;
    assert((base + pages * 4096) % 16 == 0) by (nonlinear_arith)
        requires base % 4096 == 0, pages >= 0;
    let a = align_up(size);
    assert(a % 16 == 0) by {
        if r != 0 {
            assert((size - r + 16) % 16 == 0) by (nonlinear_arith)
                requires (size - r) % 16 == 0;
        }
    }
    assert((base + pages * 4096 - a) % 16 == 0) by (nonlinear_arith)
        requires (base + pages * 4096) % 16 == 0, a % 16 == 0;
}

/// The address of the descriptor slot at the top of a stack of `num_pages`
/// pages that starts at the page-aligned address `stack_base`. The slot is
/// 16-byte aligned and ends where the stack ends.
pub fn descriptor_slot(stack_base: u64, num_pages: usize, descriptor_size: usize) -> (r: Result<
    u64,
    LayoutError,
>)
    requires
        page_aligned(stack_base as int),
        stack_base + stack_size(num_pages as nat) <= u64::MAX,
    ensures
        r is Err <==> !fits(num_pages, descriptor_size),
        r matches Err(e) ==> e == LayoutError::EntryTooLarge,
        r matches Ok(a) ==> {
            &&& a == slot_spec(stack_base, num_pages, descriptor_size)
            &&& stack_base <= a
            &&& a + descriptor_size <= stack_base + stack_size(num_pages as nat)
            &&& a as int % STACK_ALIGN as int == 0
        },
{
    let size: u64 = num_pages as u64 * PAGE_SIZE as u64;
    let rem: u64 = descriptor_size as u64 % STACK_ALIGN as u64;
    if descriptor_size as u64 > size {
        return Err(LayoutError::EntryTooLarge);
    }
    let reserved: u64 = if rem == 0 {
        descriptor_size as u64
    } else {
        descriptor_size as u64 + (STACK_ALIGN as u64 - rem)
    };
    if reserved > size {
        return Err(LayoutError::EntryTooLarge);
    }
    let slot: u64 = stack_base + size - reserved;
    proof {
        lemma_slot_aligned(stack_base as int, num_pages as int, descriptor_size as int);
    }
    Ok(slot)
}

/// The arguments of the firmware `CPU_ON` call.
#[derive(Clone, Copy, Debug, PartialEq, Eq, Structural)]
pub struct CpuOnRequest {
    /// MPIDR value naming the core to start.
    pub target_cpu: u64,
    /// Address at which the core starts executing.
    pub entry_point: u64,
    /// Value handed to the core in `x0`: its initial stack pointer, which is
    /// the address of the descriptor.
    pub context_id: u64,
}

/// How far a bring-up has gone.
#[derive(Clone, Copy, Debug, PartialEq, Eq, Structural)]
pub enum BringupStage {
    /// Nothing has been done yet.
    Ready,
    /// The descriptor is being written to the target stack.
    Writing,
    /// The store barrier that publishes the descriptor is being issued.
    Publishing,
    /// Firmware has been asked to start the core.
    Requesting,
    /// Firmware has answered.
    Finished,
}

/// What the driver reports after performing an action.
#[derive(Clone, Copy, Debug, PartialEq, Eq)]
pub enum BringupEvent {
    /// Begin the bring-up.
    Start,
    /// The descriptor has been stored.
    DescriptorWritten,
    /// The store barrier has completed.
    BarrierDone,
    /// The `CPU_ON` call returned this.
    FirmwareReturned(Result<(), smccc::psci::Error>),
}

/// What the driver must do next.
#[derive(Clone, Copy, Debug, PartialEq, Eq)]
pub enum BringupAction {
    /// Store the descriptor at this address.
    WriteDescriptor { addr: u64 },
    /// Issue a store barrier for the full system.
    StoreBarrier,
    /// Make the firmware `CPU_ON` call.
    CpuOn(CpuOnRequest),
    /// The bring-up is over, with the firmware's outcome.
    Complete(Result<(), smccc::psci::Error>),
    /// The event did not belong to the current stage; nothing to do.
    Nothing,
}

/// The bring-up of one secondary core.
#[derive(Clone, Copy, Debug, PartialEq, Eq, Structural)]
pub struct CoreBringup {
    /// MPIDR value of the core to start.
    pub target_cpu: u64,
    /// Address of the secondary entry sequence.
    pub entry_point: u64,
    /// Address of the descriptor at the top of the core's stack.
    pub descriptor_addr: u64,
    /// How far the bring-up has gone.
    pub stage: BringupStage,
}

/// The `CPU_ON` request that `m` issues.
pub open spec fn request_spec(m: CoreBringup) -> CpuOnRequest {
    CpuOnRequest {
        target_cpu: m.target_cpu,
        entry_point: m.entry_point,
        context_id: m.descriptor_addr,
    }
}

/// `m` moved on to `stage`.
pub open spec fn at_stage(m: CoreBringup, stage: BringupStage) -> CoreBringup {
    CoreBringup { stage, ..m }
}

/// One transition: the next state and the action to perform.
pub open spec fn step_spec(m: CoreBringup, e: BringupEvent) -> (CoreBringup, BringupAction) {
    match m.stage {
        BringupStage::Ready => match e {
            BringupEvent::Start => (
                at_stage(m, BringupStage::Writing),
                BringupAction::WriteDescriptor { addr: m.descriptor_addr },
            ),
            _ => (m, BringupAction::Nothing),
        },
        BringupStage::Writing => match e {
            BringupEvent::DescriptorWritten => (
                at_stage(m, BringupStage::Publishing),
                BringupAction::StoreBarrier,
            ),
            _ => (m, BringupAction::Nothing),
        },
        BringupStage::Publishing => match e {
            BringupEvent::BarrierDone => (
                at_stage(m, BringupStage::Requesting),
                BringupAction::CpuOn(request_spec(m)),
            ),
            _ => (m, BringupAction::Nothing),
        },
        BringupStage::Requesting => match e {
            BringupEvent::FirmwareReturned(r) => (
                at_stage(m, BringupStage::Finished),
                BringupAction::Complete(r),
            ),
            _ => (m, BringupAction::Nothing),
        },
        BringupStage::Finished => (m, BringupAction::Nothing),
    }
}

impl CoreBringup {
    /// Prepares the start of core `target_cpu` at `entry_point`, with the
    /// stack of `num_pages` pages at the page-aligned address `stack_base` and
    /// a descriptor of `descriptor_size` bytes. Fails if the descriptor does
    /// not fit in the stack.
    pub fn new(
        target_cpu: u64,
        entry_point: u64,
        stack_base: u64,
        num_pages: usize,
        descriptor_size: usize,
    ) -> (r: Result<CoreBringup, LayoutError>)
        requires
            page_aligned(stack_base as int),
            stack_base + stack_size(num_pages as nat) <= u64::MAX,
        ensures
            r is Err <==> !fits(num_pages, descriptor_size),
            r matches Err(e) ==> e == LayoutError::EntryTooLarge,
            r matches Ok(m) ==> m == (CoreBringup {
                target_cpu,
                entry_point,
                descriptor_addr: slot_spec(stack_base, num_pages, descriptor_size) as u64,
                stage: BringupStage::Ready,
            }),
            r matches Ok(m) ==> {
                &&& stack_base <= m.descriptor_addr
                &&& m.descriptor_addr + descriptor_size <= stack_base + stack_size(num_pages as nat)
                &&& m.descriptor_addr as int % STACK_ALIGN as int == 0
            },
    {
        match descriptor_slot(stack_base, num_pages, descriptor_size) {
            Ok(descriptor_addr) => Ok(
                CoreBringup { target_cpu, entry_point, descriptor_addr, stage: BringupStage::Ready },
            ),
            Err(e) => Err(e),
        }
    }

    /// Consumes the driver's event and returns the next action.
    pub fn step(&mut self, event: BringupEvent) -> (a: BringupAction)
        ensures
            (*final(self), a) == step_spec(*old(self), event),
    {
        match (self.stage, event) {
            (BringupStage::Ready, BringupEvent::Start) => {
                self.stage = BringupStage::Writing;
                BringupAction::WriteDescriptor { addr: self.descriptor_addr }
            },
            (BringupStage::Writing, BringupEvent::DescriptorWritten) => {
                self.stage = BringupStage::Publishing;
                BringupAction::StoreBarrier
            },
            (BringupStage::Publishing, BringupEvent::BarrierDone) => {
                self.stage = BringupStage::Requesting;
                BringupAction::CpuOn(
                    CpuOnRequest {
                        target_cpu: self.target_cpu,
                        entry_point: self.entry_point,
                        context_id: self.descriptor_addr,
                    },
                )
            },
            (BringupStage::Requesting, BringupEvent::FirmwareReturned(r)) => {
                self.stage = BringupStage::Finished;
                BringupAction::Complete(r)
            },
            _ => BringupAction::Nothing,
        }
    }
}

/// The state reached and the actions issued when `m` consumes `events` in order.
pub open spec fn run(m: CoreBringup, events: Seq<BringupEvent>) -> (CoreBringup, Seq<BringupAction>)
    decreases events.len(),
{
    if events.len() == 0 {
        (m, Seq::empty())
    } else {
        let prev = run(m, events.drop_last());
        let next = step_spec(prev.0, events.last());
        (next.0, prev.1.push(next.1))
    }
}

/// Among `actions`, a store of the descriptor at `addr` and then a store
/// barrier both come before position `i`.
pub open spec fn published_before(actions: Seq<BringupAction>, addr: u64, i: int) -> bool {
    exists|j: int, k: int|
        0 <= j < k < i && #[trigger] actions[j] == (BringupAction::WriteDescriptor { addr })
            && #[trigger] actions[k] == BringupAction::StoreBarrier
}

spec fn descriptor_issued(stage: BringupStage) -> bool {
    stage != BringupStage::Ready
}

spec fn barrier_issued(stage: BringupStage) -> bool {
    stage != BringupStage::Ready && stage != BringupStage::Writing
}

spec fn run_invariant(m: CoreBringup, q: CoreBringup, acts: Seq<BringupAction>) -> bool {
    &&& q == at_stage(m, q.stage)
    &&& descriptor_issued(q.stage) ==> exists|j: int|
        0 <= j < acts.len() && #[trigger] acts[j] == (BringupAction::WriteDescriptor { addr: m.descriptor_addr })
    &&& barrier_issued(q.stage) ==> published_before(acts, m.descriptor_addr, acts.len() as int)
    &&& forall|i: int|
        0 <= i < acts.len() && #[trigger] acts[i] is CpuOn ==> acts[i] == BringupAction::CpuOn(request_spec(m))
            && published_before(acts, m.descriptor_addr, i)
}

proof fn lemma_run_invariant(m: CoreBringup, events: Seq<BringupEvent>)
    requires
        m.stage == BringupStage::Ready,
    ensures
        run_invariant(m, run(m, events).0, run(m, events).1),
    decreases events.len(),
{
    if events.len() > 0 {
        let prefix = events.drop_last();
        lemma_run_invariant(m, prefix);
        let (p, acts) = run(m, prefix);
        let (q, a) = step_spec(p, events.last());
        let all = acts.push(a);
        assert(run(m, events) == (q, all));
        let n = acts.len() as int;
        assert forall|i: int, x: int| 0 <= x <= n && x <= i <= n + 1 && published_before(acts, m.descriptor_addr, x)
            implies published_before(all, m.descriptor_addr, i) by {
            let (j, k) = choose|j: int, k: int|
                0 <= j < k < x && #[trigger] acts[j] == (BringupAction::WriteDescriptor { addr: m.descriptor_addr })
                    && #[trigger] acts[k] == BringupAction::StoreBarrier;
            assert(all[j] == acts[j] && all[k] == acts[k]);
        }
        if descriptor_issued(p.stage) {
            let j = choose|j: int|
                0 <= j < acts.len() && #[trigger] acts[j] == (BringupAction::WriteDescriptor { addr: m.descriptor_addr });
            assert(all[j] == acts[j]);
        }
        if p.stage == BringupStage::Writing && a == BringupAction::StoreBarrier {
            let j = choose|j: int|
                0 <= j < acts.len() && #[trigger] acts[j] == (BringupAction::WriteDescriptor { addr: m.descriptor_addr });
            assert(all[j] == acts[j]);
            assert(all[n] == BringupAction::StoreBarrier);
        }
        if p.stage == BringupStage::Ready && a is WriteDescriptor {
            assert(all[n] == (BringupAction::WriteDescriptor { addr: m.descriptor_addr }));
        }
        assert forall|i: int| 0 <= i < all.len() && #[trigger] all[i] is CpuOn
            implies all[i] == BringupAction::CpuOn(request_spec(m))
                && published_before(all, m.descriptor_addr, i) by {
            if i < n {
                assert(all[i] == acts[i]);
            }
        }
    }
}

/// The firmware is asked to start the core only after the descriptor has been
/// stored at the address the core is given, and after a store barrier has
/// followed that store: in every run of a fresh bring-up, each `CPU_ON`
/// action is preceded by a descriptor write at its `context_id`, and that
/// write by a barrier issued before the call.
pub proof fn lemma_cpu_on_after_publication(m: CoreBringup, events: Seq<BringupEvent>)
    requires
        m.stage == BringupStage::Ready,
    ensures
        forall|i: int|
            0 <= i < run(m, events).1.len() && #[trigger] run(m, events).1[i] is CpuOn ==> {
                &&& run(m, events).1[i] == BringupAction::CpuOn(request_spec(m))
                &&& request_spec(m).context_id == m.descriptor_addr
                &&& published_before(run(m, events).1, m.descriptor_addr, i)
            },
{
    lemma_run_invariant(m, events);
}

/// Driven with the events in their order, a fresh bring-up stores the
/// descriptor, issues the barrier, asks firmware to start the core with the
/// descriptor as its stack pointer, and ends with the firmware's outcome,
/// unchanged.
pub proof fn lemma_in_order_run(m: CoreBringup, outcome: Result<(), smccc::psci::Error>)
    requires
        m.stage == BringupStage::Ready,
    ensures
        run(
            m,
            seq![
                BringupEvent::Start,
                BringupEvent::DescriptorWritten,
                BringupEvent::BarrierDone,
                BringupEvent::FirmwareReturned(outcome),
            ],
        ) == (
            at_stage(m, BringupStage::Finished),
            seq![
                BringupAction::WriteDescriptor { addr: m.descriptor_addr },
                BringupAction::StoreBarrier,
                BringupAction::CpuOn(CpuOnRequest {
                    target_cpu: m.target_cpu,
                    entry_point: m.entry_point,
                    context_id: m.descriptor_addr,
                }),
                BringupAction::Complete(outcome),
            ],
        ),
{
    let e = seq![
        BringupEvent::Start,
        BringupEvent::DescriptorWritten,
        BringupEvent::BarrierDone,
        BringupEvent::FirmwareReturned(outcome),
    ];
    assert(e.drop_last().drop_last().drop_last().drop_last() =~= Seq::<BringupEvent>::empty());
    assert(e.drop_last().drop_last().drop_last() =~= seq![BringupEvent::Start]);
    assert(e.drop_last().drop_last() =~= seq![BringupEvent::Start, BringupEvent::DescriptorWritten]);
    assert(e.drop_last() =~= seq![
        BringupEvent::Start,
        BringupEvent::DescriptorWritten,
        BringupEvent::BarrierDone,
    ]);
    let e3 = e.drop_last();
    let e2 = e3.drop_last();
    let e1 = e2.drop_last();
    let w = BringupAction::WriteDescriptor { addr: m.descriptor_addr };
    let c = BringupAction::CpuOn(request_spec(m));
    assert(run(m, e1.drop_last()) == (m, Seq::<BringupAction>::empty()));
    assert(e1.last() == BringupEvent::Start);
    assert(run(m, e1).0 == at_stage(m, BringupStage::Writing));
    assert(run(m, e1).1 =~= seq![w]);
    assert(e2.last() == BringupEvent::DescriptorWritten);
    assert(run(m, e2).0 == at_stage(m, BringupStage::Publishing));
    assert(run(m, e2).1 =~= seq![w, BringupAction::StoreBarrier]);
    assert(e3.last() == BringupEvent::BarrierDone);
    assert(run(m, e3).0 == at_stage(m, BringupStage::Requesting));
    assert(run(m, e3).1 =~= seq![w, BringupAction::StoreBarrier, c]);
    assert(e.last() == BringupEvent::FirmwareReturned(outcome));
    assert(run(m, e).1 =~= seq![w, BringupAction::StoreBarrier, c, BringupAction::Complete(outcome)]);
}

} // verus!
