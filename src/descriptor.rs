//! The record that carries a unit of work to a core being started: the
//! address of the trampoline that runs it, and a take-once slot holding it.

use vstd::prelude::*;

verus! {

/// The record written at the top of a secondary core's stack.
pub struct StartCoreStack<F> {
    /// Code address of the trampoline the new core branches to.
    pub trampoline_ptr: u64,
    /// The unit of work, until it is taken.
    pub entry: Option<F>,
}

/// A fatal condition met by the trampoline of a secondary core.
#[derive(Clone, Copy, Debug, PartialEq, Eq, Structural)]
pub enum TrampolineError {
    /// The descriptor's unit of work had already been taken.
    AlreadyTaken,
    /// The unit of work returned, which it must never do.
    EntryReturned,
}

/// The descriptor after a take, and what the take yields.
pub open spec fn take_spec<F>(d: StartCoreStack<F>) -> (StartCoreStack<F>, Result<F, TrampolineError>) {
    match d.entry {
        Some(f) => (StartCoreStack { trampoline_ptr: d.trampoline_ptr, entry: None }, Ok(f)),
        None => (d, Err(TrampolineError::AlreadyTaken)),
    }
}

impl<F> StartCoreStack<F> {
    /// A descriptor holding `entry`, to be run through `trampoline_ptr`.
    pub fn new(trampoline_ptr: u64, entry: F) -> (d: Self)
        ensures
            d.trampoline_ptr == trampoline_ptr,
            d.entry == Some(entry),
    {
        StartCoreStack { trampoline_ptr, entry: Some(entry) }
    }

    /// Whether the unit of work is still in the descriptor.
    pub fn is_pending(&self) -> (r: bool)
        ensures
            r == self.entry is Some,
    {
        self.entry.is_some()
    }

    /// Takes the unit of work out of the descriptor, leaving it empty; fails if
    /// it was taken before.
    pub fn take_entry(&mut self) -> (r: Result<F, TrampolineError>)
        ensures
            (*final(self), r) == take_spec(*old(self)),
    {
        match self.entry.take() {
            Some(f) => Ok(f),
            None => Err(TrampolineError::AlreadyTaken),
        }
    }
}

/// Runs the unit of work held by `d`, taking it out first. The unit of work
/// never returns; the result is the fatal condition met: the slot was empty,
/// and nothing ran, or the unit of work came back.
pub fn trampoline<F: FnOnce()>(d: &mut StartCoreStack<F>) -> (e: TrampolineError)
    requires
        old(d).entry matches Some(f) ==> f.requires(()),
    ensures
        *final(d) == take_spec(*old(d)).0,
        final(d).entry is None,
        old(d).entry matches Some(f) ==> f.ensures((), ()),
        e == (if old(d).entry is Some {
            TrampolineError::EntryReturned
        } else {
            TrampolineError::AlreadyTaken
        }),
{
    match d.take_entry() {
        Ok(f) => {
            f();
            TrampolineError::EntryReturned
        },
        Err(e) => e,
    }
}

/// A unit of work is handed out at most once: once a descriptor has been
/// taken from, every later take finds it empty and yields `AlreadyTaken`,
/// never the unit of work again.
pub proof fn lemma_entry_taken_at_most_once<F>(d: StartCoreStack<F>)
    ensures
        take_spec(take_spec(d).0).1 == Err::<F, TrampolineError>(TrampolineError::AlreadyTaken),
        take_spec(take_spec(d).0).0 == take_spec(d).0,
{
}

} // verus!
