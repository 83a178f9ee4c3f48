//! The reader/writer state that an owning box keeps beside its block.
use vstd::prelude::*;

verus! {

/// Which claims are currently registered against one block.
#[derive(Debug, Clone, Copy, PartialEq, Eq, Structural)]
pub enum BorrowState {
    /// No guard is live.
    Unused,
    /// This many shared guards are live (at least one).
    Reading(usize),
    /// One exclusive guard is live.
    Writing,
}

/// A shared claim was refused because an exclusive guard is live.
#[derive(Debug, Clone, Copy, PartialEq, Eq, Structural)]
pub struct BorrowError;

/// An exclusive claim was refused because some guard is live.
#[derive(Debug, Clone, Copy, PartialEq, Eq, Structural)]
pub struct BorrowMutError;

impl BorrowError {
    /// The text that describes the refusal.
    pub fn message(&self) -> (r: &'static str)
        ensures
            r@ == "already mutably borrowed"@,
    {
        "already mutably borrowed"
    }
}

impl BorrowMutError {
    /// The text that describes the refusal.
    pub fn message(&self) -> (r: &'static str)
        ensures
            r@ == "already borrowed"@,
    {
        "already borrowed"
    }
}

impl BorrowState {
    /// A reading state always counts at least one reader.
    pub open spec fn wf(self) -> bool {
        self matches BorrowState::Reading(n) ==> n > 0
    }

    /// Number of live shared guards.
    pub open spec fn readers(self) -> nat {
        match self {
            BorrowState::Reading(n) => n as nat,
            _ => 0,
        }
    }

    /// A shared claim succeeds unless an exclusive guard is live.
    pub open spec fn can_share(self) -> bool {
        !(self is Writing)
    }

    /// An exclusive claim succeeds only when no guard is live.
    pub open spec fn can_take_exclusive(self) -> bool {
        self is Unused
    }

    /// The state after one more shared claim.
    pub open spec fn with_reader(self) -> BorrowState {
        BorrowState::Reading((self.readers() + 1) as usize)
    }

    /// The state after one shared guard ends.
    pub open spec fn without_reader(self) -> BorrowState {
        if self.readers() <= 1 {
            BorrowState::Unused
        } else {
            BorrowState::Reading((self.readers() - 1) as usize)
        }
    }

    /// The state of a fresh block: nothing claimed.
    pub fn new() -> (r: BorrowState)
        ensures
            r == BorrowState::Unused,
    {
        BorrowState::Unused
    }

    /// Registers a shared claim, unless an exclusive guard is live.
    pub fn try_share(&mut self) -> (r: Result<(), BorrowError>)
        requires
            old(self).wf(),
            old(self).readers() < usize::MAX,
        ensures
            final(self).wf(),
            r is Ok <==> old(self).can_share(),
            r is Ok ==> *final(self) == old(self).with_reader(),
            r is Err ==> *final(self) == *old(self),
        no_unwind
    {
        match *self {
            BorrowState::Unused => {
                *self = BorrowState::Reading(1);
                Ok(())
            },
            BorrowState::Reading(n) => {
                *self = BorrowState::Reading(n + 1);
                Ok(())
            },
            BorrowState::Writing => Err(BorrowError),
        }
    }

    /// Registers an exclusive claim, if no guard is live.
    pub fn try_take_exclusive(&mut self) -> (r: Result<(), BorrowMutError>)
        requires
            old(self).wf(),
        ensures
            final(self).wf(),
            r is Ok <==> old(self).can_take_exclusive(),
            r is Ok ==> *final(self) == BorrowState::Writing,
            r is Err ==> *final(self) == *old(self),
        no_unwind
    {
        match *self {
            BorrowState::Unused => {
                *self = BorrowState::Writing;
                Ok(())
            },
            _ => Err(BorrowMutError),
        }
    }

    /// Unregisters one shared claim.
    pub fn end_share(&mut self)
        requires
            old(self).wf(),
            *old(self) is Reading,
        ensures
            final(self).wf(),
            *final(self) == old(self).without_reader(),
        no_unwind
    {
        match *self {
            BorrowState::Reading(n) => {
                if n == 1 {
                    *self = BorrowState::Unused;
                } else {
                    *self = BorrowState::Reading(n - 1);
                }
            },
            _ => {},
        }
    }

    /// Unregisters the exclusive claim.
    pub fn end_exclusive(&mut self)
        requires
            *old(self) is Writing,
        ensures
            *final(self) == BorrowState::Unused,
        no_unwind
    {
        *self = BorrowState::Unused;
    }
}

/// The state after `n` more shared claims on `s`.
pub open spec fn with_readers(s: BorrowState, n: nat) -> BorrowState
    decreases n,
{
    if n == 0 {
        s
    } else {
        with_readers(s, (n - 1) as nat).with_reader()
    }
}

/// Shared guards coexist: from a state that admits a shared claim, every one
/// of `n` further shared claims is admitted in turn (within the counter's
/// range), and while at least one of them is live an exclusive claim is
/// refused.
pub proof fn law_shared_guards_coexist(s: BorrowState, n: nat)
    requires
        s.wf(),
        s.can_share(),
        s.readers() + n <= usize::MAX,
    ensures
        forall|k: nat|
            k < n ==> {
                &&& (#[trigger] with_readers(s, k)).wf()
                &&& with_readers(s, k).can_share()
                &&& with_readers(s, k).readers() < usize::MAX
            },
        with_readers(s, n).wf(),
        with_readers(s, n).readers() == s.readers() + n,
        n > 0 ==> !with_readers(s, n).can_take_exclusive(),
    decreases n,
{
    if n > 0 {
        law_shared_guards_coexist(s, (n - 1) as nat);
    }
}

/// A live exclusive guard excludes every other claim, shared or exclusive.
pub proof fn law_exclusive_guard_excludes(s: BorrowState)
    requires
        s is Writing,
    ensures
        !s.can_share(),
        !s.can_take_exclusive(),
{
}

/// Ending a shared guard undoes its claim: the state is the one before it
/// was taken, so from a state without guards an exclusive claim is admitted
/// again.
pub proof fn law_shared_release_restores(s: BorrowState)
    requires
        s.wf(),
        s.can_share(),
        s.readers() < usize::MAX,
    ensures
        s.with_reader() is Reading,
        s.with_reader().without_reader() == s,
        s is Unused ==> s.with_reader().without_reader().can_take_exclusive(),
{
}

/// Ending the exclusive guard leaves no claim, so any claim is admitted
/// again.
pub proof fn law_exclusive_release_restores()
    ensures
        BorrowState::Unused.can_share(),
        BorrowState::Unused.can_take_exclusive(),
{
}

} // verus!
