//! The owning box, its raw form, and the guards that it hands out.
use vstd::prelude::*;

use crate::borrow_state::{BorrowError, BorrowMutError, BorrowState};
use std::marker::PhantomData;

verus! {

/// A block that no box owns: its address and the value stored in it.
///
/// This is what crosses the boundary to the outside: whoever holds it is
/// responsible for giving it back to a box, or to the allocator.
pub struct RawBlock<T> {
    addr: usize,
    block: Box<T>,
}

/// The contents of a raw block.
pub struct RawBlockView<T> {
    pub addr: usize,
    pub value: T,
}

/// The unique owner of one externally allocated value, with the
/// reader/writer state of the guards derived from it.
pub struct EBox<T> {
    addr: usize,
    block: Box<T>,
    state: BorrowState,
}

/// The contents of a box: where its value lives, the value, and which
/// claims are registered against it.
pub struct EBoxView<T> {
    pub addr: usize,
    pub value: T,
    pub state: BorrowState,
}

/// Receipt of a shared claim on the box at one address.
pub struct ERef<T> {
    addr: usize,
    marker: PhantomData<T>,
}

/// Receipt of the exclusive claim on the box at one address.
pub struct ERefMut<T> {
    addr: usize,
    marker: PhantomData<T>,
}

impl<T> View for RawBlock<T> {
    type V = RawBlockView<T>;

    closed spec fn view(&self) -> RawBlockView<T> {
        RawBlockView { addr: self.addr, value: *self.block }
    }
}

impl<T> View for EBox<T> {
    type V = EBoxView<T>;

    closed spec fn view(&self) -> EBoxView<T> {
        EBoxView { addr: self.addr, value: *self.block, state: self.state }
    }
}

impl<T> View for ERef<T> {
    type V = usize;

    closed spec fn view(&self) -> usize {
        self.addr
    }
}

impl<T> View for ERefMut<T> {
    type V = usize;

    closed spec fn view(&self) -> usize {
        self.addr
    }
}

impl<T> RawBlockView<T> {
    /// The box that adopting this block yields: nothing claimed yet.
    pub open spec fn adopted(self) -> EBoxView<T> {
        EBoxView { addr: self.addr, value: self.value, state: BorrowState::Unused }
    }
}

impl<T> EBoxView<T> {
    /// The raw block that releasing this box yields.
    pub open spec fn released(self) -> RawBlockView<T> {
        RawBlockView { addr: self.addr, value: self.value }
    }

    /// The same box with another borrow state.
    pub open spec fn with_state(self, state: BorrowState) -> EBoxView<T> {
        EBoxView { state, ..self }
    }

    /// The same box with another value.
    pub open spec fn with_value(self, value: T) -> EBoxView<T> {
        EBoxView { value, ..self }
    }
}

/// The value inside a box, for writing.
fn value_mut<T>(block: &mut Box<T>) -> (r: &mut T)
    ensures
        *r == **old(block),
        **final(block) == *final(r),
    no_unwind
{
    &mut **block
}

impl<T> RawBlock<T> {
    /// A block at `addr` that holds `value`.
    pub fn new(addr: usize, value: T) -> (r: RawBlock<T>)
        ensures
            r@ == (RawBlockView { addr, value }),
    {
        RawBlock { addr, block: Box::new(value) }
    }

    /// The address of the block.
    pub fn addr(&self) -> (r: usize)
        ensures
            r == self@.addr,
    {
        self.addr
    }
}

impl<T> EBox<T> {
    #[verifier::type_invariant]
    spec fn inv(self) -> bool {
        self.addr != 0 && self.state.wf()
    }

    /// Takes ownership of a raw block, with nothing claimed.
    pub fn from_raw(raw: RawBlock<T>) -> (r: EBox<T>)
        requires
            raw@.addr != 0,
        ensures
            r@ == raw@.adopted(),
    {
        EBox { addr: raw.addr, block: raw.block, state: BorrowState::new() }
    }

    /// Gives up ownership: the block is handed back whole, and nothing is
    /// destroyed or freed.
    pub fn into_raw(b: EBox<T>) -> (r: RawBlock<T>)
        ensures
            r@ == b@.released(),
            r@.addr != 0,
    {
        proof {
            use_type_invariant(&b);
        }
        let EBox { addr, block, state: _ } = b;
        RawBlock { addr, block }
    }

    /// The address of the owned block.
    pub fn addr(&self) -> (r: usize)
        ensures
            r == self@.addr,
    {
        self.addr
    }

    /// The current borrow state.
    pub fn state(&self) -> (r: BorrowState)
        ensures
            r == self@.state,
    {
        self.state
    }
    /// Registers a shared claim and returns its guard, or fails with
    /// `BorrowError` while an exclusive guard is live.
    pub fn try_borrow(&mut self) -> (r: Result<ERef<T>, BorrowError>)
        requires
            old(self)@.state.readers() < usize::MAX,
        ensures
            r is Ok <==> old(self)@.state.can_share(),
            match r {
                Ok(g) => g@ == old(self)@.addr
                    && final(self)@ == old(self)@.with_state(old(self)@.state.with_reader()),
                Err(_) => final(self)@ == old(self)@,
            },
    {
        proof {
            use_type_invariant(&*self);
        }
        match self.state.try_share() {
            Ok(()) => Ok(ERef { addr: self.addr, marker: PhantomData }),
            Err(e) => Err(e),
        }
    }

    /// Registers a shared claim and returns its guard; the caller must know
    /// that no exclusive guard is live.
    pub fn borrow(&mut self) -> (r: ERef<T>)
        requires
            old(self)@.state.can_share(),
            old(self)@.state.readers() < usize::MAX,
        ensures
            r@ == old(self)@.addr,
            final(self)@ == old(self)@.with_state(old(self)@.state.with_reader()),
    {
        match self.try_borrow() {
            Ok(g) => g,
            Err(_) => {
                proof {
                    assert(false);
                }
                ERef { addr: self.addr, marker: PhantomData }
            },
        }
    }

    /// Registers the exclusive claim and returns its guard, or fails with
    /// `BorrowMutError` while any guard is live.
    pub fn try_borrow_mut(&mut self) -> (r: Result<ERefMut<T>, BorrowMutError>)
        ensures
            r is Ok <==> old(self)@.state.can_take_exclusive(),
            match r {
                Ok(g) => g@ == old(self)@.addr
                    && final(self)@ == old(self)@.with_state(BorrowState::Writing),
                Err(_) => final(self)@ == old(self)@,
            },
    {
        proof {
            use_type_invariant(&*self);
        }
        match self.state.try_take_exclusive() {
            Ok(()) => Ok(ERefMut { addr: self.addr, marker: PhantomData }),
            Err(e) => Err(e),
        }
    }

    /// Registers the exclusive claim and returns its guard; the caller must
    /// know that no guard is live.
    pub fn borrow_mut(&mut self) -> (r: ERefMut<T>)
        requires
            old(self)@.state.can_take_exclusive(),
        ensures
            r@ == old(self)@.addr,
            final(self)@ == old(self)@.with_state(BorrowState::Writing),
    {
        match self.try_borrow_mut() {
            Ok(g) => g,
            Err(_) => {
                proof {
                    assert(false);
                }
                ERefMut { addr: self.addr, marker: PhantomData }
            },
        }
    }

    /// Reads the value through a live shared guard of this box.
    pub fn get(&self, g: &ERef<T>) -> (r: &T)
        requires
            g@ == self@.addr,
            self@.state is Reading,
        ensures
            *r == self@.value,
    {
        &*self.block
    }

    /// Reads the value through the live exclusive guard of this box.
    pub fn get_exclusive(&self, g: &ERefMut<T>) -> (r: &T)
        requires
            g@ == self@.addr,
            self@.state is Writing,
        ensures
            *r == self@.value,
    {
        &*self.block
    }

    /// Writes the value through the live exclusive guard of this box.
    pub fn get_mut(&mut self, g: &ERefMut<T>) -> (r: &mut T)
        requires
            g@ == old(self)@.addr,
            old(self)@.state is Writing,
        ensures
            *r == old(self)@.value,
            final(self)@ == old(self)@.with_value(*final(r)),
    {
        proof {
            use_type_invariant(&*self);
        }
        value_mut(&mut self.block)
    }

    /// Ends a shared guard of this box: its claim is unregistered.
    pub fn release(&mut self, g: ERef<T>)
        requires
            g@ == old(self)@.addr,
            old(self)@.state is Reading,
        ensures
            final(self)@ == old(self)@.with_state(old(self)@.state.without_reader()),
    {
        proof {
            use_type_invariant(&*self);
        }
        self.state.end_share();
    }

    /// Ends the exclusive guard of this box: its claim is unregistered.
    pub fn release_mut(&mut self, g: ERefMut<T>)
        requires
            g@ == old(self)@.addr,
            old(self)@.state is Writing,
        ensures
            final(self)@ == old(self)@.with_state(BorrowState::Unused),
    {
        proof {
            use_type_invariant(&*self);
        }
        self.state.end_exclusive();
    }
    /// Renders the box for diagnostics as `EBox { value: .. }`, the value as
    /// `render` writes it; while an exclusive guard is live the value cannot
    /// be read, and a placeholder stands in its place.
    pub fn debug_render<F: Fn(&T) -> String>(&self, render: F) -> (r: String)
        requires
            forall|v: &T| render.requires((v,)),
        ensures
            !self@.state.can_share() ==> r@ == "EBox { value: <borrowed> }"@,
            self@.state.can_share() ==> exists|text: String|
                render.ensures((&self@.value,), text) && r@ == "EBox { value: "@ + text@
                    + " }"@,
    {
        match self.state {
            BorrowState::Writing => String::from_str("EBox { value: <borrowed> }"),
            _ => {
                let text = render(&*self.block);
                let mut r = String::from_str("EBox { value: ");
                r.append(text.as_str());
                r.append(" }");
                r
            },
        }
    }
}

/// Releasing a box to its raw block and adopting that block again gives a
/// box at the same address holding the same value, with nothing claimed.
pub proof fn law_release_then_adopt<T>(b: EBoxView<T>)
    ensures
        b.released().adopted() == b.with_state(BorrowState::Unused),
        b.released().adopted().value == b.value,
        b.released().adopted().addr == b.addr,
{
}

/// Adopting a raw block and releasing the box again gives back the same
/// block.
pub proof fn law_adopt_then_release<T>(r: RawBlockView<T>)
    ensures
        r.adopted().released() == r,
{
}

} // verus!
