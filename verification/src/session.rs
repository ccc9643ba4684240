//! Who holds the flash bus, and which entry points that lets through.
//!
//! Erasing and programming need the flash bus in the controller's hands.
//! `Init` puts it there and `UnInit` gives it back to the instruction-fetch
//! unit. A [`Session`] keeps track of which of the two happened last, so that
//! an erase or a program outside of an `Init` .. `UnInit` bracket is turned
//! away instead of reaching the hardware in the wrong mode.

use vstd::prelude::*;
use crate::driver::{BusOwner, DriverCall, FAILURE};

verus! {

/// The two states of a session.
#[derive(Clone, Copy, Debug, PartialEq, Eq, Structural)]
pub enum State {
    /// The flash is memory-mapped; erasing and programming are turned away.
    Uninitialized,
    /// The controller owns the flash bus; every entry point goes through.
    Ready,
}

/// An entry point was called in a state that turns it away.
#[derive(Clone, Copy, Debug, PartialEq, Eq, Structural)]
pub struct OutOfOrder;

impl OutOfOrder {
    /// The host status for a call that was turned away: failure.
    pub fn status(&self) -> (result: i32)
        ensures
            result == FAILURE,
    {
        FAILURE
    }
}

/// The driver calls that take the flash bus, in the order they are made: turn
/// the read cache off, set the flash image offset to zero, hand the bus to
/// the controller.
pub open spec fn acquire_calls() -> Seq<DriverCall> {
    seq![
        DriverCall::CacheReadDisable,
        DriverCall::SetFlashImageOffset { offset: 0 },
        DriverCall::SetOwner { owner: BusOwner::Controller },
    ]
}

/// The driver calls that give the flash bus back, in the order they are
/// made: hand the bus to the instruction-fetch unit, flush the read cache.
pub open spec fn release_calls() -> Seq<DriverCall> {
    seq![DriverCall::SetOwner { owner: BusOwner::MemoryMapped }, DriverCall::CacheFlush]
}

/// The lease on the flash bus: taken by `Init`, given back by `UnInit`.
pub struct Session {
    state: State,
}

impl View for Session {
    type V = State;

    closed spec fn view(&self) -> State {
        self.state
    }
}

impl Session {
    /// A session in which nothing has been initialized yet.
    pub fn new() -> (session: Session)
        ensures
            session@ == State::Uninitialized,
    {
        Session { state: State::Uninitialized }
    }

    /// The state the session is in.
    pub fn state(&self) -> (state: State)
        ensures
            state == self@,
    {
        self.state
    }

    /// Whether erasing and programming go through.
    pub fn is_ready(&self) -> (ready: bool)
        ensures
            ready <==> self@ == State::Ready,
    {
        match self.state {
            State::Ready => true,
            State::Uninitialized => false,
        }
    }

    /// Takes the flash bus, from whatever state, and gives the driver calls
    /// that do so.
    pub fn acquire(&mut self) -> (calls: [DriverCall; 3])
        ensures
            final(self)@ == State::Ready,
            calls@ == acquire_calls(),
    {
        self.state = State::Ready;
        let calls: [DriverCall; 3] = [
            DriverCall::CacheReadDisable,
            DriverCall::SetFlashImageOffset { offset: 0 },
            DriverCall::SetOwner { owner: BusOwner::Controller },
        ];
        assert(calls@ =~= acquire_calls());
        calls
    }

    /// Gives the flash bus back, from whatever state, and gives the driver
    /// calls that do so.
    pub fn release(&mut self) -> (calls: [DriverCall; 2])
        ensures
            final(self)@ == State::Uninitialized,
            calls@ == release_calls(),
    {
        self.state = State::Uninitialized;
        let calls: [DriverCall; 2] = [
            DriverCall::SetOwner { owner: BusOwner::MemoryMapped },
            DriverCall::CacheFlush,
        ];
        assert(calls@ =~= release_calls());
        calls
    }

    /// Lets `call` through where the session is ready, and turns it away
    /// where it is not.
    pub fn authorize(&self, call: DriverCall) -> (authorized: Result<DriverCall, OutOfOrder>)
        ensures
            authorized == authorization(self@, call),
    {
        match self.state {
            State::Ready => Ok(call),
            State::Uninitialized => Err(OutOfOrder),
        }
    }
}

/// What becomes of a call that needs the flash bus, in state `state`: it goes
/// through where the session is ready, and is turned away otherwise.
pub open spec fn authorization(state: State, call: DriverCall) -> Result<DriverCall, OutOfOrder> {
    if state == State::Ready {
        Ok(call)
    } else {
        Err(OutOfOrder)
    }
}

} // verus!
