//! Ownership accounting for native resource handles.
//!
//! Every native resource (device connection, stream, metadata block,
//! string vector) is reached through a heap-allocated handle obtained from
//! an allocate function and returned through the matching free function.
//! The unverified boundary performs the two raw calls; this module holds
//! the decisions: when an allocation outcome yields an owning handle, when
//! it is an error, and a release discipline under which the free call
//! fires exactly once per successful allocation and never otherwise.

use vstd::prelude::*;
use crate::error::{error_for_status, UhdError};

verus! {

/// An owning view of one live native handle, held as its nonzero address.
/// The wrapper is never copied; the boundary releases the underlying
/// resource exactly once, when the owner is dropped.
#[derive(Debug, PartialEq, Eq, Structural)]
pub struct NativeHandle {
    addr: usize,
}

impl NativeHandle {
    /// The handle address is never null.
    pub closed spec fn wf(self) -> bool {
        self.addr != 0
    }

    /// The address this handle owns.
    pub closed spec fn spec_addr(self) -> usize {
        self.addr
    }

    /// Decides the outcome of an allocate call: `status` is the native
    /// status code and `addr` the address the call wrote. Success requires
    /// a zero status and a non-null address; a nonzero status maps to its
    /// error, and a null result under a zero status is an allocation
    /// failure. On any failure no owning handle exists, so nothing will
    /// ever be released.
    pub fn new(status: u32, addr: usize) -> (r: Result<NativeHandle, UhdError>)
        ensures
            r is Ok <==> status == 0 && addr != 0,
            r matches Ok(h) ==> h.wf() && h.spec_addr() == addr,
            status != 0 ==> r == Result::<NativeHandle, UhdError>::Err(error_for_status(status)),
            status == 0 && addr == 0 ==> r == Result::<NativeHandle, UhdError>::Err(
                UhdError::AllocationFailed,
            ),
    {
        match crate::error::status_to_result(status) {
            Ok(()) => {
                if addr == 0 {
                    Err(UhdError::AllocationFailed)
                } else {
                    Ok(NativeHandle { addr })
                }
            },
            Err(e) => Err(e),
        }
    }

    /// Adopts an already-allocated handle. The caller must hold exclusive
    /// ownership of a live, non-null handle; adopting a null address is a
    /// programming error and is excluded outright.
    pub fn from_ptr(addr: usize) -> (r: NativeHandle)
        requires
            addr != 0,
        ensures
            r.wf() && r.spec_addr() == addr,
    {
        NativeHandle { addr }
    }

    /// The address, for handing to native calls without giving up
    /// ownership.
    pub fn addr(&self) -> (r: usize)
        ensures
            r == self.spec_addr(),
    {
        self.addr
    }
}

/// One step of a handle's life as the boundary observes it.
#[derive(Clone, Copy, Debug, PartialEq, Eq, Structural)]
pub enum HandleEvent {
    /// The allocate call returned with this status code and wrote this
    /// address.
    AllocReturned { status: u32, addr: usize },
    /// The owner went out of scope, by normal drop, error propagation or
    /// unwind.
    Dropped,
}

/// What the boundary must do after a lifecycle step.
#[derive(Clone, Copy, Debug, PartialEq, Eq, Structural)]
pub enum HandleAction {
    /// Nothing to release.
    DoNothing,
    /// Invoke the free function on this address, exactly now.
    Release { addr: usize },
}

/// Where a handle stands in its life.
#[derive(Clone, Copy, Debug, PartialEq, Eq, Structural)]
pub enum HandleState {
    /// No allocation has succeeded; nothing is owned.
    Unallocated,
    /// One live resource is owned at this address.
    Owned { addr: usize },
    /// The life is over: either allocation failed or the resource was
    /// released. Nothing is owned and nothing may be released again.
    Finished,
}

/// The next state and required action for one lifecycle event. A release
/// is owed exactly when a drop occurs while a resource is owned.
pub fn lifecycle_step(state: HandleState, event: HandleEvent) -> (r: (HandleState, HandleAction))
    ensures
        r == spec_step(state, event),
{
    match state {
        HandleState::Unallocated => {
            match event {
                HandleEvent::AllocReturned { status, addr } => {
                    if status == 0 && addr != 0 {
                        (HandleState::Owned { addr }, HandleAction::DoNothing)
                    } else {
                        (HandleState::Finished, HandleAction::DoNothing)
                    }
                },
                HandleEvent::Dropped => (HandleState::Finished, HandleAction::DoNothing),
            }
        },
        HandleState::Owned { addr } => {
            match event {
                HandleEvent::AllocReturned { .. } => (
                    HandleState::Owned { addr },
                    HandleAction::DoNothing,
                ),
                HandleEvent::Dropped => (HandleState::Finished, HandleAction::Release { addr }),
            }
        },
        HandleState::Finished => (HandleState::Finished, HandleAction::DoNothing),
    }
}

/// Specification of [`lifecycle_step`].
pub open spec fn spec_step(state: HandleState, event: HandleEvent) -> (HandleState, HandleAction) {
    match state {
        HandleState::Unallocated => {
            match event {
                HandleEvent::AllocReturned { status, addr } => {
                    if status == 0 && addr != 0 {
                        (HandleState::Owned { addr }, HandleAction::DoNothing)
                    } else {
                        (HandleState::Finished, HandleAction::DoNothing)
                    }
                },
                HandleEvent::Dropped => (HandleState::Finished, HandleAction::DoNothing),
            }
        },
        HandleState::Owned { addr } => {
            match event {
                HandleEvent::AllocReturned { .. } => (
                    HandleState::Owned { addr },
                    HandleAction::DoNothing,
                ),
                HandleEvent::Dropped => (HandleState::Finished, HandleAction::Release { addr }),
            }
        },
        HandleState::Finished => (HandleState::Finished, HandleAction::DoNothing),
    }
}

/// How many release actions a trace of events demands from a start state.
pub open spec fn spec_releases(state: HandleState, trace: Seq<HandleEvent>) -> nat
    decreases trace.len(),
{
    if trace.len() == 0 {
        0
    } else {
        (if spec_step(state, trace[0]).1 is Release {
            1nat
        } else {
            0nat
        }) + spec_releases(spec_step(state, trace[0]).0, trace.skip(1))
    }
}

/// Whether a trace contains a drop event.
pub open spec fn spec_has_drop(trace: Seq<HandleEvent>) -> bool {
    exists|i: int| 0 <= i < trace.len() && trace[i] is Dropped
}

/// Release discipline: under any sequence of lifecycle events, a handle's
/// free function is demanded at most once, and only while a resource is
/// owned; once the life is over nothing is ever released again. In
/// particular a failed allocation, which moves straight out of
/// `Unallocated`, demands no release at all.
pub proof fn lemma_release_fires_at_most_once(state: HandleState, trace: Seq<HandleEvent>)
    ensures
        spec_releases(state, trace) <= 1,
        state is Finished ==> spec_releases(state, trace) == 0,
        state is Unallocated && trace.len() > 0 && !(spec_step(state, trace[0]).0 is Owned)
            ==> spec_releases(state, trace) == 0,
    decreases trace.len(),
{
    if trace.len() == 0 {
    } else {
        let (next, action) = spec_step(state, trace[0]);
        lemma_release_fires_at_most_once(next, trace.skip(1));
        if action is Release {
            assert(next is Finished);
        }
    }
}

/// An owned resource that is eventually dropped is released exactly once:
/// together with [`lemma_release_fires_at_most_once`], the free call fires
/// once per successful allocation by the end of the handle's lifetime, and
/// never fires when allocation failed.
pub proof fn lemma_owned_dropped_releases_once(state: HandleState, trace: Seq<HandleEvent>)
    requires
        state is Owned,
        spec_has_drop(trace),
    ensures
        spec_releases(state, trace) == 1,
    decreases trace.len(),
{
    let (next, action) = spec_step(state, trace[0]);
    if trace[0] is Dropped {
        assert(action is Release);
        lemma_release_fires_at_most_once(next, trace.skip(1));
    } else {
        assert(next is Owned);
        let i = choose|i: int| 0 <= i < trace.len() && trace[i] is Dropped;
        assert(trace.skip(1)[i - 1] is Dropped);
        lemma_owned_dropped_releases_once(next, trace.skip(1));
    }
}

/// The whole life, from the start: a life that opens with a successful
/// allocation and ends in a drop releases exactly once, and one whose
/// allocation failed — by status or by a null result — releases nothing.
pub proof fn lemma_lifecycle_exactly_once(trace: Seq<HandleEvent>)
    requires
        trace.len() > 0,
        trace[0] is AllocReturned,
    ensures
        (trace[0] matches HandleEvent::AllocReturned { status, addr } && status == 0 && addr != 0
            && spec_has_drop(trace.skip(1))) ==> spec_releases(HandleState::Unallocated, trace)
            == 1,
        (trace[0] matches HandleEvent::AllocReturned { status, addr } && !(status == 0 && addr
            != 0)) ==> spec_releases(HandleState::Unallocated, trace) == 0,
{
    let (next, action) = spec_step(HandleState::Unallocated, trace[0]);
    if next is Owned && spec_has_drop(trace.skip(1)) {
        lemma_owned_dropped_releases_once(next, trace.skip(1));
    }
    if next is Finished {
        lemma_release_fires_at_most_once(next, trace.skip(1));
    }
}

} // verus!
