//! The turns that are under way, by their handles.
use std::collections::HashMap;

use vstd::prelude::*;

use crate::admission::{admission_error_text, AdmissionError};
use crate::bridge::{emit, event_of, BridgeEvent, KIND_TURN_ABORTED, KIND_TURN_STARTING};
use crate::lists::outcome;
use crate::text::{decimal, decimal_text};

verus! {

broadcast use vstd::std_specs::hash::group_hash_axioms;

/// The lifecycle of a turn. A handle is visible before setup starts, so that an interrupt cannot
/// be lost meanwhile.
#[derive(Clone, Copy, Debug, PartialEq, Eq, Structural)]
pub enum TurnBridge {
    Starting { interrupt_requested: bool, cleanup_claimed: bool },
    Active { interrupt_requested: bool, cleanup_claimed: bool },
}

/// How a turn gives its model context up.
#[derive(Clone, Copy, Debug, PartialEq, Eq, Structural)]
pub enum TurnExitDisposition {
    HostDetach,
    UserInterrupt,
}

impl DeepView for TurnExitDisposition {
    type V = TurnExitDisposition;

    open spec fn deep_view(&self) -> TurnExitDisposition {
        *self
    }
}

/// The turns that are under way, from the announcement of their handles to the end of their
/// workers.
pub struct TurnRegistry {
    pub next_handle: u64,
    pub turns: HashMap<u64, TurnBridge>,
}

/// Whether an interrupt of a turn was requested.
pub open spec fn interrupted(bridge: TurnBridge) -> bool {
    match bridge {
        TurnBridge::Starting { interrupt_requested, .. } => interrupt_requested,
        TurnBridge::Active { interrupt_requested, .. } => interrupt_requested,
    }
}

/// Whether the cleanup of a turn was claimed.
pub open spec fn claimed(bridge: TurnBridge) -> bool {
    match bridge {
        TurnBridge::Starting { cleanup_claimed, .. } => cleanup_claimed,
        TurnBridge::Active { cleanup_claimed, .. } => cleanup_claimed,
    }
}

/// A turn with an interrupt requested.
pub open spec fn with_interrupt(bridge: TurnBridge) -> TurnBridge {
    match bridge {
        TurnBridge::Starting { cleanup_claimed, .. } => TurnBridge::Starting {
            interrupt_requested: true,
            cleanup_claimed,
        },
        TurnBridge::Active { cleanup_claimed, .. } => TurnBridge::Active {
            interrupt_requested: true,
            cleanup_claimed,
        },
    }
}

/// A turn with its cleanup claimed.
pub open spec fn with_claim(bridge: TurnBridge) -> TurnBridge {
    match bridge {
        TurnBridge::Starting { interrupt_requested, .. } => TurnBridge::Starting {
            interrupt_requested,
            cleanup_claimed: true,
        },
        TurnBridge::Active { interrupt_requested, .. } => TurnBridge::Active {
            interrupt_requested,
            cleanup_claimed: true,
        },
    }
}

/// The turns by their handles.
pub type Turns = Map<u64, TurnBridge>;

/// What becoming active does to the turns, and whether an interrupt was requested before.
pub open spec fn activated(turns: Turns, handle: u64) -> Result<(Turns, bool), Seq<char>> {
    if !turns.contains_key(handle) {
        Err("turn handle was removed during startup"@)
    } else {
        match turns[handle] {
            TurnBridge::Active { .. } => Err("turn handle was already activated"@),
            TurnBridge::Starting { interrupt_requested, cleanup_claimed } => Ok(
                (
                    turns.insert(
                        handle,
                        TurnBridge::Active { interrupt_requested, cleanup_claimed },
                    ),
                    interrupt_requested,
                ),
            ),
        }
    }
}

/// Whether an interrupt was requested of a turn that is starting.
pub open spec fn startup_interrupt(turns: Turns, handle: u64) -> Result<bool, Seq<char>> {
    if !turns.contains_key(handle) {
        Err("unknown or finished turn handle"@)
    } else {
        match turns[handle] {
            TurnBridge::Active { .. } => Err("turn handle was already activated"@),
            TurnBridge::Starting { interrupt_requested, .. } => Ok(interrupt_requested),
        }
    }
}

/// What claiming the cleanup of a turn does to the turns, and how the turn ends.
pub open spec fn exit_claimed(turns: Turns, handle: u64) -> Result<
    (Turns, TurnExitDisposition),
    Seq<char>,
> {
    if !turns.contains_key(handle) {
        Err("unknown or finished turn handle"@)
    } else if claimed(turns[handle]) {
        Err("turn cleanup was already claimed"@)
    } else {
        Ok(
            (
                turns.insert(handle, with_claim(turns[handle])),
                if interrupted(turns[handle]) {
                    TurnExitDisposition::UserInterrupt
                } else {
                    TurnExitDisposition::HostDetach
                },
            ),
        )
    }
}

/// What requesting an interrupt does to the turns, and whether the thread of the turn has to be
/// told. A repeated request changes nothing; one that comes after the cleanup was claimed is
/// refused.
pub open spec fn interrupt_requested(
    turns: Turns,
    handle: u64,
) -> Result<(Turns, bool), Seq<char>> {
    if !turns.contains_key(handle) {
        Err("unknown or finished turn handle"@)
    } else if interrupted(turns[handle]) {
        Ok((turns, false))
    } else if claimed(turns[handle]) {
        Err("turn cleanup has already started"@)
    } else {
        Ok((turns.insert(handle, with_interrupt(turns[handle])), turns[handle] is Active))
    }
}

/// Whether a turn takes input from the host: it is active and not interrupted.
pub open spec fn takes_input(turns: Turns, handle: u64) -> bool {
    turns.contains_key(handle) && turns[handle] is Active && !interrupted(turns[handle])
}

impl TurnRegistry {
    /// A registry without turns.
    pub fn new() -> (r: Self)
        ensures
            r.next_handle == 1,
            r.turns@ == Map::<u64, TurnBridge>::empty(),
    {
        TurnRegistry { next_handle: 1, turns: HashMap::new() }
    }

    /// Registers a turn that is starting. Gives its handle and the event that announces it.
    pub fn register_starting_turn(&mut self) -> (r: (u64, BridgeEvent))
        ensures
            r.0 == old(self).next_handle,
            r.1.deep_view() == event_of(KIND_TURN_STARTING, decimal_text(r.0 as nat)),
            final(self).turns@ == old(self).turns@.insert(
                r.0,
                (TurnBridge::Starting { interrupt_requested: false, cleanup_claimed: false }),
            ),
            final(self).next_handle == if old(self).next_handle == u64::MAX {
                0
            } else {
                (old(self).next_handle + 1) as u64
            },
    {
        let handle = self.next_handle;
        self.next_handle = if handle == u64::MAX {
            0
        } else {
            handle + 1
        };
        self.turns.insert(
            handle,
            TurnBridge::Starting { interrupt_requested: false, cleanup_claimed: false },
        );
        (handle, emit(KIND_TURN_STARTING, decimal(handle).as_str()))
    }

    fn lookup(&self, handle: u64) -> (r: Option<TurnBridge>)
        ensures
            r == if self.turns@.contains_key(handle) {
                Some(self.turns@[handle])
            } else {
                None
            },
    {
        match self.turns.get(&handle) {
            Some(bridge) => Some(*bridge),
            None => None,
        }
    }

    /// Makes a starting turn active. Says whether an interrupt was requested before.
    pub fn activate_turn(&mut self, handle: u64) -> (r: Result<bool, String>)
        ensures
            final(self).next_handle == old(self).next_handle,
            match activated(old(self).turns@, handle) {
                Ok((turns, interrupted)) => r == Ok::<bool, String>(interrupted)
                    && final(self).turns@ == turns,
                Err(problem) => r is Err && r->Err_0@ == problem && final(self).turns@ == old(
                    self,
                ).turns@,
            },
    {
        match self.lookup(handle) {
            None => Err("turn handle was removed during startup".to_string()),
            Some(TurnBridge::Active { .. }) => Err("turn handle was already activated".to_string()),
            Some(TurnBridge::Starting { interrupt_requested, cleanup_claimed }) => {
                self.turns.insert(
                    handle,
                    TurnBridge::Active { interrupt_requested, cleanup_claimed },
                );
                Ok(interrupt_requested)
            },
        }
    }

    /// Whether an interrupt was requested of a turn that is starting.
    pub fn startup_interrupt_requested(&self, handle: u64) -> (r: Result<bool, String>)
        ensures
            outcome(r) == startup_interrupt(self.turns@, handle),
    {
        match self.lookup(handle) {
            None => Err("unknown or finished turn handle".to_string()),
            Some(TurnBridge::Active { .. }) => Err("turn handle was already activated".to_string()),
            Some(TurnBridge::Starting { interrupt_requested, .. }) => Ok(interrupt_requested),
        }
    }

    /// Claims the cleanup of a turn, and with it how the turn ends. Only one claim succeeds.
    pub fn claim_turn_exit_disposition(&mut self, handle: u64) -> (r: Result<
        TurnExitDisposition,
        String,
    >)
        ensures
            final(self).next_handle == old(self).next_handle,
            match exit_claimed(old(self).turns@, handle) {
                Ok((turns, disposition)) => r == Ok::<TurnExitDisposition, String>(disposition)
                    && final(self).turns@ == turns,
                Err(problem) => r is Err && r->Err_0@ == problem && final(self).turns@ == old(
                    self,
                ).turns@,
            },
    {
        let bridge = match self.lookup(handle) {
            None => {
                return Err("unknown or finished turn handle".to_string());
            },
            Some(bridge) => bridge,
        };
        let (was_interrupted, was_claimed, next) = match bridge {
            TurnBridge::Starting { interrupt_requested, cleanup_claimed } => (
                interrupt_requested,
                cleanup_claimed,
                TurnBridge::Starting { interrupt_requested, cleanup_claimed: true },
            ),
            TurnBridge::Active { interrupt_requested, cleanup_claimed } => (
                interrupt_requested,
                cleanup_claimed,
                TurnBridge::Active { interrupt_requested, cleanup_claimed: true },
            ),
        };
        if was_claimed {
            return Err("turn cleanup was already claimed".to_string());
        }
        self.turns.insert(handle, next);
        Ok(
            if was_interrupted {
                TurnExitDisposition::UserInterrupt
            } else {
                TurnExitDisposition::HostDetach
            },
        )
    }

    /// Requests an interrupt of a turn. Says whether the thread of the turn has to be told.
    pub fn request_interrupt(&mut self, handle: u64) -> (r: Result<bool, String>)
        ensures
            final(self).next_handle == old(self).next_handle,
            match interrupt_requested(old(self).turns@, handle) {
                Ok((turns, tell)) => r == Ok::<bool, String>(tell) && final(self).turns@ == turns,
                Err(problem) => r is Err && r->Err_0@ == problem && final(self).turns@ == old(
                    self,
                ).turns@,
            },
    {
        let bridge = match self.lookup(handle) {
            None => {
                return Err("unknown or finished turn handle".to_string());
            },
            Some(bridge) => bridge,
        };
        let (was_interrupted, was_claimed, next, active) = match bridge {
            TurnBridge::Starting { interrupt_requested, cleanup_claimed } => (
                interrupt_requested,
                cleanup_claimed,
                TurnBridge::Starting { interrupt_requested: true, cleanup_claimed },
                false,
            ),
            TurnBridge::Active { interrupt_requested, cleanup_claimed } => (
                interrupt_requested,
                cleanup_claimed,
                TurnBridge::Active { interrupt_requested: true, cleanup_claimed },
                true,
            ),
        };
        if was_interrupted {
            return Ok(false);
        }
        if was_claimed {
            return Err("turn cleanup has already started".to_string());
        }
        self.turns.insert(handle, next);
        Ok(active)
    }

    /// Whether a turn takes input from the host.
    pub fn accepts_input(&self, handle: u64) -> (r: bool)
        ensures
            r == takes_input(self.turns@, handle),
    {
        match self.lookup(handle) {
            Some(TurnBridge::Active { interrupt_requested, .. }) => !interrupt_requested,
            _ => false,
        }
    }

    /// Removes a turn that is over.
    pub fn remove(&mut self, handle: u64)
        ensures
            final(self).next_handle == old(self).next_handle,
            final(self).turns@ == old(self).turns@.remove(handle),
    {
        self.turns.remove(&handle);
        assert(self.turns@ =~= old(self).turns@.remove(handle));
    }

    /// Ends a startup of which an interrupt was requested. Gives the event that says so, or
    /// nothing where the startup goes on. `terminal` is what became of marking the admission.
    pub fn abort_interrupted_startup(
        &self,
        handle: u64,
        terminal: Result<(), AdmissionError>,
    ) -> (r: Result<Option<BridgeEvent>, String>)
        ensures
            outcome(r) == match startup_interrupt(self.turns@, handle) {
                Err(problem) => Err(problem),
                Ok(false) => Ok(None),
                Ok(true) => match terminal {
                    Err(error) => Err(admission_error_text(error)),
                    Ok(_) => Ok(Some(event_of(KIND_TURN_ABORTED, Seq::empty()))),
                },
            },
    {
        match self.startup_interrupt_requested(handle) {
            Err(problem) => Err(problem),
            Ok(false) => Ok(None),
            Ok(true) => match terminal {
                Err(error) => Err(error.message().to_owned()),
                Ok(()) => {
                    proof {
                        reveal_strlit("");
                        assert(""@ =~= Seq::empty());
                    }
                    Ok(Some(emit(KIND_TURN_ABORTED, "")))
                },
            },
        }
    }
}

// ---------------------------------------------------------------------------------------------
// Laws

/// Requesting an interrupt twice is requesting it once.
pub proof fn law_interrupt_is_idempotent(turns: Turns, handle: u64)
    ensures
        interrupt_requested(turns, handle) matches Ok((after, _)) ==> interrupt_requested(
            after,
            handle,
        ) == Ok::<(Turns, bool), Seq<char>>((after, false)),
{
}

/// An interrupt that is accepted before the cleanup is claimed decides how the turn ends.
pub proof fn law_accepted_interrupt_decides_the_exit(turns: Turns, handle: u64)
    requires
        interrupt_requested(turns, handle) is Ok,
        !claimed(turns[handle]),
    ensures
        exit_claimed(interrupt_requested(turns, handle)->Ok_0.0, handle) matches Ok(
            (_, disposition),
        )
            && disposition == TurnExitDisposition::UserInterrupt,
{
}

/// Once the cleanup is claimed for the host, a late interrupt is refused instead of being
/// reported as a success, and the turn stays uninterrupted.
pub proof fn law_late_interrupt_is_refused(turns: Turns, handle: u64)
    ensures
        exit_claimed(turns, handle) matches Ok((after, disposition)) ==> (disposition
            == TurnExitDisposition::HostDetach ==> interrupt_requested(after, handle) is Err
            && !interrupted(after[handle])),
{
}

/// The cleanup of a turn is claimed once.
pub proof fn law_cleanup_is_claimed_once(turns: Turns, handle: u64)
    ensures
        exit_claimed(turns, handle) matches Ok((after, _)) ==> exit_claimed(after, handle) is Err,
{
}

/// An interrupt requested during startup is not lost when the turn becomes active: the turn is
/// told of it, and takes no input.
pub proof fn law_startup_interrupt_is_kept(turns: Turns, handle: u64)
    requires
        startup_interrupt(turns, handle) == Ok::<bool, Seq<char>>(true),
    ensures
        activated(turns, handle) matches Ok((after, was_interrupted)) && was_interrupted
            && interrupted(after[handle]) && !takes_input(after, handle),
{
}

/// Nothing that happens to one turn changes another.
pub proof fn law_turns_are_independent(turns: Turns, handle: u64, other: u64)
    requires
        handle != other,
    ensures
        activated(turns, handle) matches Ok((after, _)) ==> after.contains_key(other)
            == turns.contains_key(other) && after[other] == turns[other],
        exit_claimed(turns, handle) matches Ok((after, _)) ==> after.contains_key(other)
            == turns.contains_key(other) && after[other] == turns[other],
        interrupt_requested(turns, handle) matches Ok((after, _)) ==> after.contains_key(other)
            == turns.contains_key(other) && after[other] == turns[other],
{
}

/// A turn that was removed is not known any more.
pub proof fn law_removed_turn_is_unknown(turns: Turns, handle: u64)
    ensures
        interrupt_requested(turns.remove(handle), handle) is Err,
        startup_interrupt(turns.remove(handle), handle) is Err,
        exit_claimed(turns.remove(handle), handle) is Err,
        activated(turns.remove(handle), handle) is Err,
        !takes_input(turns.remove(handle), handle),
{
}

} // verus!
