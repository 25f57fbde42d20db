//! The host state machine: the one authority for the trust lifecycle of an
//! assigned device.
//!
//! The machine starts in `Unlocked`. A guest request either follows an edge of
//! the transition table or, where the table has no edge for it, drives the
//! machine back to `Unlocked`: an inconsistent state never persists.
use crate::host::TdispHostDeviceInterface;
use crate::report::TdispDeviceReportType;
use crate::state::TdispGuestOperationError;
use crate::state::TdispGuestUnbindReason;
use crate::state::TdispTdiState;
use crate::state::TdispUnbindReason;
use vstd::prelude::*;

verus! {

/// The number of states, and of unbind reasons, that the machine remembers.
pub const TDISP_STATE_HISTORY_LEN: usize = 10;

/// Whether the transition table has an edge from `from` to `to`.
pub open spec fn transition_allowed(from: TdispTdiState, to: TdispTdiState) -> bool {
    match (from, to) {
        // Forward progress from Unlocked to Run.
        (TdispTdiState::Unlocked, TdispTdiState::Locked) => true,
        (TdispTdiState::Locked, TdispTdiState::Run) => true,
        // A device can always return to Unlocked.
        (TdispTdiState::Run, TdispTdiState::Unlocked) => true,
        (TdispTdiState::Locked, TdispTdiState::Unlocked) => true,
        (TdispTdiState::Unlocked, TdispTdiState::Unlocked) => true,
        (TdispTdiState::Error, TdispTdiState::Unlocked) => true,
        // A locked or running device can fail.
        (TdispTdiState::Locked, TdispTdiState::Error) => true,
        (TdispTdiState::Run, TdispTdiState::Error) => true,
        // Every other transition is invalid.
        _ => false,
    }
}

/// A bounded history after one more entry: the entry is appended, and of the
/// result the last `TDISP_STATE_HISTORY_LEN` entries are kept.
pub open spec fn push_bounded<T>(history: Seq<T>, entry: T) -> Seq<T> {
    let extended = history.push(entry);
    if extended.len() > TDISP_STATE_HISTORY_LEN {
        extended.subrange(extended.len() - TDISP_STATE_HISTORY_LEN, extended.len() as int)
    } else {
        extended
    }
}

/// Whether a result says that the host carried out the action that the
/// request needed. `HostFailedToProcessCommand` is the one result that is
/// returned when it did not.
pub open spec fn host_succeeded<T>(result: Result<T, TdispGuestOperationError>) -> bool {
    result != Err::<T, TdispGuestOperationError>(
        TdispGuestOperationError::HostFailedToProcessCommand,
    )
}

/// The mathematical value of a state machine.
pub struct StateMachineView {
    /// The current state of the device.
    pub state: TdispTdiState,
    /// The states that the device was in before, oldest first.
    pub state_history: Seq<TdispTdiState>,
    /// The reasons of the unbinds that the host carried out, oldest first.
    pub unbind_reason_history: Seq<TdispUnbindReason>,
    /// The device id that log messages name.
    pub debug_device_id: Seq<char>,
}

impl StateMachineView {
    /// A machine as it is made: `Unlocked`, with empty histories.
    pub open spec fn initial() -> StateMachineView {
        StateMachineView {
            state: TdispTdiState::Unlocked,
            state_history: Seq::empty(),
            unbind_reason_history: Seq::empty(),
            debug_device_id: Seq::empty(),
        }
    }

    /// What holds of every machine: it is never `Uninitialized`, and neither
    /// history is longer than `TDISP_STATE_HISTORY_LEN`.
    pub open spec fn wf(self) -> bool {
        &&& self.state != TdispTdiState::Uninitialized
        &&& self.state_history.len() <= TDISP_STATE_HISTORY_LEN
        &&& self.unbind_reason_history.len() <= TDISP_STATE_HISTORY_LEN
    }

    /// The machine after a transition to `new_state`: the state it leaves is
    /// appended to the state history.
    pub open spec fn transitioned_to(self, new_state: TdispTdiState) -> StateMachineView {
        StateMachineView {
            state: new_state,
            state_history: push_bounded(self.state_history, self.state),
            ..self
        }
    }

    /// The machine after it was driven to `Unlocked`. The reason is recorded
    /// only if the host carried out its unbind action; the state has moved
    /// either way.
    pub open spec fn unbound(self, reason: TdispUnbindReason, host_ok: bool) -> StateMachineView {
        StateMachineView {
            unbind_reason_history: if host_ok {
                push_bounded(self.unbind_reason_history, reason)
            } else {
                self.unbind_reason_history
            },
            ..self.transitioned_to(TdispTdiState::Unlocked)
        }
    }

    /// What becomes of a request that came in a state that does not allow it:
    /// the machine is driven to `Unlocked` and the request fails, with
    /// `state_error` if the host carried out the unbind and with
    /// `HostFailedToProcessCommand` if it did not.
    pub open spec fn forced_unbind(
        self,
        reason: TdispUnbindReason,
        state_error: TdispGuestOperationError,
        host_ok: bool,
    ) -> (StateMachineView, TdispGuestOperationError) {
        (
            self.unbound(reason, host_ok),
            if host_ok {
                state_error
            } else {
                TdispGuestOperationError::HostFailedToProcessCommand
            },
        )
    }

    /// The machine and the result after a request to lock the device
    /// resources. `host_ok` says whether the one host action of the request
    /// succeeded: the bind from `Unlocked`, the unbind from any other state.
    pub open spec fn lock_step(self, host_ok: bool) -> (
        StateMachineView,
        Result<(), TdispGuestOperationError>,
    ) {
        if self.state != TdispTdiState::Unlocked {
            let (next, error) = self.forced_unbind(
                TdispUnbindReason::InvalidGuestTransitionToLocked,
                TdispGuestOperationError::InvalidDeviceState,
                host_ok,
            );
            (next, Err(error))
        } else if host_ok {
            (self.transitioned_to(TdispTdiState::Locked), Ok(()))
        } else {
            (self, Err(TdispGuestOperationError::HostFailedToProcessCommand))
        }
    }

    /// The machine and the result after a request to start the device.
    /// `host_ok` says whether the one host action of the request succeeded:
    /// the start from `Locked`, the unbind from any other state.
    pub open spec fn start_step(self, host_ok: bool) -> (
        StateMachineView,
        Result<(), TdispGuestOperationError>,
    ) {
        if self.state != TdispTdiState::Locked {
            let (next, error) = self.forced_unbind(
                TdispUnbindReason::InvalidGuestTransitionToRun,
                TdispGuestOperationError::InvalidDeviceState,
                host_ok,
            );
            (next, Err(error))
        } else if host_ok {
            (self.transitioned_to(TdispTdiState::Run), Ok(()))
        } else {
            (self, Err(TdispGuestOperationError::HostFailedToProcessCommand))
        }
    }

    /// The machine after a request for an attestation report, and the error
    /// of the request if it failed. The type of the report is looked at
    /// first: a sentinel is refused in every state, and the machine is left as
    /// it is. `host_ok` says whether the one host action of the request
    /// succeeded: the fetch from `Locked` or `Run`, the unbind from any other
    /// state.
    pub open spec fn report_step(self, report_type: TdispDeviceReportType, host_ok: bool) -> (
        StateMachineView,
        Option<TdispGuestOperationError>,
    ) {
        if report_type.is_invalid() {
            (self, Some(TdispGuestOperationError::InvalidGuestAttestationReportType))
        } else if self.state != TdispTdiState::Locked && self.state != TdispTdiState::Run {
            let (next, error) = self.forced_unbind(
                TdispUnbindReason::InvalidGuestGetAttestationReportState,
                TdispGuestOperationError::InvalidGuestAttestationReportState,
                host_ok,
            );
            (next, Some(error))
        } else if host_ok {
            (self, None)
        } else {
            (self, Some(TdispGuestOperationError::HostFailedToProcessCommand))
        }
    }

    /// The reason that the history records for an unbind that the guest asked
    /// for.
    pub open spec fn recorded_reason(reason: TdispGuestUnbindReason) -> TdispUnbindReason {
        if reason.is_recognized() {
            TdispUnbindReason::GuestInitiated(reason)
        } else {
            TdispUnbindReason::InvalidGuestUnbindReason(reason)
        }
    }

    /// The machine and the result after a request to unbind. `host_ok` says
    /// whether the host carried out the unbind.
    pub open spec fn unbind_step(self, reason: TdispGuestUnbindReason, host_ok: bool) -> (
        StateMachineView,
        Result<(), TdispGuestOperationError>,
    ) {
        (
            self.unbound(StateMachineView::recorded_reason(reason), host_ok),
            if host_ok {
                Ok(())
            } else {
                Err(TdispGuestOperationError::HostFailedToProcessCommand)
            },
        )
    }
}

/// A bounded history with one more entry: see `push_bounded`.
fn extend_history<T: Copy>(history: &Vec<T>, entry: T) -> (next: Vec<T>)
    ensures
        next@ == push_bounded(history@, entry),
        next@.len() <= TDISP_STATE_HISTORY_LEN,
{
    let len = history.len();
    let mut index: usize = if len >= TDISP_STATE_HISTORY_LEN {
        len - TDISP_STATE_HISTORY_LEN + 1
    } else {
        0
    };
    let ghost first = index;
    let mut next: Vec<T> = Vec::new();
    while index < len
        invariant
            len == history.len(),
            first <= index <= len,
            next@ == history@.subrange(first as int, index as int),
        decreases len - index,
    {
        next.push(history[index]);
        index = index + 1;
    }
    next.push(entry);
    assert(next@ =~= push_bounded(history@, entry));
    next
}

/// The record that the state machine keeps of a device: its state and the
/// two histories.
struct Lifecycle {
    /// The current state of the device.
    current_state: TdispTdiState,
    /// A record of the last states the device was in.
    state_history: Vec<TdispTdiState>,
    /// A record of the last unbind reasons for the device.
    unbind_reason_history: Vec<TdispUnbindReason>,
}

impl Lifecycle {
    #[verifier::type_invariant]
    spec fn inv(self) -> bool {
        &&& self.current_state != TdispTdiState::Uninitialized
        &&& self.state_history@.len() <= TDISP_STATE_HISTORY_LEN
        &&& self.unbind_reason_history@.len() <= TDISP_STATE_HISTORY_LEN
    }

    /// The record of a device that was never bound.
    fn new() -> (record: Lifecycle)
        ensures
            record.current_state == TdispTdiState::Unlocked,
            record.state_history@ == Seq::<TdispTdiState>::empty(),
            record.unbind_reason_history@ == Seq::<TdispUnbindReason>::empty(),
    {
        Lifecycle {
            current_state: TdispTdiState::Unlocked,
            state_history: Vec::new(),
            unbind_reason_history: Vec::new(),
        }
    }

    /// The current state, which is never `Uninitialized`.
    fn state(&self) -> (state: TdispTdiState)
        ensures
            state == self.current_state,
            self.inv(),
    {
        proof {
            use_type_invariant(self);
        }
        self.current_state
    }

    /// Moves to `new_state` and appends the state that is left to the state
    /// history.
    fn enter(&mut self, new_state: TdispTdiState)
        requires
            new_state != TdispTdiState::Uninitialized,
        ensures
            final(self).current_state == new_state,
            final(self).state_history@ == push_bounded(
                old(self).state_history@,
                old(self).current_state,
            ),
            final(self).unbind_reason_history@ == old(self).unbind_reason_history@,
    {
        proof {
            use_type_invariant(&*self);
        }
        self.state_history = extend_history(&self.state_history, self.current_state);
        self.current_state = new_state;
    }

    /// Appends a reason to the unbind history.
    fn record(&mut self, reason: TdispUnbindReason)
        ensures
            final(self).current_state == old(self).current_state,
            final(self).state_history@ == old(self).state_history@,
            final(self).unbind_reason_history@ == push_bounded(
                old(self).unbind_reason_history@,
                reason,
            ),
    {
        proof {
            use_type_invariant(&*self);
        }
        self.unbind_reason_history = extend_history(&self.unbind_reason_history, reason);
    }
}

/// The state machine for the assignment flow of one device. It owns the
/// handle through which it asks the host to act on the device.
pub struct TdispHostStateMachine<H: TdispHostDeviceInterface> {
    /// The state of the device and the two histories.
    lifecycle: Lifecycle,
    /// The device id that log messages name.
    debug_device_id: String,
    /// Calls back into the host to act on the device.
    host_interface: H,
}

impl<H: TdispHostDeviceInterface> View for TdispHostStateMachine<H> {
    type V = StateMachineView;

    closed spec fn view(&self) -> StateMachineView {
        StateMachineView {
            state: self.lifecycle.current_state,
            state_history: self.lifecycle.state_history@,
            unbind_reason_history: self.lifecycle.unbind_reason_history@,
            debug_device_id: self.debug_device_id@,
        }
    }
}

impl<H: TdispHostDeviceInterface> TdispHostStateMachine<H> {
    /// The handle through which the machine asks the host to act on the
    /// device, as a value.
    pub closed spec fn spec_host_interface(self) -> H {
        self.host_interface
    }

    /// Create a new state machine in the `Unlocked` state, which keeps
    /// `host_interface` as its handle to the host.
    pub fn new(host_interface: H) -> (machine: Self)
        ensures
            machine@ == StateMachineView::initial(),
            machine.spec_host_interface() == host_interface,
    {
        Self { lifecycle: Lifecycle::new(), debug_device_id: String::new(), host_interface }
    }

    /// Get the current state of the TDI.
    pub fn state(&self) -> (state: TdispTdiState)
        ensures
            state == self@.state,
            self@.wf(),
    {
        proof {
            use_type_invariant(&self.lifecycle);
        }
        self.lifecycle.state()
    }

    /// The states that the device was in before, oldest first. At most
    /// `TDISP_STATE_HISTORY_LEN` are kept.
    pub fn state_history(&self) -> (history: &[TdispTdiState])
        ensures
            history@ == self@.state_history,
            history@.len() <= TDISP_STATE_HISTORY_LEN,
    {
        proof {
            use_type_invariant(&self.lifecycle);
        }
        self.lifecycle.state_history.as_slice()
    }

    /// The reasons of the unbinds that the host carried out, oldest first. At
    /// most `TDISP_STATE_HISTORY_LEN` are kept.
    pub fn unbind_reason_history(&self) -> (history: &[TdispUnbindReason])
        ensures
            history@ == self@.unbind_reason_history,
            history@.len() <= TDISP_STATE_HISTORY_LEN,
    {
        proof {
            use_type_invariant(&self.lifecycle);
        }
        self.lifecycle.unbind_reason_history.as_slice()
    }

    /// The handle through which the machine asks the host to act on the
    /// device.
    pub fn host_interface(&self) -> (host_interface: &H)
        ensures
            *host_interface == self.spec_host_interface(),
    {
        &self.host_interface
    }

    /// The device id that log messages name.
    pub fn debug_device_id(&self) -> (id: &str)
        ensures
            id@ == self@.debug_device_id,
    {
        self.debug_device_id.as_str()
    }

    /// Set the device id that log messages name.
    pub fn set_debug_device_id(&mut self, debug_device_id: String)
        ensures
            final(self)@ == (StateMachineView { debug_device_id: debug_device_id@, ..old(self)@ }),
            final(self).spec_host_interface() == old(self).spec_host_interface(),
    {
        self.debug_device_id = debug_device_id;
    }

    /// Check if the state machine can transition to the new state: whether
    /// the transition table has an edge from the current state to it.
    pub fn is_valid_state_transition(&self, new_state: &TdispTdiState) -> (valid: bool)
        ensures
            valid == transition_allowed(self@.state, *new_state),
    {
        match (self.lifecycle.state(), new_state) {
            (TdispTdiState::Unlocked, TdispTdiState::Locked) => true,
            (TdispTdiState::Locked, TdispTdiState::Run) => true,
            (TdispTdiState::Run, TdispTdiState::Unlocked) => true,
            (TdispTdiState::Locked, TdispTdiState::Unlocked) => true,
            (TdispTdiState::Unlocked, TdispTdiState::Unlocked) => true,
            (TdispTdiState::Error, TdispTdiState::Unlocked) => true,
            (TdispTdiState::Locked, TdispTdiState::Error) => true,
            (TdispTdiState::Run, TdispTdiState::Error) => true,
            _ => false,
        }
    }

    /// Check if the guest unbind reason is one that a guest may give. The
    /// answer decides what the unbind history records.
    pub fn is_valid_guest_unbind_reason(&self, reason: &TdispGuestUnbindReason) -> (valid: bool)
        ensures
            valid == reason.is_recognized(),
    {
        match reason {
            TdispGuestUnbindReason::Unknown => false,
            _ => true,
        }
    }

    /// Transitions the state machine to the new state if the table allows it,
    /// and records the state that it leaves. If the table does not allow it,
    /// nothing changes and `false` is returned.
    fn transition_state_to(&mut self, new_state: TdispTdiState) -> (allowed: bool)
        ensures
            allowed == transition_allowed(old(self)@.state, new_state),
            allowed ==> final(self)@ == old(self)@.transitioned_to(new_state),
            !allowed ==> final(self)@ == old(self)@,
    {
        // Ensure the state transition is valid.
        if !self.is_valid_state_transition(&new_state) {
            return false;
        }
        // Record the state that is left and transition to the new state.
        self.lifecycle.enter(new_state);
        true
    }

    /// Records the reason of an unbind once the host has answered: the reason
    /// enters the history if the host carried out the unbind. The answer of
    /// the host is handed back.
    fn record_unbind(&mut self, reason: TdispUnbindReason, host: Result<(), anyhow::Error>) -> (res:
        Result<(), anyhow::Error>)
        ensures
            res is Ok == host is Ok,
            final(self)@ == (StateMachineView {
                unbind_reason_history: if host is Ok {
                    push_bounded(old(self)@.unbind_reason_history, reason)
                } else {
                    old(self)@.unbind_reason_history
                },
                ..old(self)@
            }),
    {
        if let Err(e) = host {
            return Err(e);
        }
        // Record the unbind reason.
        self.lifecycle.record(reason);
        Ok(())
    }

    /// Transition the device to the `Unlocked` state regardless of the
    /// current state, and ask the host to unbind it. Every state of a machine
    /// has an edge to `Unlocked`, so the transition cannot be refused. If the
    /// host fails, its error is handed back; the state has moved all the same.
    fn unbind_all(&mut self, reason: TdispUnbindReason) -> (res: Result<(), anyhow::Error>)
        ensures
            final(self)@ == old(self)@.unbound(reason, res is Ok),
    {
        proof {
            use_type_invariant(&self.lifecycle);
            lemma_unlocked_is_always_reachable(self@.state);
        }
        let allowed = self.transition_state_to(TdispTdiState::Unlocked);
        assert(allowed);

        // Call back into the host to unbind the device.
        let host = self.host_interface.tdisp_unbind_device();
        self.record_unbind(reason, host)
    }

    /// Finishes a request whose state was right, once the host has answered:
    /// if the host carried out its action, the machine follows the edge to
    /// `target`; if not, the machine stays where it is and the request fails
    /// with `HostFailedToProcessCommand`.
    fn complete_transition(&mut self, host: Result<(), anyhow::Error>, target: TdispTdiState) -> (res:
        Result<(), TdispGuestOperationError>)
        requires
            transition_allowed(old(self)@.state, target),
        ensures
            host is Ok ==> res == Ok::<(), TdispGuestOperationError>(()) && final(self)@ == old(
                self,
            )@.transitioned_to(target),
            host is Err ==> res == Err::<(), TdispGuestOperationError>(
                TdispGuestOperationError::HostFailedToProcessCommand,
            ) && final(self)@ == old(self)@,
    {
        match host {
            Ok(()) => {
                let allowed = self.transition_state_to(target);
                assert(allowed);
                Ok(())
            },
            Err(_) => Err(TdispGuestOperationError::HostFailedToProcessCommand),
        }
    }
}

/// The error of a request that came in a state that does not allow it, once
/// the forced unbind has been tried: `state_error` if the host carried out the
/// unbind, `HostFailedToProcessCommand` if it did not.
fn forced_unbind_error(unbound: Result<(), anyhow::Error>, state_error: TdispGuestOperationError) -> (error:
    TdispGuestOperationError)
    ensures
        error == if unbound is Ok {
            state_error
        } else {
            TdispGuestOperationError::HostFailedToProcessCommand
        },
{
    match unbound {
        Ok(()) => state_error,
        Err(_) => TdispGuestOperationError::HostFailedToProcessCommand,
    }
}

/// What a request for a report returns once the host has answered: the
/// bytes that the host gave, as they are, or `HostFailedToProcessCommand` if
/// the host gave none.
pub fn report_from_host(answer: Result<Vec<u8>, anyhow::Error>) -> (result: Result<
    Vec<u8>,
    TdispGuestOperationError,
>)
    ensures
        match answer {
            Ok(given) => result matches Ok(report) && report@ == given@,
            Err(_) => result == Err::<Vec<u8>, TdispGuestOperationError>(
                TdispGuestOperationError::HostFailedToProcessCommand,
            ),
        },
{
    match answer {
        Ok(bytes) => Ok(bytes),
        Err(_) => Err(TdispGuestOperationError::HostFailedToProcessCommand),
    }
}

/// Every state that a machine can be in has an edge to `Unlocked`: a device
/// can always be unbound.
pub proof fn lemma_unlocked_is_always_reachable(state: TdispTdiState)
    requires
        state != TdispTdiState::Uninitialized,
    ensures
        transition_allowed(state, TdispTdiState::Unlocked),
{
}

/// What `push_bounded` keeps: the new entry comes last, the history never
/// grows beyond `TDISP_STATE_HISTORY_LEN`, and only when it was full does the
/// oldest entry leave.
pub proof fn lemma_push_bounded<T>(history: Seq<T>, entry: T)
    requires
        history.len() <= TDISP_STATE_HISTORY_LEN,
    ensures
        push_bounded(history, entry).last() == entry,
        push_bounded(history, entry).len() == if history.len() < TDISP_STATE_HISTORY_LEN {
            history.len() + 1
        } else {
            TDISP_STATE_HISTORY_LEN as nat
        },
        push_bounded(history, entry).drop_last() == if history.len() < TDISP_STATE_HISTORY_LEN {
            history
        } else {
            history.drop_first()
        },
{
    let next = push_bounded(history, entry);
    if history.len() < TDISP_STATE_HISTORY_LEN {
        assert(next.drop_last() =~= history);
    } else {
        assert(next.drop_last() =~= history.drop_first());
    }
}

/// Every request keeps a machine well formed, whatever the host does.
pub proof fn law_requests_preserve_wf(
    machine: StateMachineView,
    reason: TdispGuestUnbindReason,
    report_type: TdispDeviceReportType,
    host_ok: bool,
)
    requires
        machine.wf(),
    ensures
        machine.lock_step(host_ok).0.wf(),
        machine.start_step(host_ok).0.wf(),
        machine.report_step(report_type, host_ok).0.wf(),
        machine.unbind_step(reason, host_ok).0.wf(),
{
    lemma_push_bounded(machine.state_history, machine.state);
    lemma_push_bounded(
        machine.unbind_reason_history,
        TdispUnbindReason::InvalidGuestTransitionToLocked,
    );
    lemma_push_bounded(machine.unbind_reason_history, TdispUnbindReason::InvalidGuestTransitionToRun);
    lemma_push_bounded(
        machine.unbind_reason_history,
        TdispUnbindReason::InvalidGuestGetAttestationReportState,
    );
    lemma_push_bounded(machine.unbind_reason_history, StateMachineView::recorded_reason(reason));
}

/// Transition table completeness. A request that comes in a state from which
/// the table has an edge for it succeeds when the host carries out its
/// action: a lock from `Unlocked` leads to `Locked`, a start from `Locked` to
/// `Run`, an unbind from any state to `Unlocked`. The state that is left
/// becomes the last entry of the state history, which never holds more than
/// `TDISP_STATE_HISTORY_LEN` entries: when it is full, the oldest one leaves.
pub proof fn law_transition_table_completeness(
    machine: StateMachineView,
    reason: TdispGuestUnbindReason,
)
    requires
        machine.wf(),
    ensures
        machine.state == TdispTdiState::Unlocked ==> {
            &&& machine.lock_step(true).1 is Ok
            &&& machine.lock_step(true).0 == machine.transitioned_to(TdispTdiState::Locked)
        },
        machine.state == TdispTdiState::Locked ==> {
            &&& machine.start_step(true).1 is Ok
            &&& machine.start_step(true).0 == machine.transitioned_to(TdispTdiState::Run)
        },
        machine.unbind_step(reason, true).1 is Ok,
        machine.unbind_step(reason, true).0.state == TdispTdiState::Unlocked,
        machine.unbind_step(reason, true).0.state_history == machine.transitioned_to(
            TdispTdiState::Unlocked,
        ).state_history,
        transition_allowed(machine.state, TdispTdiState::Unlocked),
        forall|target: TdispTdiState| #[trigger]
            transition_allowed(machine.state, target) ==> {
                let next = machine.transitioned_to(target);
                &&& next.state == target
                &&& next.state_history.last() == machine.state
                &&& next.state_history.len() == if machine.state_history.len()
                    < TDISP_STATE_HISTORY_LEN {
                    machine.state_history.len() + 1
                } else {
                    TDISP_STATE_HISTORY_LEN as nat
                }
                &&& next.state_history.drop_last() == if machine.state_history.len()
                    < TDISP_STATE_HISTORY_LEN {
                    machine.state_history
                } else {
                    machine.state_history.drop_first()
                }
                &&& next.unbind_reason_history == machine.unbind_reason_history
            },
{
    lemma_push_bounded(machine.state_history, machine.state);
}

/// Self-healing. A request that comes in a state from which the table has no
/// edge for it never succeeds and always leaves the machine in `Unlocked`,
/// with the state that it left as the last entry of the state history. When
/// the host carries out the unbind, the request fails with its state error
/// (`InvalidDeviceState` for a lock or a start, and
/// `InvalidGuestAttestationReportState` for a report) and the reason of the
/// forced unbind, which `is_forced`, becomes the last entry of the unbind
/// history. When the host
/// does not, the request fails with `HostFailedToProcessCommand` and the
/// unbind history is left as it was.
pub proof fn law_self_healing(
    machine: StateMachineView,
    report_type: TdispDeviceReportType,
    host_ok: bool,
)
    requires
        machine.wf(),
    ensures
        machine.state != TdispTdiState::Unlocked ==> {
            let (next, result) = machine.lock_step(host_ok);
            &&& next == machine.unbound(TdispUnbindReason::InvalidGuestTransitionToLocked, host_ok)
            &&& host_ok ==> result == Err::<(), TdispGuestOperationError>(
                TdispGuestOperationError::InvalidDeviceState,
            ) && next.unbind_reason_history.last()
                == TdispUnbindReason::InvalidGuestTransitionToLocked
                && next.unbind_reason_history.last().is_forced()
            &&& !host_ok ==> result == Err::<(), TdispGuestOperationError>(
                TdispGuestOperationError::HostFailedToProcessCommand,
            )
        },
        machine.state != TdispTdiState::Locked ==> {
            let (next, result) = machine.start_step(host_ok);
            &&& next == machine.unbound(TdispUnbindReason::InvalidGuestTransitionToRun, host_ok)
            &&& host_ok ==> result == Err::<(), TdispGuestOperationError>(
                TdispGuestOperationError::InvalidDeviceState,
            ) && next.unbind_reason_history.last()
                == TdispUnbindReason::InvalidGuestTransitionToRun
                && next.unbind_reason_history.last().is_forced()
            &&& !host_ok ==> result == Err::<(), TdispGuestOperationError>(
                TdispGuestOperationError::HostFailedToProcessCommand,
            )
        },
        !report_type.is_invalid() && machine.state != TdispTdiState::Locked && machine.state
            != TdispTdiState::Run ==> {
            let (next, error) = machine.report_step(report_type, host_ok);
            &&& next == machine.unbound(
                TdispUnbindReason::InvalidGuestGetAttestationReportState,
                host_ok,
            )
            &&& host_ok ==> error == Some(
                TdispGuestOperationError::InvalidGuestAttestationReportState,
            ) && next.unbind_reason_history.last()
                == TdispUnbindReason::InvalidGuestGetAttestationReportState
                && next.unbind_reason_history.last().is_forced()
            &&& !host_ok ==> error == Some(TdispGuestOperationError::HostFailedToProcessCommand)
        },
        forall|reason: TdispUnbindReason| #[trigger]
            machine.unbound(reason, host_ok).state == TdispTdiState::Unlocked
                && machine.unbound(reason, host_ok).state_history.last() == machine.state
                && (!host_ok ==> machine.unbound(reason, host_ok).unbind_reason_history
                == machine.unbind_reason_history),
{
    lemma_push_bounded(machine.state_history, machine.state);
    lemma_push_bounded(
        machine.unbind_reason_history,
        TdispUnbindReason::InvalidGuestTransitionToLocked,
    );
    lemma_push_bounded(machine.unbind_reason_history, TdispUnbindReason::InvalidGuestTransitionToRun);
    lemma_push_bounded(
        machine.unbind_reason_history,
        TdispUnbindReason::InvalidGuestGetAttestationReportState,
    );
}

/// Unbind universality. From every state, and for every reason, a request to
/// unbind leaves the machine in `Unlocked`. When the host carries out the
/// unbind, the request succeeds and its reason becomes the last entry of the
/// unbind history: a recognized reason as `GuestInitiated`, one that is not
/// recognized as `InvalidGuestUnbindReason`, and neither as a forced one.
/// When the host does not, the
/// request fails with `HostFailedToProcessCommand`; the state has moved all
/// the same.
pub proof fn law_unbind_universality(
    machine: StateMachineView,
    reason: TdispGuestUnbindReason,
    host_ok: bool,
)
    requires
        machine.wf(),
    ensures
        machine.unbind_step(reason, host_ok).0.state == TdispTdiState::Unlocked,
        machine.unbind_step(reason, host_ok).0.state_history.last() == machine.state,
        host_ok ==> {
            &&& machine.unbind_step(reason, host_ok).1 is Ok
            &&& machine.unbind_step(reason, host_ok).0.unbind_reason_history.last()
                == if reason == TdispGuestUnbindReason::Graceful {
                TdispUnbindReason::GuestInitiated(reason)
            } else {
                TdispUnbindReason::InvalidGuestUnbindReason(reason)
            }
            &&& !machine.unbind_step(reason, host_ok).0.unbind_reason_history.last().is_forced()
        },
        !host_ok ==> {
            &&& machine.unbind_step(reason, host_ok).1 == Err::<(), TdispGuestOperationError>(
                TdispGuestOperationError::HostFailedToProcessCommand,
            )
            &&& machine.unbind_step(reason, host_ok).0.unbind_reason_history
                == machine.unbind_reason_history
        },
{
    lemma_push_bounded(machine.state_history, machine.state);
    lemma_push_bounded(machine.unbind_reason_history, StateMachineView::recorded_reason(reason));
}

/// A report of a sentinel type is refused before the state is looked at: the
/// machine stays as it is in every state, and no unbind is forced.
pub proof fn law_invalid_report_type_leaves_machine(
    machine: StateMachineView,
    report_type: TdispDeviceReportType,
    host_ok: bool,
)
    requires
        report_type.is_invalid(),
    ensures
        machine.report_step(report_type, host_ok) == (
            machine,
            Some(TdispGuestOperationError::InvalidGuestAttestationReportType),
        ),
{
}

/// The requests that a guest can make of the state handler of a device. The
/// handler can be an emulated device or an assigned device that is actually
/// connected to the guest.
pub trait TdispGuestRequestInterface {
    /// Transition the device from `Unlocked` to `Locked`. A request in any
    /// other state fails and unbinds the device.
    fn request_lock_device_resources(&mut self) -> Result<(), TdispGuestOperationError>;

    /// Transition the device from `Locked` to `Run`. A request in any other
    /// state fails and unbinds the device.
    fn request_start_tdi(&mut self) -> Result<(), TdispGuestOperationError>;

    /// Retrieve a report of the device while it is `Locked` or `Run`. A
    /// request in any other state fails and unbinds the device.
    fn request_attestation_report(&mut self, report_type: &TdispDeviceReportType) -> Result<
        Vec<u8>,
        TdispGuestOperationError,
    >;

    /// Return the device to `Unlocked`. The guest can ask for this at any
    /// time and in any state.
    fn request_unbind(&mut self, reason: TdispGuestUnbindReason) -> Result<
        (),
        TdispGuestOperationError,
    >;
}

impl<H: TdispHostDeviceInterface> TdispGuestRequestInterface for TdispHostStateMachine<H> {
    /// From `Unlocked`, asks the host to bind the device and moves to
    /// `Locked` if it did. From any other state the device is unbound and the
    /// request fails with `InvalidDeviceState`. Whenever the host fails, the
    /// request fails with `HostFailedToProcessCommand`.
    fn request_lock_device_resources(&mut self) -> (result: Result<(), TdispGuestOperationError>)
        ensures
            final(self)@ == old(self)@.lock_step(host_succeeded(result)).0,
            result == old(self)@.lock_step(host_succeeded(result)).1,
            final(self)@.wf(),
    {
        proof {
            use_type_invariant(&self.lifecycle);
        }
        // If the guest asks for Locked while the device is not Unlocked, the
        // device is reset to Unlocked.
        if self.lifecycle.state() != TdispTdiState::Unlocked {
            let unbound = self.unbind_all(TdispUnbindReason::InvalidGuestTransitionToLocked);
            proof {
                use_type_invariant(&self.lifecycle);
            }
            return Err(forced_unbind_error(unbound, TdispGuestOperationError::InvalidDeviceState));
        }
        // Call back into the host to bind the device.
        let bound = self.host_interface.tdisp_bind_device();
        let result = self.complete_transition(bound, TdispTdiState::Locked);
        proof {
            use_type_invariant(&self.lifecycle);
        }
        result
    }

    /// From `Locked`, asks the host to start the device and moves to `Run` if
    /// it did. From any other state the device is unbound and the request
    /// fails with `InvalidDeviceState`. Whenever the host fails, the request
    /// fails with `HostFailedToProcessCommand`.
    fn request_start_tdi(&mut self) -> (result: Result<(), TdispGuestOperationError>)
        ensures
            final(self)@ == old(self)@.start_step(host_succeeded(result)).0,
            result == old(self)@.start_step(host_succeeded(result)).1,
            final(self)@.wf(),
    {
        proof {
            use_type_invariant(&self.lifecycle);
        }
        if self.lifecycle.state() != TdispTdiState::Locked {
            let unbound = self.unbind_all(TdispUnbindReason::InvalidGuestTransitionToRun);
            proof {
                use_type_invariant(&self.lifecycle);
            }
            return Err(forced_unbind_error(unbound, TdispGuestOperationError::InvalidDeviceState));
        }
        // Call back into the host to start the device.
        let started = self.host_interface.tdisp_start_device();
        let result = self.complete_transition(started, TdispTdiState::Run);
        proof {
            use_type_invariant(&self.lifecycle);
        }
        result
    }

    /// Refuses a sentinel report type with `InvalidGuestAttestationReportType`
    /// and leaves the machine as it is. Otherwise, while the device is
    /// `Locked` or `Run`, hands the request to the host and returns the bytes
    /// that the host gave; in any other state the device is unbound and the
    /// request fails with `InvalidGuestAttestationReportState`. Whenever the
    /// host fails, the request fails with `HostFailedToProcessCommand`.
    fn request_attestation_report(&mut self, report_type: &TdispDeviceReportType) -> (result: Result<
        Vec<u8>,
        TdispGuestOperationError,
    >)
        ensures
            final(self)@ == old(self)@.report_step(*report_type, host_succeeded(result)).0,
            match result {
                Ok(_) => old(self)@.report_step(*report_type, true).1 is None,
                Err(error) => old(self)@.report_step(*report_type, host_succeeded(result)).1
                    == Some(error),
            },
            final(self)@.wf(),
    {
        proof {
            use_type_invariant(&self.lifecycle);
        }
        if report_type.is_invalid_report() {
            return Err(TdispGuestOperationError::InvalidGuestAttestationReportType);
        }
        let state = self.lifecycle.state();
        if state != TdispTdiState::Locked && state != TdispTdiState::Run {
            let unbound = self.unbind_all(
                TdispUnbindReason::InvalidGuestGetAttestationReportState,
            );
            proof {
                use_type_invariant(&self.lifecycle);
            }
            return Err(
                forced_unbind_error(
                    unbound,
                    TdispGuestOperationError::InvalidGuestAttestationReportState,
                ),
            );
        }
        report_from_host(self.host_interface.tdisp_get_device_report(report_type))
    }

    /// Drives the device to `Unlocked` from any state and asks the host to
    /// unbind it. A reason that is not recognized is recorded as invalid, and
    /// the unbind is carried out all the same. If the host fails, the request
    /// fails with `HostFailedToProcessCommand`; the state has moved either
    /// way.
    fn request_unbind(&mut self, reason: TdispGuestUnbindReason) -> (result: Result<
        (),
        TdispGuestOperationError,
    >)
        ensures
            final(self)@ == old(self)@.unbind_step(reason, result is Ok).0,
            result == old(self)@.unbind_step(reason, result is Ok).1,
            final(self)@.state == TdispTdiState::Unlocked,
            final(self)@.wf(),
    {
        // A reason that a guest may not give is replaced in the history by a
        // marker that keeps it.
        let recorded = if !self.is_valid_guest_unbind_reason(&reason) {
            TdispUnbindReason::InvalidGuestUnbindReason(reason)
        } else {
            TdispUnbindReason::GuestInitiated(reason)
        };
        let unbound = self.unbind_all(recorded);
        proof {
            use_type_invariant(&self.lifecycle);
        }
        match unbound {
            Ok(()) => Ok(()),
            Err(_) => Err(TdispGuestOperationError::HostFailedToProcessCommand),
        }
    }
}

} // verus!
