use vstd::prelude::*;

use crate::error::{error_of, spec_error_of, BridgeError, Fault};
use crate::settings::{DataBits, FlowControl, Parity, PortSettings, StopBits};

verus! {

/// Where a bridge stands in its life.
#[derive(Clone, Copy, Debug, PartialEq, Eq)]
pub enum Lifecycle {
    /// Registered with a reactor; reads and writes are attempted.
    Open,
    /// Reads and writes are refused; the handle stays open and configurable.
    ShutDown,
    /// Deregistered and released; every operation is refused.
    Closed,
}

/// What one non-blocking attempt on the device gave back.
#[derive(Clone, Copy, Debug, PartialEq, Eq)]
pub enum Attempt {
    /// The device moved this many bytes.
    Done(usize),
    /// The device is not ready; nothing was moved.
    WouldBlock,
    /// The device failed.
    Failed(Fault),
}

/// What a poll of a read or a write resolves to.
#[derive(Clone, Copy, Debug, PartialEq, Eq)]
pub enum Progress {
    /// The operation completed, moving this many bytes.
    Ready(usize),
    /// The task is suspended until the reactor reports readiness.
    Pending,
}

/// A step of tearing a bridge down, in the order it must be performed.
#[derive(Clone, Copy, Debug, PartialEq, Eq)]
pub enum Teardown {
    /// Remove the handle from the reactor's interest set.
    Deregister,
    /// Release the device handle.
    Release,
}

/// The abstract state of a bridge.
#[derive(Clone, Copy, Debug, PartialEq, Eq)]
pub struct BridgeState {
    pub lifecycle: Lifecycle,
    /// The configuration last applied to the device.
    pub settings: PortSettings,
    /// Whether other processes are refused the device path.
    pub exclusive: bool,
    /// Whether a suspended read waits for read-readiness.
    pub read_waiting: bool,
    /// Whether a suspended write waits for write-readiness.
    pub write_waiting: bool,
}

/// One device handle together with its readiness registration.
pub struct Bridge {
    state: BridgeState,
}

impl View for Bridge {
    type V = BridgeState;

    closed spec fn view(&self) -> BridgeState {
        self.state
    }
}

/// The state of a bridge just opened with `s`.
pub open spec fn spec_opened(s: PortSettings) -> BridgeState {
    BridgeState {
        lifecycle: Lifecycle::Open,
        settings: s,
        exclusive: false,
        read_waiting: false,
        write_waiting: false,
    }
}

/// Whether a read or a write may be attempted, and if not, why.
pub open spec fn spec_transfer_gate(st: BridgeState) -> Result<(), BridgeError> {
    match st.lifecycle {
        Lifecycle::Open => Ok(()),
        Lifecycle::ShutDown => Err(BridgeError::UseAfterShutdown),
        Lifecycle::Closed => Err(BridgeError::UseAfterClose),
    }
}

/// Whether a configuration operation may go to the device, and if not, why.
pub open spec fn spec_config_gate(st: BridgeState) -> Result<(), BridgeError> {
    match st.lifecycle {
        Lifecycle::Closed => Err(BridgeError::UseAfterClose),
        _ => Ok(()),
    }
}

/// What a poll resolves to, given the attempt that was made.
pub open spec fn spec_progress(a: Attempt) -> Result<Progress, BridgeError> {
    match a {
        Attempt::Done(n) => Ok(Progress::Ready(n)),
        Attempt::WouldBlock => Ok(Progress::Pending),
        Attempt::Failed(f) => Err(spec_error_of(f)),
    }
}

/// Whether an attempt is one the device can give for a buffer of `len` bytes.
pub open spec fn fits(a: Attempt, len: usize) -> bool {
    match a {
        Attempt::Done(n) => n <= len,
        _ => true,
    }
}

/// The state after a read poll resolved by attempt `a`.
pub open spec fn spec_after_read(st: BridgeState, a: Attempt) -> BridgeState {
    BridgeState { read_waiting: a is WouldBlock, ..st }
}

/// The state after a write poll resolved by attempt `a`.
pub open spec fn spec_after_write(st: BridgeState, a: Attempt) -> BridgeState {
    BridgeState { write_waiting: a is WouldBlock, ..st }
}

/// What shutting down gives, after the flush resolved as `flushed`.
pub open spec fn spec_shutdown(st: BridgeState, flushed: Result<(), Fault>) -> (BridgeState, Result<(), BridgeError>) {
    match st.lifecycle {
        Lifecycle::Closed => (st, Err(BridgeError::UseAfterClose)),
        _ => match flushed {
            Ok(()) => (
                BridgeState {
                    lifecycle: Lifecycle::ShutDown,
                    read_waiting: false,
                    write_waiting: false,
                    ..st
                },
                Ok(()),
            ),
            Err(f) => (st, Err(spec_error_of(f))),
        },
    }
}

/// The state after closing.
pub open spec fn spec_closed(st: BridgeState) -> BridgeState {
    BridgeState {
        lifecycle: Lifecycle::Closed,
        read_waiting: false,
        write_waiting: false,
        ..st
    }
}

/// What opening by path gives, once the device open and the registration resolved.
pub open spec fn spec_open(
    s: PortSettings,
    device: Result<(), Fault>,
    registration: Result<(), Fault>,
) -> Result<BridgeState, BridgeError> {
    if device is Err {
        Err(BridgeError::Open)
    } else if registration is Err {
        Err(BridgeError::Registration)
    } else {
        Ok(spec_opened(s))
    }
}

/// What opening a connected pair gives, once the allocation and both
/// registrations resolved.
pub open spec fn spec_pair(
    s: PortSettings,
    allocation: Result<(), Fault>,
    first: Result<(), Fault>,
    second: Result<(), Fault>,
) -> Result<(BridgeState, BridgeState), BridgeError> {
    if allocation is Err {
        Err(BridgeError::Pair)
    } else if first is Err || second is Err {
        Err(BridgeError::Registration)
    } else {
        Ok((spec_opened(s), spec_opened(s)))
    }
}

/// A configuration change whose device call resolved as `applied`.
pub open spec fn spec_configure(
    st: BridgeState,
    s: PortSettings,
    applied: Result<(), Fault>,
) -> (BridgeState, Result<(), BridgeError>) {
    match st.lifecycle {
        Lifecycle::Closed => (st, Err(BridgeError::UseAfterClose)),
        _ => match applied {
            Ok(()) => (BridgeState { settings: s, ..st }, Ok(())),
            Err(f) => (st, Err(spec_error_of(f))),
        },
    }
}

/// An exclusivity change whose device call resolved as `applied`.
pub open spec fn spec_set_exclusive(
    st: BridgeState,
    exclusive: bool,
    applied: Result<(), Fault>,
) -> (BridgeState, Result<(), BridgeError>) {
    match st.lifecycle {
        Lifecycle::Closed => (st, Err(BridgeError::UseAfterClose)),
        _ => match applied {
            Ok(()) => (BridgeState { exclusive, ..st }, Ok(())),
            Err(f) => (st, Err(spec_error_of(f))),
        },
    }
}

fn progress_of(a: Attempt) -> (r: Result<Progress, BridgeError>)
    ensures
        r == spec_progress(a),
{
    match a {
        Attempt::Done(n) => Ok(Progress::Ready(n)),
        Attempt::WouldBlock => Ok(Progress::Pending),
        Attempt::Failed(f) => Err(error_of(f)),
    }
}

impl Bridge {
    /// Builds the state of one bridge from the outcomes of opening the
    /// device at a path with `settings` and of registering it with a reactor.
    pub fn from_path(
        settings: PortSettings,
        device: Result<(), Fault>,
        registration: Result<(), Fault>,
    ) -> (r: Result<Bridge, BridgeError>)
        ensures
            r matches Ok(b) ==> spec_open(settings, device, registration) == Ok::<BridgeState, BridgeError>(b@),
            r matches Err(e) ==> spec_open(settings, device, registration) == Err::<BridgeState, BridgeError>(e),
    {
        if device.is_err() {
            Err(BridgeError::Open)
        } else if registration.is_err() {
            Err(BridgeError::Registration)
        } else {
            Ok(Bridge::opened(settings))
        }
    }

    fn opened(settings: PortSettings) -> (r: Bridge)
        ensures
            r@ == spec_opened(settings),
    {
        Bridge {
            state: BridgeState {
                lifecycle: Lifecycle::Open,
                settings,
                exclusive: false,
                read_waiting: false,
                write_waiting: false,
            },
        }
    }

    /// Builds the states of a connected pair from the outcomes of allocating
    /// the pair and of registering each side. On any failure no side is
    /// handed out, so whatever was allocated is released by its owner.
    pub fn pair(
        settings: PortSettings,
        allocation: Result<(), Fault>,
        first: Result<(), Fault>,
        second: Result<(), Fault>,
    ) -> (r: Result<(Bridge, Bridge), BridgeError>)
        ensures
            r matches Ok((a, b)) ==> spec_pair(settings, allocation, first, second)
                == Ok::<(BridgeState, BridgeState), BridgeError>((a@, b@)),
            r matches Err(e) ==> spec_pair(settings, allocation, first, second)
                == Err::<(BridgeState, BridgeState), BridgeError>(e),
    {
        if allocation.is_err() {
            Err(BridgeError::Pair)
        } else if first.is_err() || second.is_err() {
            Err(BridgeError::Registration)
        } else {
            Ok((Bridge::opened(settings), Bridge::opened(settings)))
        }
    }

    /// The lifecycle stage of this bridge.
    pub fn lifecycle(&self) -> (r: Lifecycle)
        ensures
            r == self@.lifecycle,
    {
        self.state.lifecycle
    }

    /// Decides whether a read or a write may be attempted now.
    pub fn transfer_gate(&self) -> (r: Result<(), BridgeError>)
        ensures
            r == spec_transfer_gate(self@),
    {
        match self.state.lifecycle {
            Lifecycle::Open => Ok(()),
            Lifecycle::ShutDown => Err(BridgeError::UseAfterShutdown),
            Lifecycle::Closed => Err(BridgeError::UseAfterClose),
        }
    }

    /// Decides whether a configuration operation may go to the device now.
    pub fn config_gate(&self) -> (r: Result<(), BridgeError>)
        ensures
            r == spec_config_gate(self@),
    {
        match self.state.lifecycle {
            Lifecycle::Closed => Err(BridgeError::UseAfterClose),
            _ => Ok(()),
        }
    }

    /// Resolves a read poll from the one attempt made into a buffer of
    /// `len` bytes. "Would block" suspends the task with read interest
    /// registered; it is never reported as a completion.
    pub fn poll_read(&mut self, len: usize, a: Attempt) -> (r: Result<Progress, BridgeError>)
        requires
            old(self)@.lifecycle == Lifecycle::Open,
            fits(a, len),
        ensures
            r == spec_progress(a),
            final(self)@ == spec_after_read(old(self)@, a),
    {
        self.state.read_waiting = matches!(a, Attempt::WouldBlock);
        progress_of(a)
    }

    /// Resolves a write poll from the one attempt made with a buffer of
    /// `len` bytes. A partial write is a completion with that count; the
    /// caller resubmits the rest.
    pub fn poll_write(&mut self, len: usize, a: Attempt) -> (r: Result<Progress, BridgeError>)
        requires
            old(self)@.lifecycle == Lifecycle::Open,
            fits(a, len),
        ensures
            r == spec_progress(a),
            final(self)@ == spec_after_write(old(self)@, a),
    {
        self.state.write_waiting = matches!(a, Attempt::WouldBlock);
        progress_of(a)
    }

    /// Handles a read-readiness wake: returns whether a suspended read is
    /// to be retried, which happens once per wake.
    pub fn wake_read(&mut self) -> (r: bool)
        ensures
            r == old(self)@.read_waiting,
            final(self)@ == (BridgeState { read_waiting: false, ..old(self)@ }),
    {
        let r = self.state.read_waiting;
        self.state.read_waiting = false;
        r
    }

    /// Handles a write-readiness wake: returns whether a suspended write is
    /// to be retried, which happens once per wake.
    pub fn wake_write(&mut self) -> (r: bool)
        ensures
            r == old(self)@.write_waiting,
            final(self)@ == (BridgeState { write_waiting: false, ..old(self)@ }),
    {
        let r = self.state.write_waiting;
        self.state.write_waiting = false;
        r
    }

    /// Abandons a suspended read: its wake interest is dropped.
    pub fn cancel_read(&mut self)
        ensures
            final(self)@ == (BridgeState { read_waiting: false, ..old(self)@ }),
    {
        self.state.read_waiting = false;
    }

    /// Abandons a suspended write: its wake interest is dropped.
    pub fn cancel_write(&mut self)
        ensures
            final(self)@ == (BridgeState { write_waiting: false, ..old(self)@ }),
    {
        self.state.write_waiting = false;
    }

    /// Shuts the bridge down once the outbound flush resolved as `flushed`.
    /// A failed flush leaves the state as it was.
    pub fn shutdown(&mut self, flushed: Result<(), Fault>) -> (r: Result<(), BridgeError>)
        ensures
            (final(self)@, r) == spec_shutdown(old(self)@, flushed),
    {
        match self.state.lifecycle {
            Lifecycle::Closed => Err(BridgeError::UseAfterClose),
            _ => match flushed {
                Ok(()) => {
                    self.state.lifecycle = Lifecycle::ShutDown;
                    self.state.read_waiting = false;
                    self.state.write_waiting = false;
                    Ok(())
                },
                Err(f) => Err(error_of(f)),
            },
        }
    }

    /// Closes the bridge, returning the teardown steps in the order they
    /// must be performed: deregistration before release.
    pub fn close(&mut self) -> (r: Result<Vec<Teardown>, BridgeError>)
        ensures
            old(self)@.lifecycle == Lifecycle::Closed ==> r == Err::<Vec<Teardown>, BridgeError>(
                BridgeError::UseAfterClose,
            ) && final(self)@ == old(self)@,
            old(self)@.lifecycle != Lifecycle::Closed ==> (r matches Ok(steps) && steps@ == seq![
                Teardown::Deregister,
                Teardown::Release,
            ] && final(self)@ == spec_closed(old(self)@)),
    {
        match self.state.lifecycle {
            Lifecycle::Closed => Err(BridgeError::UseAfterClose),
            _ => {
                self.state.lifecycle = Lifecycle::Closed;
                self.state.read_waiting = false;
                self.state.write_waiting = false;
                Ok(vec![Teardown::Deregister, Teardown::Release])
            },
        }
    }

    /// Records a whole-configuration change whose device call resolved as
    /// `applied`.
    pub fn set_all(&mut self, settings: PortSettings, applied: Result<(), Fault>) -> (r: Result<(), BridgeError>)
        ensures
            (final(self)@, r) == spec_configure(old(self)@, settings, applied),
    {
        match self.state.lifecycle {
            Lifecycle::Closed => Err(BridgeError::UseAfterClose),
            _ => match applied {
                Ok(()) => {
                    self.state.settings = settings;
                    Ok(())
                },
                Err(f) => Err(error_of(f)),
            },
        }
    }

    /// Records a baud rate change whose device call resolved as `applied`.
    pub fn set_baud_rate(&mut self, baud_rate: u32, applied: Result<(), Fault>) -> (r: Result<(), BridgeError>)
        ensures
            (final(self)@, r) == spec_configure(
                old(self)@,
                PortSettings { baud_rate, ..old(self)@.settings },
                applied,
            ),
    {
        let s = PortSettings { baud_rate, ..self.state.settings };
        self.set_all(s, applied)
    }

    /// Records a data bits change whose device call resolved as `applied`.
    pub fn set_data_bits(&mut self, data_bits: DataBits, applied: Result<(), Fault>) -> (r: Result<(), BridgeError>)
        ensures
            (final(self)@, r) == spec_configure(
                old(self)@,
                PortSettings { data_bits, ..old(self)@.settings },
                applied,
            ),
    {
        let s = PortSettings { data_bits, ..self.state.settings };
        self.set_all(s, applied)
    }

    /// Records a flow control change whose device call resolved as `applied`.
    pub fn set_flow_control(&mut self, flow_control: FlowControl, applied: Result<(), Fault>) -> (r: Result<(), BridgeError>)
        ensures
            (final(self)@, r) == spec_configure(
                old(self)@,
                PortSettings { flow_control, ..old(self)@.settings },
                applied,
            ),
    {
        let s = PortSettings { flow_control, ..self.state.settings };
        self.set_all(s, applied)
    }

    /// Records a parity change whose device call resolved as `applied`.
    pub fn set_parity(&mut self, parity: Parity, applied: Result<(), Fault>) -> (r: Result<(), BridgeError>)
        ensures
            (final(self)@, r) == spec_configure(
                old(self)@,
                PortSettings { parity, ..old(self)@.settings },
                applied,
            ),
    {
        let s = PortSettings { parity, ..self.state.settings };
        self.set_all(s, applied)
    }

    /// Records a stop bits change whose device call resolved as `applied`.
    pub fn set_stop_bits(&mut self, stop_bits: StopBits, applied: Result<(), Fault>) -> (r: Result<(), BridgeError>)
        ensures
            (final(self)@, r) == spec_configure(
                old(self)@,
                PortSettings { stop_bits, ..old(self)@.settings },
                applied,
            ),
    {
        let s = PortSettings { stop_bits, ..self.state.settings };
        self.set_all(s, applied)
    }

    /// Accepts a timeout and ignores it: under suspension-based I/O a fixed
    /// device timeout has no meaning, so nothing reaches the device.
    pub fn set_timeout(&mut self, timeout_ms: u64) -> (r: Result<(), BridgeError>)
        ensures
            final(self)@ == old(self)@,
            r == spec_config_gate(old(self)@),
    {
        self.config_gate()
    }

    /// The read and write timeout, in milliseconds: always zero, whatever
    /// was set, since operations suspend instead of timing out.
    pub fn timeout(&self) -> (r: u64)
        ensures
            r == 0,
    {
        0
    }

    /// The configuration last applied to the device.
    pub fn settings(&self) -> (r: Result<PortSettings, BridgeError>)
        ensures
            self@.lifecycle == Lifecycle::Closed ==> r == Err::<PortSettings, BridgeError>(BridgeError::UseAfterClose),
            self@.lifecycle != Lifecycle::Closed ==> r == Ok::<PortSettings, BridgeError>(self@.settings),
    {
        match self.state.lifecycle {
            Lifecycle::Closed => Err(BridgeError::UseAfterClose),
            _ => Ok(self.state.settings),
        }
    }

    /// The baud rate last applied.
    pub fn baud_rate(&self) -> (r: Result<u32, BridgeError>)
        ensures
            self@.lifecycle == Lifecycle::Closed ==> r == Err::<u32, BridgeError>(BridgeError::UseAfterClose),
            self@.lifecycle != Lifecycle::Closed ==> r == Ok::<u32, BridgeError>(self@.settings.baud_rate),
    {
        match self.settings() {
            Ok(s) => Ok(s.baud_rate),
            Err(e) => Err(e),
        }
    }

    /// The data bits last applied.
    pub fn data_bits(&self) -> (r: Result<DataBits, BridgeError>)
        ensures
            self@.lifecycle == Lifecycle::Closed ==> r == Err::<DataBits, BridgeError>(BridgeError::UseAfterClose),
            self@.lifecycle != Lifecycle::Closed ==> r == Ok::<DataBits, BridgeError>(self@.settings.data_bits),
    {
        match self.settings() {
            Ok(s) => Ok(s.data_bits),
            Err(e) => Err(e),
        }
    }

    /// The flow control last applied.
    pub fn flow_control(&self) -> (r: Result<FlowControl, BridgeError>)
        ensures
            self@.lifecycle == Lifecycle::Closed ==> r == Err::<FlowControl, BridgeError>(BridgeError::UseAfterClose),
            self@.lifecycle != Lifecycle::Closed ==> r == Ok::<FlowControl, BridgeError>(self@.settings.flow_control),
    {
        match self.settings() {
            Ok(s) => Ok(s.flow_control),
            Err(e) => Err(e),
        }
    }

    /// The parity last applied.
    pub fn parity(&self) -> (r: Result<Parity, BridgeError>)
        ensures
            self@.lifecycle == Lifecycle::Closed ==> r == Err::<Parity, BridgeError>(BridgeError::UseAfterClose),
            self@.lifecycle != Lifecycle::Closed ==> r == Ok::<Parity, BridgeError>(self@.settings.parity),
    {
        match self.settings() {
            Ok(s) => Ok(s.parity),
            Err(e) => Err(e),
        }
    }

    /// The stop bits last applied.
    pub fn stop_bits(&self) -> (r: Result<StopBits, BridgeError>)
        ensures
            self@.lifecycle == Lifecycle::Closed ==> r == Err::<StopBits, BridgeError>(BridgeError::UseAfterClose),
            self@.lifecycle != Lifecycle::Closed ==> r == Ok::<StopBits, BridgeError>(self@.settings.stop_bits),
    {
        match self.settings() {
            Ok(s) => Ok(s.stop_bits),
            Err(e) => Err(e),
        }
    }

    /// Records an exclusivity change whose device call resolved as
    /// `applied`; a platform without the primitive reports it unsupported.
    pub fn set_exclusive(&mut self, exclusive: bool, applied: Result<(), Fault>) -> (r: Result<(), BridgeError>)
        ensures
            (final(self)@, r) == spec_set_exclusive(old(self)@, exclusive, applied),
    {
        match self.state.lifecycle {
            Lifecycle::Closed => Err(BridgeError::UseAfterClose),
            _ => match applied {
                Ok(()) => {
                    self.state.exclusive = exclusive;
                    Ok(())
                },
                Err(f) => Err(error_of(f)),
            },
        }
    }

    /// Whether other processes are refused the device path.
    pub fn exclusive(&self) -> (r: bool)
        ensures
            r == self@.exclusive,
    {
        self.state.exclusive
    }
}

/// Opening by path with a valid configuration and then reading the
/// configuration back gives exactly the values that were set.
pub proof fn lemma_open_then_read_round_trip(s: PortSettings)
    requires
        s.valid(),
    ensures
        spec_open(s, Ok(()), Ok(())) matches Ok(st) && st.settings == s
            && spec_config_gate(st) == Ok::<(), BridgeError>(()),
{
}

/// A configuration change that the device accepted is what a read of the
/// configuration then gives back.
pub proof fn lemma_set_then_read_round_trip(st: BridgeState, s: PortSettings)
    requires
        st.lifecycle != Lifecycle::Closed,
    ensures
        spec_configure(st, s, Ok(())).0.settings == s,
        spec_configure(st, s, Ok(())).1 == Ok::<(), BridgeError>(()),
        spec_configure(st, s, Ok(())).0.lifecycle == st.lifecycle,
{
}

/// A read poll on which no data was available suspends the task: it
/// reports no bytes, leaves read interest registered, and only a wake
/// then leads to a retry, whose attempt decides the completion.
pub proof fn lemma_read_without_data_suspends(st: BridgeState, len: usize, retry: Attempt)
    requires
        st.lifecycle == Lifecycle::Open,
        fits(retry, len),
    ensures
        spec_progress(Attempt::WouldBlock) == Ok::<Progress, BridgeError>(Progress::Pending),
        spec_after_read(st, Attempt::WouldBlock).read_waiting,
        spec_after_read(st, Attempt::WouldBlock).lifecycle == Lifecycle::Open,
        spec_transfer_gate(spec_after_read(st, Attempt::WouldBlock)) == Ok::<(), BridgeError>(()),
        retry matches Attempt::Done(n) ==> spec_progress(retry) == Ok::<Progress, BridgeError>(
            Progress::Ready(n),
        ),
{
}

/// After a successful shutdown every read or write is refused with
/// `UseAfterShutdown`, while the handle stays configurable.
pub proof fn lemma_shutdown_then_transfer(st: BridgeState)
    requires
        st.lifecycle != Lifecycle::Closed,
    ensures
        spec_shutdown(st, Ok(())).1 == Ok::<(), BridgeError>(()),
        spec_transfer_gate(spec_shutdown(st, Ok(())).0) == Err::<(), BridgeError>(
            BridgeError::UseAfterShutdown,
        ),
        spec_config_gate(spec_shutdown(st, Ok(())).0) == Ok::<(), BridgeError>(()),
{
}

/// After close every operation is refused with `UseAfterClose`: reads and
/// writes, configuration, shutdown, and closing again.
pub proof fn lemma_close_then_any(st: BridgeState, s: PortSettings, e: bool, r: Result<(), Fault>)
    ensures
        spec_transfer_gate(spec_closed(st)) == Err::<(), BridgeError>(BridgeError::UseAfterClose),
        spec_config_gate(spec_closed(st)) == Err::<(), BridgeError>(BridgeError::UseAfterClose),
        spec_configure(spec_closed(st), s, r).1 == Err::<(), BridgeError>(BridgeError::UseAfterClose),
        spec_set_exclusive(spec_closed(st), e, r).1 == Err::<(), BridgeError>(BridgeError::UseAfterClose),
        spec_shutdown(spec_closed(st), r).1 == Err::<(), BridgeError>(BridgeError::UseAfterClose),
        spec_closed(st).lifecycle == Lifecycle::Closed,
{
}

} // verus!
