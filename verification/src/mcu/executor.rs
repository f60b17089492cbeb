//! The MCU lifecycle state machine (Off -> Running -> Halted).
//!
//! The executor task waits for commands from the MCU's handle and for the
//! firmware to finish. Each thing it receives is an [`Event`]; the
//! [`Lifecycle`] decides, from the current [`Status`] and the event, what is
//! answered, what work is done, which status follows, and what becomes of
//! the last error the handle reports. The task that runs
//! the firmware performs that work.

use vstd::prelude::*;

use crate::error::RuntimeError;
use crate::traits::ResetKind;
use crate::volatile_access::{Addr, Width};

verus! {

/// Current lifecycle state of the MCU simulation.
#[derive(Debug, Clone, Copy, PartialEq, Eq, Structural)]
pub enum Status {
    /// MCU is powered off.
    Off,
    /// Firmware is executing.
    Running,
    /// Firmware trapped; awaiting reset or shutdown.
    Halted,
}

/// A command sent to the executor, without its reply channel.
#[derive(Debug, Clone, Copy, PartialEq, Eq, Structural)]
pub enum Request {
    /// Boot the firmware.
    PowerOn,
    /// Reset the MCU with the given kind.
    Reset(ResetKind),
    /// Shut down the MCU gracefully.
    Shutdown,
    /// Read a value from a bus address.
    Read(Addr, Width),
    /// Advance the simulation clock.
    Tick,
    /// Tear down the executor task immediately.
    Destroy,
}

/// Something the executor observed while waiting.
#[derive(Debug, Clone, Copy, PartialEq, Eq, Structural)]
pub enum Event {
    /// A command arrived.
    Command(Request),
    /// The command channel closed: no handle is left.
    ChannelClosed,
    /// The firmware was linked and its entry point called.
    Booted,
    /// The firmware's entry point returned.
    FirmwareExited,
    /// The firmware trapped, or could not be linked, booted or reset.
    FirmwareTrapped,
}

/// Why a command was refused.
#[derive(Debug, Clone, Copy, PartialEq, Eq, Structural)]
pub enum Refusal {
    /// Power-on while the firmware runs.
    AlreadyRunning,
    /// Reset while the MCU is off.
    ResetWhileOff,
    /// Power-on while the MCU is halted.
    PowerOnWhileHalted,
}

impl Refusal {
    /// The message of the `InvalidState` error that answers the command.
    pub open spec fn message(self) -> Seq<char> {
        match self {
            Refusal::AlreadyRunning => "already running"@,
            Refusal::ResetWhileOff => "cannot reset: MCU is off"@,
            Refusal::PowerOnWhileHalted => "MCU is halted, use reset"@,
        }
    }

    /// The error sent back to the caller of the refused command.
    pub fn to_error(self) -> (r: RuntimeError)
        ensures
            r matches RuntimeError::InvalidState(m) && m@ == self.message(),
    {
        match self {
            Refusal::AlreadyRunning => RuntimeError::InvalidState(String::from_str("already running")),
            Refusal::ResetWhileOff => RuntimeError::InvalidState(
                String::from_str("cannot reset: MCU is off"),
            ),
            Refusal::PowerOnWhileHalted => RuntimeError::InvalidState(
                String::from_str("MCU is halted, use reset"),
            ),
        }
    }
}

/// What is sent back to the command's caller.
#[derive(Debug, Clone, Copy, PartialEq, Eq, Structural)]
pub enum Reply {
    /// `Ok(())`: to the command, or, on [`Event::Booted`], to the power-on
    /// that waits for the firmware to link.
    Ack,
    /// `Err(InvalidState(..))` for the given reason.
    Refuse(Refusal),
    /// The outcome of the step's action (a bus read, or a budget refill).
    Forward,
    /// No answer yet: the power-on is answered once the firmware is linked,
    /// or fails to link.
    Defer,
    /// `Err` with the error that stopped the firmware from linking or
    /// booting, to the power-on that waits for it (the MCU halts on it too).
    Fail,
    /// Nothing: the command has no reply channel, or there was no command.
    Silent,
}

/// The work the executor does for a step.
#[derive(Debug, Clone, Copy, PartialEq, Eq, Structural)]
pub enum Action {
    /// Nothing.
    Nothing,
    /// Link the firmware and call its entry point.
    Boot,
    /// Drop the running firmware, if any, reset the MCU with `kind`, drop the
    /// pending external writes if `drain_writes`, then boot the firmware again.
    Restart { kind: ResetKind, drain_writes: bool },
    /// Read the MCU at the address and width, and reply with the result.
    ReadBus(Addr, Width),
    /// Turn the tick's elapsed time into fresh cycle and compute budgets, wake
    /// the firmware runtime, and reply with the result.
    Refill,
    /// Drop the running firmware.
    Stop,
}

/// What becomes of the last error the handle reports.
#[derive(Debug, Clone, Copy, PartialEq, Eq, Structural)]
pub enum ErrorUpdate {
    /// It stays as it is.
    Keep,
    /// It becomes the error that halted the MCU.
    Record,
    /// It is cleared.
    Clear,
}

/// Whether the handle reports an error after `update`, given whether it did before.
pub open spec fn error_after(reported: bool, update: ErrorUpdate) -> bool {
    match update {
        ErrorUpdate::Keep => reported,
        ErrorUpdate::Record => true,
        ErrorUpdate::Clear => false,
    }
}

/// The decision for one event.
#[derive(Debug, Clone, Copy, PartialEq, Eq, Structural)]
pub struct Step {
    /// What the command's caller receives.
    pub reply: Reply,
    /// The work to do.
    pub action: Action,
    /// The status once the work is done.
    pub status: Status,
    /// Whether a power-on now waits for the firmware to link.
    pub awaiting_boot: bool,
    /// What becomes of the last error the handle reports.
    pub error: ErrorUpdate,
    /// Whether the executor task ends.
    pub ended: bool,
}

impl Step {
    /// Whether the step ends the firmware's current run: the executor ends, or
    /// the firmware is stopped or restarted.
    pub open spec fn spec_stops_firmware(&self) -> bool {
        self.ended || self.action == Action::Stop || self.action is Restart
    }

    /// Returns `true` if the step ends the firmware's current run.
    #[verifier::when_used_as_spec(spec_stops_firmware)]
    pub fn stops_firmware(&self) -> (r: bool)
        ensures
            r == self.spec_stops_firmware(),
    {
        self.ended || match self.action {
            Action::Stop => true,
            Action::Restart { .. } => true,
            _ => false,
        }
    }
}

/// A step that answers `reply`, does `action`, moves to `status` and updates
/// the reported error by `error`.
pub open spec fn step(reply: Reply, action: Action, status: Status, error: ErrorUpdate) -> Step {
    Step { reply, action, status, awaiting_boot: false, error, ended: false }
}

/// A step that ends the executor with the given reply.
pub open spec fn end(reply: Reply, status: Status) -> Step {
    Step {
        reply,
        action: Action::Nothing,
        status,
        awaiting_boot: false,
        error: ErrorUpdate::Keep,
        ended: true,
    }
}

/// The lifecycle table: the step taken on `event` in `status`, where
/// `awaiting` says whether a power-on waits for the firmware to link.
pub open spec fn decide(status: Status, awaiting: bool, event: Event) -> Step {
    match event {
        Event::Command(req) => match req {
            Request::PowerOn => match status {
                Status::Off => Step {
                    reply: Reply::Defer,
                    action: Action::Boot,
                    status: Status::Running,
                    awaiting_boot: true,
                    error: ErrorUpdate::Keep,
                    ended: false,
                },
                Status::Running => step(
                    Reply::Refuse(Refusal::AlreadyRunning),
                    Action::Nothing,
                    Status::Running,
                    ErrorUpdate::Keep,
                ),
                Status::Halted => step(
                    Reply::Refuse(Refusal::PowerOnWhileHalted),
                    Action::Nothing,
                    Status::Halted,
                    ErrorUpdate::Keep,
                ),
            },
            Request::Reset(kind) => match status {
                Status::Off => step(
                    Reply::Refuse(Refusal::ResetWhileOff),
                    Action::Nothing,
                    Status::Off,
                    ErrorUpdate::Keep,
                ),
                _ => step(
                    Reply::Ack,
                    Action::Restart { kind, drain_writes: kind == ResetKind::Cold },
                    Status::Running,
                    if status == Status::Halted {
                        ErrorUpdate::Clear
                    } else {
                        ErrorUpdate::Keep
                    },
                ),
            },
            Request::Shutdown => match status {
                Status::Running => step(Reply::Ack, Action::Stop, Status::Off, ErrorUpdate::Keep),
                Status::Halted => step(Reply::Ack, Action::Nothing, Status::Off, ErrorUpdate::Clear),
                Status::Off => step(Reply::Ack, Action::Nothing, Status::Off, ErrorUpdate::Keep),
            },
            Request::Read(addr, width) => step(
                Reply::Forward,
                Action::ReadBus(addr, width),
                status,
                ErrorUpdate::Keep,
            ),
            Request::Tick => step(Reply::Forward, Action::Refill, status, ErrorUpdate::Keep),
            Request::Destroy => end(Reply::Silent, status),
        },
        Event::ChannelClosed => match status {
            Status::Running => step(Reply::Silent, Action::Nothing, Status::Running, ErrorUpdate::Keep),
            _ => end(Reply::Silent, status),
        },
        Event::Booted => step(
            if awaiting {
                Reply::Ack
            } else {
                Reply::Silent
            },
            Action::Nothing,
            Status::Running,
            ErrorUpdate::Keep,
        ),
        Event::FirmwareExited => end(Reply::Silent, status),
        Event::FirmwareTrapped => step(
            if awaiting {
                Reply::Fail
            } else {
                Reply::Silent
            },
            Action::Nothing,
            Status::Halted,
            ErrorUpdate::Record,
        ),
    }
}

/// Whether `event` can occur in `status`: firmware events only while it
/// runs, and, while a power-on waits for the firmware to link, only the
/// outcome of that linking.
pub open spec fn can_occur(status: Status, awaiting: bool, event: Event) -> bool {
    &&& awaiting ==> status == Status::Running && (event == Event::Booted || event
        == Event::FirmwareTrapped)
    &&& (event == Event::Booted || event == Event::FirmwareExited || event
        == Event::FirmwareTrapped) ==> status == Status::Running
}

/// Power-on is taken up exactly when the MCU is off. It then waits for the
/// firmware: it is answered `Ok` once the firmware links and boots, and with
/// the error otherwise, on which the MCU halts and reports that error.
/// Anywhere else it is refused and nothing changes.
pub proof fn lemma_power_on_answered_by_linking(status: Status, awaiting: bool)
    ensures
        status == Status::Off ==> {
            let s = decide(status, awaiting, Event::Command(Request::PowerOn));
            &&& s.reply == Reply::Defer && s.action == Action::Boot
            &&& s.status == Status::Running && s.awaiting_boot
            &&& decide(s.status, s.awaiting_boot, Event::Booted).reply == Reply::Ack
            &&& decide(s.status, s.awaiting_boot, Event::Booted).status == Status::Running
            &&& !decide(s.status, s.awaiting_boot, Event::Booted).awaiting_boot
            &&& decide(s.status, s.awaiting_boot, Event::FirmwareTrapped).reply == Reply::Fail
            &&& decide(s.status, s.awaiting_boot, Event::FirmwareTrapped).status == Status::Halted
            &&& decide(s.status, s.awaiting_boot, Event::FirmwareTrapped).error
                == ErrorUpdate::Record
            &&& !decide(s.status, s.awaiting_boot, Event::FirmwareTrapped).awaiting_boot
        },
        status != Status::Off ==> {
            let s = decide(status, awaiting, Event::Command(Request::PowerOn));
            &&& s.reply is Refuse
            &&& s.status == status && s.action == Action::Nothing
        },
{
}

/// A reset is refused exactly when the MCU is off. Otherwise it is
/// acknowledged, the MCU is reset and the firmware rebooted; only a cold reset
/// drops the pending external writes.
pub proof fn lemma_reset_refused_only_when_off(status: Status, awaiting: bool, kind: ResetKind)
    ensures
        status == Status::Off ==> decide(status, awaiting, Event::Command(Request::Reset(kind)))
            == step(Reply::Refuse(Refusal::ResetWhileOff), Action::Nothing, Status::Off, ErrorUpdate::Keep),
        status != Status::Off ==> {
            let s = decide(status, awaiting, Event::Command(Request::Reset(kind)));
            &&& s.reply == Reply::Ack
            &&& s.action == Action::Restart { kind, drain_writes: kind == ResetKind::Cold }
            &&& s.status == Status::Running
            &&& !s.ended
        },
{
}

/// Shutdown is always acknowledged and always leaves the MCU off; it is a
/// no-op when the MCU is already off.
pub proof fn lemma_shutdown_always_turns_off(status: Status, awaiting: bool)
    ensures
        decide(status, awaiting, Event::Command(Request::Shutdown)).reply == Reply::Ack,
        decide(status, awaiting, Event::Command(Request::Shutdown)).status == Status::Off,
        !decide(status, awaiting, Event::Command(Request::Shutdown)).ended,
        status == Status::Off ==> decide(status, awaiting, Event::Command(Request::Shutdown))
            == step(Reply::Ack, Action::Nothing, Status::Off, ErrorUpdate::Keep),
{
}

/// After a shutdown, the MCU can be powered on again.
pub proof fn lemma_power_on_after_shutdown(status: Status, awaiting: bool)
    ensures
        ({
            let s = decide(status, awaiting, Event::Command(Request::Shutdown));
            decide(s.status, s.awaiting_boot, Event::Command(Request::PowerOn)).action
                == Action::Boot
        }),
{
}

/// Destroy ends the executor in every state, without a reply.
pub proof fn lemma_destroy_ends(status: Status, awaiting: bool)
    ensures
        decide(status, awaiting, Event::Command(Request::Destroy)) == end(Reply::Silent, status),
{
}

/// Bus reads are answered in every state and change nothing.
pub proof fn lemma_reads_always_answered(status: Status, awaiting: bool, addr: Addr, width: Width)
    ensures
        decide(status, awaiting, Event::Command(Request::Read(addr, width))) == step(
            Reply::Forward,
            Action::ReadBus(addr, width),
            status,
            ErrorUpdate::Keep,
        ),
{
}

/// A tick always refills the budgets (and wakes the runtime), in every
/// state, answers with the outcome, and changes nothing else.
pub proof fn lemma_tick_always_refills(status: Status, awaiting: bool)
    ensures
        decide(status, awaiting, Event::Command(Request::Tick)) == step(
            Reply::Forward,
            Action::Refill,
            status,
            ErrorUpdate::Keep,
        ),
{
}

/// A refused command changes nothing: the status and the reported error stay,
/// no work is done and the executor goes on.
pub proof fn lemma_refusal_changes_nothing(status: Status, awaiting: bool, event: Event)
    requires
        decide(status, awaiting, event).reply is Refuse,
    ensures
        decide(status, awaiting, event).status == status,
        decide(status, awaiting, event).action == Action::Nothing,
        decide(status, awaiting, event).error == ErrorUpdate::Keep,
        !decide(status, awaiting, event).ended,
{
}

/// A trapped firmware, or one that fails to link or boot, halts the MCU and
/// has its error reported; only a reset brings a halted MCU back to running.
pub proof fn lemma_trap_halts(awaiting: bool, event: Event)
    requires
        can_occur(Status::Halted, false, event),
    ensures
        decide(Status::Running, awaiting, Event::FirmwareTrapped).status == Status::Halted,
        decide(Status::Running, awaiting, Event::FirmwareTrapped).error == ErrorUpdate::Record,
        decide(Status::Halted, false, event).status == Status::Running ==> event is Command
            && event->Command_0 is Reset,
{
}

/// While no power-on waits for the firmware, every command, and the closing of
/// the command channel, can arrive whatever the status: the executor takes
/// each of them up.
pub proof fn lemma_commands_always_accepted(status: Status, req: Request)
    ensures
        can_occur(status, false, Event::Command(req)),
        can_occur(status, false, Event::ChannelClosed),
{
}

/// The firmware reports back only while the MCU runs: its boot, exit or trap
/// can be observed exactly then. While a power-on waits for linking, only the
/// outcome of linking (booted or trapped) can be observed, and no command.
pub proof fn lemma_firmware_events_only_while_running(status: Status, event: Event, req: Request)
    requires
        event == Event::Booted || event == Event::FirmwareExited || event
            == Event::FirmwareTrapped,
    ensures
        can_occur(status, false, event) <==> status == Status::Running,
        can_occur(status, true, event) <==> (status == Status::Running && event
            != Event::FirmwareExited),
        !can_occur(status, true, Event::Command(req)),
        !can_occur(status, true, Event::ChannelClosed),
{
}

/// A halted MCU waits for a reset or a shutdown: a reset of either kind is
/// taken up, acknowledged, restarts the firmware and clears the reported
/// error, and a shutdown turns the MCU off and clears the error too.
pub proof fn lemma_halted_recovers_on_reset_or_shutdown(kind: ResetKind)
    ensures
        can_occur(Status::Halted, false, Event::Command(Request::Reset(kind))),
        ({
            let s = decide(Status::Halted, false, Event::Command(Request::Reset(kind)));
            &&& s.reply == Reply::Ack
            &&& s.action is Restart && s.action->kind == kind
            &&& s.status == Status::Running
            &&& s.error == ErrorUpdate::Clear
            &&& !s.ended
        }),
        can_occur(Status::Halted, false, Event::Command(Request::Shutdown)),
        ({
            let s = decide(Status::Halted, false, Event::Command(Request::Shutdown));
            &&& s.reply == Reply::Ack
            &&& s.status == Status::Off
            &&& s.error == ErrorUpdate::Clear
        }),
{
}

/// The firmware is booted only on the way into `Running`, and only from power-on
/// or a reset.
pub proof fn lemma_boot_only_into_running(status: Status, awaiting: bool, event: Event)
    ensures
        ({
            let s = decide(status, awaiting, event);
            (s.action == Action::Boot || s.action is Restart) ==> s.status == Status::Running
        }),
        decide(status, awaiting, event).action == Action::Boot ==> status == Status::Off && event
            == Event::Command(Request::PowerOn),
{
}

/// While the firmware runs, a command stops it exactly when it ends the
/// executor, shuts the MCU down, or restarts it; every other command leaves it
/// running.
pub proof fn lemma_running_firmware_stops_only_on_destroy_shutdown_reset(
    awaiting: bool,
    req: Request,
)
    ensures
        decide(Status::Running, awaiting, Event::Command(req)).spec_stops_firmware() <==> (req
            == Request::Destroy || req == Request::Shutdown || req is Reset),
        !decide(Status::Running, awaiting, Event::Command(req)).spec_stops_firmware() ==> decide(
            Status::Running,
            awaiting,
            Event::Command(req),
        ).status == Status::Running,
{
}

/// Every change of status, and nothing else: power-on turns an off MCU on,
/// shutdown turns a running or halted MCU off, a reset brings a halted MCU back
/// to running, and a trap (or a failure to link or boot) halts a running one.
pub proof fn lemma_status_changes(status: Status, awaiting: bool, event: Event)
    requires
        can_occur(status, awaiting, event),
    ensures
        decide(status, awaiting, event).status != status <==> ({
            ||| status == Status::Off && event == Event::Command(Request::PowerOn)
            ||| status != Status::Off && event == Event::Command(Request::Shutdown)
            ||| status == Status::Halted && event is Command && event->Command_0 is Reset
            ||| status == Status::Running && event == Event::FirmwareTrapped
        }),
        decide(status, awaiting, event).status == Status::Halted && status != Status::Halted
            ==> event == Event::FirmwareTrapped,
        decide(status, awaiting, event).status == Status::Off && status != Status::Off ==> event
            == Event::Command(Request::Shutdown),
{
}

/// The handle reports an error exactly while the MCU is halted: if that held
/// before a step, it holds after it.
pub proof fn lemma_error_reported_exactly_while_halted(
    status: Status,
    awaiting: bool,
    event: Event,
    reported: bool,
)
    requires
        can_occur(status, awaiting, event),
        reported == (status == Status::Halted),
    ensures
        error_after(reported, decide(status, awaiting, event).error) == (decide(
            status,
            awaiting,
            event,
        ).status == Status::Halted),
{
}

/// A power-on waits for linking only right after it was taken up.
pub proof fn lemma_awaiting_only_after_power_on(status: Status, awaiting: bool, event: Event)
    requires
        can_occur(status, awaiting, event),
    ensures
        decide(status, awaiting, event).awaiting_boot <==> (status == Status::Off && event
            == Event::Command(Request::PowerOn)),
{
}

/// Drives the MCU lifecycle state machine (Off -> Running -> Halted).
#[derive(Debug)]
pub struct Lifecycle {
    status: Status,
    awaiting_boot: bool,
    ended: bool,
}

impl Lifecycle {
    /// The current status.
    pub closed spec fn spec_status(&self) -> Status {
        self.status
    }

    /// Whether a power-on waits for the firmware to link.
    pub closed spec fn spec_awaiting_boot(&self) -> bool {
        self.awaiting_boot
    }

    /// Whether the executor has ended.
    pub closed spec fn spec_ended(&self) -> bool {
        self.ended
    }

    /// A powered-off MCU whose executor is waiting for commands.
    pub fn new() -> (r: Self)
        ensures
            r.spec_status() == Status::Off,
            !r.spec_awaiting_boot(),
            !r.spec_ended(),
    {
        Lifecycle { status: Status::Off, awaiting_boot: false, ended: false }
    }

    /// Returns the current status.
    #[verifier::when_used_as_spec(spec_status)]
    pub fn status(&self) -> (r: Status)
        ensures
            r == self.spec_status(),
    {
        self.status
    }

    /// Returns `true` while a power-on waits for the firmware to link.
    #[verifier::when_used_as_spec(spec_awaiting_boot)]
    pub fn awaiting_boot(&self) -> (r: bool)
        ensures
            r == self.spec_awaiting_boot(),
    {
        self.awaiting_boot
    }

    /// Returns `true` once the executor has ended.
    #[verifier::when_used_as_spec(spec_ended)]
    pub fn ended(&self) -> (r: bool)
        ensures
            r == self.spec_ended(),
    {
        self.ended
    }

    /// Returns `true` if `event` can occur in the current state, so that it may
    /// be observed.
    pub fn accepts(&self, event: Event) -> (r: bool)
        ensures
            r == (!self.spec_ended() && can_occur(self.spec_status(), self.spec_awaiting_boot(), event)),
    {
        if self.ended {
            return false;
        }
        let firmware_event = match event {
            Event::Booted | Event::FirmwareExited | Event::FirmwareTrapped => true,
            _ => false,
        };
        let outcome_of_link = match event {
            Event::Booted | Event::FirmwareTrapped => true,
            _ => false,
        };
        let running = self.status == Status::Running;
        (!self.awaiting_boot || (running && outcome_of_link)) && (!firmware_event || running)
    }

    /// Decides the step for `event` and moves to its status.
    pub fn observe(&mut self, event: Event) -> (r: Step)
        requires
            !old(self).spec_ended(),
            can_occur(old(self).spec_status(), old(self).spec_awaiting_boot(), event),
        ensures
            r == decide(old(self).spec_status(), old(self).spec_awaiting_boot(), event),
            final(self).spec_status() == r.status,
            final(self).spec_awaiting_boot() == r.awaiting_boot,
            final(self).spec_ended() == r.ended,
    {
        let status = self.status;
        let keep = ErrorUpdate::Keep;
        let r = match event {
            Event::Command(req) => match req {
                Request::PowerOn => match status {
                    Status::Off => Step {
                        reply: Reply::Defer,
                        action: Action::Boot,
                        status: Status::Running,
                        awaiting_boot: true,
                        error: keep,
                        ended: false,
                    },
                    Status::Running => Step {
                        reply: Reply::Refuse(Refusal::AlreadyRunning),
                        action: Action::Nothing,
                        status: Status::Running,
                        awaiting_boot: false,
                        error: keep,
                        ended: false,
                    },
                    Status::Halted => Step {
                        reply: Reply::Refuse(Refusal::PowerOnWhileHalted),
                        action: Action::Nothing,
                        status: Status::Halted,
                        awaiting_boot: false,
                        error: keep,
                        ended: false,
                    },
                },
                Request::Reset(kind) => match status {
                    Status::Off => Step {
                        reply: Reply::Refuse(Refusal::ResetWhileOff),
                        action: Action::Nothing,
                        status: Status::Off,
                        awaiting_boot: false,
                        error: keep,
                        ended: false,
                    },
                    _ => {
                        let drain_writes = match kind {
                            ResetKind::Cold => true,
                            ResetKind::Warm => false,
                        };
                        let error = match status {
                            Status::Halted => ErrorUpdate::Clear,
                            _ => ErrorUpdate::Keep,
                        };
                        Step {
                            reply: Reply::Ack,
                            action: Action::Restart { kind, drain_writes },
                            status: Status::Running,
                            awaiting_boot: false,
                            error,
                            ended: false,
                        }
                    },
                },
                Request::Shutdown => {
                    let (action, error) = match status {
                        Status::Running => (Action::Stop, ErrorUpdate::Keep),
                        Status::Halted => (Action::Nothing, ErrorUpdate::Clear),
                        Status::Off => (Action::Nothing, ErrorUpdate::Keep),
                    };
                    Step {
                        reply: Reply::Ack,
                        action,
                        status: Status::Off,
                        awaiting_boot: false,
                        error,
                        ended: false,
                    }
                },
                Request::Read(addr, width) => Step {
                    reply: Reply::Forward,
                    action: Action::ReadBus(addr, width),
                    status,
                    awaiting_boot: false,
                    error: keep,
                    ended: false,
                },
                Request::Tick => Step {
                    reply: Reply::Forward,
                    action: Action::Refill,
                    status,
                    awaiting_boot: false,
                    error: keep,
                    ended: false,
                },
                Request::Destroy => Step {
                    reply: Reply::Silent,
                    action: Action::Nothing,
                    status,
                    awaiting_boot: false,
                    error: keep,
                    ended: true,
                },
            },
            Event::ChannelClosed => Step {
                reply: Reply::Silent,
                action: Action::Nothing,
                status,
                awaiting_boot: false,
                error: keep,
                ended: match status {
                    Status::Running => false,
                    _ => true,
                },
            },
            Event::Booted => Step {
                reply: if self.awaiting_boot {
                    Reply::Ack
                } else {
                    Reply::Silent
                },
                action: Action::Nothing,
                status: Status::Running,
                awaiting_boot: false,
                error: keep,
                ended: false,
            },
            Event::FirmwareExited => Step {
                reply: Reply::Silent,
                action: Action::Nothing,
                status,
                awaiting_boot: false,
                error: keep,
                ended: true,
            },
            Event::FirmwareTrapped => Step {
                reply: if self.awaiting_boot {
                    Reply::Fail
                } else {
                    Reply::Silent
                },
                action: Action::Nothing,
                status: Status::Halted,
                awaiting_boot: false,
                error: ErrorUpdate::Record,
                ended: false,
            },
        };
        self.status = r.status;
        self.awaiting_boot = r.awaiting_boot;
        self.ended = r.ended;
        r
    }
}

} // verus!
