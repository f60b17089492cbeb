use firmament::error::RuntimeError;
use firmament::mcu::executor::{Action, ErrorUpdate, Event, Lifecycle, Refusal, Reply, Request, Status};
use firmament::traits::ResetKind;
use firmament::volatile_access::{Addr, Width};

fn cmd(r: Request) -> Event {
    Event::Command(r)
}

fn in_status(status: Status) -> Lifecycle {
    let mut lc = Lifecycle::new();
    match status {
        Status::Off => {},
        Status::Running => {
            lc.observe(cmd(Request::PowerOn));
            lc.observe(Event::Booted);
        },
        Status::Halted => {
            lc.observe(cmd(Request::PowerOn));
            lc.observe(Event::Booted);
            lc.observe(Event::FirmwareTrapped);
        },
    }
    assert_eq!(lc.status(), status);
    lc
}

const ALL: [Status; 3] = [Status::Off, Status::Running, Status::Halted];

#[test]
fn starts_off() {
    let lc = Lifecycle::new();
    assert_eq!(lc.status(), Status::Off);
    assert!(!lc.ended());
}

#[test]
fn power_on_boots_only_when_off() {
    let mut lc = in_status(Status::Off);
    let step = lc.observe(cmd(Request::PowerOn));
    assert_eq!(step.reply, Reply::Defer);
    assert_eq!(step.action, Action::Boot);
    assert_eq!(lc.status(), Status::Running);
    assert!(lc.awaiting_boot());
    let step = lc.observe(Event::Booted);
    assert_eq!(step.reply, Reply::Ack);
    assert!(!lc.awaiting_boot());

    let step = lc.observe(cmd(Request::PowerOn));
    assert_eq!(step.reply, Reply::Refuse(Refusal::AlreadyRunning));
    assert_eq!(step.action, Action::Nothing);
    assert_eq!(lc.status(), Status::Running);

    let mut lc = in_status(Status::Halted);
    let step = lc.observe(cmd(Request::PowerOn));
    assert_eq!(step.reply, Reply::Refuse(Refusal::PowerOnWhileHalted));
    assert_eq!(lc.status(), Status::Halted);
}

#[test]
fn refusals_answer_invalid_state() {
    let msgs = [
        (Refusal::AlreadyRunning, "already running"),
        (Refusal::ResetWhileOff, "cannot reset: MCU is off"),
        (Refusal::PowerOnWhileHalted, "MCU is halted, use reset"),
    ];
    for (refusal, text) in msgs {
        match refusal.to_error() {
            RuntimeError::InvalidState(m) => assert_eq!(m, text),
            other => panic!("unexpected {other:?}"),
        }
    }
}

#[test]
fn reset_refused_when_off() {
    let mut lc = in_status(Status::Off);
    let step = lc.observe(cmd(Request::Reset(ResetKind::Cold)));
    assert_eq!(step.reply, Reply::Refuse(Refusal::ResetWhileOff));
    assert_eq!(step.action, Action::Nothing);
    assert_eq!(lc.status(), Status::Off);
}

#[test]
fn reset_restarts_from_running_and_halted() {
    for status in [Status::Running, Status::Halted] {
        for kind in [ResetKind::Cold, ResetKind::Warm] {
            let mut lc = in_status(status);
            let step = lc.observe(cmd(Request::Reset(kind)));
            assert_eq!(step.reply, Reply::Ack);
            assert_eq!(step.action, Action::Restart { kind, drain_writes: kind == ResetKind::Cold });
            assert_eq!(lc.status(), Status::Running);
        }
    }
}

#[test]
fn shutdown_always_turns_off() {
    for status in ALL {
        let mut lc = in_status(status);
        let step = lc.observe(cmd(Request::Shutdown));
        assert_eq!(step.reply, Reply::Ack);
        assert_eq!(lc.status(), Status::Off);
        assert!(!lc.ended());
        let expected = if status == Status::Running { Action::Stop } else { Action::Nothing };
        assert_eq!(step.action, expected);
        let again = lc.observe(cmd(Request::PowerOn));
        assert_eq!(again.action, Action::Boot);
    }
}

#[test]
fn destroy_ends_everywhere() {
    for status in ALL {
        let mut lc = in_status(status);
        let step = lc.observe(cmd(Request::Destroy));
        assert_eq!(step.reply, Reply::Silent);
        assert!(step.ended);
        assert!(lc.ended());
        assert_eq!(lc.status(), status);
    }
}

#[test]
fn reads_answered_everywhere() {
    for status in ALL {
        let mut lc = in_status(status);
        let addr = Addr::new(0x4000_0014);
        let step = lc.observe(cmd(Request::Read(addr, Width::U32)));
        assert_eq!(step.reply, Reply::Forward);
        assert_eq!(step.action, Action::ReadBus(addr, Width::U32));
        assert_eq!(lc.status(), status);
    }
}

#[test]
fn tick_always_refills() {
    for status in ALL {
        let mut lc = in_status(status);
        let step = lc.observe(cmd(Request::Tick));
        assert_eq!(step.action, Action::Refill);
        assert_eq!(step.reply, Reply::Forward);
        assert_eq!(step.error, ErrorUpdate::Keep);
        assert_eq!(lc.status(), status);
    }
}

#[test]
fn closed_channel_ends_unless_running() {
    for status in ALL {
        let mut lc = in_status(status);
        let step = lc.observe(Event::ChannelClosed);
        assert_eq!(step.ended, status != Status::Running);
        assert_eq!(lc.status(), status);
    }
}

#[test]
fn firmware_events_while_running() {
    let mut lc = in_status(Status::Running);
    let step = lc.observe(Event::FirmwareExited);
    assert!(step.ended);
    assert_eq!(lc.status(), Status::Running);

    let mut lc = in_status(Status::Running);
    let step = lc.observe(Event::FirmwareTrapped);
    assert!(!step.ended);
    assert_eq!(lc.status(), Status::Halted);
}

#[test]
fn full_lifecycle() {
    let mut lc = Lifecycle::new();
    lc.observe(cmd(Request::PowerOn));
    lc.observe(Event::Booted);
    assert_eq!(lc.status(), Status::Running);
    lc.observe(Event::FirmwareTrapped);
    assert_eq!(lc.status(), Status::Halted);
    lc.observe(cmd(Request::Reset(ResetKind::Warm)));
    assert_eq!(lc.status(), Status::Running);
    lc.observe(Event::Booted);
    lc.observe(cmd(Request::Shutdown));
    assert_eq!(lc.status(), Status::Off);
    lc.observe(cmd(Request::PowerOn));
    assert_eq!(lc.status(), Status::Running);
}

#[test]
fn running_firmware_stops_only_on_destroy_shutdown_reset() {
    let addr = Addr::new(0);
    let requests = [
        (Request::PowerOn, false),
        (Request::Reset(ResetKind::Warm), true),
        (Request::Reset(ResetKind::Cold), true),
        (Request::Shutdown, true),
        (Request::Read(addr, Width::U8), false),
        (Request::Tick, false),
        (Request::Destroy, true),
    ];
    for (req, stops) in requests {
        let mut lc = in_status(Status::Running);
        let step = lc.observe(cmd(req));
        assert_eq!(step.stops_firmware(), stops);
        if !stops {
            assert_eq!(lc.status(), Status::Running);
        }
    }
}

#[test]
fn status_changes_only_on_listed_events() {
    let events = [
        cmd(Request::PowerOn),
        cmd(Request::Reset(ResetKind::Cold)),
        cmd(Request::Shutdown),
        cmd(Request::Read(Addr::new(4), Width::U16)),
        cmd(Request::Tick),
        Event::ChannelClosed,
    ];
    for status in ALL {
        for event in events {
            let mut lc = in_status(status);
            let step = lc.observe(event);
            let changed = step.status != status;
            let expected = match (status, event) {
                (Status::Off, Event::Command(Request::PowerOn)) => true,
                (Status::Running | Status::Halted, Event::Command(Request::Shutdown)) => true,
                (Status::Halted, Event::Command(Request::Reset(_))) => true,
                _ => false,
            };
            assert_eq!(changed, expected, "{status:?} {event:?}");
        }
    }
}

#[test]
fn failed_link_answers_power_on_and_halts() {
    let mut lc = Lifecycle::new();
    lc.observe(cmd(Request::PowerOn));
    let step = lc.observe(Event::FirmwareTrapped);
    assert_eq!(step.reply, Reply::Fail);
    assert_eq!(step.error, ErrorUpdate::Record);
    assert_eq!(lc.status(), Status::Halted);
    assert!(!lc.awaiting_boot());
    let again = lc.observe(cmd(Request::Reset(ResetKind::Warm)));
    assert_eq!(again.reply, Reply::Ack);
    assert_eq!(lc.status(), Status::Running);
}

#[test]
fn accepts_only_events_that_can_occur() {
    let mut lc = Lifecycle::new();
    assert!(lc.accepts(cmd(Request::PowerOn)));
    assert!(!lc.accepts(Event::Booted));
    assert!(!lc.accepts(Event::FirmwareTrapped));
    lc.observe(cmd(Request::PowerOn));
    assert!(lc.accepts(Event::Booted));
    assert!(lc.accepts(Event::FirmwareTrapped));
    assert!(!lc.accepts(cmd(Request::Tick)));
    assert!(!lc.accepts(Event::FirmwareExited));
    lc.observe(Event::Booted);
    assert!(lc.accepts(cmd(Request::Tick)));
    assert!(lc.accepts(Event::FirmwareExited));
    lc.observe(cmd(Request::Destroy));
    assert!(!lc.accepts(cmd(Request::Tick)));
}

#[test]
fn booted_after_reset_answers_nobody() {
    let mut lc = in_status(Status::Halted);
    lc.observe(cmd(Request::Reset(ResetKind::Cold)));
    let step = lc.observe(Event::Booted);
    assert_eq!(step.reply, Reply::Silent);
    assert_eq!(lc.status(), Status::Running);
}

fn apply(reported: bool, update: ErrorUpdate) -> bool {
    match update {
        ErrorUpdate::Keep => reported,
        ErrorUpdate::Record => true,
        ErrorUpdate::Clear => false,
    }
}

#[test]
fn error_reported_exactly_while_halted() {
    let mut lc = Lifecycle::new();
    let mut reported = false;
    let events = [
        cmd(Request::PowerOn),
        Event::FirmwareTrapped,
        cmd(Request::Shutdown),
        cmd(Request::PowerOn),
        Event::Booted,
        Event::FirmwareTrapped,
        cmd(Request::Tick),
        cmd(Request::Reset(ResetKind::Warm)),
        Event::FirmwareTrapped,
        cmd(Request::Shutdown),
        cmd(Request::PowerOn),
        Event::Booted,
        Event::FirmwareTrapped,
        cmd(Request::Reset(ResetKind::Cold)),
        Event::Booted,
    ];
    for event in events {
        let step = lc.observe(event);
        reported = apply(reported, step.error);
        assert_eq!(reported, lc.status() == Status::Halted, "{event:?}");
    }
}
