use weact_epaper_154_rs::color::WBRYColor;
use weact_epaper_154_rs::driver::{DriverError, WeAct154Display, FRAME_BUFFER_SIZE};
use weact_epaper_154_rs::sequence::{Action, Event, Procedure};

type Act = Action<&'static str, u8, u16, u32>;
type Ev = Event<&'static str, u8, u16, u32>;

/// A readable record of one action.
fn describe(action: &Act) -> String {
    match action {
        Action::SetDc(true) => "dc high".to_string(),
        Action::SetDc(false) => "dc low".to_string(),
        Action::SpiWrite(bytes) if bytes.len() <= 8 => format!("spi {:02X?}", bytes),
        Action::SpiWrite(bytes) => format!("spi {} bytes", bytes.len()),
        Action::SetReset(true) => "reset high".to_string(),
        Action::SetReset(false) => "reset low".to_string(),
        Action::DelayMs(ms) => format!("delay {}", ms),
        Action::ReadBusy => "read busy".to_string(),
        Action::Done(Ok(())) => "done ok".to_string(),
        Action::Done(Err(e)) => format!("done err {:?}", e),
    }
}

/// Runs a procedure, answering each action with `respond`, and returns the
/// record of every action it asked for, the final one included.
fn drive(mut procedure: Procedure, mut respond: impl FnMut(usize, &Act) -> Ev) -> Vec<String> {
    let mut log = Vec::new();
    let mut action: Act = procedure.pending();
    let mut step = 0;
    loop {
        log.push(describe(&action));
        if let Action::Done(_) = action {
            assert!(procedure.is_finished());
            return log;
        }
        assert!(!procedure.is_finished());
        let event = respond(step, &action);
        step += 1;
        action = procedure.resume(event);
    }
}

fn all_ok(_: usize, action: &Act) -> Ev {
    match action {
        Action::ReadBusy => Event::BusyLow(false),
        _ => Event::Completed,
    }
}

fn display() -> WeAct154Display<(), (), (), (), ()> {
    WeAct154Display::new((), (), (), (), ())
}

#[test]
fn reset_sequence() {
    let log = drive(display().reset(), all_ok);
    assert_eq!(
        log,
        vec![
            "reset high", "delay 50", "reset low", "delay 5", "reset high", "delay 50",
            "read busy", "done ok"
        ]
    );
}

#[test]
fn init_sequence() {
    let log = drive(display().init(), all_ok);
    let expected = vec![
        "dc low", "spi [4D]", "dc high", "spi [78]",
        "dc low", "spi [00]", "dc high", "spi [0F, 29]",
        "dc low", "spi [06]", "dc high", "spi [0D, 12, 30, 20, 19, 2A, 22]",
        "dc low", "spi [30]", "dc high", "spi [08]",
        "dc low", "spi [50]", "dc high", "spi [37]",
        "dc low", "spi [61]", "dc high", "spi [00, C8, 00, C8]",
        "dc low", "spi [E9]", "dc high", "spi [01]",
        "done ok",
    ];
    assert_eq!(log, expected);
}

#[test]
fn power_on_sequence() {
    let log = drive(display().power_on(), all_ok);
    assert_eq!(log, vec!["dc low", "spi [04]", "read busy", "done ok"]);
}

#[test]
fn power_off_sequence() {
    let log = drive(display().power_off(), all_ok);
    assert_eq!(log, vec!["dc low", "spi [02]", "dc high", "spi [00]", "read busy", "done ok"]);
}

#[test]
fn flush_sequence_sends_the_framebuffer() {
    let mut d = display();
    d.clear(WBRYColor::YELLOW);
    d.set_pixel(0, 0, WBRYColor::RED);
    let mut procedure = d.flush();
    // Drawing after the procedure is made does not change what it sends.
    d.set_pixel(1, 0, WBRYColor::BLACK);
    let mut frames: Vec<Vec<u8>> = Vec::new();
    let mut action: Act = procedure.pending();
    let mut log = Vec::new();
    loop {
        log.push(describe(&action));
        let event = match &action {
            Action::Done(_) => break,
            Action::SpiWrite(bytes) => {
                frames.push(bytes.clone());
                Event::Completed
            }
            Action::ReadBusy => Event::BusyLow(false),
            _ => Event::Completed,
        };
        action = procedure.resume(event);
    }
    assert_eq!(
        log,
        vec![
            "dc low", "spi [10]", "dc high", "spi 10000 bytes", "read busy",
            "dc low", "spi [12]", "dc high", "spi [00]", "read busy", "done ok"
        ]
    );
    assert_eq!(frames[1].len(), FRAME_BUFFER_SIZE);
    assert_eq!(frames[1][0], 0b11_10_10_10);
    assert!(frames[1][1..].iter().all(|b| *b == 0xAA));
}

#[test]
fn busy_wait_pauses_until_idle() {
    // BUSY reads low twice before it reads high.
    let mut readings = vec![true, true, false].into_iter();
    let log = drive(display().power_on(), |_, action| match action {
        Action::ReadBusy => Event::BusyLow(readings.next().unwrap()),
        _ => Event::Completed,
    });
    assert_eq!(
        log,
        vec![
            "dc low", "spi [04]", "read busy", "delay 1", "read busy", "delay 1", "read busy",
            "done ok"
        ]
    );
}

#[test]
fn spi_failure_stops_with_spi_error() {
    let log = drive(display().init(), |step, action| match (step, action) {
        (3, Action::SpiWrite(_)) => Event::SpiFailed("bus"),
        _ => Event::Completed,
    });
    assert_eq!(log, vec!["dc low", "spi [4D]", "dc high", "spi [78]", "done err Spi(\"bus\")"]);
}

#[test]
fn dc_failure_stops_with_dc_error() {
    let log = drive(display().power_off(), |_, action| match action {
        Action::SetDc(true) => Event::DcFailed(7),
        _ => Event::Completed,
    });
    assert_eq!(log, vec!["dc low", "spi [02]", "dc high", "done err DcPin(7)"]);
}

#[test]
fn busy_failure_stops_with_busy_error() {
    let log = drive(display().power_on(), |_, action| match action {
        Action::ReadBusy => Event::BusyFailed(9),
        _ => Event::Completed,
    });
    assert_eq!(log, vec!["dc low", "spi [04]", "read busy", "done err BusyPin(9)"]);
}

#[test]
fn reset_failure_stops_with_reset_error() {
    let log = drive(display().reset(), |step, _| {
        if step == 2 { Event::ResetFailed(11) } else { Event::Completed }
    });
    assert_eq!(log, vec!["reset high", "delay 50", "reset low", "done err ResetPin(11)"]);
}

#[test]
fn first_action_failure_is_reported() {
    let mut procedure = display().reset();
    let first: Act = procedure.pending();
    assert!(matches!(first, Action::SetReset(true)));
    let next: Act = procedure.resume(Event::ResetFailed(1));
    assert!(matches!(next, Action::Done(Err(DriverError::ResetPin(1)))));
    assert!(procedure.is_finished());
}

#[test]
fn pending_is_stable_and_delay_while_pausing() {
    let mut procedure = display().power_on();
    let _: Act = procedure.resume(Event::Completed);
    let _: Act = procedure.resume(Event::Completed);
    let a: Act = procedure.pending();
    assert!(matches!(a, Action::ReadBusy));
    let b: Act = procedure.resume(Event::BusyLow(true));
    assert!(matches!(b, Action::DelayMs(1)));
    let c: Act = procedure.pending();
    assert!(matches!(c, Action::DelayMs(1)));
}
