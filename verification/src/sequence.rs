use vstd::prelude::*;

use crate::driver::DriverError;

verus! {

/// One step of a controller procedure, as the procedure holds it.
#[derive(Debug)]
pub enum Command {
    /// Drive the data/command pin: high selects data, low selects a command.
    SetDc(bool),
    /// Write these bytes in one SPI transaction.
    SpiWrite(Vec<u8>),
    /// Drive the RESET pin high (`true`) or low (`false`).
    SetReset(bool),
    /// Wait this many milliseconds.
    DelayMs(u32),
    /// Poll the BUSY pin, pausing 1 ms after each low reading, until it reads
    /// high.
    WaitIdle,
}

/// The value of a [`Command`], with its bytes as a sequence.
pub enum CommandView {
    SetDc(bool),
    SpiWrite(Seq<u8>),
    SetReset(bool),
    DelayMs(u32),
    WaitIdle,
}

impl View for Command {
    type V = CommandView;

    open spec fn view(&self) -> CommandView {
        match self {
            Command::SetDc(high) => CommandView::SetDc(*high),
            Command::SpiWrite(bytes) => CommandView::SpiWrite(bytes@),
            Command::SetReset(high) => CommandView::SetReset(*high),
            Command::DelayMs(ms) => CommandView::DelayMs(*ms),
            Command::WaitIdle => CommandView::WaitIdle,
        }
    }
}

/// What a procedure asks its caller to do next.
#[derive(Debug)]
pub enum Action<S, P, B, R> {
    /// Drive the data/command pin high (`true`) or low (`false`).
    SetDc(bool),
    /// Write these bytes in one SPI transaction.
    SpiWrite(Vec<u8>),
    /// Drive the RESET pin high (`true`) or low (`false`).
    SetReset(bool),
    /// Wait this many milliseconds.
    DelayMs(u32),
    /// Read whether the BUSY pin is low.
    ReadBusy,
    /// The procedure is over, with this outcome.
    Done(Result<(), DriverError<S, P, B, R>>),
}

/// The value of an [`Action`], with its bytes as a sequence.
pub enum ActionView<S, P, B, R> {
    SetDc(bool),
    SpiWrite(Seq<u8>),
    SetReset(bool),
    DelayMs(u32),
    ReadBusy,
    Done(Result<(), DriverError<S, P, B, R>>),
}

impl<S, P, B, R> View for Action<S, P, B, R> {
    type V = ActionView<S, P, B, R>;

    open spec fn view(&self) -> ActionView<S, P, B, R> {
        match self {
            Action::SetDc(high) => ActionView::SetDc(*high),
            Action::SpiWrite(bytes) => ActionView::SpiWrite(bytes@),
            Action::SetReset(high) => ActionView::SetReset(*high),
            Action::DelayMs(ms) => ActionView::DelayMs(*ms),
            Action::ReadBusy => ActionView::ReadBusy,
            Action::Done(outcome) => ActionView::Done(*outcome),
        }
    }
}

/// The outcome of the action a procedure asked for.
#[derive(Debug)]
pub enum Event<S, P, B, R> {
    /// The pin was driven, the bytes were written or the delay has passed.
    Completed,
    /// The BUSY pin was read; `true` when it reads low (the controller is
    /// busy).
    BusyLow(bool),
    /// The SPI transaction failed with this error.
    SpiFailed(S),
    /// Driving the data/command pin failed with this error.
    DcFailed(P),
    /// Reading the BUSY pin failed with this error.
    BusyFailed(B),
    /// Driving the RESET pin failed with this error.
    ResetFailed(R),
}

/// The state of a procedure: its commands, the index of the current one,
/// whether it is pausing between two BUSY readings, and whether it is over.
pub struct ProcedureView {
    pub commands: Seq<CommandView>,
    pub pc: nat,
    pub pausing: bool,
    pub finished: bool,
}

/// A controller procedure under way: a fixed list of commands, run in order,
/// that stops at the first failure.
pub struct Procedure {
    commands: Vec<Command>,
    pc: usize,
    pausing: bool,
    finished: bool,
}

/// The values of a list of commands.
pub open spec fn commands_view(commands: Seq<Command>) -> Seq<CommandView> {
    commands.map_values(|c: Command| c@)
}

/// The state of a procedure that has just been set up: its first command is
/// the current one.
pub open spec fn started(commands: Seq<CommandView>) -> ProcedureView {
    ProcedureView { commands, pc: 0, pausing: false, finished: false }
}

/// The action that carries out a command (a wait begins with a BUSY reading).
pub open spec fn issue<S, P, B, R>(command: CommandView) -> ActionView<S, P, B, R> {
    match command {
        CommandView::SetDc(high) => ActionView::SetDc(high),
        CommandView::SpiWrite(bytes) => ActionView::SpiWrite(bytes),
        CommandView::SetReset(high) => ActionView::SetReset(high),
        CommandView::DelayMs(ms) => ActionView::DelayMs(ms),
        CommandView::WaitIdle => ActionView::ReadBusy,
    }
}

/// The action a procedure that is not over waits on.
pub open spec fn pending_action<S, P, B, R>(p: ProcedureView) -> ActionView<S, P, B, R> {
    if p.pausing {
        ActionView::DelayMs(1)
    } else {
        issue(p.commands[p.pc as int])
    }
}

/// The driver error that a failure event reports; `None` for a success.
pub open spec fn error_of<S, P, B, R>(event: Event<S, P, B, R>) -> Option<DriverError<S, P, B, R>> {
    match event {
        Event::SpiFailed(e) => Some(DriverError::Spi(e)),
        Event::DcFailed(e) => Some(DriverError::DcPin(e)),
        Event::BusyFailed(e) => Some(DriverError::BusyPin(e)),
        Event::ResetFailed(e) => Some(DriverError::ResetPin(e)),
        _ => None,
    }
}

/// Whether the procedure stays on its current command after a successful
/// event: it pauses after a low BUSY reading, and reads BUSY again after the
/// pause.
pub open spec fn stays<S, P, B, R>(p: ProcedureView, event: Event<S, P, B, R>) -> bool {
    p.commands[p.pc as int] is WaitIdle && (p.pausing || event == Event::<S, P, B, R>::BusyLow(true))
}

/// The state of a procedure after the outcome of its pending action.
pub open spec fn next_view<S, P, B, R>(p: ProcedureView, event: Event<S, P, B, R>) -> ProcedureView {
    if error_of(event) is Some {
        ProcedureView { finished: true, ..p }
    } else if stays(p, event) {
        ProcedureView { pausing: !p.pausing, ..p }
    } else if p.pc + 1 < p.commands.len() {
        ProcedureView { pc: p.pc + 1, pausing: false, ..p }
    } else {
        ProcedureView { pausing: false, finished: true, ..p }
    }
}

/// The action a procedure asks for after the outcome of its pending action:
/// the failure it reports, the next action of the current or of the next
/// command, or success once the last command is done.
pub open spec fn reply<S, P, B, R>(p: ProcedureView, event: Event<S, P, B, R>) -> ActionView<
    S,
    P,
    B,
    R,
> {
    match error_of(event) {
        Some(error) => ActionView::Done(Err(error)),
        None => {
            let q = next_view(p, event);
            if q.finished {
                ActionView::Done(Ok(()))
            } else {
                pending_action(q)
            }
        },
    }
}

/// Selecting command mode and writing a one-byte command.
pub open spec fn command_bytes(code: u8) -> Seq<CommandView> {
    seq![CommandView::SetDc(false), CommandView::SpiWrite(seq![code])]
}

/// Selecting data mode and writing data bytes.
pub open spec fn data_bytes(bytes: Seq<u8>) -> Seq<CommandView> {
    seq![CommandView::SetDc(true), CommandView::SpiWrite(bytes)]
}

/// Hardware reset: RESET high for 50 ms, low for 5 ms, high for 50 ms, then
/// wait until the controller is idle.
pub open spec fn reset_program() -> Seq<CommandView> {
    seq![
        CommandView::SetReset(true),
        CommandView::DelayMs(50),
        CommandView::SetReset(false),
        CommandView::DelayMs(5),
        CommandView::SetReset(true),
        CommandView::DelayMs(50),
        CommandView::WaitIdle,
    ]
}

/// The controller initialization sequence: booster soft start, panel
/// setting, voltage registers, PLL control, VCOM and data interval,
/// resolution 200x200, and gate/source timing.
pub open spec fn init_program() -> Seq<CommandView> {
    command_bytes(0x4D) + data_bytes(seq![0x78u8]) + command_bytes(0x00) + data_bytes(
        seq![0x0Fu8, 0x29u8],
    ) + command_bytes(0x06) + data_bytes(
        seq![0x0Du8, 0x12u8, 0x30u8, 0x20u8, 0x19u8, 0x2Au8, 0x22u8],
    ) + command_bytes(0x30) + data_bytes(seq![0x08u8]) + command_bytes(0x50) + data_bytes(
        seq![0x37u8],
    ) + command_bytes(0x61) + data_bytes(seq![0x00u8, 0xC8u8, 0x00u8, 0xC8u8]) + command_bytes(
        0xE9,
    ) + data_bytes(seq![0x01u8])
}

/// Power on (command `0x04`), then wait until the controller is idle.
pub open spec fn power_on_program() -> Seq<CommandView> {
    command_bytes(0x04).push(CommandView::WaitIdle)
}

/// Power off (command `0x02`, data `0x00`), then wait until the controller
/// is idle.
pub open spec fn power_off_program() -> Seq<CommandView> {
    (command_bytes(0x02) + data_bytes(seq![0x00u8])).push(CommandView::WaitIdle)
}

/// Data start transmission (command `0x10`) with the whole framebuffer, wait
/// until idle, then display refresh (command `0x12`, data `0x00`) and wait
/// until idle again.
pub open spec fn flush_program(frame: Seq<u8>) -> Seq<CommandView> {
    (command_bytes(0x10) + data_bytes(frame)).push(CommandView::WaitIdle) + (command_bytes(0x12)
        + data_bytes(seq![0x00u8])).push(CommandView::WaitIdle)
}

/// Appends a one-byte command.
pub(crate) fn push_command(commands: &mut Vec<Command>, code: u8)
    ensures
        commands_view(final(commands)@) == commands_view(old(commands)@) + command_bytes(code),
        final(commands).len() == old(commands).len() + 2,
{
    commands.push(Command::SetDc(false));
    let bytes = vec![code];
    commands.push(Command::SpiWrite(bytes));
    proof {
        assert(bytes@ =~= seq![code]);
        assert(commands_view(commands@) =~= commands_view(old(commands)@) + command_bytes(code));
    }
}

/// Appends a data transfer.
pub(crate) fn push_data(commands: &mut Vec<Command>, bytes: Vec<u8>)
    ensures
        commands_view(final(commands)@) == commands_view(old(commands)@) + data_bytes(bytes@),
        final(commands).len() == old(commands).len() + 2,
{
    let ghost data = bytes@;
    commands.push(Command::SetDc(true));
    commands.push(Command::SpiWrite(bytes));
    proof {
        assert(commands_view(commands@) =~= commands_view(old(commands)@) + data_bytes(data));
    }
}

/// Appends a wait until the controller is idle.
pub(crate) fn push_wait(commands: &mut Vec<Command>)
    ensures
        commands_view(final(commands)@) == commands_view(old(commands)@).push(CommandView::WaitIdle),
        final(commands).len() == old(commands).len() + 1,
{
    commands.push(Command::WaitIdle);
    proof {
        assert(commands_view(commands@) =~= commands_view(old(commands)@).push(CommandView::WaitIdle));
    }
}

impl View for Procedure {
    type V = ProcedureView;

    closed spec fn view(&self) -> ProcedureView {
        ProcedureView {
            commands: commands_view(self.commands@),
            pc: self.pc as nat,
            pausing: self.pausing,
            finished: self.finished,
        }
    }
}

impl Procedure {
    #[verifier::type_invariant]
    spec fn well_formed(self) -> bool {
        !self.finished ==> self.pc < self.commands.len()
    }

    /// A procedure that runs `commands` from the first.
    pub(crate) fn from_commands(commands: Vec<Command>) -> (p: Procedure)
        requires
            commands.len() > 0,
        ensures
            p@ == started(commands_view(commands@)),
    {
        Procedure { commands, pc: 0, pausing: false, finished: false }
    }

    /// Whether the procedure is over.
    pub fn is_finished(&self) -> (finished: bool)
        ensures
            finished == self@.finished,
            !finished ==> self@.pc < self@.commands.len(),
    {
        proof {
            use_type_invariant(self);
        }
        self.finished
    }

    /// The action the procedure waits on.
    pub fn pending<S, P, B, R>(&self) -> (action: Action<S, P, B, R>)
        requires
            !self@.finished,
        ensures
            action@ == pending_action::<S, P, B, R>(self@),
    {
        proof {
            use_type_invariant(self);
        }
        if self.pausing {
            return Action::DelayMs(1);
        }
        match &self.commands[self.pc] {
            Command::SetDc(high) => Action::SetDc(*high),
            Command::SpiWrite(bytes) => {
                let copy = bytes.clone();
                proof {
                    assert(copy@ =~= bytes@);
                }
                Action::SpiWrite(copy)
            },
            Command::SetReset(high) => Action::SetReset(*high),
            Command::DelayMs(ms) => Action::DelayMs(*ms),
            Command::WaitIdle => Action::ReadBusy,
        }
    }

    /// Takes the outcome of the pending action and returns the next action.
    ///
    /// A failure ends the procedure with the error of the peripheral that
    /// failed. While BUSY reads low the procedure pauses 1 ms and reads it
    /// again; otherwise it moves to the next command, and after the last one
    /// it is done.
    pub fn resume<S, P, B, R>(&mut self, event: Event<S, P, B, R>) -> (action: Action<S, P, B, R>)
        requires
            !old(self)@.finished,
        ensures
            final(self)@ == next_view(old(self)@, event),
            action@ == reply(old(self)@, event),
    {
        proof {
            use_type_invariant(&*self);
        }
        let busy_low = match event {
            Event::SpiFailed(e) => {
                self.finished = true;
                return Action::Done(Err(DriverError::Spi(e)));
            },
            Event::DcFailed(e) => {
                self.finished = true;
                return Action::Done(Err(DriverError::DcPin(e)));
            },
            Event::BusyFailed(e) => {
                self.finished = true;
                return Action::Done(Err(DriverError::BusyPin(e)));
            },
            Event::ResetFailed(e) => {
                self.finished = true;
                return Action::Done(Err(DriverError::ResetPin(e)));
            },
            Event::Completed => false,
            Event::BusyLow(low) => low,
        };
        let waiting = match &self.commands[self.pc] {
            Command::WaitIdle => true,
            _ => false,
        };
        if waiting && (self.pausing || busy_low) {
            self.pausing = !self.pausing;
            return self.pending();
        }
        self.pausing = false;
        if self.pc + 1 < self.commands.len() {
            self.pc = self.pc + 1;
            self.pending()
        } else {
            self.finished = true;
            Action::Done(Ok(()))
        }
    }
}

/// The actions a procedure asks for, in order, as it is told the outcomes in
/// `events`; once it is over it asks for nothing more.
pub open spec fn run<S, P, B, R>(p: ProcedureView, events: Seq<Event<S, P, B, R>>) -> Seq<
    ActionView<S, P, B, R>,
>
    decreases events.len(),
{
    if events.len() == 0 || p.finished {
        Seq::empty()
    } else {
        seq![reply(p, events[0])] + run(next_view(p, events[0]), events.drop_first())
    }
}

/// The outcome that lets a command through at once: the action completed,
/// or, for a wait, BUSY reads high.
pub open spec fn clean_event<S, P, B, R>(command: CommandView) -> Event<S, P, B, R> {
    if command is WaitIdle {
        Event::BusyLow(false)
    } else {
        Event::Completed
    }
}

/// The outcomes that let every command of a list through at once.
pub open spec fn clean_events<S, P, B, R>(commands: Seq<CommandView>) -> Seq<Event<S, P, B, R>> {
    commands.map_values(|c: CommandView| clean_event::<S, P, B, R>(c))
}

/// The actions that carry out a list of commands, in order.
pub open spec fn issued<S, P, B, R>(commands: Seq<CommandView>) -> Seq<ActionView<S, P, B, R>> {
    commands.map_values(|c: CommandView| issue::<S, P, B, R>(c))
}

proof fn lemma_clean_run_from<S, P, B, R>(commands: Seq<CommandView>, i: int)
    requires
        0 <= i < commands.len(),
    ensures
        run(
            ProcedureView { commands, pc: i as nat, pausing: false, finished: false },
            clean_events::<S, P, B, R>(commands).subrange(i, commands.len() as int),
        ) == issued::<S, P, B, R>(commands.subrange(i + 1, commands.len() as int)).push(
            ActionView::Done(Ok(())),
        ),
    decreases commands.len() - i,
{
    let p = ProcedureView { commands, pc: i as nat, pausing: false, finished: false };
    let events = clean_events::<S, P, B, R>(commands).subrange(i, commands.len() as int);
    let e = events[0];
    assert(e == clean_event::<S, P, B, R>(commands[i]));
    assert(error_of(e) is None);
    assert(!stays(p, e));
    if i + 1 < commands.len() {
        lemma_clean_run_from::<S, P, B, R>(commands, i + 1);
        assert(events.drop_first() =~= clean_events::<S, P, B, R>(commands).subrange(
            i + 1,
            commands.len() as int,
        ));
        let q = ProcedureView { commands, pc: (i + 1) as nat, pausing: false, finished: false };
        assert(next_view(p, e) == q);
        assert(reply(p, e) == issue::<S, P, B, R>(commands[i + 1]));
        assert(issued::<S, P, B, R>(commands.subrange(i + 1, commands.len() as int)) =~= seq![
            issue::<S, P, B, R>(commands[i + 1]),
        ] + issued::<S, P, B, R>(commands.subrange(i + 2, commands.len() as int)));
        assert(run(p, events) =~= issued::<S, P, B, R>(
            commands.subrange(i + 1, commands.len() as int),
        ).push(ActionView::Done(Ok(()))));
    } else {
        assert(next_view(p, e).finished);
        assert(run(next_view(p, e), events.drop_first()) == Seq::<ActionView<S, P, B, R>>::empty());
        assert(run(p, events) =~= issued::<S, P, B, R>(
            commands.subrange(i + 1, commands.len() as int),
        ).push(ActionView::Done(Ok(()))));
    }
}

/// A procedure whose actions all succeed, and whose waits find the controller
/// idle, asks for the actions of its commands in order, each once, and then
/// reports success.
pub proof fn lemma_clean_run<S, P, B, R>(commands: Seq<CommandView>)
    requires
        commands.len() > 0,
    ensures
        seq![pending_action::<S, P, B, R>(started(commands))] + run(
            started(commands),
            clean_events::<S, P, B, R>(commands),
        ) == issued::<S, P, B, R>(commands).push(ActionView::Done(Ok(()))),
{
    lemma_clean_run_from::<S, P, B, R>(commands, 0);
    assert(clean_events::<S, P, B, R>(commands).subrange(0, commands.len() as int)
        =~= clean_events::<S, P, B, R>(commands));
    assert(issued::<S, P, B, R>(commands) =~= seq![issue::<S, P, B, R>(commands[0])]
        + issued::<S, P, B, R>(commands.subrange(1, commands.len() as int)));
    assert(seq![pending_action::<S, P, B, R>(started(commands))] + run(
        started(commands),
        clean_events::<S, P, B, R>(commands),
    ) =~= issued::<S, P, B, R>(commands).push(ActionView::Done(Ok(()))));
}

/// While the controller is busy a wait does not move on: a low BUSY reading
/// is answered with a 1 ms pause, and the end of the pause with a new
/// reading, which leaves the procedure where it was.
pub proof fn lemma_busy_wait<S, P, B, R>(p: ProcedureView)
    requires
        !p.finished,
        !p.pausing,
        p.pc < p.commands.len(),
        p.commands[p.pc as int] is WaitIdle,
    ensures
        run(p, seq![Event::<S, P, B, R>::BusyLow(true), Event::<S, P, B, R>::Completed]) == seq![
            ActionView::<S, P, B, R>::DelayMs(1),
            ActionView::<S, P, B, R>::ReadBusy,
        ],
        next_view(next_view(p, Event::<S, P, B, R>::BusyLow(true)), Event::<S, P, B, R>::Completed)
            == p,
{
    let events = seq![Event::<S, P, B, R>::BusyLow(true), Event::<S, P, B, R>::Completed];
    let q = next_view(p, events[0]);
    assert(q == ProcedureView { pausing: true, ..p });
    assert(events.drop_first() =~= seq![Event::<S, P, B, R>::Completed]);
    assert(events.drop_first().drop_first() =~= Seq::<Event<S, P, B, R>>::empty());
    assert(next_view(q, Event::<S, P, B, R>::Completed) == p);
    assert(reply(p, events[0]) == ActionView::<S, P, B, R>::DelayMs(1));
    assert(reply(q, Event::<S, P, B, R>::Completed) == ActionView::<S, P, B, R>::ReadBusy);
    assert(run(p, Seq::<Event<S, P, B, R>>::empty()) == Seq::<ActionView<S, P, B, R>>::empty());
    assert(run(q, events.drop_first()) =~= seq![ActionView::<S, P, B, R>::ReadBusy]);
    assert(run(p, events) =~= seq![
        ActionView::<S, P, B, R>::DelayMs(1),
        ActionView::<S, P, B, R>::ReadBusy,
    ]);
}

/// A failed action ends the procedure at once: it reports the error of the
/// peripheral that failed and asks for nothing more, whatever comes next.
pub proof fn lemma_failure_ends_run<S, P, B, R>(
    p: ProcedureView,
    event: Event<S, P, B, R>,
    rest: Seq<Event<S, P, B, R>>,
)
    requires
        !p.finished,
        error_of(event) is Some,
    ensures
        run(p, seq![event] + rest) == seq![ActionView::Done(Err(error_of(event).unwrap()))],
        next_view(p, event).finished,
{
    let events = seq![event] + rest;
    assert(events[0] == event);
    assert(events.drop_first() =~= rest);
    assert(run(next_view(p, event), rest) == Seq::<ActionView<S, P, B, R>>::empty());
    assert(run(p, events) =~= seq![ActionView::Done(Err(error_of(event).unwrap()))]);
}

/// A procedure never reports a timeout: waiting for the controller has no
/// time limit.
pub proof fn lemma_no_timeout<S, P, B, R>(p: ProcedureView, event: Event<S, P, B, R>)
    ensures
        reply(p, event) != ActionView::<S, P, B, R>::Done(Err(DriverError::Timeout)),
{
}

/// Each failure is reported as the error of the peripheral that failed,
/// carrying the error it gave; successes report no error.
pub proof fn lemma_error_of_events<S, P, B, R>(s: S, p: P, b: B, r: R, low: bool)
    ensures
        error_of(Event::<S, P, B, R>::SpiFailed(s)) == Some(DriverError::<S, P, B, R>::Spi(s)),
        error_of(Event::<S, P, B, R>::DcFailed(p)) == Some(DriverError::<S, P, B, R>::DcPin(p)),
        error_of(Event::<S, P, B, R>::BusyFailed(b)) == Some(DriverError::<S, P, B, R>::BusyPin(b)),
        error_of(Event::<S, P, B, R>::ResetFailed(r)) == Some(
            DriverError::<S, P, B, R>::ResetPin(r),
        ),
        error_of(Event::<S, P, B, R>::Completed) is None,
        error_of(Event::<S, P, B, R>::BusyLow(low)) is None,
{
}

/// The reset sequence, step by step.
pub proof fn lemma_reset_steps()
    ensures
        reset_program() == seq![
            CommandView::SetReset(true),
            CommandView::DelayMs(50),
            CommandView::SetReset(false),
            CommandView::DelayMs(5),
            CommandView::SetReset(true),
            CommandView::DelayMs(50),
            CommandView::WaitIdle,
        ],
{
}

/// The initialization sequence, step by step: each command byte is sent
/// with the data/command pin low, and its data with the pin high.
pub proof fn lemma_init_steps()
    ensures
        init_program() == seq![
            CommandView::SetDc(false),
            CommandView::SpiWrite(seq![0x4Du8]),
            CommandView::SetDc(true),
            CommandView::SpiWrite(seq![0x78u8]),
            CommandView::SetDc(false),
            CommandView::SpiWrite(seq![0x00u8]),
            CommandView::SetDc(true),
            CommandView::SpiWrite(seq![0x0Fu8, 0x29u8]),
            CommandView::SetDc(false),
            CommandView::SpiWrite(seq![0x06u8]),
            CommandView::SetDc(true),
            CommandView::SpiWrite(seq![0x0Du8, 0x12u8, 0x30u8, 0x20u8, 0x19u8, 0x2Au8, 0x22u8]),
            CommandView::SetDc(false),
            CommandView::SpiWrite(seq![0x30u8]),
            CommandView::SetDc(true),
            CommandView::SpiWrite(seq![0x08u8]),
            CommandView::SetDc(false),
            CommandView::SpiWrite(seq![0x50u8]),
            CommandView::SetDc(true),
            CommandView::SpiWrite(seq![0x37u8]),
            CommandView::SetDc(false),
            CommandView::SpiWrite(seq![0x61u8]),
            CommandView::SetDc(true),
            CommandView::SpiWrite(seq![0x00u8, 0xC8u8, 0x00u8, 0xC8u8]),
            CommandView::SetDc(false),
            CommandView::SpiWrite(seq![0xE9u8]),
            CommandView::SetDc(true),
            CommandView::SpiWrite(seq![0x01u8]),
        ],
{
    assert(init_program() =~= seq![
        CommandView::SetDc(false),
        CommandView::SpiWrite(seq![0x4Du8]),
        CommandView::SetDc(true),
        CommandView::SpiWrite(seq![0x78u8]),
        CommandView::SetDc(false),
        CommandView::SpiWrite(seq![0x00u8]),
        CommandView::SetDc(true),
        CommandView::SpiWrite(seq![0x0Fu8, 0x29u8]),
        CommandView::SetDc(false),
        CommandView::SpiWrite(seq![0x06u8]),
        CommandView::SetDc(true),
        CommandView::SpiWrite(seq![0x0Du8, 0x12u8, 0x30u8, 0x20u8, 0x19u8, 0x2Au8, 0x22u8]),
        CommandView::SetDc(false),
        CommandView::SpiWrite(seq![0x30u8]),
        CommandView::SetDc(true),
        CommandView::SpiWrite(seq![0x08u8]),
        CommandView::SetDc(false),
        CommandView::SpiWrite(seq![0x50u8]),
        CommandView::SetDc(true),
        CommandView::SpiWrite(seq![0x37u8]),
        CommandView::SetDc(false),
        CommandView::SpiWrite(seq![0x61u8]),
        CommandView::SetDc(true),
        CommandView::SpiWrite(seq![0x00u8, 0xC8u8, 0x00u8, 0xC8u8]),
        CommandView::SetDc(false),
        CommandView::SpiWrite(seq![0xE9u8]),
        CommandView::SetDc(true),
        CommandView::SpiWrite(seq![0x01u8]),
    ]);
}

/// Power on, step by step.
pub proof fn lemma_power_on_steps()
    ensures
        power_on_program() == seq![
            CommandView::SetDc(false),
            CommandView::SpiWrite(seq![0x04u8]),
            CommandView::WaitIdle,
        ],
{
    assert(power_on_program() =~= seq![
        CommandView::SetDc(false),
        CommandView::SpiWrite(seq![0x04u8]),
        CommandView::WaitIdle,
    ]);
}

/// Power off, step by step.
pub proof fn lemma_power_off_steps()
    ensures
        power_off_program() == seq![
            CommandView::SetDc(false),
            CommandView::SpiWrite(seq![0x02u8]),
            CommandView::SetDc(true),
            CommandView::SpiWrite(seq![0x00u8]),
            CommandView::WaitIdle,
        ],
{
    assert(power_off_program() =~= seq![
        CommandView::SetDc(false),
        CommandView::SpiWrite(seq![0x02u8]),
        CommandView::SetDc(true),
        CommandView::SpiWrite(seq![0x00u8]),
        CommandView::WaitIdle,
    ]);
}

/// A flush, step by step: the data sent after command `0x10` is the frame
/// itself, byte for byte.
pub proof fn lemma_flush_steps(frame: Seq<u8>)
    ensures
        flush_program(frame) == seq![
            CommandView::SetDc(false),
            CommandView::SpiWrite(seq![0x10u8]),
            CommandView::SetDc(true),
            CommandView::SpiWrite(frame),
            CommandView::WaitIdle,
            CommandView::SetDc(false),
            CommandView::SpiWrite(seq![0x12u8]),
            CommandView::SetDc(true),
            CommandView::SpiWrite(seq![0x00u8]),
            CommandView::WaitIdle,
        ],
{
    assert(flush_program(frame) =~= seq![
        CommandView::SetDc(false),
        CommandView::SpiWrite(seq![0x10u8]),
        CommandView::SetDc(true),
        CommandView::SpiWrite(frame),
        CommandView::WaitIdle,
        CommandView::SetDc(false),
        CommandView::SpiWrite(seq![0x12u8]),
        CommandView::SetDc(true),
        CommandView::SpiWrite(seq![0x00u8]),
        CommandView::WaitIdle,
    ]);
}

/// Each command is carried out by the matching action: pin levels, bytes
/// and delays pass through unchanged, and a wait starts with a BUSY reading.
pub proof fn lemma_issue_commands<S, P, B, R>(high: bool, bytes: Seq<u8>, ms: u32)
    ensures
        issue::<S, P, B, R>(CommandView::SetDc(high)) == ActionView::<S, P, B, R>::SetDc(high),
        issue::<S, P, B, R>(CommandView::SpiWrite(bytes)) == ActionView::<S, P, B, R>::SpiWrite(
            bytes,
        ),
        issue::<S, P, B, R>(CommandView::SetReset(high)) == ActionView::<S, P, B, R>::SetReset(
            high,
        ),
        issue::<S, P, B, R>(CommandView::DelayMs(ms)) == ActionView::<S, P, B, R>::DelayMs(ms),
        issue::<S, P, B, R>(CommandView::WaitIdle) == ActionView::<S, P, B, R>::ReadBusy,
{
}

} // verus!
