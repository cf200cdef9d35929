use vstd::prelude::*;

use crate::color::WBRYColor;
use crate::packing::{color_pattern, lemma_pattern_frame, pixels_of};
use crate::sequence::{
    command_bytes, commands_view, data_bytes, flush_program, init_program, power_off_program,
    power_on_program, push_command, push_data, push_wait, reset_program, started, Command,
    CommandView, Procedure,
};

verus! {

/// Display width in pixels.
pub const WIDTH: u32 = 200;

/// Display height in pixels.
pub const HEIGHT: u32 = 200;

/// Framebuffer size in bytes: four two-bit pixels per byte.
pub const FRAME_BUFFER_SIZE: usize = 10000;

/// Number of pixels on the panel.
pub open spec fn pixel_count() -> nat {
    (WIDTH * HEIGHT) as nat
}

/// Errors specific to the WeAct 154 display driver.
#[derive(Debug)]
pub enum DriverError<SpiError, PinError, BusyPin, ResetPin> {
    /// SPI bus error.
    Spi(SpiError),
    /// Data/Command pin error.
    DcPin(PinError),
    /// Busy pin error.
    BusyPin(BusyPin),
    /// Reset pin error.
    ResetPin(ResetPin),
    /// BUSY polling timed out.
    Timeout,
}

/// A driver for the WeAct 1.54-inch 200x200 four-color (B/W/R/Y) e-paper display.
///
/// It owns the packed framebuffer and the peripherals it drives: the SPI
/// device, the data/command pin, the BUSY input, the delay source and the
/// RESET pin.
///
/// # Startup sequence
///
/// ```text
/// new -> reset -> init -> power_on -> [draw] -> flush -> power_off
/// ```
pub struct WeAct154Display<SPI, DC, BUSY, DELAY, RESET> {
    frame_buffer: [u8; FRAME_BUFFER_SIZE],
    spi: SPI,
    dc: DC,
    busy: BUSY,
    delay: DELAY,
    reset: RESET,
}

impl<SPI, DC, BUSY, DELAY, RESET> View for WeAct154Display<SPI, DC, BUSY, DELAY, RESET> {
    /// The bytes of the packed framebuffer.
    type V = Seq<u8>;

    closed spec fn view(&self) -> Seq<u8> {
        self.frame_buffer@
    }
}

impl<SPI, DC, BUSY, DELAY, RESET> WeAct154Display<SPI, DC, BUSY, DELAY, RESET> {
    /// The peripherals the driver owns.
    pub closed spec fn parts(&self) -> (SPI, DC, BUSY, DELAY, RESET) {
        (self.spi, self.dc, self.busy, self.delay, self.reset)
    }

    /// The colors of the panel's pixels, row by row.
    pub open spec fn pixels(&self) -> Seq<WBRYColor> {
        pixels_of(self@)
    }

    /// The framebuffer always holds `FRAME_BUFFER_SIZE` bytes, that is, one
    /// two-bit code for each of the panel's pixels.
    pub proof fn lemma_frame_len(&self)
        ensures
            self@.len() == FRAME_BUFFER_SIZE,
            self.pixels().len() == pixel_count(),
    {
    }

    /// Creates a new display driver instance.
    ///
    /// The framebuffer is initialised to white (`0x55`).
    pub fn new(spi: SPI, dc: DC, busy: BUSY, delay: DELAY, reset: RESET) -> (display: Self)
        ensures
            display@ == Seq::new(FRAME_BUFFER_SIZE as nat, |i: int| 0x55u8),
            display.pixels() == Seq::new(pixel_count(), |p: int| WBRYColor::WHITE),
            display.parts() == (spi, dc, busy, delay, reset),
    {
        let display = WeAct154Display {
            frame_buffer: [0x55u8; FRAME_BUFFER_SIZE],
            spi,
            dc,
            busy,
            delay,
            reset,
        };
        proof {
            assert(display@ =~= Seq::new(FRAME_BUFFER_SIZE as nat, |i: int| 0x55u8));
            assert(Seq::new(FRAME_BUFFER_SIZE as nat, |i: int| 0x55u8) =~= Seq::new(
                FRAME_BUFFER_SIZE as nat,
                |i: int| color_pattern(WBRYColor::WHITE),
            ));
            lemma_pattern_frame(FRAME_BUFFER_SIZE as nat, WBRYColor::WHITE);
        }
        display
    }

    /// Consumes the driver and returns the owned peripherals.
    pub fn release(self) -> (parts: (SPI, DC, BUSY, DELAY, RESET))
        ensures
            parts == self.parts(),
    {
        (self.spi, self.dc, self.busy, self.delay, self.reset)
    }

    /// Fills the entire framebuffer with the given color.
    pub fn clear(&mut self, color: WBRYColor)
        ensures
            final(self)@ == Seq::new(FRAME_BUFFER_SIZE as nat, |i: int| color_pattern(color)),
            final(self).pixels() == Seq::new(pixel_count(), |p: int| color),
            final(self).parts() == old(self).parts(),
    {
        let pattern: u8 = match color {
            WBRYColor::BLACK => 0x00,
            WBRYColor::WHITE => 0x55,
            WBRYColor::YELLOW => 0xAA,
            WBRYColor::RED => 0xFF,
        };
        let mut i: usize = 0;
        while i < FRAME_BUFFER_SIZE
            invariant
                i <= FRAME_BUFFER_SIZE,
                pattern == color_pattern(color),
                self.parts() == old(self).parts(),
                forall|j: int| 0 <= j < i ==> self.frame_buffer@[j] == pattern,
            decreases FRAME_BUFFER_SIZE - i,
        {
            self.frame_buffer[i] = pattern;
            i = i + 1;
        }
        proof {
            assert(self@ =~= Seq::new(FRAME_BUFFER_SIZE as nat, |i: int| color_pattern(color)));
            lemma_pattern_frame(FRAME_BUFFER_SIZE as nat, color);
        }
    }

    /// Returns a read-only reference to the framebuffer.
    pub fn frame_buffer(&self) -> (bytes: &[u8])
        ensures
            bytes@ == self@,
    {
        &self.frame_buffer
    }

    /// Returns a mutable reference to the raw packed framebuffer.
    ///
    /// Each byte holds four pixels with two bits per pixel. Prefer `clear`
    /// or `set_pixel` unless direct access to the packed pixel format is
    /// required.
    pub fn frame_buffer_mut(&mut self) -> (bytes: &mut [u8])
        ensures
            bytes@ == old(self)@,
            final(self)@ == final(bytes)@,
            final(self).parts() == old(self).parts(),
    {
        &mut self.frame_buffer
    }

    /// Mutable access to the owned peripherals, for carrying out the actions
    /// of a procedure.
    pub fn peripherals_mut(&mut self) -> (parts: (&mut SPI, &mut DC, &mut BUSY, &mut DELAY, &mut RESET))
        ensures
            (*parts.0, *parts.1, *parts.2, *parts.3, *parts.4) == old(self).parts(),
            final(self).parts() == (
                *final(parts.0),
                *final(parts.1),
                *final(parts.2),
                *final(parts.3),
                *final(parts.4),
            ),
            final(self)@ == old(self)@,
    {
        (&mut self.spi, &mut self.dc, &mut self.busy, &mut self.delay, &mut self.reset)
    }

    /// The hardware reset sequence.
    pub fn reset(&self) -> (procedure: Procedure)
        ensures
            procedure@ == started(reset_program()),
    {
        let mut commands: Vec<Command> = Vec::new();
        commands.push(Command::SetReset(true));
        commands.push(Command::DelayMs(50));
        commands.push(Command::SetReset(false));
        commands.push(Command::DelayMs(5));
        commands.push(Command::SetReset(true));
        commands.push(Command::DelayMs(50));
        commands.push(Command::WaitIdle);
        proof {
            assert(commands_view(commands@) =~= reset_program());
        }
        Procedure::from_commands(commands)
    }

    /// The controller initialization sequence.
    ///
    /// Commands target the JD79660-style four-color controller used on
    /// WeAct 1.54" panels. Verify your panel's FPC markings before use.
    pub fn init(&self) -> (procedure: Procedure)
        ensures
            procedure@ == started(init_program()),
    {
        let mut commands: Vec<Command> = Vec::new();
        // Booster soft start
        push_command(&mut commands, 0x4D);
        assert(commands_view(commands@) =~= command_bytes(0x4D));
        let data = vec![0x78];
        assert(data@ =~= seq![0x78u8]);
        push_data(&mut commands, data);
        // Panel setting: LUT selection + reserved bits
        push_command(&mut commands, 0x00);
        let data = vec![0x0F, 0x29];
        assert(data@ =~= seq![0x0Fu8, 0x29u8]);
        push_data(&mut commands, data);
        // Write voltage register values
        push_command(&mut commands, 0x06);
        let data = vec![0x0D, 0x12, 0x30, 0x20, 0x19, 0x2A, 0x22];
        assert(data@ =~= seq![0x0Du8, 0x12u8, 0x30u8, 0x20u8, 0x19u8, 0x2Au8, 0x22u8]);
        push_data(&mut commands, data);
        // PLL control
        push_command(&mut commands, 0x30);
        let data = vec![0x08];
        assert(data@ =~= seq![0x08u8]);
        push_data(&mut commands, data);
        // VCOM and data interval setting
        push_command(&mut commands, 0x50);
        let data = vec![0x37];
        assert(data@ =~= seq![0x37u8]);
        push_data(&mut commands, data);
        // Resolution setting: 200x200
        push_command(&mut commands, 0x61);
        let data = vec![0x00, 0xC8, 0x00, 0xC8];
        assert(data@ =~= seq![0x00u8, 0xC8u8, 0x00u8, 0xC8u8]);
        push_data(&mut commands, data);
        // Gate/source timing (panel-specific)
        push_command(&mut commands, 0xE9);
        let data = vec![0x01];
        assert(data@ =~= seq![0x01u8]);
        push_data(&mut commands, data);
        Procedure::from_commands(commands)
    }

    /// Powers on the display controller and waits until it is ready.
    pub fn power_on(&self) -> (procedure: Procedure)
        ensures
            procedure@ == started(power_on_program()),
    {
        let mut commands: Vec<Command> = Vec::new();
        push_command(&mut commands, 0x04);
        push_wait(&mut commands);
        proof {
            assert(commands_view(commands@) =~= power_on_program());
        }
        Procedure::from_commands(commands)
    }

    /// Powers off the display controller and waits until it is ready.
    pub fn power_off(&self) -> (procedure: Procedure)
        ensures
            procedure@ == started(power_off_program()),
    {
        let mut commands: Vec<Command> = Vec::new();
        push_command(&mut commands, 0x02);
        assert(commands_view(commands@) =~= command_bytes(0x02));
        let data = vec![0x00];
        assert(data@ =~= seq![0x00u8]);
        push_data(&mut commands, data);
        push_wait(&mut commands);
        Procedure::from_commands(commands)
    }

    /// Sends the framebuffer to the display and triggers a full-screen
    /// refresh. The framebuffer is sent as it stands when this is called.
    pub fn flush(&self) -> (procedure: Procedure)
        ensures
            procedure@ == started(flush_program(self@)),
            // The data written after command 0x10 is the framebuffer, byte for byte.
            procedure@.commands.len() == 10,
            procedure@.commands[0] == CommandView::SetDc(false),
            procedure@.commands[1] == CommandView::SpiWrite(seq![0x10u8]),
            procedure@.commands[2] == CommandView::SetDc(true),
            procedure@.commands[3] == CommandView::SpiWrite(self@),
    {
        let mut commands: Vec<Command> = Vec::new();
        // Command 0x10: DATA START TRANSMISSION, then the full frame buffer
        push_command(&mut commands, 0x10);
        assert(commands_view(commands@) =~= command_bytes(0x10));
        let frame = vstd::slice::slice_to_vec(self.frame_buffer());
        push_data(&mut commands, frame);
        push_wait(&mut commands);
        let ghost transmission = commands_view(commands@);
        // Command 0x12: DISPLAY REFRESH, which triggers the physical update
        push_command(&mut commands, 0x12);
        let data = vec![0x00];
        assert(data@ =~= seq![0x00u8]);
        push_data(&mut commands, data);
        push_wait(&mut commands);
        proof {
            let refresh = (command_bytes(0x12) + data_bytes(seq![0x00u8])).push(CommandView::WaitIdle);
            assert(commands_view(commands@) =~= transmission + refresh);
            crate::sequence::lemma_flush_steps(self@);
        }
        Procedure::from_commands(commands)
    }
}

} // verus!
