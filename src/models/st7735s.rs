//! ST7735s display on a serial interface with a data/command pin.

use vstd::prelude::*;
use crate::color::Rgb565;
use crate::interface::{Call, Interface, InterfaceKind, InterfacePixelFormat, Op};
use super::{
    cmd, inversion_opcode, invert_opcode, plan_view, push_command, push_delay, push_hard_reset,
    ConfigurationError, InitStep, ModelOptions, StepView, PIXEL_FORMAT_16BPP, WRITE_MEMORY_START,
};

verus! {

/// ST7735s display with reset pin.
/// Only the serial interface with data/command pin is supported.
#[derive(Clone, Copy, Debug, PartialEq, Eq)]
pub struct ST7735s;

/// The transports an ST7735s can be driven over.
pub open spec fn st7735s_supports(kind: InterfaceKind) -> bool {
    kind == InterfaceKind::Serial4Line
}

/// The ST7735s bring-up sequence: a pulse on the reset line when there is
/// one, else a software reset command, then the register setup.
pub open spec fn st7735s_plan(options: ModelOptions, has_reset_pin: bool) -> Seq<StepView> {
    seq![
        if has_reset_pin {
            StepView::HardReset
        } else {
            cmd(0x01, seq![])
        },
        StepView::DelayUs(200_000),
        cmd(0x11, seq![]),
        StepView::DelayUs(120_000),
        cmd(invert_opcode(options.invert_colors), seq![]),
        cmd(0xB1, seq![0x05u8, 0x3A, 0x3A]),
        cmd(0xB2, seq![0x05u8, 0x3A, 0x3A]),
        cmd(0xB3, seq![0x05u8, 0x3A, 0x3A, 0x05, 0x3A, 0x3A]),
        cmd(0xB4, seq![0x03u8]),
        cmd(0xC0, seq![0x62u8, 0x02, 0x04]),
        cmd(0xC1, seq![0xC0u8]),
        cmd(0xC2, seq![0x0Du8, 0x00]),
        cmd(0xC3, seq![0x8Du8, 0x6A]),
        cmd(0xC4, seq![0x8Du8, 0xEE]),
        cmd(0xC5, seq![0x0Eu8]),
        cmd(0xE0, seq![0x10u8, 0x0E, 0x02, 0x03, 0x0E, 0x07, 0x02, 0x07, 0x0A, 0x12, 0x27, 0x37, 0x00, 0x0D, 0x0E, 0x10]),
        cmd(0xE1, seq![0x10u8, 0x0E, 0x03, 0x03, 0x0F, 0x06, 0x02, 0x08, 0x0A, 0x13, 0x26, 0x36, 0x00, 0x0D, 0x0E, 0x10]),
        cmd(0x3A, seq![PIXEL_FORMAT_16BPP]),
        cmd(0x36, seq![options.address_mode]),
        cmd(0x29, seq![]),
    ]
}

impl ST7735s {
    /// Whether the model can be driven over a transport of `kind`.
    pub fn supports(kind: InterfaceKind) -> (r: bool)
        ensures
            r == st7735s_supports(kind),
    {
        kind == InterfaceKind::Serial4Line
    }

    /// The initialization plan for a transport of `kind`: refused, before any
    /// step, when the model does not support `kind`. `has_reset_pin` tells
    /// whether a reset line is wired.
    pub fn init(&mut self, kind: InterfaceKind, options: &ModelOptions, has_reset_pin: bool) -> (r:
        Result<Vec<InitStep>, ConfigurationError>)
        ensures
            r is Err <==> !st7735s_supports(kind),
            r matches Err(e) ==> e == ConfigurationError::UnsupportedInterface,
            r matches Ok(steps) ==> plan_view(steps@) == st7735s_plan(*options, has_reset_pin),
    {
        if !Self::supports(kind) {
            return Err(ConfigurationError::UnsupportedInterface);
        }
        let mut steps: Vec<InitStep> = Vec::new();
        assert(plan_view(steps@) =~= Seq::empty());
        if has_reset_pin {
            push_hard_reset(&mut steps);
        } else {
            push_command(&mut steps, 0x01, vec![]); // software reset
        }
        push_delay(&mut steps, 200_000);
        push_command(&mut steps, 0x11, vec![]); // exit sleep mode
        push_delay(&mut steps, 120_000);
        push_command(&mut steps, inversion_opcode(options.invert_colors), vec![]);
        push_command(&mut steps, 0xB1, vec![0x05, 0x3A, 0x3A]); // frame rate control 1
        push_command(&mut steps, 0xB2, vec![0x05, 0x3A, 0x3A]); // frame rate control 2
        push_command(&mut steps, 0xB3, vec![0x05, 0x3A, 0x3A, 0x05, 0x3A, 0x3A]); // frame rate control 3
        push_command(&mut steps, 0xB4, vec![0x03]); // inversion control
        push_command(&mut steps, 0xC0, vec![0x62, 0x02, 0x04]); // power control 1
        push_command(&mut steps, 0xC1, vec![0xC0]); // power control 2
        push_command(&mut steps, 0xC2, vec![0x0D, 0x00]); // power control 3
        push_command(&mut steps, 0xC3, vec![0x8D, 0x6A]); // power control 4
        push_command(&mut steps, 0xC4, vec![0x8D, 0xEE]); // power control 5
        push_command(&mut steps, 0xC5, vec![0x0E]); // VCOM control 1
        push_command(&mut steps, 0xE0, vec![0x10, 0x0E, 0x02, 0x03, 0x0E, 0x07, 0x02, 0x07, 0x0A, 0x12, 0x27, 0x37, 0x00, 0x0D, 0x0E, 0x10]); // positive gamma correction
        push_command(&mut steps, 0xE1, vec![0x10, 0x0E, 0x03, 0x03, 0x0F, 0x06, 0x02, 0x08, 0x0A, 0x13, 0x26, 0x36, 0x00, 0x0D, 0x0E, 0x10]); // negative gamma correction
        push_command(&mut steps, 0x3A, vec![PIXEL_FORMAT_16BPP]); // 16 bits per pixel
        push_command(&mut steps, 0x36, vec![options.address_mode]); // memory data access control
        push_command(&mut steps, 0x29, vec![]); // display on
        assert(plan_view(steps@) =~~= st7735s_plan(*options, has_reset_pin));
        Ok(steps)
    }

    /// Starts a pixel write and sends `colors` as big-endian 16-bit values.
    ///
    /// If the start command fails, its error is returned and no pixel data is
    /// sent; otherwise the pixels go out in one call, whose result is returned.
    pub fn write_pixels<DI: Interface<Word = u8>>(&mut self, di: &mut DI, colors: &[Rgb565]) -> (r:
        Result<(), DI::Error>)
        requires
            forall|i: int| 0 <= i < colors@.len() ==> (#[trigger] colors@[i]).wf(),
        ensures
            ({
                let start = Op::Command { opcode: WRITE_MEMORY_START, args: seq![] };
                let data = Op::Pixels(
                    colors@.map_values(|c: Rgb565| <Rgb565 as InterfacePixelFormat<u8>>::encode(c)).flatten(),
                );
                ||| r is Err && (*final(di)).calls() == (*old(di)).calls().push(
                    Call { op: start, result: r },
                )
                ||| (*final(di)).calls() == (*old(di)).calls().push(
                    Call { op: start, result: Ok(()) },
                ).push(Call { op: data, result: r })
            }),
    {
        let no_args: [u8; 0] = [];
        assert(no_args@ =~= seq![]);
        let ghost before = di.calls();
        let started = di.send_command(WRITE_MEMORY_START, &no_args);
        match started {
            Ok(()) => {
                assert(started->Ok_0 == ());
                assert(started == Ok::<(), DI::Error>(()));
            },
            Err(e) => {
                return Err(e);
            },
        }
        let ghost middle = di.calls();
        assert(middle == before.push(
            Call { op: Op::Command { opcode: WRITE_MEMORY_START, args: seq![] }, result: Ok(()) },
        ));
        let r = <Rgb565 as InterfacePixelFormat<u8>>::send_pixels(di, colors);
        assert(colors@.map_values(|c: Rgb565| <Rgb565 as InterfacePixelFormat<u8>>::encode(c))
            =~= colors@.map_values(|c: Rgb565| c.encode()));
        r
    }

    /// Options of the common 80x160 panel: frame memory of 132x162, colours
    /// inverted.
    pub fn default_options() -> (o: ModelOptions)
        ensures
            o == (ModelOptions {
                address_mode: 0,
                invert_colors: true,
                display_size: (80, 160),
                framebuffer_size: (132, 162),
            }),
    {
        ModelOptions::with_sizes((80, 160), (132, 162)).with_invert_colors(true)
    }
}

/// A display being put together from a transport, a model and its options.
pub struct Builder<DI, MODEL> {
    /// The transport.
    pub di: DI,
    /// The display model.
    pub model: MODEL,
    /// The options the model will be initialized with.
    pub options: ModelOptions,
}

impl<DI> Builder<DI, ST7735s> {
    /// A builder for an ST7735s on `di`, with the model's default options.
    pub fn st7735s(di: DI) -> (b: Self)
        ensures
            b.di == di,
            b.options == (ModelOptions {
                address_mode: 0,
                invert_colors: true,
                display_size: (80, 160),
                framebuffer_size: (132, 162),
            }),
    {
        Builder { di, model: ST7735s, options: ST7735s::default_options() }
    }
}

} // verus!
