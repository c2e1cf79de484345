//! Display models: what each controller needs to be brought up.
//!
//! A model's initialization is a plan of steps (commands, pauses, a reset
//! pulse) that a runner carries out on a transport, stopping at the first
//! failure.

pub mod gc9a01;
pub mod st7735s;

use vstd::prelude::*;

verus! {

/// Options a model is initialized with.
#[derive(Clone, Copy, Debug, PartialEq, Eq)]
pub struct ModelOptions {
    /// Memory data access control byte (scan direction, colour order).
    pub address_mode: u8,
    /// Whether the controller inverts colours.
    pub invert_colors: bool,
    /// Visible display size in pixels, width then height.
    pub display_size: (u16, u16),
    /// Frame memory size in pixels, width then height.
    pub framebuffer_size: (u16, u16),
}

impl ModelOptions {
    /// Options with the given sizes, default address mode and no inversion.
    pub fn with_sizes(display_size: (u16, u16), framebuffer_size: (u16, u16)) -> (o: ModelOptions)
        ensures
            o.address_mode == 0,
            !o.invert_colors,
            o.display_size == display_size,
            o.framebuffer_size == framebuffer_size,
    {
        ModelOptions { address_mode: 0, invert_colors: false, display_size, framebuffer_size }
    }

    /// The same options with colour inversion set to `invert_colors`.
    pub fn with_invert_colors(self, invert_colors: bool) -> (o: ModelOptions)
        ensures
            o == (ModelOptions { invert_colors, ..self }),
    {
        ModelOptions { invert_colors, ..self }
    }
}

/// A configuration the model cannot work with.
#[derive(Clone, Copy, Debug, PartialEq, Eq, Structural)]
pub enum ConfigurationError {
    /// The transport's kind is not one the model supports.
    UnsupportedInterface,
}

/// Why a model's initialization failed.
#[derive(Clone, Copy, Debug, PartialEq, Eq)]
pub enum ModelInitError<E> {
    /// The transport reported an error.
    Interface(E),
    /// The model cannot work with this configuration.
    InvalidConfiguration(ConfigurationError),
}

/// One step of an initialization plan.
#[derive(Clone, Debug, PartialEq, Eq)]
pub enum InitStep {
    /// Send an opcode with its argument bytes.
    Command { opcode: u8, args: Vec<u8> },
    /// Wait for the given number of microseconds.
    DelayUs(u32),
    /// Pulse the reset line.
    HardReset,
}

/// What a step asks for, with its arguments as a sequence.
#[verifier::ext_equal]
pub enum StepView {
    Command { opcode: u8, args: Seq<u8> },
    DelayUs(u32),
    HardReset,
}

impl View for InitStep {
    type V = StepView;

    open spec fn view(&self) -> StepView {
        match self {
            InitStep::Command { opcode, args } => StepView::Command { opcode: *opcode, args: args@ },
            InitStep::DelayUs(us) => StepView::DelayUs(*us),
            InitStep::HardReset => StepView::HardReset,
        }
    }
}

/// A command step, in the view.
pub open spec fn cmd(opcode: u8, args: Seq<u8>) -> StepView {
    StepView::Command { opcode, args }
}

/// The view of each step of a plan.
pub open spec fn plan_view(steps: Seq<InitStep>) -> Seq<StepView> {
    steps.map_values(|s: InitStep| s@)
}

/// Opcode that switches colour inversion on or off.
pub open spec fn invert_opcode(invert: bool) -> u8 {
    if invert {
        0x21
    } else {
        0x20
    }
}

/// Pixel format argument for 16 bits per pixel on both pixel interfaces.
pub const PIXEL_FORMAT_16BPP: u8 = 0x55;

/// Opcode of the command that starts a pixel write.
pub const WRITE_MEMORY_START: u8 = 0x2C;

pub(crate) fn inversion_opcode(invert: bool) -> (op: u8)
    ensures
        op == invert_opcode(invert),
{
    if invert {
        0x21
    } else {
        0x20
    }
}

pub(crate) fn push_command(steps: &mut Vec<InitStep>, opcode: u8, args: Vec<u8>)
    ensures
        plan_view(final(steps)@) == plan_view(old(steps)@).push(cmd(opcode, args@)),
{
    let ghost before = steps@;
    let ghost a = args@;
    steps.push(InitStep::Command { opcode, args });
    assert(plan_view(steps@) =~= plan_view(before).push(cmd(opcode, a)));
}

pub(crate) fn push_delay(steps: &mut Vec<InitStep>, us: u32)
    ensures
        plan_view(final(steps)@) == plan_view(old(steps)@).push(StepView::DelayUs(us)),
{
    let ghost before = steps@;
    steps.push(InitStep::DelayUs(us));
    assert(plan_view(steps@) =~= plan_view(before).push(StepView::DelayUs(us)));
}

pub(crate) fn push_hard_reset(steps: &mut Vec<InitStep>)
    ensures
        plan_view(final(steps)@) == plan_view(old(steps)@).push(StepView::HardReset),
{
    let ghost before = steps@;
    steps.push(InitStep::HardReset);
    assert(plan_view(steps@) =~= plan_view(before).push(StepView::HardReset));
}

} // verus!
