//! GC9A01 round display in 16-bit colour mode.

use vstd::prelude::*;
use crate::interface::InterfaceKind;
use super::{
    cmd, inversion_opcode, invert_opcode, plan_view, push_command, push_delay, ConfigurationError,
    InitStep, ModelOptions, StepView, PIXEL_FORMAT_16BPP,
};

verus! {

/// GC9A01 display in Rgb565 color mode.
#[derive(Clone, Copy, Debug, PartialEq, Eq)]
pub struct GC9A01;

/// The transports a GC9A01 can be driven over.
pub open spec fn gc9a01_supports(kind: InterfaceKind) -> bool {
    match kind {
        InterfaceKind::Serial4Line => true,
        InterfaceKind::Parallel8Bit => true,
        InterfaceKind::Parallel16Bit => true,
    }
}

/// The GC9A01 bring-up sequence for `options`.
pub open spec fn gc9a01_plan(options: ModelOptions) -> Seq<StepView> {
    seq![
        StepView::DelayUs(200_000),
        cmd(0xEF, seq![]),
        cmd(0xEB, seq![0x14u8]),
        cmd(0xFE, seq![]),
        cmd(0xEF, seq![]),
        cmd(0xEB, seq![0x14u8]),
        cmd(0x84, seq![0x40u8]),
        cmd(0x85, seq![0xFFu8]),
        cmd(0x86, seq![0xFFu8]),
        cmd(0x87, seq![0xFFu8]),
        cmd(0x88, seq![0x0Au8]),
        cmd(0x89, seq![0x21u8]),
        cmd(0x8A, seq![0x00u8]),
        cmd(0x8B, seq![0x80u8]),
        cmd(0x8C, seq![0x01u8]),
        cmd(0x8D, seq![0x01u8]),
        cmd(0x8E, seq![0xFFu8]),
        cmd(0x8F, seq![0xFFu8]),
        cmd(0xB6, seq![0x00u8, 0x20]),
        cmd(0x36, seq![options.address_mode]),
        cmd(0x3A, seq![PIXEL_FORMAT_16BPP]),
        cmd(0x90, seq![0x08u8, 0x08, 0x08, 0x08]),
        cmd(0xBD, seq![0x06u8]),
        cmd(0xBC, seq![0x00u8]),
        cmd(0xFF, seq![0x60u8, 0x01, 0x04]),
        cmd(0xC3, seq![0x13u8]),
        cmd(0xC4, seq![0x13u8]),
        cmd(0xC9, seq![0x22u8]),
        cmd(0xBE, seq![0x11u8]),
        cmd(0xE1, seq![0x10u8, 0x0E]),
        cmd(0xDF, seq![0x20u8, 0x0C, 0x02]),
        cmd(0xF0, seq![0x45u8, 0x09, 0x08, 0x08, 0x26, 0x2A]),
        cmd(0xF1, seq![0x43u8, 0x70, 0x72, 0x36, 0x37, 0x6F]),
        cmd(0xF2, seq![0x45u8, 0x09, 0x08, 0x08, 0x26, 0x2A]),
        cmd(0xF3, seq![0x43u8, 0x70, 0x72, 0x36, 0x37, 0x6F]),
        cmd(0xED, seq![0x18u8, 0x0B]),
        cmd(0xAE, seq![0x77u8]),
        cmd(0xCD, seq![0x63u8]),
        cmd(0x70, seq![0x07u8, 0x07, 0x04, 0x0E, 0x0F, 0x09, 0x07, 0x08, 0x03]),
        cmd(0xE8, seq![0x34u8]),
        cmd(0x62, seq![0x18u8, 0x0D, 0x71, 0xED, 0x70, 0x70, 0x18, 0x0F, 0x71, 0xEF, 0x70, 0x70]),
        cmd(0x63, seq![0x18u8, 0x11, 0x71, 0xF1, 0x70, 0x70, 0x18, 0x13, 0x71, 0xF3, 0x70, 0x70]),
        cmd(0x64, seq![0x28u8, 0x29, 0xF1, 0x01, 0xF1, 0x00, 0x07]),
        cmd(0x66, seq![0x3Cu8, 0x00, 0xCD, 0x67, 0x45, 0x45, 0x10, 0x00, 0x00, 0x00]),
        cmd(0x67, seq![0x00u8, 0x3C, 0x00, 0x00, 0x00, 0x01, 0x54, 0x10, 0x32, 0x98]),
        cmd(0x74, seq![0x10u8, 0x85, 0x80, 0x00, 0x00, 0x4E, 0x00]),
        cmd(0x98, seq![0x3Eu8, 0x07]),
        cmd(invert_opcode(options.invert_colors), seq![]),
        cmd(0x11, seq![]),
        StepView::DelayUs(120_000),
        cmd(0x29, seq![]),
    ]
}

impl GC9A01 {
    /// Frame memory size in pixels, width then height.
    pub const FRAMEBUFFER_SIZE: (u16, u16) = (240, 240);

    /// Whether the model can be driven over a transport of `kind`.
    pub fn supports(kind: InterfaceKind) -> (r: bool)
        ensures
            r == gc9a01_supports(kind),
    {
        match kind {
            InterfaceKind::Serial4Line => true,
            InterfaceKind::Parallel8Bit => true,
            InterfaceKind::Parallel16Bit => true,
        }
    }

    /// The initialization plan for a transport of `kind`: refused, before any
    /// step, when the model does not support `kind`.
    pub fn init(&mut self, kind: InterfaceKind, options: &ModelOptions) -> (r: Result<
        Vec<InitStep>,
        ConfigurationError,
    >)
        ensures
            r is Err <==> !gc9a01_supports(kind),
            r matches Err(e) ==> e == ConfigurationError::UnsupportedInterface,
            r matches Ok(steps) ==> plan_view(steps@) == gc9a01_plan(*options),
    {
        if !Self::supports(kind) {
            return Err(ConfigurationError::UnsupportedInterface);
        }
        let mut steps: Vec<InitStep> = Vec::new();
        assert(plan_view(steps@) =~= Seq::empty());
        push_delay(&mut steps, 200_000);
        push_command(&mut steps, 0xEF, vec![]);
        push_command(&mut steps, 0xEB, vec![0x14]);
        push_command(&mut steps, 0xFE, vec![]); // inter register enable 1
        push_command(&mut steps, 0xEF, vec![]);
        push_command(&mut steps, 0xEB, vec![0x14]);
        push_command(&mut steps, 0x84, vec![0x40]);
        push_command(&mut steps, 0x85, vec![0xFF]);
        push_command(&mut steps, 0x86, vec![0xFF]);
        push_command(&mut steps, 0x87, vec![0xFF]);
        push_command(&mut steps, 0x88, vec![0x0A]);
        push_command(&mut steps, 0x89, vec![0x21]);
        push_command(&mut steps, 0x8A, vec![0x00]);
        push_command(&mut steps, 0x8B, vec![0x80]);
        push_command(&mut steps, 0x8C, vec![0x01]);
        push_command(&mut steps, 0x8D, vec![0x01]);
        push_command(&mut steps, 0x8E, vec![0xFF]);
        push_command(&mut steps, 0x8F, vec![0xFF]);
        push_command(&mut steps, 0xB6, vec![0x00, 0x20]); // display function control
        push_command(&mut steps, 0x36, vec![options.address_mode]); // memory data access control
        push_command(&mut steps, 0x3A, vec![PIXEL_FORMAT_16BPP]); // interface pixel format, 16 bits per pixel
        push_command(&mut steps, 0x90, vec![0x08, 0x08, 0x08, 0x08]);
        push_command(&mut steps, 0xBD, vec![0x06]);
        push_command(&mut steps, 0xBC, vec![0x00]);
        push_command(&mut steps, 0xFF, vec![0x60, 0x01, 0x04]);
        push_command(&mut steps, 0xC3, vec![0x13]); // power control 2
        push_command(&mut steps, 0xC4, vec![0x13]); // power control 3
        push_command(&mut steps, 0xC9, vec![0x22]); // power control 4
        push_command(&mut steps, 0xBE, vec![0x11]);
        push_command(&mut steps, 0xE1, vec![0x10, 0x0E]);
        push_command(&mut steps, 0xDF, vec![0x20, 0x0C, 0x02]);
        push_command(&mut steps, 0xF0, vec![0x45, 0x09, 0x08, 0x08, 0x26, 0x2A]); // gamma 1
        push_command(&mut steps, 0xF1, vec![0x43, 0x70, 0x72, 0x36, 0x37, 0x6F]); // gamma 2
        push_command(&mut steps, 0xF2, vec![0x45, 0x09, 0x08, 0x08, 0x26, 0x2A]); // gamma 3
        push_command(&mut steps, 0xF3, vec![0x43, 0x70, 0x72, 0x36, 0x37, 0x6F]); // gamma 4
        push_command(&mut steps, 0xED, vec![0x18, 0x0B]);
        push_command(&mut steps, 0xAE, vec![0x77]);
        push_command(&mut steps, 0xCD, vec![0x63]);
        push_command(&mut steps, 0x70, vec![0x07, 0x07, 0x04, 0x0E, 0x0F, 0x09, 0x07, 0x08, 0x03]);
        push_command(&mut steps, 0xE8, vec![0x34]); // frame rate
        push_command(&mut steps, 0x62, vec![0x18, 0x0D, 0x71, 0xED, 0x70, 0x70, 0x18, 0x0F, 0x71, 0xEF, 0x70, 0x70]);
        push_command(&mut steps, 0x63, vec![0x18, 0x11, 0x71, 0xF1, 0x70, 0x70, 0x18, 0x13, 0x71, 0xF3, 0x70, 0x70]);
        push_command(&mut steps, 0x64, vec![0x28, 0x29, 0xF1, 0x01, 0xF1, 0x00, 0x07]);
        push_command(&mut steps, 0x66, vec![0x3C, 0x00, 0xCD, 0x67, 0x45, 0x45, 0x10, 0x00, 0x00, 0x00]);
        push_command(&mut steps, 0x67, vec![0x00, 0x3C, 0x00, 0x00, 0x00, 0x01, 0x54, 0x10, 0x32, 0x98]);
        push_command(&mut steps, 0x74, vec![0x10, 0x85, 0x80, 0x00, 0x00, 0x4E, 0x00]);
        push_command(&mut steps, 0x98, vec![0x3E, 0x07]);
        push_command(&mut steps, inversion_opcode(options.invert_colors), vec![]);
        push_command(&mut steps, 0x11, vec![]); // exit sleep mode
        push_delay(&mut steps, 120_000);
        push_command(&mut steps, 0x29, vec![]); // display on
        assert(plan_view(steps@) =~~= gc9a01_plan(*options));
        Ok(steps)
    }
}

} // verus!
