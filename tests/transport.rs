use mipidsi::color::{Rgb565, Rgb666};
use mipidsi::interface::{Interface, InterfaceKind, InterfacePixelFormat};
use mipidsi::models::gc9a01::GC9A01;
use mipidsi::models::st7735s::ST7735s;
use mipidsi::models::{ConfigurationError, InitStep, ModelOptions};
use mipidsi::Builder;

#[derive(Debug, Clone, PartialEq, Eq)]
enum Event<W> {
    Command(u8, Vec<u8>),
    Word(W),
}

/// Records the traffic and counts the calls it gets.
struct Spy<W> {
    wire: Vec<Event<W>>,
    calls: usize,
    kind: InterfaceKind,
}

impl<W> Spy<W> {
    fn new(kind: InterfaceKind) -> Self {
        Spy { wire: Vec::new(), calls: 0, kind }
    }
}

struct Spy8(Spy<u8>);
struct Spy16(Spy<u16>);

impl Interface for Spy8 {
    type Word = u8;
    type Error = ();
    const KIND: InterfaceKind = InterfaceKind::Serial4Line;

    fn send_command(&mut self, command: u8, args: &[u8]) -> Result<(), ()> {
        self.0.calls += 1;
        self.0.wire.push(Event::Command(command, args.to_vec()));
        Ok(())
    }

    fn send_pixels<const N: usize>(&mut self, pixels: &[[u8; N]]) -> Result<(), ()> {
        self.0.calls += 1;
        for p in pixels {
            for w in p {
                self.0.wire.push(Event::Word(*w));
            }
        }
        Ok(())
    }

    fn send_repeated_pixel<const N: usize>(&mut self, pixel: [u8; N], count: u32) -> Result<(), ()> {
        self.0.calls += 1;
        for _ in 0..count {
            for w in pixel {
                self.0.wire.push(Event::Word(w));
            }
        }
        Ok(())
    }
}

impl Interface for Spy16 {
    type Word = u16;
    type Error = ();
    const KIND: InterfaceKind = InterfaceKind::Parallel16Bit;

    fn send_command(&mut self, command: u8, args: &[u8]) -> Result<(), ()> {
        self.0.calls += 1;
        self.0.wire.push(Event::Command(command, args.to_vec()));
        Ok(())
    }

    fn send_pixels<const N: usize>(&mut self, pixels: &[[u16; N]]) -> Result<(), ()> {
        self.0.calls += 1;
        for p in pixels {
            for w in p {
                self.0.wire.push(Event::Word(*w));
            }
        }
        Ok(())
    }

    fn send_repeated_pixel<const N: usize>(&mut self, pixel: [u16; N], count: u32) -> Result<(), ()> {
        self.0.calls += 1;
        for _ in 0..count {
            for w in pixel {
                self.0.wire.push(Event::Word(w));
            }
        }
        Ok(())
    }
}

/// Fails every operation.
struct Broken;

impl Interface for Broken {
    type Word = u8;
    type Error = u32;
    const KIND: InterfaceKind = InterfaceKind::Parallel8Bit;

    fn send_command(&mut self, _command: u8, _args: &[u8]) -> Result<(), u32> {
        Err(7)
    }

    fn send_pixels<const N: usize>(&mut self, _pixels: &[[u8; N]]) -> Result<(), u32> {
        Err(8)
    }

    fn send_repeated_pixel<const N: usize>(&mut self, _pixel: [u8; N], _count: u32) -> Result<(), u32> {
        Err(9)
    }
}

fn spy8() -> Spy8 {
    Spy8(Spy::new(InterfaceKind::Serial4Line))
}

#[test]
fn repeated_zero_pixel_matches_five_copies() {
    let mut a = spy8();
    a.send_repeated_pixel([0x00u8, 0x00], 5).unwrap();
    let mut b = spy8();
    b.send_pixels(&[[0x00u8, 0x00]; 5]).unwrap();
    assert_eq!(a.0.wire.len(), 10);
    assert_eq!(a.0.wire, b.0.wire);
    assert_eq!(a.0.calls, b.0.calls);
}

#[test]
fn adapter_repeat_matches_plain_send_for_several_counts() {
    for count in [0u32, 1, 2, 1000] {
        let c = Rgb565::new(3, 40, 17);
        let mut a = spy8();
        <Rgb565 as InterfacePixelFormat<u8>>::send_repeated_pixel(&mut a, c, count).unwrap();
        let copies = vec![c; count as usize];
        let mut b = spy8();
        <Rgb565 as InterfacePixelFormat<u8>>::send_pixels(&mut b, &copies).unwrap();
        assert_eq!(a.0.wire, b.0.wire);
        assert_eq!(a.0.wire.len(), 2 * count as usize);
        assert_eq!(a.0.calls, 1);
        assert_eq!(b.0.calls, 1);
    }
}

#[test]
fn adapter_sends_long_runs_in_order_in_one_call() {
    let colors: Vec<Rgb666> = (0..100u8).map(|i| Rgb666::new(i % 64, 63 - i % 64, i / 2)).collect();
    let mut spy = spy8();
    <Rgb666 as InterfacePixelFormat<u8>>::send_pixels(&mut spy, &colors).unwrap();
    let expected: Vec<Event<u8>> = colors
        .iter()
        .flat_map(|c| [c.r << 2, c.g << 2, c.b << 2])
        .map(Event::Word)
        .collect();
    assert_eq!(spy.0.wire, expected);
    assert_eq!(spy.0.calls, 1);
}

#[test]
fn adapter_for_16bit_transport_sends_packed_words() {
    let mut spy = Spy16(Spy::new(InterfaceKind::Parallel16Bit));
    let colors = [Rgb565::new(31, 63, 31), Rgb565::new(0x11, 0x03, 0x05)];
    <Rgb565 as InterfacePixelFormat<u16>>::send_pixels(&mut spy, &colors).unwrap();
    <Rgb565 as InterfacePixelFormat<u16>>::send_repeated_pixel(&mut spy, Rgb565::new(0, 63, 0), 2).unwrap();
    assert_eq!(
        spy.0.wire,
        vec![Event::Word(0xFFFF), Event::Word(0x8865), Event::Word(0x07E0), Event::Word(0x07E0)]
    );
    assert_eq!(spy.0.kind, InterfaceKind::Parallel16Bit);
}

#[test]
fn adapter_empty_run_sends_nothing() {
    let mut spy = spy8();
    <Rgb565 as InterfacePixelFormat<u8>>::send_pixels(&mut spy, &[]).unwrap();
    assert!(spy.0.wire.is_empty());
    assert_eq!(spy.0.calls, 1);
}

fn drive<DI: Interface<Word = u8>>(mut di: DI) {
    di.send_command(0x2A, &[0, 1, 0, 2]).unwrap();
    di.send_pixels(&[[1u8, 2], [3, 4]]).unwrap();
    di.send_repeated_pixel([9u8], 3).unwrap();
}

#[test]
fn borrowed_transport_sends_same_traffic() {
    let mut owned = spy8();
    owned.send_command(0x2A, &[0, 1, 0, 2]).unwrap();
    owned.send_pixels(&[[1u8, 2], [3, 4]]).unwrap();
    owned.send_repeated_pixel([9u8], 3).unwrap();
    let mut borrowed = spy8();
    drive(&mut borrowed);
    assert_eq!(owned.0.wire, borrowed.0.wire);
    assert_eq!(<&mut Spy8 as Interface>::KIND, Spy8::KIND);
}

#[test]
fn kind_stays_after_operations() {
    let mut spy = spy8();
    let before = Spy8::KIND;
    spy.send_command(0x11, &[]).unwrap();
    spy.send_repeated_pixel([1u8, 2], 4).unwrap();
    assert_eq!(Spy8::KIND, before);
    assert_eq!(spy.0.kind, before);
}

#[test]
fn transport_error_is_passed_on_unchanged() {
    let mut di = Broken;
    assert_eq!(<Rgb565 as InterfacePixelFormat<u8>>::send_pixels(&mut di, &[Rgb565::new(1, 2, 3)]), Err(8));
    assert_eq!(<Rgb666 as InterfacePixelFormat<u8>>::send_repeated_pixel(&mut di, Rgb666::new(1, 2, 3), 4), Err(9));
    assert_eq!(ST7735s.write_pixels(&mut di, &[Rgb565::new(1, 2, 3)]), Err(7));
}

#[test]
fn st7735s_write_pixels_starts_memory_write() {
    let mut spy = spy8();
    ST7735s.write_pixels(&mut spy, &[Rgb565::new(31, 0, 0)]).unwrap();
    assert_eq!(spy.0.wire, vec![Event::Command(0x2C, vec![]), Event::Word(0xF8), Event::Word(0x00)]);
}

/// Records calls like `Spy8`, over an 8-bit parallel bus.
struct ParallelSpy(Spy<u8>);

impl Interface for ParallelSpy {
    type Word = u8;
    type Error = ();
    const KIND: InterfaceKind = InterfaceKind::Parallel8Bit;

    fn send_command(&mut self, command: u8, args: &[u8]) -> Result<(), ()> {
        self.0.calls += 1;
        self.0.wire.push(Event::Command(command, args.to_vec()));
        Ok(())
    }

    fn send_pixels<const N: usize>(&mut self, _pixels: &[[u8; N]]) -> Result<(), ()> {
        self.0.calls += 1;
        Ok(())
    }

    fn send_repeated_pixel<const N: usize>(&mut self, _pixel: [u8; N], _count: u32) -> Result<(), ()> {
        self.0.calls += 1;
        Ok(())
    }
}

/// Asks the model for a plan for `di`'s kind and sends its commands.
fn bring_up<DI: Interface>(di: &mut DI) -> Result<(), ConfigurationError> {
    let plan = ST7735s.init(DI::KIND, &ST7735s::default_options(), false)?;
    for step in &plan {
        if let InitStep::Command { opcode, args } = step {
            di.send_command(*opcode, args).unwrap();
        }
    }
    Ok(())
}

#[test]
fn st7735s_rejects_parallel_transport_before_any_command() {
    let mut parallel = ParallelSpy(Spy::new(InterfaceKind::Parallel8Bit));
    assert_eq!(bring_up(&mut parallel), Err(ConfigurationError::UnsupportedInterface));
    assert_eq!(parallel.0.calls, 0);
    assert!(parallel.0.wire.is_empty());
    let options = ST7735s::default_options();
    assert_eq!(
        ST7735s.init(InterfaceKind::Parallel16Bit, &options, false),
        Err(ConfigurationError::UnsupportedInterface)
    );
    let mut serial = spy8();
    assert_eq!(bring_up(&mut serial), Ok(()));
    assert_eq!(serial.0.calls, 18);
    assert_eq!(serial.0.wire[0], Event::Command(0x01, vec![]));
}

#[test]
fn st7735s_plan_with_and_without_reset_pin() {
    let options = ST7735s::default_options();
    let with_pin = ST7735s.init(InterfaceKind::Serial4Line, &options, true).unwrap();
    let without = ST7735s.init(InterfaceKind::Serial4Line, &options, false).unwrap();
    assert_eq!(with_pin[0], InitStep::HardReset);
    assert_eq!(without[0], InitStep::Command { opcode: 0x01, args: vec![] });
    assert_eq!(with_pin[1..], without[1..]);
    assert_eq!(with_pin.len(), 20);
    assert_eq!(with_pin[4], InitStep::Command { opcode: 0x21, args: vec![] });
    assert_eq!(with_pin[17], InitStep::Command { opcode: 0x3A, args: vec![0x55] });
    assert_eq!(with_pin[18], InitStep::Command { opcode: 0x36, args: vec![0x00] });
    assert_eq!(with_pin[19], InitStep::Command { opcode: 0x29, args: vec![] });
}

#[test]
fn gc9a01_accepts_every_kind() {
    let options = ModelOptions::with_sizes((240, 240), (240, 240));
    for kind in [InterfaceKind::Serial4Line, InterfaceKind::Parallel8Bit, InterfaceKind::Parallel16Bit] {
        assert!(GC9A01::supports(kind));
        assert!(GC9A01.init(kind, &options).is_ok());
    }
}

#[test]
fn gc9a01_plan_uses_options() {
    let mut options = ModelOptions::with_sizes((240, 240), (240, 240));
    options.address_mode = 0x48;
    let plan = GC9A01.init(InterfaceKind::Serial4Line, &options).unwrap();
    assert_eq!(plan.len(), 51);
    assert_eq!(plan[0], InitStep::DelayUs(200_000));
    assert!(plan.contains(&InitStep::Command { opcode: 0x36, args: vec![0x48] }));
    assert!(plan.contains(&InitStep::Command { opcode: 0x3A, args: vec![0x55] }));
    assert!(plan.contains(&InitStep::Command { opcode: 0x20, args: vec![] }));
    assert_eq!(plan[48], InitStep::Command { opcode: 0x11, args: vec![] });
    assert_eq!(plan[49], InitStep::DelayUs(120_000));
    assert_eq!(plan[50], InitStep::Command { opcode: 0x29, args: vec![] });
    let inverted = GC9A01.init(InterfaceKind::Parallel8Bit, &options.with_invert_colors(true)).unwrap();
    assert_eq!(inverted[47], InitStep::Command { opcode: 0x21, args: vec![] });
}

#[test]
fn builder_uses_st7735s_defaults() {
    let b = Builder::st7735s(spy8());
    assert_eq!(b.options.display_size, (80, 160));
    assert_eq!(b.options.framebuffer_size, (132, 162));
    assert!(b.options.invert_colors);
    assert_eq!(b.model, ST7735s);
    assert!(b.di.0.wire.is_empty());
}
