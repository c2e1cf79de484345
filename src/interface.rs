//! The transport-agnostic command and pixel interface.

use vstd::prelude::*;
use crate::color::{rgb565_to_bytes, rgb565_to_u16, rgb666_to_bytes, Rgb565, Rgb666, be_bytes};

verus! {

/// Interface kind.
///
/// Specifies the kind of physical connection to the display controller that is
/// supported by an interface.
#[derive(Clone, Copy, Debug, PartialEq, Eq, Structural)]
#[non_exhaustive]
pub enum InterfaceKind {
    /// SPI style interface with 8 bits per word and a data/command pin.
    Serial4Line,
    /// 8080 style parallel interface with 8 data pins.
    Parallel8Bit,
    /// 8080 style parallel interface with 16 data pins.
    Parallel16Bit,
}

/// One unit of traffic on the bus, as the display controller receives it.
pub enum Transfer<W> {
    /// An opcode followed by its argument bytes, sent as one unit.
    Command { opcode: u8, args: Seq<u8> },
    /// One native word of pixel data.
    Word(W),
}

/// What a transport was asked to do by one call.
pub enum Op<W> {
    /// `send_command` with this opcode and these argument bytes.
    Command { opcode: u8, args: Seq<u8> },
    /// `send_pixels` with pixels whose words, in order, are these.
    Pixels(Seq<W>),
    /// `send_repeated_pixel` with a pixel of these words and this count.
    RepeatedPixel { pixel: Seq<W>, count: nat },
}

/// One call a transport received, with the result it gave back.
pub struct Call<W, E> {
    pub op: Op<W>,
    pub result: Result<(), E>,
}

/// Pixel data as the controller sees it: one transfer per native word.
pub open spec fn word_transfers<W>(words: Seq<W>) -> Seq<Transfer<W>> {
    words.map_values(|w: W| Transfer::Word(w))
}

/// The native words of a sequence of pixels, in order.
pub open spec fn pixel_words<W, const N: usize>(pixels: Seq<[W; N]>) -> Seq<W> {
    pixels.map_values(|p: [W; N]| p@).flatten()
}

/// `count` copies of one value.
pub open spec fn repeated<T>(x: T, count: nat) -> Seq<T> {
    Seq::new(count, |_i: int| x)
}

/// The traffic an operation puts on the bus when it succeeds.
pub open spec fn op_traffic<W>(op: Op<W>) -> Seq<Transfer<W>> {
    match op {
        Op::Command { opcode, args } => seq![Transfer::Command { opcode, args }],
        Op::Pixels(words) => word_transfers(words),
        Op::RepeatedPixel { pixel, count } => word_transfers(repeated(pixel, count).flatten()),
    }
}

/// Command and pixel interface of a display transport.
///
/// `calls` is the log of the calls the transport has received, each with the
/// result it returned. Every operation is one call: it appends exactly one
/// entry and leaves the earlier ones alone.
pub trait Interface {
    /// The native width of the interface.
    type Word: Copy;

    /// Error reported by the transport.
    type Error: core::fmt::Debug;

    /// Kind of physical connection: a constant of the transport's type, so
    /// no operation on an instance can change it (nor the `Word` type).
    const KIND: InterfaceKind;

    /// The calls received so far. A transport checked by the verifier
    /// defines it. One written outside the verifier keeps this empty default,
    /// and then the contracts below are false on every call: such a
    /// transport is outside what the proofs cover.
    open spec fn calls(&self) -> Seq<Call<Self::Word, Self::Error>> {
        Seq::empty()
    }

    /// Send a command with optional parameters.
    fn send_command(&mut self, command: u8, args: &[u8]) -> (r: Result<(), Self::Error>)
        ensures
            final(self).calls() == old(self).calls().push(
                Call { op: Op::Command { opcode: command, args: args@ }, result: r },
            ),
    ;

    /// Send a sequence of pixels.
    ///
    /// `WriteMemoryStart` must be sent before calling this function.
    fn send_pixels<const N: usize>(&mut self, pixels: &[[Self::Word; N]]) -> (r: Result<(), Self::Error>)
        ensures
            final(self).calls() == old(self).calls().push(
                Call { op: Op::Pixels(pixel_words(pixels@)), result: r },
            ),
    ;

    /// Send the same pixel value multiple times, without storing the copies.
    ///
    /// `WriteMemoryStart` must be sent before calling this function.
    fn send_repeated_pixel<const N: usize>(&mut self, pixel: [Self::Word; N], count: u32) -> (r:
        Result<(), Self::Error>)
        ensures
            final(self).calls() == old(self).calls().push(
                Call { op: Op::RepeatedPixel { pixel: pixel@, count: count as nat }, result: r },
            ),
    ;
}

impl<T: Interface> Interface for &mut T {
    type Word = T::Word;

    type Error = T::Error;

    const KIND: InterfaceKind = T::KIND;

    open spec fn calls(&self) -> Seq<Call<Self::Word, Self::Error>> {
        (**self).calls()
    }

    fn send_command(&mut self, command: u8, args: &[u8]) -> (r: Result<(), Self::Error>) {
        T::send_command(*self, command, args)
    }

    fn send_pixels<const N: usize>(&mut self, pixels: &[[Self::Word; N]]) -> (r: Result<(), Self::Error>) {
        T::send_pixels(*self, pixels)
    }

    fn send_repeated_pixel<const N: usize>(&mut self, pixel: [Self::Word; N], count: u32) -> (r:
        Result<(), Self::Error>) {
        T::send_repeated_pixel(*self, pixel, count)
    }
}

/// Sending one pixel `count` times with `send_repeated_pixel` puts on the bus
/// the same traffic as `send_pixels` given `count` copies of that pixel; each
/// is a single call to the transport.
pub proof fn lemma_repeat_equivalence<W, const N: usize>(pixel: [W; N], copies: Seq<[W; N]>, count: u32)
    requires
        copies.len() == count,
        forall|i: int| 0 <= i < copies.len() ==> copies[i] == pixel,
    ensures
        op_traffic(Op::RepeatedPixel { pixel: pixel@, count: count as nat }) == op_traffic(
            Op::Pixels(pixel_words(copies)),
        ),
{
    assert(copies.map_values(|p: [W; N]| p@) =~= repeated(pixel@, count as nat));
}

/// Going through a mutable reference changes nothing: the reference reports
/// the kind of the transport it refers to and shares its log of calls, so each
/// operation makes the same single call and returns the same result either way.
pub proof fn lemma_borrow_transparent<T: Interface>(t: &mut T)
    ensures
        <&mut T as Interface>::KIND == T::KIND,
        <&mut T as Interface>::calls(&t) == T::calls(&*old(t)),
{
}

/// Pixel data of a colour representation for transports with native word `Word`.
pub trait InterfacePixelFormat<Word>: Sized + Copy {
    /// The colour's channels fit their bit widths.
    spec fn valid(self) -> bool;

    /// The native words that stand for one pixel of this colour.
    spec fn encode(self) -> Seq<Word>;

    /// Converts each pixel and forwards the whole run to the transport in one
    /// `send_pixels` call, whose result it returns.
    fn send_pixels<DI: Interface<Word = Word>>(di: &mut DI, pixels: &[Self]) -> (r: Result<(), DI::Error>)
        requires
            forall|i: int| 0 <= i < pixels@.len() ==> (#[trigger] pixels@[i]).valid(),
        ensures
            (*final(di)).calls() == (*old(di)).calls().push(
                Call {
                    op: Op::Pixels(pixels@.map_values(|c: Self| c.encode()).flatten()),
                    result: r,
                },
            ),
    ;

    /// Converts the pixel once and forwards it with its repeat count in one
    /// `send_repeated_pixel` call, whose result it returns.
    fn send_repeated_pixel<DI: Interface<Word = Word>>(di: &mut DI, pixel: Self, count: u32) -> (r:
        Result<(), DI::Error>)
        requires
            pixel.valid(),
        ensures
            (*final(di)).calls() == (*old(di)).calls().push(
                Call { op: Op::RepeatedPixel { pixel: pixel.encode(), count: count as nat }, result: r },
            ),
    ;
}

/// An adapter's repeated send of one colour puts on the bus the same traffic
/// as its plain send of `count` copies of that colour.
pub proof fn lemma_adapter_repeat_equivalence<W, C: InterfacePixelFormat<W>>(
    pixel: C,
    copies: Seq<C>,
    count: u32,
)
    requires
        copies.len() == count,
        forall|i: int| 0 <= i < copies.len() ==> copies[i] == pixel,
    ensures
        op_traffic(Op::RepeatedPixel { pixel: pixel.encode(), count: count as nat }) == op_traffic(
            Op::Pixels(copies.map_values(|c: C| c.encode()).flatten()),
        ),
{
    assert(repeated(pixel.encode(), count as nat) =~= copies.map_values(|c: C| c.encode()));
}

/// Converts `pixels` with `convert` and hands the whole run to `di` in one call.
fn send_converted<W, C, F, DI, const N: usize>(
    di: &mut DI,
    pixels: &[C],
    convert: F,
    Ghost(valid): Ghost<spec_fn(C) -> bool>,
    Ghost(encode): Ghost<spec_fn(C) -> Seq<W>>,
) -> (r: Result<(), DI::Error>)
    where
        W: Copy,
        C: Copy,
        F: Fn(C) -> [W; N],
        DI: Interface<Word = W>,
    requires
        forall|i: int| 0 <= i < pixels@.len() ==> valid(#[trigger] pixels@[i]),
        forall|c: C| valid(c) ==> convert.requires((c,)),
        forall|c: C, w: [W; N]| valid(c) && convert.ensures((c,), w) ==> w@ == encode(c),
    ensures
        (*final(di)).calls() == (*old(di)).calls().push(
            Call { op: Op::Pixels(pixels@.map_values(encode).flatten()), result: r },
        ),
{
    let mut buf: Vec<[W; N]> = Vec::with_capacity(pixels.len());
    let mut i: usize = 0;
    while i < pixels.len()
        invariant
            i <= pixels@.len(),
            forall|i: int| 0 <= i < pixels@.len() ==> valid(#[trigger] pixels@[i]),
            forall|c: C| valid(c) ==> convert.requires((c,)),
            forall|c: C, w: [W; N]| valid(c) && convert.ensures((c,), w) ==> w@ == encode(c),
            buf@.map_values(|p: [W; N]| p@) == pixels@.subrange(0, i as int).map_values(encode),
        decreases pixels.len() - i,
    {
        let ghost prev = buf@;
        let w = convert(pixels[i]);
        buf.push(w);
        proof {
            assert(w@ == encode(pixels@[i as int]));
            assert(buf@ == prev.push(w));
            assert(buf@.map_values(|p: [W; N]| p@) =~= prev.map_values(|p: [W; N]| p@).push(w@));
            assert(pixels@.subrange(0, i + 1).map_values(encode) =~= pixels@.subrange(
                0,
                i as int,
            ).map_values(encode).push(encode(pixels@[i as int])));
        }
        i = i + 1;
    }
    assert(pixels@.subrange(0, pixels@.len() as int) =~= pixels@);
    di.send_pixels(buf.as_slice())
}

impl InterfacePixelFormat<u8> for Rgb565 {
    open spec fn valid(self) -> bool {
        self.wf()
    }

    open spec fn encode(self) -> Seq<u8> {
        be_bytes(self.packed())
    }

    fn send_pixels<DI: Interface<Word = u8>>(di: &mut DI, pixels: &[Self]) -> (r: Result<(), DI::Error>) {
        let r = send_converted(
            di,
            pixels,
            rgb565_to_bytes,
            Ghost(|c: Rgb565| c.wf()),
            Ghost(|c: Rgb565| be_bytes(c.packed())),
        );
        assert(pixels@.map_values(|c: Rgb565| be_bytes(c.packed())) =~= pixels@.map_values(
            |c: Self| c.encode(),
        ));
        r
    }

    fn send_repeated_pixel<DI: Interface<Word = u8>>(di: &mut DI, pixel: Self, count: u32) -> (r:
        Result<(), DI::Error>) {
        let words = rgb565_to_bytes(pixel);
        di.send_repeated_pixel(words, count)
    }
}

impl InterfacePixelFormat<u8> for Rgb666 {
    open spec fn valid(self) -> bool {
        self.wf()
    }

    open spec fn encode(self) -> Seq<u8> {
        seq![(self.r * 4) as u8, (self.g * 4) as u8, (self.b * 4) as u8]
    }

    fn send_pixels<DI: Interface<Word = u8>>(di: &mut DI, pixels: &[Self]) -> (r: Result<(), DI::Error>) {
        let r = send_converted(
            di,
            pixels,
            rgb666_to_bytes,
            Ghost(|c: Rgb666| c.wf()),
            Ghost(|c: Rgb666| seq![(c.r * 4) as u8, (c.g * 4) as u8, (c.b * 4) as u8]),
        );
        assert(pixels@.map_values(
            |c: Rgb666| seq![(c.r * 4) as u8, (c.g * 4) as u8, (c.b * 4) as u8],
        ) =~= pixels@.map_values(|c: Self| c.encode()));
        r
    }

    fn send_repeated_pixel<DI: Interface<Word = u8>>(di: &mut DI, pixel: Self, count: u32) -> (r:
        Result<(), DI::Error>) {
        let words = rgb666_to_bytes(pixel);
        di.send_repeated_pixel(words, count)
    }
}

impl InterfacePixelFormat<u16> for Rgb565 {
    open spec fn valid(self) -> bool {
        self.wf()
    }

    open spec fn encode(self) -> Seq<u16> {
        seq![self.packed() as u16]
    }

    fn send_pixels<DI: Interface<Word = u16>>(di: &mut DI, pixels: &[Self]) -> (r: Result<(), DI::Error>) {
        let r = send_converted(
            di,
            pixels,
            rgb565_to_u16,
            Ghost(|c: Rgb565| c.wf()),
            Ghost(|c: Rgb565| seq![c.packed() as u16]),
        );
        assert(pixels@.map_values(|c: Rgb565| seq![c.packed() as u16]) =~= pixels@.map_values(
            |c: Self| c.encode(),
        ));
        r
    }

    fn send_repeated_pixel<DI: Interface<Word = u16>>(di: &mut DI, pixel: Self, count: u32) -> (r:
        Result<(), DI::Error>) {
        let words = rgb565_to_u16(pixel);
        di.send_repeated_pixel(words, count)
    }
}

} // verus!
