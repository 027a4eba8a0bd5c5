use vstd::prelude::*;

use crate::zst_ref::ZstRef;

verus! {

/// Direction of a pin.
#[derive(Debug, PartialEq, Eq, Structural)]
pub enum Dir {
    Input,
    Output,
}

/// Whether the input buffer of a pin is connected.
#[derive(Debug, PartialEq, Eq, Structural)]
pub enum InputBuffer {
    Connect,
    Disconnect,
}

/// Pull resistor of a pin.
#[derive(Debug, PartialEq, Eq, Structural)]
pub enum Pull {
    Disabled,
    Pulldown,
    Pullup,
}

/// Drive strength of a pin: standard `0` and `1` (`S0S1`), or standard `0`
/// and disconnected `1` (`S0D1`, open drain).
#[derive(Debug, PartialEq, Eq, Structural)]
pub enum Drive {
    S0S1,
    S0D1,
}

/// The fields of a pin's configuration register, as a mode writes them.
#[derive(Debug, PartialEq, Eq, Structural)]
pub struct PinCnf {
    pub dir: Dir,
    pub input: InputBuffer,
    pub pull: Pull,
    pub drive: Drive,
}

impl PinCnf {
    /// The register's value after reset.
    pub open spec fn spec_reset() -> PinCnf {
        PinCnf { dir: Dir::Input, input: InputBuffer::Disconnect, pull: Pull::Disabled, drive: Drive::S0S1 }
    }

    /// The register's value after reset.
    pub fn reset() -> (r: PinCnf)
        ensures
            r == PinCnf::spec_reset(),
    {
        PinCnf { dir: Dir::Input, input: InputBuffer::Disconnect, pull: Pull::Disabled, drive: Drive::S0S1 }
    }
}

/// A pull setting of an input pin.
pub trait InputMode: Sized {
    /// The configuration `w` with this pull setting written.
    spec fn applied(w: PinCnf) -> PinCnf;

    /// Writes this pull setting and returns the mode's token.
    fn apply(w: &mut PinCnf) -> (r: Self)
        ensures
            *final(w) == Self::applied(*old(w)),
    ;
}

/// A drive setting of an output pin.
pub trait OutputMode: Sized {
    /// The configuration `w` with this drive setting written.
    spec fn applied(w: PinCnf) -> PinCnf;

    /// Writes this drive setting and returns the mode's token.
    fn apply(w: &mut PinCnf) -> (r: Self)
        ensures
            *final(w) == Self::applied(*old(w)),
    ;
}

/// A complete mode of a pin.
pub trait PinMode: Sized {
    /// The configuration `w` with this mode written.
    spec fn applied(w: PinCnf) -> PinCnf;

    /// Writes this mode and returns its token.
    fn apply(w: &mut PinCnf) -> (r: Self)
        ensures
            *final(w) == Self::applied(*old(w)),
    ;
}

/// Input without pull resistor.
#[derive(Debug, Clone, Copy)]
pub struct Floating {
    _reserved: (),
}

/// Input with pull-up resistor.
#[derive(Debug, Clone, Copy)]
pub struct PullUp {
    _reserved: (),
}

/// Input with pull-down resistor.
#[derive(Debug, Clone, Copy)]
pub struct PullDown {
    _reserved: (),
}

/// Output driving both levels.
#[derive(Debug, Clone, Copy)]
pub struct PushPull {
    _reserved: (),
}

/// Output driving the low level only.
#[derive(Debug, Clone, Copy)]
pub struct OpenDrain {
    _reserved: (),
}

/// A pin that is neither input nor output.
#[derive(Debug, Clone, Copy)]
pub struct Disabled {
    _reserved: (),
}

/// An input pin with pull setting `Mode`.
#[derive(Debug, Clone, Copy)]
pub struct Input<Mode: InputMode> {
    mode: Mode,
}

/// An output pin with drive setting `Mode`.
#[derive(Debug, Clone, Copy)]
pub struct Output<Mode: OutputMode> {
    mode: Mode,
}

impl InputMode for Floating {
    open spec fn applied(w: PinCnf) -> PinCnf {
        PinCnf { pull: Pull::Disabled, ..w }
    }

    fn apply(w: &mut PinCnf) -> (r: Floating) {
        w.pull = Pull::Disabled;
        Floating { _reserved: () }
    }
}

impl InputMode for PullUp {
    open spec fn applied(w: PinCnf) -> PinCnf {
        PinCnf { pull: Pull::Pullup, ..w }
    }

    fn apply(w: &mut PinCnf) -> (r: PullUp) {
        w.pull = Pull::Pullup;
        PullUp { _reserved: () }
    }
}

impl InputMode for PullDown {
    open spec fn applied(w: PinCnf) -> PinCnf {
        PinCnf { pull: Pull::Pulldown, ..w }
    }

    fn apply(w: &mut PinCnf) -> (r: PullDown) {
        w.pull = Pull::Pulldown;
        PullDown { _reserved: () }
    }
}

impl OutputMode for PushPull {
    open spec fn applied(w: PinCnf) -> PinCnf {
        PinCnf { drive: Drive::S0S1, ..w }
    }

    fn apply(w: &mut PinCnf) -> (r: PushPull) {
        w.drive = Drive::S0S1;
        PushPull { _reserved: () }
    }
}

impl OutputMode for OpenDrain {
    open spec fn applied(w: PinCnf) -> PinCnf {
        PinCnf { drive: Drive::S0D1, ..w }
    }

    fn apply(w: &mut PinCnf) -> (r: OpenDrain) {
        w.drive = Drive::S0D1;
        OpenDrain { _reserved: () }
    }
}

impl PinMode for Disabled {
    open spec fn applied(w: PinCnf) -> PinCnf {
        PinCnf { dir: Dir::Input, input: InputBuffer::Disconnect, ..w }
    }

    fn apply(w: &mut PinCnf) -> (r: Disabled) {
        w.dir = Dir::Input;
        w.input = InputBuffer::Disconnect;
        Disabled { _reserved: () }
    }
}

impl<Mode: InputMode> PinMode for Input<Mode> {
    open spec fn applied(w: PinCnf) -> PinCnf {
        Mode::applied(PinCnf { dir: Dir::Input, input: InputBuffer::Connect, ..w })
    }

    fn apply(w: &mut PinCnf) -> (r: Input<Mode>) {
        w.dir = Dir::Input;
        w.input = InputBuffer::Connect;
        Input { mode: Mode::apply(w) }
    }
}

impl<Mode: OutputMode> PinMode for Output<Mode> {
    open spec fn applied(w: PinCnf) -> PinCnf {
        Mode::applied(PinCnf { dir: Dir::Output, ..w })
    }

    fn apply(w: &mut PinCnf) -> (r: Output<Mode>) {
        w.dir = Dir::Output;
        Output { mode: Mode::apply(w) }
    }
}

/// The GPIO register block; zero-sized, as only its address matters.
#[derive(Debug)]
pub struct Gpio {
    _reserved: (),
}

impl Gpio {
    /// The handle to the register block.
    pub fn new() -> (r: Gpio) {
        Gpio { _reserved: () }
    }
}

/// One GPIO pin in mode `Mode`. The mode lives in the type: a pin is as
/// large as its number.
pub struct Pin<'a, Mode> {
    gpio: ZstRef<'a, Gpio>,
    pin: usize,
    mode: Mode,
}

impl<'a> Pin<'a, Disabled> {
    /// Pin number `pin` of the register block, disabled. `Gpio` holds only
    /// a unit field, so the reference to it takes no space.
    pub fn new(gpio: &'a Gpio, pin: usize) -> (r: Pin<'a, Disabled>)
        ensures
            r.id() == pin,
    {
        let mut w = PinCnf::reset();
        Pin { gpio: ZstRef { marker: core::marker::PhantomData }, pin, mode: Disabled::apply(&mut w) }
    }
}

impl<'a, Mode: PinMode> Pin<'a, Mode> {
    /// The pin's number.
    pub closed spec fn id(&self) -> usize {
        self.pin
    }

    /// The configuration register value of this pin's mode, written over
    /// the reset value.
    pub open spec fn spec_configuration(&self) -> PinCnf {
        Mode::applied(PinCnf::spec_reset())
    }

    /// The pin's number.
    pub fn get_id(&self) -> (r: usize)
        ensures
            r == self.id(),
    {
        self.pin
    }

    /// The value that configures this pin's mode in its register.
    pub fn configuration(&self) -> (r: PinCnf)
        ensures
            r == self.spec_configuration(),
    {
        let mut w = PinCnf::reset();
        let _mode: Mode = Mode::apply(&mut w);
        w
    }

    /// The same pin in mode `NewMode`.
    fn set_mode<NewMode: PinMode>(self) -> (r: Pin<'a, NewMode>)
        ensures
            r.id() == self.id(),
    {
        let mut w = PinCnf::reset();
        let mode = NewMode::apply(&mut w);
        Pin { gpio: self.gpio, pin: self.pin, mode }
    }

    /// The pin, disabled.
    pub fn disable(self) -> (r: Pin<'a, Disabled>)
        ensures
            r.id() == self.id(),
    {
        self.set_mode()
    }

    /// The pin as a push-pull output.
    pub fn output(self) -> (r: Pin<'a, Output<PushPull>>)
        ensures
            r.id() == self.id(),
    {
        self.set_mode()
    }

    /// The pin as a floating input.
    pub fn input(self) -> (r: Pin<'a, Input<Floating>>)
        ensures
            r.id() == self.id(),
    {
        self.set_mode()
    }
}

impl<'a, Mode: InputMode> Pin<'a, Input<Mode>> {
    /// The input without pull resistor.
    pub fn floating(self) -> (r: Pin<'a, Input<Floating>>)
        ensures
            r.id() == self.id(),
    {
        self.set_mode()
    }

    /// The input with pull-up resistor.
    pub fn pull_up(self) -> (r: Pin<'a, Input<PullUp>>)
        ensures
            r.id() == self.id(),
    {
        self.set_mode()
    }

    /// The input with pull-down resistor.
    pub fn pull_down(self) -> (r: Pin<'a, Input<PullDown>>)
        ensures
            r.id() == self.id(),
    {
        self.set_mode()
    }
}

impl<'a, Mode: OutputMode> Pin<'a, Output<Mode>> {
    /// The output driving the low level only.
    pub fn open_drain(self) -> (r: Pin<'a, Output<OpenDrain>>)
        ensures
            r.id() == self.id(),
    {
        self.set_mode()
    }

    /// The output driving both levels.
    pub fn push_pull(self) -> (r: Pin<'a, Output<PushPull>>)
        ensures
            r.id() == self.id(),
    {
        self.set_mode()
    }
}

} // verus!
