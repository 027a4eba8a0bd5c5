use core::mem;

use embrio::gpio::{
    Dir, Disabled, Drive, Floating, Gpio, Input, InputBuffer, OpenDrain, Output, Pin, PinCnf, Pull,
    PullDown, PullUp, PushPull,
};

#[test]
fn zst() {
    assert!(mem::size_of::<Input<Floating>>() == 0);
    assert!(mem::size_of::<Input<PullUp>>() == 0);
    assert!(mem::size_of::<Input<PullDown>>() == 0);
    assert!(mem::size_of::<Output<PushPull>>() == 0);
    assert!(mem::size_of::<Output<OpenDrain>>() == 0);
    assert!(mem::size_of::<Disabled>() == 0);
}

#[test]
fn almost_zst() {
    assert!(mem::size_of::<Pin<Input<Floating>>>() == mem::size_of::<usize>());
}

#[test]
fn new_pin_is_disabled() {
    let gpio = Gpio::new();
    let pin = Pin::new(&gpio, 17);
    assert_eq!(pin.get_id(), 17);
    assert_eq!(
        pin.configuration(),
        PinCnf { dir: Dir::Input, input: InputBuffer::Disconnect, pull: Pull::Disabled, drive: Drive::S0S1 }
    );
}

#[test]
fn input_modes_write_pull() {
    let gpio = Gpio::new();
    let pin = Pin::new(&gpio, 3).input();
    assert_eq!(
        pin.configuration(),
        PinCnf { dir: Dir::Input, input: InputBuffer::Connect, pull: Pull::Disabled, drive: Drive::S0S1 }
    );
    let pin = pin.pull_up();
    assert_eq!(pin.configuration().pull, Pull::Pullup);
    assert_eq!(pin.configuration().input, InputBuffer::Connect);
    let pin = pin.pull_down();
    assert_eq!(pin.configuration().pull, Pull::Pulldown);
    let pin = pin.floating();
    assert_eq!(pin.configuration().pull, Pull::Disabled);
    assert_eq!(pin.get_id(), 3);
}

#[test]
fn output_modes_write_drive() {
    let gpio = Gpio::new();
    let pin = Pin::new(&gpio, 9).output();
    assert_eq!(
        pin.configuration(),
        PinCnf { dir: Dir::Output, input: InputBuffer::Disconnect, pull: Pull::Disabled, drive: Drive::S0S1 }
    );
    let pin = pin.open_drain();
    assert_eq!(pin.configuration().drive, Drive::S0D1);
    assert_eq!(pin.configuration().dir, Dir::Output);
    let pin = pin.push_pull();
    assert_eq!(pin.configuration().drive, Drive::S0S1);
    let pin = pin.disable();
    assert_eq!(pin.configuration().dir, Dir::Input);
    assert_eq!(pin.configuration().input, InputBuffer::Disconnect);
    assert_eq!(pin.get_id(), 9);
}
