use minikernel::pic::{
    self, ChainedPics, PicBus, PortOp, PIC1_CMD, PIC1_DATA, PIC2_CMD, PIC2_DATA,
};
use minikernel::spin::SpinMutex;

#[test]
fn self_test_preserves_masks_on_success() {
    let mut bus = PicBus::with_masks(0x12, 0x34);
    let pics = ChainedPics::new();
    let ok = pics.test(&mut bus);
    assert!(ok);
    assert_eq!(bus.master.mask, 0x12);
    assert_eq!(bus.slave.mask, 0x34);
}

#[test]
fn self_test_preserves_masks_on_failure() {
    let mut bus = PicBus::unresponsive();
    let pics = ChainedPics::new();
    let ok = pics.test(&mut bus);
    assert!(!ok);
    assert_eq!(bus.master.mask, 0);
    assert_eq!(bus.slave.mask, 0);
}

#[test]
fn self_test_wire_sequence() {
    let mut bus = PicBus::with_masks(0xAB, 0xCD);
    let pics = ChainedPics::new();
    pics.test(&mut bus);
    assert_eq!(
        bus.ops,
        vec![
            PortOp::Read8 { port: PIC1_DATA, value: 0xAB },
            PortOp::Read8 { port: PIC2_DATA, value: 0xCD },
            PortOp::Write8 { port: PIC1_DATA, value: 0xAA },
            PortOp::Write8 { port: PIC2_DATA, value: 0x55 },
            PortOp::Read8 { port: PIC1_DATA, value: 0xAA },
            PortOp::Read8 { port: PIC2_DATA, value: 0x55 },
            PortOp::Write8 { port: PIC1_DATA, value: 0xAB },
            PortOp::Write8 { port: PIC2_DATA, value: 0xCD },
        ]
    );
}

#[test]
fn eoi_for_slave_irq_signals_slave_first() {
    let mut bus = PicBus::with_masks(0, 0);
    let pics = ChainedPics::new();
    pics.notify_end_of_interrupt(&mut bus, 9);
    assert_eq!(
        bus.ops,
        vec![
            PortOp::Write8 { port: PIC2_CMD, value: 0x20 },
            PortOp::Write8 { port: PIC1_CMD, value: 0x20 },
        ]
    );
}

#[test]
fn eoi_for_master_irq_signals_master_only() {
    let mut bus = PicBus::with_masks(0, 0);
    let pics = ChainedPics::new();
    pics.notify_end_of_interrupt(&mut bus, 3);
    assert_eq!(bus.ops, vec![PortOp::Write8 { port: PIC1_CMD, value: 0x20 }]);
}

#[test]
fn init_programs_both_controllers_and_restores_masks() {
    let mut bus = PicBus::with_masks(0xF8, 0x9E);
    let pics = ChainedPics::new();
    pics.init(&mut bus);
    assert_eq!(bus.master.mask, 0xF8);
    assert_eq!(bus.slave.mask, 0x9E);
    assert_eq!(bus.master.offset, 0x20);
    assert_eq!(bus.slave.offset, 0x28);
    assert_eq!(bus.master.wiring, 4);
    assert_eq!(bus.slave.wiring, 2);
    assert!(bus.master.mode_8086);
    assert!(bus.slave.mode_8086);
    assert_eq!(bus.master.icw_remaining, 0);
    assert_eq!(bus.slave.icw_remaining, 0);
}

#[test]
fn init_wire_sequence() {
    let mut bus = PicBus::with_masks(0x01, 0x02);
    let pics = ChainedPics::new();
    pics.init(&mut bus);
    assert_eq!(
        bus.ops,
        vec![
            PortOp::Read8 { port: PIC1_DATA, value: 0x01 },
            PortOp::Read8 { port: PIC2_DATA, value: 0x02 },
            PortOp::Write8 { port: PIC1_CMD, value: 0x11 },
            PortOp::Write8 { port: PIC2_CMD, value: 0x11 },
            PortOp::Write8 { port: PIC1_DATA, value: 0x20 },
            PortOp::Write8 { port: PIC2_DATA, value: 0x28 },
            PortOp::Write8 { port: PIC1_DATA, value: 4 },
            PortOp::Write8 { port: PIC2_DATA, value: 2 },
            PortOp::Write8 { port: PIC1_DATA, value: 1 },
            PortOp::Write8 { port: PIC2_DATA, value: 1 },
            PortOp::Write8 { port: PIC1_DATA, value: 0x01 },
            PortOp::Write8 { port: PIC2_DATA, value: 0x02 },
        ]
    );
}

#[test]
fn module_mask_calls_under_the_lock() {
    let mut pics = SpinMutex::new(ChainedPics::new());
    let mut bus = PicBus::with_masks(0x11, 0x22);
    assert_eq!(pic::get_masks(&mut pics, &mut bus), (0x11, 0x22));
    pic::set_master_mask(&mut pics, &mut bus, 0x7F);
    pic::set_slave_mask(&mut pics, &mut bus, 0x40);
    assert_eq!(pic::get_masks(&mut pics, &mut bus), (0x7F, 0x40));
}

#[test]
fn module_send_eoi_orders_signals() {
    let mut pics = SpinMutex::new(ChainedPics::new());
    let mut bus = PicBus::with_masks(0, 0);
    pic::send_eoi(&mut pics, &mut bus, 12);
    pic::send_eoi(&mut pics, &mut bus, 0);
    assert_eq!(
        bus.ops,
        vec![
            PortOp::Write8 { port: PIC2_CMD, value: 0x20 },
            PortOp::Write8 { port: PIC1_CMD, value: 0x20 },
            PortOp::Write8 { port: PIC1_CMD, value: 0x20 },
        ]
    );
}

#[test]
fn get_masks_unchanged_by_self_test_either_way() {
    let mut pics = SpinMutex::new(ChainedPics::new());
    let mut bus = PicBus::with_masks(0x5A, 0xC3);
    let before = pic::get_masks(&mut pics, &mut bus);
    assert!(pic::test(&mut pics, &mut bus));
    assert_eq!(pic::get_masks(&mut pics, &mut bus), before);

    let mut dead = PicBus::unresponsive();
    let before = pic::get_masks(&mut pics, &mut dead);
    assert!(!pic::test(&mut pics, &mut dead));
    assert_eq!(pic::get_masks(&mut pics, &mut dead), before);
}

#[test]
fn module_init_reports_an_unresponsive_bus() {
    let mut pics = SpinMutex::new(ChainedPics::new());
    let mut bus = PicBus::with_masks(0x55, 0xAA);
    assert_eq!(pic::init(&mut pics, &mut bus), Ok(()));
    assert_eq!(bus.master.mask, 0x55);

    let mut dead = PicBus::unresponsive();
    assert_eq!(pic::init(&mut pics, &mut dead), Err("PIC self-test failed"));
    assert!(!pic::test(&mut pics, &mut dead));
    assert!(pic::test(&mut pics, &mut bus));
}
