//! Driver for the two cascaded 8259 interrupt controllers.
//!
//! The driver talks to the controllers only through 8-bit port reads
//! and writes.  `PicBus` is the in-memory model of that hardware: it
//! decodes the four standard ports, keeps each controller's registers,
//! and records every port operation in order, so contracts can state
//! both what the registers become and exactly which bytes went over the
//! wire.  An unresponsive bus (no controller answering) drops writes
//! and reads back 0xFF, the floating-bus value.

use vstd::prelude::*;
use crate::spin::SpinMutex;

verus! {

/// Master controller command port.
pub const PIC1_CMD: u16 = 0x20;
/// Master controller data (mask) port.
pub const PIC1_DATA: u16 = 0x21;
/// Slave controller command port.
pub const PIC2_CMD: u16 = 0xA0;
/// Slave controller data (mask) port.
pub const PIC2_DATA: u16 = 0xA1;

/// First initialization command word: begin re-initialization.
pub const ICW1_INIT: u8 = 0x10;
/// First initialization command word flag: a fourth word follows.
pub const ICW1_ICW4: u8 = 0x01;
/// Fourth initialization command word: 8086 mode.
pub const ICW4_8086: u8 = 0x01;

/// End-of-interrupt command byte.
pub const PIC_EOI: u8 = 0x20;

/// Vector offset of the master controller; the slave sits 8 above it.
pub const IRQ_OFFSET: u8 = 0x20;

/// One 8-bit port operation, as seen on the wire.
#[derive(Clone, Copy, Debug, PartialEq, Eq, Structural)]
pub enum PortOp {
    Read8 { port: u16, value: u8 },
    Write8 { port: u16, value: u8 },
}

/// Register state of one modelled 8259 controller.
///
/// `icw_remaining` counts the initialization command words the chip
/// still expects on its data port; while it is nonzero, data-port
/// writes configure the chip instead of setting the mask.
#[derive(Clone, Copy, Debug, PartialEq, Eq, Structural)]
pub struct PicDevice {
    pub mask: u8,
    pub offset: u8,
    pub wiring: u8,
    pub mode_8086: bool,
    pub icw_remaining: u8,
}

/// A controller after a byte arrives on its command port.
pub open spec fn device_after_command(d: PicDevice, value: u8) -> PicDevice {
    if value & ICW1_INIT != 0 {
        PicDevice {
            mask: d.mask,
            offset: d.offset,
            wiring: d.wiring,
            mode_8086: d.mode_8086,
            icw_remaining: 3,
        }
    } else {
        d
    }
}

/// A controller after a byte arrives on its data port.
pub open spec fn device_after_data(d: PicDevice, value: u8) -> PicDevice {
    if d.icw_remaining >= 3 {
        PicDevice {
            mask: d.mask,
            offset: value,
            wiring: d.wiring,
            mode_8086: d.mode_8086,
            icw_remaining: 2,
        }
    } else if d.icw_remaining == 2 {
        PicDevice {
            mask: d.mask,
            offset: d.offset,
            wiring: value,
            mode_8086: d.mode_8086,
            icw_remaining: 1,
        }
    } else if d.icw_remaining == 1 {
        PicDevice {
            mask: d.mask,
            offset: d.offset,
            wiring: d.wiring,
            mode_8086: (value & ICW4_8086) != 0,
            icw_remaining: 0,
        }
    } else {
        PicDevice {
            mask: value,
            offset: d.offset,
            wiring: d.wiring,
            mode_8086: d.mode_8086,
            icw_remaining: d.icw_remaining,
        }
    }
}

impl PicDevice {
    /// A controller with everything cleared.
    pub fn blank() -> (r: PicDevice)
        ensures
            r == (PicDevice { mask: 0, offset: 0, wiring: 0, mode_8086: false, icw_remaining: 0 }),
    {
        PicDevice { mask: 0, offset: 0, wiring: 0, mode_8086: false, icw_remaining: 0 }
    }
}

/// In-memory model of the port bus holding the two controllers on the
/// standard ports, with a record of every operation performed.
pub struct PicBus {
    pub master: PicDevice,
    pub slave: PicDevice,
    /// Whether any controller answers; a missing chip drops writes and
    /// reads back 0xFF.
    pub responsive: bool,
    pub ops: Vec<PortOp>,
}

impl PicBus {
    /// What an 8-bit read of `port` returns on the current state.
    pub open spec fn read_value(&self, port: u16) -> u8 {
        if !self.responsive {
            0xFF
        } else if port == PIC1_DATA {
            self.master.mask
        } else if port == PIC2_DATA {
            self.slave.mask
        } else {
            0
        }
    }

    /// Neither controller is in the middle of an initialization
    /// sequence, so data-port writes set masks.
    pub open spec fn ready(&self) -> bool {
        self.master.icw_remaining == 0 && self.slave.icw_remaining == 0
    }

    /// A responsive bus with both controllers cleared and the given masks.
    pub fn with_masks(master_mask: u8, slave_mask: u8) -> (r: PicBus)
        ensures
            r.master == (PicDevice {
                mask: master_mask,
                offset: 0,
                wiring: 0,
                mode_8086: false,
                icw_remaining: 0,
            }),
            r.slave == (PicDevice {
                mask: slave_mask,
                offset: 0,
                wiring: 0,
                mode_8086: false,
                icw_remaining: 0,
            }),
            r.responsive,
            r.ops@ == Seq::<PortOp>::empty(),
    {
        let mut master = PicDevice::blank();
        let mut slave = PicDevice::blank();
        master.mask = master_mask;
        slave.mask = slave_mask;
        PicBus { master, slave, responsive: true, ops: Vec::new() }
    }

    /// A bus on which no controller answers.
    pub fn unresponsive() -> (r: PicBus)
        ensures
            r.master == (PicDevice { mask: 0, offset: 0, wiring: 0, mode_8086: false, icw_remaining: 0 }),
            r.slave == (PicDevice { mask: 0, offset: 0, wiring: 0, mode_8086: false, icw_remaining: 0 }),
            !r.responsive,
            r.ops@ == Seq::<PortOp>::empty(),
    {
        PicBus {
            master: PicDevice::blank(),
            slave: PicDevice::blank(),
            responsive: false,
            ops: Vec::new(),
        }
    }

    /// Writes one byte to a port: the operation is recorded, and a
    /// responsive controller decodes it.
    pub fn write8(&mut self, port: u16, value: u8)
        ensures
            final(self).ops@ == old(self).ops@.push(PortOp::Write8 { port, value }),
            final(self).responsive == old(self).responsive,
            final(self).master == (if old(self).responsive && port == PIC1_CMD {
                device_after_command(old(self).master, value)
            } else if old(self).responsive && port == PIC1_DATA {
                device_after_data(old(self).master, value)
            } else {
                old(self).master
            }),
            final(self).slave == (if old(self).responsive && port == PIC2_CMD {
                device_after_command(old(self).slave, value)
            } else if old(self).responsive && port == PIC2_DATA {
                device_after_data(old(self).slave, value)
            } else {
                old(self).slave
            }),
    {
        self.ops.push(PortOp::Write8 { port, value });
        if self.responsive {
            if port == PIC1_CMD {
                self.master = apply_command(self.master, value);
            } else if port == PIC1_DATA {
                self.master = apply_data(self.master, value);
            } else if port == PIC2_CMD {
                self.slave = apply_command(self.slave, value);
            } else if port == PIC2_DATA {
                self.slave = apply_data(self.slave, value);
            }
        }
    }

    /// Reads one byte from a port: the operation and the value that
    /// came back are recorded; the controllers are unchanged.
    pub fn read8(&mut self, port: u16) -> (r: u8)
        ensures
            r == old(self).read_value(port),
            final(self).ops@ == old(self).ops@.push(PortOp::Read8 { port, value: r }),
            final(self).master == old(self).master,
            final(self).slave == old(self).slave,
            final(self).responsive == old(self).responsive,
    {
        let value = if !self.responsive {
            0xFF
        } else if port == PIC1_DATA {
            self.master.mask
        } else if port == PIC2_DATA {
            self.slave.mask
        } else {
            0
        };
        self.ops.push(PortOp::Read8 { port, value });
        value
    }
}

/// Executable mirror of `device_after_command`.
fn apply_command(d: PicDevice, value: u8) -> (r: PicDevice)
    ensures
        r == device_after_command(d, value),
{
    if value & ICW1_INIT != 0 {
        PicDevice { icw_remaining: 3, ..d }
    } else {
        d
    }
}

/// Executable mirror of `device_after_data`.
fn apply_data(d: PicDevice, value: u8) -> (r: PicDevice)
    ensures
        r == device_after_data(d, value),
{
    if d.icw_remaining >= 3 {
        PicDevice { offset: value, icw_remaining: 2, ..d }
    } else if d.icw_remaining == 2 {
        PicDevice { wiring: value, icw_remaining: 1, ..d }
    } else if d.icw_remaining == 1 {
        PicDevice { mode_8086: (value & ICW4_8086) != 0, icw_remaining: 0, ..d }
    } else {
        PicDevice { mask: value, ..d }
    }
}

/// Driver handle on one controller: its vector offset and its two ports.
pub struct Pic {
    pub offset: u8,
    pub command: u16,
    pub data: u16,
}

impl Pic {
    pub fn new(offset: u8, command_port: u16, data_port: u16) -> (r: Pic)
        ensures
            r.offset == offset,
            r.command == command_port,
            r.data == data_port,
    {
        Pic { offset, command: command_port, data: data_port }
    }

    /// Sends the end-of-interrupt byte to this controller's command port.
    pub fn end_of_interrupt(&self, bus: &mut PicBus)
        ensures
            final(bus).ops@ == old(bus).ops@.push(
                PortOp::Write8 { port: self.command, value: PIC_EOI },
            ),
            final(bus).master == (if old(bus).responsive && self.command == PIC1_CMD {
                device_after_command(old(bus).master, PIC_EOI)
            } else if old(bus).responsive && self.command == PIC1_DATA {
                device_after_data(old(bus).master, PIC_EOI)
            } else {
                old(bus).master
            }),
            final(bus).slave == (if old(bus).responsive && self.command == PIC2_CMD {
                device_after_command(old(bus).slave, PIC_EOI)
            } else if old(bus).responsive && self.command == PIC2_DATA {
                device_after_data(old(bus).slave, PIC_EOI)
            } else {
                old(bus).slave
            }),
            final(bus).responsive == old(bus).responsive,
    {
        bus.write8(self.command, PIC_EOI);
    }

    /// Reads this controller's mask register.
    pub fn read_mask(&self, bus: &mut PicBus) -> (r: u8)
        ensures
            r == old(bus).read_value(self.data),
            final(bus).ops@ == old(bus).ops@.push(PortOp::Read8 { port: self.data, value: r }),
            final(bus).master == old(bus).master,
            final(bus).slave == old(bus).slave,
            final(bus).responsive == old(bus).responsive,
    {
        bus.read8(self.data)
    }

    /// Writes this controller's mask register.
    pub fn write_mask(&self, bus: &mut PicBus, mask: u8)
        ensures
            final(bus).ops@ == old(bus).ops@.push(
                PortOp::Write8 { port: self.data, value: mask },
            ),
            final(bus).master == (if old(bus).responsive && self.data == PIC1_CMD {
                device_after_command(old(bus).master, mask)
            } else if old(bus).responsive && self.data == PIC1_DATA {
                device_after_data(old(bus).master, mask)
            } else {
                old(bus).master
            }),
            final(bus).slave == (if old(bus).responsive && self.data == PIC2_CMD {
                device_after_command(old(bus).slave, mask)
            } else if old(bus).responsive && self.data == PIC2_DATA {
                device_after_data(old(bus).slave, mask)
            } else {
                old(bus).slave
            }),
            final(bus).responsive == old(bus).responsive,
    {
        bus.write8(self.data, mask);
    }
}

/// The master/slave controller pair, wired on the standard ports.
pub struct ChainedPics {
    pub master: Pic,
    pub slave: Pic,
}

impl ChainedPics {
    /// The pair addresses the four standard ports.
    pub open spec fn wf(&self) -> bool {
        &&& self.master.command == PIC1_CMD
        &&& self.master.data == PIC1_DATA
        &&& self.slave.command == PIC2_CMD
        &&& self.slave.data == PIC2_DATA
    }

    /// The standard pair: master vectors at `IRQ_OFFSET`, slave 8 above.
    pub fn new() -> (r: ChainedPics)
        ensures
            r.wf(),
            r.master.offset == IRQ_OFFSET,
            r.slave.offset == IRQ_OFFSET + 8,
    {
        ChainedPics {
            master: Pic::new(IRQ_OFFSET, PIC1_CMD, PIC1_DATA),
            slave: Pic::new(IRQ_OFFSET + 8, PIC2_CMD, PIC2_DATA),
        }
    }

    /// The byte sequence `init` sends and reads on bus state `b`:
    /// snapshot both masks, interleave the four initialization command
    /// words to each controller, and restore the snapshots.
    pub open spec fn init_ops(&self, b: PicBus) -> Seq<PortOp> {
        seq![
            PortOp::Read8 { port: PIC1_DATA, value: b.read_value(PIC1_DATA) },
            PortOp::Read8 { port: PIC2_DATA, value: b.read_value(PIC2_DATA) },
            PortOp::Write8 { port: PIC1_CMD, value: ICW1_INIT | ICW1_ICW4 },
            PortOp::Write8 { port: PIC2_CMD, value: ICW1_INIT | ICW1_ICW4 },
            PortOp::Write8 { port: PIC1_DATA, value: self.master.offset },
            PortOp::Write8 { port: PIC2_DATA, value: self.slave.offset },
            PortOp::Write8 { port: PIC1_DATA, value: 4 },
            PortOp::Write8 { port: PIC2_DATA, value: 2 },
            PortOp::Write8 { port: PIC1_DATA, value: ICW4_8086 },
            PortOp::Write8 { port: PIC2_DATA, value: ICW4_8086 },
            PortOp::Write8 { port: PIC1_DATA, value: b.read_value(PIC1_DATA) },
            PortOp::Write8 { port: PIC2_DATA, value: b.read_value(PIC2_DATA) },
        ]
    }

    /// Re-initializes both controllers: snapshots the mask registers,
    /// sends the four-word initialization sequence to each, and restores
    /// the snapshots, so the masking policy in force is preserved.
    pub fn init(&self, bus: &mut PicBus)
        requires
            self.wf(),
            old(bus).ready(),
        ensures
            final(bus).ops@ == old(bus).ops@ + self.init_ops(*old(bus)),
            final(bus).responsive == old(bus).responsive,
            final(bus).ready(),
            final(bus).master.mask == old(bus).master.mask,
            final(bus).slave.mask == old(bus).slave.mask,
            old(bus).responsive ==> final(bus).master == (PicDevice {
                mask: old(bus).master.mask,
                offset: self.master.offset,
                wiring: 4,
                mode_8086: true,
                icw_remaining: 0,
            }),
            old(bus).responsive ==> final(bus).slave == (PicDevice {
                mask: old(bus).slave.mask,
                offset: self.slave.offset,
                wiring: 2,
                mode_8086: true,
                icw_remaining: 0,
            }),
            !old(bus).responsive ==> final(bus).master == old(bus).master,
            !old(bus).responsive ==> final(bus).slave == old(bus).slave,
    {
        proof {
            assert(((ICW1_INIT | ICW1_ICW4) & ICW1_INIT) != 0) by (bit_vector);
            assert((ICW4_8086 & ICW4_8086) != 0) by (bit_vector);
        }
        let master_mask = self.master.read_mask(bus);
        let slave_mask = self.slave.read_mask(bus);

        bus.write8(self.master.command, ICW1_INIT | ICW1_ICW4);
        bus.write8(self.slave.command, ICW1_INIT | ICW1_ICW4);

        bus.write8(self.master.data, self.master.offset);
        bus.write8(self.slave.data, self.slave.offset);

        bus.write8(self.master.data, 4);
        bus.write8(self.slave.data, 2);

        bus.write8(self.master.data, ICW4_8086);
        bus.write8(self.slave.data, ICW4_8086);

        self.master.write_mask(bus, master_mask);
        self.slave.write_mask(bus, slave_mask);

        proof {
            assert(bus.ops@ =~= old(bus).ops@ + self.init_ops(*old(bus)));
        }
    }

    /// The byte sequence the self-test sends and reads on bus state `b`.
    pub open spec fn self_test_ops(&self, b: PicBus) -> Seq<PortOp> {
        seq![
            PortOp::Read8 { port: PIC1_DATA, value: b.read_value(PIC1_DATA) },
            PortOp::Read8 { port: PIC2_DATA, value: b.read_value(PIC2_DATA) },
            PortOp::Write8 { port: PIC1_DATA, value: 0xAA },
            PortOp::Write8 { port: PIC2_DATA, value: 0x55 },
            PortOp::Read8 { port: PIC1_DATA, value: if b.responsive { 0xAA } else { 0xFF } },
            PortOp::Read8 { port: PIC2_DATA, value: if b.responsive { 0x55 } else { 0xFF } },
            PortOp::Write8 { port: PIC1_DATA, value: b.read_value(PIC1_DATA) },
            PortOp::Write8 { port: PIC2_DATA, value: b.read_value(PIC2_DATA) },
        ]
    }

    /// Non-destructive mask round-trip check: writes sentinel patterns
    /// to both mask registers, reads them back, and restores the masks
    /// that were in force.  Both controllers are left exactly as they
    /// were, whether the test passes or fails.
    pub fn test(&self, bus: &mut PicBus) -> (r: bool)
        requires
            self.wf(),
            old(bus).ready(),
        ensures
            r == old(bus).responsive,
            final(bus).master == old(bus).master,
            final(bus).slave == old(bus).slave,
            final(bus).responsive == old(bus).responsive,
            final(bus).ops@ == old(bus).ops@ + self.self_test_ops(*old(bus)),
    {
        let master_mask = self.master.read_mask(bus);
        let slave_mask = self.slave.read_mask(bus);

        self.master.write_mask(bus, 0xAA);
        self.slave.write_mask(bus, 0x55);

        let master_ok = self.master.read_mask(bus) == 0xAA;
        let slave_ok = self.slave.read_mask(bus) == 0x55;

        self.master.write_mask(bus, master_mask);
        self.slave.write_mask(bus, slave_mask);

        proof {
            assert(bus.ops@ =~= old(bus).ops@ + self.self_test_ops(*old(bus)));
        }
        master_ok && slave_ok
    }

    /// The end-of-interrupt bytes for `irq`: the slave is signalled
    /// strictly before the master when the request came through it, and
    /// the master is signalled in every case.
    pub open spec fn eoi_ops(&self, irq: u8) -> Seq<PortOp> {
        if irq >= 8 {
            seq![
                PortOp::Write8 { port: PIC2_CMD, value: PIC_EOI },
                PortOp::Write8 { port: PIC1_CMD, value: PIC_EOI },
            ]
        } else {
            seq![PortOp::Write8 { port: PIC1_CMD, value: PIC_EOI }]
        }
    }

    /// Acknowledges `irq`: slave first for requests 8 and above, then
    /// the master unconditionally.  Register state does not change.
    pub fn notify_end_of_interrupt(&self, bus: &mut PicBus, irq: u8)
        requires
            self.wf(),
        ensures
            final(bus).ops@ == old(bus).ops@ + self.eoi_ops(irq),
            final(bus).master == old(bus).master,
            final(bus).slave == old(bus).slave,
            final(bus).responsive == old(bus).responsive,
    {
        proof {
            assert((PIC_EOI & ICW1_INIT) == 0) by (bit_vector);
        }
        if irq >= 8 {
            self.slave.end_of_interrupt(bus);
        }
        self.master.end_of_interrupt(bus);
        proof {
            assert(bus.ops@ =~= old(bus).ops@ + self.eoi_ops(irq));
        }
    }
}

/// Reads both mask registers, holding the controller-pair lock for the
/// two reads as one guarded call.
pub fn get_masks(pics: &mut SpinMutex<ChainedPics>, bus: &mut PicBus) -> (r: (u8, u8))
    requires
        !old(pics).is_held(),
        old(pics).inner().wf(),
    ensures
        !final(pics).is_held(),
        final(pics).inner() == old(pics).inner(),
        r.0 == old(bus).read_value(PIC1_DATA),
        r.1 == old(bus).read_value(PIC2_DATA),
        final(bus).master == old(bus).master,
        final(bus).slave == old(bus).slave,
        final(bus).responsive == old(bus).responsive,
        final(bus).ops@ == old(bus).ops@ + seq![
            PortOp::Read8 { port: PIC1_DATA, value: r.0 },
            PortOp::Read8 { port: PIC2_DATA, value: r.1 },
        ],
{
    let guard = pics.lock();
    let chained = pics.borrow();
    let master_mask = chained.master.read_mask(bus);
    let slave_mask = chained.slave.read_mask(bus);
    pics.unlock(guard);
    proof {
        assert(bus.ops@ =~= old(bus).ops@ + seq![
            PortOp::Read8 { port: PIC1_DATA, value: master_mask },
            PortOp::Read8 { port: PIC2_DATA, value: slave_mask },
        ]);
    }
    (master_mask, slave_mask)
}

/// Sets the master controller's mask register under the pair's lock.
pub fn set_master_mask(pics: &mut SpinMutex<ChainedPics>, bus: &mut PicBus, mask: u8)
    requires
        !old(pics).is_held(),
        old(pics).inner().wf(),
        old(bus).ready(),
    ensures
        !final(pics).is_held(),
        final(pics).inner() == old(pics).inner(),
        old(bus).responsive ==> final(bus).master.mask == mask,
        !old(bus).responsive ==> final(bus).master == old(bus).master,
        final(bus).slave == old(bus).slave,
        final(bus).responsive == old(bus).responsive,
        final(bus).ready(),
        final(bus).ops@ == old(bus).ops@.push(PortOp::Write8 { port: PIC1_DATA, value: mask }),
{
    let guard = pics.lock();
    let chained = pics.borrow();
    chained.master.write_mask(bus, mask);
    pics.unlock(guard);
}

/// Sets the slave controller's mask register under the pair's lock.
pub fn set_slave_mask(pics: &mut SpinMutex<ChainedPics>, bus: &mut PicBus, mask: u8)
    requires
        !old(pics).is_held(),
        old(pics).inner().wf(),
        old(bus).ready(),
    ensures
        !final(pics).is_held(),
        final(pics).inner() == old(pics).inner(),
        old(bus).responsive ==> final(bus).slave.mask == mask,
        !old(bus).responsive ==> final(bus).slave == old(bus).slave,
        final(bus).master == old(bus).master,
        final(bus).responsive == old(bus).responsive,
        final(bus).ready(),
        final(bus).ops@ == old(bus).ops@.push(PortOp::Write8 { port: PIC2_DATA, value: mask }),
{
    let guard = pics.lock();
    let chained = pics.borrow();
    chained.slave.write_mask(bus, mask);
    pics.unlock(guard);
}

/// Acknowledges `irq` under the pair's lock: for requests 8 and above
/// the slave is signalled strictly before the master; below 8 only the
/// master is signalled.
pub fn send_eoi(pics: &mut SpinMutex<ChainedPics>, bus: &mut PicBus, irq: u8)
    requires
        !old(pics).is_held(),
        old(pics).inner().wf(),
        irq < 16,
    ensures
        !final(pics).is_held(),
        final(pics).inner() == old(pics).inner(),
        final(bus).master == old(bus).master,
        final(bus).slave == old(bus).slave,
        final(bus).responsive == old(bus).responsive,
        final(bus).ops@ == old(bus).ops@ + old(pics).inner().eoi_ops(irq),
{
    let guard = pics.lock();
    let chained = pics.borrow();
    chained.notify_end_of_interrupt(bus, irq);
    pics.unlock(guard);
}

/// Runs the self-test under the pair's lock; the masks are unchanged
/// whether it passes or fails.
pub fn test(pics: &mut SpinMutex<ChainedPics>, bus: &mut PicBus) -> (r: bool)
    requires
        !old(pics).is_held(),
        old(pics).inner().wf(),
        old(bus).ready(),
    ensures
        !final(pics).is_held(),
        final(pics).inner() == old(pics).inner(),
        r == old(bus).responsive,
        final(bus).master == old(bus).master,
        final(bus).slave == old(bus).slave,
        final(bus).responsive == old(bus).responsive,
        final(bus).ops@ == old(bus).ops@ + old(pics).inner().self_test_ops(*old(bus)),
{
    let guard = pics.lock();
    let chained = pics.borrow();
    let ok = chained.test(bus);
    pics.unlock(guard);
    ok
}

/// Re-initializes the controller pair and self-tests it, as one guarded
/// call.  A failed self-test is reported, not fatal: the masks and the
/// vector offsets are programmed as far as the hardware answered, and
/// the caller may continue with degraded interrupt handling.
pub fn init(pics: &mut SpinMutex<ChainedPics>, bus: &mut PicBus) -> (r: Result<(), &'static str>)
    requires
        !old(pics).is_held(),
        old(pics).inner().wf(),
        old(bus).ready(),
    ensures
        !final(pics).is_held(),
        final(pics).inner() == old(pics).inner(),
        r is Ok <==> old(bus).responsive,
        final(bus).responsive == old(bus).responsive,
        final(bus).ready(),
        final(bus).master.mask == old(bus).master.mask,
        final(bus).slave.mask == old(bus).slave.mask,
        old(bus).responsive ==> final(bus).master == (PicDevice {
            mask: old(bus).master.mask,
            offset: old(pics).inner().master.offset,
            wiring: 4,
            mode_8086: true,
            icw_remaining: 0,
        }),
        old(bus).responsive ==> final(bus).slave == (PicDevice {
            mask: old(bus).slave.mask,
            offset: old(pics).inner().slave.offset,
            wiring: 2,
            mode_8086: true,
            icw_remaining: 0,
        }),
        !old(bus).responsive ==> final(bus).master == old(bus).master,
        !old(bus).responsive ==> final(bus).slave == old(bus).slave,
        final(bus).ops@ == old(bus).ops@ + old(pics).inner().init_ops(*old(bus))
            + old(pics).inner().self_test_ops(*old(bus)),
{
    let guard = pics.lock();
    let chained = pics.borrow();
    chained.init(bus);
    let ghost mid = *bus;
    let ok = chained.test(bus);
    proof {
        assert(chained.self_test_ops(mid) =~= chained.self_test_ops(*old(bus)));
        assert(bus.ops@ =~= old(bus).ops@ + chained.init_ops(*old(bus))
            + chained.self_test_ops(*old(bus)));
    }
    pics.unlock(guard);
    if ok {
        Ok(())
    } else {
        Err("PIC self-test failed")
    }
}

} // verus!
