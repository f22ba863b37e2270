//! Polled ATA (PIO) disk driver.
//!
//! The driver owns nothing but the base port of its cable and a
//! master/slave select bit; every step of an operation is an 8-bit port
//! read or write against the device registers at `base .. base+7`.
//! `AtaBus` is the in-memory model of that register file: it decodes
//! the ports, holds up to two drives per cable, and answers status and
//! data reads exactly as the protocol fixes them, so the driver's wait
//! loops and transfers are verified against explicit device semantics.
//! Polling is iteration-bounded: a device that never leaves the busy
//! state exhausts `POLL_BUDGET` attempts and the operation reports a
//! timeout instead of hanging.

use vstd::prelude::*;

verus! {

/// Base port of the primary cable.
pub const ATA_PRIMARY: u16 = 0x1F0;
/// Base port of the secondary cable.
pub const ATA_SECONDARY: u16 = 0x170;

/// Bytes per sector.
pub const SECTOR_BYTES: usize = 512;

/// How many status polls a wait loop spends before reporting a timeout.
pub const POLL_BUDGET: usize = 100000;

/// Status register: device busy; blocks all other interpretation.
pub const STATUS_BSY: u8 = 0x80;
/// Status register: device ready.
pub const STATUS_DRDY: u8 = 0x40;
/// Status register: data request ready.
pub const STATUS_DRQ: u8 = 0x08;
/// Status register: error and device-fault bits together.
pub const STATUS_ERR_BITS: u8 = 0x21;

/// Command byte: identify device.
pub const CMD_IDENTIFY: u8 = 0xEC;
/// Command byte: read sectors with retries.
pub const CMD_READ_SECTORS: u8 = 0x20;

/// One of the four device slots: two cables, master and slave each.
#[derive(Clone, Copy, Debug, PartialEq, Eq, Structural)]
pub enum AtaDevice {
    Primary,
    Secondary,
    PrimarySlave,
    SecondarySlave,
}

/// Why an ATA operation failed; fault variants carry the status byte.
#[derive(Clone, Copy, Debug, PartialEq, Eq, Structural)]
pub enum AtaError {
    DeviceFault(u8),
    DeviceNotReady(u8),
    DataRequestFailed(u8),
    Timeout,
    InvalidSector,
    NoDevice,
}

/// One modelled drive: whether it answers at all, two fault knobs, its
/// 256 identification words, and its sector store.
pub struct SimDrive {
    /// An absent drive leaves the status register reading zero.
    pub present: bool,
    /// A stuck drive never clears the busy bit, so every poll loop
    /// exhausts its budget.
    pub stuck_busy: bool,
    /// A faulty drive raises the error bits in its status.
    pub faulty: bool,
    /// The 256 words an identify command transfers.
    pub identify: Vec<u16>,
    /// Sector contents, 512 bytes per sector, in address order.
    pub data: Vec<u8>,
}

impl SimDrive {
    /// The drive answers and reports no fault.
    pub open spec fn healthy(&self) -> bool {
        self.present && !self.stuck_busy && !self.faulty
    }

    /// The identification block has its fixed size.
    pub open spec fn wf(&self) -> bool {
        self.identify@.len() == 256
    }

    /// A drive slot with nothing attached.
    pub fn absent() -> (r: SimDrive)
        ensures
            !r.present,
            !r.stuck_busy,
            !r.faulty,
            r.identify@.len() == 256,
            r.data@.len() == 0,
            r.wf(),
    {
        let mut identify: Vec<u16> = Vec::new();
        let mut i: usize = 0;
        while i < 256
            invariant
                i <= 256,
                identify@.len() == i,
            decreases 256 - i,
        {
            identify.push(0);
            i = i + 1;
        }
        SimDrive { present: false, stuck_busy: false, faulty: false, identify, data: Vec::new() }
    }
}

/// The byte stream a device hands out for a sequence of words: for each
/// word the low byte, then the high byte.
pub open spec fn words_to_bytes(words: Seq<u16>) -> Seq<u8> {
    Seq::new(words.len() * 2, |i: int| {
        if i % 2 == 0 {
            (words[i / 2] & 0xFF) as u8
        } else {
            (words[i / 2] >> 8) as u8
        }
    })
}

/// Builds the identify transfer stream of a word block.
fn build_word_stream(words: &Vec<u16>) -> (r: Vec<u8>)
    ensures
        r@ == words_to_bytes(words@),
{
    let mut out: Vec<u8> = Vec::new();
    let mut i: usize = 0;
    while i < words.len()
        invariant
            i <= words@.len(),
            out@.len() == 2 * i,
            forall|j: int| 0 <= j < out@.len() ==> out@[j] == words_to_bytes(words@)[j],
        decreases words@.len() - i,
    {
        let w = words[i];
        out.push((w & 0xFF) as u8);
        out.push((w >> 8) as u8);
        i = i + 1;
    }
    proof {
        assert(out@ =~= words_to_bytes(words@));
    }
    out
}

/// Copies `len` bytes of a store starting at `start`.
fn copy_range(data: &Vec<u8>, start: usize, len: usize) -> (r: Vec<u8>)
    requires
        start + len <= data@.len(),
    ensures
        r@ == data@.subrange(start as int, start as int + len as int),
{
    let mut out: Vec<u8> = Vec::new();
    let n = data.len();
    let mut i: usize = 0;
    while i < len
        invariant
            i <= len,
            n == data@.len(),
            start + len <= n,
            out@.len() == i,
            forall|j: int| 0 <= j < i ==> out@[j] == data@[start + j],
        decreases len - i,
    {
        out.push(data[start + i]);
        i = i + 1;
    }
    proof {
        assert(out@ =~= data@.subrange(start as int, start as int + len as int));
    }
    out
}

/// In-memory model of one cable's register file: the two drive slots,
/// the task-file registers, and the data stream of the command in
/// flight.
pub struct AtaBus {
    /// Base port the registers decode from.
    pub base: u16,
    pub master: SimDrive,
    pub slave: SimDrive,
    /// Last byte written to the drive/head register.
    pub drive_select: u8,
    pub sector_count: u8,
    pub lba_low: u8,
    pub lba_mid: u8,
    pub lba_high: u8,
    /// Bytes the device is ready to hand out on the data port.
    pub transfer: Vec<u8>,
    /// How many of them were already read.
    pub pos: usize,
    /// The last command was rejected (out-of-range read), so the status
    /// shows the error bits until a command succeeds.
    pub cmd_error: bool,
}

impl AtaBus {
    /// Bit 4 of the drive/head register selects the slave drive.
    pub open spec fn selected_slave(&self) -> bool {
        self.drive_select & 0x10 != 0
    }

    /// The drive the register file currently addresses.
    pub open spec fn selected(&self) -> SimDrive {
        if self.selected_slave() {
            self.slave
        } else {
            self.master
        }
    }

    /// Bytes of the in-flight transfer not yet handed out.
    pub open spec fn remaining(&self) -> int {
        self.transfer@.len() - self.pos
    }

    /// The 28-bit sector index held by the task-file registers.
    pub open spec fn lba_index(&self) -> int {
        (self.drive_select & 0x0F) * 0x1000000 + self.lba_high * 0x10000
            + self.lba_mid * 0x100 + self.lba_low
    }

    /// What the status register reads: an absent drive floats to zero; a
    /// stuck drive stays busy; fault bits block everything else; a
    /// pending transfer raises the data-request bit.
    pub open spec fn status(&self) -> u8 {
        if !self.selected().present {
            0
        } else if self.selected().stuck_busy {
            0x80
        } else if self.selected().faulty || self.cmd_error {
            0x41
        } else if self.remaining() > 0 {
            0x48
        } else {
            0x40
        }
    }

    /// The model is consistent: a known base, full identify blocks, and
    /// a read position inside the transfer.
    pub open spec fn wf(&self) -> bool {
        &&& (self.base == ATA_PRIMARY || self.base == ATA_SECONDARY)
        &&& self.master.wf()
        &&& self.slave.wf()
        &&& self.pos <= self.transfer@.len()
    }

    /// A bus with the given drives attached and every register cleared.
    pub fn new(base: u16, master: SimDrive, slave: SimDrive) -> (r: AtaBus)
        requires
            base == ATA_PRIMARY || base == ATA_SECONDARY,
            master.wf(),
            slave.wf(),
        ensures
            r.wf(),
            r.base == base,
            r.master == master,
            r.slave == slave,
            r.drive_select == 0,
            r.sector_count == 0,
            r.lba_low == 0,
            r.lba_mid == 0,
            r.lba_high == 0,
            r.transfer@.len() == 0,
            r.pos == 0,
            !r.cmd_error,
    {
        AtaBus {
            base,
            master,
            slave,
            drive_select: 0,
            sector_count: 0,
            lba_low: 0,
            lba_mid: 0,
            lba_high: 0,
            transfer: Vec::new(),
            pos: 0,
            cmd_error: false,
        }
    }

    /// Reads one byte from a port of the register file.  The status
    /// port answers without side effect; each data-port read hands out
    /// the next transfer byte; other ports float to zero.
    pub fn read8(&mut self, port: u16) -> (r: u8)
        requires
            old(self).wf(),
        ensures
            final(self).wf(),
            final(self).base == old(self).base,
            final(self).master == old(self).master,
            final(self).slave == old(self).slave,
            final(self).drive_select == old(self).drive_select,
            final(self).sector_count == old(self).sector_count,
            final(self).lba_low == old(self).lba_low,
            final(self).lba_mid == old(self).lba_mid,
            final(self).lba_high == old(self).lba_high,
            final(self).transfer@ == old(self).transfer@,
            final(self).cmd_error == old(self).cmd_error,
            port == old(self).base + 7 ==> r == old(self).status()
                && final(self).pos == old(self).pos,
            (port == old(self).base || port == old(self).base + 1) ==> {
                &&& old(self).remaining() > 0 ==> r == old(self).transfer@[old(self).pos as int]
                    && final(self).pos == old(self).pos + 1
                &&& old(self).remaining() == 0 ==> r == 0 && final(self).pos == old(self).pos
            },
            !(port == old(self).base || port == old(self).base + 1
                || port == old(self).base + 7) ==> r == 0 && final(self).pos == old(self).pos,
    {
        if port == self.base + 7 {
            if !(if self.drive_select & 0x10 != 0 { self.slave.present } else { self.master.present }) {
                0
            } else if if self.drive_select & 0x10 != 0 { self.slave.stuck_busy } else { self.master.stuck_busy } {
                0x80
            } else if (if self.drive_select & 0x10 != 0 { self.slave.faulty } else { self.master.faulty }) || self.cmd_error {
                0x41
            } else if self.pos < self.transfer.len() {
                0x48
            } else {
                0x40
            }
        } else if port == self.base || port == self.base + 1 {
            if self.pos < self.transfer.len() {
                let b = self.transfer[self.pos];
                self.pos = self.pos + 1;
                b
            } else {
                0
            }
        } else {
            0
        }
    }

    /// Writes one byte to a port of the register file: the task-file
    /// registers latch their value, and a command byte starts the
    /// matching transfer on the selected drive.  A rejected read (out of
    /// range) latches the error bits; commands to an unhealthy drive
    /// change nothing beyond what its status already shows.
    pub fn write8(&mut self, port: u16, value: u8)
        requires
            old(self).wf(),
        ensures
            final(self).wf(),
            same_drives(*old(self), *final(self)),
            port == old(self).base + 6 ==> final(self).drive_select == value
                && final(self).sector_count == old(self).sector_count
                && final(self).lba_low == old(self).lba_low
                && final(self).lba_mid == old(self).lba_mid
                && final(self).lba_high == old(self).lba_high
                && same_stream(*old(self), *final(self)),
            port == old(self).base + 2 ==> final(self).sector_count == value
                && final(self).drive_select == old(self).drive_select
                && final(self).lba_low == old(self).lba_low
                && final(self).lba_mid == old(self).lba_mid
                && final(self).lba_high == old(self).lba_high
                && same_stream(*old(self), *final(self)),
            port == old(self).base + 3 ==> final(self).lba_low == value
                && final(self).drive_select == old(self).drive_select
                && final(self).sector_count == old(self).sector_count
                && final(self).lba_mid == old(self).lba_mid
                && final(self).lba_high == old(self).lba_high
                && same_stream(*old(self), *final(self)),
            port == old(self).base + 4 ==> final(self).lba_mid == value
                && final(self).drive_select == old(self).drive_select
                && final(self).sector_count == old(self).sector_count
                && final(self).lba_low == old(self).lba_low
                && final(self).lba_high == old(self).lba_high
                && same_stream(*old(self), *final(self)),
            port == old(self).base + 5 ==> final(self).lba_high == value
                && final(self).drive_select == old(self).drive_select
                && final(self).sector_count == old(self).sector_count
                && final(self).lba_low == old(self).lba_low
                && final(self).lba_mid == old(self).lba_mid
                && same_stream(*old(self), *final(self)),
            port == old(self).base + 7 ==> same_regs(*old(self), *final(self)),
            port == old(self).base + 7 && value == CMD_IDENTIFY ==> {
                &&& old(self).selected().healthy() ==> final(self).transfer@
                    == words_to_bytes(old(self).selected().identify@)
                    && final(self).pos == 0 && !final(self).cmd_error
                &&& !old(self).selected().healthy() ==> same_stream(*old(self), *final(self))
            },
            port == old(self).base + 7 && value == CMD_READ_SECTORS ==> ({
                let n: int = if old(self).sector_count == 0 { 256 } else {
                    old(self).sector_count as int
                };
                let start: int = old(self).lba_index() * 512;
                &&& old(self).selected().healthy() && start + n * 512
                    <= old(self).selected().data@.len() ==> final(self).transfer@
                    == old(self).selected().data@.subrange(start, start + n * 512)
                    && final(self).pos == 0 && !final(self).cmd_error
                &&& old(self).selected().healthy() && start + n * 512
                    > old(self).selected().data@.len() ==> final(self).transfer@.len() == 0
                    && final(self).pos == 0 && final(self).cmd_error
                &&& !old(self).selected().healthy() ==> same_stream(*old(self), *final(self))
            }),
            port == old(self).base + 7 && value != CMD_IDENTIFY && value != CMD_READ_SECTORS
                ==> same_stream(*old(self), *final(self)),
            !(port == old(self).base + 2 || port == old(self).base + 3
                || port == old(self).base + 4 || port == old(self).base + 5
                || port == old(self).base + 6 || port == old(self).base + 7)
                ==> same_regs(*old(self), *final(self))
                && same_stream(*old(self), *final(self)),
    {
        if port == self.base + 6 {
            self.drive_select = value;
        } else if port == self.base + 2 {
            self.sector_count = value;
        } else if port == self.base + 3 {
            self.lba_low = value;
        } else if port == self.base + 4 {
            self.lba_mid = value;
        } else if port == self.base + 5 {
            self.lba_high = value;
        } else if port == self.base + 7 {
            let slave_selected = self.drive_select & 0x10 != 0;
            let healthy = if slave_selected {
                self.slave.present && !self.slave.stuck_busy && !self.slave.faulty
            } else {
                self.master.present && !self.master.stuck_busy && !self.master.faulty
            };
            if value == CMD_IDENTIFY {
                if healthy {
                    let stream = if slave_selected {
                        build_word_stream(&self.slave.identify)
                    } else {
                        build_word_stream(&self.master.identify)
                    };
                    self.transfer = stream;
                    self.pos = 0;
                    self.cmd_error = false;
                }
            } else if value == CMD_READ_SECTORS {
                if healthy {
                    let n: u64 = if self.sector_count == 0 { 256 } else {
                        self.sector_count as u64
                    };
                    let index: u64 = ((self.drive_select & 0x0F) as u64) * 0x1000000
                        + (self.lba_high as u64) * 0x10000 + (self.lba_mid as u64) * 0x100
                        + (self.lba_low as u64);
                    let start: u64 = index * 512;
                    let bytes: u64 = n * 512;
                    let store_len: u64 = if slave_selected {
                        self.slave.data.len() as u64
                    } else {
                        self.master.data.len() as u64
                    };
                    if start + bytes <= store_len {
                        let stream = if slave_selected {
                            copy_range(&self.slave.data, start as usize, bytes as usize)
                        } else {
                            copy_range(&self.master.data, start as usize, bytes as usize)
                        };
                        self.transfer = stream;
                        self.pos = 0;
                        self.cmd_error = false;
                    } else {
                        self.transfer = Vec::new();
                        self.pos = 0;
                        self.cmd_error = true;
                    }
                }
            }
        }
    }
}

/// The drive slots and the base port agree between two bus states.
pub open spec fn same_drives(a: AtaBus, b: AtaBus) -> bool {
    b.base == a.base && b.master == a.master && b.slave == a.slave
}

/// The task-file registers agree between two bus states.
pub open spec fn same_regs(a: AtaBus, b: AtaBus) -> bool {
    &&& b.drive_select == a.drive_select
    &&& b.sector_count == a.sector_count
    &&& b.lba_low == a.lba_low
    &&& b.lba_mid == a.lba_mid
    &&& b.lba_high == a.lba_high
}

/// The in-flight transfer agrees between two bus states.
pub open spec fn same_stream(a: AtaBus, b: AtaBus) -> bool {
    b.transfer@ == a.transfer@ && b.pos == a.pos && b.cmd_error == a.cmd_error
}

/// Nothing on the bus differs between two states.
pub open spec fn same_bus(a: AtaBus, b: AtaBus) -> bool {
    same_drives(a, b) && same_regs(a, b) && same_stream(a, b)
}

/// How the masks of the status register decode the five status values
/// the modelled device can show.
proof fn lemma_status_bits()
    ensures
        0u8 & STATUS_BSY == 0 && 0u8 & STATUS_ERR_BITS == 0 && 0u8 & STATUS_DRDY == 0
            && 0u8 & STATUS_DRQ == 0,
        0x80u8 & STATUS_BSY != 0,
        0x41u8 & STATUS_BSY == 0 && 0x41u8 & STATUS_ERR_BITS != 0,
        0x48u8 & STATUS_BSY == 0 && 0x48u8 & STATUS_ERR_BITS == 0 && 0x48u8 & STATUS_DRDY != 0
            && 0x48u8 & STATUS_DRQ != 0,
        0x40u8 & STATUS_BSY == 0 && 0x40u8 & STATUS_ERR_BITS == 0 && 0x40u8 & STATUS_DRDY != 0
            && 0x40u8 & STATUS_DRQ == 0,
{
    assert(0u8 & 0x80 == 0 && 0u8 & 0x21 == 0 && 0u8 & 0x40 == 0 && 0u8 & 0x08 == 0)
        by (bit_vector);
    assert(0x80u8 & 0x80 != 0) by (bit_vector);
    assert(0x41u8 & 0x80 == 0 && 0x41u8 & 0x21 != 0) by (bit_vector);
    assert(0x48u8 & 0x80 == 0 && 0x48u8 & 0x21 == 0 && 0x48u8 & 0x40 != 0 && 0x48u8 & 0x08 != 0)
        by (bit_vector);
    assert(0x40u8 & 0x80 == 0 && 0x40u8 & 0x21 == 0 && 0x40u8 & 0x40 != 0 && 0x40u8 & 0x08 == 0)
        by (bit_vector);
}

/// Driver handle on one device slot: the cable's base port, its control
/// port, and the master/slave select bit.
pub struct AtaController {
    pub base: u16,
    pub ctrl: u16,
    pub is_slave: bool,
}

impl AtaController {
    /// The controller addresses the given bus.
    pub open spec fn on_bus(&self, bus: AtaBus) -> bool {
        self.base == bus.base
    }

    /// The drive this controller addresses on `bus`.
    pub open spec fn drive(&self, bus: AtaBus) -> SimDrive {
        if self.is_slave {
            bus.slave
        } else {
            bus.master
        }
    }

    /// A handle on one of the four device slots.
    pub fn new(device: AtaDevice) -> (r: AtaController)
        ensures
            r.ctrl == r.base + 0x206,
            device == AtaDevice::Primary ==> r.base == ATA_PRIMARY && !r.is_slave,
            device == AtaDevice::PrimarySlave ==> r.base == ATA_PRIMARY && r.is_slave,
            device == AtaDevice::Secondary ==> r.base == ATA_SECONDARY && !r.is_slave,
            device == AtaDevice::SecondarySlave ==> r.base == ATA_SECONDARY && r.is_slave,
            r.base == ATA_PRIMARY || r.base == ATA_SECONDARY,
    {
        let (base, ctrl, is_slave) = match device {
            AtaDevice::Primary => (ATA_PRIMARY, ATA_PRIMARY + 0x206, false),
            AtaDevice::PrimarySlave => (ATA_PRIMARY, ATA_PRIMARY + 0x206, true),
            AtaDevice::Secondary => (ATA_SECONDARY, ATA_SECONDARY + 0x206, false),
            AtaDevice::SecondarySlave => (ATA_SECONDARY, ATA_SECONDARY + 0x206, true),
        };
        AtaController { base, ctrl, is_slave }
    }

    /// Reads the status register of the cable's selected drive.
    fn status(&self, bus: &mut AtaBus) -> (r: u8)
        requires
            old(bus).wf(),
            self.on_bus(*old(bus)),
        ensures
            final(bus).wf(),
            same_bus(*old(bus), *final(bus)),
            final(bus).pos == old(bus).pos,
            r == old(bus).status(),
    {
        bus.read8(self.base + 7)
    }

    /// Polls until the selected drive is ready: not busy, no fault bits,
    /// ready bit set.  The poll is iteration-bounded; a drive that stays
    /// busy — or one that never raises the ready bit, such as an absent
    /// drive — exhausts the budget and the wait reports a timeout.
    fn wait_ready(&self, bus: &mut AtaBus) -> (r: Result<(), AtaError>)
        requires
            old(bus).wf(),
            self.on_bus(*old(bus)),
        ensures
            final(bus).wf(),
            same_bus(*old(bus), *final(bus)),
            final(bus).pos == old(bus).pos,
            (r is Ok) <==> old(bus).selected().healthy() && !old(bus).cmd_error,
            r == Err::<(), AtaError>(AtaError::Timeout) <==> !old(bus).selected().present
                || old(bus).selected().stuck_busy,
            r == Err::<(), AtaError>(AtaError::DeviceFault(0x41)) <==> old(bus).selected().present
                && !old(bus).selected().stuck_busy
                && (old(bus).selected().faulty || old(bus).cmd_error),
    {
        let mut polls: usize = 0;
        while polls < POLL_BUDGET
            invariant
                old(bus).wf(),
                self.on_bus(*old(bus)),
                bus.wf(),
                same_bus(*old(bus), *bus),
                bus.pos == old(bus).pos,
                polls > 0 ==> !old(bus).selected().present || old(bus).selected().stuck_busy,
            decreases POLL_BUDGET - polls,
        {
            let status_byte = self.status(bus);
            proof {
                lemma_status_bits();
            }
            if status_byte & STATUS_BSY == 0 {
                if status_byte & STATUS_ERR_BITS != 0 {
                    return Err(AtaError::DeviceFault(status_byte));
                }
                if status_byte & STATUS_DRDY != 0 {
                    return Ok(());
                }
            }
            polls = polls + 1;
        }
        proof {
            lemma_status_bits();
        }
        Err(AtaError::Timeout)
    }

    /// Polls until the selected drive offers data: not busy, no fault
    /// bits, data-request bit set.  Bounded like `wait_ready`.
    fn wait_data(&self, bus: &mut AtaBus) -> (r: Result<(), AtaError>)
        requires
            old(bus).wf(),
            self.on_bus(*old(bus)),
        ensures
            final(bus).wf(),
            same_bus(*old(bus), *final(bus)),
            final(bus).pos == old(bus).pos,
            (r is Ok) <==> old(bus).selected().healthy() && !old(bus).cmd_error
                && old(bus).remaining() > 0,
            r == Err::<(), AtaError>(AtaError::Timeout) <==> !old(bus).selected().present
                || old(bus).selected().stuck_busy
                || (old(bus).selected().healthy() && !old(bus).cmd_error
                    && old(bus).remaining() == 0),
            r == Err::<(), AtaError>(AtaError::DeviceFault(0x41)) <==> old(bus).selected().present
                && !old(bus).selected().stuck_busy
                && (old(bus).selected().faulty || old(bus).cmd_error),
    {
        let mut polls: usize = 0;
        while polls < POLL_BUDGET
            invariant
                old(bus).wf(),
                self.on_bus(*old(bus)),
                bus.wf(),
                same_bus(*old(bus), *bus),
                bus.pos == old(bus).pos,
                polls > 0 ==> !old(bus).selected().present || old(bus).selected().stuck_busy
                    || (old(bus).selected().healthy() && !old(bus).cmd_error
                        && old(bus).remaining() == 0),
            decreases POLL_BUDGET - polls,
        {
            let status_byte = self.status(bus);
            proof {
                lemma_status_bits();
            }
            if status_byte & STATUS_BSY == 0 {
                if status_byte & STATUS_ERR_BITS != 0 {
                    return Err(AtaError::DeviceFault(status_byte));
                }
                if status_byte & STATUS_DRQ != 0 {
                    return Ok(());
                }
            }
            polls = polls + 1;
        }
        proof {
            lemma_status_bits();
        }
        Err(AtaError::Timeout)
    }

    /// Identifies the addressed drive: selects it, polls until it is not
    /// busy, fails with `NoDevice` on a floating (zero) or faulted
    /// status, and otherwise issues the identify command and reads the
    /// 256 identification words, low byte first.  A device whose first
    /// identification word is zero is also treated as absent.  A drive
    /// stuck busy exhausts the polling budget and reports `Timeout`.
    pub fn identify(&self, bus: &mut AtaBus) -> (r: Result<Vec<u16>, AtaError>)
        requires
            old(bus).wf(),
            self.on_bus(*old(bus)),
        ensures
            final(bus).wf(),
            same_drives(*old(bus), *final(bus)),
            final(bus).sector_count == old(bus).sector_count,
            final(bus).lba_low == old(bus).lba_low,
            final(bus).lba_mid == old(bus).lba_mid,
            final(bus).lba_high == old(bus).lba_high,
            final(bus).drive_select == (if self.is_slave { 0xB0u8 } else { 0xA0u8 }),
            ({
                let d = self.drive(*old(bus));
                &&& ((r is Ok) <==> d.healthy() && !old(bus).cmd_error && d.identify@[0] != 0)
                &&& (r matches Ok(words) ==> words@ == d.identify@)
                &&& ((r == Err::<Vec<u16>, AtaError>(AtaError::Timeout)) <==> (d.present
                        && d.stuck_busy))
                &&& ((r == Err::<Vec<u16>, AtaError>(AtaError::NoDevice)) <==> (!d.present
                        || (d.present && !d.stuck_busy && (d.faulty || old(bus).cmd_error))
                        || (d.healthy() && !old(bus).cmd_error && d.identify@[0] == 0)))
                &&& (d.healthy() && !old(bus).cmd_error ==> final(bus).pos == 512
                        && final(bus).transfer@ == words_to_bytes(d.identify@)
                        && !final(bus).cmd_error)
                &&& (!(d.healthy() && !old(bus).cmd_error) ==> same_stream(
                        *old(bus),
                        *final(bus),
                    ))
            }),
    {
        let ghost d = self.drive(*old(bus));
        let drive_select: u8 = if self.is_slave { 0xB0 } else { 0xA0 };
        proof {
            assert(0xB0u8 & 0x10 != 0) by (bit_vector);
            assert(0xA0u8 & 0x10 == 0) by (bit_vector);
        }
        bus.write8(self.base + 6, drive_select);

        let mut polls: usize = 0;
        let mut status_byte = self.status(bus);
        proof {
            lemma_status_bits();
        }
        while status_byte & STATUS_BSY != 0 && polls < POLL_BUDGET
            invariant
                old(bus).wf(),
                self.on_bus(*old(bus)),
                bus.wf(),
                self.on_bus(*bus),
                same_drives(*old(bus), *bus),
                bus.sector_count == old(bus).sector_count,
                bus.lba_low == old(bus).lba_low,
                bus.lba_mid == old(bus).lba_mid,
                bus.lba_high == old(bus).lba_high,
                bus.drive_select == (if self.is_slave { 0xB0u8 } else { 0xA0u8 }),
                same_stream(*old(bus), *bus),
                bus.selected() == self.drive(*old(bus)),
                status_byte == bus.status(),
            decreases POLL_BUDGET - polls,
        {
            polls = polls + 1;
            status_byte = self.status(bus);
        }
        proof {
            lemma_status_bits();
        }
        if status_byte & STATUS_BSY != 0 {
            return Err(AtaError::Timeout);
        }
        if status_byte == 0 || status_byte & STATUS_ERR_BITS != 0 {
            return Err(AtaError::NoDevice);
        }

        bus.write8(self.base + 7, CMD_IDENTIFY);

        match self.wait_data(bus) {
            Ok(()) => {},
            Err(e) => {
                return Err(e);
            },
        }

        let mut words: Vec<u16> = Vec::new();
        let mut i: usize = 0;
        while i < 256
            invariant
                i <= 256,
                words@.len() == i,
                old(bus).wf(),
                self.on_bus(*old(bus)),
                bus.wf(),
                self.on_bus(*bus),
                same_drives(*old(bus), *bus),
                bus.sector_count == old(bus).sector_count,
                bus.lba_low == old(bus).lba_low,
                bus.lba_mid == old(bus).lba_mid,
                bus.lba_high == old(bus).lba_high,
                bus.drive_select == (if self.is_slave { 0xB0u8 } else { 0xA0u8 }),
                d == self.drive(*old(bus)),
                d.identify@.len() == 256,
                bus.transfer@ == words_to_bytes(d.identify@),
                bus.pos == 2 * i,
                !bus.cmd_error,
                forall|j: int| 0 <= j < i ==> words@[j] == d.identify@[j],
            decreases 256 - i,
        {
            let low = bus.read8(self.base);
            let high = bus.read8(self.base + 1);
            let w: u16 = (low as u16) | ((high as u16) << 8);
            proof {
                let wi = d.identify@[i as int];
                assert(words_to_bytes(d.identify@)[2 * i as int] == (wi & 0xFF) as u8);
                assert(words_to_bytes(d.identify@)[2 * i as int + 1] == (wi >> 8) as u8);
                assert(((((wi & 0xFF) as u8) as u16) | ((((wi >> 8) as u8) as u16) << 8)) == wi)
                    by (bit_vector);
            }
            words.push(w);
            i = i + 1;
        }
        proof {
            assert(words@ =~= d.identify@);
        }
        let first = words[0];
        if first == 0 {
            return Err(AtaError::NoDevice);
        }
        Ok(words)
    }

    /// Reads `count` sectors starting at `lba` into `buffer`, which must
    /// hold exactly 512 bytes per requested sector.  A count of zero or
    /// a sector index above the 28-bit addressing range is rejected with
    /// `InvalidSector` before the device is touched.  The drive is
    /// selected, waited ready, the task file programmed, the read
    /// command issued, and each sector transferred after its own bounded
    /// data wait; bytes arrive low byte first.  On any error the buffer
    /// is untouched.
    pub fn read_sectors(&self, bus: &mut AtaBus, lba: u32, count: u8, buffer: &mut Vec<u8>)
        -> (r: Result<(), AtaError>)
        requires
            old(bus).wf(),
            self.on_bus(*old(bus)),
            old(buffer)@.len() == 512 * count as int,
        ensures
            final(bus).wf(),
            same_drives(*old(bus), *final(bus)),
            final(buffer)@.len() == old(buffer)@.len(),
            count == 0 || lba >= 0x10000000 ==> r == Err::<(), AtaError>(AtaError::InvalidSector)
                && same_regs(*old(bus), *final(bus)) && same_stream(*old(bus), *final(bus))
                && final(buffer)@ == old(buffer)@,
            count >= 1 && lba < 0x10000000 ==> ({
                let d = self.drive(*old(bus));
                let start = lba as int * 512;
                let len = count as int * 512;
                &&& final(bus).drive_select == (0x40u8 | (if self.is_slave { 0x10u8 } else { 0u8 })
                        | (((lba >> 24) as u8) & 0x0F))
                &&& ((r is Ok) <==> d.healthy() && !old(bus).cmd_error
                        && start + len <= d.data@.len())
                &&& (r is Ok ==> final(buffer)@ == d.data@.subrange(start, start + len)
                        && final(bus).sector_count == count
                        && final(bus).lba_low == lba as u8
                        && final(bus).lba_mid == (lba >> 8) as u8
                        && final(bus).lba_high == (lba >> 16) as u8
                        && !final(bus).cmd_error
                        && final(bus).transfer@ == d.data@.subrange(start, start + len)
                        && final(bus).pos == len)
                &&& ((r == Err::<(), AtaError>(AtaError::Timeout)) <==> (!d.present
                        || d.stuck_busy))
                &&& ((r == Err::<(), AtaError>(AtaError::DeviceFault(0x41))) <==> (d.present
                        && !d.stuck_busy && (d.faulty || old(bus).cmd_error
                            || (d.healthy() && !old(bus).cmd_error
                                && start + len > d.data@.len()))))
                &&& (r is Err ==> final(buffer)@ == old(buffer)@)
                &&& (!d.present || d.stuck_busy
                        || (d.present && !d.stuck_busy && (d.faulty || old(bus).cmd_error))
                        ==> same_stream(*old(bus), *final(bus))
                        && final(bus).sector_count == old(bus).sector_count
                        && final(bus).lba_low == old(bus).lba_low
                        && final(bus).lba_mid == old(bus).lba_mid
                        && final(bus).lba_high == old(bus).lba_high)
                &&& (d.healthy() && !old(bus).cmd_error && start + len > d.data@.len()
                        ==> final(bus).cmd_error && final(bus).transfer@.len() == 0
                        && final(bus).pos == 0)
            }),
    {
        let ghost d = self.drive(*old(bus));
        let ghost start = lba as int * 512;
        let ghost len = count as int * 512;
        if count == 0 || lba >= 0x10000000 {
            return Err(AtaError::InvalidSector);
        }
        let select_bit: u8 = if self.is_slave { 0x10 } else { 0 };
        let high_nibble: u8 = ((lba >> 24) as u8) & 0x0F;
        let select_byte: u8 = 0x40 | select_bit | high_nibble;
        proof {
            assert((0x40u8 | 0x10u8 | (((lba >> 24) as u8) & 0x0F)) & 0x10 != 0) by (bit_vector);
            assert((0x40u8 | 0u8 | (((lba >> 24) as u8) & 0x0F)) & 0x10 == 0) by (bit_vector);
        }
        bus.write8(self.base + 6, select_byte);

        match self.wait_ready(bus) {
            Ok(()) => {},
            Err(e) => {
                return Err(e);
            },
        }

        bus.write8(self.base + 2, count);
        bus.write8(self.base + 3, lba as u8);
        bus.write8(self.base + 4, (lba >> 8) as u8);
        bus.write8(self.base + 5, (lba >> 16) as u8);
        proof {
            let sb = select_byte;
            assert((sb & 0x0F) * 0x1000000 + ((lba >> 16) as u8) * 0x10000
                + ((lba >> 8) as u8) * 0x100 + (lba as u8) == lba) by (bit_vector)
                requires
                    lba < 0x10000000,
                    sb == 0x40u8 | 0x10u8 | (((lba >> 24) as u8) & 0x0F)
                        || sb == 0x40u8 | 0u8 | (((lba >> 24) as u8) & 0x0F),
            ;
        }
        bus.write8(self.base + 7, CMD_READ_SECTORS);

        let mut s: usize = 0;
        while s < count as usize
            invariant
                old(bus).wf(),
                self.on_bus(*old(bus)),
                old(buffer)@.len() == 512 * count as int,
                1 <= count,
                lba < 0x10000000,
                s <= count as usize,
                d == self.drive(*old(bus)),
                start == lba as int * 512,
                len == count as int * 512,
                bus.wf(),
                self.on_bus(*bus),
                same_drives(*old(bus), *bus),
                bus.drive_select == (0x40u8 | (if self.is_slave { 0x10u8 } else { 0u8 })
                    | (((lba >> 24) as u8) & 0x0F)),
                bus.selected() == d,
                bus.sector_count == count,
                bus.lba_low == lba as u8,
                bus.lba_mid == (lba >> 8) as u8,
                bus.lba_high == (lba >> 16) as u8,
                d.healthy() && !old(bus).cmd_error,
                buffer@.len() == 512 * count as int,
                start + len <= d.data@.len() ==> bus.transfer@ == d.data@.subrange(
                    start,
                    start + len,
                ) && bus.pos == 512 * s && !bus.cmd_error
                    && (forall|j: int| 0 <= j < 512 * s ==> buffer@[j] == d.data@[start + j]),
                start + len > d.data@.len() ==> s == 0 && bus.cmd_error
                    && bus.transfer@.len() == 0 && bus.pos == 0 && buffer@ == old(buffer)@,
            decreases count as usize - s,
        {
            match self.wait_data(bus) {
                Ok(()) => {},
                Err(e) => {
                    return Err(e);
                },
            }
            let mut k: usize = 0;
            while k < 256
                invariant
                    old(bus).wf(),
                    self.on_bus(*old(bus)),
                    old(buffer)@.len() == 512 * count as int,
                    1 <= count,
                    lba < 0x10000000,
                    s < count as usize,
                    k <= 256,
                    d == self.drive(*old(bus)),
                    start == lba as int * 512,
                    len == count as int * 512,
                    start + len <= d.data@.len(),
                    bus.wf(),
                    self.on_bus(*bus),
                    same_drives(*old(bus), *bus),
                    bus.drive_select == (0x40u8 | (if self.is_slave { 0x10u8 } else { 0u8 })
                        | (((lba >> 24) as u8) & 0x0F)),
                    bus.selected() == d,
                    bus.sector_count == count,
                    bus.lba_low == lba as u8,
                    bus.lba_mid == (lba >> 8) as u8,
                    bus.lba_high == (lba >> 16) as u8,
                    d.healthy() && !old(bus).cmd_error,
                    buffer@.len() == 512 * count as int,
                    bus.transfer@ == d.data@.subrange(start, start + len),
                    bus.pos == 512 * s + 2 * k,
                    !bus.cmd_error,
                    forall|j: int| 0 <= j < 512 * s + 2 * k ==> buffer@[j] == d.data@[start + j],
                decreases 256 - k,
            {
                let low = bus.read8(self.base);
                let high = bus.read8(self.base + 1);
                let off = s * 512 + 2 * k;
                buffer.set(off, low);
                buffer.set(off + 1, high);
                k = k + 1;
            }
            s = s + 1;
        }
        proof {
            assert(buffer@ =~= d.data@.subrange(start, start + len));
        }
        Ok(())
    }
}

/// Caller-side transfer policy: a read request covers at least one and
/// at most eight sectors per call; zero and anything above eight are
/// rejected before the driver is invoked.
pub fn sector_count_allowed(count: u8) -> (r: bool)
    ensures
        r == (1 <= count && count <= 8),
{
    count >= 1 && count <= 8
}

/// The model string carried by identification words 27 to 46: each word
/// holds two ASCII bytes, high byte first.
pub open spec fn spec_model_bytes(words: Seq<u16>) -> Seq<u8> {
    Seq::new(40, |i: int| {
        if i % 2 == 0 {
            (words[27 + i / 2] >> 8) as u8
        } else {
            (words[27 + i / 2] & 0xFF) as u8
        }
    })
}

/// Extracts the 40 model-string bytes from an identification block,
/// swapping each word's bytes back into reading order.
pub fn identify_model_bytes(words: &Vec<u16>) -> (r: Vec<u8>)
    requires
        words@.len() == 256,
    ensures
        r@ == spec_model_bytes(words@),
{
    let mut out: Vec<u8> = Vec::new();
    let mut i: usize = 0;
    while i < 20
        invariant
            i <= 20,
            words@.len() == 256,
            out@.len() == 2 * i,
            forall|j: int| 0 <= j < out@.len() ==> out@[j] == spec_model_bytes(words@)[j],
        decreases 20 - i,
    {
        let w = words[27 + i];
        out.push((w >> 8) as u8);
        out.push((w & 0xFF) as u8);
        i = i + 1;
    }
    proof {
        assert(out@ =~= spec_model_bytes(words@));
    }
    out
}

/// The 28-bit total sector count held by identification words 60 (low
/// word) and 61 (high word).
pub fn identify_total_sectors(words: &Vec<u16>) -> (r: u32)
    requires
        words@.len() == 256,
    ensures
        r == words@[61] * 0x10000 + words@[60],
{
    (words[61] as u32) * 0x10000 + (words[60] as u32)
}

/// Whether identification word 49 advertises logical block addressing
/// (bit 9).
pub fn identify_lba_supported(words: &Vec<u16>) -> (r: bool)
    requires
        words@.len() == 256,
    ensures
        r == (words@[49] & 0x200 != 0),
{
    words[49] & 0x200 != 0
}

/// Whether identification word 49 advertises direct memory access
/// transfers (bit 8).
pub fn identify_dma_supported(words: &Vec<u16>) -> (r: bool)
    requires
        words@.len() == 256,
    ensures
        r == (words@[49] & 0x100 != 0),
{
    words[49] & 0x100 != 0
}

} // verus!
