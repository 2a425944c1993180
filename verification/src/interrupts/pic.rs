//! The pair of 8259 interrupt controllers.
//!
//! The master serves IRQ 0..7, the slave IRQ 8..15; the slave is wired to line
//! 2 of the master. Each operation yields the port writes that carry it out.
//! Where an operation depends on the mask registers, the caller reads them
//! from the two data ports first and passes them in.

use super::port::{byte_write, Port, PortWrite};
use vstd::prelude::*;

verus! {

/// Command port of the master.
pub const PIC1_COMMAND: u16 = 0x20;

/// Data port of the master.
pub const PIC1_DATA: u16 = 0x21;

/// Command port of the slave.
pub const PIC2_COMMAND: u16 = 0xA0;

/// Data port of the slave.
pub const PIC2_DATA: u16 = 0xA1;

/// Port whose only use is the short delay that a write to it takes.
pub const WAIT_PORT: u16 = 0x80;

/// ICW1: start the initialization sequence.
pub const ICW1_INIT: u8 = 0x10;

/// ICW1: a fourth initialization word follows.
pub const ICW1_ICW4: u8 = 0x01;

/// ICW4: 8086 mode.
pub const ICW4_8086: u8 = 0x01;

/// The end-of-interrupt command.
pub const EOI: u8 = 0x20;

/// ICW3 of the master: a slave sits on line 2.
pub const MASTER_CASCADE: u8 = 4;

/// ICW3 of the slave: its cascade identity.
pub const SLAVE_IDENTITY: u8 = 2;

/// The two interrupt mask registers. A set bit masks the line.
#[derive(Debug, Clone, Copy, PartialEq, Eq, Structural)]
pub struct PicMasks {
    /// Mask register of the master: lines 0..7.
    pub master: u8,
    /// Mask register of the slave: lines 8..15.
    pub slave: u8,
}

/// The delay between two initialization words.
pub open spec fn wait_write() -> PortWrite {
    byte_write(WAIT_PORT, 0)
}

/// The initialization of both controllers with the vector offsets `offset1`
/// and `offset2`: four words each, the two controllers in turn and a delay
/// after every word, then the masks that were saved before.
pub open spec fn init_writes(offset1: u8, offset2: u8, saved: PicMasks) -> Seq<PortWrite> {
    seq![
        byte_write(PIC1_COMMAND, 0x11),
        wait_write(),
        byte_write(PIC2_COMMAND, 0x11),
        wait_write(),
        byte_write(PIC1_DATA, offset1),
        wait_write(),
        byte_write(PIC2_DATA, offset2),
        wait_write(),
        byte_write(PIC1_DATA, MASTER_CASCADE),
        wait_write(),
        byte_write(PIC2_DATA, SLAVE_IDENTITY),
        wait_write(),
        byte_write(PIC1_DATA, ICW4_8086),
        wait_write(),
        byte_write(PIC2_DATA, ICW4_8086),
        wait_write(),
        byte_write(PIC1_DATA, saved.master),
        byte_write(PIC2_DATA, saved.slave),
    ]
}

/// The acknowledgement of `irq`: the master always gets one, the slave too,
/// and first, where the interrupt came through it.
pub open spec fn eoi_writes(irq: u8) -> Seq<PortWrite> {
    if irq >= 8 {
        seq![byte_write(PIC2_COMMAND, EOI), byte_write(PIC1_COMMAND, EOI)]
    } else {
        seq![byte_write(PIC1_COMMAND, EOI)]
    }
}

/// The mask registers after line `irq` was unmasked: its bit is cleared, and
/// for a line of the slave so is bit 2 of the master, through which the slave
/// reports.
pub open spec fn unmasked(masks: PicMasks, irq: u8) -> PicMasks
    recommends
        irq < 16,
{
    if irq < 8 {
        PicMasks { master: masks.master & !(1u8 << irq), slave: masks.slave }
    } else {
        PicMasks {
            master: masks.master & !(1u8 << 2u8),
            slave: masks.slave & !(1u8 << ((irq - 8) as u8)),
        }
    }
}

/// The mask registers after line `irq` was masked: its bit is set in the
/// register of its controller. Lines from 8 on belong to the slave.
pub open spec fn masked(masks: PicMasks, irq: u8) -> PicMasks {
    if irq < 8 {
        PicMasks { master: masks.master | (1u8 << (irq % 8)), slave: masks.slave }
    } else {
        PicMasks { master: masks.master, slave: masks.slave | (1u8 << (irq % 8)) }
    }
}

/// The writes that unmask line `irq`.
pub open spec fn unmask_writes(masks: PicMasks, irq: u8) -> Seq<PortWrite>
    recommends
        irq < 16,
{
    if irq < 8 {
        seq![byte_write(PIC1_DATA, unmasked(masks, irq).master)]
    } else {
        seq![
            byte_write(PIC1_DATA, unmasked(masks, irq).master),
            byte_write(PIC2_DATA, unmasked(masks, irq).slave),
        ]
    }
}

/// The write that masks line `irq`.
pub open spec fn mask_writes(masks: PicMasks, irq: u8) -> Seq<PortWrite> {
    if irq < 8 {
        seq![byte_write(PIC1_DATA, masked(masks, irq).master)]
    } else {
        seq![byte_write(PIC2_DATA, masked(masks, irq).slave)]
    }
}

/// What a write does to the mask registers of initialized controllers: a
/// byte written to a data port becomes the mask of that controller.
pub open spec fn masks_after_write(masks: PicMasks, write: PortWrite) -> PicMasks {
    if write.port == PIC1_DATA {
        PicMasks { master: write.value as u8, slave: masks.slave }
    } else if write.port == PIC2_DATA {
        PicMasks { master: masks.master, slave: write.value as u8 }
    } else {
        masks
    }
}

/// What a sequence of writes does to the mask registers.
pub open spec fn masks_after(masks: PicMasks, writes: Seq<PortWrite>) -> PicMasks
    decreases writes.len(),
{
    if writes.len() == 0 {
        masks
    } else {
        masks_after_write(masks_after(masks, writes.drop_last()), writes.last())
    }
}

/// Unmasking a line of the slave clears its bit in the slave's mask register
/// and bit 2 in the master's, whatever the masks were; every other bit stays.
pub proof fn lemma_unmask_slave_line(masks: PicMasks, irq: u8)
    requires
        8 <= irq < 16,
    ensures
        masks_after(masks, unmask_writes(masks, irq)) == unmasked(masks, irq),
        unmasked(masks, irq).slave & (1u8 << ((irq - 8) as u8)) == 0,
        unmasked(masks, irq).master & (1u8 << 2u8) == 0,
        unmasked(masks, irq).slave | (1u8 << ((irq - 8) as u8)) == masks.slave | (1u8 << ((irq
            - 8) as u8)),
        unmasked(masks, irq).master | (1u8 << 2u8) == masks.master | (1u8 << 2u8),
{
    let ws = unmask_writes(masks, irq);
    assert(ws.drop_last() =~= seq![byte_write(PIC1_DATA, unmasked(masks, irq).master)]);
    assert(ws.drop_last().drop_last() =~= Seq::<PortWrite>::empty());
    reveal_with_fuel(masks_after, 3);
    let m = masks.master;
    let s = masks.slave;
    let line = (irq - 8) as u8;
    assert((s & !(1u8 << line)) & (1u8 << line) == 0 && (m & !(1u8 << 2u8)) & (1u8 << 2u8) == 0
        && (s & !(1u8 << line)) | (1u8 << line) == s | (1u8 << line) && (m & !(1u8 << 2u8)) | (1u8
        << 2u8) == m | (1u8 << 2u8)) by (bit_vector);
}

/// Unmasking a line of the master clears its bit and nothing else, and leaves
/// the slave alone.
pub proof fn lemma_unmask_master_line(masks: PicMasks, irq: u8)
    requires
        irq < 8,
    ensures
        masks_after(masks, unmask_writes(masks, irq)) == unmasked(masks, irq),
        unmasked(masks, irq).slave == masks.slave,
        unmasked(masks, irq).master & (1u8 << irq) == 0,
        unmasked(masks, irq).master | (1u8 << irq) == masks.master | (1u8 << irq),
{
    let ws = unmask_writes(masks, irq);
    assert(ws.drop_last() =~= Seq::<PortWrite>::empty());
    reveal_with_fuel(masks_after, 2);
    let m = masks.master;
    assert((m & !(1u8 << irq)) & (1u8 << irq) == 0 && (m & !(1u8 << irq)) | (1u8 << irq) == m | (
    1u8 << irq)) by (bit_vector);
}

/// One 8259 controller.
struct Pic {
    offset: u8,
    command: Port<u8>,
    data: Port<u8>,
}

impl Pic {
    /// The controller with the vector offset `offset` at the two ports.
    fn new(offset: u8, command_port: u16, data_port: u16) -> (r: Self)
        ensures
            r.offset == offset,
            r.command.addr() == command_port,
            r.data.addr() == data_port,
    {
        Self { offset, command: Port::new(command_port), data: Port::new(data_port) }
    }

    /// The end-of-interrupt command for this controller.
    fn end_of_interrupt(&mut self) -> (r: PortWrite)
        ensures
            r == byte_write(old(self).command.addr(), EOI),
            final(self).offset == old(self).offset,
            final(self).command.addr() == old(self).command.addr(),
            final(self).data.addr() == old(self).data.addr(),
    {
        self.command.write(EOI)
    }

    /// The write that makes `mask` the mask register of this controller.
    fn set_mask(&mut self, mask: u8) -> (r: PortWrite)
        ensures
            r == byte_write(old(self).data.addr(), mask),
            final(self).offset == old(self).offset,
            final(self).command.addr() == old(self).command.addr(),
            final(self).data.addr() == old(self).data.addr(),
    {
        self.data.write(mask)
    }
}

/// The master and the slave controller.
pub struct ChainedPics {
    master: Pic,
    slave: Pic,
}

impl ChainedPics {
    /// Vector offset of the master: IRQ 0 arrives as this vector.
    pub closed spec fn master_offset(self) -> u8 {
        self.master.offset
    }

    /// Vector offset of the slave: IRQ 8 arrives as this vector.
    pub closed spec fn slave_offset(self) -> u8 {
        self.slave.offset
    }

    /// The controllers sit at their fixed ports.
    pub closed spec fn wf(self) -> bool {
        &&& self.master.command.addr() == PIC1_COMMAND
        &&& self.master.data.addr() == PIC1_DATA
        &&& self.slave.command.addr() == PIC2_COMMAND
        &&& self.slave.data.addr() == PIC2_DATA
    }

    /// `next` is the same pair of controllers.
    pub open spec fn same_as(self, next: ChainedPics) -> bool {
        &&& next.wf() == self.wf()
        &&& next.master_offset() == self.master_offset()
        &&& next.slave_offset() == self.slave_offset()
    }

    /// The pair with the given vector offsets. Nothing is programmed yet.
    pub fn new(offset1: u8, offset2: u8) -> (r: Self)
        ensures
            r.wf(),
            r.master_offset() == offset1,
            r.slave_offset() == offset2,
    {
        Self {
            master: Pic::new(offset1, PIC1_COMMAND, PIC1_DATA),
            slave: Pic::new(offset2, PIC2_COMMAND, PIC2_DATA),
        }
    }

    /// The writes that initialize both controllers and then restore `saved`,
    /// the masks read before: the sequence by itself would clear them.
    pub fn initialize(&mut self, saved: PicMasks) -> (r: Vec<PortWrite>)
        requires
            old(self).wf(),
        ensures
            old(self).same_as(*final(self)),
            r@ == init_writes(old(self).master_offset(), old(self).slave_offset(), saved),
    {
        let mut w: Vec<PortWrite> = Vec::new();
        w.push(self.master.command.write(ICW1_INIT | ICW1_ICW4));
        w.push(io_wait());
        w.push(self.slave.command.write(ICW1_INIT | ICW1_ICW4));
        w.push(io_wait());
        w.push(self.master.data.write(self.master.offset));
        w.push(io_wait());
        w.push(self.slave.data.write(self.slave.offset));
        w.push(io_wait());
        w.push(self.master.data.write(MASTER_CASCADE));
        w.push(io_wait());
        w.push(self.slave.data.write(SLAVE_IDENTITY));
        w.push(io_wait());
        w.push(self.master.data.write(ICW4_8086));
        w.push(io_wait());
        w.push(self.slave.data.write(ICW4_8086));
        w.push(io_wait());
        w.push(self.master.set_mask(saved.master));
        w.push(self.slave.set_mask(saved.slave));
        proof {
            assert(ICW1_INIT | ICW1_ICW4 == 0x11) by (bit_vector);
            assert(w@ =~= init_writes(
                old(self).master_offset(),
                old(self).slave_offset(),
                saved,
            ));
        }
        w
    }

    /// The writes that acknowledge `irq`.
    pub fn notify_end_of_interrupt(&mut self, irq: u8) -> (r: Vec<PortWrite>)
        requires
            old(self).wf(),
        ensures
            old(self).same_as(*final(self)),
            r@ == eoi_writes(irq),
    {
        let mut w: Vec<PortWrite> = Vec::new();
        if irq >= 8 {
            w.push(self.slave.end_of_interrupt());
        }
        w.push(self.master.end_of_interrupt());
        assert(w@ =~= eoi_writes(irq));
        w
    }

    /// The writes that unmask line `irq`, which is below 16, given the masks
    /// as they stand. For a line of the slave the cascade line of the master
    /// is unmasked too: masked, it would block every line of the slave.
    pub fn unmask(&mut self, irq: u8, masks: PicMasks) -> (r: Vec<PortWrite>)
        requires
            old(self).wf(),
            irq < 16,
        ensures
            old(self).same_as(*final(self)),
            r@ == unmask_writes(masks, irq),
            masks_after(masks, r@) == unmasked(masks, irq),
    {
        let mut w: Vec<PortWrite> = Vec::new();
        if irq >= 8 {
            let m = masks.master & !(1u8 << 2);
            w.push(self.master.set_mask(m));
        }
        if irq < 8 {
            let mask = masks.master & !(1u8 << irq);
            w.push(self.master.set_mask(mask));
        } else {
            let mask = masks.slave & !(1u8 << (irq - 8));
            w.push(self.slave.set_mask(mask));
        }
        proof {
            assert(w@ =~= unmask_writes(masks, irq));
            if irq < 8 {
                lemma_unmask_master_line(masks, irq);
            } else {
                lemma_unmask_slave_line(masks, irq);
            }
        }
        w
    }

    /// The write that masks line `irq`, given the masks as they stand.
    pub fn mask(&mut self, irq: u8, masks: PicMasks) -> (r: Vec<PortWrite>)
        requires
            old(self).wf(),
        ensures
            old(self).same_as(*final(self)),
            r@ == mask_writes(masks, irq),
            masks_after(masks, r@) == masked(masks, irq),
    {
        let line = irq % 8;
        let mut w: Vec<PortWrite> = Vec::new();
        if irq < 8 {
            let mask = masks.master | (1u8 << line);
            w.push(self.master.set_mask(mask));
        } else {
            let mask = masks.slave | (1u8 << line);
            w.push(self.slave.set_mask(mask));
        }
        proof {
            assert(w@ =~= mask_writes(masks, irq));
            assert(w@.drop_last() =~= Seq::<PortWrite>::empty());
            reveal_with_fuel(masks_after, 2);
        }
        w
    }
}

/// The short delay that old controllers need between two words: a write to
/// an unused port.
fn io_wait() -> (r: PortWrite)
    ensures
        r == wait_write(),
{
    let mut port: Port<u8> = Port::new(WAIT_PORT);
    port.write(0)
}

} // verus!
