//! Hard disk card: ProDOS block devices (512-byte blocks) behind a small
//! register interface. Reads and writes move data to and from Apple II RAM
//! by DMA requests that the bus carries out.

use vstd::prelude::*;
use vstd::string::StringSliceAdditionalSpecFns;
use vstd::slice::{slice_subrange, slice_to_vec};
use crate::card::{CardType, DmaWrite, DriveActivity};

verus! {

/// Command completed.
pub const ERR_OK: u8 = 0x00;
/// I/O error (block out of range, short data).
pub const ERR_IO: u8 = 0x27;
/// No disk in the selected drive.
pub const ERR_NO_DEVICE: u8 = 0x28;
/// Command: status.
pub const CMD_STATUS: u8 = 0x00;
/// Command: read a block into RAM.
pub const CMD_READ: u8 = 0x01;
/// Command: write a block from RAM.
pub const CMD_WRITE: u8 = 0x02;
/// ProDOS block size.
pub const BLOCK_SIZE: usize = 512;
/// Number of drives the card serves.
pub const MAX_HD_DRIVES: usize = 8;

/// One block device: the image bytes, block after block.
pub struct HdDrive {
    pub image: Vec<u8>,
}

/// Block `block` of an image, if it lies wholly inside it.
pub open spec fn block_of(image: Seq<u8>, block: int) -> Option<Seq<u8>> {
    if block * 512 + 512 <= image.len() {
        Some(image.subrange(block * 512, block * 512 + 512))
    } else {
        None
    }
}

/// An image after block `block` is written with the first 512 bytes of
/// `data`: grown with zeros to reach the block if needed.
pub open spec fn block_written(image: Seq<u8>, block: int, data: Seq<u8>) -> Seq<u8> {
    let end = block * 512 + 512;
    let grown = if end > image.len() {
        image + Seq::new((end - image.len()) as nat, |i: int| 0u8)
    } else {
        image
    };
    Seq::new(
        grown.len(),
        |i: int| if block * 512 <= i < end { data[i - block * 512] } else { grown[i] },
    )
}

impl HdDrive {
    /// The number of whole blocks.
    pub fn block_count(&self) -> (r: u32)
        ensures
            r == (self.image@.len() / 512) as u32,
    {
        (self.image.len() / BLOCK_SIZE) as u32
    }

    /// Block `block`, if the image holds it.
    pub fn read_block(&self, block: u32) -> (r: Option<&[u8]>)
        requires
            block * 512 + 512 <= usize::MAX,
        ensures
            match r {
                Some(s) => block_of(self.image@, block as int) == Some(s@),
                None => block_of(self.image@, block as int) is None,
            },
    {
        let off = block as usize * BLOCK_SIZE;
        if off + BLOCK_SIZE <= self.image.len() {
            Some(vstd::slice::slice_subrange(self.image.as_slice(), off, off + BLOCK_SIZE))
        } else {
            None
        }
    }

    /// Write block `block` from the first 512 bytes of `data`, growing the
    /// image as needed; false (and no change) if `data` is shorter than a
    /// block.
    pub fn write_block(&mut self, block: u32, data: &[u8]) -> (r: bool)
        requires
            block * 512 + 512 <= usize::MAX,
        ensures
            r == (data@.len() >= 512),
            !r ==> final(self).image@ == old(self).image@,
            r ==> final(self).image@ == block_written(old(self).image@, block as int, data@),
    {
        let off = block as usize * BLOCK_SIZE;
        if data.len() < BLOCK_SIZE {
            return false;
        }
        let ghost img0 = self.image@;
        let needed = off + BLOCK_SIZE;
        while self.image.len() < needed
            invariant
                needed == block * 512 + 512,
                img0.len() <= self.image@.len() <= (if needed > img0.len() { needed as int } else { img0.len() as int }),
                self.image@.subrange(0, img0.len() as int) == img0,
                forall|i: int| img0.len() <= i < self.image@.len() ==> self.image@[i] == 0,
            decreases needed - self.image.len(),
        {
            self.image.push(0);
        }
        let ghost grown = self.image@;
        let mut k: usize = 0;
        while k < BLOCK_SIZE
            invariant
                k <= 512,
                off == block * 512,
                off + 512 <= self.image@.len(),
                data@.len() >= 512,
                self.image@.len() == grown.len(),
                forall|i: int|
                    0 <= i < grown.len() ==> self.image@[i] == (if off <= i < off + k {
                        data@[i - off]
                    } else {
                        grown[i]
                    }),
            decreases 512 - k,
        {
            self.image.set(off + k, data[k]);
            k += 1;
        }
        assert(self.image@ =~= block_written(img0, block as int, data@));
        true
    }
}

/// Reading a block back after writing it gives the data written, and the
/// other blocks keep their contents.
pub proof fn lemma_block_write_read(image: Seq<u8>, block: int, other: int, data: Seq<u8>)
    requires
        0 <= block,
        0 <= other,
        data.len() >= 512,
    ensures
        block_of(block_written(image, block, data), block) == Some(data.subrange(0, 512)),
        other != block && block_of(image, other) is Some ==> block_of(
            block_written(image, block, data),
            other,
        ) == block_of(image, other),
{
    let w = block_written(image, block, data);
    assert(w.subrange(block * 512, block * 512 + 512) =~= data.subrange(0, 512));
    if other != block && block_of(image, other) is Some {
        if other < block {
            assert(other * 512 + 512 <= block * 512) by (nonlinear_arith)
                requires
                    other < block,
            ;
        } else {
            assert(block * 512 + 512 <= other * 512) by (nonlinear_arith)
                requires
                    other > block,
            ;
        }
        assert(w.subrange(other * 512, other * 512 + 512) =~= image.subrange(other * 512, other * 512 + 512));
    }
}

/// The hard disk card.
pub struct HdCard {
    pub slot: usize,
    pub drives: [Option<HdDrive>; 8],
    pub command: u8,
    pub unit: u8,
    pub buf_lo: u8,
    pub buf_hi: u8,
    pub blk_lo: u8,
    pub blk_hi: u8,
    /// Status of the last command (0 or an error code).
    pub status: u8,
    /// DMA write (card to RAM) waiting for the bus after a READ.
    pub dma_write: Option<DmaWrite>,
    /// DMA read (RAM to card) waiting for the bus before a WRITE.
    pub dma_read_req: Option<(u16, u16)>,
    /// Received RAM data for a WRITE.
    pub dma_write_buf: Option<Vec<u8>>,
    /// The block the pending WRITE goes to.
    pub dma_write_blk: Option<u32>,
    /// Update ticks left on the activity light.
    pub activity_ticks: u32,
    /// The last command was a write.
    pub last_was_write: bool,
    /// The card's $Cn00 firmware page.
    pub firmware: [u8; 256],
}

/// The little-endian 32-bit word at `i` of `d`.
pub open spec fn le32_at(d: Seq<u8>, i: int) -> int {
    d[i] + 256 * d[i + 1] + 65536 * d[i + 2] + 16777216 * d[i + 3]
}

/// `d` starts with a 2IMG header: the magic "2IMG" in a header of 64 bytes.
pub open spec fn is_2img(d: Seq<u8>) -> bool {
    d.len() >= 64 && d[0] == 0x32 && d[1] == 0x49 && d[2] == 0x4D && d[3] == 0x47
}

/// The disk image inside `d`: for a 2IMG file the bytes its header points
/// at (data offset at byte 24, data length at byte 28; a length of 0 means
/// up to the end), otherwise, or when the header points past the end, `d`
/// itself.
pub open spec fn unwrapped_2img(d: Seq<u8>) -> Seq<u8> {
    if is_2img(d) {
        let off = le32_at(d, 24);
        let len = le32_at(d, 28);
        if len > 0 && off + len <= d.len() {
            d.subrange(off, off + len)
        } else if len == 0 && off <= d.len() {
            d.subrange(off, d.len() as int)
        } else {
            d
        }
    } else {
        d
    }
}

/// The 32-bit little-endian word at `i` of `d`.
fn read_le32(d: &[u8], i: usize) -> (r: u64)
    requires
        i + 4 <= d@.len(),
    ensures
        r == le32_at(d@, i as int),
{
    assert(i + 4 <= d.len());
    let b0 = d[i] as u64;
    let b1 = d[i + 1] as u64;
    let b2 = d[i + 2] as u64;
    let b3 = d[i + 3] as u64;
    assert(256 * b1 <= 256 * 255 && 65536 * b2 <= 65536 * 255 && 16777216 * b3 <= 16777216 * 255)
        by (nonlinear_arith)
        requires
            b1 <= 255,
            b2 <= 255,
            b3 <= 255,
    ;
    b0 + 256 * b1 + 65536 * b2 + 16777216 * b3
}

/// Strip a 2IMG header from `data`, if it has one.
pub fn unwrap_2img(data: Vec<u8>) -> (r: Vec<u8>)
    ensures
        r@ == unwrapped_2img(data@),
{
    if data.len() >= 64 && data[0] == 0x32 && data[1] == 0x49 && data[2] == 0x4D && data[3] == 0x47 {
        let off = read_le32(data.as_slice(), 24);
        let len = read_le32(data.as_slice(), 28);
        let total = data.len() as u64;
        if len > 0 && off + len <= total {
            let o = off as usize;
            let e = (off + len) as usize;
            return slice_to_vec(slice_subrange(data.as_slice(), o, e));
        } else if len == 0 && off <= total {
            let o = off as usize;
            return slice_to_vec(slice_subrange(data.as_slice(), o, data.len()));
        }
    }
    data
}

/// The extension a disk image inside `d` is loaded by: for a 2IMG file
/// its image format (1 ProDOS order "po", 2 nibbles "nib", otherwise DOS
/// order "dsk"), for any other file `ext`.
pub open spec fn ext_2img(d: Seq<u8>, ext: Seq<u8>) -> Seq<u8> {
    if is_2img(d) {
        let f = le32_at(d, 12);
        if f == 1 {
            "po".spec_bytes()
        } else if f == 2 {
            "nib".spec_bytes()
        } else {
            "dsk".spec_bytes()
        }
    } else {
        ext
    }
}

/// The extension to load the image inside `data` by.
pub fn image_ext<'a>(data: &[u8], ext: &'a str) -> (r: &'a str)
    ensures
        r.spec_bytes() == ext_2img(data@, ext.spec_bytes()),
{
    if data.len() >= 64 && data[0] == 0x32 && data[1] == 0x49 && data[2] == 0x4D && data[3] == 0x47 {
        let f = read_le32(data, 12);
        if f == 1 {
            "po"
        } else if f == 2 {
            "nib"
        } else {
            "dsk"
        }
    } else {
        ext
    }
}

/// The drive the unit register selects: bit 7 (bits 6:4 name the slot).
pub open spec fn drive_index(unit: u8) -> int {
    if unit >= 0x80 {
        1
    } else {
        0
    }
}

/// The buffer address in the registers.
pub open spec fn buf_address(c: HdCard) -> u16 {
    ((c.buf_hi as u16) << 8u16) | (c.buf_lo as u16)
}

/// The block number in the registers.
pub open spec fn block_number(c: HdCard) -> u32 {
    ((c.blk_hi as u32) << 8u32) | (c.blk_lo as u32)
}

/// The block a command addresses is the high register times 256 plus the
/// low one, and the buffer it moves is at the high buffer register times
/// 256 plus the low one.
pub proof fn lemma_block_and_buffer(c: HdCard)
    ensures
        block_number(c) == c.blk_hi as int * 256 + c.blk_lo as int,
        buf_address(c) == c.buf_hi as int * 256 + c.buf_lo as int,
{
    crate::bits::lemma_word(0, 0, c.blk_hi, c.blk_lo);
    crate::bits::lemma_word(0, 0, c.buf_hi, c.buf_lo);
}

/// The number of blocks of drive `d` (0 when empty).
pub open spec fn drive_blocks(c: HdCard, d: int) -> u32 {
    match c.drives@[d] {
        Some(dr) => (dr.image@.len() / 512) as u32,
        None => 0,
    }
}

impl HdCard {
    /// A pending WRITE goes to a 16-bit block number, as the registers give.
    pub open spec fn wf(&self) -> bool {
        self.dma_write_blk matches Some(b) ==> b < 65536
    }

    /// A card in `slot` with no drives and all registers zero. Its firmware
    /// page is zero until `set_firmware` supplies the ROM.
    pub fn new(slot: usize) -> (r: Self)
        ensures
            r.slot == slot,
            forall|d: int| 0 <= d < 8 ==> r.drives@[d] is None,
            r.command == 0 && r.unit == 0 && r.status == 0,
            r.buf_lo == 0 && r.buf_hi == 0 && r.blk_lo == 0 && r.blk_hi == 0,
            r.dma_write is None && r.dma_read_req is None && r.dma_write_blk is None,
            r.activity_ticks == 0 && !r.last_was_write,
            r.wf(),
    {
        Self {
            slot,
            drives: [None, None, None, None, None, None, None, None],
            command: 0,
            unit: 0,
            buf_lo: 0,
            buf_hi: 0,
            blk_lo: 0,
            blk_hi: 0,
            status: 0,
            dma_write: None,
            dma_read_req: None,
            dma_write_buf: None,
            dma_write_blk: None,
            activity_ticks: 0,
            last_was_write: false,
            firmware: [0u8; 256],
        }
    }

    /// Install the firmware ROM page.
    pub fn set_firmware(&mut self, rom: [u8; 256])
        ensures
            final(self).dma_write_blk == old(self).dma_write_blk,
            final(self).firmware == rom,
            final(self).drives@ == old(self).drives@,
    {
        self.firmware = rom;
    }

    /// Insert a disk image (block ordered) into `drive` (0-7); a 2IMG
    /// header is stripped first.
    pub fn load_image(&mut self, drive: usize, data: Vec<u8>)
        ensures
            final(self).dma_write_blk == old(self).dma_write_blk,
            drive >= 8 ==> final(self).drives@ == old(self).drives@,
            drive < 8 ==> final(self).drives@.len() == old(self).drives@.len() && (forall|e: int|
                0 <= e < old(self).drives@.len() && e != drive ==> final(self).drives@[e] == old(self).drives@[e])
                && (final(self).drives@[drive as int] matches Some(d) && d.image@ == unwrapped_2img(data@)),
            final(self).status == old(self).status && final(self).unit == old(self).unit,
    {
        if drive < MAX_HD_DRIVES {
            let image = unwrap_2img(data);
            self.drives.set(drive, Some(HdDrive { image }));
        }
    }

    /// Remove the disk from `drive` (0-7).
    pub fn eject(&mut self, drive: usize)
        ensures
            final(self).dma_write_blk == old(self).dma_write_blk,
            drive >= 8 ==> final(self).drives@ == old(self).drives@,
            drive < 8 ==> final(self).drives@ == old(self).drives@.update(drive as int, None),
    {
        if drive < MAX_HD_DRIVES {
            self.drives.set(drive, None);
        }
    }

    /// The image in `drive`, if any.
    pub fn take_image(&self, drive: usize) -> (r: Option<&[u8]>)
        ensures
            drive >= 8 ==> r is None,
            drive < 8 ==> match self.drives@[drive as int] {
                Some(d) => r matches Some(s) && s@ == d.image@,
                None => r is None,
            },
    {
        if drive >= MAX_HD_DRIVES {
            return None;
        }
        match &self.drives[drive] {
            Some(d) => Some(d.image.as_slice()),
            None => None,
        }
    }

    /// The drive the unit register selects.
    pub fn drive_idx(&self) -> (r: usize)
        ensures
            r as int == drive_index(self.unit),
            r < 2,
    {
        if self.unit >= 0x80 {
            1
        } else {
            0
        }
    }

    /// The buffer address.
    pub fn buf_addr(&self) -> (r: u16)
        ensures
            r == buf_address(*self),
    {
        (self.buf_hi as u16) << 8u16 | self.buf_lo as u16
    }

    /// The block number.
    pub fn blk_num(&self) -> (r: u32)
        ensures
            r == block_number(*self),
            r < 65536,
    {
        let b = (self.blk_hi as u32) << 8u32 | self.blk_lo as u32;
        let h = self.blk_hi;
        let l = self.blk_lo;
        assert(((h as u32) << 8u32 | l as u32) < 65536) by (bit_vector);
        b
    }

    /// The number of blocks of `drive` (0 when empty).
    pub fn block_count(&self, drive: usize) -> (r: u32)
        requires
            drive < 8,
        ensures
            r == drive_blocks(*self, drive as int),
    {
        match &self.drives[drive] {
            Some(d) => d.block_count(),
            None => 0,
        }
    }

    /// Run the command in the registers and give its status. STATUS checks
    /// for a disk; READ queues a DMA write of the block to the buffer
    /// address; WRITE queues a DMA read of 512 bytes from it and remembers
    /// the block; other commands succeed doing nothing. Lights the activity
    /// light for 6 ticks.
    pub fn execute(&mut self) -> (r: u8)
        requires
            old(self).wf(),
        ensures
            final(self).wf(),
            r == final(self).status,
            final(self).activity_ticks == 6,
            final(self).last_was_write == (old(self).command == CMD_WRITE),
            final(self).drives@ == old(self).drives@,
            ({
                let s = *old(self);
                let t = *final(self);
                let d = drive_index(s.unit);
                if s.command == CMD_STATUS {
                    t.status == (if s.drives@[d] is None { ERR_NO_DEVICE } else { ERR_OK })
                        && t.dma_write == s.dma_write && t.dma_read_req == s.dma_read_req
                } else if s.command == CMD_READ {
                    (match s.drives@[d] {
                        None => t.status == ERR_NO_DEVICE && t.dma_write == s.dma_write,
                        Some(dr) => match block_of(dr.image@, block_number(s) as int) {
                            Some(b) => t.status == ERR_OK && (t.dma_write matches Some(w) && w.dest
                                == buf_address(s) && w.data@ == b),
                            None => t.status == ERR_IO && t.dma_write == s.dma_write,
                        },
                    }) && t.dma_read_req == s.dma_read_req
                } else if s.command == CMD_WRITE {
                    t.status == ERR_OK && t.dma_read_req == Some((buf_address(s), 512u16))
                        && t.dma_write_blk == Some(block_number(s)) && t.dma_write == s.dma_write
                } else {
                    t.status == ERR_OK && t.dma_write == s.dma_write && t.dma_read_req == s.dma_read_req
                }
            }),
            final(self).command == old(self).command && final(self).unit == old(self).unit,
            final(self).buf_lo == old(self).buf_lo && final(self).buf_hi == old(self).buf_hi,
            final(self).blk_lo == old(self).blk_lo && final(self).blk_hi == old(self).blk_hi,
    {
        self.activity_ticks = 6;
        self.last_was_write = self.command == CMD_WRITE;
        let drv = self.drive_idx();
        if self.command == CMD_STATUS {
            if self.drives[drv].is_none() {
                self.status = ERR_NO_DEVICE;
            } else {
                self.status = ERR_OK;
            }
            self.status
        } else if self.command == CMD_READ {
            let blk = self.blk_num();
            let dest = self.buf_addr();
            let mut result: Option<Vec<u8>> = None;
            let mut present = false;
            match &self.drives[drv] {
                Some(drive) => {
                    present = true;
                    match drive.read_block(blk) {
                        Some(data) => {
                            result = Some(vstd::slice::slice_to_vec(data));
                        },
                        None => {},
                    }
                },
                None => {},
            }
            if present {
                match result {
                    Some(data) => {
                        self.dma_write = Some(DmaWrite { dest, data });
                        self.status = ERR_OK;
                    },
                    None => {
                        self.status = ERR_IO;
                    },
                }
            } else {
                self.status = ERR_NO_DEVICE;
            }
            self.status
        } else if self.command == CMD_WRITE {
            self.dma_read_req = Some((self.buf_addr(), BLOCK_SIZE as u16));
            self.dma_write_blk = Some(self.blk_num());
            self.status = ERR_OK;
            self.status
        } else {
            self.status = ERR_OK;
            self.status
        }
    }

    /// The card type: generic hard disk.
    pub fn card_type(&self) -> (r: CardType)
        ensures
            r == CardType::GenericHdd,
    {
        CardType::GenericHdd
    }

    /// The slot number.
    pub fn slot(&self) -> (r: usize)
        ensures
            r == self.slot,
    {
        self.slot
    }

    /// The card after a read of its ROM page at `offset`, and the byte `r` read.
    pub open spec fn io_read_post(self, offset: u8, cycles: u64, next: Self, r: u8) -> bool {
        &&& r == self.firmware@[offset as int]
        &&& next == self
    }

    /// A read of the firmware page.
    pub fn io_read(&mut self, offset: u8, cycles: u64) -> (r: u8)
        ensures
            old(self).io_read_post(offset, cycles, *final(self), r),
    {
        self.firmware[offset as usize]
    }

    /// The card's $Cn00 ROM page.
    pub fn cx_rom(&self) -> (r: Option<&[u8; 256]>)
        ensures
            r matches Some(rom) && *rom == self.firmware,
    {
        Some(&self.firmware)
    }

    /// The card after a read of its register `reg`, and the byte `r` read.
    pub open spec fn slot_io_read_post(self, reg: u8, cycles: u64, next: Self, r: u8) -> bool {
        &&& next.wf()
        &&& reg == 0x0 ==> r == next.status && next.activity_ticks == 6
        &&& reg != 0x0 ==> next.status == self.status && next.dma_write == self.dma_write
            && next.drives@ == self.drives@
        &&& reg == 0x1 ==> r == self.status
        &&& reg == 0x2 ==> r == self.command
        &&& reg == 0x3 ==> r == self.unit
        &&& reg == 0x4 ==> r == self.buf_lo
        &&& reg == 0x5 ==> r == self.buf_hi
        &&& reg == 0x6 ==> r == self.blk_lo
        &&& reg == 0x7 ==> r == self.blk_hi
        &&& reg == 0x9 ==> r == (drive_blocks(self, drive_index(self.unit)) & 0xFF) as u8
        &&& reg == 0xA ==> r == ((drive_blocks(self, drive_index(self.unit)) >> 8u32) & 0xFF) as u8
        &&& reg == 0x8 || reg > 0xA ==> r == 0xFF
    }

    /// A read of the registers: 0 executes the command and gives its
    /// status; 1-7 read status, command, unit, buffer and block bytes; 9
    /// and A the size of the selected drive in blocks (low, high byte);
    /// others 0xFF.
    pub fn slot_io_read(&mut self, reg: u8, cycles: u64) -> (r: u8)
        requires
            old(self).wf(),
        ensures
            old(self).slot_io_read_post(reg, cycles, *final(self), r),
    {
        if reg == 0x0 {
            self.execute()
        } else if reg == 0x1 {
            self.status
        } else if reg == 0x2 {
            self.command
        } else if reg == 0x3 {
            self.unit
        } else if reg == 0x4 {
            self.buf_lo
        } else if reg == 0x5 {
            self.buf_hi
        } else if reg == 0x6 {
            self.blk_lo
        } else if reg == 0x7 {
            self.blk_hi
        } else if reg == 0x9 {
            let bc = self.block_count(self.drive_idx());
            (bc & 0xFF) as u8
        } else if reg == 0xA {
            let bc = self.block_count(self.drive_idx());
            ((bc >> 8u32) & 0xFF) as u8
        } else {
            0xFF
        }
    }

    /// The card after a write of `value` to its register `reg`.
    pub open spec fn slot_io_write_post(self, reg: u8, val: u8, cycles: u64, next: Self) -> bool {
        &&& next.dma_write_blk == self.dma_write_blk
        &&& next.command == (if reg == 0x2 { val } else { self.command })
        &&& next.unit == (if reg == 0x3 { val } else { self.unit })
        &&& next.buf_lo == (if reg == 0x4 { val } else { self.buf_lo })
        &&& next.buf_hi == (if reg == 0x5 { val } else { self.buf_hi })
        &&& next.blk_lo == (if reg == 0x6 { val } else { self.blk_lo })
        &&& next.blk_hi == (if reg == 0x7 { val } else { self.blk_hi })
        &&& next.status == self.status
        &&& next.drives@ == self.drives@
        &&& next == (HdCard { command: next.command, unit: next.unit, buf_lo: next.buf_lo, buf_hi: next.buf_hi, blk_lo: next.blk_lo, blk_hi: next.blk_hi, ..self })
    }

    /// A write of registers 2-7 (command, unit, buffer and block bytes).
    pub fn slot_io_write(&mut self, reg: u8, val: u8, cycles: u64)
        ensures
            old(self).slot_io_write_post(reg, val, cycles, *final(self)),
    {
        if reg == 0x2 {
            self.command = val;
        } else if reg == 0x3 {
            self.unit = val;
        } else if reg == 0x4 {
            self.buf_lo = val;
        } else if reg == 0x5 {
            self.buf_hi = val;
        } else if reg == 0x6 {
            self.blk_lo = val;
        } else if reg == 0x7 {
            self.blk_hi = val;
        }
    }

    /// The card after its pending DMA write `r` is taken.
    pub open spec fn take_dma_write_post(self, next: Self, r: Option<DmaWrite>) -> bool {
        &&& next.dma_write_blk == self.dma_write_blk
        &&& r == self.dma_write
        &&& next.dma_write is None
        &&& next.drives@ == self.drives@
        &&& next == (HdCard { dma_write: None, ..self })
    }

    /// Hand the bus the pending DMA write, if any.
    pub fn take_dma_write(&mut self) -> (r: Option<DmaWrite>)
        ensures
            old(self).take_dma_write_post(*final(self), r),
    {
        self.dma_write.take()
    }

    /// The card after its pending DMA read request `r` is taken.
    pub open spec fn take_dma_read_request_post(self, next: Self, r: Option<(u16, u16)>) -> bool {
        &&& next.dma_write_blk == self.dma_write_blk
        &&& r == self.dma_read_req
        &&& next.dma_read_req is None
        &&& next.drives@ == self.drives@
        &&& next == (HdCard { dma_read_req: None, ..self })
    }

    /// Hand the bus the pending DMA read request (address, length), if any.
    pub fn take_dma_read_request(&mut self) -> (r: Option<(u16, u16)>)
        ensures
            old(self).take_dma_read_request_post(*final(self), r),
    {
        self.dma_read_req.take()
    }

    /// The card after it is handed the bytes `data` its DMA read asked for.
    pub open spec fn dma_read_complete_post(self, data: Seq<u8>, next: Self) -> bool {
        &&& next.wf()
        &&& next.dma_write_blk is None
        &&& ({
            let s = self;
            let t = next;
            let d = drive_index(s.unit);
            match s.dma_write_blk {
                None => t.drives@ == s.drives@ && t.status == s.status,
                Some(blk) => match s.drives@[d] {
                    None => t.drives@ == s.drives@ && t.status == ERR_NO_DEVICE,
                    Some(dr) => t.status == (if data.len() >= 512 { s.status } else { ERR_IO })
                        && t.drives@.len() == 8 && (forall|e: int|
                        0 <= e < 8 && e != d ==> t.drives@[e] == s.drives@[e]) && (t.drives@[d]
                        matches Some(nd) && nd.image@ == (if data.len() >= 512 {
                        block_written(dr.image@, blk as int, data)
                    } else {
                        dr.image@
                    })),
                },
            }
        })
    }

    /// The bus delivers the RAM bytes for a pending WRITE: the block is
    /// written to the selected drive (I/O error if `data` is short, no
    /// device if the drive is empty).
    pub fn dma_read_complete(&mut self, data: &[u8])
        requires
            old(self).wf(),
        ensures
            old(self).dma_read_complete_post(data@, *final(self)),
    {
        match self.dma_write_blk.take() {
            Some(blk) => {
                let drv = self.drive_idx();
                let ghost before = self.drives@;
                let slot = self.drives[drv].take();
                match slot {
                    Some(mut drive) => {
                        if !drive.write_block(blk, data) {
                            self.status = ERR_IO;
                        }
                        self.drives.set(drv, Some(drive));
                    },
                    None => {
                        self.status = ERR_NO_DEVICE;
                        assert(self.drives@ =~= before);
                    },
                }
            },
            None => {},
        }
    }

    /// The card after a reset (`power_cycle` for a power cycle).
    pub open spec fn reset_post(self, power_cycle: bool, next: Self) -> bool {
        &&& next.command == 0 && next.status == 0
        &&& next.dma_write is None && next.dma_read_req is None
        &&& next.dma_write_buf is None && next.dma_write_blk is None
        &&& next.drives@ == self.drives@
        &&& next == (HdCard { command: 0, status: 0, dma_write: None, dma_read_req: None, dma_write_buf: None, dma_write_blk: None, ..self })
    }

    /// Reset: command and status cleared, pending transfers dropped.
    pub fn reset(&mut self, power_cycle: bool)
        ensures
            old(self).reset_post(power_cycle, *final(self)),
    {
        self.command = 0;
        self.status = 0;
        self.dma_write = None;
        self.dma_read_req = None;
        self.dma_write_buf = None;
        self.dma_write_blk = None;
    }

    /// The card after its periodic update at cycle `cycles`.
    pub open spec fn update_post(self, cycles: u64, next: Self) -> bool {
        &&& next.dma_write_blk == self.dma_write_blk
        &&& next.activity_ticks == (if self.activity_ticks > 0 { self.activity_ticks - 1 } else { 0 })
        &&& next.drives@ == self.drives@
        &&& next == (HdCard { activity_ticks: next.activity_ticks, ..self })
    }

    /// One update tick: the activity light counts down.
    pub fn update(&mut self, cycles: u64)
        ensures
            old(self).update_post(cycles, *final(self)),
    {
        self.activity_ticks = self.activity_ticks.saturating_sub(1);
    }

    /// The activity light: on while ticks remain, "writing" when the last
    /// command was a write.
    pub fn disk_drive_activity(&self, drive: usize) -> (r: DriveActivity)
        ensures
            r.motor_on == (self.activity_ticks > 0),
            r.writing == (self.activity_ticks > 0 && self.last_was_write),
            r.track == 0,
    {
        DriveActivity {
            motor_on: self.activity_ticks > 0,
            writing: self.activity_ticks > 0 && self.last_was_write,
            track: 0,
        }
    }
}

} // verus!
