//! Chunk planning for the serial flash chip.
//!
//! The flash accepts writes of at most one page at a time, and a write
//! must not cross a page boundary; erasure proceeds sector by sector.
//! The planners here compute, from an address and a length, exactly
//! which page-sized chunks are written and which sectors are erased —
//! the transport that issues the commands consumes these plans.

use vstd::prelude::*;

verus! {

/// Sector size of the memory array, in bytes.
pub const SECTOR_SIZE: u32 = 4096;

/// Page size of the memory array, in bytes: the largest single write.
pub const PAGE_SIZE: u32 = 256;

/// Highest usable address of the memory array.
pub const MAX_ADDRESS: u32 = 0x7FFFFF;

/// Write-in-progress bit of the status register.
pub const STATUS_BIT_WIP: u8 = 1;

/// Whether a status-register value reports a write still in progress;
/// the write path polls until this clears.
pub fn write_in_progress(status: u8) -> (r: bool)
    ensures
        r == (status & STATUS_BIT_WIP != 0),
{
    status & STATUS_BIT_WIP != 0
}

/// One chunk of a write: `len` bytes of the data, starting at offset
/// `start` within the data, written to `address`.
#[derive(Clone, Copy, Debug, PartialEq, Eq, Structural)]
pub struct WriteChunk {
    /// Flash address the chunk is written to.
    pub address: u32,
    /// Offset of the chunk within the data being written.
    pub start: u32,
    /// Number of bytes in the chunk.
    pub len: u32,
}

/// The page-sized chunking of a write: each chunk reaches at most the
/// end of the page its address lies in; every chunk but the last fills
/// its page to the end, and the next chunk continues at the following
/// page (wrapped at the top of the array, as the transport does).
pub open spec fn write_plan(address: u32, length: u32, start: u32) -> Seq<WriteChunk>
    decreases length,
{
    let page_remainder = (PAGE_SIZE - address % PAGE_SIZE) as u32;
    if length <= page_remainder {
        seq![WriteChunk { address, start, len: length }]
    } else {
        seq![WriteChunk { address, start, len: page_remainder }] + write_plan(
            ((address + page_remainder) % (MAX_ADDRESS as int)) as u32,
            (length - page_remainder) as u32,
            (start + page_remainder) as u32,
        )
    }
}

/// The sectors a range touches, in erase order: the sector holding the
/// address first, then sector by sector until the remaining length fits
/// in the current one (wrapped at the top of the array, as the
/// transport does).
pub open spec fn erase_plan(address: u32, length: u32) -> Seq<u32>
    decreases length,
{
    let sector_remainder = (SECTOR_SIZE - address % SECTOR_SIZE) as u32;
    if length <= sector_remainder {
        seq![address]
    } else {
        seq![address] + erase_plan(
            ((address + sector_remainder) % (MAX_ADDRESS as int)) as u32,
            (length - sector_remainder) as u32,
        )
    }
}

/// Computes the page-sized chunks of a write of `data_len` bytes to
/// `address`.
pub fn plan_write(address: u32, data_len: u32) -> (r: Vec<WriteChunk>)
    requires
        address <= MAX_ADDRESS,
        data_len >= 1,
    ensures
        r@ == write_plan(address, data_len, 0),
{
    let mut chunks: Vec<WriteChunk> = Vec::new();
    let mut addr = address;
    let mut length = data_len;
    let mut start: u32 = 0;
    loop
        invariant_except_break
            addr <= MAX_ADDRESS,
            1 <= length,
            length <= data_len,
            start == data_len - length,
            write_plan(address, data_len, 0) =~= chunks@ + write_plan(addr, length, start),
        ensures
            chunks@ == write_plan(address, data_len, 0),
        decreases length,
    {
        let page_remainder = PAGE_SIZE - (addr % PAGE_SIZE);
        let size = if page_remainder < length {
            page_remainder
        } else {
            length
        };
        chunks.push(WriteChunk { address: addr, start, len: size });
        if length <= page_remainder {
            proof {
                assert(write_plan(addr, length, start) =~= seq![
                    WriteChunk { address: addr, start, len: length },
                ]);
            }
            break ;
        }
        proof {
            assert(write_plan(addr, length, start) =~= seq![
                WriteChunk { address: addr, start, len: page_remainder },
            ] + write_plan(
                ((addr + page_remainder) % (MAX_ADDRESS as int)) as u32,
                (length - page_remainder) as u32,
                (start + page_remainder) as u32,
            ));
        }
        length = length - page_remainder;
        start = start + page_remainder;
        addr = (addr + page_remainder) % MAX_ADDRESS;
    }
    chunks
}

/// Computes the sector erasures a write of `length` bytes to `address`
/// requires.
pub fn plan_erase(address: u32, length: u32) -> (r: Vec<u32>)
    requires
        address <= MAX_ADDRESS,
        length >= 1,
    ensures
        r@ == erase_plan(address, length),
{
    let mut sectors: Vec<u32> = Vec::new();
    let mut addr = address;
    let mut remaining = length;
    loop
        invariant_except_break
            addr <= MAX_ADDRESS,
            1 <= remaining,
            erase_plan(address, length) =~= sectors@ + erase_plan(addr, remaining),
        ensures
            sectors@ == erase_plan(address, length),
        decreases remaining,
    {
        sectors.push(addr);
        let sector_remainder = SECTOR_SIZE - (addr % SECTOR_SIZE);
        if remaining <= sector_remainder {
            proof {
                assert(erase_plan(addr, remaining) =~= seq![addr]);
            }
            break ;
        }
        proof {
            assert(erase_plan(addr, remaining) =~= seq![addr] + erase_plan(
                ((addr + sector_remainder) % (MAX_ADDRESS as int)) as u32,
                (remaining - sector_remainder) as u32,
            ));
        }
        remaining = remaining - sector_remainder;
        addr = (addr + sector_remainder) % MAX_ADDRESS;
    }
    sectors
}

/// The write chunking is gapless and page-safe: the first chunk starts
/// the data at the given address, consecutive chunks continue exactly
/// where the previous one ended, no chunk crosses the boundary of the
/// page it starts in, and together the chunks cover the data.
pub proof fn lemma_write_plan_covers(address: u32, length: u32, start: u32)
    requires
        length >= 1,
        start + length <= u32::MAX,
    ensures
        ({
            let p = write_plan(address, length, start);
            &&& p.len() >= 1
            &&& p[0].address == address
            &&& p[0].start == start
            &&& forall|i: int| 0 <= i < p.len() ==> 1 <= #[trigger] p[i].len
            &&& forall|i: int|
                0 <= i < p.len() ==> (#[trigger] p[i].address % PAGE_SIZE) + p[i].len <= PAGE_SIZE
            &&& forall|i: int|
                0 <= i < p.len() - 1 ==> #[trigger] p[i + 1].start == p[i].start + p[i].len
            &&& p[p.len() - 1].start + p[p.len() - 1].len == start + length
        }),
    decreases length,
{
    let page_remainder = (PAGE_SIZE - address % PAGE_SIZE) as u32;
    let p = write_plan(address, length, start);
    if length > page_remainder {
        let next_addr = ((address + page_remainder) % (MAX_ADDRESS as int)) as u32;
        let next_len = (length - page_remainder) as u32;
        let next_start = (start + page_remainder) as u32;
        lemma_write_plan_covers(next_addr, next_len, next_start);
        let p2 = write_plan(next_addr, next_len, next_start);
        assert(p =~= seq![WriteChunk { address, start, len: page_remainder }] + p2);
        assert forall|i: int| 0 <= i < p.len() - 1 implies #[trigger] p[i + 1].start == p[i].start
            + p[i].len by {
            if i == 0 {
                assert(p[1] == p2[0]);
                assert(p2[0].start == next_start);
            } else {
                assert(p[i] == p2[i - 1]);
                assert(p[i + 1] == p2[i]);
                assert(p2[(i - 1) + 1].start == p2[i - 1].start + p2[i - 1].len);
            }
        }
    }
}

/// The bytes one erasure covers: from its address to the end of the
/// sector the address lies in.
pub open spec fn sector_span(address: u32) -> int {
    SECTOR_SIZE - address % SECTOR_SIZE
}

/// The bytes a whole erase plan covers, erasure by erasure.
pub open spec fn erased_total(p: Seq<u32>) -> int
    decreases p.len(),
{
    if p.len() == 0 {
        0
    } else {
        sector_span(p[0]) + erased_total(p.drop_first())
    }
}

/// The erase plan begins at the sector of the given address and walks
/// sector boundaries: each further erasure sits where the sector of the
/// previous one ends (wrapped at the top of the array). Together the
/// erasures cover the whole range, and none is superfluous: without the
/// last one the covered bytes fall short of the length.
pub proof fn lemma_erase_plan_chain(address: u32, length: u32)
    requires
        length >= 1,
    ensures
        ({
            let p = erase_plan(address, length);
            &&& p.len() >= 1
            &&& p[0] == address
            &&& forall|i: int|
                0 <= i < p.len() - 1 ==> #[trigger] p[i + 1] == ((p[i] + (SECTOR_SIZE - p[i]
                    % SECTOR_SIZE)) % (MAX_ADDRESS as int))
            &&& length <= erased_total(p)
            &&& erased_total(p) - sector_span(p[p.len() - 1]) < length
        }),
    decreases length,
{
    reveal_with_fuel(erased_total, 3);
    let sector_remainder = (SECTOR_SIZE - address % SECTOR_SIZE) as u32;
    let p = erase_plan(address, length);
    if length > sector_remainder {
        let next_addr = ((address + sector_remainder) % (MAX_ADDRESS as int)) as u32;
        let next_len = (length - sector_remainder) as u32;
        lemma_erase_plan_chain(next_addr, next_len);
        let p2 = erase_plan(next_addr, next_len);
        assert(p =~= seq![address] + p2);
        assert(p.drop_first() =~= p2);
        assert(erased_total(p) == sector_span(address) + erased_total(p2));
        assert(p[p.len() - 1] == p2[p2.len() - 1]);
        assert forall|i: int| 0 <= i < p.len() - 1 implies #[trigger] p[i + 1] == ((p[i] + (
        SECTOR_SIZE - p[i] % SECTOR_SIZE)) % (MAX_ADDRESS as int)) by {
            if i == 0 {
                assert(p[1] == p2[0]);
                assert(p2[0] == next_addr);
            } else {
                assert(p[i] == p2[i - 1]);
                assert(p[i + 1] == p2[i]);
                assert(p2[(i - 1) + 1] == ((p2[i - 1] + (SECTOR_SIZE - p2[i - 1] % SECTOR_SIZE))
                    % (MAX_ADDRESS as int)));
            }
        }
    } else {
        assert(p =~= seq![address]);
        assert(p.drop_first() =~= Seq::<u32>::empty());
    }
}

} // verus!
