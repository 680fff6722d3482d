//! Writes to the SPINOR flash: the checks on a region write, the order of
//! erase and program operations, and how a write is cut into page programs.
use vstd::prelude::*;
use vstd::arithmetic::div_mod::{lemma_fundamental_div_mod, lemma_fundamental_div_mod_converse};

verus! {

/// Size of the SPINOR flash in bytes.
pub const SPINOR_SIZE_BYTES: u32 = 128 * 1024 * 1024;

/// Size of an erase sector in bytes.
pub const SPINOR_ERASE_SIZE: u32 = 0x1000;

/// Size of a program page in bytes.
pub const SPINOR_PAGE_LEN: u32 = 0x100;

/// Largest number of bytes one page-write operation may carry.
pub const SPINOR_WRITE_MAX: usize = 4096;

/// Bit of the security register that reports a failed or aborted program.
pub const STATUS_P_FAIL: u32 = 0x20;

/// Bit of the security register that reports a failed erase.
pub const STATUS_E_FAIL: u32 = 0x40;

/// Outcome of a request to the SPINOR server.
#[derive(Clone, Copy, Debug, PartialEq, Eq, Structural)]
pub enum SpinorError {
    NoError,
    AbortFailed,
    EraseFailed,
    WriteFailed,
    VerifyFailed,
    InvalidRequest,
    ImplementationError,
    AlignmentError,
    IdMismatch,
    NoId,
    AccessDenied,
}

/// A request to write data into the flash.
pub struct WriteRegion {
    /// Identifier of the caller.
    pub id: [u32; 4],
    /// Flash address at which the data starts.
    pub start: u32,
    /// The data; only the first `len` bytes are written.
    pub data: Vec<u8>,
    /// Number of bytes to write.
    pub len: u32,
    /// The caller promises that the target is already erased, so no sector
    /// erase precedes the write.
    pub clean_patch: bool,
    /// Outcome of the request, filled in by the server.
    pub result: Option<SpinorError>,
}

/// What has just happened in the course of a region write.
#[derive(Clone, Copy, Debug, PartialEq, Eq, Structural)]
pub enum RegionEvent {
    /// The request has arrived.
    Begin,
    /// The sector erase finished; the security register read afterwards.
    EraseDone(u32),
    /// The page writes finished; the security register read afterwards.
    WriteDone(u32),
}

/// What the server does next in the course of a region write.
#[derive(Clone, Copy, Debug, PartialEq, Eq, Structural)]
pub enum RegionAction {
    /// Erase the 4k sector at this address.
    EraseSector(u32),
    /// Program the request's data (see `plan_page_programs`).
    WritePages,
    /// The request is over, with this outcome.
    Complete(SpinorError),
}

/// The next step of a region write, given what has just happened.
pub open spec fn region_step(start: u32, len: u32, clean_patch: bool, event: RegionEvent) -> RegionAction {
    match event {
        RegionEvent::Begin => {
            if start + len > SPINOR_SIZE_BYTES {
                RegionAction::Complete(SpinorError::InvalidRequest)
            } else if clean_patch {
                RegionAction::WritePages
            } else if start % SPINOR_ERASE_SIZE != 0 {
                RegionAction::Complete(SpinorError::AlignmentError)
            } else {
                RegionAction::EraseSector(start)
            }
        },
        RegionEvent::EraseDone(status) => {
            if status & STATUS_E_FAIL != 0 {
                RegionAction::Complete(SpinorError::EraseFailed)
            } else {
                RegionAction::WritePages
            }
        },
        RegionEvent::WriteDone(status) => {
            if status & STATUS_P_FAIL != 0 {
                RegionAction::Complete(SpinorError::WriteFailed)
            } else {
                RegionAction::Complete(SpinorError::NoError)
            }
        },
    }
}

/// Decides the next step of a region write. A request that runs past the end
/// of the flash is refused before anything is touched; unless the caller
/// promises a clean patch, the request must start on a sector boundary and
/// its sector is erased before the data is written.
pub fn write_region_step(wr: &WriteRegion, event: RegionEvent) -> (action: RegionAction)
    ensures
        action == region_step(wr.start, wr.len, wr.clean_patch, event),
{
    match event {
        RegionEvent::Begin => {
            let end: u64 = wr.start as u64 + wr.len as u64;
            if end > SPINOR_SIZE_BYTES as u64 {
                RegionAction::Complete(SpinorError::InvalidRequest)
            } else if wr.clean_patch {
                RegionAction::WritePages
            } else {
                let alignment_mask = SPINOR_ERASE_SIZE - 1;
                proof {
                    let s = wr.start;
                    assert((s & 0xFFFu32 != 0) == (s % 0x1000 != 0)) by (bit_vector);
                }
                if (wr.start & alignment_mask) != 0 {
                    RegionAction::Complete(SpinorError::AlignmentError)
                } else {
                    RegionAction::EraseSector(wr.start)
                }
            }
        },
        RegionEvent::EraseDone(status) => {
            if status & STATUS_E_FAIL != 0 {
                RegionAction::Complete(SpinorError::EraseFailed)
            } else {
                RegionAction::WritePages
            }
        },
        RegionEvent::WriteDone(status) => {
            if status & STATUS_P_FAIL != 0 {
                RegionAction::Complete(SpinorError::WriteFailed)
            } else {
                RegionAction::Complete(SpinorError::NoError)
            }
        },
    }
}

/// A clean patch never erases: once the range check passes, the first step
/// writes the pages, whatever the alignment of the start.
pub proof fn lemma_clean_patch_never_erases(start: u32, len: u32)
    requires
        start as int + len as int <= 128 * 1024 * 1024,
    ensures
        region_step(start, len, true, RegionEvent::Begin) == RegionAction::WritePages,
{
}

/// A request that runs past the end of the 128 MiB flash is refused as
/// invalid before anything is erased or written, clean patch or not.
pub proof fn lemma_region_past_end_is_invalid(start: u32, len: u32, clean_patch: bool)
    requires
        start as int + len as int > 128 * 1024 * 1024,
    ensures
        region_step(start, len, clean_patch, RegionEvent::Begin) == RegionAction::Complete(
            SpinorError::InvalidRequest,
        ),
{
}

/// A request that is not a clean patch erases the 4 KiB sector at its start
/// first when the start is sector aligned, and is refused for alignment
/// otherwise.
pub proof fn lemma_dirty_write_erases_its_sector_first(start: u32, len: u32)
    requires
        start as int + len as int <= 128 * 1024 * 1024,
    ensures
        start % 4096 == 0 ==> region_step(start, len, false, RegionEvent::Begin) == RegionAction::EraseSector(
            start,
        ),
        start % 4096 != 0 ==> region_step(start, len, false, RegionEvent::Begin) == RegionAction::Complete(
            SpinorError::AlignmentError,
        ),
{
}

/// Whatever happens, the only sector ever erased is the aligned start of a
/// request that is not a clean patch.
pub proof fn lemma_only_the_requested_sector_is_erased(
    start: u32,
    len: u32,
    clean_patch: bool,
    event: RegionEvent,
    sector: u32,
)
    requires
        region_step(start, len, clean_patch, event) == RegionAction::EraseSector(sector),
    ensures
        sector == start,
        !clean_patch,
        event == RegionEvent::Begin,
        start % 4096 == 0,
{
}

/// After the erase, bit 6 of the security register (E_FAIL) ends the request
/// with an erase failure and otherwise the pages are written; after the write,
/// bit 5 (P_FAIL) ends it with a write failure and otherwise with success.
pub proof fn lemma_status_bits_decide_the_outcome(start: u32, len: u32, clean_patch: bool, status: u32)
    ensures
        region_step(start, len, clean_patch, RegionEvent::EraseDone(status)) == (if (status >> 6) & 1
            == 1 {
            RegionAction::Complete(SpinorError::EraseFailed)
        } else {
            RegionAction::WritePages
        }),
        region_step(start, len, clean_patch, RegionEvent::WriteDone(status)) == (if (status >> 5) & 1
            == 1 {
            RegionAction::Complete(SpinorError::WriteFailed)
        } else {
            RegionAction::Complete(SpinorError::NoError)
        }),
{
    assert(((status & 0x40) != 0) == ((status >> 6) & 1 == 1)) by (bit_vector);
    assert(((status & 0x20) != 0) == ((status >> 5) & 1 == 1)) by (bit_vector);
}

/// Reassembles the flash's ID word from the two RDID reads: the DDR interface
/// duplicates each byte, so the manufacturer and type bytes come from the
/// lower read and the capacity byte from the upper one.
pub open spec fn flash_id_bytes(id: u32, upper: u32, lower: u32) -> bool {
    &&& id & 0xFF == lower & 0xFF
    &&& (id >> 8) & 0xFF == (lower >> 16) & 0xFF
    &&& (id >> 16) & 0xFF == (upper >> 16) & 0xFF
    &&& id >> 24 == 0
}

/// The ID word has the manufacturer byte (low byte of the lower read) at the
/// bottom, the memory type (third byte of the lower read) above it and the
/// capacity (third byte of the upper read) on top: it is the number
/// `manufacturer + 256 * type + 65536 * capacity`.
pub proof fn lemma_flash_id_value(id: u32, upper: u32, lower: u32)
    requires
        flash_id_bytes(id, upper, lower),
    ensures
        id == lower % 256 + 256 * ((lower / 65536) % 256) + 65536 * ((upper / 65536) % 256),
{
    assert(flash_id_bytes(id, upper, lower) ==> id == (lower & 0xFF) + 256 * ((lower >> 16) & 0xFF) + 65536
        * ((upper >> 16) & 0xFF)) by (bit_vector);
    assert((lower & 0xFF) == lower % 256) by (bit_vector);
    assert(((lower >> 16) & 0xFF) == (lower / 65536) % 256) by (bit_vector);
    assert(((upper >> 16) & 0xFF) == (upper / 65536) % 256) by (bit_vector);
}

/// The ID word of the flash from the upper and lower RDID reads.
pub fn flash_id_from_rdid(upper: u32, lower: u32) -> (id: u32)
    ensures
        flash_id_bytes(id, upper, lower),
{
    let id = (lower & 0xFF) | ((lower >> 8) & 0xFF00) | (upper & 0xFF_0000);
    assert(flash_id_bytes(id, upper, lower)) by (bit_vector)
        requires
            id == (lower & 0xFF) | ((lower >> 8) & 0xFF00) | (upper & 0xFF_0000),
    ;
    id
}

/// One page-program operation: `len` bytes of the data, from `offset`,
/// programmed at flash address `address`.
#[derive(Clone, Copy, Debug, PartialEq, Eq, Structural)]
pub struct PageProgram {
    pub address: u32,
    pub offset: usize,
    pub len: usize,
}

/// The bytes `[off, off + n)` of a write that starts at flash address `start`
/// and is `len` bytes long lie within one flash page, and run from a page
/// boundary (or the start of the data) to the next page boundary (or the end
/// of the data): a program of them neither wraps around inside a page nor
/// stops short of what the page can take.
pub open spec fn is_page_piece(start: int, len: int, off: int, n: int) -> bool {
    &&& 0 <= off
    &&& 0 < n
    &&& off + n <= len
    &&& off == 0 || (start + off) % 256 == 0
    &&& off + n == len || (start + off + n) % 256 == 0
    &&& forall|q: int| off < q < off + n ==> #[trigger] ((start + q) % 256) != 0
}

/// Every byte of `data[off..off + n]` is 0xFF, the value of erased flash.
pub open spec fn is_blank(data: Seq<u8>, off: int, n: int) -> bool {
    forall|i: int| off <= i < off + n ==> data[i] == 0xFF
}

/// The page programs of a write: in increasing order, one for each page piece
/// of the write that holds data other than 0xFF, and no others.
pub open spec fn is_page_plan(start: u32, data: Seq<u8>, len: usize, plan: Seq<PageProgram>) -> bool {
    &&& forall|i: int|
        #![trigger plan[i]]
        0 <= i < plan.len() ==> {
            &&& is_page_piece(start as int, len as int, plan[i].offset as int, plan[i].len as int)
            &&& !is_blank(data, plan[i].offset as int, plan[i].len as int)
            &&& plan[i].address == start + plan[i].offset
            &&& plan[i].len <= SPINOR_PAGE_LEN
        }
    &&& forall|i: int, j: int|
        0 <= i < j < plan.len() ==> #[trigger] plan[i].offset + plan[i].len <= #[trigger] plan[j].offset
    &&& forall|off: int, n: int|
        #[trigger] is_page_piece(start as int, len as int, off, n) && !is_blank(data, off, n) ==> exists|i: int|
            0 <= i < plan.len() && plan[i].offset == off && plan[i].len == n
}

/// Every piece of the plan is a whole number of 16-bit words.
pub open spec fn is_word_sized(plan: Seq<PageProgram>) -> bool {
    forall|i: int| 0 <= i < plan.len() ==> #[trigger] plan[i].len % 2 == 0
}

proof fn lemma_page_position(x: int, d: int)
    requires
        0 <= x,
        0 <= d <= 256 - x % 256,
    ensures
        d < 256 - x % 256 ==> (x + d) % 256 == x % 256 + d,
        d == 256 - x % 256 ==> (x + d) % 256 == 0,
{
    lemma_fundamental_div_mod(x, 256);
    if d < 256 - x % 256 {
        lemma_fundamental_div_mod_converse(x + d, 256, x / 256, x % 256 + d);
    } else {
        lemma_fundamental_div_mod_converse(x + d, 256, x / 256 + 1, 0);
    }
}

/// Every byte of a write that is not 0xFF is programmed by some page program
/// of the plan (blank pieces are the only ones left out).
pub proof fn lemma_plan_programs_every_written_byte(start: u32, data: Seq<u8>, len: usize, plan: Seq<PageProgram>, b: int)
    requires
        is_page_plan(start, data, len, plan),
        0 <= b < len,
        data[b] != 0xFF,
    ensures
        exists|i: int| 0 <= i < plan.len() && #[trigger] plan[i].offset <= b < plan[i].offset + plan[i].len,
{
    let x = start + b;
    lemma_fundamental_div_mod(x, 256);
    let r = x % 256;
    let off: int = if b >= r { b - r } else { 0 };
    let nxt: int = b + (256 - r);
    let e: int = if nxt < len { nxt } else { len as int };
    let n = e - off;
    lemma_page_position(x, 256 - r);
    if b >= r {
        lemma_fundamental_div_mod_converse(start + off, 256, x / 256, 0);
        assert forall|q: int| off < q < off + n implies #[trigger] ((start + q) % 256) != 0 by {
            lemma_page_position(start + off, q - off);
        }
    } else {
        lemma_fundamental_div_mod(start as int, 256);
        lemma_fundamental_div_mod_converse(start as int, 256, x / 256, r - b);
        assert forall|q: int| off < q < off + n implies #[trigger] ((start + q) % 256) != 0 by {
            lemma_page_position(start as int, q);
        }
    }
    assert(is_page_piece(start as int, len as int, off, n));
    assert(!is_blank(data, off, n));
    let i = choose|i: int| 0 <= i < plan.len() && plan[i].offset == off && plan[i].len == n;
    assert(plan[i].offset <= b < plan[i].offset + plan[i].len);
}

/// What a page plan guarantees, in plain terms: every program lies inside the
/// data and inside one 256-byte flash page, is programmed at the flash address
/// of its bytes, holds at least one byte other than 0xFF, and programs come in
/// increasing, non-overlapping order.
pub proof fn lemma_page_plan_programs_are_sound(start: u32, data: Seq<u8>, len: usize, plan: Seq<PageProgram>, i: int, j: int)
    requires
        is_page_plan(start, data, len, plan),
        0 <= i < plan.len(),
    ensures
        0 < plan[i].len <= 256,
        plan[i].offset + plan[i].len <= len,
        plan[i].address == start + plan[i].offset,
        (start + plan[i].offset) / 256 == (start + plan[i].offset + plan[i].len - 1) / 256,
        exists|b: int| plan[i].offset <= b < plan[i].offset + plan[i].len && #[trigger] data[b] != 0xFF,
        i < j < plan.len() ==> plan[i].offset + plan[i].len <= plan[j].offset,
{
    let x = start + plan[i].offset;
    let n = plan[i].len as int;
    lemma_fundamental_div_mod(x, 256);
    let r = x % 256;
    if r + n > 256 {
        assert((start + (plan[i].offset + (256 - r))) % 256 != 0);
        lemma_page_position(x, 256 - r);
    }
    lemma_fundamental_div_mod(x + n - 1, 256);
    if (x + n - 1) / 256 != x / 256 {
        assert(r + n - 1 < 256);
        lemma_fundamental_div_mod_converse(x + n - 1, 256, x / 256, r + n - 1);
    }
    if i < j < plan.len() {
        assert(plan[i].offset + plan[i].len <= plan[j].offset);
    }
}

/// Cuts a write of `len` bytes of `data` at flash address `start` into page
/// programs. A first partial page brings the write to a page boundary; the
/// rest is written page by page; pieces whose bytes are all 0xFF are left
/// out, since the flash is erased already.
pub fn plan_page_programs(start: u32, data: &[u8], len: usize) -> (plan: Vec<PageProgram>)
    requires
        len <= SPINOR_WRITE_MAX,
        len % 2 == 0,
        len <= data@.len(),
        start + len <= u32::MAX,
        start % 2 == 0 || 256 - start % 256 >= len,
    ensures
        is_page_plan(start, data@, len, plan@),
        is_word_sized(plan@),
{
    let mut plan: Vec<PageProgram> = Vec::new();
    let mut pos: usize = 0;
    while pos < len
        invariant
            pos <= len,
            len <= SPINOR_WRITE_MAX,
            len <= data@.len(),
            start + len <= u32::MAX,
            pos == 0 || pos == len || (start + pos) % 256 == 0,
            len % 2 == 0,
            start % 2 == 0 || 256 - start % 256 >= len,
            pos % 2 == 0,
            is_word_sized(plan@),
            forall|i: int|
                #![trigger plan@[i]]
                0 <= i < plan@.len() ==> {
                    &&& is_page_piece(start as int, len as int, plan@[i].offset as int, plan@[i].len as int)
                    &&& !is_blank(data@, plan@[i].offset as int, plan@[i].len as int)
                    &&& plan@[i].address == start + plan@[i].offset
                    &&& plan@[i].len <= SPINOR_PAGE_LEN
                    &&& plan@[i].offset + plan@[i].len <= pos
                },
            forall|i: int, j: int|
                0 <= i < j < plan@.len() ==> #[trigger] plan@[i].offset + plan@[i].len <= #[trigger] plan@[j].offset,
            forall|off: int, n: int|
                #[trigger] is_page_piece(start as int, len as int, off, n) && !is_blank(data@, off, n) && off < pos
                    ==> exists|i: int| 0 <= i < plan@.len() && plan@[i].offset == off && plan@[i].len == n,
        decreases len - pos,
    {
        let address: u32 = start + pos as u32;
        let room: usize = (SPINOR_PAGE_LEN - address % SPINOR_PAGE_LEN) as usize;
        let n: usize = if room < len - pos {
            room
        } else {
            len - pos
        };
        proof {
            lemma_page_position(start + pos, n as int);
            lemma_fundamental_div_mod(start + pos, 256);
            assert(n % 2 == 0);
            assert forall|q: int| pos < q < pos + n implies #[trigger] ((start + q) % 256) != 0 by {
                lemma_page_position(start + pos, q - pos);
            }
        }
        let mut blank = true;
        let mut i: usize = pos;
        while i < pos + n
            invariant
                pos <= i <= pos + n,
                pos + n <= len,
                len <= data@.len(),
                blank == is_blank(data@, pos as int, i - pos),
            decreases pos + n - i,
        {
            if data[i] != 0xFF {
                blank = false;
            }
            i = i + 1;
        }
        let ghost old_plan = plan@;
        if !blank {
            plan.push(PageProgram { address, offset: pos, len: n });
        }
        proof {
            assert(is_page_piece(start as int, len as int, pos as int, n as int));
            assert forall|off: int, m: int|
                #[trigger] is_page_piece(start as int, len as int, off, m) && !is_blank(data@, off, m) && off < pos + n
                implies exists|k: int| 0 <= k < plan@.len() && plan@[k].offset == off && plan@[k].len == m by {
                if off < pos {
                    let k = choose|k: int| 0 <= k < old_plan.len() && old_plan[k].offset == off && old_plan[k].len == m;
                    assert(plan@[k] == old_plan[k]);
                } else {
                    if off > pos {
                        assert((start + off) % 256 != 0);
                    }
                    assert(off == pos);
                    if off + m < pos + n {
                        assert((start + (off + m)) % 256 != 0);
                    } else if off + m > pos + n {
                        assert((start + (pos + n)) % 256 != 0);
                    }
                    assert(m == n);
                    assert(plan@[plan@.len() - 1].offset == off);
                }
            }
        }
        pos = pos + n;
    }
    plan
}

/// The 16-bit words, least significant byte first, that carry `len` bytes of
/// `data` from `offset` to the flash's write FIFO.
pub fn page_words(data: &[u8], offset: usize, len: usize) -> (words: Vec<u32>)
    requires
        offset + len <= data@.len(),
        len % 2 == 0,
    ensures
        words@.len() == len / 2,
        forall|i: int|
            0 <= i < words@.len() ==> #[trigger] words@[i] == data@[offset + 2 * i] + 256 * data@[offset + 2
                * i + 1],
{
    let mut words: Vec<u32> = Vec::new();
    let mut k: usize = 0;
    let data_len = data.len();
    while k < len / 2
        invariant
            offset + len <= data@.len(),
            data_len == data@.len(),
            len % 2 == 0,
            k <= len / 2,
            words@.len() == k,
            forall|i: int|
                0 <= i < k ==> #[trigger] words@[i] == data@[offset + 2 * i] + 256 * data@[offset + 2 * i + 1],
        decreases len / 2 - k,
    {
        let lo = data[offset + 2 * k];
        let hi = data[offset + 2 * k + 1];
        let w: u32 = lo as u32 | ((hi as u32) << 8);
        assert(w == lo + 256 * hi) by (bit_vector)
            requires
                w == lo as u32 | ((hi as u32) << 8),
        ;
        words.push(w);
        k = k + 1;
    }
    words
}

/// What the interrupt context does next while programming pages.
#[derive(Clone, Copy, Debug, PartialEq, Eq, Structural)]
pub enum PageWriteAction {
    /// Enable writes, fill the FIFO with this piece and program it.
    Program(PageProgram),
    /// Stop; the last security register value is the result.
    Finish(u32),
}

/// Walks a page plan: after `done` programs, the last of which left `status`
/// in the security register (0 before any), programs the next piece, unless
/// the plan is done or the last program failed, which aborts the write.
pub fn page_write_step(plan: &Vec<PageProgram>, done: usize, status: u32) -> (action: PageWriteAction)
    requires
        done <= plan@.len(),
    ensures
        action == (if status & STATUS_P_FAIL != 0 || done == plan@.len() {
            PageWriteAction::Finish(status)
        } else {
            PageWriteAction::Program(plan@[done as int])
        }),
{
    if status & STATUS_P_FAIL != 0 || done == plan.len() {
        PageWriteAction::Finish(status)
    } else {
        PageWriteAction::Program(plan[done])
    }
}

} // verus!
