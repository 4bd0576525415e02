use vstd::prelude::*;
use crate::endian::{le_bytes, le_u32, read_i32_le, read_u32_le, write_u32_le};

verus! {

/// The length of each of the balloon's two queues, inflate and deflate.
pub const QUEUE_SIZE: u16 = 128;

/// A page frame number times `1 << VIRTIO_BALLOON_PFN_SHIFT` is the page's
/// address.
pub const VIRTIO_BALLOON_PFN_SHIFT: u32 = 12;

/// The size in bytes of the page that one page frame number stands for.
pub const BALLOON_PAGE_SIZE: u64 = 4096;

/// Feature bit: the guest tells the host before it reclaims pages.
pub const VIRTIO_BALLOON_F_MUST_TELL_HOST: u32 = 0x01;

/// Feature bit: the balloon deflates when the guest runs out of memory.
pub const VIRTIO_BALLOON_F_DEFLATE_ON_OOM: u32 = 0x04;

/// Descriptor flag: the device writes the buffer and the driver reads it.
pub const VIRTQ_DESC_F_WRITE: u16 = 0x2;

/// The length in bytes of the device's configuration space: the requested
/// and the actual number of pages, four bytes each.
pub const CONFIG_LEN: u64 = 8;

/// One descriptor of a queue, as the guest wrote it: where its buffer lies
/// in guest memory, how long it is, and its flags.
#[derive(Debug, Clone, Copy, PartialEq, Eq, Structural)]
pub struct DescriptorChain {
    pub index: u16,
    pub addr: u64,
    pub len: u32,
    pub flags: u16,
    pub next: u16,
}

impl DescriptorChain {
    /// Whether the descriptor's buffer is for the device to write.
    pub open spec fn spec_is_write_only(&self) -> bool {
        self.flags & VIRTQ_DESC_F_WRITE != 0
    }

    /// Whether the descriptor's buffer is for the device to write.
    pub fn is_write_only(&self) -> (w: bool)
        ensures
            w == self.spec_is_write_only(),
    {
        self.flags & VIRTQ_DESC_F_WRITE != 0
    }
}

/// Whether `desc` can carry an inflate request: the device can read it and
/// it holds whole page frame numbers of four bytes each.
pub fn valid_inflate_desc(desc: &DescriptorChain) -> (valid: bool)
    ensures
        valid == spec_valid_inflate_desc(*desc),
{
    !desc.is_write_only() && desc.len % 4 == 0
}

/// How many page frame numbers of a descriptor at `addr` with `len` bytes can
/// be addressed: all `len / 4` of them, or as many as lie below the end of
/// the address space.
pub open spec fn addressable_pfns(addr: u64, len: u32) -> nat {
    let asked: int = len as int / 4;
    let room: int = (u64::MAX - addr) / 4 + 1;
    if asked <= room {
        asked as nat
    } else {
        room as nat
    }
}

/// The guest addresses at which the page frame numbers of an inflate
/// descriptor are read: one every four bytes from the descriptor's address,
/// stopping before the first that would pass the end of the address space.
pub open spec fn pfn_addrs(desc: DescriptorChain) -> Seq<u64> {
    Seq::new(addressable_pfns(desc.addr, desc.len), |i: int| (desc.addr + 4 * i) as u64)
}

/// Whether `desc` can carry an inflate request.
pub open spec fn spec_valid_inflate_desc(desc: DescriptorChain) -> bool {
    !desc.spec_is_write_only() && desc.len % 4 == 0
}

/// The addresses to read for a run of inflate descriptors: those of each
/// valid descriptor, in the order of the descriptors; a descriptor that is
/// not valid adds none.
pub open spec fn inflate_reads(descs: Seq<DescriptorChain>) -> Seq<u64>
    decreases descs.len(),
{
    if descs.len() == 0 {
        Seq::empty()
    } else {
        inflate_reads(descs.drop_last()) + (if spec_valid_inflate_desc(descs.last()) {
            pfn_addrs(descs.last())
        } else {
            Seq::empty()
        })
    }
}

/// The head index of each descriptor, in order.
pub open spec fn used_heads(descs: Seq<DescriptorChain>) -> Seq<u16> {
    Seq::new(descs.len(), |i: int| descs[i].index)
}

/// What is to be done for the descriptors taken from one queue.
#[derive(Debug)]
pub struct QueueWork {
    /// The guest addresses from which page frame numbers are read; the page
    /// that each names is then given back to the host.
    pub reads: Vec<u64>,
    /// The descriptor heads to return to the guest as used, each with a
    /// written length of 0.
    pub used: Vec<u16>,
}

impl QueueWork {
    /// Whether the guest is to be interrupted: some descriptor was used.
    pub fn needs_interrupt(&self) -> (b: bool)
        ensures
            b == (self.used@.len() > 0),
    {
        self.used.len() > 0
    }
}

/// The guest addresses at which the page frame numbers of `desc` are read.
pub fn inflate_pfn_addrs(desc: &DescriptorChain) -> (addrs: Vec<u64>)
    ensures
        addrs@ == pfn_addrs(*desc),
{
    let num_addrs: u32 = desc.len / 4;
    let mut addrs: Vec<u64> = Vec::new();
    let mut i: u32 = 0;
    while i < num_addrs
        invariant
            i <= num_addrs,
            num_addrs == desc.len / 4,
            addrs@.len() == i,
            i > 0 ==> desc.addr + 4 * (i - 1) <= u64::MAX,
            forall|j: int| 0 <= j < addrs@.len() ==> #[trigger] addrs@[j] == desc.addr + 4 * j,
        decreases num_addrs - i,
    {
        let step: u64 = i as u64 * 4;
        if step > u64::MAX - desc.addr {
            assert(addrs@ =~= pfn_addrs(*desc));
            return addrs;
        }
        addrs.push(desc.addr + step);
        i = i + 1;
    }
    assert(addrs@ =~= pfn_addrs(*desc));
    addrs
}

/// Plans the work for the descriptors `descs` that were taken from the
/// inflate queue (`inflate`) or the deflate queue. Every descriptor is
/// returned as used. From the inflate queue each valid descriptor also adds
/// the addresses of its page frame numbers; the deflate queue asks for no
/// reads.
pub fn process_inflate_deflate(descs: &[DescriptorChain], inflate: bool) -> (work: QueueWork)
    ensures
        work.used@ == used_heads(descs@),
        work.reads@ == if inflate {
            inflate_reads(descs@)
        } else {
            Seq::<u64>::empty()
        },
{
    let mut reads: Vec<u64> = Vec::new();
    let mut used: Vec<u16> = Vec::new();
    let mut k: usize = 0;
    while k < descs.len()
        invariant
            k <= descs@.len(),
            used@ == used_heads(descs@.take(k as int)),
            reads@ == if inflate {
                inflate_reads(descs@.take(k as int))
            } else {
                Seq::<u64>::empty()
            },
        decreases descs@.len() - k,
    {
        let desc: DescriptorChain = descs[k];
        assert(descs@.take(k + 1).drop_last() =~= descs@.take(k as int));
        assert(descs@.take(k + 1).last() == desc);
        if inflate && valid_inflate_desc(&desc) {
            let mut addrs: Vec<u64> = inflate_pfn_addrs(&desc);
            reads.append(&mut addrs);
        }
        assert(reads@ =~= if inflate {
            inflate_reads(descs@.take(k + 1))
        } else {
            Seq::<u64>::empty()
        });
        used.push(desc.index);
        assert(used@ =~= used_heads(descs@.take(k + 1)));
        k = k + 1;
    }
    assert(descs@.take(k as int) =~= descs@);
    QueueWork { reads, used }
}

/// The guest address of the page with page frame number `pfn`: the number
/// shifted left by `VIRTIO_BALLOON_PFN_SHIFT`, which is the number times the
/// page size.
pub fn page_address(pfn: u32) -> (addr: u64)
    ensures
        addr == pfn * BALLOON_PAGE_SIZE,
        addr == (pfn as u64) << 12,
{
    let wide: u64 = pfn as u64;
    assert(wide << 12 == wide * 4096) by (bit_vector)
        requires
            wide <= 0xffff_ffff,
    ;
    wide << VIRTIO_BALLOON_PFN_SHIFT
}

/// The features that the device offers on feature page `page`.
pub fn features(page: u32) -> (bits: u32)
    ensures
        bits == if page == 0 {
            VIRTIO_BALLOON_F_MUST_TELL_HOST | VIRTIO_BALLOON_F_DEFLATE_ON_OOM
        } else {
            0u32
        },
{
    if page == 0 {
        VIRTIO_BALLOON_F_MUST_TELL_HOST | VIRTIO_BALLOON_F_DEFLATE_ON_OOM
    } else {
        0
    }
}

/// The features left in force after the guest acknowledged `value` on
/// feature page `page`: on page 0 those of `current` that `value` also has,
/// on any other page `current` unchanged.
pub fn ack_features(current: u32, page: u32, value: u32) -> (bits: u32)
    ensures
        bits == if page == 0 {
            current & value
        } else {
            current
        },
{
    if page == 0 {
        current & value
    } else {
        current
    }
}

/// The configuration space: the requested number of pages, then the actual
/// number, each as four little-endian bytes.
pub open spec fn config_space(num_pages: u32, actual_pages: u32) -> Seq<u8> {
    le_bytes(num_pages) + le_bytes(actual_pages)
}

/// The bytes that a read of `data_len` bytes at `offset` of the
/// configuration space gets: the part of the space from `offset` on, cut at
/// the space's end; nothing where `offset` lies past it or the read's end
/// cannot be expressed.
pub open spec fn config_window(config: Seq<u8>, offset: u64, data_len: usize) -> Seq<u8> {
    if offset >= CONFIG_LEN || offset + data_len > u64::MAX {
        Seq::empty()
    } else if offset + data_len < CONFIG_LEN {
        config.subrange(offset as int, offset + data_len)
    } else {
        config.subrange(offset as int, CONFIG_LEN as int)
    }
}

/// Answers the guest's read of `data_len` bytes at `offset` of the
/// configuration space.
pub fn read_config(num_pages: u32, actual_pages: u32, offset: u64, data_len: usize) -> (out: Vec<
    u8,
>)
    ensures
        out@ == config_window(config_space(num_pages, actual_pages), offset, data_len),
{
    let mut out: Vec<u8> = Vec::new();
    if offset >= CONFIG_LEN {
        return out;
    }
    let low: [u8; 4] = write_u32_le(num_pages);
    let high: [u8; 4] = write_u32_le(actual_pages);
    let ghost config = config_space(num_pages, actual_pages);
    let len64: u64 = data_len as u64;
    if len64 > u64::MAX - offset {
        return out;
    }
    let end: u64 = offset + len64;
    let stop: usize = if end < CONFIG_LEN {
        end as usize
    } else {
        8
    };
    let first: usize = offset as usize;
    let mut k: usize = first;
    while k < stop
        invariant
            first <= k <= stop <= 8,
            first <= stop,
            low@ == le_bytes(num_pages),
            high@ == le_bytes(actual_pages),
            config == le_bytes(num_pages) + le_bytes(actual_pages),
            out@ == config.subrange(first as int, k as int),
        decreases stop - k,
    {
        let byte: u8 = if k < 4 {
            low[k]
        } else {
            high[k - 4]
        };
        assert(byte == config[k as int]);
        out.push(byte);
        assert(out@ =~= config.subrange(first as int, k + 1));
        k = k + 1;
    }
    assert(out@ =~= config_window(config, offset, data_len));
    out
}

/// The actual number of pages after the guest wrote `data` at `offset` of
/// the configuration space. Only a write of exactly the four bytes of the
/// actual count, at offset 4, is taken; any other leaves `actual_pages` as
/// it was.
pub fn write_config(actual_pages: u32, offset: u64, data: &[u8]) -> (new_actual: u32)
    ensures
        new_actual == if offset == 4 && data@.len() == 4 {
            le_u32(data@)
        } else {
            actual_pages
        },
{
    if offset != 4 || data.len() != 4 {
        return actual_pages;
    }
    read_u32_le(data)
}

/// `a + b` in the arithmetic of `usize`, where a sum past the largest value
/// starts again from 0.
pub open spec fn wrapped_sum(a: usize, b: usize) -> int {
    if a + b <= usize::MAX {
        a + b
    } else {
        a + b - usize::MAX - 1
    }
}

/// Whether a change of the requested page count by `increment` is refused:
/// it would take away more pages than `num_pages`, read as a signed 32-bit
/// number, holds.
pub open spec fn increment_refused(num_pages: usize, increment: i32) -> bool {
    increment < 0 && -(increment as int) > (num_pages as i32) as int
}

/// The requested page count after a command of `count` bytes arrived in
/// `buf`. A command is exactly four bytes, a signed little-endian increment;
/// anything else is ignored, as is a buffer too short to hold a command, and
/// so is an increment that is refused. `None`
/// means that the count stays and the guest is not told; `Some` holds the new
/// count, which is `num_pages` plus the increment in the arithmetic of
/// `usize`.
pub fn adjust_pages(num_pages: usize, buf: &[u8], count: usize) -> (new_pages: Option<usize>)
    ensures
        new_pages == if count == 4 && buf@.len() >= 4 && !increment_refused(
            num_pages,
            le_u32(buf@) as i32,
        ) {
            Some(wrapped_sum(num_pages, (le_u32(buf@) as i32) as usize) as usize)
        } else {
            None
        },
{
    if count != 4 || buf.len() < 4 {
        return None;
    }
    let increment: i32 = read_i32_le(buf);
    let held: i32 = #[verifier::truncate] (num_pages as i32);
    if increment < 0 && (increment == i32::MIN || -increment > held) {
        return None;
    }
    let delta: usize = #[verifier::truncate] (increment as usize);
    let room: usize = usize::MAX - num_pages;
    if delta <= room {
        Some(num_pages + delta)
    } else {
        Some(delta - room - 1)
    }
}

} // verus!
