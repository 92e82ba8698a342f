//! The module snapshot: memories, global values, tables and role designations.

use vstd::prelude::*;
use crate::memory::{address_space, has_nul, le_u16, le_u32, le_u64, le_u128, nul_at, put_u32, MemImage, WASM_PAGE};
use vstd::utf8::{decode_utf8, valid_utf8};
use crate::module::{Func, Global, Memory, MemoryData, MemorySegment, Module, Table, TableData, GlobalData};
use crate::value::{val_of_bits, WasmVal};

verus! {

/// A condition that a snapshot access reports to its caller.
#[derive(Clone, Copy, Debug, PartialEq, Eq, Structural)]
pub enum ImageError {
    /// The access reaches past the end of the memory.
    OutOfBounds,
    /// The module declares no memory.
    NoMainHeap,
    /// The module declares no table.
    NoMainTable,
    /// The function pointer is past the end of the primary table.
    FuncPtrOutOfBounds,
    /// The bytes of a string are not UTF-8.
    InvalidUtf8,
    /// A data segment reaches past the end of its memory.
    SegmentOutOfBounds,
    /// A memory is larger than a 32-bit address space.
    MemoryTooLarge,
}

/// `s` with `d` copied over it from `off` on.
pub open spec fn splice(s: Seq<u8>, off: int, d: Seq<u8>) -> Seq<u8> {
    s.subrange(0, off) + d + s.subrange(off + d.len(), s.len() as int)
}

/// `base` with the segments copied over it in order.
pub open spec fn fill_segments(base: Seq<u8>, segs: Seq<MemorySegment>) -> Seq<u8>
    decreases segs.len(),
{
    if segs.len() == 0 {
        base
    } else {
        splice(fill_segments(base, segs.drop_last()), segs.last().offset as int, segs.last().data@)
    }
}

/// Number of pages that a 32-bit address space holds.
pub const MAX_PAGES: usize = 65536;

/// Byte length of a memory of `pages` pages.
pub open spec fn pages_len(pages: usize) -> int {
    pages * WASM_PAGE
}

/// `len` zero bytes.
pub open spec fn zeros(len: int) -> Seq<u8> {
    Seq::new(len as nat, |i: int| 0u8)
}

/// The initial bytes of a memory: zeros, with every segment copied in.
pub open spec fn initial_bytes(mem: MemoryData) -> Seq<u8> {
    fill_segments(zeros(pages_len(mem.initial_pages)), mem.segments@)
}

/// Segment `k` of `mem` ends inside the memory.
pub open spec fn segment_fits(mem: MemoryData, k: int) -> bool {
    mem.segments@[k].offset + mem.segments@[k].data@.len() <= pages_len(mem.initial_pages)
}

/// Why no snapshot of `mem` can be made, if there is a reason.
pub open spec fn mem_error(mem: MemoryData) -> Option<ImageError> {
    if pages_len(mem.initial_pages) > address_space() || pages_len(mem.initial_pages) > usize::MAX {
        Some(ImageError::MemoryTooLarge)
    } else if exists|k: int| 0 <= k < mem.segments@.len() && !#[trigger] segment_fits(mem, k) {
        Some(ImageError::SegmentOutOfBounds)
    } else {
        None
    }
}

/// The snapshot of a global: its decoded initial value, if it has one.
pub open spec fn global_value(g: GlobalData) -> Option<WasmVal> {
    match g.value {
        Some(bits) => val_of_bits(g.ty, bits),
        None => None,
    }
}

/// The snapshot of a table: its function elements, or none.
pub open spec fn table_funcs(t: TableData) -> Seq<Func> {
    match t.func_elements {
        Some(v) => v@,
        None => Seq::empty(),
    }
}

/// The first of `n` entities, if there is one.
pub open spec fn first_of(n: nat) -> Option<usize> {
    if n > 0 {
        Some(0usize)
    } else {
        None
    }
}

/// A snapshot of a module's memories, globals and tables; each is stored at
/// the index of the entity it belongs to.
#[derive(Clone, Debug)]
pub struct Image {
    pub memories: Vec<MemImage>,
    /// The decoded initial value of each global; none where it is unknown.
    pub globals: Vec<Option<WasmVal>>,
    pub tables: Vec<Vec<Func>>,
    pub stack_pointer: Option<Global>,
    pub main_heap: Option<Memory>,
    pub main_table: Option<Table>,
}

impl Image {
    /// Every memory is well formed, and every role names an existing entity.
    pub open spec fn wf(&self) -> bool {
        &&& forall|m: int| 0 <= m < self.memories@.len() ==> (#[trigger] self.memories@[m]).wf()
        &&& self.main_heap matches Some(m) ==> m < self.memories@.len()
        &&& self.main_table matches Some(t) ==> t < self.tables@.len()
        &&& self.stack_pointer matches Some(g) ==> g < self.globals@.len()
    }

    /// The memory stored under `id`.
    pub open spec fn mem(&self, id: Memory) -> MemImage {
        self.memories@[id as int]
    }

    /// The snapshot of `module` that `build_image` makes when it succeeds.
    pub open spec fn snapshot_of(&self, module: Module) -> bool {
        &&& self.memories@.len() == module.memories@.len()
        &&& forall|m: int| 0 <= m < self.memories@.len() ==> {
            &&& (#[trigger] self.memories@[m]).len == pages_len(module.memories@[m].initial_pages)
            &&& self.memories@[m].bytes() == initial_bytes(module.memories@[m])
        }
        &&& self.globals@.len() == module.globals@.len()
        &&& forall|g: int| 0 <= g < self.globals@.len() ==> #[trigger] self.globals@[g] == global_value(module.globals@[g])
        &&& self.tables@.len() == module.tables@.len()
        &&& forall|t: int| 0 <= t < self.tables@.len() ==> #[trigger] self.tables@[t]@ == table_funcs(module.tables@[t])
        &&& self.main_heap == first_of(module.memories@.len())
        &&& self.main_table == first_of(module.tables@.len())
        &&& self.stack_pointer == first_of(module.globals@.len())
    }

    /// Whether memory `memory` exists and holds `size` bytes from `addr` on,
    /// with `addr + size` inside the 32-bit range.
    pub fn can_read(&self, memory: Memory, addr: u32, size: u32) -> (r: bool)
        requires
            self.wf(),
        ensures
            r == (memory < self.memories@.len() && addr + size < address_space() && self.mem(
                memory,
            ).in_bounds(addr as int, size as int)),
    {
        if memory >= self.memories.len() {
            return false;
        }
        self.memories[memory].can_read(addr, size)
    }

    /// The primary heap.
    pub fn main_heap(&self) -> (r: Result<Memory, ImageError>)
        ensures
            r == match self.main_heap {
                Some(m) => Ok::<Memory, ImageError>(m),
                None => Err(ImageError::NoMainHeap),
            },
    {
        match self.main_heap {
            Some(m) => Ok(m),
            None => Err(ImageError::NoMainHeap),
        }
    }

    pub fn read_u8(&self, id: Memory, addr: u32) -> (r: Result<u8, ImageError>)
        requires
            self.wf(),
            id < self.memories@.len(),
        ensures
            self.mem(id).in_bounds(addr as int, 1) ==> r == Ok::<u8, ImageError>(self.mem(id).bytes()[addr as int]),
            !self.mem(id).in_bounds(addr as int, 1) ==> r == Err::<u8, ImageError>(ImageError::OutOfBounds),
    {
        self.memories[id].read_u8(addr)
    }

    pub fn read_u16(&self, id: Memory, addr: u32) -> (r: Result<u16, ImageError>)
        requires
            self.wf(),
            id < self.memories@.len(),
        ensures
            self.mem(id).in_bounds(addr as int, 2) ==> r == Ok::<u16, ImageError>(le_u16(self.mem(id).bytes(), addr as int)),
            !self.mem(id).in_bounds(addr as int, 2) ==> r == Err::<u16, ImageError>(ImageError::OutOfBounds),
    {
        self.memories[id].read_u16(addr)
    }

    pub fn read_u32(&self, id: Memory, addr: u32) -> (r: Result<u32, ImageError>)
        requires
            self.wf(),
            id < self.memories@.len(),
        ensures
            self.mem(id).in_bounds(addr as int, 4) ==> r == Ok::<u32, ImageError>(le_u32(self.mem(id).bytes(), addr as int)),
            !self.mem(id).in_bounds(addr as int, 4) ==> r == Err::<u32, ImageError>(ImageError::OutOfBounds),
    {
        self.memories[id].read_u32(addr)
    }

    /// The 32-bit value at `addr` below the one at `addr + 4`.
    pub fn read_u64(&self, id: Memory, addr: u32) -> (r: Result<u64, ImageError>)
        requires
            self.wf(),
            id < self.memories@.len(),
        ensures
            self.mem(id).in_bounds(addr as int, 8) ==> r == Ok::<u64, ImageError>(le_u64(self.mem(id).bytes(), addr as int)),
            !self.mem(id).in_bounds(addr as int, 8) ==> r == Err::<u64, ImageError>(ImageError::OutOfBounds),
    {
        self.memories[id].read_u64(addr)
    }

    /// The 64-bit value at `addr` below the one at `addr + 8`.
    pub fn read_u128(&self, id: Memory, addr: u32) -> (r: Result<u128, ImageError>)
        requires
            self.wf(),
            id < self.memories@.len(),
        ensures
            self.mem(id).in_bounds(addr as int, 16) ==> r == Ok::<u128, ImageError>(le_u128(self.mem(id).bytes(), addr as int)),
            !self.mem(id).in_bounds(addr as int, 16) ==> r == Err::<u128, ImageError>(ImageError::OutOfBounds),
    {
        self.memories[id].read_u128(addr)
    }

    /// A read of `size` bytes, widened to 64 bits; `size` is 1, 2, 4 or 8.
    pub fn read_size(&self, id: Memory, addr: u32, size: u8) -> (r: Result<u64, ImageError>)
        requires
            self.wf(),
            id < self.memories@.len(),
            size == 1 || size == 2 || size == 4 || size == 8,
        ensures
            !self.mem(id).in_bounds(addr as int, size as int) ==> r == Err::<u64, ImageError>(ImageError::OutOfBounds),
            self.mem(id).in_bounds(addr as int, size as int) ==> r == Ok::<u64, ImageError>(
                match size {
                    1 => self.mem(id).bytes()[addr as int] as u64,
                    2 => le_u16(self.mem(id).bytes(), addr as int) as u64,
                    4 => le_u32(self.mem(id).bytes(), addr as int) as u64,
                    _ => le_u64(self.mem(id).bytes(), addr as int),
                },
            ),
    {
        let m = &self.memories[id];
        if size == 1 {
            match m.read_u8(addr) {
                Ok(v) => Ok(v as u64),
                Err(e) => Err(e),
            }
        } else if size == 2 {
            match m.read_u16(addr) {
                Ok(v) => Ok(v as u64),
                Err(e) => Err(e),
            }
        } else if size == 4 {
            match m.read_u32(addr) {
                Ok(v) => Ok(v as u64),
                Err(e) => Err(e),
            }
        } else {
            m.read_u64(addr)
        }
    }

    /// The UTF-8 string from `addr` up to the next zero byte.
    pub fn read_str(&self, id: Memory, addr: u32) -> (r: Result<String, ImageError>)
        requires
            self.wf(),
            id < self.memories@.len(),
        ensures
            !has_nul(self.mem(id).bytes(), addr as int) <==> r == Err::<String, ImageError>(ImageError::OutOfBounds),
            forall|z: int| #[trigger] nul_at(self.mem(id).bytes(), addr as int, z) ==> {
                let b = self.mem(id).bytes().subrange(addr as int, z);
                &&& valid_utf8(b) ==> (r is Ok && r->Ok_0@ == decode_utf8(b))
                &&& !valid_utf8(b) ==> r == Err::<String, ImageError>(ImageError::InvalidUtf8)
            },
    {
        self.memories[id].read_str(addr)
    }

    pub fn write_u8(&mut self, id: Memory, addr: u32, value: u8) -> (r: Result<(), ImageError>)
        requires
            old(self).wf(),
            id < old(self).memories@.len(),
        ensures
            final(self).wf(),
            final(self).memories@.len() == old(self).memories@.len(),
            forall|m: int| 0 <= m < final(self).memories@.len() && m != id ==> final(self).memories@[m] == old(self).memories@[m],
            final(self).globals == old(self).globals,
            final(self).tables == old(self).tables,
            final(self).main_heap == old(self).main_heap,
            final(self).main_table == old(self).main_table,
            final(self).stack_pointer == old(self).stack_pointer,
            final(self).mem(id).len == old(self).mem(id).len,
            old(self).mem(id).in_bounds(addr as int, 1) ==> r is Ok && final(self).mem(id).bytes() == old(self).mem(id).bytes().update(addr as int, value),
            !old(self).mem(id).in_bounds(addr as int, 1) ==> r == Err::<(), ImageError>(ImageError::OutOfBounds) && final(self).mem(id) == old(self).mem(id),
    {
        self.memories[id].write_u8(addr, value)
    }

    pub fn write_u32(&mut self, id: Memory, addr: u32, value: u32) -> (r: Result<(), ImageError>)
        requires
            old(self).wf(),
            id < old(self).memories@.len(),
        ensures
            final(self).wf(),
            final(self).memories@.len() == old(self).memories@.len(),
            forall|m: int| 0 <= m < final(self).memories@.len() && m != id ==> final(self).memories@[m] == old(self).memories@[m],
            final(self).globals == old(self).globals,
            final(self).tables == old(self).tables,
            final(self).main_heap == old(self).main_heap,
            final(self).main_table == old(self).main_table,
            final(self).stack_pointer == old(self).stack_pointer,
            final(self).mem(id).len == old(self).mem(id).len,
            old(self).mem(id).in_bounds(addr as int, 4) ==> r is Ok && final(self).mem(id).bytes() == put_u32(old(self).mem(id).bytes(), addr as int, value),
            !old(self).mem(id).in_bounds(addr as int, 4) ==> r == Err::<(), ImageError>(ImageError::OutOfBounds) && final(self).mem(id) == old(self).mem(id),
    {
        self.memories[id].write_u32(addr, value)
    }

    /// The function that pointer `idx` names through the primary table.
    pub fn func_ptr(&self, idx: u32) -> (r: Result<Func, ImageError>)
        requires
            self.wf(),
        ensures
            r == match self.main_table {
                None => Err(ImageError::NoMainTable),
                Some(t) => if idx < self.tables@[t as int]@.len() {
                    Ok::<Func, ImageError>(self.tables@[t as int]@[idx as int])
                } else {
                    Err(ImageError::FuncPtrOutOfBounds)
                },
            },
    {
        let table = match self.main_table {
            Some(t) => t,
            None => return Err(ImageError::NoMainTable),
        };
        let funcs = &self.tables[table];
        let i = idx as usize;
        if i < funcs.len() {
            Ok(funcs[i])
        } else {
            Err(ImageError::FuncPtrOutOfBounds)
        }
    }
}

/// Writes the snapshot's memories back into `module`: each memory of the
/// image gets one segment at offset 0 that holds its current bytes, in place
/// of all the segments it had.
pub fn update(module: &mut Module, im: &Image)
    requires
        im.memories@.len() <= old(module).memories@.len(),
    ensures
        final(module).memories@.len() == old(module).memories@.len(),
        forall|m: int| 0 <= m < im.memories@.len() ==> {
            let md = #[trigger] final(module).memories@[m];
            &&& md.initial_pages == old(module).memories@[m].initial_pages
            &&& md.segments@.len() == 1
            &&& md.segments@[0].offset == 0
            &&& md.segments@[0].data@ == im.memories@[m].bytes()
        },
        forall|m: int| im.memories@.len() <= m < final(module).memories@.len() ==> #[trigger] final(module).memories@[m] == old(module).memories@[m],
        final(module).globals == old(module).globals,
        final(module).tables == old(module).tables,
        final(module).funcs == old(module).funcs,
        final(module).signatures == old(module).signatures,
        final(module).imports == old(module).imports,
        final(module).exports == old(module).exports,
{
    let mut m: usize = 0;
    while m < im.memories.len()
        invariant
            0 <= m <= im.memories@.len(),
            im.memories@.len() <= module.memories@.len(),
            module.memories@.len() == old(module).memories@.len(),
            forall|i: int| 0 <= i < m ==> {
                let md = #[trigger] module.memories@[i];
                &&& md.initial_pages == old(module).memories@[i].initial_pages
                &&& md.segments@.len() == 1
                &&& md.segments@[0].offset == 0
                &&& md.segments@[0].data@ == im.memories@[i].bytes()
            },
            forall|i: int| m <= i < module.memories@.len() ==> #[trigger] module.memories@[i] == old(module).memories@[i],
            module.globals == old(module).globals,
            module.tables == old(module).tables,
            module.funcs == old(module).funcs,
            module.signatures == old(module).signatures,
            module.imports == old(module).imports,
            module.exports == old(module).exports,
        decreases im.memories@.len() - m,
    {
        let data = im.memories[m].image.clone();
        assert(data@ =~= im.memories@[m as int].image@);
        let seg = MemorySegment { offset: 0, data };
        let md = MemoryData { initial_pages: module.memories[m].initial_pages, segments: vec![seg] };
        module.memories.set(m, md);
        m = m + 1;
    }
}

/// Byte `i` lies in the range that `seg` initialises.
pub open spec fn in_segment(seg: MemorySegment, i: int) -> bool {
    seg.offset <= i < seg.offset + seg.data@.len()
}

/// No byte lies in two segments.
pub open spec fn segments_disjoint(segs: Seq<MemorySegment>) -> bool {
    forall|k1: int, k2: int, i: int|
        0 <= k1 < segs.len() && 0 <= k2 < segs.len() && k1 != k2 && #[trigger] in_segment(segs[k1], i)
            ==> !#[trigger] in_segment(segs[k2], i)
}

proof fn lemma_fill_segments(base: Seq<u8>, segs: Seq<MemorySegment>)
    requires
        forall|k: int| 0 <= k < segs.len() ==> #[trigger] segs[k].offset + segs[k].data@.len() <= base.len(),
        segments_disjoint(segs),
    ensures
        fill_segments(base, segs).len() == base.len(),
        forall|k: int, i: int| 0 <= k < segs.len() && #[trigger] in_segment(segs[k], i)
            ==> fill_segments(base, segs)[i] == segs[k].data@[i - segs[k].offset],
        forall|i: int| 0 <= i < base.len() && (forall|k: int| 0 <= k < segs.len() ==> !#[trigger] in_segment(segs[k], i))
            ==> fill_segments(base, segs)[i] == base[i],
    decreases segs.len(),
{
    if segs.len() > 0 {
        let init = segs.drop_last();
        let last = segs.last();
        assert forall|k: int| 0 <= k < init.len() implies #[trigger] init[k].offset + init[k].data@.len() <= base.len() by {
            assert(init[k] == segs[k]);
        }
        assert(segments_disjoint(init)) by {
            assert forall|k1: int, k2: int, i: int|
                0 <= k1 < init.len() && 0 <= k2 < init.len() && k1 != k2 && #[trigger] in_segment(init[k1], i)
                    implies !#[trigger] in_segment(init[k2], i) by {
                assert(init[k1] == segs[k1] && init[k2] == segs[k2]);
            }
        }
        lemma_fill_segments(base, init);
        let prev = fill_segments(base, init);
        assert(last == segs[segs.len() - 1]);
        assert forall|k: int, i: int| 0 <= k < segs.len() && #[trigger] in_segment(segs[k], i)
            implies fill_segments(base, segs)[i] == segs[k].data@[i - segs[k].offset] by {
            if k < segs.len() - 1 {
                assert(init[k] == segs[k]);
                assert(!in_segment(segs[segs.len() - 1], i));
            }
        }
        assert forall|i: int| 0 <= i < base.len() && (forall|k: int| 0 <= k < segs.len() ==> !#[trigger] in_segment(segs[k], i))
            implies fill_segments(base, segs)[i] == base[i] by {
            assert(!in_segment(segs[segs.len() - 1], i));
            assert forall|k: int| 0 <= k < init.len() implies !#[trigger] in_segment(init[k], i) by {
                assert(init[k] == segs[k]);
            }
        }
    }
}

/// A memory without segments starts as `initial_pages` pages of zeros.
pub proof fn lemma_no_segments_all_zero(mem: MemoryData)
    requires
        mem.segments@.len() == 0,
    ensures
        initial_bytes(mem).len() == mem.initial_pages * WASM_PAGE,
        forall|i: int| 0 <= i < initial_bytes(mem).len() ==> initial_bytes(mem)[i] == 0,
{
}

/// When the segments fit the memory and do not overlap, each segment's bytes
/// appear at its offset, and every byte outside all segments is zero.
pub proof fn lemma_segments_copied(mem: MemoryData)
    requires
        forall|k: int| 0 <= k < mem.segments@.len() ==> #[trigger] segment_fits(mem, k),
        segments_disjoint(mem.segments@),
    ensures
        initial_bytes(mem).len() == pages_len(mem.initial_pages),
        forall|k: int, i: int| 0 <= k < mem.segments@.len() && #[trigger] in_segment(mem.segments@[k], i)
            ==> initial_bytes(mem)[i] == mem.segments@[k].data@[i - mem.segments@[k].offset],
        forall|i: int| 0 <= i < pages_len(mem.initial_pages) && (forall|k: int| 0 <= k < mem.segments@.len() ==> !#[trigger] in_segment(mem.segments@[k], i))
            ==> initial_bytes(mem)[i] == 0,
{
    let base = zeros(pages_len(mem.initial_pages));
    assert forall|k: int| 0 <= k < mem.segments@.len() implies #[trigger] mem.segments@[k].offset + mem.segments@[k].data@.len() <= base.len() by {
        assert(segment_fits(mem, k));
    }
    lemma_fill_segments(base, mem.segments@);
    assert(base.len() == pages_len(mem.initial_pages));
    assert forall|i: int| 0 <= i < pages_len(mem.initial_pages) && (forall|k: int| 0 <= k < mem.segments@.len() ==> !#[trigger] in_segment(mem.segments@[k], i))
        implies initial_bytes(mem)[i] == 0 by {
        assert(base[i] == 0);
        assert(fill_segments(base, mem.segments@)[i] == base[i]);
    }
}

/// Copies `data` into `image` from `off` on.
fn copy_segment(image: &mut Vec<u8>, off: usize, data: &Vec<u8>)
    requires
        off + data@.len() <= old(image)@.len(),
    ensures
        final(image)@ == splice(old(image)@, off as int, data@),
{
    let n: usize = image.len();
    let mut j: usize = 0;
    while j < data.len()
        invariant
            n == image@.len(),
            off + data@.len() <= image@.len(),
            image@.len() == old(image)@.len(),
            0 <= j <= data@.len(),
            forall|i: int| 0 <= i < image@.len() ==> #[trigger] image@[i] == if off <= i < off + j {
                data@[i - off]
            } else {
                old(image)@[i]
            },
        decreases data@.len() - j,
    {
        image.set(off + j, data[j]);
        j = j + 1;
    }
    assert(image@ =~= splice(old(image)@, off as int, data@));
}

/// The snapshot of one memory: `initial_pages` zeroed pages with each segment
/// copied in at its offset.
pub fn maybe_mem_image(mem: &MemoryData) -> (r: Result<MemImage, ImageError>)
    ensures
        mem_error(*mem) is None <==> r is Ok,
        r matches Err(e) ==> mem_error(*mem) == Some(e),
        r matches Ok(m) ==> m.wf() && m.len == pages_len(mem.initial_pages) && m.bytes() == initial_bytes(*mem),
{
    if mem.initial_pages > MAX_PAGES {
        return Err(ImageError::MemoryTooLarge);
    }
    let len = match mem.initial_pages.checked_mul(WASM_PAGE) {
        Some(len) => len,
        None => return Err(ImageError::MemoryTooLarge),
    };
    let mut k: usize = 0;
    while k < mem.segments.len()
        invariant
            len == pages_len(mem.initial_pages),
            mem.initial_pages <= MAX_PAGES,
            0 <= k <= mem.segments@.len(),
            forall|i: int| 0 <= i < k ==> #[trigger] segment_fits(*mem, i),
        decreases mem.segments@.len() - k,
    {
        let seg = &mem.segments[k];
        if seg.offset > len || len - seg.offset < seg.data.len() {
            assert(!segment_fits(*mem, k as int));
            return Err(ImageError::SegmentOutOfBounds);
        }
        k = k + 1;
    }
    let mut image: Vec<u8> = vec![0u8; len];
    assert(image@ =~= zeros(len as int));
    let mut k: usize = 0;
    while k < mem.segments.len()
        invariant
            len == pages_len(mem.initial_pages),
            0 <= k <= mem.segments@.len(),
            forall|i: int| 0 <= i < mem.segments@.len() ==> #[trigger] segment_fits(*mem, i),
            image@ == fill_segments(zeros(len as int), mem.segments@.subrange(0, k as int)),
            image@.len() == len,
        decreases mem.segments@.len() - k,
    {
        let seg = &mem.segments[k];
        assert(segment_fits(*mem, k as int));
        copy_segment(&mut image, seg.offset, &seg.data);
        assert(mem.segments@.subrange(0, k + 1).drop_last() =~= mem.segments@.subrange(0, k as int));
        k = k + 1;
    }
    assert(mem.segments@.subrange(0, k as int) =~= mem.segments@);
    Ok(MemImage { image, len })
}

/// Snapshots every memory, global and table of `module`, and takes the first
/// memory, table and global as the primary heap, the function-pointer table
/// and the shadow stack pointer.
pub fn build_image(module: &Module) -> (r: Result<Image, ImageError>)
    ensures
        r is Ok <==> forall|m: int| 0 <= m < module.memories@.len() ==> (#[trigger] mem_error(module.memories@[m])) is None,
        r matches Err(e) ==> exists|m: int| 0 <= m < module.memories@.len() && #[trigger] mem_error(module.memories@[m]) == Some(e),
        r matches Ok(im) ==> im.wf() && im.snapshot_of(*module),
{
    let mut memories: Vec<MemImage> = Vec::new();
    let mut m: usize = 0;
    while m < module.memories.len()
        invariant
            0 <= m <= module.memories@.len(),
            memories@.len() == m,
            forall|i: int| 0 <= i < m ==> (#[trigger] mem_error(module.memories@[i])) is None,
            forall|i: int| 0 <= i < m ==> {
                &&& (#[trigger] memories@[i]).wf()
                &&& memories@[i].len == pages_len(module.memories@[i].initial_pages)
                &&& memories@[i].bytes() == initial_bytes(module.memories@[i])
            },
        decreases module.memories@.len() - m,
    {
        let mi = maybe_mem_image(&module.memories[m])?;
        memories.push(mi);
        m = m + 1;
    }
    let mut globals: Vec<Option<WasmVal>> = Vec::new();
    let mut g: usize = 0;
    while g < module.globals.len()
        invariant
            0 <= g <= module.globals@.len(),
            globals@.len() == g,
            forall|i: int| 0 <= i < g ==> #[trigger] globals@[i] == global_value(module.globals@[i]),
        decreases module.globals@.len() - g,
    {
        let v = match module.globals[g].value {
            Some(bits) => WasmVal::from_bits(module.globals[g].ty, bits),
            None => None,
        };
        globals.push(v);
        g = g + 1;
    }
    let mut tables: Vec<Vec<Func>> = Vec::new();
    let mut t: usize = 0;
    while t < module.tables.len()
        invariant
            0 <= t <= module.tables@.len(),
            tables@.len() == t,
            forall|i: int| 0 <= i < t ==> (#[trigger] tables@[i])@ == table_funcs(module.tables@[i]),
        decreases module.tables@.len() - t,
    {
        let elems: Vec<Func> = match &module.tables[t].func_elements {
            Some(v) => v.clone(),
            None => Vec::new(),
        };
        assert(elems@ =~= table_funcs(module.tables@[t as int]));
        tables.push(elems);
        t = t + 1;
    }
    let main_heap = if module.memories.len() > 0 { Some(0usize) } else { None };
    let main_table = if module.tables.len() > 0 { Some(0usize) } else { None };
    let stack_pointer = if module.globals.len() > 0 { Some(0usize) } else { None };
    Ok(Image { memories, globals, tables, stack_pointer, main_heap, main_table })
}

} // verus!
