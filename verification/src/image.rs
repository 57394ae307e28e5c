//! The loadable image: the segments of an object file, merged into one
//! contiguous span of target memory.

use crate::error::ImageError;
use crate::text::lower_hex;
use crate::text::push_lower_hex;
use crate::wire::read_word;
use crate::wire::word_at;
use vstd::prelude::*;
use vstd::slice::slice_to_vec;
use vstd::string::StringExecFns;

verus! {

/// The program header type of a segment that is loaded into memory.
pub const PT_LOAD: u32 = 1;

/// The byte that fills the space between segments: erased flash.
pub const GAP_FILL: u8 = 0xFF;

/// The fields of an object file's program header that loading depends on.
#[derive(Clone, Copy, Debug, PartialEq, Eq)]
pub struct ProgramHeader {
    pub p_type: u32,
    pub p_offset: u32,
    pub p_paddr: u32,
    pub p_filesz: u32,
}

/// A named address of the object file's symbol table.
#[derive(Debug, PartialEq, Eq)]
pub struct Symbol {
    pub name: String,
    pub address: u64,
}

/// A `Symbol` with its name as a sequence of characters.
pub struct SymbolView {
    pub name: Seq<char>,
    pub address: u64,
}

impl View for Symbol {
    type V = SymbolView;

    open spec fn view(&self) -> SymbolView {
        SymbolView { name: self.name@, address: self.address }
    }
}

impl Clone for Symbol {
    fn clone(&self) -> (copy: Symbol)
        ensures
            copy@ == self@,
    {
        Symbol { name: self.name.clone(), address: self.address }
    }
}

/// The views of a symbol table, in the same order.
pub open spec fn symbol_views(symbols: Seq<Symbol>) -> Seq<SymbolView> {
    symbols.map_values(|s: Symbol| s@)
}

/// What the test driver reads of an object file: its raw bytes, its program
/// headers in file order, and its symbols in table order.
#[derive(Debug, PartialEq, Eq)]
pub struct TestBinary {
    pub data: Vec<u8>,
    pub segments: Vec<ProgramHeader>,
    pub symbols: Vec<Symbol>,
}

/// One contiguous span of target memory and the bytes to put there.
#[derive(Debug, PartialEq, Eq)]
pub struct LoadSegment {
    addr: u32,
    data: Vec<u8>,
}

/// A `LoadSegment` with its bytes as a sequence.
pub struct SegmentView {
    pub addr: u32,
    pub data: Seq<u8>,
}

impl SegmentView {
    /// The address just past the last byte.
    pub open spec fn end(self) -> int {
        self.addr + self.data.len()
    }
}

impl View for LoadSegment {
    type V = SegmentView;

    closed spec fn view(&self) -> SegmentView {
        SegmentView { addr: self.addr, data: self.data@ }
    }
}

/// The views of a sequence of segments, in the same order.
pub open spec fn spans(segments: Seq<LoadSegment>) -> Seq<SegmentView> {
    segments.map_values(|s: LoadSegment| s@)
}

/// Whether a program header contributes a segment: it is loadable and has
/// bytes in the file.
pub open spec fn contributes(header: ProgramHeader) -> bool {
    header.p_type == PT_LOAD && header.p_filesz != 0
}

/// Whether the bytes a header refers to lie within a file of `len` bytes.
pub open spec fn within_file(header: ProgramHeader, len: nat) -> bool {
    header.p_offset + header.p_filesz <= len
}

/// The segment that a contributing header describes: its bytes in the file,
/// at its physical address.
pub open spec fn segment_of(file: Seq<u8>, header: ProgramHeader) -> SegmentView {
    SegmentView {
        addr: header.p_paddr,
        data: file.subrange(header.p_offset as int, header.p_offset + header.p_filesz),
    }
}

/// The segments of the contributing headers, in header order.
pub open spec fn extract(file: Seq<u8>, headers: Seq<ProgramHeader>) -> Seq<SegmentView>
    decreases headers.len(),
{
    if headers.len() == 0 {
        Seq::empty()
    } else if contributes(headers.last()) {
        extract(file, headers.drop_last()).push(segment_of(file, headers.last()))
    } else {
        extract(file, headers.drop_last())
    }
}

/// `sorted` with `segment` put behind the last element whose address is not
/// greater than its own.
pub open spec fn insert_by_addr(sorted: Seq<SegmentView>, segment: SegmentView) -> Seq<
    SegmentView,
>
    decreases sorted.len(),
{
    if sorted.len() == 0 {
        seq![segment]
    } else if sorted.last().addr <= segment.addr {
        sorted.push(segment)
    } else {
        insert_by_addr(sorted.drop_last(), segment).push(sorted.last())
    }
}

/// The segments in ascending order of address; segments with the same
/// address keep their order.
pub open spec fn sort_by_addr(segments: Seq<SegmentView>) -> Seq<SegmentView>
    decreases segments.len(),
{
    if segments.len() == 0 {
        Seq::empty()
    } else {
        insert_by_addr(sort_by_addr(segments.drop_last()), segments.last())
    }
}

/// `count` fill bytes; none for a count that is not positive.
pub open spec fn gap(count: int) -> Seq<u8> {
    Seq::new(
        if count > 0 {
            count as nat
        } else {
            0
        },
        |i: int| GAP_FILL,
    )
}

/// The bytes of segments laid out one after the other in the order given,
/// with fill bytes wherever a segment starts past the end of the one before.
/// A segment that starts earlier than that is appended as it is.
pub open spec fn layout(ordered: Seq<SegmentView>) -> Seq<u8>
    decreases ordered.len(),
{
    if ordered.len() == 0 {
        Seq::empty()
    } else if ordered.len() == 1 {
        ordered[0].data
    } else {
        layout(ordered.drop_last()) + gap(ordered.last().addr - ordered[ordered.len() - 2].end())
            + ordered.last().data
    }
}

/// The single segment that stands for all of `segments`.
pub open spec fn merged(segments: Seq<SegmentView>) -> SegmentView
    recommends
        segments.len() > 0,
{
    let ordered = sort_by_addr(segments);
    SegmentView { addr: ordered[0].addr, data: layout(ordered) }
}

/// Where `insert_by_addr` puts a segment: behind every segment whose address
/// is not greater than its own, before every other.
pub proof fn lemma_insert_place(ordered: Seq<SegmentView>, segment: SegmentView) -> (pos: int)
    ensures
        0 <= pos <= ordered.len(),
        insert_by_addr(ordered, segment) == ordered.insert(pos, segment),
        forall|j: int| pos <= j < ordered.len() ==> ordered[j].addr > segment.addr,
        pos > 0 ==> ordered[pos - 1].addr <= segment.addr,
    decreases ordered.len(),
{
    if ordered.len() == 0 {
        assert(seq![segment] =~= ordered.insert(0, segment));
        0
    } else if ordered.last().addr <= segment.addr {
        assert(ordered.push(segment) =~= ordered.insert(ordered.len() as int, segment));
        ordered.len() as int
    } else {
        let pos = lemma_insert_place(ordered.drop_last(), segment);
        assert forall|j: int| pos <= j < ordered.len() implies ordered[j].addr
            > segment.addr by {
            if j < ordered.len() - 1 {
                assert(ordered.drop_last()[j] == ordered[j]);
            }
        }
        if pos > 0 {
            assert(ordered.drop_last()[pos - 1] == ordered[pos - 1]);
        }
        assert(ordered.drop_last().insert(pos, segment).push(ordered.last()) =~= ordered.insert(
            pos,
            segment,
        ));
        pos
    }
}

/// The segments that `order` picks, one after the other.
spec fn picked(order: Seq<usize>, segments: Seq<SegmentView>) -> Seq<SegmentView> {
    Seq::new(order.len(), |k: int| segments[order[k] as int])
}

fn append_bytes(image: &mut Vec<u8>, bytes: &[u8])
    ensures
        final(image)@ == old(image)@ + bytes@,
{
    let mut i: usize = 0;
    while i < bytes.len()
        invariant
            i <= bytes@.len(),
            image@ == old(image)@ + bytes@.take(i as int),
        decreases bytes@.len() - i,
    {
        image.push(bytes[i]);
        i = i + 1;
        assert(image@ =~= old(image)@ + bytes@.take(i as int));
    }
    assert(bytes@.take(i as int) =~= bytes@);
}

fn append_gap(image: &mut Vec<u8>, count: u32)
    ensures
        final(image)@ == old(image)@ + gap(count as int),
{
    let mut i: u32 = 0;
    while i < count
        invariant
            i <= count,
            image@ == old(image)@ + gap(i as int),
        decreases count - i,
    {
        image.push(GAP_FILL);
        i = i + 1;
        assert(image@ =~= old(image)@ + gap(i as int));
    }
}

impl TestBinary {
    /// Puts together what was read of an object file.
    pub fn new(data: Vec<u8>, segments: Vec<ProgramHeader>, symbols: Vec<Symbol>) -> (binary:
        TestBinary)
        ensures
            binary.data == data,
            binary.segments == segments,
            binary.symbols == symbols,
    {
        TestBinary { data, segments, symbols }
    }

    /// Every contributing program header refers to bytes that the file holds.
    pub open spec fn well_formed(&self) -> bool {
        forall|i: int|
            0 <= i < self.segments@.len() && contributes(#[trigger] self.segments@[i])
                ==> within_file(self.segments@[i], self.data@.len())
    }

    /// Checks that every contributing program header refers to bytes that the
    /// file holds.
    pub fn is_well_formed(&self) -> (ok: bool)
        ensures
            ok == self.well_formed(),
    {
        let mut i: usize = 0;
        while i < self.segments.len()
            invariant
                i <= self.segments@.len(),
                forall|j: int|
                    0 <= j < i && contributes(#[trigger] self.segments@[j]) ==> within_file(
                        self.segments@[j],
                        self.data@.len(),
                    ),
            decreases self.segments@.len() - i,
        {
            let header = self.segments[i];
            if header.p_type == PT_LOAD && header.p_filesz != 0 {
                let end: u64 = header.p_offset as u64 + header.p_filesz as u64;
                if end > self.data.len() as u64 {
                    return false;
                }
            }
            i = i + 1;
        }
        true
    }
}

impl LoadSegment {
    /// A segment of `data` at `addr`.
    pub fn new(addr: u32, data: Vec<u8>) -> (segment: LoadSegment)
        ensures
            segment@.addr == addr,
            segment@.data == data@,
    {
        LoadSegment { addr, data }
    }

    /// The segments of an object file, one for each contributing program
    /// header, in header order.
    pub fn get_from_file(binary: &TestBinary) -> (segments: Vec<LoadSegment>)
        requires
            binary.well_formed(),
        ensures
            spans(segments@) == extract(binary.data@, binary.segments@),
    {
        let mut segments_to_load: Vec<LoadSegment> = Vec::new();
        let file_data: &[u8] = binary.data.as_slice();
        let mut i: usize = 0;
        assert(binary.segments@.take(0) =~= Seq::empty());
        assert(spans(segments_to_load@) =~= Seq::empty());
        while i < binary.segments.len()
            invariant
                i <= binary.segments@.len(),
                binary.well_formed(),
                file_data@ == binary.data@,
                spans(segments_to_load@) == extract(binary.data@, binary.segments@.take(i as int)),
            decreases binary.segments@.len() - i,
        {
            let header = binary.segments[i];
            assert(binary.segments@.take(i + 1).drop_last() =~= binary.segments@.take(i as int));
            assert(binary.segments@.take(i + 1).last() == header);
            if header.p_type == PT_LOAD && header.p_filesz != 0 {
                assert(contributes(binary.segments@[i as int]));
                assert(within_file(header, binary.data@.len()));
                let file_len: usize = file_data.len();
                let offset: usize = header.p_offset as usize;
                let file_size: usize = header.p_filesz as usize;
                let load_data: &[u8] = &file_data[offset..offset + file_size];
                let segment = LoadSegment { addr: header.p_paddr, data: slice_to_vec(load_data) };
                assert(segment@ == segment_of(binary.data@, header));
                let ghost before = spans(segments_to_load@);
                segments_to_load.push(segment);
                assert(spans(segments_to_load@) =~= before.push(segment@));
            }
            i = i + 1;
        }
        assert(binary.segments@.take(i as int) =~= binary.segments@);
        segments_to_load
    }

    /// The positions of `segments` in ascending order of address, positions
    /// of equal address in ascending order.
    fn order_by_addr(segments: &Vec<LoadSegment>) -> (order: Vec<usize>)
        ensures
            order@.len() == segments@.len(),
            forall|k: int| 0 <= k < order@.len() ==> order@[k] < segments@.len(),
            picked(order@, spans(segments@)) == sort_by_addr(spans(segments@)),
    {
        let ghost all = spans(segments@);
        let mut order: Vec<usize> = Vec::new();
        let mut i: usize = 0;
        assert(all.take(0) =~= Seq::empty());
        assert(picked(order@, all) =~= Seq::empty());
        while i < segments.len()
            invariant
                i <= segments@.len(),
                all == spans(segments@),
                order@.len() == i,
                forall|k: int| 0 <= k < order@.len() ==> order@[k] < i,
                picked(order@, all) == sort_by_addr(all.take(i as int)),
            decreases segments@.len() - i,
        {
            let addr: u32 = segments[i].addr;
            let ghost sorted = picked(order@, all);
            let mut pos: usize = order.len();
            while pos > 0 && segments[order[pos - 1]].addr > addr
                invariant
                    pos <= order@.len(),
                    i < segments@.len(),
                    all == spans(segments@),
                    addr == all[i as int].addr,
                    sorted == picked(order@, all),
                    forall|k: int| 0 <= k < order@.len() ==> order@[k] < i,
                    forall|j: int| pos <= j < sorted.len() ==> sorted[j].addr > addr,
                decreases pos,
            {
                pos = pos - 1;
            }
            proof {
                let place = lemma_insert_place(sorted, all[i as int]);
                if place < pos {
                    assert(sorted[pos - 1].addr > addr);
                }
                assert(place == pos);
                assert(all.take(i + 1).drop_last() =~= all.take(i as int));
                assert(all.take(i + 1).last() == all[i as int]);
            }
            order.insert(pos, i);
            assert(picked(order@, all) =~= sorted.insert(pos as int, all[i as int]));
            i = i + 1;
        }
        assert(all.take(i as int) =~= all);
        order
    }

    /// Merges segments into the one segment that is downloaded: sorted by
    /// address, laid out one after the other, every hole filled with
    /// `GAP_FILL`. There is nothing to merge where there is no segment.
    pub fn collapse_segments(segments: Vec<LoadSegment>) -> (image: Option<LoadSegment>)
        ensures
            segments@.len() == 0 <==> image is None,
            image matches Some(segment) ==> segment@ == merged(spans(segments@)),
    {
        if segments.len() < 1 {
            return None;
        }
        let order = Self::order_by_addr(&segments);
        let ghost ordered = sort_by_addr(spans(segments@));
        let first: &LoadSegment = &segments[order[0]];
        let mut binary: Vec<u8> = Vec::new();
        append_bytes(&mut binary, first.data.as_slice());
        let mut current_addr: u128 = first.addr as u128 + first.data.len() as u128;
        let mut k: usize = 1;
        assert(binary@ =~= layout(ordered.take(1)));
        while k < order.len()
            invariant
                1 <= k <= order@.len(),
                order@.len() == segments@.len(),
                forall|j: int| 0 <= j < order@.len() ==> order@[j] < segments@.len(),
                ordered == picked(order@, spans(segments@)),
                binary@ == layout(ordered.take(k as int)),
                current_addr == ordered[k - 1].end(),
            decreases order@.len() - k,
        {
            let segment: &LoadSegment = &segments[order[k]];
            assert(segment@ == ordered[k as int]);
            let segment_addr: u128 = segment.addr as u128;
            let ghost prefix = ordered.take(k + 1);
            assert(prefix.drop_last() =~= ordered.take(k as int));
            assert(prefix.last() == ordered[k as int]);
            assert(prefix[prefix.len() - 2] == ordered[k - 1]);
            if segment_addr > current_addr {
                let gap_size: u32 = (segment_addr - current_addr) as u32;
                append_gap(&mut binary, gap_size);
            } else {
                assert(binary@ + gap(segment_addr - current_addr) =~= binary@);
            }
            append_bytes(&mut binary, segment.data.as_slice());
            current_addr = segment_addr + segment.data.len() as u128;
            k = k + 1;
        }
        assert(ordered.take(k as int) =~= ordered);
        Some(LoadSegment { addr: first.addr, data: binary })
    }

    /// The segment in a few words: its address and its length, both in
    /// hexadecimal.
    pub fn describe(&self) -> (text: String)
        ensures
            text@ == "LoadSegment(0x"@ + lower_hex(self@.addr as nat) + ", 0x"@ + lower_hex(
                self@.data.len(),
            ) + ")"@,
    {
        let mut text = String::from_str("LoadSegment(0x");
        push_lower_hex(&mut text, self.addr as u64);
        text.append(", 0x");
        push_lower_hex(&mut text, self.data.len() as u64);
        text.append(")");
        text
    }

    /// The address of the first byte.
    pub fn start_addr(&self) -> (addr: u32)
        ensures
            addr == self@.addr,
    {
        self.addr
    }

    /// The address just past the last byte.
    pub fn end_addr(&self) -> (addr: u32)
        requires
            self@.end() <= u32::MAX,
        ensures
            addr == self@.end(),
    {
        self.addr + (self.data.len() as u32)
    }

    /// The bytes of the segment.
    pub fn data(&self) -> (bytes: &[u8])
        ensures
            bytes@ == self@.data,
    {
        self.data.as_slice()
    }

    /// Reads the initial stack pointer and the entry point from the vector
    /// table at `vector_table_addr`: its first two little-endian words. The
    /// table must lie within the segment.
    pub fn resolve_vector_table(&self, vector_table_addr: u32) -> (vectors: Result<
        (u32, u32),
        ImageError,
    >)
        ensures
            vectors == vector_table(self@, vector_table_addr),
    {
        let end: u128 = self.addr as u128 + self.data.len() as u128;
        if vector_table_addr < self.addr || vector_table_addr as u128 + 8 > end {
            return Err(ImageError::VectorTableOutOfRange);
        }
        let offset: usize = (vector_table_addr - self.addr) as usize;
        let table: &[u8] = &self.data.as_slice()[offset..offset + 8];
        let stack_pointer: u32 = read_word(table, 0);
        let entry_point: u32 = read_word(table, 1);
        Ok((stack_pointer, entry_point))
    }
}

/// The initial stack pointer and the entry point that the vector table at
/// `vector_table_addr` holds, where all eight bytes of it lie in `segment`.
pub open spec fn vector_table(segment: SegmentView, vector_table_addr: u32) -> Result<
    (u32, u32),
    ImageError,
> {
    if vector_table_addr < segment.addr || vector_table_addr + 8 > segment.end() {
        Err(ImageError::VectorTableOutOfRange)
    } else {
        let offset = vector_table_addr - segment.addr;
        let table = segment.data.subrange(offset, offset + 8);
        Ok((word_at(table, 0), word_at(table, 1)))
    }
}

} // verus!
