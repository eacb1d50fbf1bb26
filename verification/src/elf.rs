//! The kernel image as a 64-bit little-endian ELF file.
//!
//! The buffer comes from a storage volume and is not trusted: every read is
//! checked against the buffer's length, for every length including zero, and
//! any defect is answered with `MalformedImage`.

use crate::error::BootError;
use vstd::prelude::*;

verus! {

/// Length in bytes of the ELF64 file header.
pub const ELF_HEADER_LEN: usize = 64;

/// Length in bytes of one ELF64 program header.
pub const PROGRAM_HEADER_LEN: usize = 56;

/// The program header type that marks a loadable segment.
pub const PT_LOAD: u32 = 1;

/// The 16-bit little-endian number at `at`.
pub open spec fn le_u16(bytes: Seq<u8>, at: int) -> u16 {
    (bytes[at] as int + 0x100 * (bytes[at + 1] as int)) as u16
}

/// The 32-bit little-endian number at `at`.
pub open spec fn le_u32(bytes: Seq<u8>, at: int) -> u32 {
    (le_u16(bytes, at) as int + 0x1_0000 * (le_u16(bytes, at + 2) as int)) as u32
}

/// The 64-bit little-endian number at `at`.
pub open spec fn le_u64(bytes: Seq<u8>, at: int) -> u64 {
    (le_u32(bytes, at) as int + 0x1_0000_0000 * (le_u32(bytes, at + 4) as int)) as u64
}

fn read_u16(bytes: &[u8], at: usize) -> (value: u16)
    requires
        at + 2 <= bytes.len(),
    ensures
        value == le_u16(bytes@, at as int),
{
    let low: u16 = bytes[at] as u16;
    let high: u16 = bytes[at + 1] as u16;
    low + 0x100 * high
}

fn read_u32(bytes: &[u8], at: usize) -> (value: u32)
    requires
        at + 4 <= bytes.len(),
    ensures
        value == le_u32(bytes@, at as int),
{
    let low: u32 = read_u16(bytes, at) as u32;
    let high: u32 = read_u16(bytes, at + 2) as u32;
    low + 0x1_0000 * high
}

fn read_u64(bytes: &[u8], at: usize) -> (value: u64)
    requires
        at + 8 <= bytes.len(),
    ensures
        value == le_u64(bytes@, at as int),
{
    let low: u64 = read_u32(bytes, at) as u64;
    let high: u64 = read_u32(bytes, at + 4) as u64;
    low + 0x1_0000_0000 * high
}

/// What the loader reads from the ELF file header.
#[derive(Clone, Copy, Debug, PartialEq, Eq, Structural)]
pub struct ElfHeader {
    /// Address at which the kernel starts executing.
    pub entry: u64,
    /// File offset of the program header table.
    pub ph_offset: u64,
    /// Size in bytes of one entry of the table.
    pub ph_entry_size: u16,
    /// Number of entries the table declares.
    pub ph_count: u16,
}

/// One entry of the program header table, field for field.
#[derive(Clone, Copy, Debug, PartialEq, Eq, Structural)]
pub struct ProgramHeader {
    pub kind: u32,
    pub flags: u32,
    pub offset: u64,
    pub virtual_addr: u64,
    pub physical_addr: u64,
    pub file_size: u64,
    pub mem_size: u64,
    pub align: u64,
}

/// What a program header describes, by its type number.
#[derive(Clone, Copy, Debug, PartialEq, Eq, Structural)]
pub enum SegmentKind {
    Null,
    Load,
    Dynamic,
    Interp,
    Note,
    ShLib,
    Phdr,
    Tls,
    /// Any type number without a name of its own here.
    Other(u32),
}

/// One region of the image that must be placed in memory before the kernel
/// runs. Memory beyond `file_size` up to `mem_size` is to be zero-filled.
#[derive(Clone, Copy, Debug, PartialEq, Eq, Structural)]
pub struct ImageSegment {
    pub kind: SegmentKind,
    pub flags: u32,
    pub offset: u64,
    pub file_size: u64,
    pub virtual_addr: u64,
    pub physical_addr: u64,
    pub mem_size: u64,
    pub align: u64,
}

/// The file starts with a complete ELF header that carries the ELF magic and
/// declares the 64-bit class and little-endian data.
pub open spec fn header_valid(bytes: Seq<u8>) -> bool {
    &&& bytes.len() >= ELF_HEADER_LEN
    &&& bytes[0] == 0x7f
    &&& bytes[1] == 0x45
    &&& bytes[2] == 0x4c
    &&& bytes[3] == 0x46
    &&& bytes[4] == 2
    &&& bytes[5] == 1
}

/// The header fields of a file, by their offsets in the ELF64 layout.
pub open spec fn header_of(bytes: Seq<u8>) -> ElfHeader {
    ElfHeader {
        entry: le_u64(bytes, 24),
        ph_offset: le_u64(bytes, 32),
        ph_entry_size: le_u16(bytes, 54),
        ph_count: le_u16(bytes, 56),
    }
}

/// The program header whose first byte is at `at`.
pub open spec fn program_header_at(bytes: Seq<u8>, at: int) -> ProgramHeader {
    ProgramHeader {
        kind: le_u32(bytes, at),
        flags: le_u32(bytes, at + 4),
        offset: le_u64(bytes, at + 8),
        virtual_addr: le_u64(bytes, at + 16),
        physical_addr: le_u64(bytes, at + 24),
        file_size: le_u64(bytes, at + 32),
        mem_size: le_u64(bytes, at + 40),
        align: le_u64(bytes, at + 48),
    }
}

/// Number of program headers a file has: as many as its header declares.
pub open spec fn table_len(header: ElfHeader) -> nat {
    header.ph_count as nat
}

/// Every declared program header lies inside a file of `len` bytes and is
/// large enough to hold the ELF64 fields. A header that declares entries of
/// no size, or a table no part of which is in the file, declares what cannot
/// be read; a header that declares no entries declares nothing to read.
pub open spec fn table_readable(len: nat, header: ElfHeader) -> bool {
    table_len(header) > 0 ==> {
        &&& header.ph_entry_size >= PROGRAM_HEADER_LEN
        &&& header.ph_offset + header.ph_count * header.ph_entry_size <= len
    }
}

/// The program header table, in file order.
pub open spec fn table_of(bytes: Seq<u8>, header: ElfHeader) -> Seq<ProgramHeader> {
    Seq::new(
        table_len(header),
        |i: int| program_header_at(bytes, header.ph_offset + i * header.ph_entry_size),
    )
}

/// The kind a type number stands for.
pub open spec fn kind_of(raw: u32) -> SegmentKind {
    if raw == 0 {
        SegmentKind::Null
    } else if raw == 1 {
        SegmentKind::Load
    } else if raw == 2 {
        SegmentKind::Dynamic
    } else if raw == 3 {
        SegmentKind::Interp
    } else if raw == 4 {
        SegmentKind::Note
    } else if raw == 5 {
        SegmentKind::ShLib
    } else if raw == 6 {
        SegmentKind::Phdr
    } else if raw == 7 {
        SegmentKind::Tls
    } else {
        SegmentKind::Other(raw)
    }
}

/// An entry is loadable when its type number is `PT_LOAD`.
pub open spec fn is_loadable(header: ProgramHeader) -> bool {
    header.kind == PT_LOAD
}

/// The segment a loadable program header describes: every field as the
/// header has it.
pub open spec fn segment_of(header: ProgramHeader) -> ImageSegment {
    ImageSegment {
        kind: kind_of(header.kind),
        flags: header.flags,
        offset: header.offset,
        file_size: header.file_size,
        virtual_addr: header.virtual_addr,
        physical_addr: header.physical_addr,
        mem_size: header.mem_size,
        align: header.align,
    }
}

/// The loadable entries of a table as segments, in the table's order.
pub open spec fn loadable_of(table: Seq<ProgramHeader>) -> Seq<ImageSegment> {
    table.filter(|h: ProgramHeader| is_loadable(h)).map_values(|h: ProgramHeader| segment_of(h))
}

/// Every loadable entry of the table describes a segment that fits an image
/// of `image_len` bytes.
pub open spec fn loadable_fit(table: Seq<ProgramHeader>, image_len: nat) -> bool {
    forall|i: int|
        0 <= i < table.len() && is_loadable(#[trigger] table[i]) ==> segment_of(table[i]).fits(
            image_len,
        )
}

/// The file is an image the loader accepts.
pub open spec fn image_valid(bytes: Seq<u8>) -> bool {
    &&& header_valid(bytes)
    &&& table_readable(bytes.len(), header_of(bytes))
    &&& loadable_fit(table_of(bytes, header_of(bytes)), bytes.len())
}

impl SegmentKind {
    /// Names the type number of a program header.
    pub fn of(raw: u32) -> (kind: SegmentKind)
        ensures
            kind == kind_of(raw),
    {
        if raw == 0 {
            SegmentKind::Null
        } else if raw == 1 {
            SegmentKind::Load
        } else if raw == 2 {
            SegmentKind::Dynamic
        } else if raw == 3 {
            SegmentKind::Interp
        } else if raw == 4 {
            SegmentKind::Note
        } else if raw == 5 {
            SegmentKind::ShLib
        } else if raw == 6 {
            SegmentKind::Phdr
        } else if raw == 7 {
            SegmentKind::Tls
        } else {
            SegmentKind::Other(raw)
        }
    }
}

impl ProgramHeader {
    /// Tells whether the entry describes a loadable segment.
    pub fn is_loadable(self) -> (loadable: bool)
        ensures
            loadable == is_loadable(self),
    {
        self.kind == PT_LOAD
    }

    /// The segment this header describes, every field copied.
    pub fn to_segment(self) -> (segment: ImageSegment)
        ensures
            segment == segment_of(self),
    {
        ImageSegment {
            kind: SegmentKind::of(self.kind),
            flags: self.flags,
            offset: self.offset,
            file_size: self.file_size,
            virtual_addr: self.virtual_addr,
            physical_addr: self.physical_addr,
            mem_size: self.mem_size,
            align: self.align,
        }
    }
}

impl ImageSegment {
    /// The segment's bytes lie inside an image of `image_len` bytes, and its
    /// memory is at least as large as what the file provides.
    pub open spec fn fits(self, image_len: nat) -> bool {
        &&& self.mem_size >= self.file_size
        &&& self.offset + self.file_size <= image_len
    }

    /// Number of bytes to zero-fill behind the bytes copied from the file;
    /// `None` for a segment whose memory is smaller than its file part.
    pub open spec fn zero_fill_spec(self) -> Option<u64> {
        if self.mem_size >= self.file_size {
            Some((self.mem_size - self.file_size) as u64)
        } else {
            None
        }
    }

    /// Tells whether the segment fits an image of `image_len` bytes.
    pub fn fits_in(&self, image_len: usize) -> (fits: bool)
        ensures
            fits == self.fits(image_len as nat),
    {
        let len: u64 = image_len as u64;
        self.mem_size >= self.file_size && self.offset <= len && self.file_size <= len
            - self.offset
    }

    /// Number of bytes to zero-fill behind the bytes copied from the file;
    /// `None` for a segment whose memory is smaller than its file part.
    pub fn zero_fill(&self) -> (fill: Option<u64>)
        ensures
            fill == self.zero_fill_spec(),
    {
        if self.mem_size >= self.file_size {
            Some(self.mem_size - self.file_size)
        } else {
            None
        }
    }
}

/// Reads the ELF file header. Fails with `MalformedImage` exactly when the
/// file is shorter than the header, lacks the magic, or is not of the 64-bit
/// little-endian kind.
pub fn parse_header(bytes: &[u8]) -> (parsed: Result<ElfHeader, BootError>)
    ensures
        header_valid(bytes@) ==> parsed == Ok::<ElfHeader, BootError>(header_of(bytes@)),
        !header_valid(bytes@) ==> parsed == Err::<ElfHeader, BootError>(
            BootError::MalformedImage,
        ),
{
    if bytes.len() < ELF_HEADER_LEN {
        return Err(BootError::MalformedImage);
    }
    if bytes[0] != 0x7f || bytes[1] != 0x45 || bytes[2] != 0x4c || bytes[3] != 0x46 {
        return Err(BootError::MalformedImage);
    }
    if bytes[4] != 2 || bytes[5] != 1 {
        return Err(BootError::MalformedImage);
    }
    Ok(
        ElfHeader {
            entry: read_u64(bytes, 24),
            ph_offset: read_u64(bytes, 32),
            ph_entry_size: read_u16(bytes, 54),
            ph_count: read_u16(bytes, 56),
        },
    )
}

fn read_program_header(bytes: &[u8], at: usize) -> (header: ProgramHeader)
    requires
        at + PROGRAM_HEADER_LEN <= bytes.len(),
    ensures
        header == program_header_at(bytes@, at as int),
{
    ProgramHeader {
        kind: read_u32(bytes, at),
        flags: read_u32(bytes, at + 4),
        offset: read_u64(bytes, at + 8),
        virtual_addr: read_u64(bytes, at + 16),
        physical_addr: read_u64(bytes, at + 24),
        file_size: read_u64(bytes, at + 32),
        mem_size: read_u64(bytes, at + 40),
        align: read_u64(bytes, at + 48),
    }
}

/// Walks the program header table that `header` declares, in file order.
/// Fails with `MalformedImage` exactly when a declared entry is too small or
/// reaches beyond the end of the file.
pub fn program_headers(bytes: &[u8], header: &ElfHeader) -> (table: Result<
    Vec<ProgramHeader>,
    BootError,
>)
    ensures
        match table {
            Ok(entries) => table_readable(bytes@.len(), *header) && entries@ == table_of(
                bytes@,
                *header,
            ),
            Err(e) => !table_readable(bytes@.len(), *header) && e == BootError::MalformedImage,
        },
{
    let mut entries: Vec<ProgramHeader> = Vec::new();
    if header.ph_count == 0 {
        assert(entries@ =~= table_of(bytes@, *header));
        return Ok(entries);
    }
    let count: usize = header.ph_count as usize;
    let entry_size: usize = header.ph_entry_size as usize;
    if entry_size < PROGRAM_HEADER_LEN {
        return Err(BootError::MalformedImage);
    }
    assert(header.ph_count * header.ph_entry_size <= 0xffff * 0xffff) by (nonlinear_arith)
        requires
            header.ph_count <= 0xffff,
            header.ph_entry_size <= 0xffff,
    ;
    let table_bytes: u64 = header.ph_count as u64 * header.ph_entry_size as u64;
    let len: u64 = bytes.len() as u64;
    if header.ph_offset > len || table_bytes > len - header.ph_offset {
        return Err(BootError::MalformedImage);
    }
    let mut index: usize = 0;
    let mut at: usize = header.ph_offset as usize;
    while index < count
        invariant
            index <= count,
            count == header.ph_count,
            entry_size == header.ph_entry_size,
            entry_size >= PROGRAM_HEADER_LEN,
            table_len(*header) == count,
            header.ph_offset + count * entry_size <= bytes.len(),
            at == header.ph_offset + index * entry_size,
            entries@.len() == index,
            forall|i: int|
                0 <= i < index ==> entries@[i] == program_header_at(
                    bytes@,
                    header.ph_offset + i * header.ph_entry_size,
                ),
        decreases count - index,
    {
        assert((index + 1) * entry_size <= count * entry_size) by (nonlinear_arith)
            requires
                index + 1 <= count,
                entry_size >= 0,
        ;
        assert((index + 1) * entry_size == index * entry_size + entry_size) by (nonlinear_arith);
        let entry = read_program_header(bytes, at);
        entries.push(entry);
        at = at + entry_size;
        index = index + 1;
    }
    assert(entries@ =~= table_of(bytes@, *header));
    Ok(entries)
}

/// Keeps the loadable entries of a table as segments, in the table's order,
/// and drops every other entry. Fails with `MalformedImage` exactly when a
/// loadable entry does not fit an image of `image_len` bytes.
pub fn loadable_segments(table: &Vec<ProgramHeader>, image_len: usize) -> (segments: Result<
    Vec<ImageSegment>,
    BootError,
>)
    ensures
        match segments {
            Ok(kept) => loadable_fit(table@, image_len as nat) && kept@ == loadable_of(table@),
            Err(e) => !loadable_fit(table@, image_len as nat) && e == BootError::MalformedImage,
        },
{
    let mut kept: Vec<ImageSegment> = Vec::new();
    let mut index: usize = 0;
    assert(table@.take(0) =~= Seq::<ProgramHeader>::empty());
    while index < table.len()
        invariant
            index <= table.len(),
            loadable_fit(table@.take(index as int), image_len as nat),
            kept@ == loadable_of(table@.take(index as int)),
        decreases table.len() - index,
    {
        let entry = table[index];
        proof {
            let seen = table@.take(index as int);
            assert(table@.take(index + 1) =~= seen.push(entry));
            seen.lemma_filter_push(entry, |h: ProgramHeader| is_loadable(h));
        }
        if entry.is_loadable() {
            let segment = entry.to_segment();
            if !segment.fits_in(image_len) {
                assert(is_loadable(table@[index as int]));
                return Err(BootError::MalformedImage);
            }
            kept.push(segment);
        }
        assert(kept@ =~= loadable_of(table@.take(index + 1)));
        index = index + 1;
    }
    assert(table@.take(index as int) =~= table@);
    Ok(kept)
}

/// Number of loadable entries in a table.
pub open spec fn loadable_count(table: Seq<ProgramHeader>) -> nat {
    table.filter(|h: ProgramHeader| is_loadable(h)).len()
}

/// What parsing yields, as plain values.
pub struct ImageView {
    pub entry: u64,
    pub segments: Seq<ImageSegment>,
    pub image_len: nat,
}

/// What parsing an accepted file yields.
pub open spec fn image_of(bytes: Seq<u8>) -> ImageView {
    ImageView {
        entry: header_of(bytes).entry,
        segments: loadable_of(table_of(bytes, header_of(bytes))),
        image_len: bytes.len(),
    }
}

/// A validated kernel image: its entry point and its loadable segments in
/// file order. Read-only once parsed; every segment fits the image it was
/// parsed from.
#[derive(Debug)]
pub struct ParsedImage {
    entry: u64,
    segments: Vec<ImageSegment>,
    image_len: usize,
}

impl View for ParsedImage {
    type V = ImageView;

    closed spec fn view(&self) -> ImageView {
        ImageView { entry: self.entry, segments: self.segments@, image_len: self.image_len as nat }
    }
}

impl ParsedImage {
    #[verifier::type_invariant]
    spec fn segments_fit(&self) -> bool {
        forall|i: int|
            0 <= i < self.segments@.len() ==> (#[trigger] self.segments@[i]).fits(
                self.image_len as nat,
            )
    }

    /// Address at which the kernel starts executing.
    pub fn entry(&self) -> (entry: u64)
        ensures
            entry == self@.entry,
    {
        self.entry
    }

    /// Length of the image the segments were parsed from.
    pub fn image_len(&self) -> (len: usize)
        ensures
            len == self@.image_len,
    {
        self.image_len
    }

    /// The loadable segments, in file order. Each fits the image.
    pub fn segments(&self) -> (segments: &Vec<ImageSegment>)
        ensures
            segments@ == self@.segments,
            forall|i: int|
                0 <= i < segments@.len() ==> (#[trigger] segments@[i]).fits(self@.image_len),
    {
        proof {
            use_type_invariant(self);
        }
        &self.segments
    }
}

/// Validates a kernel image and extracts its entry point and loadable
/// segments. Fails with `MalformedImage` exactly when the header is
/// defective, the program header table cannot be read in full, or a loadable
/// segment does not fit the file.
pub fn parse_image(bytes: &[u8]) -> (parsed: Result<ParsedImage, BootError>)
    ensures
        match parsed {
            Ok(image) => image_valid(bytes@) && image@ == image_of(bytes@),
            Err(e) => !image_valid(bytes@) && e == BootError::MalformedImage,
        },
{
    let header = match parse_header(bytes) {
        Ok(header) => header,
        Err(e) => {
            return Err(e);
        },
    };
    let table = match program_headers(bytes, &header) {
        Ok(table) => table,
        Err(e) => {
            return Err(e);
        },
    };
    let segments = match loadable_segments(&table, bytes.len()) {
        Ok(segments) => segments,
        Err(e) => {
            return Err(e);
        },
    };
    proof {
        lemma_loadable_segments_fit(table@, bytes@.len());
    }
    Ok(ParsedImage { entry: header.entry, segments, image_len: bytes.len() })
}

/// Every segment kept from a table whose loadable entries fit does fit.
pub proof fn lemma_loadable_segments_fit(table: Seq<ProgramHeader>, image_len: nat)
    requires
        loadable_fit(table, image_len),
    ensures
        forall|k: int|
            0 <= k < loadable_of(table).len() ==> (#[trigger] loadable_of(table)[k]).fits(
                image_len,
            ),
    decreases table.len(),
{
    let pred = |h: ProgramHeader| is_loadable(h);
    if table.len() > 0 {
        let init = table.drop_last();
        assert(loadable_fit(init, image_len)) by {
            assert forall|i: int| 0 <= i < init.len() && is_loadable(#[trigger] init[i]) implies segment_of(
                init[i],
            ).fits(image_len) by {
                assert(init[i] == table[i]);
            }
        }
        lemma_loadable_segments_fit(init, image_len);
        assert(table =~= init.push(table.last()));
        init.lemma_filter_push(table.last(), pred);
        assert forall|k: int| 0 <= k < loadable_of(table).len() implies (#[trigger] loadable_of(
            table,
        )[k]).fits(image_len) by {
            if k < loadable_of(init).len() {
                assert(loadable_of(table)[k] == loadable_of(init)[k]);
            } else {
                assert(is_loadable(table[table.len() - 1]));
                assert(loadable_of(table)[k] == segment_of(table.last()));
            }
        }
    }
}

/// The loader keeps exactly the loadable entries: one segment for each, and
/// none for any other entry.
pub proof fn lemma_loadable_len(table: Seq<ProgramHeader>)
    ensures
        loadable_of(table).len() == loadable_count(table),
        loadable_count(table) + table.filter(|h: ProgramHeader| !is_loadable(h)).len()
            == table.len(),
    decreases table.len(),
{
    let keep = |h: ProgramHeader| is_loadable(h);
    let skip = |h: ProgramHeader| !is_loadable(h);
    if table.len() > 0 {
        let init = table.drop_last();
        lemma_loadable_len(init);
        assert(table =~= init.push(table.last()));
        init.lemma_filter_push(table.last(), keep);
        init.lemma_filter_push(table.last(), skip);
    }
}

/// Segments keep the order and the fields of the table: the loadable entry
/// at position `i`, which has `k` loadable entries before it, becomes the
/// segment at position `k`, every field copied.
pub proof fn lemma_segments_follow_table(table: Seq<ProgramHeader>, i: int)
    requires
        0 <= i < table.len(),
        is_loadable(table[i]),
    ensures
        loadable_count(table.take(i)) < loadable_of(table).len(),
        loadable_of(table)[loadable_count(table.take(i)) as int] == segment_of(table[i]),
    decreases table.len(),
{
    let keep = |h: ProgramHeader| is_loadable(h);
    let init = table.drop_last();
    assert(table =~= init.push(table.last()));
    init.lemma_filter_push(table.last(), keep);
    if i == table.len() - 1 {
        assert(table.take(i) =~= init);
    } else {
        lemma_segments_follow_table(init, i);
        assert(table.take(i) =~= init.take(i));
        assert(init[i] == table[i]);
    }
}

/// No file is accepted whose header declares program headers that cannot
/// be read: entries too small to hold the fields, the size zero included, or
/// a table that reaches beyond the end of the file, wherever it starts.
pub proof fn lemma_unreadable_table_is_rejected(bytes: Seq<u8>)
    requires
        header_of(bytes).ph_count > 0,
        header_of(bytes).ph_entry_size < PROGRAM_HEADER_LEN || header_of(bytes).ph_offset
            + header_of(bytes).ph_count * header_of(bytes).ph_entry_size > bytes.len(),
    ensures
        !image_valid(bytes),
{
}

} // verus!
