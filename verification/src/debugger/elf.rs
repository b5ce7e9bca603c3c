//! Reading the symbols of an executable from its image: the functions that
//! the symbol table of a 64-bit little-endian ELF file defines.

use vstd::prelude::*;
use vstd::slice::{slice_subrange, slice_to_vec};
use vstd::utf8::{decode_utf8, valid_utf8};
use crate::debugger::symbols::{DebugInfo, Extent, Symbol};
use crate::error::Error;

verus! {

/// The size of the file header, and of a section header.
pub const HEADER_SIZE: u64 = 64;

/// The size of an entry of the symbol table.
pub const ENTRY_SIZE: u64 = 24;

/// The type of the section that holds the symbol table.
pub const SYMBOL_TABLE: u64 = 2;

/// The type of a symbol that stands for a function.
pub const FUNCTION: u8 = 2;

/// The number that two bytes at `at` write, the lowest byte first.
pub open spec fn le_u16(image: Seq<u8>, at: int) -> int {
    image[at] + 0x100 * image[at + 1]
}

/// The number that four bytes at `at` write, the lowest byte first.
pub open spec fn le_u32(image: Seq<u8>, at: int) -> int {
    image[at] + 0x100 * image[at + 1] + 0x1_0000 * image[at + 2] + 0x100_0000 * image[at + 3]
}

/// The number that eight bytes at `at` write, the lowest byte first.
pub open spec fn le_u64(image: Seq<u8>, at: int) -> int {
    le_u32(image, at) + 0x1_0000_0000 * le_u32(image, at + 4)
}

/// Whether the image begins as a 64-bit little-endian ELF file does.
pub open spec fn is_elf(image: Seq<u8>) -> bool {
    &&& image.len() >= HEADER_SIZE
    &&& image[0] == 0x7f
    &&& image[1] == 0x45
    &&& image[2] == 0x4c
    &&& image[3] == 0x46
    &&& image[4] == 2
    &&& image[5] == 1
}

/// Where the section headers begin.
pub open spec fn sections_offset(image: Seq<u8>) -> int {
    le_u64(image, 0x28)
}

/// The size of one section header.
pub open spec fn section_size(image: Seq<u8>) -> int {
    le_u16(image, 0x3a)
}

/// The number of section headers.
pub open spec fn section_count(image: Seq<u8>) -> int {
    le_u16(image, 0x3c)
}

/// The type of the section whose header is at `at`.
pub open spec fn kind_of(image: Seq<u8>, at: int) -> int {
    le_u32(image, at + 4)
}

/// Where the contents of the section lie whose header is at `at`.
pub open spec fn contents_offset(image: Seq<u8>, at: int) -> int {
    le_u64(image, at + 0x18)
}

/// The size of the contents of the section whose header is at `at`.
pub open spec fn contents_size(image: Seq<u8>, at: int) -> int {
    le_u64(image, at + 0x20)
}

/// The index of the section that the one with its header at `at` refers to:
/// for a symbol table, the section that holds the names.
pub open spec fn linked_section(image: Seq<u8>, at: int) -> int {
    le_u32(image, at + 0x28)
}

/// The size of one entry in the section whose header is at `at`.
pub open spec fn entry_size(image: Seq<u8>, at: int) -> int {
    le_u64(image, at + 0x38)
}

/// Where the header of the symbol table is, looking at `remaining` section
/// headers from `at` on: the first one of the symbol table's type. `None`
/// stands for a header that reaches beyond the image; where no header is of
/// that type, the result is the end of the image.
pub open spec fn find_table(image: Seq<u8>, at: int, remaining: nat) -> Option<int>
    decreases remaining,
{
    if remaining == 0 {
        Some(image.len() as int)
    } else if section_size(image) < HEADER_SIZE || at + section_size(image) > image.len() {
        None
    } else if kind_of(image, at) == SYMBOL_TABLE {
        Some(at)
    } else {
        find_table(image, at + section_size(image), (remaining - 1) as nat)
    }
}

/// Where the header of the section of the names is, for the symbol table
/// with its header at `table`.
pub open spec fn names_header(image: Seq<u8>, table: int) -> int {
    sections_offset(image) + linked_section(image, table) * section_size(image)
}

/// Where the symbol table and its names lie in the image.
pub struct Layout {
    /// Where the entries begin.
    pub start: usize,
    /// Where the entries end.
    pub end: usize,
    /// The size of one entry.
    pub size: u64,
    /// Where the names begin.
    pub names: usize,
    /// Where the names end.
    pub limit: usize,
}

/// Whether the symbol table with its header at `table` and the section of
/// its names lie within the image.
pub open spec fn table_fits(image: Seq<u8>, table: int) -> bool {
    &&& entry_size(image, table) >= ENTRY_SIZE
    &&& contents_offset(image, table) + contents_size(image, table) <= image.len()
    &&& linked_section(image, table) < section_count(image)
    &&& names_header(image, table) + HEADER_SIZE <= image.len()
    &&& contents_offset(image, names_header(image, table)) + contents_size(
        image,
        names_header(image, table),
    ) <= image.len()
}

/// Where the symbol table with its header at `table` and its names lie.
pub open spec fn layout_at(image: Seq<u8>, table: int) -> Layout {
    let names = names_header(image, table);
    Layout {
        start: contents_offset(image, table) as usize,
        end: (contents_offset(image, table) + contents_size(image, table)) as usize,
        size: entry_size(image, table) as u64,
        names: contents_offset(image, names) as usize,
        limit: (contents_offset(image, names) + contents_size(image, names)) as usize,
    }
}

/// What the image says of its symbol table: where it lies, or that there is
/// none. `None` stands for an image that is no 64-bit little-endian ELF
/// file, or in which a header or a table reaches beyond the end.
pub open spec fn layout_of(image: Seq<u8>) -> Option<Option<Layout>> {
    if !is_elf(image) {
        None
    } else {
        match find_table(image, sections_offset(image), section_count(image) as nat) {
            None => None,
            Some(table) => if table >= image.len() {
                Some(None)
            } else if !table_fits(image, table) {
                None
            } else {
                Some(Some(layout_at(image, table)))
            },
        }
    }
}

/// Whether the entry at `at` stands for a function that the executable
/// defines.
pub open spec fn is_function(image: Seq<u8>, at: int) -> bool {
    image[at + 4] % 16 == FUNCTION && le_u16(image, at + 6) != 0
}

/// Where the name ends that begins at `start`: at the first zero byte before
/// `limit`, or at `limit` where there is none.
pub open spec fn name_end(image: Seq<u8>, start: int, limit: int) -> int
    decreases limit - start,
{
    if start >= limit || image[start] == 0 {
        start
    } else {
        name_end(image, start + 1, limit)
    }
}

/// The bytes of the name of the entry at `at`, which lie among the names
/// from `names` up to `limit`. `None` stands for a name that does not end
/// before `limit`.
pub open spec fn name_bytes(image: Seq<u8>, at: int, names: int, limit: int) -> Option<Seq<u8>> {
    let start = names + le_u32(image, at);
    let end = name_end(image, start, limit);
    if start < limit && end < limit {
        Some(image.subrange(start, end))
    } else {
        None
    }
}

/// What the entry at `at` adds to a table: a function goes in under its
/// name, anything else changes nothing. `None` stands for a name that does
/// not end or is not UTF-8.
pub open spec fn added(
    image: Seq<u8>,
    layout: Layout,
    at: int,
    table: Map<Seq<char>, Extent>,
) -> Option<Map<Seq<char>, Extent>> {
    if !is_function(image, at) {
        Some(table)
    } else {
        match name_bytes(image, at, layout.names as int, layout.limit as int) {
            None => None,
            Some(bytes) => if valid_utf8(bytes) {
                Some(
                    table.insert(
                        decode_utf8(bytes),
                        Extent {
                            low_pc: le_u64(image, at + 8) as u64,
                            high_pc: le_u64(image, at + 16) as u64,
                        },
                    ),
                )
            } else {
                None
            },
        }
    }
}

/// The table that the entries from `at` on make when they are added to
/// `table` one after the other.
pub open spec fn load(
    image: Seq<u8>,
    layout: Layout,
    at: int,
    table: Map<Seq<char>, Extent>,
) -> Option<Map<Seq<char>, Extent>>
    decreases layout.end - at,
{
    if layout.size < ENTRY_SIZE || at + layout.size > layout.end {
        Some(table)
    } else {
        match added(image, layout, at, table) {
            None => None,
            Some(next) => load(image, layout, at + layout.size, next),
        }
    }
}

/// The symbols of the executable with this image: for each function that
/// its symbol table defines, the name, the address and the size. Of two
/// functions of one name the later one stays. An executable without a symbol
/// table has no symbols. `None` stands for an image that symbols cannot be
/// read from: see [`layout_of`] and [`added`].
pub open spec fn elf_symbols(image: Seq<u8>) -> Option<Map<Seq<char>, Extent>> {
    match layout_of(image) {
        None => None,
        Some(None) => Some(Map::empty()),
        Some(Some(layout)) => load(image, layout, layout.start as int, Map::empty()),
    }
}

/// Reads two bytes as a number.
fn read_u16(image: &[u8], at: usize) -> (r: u64)
    requires
        at + 2 <= image@.len(),
    ensures
        r == le_u16(image@, at as int),
        r <= 0xffff,
{
    image[at] as u64 + 0x100 * (image[at + 1] as u64)
}

/// Reads four bytes as a number.
fn read_u32(image: &[u8], at: usize) -> (r: u64)
    requires
        at + 4 <= image@.len(),
    ensures
        r == le_u32(image@, at as int),
        r <= 0xffff_ffff,
{
    image[at] as u64 + 0x100 * (image[at + 1] as u64) + 0x1_0000 * (image[at + 2] as u64)
        + 0x100_0000 * (image[at + 3] as u64)
}

/// Reads eight bytes as a number.
fn read_u64(image: &[u8], at: usize) -> (r: u64)
    requires
        at + 8 <= image@.len(),
    ensures
        r == le_u64(image@, at as int),
{
    let length: usize = image.len();
    let low: u64 = read_u32(image, at);
    let high: u64 = read_u32(image, at + 4);
    low + 0x1_0000_0000 * high
}

/// Tells whether `size` bytes from `start` on lie within `length` bytes.
fn fits(start: u64, size: u64, length: usize) -> (r: bool)
    ensures
        r == (start + size <= length),
{
    start <= length as u64 && size <= length as u64 - start
}

/// `String::from_utf8`: the text that the bytes encode, where they are
/// UTF-8, and nothing where they are not.
#[verifier::external_body]
fn text_of(bytes: Vec<u8>) -> (r: Option<String>)
    ensures
        r is Some <==> valid_utf8(bytes@),
        r matches Some(text) ==> text@ == decode_utf8(bytes@),
{
    String::from_utf8(bytes).ok()
}

/// Finds the header of the symbol table among `count` section headers of
/// `size` bytes each, from `first` on.
fn symbol_table(image: &[u8], first: u64, size: u64, count: u64) -> (r: Option<usize>)
    requires
        size == section_size(image@),
        count <= 0xffff,
    ensures
        match find_table(image@, first as int, count as nat) {
            None => r is None,
            Some(at) => r == Some(at as usize) && 0 <= at <= image@.len(),
        },
        r matches Some(at) ==> at == image@.len() || at + HEADER_SIZE <= image@.len(),
{
    let mut remaining: u64 = count;
    let mut at: u64 = first;
    while remaining > 0
        invariant
            size == section_size(image@),
            size <= 0xffff,
            find_table(image@, first as int, count as nat) == find_table(
                image@,
                at as int,
                remaining as nat,
            ),
        decreases remaining,
    {
        if size < HEADER_SIZE || !fits(at, size, image.len()) {
            return None;
        }
        if read_u32(image, at as usize + 4) == SYMBOL_TABLE {
            return Some(at as usize);
        }
        at = at + size;
        remaining -= 1;
    }
    Some(image.len())
}

/// Finds the end of the name that begins at `start`.
fn end_of_name(image: &[u8], start: usize, limit: usize) -> (r: usize)
    requires
        start <= limit <= image@.len(),
    ensures
        r == name_end(image@, start as int, limit as int),
        start <= r <= limit,
{
    let mut end: usize = start;
    while end < limit && image[end] != 0
        invariant
            start <= end <= limit <= image@.len(),
            name_end(image@, start as int, limit as int) == name_end(
                image@,
                end as int,
                limit as int,
            ),
        decreases limit - end,
    {
        end += 1;
    }
    end
}

/// Finds the symbol table and its names in the image.
fn layout(image: &[u8]) -> (r: Result<Option<Layout>, Error>)
    ensures
        match layout_of(image@) {
            Some(found) => r == Ok::<Option<Layout>, Error>(found),
            None => r == Err::<Option<Layout>, Error>(Error::Malformed),
        },
        r matches Ok(Some(layout)) ==> {
            &&& layout.size >= ENTRY_SIZE
            &&& layout.start <= layout.end <= image@.len()
            &&& layout.names <= layout.limit <= image@.len()
        },
{
    let length: usize = image.len();
    if length < 64 || image[0] != 0x7f || image[1] != 0x45 || image[2] != 0x4c || image[3] != 0x46
        || image[4] != 2 || image[5] != 1 {
        return Err(Error::Malformed);
    }
    let first: u64 = read_u64(image, 0x28);
    let header: u64 = read_u16(image, 0x3a);
    let count: u64 = read_u16(image, 0x3c);
    let table: usize = match symbol_table(image, first, header, count) {
        None => {
            return Err(Error::Malformed);
        },
        Some(at) => at,
    };
    if table >= length {
        return Ok(None);
    }
    table_layout(image, table, first, header, count)
}

/// Reads where the symbol table with its header at `table` and its names
/// lie, and checks that they lie within the image.
fn table_layout(image: &[u8], table: usize, first: u64, header: u64, count: u64) -> (r: Result<
    Option<Layout>,
    Error,
>)
    requires
        table + HEADER_SIZE <= image@.len(),
        first == sections_offset(image@),
        header == section_size(image@),
        count == section_count(image@),
    ensures
        table_fits(image@, table as int) ==> r == Ok::<Option<Layout>, Error>(
            Some(layout_at(image@, table as int)),
        ),
        !table_fits(image@, table as int) ==> r == Err::<Option<Layout>, Error>(Error::Malformed),
        r matches Ok(Some(layout)) ==> {
            &&& layout.size >= ENTRY_SIZE
            &&& layout.start <= layout.end <= image@.len()
            &&& layout.names <= layout.limit <= image@.len()
        },
{
    let length: usize = image.len();
    let size: u64 = read_u64(image, table + 0x38);
    let start: u64 = read_u64(image, table + 0x18);
    let extent: u64 = read_u64(image, table + 0x20);
    let link: u64 = read_u32(image, table + 0x28);
    if size < ENTRY_SIZE || !fits(start, extent, length) || link >= count {
        return Err(Error::Malformed);
    }
    assert(link * header <= 0xffff * 0xffff) by (nonlinear_arith)
        requires
            link <= 0xffff,
            header <= 0xffff,
    ;
    let names_at: u64 = match first.checked_add(link * header) {
        None => {
            return Err(Error::Malformed);
        },
        Some(at) => at,
    };
    if !fits(names_at, HEADER_SIZE, length) {
        return Err(Error::Malformed);
    }
    let names: u64 = read_u64(image, names_at as usize + 0x18);
    let names_size: u64 = read_u64(image, names_at as usize + 0x20);
    if !fits(names, names_size, length) {
        return Err(Error::Malformed);
    }
    Ok(
        Some(
            Layout {
                start: start as usize,
                end: (start + extent) as usize,
                size,
                names: names as usize,
                limit: (names + names_size) as usize,
            },
        ),
    )
}

/// Adds the entry at `at` to the table, if it stands for a function.
fn add_entry(image: &[u8], layout: &Layout, at: usize, info: &mut DebugInfo) -> (r: Result<
    (),
    Error,
>)
    requires
        at + ENTRY_SIZE <= image@.len(),
        layout.names <= layout.limit <= image@.len(),
    ensures
        match added(image@, *layout, at as int, old(info)@) {
            Some(table) => r is Ok && final(info)@ == table,
            None => r == Err::<(), Error>(Error::Malformed),
        },
{
    let length: usize = image.len();
    let kind: u8 = image[at + 4] % 16;
    let home: u64 = read_u16(image, at + 6);
    if kind != FUNCTION || home == 0 {
        return Ok(());
    }
    let name: u64 = read_u32(image, at);
    if name >= (layout.limit - layout.names) as u64 {
        return Err(Error::Malformed);
    }
    let from: usize = layout.names + name as usize;
    let to: usize = end_of_name(image, from, layout.limit);
    if to >= layout.limit {
        return Err(Error::Malformed);
    }
    let bytes = slice_to_vec(slice_subrange(image, from, to));
    match text_of(bytes) {
        None => Err(Error::Malformed),
        Some(text) => {
            let low_pc: u64 = read_u64(image, at + 8);
            let high_pc: u64 = read_u64(image, at + 16);
            info.insert(Symbol { name: text, low_pc, high_pc });
            Ok(())
        },
    }
}

impl DebugInfo {
    /// Reads the symbols of an executable from its image. An image that
    /// symbols cannot be read from is refused as malformed.
    pub fn new(image: &[u8]) -> (r: Result<DebugInfo, Error>)
        ensures
            match elf_symbols(image@) {
                Some(table) => r matches Ok(info) && info@ == table,
                None => r == Err::<DebugInfo, Error>(Error::Malformed),
            },
    {
        let mut info = DebugInfo::empty();
        let layout: Layout = match layout(image) {
            Err(error) => {
                return Err(error);
            },
            Ok(None) => {
                return Ok(info);
            },
            Ok(Some(layout)) => layout,
        };
        let mut at: usize = layout.start;
        while layout.size <= (layout.end - at) as u64
            invariant
                layout.size >= ENTRY_SIZE,
                at <= layout.end <= image@.len(),
                layout.names <= layout.limit <= image@.len(),
                elf_symbols(image@) == load(image@, layout, at as int, info@),
            decreases layout.end - at,
        {
            match add_entry(image, &layout, at, &mut info) {
                Err(error) => {
                    return Err(error);
                },
                Ok(_) => {},
            }
            at = at + layout.size as usize;
        }
        Ok(info)
    }
}

} // verus!
