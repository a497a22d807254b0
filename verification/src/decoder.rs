//! Decoding a sample buffer into table rows of 32-bit values.

use vstd::prelude::*;
use vstd::arithmetic::div_mod::{
    lemma_add_mod_noop_right,
    lemma_mod_multiples_vanish,
    lemma_small_mod,
};
use crate::address::ParsedAddress;

verus! {

/// Width in bytes of one sampled element.
pub const ELEMENT_WIDTH: usize = 4;

/// The order in which the four bytes of an element make up its value.
#[derive(Clone, Copy, Debug, PartialEq, Eq)]
pub enum ByteOrder {
    /// The first byte is the least significant.
    LittleEndian,
    /// The first byte is the most significant.
    BigEndian,
}

/// Raw bytes of the last successful read, together with the byte order in
/// which their elements are to be read.
#[derive(Clone, Debug, PartialEq, Eq)]
pub struct SampleBuffer {
    pub bytes: Vec<u8>,
    pub order: ByteOrder,
}

/// One line of the table: where the element lies in the target, and its
/// value read as unsigned and as signed.
#[derive(Clone, Copy, Debug, PartialEq, Eq)]
pub struct TableRow {
    pub address: usize,
    pub unsigned: u32,
    pub signed: i32,
}

/// The value of four bytes taken in the given order.
pub open spec fn word_of(order: ByteOrder, b0: u8, b1: u8, b2: u8, b3: u8) -> u32 {
    match order {
        ByteOrder::LittleEndian => (b0 + 0x100 * b1 + 0x1_0000 * b2 + 0x100_0000 * b3) as u32,
        ByteOrder::BigEndian => (b3 + 0x100 * b2 + 0x1_0000 * b1 + 0x100_0000 * b0) as u32,
    }
}

/// The same 32 bits read as a two's-complement number.
pub open spec fn signed_of(word: u32) -> i32 {
    if word < 0x8000_0000 {
        word as i32
    } else {
        (word - 0x1_0000_0000) as i32
    }
}

/// Whether `bytes` holds all four bytes of element `index`.
pub open spec fn holds_element(bytes: Seq<u8>, index: int) -> bool {
    0 <= index && 4 * (index + 1) <= bytes.len()
}

/// The unsigned value of element `index`; zero where the bytes do not reach.
pub open spec fn word_at(bytes: Seq<u8>, order: ByteOrder, index: int) -> u32 {
    if holds_element(bytes, index) {
        word_of(
            order,
            bytes[4 * index],
            bytes[4 * index + 1],
            bytes[4 * index + 2],
            bytes[4 * index + 3],
        )
    } else {
        0
    }
}

/// The address of element `index` of a table that starts at `base`:
/// `base + 4 * index`, reduced to the machine word.
pub open spec fn row_address(base: ParsedAddress, index: int) -> usize {
    ((base + 4 * index) % (usize::MAX + 1)) as usize
}

/// Row `index` of the table that `bytes`, read in `order`, give for a
/// request at `base`.
pub open spec fn row_at(
    bytes: Seq<u8>,
    order: ByteOrder,
    base: ParsedAddress,
    index: int,
) -> TableRow {
    TableRow {
        address: row_address(base, index),
        unsigned: word_at(bytes, order, index),
        signed: signed_of(word_at(bytes, order, index)),
    }
}

/// `u32::from_ne_bytes`: the four bytes read in the byte order of the
/// machine the code runs on. Which order that is cannot be known here; the
/// result is the little-endian or the big-endian reading of the bytes.
#[verifier::external_body]
fn native_word(b0: u8, b1: u8, b2: u8, b3: u8) -> (word: u32)
    ensures
        word == word_of(ByteOrder::LittleEndian, b0, b1, b2, b3) || word == word_of(
            ByteOrder::BigEndian,
            b0,
            b1,
            b2,
            b3,
        ),
{
    u32::from_ne_bytes([b0, b1, b2, b3])
}

impl ByteOrder {
    /// The byte order of the machine the code runs on, found by reading the
    /// bytes `01 00 00 00` natively: they make 1 on a little-endian machine.
    /// Which order comes back depends on the machine alone; what is made of
    /// the reading is said by [`ByteOrder::of_probe`].
    pub fn native() -> ByteOrder {
        ByteOrder::of_probe(native_word(1, 0, 0, 0))
    }

    /// The byte order in which the bytes `01 00 00 00` make `word`:
    /// little-endian if they make 1, big-endian otherwise.
    pub fn of_probe(word: u32) -> (order: ByteOrder)
        ensures
            order == order_of_probe(word),
    {
        if word == 1 {
            ByteOrder::LittleEndian
        } else {
            ByteOrder::BigEndian
        }
    }
}

/// The byte order that a reading `word` of the bytes `01 00 00 00` tells of.
pub open spec fn order_of_probe(word: u32) -> ByteOrder {
    if word == 1 {
        ByteOrder::LittleEndian
    } else {
        ByteOrder::BigEndian
    }
}

/// The probe finds the order: whichever order the bytes `01 00 00 00` are
/// read in, the reading tells of that order.
pub proof fn lemma_probe_finds_order(order: ByteOrder)
    ensures
        order_of_probe(word_of(order, 1, 0, 0, 0)) == order,
{
}

impl SampleBuffer {
    /// A buffer that holds nothing yet.
    pub fn empty(order: ByteOrder) -> (buffer: SampleBuffer)
        ensures
            buffer.bytes@.len() == 0,
            buffer.order == order,
    {
        SampleBuffer { bytes: Vec::new(), order }
    }
}

/// Reads four bytes in the given order.
pub fn read_word(order: ByteOrder, b0: u8, b1: u8, b2: u8, b3: u8) -> (word: u32)
    ensures
        word == word_of(order, b0, b1, b2, b3),
{
    match order {
        ByteOrder::LittleEndian => {
            (b0 as u32) + 0x100 * (b1 as u32) + 0x1_0000 * (b2 as u32) + 0x100_0000 * (b3 as u32)
        },
        ByteOrder::BigEndian => {
            (b3 as u32) + 0x100 * (b2 as u32) + 0x1_0000 * (b1 as u32) + 0x100_0000 * (b0 as u32)
        },
    }
}

/// Reads a 32-bit pattern as a two's-complement number.
pub fn signed_view(word: u32) -> (signed: i32)
    ensures
        signed == signed_of(word),
{
    if word < 0x8000_0000 {
        word as i32
    } else {
        ((word - 0x8000_0000) as i32) + i32::MIN
    }
}

/// Wrapping `base + 4 * index` is the sum reduced to the machine word.
proof fn lemma_row_address_wraps(base: usize, index: usize)
    ensures
        base.wrapping_add(index.wrapping_mul(4)) == row_address(base, index as int),
{
    let range = usize::MAX + 1;
    let offset = index.wrapping_mul(4);
    assert(offset == (4 * index) % range);
    lemma_add_mod_noop_right(base as int, 4 * index, range);
    assert((base + offset) % range == (base + 4 * index) % range);
    if base + offset > usize::MAX {
        lemma_mod_multiples_vanish(-1, base + offset, range);
        lemma_small_mod((base + offset - range) as nat, range as nat);
    } else {
        lemma_small_mod((base + offset) as nat, range as nat);
    }
}

/// Decodes the row of one element.
///
/// The address is `base + 4 * index`, reduced to the machine word, whatever
/// the buffer holds. The values come from bytes `4 * index .. 4 * index + 4`
/// where the buffer has them all, and are zero otherwise.
pub fn decode_row(buffer: &SampleBuffer, base: ParsedAddress, index: usize) -> (row: TableRow)
    ensures
        row == row_at(buffer.bytes@, buffer.order, base, index as int),
        base + 4 * index <= usize::MAX ==> row.address == base + 4 * index,
{
    proof {
        lemma_row_address_wraps(base, index);
        if base + 4 * index <= usize::MAX {
            lemma_small_mod((base + 4 * index) as nat, (usize::MAX + 1) as nat);
        }
    }
    let address: usize = base.wrapping_add(index.wrapping_mul(ELEMENT_WIDTH));
    let len: usize = buffer.bytes.len();
    let unsigned: u32 = if len >= 4 && index <= (len - 4) / 4 {
        let at: usize = 4 * index;
        read_word(
            buffer.order,
            buffer.bytes[at],
            buffer.bytes[at + 1],
            buffer.bytes[at + 2],
            buffer.bytes[at + 3],
        )
    } else {
        0
    };
    TableRow { address, unsigned, signed: signed_view(unsigned) }
}

/// Decodes the table for a request of `count` elements at `base`.
///
/// There are always exactly `count` rows, in ascending order of index; row
/// `i` is what [`decode_row`] gives for `i`. Elements that the buffer does
/// not hold in full read as zero.
pub fn decode_rows(buffer: &SampleBuffer, base: ParsedAddress, count: usize) -> (rows: Vec<
    TableRow,
>)
    ensures
        rows@.len() == count,
        forall|i: int| 0 <= i < count ==> #[trigger] rows@[i] == row_at(buffer.bytes@, buffer.order, base, i),
        forall|i: int|
            0 <= i < count && base + 4 * i <= usize::MAX ==> (#[trigger] rows@[i]).address == base
                + 4 * i,
{
    let mut rows: Vec<TableRow> = Vec::new();
    let mut i: usize = 0;
    while i < count
        invariant
            i <= count,
            rows@.len() == i,
            forall|j: int| 0 <= j < i ==> #[trigger] rows@[j] == row_at(buffer.bytes@, buffer.order, base, j),
            forall|j: int|
                0 <= j < i && base + 4 * j <= usize::MAX ==> (#[trigger] rows@[j]).address == base
                    + 4 * j,
        decreases count - i,
    {
        rows.push(decode_row(buffer, base, i));
        i = i + 1;
    }
    rows
}

/// Row addresses follow the request, not the buffer: as long as the table
/// stays inside the address space, row `i` lies at `base + 4 * i`, so the
/// rows ascend by four.
pub proof fn lemma_rows_ascend(
    bytes: Seq<u8>,
    order: ByteOrder,
    base: ParsedAddress,
    i: int,
    j: int,
)
    requires
        0 <= i < j,
        base + 4 * j <= usize::MAX,
    ensures
        row_at(bytes, order, base, i).address == base + 4 * i,
        row_at(bytes, order, base, j).address == base + 4 * j,
        row_at(bytes, order, base, i).address < row_at(bytes, order, base, j).address,
{
    lemma_small_mod((base + 4 * i) as nat, (usize::MAX + 1) as nat);
    lemma_small_mod((base + 4 * j) as nat, (usize::MAX + 1) as nat);
}

/// An empty buffer decodes to rows of zeros, whatever the byte order.
pub proof fn lemma_empty_buffer_reads_zero(order: ByteOrder, base: ParsedAddress, index: int)
    ensures
        row_at(Seq::<u8>::empty(), order, base, index).unsigned == 0,
        row_at(Seq::<u8>::empty(), order, base, index).signed == 0,
        row_at(Seq::<u8>::empty(), order, base, index).address == row_address(base, index),
{
}

} // verus!
