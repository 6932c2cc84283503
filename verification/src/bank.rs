//! A memory-backed register bank and the generic bit-field accessor.
//!
//! A `RegBank` is an indexed memory port: a row of 32-bit registers addressed
//! by cell index, with `read32` / `write32` as the only access path.  On top
//! of it, `read_field` / `write_field` address packed bit fields: a field
//! width that divides 32 evenly splits every register into
//! `32 / field_width` entries, and a field index selects one register and one
//! bit offset inside it.  `write_field` performs a read-modify-write of the
//! whole register and is proved to leave every other field of the bank
//! unchanged.

use vstd::prelude::*;

verus! {

/// Field widths that divide a 32-bit register evenly.
pub open spec fn valid_field_width(width: u32) -> bool {
    width == 1 || width == 2 || width == 4 || width == 8 || width == 16
}

/// How many fields of `width` bits fit in one 32-bit register.
pub open spec fn entries_per_register(width: u32) -> int
    recommends
        valid_field_width(width),
{
    32int / width as int
}

/// Cell index of the register holding field `index` of a window at `base`.
pub open spec fn field_cell(base: int, width: u32, index: u32) -> int
    recommends
        valid_field_width(width),
{
    base + index as int / entries_per_register(width)
}

/// Bit offset of field `index` inside its register.
pub open spec fn field_shift(width: u32, index: u32) -> u32
    recommends
        valid_field_width(width),
{
    ((index as int % entries_per_register(width)) * width as int) as u32
}

/// Mask of `width` low bits.
pub open spec fn field_mask(width: u32) -> u32
    recommends
        valid_field_width(width),
{
    ((1u32 << width) - 1) as u32
}

/// The field of `width` bits at bit offset `shift` of `word`.
pub open spec fn field_of(word: u32, width: u32, shift: u32) -> u32 {
    (word >> shift) & field_mask(width)
}

/// `word` with the field of `width` bits at bit offset `shift` replaced by
/// `value` (reduced to the field width); all other bits are kept.
pub open spec fn word_with_field(word: u32, width: u32, shift: u32, value: u32) -> u32 {
    (word & !(field_mask(width) << shift)) | ((value & field_mask(width)) << shift)
}

/// The addressed cell exists in a bank of `len` cells.
pub open spec fn field_in_bounds(len: int, base: int, width: u32, index: u32) -> bool {
    0 <= base && field_cell(base, width, index) < len
}

/// Value of field `index` of the window at `base` in a bank state.
pub open spec fn spec_read_field(words: Seq<u32>, base: int, width: u32, index: u32) -> u32 {
    field_of(words[field_cell(base, width, index)], width, field_shift(width, index))
}

/// Bank state after writing `value` to field `index` of the window at `base`.
pub open spec fn spec_write_field(
    words: Seq<u32>,
    base: int,
    width: u32,
    index: u32,
    value: u32,
) -> Seq<u32> {
    words.update(
        field_cell(base, width, index),
        word_with_field(words[field_cell(base, width, index)], width, field_shift(width, index), value),
    )
}

/// The field geometry facts that tie `field_cell` and `field_shift` to the
/// 32-bit register row: the shifted field lies inside its register, the
/// shift is field-aligned, and cells grow with the index.
pub proof fn lemma_field_geometry(width: u32, index: u32)
    requires
        valid_field_width(width),
    ensures
        entries_per_register(width) * width as int == 32,
        1 <= entries_per_register(width) <= 32,
        field_shift(width, index) + width <= 32,
        field_shift(width, index) as int % width as int == 0,
        field_shift(width, index) as int == (index as int % entries_per_register(width)) * width as int,
        0 <= index as int / entries_per_register(width) <= index,
{
    if width == 1 {
        assert(field_shift(width, index) as int == (index as int % 32) * 1);
    } else if width == 2 {
        assert(field_shift(width, index) as int == (index as int % 16) * 2);
    } else if width == 4 {
        assert(field_shift(width, index) as int == (index as int % 8) * 4);
    } else if width == 8 {
        assert(field_shift(width, index) as int == (index as int % 4) * 8);
    } else {
        assert(field_shift(width, index) as int == (index as int % 2) * 16);
    }
}

/// Two distinct field indices of one window never share both register cell
/// and bit offset.
pub proof fn lemma_fields_distinct(base: int, width: u32, index1: u32, index2: u32)
    requires
        valid_field_width(width),
        index1 != index2,
        field_cell(base, width, index1) == field_cell(base, width, index2),
    ensures
        field_shift(width, index1) != field_shift(width, index2),
{
    lemma_field_geometry(width, index1);
    lemma_field_geometry(width, index2);
    let epr = entries_per_register(width);
    assert(index1 as int / epr == index2 as int / epr);
    if index1 as int % epr == index2 as int % epr {
        vstd::arithmetic::div_mod::lemma_fundamental_div_mod(index1 as int, epr);
        vstd::arithmetic::div_mod::lemma_fundamental_div_mod(index2 as int, epr);
    }
    let r1 = index1 as int % epr;
    let r2 = index2 as int % epr;
    assert(r1 != r2);
    if r1 < r2 {
        vstd::arithmetic::mul::lemma_mul_strict_inequality(r1, r2, width as int);
    } else {
        vstd::arithmetic::mul::lemma_mul_strict_inequality(r2, r1, width as int);
    }
}

/// Reading back the field just written returns the value reduced to the
/// field width.
proof fn lemma_written_field_reads_back(word: u32, width: u32, shift: u32, value: u32)
    by (bit_vector)
    requires
        width == 1 || width == 2 || width == 4 || width == 8 || width == 16,
        shift + width <= 32,
    ensures
        field_of(word_with_field(word, width, shift, value), width, shift) == value & field_mask(
            width,
        ),
{
}

/// Rewriting one field leaves every differently-placed field of the same
/// register unchanged.
proof fn lemma_written_field_frames_others(
    word: u32,
    width: u32,
    shift: u32,
    other: u32,
    value: u32,
)
    by (bit_vector)
    requires
        width == 1 || width == 2 || width == 4 || width == 8 || width == 16,
        shift + width <= 32,
        other + width <= 32,
        shift % width == 0,
        other % width == 0,
        shift != other,
    ensures
        field_of(word_with_field(word, width, shift, value), width, other) == field_of(
            word,
            width,
            other,
        ),
{
}

/// Masking to the field width is reduction modulo 2^width.
proof fn lemma_mask_is_mod(width: u32, value: u32)
    requires
        width == 1 || width == 2 || width == 4 || width == 8 || width == 16,
    ensures
        value & field_mask(width) == value % (1u32 << width),
{
    if width == 1 {
        assert(value & field_mask(1) == value % (1u32 << 1u32)) by (bit_vector);
    } else if width == 2 {
        assert(value & field_mask(2) == value % (1u32 << 2u32)) by (bit_vector);
    } else if width == 4 {
        assert(value & field_mask(4) == value % (1u32 << 4u32)) by (bit_vector);
    } else if width == 8 {
        assert(value & field_mask(8) == value % (1u32 << 8u32)) by (bit_vector);
    } else {
        assert(value & field_mask(16) == value % (1u32 << 16u32)) by (bit_vector);
    }
}

/// The concrete masks of the accepted field widths.
pub proof fn lemma_mask_values()
    by (bit_vector)
    ensures
        field_mask(1) == 0x1,
        field_mask(2) == 0x3,
        field_mask(4) == 0xf,
        field_mask(8) == 0xff,
        field_mask(16) == 0xffff,
{
}

/// A value no wider than the field passes through the field mask unchanged.
pub proof fn lemma_value_fits_in_field(width: u32, value: u32)
    requires
        valid_field_width(width),
        value <= field_mask(width),
    ensures
        value & field_mask(width) == value,
{
    if width == 1 {
        assert(value <= field_mask(1) ==> value & field_mask(1) == value) by (bit_vector);
    } else if width == 2 {
        assert(value <= field_mask(2) ==> value & field_mask(2) == value) by (bit_vector);
    } else if width == 4 {
        assert(value <= field_mask(4) ==> value & field_mask(4) == value) by (bit_vector);
    } else if width == 8 {
        assert(value <= field_mask(8) ==> value & field_mask(8) == value) by (bit_vector);
    } else {
        assert(value <= field_mask(16) ==> value & field_mask(16) == value) by (bit_vector);
    }
}

/// Law: after writing a field, reading that field returns the written value
/// modulo 2^width, and every other field of the same window — in the same
/// register or another one — still reads its previous value.
pub proof fn lemma_field_round_trip(
    words: Seq<u32>,
    base: int,
    width: u32,
    index: u32,
    value: u32,
)
    requires
        valid_field_width(width),
        field_in_bounds(words.len() as int, base, width, index),
    ensures
        spec_read_field(spec_write_field(words, base, width, index, value), base, width, index)
            == value & field_mask(width),
        value & field_mask(width) == value % (1u32 << width),
        forall|j: u32|
            field_in_bounds(words.len() as int, base, width, j) && j != index
                ==> #[trigger] spec_read_field(
                spec_write_field(words, base, width, index, value),
                base,
                width,
                j,
            ) == spec_read_field(words, base, width, j),
        spec_write_field(words, base, width, index, value).len() == words.len(),
        forall|c: int|
            0 <= c < words.len() && c != field_cell(base, width, index)
                ==> spec_write_field(words, base, width, index, value)[c] == words[c],
{
    lemma_field_geometry(width, index);
    lemma_written_field_reads_back(
        words[field_cell(base, width, index)],
        width,
        field_shift(width, index),
        value,
    );
    lemma_mask_is_mod(width, value);
    let updated = spec_write_field(words, base, width, index, value);
    assert forall|j: u32|
        field_in_bounds(words.len() as int, base, width, j) && j != index implies #[trigger] spec_read_field(
        updated,
        base,
        width,
        j,
    ) == spec_read_field(words, base, width, j) by {
        lemma_field_geometry(width, j);
        if field_cell(base, width, j) == field_cell(base, width, index) {
            lemma_fields_distinct(base, width, index, j);
            lemma_written_field_frames_others(
                words[field_cell(base, width, index)],
                width,
                field_shift(width, index),
                field_shift(width, j),
                value,
            );
        }
    }
}

/// Law: writes to two distinct field indices that map to the same register
/// are independent — the second write leaves the first field's value intact.
pub proof fn lemma_same_register_independent(
    words: Seq<u32>,
    base: int,
    width: u32,
    index1: u32,
    index2: u32,
    value1: u32,
    value2: u32,
)
    requires
        valid_field_width(width),
        field_in_bounds(words.len() as int, base, width, index1),
        field_cell(base, width, index1) == field_cell(base, width, index2),
        index1 != index2,
    ensures
        spec_read_field(
            spec_write_field(
                spec_write_field(words, base, width, index1, value1),
                base,
                width,
                index2,
                value2,
            ),
            base,
            width,
            index1,
        ) == value1 & field_mask(width),
{
    lemma_field_round_trip(words, base, width, index1, value1);
    lemma_field_round_trip(
        spec_write_field(words, base, width, index1, value1),
        base,
        width,
        index2,
        value2,
    );
}

/// A row of 32-bit registers backed by memory, addressed by cell index.
pub struct RegBank {
    words: Vec<u32>,
}

impl View for RegBank {
    type V = Seq<u32>;

    closed spec fn view(&self) -> Seq<u32> {
        self.words@
    }
}

impl RegBank {
    /// A bank of `len` registers, all reading as zero.
    pub fn new(len: usize) -> (bank: RegBank)
        ensures
            bank@.len() == len,
            forall|c: int| 0 <= c < len ==> bank@[c] == 0,
    {
        let mut words: Vec<u32> = Vec::new();
        let mut i: usize = 0;
        while i < len
            invariant
                i <= len,
                words@.len() == i,
                forall|c: int| 0 <= c < i ==> words@[c] == 0,
            decreases len - i,
        {
            words.push(0);
            i = i + 1;
        }
        RegBank { words }
    }

    /// Number of registers in the bank.
    pub fn len(&self) -> (n: usize)
        ensures
            n == self@.len(),
    {
        self.words.len()
    }

    /// Read one whole register.
    pub fn read32(&self, cell: usize) -> (value: u32)
        requires
            cell < self@.len(),
        ensures
            value == self@[cell as int],
    {
        self.words[cell]
    }

    /// Overwrite one whole register.
    pub fn write32(&mut self, cell: usize, value: u32)
        requires
            cell < old(self)@.len(),
        ensures
            final(self)@ == old(self)@.update(cell as int, value),
    {
        self.words[cell] = value;
    }

    /// Read the field of `width` bits at `index` of the window at `base`.
    pub fn read_field(&self, base: usize, width: u32, index: u32) -> (value: u32)
        requires
            valid_field_width(width),
            field_in_bounds(self@.len() as int, base as int, width, index),
        ensures
            value == spec_read_field(self@, base as int, width, index),
            value & field_mask(width) == value,
            value <= field_mask(width),
    {
        proof {
            lemma_field_geometry(width, index);
            assert(1u32 << width >= 1) by (bit_vector)
                requires
                    width < 32,
            ;
        }
        let epr: u32 = 32 / width;
        let quot: u32 = index / epr;
        proof {
            vstd::std_specs::vec::axiom_spec_len(&self.words);
            assert(quot == index as int / entries_per_register(width));
        }
        let cell: usize = base + quot as usize;
        let shift: u32 = (index % epr) * width;
        let mask: u32 = (1u32 << width) - 1;
        let value = (self.read32(cell) >> shift) & mask;
        proof {
            let word = self@[field_cell(base as int, width, index)];
            let sh = field_shift(width, index);
            assert(((word >> sh) & field_mask(width)) & field_mask(width) == (word >> sh)
                & field_mask(width) && (word >> sh) & field_mask(width) <= field_mask(width))
                by (bit_vector);
        }
        value
    }

    /// Write `value` (reduced to the field width) to the field at `index` of
    /// the window at `base`.  The write is a read-modify-write of the whole
    /// register: the target field takes the value, every other field of the
    /// bank keeps its previous value.
    pub fn write_field(&mut self, base: usize, width: u32, index: u32, value: u32)
        requires
            valid_field_width(width),
            field_in_bounds(old(self)@.len() as int, base as int, width, index),
        ensures
            final(self)@ == spec_write_field(old(self)@, base as int, width, index, value),
            final(self)@.len() == old(self)@.len(),
            spec_read_field(final(self)@, base as int, width, index) == value & field_mask(width),
            forall|j: u32|
                field_in_bounds(old(self)@.len() as int, base as int, width, j) && j != index
                    ==> #[trigger] spec_read_field(final(self)@, base as int, width, j)
                    == spec_read_field(old(self)@, base as int, width, j),
            forall|c: int|
                0 <= c < old(self)@.len() && c != field_cell(base as int, width, index)
                    ==> final(self)@[c] == old(self)@[c],
    {
        proof {
            lemma_field_geometry(width, index);
            lemma_field_round_trip(self@, base as int, width, index, value);
            assert(1u32 << width >= 1) by (bit_vector)
                requires
                    width < 32,
            ;
        }
        let epr: u32 = 32 / width;
        let quot: u32 = index / epr;
        proof {
            vstd::std_specs::vec::axiom_spec_len(&self.words);
            assert(quot == index as int / entries_per_register(width));
        }
        let cell: usize = base + quot as usize;
        let shift: u32 = (index % epr) * width;
        let mask: u32 = (1u32 << width) - 1;
        let current = self.read32(cell);
        let updated = (current & !(mask << shift)) | ((value & mask) << shift);
        self.write32(cell, updated);
    }
}

} // verus!
