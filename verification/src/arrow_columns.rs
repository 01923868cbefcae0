//! Column builders of Arrow, as this library fills them.
//!
//! The builders of `arrow` are kept as they are; each is held in a small struct
//! whose contents Verus knows only through a name (`utf8_column_values`,
//! `uint64_column_values`) and through the contracts of the methods below,
//! which call the builder's own methods.
use vstd::prelude::*;
use vstd::utf8::encode_utf8;
use datafusion::arrow::array::StringBuilder;
use datafusion::arrow::array::UInt64Builder;

verus! {

/// The number of bytes that one cell of a UTF-8 column takes in the column's
/// value buffer: the UTF-8 encoding of the string, or nothing for a null.
pub open spec fn cell_bytes(cell: Option<Seq<char>>) -> nat {
    match cell {
        Some(s) => encode_utf8(s).len(),
        None => 0,
    }
}

/// The number of bytes that a UTF-8 column with these cells holds.
pub open spec fn text_bytes(cells: Seq<Option<Seq<char>>>) -> nat
    decreases cells.len(),
{
    if cells.len() == 0 {
        0
    } else {
        text_bytes(cells.drop_last()) + cell_bytes(cells.last())
    }
}

/// The largest offset that a `StringBuilder` (32-bit offsets) can record.
pub open spec fn max_utf8_offset() -> nat {
    0x7fff_ffff
}

/// A UTF-8 column with these cells stays within the offsets of a `StringBuilder`.
pub open spec fn fits_utf8_offsets(cells: Seq<Option<Seq<char>>>) -> bool {
    text_bytes(cells) <= max_utf8_offset()
}

pub open spec fn str_cell(s: Option<&str>) -> Option<Seq<char>> {
    match s {
        Some(v) => Some(v@),
        None => None,
    }
}

/// The bytes of two columns put end to end add up.
pub proof fn lemma_text_bytes_concat(a: Seq<Option<Seq<char>>>, b: Seq<Option<Seq<char>>>)
    ensures
        text_bytes(a + b) == text_bytes(a) + text_bytes(b),
    decreases b.len(),
{
    if b.len() == 0 {
        assert(a + b =~= a);
    } else {
        lemma_text_bytes_concat(a, b.drop_last());
        assert((a + b).drop_last() =~= a + b.drop_last());
        assert((a + b).last() == b.last());
    }
}

/// A column made of nulls holds no bytes.
pub proof fn lemma_text_bytes_nulls(n: nat)
    ensures
        text_bytes(Seq::new(n, |i: int| None::<Seq<char>>)) == 0,
    decreases n,
{
    if n > 0 {
        lemma_text_bytes_nulls((n - 1) as nat);
        assert(Seq::new(n, |i: int| None::<Seq<char>>).drop_last() =~= Seq::new(
            (n - 1) as nat,
            |i: int| None::<Seq<char>>,
        ));
    }
}

/// A column that fits keeps fitting when its last cells are taken away.
pub proof fn lemma_fits_prefix(a: Seq<Option<Seq<char>>>, b: Seq<Option<Seq<char>>>)
    requires
        fits_utf8_offsets(a + b),
    ensures
        fits_utf8_offsets(a),
{
    lemma_text_bytes_concat(a, b);
}

/// A UTF-8 column under construction: an Arrow `StringBuilder`.
#[verifier::external_body]
pub struct Utf8Column {
    pub(crate) builder: StringBuilder,
}

/// The cells appended to a UTF-8 column so far, in order; `None` for a null.
pub uninterp spec fn utf8_column_values(c: Utf8Column) -> Seq<Option<Seq<char>>>;

impl Utf8Column {
    /// `StringBuilder::new`: an empty builder.
    #[verifier::external_body]
    pub(crate) fn new() -> (c: Utf8Column)
        ensures
            utf8_column_values(c) == Seq::<Option<Seq<char>>>::empty(),
    {
        Utf8Column { builder: StringBuilder::new() }
    }

    /// `StringBuilder::append_value`: appends one string cell. The builder
    /// panics when the bytes held pass the largest 32-bit offset, so those
    /// inputs are left out.
    #[verifier::external_body]
    pub(crate) fn append_value(&mut self, value: &str)
        requires
            fits_utf8_offsets(utf8_column_values(*old(self)).push(Some(value@))),
        ensures
            utf8_column_values(*final(self)) == utf8_column_values(*old(self)).push(Some(value@)),
    {
        self.builder.append_value(value)
    }

    /// `StringBuilder::append_null`: appends one null cell.
    #[verifier::external_body]
    pub(crate) fn append_null(&mut self)
        requires
            fits_utf8_offsets(utf8_column_values(*old(self))),
        ensures
            utf8_column_values(*final(self)) == utf8_column_values(*old(self)).push(None),
    {
        self.builder.append_null()
    }

    /// `StringBuilder::append_option`: appends the string, or a null for `None`.
    #[verifier::external_body]
    pub(crate) fn append_option(&mut self, value: Option<&str>)
        requires
            fits_utf8_offsets(utf8_column_values(*old(self)).push(str_cell(value))),
        ensures
            utf8_column_values(*final(self)) == utf8_column_values(*old(self)).push(
                str_cell(value),
            ),
    {
        self.builder.append_option(value)
    }
}

/// A `UInt64` column under construction: an Arrow `UInt64Builder`.
#[verifier::external_body]
pub struct UInt64Column {
    pub(crate) builder: UInt64Builder,
}

/// The cells appended to a `UInt64` column so far, in order; `None` for a null.
pub uninterp spec fn uint64_column_values(c: UInt64Column) -> Seq<Option<u64>>;

impl UInt64Column {
    /// `UInt64Builder::with_capacity`: an empty builder with room for
    /// `capacity` values. The buffer size `capacity * 8`, rounded up to 64,
    /// must not overflow.
    #[verifier::external_body]
    pub(crate) fn with_capacity(capacity: usize) -> (c: UInt64Column)
        requires
            capacity * 8 + 63 <= usize::MAX,
        ensures
            uint64_column_values(c) == Seq::<Option<u64>>::empty(),
    {
        UInt64Column { builder: UInt64Builder::with_capacity(capacity) }
    }

    /// `UInt64Builder::append_value`: appends one value.
    #[verifier::external_body]
    pub(crate) fn append_value(&mut self, value: u64)
        ensures
            uint64_column_values(*final(self)) == uint64_column_values(*old(self)).push(
                Some(value),
            ),
    {
        self.builder.append_value(value)
    }

    /// `UInt64Builder::append_option`: appends the value, or a null for `None`.
    #[verifier::external_body]
    pub(crate) fn append_option(&mut self, value: Option<u64>)
        ensures
            uint64_column_values(*final(self)) == uint64_column_values(*old(self)).push(value),
    {
        self.builder.append_option(value)
    }
}

} // verus!
