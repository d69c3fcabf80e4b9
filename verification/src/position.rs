//! Positions of cells in a block's matrix, the cells themselves, and the
//! reference under which a cell's record is kept in the hash table.
use vstd::prelude::*;

verus! {

/// Number of bytes in the content of every cell.
pub const CELL_SIZE: usize = 80;

/// The byte that separates the three numbers of a reference.
pub const SEPARATOR: u8 = 58;

/// The place of a cell within a block: its row and its column.
#[derive(Clone, Copy, Debug, PartialEq, Eq, Structural, Hash, PartialOrd, Ord)]
pub struct Position {
    pub row: u32,
    pub col: u16,
}

/// A cell: a position and the bytes found for it.
#[derive(Clone, Debug, PartialEq, Eq)]
pub struct Cell {
    pub position: Position,
    pub content: Vec<u8>,
}

/// The decimal digits of `n` in ASCII, most significant first, without
/// leading zeros (`0` is the single digit `0`).
pub open spec fn decimal(n: nat) -> Seq<u8>
    decreases n,
{
    if n < 10 {
        seq![(48 + n) as u8]
    } else {
        decimal(n / 10).push((48 + n % 10) as u8)
    }
}

/// The reference of the cell at `position` in block `block_number`: the block
/// number, the row and the column in decimal, separated by colons.
pub open spec fn reference_of(block_number: u64, position: Position) -> Seq<u8> {
    decimal(block_number as nat).push(SEPARATOR) + decimal(position.row as nat).push(SEPARATOR)
        + decimal(position.col as nat)
}

/// Whether `byte` is an ASCII decimal digit.
pub open spec fn is_digit(byte: u8) -> bool {
    48 <= byte <= 57
}

/// The number that a sequence of ASCII digits denotes.
pub open spec fn digits_value(digits: Seq<u8>) -> nat
    decreases digits.len(),
{
    if digits.len() == 0 {
        0
    } else {
        digits_value(digits.drop_last()) * 10 + (digits.last() - 48) as nat
    }
}

/// A decimal rendering is never empty, holds digits only, and denotes the
/// number it was made from.
pub proof fn lemma_decimal_digits(n: nat)
    ensures
        decimal(n).len() >= 1,
        forall|i: int| 0 <= i < decimal(n).len() ==> is_digit(#[trigger] decimal(n)[i]),
        digits_value(decimal(n)) == n,
    decreases n,
{
    if n < 10 {
        let d = decimal(n);
        assert(d.drop_last() =~= Seq::<u8>::empty());
        assert(digits_value(d.drop_last()) == 0);
    } else {
        lemma_decimal_digits(n / 10);
        let d = decimal(n);
        assert(d.drop_last() =~= decimal(n / 10));
        assert(d.last() == (48 + n % 10) as u8);
    }
}

/// Whether `bytes` holds ASCII digits only.
pub open spec fn all_digits(bytes: Seq<u8>) -> bool {
    forall|i: int| 0 <= i < bytes.len() ==> is_digit(#[trigger] bytes[i])
}

/// Two numbers with the same decimal rendering are the same number.
pub proof fn lemma_decimal_injective(m: nat, n: nat)
    requires
        decimal(m) == decimal(n),
    ensures
        m == n,
{
    lemma_decimal_digits(m);
    lemma_decimal_digits(n);
}

/// A run of digits that ends at a separator can be read off in one way only:
/// where two such texts are equal, so are the runs, and so is what follows.
pub proof fn lemma_separator_splits(a: Seq<u8>, x: Seq<u8>, b: Seq<u8>, y: Seq<u8>)
    requires
        all_digits(a),
        all_digits(b),
        a.push(SEPARATOR) + x == b.push(SEPARATOR) + y,
    ensures
        a == b,
        x == y,
{
    let left = a.push(SEPARATOR) + x;
    let right = b.push(SEPARATOR) + y;
    if a.len() < b.len() {
        assert(left[a.len() as int] == SEPARATOR);
        assert(right[a.len() as int] == b[a.len() as int]);
        assert(false);
    }
    if b.len() < a.len() {
        assert(right[b.len() as int] == SEPARATOR);
        assert(left[b.len() as int] == a[b.len() as int]);
        assert(false);
    }
    assert(left.len() == a.len() + 1 + x.len());
    assert(right.len() == b.len() + 1 + y.len());
    assert forall|i: int| 0 <= i < a.len() implies a[i] == b[i] by {
        assert(left[i] == a[i]);
        assert(right[i] == b[i]);
    }
    assert(a =~= b);
    assert forall|i: int| 0 <= i < x.len() implies x[i] == y[i] by {
        assert(left[a.len() + 1 + i] == x[i]);
        assert(right[b.len() + 1 + i] == y[i]);
    }
    assert(x =~= y);
}

/// Two cells have the same reference only where they are the same cell of
/// the same block.
pub proof fn lemma_reference_injective(
    block_a: u64,
    position_a: Position,
    block_b: u64,
    position_b: Position,
)
    requires
        reference_of(block_a, position_a) == reference_of(block_b, position_b),
    ensures
        block_a == block_b,
        position_a == position_b,
{
    let block_text_a = decimal(block_a as nat);
    let block_text_b = decimal(block_b as nat);
    let row_a = decimal(position_a.row as nat);
    let row_b = decimal(position_b.row as nat);
    let col_a = decimal(position_a.col as nat);
    let col_b = decimal(position_b.col as nat);
    lemma_decimal_digits(block_a as nat);
    lemma_decimal_digits(block_b as nat);
    lemma_decimal_digits(position_a.row as nat);
    lemma_decimal_digits(position_b.row as nat);
    let rest_a = row_a.push(SEPARATOR) + col_a;
    let rest_b = row_b.push(SEPARATOR) + col_b;
    assert(reference_of(block_a, position_a) =~= block_text_a.push(SEPARATOR) + rest_a);
    assert(reference_of(block_b, position_b) =~= block_text_b.push(SEPARATOR) + rest_b);
    lemma_separator_splits(block_text_a, rest_a, block_text_b, rest_b);
    lemma_separator_splits(row_a, col_a, row_b, col_b);
    lemma_decimal_injective(block_a as nat, block_b as nat);
    lemma_decimal_injective(position_a.row as nat, position_b.row as nat);
    lemma_decimal_injective(position_a.col as nat, position_b.col as nat);
}

/// Appends the decimal digits of `n` to `out`.
pub fn push_decimal(out: &mut Vec<u8>, n: u64)
    ensures
        final(out)@ == old(out)@ + decimal(n as nat),
    decreases n,
{
    if n >= 10 {
        push_decimal(out, n / 10);
    }
    let digit: u8 = (n % 10) as u8;
    out.push(48 + digit);
    assert(final(out)@ =~= old(out)@ + decimal(n as nat));
}

impl Position {
    /// The reference of this position in block `block_number`, as the bytes
    /// of the key under which the cell's record is looked up.
    pub fn reference(&self, block_number: u64) -> (key: Vec<u8>)
        ensures
            key@ == reference_of(block_number, *self),
    {
        let mut key: Vec<u8> = Vec::new();
        push_decimal(&mut key, block_number);
        key.push(SEPARATOR);
        push_decimal(&mut key, self.row as u64);
        key.push(SEPARATOR);
        push_decimal(&mut key, self.col as u64);
        assert(key@ =~= reference_of(block_number, *self));
        key
    }
}

impl Cell {
    /// A cell is well formed when its content has the fixed size.
    pub open spec fn wf(&self) -> bool {
        self.content@.len() == CELL_SIZE
    }

    /// The reference of this cell in block `block_number`.
    pub fn reference(&self, block_number: u64) -> (key: Vec<u8>)
        ensures
            key@ == reference_of(block_number, self.position),
    {
        self.position.reference(block_number)
    }
}

} // verus!
