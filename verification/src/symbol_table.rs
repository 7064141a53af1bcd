//! The fixed, ordered table of the symbols printed around each drum.
//!
//! The index of a symbol in this table is its ordinal position on the drum;
//! the table order defines the physical layout and never changes. Looking up
//! a byte that is not in the table yields position 0 (the blank symbol), so
//! an unknown symbol can never halt the display.

use vstd::prelude::*;

verus! {

/// Number of symbols on a drum.
pub const SYMBOL_COUNT: u32 = 55;

/// The drum's symbol layout: blank, letters, digits, punctuation, and
/// reserved control codes, in their physical order around the drum.
pub open spec fn symbol_table() -> Seq<u8> {
    seq![
        32u8, 65u8, 66u8, 67u8, 68u8, 69u8, 70u8, 71u8, 72u8, 73u8, 74u8, 75u8, 76u8, 77u8,
        78u8, 79u8, 80u8, 81u8, 82u8, 83u8, 84u8, 85u8, 86u8, 87u8, 88u8, 89u8, 90u8, 48u8,
        49u8, 50u8, 51u8, 52u8, 53u8, 54u8, 55u8, 56u8, 57u8, 58u8, 45u8, 95u8, 46u8, 37u8,
        64u8, 47u8, 1u8, 2u8, 3u8, 4u8, 5u8, 6u8, 7u8, 8u8, 9u8, 10u8, 11u8,
    ]
}

/// Index of the first occurrence of `code` in `table` at or after `from`,
/// or 0 if there is none.
pub open spec fn first_position_from(table: Seq<u8>, code: u8, from: int) -> int
    decreases table.len() - from,
{
    if from < 0 || from >= table.len() {
        0
    } else if table[from] == code {
        from
    } else {
        first_position_from(table, code, from + 1)
    }
}

/// Ordinal position of `code` on the drum: the index of its first occurrence
/// in the symbol table, or 0 (the blank symbol) if it does not occur.
pub open spec fn symbol_position(code: u8) -> int {
    first_position_from(symbol_table(), code, 0)
}

proof fn lemma_first_position_skips_mismatches(table: Seq<u8>, code: u8, from: int, to: int)
    requires
        0 <= from <= to <= table.len(),
        forall|j: int| from <= j < to ==> table[j] != code,
    ensures
        first_position_from(table, code, from) == first_position_from(table, code, to),
    decreases to - from,
{
    if from < to {
        lemma_first_position_skips_mismatches(table, code, from + 1, to);
    }
}

/// Ordinal of the first symbol in the table equal to `target_character_code`,
/// or 0 when the byte is not a drum symbol.
pub fn position_of(target_character_code: u8) -> (position: u32)
    ensures
        position == symbol_position(target_character_code),
        position < SYMBOL_COUNT,
{
    let table: [u8; 55] = [
        32u8, 65u8, 66u8, 67u8, 68u8, 69u8, 70u8, 71u8, 72u8, 73u8, 74u8, 75u8, 76u8, 77u8,
        78u8, 79u8, 80u8, 81u8, 82u8, 83u8, 84u8, 85u8, 86u8, 87u8, 88u8, 89u8, 90u8, 48u8,
        49u8, 50u8, 51u8, 52u8, 53u8, 54u8, 55u8, 56u8, 57u8, 58u8, 45u8, 95u8, 46u8, 37u8,
        64u8, 47u8, 1u8, 2u8, 3u8, 4u8, 5u8, 6u8, 7u8, 8u8, 9u8, 10u8, 11u8,
    ];
    proof {
        assert(table@ =~= symbol_table());
    }
    let mut i: usize = 0;
    while i < 55
        invariant
            i <= 55,
            table@ =~= symbol_table(),
            forall|j: int| 0 <= j < i ==> symbol_table()[j] != target_character_code,
        decreases 55 - i,
    {
        if table[i] == target_character_code {
            proof {
                lemma_first_position_skips_mismatches(
                    symbol_table(),
                    target_character_code,
                    0,
                    i as int,
                );
            }
            return i as u32;
        }
        i += 1;
    }
    proof {
        lemma_first_position_skips_mismatches(symbol_table(), target_character_code, 0, 55);
    }
    0
}

} // verus!
