//! The number of characters in each string of a column.

use crate::column::{
    all_ascii, data_i32s, data_i64s, data_strings, int32_data, int64_data, lemma_no_null_slots,
    string_type_of, StringColumn, StringType,
};
use arrow::array::ArrayData;
use vstd::prelude::*;
use vstd::string::StrSliceExecFns;

verus! {

/// An integer type that holds the lengths of strings.
pub trait LengthNative: Sized + Copy {
    /// The number that stands for a count: the count itself where the type
    /// holds it, and its low bits where it does not.
    spec fn of_count(count: nat) -> Self;

    /// The number that stands for a count.
    fn usize_as(count: usize) -> (native: Self)
        ensures
            native == Self::of_count(count as nat),
    ;
}

impl LengthNative for i32 {
    open spec fn of_count(count: nat) -> i32 {
        count as i32
    }

    fn usize_as(count: usize) -> (native: i32) {
        #[verifier::truncate]
        (count as i32)
    }
}

impl LengthNative for i64 {
    open spec fn of_count(count: nat) -> i64 {
        count as i64
    }

    fn usize_as(count: usize) -> (native: i64) {
        #[verifier::truncate]
        (count as i64)
    }
}

/// The length that a slot comes to: the number of characters of its string,
/// and zero for a null.
pub open spec fn slot_length<N: LengthNative>(slot: Option<Seq<char>>) -> N {
    match slot {
        Some(string) => N::of_count(string.len()),
        None => N::of_count(0),
    }
}

/// The lengths of the strings of a column, slot by slot: a string gives its
/// number of characters, a null gives a null.
pub open spec fn lengths<N: LengthNative>(strings: Seq<Option<Seq<char>>>) -> Seq<Option<N>> {
    strings.map_values(
        |slot: Option<Seq<char>>|
            match slot {
                Some(string) => Some(N::of_count(string.len())),
                None => None,
            },
    )
}

/// Counts the characters of a string. A string of ASCII characters has as
/// many characters as bytes, which saves decoding it.
pub fn char_count(value: &str) -> (count: usize)
    ensures
        count == value@.len(),
{
    if value.is_ascii() {
        proof {
            vstd::string::is_ascii_spec_bytes(value);
        }
        value.as_bytes().len()
    } else {
        value.unicode_len()
    }
}

fn byte_count_of_ascii(value: &str) -> (count: usize)
    requires
        vstd::utf8::is_ascii_chars(value@),
    ensures
        count == value@.len(),
{
    proof {
        vstd::string::is_ascii_spec_bytes(value);
    }
    value.as_bytes().len()
}

/// Computes the length of every slot of a column: the number of characters
/// of a string, zero for a null.
///
/// Decoding a string to count its characters is costly, and asking whether a
/// whole column is ASCII is cheap. So a column that is all ASCII has its
/// bytes counted, and a column without nulls is not asked slot by slot
/// whether the slot is null.
pub(crate) fn character_length_general<N: LengthNative>(array: &StringColumn) -> (values: Vec<N>)
    ensures
        values@.len() == array.strings().len(),
        forall|i: int|
            0 <= i < values@.len() ==> #[trigger] values@[i] == slot_length::<N>(
                array.strings()[i],
            ),
{
    let is_array_ascii_only = array.is_ascii();
    let len = array.len();
    let mut values: Vec<N> = Vec::with_capacity(len);
    if array.null_count() == 0 {
        proof {
            lemma_no_null_slots(array.strings());
        }
        if is_array_ascii_only {
            for i in 0..len
                invariant
                    len == array.strings().len(),
                    values@.len() == i,
                    forall|j: int| 0 <= j < len ==> #[trigger] array.strings()[j] is Some,
                    all_ascii(array.strings()),
                    forall|j: int|
                        0 <= j < i ==> #[trigger] values@[j] == slot_length::<N>(
                            array.strings()[j],
                        ),
            {
                let value = array.value(i);
                values.push(N::usize_as(byte_count_of_ascii(value)));
            }
        } else {
            for i in 0..len
                invariant
                    len == array.strings().len(),
                    values@.len() == i,
                    forall|j: int| 0 <= j < len ==> #[trigger] array.strings()[j] is Some,
                    forall|j: int|
                        0 <= j < i ==> #[trigger] values@[j] == slot_length::<N>(
                            array.strings()[j],
                        ),
            {
                let value = array.value(i);
                values.push(N::usize_as(char_count(value)));
            }
        }
    } else if is_array_ascii_only {
        for i in 0..len
            invariant
                len == array.strings().len(),
                values@.len() == i,
                all_ascii(array.strings()),
                forall|j: int|
                    0 <= j < i ==> #[trigger] values@[j] == slot_length::<N>(array.strings()[j]),
        {
            if array.is_null(i) {
                values.push(N::usize_as(0));
            } else {
                let value = array.value(i);
                values.push(N::usize_as(byte_count_of_ascii(value)));
            }
        }
    } else {
        for i in 0..len
            invariant
                len == array.strings().len(),
                values@.len() == i,
                forall|j: int|
                    0 <= j < i ==> #[trigger] values@[j] == slot_length::<N>(array.strings()[j]),
        {
            if array.is_null(i) {
                values.push(N::usize_as(0));
            } else {
                let value = array.value(i);
                values.push(N::usize_as(char_count(value)));
            }
        }
    }
    values
}

/// What `character_length` returns for an array.
pub open spec fn character_length_of(data: ArrayData, lengths_data: Option<ArrayData>) -> bool {
    match string_type_of(data) {
        Some(StringType::Utf8) | Some(StringType::Utf8View) => lengths_data matches Some(out)
            && data_i32s(out) == lengths::<i32>(data_strings(data)),
        Some(StringType::LargeUtf8) => lengths_data matches Some(out) && data_i64s(out)
            == lengths::<i64>(data_strings(data)),
        None => lengths_data is None,
    }
}

/// Returns the number of characters of each string of an array.
///
/// `character_length('josé') = 4`: characters are counted, not bytes. A null
/// gives a null. An array of `Utf8` or `Utf8View` gives 32-bit integers, an
/// array of `LargeUtf8` gives 64-bit integers. An array that does not hold
/// strings gives `None`.
pub fn character_length(data: &ArrayData) -> (lengths_data: Option<ArrayData>)
    ensures
        character_length_of(*data, lengths_data),
{
    match StringColumn::open(data) {
        Some(string_array) => {
            let out = match string_array.data_type() {
                StringType::Utf8 => {
                    let values = character_length_general::<i32>(&string_array);
                    let out = int32_data(values, &string_array);
                    assert(data_i32s(out) =~= lengths::<i32>(data_strings(*data)));
                    out
                },
                StringType::LargeUtf8 => {
                    let values = character_length_general::<i64>(&string_array);
                    let out = int64_data(values, &string_array);
                    assert(data_i64s(out) =~= lengths::<i64>(data_strings(*data)));
                    out
                },
                StringType::Utf8View => {
                    let values = character_length_general::<i32>(&string_array);
                    let out = int32_data(values, &string_array);
                    assert(data_i32s(out) =~= lengths::<i32>(data_strings(*data)));
                    out
                },
            };
            Some(out)
        },
        None => None,
    }
}

} // verus!
