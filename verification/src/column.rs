//! Columns of strings and of integers, as `arrow` holds them.
//!
//! A column is an array of `arrow`. This module does not look inside one: it
//! names what an array holds, slot by slot, and says of each call into
//! `arrow` what it returns in terms of those names. A slot holds a value or
//! is null.

use arrow::array::{make_array, Array, ArrayData, ArrayRef, AsArray, PrimitiveArray};
use arrow::datatypes::{DataType, Int32Type, Int64Type};
use vstd::prelude::*;
use vstd::utf8::is_ascii_chars;

verus! {

/// `arrow::array::ArrayData`, an array of any type as `arrow` passes it
/// around. Opaque here.
#[verifier::external_type_specification]
#[verifier::external_body]
pub struct ExArrayData(ArrayData);

/// The layouts in which `arrow` holds a column of strings.
#[derive(Clone, Copy, Debug, PartialEq, Eq, Structural)]
pub enum StringType {
    /// Strings behind 32-bit offsets.
    Utf8,
    /// Strings behind 64-bit offsets.
    LargeUtf8,
    /// Strings behind views.
    Utf8View,
}

/// The layout of an array that holds strings, and `None` for any other array.
pub uninterp spec fn string_type_of(data: ArrayData) -> Option<StringType>;

/// The strings that an array of strings holds, slot by slot.
pub uninterp spec fn data_strings(data: ArrayData) -> Seq<Option<Seq<char>>>;

/// The numbers that an array of 32-bit integers holds, slot by slot.
pub uninterp spec fn data_i32s(data: ArrayData) -> Seq<Option<i32>>;

/// The numbers that an array of 64-bit integers holds, slot by slot.
pub uninterp spec fn data_i64s(data: ArrayData) -> Seq<Option<i64>>;

/// The number of slots that are null.
pub open spec fn null_slots<A>(slots: Seq<Option<A>>) -> nat
    decreases slots.len(),
{
    if slots.len() == 0 {
        0
    } else {
        null_slots(slots.drop_last()) + if slots.last() is None {
            1nat
        } else {
            0nat
        }
    }
}

/// Slots of which none is counted as null all hold a value.
pub proof fn lemma_no_null_slots<A>(slots: Seq<Option<A>>)
    requires
        null_slots(slots) == 0,
    ensures
        forall|i: int| 0 <= i < slots.len() ==> #[trigger] slots[i] is Some,
    decreases slots.len(),
{
    if slots.len() > 0 {
        lemma_no_null_slots(slots.drop_last());
        assert forall|i: int| 0 <= i < slots.len() implies #[trigger] slots[i] is Some by {
            if i < slots.len() - 1 {
                assert(slots[i] == slots.drop_last()[i]);
            }
        }
    }
}

/// Whether every string among the slots is made of ASCII characters alone.
pub open spec fn all_ascii(slots: Seq<Option<Seq<char>>>) -> bool {
    forall|i: int|
        0 <= i < slots.len() ==> (#[trigger] slots[i] matches Some(string) ==> is_ascii_chars(
            string,
        ))
}

/// An array of strings, ready to be read slot by slot.
#[verifier::external_body]
pub struct StringColumn {
    array: ArrayRef,
}

/// The array that a column reads from.
pub uninterp spec fn column_data(column: StringColumn) -> ArrayData;

impl StringColumn {
    /// The strings of the column, slot by slot.
    #[verifier::inline]
    pub open spec fn strings(self) -> Seq<Option<Seq<char>>> {
        data_strings(column_data(self))
    }

    /// Calls `make_array` on a copy of the data of an array that holds
    /// strings. Trusted: there is a column exactly for the three string
    /// layouts, and it reads from the array it was made of.
    #[verifier::external_body]
    pub(crate) fn open(data: &ArrayData) -> (column: Option<StringColumn>)
        ensures
            column is Some <==> string_type_of(*data) is Some,
            column matches Some(opened) ==> column_data(opened) == *data,
    {
        match data.data_type() {
            DataType::Utf8 | DataType::LargeUtf8 | DataType::Utf8View => Some(
                StringColumn { array: make_array(data.clone()) },
            ),
            _ => None,
        }
    }

    /// Calls `Array::data_type`. Trusted: it tells the layout of the column.
    #[verifier::external_body]
    pub(crate) fn data_type(&self) -> (layout: StringType)
        ensures
            Some(layout) == string_type_of(column_data(*self)),
    {
        match self.array.data_type() {
            DataType::Utf8 => StringType::Utf8,
            DataType::LargeUtf8 => StringType::LargeUtf8,
            _ => StringType::Utf8View,
        }
    }

    /// Calls `Array::len`. Trusted: it is the number of slots.
    #[verifier::external_body]
    pub(crate) fn len(&self) -> (len: usize)
        ensures
            len == data_strings(column_data(*self)).len(),
    {
        self.array.len()
    }

    /// Calls `Array::null_count`. Trusted: it is the number of null slots.
    #[verifier::external_body]
    pub(crate) fn null_count(&self) -> (count: usize)
        ensures
            count == null_slots(data_strings(column_data(*self))),
    {
        self.array.null_count()
    }

    /// Calls `Array::is_null`. Trusted: it tells whether the slot is null.
    #[verifier::external_body]
    pub(crate) fn is_null(&self, i: usize) -> (null: bool)
        requires
            i < data_strings(column_data(*self)).len(),
        ensures
            null == (data_strings(column_data(*self))[i as int] is None),
    {
        self.array.is_null(i)
    }

    /// Calls `value` on the array, seen as the array of its layout. Trusted:
    /// for a slot that is not null, it is the string of the slot.
    #[verifier::external_body]
    pub(crate) fn value(&self, i: usize) -> (text: &str)
        requires
            i < data_strings(column_data(*self)).len(),
        ensures
            data_strings(column_data(*self))[i as int] matches Some(string) ==> text@ == string,
    {
        match self.array.data_type() {
            DataType::Utf8 => self.array.as_string::<i32>().value(i),
            DataType::LargeUtf8 => self.array.as_string::<i64>().value(i),
            _ => self.array.as_string_view().value(i),
        }
    }

    /// Calls `is_ascii` on the array, seen as the array of its layout.
    /// Trusted: where it says yes, every string of the column is ASCII.
    #[verifier::external_body]
    pub(crate) fn is_ascii(&self) -> (ascii: bool)
        ensures
            ascii ==> all_ascii(data_strings(column_data(*self))),
    {
        match self.array.data_type() {
            DataType::Utf8 => self.array.as_string::<i32>().is_ascii(),
            DataType::LargeUtf8 => self.array.as_string::<i64>().is_ascii(),
            _ => self.array.as_string_view().is_ascii(),
        }
    }
}

/// Whether an array of integers has the given numbers in the slots where the
/// column has a string, and a null in the slots where the column has a null.
pub open spec fn numbers_beside<N>(
    numbers: Seq<Option<N>>,
    values: Seq<N>,
    strings: Seq<Option<Seq<char>>>,
) -> bool {
    &&& numbers.len() == strings.len()
    &&& forall|i: int|
        0 <= i < strings.len() ==> #[trigger] numbers[i] == (if strings[i] is Some {
            Some(values[i])
        } else {
            None
        })
}

/// Calls `PrimitiveArray::new` for 32-bit integers, with the values and a
/// copy of the null mask of the column. Trusted: the array holds the values,
/// and a null wherever the column holds one.
#[verifier::external_body]
pub(crate) fn int32_data(values: Vec<i32>, nulls_of: &StringColumn) -> (data: ArrayData)
    requires
        values@.len() == data_strings(column_data(*nulls_of)).len(),
    ensures
        numbers_beside(data_i32s(data), values@, data_strings(column_data(*nulls_of))),
{
    PrimitiveArray::<Int32Type>::new(values.into(), nulls_of.array.nulls().cloned()).into_data()
}

/// Calls `PrimitiveArray::new` for 64-bit integers, with the values and a
/// copy of the null mask of the column. Trusted: the array holds the values,
/// and a null wherever the column holds one.
#[verifier::external_body]
pub(crate) fn int64_data(values: Vec<i64>, nulls_of: &StringColumn) -> (data: ArrayData)
    requires
        values@.len() == data_strings(column_data(*nulls_of)).len(),
    ensures
        numbers_beside(data_i64s(data), values@, data_strings(column_data(*nulls_of))),
{
    PrimitiveArray::<Int64Type>::new(values.into(), nulls_of.array.nulls().cloned()).into_data()
}

} // verus!
