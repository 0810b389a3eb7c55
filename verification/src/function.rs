//! The scalar function `character_length` as the query engine registers it:
//! its name and aliases, the arguments it takes, and what it returns.

use crate::character_length::{character_length, character_length_of};
use crate::column::StringType;
use arrow::array::ArrayData;
use vstd::prelude::*;
use vstd::string::StringExecFns;

verus! {

/// How far the result of a function may be reused.
#[derive(Clone, Copy, Debug, PartialEq, Eq, Structural)]
pub enum Volatility {
    /// The same input always gives the same output.
    Immutable,
    /// The same input gives the same output within one query.
    Stable,
    /// Every evaluation may give another output.
    Volatile,
}

/// The type of the integers in which lengths are returned.
#[derive(Clone, Copy, Debug, PartialEq, Eq, Structural)]
pub enum LengthType {
    Int32,
    Int64,
}

/// The arguments that a function takes: `arg_count` arguments, all of one
/// type, which is one of `valid_types`.
#[derive(Clone, Debug, PartialEq, Eq)]
pub struct Signature {
    pub arg_count: usize,
    pub valid_types: Vec<StringType>,
    pub volatility: Volatility,
}

/// The function `character_length(str)`, with the aliases `length` and
/// `char_length`.
#[derive(Debug)]
pub struct CharacterLengthFunc {
    signature: Signature,
    aliases: Vec<String>,
}

/// The type of the lengths of a column of the given layout.
pub open spec fn length_type_for(arg_type: StringType) -> LengthType {
    match arg_type {
        StringType::Utf8 => LengthType::Int32,
        StringType::LargeUtf8 => LengthType::Int64,
        StringType::Utf8View => LengthType::Int32,
    }
}

impl CharacterLengthFunc {
    /// The signature of the function.
    pub closed spec fn signature_spec(&self) -> Signature {
        self.signature
    }

    /// The aliases of the function, in order.
    pub closed spec fn aliases_spec(&self) -> Seq<Seq<char>> {
        self.aliases@.map_values(|alias: String| alias@)
    }

    /// The function: it takes one string of any of the three layouts, is
    /// immutable, and answers to `length` and `char_length` as well.
    pub fn new() -> (func: CharacterLengthFunc)
        ensures
            func.signature_spec().arg_count == 1,
            func.signature_spec().valid_types@ == seq![
                StringType::Utf8,
                StringType::LargeUtf8,
                StringType::Utf8View,
            ],
            func.signature_spec().volatility == Volatility::Immutable,
            func.aliases_spec() == seq!["length"@, "char_length"@],
    {
        let mut valid_types: Vec<StringType> = Vec::new();
        valid_types.push(StringType::Utf8);
        valid_types.push(StringType::LargeUtf8);
        valid_types.push(StringType::Utf8View);
        let mut aliases: Vec<String> = Vec::new();
        aliases.push(String::from_str("length"));
        aliases.push(String::from_str("char_length"));
        CharacterLengthFunc {
            signature: Signature { arg_count: 1, valid_types, volatility: Volatility::Immutable },
            aliases,
        }
    }

    /// The name of the function.
    pub fn name(&self) -> (name: &'static str)
        ensures
            name@ == "character_length"@,
    {
        "character_length"
    }

    /// The arguments that the function takes.
    pub fn signature(&self) -> (signature: &Signature)
        ensures
            *signature == self.signature_spec(),
    {
        &self.signature
    }

    /// The other names of the function.
    pub fn aliases(&self) -> (aliases: &Vec<String>)
        ensures
            aliases@.len() == self.aliases_spec().len(),
            forall|i: int|
                0 <= i < aliases@.len() ==> #[trigger] aliases@[i]@ == self.aliases_spec()[i],
    {
        &self.aliases
    }

    /// The type of the lengths that the function returns for an argument of
    /// the given layout: 64-bit integers for `LargeUtf8`, 32-bit integers
    /// for the other two.
    pub fn return_type(&self, arg_type: StringType) -> (length_type: LengthType)
        ensures
            length_type == length_type_for(arg_type),
    {
        match arg_type {
            StringType::Utf8 => LengthType::Int32,
            StringType::LargeUtf8 => LengthType::Int64,
            StringType::Utf8View => LengthType::Int32,
        }
    }

    /// Applies the function to an array of strings.
    pub fn invoke(&self, data: &ArrayData) -> (lengths_data: Option<ArrayData>)
        ensures
            character_length_of(*data, lengths_data),
    {
        character_length(data)
    }
}

impl Default for CharacterLengthFunc {
    fn default() -> (func: CharacterLengthFunc)
        ensures
            func.signature_spec().arg_count == 1,
            func.signature_spec().valid_types@ == seq![
                StringType::Utf8,
                StringType::LargeUtf8,
                StringType::Utf8View,
            ],
            func.signature_spec().volatility == Volatility::Immutable,
            func.aliases_spec() == seq!["length"@, "char_length"@],
    {
        CharacterLengthFunc::new()
    }
}

} // verus!
