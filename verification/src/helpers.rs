//! Turning the raw text that the game keeps in memory into strings.
use vstd::prelude::*;
use crate::text::{utf16_decoded, utf16_to_string, utf8_to_string};

verus! {

/// An Unreal `FName`, read from the game as the bytes of a C string (without
/// its terminating zero), as a string: `None` where the bytes are not UTF-8.
pub fn get_fname(name_bytes: &[u8]) -> (r: Option<String>)
    ensures
        r is Some <==> vstd::utf8::valid_utf8(name_bytes@),
        r matches Some(s) ==> s@ == vstd::utf8::decode_utf8(name_bytes@),
{
    utf8_to_string(name_bytes)
}

/// An Unreal `FString`, read from the game as UTF-16 units (without the
/// terminating zero), as a string: `None` where the units are not UTF-16.
pub fn read_fstring(units: &[u16]) -> (r: Option<String>)
    ensures
        match r {
            Some(s) => utf16_decoded(units@) == Some(s@),
            None => utf16_decoded(units@) == None::<Seq<char>>,
        },
{
    utf16_to_string(units)
}

} // verus!
