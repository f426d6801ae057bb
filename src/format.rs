use vstd::prelude::*;

use crate::{has_signature, HEADER_LEN, SYSEX_HEADER};

verus! {

/// The file format of a 32-voice bulk dump.
pub struct Format;

impl Format {
    pub fn name() -> (r: &'static str)
        ensures
            r@ == "Yamaha DX7"@,
    {
        "Yamaha DX7"
    }

    pub fn filename_extension() -> (r: &'static str)
        ensures
            r@ == "syx"@,
    {
        "syx"
    }

    /// Whether `header`, the first bytes of a file, starts with the bulk dump
    /// signature.
    pub fn is_format(header: &[u8]) -> (r: bool)
        ensures
            r == has_signature(header@),
    {
        if header.len() < HEADER_LEN {
            return false;
        }
        let mut i: usize = 0;
        while i < HEADER_LEN
            invariant
                header@.len() >= HEADER_LEN,
                i <= HEADER_LEN,
                forall|j: int| 0 <= j < i ==> header@[j] == SYSEX_HEADER@[j],
            decreases HEADER_LEN - i,
        {
            if header[i] != SYSEX_HEADER[i] {
                assert(header@.take(HEADER_LEN as int)[i as int] != SYSEX_HEADER@[i as int]);
                return false;
            }
            i += 1;
        }
        assert(header@.take(HEADER_LEN as int) =~= SYSEX_HEADER@);
        true
    }
}

} // verus!
