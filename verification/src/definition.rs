//! A projection's definition on its way to the engine: text on the caller's
//! side, a C string on the engine's.

use crate::error::ConstructionError;
use vstd::prelude::*;
use vstd::utf8::encode_utf8;

verus! {

/// Whether the text holds a NUL, which would end a C string before its end.
pub open spec fn has_nul(text: Seq<char>) -> bool {
    encode_utf8(text).contains(0u8)
}

/// The text as a C string: its bytes in UTF-8, unchanged, then one NUL.
pub open spec fn c_string(text: Seq<char>) -> Seq<u8> {
    encode_utf8(text).push(0u8)
}

/// Whether the bytes are a C string and nothing more: they end in a NUL and
/// hold no other.
pub open spec fn is_c_string(bytes: Seq<u8>) -> bool {
    &&& bytes.len() > 0
    &&& bytes.last() == 0u8
    &&& !bytes.drop_last().contains(0u8)
}

/// `pj_init_plus`: hands back the address of a new projection, or null.
#[derive(Debug, PartialEq, Eq)]
pub struct InitPlus {
    definition: Vec<u8>,
}

impl View for InitPlus {
    type V = Seq<u8>;

    /// The bytes that the engine is handed.
    closed spec fn view(&self) -> Seq<u8> {
        self.definition@
    }
}

impl InitPlus {
    #[verifier::type_invariant]
    spec fn well_formed(self) -> bool {
        is_c_string(self.definition@)
    }

    /// The definition as the engine is handed it: always a C string.
    pub fn definition(&self) -> (bytes: &Vec<u8>)
        ensures
            bytes@ == self@,
            is_c_string(bytes@),
    {
        proof {
            use_type_invariant(self);
        }
        &self.definition
    }
}

/// Plans the making of a projection from its definition. The definition is
/// not looked into: it goes to the engine as it is, as a C string.
pub fn init_plus(definition: &str) -> (call: Result<InitPlus, ConstructionError>)
    ensures
        has_nul(definition@) ==> call matches Err(ConstructionError::InteriorNul),
        !has_nul(definition@) ==> (call matches Ok(planned) && planned@ == c_string(definition@)),
{
    let bytes = definition.as_bytes();
    let mut c_str: Vec<u8> = Vec::new();
    let mut i: usize = 0;
    while i < bytes.len()
        invariant
            bytes@ == encode_utf8(definition@),
            i <= bytes@.len(),
            c_str@ == bytes@.subrange(0, i as int),
            forall|j: int| 0 <= j < i ==> bytes@[j] != 0u8,
        decreases bytes@.len() - i,
    {
        let byte = bytes[i];
        if byte == 0 {
            return Err(ConstructionError::InteriorNul);
        }
        c_str.push(byte);
        i += 1;
    }
    assert(c_str@ == bytes@);
    c_str.push(0);
    assert(c_str@.drop_last() == bytes@);
    Ok(InitPlus { definition: c_str })
}

} // verus!
