//! Asset identities: where a resource comes from, and a quick content
//! fingerprint.

use vstd::prelude::*;

verus! {

/// Where an asset's bytes come from.
#[derive(Debug, PartialEq, Eq, Hash, Clone)]
pub enum Resource {
    /// This resource is at a given URI.
    Uri(String),
    /// This resource is at a given path in the file system.
    Path(String),
    /// This resource is embedded in the application binary.
    Embedded(String),
}

/// One step of the fingerprint fold: rotate, fold the byte in, multiply.
pub open spec fn fx_mix(h: u64, b: u8) -> u64 {
    (((h << 5) | (h >> 59)) ^ (b as u64)).wrapping_mul(0x517cc1b727220a95)
}

/// The fingerprint of a byte sequence: the mix folded over the bytes,
/// starting from zero.
pub open spec fn fx_hash(data: Seq<u8>) -> u64
    decreases data.len(),
{
    if data.len() == 0 {
        0
    } else {
        fx_mix(fx_hash(data.drop_last()), data.last())
    }
}

/// A quick, non-cryptographically-secure hash to get an identifier from
/// data: a rotate-xor-multiply fold over the bytes.
pub fn hash(data: &Vec<u8>) -> (r: u64)
    ensures
        r == fx_hash(data@),
{
    let mut state: u64 = 0;
    let mut i: usize = 0;
    while i < data.len()
        invariant
            i <= data@.len(),
            state == fx_hash(data@.subrange(0, i as int)),
        decreases data@.len() - i,
    {
        let b = data[i];
        state = ((state << 5) | (state >> 59)) ^ (b as u64);
        state = state.wrapping_mul(0x517cc1b727220a95);
        proof {
            assert(data@.subrange(0, i + 1int).drop_last() =~= data@.subrange(0, i as int));
            assert(data@.subrange(0, i + 1int).last() == data@[i as int]);
        }
        i = i + 1;
    }
    proof {
        assert(data@.subrange(0, data@.len() as int) =~= data@);
    }
    state
}

} // verus!
