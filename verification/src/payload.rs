//! Decoded model and memory payloads (the data of an RTW of kind model or
//! memory) and their accessors. F32 values are kept as their IEEE-754 bit
//! patterns, which is what the C ABI hands out as `const float*`.

use vstd::prelude::*;
use crate::err::{ErrorSlot, RTORCH_API_E_PARSE};
use crate::rtw::payload_slice;

verus! {

/// One named parameter tensor of a model.
pub struct NamedTensor {
    pub name: String,
    pub shape: Vec<u32>,
    pub dtype: u8,
    pub data: Vec<u32>,
}

/// A decoded model: its name, version and named parameters.
pub struct OpaqueModel {
    pub name: String,
    pub version: u32,
    pub params: Vec<NamedTensor>,
}

/// One memory fragment: its id, state vector and strength.
pub struct MemoryFragment {
    pub id: u64,
    pub state: Vec<u32>,
    pub strength: u32,
}

/// A decoded memory: its fragments.
pub struct OpaqueMemory {
    pub fragments: Vec<MemoryFragment>,
}

/// The model's name; none for no handle.
pub fn rtorch_api_model_name(m: Option<&OpaqueModel>) -> (s: Option<&String>)
    ensures
        s == match m {
            Some(m) => Some(&m.name),
            None => None::<&String>,
        },
{
    match m {
        Some(m) => Some(&m.name),
        None => None,
    }
}

/// The model's version; 0 for no handle.
pub fn rtorch_api_model_version(m: Option<&OpaqueModel>) -> (v: u32)
    ensures
        v == match m {
            Some(m) => m.version,
            None => 0,
        },
{
    match m {
        Some(m) => m.version,
        None => 0,
    }
}

/// How many parameters the model has; 0 for no handle.
pub fn rtorch_api_model_num_params(m: Option<&OpaqueModel>) -> (n: usize)
    ensures
        n == match m {
            Some(m) => m.params@.len(),
            None => 0,
        },
{
    match m {
        Some(m) => m.params.len(),
        None => 0,
    }
}

/// The `i`-th parameter, if there is a handle and `i` is in range.
pub open spec fn param_at(m: Option<&OpaqueModel>, i: int) -> Option<NamedTensor> {
    match m {
        Some(m) => if 0 <= i < m.params@.len() { Some(m.params@[i]) } else { None },
        None => None,
    }
}

/// The `i`-th parameter's name; none out of range.
pub fn rtorch_api_model_param_name(m: Option<&OpaqueModel>, i: usize) -> (s: Option<&String>)
    ensures
        s matches Some(s) <==> param_at(m, i as int) is Some,
        s matches Some(s) ==> *s == param_at(m, i as int)->0.name,
{
    match m {
        Some(m) => if i < m.params.len() { Some(&m.params[i].name) } else { None },
        None => None,
    }
}

/// The `i`-th parameter's data. With no handle or no count cell
/// (`numel_present` false) nothing is written and nothing returned; otherwise
/// the element count is written to `out_numel` (0 out of range).
pub fn rtorch_api_model_param_data<'a>(
    m: Option<&'a OpaqueModel>,
    i: usize,
    out_numel: &mut usize,
    numel_present: bool,
) -> (data: Option<&'a [u32]>)
    ensures
        m is None || !numel_present ==> data is None && *final(out_numel) == *old(out_numel),
        m is Some && numel_present ==> match param_at(m, i as int) {
            Some(p) => data matches Some(d) && d@ == p.data@ && *final(out_numel) == p.data@.len(),
            None => data is None && *final(out_numel) == 0,
        },
{
    let m = match m {
        Some(m) => m,
        None => {
            return None;
        },
    };
    if !numel_present {
        return None;
    }
    if i < m.params.len() {
        let p = &m.params[i];
        *out_numel = p.data.len();
        Some(p.data.as_slice())
    } else {
        *out_numel = 0;
        None
    }
}

/// The `i`-th parameter's rank; 0 out of range.
pub fn rtorch_api_model_param_shape_len(m: Option<&OpaqueModel>, i: usize) -> (n: usize)
    ensures
        n == match param_at(m, i as int) {
            Some(p) => p.shape@.len(),
            None => 0,
        },
{
    match m {
        Some(m) => if i < m.params.len() { m.params[i].shape.len() } else { 0 },
        None => 0,
    }
}

/// The `j`-th dimension of the `i`-th parameter; 0 out of range.
pub fn rtorch_api_model_param_shape_dim(m: Option<&OpaqueModel>, i: usize, j: usize) -> (d: usize)
    ensures
        d == match param_at(m, i as int) {
            Some(p) => if j < p.shape@.len() { p.shape@[j as int] as int } else { 0 },
            None => 0,
        },
{
    match m {
        Some(m) => if i < m.params.len() {
            let p = &m.params[i];
            if j < p.shape.len() { p.shape[j] as usize } else { 0 }
        } else {
            0
        },
        None => 0,
    }
}

/// How many fragments the memory has; 0 for no handle.
pub fn rtorch_api_memory_num_frags(m: Option<&OpaqueMemory>) -> (n: usize)
    ensures
        n == match m {
            Some(m) => m.fragments@.len(),
            None => 0,
        },
{
    match m {
        Some(m) => m.fragments.len(),
        None => 0,
    }
}

/// The `i`-th fragment, if there is a handle and `i` is in range.
pub open spec fn fragment_at(m: Option<&OpaqueMemory>, i: int) -> Option<MemoryFragment> {
    match m {
        Some(m) => if 0 <= i < m.fragments@.len() { Some(m.fragments@[i]) } else { None },
        None => None,
    }
}

/// The `i`-th fragment's id; 0 out of range.
pub fn rtorch_api_memory_frag_id(m: Option<&OpaqueMemory>, i: usize) -> (id: u64)
    ensures
        id == match fragment_at(m, i as int) {
            Some(f) => f.id,
            None => 0,
        },
{
    match m {
        Some(m) => if i < m.fragments.len() { m.fragments[i].id } else { 0 },
        None => 0,
    }
}

/// The `i`-th fragment's state vector, with the same conventions as
/// [`rtorch_api_model_param_data`].
pub fn rtorch_api_memory_frag_state<'a>(
    m: Option<&'a OpaqueMemory>,
    i: usize,
    out_numel: &mut usize,
    numel_present: bool,
) -> (state: Option<&'a [u32]>)
    ensures
        m is None || !numel_present ==> state is None && *final(out_numel) == *old(out_numel),
        m is Some && numel_present ==> match fragment_at(m, i as int) {
            Some(f) => state matches Some(s) && s@ == f.state@ && *final(out_numel) == f.state@.len(),
            None => state is None && *final(out_numel) == 0,
        },
{
    let m = match m {
        Some(m) => m,
        None => {
            return None;
        },
    };
    if !numel_present {
        return None;
    }
    if i < m.fragments.len() {
        let f = &m.fragments[i];
        *out_numel = f.state.len();
        Some(f.state.as_slice())
    } else {
        *out_numel = 0;
        None
    }
}

/// The `i`-th fragment's strength (bit pattern); 0 (the bits of 0.0) out of range.
pub fn rtorch_api_memory_frag_strength(m: Option<&OpaqueMemory>, i: usize) -> (bits: u32)
    ensures
        bits == match fragment_at(m, i as int) {
            Some(f) => f.strength,
            None => 0,
        },
{
    match m {
        Some(m) => if i < m.fragments.len() { m.fragments[i].strength } else { 0 },
        None => 0,
    }
}

/// The little-endian `u32` in the first four bytes.
pub open spec fn le_u32(b: Seq<u8>) -> int {
    b[0] + 256 * b[1] + 65536 * b[2] + 16777216 * b[3]
}

/// A payload whose leading entry count claims more entries than its length
/// could hold, at `min_entry` bytes each. A payload too short to hold the
/// count is not rejected here: the decoder reports it.
pub open spec fn count_out_of_range(buf: Seq<u8>, min_entry: int) -> bool {
    buf.len() >= 4 && le_u32(buf) * min_entry > buf.len()
}

/// Refuse a payload whose leading count cannot be right (see
/// [`count_out_of_range`]) before a decoder reserves room for that many
/// entries; the refusal records `E_PARSE`'s message
/// `"rtorch_api: {what} payload count out of range"`.
pub fn reject_oversized_count(buf: &[u8], min_entry: usize, what: &str, slot: &mut ErrorSlot) -> (rejected: bool)
    ensures
        rejected == count_out_of_range(buf@, min_entry as int),
        rejected ==> final(slot)@ == "rtorch_api: "@ + what@ + " payload count out of range"@,
        !rejected ==> final(slot)@ == old(slot)@,
{
    if buf.len() < 4 {
        return false;
    }
    let count: u64 = buf[0] as u64 + 256 * (buf[1] as u64) + 65536 * (buf[2] as u64)
        + 16777216 * (buf[3] as u64);
    assert(count <= 0xffff_ffff);
    let out_of_range = if count > usize::MAX as u64 {
        true
    } else {
        match (count as usize).checked_mul(min_entry) {
            Some(needed) => needed > buf.len(),
            None => true,
        }
    };
    if out_of_range {
        let mut msg = String::from_str("rtorch_api: ");
        msg.append(what);
        msg.append(" payload count out of range");
        crate::err::err(slot, RTORCH_API_E_PARSE, msg.as_str());
        proof {
            if count > usize::MAX as u64 {
                assert(le_u32(buf@) * min_entry >= 0) by (nonlinear_arith)
                    requires le_u32(buf@) >= 0, min_entry >= 0;
                assert(usize::MAX >= buf@.len());
                if min_entry == 0 {
                    assert(false);
                }
                assert(le_u32(buf@) * min_entry >= le_u32(buf@)) by (nonlinear_arith)
                    requires min_entry >= 1, le_u32(buf@) >= 0;
            }
        }
    } else {
        proof {
            if count > usize::MAX as u64 {
                assert(false);
            }
        }
    }
    out_of_range
}

/// The bytes `rtorch_api_memory_decode` hands to the decoder, or none when the
/// input is refused: a null pointer with a non-zero length, or a leading
/// fragment count that the length cannot hold (each fragment takes at least
/// 8 bytes).
pub fn memory_decode_input<'a>(payload: Option<&'a [u8]>, len: usize, slot: &mut ErrorSlot)
    -> (buf: Option<&'a [u8]>)
    requires
        payload matches Some(p) ==> (len == 0 || p@.len() == len),
    ensures
        payload is None && len > 0 ==> buf is None && final(slot)@ == "rtorch_api: null memory payload"@,
        !(payload is None && len > 0) ==> {
            let bytes = if len == 0 { Seq::<u8>::empty() } else { payload->0@ };
            if count_out_of_range(bytes, 8) {
                buf is None && final(slot)@ == "rtorch_api: memory payload count out of range"@
            } else {
                buf matches Some(b) && b@ == bytes && final(slot)@ == old(slot)@
            }
        },
{
    proof {
        reveal_strlit("rtorch_api: null ");
        reveal_strlit("memory payload");
        reveal_strlit("rtorch_api: null memory payload");
        reveal_strlit("rtorch_api: ");
        reveal_strlit("memory");
        reveal_strlit(" payload count out of range");
        reveal_strlit("rtorch_api: memory payload count out of range");
        assert("rtorch_api: null "@ + "memory payload"@ =~= "rtorch_api: null memory payload"@);
        assert("rtorch_api: "@ + "memory"@ + " payload count out of range"@
            =~= "rtorch_api: memory payload count out of range"@);
    }
    let b = match payload_slice(payload, len, "memory payload", slot) {
        Some(b) => b,
        None => {
            return None;
        },
    };
    if reject_oversized_count(b, 8, "memory", slot) {
        None
    } else {
        Some(b)
    }
}

} // verus!
