//! The RTW container handle (kind, payload bytes and optional self-describing
//! manifest), its accessors, and the checks that guard every payload decode.

use vstd::prelude::*;
use crate::buffer::{copy_front, overwrite_front};
use crate::err::{err, ErrorSlot, RTORCH_API_E_PARAM, RTORCH_API_E_PARSE, RTORCH_API_OK};

verus! {

/// The self-describing manifest an RTW may carry: which library produced it,
/// where it lives, the RTW format version, and the capabilities it requires.
pub struct Manifest {
    pub artifact_id: String,
    pub location: String,
    pub format_version: String,
    pub requires: Vec<String>,
}

/// A decoded RTW container.
pub struct OpaqueRtw {
    kind: u8,
    bytes: Vec<u8>,
    manifest: Option<Manifest>,
}

impl OpaqueRtw {
    /// The container kind.
    pub closed spec fn spec_kind(&self) -> u8 {
        self.kind
    }

    /// The payload bytes.
    pub closed spec fn spec_bytes(&self) -> Seq<u8> {
        self.bytes@
    }

    /// The manifest, if the container has one.
    pub closed spec fn spec_manifest(&self) -> Option<Manifest> {
        self.manifest
    }

    /// A handle over a decoded container.
    pub fn new(kind: u8, bytes: Vec<u8>, manifest: Option<Manifest>) -> (r: Self)
        ensures
            r.spec_kind() == kind,
            r.spec_bytes() == bytes@,
            r.spec_manifest() == manifest,
    {
        OpaqueRtw { kind, bytes, manifest }
    }
}

/// The container kind; -1 for no handle.
pub fn rtorch_api_rtw_kind(r: Option<&OpaqueRtw>) -> (k: i32)
    ensures
        k == match r {
            Some(r) => r.spec_kind() as int,
            None => -1,
        },
{
    match r {
        Some(r) => r.kind as i32,
        None => -1,
    }
}

/// Copy the payload into the caller's buffer.
///
/// `out_buf` is the caller's buffer of capacity `out_cap` when `buf_present`
/// (a non-null pointer), and `out_len` the caller's length cell when
/// `len_present`. The required size is always reported through `out_len`
/// once the handle and the cell are there; a buffer that is too small gets
/// `E_PARAM` and is left untouched, so the caller can grow it and retry.
pub fn rtorch_api_rtw_bytes(
    r: Option<&OpaqueRtw>,
    out_buf: &mut [u8],
    buf_present: bool,
    out_cap: usize,
    out_len: &mut usize,
    len_present: bool,
    slot: &mut ErrorSlot,
) -> (rc: i32)
    requires
        buf_present ==> old(out_buf)@.len() == out_cap,
    ensures
        r is None ==> {
            &&& rc == RTORCH_API_E_PARAM
            &&& final(slot)@ == "rtorch_api: null rtw"@
            &&& final(out_buf)@ == old(out_buf)@
            &&& *final(out_len) == *old(out_len)
        },
        r is Some && !len_present ==> {
            &&& rc == RTORCH_API_E_PARAM
            &&& final(slot)@ == "rtorch_api: null out_len"@
            &&& final(out_buf)@ == old(out_buf)@
            &&& *final(out_len) == *old(out_len)
        },
        r matches Some(r) ==> len_present ==> {
            &&& *final(out_len) == r.spec_bytes().len()
            &&& if r.spec_bytes().len() > out_cap {
                &&& rc == RTORCH_API_E_PARAM
                &&& final(slot)@ == "rtorch_api: rtw bytes buffer too small"@
                &&& final(out_buf)@ == old(out_buf)@
            } else {
                &&& rc == RTORCH_API_OK
                &&& final(slot)@ == old(slot)@
                &&& final(out_buf)@ == if buf_present {
                    overwrite_front(old(out_buf)@, r.spec_bytes())
                } else {
                    old(out_buf)@
                }
            }
        },
{
    let r = match r {
        Some(r) => r,
        None => {
            return err(slot, RTORCH_API_E_PARAM, "rtorch_api: null rtw");
        },
    };
    if !len_present {
        return err(slot, RTORCH_API_E_PARAM, "rtorch_api: null out_len");
    }
    let n = r.bytes.len();
    *out_len = n;
    if n > out_cap {
        return err(slot, RTORCH_API_E_PARAM, "rtorch_api: rtw bytes buffer too small");
    }
    if buf_present && n > 0 {
        copy_front(out_buf, r.bytes.as_slice());
    } else {
        proof {
            if buf_present {
                assert(overwrite_front(old(out_buf)@, r.spec_bytes()) =~= old(out_buf)@);
            }
        }
    }
    RTORCH_API_OK
}

/// Whether the container carries a manifest (1) or not (0); 0 for no handle.
pub fn rtorch_api_rtw_has_manifest(r: Option<&OpaqueRtw>) -> (b: i32)
    ensures
        b == (if r matches Some(r) && r.spec_manifest() is Some { 1int } else { 0int }),
{
    match r {
        Some(r) => if r.manifest.is_some() { 1 } else { 0 },
        None => 0,
    }
}

/// The manifest of the container, if there is a handle and it has one.
pub open spec fn manifest_of(r: Option<&OpaqueRtw>) -> Option<Manifest> {
    match r {
        Some(r) => r.spec_manifest(),
        None => None,
    }
}

/// The manifest's artifact id (which library produced the container).
pub fn rtorch_api_rtw_manifest_artifact_id(r: Option<&OpaqueRtw>) -> (s: Option<&String>)
    ensures
        s == match manifest_of(r) {
            Some(m) => Some(&m.artifact_id),
            None => None::<&String>,
        },
{
    match r {
        Some(r) => match &r.manifest {
            Some(m) => Some(&m.artifact_id),
            None => None,
        },
        None => None,
    }
}

/// The manifest's location (where the container lives).
pub fn rtorch_api_rtw_manifest_location(r: Option<&OpaqueRtw>) -> (s: Option<&String>)
    ensures
        s == match manifest_of(r) {
            Some(m) => Some(&m.location),
            None => None::<&String>,
        },
{
    match r {
        Some(r) => match &r.manifest {
            Some(m) => Some(&m.location),
            None => None,
        },
        None => None,
    }
}

/// The manifest's RTW format version.
pub fn rtorch_api_rtw_manifest_format_version(r: Option<&OpaqueRtw>) -> (s: Option<&String>)
    ensures
        s == match manifest_of(r) {
            Some(m) => Some(&m.format_version),
            None => None::<&String>,
        },
{
    match r {
        Some(r) => match &r.manifest {
            Some(m) => Some(&m.format_version),
            None => None,
        },
        None => None,
    }
}

/// How many capabilities the manifest requires; 0 without a manifest.
pub fn rtorch_api_rtw_manifest_requires_count(r: Option<&OpaqueRtw>) -> (n: usize)
    ensures
        n == match manifest_of(r) {
            Some(m) => m.requires@.len(),
            None => 0,
        },
{
    match r {
        Some(r) => match &r.manifest {
            Some(m) => m.requires.len(),
            None => 0,
        },
        None => 0,
    }
}

/// The `i`-th required capability; none without a manifest or out of range.
pub fn rtorch_api_rtw_manifest_requires_dim(r: Option<&OpaqueRtw>, i: usize) -> (s: Option<&String>)
    ensures
        s == match manifest_of(r) {
            Some(m) => if i < m.requires@.len() { Some(&m.requires@[i as int]) } else { None::<&String> },
            None => None::<&String>,
        },
{
    match r {
        Some(r) => match &r.manifest {
            Some(m) => if i < m.requires.len() { Some(&m.requires[i]) } else { None },
            None => None,
        },
        None => None,
    }
}

/// The bytes a decode entry point works on: the caller's `len` bytes, or none
/// when `len` is 0. `payload` is `None` for a null pointer, which is refused
/// unless `len` is 0; the message then names `what` ("rtw bytes", "model
/// payload", "memory payload").
pub fn payload_slice<'a>(payload: Option<&'a [u8]>, len: usize, what: &str, slot: &mut ErrorSlot)
    -> (buf: Option<&'a [u8]>)
    requires
        payload matches Some(p) ==> (len == 0 || p@.len() == len),
    ensures
        payload is None && len > 0 ==> buf is None && final(slot)@ == "rtorch_api: null "@ + what@,
        !(payload is None && len > 0) ==> {
            &&& buf matches Some(b) && b@ == (if len == 0 { Seq::<u8>::empty() } else { payload->0@ })
            &&& final(slot)@ == old(slot)@
        },
{
    if len == 0 {
        let empty: &[u8] = &[];
        return Some(empty);
    }
    match payload {
        Some(p) => Some(p),
        None => {
            let mut msg = String::from_str("rtorch_api: null ");
            msg.append(what);
            crate::err::set_last_error(slot, msg.as_str());
            None
        },
    }
}

/// Map a decoder's answer to a handle: a decoded value passes through; a
/// failure becomes `E_PARSE` with the message
/// `"rtorch_api: {what} decode failed: {reason}"` and no handle.
pub fn decode_outcome<T>(decoded: Result<T, String>, what: &str, slot: &mut ErrorSlot)
    -> (handle: Option<T>)
    ensures
        decoded matches Ok(v) ==> handle == Some(v) && final(slot)@ == old(slot)@,
        decoded matches Err(e) ==> handle is None && final(slot)@ == "rtorch_api: "@ + what@
            + " decode failed: "@ + e@,
{
    match decoded {
        Ok(v) => Some(v),
        Err(e) => {
            let mut msg = String::from_str("rtorch_api: ");
            msg.append(what);
            msg.append(" decode failed: ");
            msg.append(e.as_str());
            err(slot, RTORCH_API_E_PARSE, msg.as_str());
            None
        },
    }
}

} // verus!
