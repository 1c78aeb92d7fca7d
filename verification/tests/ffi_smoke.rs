//! The smoke scenarios of the C ABI, driven through the library functions the
//! entry points delegate to.

use rtorch_for_models_api::err::{last_error, ErrorSlot, RTORCH_API_E_PARAM, RTORCH_API_OK};
use rtorch_for_models_api::payload::{
    rtorch_api_memory_frag_id, rtorch_api_memory_frag_state, rtorch_api_memory_frag_strength,
    rtorch_api_memory_num_frags, rtorch_api_model_name, rtorch_api_model_num_params,
    rtorch_api_model_param_data, rtorch_api_model_param_name, rtorch_api_model_param_shape_dim,
    rtorch_api_model_param_shape_len, rtorch_api_model_version, MemoryFragment, NamedTensor,
    OpaqueMemory, OpaqueModel,
};
use rtorch_for_models_api::rtw::{
    rtorch_api_rtw_bytes, rtorch_api_rtw_has_manifest, rtorch_api_rtw_kind,
    rtorch_api_rtw_manifest_artifact_id, rtorch_api_rtw_manifest_format_version,
    rtorch_api_rtw_manifest_location, rtorch_api_rtw_manifest_requires_count,
    rtorch_api_rtw_manifest_requires_dim, Manifest, OpaqueRtw,
};
use rtorch_for_models_api::rule::{
    effective_userdata, register, rtorch_api_register_rule, rtorch_api_rule_exists, rtorch_api_run_rule, RuleRegistry,
};
use rtorch_for_models_api::session::session_execute_check;
use rtorch_for_models_api::tensor::{
    rtorch_api_tensor_dim, rtorch_api_tensor_dtype, rtorch_api_tensor_new, rtorch_api_tensor_numel,
    rtorch_api_tensor_rank,
};

/// A rule as the tests register it: it writes into an output buffer and its
/// length, and gets the run-time userdata (if any).
type Rule = Box<dyn Fn(&mut [u8], &mut usize, Option<i32>) -> i32>;

/// Run `name` the way `rtorch_api_run_rule` does: check, find, invoke.
fn run_rule(reg: &RuleRegistry<Rule>, name: &str, out: &mut [u8], out_len: &mut usize, slot: &mut ErrorSlot) -> i32 {
    match rtorch_api_run_rule(reg, Some(name), true, false, 0, slot) {
        Ok(rule) => rule(out, out_len, None),
        Err(rc) => rc,
    }
}

/// A C-style rule: it reads its userdata (the run-time one, else the one bound
/// at registration) and writes it as an f32.
fn c_rule(bound_userdata: i32) -> Rule {
    Box::new(move |out: &mut [u8], out_len: &mut usize, ud: Option<i32>| {
        let ud = effective_userdata(ud, bound_userdata);
        let val = (ud as f32).to_le_bytes();
        out[..4].copy_from_slice(&val);
        *out_len = 4;
        0
    })
}

#[test]
fn tensor_roundtrip() {
    let mut slot = ErrorSlot::new();
    let dims = [2usize, 3usize];
    let t = rtorch_api_tensor_new(Some(&dims), 2, 0, &mut slot);
    assert!(t.is_some(), "tensor_new returned null");
    let t = t.unwrap();
    assert_eq!(rtorch_api_tensor_numel(Some(&t)), 6);
    assert_eq!(rtorch_api_tensor_rank(Some(&t)), 2);
    assert_eq!(rtorch_api_tensor_dim(Some(&t), 0), 2);
    assert_eq!(rtorch_api_tensor_dim(Some(&t), 1), 3);
    assert_eq!(rtorch_api_tensor_dtype(Some(&t)), 0);
    let data = t.data();
    assert!(!data.as_ptr().is_null());
    assert_eq!(data.len(), 6);
}

#[test]
fn tensor_dtype_contract() {
    let mut slot = ErrorSlot::new();
    let dims = [2usize, 3usize];
    assert!(rtorch_api_tensor_new(Some(&dims), 2, 1, &mut slot).is_none(), "F64 should be rejected");
    assert!(last_error(&slot).contains("F32"), "error should mention F32");
    assert!(rtorch_api_tensor_new(Some(&dims), 2, 2, &mut slot).is_none(), "I32 should be rejected");
    assert!(rtorch_api_tensor_new(None, 2, 0, &mut slot).is_none(), "null dims should be rejected");
}

#[test]
fn session_execute_null_guard() {
    let mut slot = ErrorSlot::new();
    let rc = session_execute_check(false, false, false, 0, &[], &mut slot);
    assert_eq!(rc, 1, "null session should be E_PARAM, got {rc}");
}

#[test]
fn rule_not_found() {
    let mut slot = ErrorSlot::new();
    let reg: RuleRegistry<Rule> = RuleRegistry::new();
    let mut out_bytes = [0u8; 16];
    let mut out_len = 16usize;
    let rc = run_rule(&reg, "no_such_rule", &mut out_bytes, &mut out_len, &mut slot);
    assert_eq!(rc, 1, "missing rule should be E_PARAM, got {rc}");
}

#[test]
fn rule_register_c_abi() {
    let mut slot = ErrorSlot::new();
    let mut reg: RuleRegistry<Rule> = RuleRegistry::new();
    let name = "m2_c_rule";
    let rc = rtorch_api_register_rule(&mut reg, Some(name), c_rule(7), &mut slot);
    assert_eq!(rc, 0, "register_c rc={rc} ({})", last_error(&slot));
    assert_eq!(rtorch_api_rule_exists(&reg, Some(name)), 1);

    let mut out_bytes = [0u8; 16];
    let mut out_len = 16usize;
    let rc2 = run_rule(&reg, name, &mut out_bytes, &mut out_len, &mut slot);
    assert_eq!(rc2, 0, "run_c rc={rc2}");
    let val = f32::from_le_bytes([out_bytes[0], out_bytes[1], out_bytes[2], out_bytes[3]]);
    assert_eq!(val, 7.0, "rule_c output = {val} (expected 7.0 from userdata)");
    assert_eq!(out_len, 4);
}

#[test]
fn rule_c_error_propagates() {
    let mut slot = ErrorSlot::new();
    let mut reg: RuleRegistry<Rule> = RuleRegistry::new();
    let name = "m2_c_err";
    let rc = rtorch_api_register_rule(&mut reg, Some(name), Box::new(|_: &mut [u8], _: &mut usize, _: Option<i32>| 7), &mut slot);
    assert_eq!(rc, 0, "register rc={rc}");
    let mut out_bytes = [0u8; 16];
    let mut out_len = 16usize;
    let rc2 = run_rule(&reg, name, &mut out_bytes, &mut out_len, &mut slot);
    assert_eq!(rc2, 7, "callback error rc must propagate, got {rc2}");
}

#[test]
fn run_rule_null_blobs_with_count_rejected() {
    let mut slot = ErrorSlot::new();
    let reg: RuleRegistry<Rule> = RuleRegistry::new();
    let rc = match rtorch_api_run_rule(&reg, Some("any"), true, false, 100, &mut slot) {
        Ok(_) => 0,
        Err(rc) => rc,
    };
    assert_eq!(rc, 1, "null in_blobs with n_in>0 must be E_PARAM, got {rc}");
}

#[test]
fn rule_register_and_run() {
    let mut slot = ErrorSlot::new();
    let mut reg: RuleRegistry<Rule> = RuleRegistry::new();
    let name = "m1_rule";
    let f: Rule = Box::new(|out: &mut [u8], out_len: &mut usize, _ud: Option<i32>| {
        out[..4].copy_from_slice(&42.0f32.to_le_bytes());
        *out_len = 4;
        RTORCH_API_OK
    });
    let rc = register(&mut reg, name, f, &mut slot);
    assert_eq!(rc, 0, "register rc={rc}");
    assert!(rtorch_api_rule_exists(&reg, Some(name)) == 1);

    let mut out_bytes = [0u8; 16];
    let mut out_len = 16usize;
    let rc2 = run_rule(&reg, name, &mut out_bytes, &mut out_len, &mut slot);
    assert_eq!(rc2, 0, "run rule rc={rc2}");
    let val = f32::from_le_bytes([out_bytes[0], out_bytes[1], out_bytes[2], out_bytes[3]]);
    assert!((val - 42.0).abs() < 1e-6, "rule output = {val}");
}

fn bits(v: &[f32]) -> Vec<u32> {
    v.iter().map(|x| x.to_bits()).collect()
}

fn floats(v: &[u32]) -> Vec<f32> {
    v.iter().map(|x| f32::from_bits(*x)).collect()
}

#[test]
fn model_accessors() {
    let model = OpaqueModel {
        name: "toy_nn".to_string(),
        version: 7,
        params: vec![
            NamedTensor { name: "w".to_string(), shape: vec![2, 3], dtype: 0, data: bits(&[1.0, 2.0, 3.0, 4.0, 5.0, 6.0]) },
            NamedTensor { name: "b".to_string(), shape: vec![3], dtype: 0, data: bits(&[0.5, -0.5, 2.0]) },
        ],
    };
    let m = Some(&model);

    assert!(rtorch_api_model_name(m).is_some(), "name null");
    assert_eq!(rtorch_api_model_name(m).unwrap(), "toy_nn");
    assert_eq!(rtorch_api_model_version(m), 7);
    assert_eq!(rtorch_api_model_num_params(m), 2);

    assert_eq!(rtorch_api_model_param_name(m, 0).unwrap(), "w");
    assert_eq!(rtorch_api_model_param_shape_len(m, 0), 2);
    assert_eq!(rtorch_api_model_param_shape_dim(m, 0, 0), 2);
    assert_eq!(rtorch_api_model_param_shape_dim(m, 0, 1), 3);
    let mut numel = 0usize;
    let data = rtorch_api_model_param_data(m, 0, &mut numel, true).unwrap();
    assert_eq!(numel, 6);
    assert_eq!(floats(data), vec![1.0, 2.0, 3.0, 4.0, 5.0, 6.0]);

    assert_eq!(rtorch_api_model_param_name(m, 1).unwrap(), "b");
    assert_eq!(rtorch_api_model_param_shape_dim(m, 1, 0), 3);

    assert!(rtorch_api_model_param_data(m, 9, &mut numel, true).is_none());
}

#[test]
fn memory_accessors() {
    let memory = OpaqueMemory {
        fragments: vec![
            MemoryFragment { id: 11, state: bits(&[0.1, 0.2, 0.3]), strength: 0.9f32.to_bits() },
            MemoryFragment { id: 22, state: bits(&[0.4, 0.5]), strength: 0.4f32.to_bits() },
        ],
    };
    let m = Some(&memory);

    assert_eq!(rtorch_api_memory_num_frags(m), 2);
    assert_eq!(rtorch_api_memory_frag_id(m, 0), 11);
    assert_eq!(rtorch_api_memory_frag_id(m, 1), 22);
    assert_eq!(f32::from_bits(rtorch_api_memory_frag_strength(m, 0)), 0.9);
    assert_eq!(f32::from_bits(rtorch_api_memory_frag_strength(m, 1)), 0.4);

    let mut numel = 0usize;
    let st = rtorch_api_memory_frag_state(m, 0, &mut numel, true).unwrap();
    assert_eq!(numel, 3);
    assert_eq!(floats(st), vec![0.1, 0.2, 0.3]);

    assert!(rtorch_api_memory_frag_id(m, 99) == 0);
    assert!(rtorch_api_memory_frag_state(m, 99, &mut numel, true).is_none());
}

/// A container kind used by the container tests.
const KIND: u8 = 1;
/// The format version the manifest test carries.
const FORMAT_VERSION: &str = "1";

fn f32_bytes(v: &[f32]) -> Vec<u8> {
    v.iter().flat_map(|x| x.to_le_bytes()).collect()
}

#[test]
fn rtw_container_roundtrip() {
    let mut slot = ErrorSlot::new();
    let data = f32_bytes(&[1.0, 2.0, 3.0, 4.0, 5.0, 6.0]);
    let r = OpaqueRtw::new(KIND, data.clone(), None);
    assert_eq!(rtorch_api_rtw_kind(Some(&r)), KIND as i32);

    let mut out_len = 0usize;
    let mut buf = vec![0u8; data.len()];
    let cap = buf.len();
    let rc = rtorch_api_rtw_bytes(Some(&r), &mut buf, true, cap, &mut out_len, true, &mut slot);
    assert_eq!(rc, 0, "rtw_bytes rc={rc} ({})", last_error(&slot));
    assert_eq!(out_len, data.len());
    assert_eq!(&buf[..], &data[..]);

    let mut small = vec![0u8; 2];
    let mut small_len = 0usize;
    let rc2 = rtorch_api_rtw_bytes(Some(&r), &mut small, true, 2, &mut small_len, true, &mut slot);
    assert_eq!(rc2, 1, "expected E_PARAM for small buffer (got {rc2})");
    assert_eq!(small_len, data.len(), "should report required size");
}

#[test]
fn rtw_manifest_accessors() {
    let data = f32_bytes(&[1.0, 2.0]);
    let manifest = Manifest {
        artifact_id: "com.example.model".to_string(),
        location: "/models/my.rtw".to_string(),
        format_version: FORMAT_VERSION.to_string(),
        requires: vec!["compute.session".to_string(), "memory.fragment".to_string()],
    };
    let r = OpaqueRtw::new(KIND, data, Some(manifest));
    let r = Some(&r);

    assert_eq!(rtorch_api_rtw_has_manifest(r), 1);
    assert_eq!(rtorch_api_rtw_manifest_artifact_id(r).unwrap(), "com.example.model");
    assert_eq!(rtorch_api_rtw_manifest_location(r).unwrap(), "/models/my.rtw");
    assert_eq!(rtorch_api_rtw_manifest_format_version(r).unwrap(), FORMAT_VERSION);
    assert_eq!(rtorch_api_rtw_manifest_requires_count(r), 2);
    assert_eq!(rtorch_api_rtw_manifest_requires_dim(r, 0).unwrap(), "compute.session");
    assert_eq!(rtorch_api_rtw_manifest_requires_dim(r, 1).unwrap(), "memory.fragment");
    assert!(rtorch_api_rtw_manifest_requires_dim(r, 99).is_none());
}

#[test]
fn rtw_manifest_boundaries() {
    let r = OpaqueRtw::new(KIND, vec![0u8; 4], None);
    let r = Some(&r);
    assert_eq!(rtorch_api_rtw_has_manifest(r), 0);
    assert!(rtorch_api_rtw_manifest_artifact_id(r).is_none());
    assert!(rtorch_api_rtw_manifest_location(r).is_none());
    assert!(rtorch_api_rtw_manifest_format_version(r).is_none());
    assert_eq!(rtorch_api_rtw_manifest_requires_count(r), 0);
    assert!(rtorch_api_rtw_manifest_requires_dim(r, 0).is_none());

    assert_eq!(rtorch_api_rtw_has_manifest(None), 0);
    assert!(rtorch_api_rtw_manifest_artifact_id(None).is_none());
    assert!(rtorch_api_rtw_manifest_requires_dim(None, 0).is_none());
    let _ = RTORCH_API_E_PARAM;
}
