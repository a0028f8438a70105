use compute_shader::encoding::{scalar_u32_bytes, vector_u32x4_bytes};
use compute_shader::error::Error;
use compute_shader::metal::{
    compile_outcome, kernel_entry_decision, resource_options, MTLCPUCacheMode, MTLFunctionType,
    MTLLanguageVersion, MTLStorageMode,
};

#[test]
fn scalar_bytes_are_native_order() {
    assert_eq!(scalar_u32_bytes(42).as_slice(), &42u32.to_ne_bytes());
    assert_eq!(
        scalar_u32_bytes(0x01020304).as_slice(),
        &0x01020304u32.to_ne_bytes()
    );
}

#[test]
fn vector_bytes_are_native_order_lanes() {
    let bytes = vector_u32x4_bytes(1, 2, 0xdeadbeef, u32::MAX);
    let mut expected = Vec::new();
    for v in [1u32, 2, 0xdeadbeef, u32::MAX] {
        expected.extend_from_slice(&v.to_ne_bytes());
    }
    assert_eq!(bytes, expected);
}

#[test]
fn function_type_codes() {
    assert_eq!(MTLFunctionType::Vertex.code(), 1);
    assert_eq!(MTLFunctionType::Fragment.code(), 2);
    assert_eq!(MTLFunctionType::Kernel.code(), 3);
}

#[test]
fn language_version_codes() {
    assert_eq!(MTLLanguageVersion::V1_0.code(), 1 << 16);
    assert_eq!(MTLLanguageVersion::V1_1.code(), (1 << 16) + 1);
    assert_eq!(MTLLanguageVersion::V1_2.code(), (1 << 16) + 2);
}

#[test]
fn resource_option_words() {
    assert_eq!(
        resource_options(MTLCPUCacheMode::DefaultCache, MTLStorageMode::Shared),
        0
    );
    assert_eq!(
        resource_options(MTLCPUCacheMode::WriteCombined, MTLStorageMode::Private),
        1 | (2 << 4)
    );
    assert_eq!(
        resource_options(MTLCPUCacheMode::DefaultCache, MTLStorageMode::Memoryless),
        3 << 4
    );
}

#[test]
fn entry_point_policy_is_exactly_one_kernel() {
    assert!(kernel_entry_decision(1, MTLFunctionType::Kernel).is_ok());
    assert_eq!(
        kernel_entry_decision(0, MTLFunctionType::Kernel).unwrap_err(),
        Error::Failed
    );
    assert_eq!(
        kernel_entry_decision(2, MTLFunctionType::Kernel).unwrap_err(),
        Error::Failed
    );
    assert_eq!(
        kernel_entry_decision(1, MTLFunctionType::Vertex).unwrap_err(),
        Error::Failed
    );
}

#[test]
fn compile_outcomes_follow_the_diagnostic_rule() {
    assert!(compile_outcome(true, None).is_ok());
    assert_eq!(compile_outcome(false, None).unwrap_err(), Error::Failed);
    assert_eq!(
        compile_outcome(false, Some(String::from("type error"))).unwrap_err(),
        Error::CompileFailed(String::from("type error"))
    );
}
