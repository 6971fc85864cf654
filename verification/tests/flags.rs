use winmd::flags::{MethodAttributes, TypeAttributes};

#[test]
fn type_flags_are_single_bits() {
    assert!(TypeAttributes(0x20).interface());
    assert!(!TypeAttributes(0x20).windows_runtime());
    assert!(TypeAttributes(0x4000).windows_runtime());
    assert!(!TypeAttributes(0x4000).interface());
    assert!(!TypeAttributes(0).interface());
    assert!(TypeAttributes(0xFFFF_FFFF).interface());
}

#[test]
fn method_flags_are_single_bits() {
    assert!(MethodAttributes(0x800).special());
    assert!(!MethodAttributes(0x7FF).special());
    assert!(MethodAttributes(0xFFFF_FFFF).special());
}
