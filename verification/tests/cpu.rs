use minikernel::cpu::{
    brand_bytes, cpuid_version_fields, feature_bit, prefix_before_nul, vendor_bytes,
};

#[test]
fn version_fields_decode() {
    // family 6, extended model 3, base model 10, stepping 5
    let eax: u32 = (3 << 16) | (6 << 8) | (10 << 4) | 5;
    let (family, model, stepping) = cpuid_version_fields(eax);
    assert_eq!(family, 6);
    assert_eq!(model, 0x3A);
    assert_eq!(stepping, 5);
}

#[test]
fn extended_family_adds_to_base() {
    // base family 0xF plus extended family 1
    let eax: u32 = (1 << 20) | (0xF << 8);
    let (family, _, _) = cpuid_version_fields(eax);
    assert_eq!(family, 0x10);
}

#[test]
fn feature_bits_decode() {
    assert!(feature_bit(1 << 25, 25));
    assert!(!feature_bit(1 << 25, 26));
    assert!(feature_bit(u32::MAX, 0));
}

#[test]
fn brand_string_assembles_and_trims_at_the_first_nul() {
    let text = b"Some Processor @ 2.00GHz";
    let mut padded = text.to_vec();
    padded.resize(48, 0);
    let mut regs = Vec::new();
    for chunk in padded.chunks(4) {
        regs.push(u32::from_le_bytes([chunk[0], chunk[1], chunk[2], chunk[3]]));
    }
    let bytes = brand_bytes(&regs);
    assert_eq!(bytes.len(), 48);
    assert_eq!(prefix_before_nul(&bytes), text.to_vec());
}

#[test]
fn prefix_without_nul_is_everything() {
    assert_eq!(prefix_before_nul(b"abc"), b"abc".to_vec());
    assert_eq!(prefix_before_nul(b""), Vec::<u8>::new());
    assert_eq!(prefix_before_nul(b"a\0b"), b"a".to_vec());
}

#[test]
fn vendor_string_assembles_in_register_order() {
    // "GenuineIntel": ebx = "Genu", edx = "ineI", ecx = "ntel"
    let ebx = u32::from_le_bytes(*b"Genu");
    let edx = u32::from_le_bytes(*b"ineI");
    let ecx = u32::from_le_bytes(*b"ntel");
    assert_eq!(vendor_bytes(ebx, edx, ecx), b"GenuineIntel".to_vec());
}
