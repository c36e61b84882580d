use anti_window_snap::payload::{
    build_x64_code, build_x86_code, build_x86_get_func_code, display_affinity,
    AFFINITY_EXCLUDE_FROM_CAPTURE, AFFINITY_NONE, CODE_GET_FUNC_ADDRESS_X86,
    CODE_GET_FUNC_ADDRESS_X86_DATA_GMH, CODE_GET_FUNC_ADDRESS_X86_DATA_SWDF,
    CODE_GET_FUNC_ADDRESS_X86_DATA_USER32, CODE_X64, CODE_X86,
};

const X64_HEX: &str = "48 89 4C 24 08 48 89 54 24 10 4C 89 44 24 18 4C 89 4C 24 20 48 83 EC 38 48 B9 ED FE AD DE ED FE 00 00 48 C7 C2 AD DE 00 00 48 B8 AD DE ED FE AD DE 00 00 FF D0 48 83 C4 38 48 8B 4C 24 08 48 8B 54 24 10 4C 8B 44 24 18 4C 8B 4C 24 20 C3";

#[test]
fn display_affinity_values() {
    assert_eq!(display_affinity(true), 0x11);
    assert_eq!(display_affinity(false), 0);
    assert_eq!(AFFINITY_EXCLUDE_FROM_CAPTURE, 0x11);
    assert_eq!(AFFINITY_NONE, 0);
}

#[test]
fn x86_trampoline_exact_bytes() {
    let func: usize = 0x7530_1234;
    let base: usize = 0x0040_0000;
    let code = build_x86_code(func, 0x11, base);
    let rel = ((func - base - 11) as u32).to_le_bytes();
    assert_eq!(code, [0x58, 0x59, 0x6A, 0x11, 0x51, 0x50, 0xE9, rel[0], rel[1], rel[2], rel[3]]);
    assert_eq!(CODE_X86[..3], code[..3]);
    assert_eq!(CODE_X86[4..7], code[4..7]);
}

#[test]
fn x86_trampoline_jumps_to_function() {
    for (func, base) in [
        (0x7530_1234usize, 0x0040_0000usize),
        (0x100, 0x10),
        (0x1_0000_000B, 0),
        (0x0040_0000, 0x7530_1234),
        (0, usize::MAX),
        (5, 0),
    ] {
        let code = build_x86_code(func, 0, base);
        let rel = u32::from_le_bytes([code[7], code[8], code[9], code[10]]);
        assert_eq!(((base + 11) as u32).wrapping_add(rel), func as u32);
    }
}

#[test]
fn x86_trampoline_smallest_distance() {
    let code = build_x86_code(0x111B, 0, 0x1110);
    assert_eq!(&code[7..11], &[0, 0, 0, 0]);
}

#[test]
fn x86_trampoline_jumps_backwards() {
    let code = build_x86_code(0x0040_0000, 0x11, 0x0050_0000);
    let rel = u32::from_le_bytes([code[7], code[8], code[9], code[10]]);
    assert_eq!(rel, (0x0040_0000u32).wrapping_sub(0x0050_000B));
    assert_eq!(rel as i32, -0x10_000B);
}

#[test]
fn x86_lookup_code_at_0x400000() {
    let code = build_x86_get_func_code(0x40_0000);
    assert_eq!(&code[91..95], &[0x7C, 0x00, 0x40, 0x00]);
    assert_eq!(&code[104..108], &[0x94, 0x00, 0x40, 0x00]);
    assert_eq!(&code[109..113], &[0x8D, 0x00, 0x40, 0x00]);
}

#[test]
fn x86_lookup_code_points_at_its_strings() {
    let base: usize = 0x0020_0000;
    let code = build_x86_get_func_code(base);
    assert_eq!(code.len(), 173);
    let at = |i: usize| u32::from_le_bytes([code[i], code[i + 1], code[i + 2], code[i + 3]]) as usize;
    assert_eq!(at(91), base + 124);
    assert_eq!(at(104), base + 148);
    assert_eq!(at(109), base + 141);
    assert_eq!(&code[124..141], b"GetModuleHandleA\0");
    assert_eq!(&code[141..148], b"user32\0");
    assert_eq!(&code[148..173], b"SetWindowDisplayAffinity\0");
    assert_eq!(CODE_GET_FUNC_ADDRESS_X86_DATA_GMH, *b"GetModuleHandleA\0");
    assert_eq!(CODE_GET_FUNC_ADDRESS_X86_DATA_USER32, *b"user32\0");
    assert_eq!(CODE_GET_FUNC_ADDRESS_X86_DATA_SWDF, *b"SetWindowDisplayAffinity\0");
    for i in 0..124 {
        if !(91..95).contains(&i) && !(104..108).contains(&i) && !(109..113).contains(&i) {
            assert_eq!(code[i], CODE_GET_FUNC_ADDRESS_X86[i], "byte {}", i);
        }
    }
}

#[test]
fn x86_lookup_code_truncates_addresses_to_32_bits() {
    let base: usize = 0xFFFF_FFF0;
    let code = build_x86_get_func_code(base);
    let at = |i: usize| u32::from_le_bytes([code[i], code[i + 1], code[i + 2], code[i + 3]]);
    assert_eq!(at(91), (base + 124) as u32);
    assert_eq!(at(91), 108);
}

#[test]
fn x64_code_matches_patched_template() {
    let hwnd: u64 = 0x0000_0000_0012_03A4;
    let affinity: u32 = 0x11;
    let function: u64 = 0x7FFA_1234_5678_9ABC;
    let mut expected: Vec<u8> =
        X64_HEX.split_whitespace().map(|v| u8::from_str_radix(v, 16).unwrap()).collect();
    expected.splice(26..34, hwnd.to_le_bytes());
    expected.splice(37..41, affinity.to_le_bytes());
    expected.splice(43..51, function.to_le_bytes());
    let code = build_x64_code(hwnd, affinity, function);
    assert_eq!(code, expected);
    assert_eq!(code.len(), 78);
}

#[test]
fn x64_template_is_the_documented_code() {
    let parsed: Vec<u8> =
        X64_HEX.split_whitespace().map(|v| u8::from_str_radix(v, 16).unwrap()).collect();
    assert_eq!(parsed, CODE_X64.to_vec());
}

#[test]
fn x64_operands_read_back() {
    let code = build_x64_code(u64::MAX, 0xDEAD_BEEF, 1);
    assert_eq!(u64::from_le_bytes(code[26..34].try_into().unwrap()), u64::MAX);
    assert_eq!(u32::from_le_bytes(code[37..41].try_into().unwrap()), 0xDEAD_BEEF);
    assert_eq!(u64::from_le_bytes(code[43..51].try_into().unwrap()), 1);
    assert_eq!(&code[..26], &CODE_X64[..26]);
    assert_eq!(&code[51..], &CODE_X64[51..]);
}
