//! Machine code that is written into a target process to call
//! `SetWindowDisplayAffinity` there.
//!
//! Every address and operand that the code carries is stored little-endian, as
//! x86 and x86-64 encode immediates.
use vstd::prelude::*;

verus! {

/// The four bytes of a 32-bit value, least significant first.
pub open spec fn le_bytes_u32(x: u32) -> Seq<u8> {
    seq![(x & 0xff) as u8, ((x >> 8) & 0xff) as u8, ((x >> 16) & 0xff) as u8, ((x >> 24) & 0xff) as u8]
}

/// The 32-bit value of four bytes, least significant first.
pub open spec fn le_value_u32(s: Seq<u8>) -> u32 {
    (s[0] as u32) | (s[1] as u32) << 8 | (s[2] as u32) << 16 | (s[3] as u32) << 24
}

/// The eight bytes of a 64-bit value, least significant first.
pub open spec fn le_bytes_u64(x: u64) -> Seq<u8> {
    seq![
        (x & 0xff) as u8,
        ((x >> 8) & 0xff) as u8,
        ((x >> 16) & 0xff) as u8,
        ((x >> 24) & 0xff) as u8,
        ((x >> 32) & 0xff) as u8,
        ((x >> 40) & 0xff) as u8,
        ((x >> 48) & 0xff) as u8,
        ((x >> 56) & 0xff) as u8,
    ]
}

/// The 64-bit value of eight bytes, least significant first.
pub open spec fn le_value_u64(s: Seq<u8>) -> u64 {
    (s[0] as u64) | (s[1] as u64) << 8 | (s[2] as u64) << 16 | (s[3] as u64) << 24 | (s[4] as u64)
        << 32 | (s[5] as u64) << 40 | (s[6] as u64) << 48 | (s[7] as u64) << 56
}

/// Reading back the bytes of a 32-bit value gives the value.
pub proof fn lemma_le_u32_roundtrip(x: u32)
    ensures
        le_bytes_u32(x).len() == 4,
        le_value_u32(le_bytes_u32(x)) == x,
{
    let s = le_bytes_u32(x);
    let (b0, b1, b2, b3) = (s[0], s[1], s[2], s[3]);
    assert(((b0 as u32) | (b1 as u32) << 8 | (b2 as u32) << 16 | (b3 as u32) << 24) == x)
        by (bit_vector)
        requires
            b0 == (x & 0xff) as u8,
            b1 == ((x >> 8) & 0xff) as u8,
            b2 == ((x >> 16) & 0xff) as u8,
            b3 == ((x >> 24) & 0xff) as u8,
    ;
}

/// Reading back the bytes of a 64-bit value gives the value; they are the
/// bytes that vstd's `u64` little-endian encoding gives.
pub proof fn lemma_le_u64_roundtrip(x: u64)
    ensures
        le_bytes_u64(x).len() == 8,
        le_value_u64(le_bytes_u64(x)) == x,
        le_bytes_u64(x) == vstd::bytes::spec_u64_to_le_bytes(x),
{
    let s = le_bytes_u64(x);
    let (b0, b1, b2, b3, b4, b5, b6, b7) = (s[0], s[1], s[2], s[3], s[4], s[5], s[6], s[7]);
    assert(((b0 as u64) | (b1 as u64) << 8 | (b2 as u64) << 16 | (b3 as u64) << 24 | (b4 as u64)
        << 32 | (b5 as u64) << 40 | (b6 as u64) << 48 | (b7 as u64) << 56) == x) by (bit_vector)
        requires
            b0 == (x & 0xff) as u8,
            b1 == ((x >> 8) & 0xff) as u8,
            b2 == ((x >> 16) & 0xff) as u8,
            b3 == ((x >> 24) & 0xff) as u8,
            b4 == ((x >> 32) & 0xff) as u8,
            b5 == ((x >> 40) & 0xff) as u8,
            b6 == ((x >> 48) & 0xff) as u8,
            b7 == ((x >> 56) & 0xff) as u8,
    ;
    vstd::bytes::spec_u64_to_le_bytes_to_open(x);
    assert(le_bytes_u64(x) =~= vstd::bytes::spec_u64_to_le_bytes_open(x));
}

/// The bytes of a 32-bit value, least significant first.
pub fn u32_le_bytes(x: u32) -> (bytes: [u8; 4])
    ensures
        bytes@ == le_bytes_u32(x),
{
    let bytes = [
        (x & 0xff) as u8,
        ((x >> 8) & 0xff) as u8,
        ((x >> 16) & 0xff) as u8,
        ((x >> 24) & 0xff) as u8,
    ];
    assert(bytes@ =~= le_bytes_u32(x));
    bytes
}

/// The bytes of a 64-bit value, least significant first.
pub fn u64_le_bytes(x: u64) -> (bytes: [u8; 8])
    ensures
        bytes@ == le_bytes_u64(x),
{
    let bytes = [
        (x & 0xff) as u8,
        ((x >> 8) & 0xff) as u8,
        ((x >> 16) & 0xff) as u8,
        ((x >> 24) & 0xff) as u8,
        ((x >> 32) & 0xff) as u8,
        ((x >> 40) & 0xff) as u8,
        ((x >> 48) & 0xff) as u8,
        ((x >> 56) & 0xff) as u8,
    ];
    assert(bytes@ =~= le_bytes_u64(x));
    bytes
}

/// `SetWindowDisplayAffinity` value that excludes a window from capture
/// (`WDA_EXCLUDEFROMCAPTURE`).
pub const AFFINITY_EXCLUDE_FROM_CAPTURE: u32 = 0x11;

/// `SetWindowDisplayAffinity` value that lifts any restriction (`WDA_NONE`).
pub const AFFINITY_NONE: u32 = 0;

/// The display affinity that hides a window (`hide`) or shows it again.
pub open spec fn spec_display_affinity(hide: bool) -> u32 {
    if hide {
        AFFINITY_EXCLUDE_FROM_CAPTURE
    } else {
        AFFINITY_NONE
    }
}

/// The display affinity that hides a window from capture when `hide` is set,
/// and lifts the restriction otherwise.
pub fn display_affinity(hide: bool) -> (affinity: u32)
    ensures
        affinity == spec_display_affinity(hide),
{
    if hide {
        AFFINITY_EXCLUDE_FROM_CAPTURE
    } else {
        AFFINITY_NONE
    }
}

/// Length of the 32-bit trampoline.
pub const CODE_X86_SIZE: usize = 11;

/// 32-bit trampoline: it takes the window handle that the remote thread is
/// started with, pushes the affinity after it and jumps to
/// `SetWindowDisplayAffinity`.
///
/// ```text
/// 58              pop eax            ; return address
/// 59              pop ecx            ; thread parameter (the window handle)
/// 6A <affinity>   push affinity
/// 51              push ecx
/// 50              push eax
/// E9 <rel32>      jmp SetWindowDisplayAffinity
/// ```
pub const CODE_X86: [u8; 11] = [0x58u8, 0x59, 0x6A, 0x00, 0x51, 0x50, 0xE9, 0x00, 0x00, 0x00, 0x00];

/// The 32-bit trampoline for a given target, affinity and load address: the
/// template with the affinity at offset 3 and, at offset 7, the distance from
/// the end of the code to the target.
pub open spec fn x86_trampoline(func_addr: usize, affinity: u8, base_address: usize) -> Seq<u8> {
    CODE_X86@.subrange(0, 3) + seq![affinity] + CODE_X86@.subrange(4, 7)
        + le_bytes_u32((func_addr - base_address - 11) as u32)
}

/// Builds the 32-bit trampoline that is loaded at `base_address` and jumps to
/// `func_addr` after pushing `affinity`.
pub fn build_x86_code(func_addr: usize, affinity: u8, base_address: usize) -> (code: [u8; 11])
    ensures
        code@ == x86_trampoline(func_addr, affinity, base_address),
{
    let mut code = [0u8; 11];
    copy_into(&mut code, 0, CODE_X86.as_slice());
    code[3] = affinity;
    let displacement: u32 = (func_addr as u32).wrapping_sub(base_address as u32).wrapping_sub(11);
    assert(displacement == (func_addr - base_address - 11) as u32) by (bit_vector)
        requires
            displacement == (func_addr as u32).wrapping_sub(base_address as u32).wrapping_sub(11),
    ;
    let rel = u32_le_bytes(displacement);
    copy_into(&mut code, 7, rel.as_slice());
    assert(code@ =~= x86_trampoline(func_addr, affinity, base_address));
    code
}

/// Length of the 32-bit routine that looks up `SetWindowDisplayAffinity`,
/// without its strings.
pub const CODE_GET_FUNC_ADDRESS_X86_SIZE: usize = 124;

/// Length of the string `GetModuleHandleA` with its terminating zero.
pub const CODE_GET_FUNC_ADDRESS_X86_DATA_GMH_SIZE: usize = 17;

/// Length of the string `user32` with its terminating zero.
pub const CODE_GET_FUNC_ADDRESS_X86_DATA_USER32_SIZE: usize = 7;

/// Length of the string `SetWindowDisplayAffinity` with its terminating zero.
pub const CODE_GET_FUNC_ADDRESS_X86_DATA_SWDF_SIZE: usize = 25;

/// Length of the routine followed by its three strings.
pub const CODE_GET_FUNC_ADDRESS_X86_SIZE_ALL: usize = 173;

/// Offset of the pushed address of `GetModuleHandleA` in the routine.
pub const GMH_PATCH_OFFSET: usize = 91;

/// Offset of the pushed address of `SetWindowDisplayAffinity` in the routine.
pub const SWDF_PATCH_OFFSET: usize = 104;

/// Offset of the pushed address of `user32` in the routine.
pub const USER32_PATCH_OFFSET: usize = 109;

/// 32-bit routine that finds `SetWindowDisplayAffinity` in the target process
/// and returns its address as the thread's exit code.
///
/// It walks the PEB to the third loaded module (kernel32), scans its export
/// names for `GetProcAddress`, calls `GetProcAddress(kernel32,
/// "GetModuleHandleA")`, then `GetModuleHandleA("user32")`, and finally
/// `GetProcAddress(user32, "SetWindowDisplayAffinity")`. The three `push`
/// instructions at offsets 90, 103 and 108 take the addresses of the strings
/// that follow the routine; they are zero in the template.
pub const CODE_GET_FUNC_ADDRESS_X86: [u8; 124] = [
    0x64u8, 0xA1, 0x30, 0x00, 0x00, 0x00, 0x53, 0x56, 0x57, 0x8B, 0x40, 0x0C,
    0x8B, 0x40, 0x14, 0x8B, 0x00, 0x8B, 0x00, 0x8B, 0x78, 0x10, 0x8B, 0x47,
    0x3C, 0x8B, 0x44, 0x38, 0x78, 0x8B, 0x4C, 0x38, 0x20, 0x8B, 0x74, 0x38,
    0x24, 0x03, 0xCF, 0x8B, 0x5C, 0x38, 0x1C, 0x03, 0xF7, 0x03, 0xDF, 0x33,
    0xD2, 0x8B, 0x01, 0x81, 0x3C, 0x38, 0x47, 0x65, 0x74, 0x50, 0x75, 0x14,
    0x81, 0x7C, 0x38, 0x04, 0x72, 0x6F, 0x63, 0x41, 0x75, 0x0A, 0x81, 0x7C,
    0x38, 0x08, 0x64, 0x64, 0x72, 0x65, 0x74, 0x06, 0x83, 0xC1, 0x04, 0x42,
    0xEB, 0xDB, 0x0F, 0xB7, 0x04, 0x56, 0x68, 0x00, 0x00, 0x00, 0x00, 0x57,
    0x8B, 0x34, 0x83, 0x03, 0xF7, 0xFF, 0xD6, 0x68, 0x00, 0x00, 0x00, 0x00,
    0x68, 0x00, 0x00, 0x00, 0x00, 0xFF, 0xD0, 0x50, 0xFF, 0xD6, 0x5F, 0x5E,
    0x5B, 0xC2, 0x04, 0x00,
];

/// `GetModuleHandleA` with its terminating zero.
pub const CODE_GET_FUNC_ADDRESS_X86_DATA_GMH: [u8; 17] = [
    0x47u8, 0x65, 0x74, 0x4D, 0x6F, 0x64, 0x75, 0x6C, 0x65, 0x48, 0x61, 0x6E, 0x64, 0x6C,
    0x65, 0x41, 0x00,
];

/// `user32` with its terminating zero.
pub const CODE_GET_FUNC_ADDRESS_X86_DATA_USER32: [u8; 7] = [
    0x75u8, 0x73, 0x65, 0x72, 0x33, 0x32, 0x00,
];

/// `SetWindowDisplayAffinity` with its terminating zero.
pub const CODE_GET_FUNC_ADDRESS_X86_DATA_SWDF: [u8; 25] = [
    0x53u8, 0x65, 0x74, 0x57, 0x69, 0x6E, 0x64, 0x6F, 0x77, 0x44, 0x69, 0x73, 0x70, 0x6C,
    0x61, 0x79, 0x41, 0x66, 0x66, 0x69, 0x6E, 0x69, 0x74, 0x79, 0x00,
];

/// Where the strings stand in the code block, counted from its start.
pub open spec fn gmh_offset() -> int {
    CODE_GET_FUNC_ADDRESS_X86_SIZE as int
}

pub open spec fn user32_offset() -> int {
    gmh_offset() + CODE_GET_FUNC_ADDRESS_X86_DATA_GMH_SIZE
}

pub open spec fn swdf_offset() -> int {
    user32_offset() + CODE_GET_FUNC_ADDRESS_X86_DATA_USER32_SIZE
}

/// The lookup routine loaded at `base_address`: the template with the three
/// string addresses filled in, followed by the three strings.
pub open spec fn x86_get_func_code(base_address: usize) -> Seq<u8> {
    let code = CODE_GET_FUNC_ADDRESS_X86@;
    code.subrange(0, 91) + le_bytes_u32((base_address + gmh_offset()) as u32)
        + code.subrange(95, 104) + le_bytes_u32((base_address + swdf_offset()) as u32)
        + code.subrange(108, 109) + le_bytes_u32((base_address + user32_offset()) as u32)
        + code.subrange(113, 124) + CODE_GET_FUNC_ADDRESS_X86_DATA_GMH@
        + CODE_GET_FUNC_ADDRESS_X86_DATA_USER32@ + CODE_GET_FUNC_ADDRESS_X86_DATA_SWDF@
}

/// Copies `src` into `code` at `at`, leaving the other bytes as they were.
fn copy_into<const N: usize>(code: &mut [u8; N], at: usize, src: &[u8])
    requires
        at + src@.len() <= N,
    ensures
        final(code)@ == old(code)@.subrange(0, at as int) + src@ + old(code)@.subrange(
            at + src@.len(),
            N as int,
        ),
{
    let ghost before = code@;
    let mut i: usize = 0;
    while i < src.len()
        invariant
            at + src@.len() <= N,
            i <= src@.len(),
            code@.len() == N,
            forall|j: int| 0 <= j < at ==> code@[j] == before[j],
            forall|j: int| at <= j < at + i ==> code@[j] == src@[j - at],
            forall|j: int| at + src@.len() <= j < N ==> code@[j] == before[j],
        decreases src@.len() - i,
    {
        code[at + i] = src[i];
        i = i + 1;
    }
    assert(code@ =~= before.subrange(0, at as int) + src@ + before.subrange(
        at + src@.len(),
        N as int,
    ));
}

/// Builds the lookup routine followed by its strings, for a block loaded at
/// `base_address`.
pub fn build_x86_get_func_code(base_address: usize) -> (code: [u8; 173])
    requires
        base_address + swdf_offset() <= usize::MAX,
    ensures
        code@ == x86_get_func_code(base_address),
{
    let mut code = [0u8; 173];
    let mut start: usize = 0;
    copy_into(&mut code, start, CODE_GET_FUNC_ADDRESS_X86.as_slice());
    start = start + CODE_GET_FUNC_ADDRESS_X86_SIZE;
    copy_into(&mut code, start, CODE_GET_FUNC_ADDRESS_X86_DATA_GMH.as_slice());
    start = start + CODE_GET_FUNC_ADDRESS_X86_DATA_GMH_SIZE;
    copy_into(&mut code, start, CODE_GET_FUNC_ADDRESS_X86_DATA_USER32.as_slice());
    start = start + CODE_GET_FUNC_ADDRESS_X86_DATA_USER32_SIZE;
    copy_into(&mut code, start, CODE_GET_FUNC_ADDRESS_X86_DATA_SWDF.as_slice());
    let gmh = u32_le_bytes((base_address + CODE_GET_FUNC_ADDRESS_X86_SIZE) as u32);
    copy_into(&mut code, GMH_PATCH_OFFSET, gmh.as_slice());
    let swdf = u32_le_bytes(
        (base_address + CODE_GET_FUNC_ADDRESS_X86_SIZE + CODE_GET_FUNC_ADDRESS_X86_DATA_GMH_SIZE
            + CODE_GET_FUNC_ADDRESS_X86_DATA_USER32_SIZE) as u32,
    );
    copy_into(&mut code, SWDF_PATCH_OFFSET, swdf.as_slice());
    let user32 = u32_le_bytes(
        (base_address + CODE_GET_FUNC_ADDRESS_X86_SIZE
            + CODE_GET_FUNC_ADDRESS_X86_DATA_GMH_SIZE) as u32,
    );
    copy_into(&mut code, USER32_PATCH_OFFSET, user32.as_slice());
    assert(code@ =~= x86_get_func_code(base_address));
    code
}

/// Length of the 64-bit routine.
pub const CODE_X64_SIZE: usize = 78;

/// 64-bit routine that calls `SetWindowDisplayAffinity(hwnd, affinity)`.
///
/// ```text
/// 48 89 4C 24 08 .. 4C 89 4C 24 20   save rcx, rdx, r8, r9
/// 48 83 EC 38                         sub rsp, 38h
/// 48 B9 <imm64>                       mov rcx, hwnd          ; offset 26
/// 48 C7 C2 <imm32>                    mov rdx, affinity      ; offset 37
/// 48 B8 <imm64>                       mov rax, function      ; offset 43
/// FF D0                               call rax
/// 48 83 C4 38                         add rsp, 38h
/// 48 8B 4C 24 08 .. 4C 8B 4C 24 20   restore rcx, rdx, r8, r9
/// C3                                  ret
/// ```
pub const CODE_X64: [u8; 78] = [
    0x48u8, 0x89, 0x4C, 0x24, 0x08, 0x48, 0x89, 0x54, 0x24, 0x10, 0x4C, 0x89,
    0x44, 0x24, 0x18, 0x4C, 0x89, 0x4C, 0x24, 0x20, 0x48, 0x83, 0xEC, 0x38,
    0x48, 0xB9, 0xED, 0xFE, 0xAD, 0xDE, 0xED, 0xFE, 0x00, 0x00, 0x48, 0xC7,
    0xC2, 0xAD, 0xDE, 0x00, 0x00, 0x48, 0xB8, 0xAD, 0xDE, 0xED, 0xFE, 0xAD,
    0xDE, 0x00, 0x00, 0xFF, 0xD0, 0x48, 0x83, 0xC4, 0x38, 0x48, 0x8B, 0x4C,
    0x24, 0x08, 0x48, 0x8B, 0x54, 0x24, 0x10, 0x4C, 0x8B, 0x44, 0x24, 0x18,
    0x4C, 0x8B, 0x4C, 0x24, 0x20, 0xC3,
];

/// Offset of the window handle operand in the 64-bit routine.
pub const X64_HWND_OFFSET: usize = 26;

/// Offset of the affinity operand in the 64-bit routine.
pub const X64_AFFINITY_OFFSET: usize = 37;

/// Offset of the function address operand in the 64-bit routine.
pub const X64_FUNCTION_OFFSET: usize = 43;

/// The 64-bit routine with its three operands filled in.
pub open spec fn x64_code(hwnd: u64, affinity: u32, function: u64) -> Seq<u8> {
    let code = CODE_X64@;
    code.subrange(0, 26) + le_bytes_u64(hwnd) + code.subrange(34, 37)
        + le_bytes_u32(affinity) + code.subrange(41, 43) + le_bytes_u64(function)
        + code.subrange(51, 78)
}

/// Builds the 64-bit routine that calls the function at `function` with the
/// window handle `hwnd` and the display affinity `affinity`.
pub fn build_x64_code(hwnd: u64, affinity: u32, function: u64) -> (code: Vec<u8>)
    ensures
        code@ == x64_code(hwnd, affinity, function),
        code@.len() == CODE_X64_SIZE,
{
    let mut buf = [0u8; 78];
    copy_into(&mut buf, 0, CODE_X64.as_slice());
    let hwnd_bytes = u64_le_bytes(hwnd);
    copy_into(&mut buf, X64_HWND_OFFSET, hwnd_bytes.as_slice());
    let affinity_bytes = u32_le_bytes(affinity);
    copy_into(&mut buf, X64_AFFINITY_OFFSET, affinity_bytes.as_slice());
    let function_bytes = u64_le_bytes(function);
    copy_into(&mut buf, X64_FUNCTION_OFFSET, function_bytes.as_slice());
    assert(buf@ =~= x64_code(hwnd, affinity, function));
    vstd::slice::slice_to_vec(buf.as_slice())
}

/// The trampoline pushes the affinity it was built with and jumps to
/// `func_addr`: the 32-bit displacement at offset 7, added to the address just
/// past the code, gives `func_addr` modulo 2^32, as a `jmp rel32` computes it,
/// whether the target lies above or below the code.
pub proof fn lemma_x86_trampoline_targets(func_addr: usize, affinity: u8, base_address: usize)
    ensures
        x86_trampoline(func_addr, affinity, base_address).len() == CODE_X86_SIZE,
        x86_trampoline(func_addr, affinity, base_address)[2] == 0x6A,
        x86_trampoline(func_addr, affinity, base_address)[3] == affinity,
        x86_trampoline(func_addr, affinity, base_address)[6] == 0xE9,
        (((base_address + 11) as u32) as int + le_value_u32(
            x86_trampoline(func_addr, affinity, base_address).subrange(7, 11),
        ) as int) % 0x1_0000_0000 == (func_addr as u32) as int,
{
    let code = x86_trampoline(func_addr, affinity, base_address);
    let rel = (func_addr - base_address - 11) as u32;
    lemma_le_u32_roundtrip(rel);
    assert(code.subrange(7, 11) =~= le_bytes_u32(rel));
    assert(((((base_address + 11) as u32) as int + ((func_addr - base_address - 11) as u32) as int)
        % 0x1_0000_0000) == (func_addr as u32) as int) by (bit_vector);
}

/// Each address that the lookup routine pushes points, inside the block
/// loaded at `base_address`, at the string it names: the 32-bit values at the
/// three patch sites decode to the block's address plus the offset of
/// `GetModuleHandleA`, `SetWindowDisplayAffinity` and `user32`, and those
/// strings stand at those offsets.
pub proof fn lemma_x86_get_func_code_strings(base_address: usize)
    requires
        base_address + swdf_offset() <= usize::MAX,
    ensures
        x86_get_func_code(base_address).len() == CODE_GET_FUNC_ADDRESS_X86_SIZE_ALL,
        le_value_u32(x86_get_func_code(base_address).subrange(91, 95)) == (base_address
            + gmh_offset()) as u32,
        le_value_u32(x86_get_func_code(base_address).subrange(104, 108)) == (base_address
            + swdf_offset()) as u32,
        le_value_u32(x86_get_func_code(base_address).subrange(109, 113)) == (base_address
            + user32_offset()) as u32,
        x86_get_func_code(base_address).subrange(gmh_offset(), user32_offset())
            == CODE_GET_FUNC_ADDRESS_X86_DATA_GMH@,
        x86_get_func_code(base_address).subrange(user32_offset(), swdf_offset())
            == CODE_GET_FUNC_ADDRESS_X86_DATA_USER32@,
        x86_get_func_code(base_address).subrange(swdf_offset(), 173)
            == CODE_GET_FUNC_ADDRESS_X86_DATA_SWDF@,
        x86_get_func_code(base_address).subrange(0, 91) == CODE_GET_FUNC_ADDRESS_X86@.subrange(
            0,
            91,
        ),
{
    let code = x86_get_func_code(base_address);
    lemma_le_u32_roundtrip((base_address + gmh_offset()) as u32);
    lemma_le_u32_roundtrip((base_address + swdf_offset()) as u32);
    lemma_le_u32_roundtrip((base_address + user32_offset()) as u32);
    assert(code.subrange(91, 95) =~= le_bytes_u32((base_address + gmh_offset()) as u32));
    assert(code.subrange(104, 108) =~= le_bytes_u32(
        (base_address + swdf_offset()) as u32,
    ));
    assert(code.subrange(109, 113) =~= le_bytes_u32(
        (base_address + user32_offset()) as u32,
    ));
    assert(code.subrange(gmh_offset(), user32_offset()) =~= CODE_GET_FUNC_ADDRESS_X86_DATA_GMH@);
    assert(code.subrange(user32_offset(), swdf_offset()) =~= CODE_GET_FUNC_ADDRESS_X86_DATA_USER32@);
    assert(code.subrange(swdf_offset(), 173) =~= CODE_GET_FUNC_ADDRESS_X86_DATA_SWDF@);
    assert(code.subrange(0, 91) =~= CODE_GET_FUNC_ADDRESS_X86@.subrange(0, 91));
}

/// The 64-bit routine carries exactly the operands it was built with: the
/// values at offsets 26, 37 and 43 decode to the window handle, the affinity
/// and the function address, and every other byte is the template's.
pub proof fn lemma_x64_code_operands(hwnd: u64, affinity: u32, function: u64)
    ensures
        x64_code(hwnd, affinity, function).len() == CODE_X64_SIZE,
        le_value_u64(x64_code(hwnd, affinity, function).subrange(26, 34)) == hwnd,
        le_value_u32(x64_code(hwnd, affinity, function).subrange(37, 41)) == affinity,
        le_value_u64(x64_code(hwnd, affinity, function).subrange(43, 51)) == function,
        forall|i: int|
            0 <= i < CODE_X64_SIZE && !(26 <= i < 34) && !(37 <= i < 41) && !(43 <= i < 51)
                ==> #[trigger] x64_code(hwnd, affinity, function)[i] == CODE_X64@[i],
{
    let code = x64_code(hwnd, affinity, function);
    lemma_le_u64_roundtrip(hwnd);
    lemma_le_u32_roundtrip(affinity);
    lemma_le_u64_roundtrip(function);
    assert(code.subrange(26, 34) =~= le_bytes_u64(hwnd));
    assert(code.subrange(37, 41) =~= le_bytes_u32(affinity));
    assert(code.subrange(43, 51) =~= le_bytes_u64(function));
}

/// Both display affinities fit the one-byte operand of the 32-bit trampoline.
pub proof fn lemma_display_affinity_fits_byte(hide: bool)
    ensures
        spec_display_affinity(hide) <= 0xFF,
        (spec_display_affinity(hide) as u8) as u32 == spec_display_affinity(hide),
{
}

} // verus!
