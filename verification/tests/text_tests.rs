use anti_window_snap::modules::module_name_matches;
use anti_window_snap::text::{
    decode_utf16_lossy, get_class_name, get_window_text, utf16_to_chars, utf16_to_chars_lossy,
    wrap_in_quotes,
};

fn units(s: &str) -> Vec<u16> {
    s.encode_utf16().collect()
}

#[test]
fn lossy_decoding_matches_std() {
    let samples: Vec<Vec<u16>> = vec![
        units("Notepad"),
        units("微信"),
        units("emoji 😀 end"),
        vec![0xD800],
        vec![0xDC00, 0x41],
        vec![0xD83D, 0x41, 0xDE00],
        vec![0x41, 0xD83D],
        vec![],
        vec![0xFFFF, 0xE000, 0xD7FF],
    ];
    for s in samples {
        assert_eq!(decode_utf16_lossy(&s), String::from_utf16_lossy(&s), "{:?}", s);
        let chars: String = utf16_to_chars_lossy(&s).into_iter().collect();
        assert_eq!(chars, String::from_utf16_lossy(&s));
    }
}

#[test]
fn strict_decoding_matches_std() {
    let samples: Vec<Vec<u16>> = vec![
        units("User32.dll"),
        units("😀"),
        vec![0xD800],
        vec![0xDE00],
        vec![0x41, 0xD83D, 0xDE00, 0],
    ];
    for s in samples {
        let ours: Option<String> = utf16_to_chars(&s).map(|cs| cs.into_iter().collect());
        assert_eq!(ours, String::from_utf16(&s).ok(), "{:?}", s);
    }
}

#[test]
fn unpaired_surrogates_become_replacement_characters() {
    assert_eq!(decode_utf16_lossy(&[0x61, 0xD800, 0x62]), "a\u{FFFD}b");
    assert_eq!(decode_utf16_lossy(&[0xDC00, 0xD800]), "\u{FFFD}\u{FFFD}");
    assert_eq!(decode_utf16_lossy(&[0xD83D, 0xDE00]), "😀");
}

#[test]
fn window_text_takes_the_reported_prefix() {
    let mut buffer = [0u16; 255];
    let title = units("无标题 - 记事本");
    buffer[..title.len()].copy_from_slice(&title);
    buffer[title.len()] = 0;
    buffer[title.len() + 1] = 0x58;
    assert_eq!(get_window_text(&buffer, title.len() as i32), "无标题 - 记事本");
    assert_eq!(get_window_text(&buffer, 0), "");
    assert_eq!(get_class_name(&buffer, 3), "无标题");
}

#[test]
fn module_names_compare_ignoring_ascii_case_and_trailing_zeros() {
    let mut sz = [0u16; 256];
    let name = units("USER32.DLL");
    sz[..name.len()].copy_from_slice(&name);
    assert!(module_name_matches(&sz, "User32.dll"));
    assert!(module_name_matches(&sz, "user32.dll"));
    assert!(!module_name_matches(&sz, "User32.dl"));
    assert!(!module_name_matches(&sz, "User32.dllx"));
    assert!(!module_name_matches(&sz, "kernel32.dll"));
}

#[test]
fn module_names_keep_what_follows_an_inner_zero() {
    let mut sz = [0u16; 256];
    let name = units("user32.dll\0l");
    sz[..name.len()].copy_from_slice(&name);
    assert!(!module_name_matches(&sz, "user32.dll"));
}

#[test]
fn module_names_fold_only_ascii_letters() {
    let mut sz = [0u16; 16];
    let name = units("É.dll");
    sz[..name.len()].copy_from_slice(&name);
    assert!(module_name_matches(&sz, "É.DLL"));
    assert!(!module_name_matches(&sz, "é.dll"));
}

#[test]
fn quotes_wrap_the_text() {
    assert_eq!(
        wrap_in_quotes("https://github.com/pkptzx/AntiWindowSnap"),
        "\"https://github.com/pkptzx/AntiWindowSnap\""
    );
    assert_eq!(wrap_in_quotes(""), "\"\"");
}

#[test]
fn strict_and_lossy_agree_on_valid_text() {
    for s in ["", "abc", "微信 😀", "\u{FFFF}\u{10FFFF}"] {
        let u = units(s);
        let strict: String = utf16_to_chars(&u).unwrap().into_iter().collect();
        assert_eq!(strict, decode_utf16_lossy(&u));
        assert_eq!(strict, s);
        assert!(utf16_to_chars_lossy(&u).len() <= u.len());
    }
}

#[test]
fn text_without_surrogates_decodes_unit_by_unit() {
    let u: Vec<u16> = vec![0x41, 0x4E2D, 0xFFFD, 0x0, 0xE000];
    let chars = utf16_to_chars_lossy(&u);
    assert_eq!(chars.len(), u.len());
    for (c, v) in chars.iter().zip(u.iter()) {
        assert_eq!(*c as u32, *v as u32);
    }
}

#[test]
fn module_match_ignores_the_case_of_the_name_asked_for() {
    let mut sz = [0u16; 32];
    let name = units("user32.DLL");
    sz[..name.len()].copy_from_slice(&name);
    for asked in ["User32.dll", "USER32.DLL", "user32.dll", "uSeR32.DlL"] {
        assert!(module_name_matches(&sz, asked));
    }
    for asked in ["User33.dll", "user32", "ＵＳＥＲ32.dll"] {
        assert!(!module_name_matches(&sz, asked));
    }
}
