use dm_noesis::text::{c_string, element_name, key_text};

#[test]
fn c_string_appends_terminator() {
    assert_eq!(c_string(b"Menu.xaml"), Some(b"Menu.xaml\0".to_vec()));
    assert_eq!(c_string(b""), Some(vec![0u8]));
}

#[test]
fn c_string_rejects_interior_nul() {
    assert_eq!(c_string(b"bad\0uri"), None);
    assert_eq!(c_string(b"\0"), None);
    assert_eq!(c_string(b"trailing\0"), None);
}

#[test]
fn key_text_reads_utf8_keys() {
    assert_eq!(key_text(Some(b"menu.main_menu.new_game")), "menu.main_menu.new_game");
    assert_eq!(key_text(Some("clé".as_bytes())), "clé");
}

#[test]
fn key_text_falls_back_to_empty() {
    assert_eq!(key_text(None), "");
    assert_eq!(key_text(Some(&[0x66, 0xff, 0x6f])), "");
    assert_eq!(key_text(Some(b"")), "");
}

#[test]
fn element_name_absent_when_null() {
    assert_eq!(element_name(None), None);
}

#[test]
fn element_name_decodes_leniently() {
    assert_eq!(element_name(Some(b"PlayButton")), Some("PlayButton".to_string()));
    assert_eq!(element_name(Some(&[b'O', b'k', 0xff])), Some("Ok\u{FFFD}".to_string()));
    assert_eq!(element_name(Some(b"")), Some(String::new()));
}
