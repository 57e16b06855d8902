use dm_noesis::markup::{ClosureHandler, MarkupExtensionHandler, MarkupValue, ScratchTable};

fn localize(key: &str) -> Option<String> {
    match key {
        "menu.main_menu.new_game" => Some("New Game".to_string()),
        "menu.main_menu.quit" => Some("Quit".to_string()),
        _ => None,
    }
}

#[test]
fn closure_handler_substitutes_found_text() {
    let mut h = ClosureHandler::new(localize);
    match h.provide_value("menu.main_menu.new_game") {
        MarkupValue::String(s) => assert_eq!(s, "New Game"),
        _ => panic!("expected a string"),
    }
    match h.provide_value("menu.main_menu.quit") {
        MarkupValue::String(s) => assert_eq!(s, "Quit"),
        _ => panic!("expected a string"),
    }
}

#[test]
fn closure_handler_unset_for_unknown_key() {
    let mut h = ClosureHandler::new(localize);
    assert!(matches!(h.provide_value("missing.key"), MarkupValue::Unset));
}

#[test]
fn closure_handler_sees_the_key() {
    let mut h = ClosureHandler::new(|key: &str| Some(key.to_uppercase()));
    match h.provide_value("abc") {
        MarkupValue::String(s) => assert_eq!(s, "ABC"),
        _ => panic!("expected a string"),
    }
}

struct Fixed;

impl MarkupExtensionHandler for Fixed {
    fn provide_value(&mut self, _key: &str) -> MarkupValue<'_> {
        MarkupValue::Component(0x1000)
    }
}

#[test]
fn custom_handler_can_return_component() {
    let mut boxed: Box<dyn MarkupExtensionHandler> = Box::new(Fixed);
    assert!(matches!(boxed.provide_value("x"), MarkupValue::Component(0x1000)));
}

#[test]
fn scratch_store_then_get() {
    let mut t = ScratchTable::new();
    assert_eq!(t.get(7), None);
    t.store(7, b"New Game");
    assert_eq!(t.get(7), Some(&b"New Game\0".to_vec()));
}

#[test]
fn scratch_store_replaces_previous_text() {
    let mut t = ScratchTable::new();
    t.store(7, b"first");
    t.store(7, b"second");
    assert_eq!(t.get(7), Some(&b"second\0".to_vec()));
}

#[test]
fn scratch_slots_are_per_handler() {
    let mut t = ScratchTable::new();
    t.store(1, b"one");
    t.store(2, b"two");
    t.store(1, b"uno");
    assert_eq!(t.get(1), Some(&b"uno\0".to_vec()));
    assert_eq!(t.get(2), Some(&b"two\0".to_vec()));
}

#[test]
fn scratch_text_with_nul_becomes_empty_c_string() {
    let mut t = ScratchTable::new();
    t.store(3, b"bad\0text");
    assert_eq!(t.get(3), Some(&vec![0u8]));
}

#[test]
fn scratch_forget_drops_only_that_handler() {
    let mut t = ScratchTable::new();
    t.store(1, b"one");
    t.store(2, b"two");
    t.forget(1);
    assert_eq!(t.get(1), None);
    assert_eq!(t.get(2), Some(&b"two\0".to_vec()));
    t.forget(1);
    assert_eq!(t.get(2), Some(&b"two\0".to_vec()));
    t.forget(2);
    assert_eq!(t.get(2), None);
}

use dm_noesis::markup::{answer_for_parser, ParserAnswer};

#[test]
fn parser_answer_for_unset_leaves_table() {
    let mut t = ScratchTable::new();
    t.store(9, b"kept");
    assert!(matches!(answer_for_parser(&mut t, 9, MarkupValue::Unset), ParserAnswer::Unset));
    assert_eq!(t.get(9), Some(&b"kept\0".to_vec()));
}

#[test]
fn parser_answer_for_component_passes_address() {
    let mut t = ScratchTable::new();
    assert!(matches!(
        answer_for_parser(&mut t, 9, MarkupValue::Component(0xdead0)),
        ParserAnswer::Component(0xdead0)
    ));
    assert_eq!(t.get(9), None);
}

#[test]
fn parser_answer_for_text_goes_through_slot() {
    let mut t = ScratchTable::new();
    t.store(4, b"other");
    match answer_for_parser(&mut t, 9, MarkupValue::String("Load Game")) {
        ParserAnswer::Text(b) => assert_eq!(b, &b"Load Game\0".to_vec()),
        _ => panic!("expected text"),
    }
    assert_eq!(t.get(9), Some(&b"Load Game\0".to_vec()));
    assert_eq!(t.get(4), Some(&b"other\0".to_vec()));
    match answer_for_parser(&mut t, 9, MarkupValue::String("a\0b")) {
        ParserAnswer::Text(b) => assert_eq!(b, &vec![0u8]),
        _ => panic!("expected text"),
    }
}
