use proc_macro2::TokenStream;
use ragout_custom_events_macro::codegen::{
    gen_lib, input_actions_enum, input_write, input_write_arm, kbd_events_arm, kbd_events_fn,
    punctuated_converge,
};
use ragout_custom_events_macro::event::key_code_has_bracket;
use ragout_custom_events_macro::templates::LIB_ITEMS;
use ragout_custom_events_macro::{
    expansion_source, ragout_custom_events, ActionVariant, CustomEvent, ExpansionError,
    KeyCodeExpr,
};

fn tokens(src: &str) -> String {
    src.parse::<TokenStream>().unwrap().to_string()
}

fn key(text: &str, args: Option<&str>) -> KeyCodeExpr {
    KeyCodeExpr { tokens: text.to_string(), call_args: args.map(|a| a.to_string()) }
}

fn variant(ident: &str, text: &str) -> ActionVariant {
    ActionVariant { ident: ident.to_string(), tokens: text.to_string() }
}

/// The two events of the example that ships with the macro, as the
/// parser's token texts print them.
fn example_events() -> Vec<CustomEvent> {
    vec![
        CustomEvent {
            key_code: key("KeyCode :: F (5)", Some("5")),
            modifiers: "0x0".to_string(),
            input_action: variant("TestF", "TestF (u8)"),
            func: "|| { self . write_prompt (sol) ; }".to_string(),
        },
        CustomEvent {
            key_code: key("KeyCode :: Esc", None),
            modifiers: "0x0".to_string(),
            input_action: variant("TestPrintScreen", "TestPrintScreen"),
            func: "|| { self . overwrite_prompt (\"x\") ; }".to_string(),
        },
    ]
}

#[test]
fn bracket_detection() {
    assert!(key_code_has_bracket(&"KeyCode :: F (5)".to_string()));
    assert!(key_code_has_bracket(&"KeyCode :: X { a : 1 }".to_string()));
    assert!(key_code_has_bracket(&"a)".to_string()));
    assert!(!key_code_has_bracket(&"KeyCode :: Esc".to_string()));
    assert!(!key_code_has_bracket(&"".to_string()));
}

#[test]
fn keyboard_arm_of_call_key_hands_payload() {
    let arm = kbd_events_arm(&key("KeyCode :: F (5)", Some("5")), &"0x0".to_string(), &variant("TestF", "TestF (u8)"));
    assert_eq!(
        tokens(&arm),
        tokens("KeyCode::F(5) if key_event.modifiers == KeyModifiers::from_bits(0x0).unwrap() => { Command::InputAction(InputAction::TestF(5)) }")
    );
}

#[test]
fn keyboard_arm_of_plain_key_hands_nothing() {
    let arm = kbd_events_arm(&key("KeyCode :: Esc", None), &"0x4".to_string(), &variant("Quit", "Quit"));
    assert_eq!(
        tokens(&arm),
        tokens("KeyCode::Esc if key_event.modifiers == KeyModifiers::from_bits(0x4).unwrap() => { Command::InputAction(InputAction::Quit) }")
    );
}

#[test]
fn write_arm_with_and_without_payload() {
    let with = input_write_arm(&"|| { a () }".to_string(), &variant("TestF", "TestF (u8)"), true);
    assert_eq!(tokens(&with), tokens("InputAction::TestF(val) => { (|| { a() })() }"));
    let without = input_write_arm(&"|| { a () }".to_string(), &variant("Quit", "Quit"), false);
    assert_eq!(tokens(&without), tokens("InputAction::Quit => { (|| { a() })() }"));
}

#[test]
fn enum_lists_builtin_then_custom_variants() {
    let e = input_actions_enum(vec!["TestF (u8)".to_string(), "Other".to_string()]);
    assert_eq!(
        tokens(&e),
        tokens("enum InputAction { PutChar(char), BackSpace, CRLF, MoveRight, MoveLeft, MoveEnd, MoveRightJump, MoveLeftJump, ClearLine, ClearRight, ClearLeft, MoveHome, HistoryPrev, HistoryNext, TestF(u8), Other, }")
    );
}

#[test]
fn enum_without_custom_variants() {
    let e = input_actions_enum(vec![]);
    assert!(tokens(&e).ends_with("HistoryPrev , HistoryNext , }"));
}

#[test]
fn keyboard_fn_puts_custom_arms_before_catch_all() {
    let f = kbd_events_fn(vec!["A => { x }".to_string(), "B => { y }".to_string()]);
    let t = tokens(&f);
    let builtin = t.find("KeyCode :: Char (c)").unwrap();
    let a = t.find("A => { x }").unwrap();
    let b = t.find("B => { y }").unwrap();
    let catch_all = t.rfind("_ => Command :: None").unwrap();
    assert!(builtin < a && a < b && b < catch_all);
    assert!(t.starts_with("fn kbd_event (key_event : KeyEvent) -> Command"));
}

#[test]
fn write_fn_puts_custom_arms_after_builtin() {
    let f = input_write(vec!["InputAction :: A => { (|| ()) () }".to_string()]);
    let t = tokens(&f);
    let history = t.find("InputAction :: HistoryNext").unwrap();
    let custom = t.find("InputAction :: A =>").unwrap();
    assert!(history < custom);
    assert!(t.ends_with("sol . flush () ; # [cfg (debug_assertions)] self . log (& ia) ; }"));
}

#[test]
fn support_items_are_the_fixed_text() {
    assert_eq!(gen_lib(), LIB_ITEMS.to_string());
    let t = tokens(&gen_lib());
    assert!(t.contains("pub fn run"));
    assert!(t.contains("enum Command"));
    assert!(t.contains("fn keyboard () -> Command"));
}

#[test]
fn converge_yields_one_entry_per_event_in_order() {
    let events = example_events();
    let (ia, kbd, write) = punctuated_converge(&events);
    assert_eq!(ia, vec!["TestF (u8)".to_string(), "TestPrintScreen".to_string()]);
    assert_eq!(kbd.len(), 2);
    assert_eq!(write.len(), 2);
    assert!(tokens(&kbd[0]).contains("InputAction :: TestF (5)"));
    assert!(tokens(&kbd[1]).contains("InputAction :: TestPrintScreen)"));
    assert!(tokens(&write[0]).starts_with("InputAction :: TestF (val) =>"));
    assert!(tokens(&write[1]).starts_with("InputAction :: TestPrintScreen =>"));
}

#[test]
fn call_key_payload_is_bound_in_write() {
    let events = example_events();
    let (_, kbd, write) = punctuated_converge(&events);
    assert!(kbd[0].contains("InputAction::TestF (5)"));
    assert!(write[0].starts_with("InputAction::TestF (val)"));
}

#[test]
fn every_custom_action_is_declared_produced_and_handled() {
    let src = expansion_source(&example_events());
    let t = tokens(&src);
    let enum_at = t.find("enum InputAction").unwrap();
    let kbd_at = t.find("fn kbd_event").unwrap();
    let write_at = t.find("fn write").unwrap();
    for name in ["TestF", "TestPrintScreen"] {
        let declared = t[enum_at..kbd_at].contains(name);
        let produced = t[kbd_at..write_at].contains(&format!("InputAction :: {}", name));
        let handled = t[write_at..].contains(&format!("InputAction :: {}", name));
        assert!(declared && produced && handled, "{}", name);
    }
}

#[test]
fn expansion_is_the_items_in_order() {
    let src = expansion_source(&example_events());
    let t = tokens(&src);
    let lib = t.find("pub fn run").unwrap();
    let derive = t.find("# [derive (Debug)] enum InputAction").unwrap();
    let kbd = t.find("fn kbd_event").unwrap();
    let writer = t.find("impl Writer < InputAction > for Input { fn write").unwrap();
    assert!(lib < derive && derive < kbd && kbd < writer);
}

#[test]
fn ragout_custom_events_lexes_the_expansion() {
    let events = example_events();
    let out = ragout_custom_events(&events).unwrap();
    assert_eq!(out.to_string(), tokens(&expansion_source(&events)));
    assert!(out.to_string().contains("TestPrintScreen"));
}

#[test]
fn ragout_custom_events_without_events() {
    let out = ragout_custom_events(&vec![]).unwrap();
    assert!(out.to_string().contains("HistoryNext , }"));
    assert!(out.to_string().contains("_ => Command :: None"));
}

#[test]
fn unlexable_closure_text_is_refused() {
    let mut events = example_events();
    events[1].func = "|| { \"open".to_string();
    assert_eq!(ragout_custom_events(&events).unwrap_err(), ExpansionError::Unlexable);
    let mut events = example_events();
    events[0].func = "|| { ( }".to_string();
    assert_eq!(ragout_custom_events(&events).unwrap_err(), ExpansionError::Unlexable);
}
