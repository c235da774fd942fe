use gnvim_ui::input::{
    escape_input, event_to_nvim_input, key_press, keyname_to_nvim_key, mouse_input, MouseEvent,
    CONTROL_MASK, MOD1_MASK, SHIFT_MASK,
};
use gnvim_ui::text::same_text;

#[test]
fn key_names_are_mapped() {
    assert_eq!(keyname_to_nvim_key("slash"), Some("/"));
    assert_eq!(keyname_to_nvim_key("backslash"), Some("\\"));
    assert_eq!(keyname_to_nvim_key("dead_circumflex"), Some("^"));
    assert_eq!(keyname_to_nvim_key("dead_diaeresis"), Some("\""));
    assert_eq!(keyname_to_nvim_key("dead_acute"), Some("'"));
    assert_eq!(keyname_to_nvim_key("less"), Some("<"));
    assert_eq!(keyname_to_nvim_key("BackSpace"), Some("BS"));
    assert_eq!(keyname_to_nvim_key("Return"), Some("CR"));
    assert_eq!(keyname_to_nvim_key("Enter"), Some("CR"));
    assert_eq!(keyname_to_nvim_key("ISO_Left_Tab"), Some("Tab"));
    assert_eq!(keyname_to_nvim_key("Page_Down"), Some("PageDown"));
    assert_eq!(keyname_to_nvim_key("F1"), Some("F1"));
    assert_eq!(keyname_to_nvim_key("F12"), Some("F12"));
}

#[test]
fn unknown_key_names_are_not_mapped() {
    assert_eq!(keyname_to_nvim_key(""), None);
    assert_eq!(keyname_to_nvim_key("F13"), None);
    assert_eq!(keyname_to_nvim_key("Slash"), None);
    assert_eq!(keyname_to_nvim_key("Shift_L"), None);
}

#[test]
fn named_key_is_sent_by_its_name() {
    assert_eq!(event_to_nvim_input(Some("Escape"), 0, None), Some("<Esc>".to_string()));
    // What the key types does not count where it has a name.
    assert_eq!(event_to_nvim_input(Some("Tab"), 0, Some('\t')), Some("<Tab>".to_string()));
}

#[test]
fn typing_key_is_sent_by_its_character() {
    assert_eq!(event_to_nvim_input(Some("a"), 0, Some('a')), Some("<a>".to_string()));
    assert_eq!(event_to_nvim_input(Some("ä"), 0, Some('ä')), Some("<ä>".to_string()));
    assert_eq!(event_to_nvim_input(Some(""), 0, Some('x')), Some("<x>".to_string()));
}

#[test]
fn modifiers_come_in_order() {
    assert_eq!(
        event_to_nvim_input(Some("a"), SHIFT_MASK | CONTROL_MASK | MOD1_MASK, Some('a')),
        Some("<S-C-A-a>".to_string())
    );
    assert_eq!(
        event_to_nvim_input(Some("Up"), MOD1_MASK, None),
        Some("<A-Up>".to_string())
    );
    // Other modifiers do not count.
    assert_eq!(
        event_to_nvim_input(Some("Up"), 2 | 16 | CONTROL_MASK, None),
        Some("<C-Up>".to_string())
    );
}

#[test]
fn keys_that_cannot_be_told_are_not_sent() {
    assert_eq!(event_to_nvim_input(None, 0, Some('a')), None);
    assert_eq!(event_to_nvim_input(Some("Shift_L"), 0, Some('a')), None);
    assert_eq!(event_to_nvim_input(Some("a"), 0, None), None);
}

#[test]
fn key_press_goes_to_one_place() {
    let taken = key_press(true, Some("a"), 0, Some('a'));
    assert_eq!(taken.input, None);
    assert!(taken.inhibit);

    let sent = key_press(false, Some("a"), CONTROL_MASK, Some('a'));
    assert_eq!(sent.input, Some("<C-a>".to_string()));
    assert!(sent.inhibit);

    let left = key_press(false, Some("Shift_L"), 0, None);
    assert_eq!(left.input, None);
    assert!(!left.inhibit);
}

#[test]
fn different_keys_read_differently() {
    let s_dash = event_to_nvim_input(Some("minus"), SHIFT_MASK, Some('-'));
    let s = event_to_nvim_input(Some("S"), 0, Some('S'));
    assert_eq!(s_dash, Some("<S-->".to_string()));
    assert_eq!(s, Some("<S>".to_string()));
    assert_ne!(s_dash, s);
}

#[test]
fn less_than_is_escaped() {
    assert_eq!(escape_input("a<b<<c>"), "a<lt>b<lt><lt>c>");
    assert_eq!(escape_input("<"), "<lt>");
    assert_eq!(escape_input(""), "");
    assert_eq!(escape_input("häß"), "häß");
    assert_eq!(escape_input("<lt>"), "<lt>lt>");
}

#[test]
fn escaping_is_that_of_replace() {
    for text in ["", "<", ">", "a<", "<a", "<<", "no", "l<t>", "ä<ö"].iter() {
        assert_eq!(escape_input(text), text.replace("<", "<lt>"));
    }
}

#[test]
fn escaping_concatenates_and_loses_nothing() {
    assert_eq!(
        escape_input("a<") + &escape_input("<b"),
        escape_input("a<<b")
    );
    assert_ne!(escape_input("<"), escape_input("<lt>"));
    assert_eq!(escape_input("<lt>").replace("<lt>", "<"), "<lt>");
}

#[test]
fn mouse_is_told_to_neovim() {
    let reaction = mouse_input(2, MouseEvent::Press("left".to_string()), 3, 4);
    assert!(!reaction.inhibit);
    let press = reaction.input;
    assert_eq!(press.button, "left");
    assert_eq!(press.action, "press");
    assert_eq!(press.modifier, "");
    assert_eq!((press.grid, press.row, press.col), (2, 3, 4));

    let release = mouse_input(2, MouseEvent::Release("right".to_string()), 0, 0).input;
    assert_eq!((release.button.as_str(), release.action.as_str()), ("right", "release"));

    let drag = mouse_input(2, MouseEvent::Drag("middle".to_string()), 0, 0).input;
    assert_eq!((drag.button.as_str(), drag.action.as_str()), ("middle", "drag"));

    let scroll = mouse_input(7, MouseEvent::Scroll("down".to_string()), 1, 2).input;
    assert_eq!((scroll.button.as_str(), scroll.action.as_str()), ("wheel", "down"));
    assert_eq!(scroll.grid, 7);
}

#[test]
fn mouse_position_keeps_its_low_bits() {
    let far = mouse_input(1, MouseEvent::Press("left".to_string()), u64::MAX, 1 << 63).input;
    assert_eq!((far.row, far.col), (-1, i64::MIN));
}

#[test]
fn texts_are_compared_by_characters() {
    assert!(same_text("", ""));
    assert!(same_text("añb", "añb"));
    assert!(!same_text("ab", "abc"));
    assert!(!same_text("ab", "ac"));
}
