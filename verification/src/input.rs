//! What the keyboard and the mouse tell Neovim.

use vstd::prelude::*;

use crate::text::same_text;

verus! {

/// The bit of a key event's state that is set while Shift is held.
pub const SHIFT_MASK: u32 = 1;

/// The bit of a key event's state that is set while Control is held.
pub const CONTROL_MASK: u32 = 4;

/// The bit of a key event's state that is set while Alt is held.
pub const MOD1_MASK: u32 = 8;

/// The name that Neovim has for the key that the toolkit calls `name`.
pub open spec fn nvim_key(name: Seq<char>) -> Option<Seq<char>> {
    if name == "slash"@ {
        Some("/"@)
    } else if name == "backslash"@ {
        Some("\\"@)
    } else if name == "dead_circumflex"@ {
        Some("^"@)
    } else if name == "at"@ {
        Some("@"@)
    } else if name == "numbersign"@ {
        Some("#"@)
    } else if name == "dollar"@ {
        Some("$"@)
    } else if name == "percent"@ {
        Some("%"@)
    } else if name == "ampersand"@ {
        Some("&"@)
    } else if name == "asterisk"@ {
        Some("*"@)
    } else if name == "parenleft"@ {
        Some("("@)
    } else if name == "parenright"@ {
        Some(")"@)
    } else if name == "underscore"@ {
        Some("_"@)
    } else if name == "plus"@ {
        Some("+"@)
    } else if name == "minus"@ {
        Some("-"@)
    } else if name == "bracketleft"@ {
        Some("["@)
    } else if name == "bracketright"@ {
        Some("]"@)
    } else if name == "braceleft"@ {
        Some("{"@)
    } else if name == "braceright"@ {
        Some("}"@)
    } else if name == "dead_diaeresis"@ {
        Some("\""@)
    } else if name == "dead_acute"@ {
        Some("\'"@)
    } else if name == "less"@ {
        Some("<"@)
    } else if name == "greater"@ {
        Some(">"@)
    } else if name == "comma"@ {
        Some(","@)
    } else if name == "period"@ {
        Some("."@)
    } else if name == "BackSpace"@ {
        Some("BS"@)
    } else if name == "Insert"@ {
        Some("Insert"@)
    } else if name == "Return"@ {
        Some("CR"@)
    } else if name == "Escape"@ {
        Some("Esc"@)
    } else if name == "Delete"@ {
        Some("Del"@)
    } else if name == "Page_Up"@ {
        Some("PageUp"@)
    } else if name == "Page_Down"@ {
        Some("PageDown"@)
    } else if name == "Enter"@ {
        Some("CR"@)
    } else if name == "ISO_Left_Tab"@ {
        Some("Tab"@)
    } else if name == "Tab"@ {
        Some("Tab"@)
    } else if name == "Up"@ {
        Some("Up"@)
    } else if name == "Down"@ {
        Some("Down"@)
    } else if name == "Left"@ {
        Some("Left"@)
    } else if name == "Right"@ {
        Some("Right"@)
    } else if name == "Home"@ {
        Some("Home"@)
    } else if name == "End"@ {
        Some("End"@)
    } else if name == "F1"@ {
        Some("F1"@)
    } else if name == "F2"@ {
        Some("F2"@)
    } else if name == "F3"@ {
        Some("F3"@)
    } else if name == "F4"@ {
        Some("F4"@)
    } else if name == "F5"@ {
        Some("F5"@)
    } else if name == "F6"@ {
        Some("F6"@)
    } else if name == "F7"@ {
        Some("F7"@)
    } else if name == "F8"@ {
        Some("F8"@)
    } else if name == "F9"@ {
        Some("F9"@)
    } else if name == "F10"@ {
        Some("F10"@)
    } else if name == "F11"@ {
        Some("F11"@)
    } else if name == "F12"@ {
        Some("F12"@)
    } else {
        None
    }
}

/// The name that Neovim has for the key that the toolkit calls `s`.
pub fn keyname_to_nvim_key(s: &str) -> (key: Option<&'static str>)
    ensures
        match key {
            Some(key) => nvim_key(s@) == Some(key@),
            None => nvim_key(s@) is None,
        },
{
    if same_text(s, "slash") {
        return Some("/");
    }
    if same_text(s, "backslash") {
        return Some("\\");
    }
    if same_text(s, "dead_circumflex") {
        return Some("^");
    }
    if same_text(s, "at") {
        return Some("@");
    }
    if same_text(s, "numbersign") {
        return Some("#");
    }
    if same_text(s, "dollar") {
        return Some("$");
    }
    if same_text(s, "percent") {
        return Some("%");
    }
    if same_text(s, "ampersand") {
        return Some("&");
    }
    if same_text(s, "asterisk") {
        return Some("*");
    }
    if same_text(s, "parenleft") {
        return Some("(");
    }
    if same_text(s, "parenright") {
        return Some(")");
    }
    if same_text(s, "underscore") {
        return Some("_");
    }
    if same_text(s, "plus") {
        return Some("+");
    }
    if same_text(s, "minus") {
        return Some("-");
    }
    if same_text(s, "bracketleft") {
        return Some("[");
    }
    if same_text(s, "bracketright") {
        return Some("]");
    }
    if same_text(s, "braceleft") {
        return Some("{");
    }
    if same_text(s, "braceright") {
        return Some("}");
    }
    if same_text(s, "dead_diaeresis") {
        return Some("\"");
    }
    if same_text(s, "dead_acute") {
        return Some("\'");
    }
    if same_text(s, "less") {
        return Some("<");
    }
    if same_text(s, "greater") {
        return Some(">");
    }
    if same_text(s, "comma") {
        return Some(",");
    }
    if same_text(s, "period") {
        return Some(".");
    }
    if same_text(s, "BackSpace") {
        return Some("BS");
    }
    if same_text(s, "Insert") {
        return Some("Insert");
    }
    if same_text(s, "Return") {
        return Some("CR");
    }
    if same_text(s, "Escape") {
        return Some("Esc");
    }
    if same_text(s, "Delete") {
        return Some("Del");
    }
    if same_text(s, "Page_Up") {
        return Some("PageUp");
    }
    if same_text(s, "Page_Down") {
        return Some("PageDown");
    }
    if same_text(s, "Enter") {
        return Some("CR");
    }
    if same_text(s, "ISO_Left_Tab") {
        return Some("Tab");
    }
    if same_text(s, "Tab") {
        return Some("Tab");
    }
    if same_text(s, "Up") {
        return Some("Up");
    }
    if same_text(s, "Down") {
        return Some("Down");
    }
    if same_text(s, "Left") {
        return Some("Left");
    }
    if same_text(s, "Right") {
        return Some("Right");
    }
    if same_text(s, "Home") {
        return Some("Home");
    }
    if same_text(s, "End") {
        return Some("End");
    }
    if same_text(s, "F1") {
        return Some("F1");
    }
    if same_text(s, "F2") {
        return Some("F2");
    }
    if same_text(s, "F3") {
        return Some("F3");
    }
    if same_text(s, "F4") {
        return Some("F4");
    }
    if same_text(s, "F5") {
        return Some("F5");
    }
    if same_text(s, "F6") {
        return Some("F6");
    }
    if same_text(s, "F7") {
        return Some("F7");
    }
    if same_text(s, "F8") {
        return Some("F8");
    }
    if same_text(s, "F9") {
        return Some("F9");
    }
    if same_text(s, "F10") {
        return Some("F10");
    }
    if same_text(s, "F11") {
        return Some("F11");
    }
    if same_text(s, "F12") {
        return Some("F12");
    }
    None
}

/// The modifiers that are held, as Neovim writes them before the key.
pub open spec fn modifiers(state: u32) -> Seq<char> {
    (if state & SHIFT_MASK == SHIFT_MASK {
        "S-"@
    } else {
        Seq::empty()
    }) + (if state & CONTROL_MASK == CONTROL_MASK {
        "C-"@
    } else {
        Seq::empty()
    }) + (if state & MOD1_MASK == MOD1_MASK {
        "A-"@
    } else {
        Seq::empty()
    })
}

/// What Neovim calls a key: by name, where the toolkit has a name of more than
/// one character for it, and by the character that it types otherwise.
pub open spec fn key_text(name: Seq<char>, typed: Option<char>) -> Option<Seq<char>> {
    if name.len() > 1 {
        nvim_key(name)
    } else {
        match typed {
            Some(c) => Some(seq![c]),
            None => None,
        }
    }
}

/// A key that is pressed while `state` holds, as Neovim reads it, where it can.
pub open spec fn key_input(
    keyname: Option<Seq<char>>,
    state: u32,
    typed: Option<char>,
) -> Option<Seq<char>> {
    match keyname {
        None => None,
        Some(name) => match key_text(name, typed) {
            None => None,
            Some(key) => Some("<"@ + modifiers(state) + key + ">"@),
        },
    }
}

/// The characters of a text, if there is one.
pub open spec fn view_of(text: Option<&str>) -> Option<Seq<char>> {
    match text {
        Some(text) => Some(text@),
        None => None,
    }
}

/// `text` is the text that is meant, or there is none and none is meant.
pub open spec fn is_text(text: Option<String>, meant: Option<Seq<char>>) -> bool {
    match text {
        Some(text) => meant == Some(text@),
        None => meant is None,
    }
}

/// A key that is pressed, as Neovim reads it.
///
/// * `keyname` - What the toolkit calls the key.
/// * `state` - The bits that tell which modifiers are held.
/// * `typed` - The character that the key types.
pub fn event_to_nvim_input(keyname: Option<&str>, state: u32, typed: Option<char>) -> (input:
    Option<String>)
    ensures
        is_text(input, key_input(view_of(keyname), state, typed)),
{
    let name: &str = match keyname {
        Some(name) => name,
        None => return None,
    };
    let mut input: String = "<".to_owned();
    if state & SHIFT_MASK == SHIFT_MASK {
        input.append("S-");
    }
    if state & CONTROL_MASK == CONTROL_MASK {
        input.append("C-");
    }
    if state & MOD1_MASK == MOD1_MASK {
        input.append("A-");
    }
    assert(input@ =~= "<"@ + modifiers(state));
    if name.unicode_len() > 1 {
        match keyname_to_nvim_key(name) {
            Some(key) => input.append(key),
            None => return None,
        }
    } else {
        match typed {
            Some(c) => {
                let ghost before = input@;
                input.push(c);
                assert(input@ =~= before + seq![c]);
            },
            None => return None,
        }
    }
    input.append(">");
    Some(input)
}

/// What is to be done with a key that was pressed.
pub struct KeyPress {
    /// What Neovim is sent.
    pub input: Option<String>,
    /// Whether the toolkit is kept from doing anything with the key itself.
    pub inhibit: bool,
}

/// Decides what is to be done with a key that was pressed. What the input method
/// has taken is not sent again.
///
/// * `filtered` - Whether the input method has taken the key.
pub fn key_press(
    filtered: bool,
    keyname: Option<&str>,
    state: u32,
    typed: Option<char>,
) -> (press: KeyPress)
    ensures
        filtered ==> press.input is None && press.inhibit,
        !filtered ==> {
            &&& is_text(press.input, key_input(view_of(keyname), state, typed))
            &&& press.inhibit == press.input is Some
        },
{
    if filtered {
        return KeyPress { input: None, inhibit: true };
    }
    let input: Option<String> = event_to_nvim_input(keyname, state, typed);
    let inhibit: bool = input.is_some();
    KeyPress { input, inhibit }
}

/// Typed text as Neovim reads it: there `<` starts the name of a key.
pub open spec fn escaped(text: Seq<char>) -> Seq<char>
    decreases text.len(),
{
    if text.len() == 0 {
        Seq::empty()
    } else {
        escaped(text.drop_last()) + (if text.last() == '<' {
            "<lt>"@
        } else {
            seq![text.last()]
        })
    }
}

/// Typed text as Neovim reads it: `<` is written `<lt>`.
pub fn escape_input(text: &str) -> (input: String)
    ensures
        input@ == escaped(text@),
{
    let n: usize = text.unicode_len();
    let mut input = String::new();
    let mut i: usize = 0;
    while i < n
        invariant
            i <= n,
            n == text@.len(),
            input@ == escaped(text@.take(i as int)),
        decreases n - i,
    {
        let c: char = text.get_char(i);
        let ghost before = input@;
        if c == '<' {
            input.append("<lt>");
        } else {
            input.push(c);
            assert(input@ =~= before + seq![c]);
        }
        i = i + 1;
        assert(text@.take(i as int).drop_last() =~= text@.take(i - 1));
    }
    assert(text@.take(n as int) =~= text@);
    input
}

/// What the mouse does over a grid.
#[derive(Debug, PartialEq)]
pub enum MouseEvent {
    /// A button, by name, is pressed.
    Press(String),
    /// A button, by name, is let go.
    Release(String),
    /// The mouse moves while a button, by name, is held.
    Drag(String),
    /// The wheel turns, in a direction, by name.
    Scroll(String),
}

/// What Neovim is told of the mouse.
#[derive(Debug, PartialEq)]
pub struct MouseInput {
    pub button: String,
    pub action: String,
    pub modifier: String,
    pub grid: i64,
    pub row: i64,
    pub col: i64,
}

/// What is to be done with what the mouse does.
#[derive(Debug, PartialEq)]
pub struct MouseReaction {
    /// What Neovim is told.
    pub input: MouseInput,
    /// Whether the toolkit is kept from doing anything with it itself.
    pub inhibit: bool,
}

/// The button and the action that Neovim is told of.
pub open spec fn mouse_words(event: MouseEvent) -> (Seq<char>, Seq<char>) {
    match event {
        MouseEvent::Press(button) => (button@, "press"@),
        MouseEvent::Release(button) => (button@, "release"@),
        MouseEvent::Drag(button) => (button@, "drag"@),
        MouseEvent::Scroll(direction) => ("wheel"@, direction@),
    }
}

/// Decides what Neovim is told of the mouse, which is over a cell of a grid. The
/// toolkit goes on with it as if nothing had been done.
pub fn mouse_input(grid: i64, event: MouseEvent, row: u64, col: u64) -> (reaction: MouseReaction)
    ensures
        (reaction.input.button@, reaction.input.action@) == mouse_words(event),
        reaction.input.modifier@ == Seq::<char>::empty(),
        reaction.input.grid == grid,
        reaction.input.row == row as i64,
        reaction.input.col == col as i64,
        !reaction.inhibit,
{
    let (button, action): (String, String) = match event {
        MouseEvent::Press(button) => (button, "press".to_owned()),
        MouseEvent::Release(button) => (button, "release".to_owned()),
        MouseEvent::Drag(button) => (button, "drag".to_owned()),
        MouseEvent::Scroll(direction) => ("wheel".to_owned(), direction),
    };
    let input = MouseInput {
        button,
        action,
        modifier: String::new(),
        grid,
        row: row as i64,
        col: col as i64,
    };
    MouseReaction { input, inhibit: false }
}

/// Escaping one text after the other is escaping both together.
pub proof fn law_escape_concatenates(a: Seq<char>, b: Seq<char>)
    ensures
        escaped(a + b) == escaped(a) + escaped(b),
    decreases b.len(),
{
    if b.len() == 0 {
        assert(a + b =~= a);
        assert(escaped(a) + escaped(b) =~= escaped(a));
    } else {
        law_escape_concatenates(a, b.drop_last());
        assert((a + b).drop_last() =~= a + b.drop_last());
        assert((a + b).last() == b.last());
        assert(escaped(a + b) =~= escaped(a) + escaped(b));
    }
}

/// A text without `<` is sent as it is.
pub proof fn law_escape_keeps_plain_text(text: Seq<char>)
    requires
        !text.contains('<'),
    ensures
        escaped(text) == text,
    decreases text.len(),
{
    if text.len() > 0 {
        let front = text.drop_last();
        assert forall|i: int| 0 <= i < front.len() implies front[i] != '<' by {
            assert(text.contains(text[i]));
        }
        assert(text.contains(text.last()));
        law_escape_keeps_plain_text(front);
        assert(escaped(text) =~= text);
    } else {
        assert(escaped(text) =~= text);
    }
}

/// `text` has `<lt>` at `i`.
pub open spec fn has_lt_at(text: Seq<char>, i: int) -> bool {
    i + 4 <= text.len() && text.subrange(i, i + 4) == "<lt>"@
}

/// In escaped text `<` starts no key but `<lt>`.
pub proof fn law_escaped_text_names_no_other_key(text: Seq<char>, i: int)
    requires
        0 <= i < escaped(text).len(),
        escaped(text)[i] == '<',
    ensures
        has_lt_at(escaped(text), i),
    decreases text.len(),
{
    reveal_strlit("<lt>");
    let front = escaped(text.drop_last());
    if i < front.len() {
        law_escaped_text_names_no_other_key(text.drop_last(), i);
        assert(escaped(text).subrange(i, i + 4) =~= front.subrange(i, i + 4));
    } else {
        assert(text.last() == '<');
        assert(i == front.len());
        assert(escaped(text).subrange(i, i + 4) =~= "<lt>"@);
    }
}

/// Escaped text does not end in `<`.
proof fn lemma_escaped_end(text: Seq<char>)
    requires
        text.len() > 0,
    ensures
        escaped(text).len() > 0,
        escaped(text).last() != '<',
{
    reveal_strlit("<lt>");
}

/// If escaped texts are the same and only one of them ends in an escaped `<`,
/// there is a contradiction.
proof fn lemma_escaped_ends_agree(a: Seq<char>, b: Seq<char>)
    requires
        a.len() > 0,
        b.len() > 0,
        escaped(a) == escaped(b),
    ensures
        a.last() == '<' ==> b.last() == '<',
{
    reveal_strlit("<lt>");
    if a.last() == '<' && b.last() != '<' {
        let e = escaped(a);
        let n = escaped(a.drop_last()).len() as int;
        let b1 = b.drop_last();
        assert(e == escaped(a.drop_last()) + "<lt>"@);
        assert(e == escaped(b1) + seq![b.last()]);
        assert(e[n] == '<' && e[n + 1] == 'l' && e[n + 2] == 't');
        assert(escaped(b1) =~= e.subrange(0, n + 3));
        assert(b1.len() > 0);
        let b2 = b1.drop_last();
        assert(escaped(b1).last() == 't');
        assert(b1.last() != '<');
        assert(escaped(b1) == escaped(b2) + seq![b1.last()]);
        assert(escaped(b2) =~= e.subrange(0, n + 2));
        assert(b2.len() > 0);
        let b3 = b2.drop_last();
        assert(escaped(b2).last() == 'l');
        assert(b2.last() != '<');
        assert(escaped(b2) == escaped(b3) + seq![b2.last()]);
        assert(escaped(b3) =~= e.subrange(0, n + 1));
        assert(b3.len() > 0);
        lemma_escaped_end(b3);
        assert(escaped(b3).last() == '<');
    }
}

/// Escaping loses nothing: different texts stay different.
pub proof fn law_escape_is_injective(a: Seq<char>, b: Seq<char>)
    requires
        escaped(a) == escaped(b),
    ensures
        a == b,
    decreases a.len(),
{
    reveal_strlit("<lt>");
    if a.len() == 0 {
        if b.len() > 0 {
            lemma_escaped_end(b);
        }
        assert(a =~= b);
    } else if b.len() == 0 {
        lemma_escaped_end(a);
    } else {
        lemma_escaped_ends_agree(a, b);
        lemma_escaped_ends_agree(b, a);
        let ea = escaped(a.drop_last());
        let eb = escaped(b.drop_last());
        if a.last() == '<' {
            assert(ea =~= escaped(a).subrange(0, escaped(a).len() - 4));
            assert(eb =~= escaped(b).subrange(0, escaped(b).len() - 4));
        } else {
            assert(ea =~= escaped(a).drop_last());
            assert(eb =~= escaped(b).drop_last());
            assert(escaped(a).last() == a.last());
            assert(escaped(b).last() == b.last());
        }
        law_escape_is_injective(a.drop_last(), b.drop_last());
        assert(a =~= a.drop_last().push(a.last()));
        assert(b =~= b.drop_last().push(b.last()));
    }
}

/// No name of a key looks like a modifier and a key.
proof fn lemma_key_is_no_modifier(name: Seq<char>, typed: Option<char>)
    ensures
        key_text(name, typed) matches Some(key) ==> key.len() >= 1 && (key.len() >= 2 ==> key[1]
            != '-'),
{
    reveal_strlit("#");
    reveal_strlit("$");
    reveal_strlit("%");
    reveal_strlit("&");
    reveal_strlit("(");
    reveal_strlit(")");
    reveal_strlit("*");
    reveal_strlit("+");
    reveal_strlit(",");
    reveal_strlit("-");
    reveal_strlit(".");
    reveal_strlit("/");
    reveal_strlit("<");
    reveal_strlit(">");
    reveal_strlit("@");
    reveal_strlit("BS");
    reveal_strlit("CR");
    reveal_strlit("Del");
    reveal_strlit("Down");
    reveal_strlit("End");
    reveal_strlit("Esc");
    reveal_strlit("F1");
    reveal_strlit("F10");
    reveal_strlit("F11");
    reveal_strlit("F12");
    reveal_strlit("F2");
    reveal_strlit("F3");
    reveal_strlit("F4");
    reveal_strlit("F5");
    reveal_strlit("F6");
    reveal_strlit("F7");
    reveal_strlit("F8");
    reveal_strlit("F9");
    reveal_strlit("Home");
    reveal_strlit("Insert");
    reveal_strlit("Left");
    reveal_strlit("PageDown");
    reveal_strlit("PageUp");
    reveal_strlit("Right");
    reveal_strlit("Tab");
    reveal_strlit("Up");
    reveal_strlit("[");
    reveal_strlit("\"");
    reveal_strlit("\'");
    reveal_strlit("\\");
    reveal_strlit("]");
    reveal_strlit("^");
    reveal_strlit("_");
    reveal_strlit("{");
    reveal_strlit("}");
}

/// The modifiers of a key event that Neovim is told of.
pub open spec fn held(state: u32) -> (bool, bool, bool) {
    (
        state & SHIFT_MASK == SHIFT_MASK,
        state & CONTROL_MASK == CONTROL_MASK,
        state & MOD1_MASK == MOD1_MASK,
    )
}

/// `text` starts with the modifier `c`.
spec fn starts_with_modifier(text: Seq<char>, c: char) -> bool {
    text.len() >= 2 && text[0] == c && text[1] == '-'
}

/// `text` without the modifier that it starts with, if it does.
spec fn without_modifier(text: Seq<char>, present: bool) -> Seq<char> {
    if present {
        text.subrange(2, text.len() as int)
    } else {
        text
    }
}

/// The modifiers can be read off what Neovim is sent.
proof fn lemma_held_can_be_read(state: u32, key: Seq<char>)
    requires
        key.len() >= 1,
        key.len() >= 2 ==> key[1] != '-',
    ensures
        ({
            let all = modifiers(state) + key + ">"@;
            let (shift, control, alt) = held(state);
            let no_shift = without_modifier(all, shift);
            let no_control = without_modifier(no_shift, control);
            &&& shift == starts_with_modifier(all, 'S')
            &&& control == starts_with_modifier(no_shift, 'C')
            &&& alt == starts_with_modifier(no_control, 'A')
        }),
{
    reveal_strlit(">");
    reveal_strlit("S-");
    reveal_strlit("C-");
    reveal_strlit("A-");
    let (shift, control, alt) = held(state);
    let s = if shift {
        "S-"@
    } else {
        Seq::empty()
    };
    let c = if control {
        "C-"@
    } else {
        Seq::empty()
    };
    let a = if alt {
        "A-"@
    } else {
        Seq::empty()
    };
    let all = modifiers(state) + key + ">"@;
    assert(all =~= s + (c + (a + (key + ">"@))));
    let no_shift = without_modifier(all, shift);
    assert(no_shift =~= c + (a + (key + ">"@)));
    let no_control = without_modifier(no_shift, control);
    assert(no_control =~= a + (key + ">"@));
}

/// Neovim can tell keys apart: where two key events read the same to it, the
/// keys are the same, and so are the modifiers that are held.
pub proof fn law_keys_are_told_apart(
    name: Seq<char>,
    state: u32,
    typed: Option<char>,
    other_name: Seq<char>,
    other_state: u32,
    other_typed: Option<char>,
)
    requires
        key_input(Some(name), state, typed) is Some,
        key_input(Some(name), state, typed) == key_input(
            Some(other_name),
            other_state,
            other_typed,
        ),
    ensures
        key_text(name, typed) == key_text(other_name, other_typed),
        held(state) == held(other_state),
{
    lemma_key_is_no_modifier(name, typed);
    lemma_key_is_no_modifier(other_name, other_typed);
    reveal_strlit("<");
    reveal_strlit(">");
    reveal_strlit("S-");
    reveal_strlit("C-");
    reveal_strlit("A-");
    let a = key_text(name, typed).unwrap();
    let b = key_text(other_name, other_typed).unwrap();
    let ma = modifiers(state);
    let mb = modifiers(other_state);
    let whole = "<"@ + ma + a + ">"@;
    assert(whole == "<"@ + mb + b + ">"@);
    let text = ma + a + ">"@;
    assert(text =~= whole.subrange(1, whole.len() as int));
    assert(text =~= mb + b + ">"@);
    lemma_held_can_be_read(state, a);
    lemma_held_can_be_read(other_state, b);
    assert(ma == mb);
    assert(a =~= text.subrange(ma.len() as int, text.len() - 1));
    assert(b =~= text.subrange(mb.len() as int, text.len() - 1));
}

/// What tells the names in the table apart.
proof fn lemma_names_differ()
    ensures
        "slash"@.len() == 5 && "slash"@[0] == 's',
        "backslash"@.len() == 9 && "backslash"@[0] == 'b' && "backslash"@[1] == 'a',
        "dead_circumflex"@.len() == 15,
        "at"@.len() == 2 && "at"@[0] == 'a',
        "numbersign"@.len() == 10 && "numbersign"@[0] == 'n',
        "dollar"@.len() == 6 && "dollar"@[0] == 'd',
        "percent"@.len() == 7 && "percent"@[0] == 'p',
        "ampersand"@.len() == 9 && "ampersand"@[0] == 'a',
        "asterisk"@.len() == 8,
        "parenleft"@.len() == 9 && "parenleft"@[0] == 'p',
        "parenright"@.len() == 10 && "parenright"@[0] == 'p',
        "underscore"@.len() == 10 && "underscore"@[0] == 'u',
        "plus"@.len() == 4 && "plus"@[0] == 'p',
        "minus"@.len() == 5 && "minus"@[0] == 'm',
        "bracketleft"@.len() == 11,
        "bracketright"@.len() == 12 && "bracketright"@[0] == 'b',
        "braceleft"@.len() == 9 && "braceleft"@[0] == 'b' && "braceleft"@[1] == 'r',
        "braceright"@.len() == 10 && "braceright"@[0] == 'b',
        "dead_diaeresis"@.len() == 14,
        "dead_acute"@.len() == 10 && "dead_acute"@[0] == 'd',
        "less"@.len() == 4 && "less"@[0] == 'l',
        "greater"@.len() == 7 && "greater"@[0] == 'g',
        "comma"@.len() == 5 && "comma"@[0] == 'c',
        "period"@.len() == 6 && "period"@[0] == 'p',
        "BackSpace"@.len() == 9 && "BackSpace"@[0] == 'B',
        "Insert"@.len() == 6 && "Insert"@[0] == 'I',
        "Return"@.len() == 6 && "Return"@[0] == 'R',
        "Escape"@.len() == 6 && "Escape"@[0] == 'E',
        "Delete"@.len() == 6 && "Delete"@[0] == 'D',
        "Page_Up"@.len() == 7 && "Page_Up"@[0] == 'P',
        "Page_Down"@.len() == 9 && "Page_Down"@[0] == 'P',
        "Enter"@.len() == 5 && "Enter"@[0] == 'E',
        "ISO_Left_Tab"@.len() == 12 && "ISO_Left_Tab"@[0] == 'I',
        "Tab"@.len() == 3 && "Tab"@[0] == 'T',
        "Up"@.len() == 2 && "Up"@[0] == 'U',
        "Down"@.len() == 4 && "Down"@[0] == 'D',
        "Left"@.len() == 4 && "Left"@[0] == 'L',
        "Right"@.len() == 5 && "Right"@[0] == 'R',
        "Home"@.len() == 4 && "Home"@[0] == 'H',
        "End"@.len() == 3 && "End"@[0] == 'E',
        "F1"@.len() == 2 && "F1"@[0] == 'F' && "F1"@[1] == '1',
        "F2"@.len() == 2 && "F2"@[0] == 'F' && "F2"@[1] == '2',
        "F3"@.len() == 2 && "F3"@[0] == 'F' && "F3"@[1] == '3',
        "F4"@.len() == 2 && "F4"@[0] == 'F' && "F4"@[1] == '4',
        "F5"@.len() == 2 && "F5"@[0] == 'F' && "F5"@[1] == '5',
        "F6"@.len() == 2 && "F6"@[0] == 'F' && "F6"@[1] == '6',
        "F7"@.len() == 2 && "F7"@[0] == 'F' && "F7"@[1] == '7',
        "F8"@.len() == 2 && "F8"@[0] == 'F' && "F8"@[1] == '8',
        "F9"@.len() == 2 && "F9"@[0] == 'F' && "F9"@[1] == '9',
        "F10"@.len() == 3 && "F10"@[0] == 'F' && "F10"@[2] == '0',
        "F11"@.len() == 3 && "F11"@[0] == 'F' && "F11"@[2] == '1',
        "F12"@.len() == 3 && "F12"@[0] == 'F' && "F12"@[2] == '2',
{
    reveal_strlit("slash");
    reveal_strlit("backslash");
    reveal_strlit("dead_circumflex");
    reveal_strlit("at");
    reveal_strlit("numbersign");
    reveal_strlit("dollar");
    reveal_strlit("percent");
    reveal_strlit("ampersand");
    reveal_strlit("asterisk");
    reveal_strlit("parenleft");
    reveal_strlit("parenright");
    reveal_strlit("underscore");
    reveal_strlit("plus");
    reveal_strlit("minus");
    reveal_strlit("bracketleft");
    reveal_strlit("bracketright");
    reveal_strlit("braceleft");
    reveal_strlit("braceright");
    reveal_strlit("dead_diaeresis");
    reveal_strlit("dead_acute");
    reveal_strlit("less");
    reveal_strlit("greater");
    reveal_strlit("comma");
    reveal_strlit("period");
    reveal_strlit("BackSpace");
    reveal_strlit("Insert");
    reveal_strlit("Return");
    reveal_strlit("Escape");
    reveal_strlit("Delete");
    reveal_strlit("Page_Up");
    reveal_strlit("Page_Down");
    reveal_strlit("Enter");
    reveal_strlit("ISO_Left_Tab");
    reveal_strlit("Tab");
    reveal_strlit("Up");
    reveal_strlit("Down");
    reveal_strlit("Left");
    reveal_strlit("Right");
    reveal_strlit("Home");
    reveal_strlit("End");
    reveal_strlit("F1");
    reveal_strlit("F2");
    reveal_strlit("F3");
    reveal_strlit("F4");
    reveal_strlit("F5");
    reveal_strlit("F6");
    reveal_strlit("F7");
    reveal_strlit("F8");
    reveal_strlit("F9");
    reveal_strlit("F10");
    reveal_strlit("F11");
    reveal_strlit("F12");
}

/// Keys that the toolkit and Neovim know by the same name are sent by that name.
pub proof fn law_keys_keep_the_name_they_share()
    ensures
        nvim_key("Insert"@) == Some("Insert"@),
        nvim_key("Tab"@) == Some("Tab"@),
        nvim_key("Up"@) == Some("Up"@),
        nvim_key("Down"@) == Some("Down"@),
        nvim_key("Left"@) == Some("Left"@),
        nvim_key("Right"@) == Some("Right"@),
        nvim_key("Home"@) == Some("Home"@),
        nvim_key("End"@) == Some("End"@),
        nvim_key("F1"@) == Some("F1"@),
        nvim_key("F2"@) == Some("F2"@),
        nvim_key("F3"@) == Some("F3"@),
        nvim_key("F4"@) == Some("F4"@),
        nvim_key("F5"@) == Some("F5"@),
        nvim_key("F6"@) == Some("F6"@),
        nvim_key("F7"@) == Some("F7"@),
        nvim_key("F8"@) == Some("F8"@),
        nvim_key("F9"@) == Some("F9"@),
        nvim_key("F10"@) == Some("F10"@),
        nvim_key("F11"@) == Some("F11"@),
        nvim_key("F12"@) == Some("F12"@),
{
    lemma_names_differ();
}

/// Keys for signs are sent as the sign that they are named for.
pub proof fn law_signs_are_sent_as_signs()
    ensures
        nvim_key("slash"@) == Some("/"@),
        nvim_key("backslash"@) == Some("\\"@),
        nvim_key("dead_circumflex"@) == Some("^"@),
        nvim_key("at"@) == Some("@"@),
        nvim_key("numbersign"@) == Some("#"@),
        nvim_key("dollar"@) == Some("$"@),
        nvim_key("percent"@) == Some("%"@),
        nvim_key("ampersand"@) == Some("&"@),
        nvim_key("asterisk"@) == Some("*"@),
        nvim_key("parenleft"@) == Some("("@),
        nvim_key("parenright"@) == Some(")"@),
        nvim_key("underscore"@) == Some("_"@),
        nvim_key("plus"@) == Some("+"@),
        nvim_key("minus"@) == Some("-"@),
        nvim_key("bracketleft"@) == Some("["@),
        nvim_key("bracketright"@) == Some("]"@),
        nvim_key("braceleft"@) == Some("{"@),
        nvim_key("braceright"@) == Some("}"@),
        nvim_key("dead_diaeresis"@) == Some("\""@),
        nvim_key("dead_acute"@) == Some("\'"@),
        nvim_key("less"@) == Some("<"@),
        nvim_key("greater"@) == Some(">"@),
        nvim_key("comma"@) == Some(","@),
        nvim_key("period"@) == Some("."@),
{
    lemma_names_differ();
}

/// Keys that Neovim has another name for are sent by that one.
pub proof fn law_other_keys_are_sent_by_neovims_name()
    ensures
        nvim_key("BackSpace"@) == Some("BS"@),
        nvim_key("Return"@) == Some("CR"@),
        nvim_key("Escape"@) == Some("Esc"@),
        nvim_key("Delete"@) == Some("Del"@),
        nvim_key("Page_Up"@) == Some("PageUp"@),
        nvim_key("Page_Down"@) == Some("PageDown"@),
        nvim_key("Enter"@) == Some("CR"@),
        nvim_key("ISO_Left_Tab"@) == Some("Tab"@),
{
    lemma_names_differ();
}

/// Keys that are in no table are not sent at all.
pub proof fn law_no_other_key_has_a_name(name: Seq<char>)
    requires
        name != "slash"@,
        name != "backslash"@,
        name != "dead_circumflex"@,
        name != "at"@,
        name != "numbersign"@,
        name != "dollar"@,
        name != "percent"@,
        name != "ampersand"@,
        name != "asterisk"@,
        name != "parenleft"@,
        name != "parenright"@,
        name != "underscore"@,
        name != "plus"@,
        name != "minus"@,
        name != "bracketleft"@,
        name != "bracketright"@,
        name != "braceleft"@,
        name != "braceright"@,
        name != "dead_diaeresis"@,
        name != "dead_acute"@,
        name != "less"@,
        name != "greater"@,
        name != "comma"@,
        name != "period"@,
        name != "BackSpace"@,
        name != "Insert"@,
        name != "Return"@,
        name != "Escape"@,
        name != "Delete"@,
        name != "Page_Up"@,
        name != "Page_Down"@,
        name != "Enter"@,
        name != "ISO_Left_Tab"@,
        name != "Tab"@,
        name != "Up"@,
        name != "Down"@,
        name != "Left"@,
        name != "Right"@,
        name != "Home"@,
        name != "End"@,
        name != "F1"@,
        name != "F2"@,
        name != "F3"@,
        name != "F4"@,
        name != "F5"@,
        name != "F6"@,
        name != "F7"@,
        name != "F8"@,
        name != "F9"@,
        name != "F10"@,
        name != "F11"@,
        name != "F12"@,
    ensures
        nvim_key(name) is None,
{
}

/// A key is written between `<` and `>`, behind `S-` where the lowest bit of the
/// state is set, `C-` where the third is and `A-` where the fourth is, in this
/// order. A key with a name of more than one character goes by the name that
/// Neovim has for it, whatever it types, and any other by what it types. No other
/// key is written, and none without a name.
pub proof fn law_key_is_written_out(name: Seq<char>, state: u32, typed: Option<char>)
    ensures
        ({
            let shift = if state & 1u32 == 1u32 {
                "S-"@
            } else {
                Seq::<char>::empty()
            };
            let control = if state & 4u32 == 4u32 {
                "C-"@
            } else {
                Seq::<char>::empty()
            };
            let alt = if state & 8u32 == 8u32 {
                "A-"@
            } else {
                Seq::<char>::empty()
            };
            let written = key_input(Some(name), state, typed);
            &&& name.len() > 1 ==> match nvim_key(name) {
                Some(key) => written == Some("<"@ + shift + control + alt + key + ">"@),
                None => written is None,
            }
            &&& name.len() <= 1 ==> match typed {
                Some(c) => written == Some("<"@ + shift + control + alt + seq![c] + ">"@),
                None => written is None,
            }
            &&& key_input(None, state, typed) is None
        }),
{
    let shift = if state & 1u32 == 1u32 {
        "S-"@
    } else {
        Seq::<char>::empty()
    };
    let control = if state & 4u32 == 4u32 {
        "C-"@
    } else {
        Seq::<char>::empty()
    };
    let alt = if state & 8u32 == 8u32 {
        "A-"@
    } else {
        Seq::<char>::empty()
    };
    assert("<"@ + modifiers(state) =~= "<"@ + shift + control + alt);
}

/// What a key is called, and what Neovim is sent, is the text itself.
pub proof fn law_texts_are_themselves(
    text: Option<&str>,
    sent: Option<String>,
    meant: Option<Seq<char>>,
)
    ensures
        match text {
            Some(text) => view_of(Some(text)) == Some(text@),
            None => view_of(None) is None,
        },
        is_text(sent, meant) <==> match (sent, meant) {
            (Some(sent), Some(meant)) => sent@ == meant,
            (None, None) => true,
            _ => false,
        },
{
}

/// Typed text is sent character by character: `<` as `<lt>`, and every other
/// character as it is.
pub proof fn law_escape_goes_by_character(text: Seq<char>, c: char)
    ensures
        escaped(Seq::<char>::empty()).len() == 0,
        c == '<' ==> escaped(text.push(c)) == escaped(text) + "<lt>"@,
        c != '<' ==> escaped(text.push(c)) == escaped(text).push(c),
{
    assert(text.push(c).drop_last() =~= text);
    assert(text.push(c).last() == c);
}

/// Neovim is told the name of the button and what happens to it, and of the wheel
/// which way it turns.
pub proof fn law_mouse_is_told_in_words(name: String)
    ensures
        mouse_words(MouseEvent::Press(name)).0 == name@,
        mouse_words(MouseEvent::Press(name)).1 == "press"@,
        mouse_words(MouseEvent::Release(name)).0 == name@,
        mouse_words(MouseEvent::Release(name)).1 == "release"@,
        mouse_words(MouseEvent::Drag(name)).0 == name@,
        mouse_words(MouseEvent::Drag(name)).1 == "drag"@,
        mouse_words(MouseEvent::Scroll(name)).0 == "wheel"@,
        mouse_words(MouseEvent::Scroll(name)).1 == name@,
{
}

} // verus!
