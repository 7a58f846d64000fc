//! The key binding that opens the overlay editor.

use vstd::prelude::*;

use crate::text::{ascii_upper, spec_trim, trim, upper_eq, upper_matches};

verus! {

/// Windows virtual-key codes of the named keys a binding may use.
pub const VK_TAB: i32 = 0x09;
pub const VK_RETURN: i32 = 0x0D;
pub const VK_SPACE: i32 = 0x20;
pub const VK_PRIOR: i32 = 0x21;
pub const VK_NEXT: i32 = 0x22;
pub const VK_END: i32 = 0x23;
pub const VK_HOME: i32 = 0x24;
pub const VK_LEFT: i32 = 0x25;
pub const VK_UP: i32 = 0x26;
pub const VK_RIGHT: i32 = 0x27;
pub const VK_DOWN: i32 = 0x28;
pub const VK_INSERT: i32 = 0x2D;
pub const VK_DELETE: i32 = 0x2E;
pub const VK_F1: i32 = 0x70;

/// The virtual key of a named binding (already trimmed), if it names one.
pub open spec fn named_key(t: Seq<char>) -> Option<i32> {
    if upper_matches(t, "INSERT"@) || upper_matches(t, "INS"@) {
        Some(VK_INSERT)
    } else if upper_matches(t, "HOME"@) {
        Some(VK_HOME)
    } else if upper_matches(t, "DELETE"@) || upper_matches(t, "DEL"@) {
        Some(VK_DELETE)
    } else if upper_matches(t, "END"@) {
        Some(VK_END)
    } else if upper_matches(t, "PAGEUP"@) || upper_matches(t, "PAGE UP"@) || upper_matches(t, "PGUP"@) {
        Some(VK_PRIOR)
    } else if upper_matches(t, "PAGEDOWN"@) || upper_matches(t, "PAGE DOWN"@) || upper_matches(
        t,
        "PGDN"@,
    ) {
        Some(VK_NEXT)
    } else if upper_matches(t, "TAB"@) {
        Some(VK_TAB)
    } else if upper_matches(t, "SPACE"@) {
        Some(VK_SPACE)
    } else if upper_matches(t, "ENTER"@) || upper_matches(t, "RETURN"@) {
        Some(VK_RETURN)
    } else if upper_matches(t, "LEFT"@) {
        Some(VK_LEFT)
    } else if upper_matches(t, "RIGHT"@) {
        Some(VK_RIGHT)
    } else if upper_matches(t, "UP"@) {
        Some(VK_UP)
    } else if upper_matches(t, "DOWN"@) {
        Some(VK_DOWN)
    } else if upper_matches(t, "F1"@) {
        Some(VK_F1)
    } else if upper_matches(t, "F2"@) {
        Some((0x70 + 1) as i32)
    } else if upper_matches(t, "F3"@) {
        Some((0x70 + 2) as i32)
    } else if upper_matches(t, "F4"@) {
        Some((0x70 + 3) as i32)
    } else if upper_matches(t, "F5"@) {
        Some((0x70 + 4) as i32)
    } else if upper_matches(t, "F6"@) {
        Some((0x70 + 5) as i32)
    } else if upper_matches(t, "F7"@) {
        Some((0x70 + 6) as i32)
    } else if upper_matches(t, "F8"@) {
        Some((0x70 + 7) as i32)
    } else if upper_matches(t, "F9"@) {
        Some((0x70 + 8) as i32)
    } else if upper_matches(t, "F10"@) {
        Some((0x70 + 9) as i32)
    } else if upper_matches(t, "F11"@) {
        Some((0x70 + 10) as i32)
    } else if upper_matches(t, "F12"@) {
        Some((0x70 + 11) as i32)
    } else {
        None
    }
}

/// A single ASCII digit or letter (in either case) binds the key of that
/// character, named by its uppercase code.
pub open spec fn single_char_key(t: Seq<char>) -> Option<i32> {
    if t.len() == 1 && (t[0] as u32) < 128 {
        let c = ascii_upper(t[0]);
        if ('0' <= c && c <= '9') || ('A' <= c && c <= 'Z') {
            Some(c as i32)
        } else {
            None
        }
    } else {
        None
    }
}

/// The virtual key a binding names, case-insensitively and ignoring
/// surrounding whitespace.
pub open spec fn spec_virtual_key(binding: Seq<char>) -> Option<i32> {
    let t = spec_trim(binding);
    match named_key(t) {
        Some(k) => Some(k),
        None => single_char_key(t),
    }
}

fn named_key_of(t: &str) -> (r: Option<i32>)
    ensures
        r == named_key(t@),
{
    if upper_eq(t, "INSERT") || upper_eq(t, "INS") {
        Some(VK_INSERT)
    } else if upper_eq(t, "HOME") {
        Some(VK_HOME)
    } else if upper_eq(t, "DELETE") || upper_eq(t, "DEL") {
        Some(VK_DELETE)
    } else if upper_eq(t, "END") {
        Some(VK_END)
    } else if upper_eq(t, "PAGEUP") || upper_eq(t, "PAGE UP") || upper_eq(t, "PGUP") {
        Some(VK_PRIOR)
    } else if upper_eq(t, "PAGEDOWN") || upper_eq(t, "PAGE DOWN") || upper_eq(t, "PGDN") {
        Some(VK_NEXT)
    } else if upper_eq(t, "TAB") {
        Some(VK_TAB)
    } else if upper_eq(t, "SPACE") {
        Some(VK_SPACE)
    } else if upper_eq(t, "ENTER") || upper_eq(t, "RETURN") {
        Some(VK_RETURN)
    } else if upper_eq(t, "LEFT") {
        Some(VK_LEFT)
    } else if upper_eq(t, "RIGHT") {
        Some(VK_RIGHT)
    } else if upper_eq(t, "UP") {
        Some(VK_UP)
    } else if upper_eq(t, "DOWN") {
        Some(VK_DOWN)
    } else if upper_eq(t, "F1") {
        Some(VK_F1)
    } else if upper_eq(t, "F2") {
        Some(VK_F1 + 1)
    } else if upper_eq(t, "F3") {
        Some(VK_F1 + 2)
    } else if upper_eq(t, "F4") {
        Some(VK_F1 + 3)
    } else if upper_eq(t, "F5") {
        Some(VK_F1 + 4)
    } else if upper_eq(t, "F6") {
        Some(VK_F1 + 5)
    } else if upper_eq(t, "F7") {
        Some(VK_F1 + 6)
    } else if upper_eq(t, "F8") {
        Some(VK_F1 + 7)
    } else if upper_eq(t, "F9") {
        Some(VK_F1 + 8)
    } else if upper_eq(t, "F10") {
        Some(VK_F1 + 9)
    } else if upper_eq(t, "F11") {
        Some(VK_F1 + 10)
    } else if upper_eq(t, "F12") {
        Some(VK_F1 + 11)
    } else {
        None
    }
}

/// The virtual key of the editor's toggle binding, if the binding is known.
pub fn virtual_key_from_binding(binding: &str) -> (r: Option<i32>)
    ensures
        r == spec_virtual_key(binding@),
{
    let t = trim(binding);
    if let Some(k) = named_key_of(t) {
        return Some(k);
    }
    if t.unicode_len() == 1 {
        let c0 = t.get_char(0);
        if (c0 as u32) < 128 {
            let c = if 'a' <= c0 && c0 <= 'z' {
                ((c0 as u32 - 32) as u8) as char
            } else {
                c0
            };
            if ('0' <= c && c <= '9') || ('A' <= c && c <= 'Z') {
                return Some(c as i32);
            }
        }
    }
    None
}

/// Whether a poll of the toggle key is a fresh press, and the key state to
/// remember for the next poll.
pub fn key_press_edge(was_down: bool, is_down: bool) -> (r: (bool, bool))
    ensures
        r == (is_down && !was_down, is_down),
{
    (is_down && !was_down, is_down)
}

} // verus!

verus! {

/// Whether the trimmed binding `t` spells `name` (given in capitals) in
/// any ASCII case.
pub open spec fn spells(t: Seq<char>, name: Seq<char>) -> bool {
    t.len() == name.len() && forall|i: int| 0 <= i < t.len() ==> ascii_upper(t[i]) == name[i]
}

/// `t` with its ASCII letters in capitals.
pub open spec fn capitals(t: Seq<char>) -> Seq<char> {
    t.map_values(|c: char| ascii_upper(c))
}

proof fn lemma_spells_is_capitals(t: Seq<char>)
    ensures
        forall|name: Seq<char>| #[trigger] upper_matches(t, name) == (capitals(t) == name),
        forall|name: Seq<char>| #[trigger] spells(t, name) == (capitals(t) == name),
{
    assert forall|name: Seq<char>| #[trigger] upper_matches(t, name) == (capitals(t) == name) by {
        if upper_matches(t, name) {
            assert(capitals(t) =~= name);
        }
    }
    assert forall|name: Seq<char>| #[trigger] spells(t, name) == (capitals(t) == name) by {
        if spells(t, name) {
            assert(capitals(t) =~= name);
        }
    }
}


/// Every named key of a binding maps to its Windows virtual-key code, in any
/// ASCII case and with surrounding whitespace ignored.
pub proof fn lemma_named_keys(binding: Seq<char>)
    ensures
        ({
            let t = spec_trim(binding);
            let k = spec_virtual_key(binding);
            &&& (spells(t, "INSERT"@) || spells(t, "INS"@)) ==> k == Some(0x2Di32)
            &&& spells(t, "HOME"@) ==> k == Some(0x24i32)
            &&& (spells(t, "DELETE"@) || spells(t, "DEL"@)) ==> k == Some(0x2Ei32)
            &&& spells(t, "END"@) ==> k == Some(0x23i32)
            &&& (spells(t, "PAGEUP"@) || spells(t, "PAGE UP"@) || spells(t, "PGUP"@)) ==> k == Some(
                0x21i32,
            )
            &&& (spells(t, "PAGEDOWN"@) || spells(t, "PAGE DOWN"@) || spells(t, "PGDN"@)) ==> k
                == Some(0x22i32)
            &&& spells(t, "TAB"@) ==> k == Some(0x09i32)
            &&& spells(t, "SPACE"@) ==> k == Some(0x20i32)
            &&& (spells(t, "ENTER"@) || spells(t, "RETURN"@)) ==> k == Some(0x0Di32)
            &&& spells(t, "LEFT"@) ==> k == Some(0x25i32)
            &&& spells(t, "RIGHT"@) ==> k == Some(0x27i32)
            &&& spells(t, "UP"@) ==> k == Some(0x26i32)
            &&& spells(t, "DOWN"@) ==> k == Some(0x28i32)
            &&& spells(t, "F1"@) ==> k == Some(0x70i32)
            &&& spells(t, "F2"@) ==> k == Some(0x71i32)
            &&& spells(t, "F3"@) ==> k == Some(0x72i32)
            &&& spells(t, "F4"@) ==> k == Some(0x73i32)
            &&& spells(t, "F5"@) ==> k == Some(0x74i32)
            &&& spells(t, "F6"@) ==> k == Some(0x75i32)
            &&& spells(t, "F7"@) ==> k == Some(0x76i32)
            &&& spells(t, "F8"@) ==> k == Some(0x77i32)
            &&& spells(t, "F9"@) ==> k == Some(0x78i32)
            &&& spells(t, "F10"@) ==> k == Some(0x79i32)
            &&& spells(t, "F11"@) ==> k == Some(0x7Ai32)
            &&& spells(t, "F12"@) ==> k == Some(0x7Bi32)
        }),
{
    let t = spec_trim(binding);
    lemma_spells_is_capitals(t);
    reveal_strlit("INSERT");
    reveal_strlit("INS");
    reveal_strlit("HOME");
    reveal_strlit("DELETE");
    reveal_strlit("DEL");
    reveal_strlit("END");
    reveal_strlit("PAGEUP");
    reveal_strlit("PAGE UP");
    reveal_strlit("PGUP");
    reveal_strlit("PAGEDOWN");
    reveal_strlit("PAGE DOWN");
    reveal_strlit("PGDN");
    reveal_strlit("TAB");
    reveal_strlit("SPACE");
    reveal_strlit("ENTER");
    reveal_strlit("RETURN");
    reveal_strlit("LEFT");
    reveal_strlit("RIGHT");
    reveal_strlit("UP");
    reveal_strlit("DOWN");
    reveal_strlit("F1");
    reveal_strlit("F2");
    reveal_strlit("F3");
    reveal_strlit("F4");
    reveal_strlit("F5");
    reveal_strlit("F6");
    reveal_strlit("F7");
    reveal_strlit("F8");
    reveal_strlit("F9");
    reveal_strlit("F10");
    reveal_strlit("F11");
    reveal_strlit("F12");
    assert("INSERT"@[0] == 'I');
    assert("INS"@[0] == 'I');
    assert("HOME"@[0] == 'H');
    assert("DELETE"@[0] == 'D');
    assert("DEL"@[0] == 'D');
    assert("END"@[0] == 'E');
    assert("PAGEUP"@[0] == 'P');
    assert("PAGE UP"@[0] == 'P');
    assert("PGUP"@[0] == 'P');
    assert("PGUP"@[2] == 'U');
    assert("PAGEDOWN"@[0] == 'P');
    assert("PAGE DOWN"@[0] == 'P');
    assert("PGDN"@[0] == 'P');
    assert("PGDN"@[2] == 'D');
    assert("TAB"@[0] == 'T');
    assert("SPACE"@[0] == 'S');
    assert("ENTER"@[0] == 'E');
    assert("RETURN"@[0] == 'R');
    assert("LEFT"@[0] == 'L');
    assert("RIGHT"@[0] == 'R');
    assert("UP"@[0] == 'U');
    assert("DOWN"@[0] == 'D');
    assert("F1"@[0] == 'F');
    assert("F1"@[1] == '1');
    assert("F2"@[0] == 'F');
    assert("F2"@[1] == '2');
    assert("F3"@[0] == 'F');
    assert("F3"@[1] == '3');
    assert("F4"@[0] == 'F');
    assert("F4"@[1] == '4');
    assert("F5"@[0] == 'F');
    assert("F5"@[1] == '5');
    assert("F6"@[0] == 'F');
    assert("F6"@[1] == '6');
    assert("F7"@[0] == 'F');
    assert("F7"@[1] == '7');
    assert("F8"@[0] == 'F');
    assert("F8"@[1] == '8');
    assert("F9"@[0] == 'F');
    assert("F9"@[1] == '9');
    assert("F10"@[0] == 'F');
    assert("F10"@[1] == '1');
    assert("F10"@[2] == '0');
    assert("F11"@[0] == 'F');
    assert("F11"@[1] == '1');
    assert("F11"@[2] == '1');
    assert("F12"@[0] == 'F');
    assert("F12"@[1] == '1');
    assert("F12"@[2] == '2');
}

/// A binding of one ASCII letter or digit (in either case) names the key of
/// that character, by its uppercase code.
pub proof fn lemma_single_character_keys(binding: Seq<char>)
    ensures
        ({
            let t = spec_trim(binding);
            t.len() == 1 && (('0' <= t[0] && t[0] <= '9') || ('A' <= t[0] && t[0] <= 'Z'))
                ==> spec_virtual_key(binding) == Some(t[0] as i32)
        }),
        ({
            let t = spec_trim(binding);
            t.len() == 1 && 'a' <= t[0] && t[0] <= 'z' ==> spec_virtual_key(binding) == Some(
                ((t[0] as int) - 32) as i32,
            )
        }),
{
    let t = spec_trim(binding);
    lemma_spells_is_capitals(t);
    reveal_strlit("INSERT");
    reveal_strlit("INS");
    reveal_strlit("HOME");
    reveal_strlit("DELETE");
    reveal_strlit("DEL");
    reveal_strlit("END");
    reveal_strlit("PAGEUP");
    reveal_strlit("PAGE UP");
    reveal_strlit("PGUP");
    reveal_strlit("PAGEDOWN");
    reveal_strlit("PAGE DOWN");
    reveal_strlit("PGDN");
    reveal_strlit("TAB");
    reveal_strlit("SPACE");
    reveal_strlit("ENTER");
    reveal_strlit("RETURN");
    reveal_strlit("LEFT");
    reveal_strlit("RIGHT");
    reveal_strlit("UP");
    reveal_strlit("DOWN");
    reveal_strlit("F1");
    reveal_strlit("F2");
    reveal_strlit("F3");
    reveal_strlit("F4");
    reveal_strlit("F5");
    reveal_strlit("F6");
    reveal_strlit("F7");
    reveal_strlit("F8");
    reveal_strlit("F9");
    reveal_strlit("F10");
    reveal_strlit("F11");
    reveal_strlit("F12");
}

} // verus!
