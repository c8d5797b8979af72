//! Synthetic keystrokes: the copy and paste chords, and when the user's own
//! hotkey modifiers count as released.

use vstd::prelude::*;
use crate::platform::Platform;

verus! {

/// The global hotkey that starts a round trip.
pub const DEFAULT_HOTKEY: &'static str = "CommandOrControl+Alt+E";

/// How long to wait for the hotkey's modifiers to be released, at most (ms).
pub const KEY_RELEASE_MAX_WAIT_MS: u64 = 1500;

/// How often the modifiers are polled while waiting (ms).
pub const KEY_RELEASE_POLL_MS: u64 = 20;

/// The fixed wait for the modifiers where they cannot be polled (ms).
pub const KEY_RELEASE_SETTLE_MS: u64 = 250;

/// A key of a synthetic chord.
#[derive(Clone, Copy, Debug, PartialEq, Eq, Structural)]
pub enum Key {
    /// The Control key.
    Control,
    /// The Command (Meta) key.
    Meta,
    /// A letter key. On Windows it is the virtual-key code of the upper-case
    /// letter; elsewhere the character typed.
    Letter(char),
}

/// Whether a key goes down or comes up.
#[derive(Clone, Copy, Debug, PartialEq, Eq, Structural)]
pub enum Direction {
    Press,
    Release,
}

/// One synthetic key event.
#[derive(Clone, Copy, Debug, PartialEq, Eq, Structural)]
pub struct KeyEvent {
    pub key: Key,
    pub direction: Direction,
}

/// The modifier of the copy and paste shortcuts on `platform`.
pub open spec fn shortcut_modifier(platform: Platform) -> Key {
    if platform == Platform::MacOs {
        Key::Meta
    } else {
        Key::Control
    }
}

/// The key for `letter` (a lower-case ASCII letter) on `platform`.
pub open spec fn letter_key(platform: Platform, letter: char) -> Key {
    if platform == Platform::Windows {
        Key::Letter(((letter as u32) - 32) as char)
    } else {
        Key::Letter(letter)
    }
}

/// The modifier held around one stroke of `letter`: modifier down, letter down,
/// letter up, modifier up.
pub open spec fn chord(modifier: Key, letter: Key) -> Seq<KeyEvent> {
    seq![
        KeyEvent { key: modifier, direction: Direction::Press },
        KeyEvent { key: letter, direction: Direction::Press },
        KeyEvent { key: letter, direction: Direction::Release },
        KeyEvent { key: modifier, direction: Direction::Release },
    ]
}

/// The keystrokes of the copy shortcut on `platform`.
pub open spec fn copy_chord(platform: Platform) -> Seq<KeyEvent> {
    chord(shortcut_modifier(platform), letter_key(platform, 'c'))
}

/// The keystrokes of the paste shortcut on `platform`.
pub open spec fn paste_chord(platform: Platform) -> Seq<KeyEvent> {
    chord(shortcut_modifier(platform), letter_key(platform, 'v'))
}

fn chord_events(modifier: Key, letter: Key) -> (r: Vec<KeyEvent>)
    ensures
        r@ == chord(modifier, letter),
{
    let mut r = Vec::new();
    r.push(KeyEvent { key: modifier, direction: Direction::Press });
    r.push(KeyEvent { key: letter, direction: Direction::Press });
    r.push(KeyEvent { key: letter, direction: Direction::Release });
    r.push(KeyEvent { key: modifier, direction: Direction::Release });
    assert(r@ =~= chord(modifier, letter));
    r
}

fn modifier_for(platform: Platform) -> (k: Key)
    ensures
        k == shortcut_modifier(platform),
{
    match platform {
        Platform::MacOs => Key::Meta,
        _ => Key::Control,
    }
}

/// The keystrokes that issue a copy (Ctrl+C, Cmd+C on macOS) on `platform`,
/// in the order they are to be sent.
pub fn send_copy(platform: Platform) -> (r: Vec<KeyEvent>)
    ensures
        r@ == copy_chord(platform),
{
    let letter = match platform {
        Platform::Windows => Key::Letter('C'),
        _ => Key::Letter('c'),
    };
    chord_events(modifier_for(platform), letter)
}

/// The keystrokes that issue a paste (Ctrl+V, Cmd+V on macOS) on `platform`,
/// in the order they are to be sent.
pub fn send_paste(platform: Platform) -> (r: Vec<KeyEvent>)
    ensures
        r@ == paste_chord(platform),
{
    let letter = match platform {
        Platform::Windows => Key::Letter('V'),
        _ => Key::Letter('v'),
    };
    chord_events(modifier_for(platform), letter)
}

/// Whether the operating system took every synthetic event it was handed.
pub fn delivered_all(sent: u32, expected: usize) -> (b: bool)
    ensures
        b == (sent == expected),
{
    sent as usize == expected
}

/// Whether the wait for the hotkey's modifiers is over: they are up, or the
/// wait has lasted its limit and the capture proceeds anyway.
pub open spec fn modifiers_settled_spec(held: bool, elapsed_ms: u64) -> bool {
    !held || elapsed_ms >= KEY_RELEASE_MAX_WAIT_MS
}

/// Whether the wait for the hotkey's modifiers is over, given whether Ctrl or
/// Alt is still held and how long the wait has lasted.
pub fn modifiers_settled(held: bool, elapsed_ms: u64) -> (b: bool)
    ensures
        b == modifiers_settled_spec(held, elapsed_ms),
{
    !held || elapsed_ms >= KEY_RELEASE_MAX_WAIT_MS
}

/// The four events of holding `modifier` around one stroke of `letter`,
/// written out: modifier down, letter down, letter up, modifier up.
pub open spec fn stroke(modifier: Key, letter: char) -> Seq<KeyEvent> {
    seq![
        KeyEvent { key: modifier, direction: Direction::Press },
        KeyEvent { key: Key::Letter(letter), direction: Direction::Press },
        KeyEvent { key: Key::Letter(letter), direction: Direction::Release },
        KeyEvent { key: modifier, direction: Direction::Release },
    ]
}

/// The copy and paste shortcuts on each platform: Cmd+C and Cmd+V on macOS;
/// Ctrl with the virtual keys `C` and `V` on Windows; Ctrl+c and Ctrl+v on Linux.
pub proof fn law_shortcut_chords()
    ensures
        copy_chord(Platform::MacOs) == stroke(Key::Meta, 'c'),
        paste_chord(Platform::MacOs) == stroke(Key::Meta, 'v'),
        copy_chord(Platform::Windows) == stroke(Key::Control, 'C'),
        paste_chord(Platform::Windows) == stroke(Key::Control, 'V'),
        copy_chord(Platform::Linux) == stroke(Key::Control, 'c'),
        paste_chord(Platform::Linux) == stroke(Key::Control, 'v'),
{
    assert(copy_chord(Platform::MacOs) =~= stroke(Key::Meta, 'c'));
    assert(paste_chord(Platform::MacOs) =~= stroke(Key::Meta, 'v'));
    assert(copy_chord(Platform::Windows) =~= stroke(Key::Control, 'C'));
    assert(paste_chord(Platform::Windows) =~= stroke(Key::Control, 'V'));
    assert(copy_chord(Platform::Linux) =~= stroke(Key::Control, 'c'));
    assert(paste_chord(Platform::Linux) =~= stroke(Key::Control, 'v'));
}

/// The paste shortcut of a platform, written out per platform.
pub open spec fn platform_paste(platform: Platform) -> Seq<KeyEvent> {
    match platform {
        Platform::MacOs => stroke(Key::Meta, 'v'),
        Platform::Windows => stroke(Key::Control, 'V'),
        Platform::Linux => stroke(Key::Control, 'v'),
    }
}

/// The copy shortcut of a platform, written out per platform.
pub open spec fn platform_copy(platform: Platform) -> Seq<KeyEvent> {
    match platform {
        Platform::MacOs => stroke(Key::Meta, 'c'),
        Platform::Windows => stroke(Key::Control, 'C'),
        Platform::Linux => stroke(Key::Control, 'c'),
    }
}

/// Copy and paste on the same platform hold the same modifier and differ only
/// in the letter.
pub proof fn law_copy_and_paste_agree(platform: Platform)
    ensures
        copy_chord(platform) == platform_copy(platform),
        paste_chord(platform) == platform_paste(platform),
        copy_chord(platform)[0] == paste_chord(platform)[0],
        copy_chord(platform)[3] == paste_chord(platform)[3],
{
    law_shortcut_chords();
}

} // verus!
