use crate::error::ViewError;
use crate::util::{parse_hex_byte, spec_parse_hex_byte};
use crate::widget::Direction;
use vstd::prelude::*;

verus! {

/// What the terminal delivered for one press of a key.
#[derive(Clone, Copy, Debug, PartialEq, Eq, Structural)]
pub enum Key {
    /// A character, control characters included.
    Character(char),
    Backspace,
    Left,
    Right,
    Up,
    Down,
    Home,
    End,
    /// The terminal has changed its size.
    Resize,
    /// Any other key, or none.
    Other,
}

/// The escape character, which cancels an entry.
pub const ESC: char = '\u{1b}';

/// The line feed character, which ends a command.
pub const ENTER: char = '\n';

/// What a key asks of the editor in normal mode.
#[derive(Clone, Copy, Debug, PartialEq, Eq, Structural)]
pub enum Command {
    Quit,
    /// Move the cursor one step.
    Move(Direction),
    /// Jump to an offset.
    Seek(i64),
    /// Scroll by one row.
    Scroll(Direction),
    SwitchPane,
    SwitchView,
    /// Replace the byte under the cursor.
    Replace,
    /// Replace bytes until escape.
    ReplaceMany,
    /// Take the terminal's new size.
    Resize,
    Nothing,
}

/// The command bound to each key. The letters h, j, k, l move the cursor as
/// the arrow keys do; g and G jump to the start and to the last byte as Home
/// and End do; u and d scroll; tab switches the pane and t the view; r and R
/// replace one byte and many; q quits.
pub open spec fn spec_command_for(key: Key) -> Command {
    match key {
        Key::Character(c) => if c == 'q' {
            Command::Quit
        } else if c == 'h' {
            Command::Move(Direction::Left)
        } else if c == 'j' {
            Command::Move(Direction::Down)
        } else if c == 'k' {
            Command::Move(Direction::Up)
        } else if c == 'l' {
            Command::Move(Direction::Right)
        } else if c == 'g' {
            Command::Seek(0)
        } else if c == 'G' {
            Command::Seek(-1i64)
        } else if c == 'u' {
            Command::Scroll(Direction::Up)
        } else if c == 'd' {
            Command::Scroll(Direction::Down)
        } else if c == '\t' {
            Command::SwitchPane
        } else if c == 't' {
            Command::SwitchView
        } else if c == 'r' {
            Command::Replace
        } else if c == 'R' {
            Command::ReplaceMany
        } else {
            Command::Nothing
        },
        Key::Right => Command::Move(Direction::Right),
        Key::Left => Command::Move(Direction::Left),
        Key::Up => Command::Move(Direction::Up),
        Key::Down => Command::Move(Direction::Down),
        Key::Home => Command::Seek(0),
        Key::End => Command::Seek(-1i64),
        Key::Resize => Command::Resize,
        Key::Backspace => Command::Nothing,
        Key::Other => Command::Nothing,
    }
}

/// Returns the command bound to `key`.
pub fn command_for(key: Key) -> (command: Command)
    ensures
        command == spec_command_for(key),
{
    match key {
        Key::Character(c) => {
            if c == 'q' {
                Command::Quit
            } else if c == 'h' {
                Command::Move(Direction::Left)
            } else if c == 'j' {
                Command::Move(Direction::Down)
            } else if c == 'k' {
                Command::Move(Direction::Up)
            } else if c == 'l' {
                Command::Move(Direction::Right)
            } else if c == 'g' {
                Command::Seek(0)
            } else if c == 'G' {
                Command::Seek(-1)
            } else if c == 'u' {
                Command::Scroll(Direction::Up)
            } else if c == 'd' {
                Command::Scroll(Direction::Down)
            } else if c == '\t' {
                Command::SwitchPane
            } else if c == 't' {
                Command::SwitchView
            } else if c == 'r' {
                Command::Replace
            } else if c == 'R' {
                Command::ReplaceMany
            } else {
                Command::Nothing
            }
        },
        Key::Right => Command::Move(Direction::Right),
        Key::Left => Command::Move(Direction::Left),
        Key::Up => Command::Move(Direction::Up),
        Key::Down => Command::Move(Direction::Down),
        Key::Home => Command::Seek(0),
        Key::End => Command::Seek(-1),
        Key::Resize => Command::Resize,
        _ => Command::Nothing,
    }
}

/// Where the entry of a byte stands after the keys pressed so far.
#[derive(Clone, Copy, Debug, PartialEq, Eq, Structural)]
pub enum ByteEntry {
    /// Another key is to be read.
    NeedKey,
    /// The entry was cancelled.
    Cancelled,
    /// The byte that was entered.
    Byte(u8),
}

/// Whether `key` is the escape character.
pub open spec fn is_escape(key: Key) -> bool {
    key == Key::Character(ESC)
}

/// The character that `key` adds to an entry: its own, where it has one.
pub open spec fn key_text(key: Key) -> Seq<char> {
    match key {
        Key::Character(c) => seq![c],
        _ => Seq::<char>::empty(),
    }
}

/// The entry of one byte, from the keys pressed so far. Two keys make an
/// entry, and escape as one of them cancels it. Of the two keys those that
/// are characters are the text of the entry, which must be two hex digits.
/// Keys after the second are not looked at.
pub open spec fn spec_byte_entry(keys: Seq<Key>) -> Result<ByteEntry, ViewError> {
    if keys.len() >= 1 && is_escape(keys[0]) {
        Ok(ByteEntry::Cancelled)
    } else if keys.len() >= 2 && is_escape(keys[1]) {
        Ok(ByteEntry::Cancelled)
    } else if keys.len() < 2 {
        Ok(ByteEntry::NeedKey)
    } else {
        match spec_parse_hex_byte(key_text(keys[0]) + key_text(keys[1])) {
            Ok(byte) => Ok(ByteEntry::Byte(byte)),
            Err(e) => Err(e),
        }
    }
}

/// Tells from the keys pressed so far where the entry of a byte stands, or
/// that what was entered is no byte.
pub fn byte_entry(keys: &Vec<Key>) -> (r: Result<ByteEntry, ViewError>)
    ensures
        r == spec_byte_entry(keys@),
{
    let mut input: Vec<char> = Vec::new();

    // Listen for 2 characters.
    let mut i: usize = 0;
    while i < 2
        invariant
            i <= 2,
            i <= keys@.len(),
            forall|j: int| 0 <= j < i ==> !is_escape(#[trigger] keys@[j]),
            input@ == if i == 0 {
                Seq::<char>::empty()
            } else if i == 1 {
                key_text(keys@[0])
            } else {
                key_text(keys@[0]) + key_text(keys@[1])
            },
        decreases 2 - i,
    {
        if i >= keys.len() {
            return Ok(ByteEntry::NeedKey);
        }
        match keys[i] {
            Key::Character(c) => {
                if c == ESC {
                    return Ok(ByteEntry::Cancelled);
                } else {
                    input.push(c);
                }
            },
            _ => (),
        }
        i += 1;
    }

    match parse_hex_byte(&input) {
        Err(e) => Err(e),
        Ok(byte) => Ok(ByteEntry::Byte(byte)),
    }
}

/// Where the entry of a command stands after the keys pressed so far.
pub enum PromptStep {
    /// Another key is to be read; the text is what was entered so far.
    NeedKey(String),
    /// The entry has ended, with a command or without one.
    Done(Option<String>),
}

/// The entry of a command from the keys `keys[from..]`, with `command`
/// entered before them: the text entered, and whether the entry has ended.
/// A character is added to the text and backspace takes the last one away.
/// Enter ends the entry; so does escape, which also discards the text, and
/// backspace where there is no text.
pub open spec fn spec_prompt_scan(keys: Seq<Key>, from: int, command: Seq<char>) -> (
    Seq<char>,
    bool,
)
    decreases keys.len() - from,
{
    if from < 0 || from >= keys.len() {
        (command, false)
    } else {
        match keys[from] {
            Key::Character(c) => if c == ENTER {
                (command, true)
            } else if c == ESC {
                (Seq::<char>::empty(), true)
            } else {
                spec_prompt_scan(keys, from + 1, command.push(c))
            },
            Key::Backspace => if command.len() < 1 {
                (command, true)
            } else {
                spec_prompt_scan(keys, from + 1, command.drop_last())
            },
            _ => spec_prompt_scan(keys, from + 1, command),
        }
    }
}

/// The entry of a command from all of `keys`: the text entered, and whether
/// the entry has ended.
pub open spec fn spec_prompt(keys: Seq<Key>) -> (Seq<char>, bool) {
    spec_prompt_scan(keys, 0, Seq::<char>::empty())
}

/// Whether `step` is where the entry of a command stands after `keys`. An
/// entry that has ended without text gives no command.
pub open spec fn spec_prompted(keys: Seq<Key>, step: PromptStep) -> bool {
    match step {
        PromptStep::NeedKey(text) => spec_prompt(keys) == (text@, false),
        PromptStep::Done(Some(text)) => spec_prompt(keys) == (text@, true) && text@.len() > 0,
        PromptStep::Done(None) => spec_prompt(keys) == (Seq::<char>::empty(), true),
    }
}

/// `String::push` adds one character at the end of the string.
pub assume_specification[ String::push ](text: &mut String, ch: char)
    ensures
        final(text)@ == old(text)@.push(ch),
;

/// Returns the string made of `chars`.
fn string_from_chars(chars: &Vec<char>) -> (text: String)
    ensures
        text@ == chars@,
{
    let mut text = String::new();
    let mut i: usize = 0;
    while i < chars.len()
        invariant
            i <= chars@.len(),
            text@ == chars@.take(i as int),
        decreases chars@.len() - i,
    {
        text.push(chars[i]);
        assert(chars@.take(i as int).push(chars@[i as int]) =~= chars@.take(i + 1));
        i += 1;
    }
    assert(chars@.take(chars@.len() as int) =~= chars@);
    text
}

/// Tells from the keys pressed so far what command has been entered and
/// whether the entry has ended.
pub fn command_entry(keys: &Vec<Key>) -> (r: PromptStep)
    ensures
        spec_prompted(keys@, r),
{
    let mut command: Vec<char> = Vec::new();
    let mut done: bool = false;
    let mut i: usize = 0;
    while i < keys.len() && !done
        invariant
            i <= keys@.len(),
            !done ==> spec_prompt(keys@) == spec_prompt_scan(keys@, i as int, command@),
            done ==> spec_prompt(keys@) == (command@, true),
        decreases keys@.len() - i,
    {
        match keys[i] {
            Key::Character(c) => {
                if c == ENTER {
                    done = true;
                } else if c == ESC {
                    command.clear();
                    done = true;
                } else {
                    command.push(c);
                }
            },
            Key::Backspace => {
                if command.len() < 1 {
                    done = true;
                } else {
                    command.pop();
                }
            },
            _ => (),
        }
        i += 1;
    }

    if !done {
        PromptStep::NeedKey(string_from_chars(&command))
    } else if command.len() > 0 {
        PromptStep::Done(Some(string_from_chars(&command)))
    } else {
        assert(command@ =~= Seq::<char>::empty());
        PromptStep::Done(None)
    }
}

} // verus!
