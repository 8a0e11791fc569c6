//! Key handling and slash command parsing for the TUI.

use vstd::prelude::*;

use crate::text::{
    chars_of, is_white_space, split_words, str_eq, string_from_chars, to_lowercase, trim,
    trim_chars, unicode_lowercase, views, words_of,
};

verus! {

/// The key of a key press (keys the TUI does not use are `Other`).
#[derive(Debug, Clone, Copy, PartialEq, Eq)]
pub enum KeyCode {
    Char(char),
    Enter,
    Backspace,
    Up,
    Down,
    PageUp,
    PageDown,
    End,
    Home,
    Other,
}

/// A key press: the key and the modifier bits held with it (the bits of
/// crossterm's `KeyModifiers`).
#[derive(Debug, Clone, Copy, PartialEq, Eq)]
pub struct KeyEvent {
    pub code: KeyCode,
    pub modifiers: u8,
}

/// The modifier bits of Control alone.
pub const CONTROL: u8 = 0b0000_0010;

/// Parsed slash commands.
#[derive(Debug)]
pub enum SlashCmd {
    /// Set portrait size: /persona portrait size [small|medium|large|original]
    PortraitSize(String),
    /// Unknown slash command.
    Unknown(String),
}

/// Action resulting from a key press.
#[derive(Debug)]
pub enum InputAction {
    /// Send the input buffer as a user message.
    SendMessage(String),
    /// Process a local slash command.
    SlashCommand(SlashCmd),
    /// Quit the TUI.
    Quit,
    /// Scroll conversation up one line.
    ScrollUp,
    /// Scroll conversation down one line.
    ScrollDown,
    /// Scroll conversation up one page.
    PageUp,
    /// Scroll conversation down one page.
    PageDown,
    /// Scroll to bottom of conversation.
    ScrollEnd,
    /// No action (key consumed but no effect).
    Nothing,
}

pub enum SlashCmdView {
    PortraitSize(Seq<char>),
    Unknown(Seq<char>),
}

pub enum InputActionView {
    SendMessage(Seq<char>),
    SlashCommand(SlashCmdView),
    Quit,
    ScrollUp,
    ScrollDown,
    PageUp,
    PageDown,
    ScrollEnd,
    Nothing,
}

impl View for SlashCmd {
    type V = SlashCmdView;

    open spec fn view(&self) -> SlashCmdView {
        match self {
            SlashCmd::PortraitSize(s) => SlashCmdView::PortraitSize(s@),
            SlashCmd::Unknown(s) => SlashCmdView::Unknown(s@),
        }
    }
}

impl View for InputAction {
    type V = InputActionView;

    open spec fn view(&self) -> InputActionView {
        match self {
            InputAction::SendMessage(s) => InputActionView::SendMessage(s@),
            InputAction::SlashCommand(c) => InputActionView::SlashCommand(c@),
            InputAction::Quit => InputActionView::Quit,
            InputAction::ScrollUp => InputActionView::ScrollUp,
            InputAction::ScrollDown => InputActionView::ScrollDown,
            InputAction::PageUp => InputActionView::PageUp,
            InputAction::PageDown => InputActionView::PageDown,
            InputAction::ScrollEnd => InputActionView::ScrollEnd,
            InputAction::Nothing => InputActionView::Nothing,
        }
    }
}

/// Whether a lower-cased size word is a portrait size.
pub open spec fn is_size_word(s: Seq<char>) -> bool {
    s == "small"@ || s == "medium"@ || s == "large"@ || s == "original"@
}

/// The slash command `text` stands for: none unless it starts with `/`;
/// `/persona portrait size <size>` (exactly four words, a known size in
/// any case) sets the portrait size; anything else is unknown.
pub open spec fn slash_spec(text: Seq<char>) -> Option<SlashCmdView> {
    if text.len() == 0 || text[0] != '/' {
        None
    } else {
        let parts = words_of(text);
        if parts.len() == 4 && parts[0] == "/persona"@ && parts[1] == "portrait"@ && parts[2]
            == "size"@ && is_size_word(unicode_lowercase(parts[3])) {
            Some(SlashCmdView::PortraitSize(unicode_lowercase(parts[3])))
        } else {
            Some(SlashCmdView::Unknown(text))
        }
    }
}

/// The action of a key press on input `buf`, and the input afterwards.
pub open spec fn key_spec(ev: KeyEvent, buf: Seq<char>) -> (InputActionView, Seq<char>) {
    if ev.modifiers == CONTROL && ev.code == KeyCode::Char('c') {
        (InputActionView::Quit, buf)
    } else {
        match ev.code {
            KeyCode::Enter => {
                let text = trim(buf);
                (
                    if text.len() == 0 {
                        InputActionView::Nothing
                    } else {
                        match slash_spec(text) {
                            Some(c) => InputActionView::SlashCommand(c),
                            None => InputActionView::SendMessage(text),
                        }
                    },
                    Seq::empty(),
                )
            },
            KeyCode::Backspace => (
                InputActionView::Nothing,
                if buf.len() > 0 { buf.drop_last() } else { buf },
            ),
            KeyCode::Up => (InputActionView::ScrollUp, buf),
            KeyCode::Down => (InputActionView::ScrollDown, buf),
            KeyCode::PageUp => (InputActionView::PageUp, buf),
            KeyCode::PageDown => (InputActionView::PageDown, buf),
            KeyCode::End => (InputActionView::ScrollEnd, buf),
            KeyCode::Home => (InputActionView::ScrollEnd, buf),
            KeyCode::Char(c) => (InputActionView::Nothing, buf.push(c)),
            KeyCode::Other => (InputActionView::Nothing, buf),
        }
    }
}

/// Parse a slash command from input text.
pub fn parse_slash_command(text: &str) -> (r: Option<SlashCmd>)
    ensures
        match r {
            Some(c) => slash_spec(text@) == Some(c@),
            None => slash_spec(text@) is None,
        },
{
    let cs = chars_of(text);
    if cs.len() == 0 || cs[0] != '/' {
        return None;
    }
    let parts = split_words(&cs);
    if parts.len() == 4 {
        let p0 = string_from_chars(parts[0].as_slice());
        let p1 = string_from_chars(parts[1].as_slice());
        let p2 = string_from_chars(parts[2].as_slice());
        let p3 = string_from_chars(parts[3].as_slice());
        assert(p0@ == words_of(text@)[0]);
        assert(p3@ == words_of(text@)[3]);
        if str_eq(p0.as_str(), "/persona") && str_eq(p1.as_str(), "portrait") && str_eq(
            p2.as_str(),
            "size",
        ) {
            let size = to_lowercase(p3.as_str());
            if str_eq(size.as_str(), "small") || str_eq(size.as_str(), "medium") || str_eq(
                size.as_str(),
                "large",
            ) || str_eq(size.as_str(), "original") {
                return Some(SlashCmd::PortraitSize(size));
            }
        }
    }
    Some(SlashCmd::Unknown(text.to_owned()))
}

/// Handle a key event against the current input buffer.
///
/// Modifies `input_buffer` in place (for character input, backspace,
/// submission). Returns an `InputAction` describing what the TUI should do.
pub fn handle_key(event: KeyEvent, input_buffer: &mut String) -> (r: InputAction)
    ensures
        (r@, final(input_buffer)@) == key_spec(event, old(input_buffer)@),
{
    if event.modifiers == CONTROL {
        match event.code {
            KeyCode::Char(c) => {
                if c == 'c' {
                    return InputAction::Quit;
                }
            },
            _ => {},
        }
    }
    let ghost buf = input_buffer@;
    match event.code {
        KeyCode::Enter => {
            let cs = chars_of(input_buffer.as_str());
            let t = trim_chars(&cs);
            let text = string_from_chars(t.as_slice());
            *input_buffer = String::new();
            if t.len() == 0 {
                return InputAction::Nothing;
            }
            match parse_slash_command(text.as_str()) {
                Some(cmd) => InputAction::SlashCommand(cmd),
                None => InputAction::SendMessage(text),
            }
        },
        KeyCode::Backspace => {
            let mut cs = chars_of(input_buffer.as_str());
            if cs.len() > 0 {
                cs.pop();
            }
            *input_buffer = string_from_chars(cs.as_slice());
            InputAction::Nothing
        },
        KeyCode::Up => InputAction::ScrollUp,
        KeyCode::Down => InputAction::ScrollDown,
        KeyCode::PageUp => InputAction::PageUp,
        KeyCode::PageDown => InputAction::PageDown,
        KeyCode::End => InputAction::ScrollEnd,
        KeyCode::Home => InputAction::ScrollEnd,
        KeyCode::Char(c) => {
            let mut cs = chars_of(input_buffer.as_str());
            cs.push(c);
            *input_buffer = string_from_chars(cs.as_slice());
            InputAction::Nothing
        },
        KeyCode::Other => InputAction::Nothing,
    }
}

// ── Laws ─────────────────────────────────────────────────────────────────

/// A text is a slash command exactly when it starts with `/`.
pub proof fn lemma_slash_iff_leading_slash(text: Seq<char>)
    ensures
        slash_spec(text) is Some <==> (text.len() > 0 && text[0] == '/'),
{
}

/// `/persona portrait size <word>` sets the portrait size whenever the
/// word, lower-cased, is `small`, `medium`, `large` or `original`: the
/// command carries the lower-cased word. With any other word, or any
/// other number of words, the text is an unknown command kept whole.
pub proof fn lemma_portrait_size_command(text: Seq<char>, word: Seq<char>)
    requires
        text.len() > 0,
        text[0] == '/',
    ensures
        words_of(text) == seq!["/persona"@, "portrait"@, "size"@, word] && (unicode_lowercase(word)
            == "small"@ || unicode_lowercase(word) == "medium"@ || unicode_lowercase(word) == "large"@
            || unicode_lowercase(word) == "original"@) ==> slash_spec(text) == Some(
            SlashCmdView::PortraitSize(unicode_lowercase(word)),
        ),
        words_of(text) == seq!["/persona"@, "portrait"@, "size"@, word] && !(unicode_lowercase(word)
            == "small"@ || unicode_lowercase(word) == "medium"@ || unicode_lowercase(word) == "large"@
            || unicode_lowercase(word) == "original"@) ==> slash_spec(text) == Some(
            SlashCmdView::Unknown(text),
        ),
        words_of(text).len() != 4 ==> slash_spec(text) == Some(SlashCmdView::Unknown(text)),
{
    let parts = words_of(text);
    if parts == seq!["/persona"@, "portrait"@, "size"@, word] {
        assert(parts.len() == 4);
        assert(parts[0] == "/persona"@ && parts[1] == "portrait"@ && parts[2] == "size"@);
        assert(parts[3] == word);
    }
}

/// What each key does: Ctrl-C quits and leaves the input alone; Enter
/// submits the input without its surrounding white space (nothing when
/// that is empty, a slash command when it starts with `/`, else a
/// message) and clears it; the arrow, page, End and Home keys scroll and
/// leave the input alone; a typed character and backspace edit the input
/// and do nothing else; any other key does nothing.
pub proof fn lemma_key_actions(ev: KeyEvent, buf: Seq<char>)
    ensures
        ev.modifiers == CONTROL && ev.code == KeyCode::Char('c') ==> key_spec(ev, buf) == (
            InputActionView::Quit,
            buf,
        ),
        ev.code == KeyCode::Enter ==> {
            let text = trim(buf);
            &&& key_spec(ev, buf).1 == Seq::<char>::empty()
            &&& text.len() == 0 ==> key_spec(ev, buf).0 == InputActionView::Nothing
            &&& text.len() > 0 && text[0] == '/' ==> key_spec(ev, buf).0 is SlashCommand
            &&& text.len() > 0 && text[0] != '/' ==> key_spec(ev, buf).0 == InputActionView::SendMessage(
                text,
            )
        },
        ev.code == KeyCode::Up ==> key_spec(ev, buf) == (InputActionView::ScrollUp, buf),
        ev.code == KeyCode::Down ==> key_spec(ev, buf) == (InputActionView::ScrollDown, buf),
        ev.code == KeyCode::PageUp ==> key_spec(ev, buf) == (InputActionView::PageUp, buf),
        ev.code == KeyCode::PageDown ==> key_spec(ev, buf) == (InputActionView::PageDown, buf),
        ev.code == KeyCode::End || ev.code == KeyCode::Home ==> key_spec(ev, buf) == (
            InputActionView::ScrollEnd,
            buf,
        ),
        ev.code matches KeyCode::Char(c) ==> (!(ev.modifiers == CONTROL && c == 'c') ==> key_spec(
            ev,
            buf,
        ) == (InputActionView::Nothing, buf.push(c))),
        ev.code == KeyCode::Backspace ==> key_spec(ev, buf).0 == InputActionView::Nothing && key_spec(
            ev,
            buf,
        ).1 == if buf.len() > 0 {
            buf.drop_last()
        } else {
            buf
        },
        ev.code == KeyCode::Other ==> key_spec(ev, buf) == (InputActionView::Nothing, buf),
{
}

/// Submitting always empties the input; typing a character appends it;
/// backspace removes the last character, if any.
pub proof fn lemma_input_editing(ev: KeyEvent, buf: Seq<char>)
    ensures
        ev.code == KeyCode::Enter ==> key_spec(ev, buf).1 == Seq::<char>::empty(),
        ev.code matches KeyCode::Char(c) ==> (!(ev.modifiers == CONTROL && c == 'c') ==> key_spec(
            ev,
            buf,
        ).1 == buf.push(c)),
        ev.code == KeyCode::Backspace && buf.len() > 0 ==> key_spec(ev, buf).1 == buf.drop_last(),
{
}

} // verus!
