//! The input controller: one key-press applied to the application state.

use vstd::prelude::*;
use crate::app::App;
use crate::app::Mode;
use crate::app::copy_chars;
use crate::app::delete_word_spec;
use crate::app::trim;
use crate::app::buffer_is_blank;

verus! {

/// A key, as the controller understands it.
#[derive(Clone, Copy, PartialEq, Eq, Structural, Debug)]
pub enum Key {
    Char(char),
    Enter,
    Esc,
    Backspace,
    Other,
}

/// One key-press: the key, and whether the modifier set is exactly Control.
#[derive(Clone, Copy, PartialEq, Eq, Structural, Debug)]
pub struct KeyPress {
    pub code: Key,
    pub ctrl: bool,
}

/// Whether the key-press signals that the run loop should quit: only 'q' in
/// Normal mode does.
pub open spec fn quits(m: Mode, k: KeyPress) -> bool {
    m == Mode::Normal && k.code == Key::Char('q')
}

/// The mode after one key-press: 'i' enters Insert from Normal, Esc leaves
/// Insert; every other key keeps the mode.
pub open spec fn next_mode(m: Mode, k: KeyPress) -> Mode {
    match m {
        Mode::Normal => if k.code == Key::Char('i') {
            Mode::Insert
        } else {
            Mode::Normal
        },
        Mode::Insert => if k.code == Key::Esc {
            Mode::Normal
        } else {
            Mode::Insert
        },
    }
}

/// The input buffer after one key-press. Only Insert mode edits it: Enter on
/// a non-blank buffer clears it, Ctrl+'h' or Ctrl+'w' deletes the last word,
/// Backspace drops the last character, a Space typed into a blank buffer is
/// ignored, and any other character is appended.
pub open spec fn next_input(m: Mode, input: Seq<char>, k: KeyPress) -> Seq<char> {
    if m == Mode::Insert {
        match k.code {
            Key::Enter => if trim(input).len() != 0 {
                Seq::<char>::empty()
            } else {
                input
            },
            Key::Char(c) => if (c == 'h' || c == 'w') && k.ctrl {
                delete_word_spec(input)
            } else if c == ' ' && trim(input).len() == 0 {
                input
            } else {
                input.push(c)
            },
            Key::Backspace => if input.len() > 0 {
                input.drop_last()
            } else {
                input
            },
            _ => input,
        }
    } else {
        input
    }
}

/// The last submission after one key-press: it is replaced by the buffer
/// exactly when Enter is pressed in Insert mode and the buffer is not blank,
/// and kept otherwise.
pub open spec fn next_submission(m: Mode, input: Seq<char>, sub: Seq<char>, k: KeyPress) -> Seq<
    char,
> {
    if m == Mode::Insert && k.code == Key::Enter && trim(input).len() != 0 {
        input
    } else {
        sub
    }
}

/// Apply one key-press to the application state; the result says whether the
/// run loop should quit.
pub fn handle_key(app: &mut App, key: KeyPress) -> (quit: bool)
    ensures
        final(app).mode == next_mode(old(app).mode, key),
        final(app).input_box@ == next_input(old(app).mode, old(app).input_box@, key),
        final(app).submission@ == next_submission(
            old(app).mode,
            old(app).input_box@,
            old(app).submission@,
            key,
        ),
        quit == quits(old(app).mode, key),
{
    match app.mode {
        Mode::Normal => {
            match key.code {
                Key::Char(c) => {
                    if c == 'q' {
                        return true;
                    }
                    if c == 'i' {
                        app.mode = Mode::Insert;
                    }
                },
                _ => {},
            }
            false
        },
        Mode::Insert => {
            match key.code {
                Key::Esc => {
                    app.mode = Mode::Normal;
                },
                Key::Enter => {
                    if !buffer_is_blank(&app.input_box) {
                        app.submission = copy_chars(&app.input_box);
                        app.input_box.clear();
                    }
                },
                Key::Char(c) => {
                    if (c == 'h' || c == 'w') && key.ctrl {
                        app.delete_word();
                    } else if c == ' ' && buffer_is_blank(&app.input_box) {
                        // Ignored: a space never starts a blank buffer.
                    } else {
                        app.input_box.push(c);
                    }
                },
                Key::Backspace => {
                    let _ = app.input_box.pop();
                },
                _ => {},
            }
            false
        },
    }
}

/// Law: the quit signal is only reachable from Normal mode.
pub proof fn lemma_quit_only_from_normal(m: Mode, k: KeyPress)
    ensures
        quits(m, k) ==> m == Mode::Normal,
{
}

/// The mode that a whole sequence of key-presses, applied in turn, leaves.
pub open spec fn mode_after(m: Mode, keys: Seq<KeyPress>) -> Mode
    decreases keys.len(),
{
    if keys.len() == 0 {
        m
    } else {
        mode_after(next_mode(m, keys[0]), keys.drop_first())
    }
}

/// Law: after any sequence of key-presses the mode is still exactly Normal or
/// Insert.
pub proof fn lemma_mode_always_valid(m: Mode, keys: Seq<KeyPress>)
    ensures
        mode_after(m, keys) == Mode::Normal || mode_after(m, keys) == Mode::Insert,
    decreases keys.len(),
{
    if keys.len() > 0 {
        lemma_mode_always_valid(next_mode(m, keys[0]), keys.drop_first());
    }
}

} // verus!
