//! The input buffer, cursor, and message history of the editor.
//!
//! `App` owns a Unicode input line and a cursor counted in characters, the
//! current input mode, and the history of submitted lines. Every editing
//! operation is specified against [`EditorView`], the mathematical model of
//! the state: the text as a sequence of characters, the cursor as a count,
//! and the history as a sequence of lines.

use vstd::prelude::*;

verus! {

use vstd::string::StrSliceExecFns;
use vstd::utf8::encode_utf8;

use crate::unicode::byte_offset_of;
use crate::unicode::char_utf8_width;
use crate::unicode::lemma_byte_offset_le_total;
use crate::unicode::lemma_byte_offset_step;
use crate::unicode::lemma_encode_utf8_len_ge;
use crate::InputMode;

/// The mathematical model of the editor state.
#[verifier::ext_equal]
pub ghost struct EditorView {
    /// The input line, one entry per Unicode scalar value.
    pub text: Seq<char>,
    /// The cursor position, counted in characters, in `[0, text.len()]`.
    pub cursor: nat,
    /// The current input mode.
    pub mode: InputMode,
    /// The submitted lines, oldest first.
    pub history: Seq<Seq<char>>,
}

/// The state at application start: empty text, cursor at 0, `Normal` mode,
/// empty history.
pub open spec fn initial_view() -> EditorView {
    EditorView { text: Seq::empty(), cursor: 0, mode: InputMode::Normal, history: Seq::empty() }
}

/// The text after inserting `c` at character position `cursor`.
pub open spec fn inserted(text: Seq<char>, cursor: nat, c: char) -> Seq<char> {
    text.take(cursor as int) + seq![c] + text.skip(cursor as int)
}

/// The text after removing the character just before position `cursor`.
pub open spec fn deleted(text: Seq<char>, cursor: nat) -> Seq<char> {
    text.take(cursor as int - 1) + text.skip(cursor as int)
}

/// A candidate cursor position clamped to `[0, len]`.
pub open spec fn clamped(pos: nat, len: nat) -> nat {
    if pos > len {
        len
    } else {
        pos
    }
}

/// The cursor after one step left: one less, except at the start.
pub open spec fn cursor_left(cursor: nat) -> nat {
    if cursor > 0 {
        (cursor - 1) as nat
    } else {
        0
    }
}

/// The cursor after one step right: one more, except at the end of the text.
pub open spec fn cursor_right(cursor: nat, len: nat) -> nat {
    if cursor < len {
        (cursor + 1) as nat
    } else {
        cursor
    }
}

/// The state after inserting `c` at the cursor.
pub open spec fn insert_step(v: EditorView, c: char) -> EditorView {
    EditorView {
        text: inserted(v.text, v.cursor, c),
        cursor: (v.cursor + 1) as nat,
        mode: v.mode,
        history: v.history,
    }
}

/// The state after deleting the character before the cursor; the identity
/// when the cursor is at the start.
pub open spec fn delete_step(v: EditorView) -> EditorView {
    if v.cursor == 0 {
        v
    } else {
        EditorView {
            text: deleted(v.text, v.cursor),
            cursor: (v.cursor - 1) as nat,
            mode: v.mode,
            history: v.history,
        }
    }
}

/// The state after moving the cursor one character left.
pub open spec fn left_step(v: EditorView) -> EditorView {
    EditorView { text: v.text, cursor: cursor_left(v.cursor), mode: v.mode, history: v.history }
}

/// The state after moving the cursor one character right.
pub open spec fn right_step(v: EditorView) -> EditorView {
    EditorView {
        text: v.text,
        cursor: cursor_right(v.cursor, v.text.len()),
        mode: v.mode,
        history: v.history,
    }
}

/// The state after submitting the current line: the text is appended to the
/// history, the buffer is emptied and the cursor reset.
pub open spec fn submit_step(v: EditorView) -> EditorView {
    EditorView { text: Seq::empty(), cursor: 0, mode: v.mode, history: v.history.push(v.text) }
}

/// Relies on `String::push`: appends the given character to the end of the
/// string. The result's contents are stored in memory as UTF-8 bytes and
/// `String::len` reports their count as a `usize`, so the encoded length of
/// the result fits in `usize`.
#[verifier::external_body]
fn push_char(s: &mut String, c: char)
    ensures
        final(s)@ == old(s)@ + seq![c],
        encode_utf8(final(s)@).len() <= usize::MAX,
{
    s.push(c);
}

/// Relies on `String::push_str`: appends the given string slice to the end
/// of the string. The result's contents are stored in memory as UTF-8 bytes
/// and `String::len` reports their count as a `usize`, so the encoded length
/// of the result fits in `usize`.
#[verifier::external_body]
fn push_str(s: &mut String, t: &str)
    ensures
        final(s)@ == old(s)@ + t@,
        encode_utf8(final(s)@).len() <= usize::MAX,
{
    s.push_str(t);
}

/// Relies on `String::clear`: truncates the string, removing all contents.
/// It neither allocates nor panics, so it does not unwind.
#[verifier::external_body]
fn clear_str(s: &mut String)
    ensures
        final(s)@ == Seq::<char>::empty(),
    no_unwind
{
    s.clear();
}

/// The application state: the input line, the character-indexed cursor, the
/// input mode, and the history of submitted lines.
pub struct App {
    /// Current value of the input box.
    input: String,
    /// Position of the cursor in the editor area, counted in characters.
    character_index: usize,
    /// Current input mode.
    input_mode: InputMode,
    /// History of recorded messages.
    messages: Vec<String>,
}

impl View for App {
    type V = EditorView;

    closed spec fn view(&self) -> EditorView {
        EditorView {
            text: self.input@,
            cursor: self.character_index as nat,
            mode: self.input_mode,
            history: self.messages.deep_view(),
        }
    }
}

impl App {
    /// The cursor always sits on a character boundary: it never exceeds the
    /// character count, and the buffer's encoded length fits in `usize`.
    #[verifier::type_invariant]
    spec fn wf(self) -> bool {
        &&& self.character_index as nat <= self.input@.len()
        &&& encode_utf8(self.input@).len() <= usize::MAX
    }

    /// Creates the state at application start.
    pub fn new() -> (app: App)
        ensures
            app@ == initial_view(),
    {
        proof {
            assert(encode_utf8(Seq::<char>::empty()).len() == 0);
        }
        let app = App {
            input: String::new(),
            input_mode: InputMode::Normal,
            messages: Vec::new(),
            character_index: 0,
        };
        proof {
            assert(app.messages.deep_view() =~= Seq::<Seq<char>>::empty());
            assert(app@ =~= initial_view());
        }
        app
    }

    /// The current input line.
    pub fn input(&self) -> (s: &String)
        ensures
            s@ == self@.text,
    {
        &self.input
    }

    /// The cursor position, counted in characters.
    pub fn character_index(&self) -> (i: usize)
        ensures
            i as nat == self@.cursor,
    {
        self.character_index
    }

    /// The current input mode.
    pub fn input_mode(&self) -> (m: InputMode)
        ensures
            m == self@.mode,
    {
        self.input_mode
    }

    /// The history of submitted lines, oldest first.
    pub fn messages(&self) -> (m: &Vec<String>)
        ensures
            m.deep_view() == self@.history,
    {
        &self.messages
    }

    /// Switches the input mode.
    pub fn set_input_mode(&mut self, mode: InputMode)
        ensures
            final(self)@ == (EditorView { mode: mode, ..old(self)@ }),
    {
        proof {
            use_type_invariant(&*self);
        }
        self.input_mode = mode;
        proof {
            assert(self@ =~= (EditorView { mode: mode, ..old(self)@ }));
        }
    }

    /// Moves the cursor one character left; a no-op at the start.
    pub fn move_cursor_left(&mut self)
        ensures
            final(self)@ == left_step(old(self)@),
    {
        proof {
            use_type_invariant(&*self);
        }
        let cursor_moved_left = self.character_index.saturating_sub(1);
        self.character_index = self.clamp_cursor(cursor_moved_left);
        proof {
            assert(self@ =~= left_step(old(self)@));
        }
    }

    /// Moves the cursor one character right; a no-op at the end of the text.
    pub fn move_cursor_right(&mut self)
        ensures
            final(self)@ == right_step(old(self)@),
    {
        proof {
            use_type_invariant(&*self);
        }
        let cursor_moved_right = self.character_index.saturating_add(1);
        self.character_index = self.clamp_cursor(cursor_moved_right);
        proof {
            lemma_encode_utf8_len_ge(old(self).input@);
            assert(self@ =~= right_step(old(self)@));
        }
    }

    /// Inserts `new_char` at the cursor and advances the cursor past it.
    pub fn enter_char(&mut self, new_char: char)
        ensures
            final(self)@ == insert_step(old(self)@, new_char),
    {
        proof {
            use_type_invariant(&*self);
        }
        let k = self.character_index;
        let count = self.input.as_str().unicode_len();
        let before = self.input.as_str().substring_char(0, k);
        let mut new_text = before.to_owned();
        push_char(&mut new_text, new_char);
        let after = self.input.as_str().substring_char(k, count);
        push_str(&mut new_text, after);
        proof {
            assert(new_text@ =~= inserted(old(self)@.text, old(self)@.cursor, new_char));
        }
        self.input = new_text;
        self.move_cursor_right();
        proof {
            assert(self@ =~= insert_step(old(self)@, new_char));
        }
    }

    /// The byte offset into the input that corresponds to the cursor's
    /// character position: the encoded length of the characters before it.
    /// When the cursor equals the character count this is the total byte
    /// length, the append position.
    pub fn byte_index(&self) -> (r: usize)
        ensures
            r as nat == byte_offset_of(self@.text, self@.cursor as int),
    {
        proof {
            use_type_invariant(self);
            assert(self.input@.take(0) =~= Seq::<char>::empty());
            assert(encode_utf8(Seq::<char>::empty()).len() == 0);
        }
        let mut offset: usize = 0;
        let mut i: usize = 0;
        while i < self.character_index
            invariant
                i <= self.character_index,
                self.character_index as nat <= self.input@.len(),
                encode_utf8(self.input@).len() <= usize::MAX,
                offset as nat == byte_offset_of(self.input@, i as int),
            decreases self.character_index - i,
        {
            let c = self.input.as_str().get_char(i);
            proof {
                lemma_byte_offset_step(self.input@, i as int);
                lemma_byte_offset_le_total(self.input@, i as int + 1);
            }
            let w = char_utf8_width(c);
            offset = offset + w;
            i = i + 1;
        }
        offset
    }

    /// Removes the character just before the cursor and moves the cursor one
    /// character left; a no-op when the cursor is at the start.
    pub fn delete_char(&mut self)
        ensures
            final(self)@ == delete_step(old(self)@),
            old(self)@.cursor == 0 ==> final(self)@ == old(self)@,
    {
        proof {
            use_type_invariant(&*self);
        }
        let is_not_cursor_leftmost = self.character_index != 0;
        if is_not_cursor_leftmost {
            let current_index = self.character_index;
            let from_left_to_current_index = current_index - 1;
            let count = self.input.as_str().unicode_len();

            // The characters before the deleted one, then the characters
            // after it; the one in between is left out.
            let before = self.input.as_str().substring_char(0, from_left_to_current_index);
            let mut new_text = before.to_owned();
            let after = self.input.as_str().substring_char(current_index, count);
            push_str(&mut new_text, after);
            proof {
                assert(new_text@ =~= deleted(old(self)@.text, old(self)@.cursor));
            }
            self.move_cursor_left();
            self.input = new_text;
            proof {
                assert(self@ =~= delete_step(old(self)@));
            }
        }
    }

    /// Clamps a candidate cursor position to `[0, char_count(text)]`.
    pub fn clamp_cursor(&self, new_cursor_pos: usize) -> (r: usize)
        ensures
            r as nat == clamped(new_cursor_pos as nat, self@.text.len()),
    {
        let count = self.input.as_str().unicode_len();
        if new_cursor_pos > count {
            count
        } else {
            new_cursor_pos
        }
    }

    /// Resets the cursor to the start of the line.
    pub fn reset_cursor(&mut self)
        ensures
            final(self)@ == (EditorView { cursor: 0, ..old(self)@ }),
    {
        proof {
            use_type_invariant(&*self);
        }
        self.character_index = 0;
        proof {
            assert(self@ =~= (EditorView { cursor: 0, ..old(self)@ }));
        }
    }

    /// Appends a copy of the current line (even if empty) to the history,
    /// then empties the buffer and resets the cursor.
    pub fn submit_message(&mut self)
        ensures
            final(self)@ == submit_step(old(self)@),
    {
        proof {
            use_type_invariant(&*self);
        }
        let line = self.input.clone();
        let mut msgs: Vec<String> = Vec::new();
        core::mem::swap(&mut msgs, &mut self.messages);
        msgs.push(line);
        core::mem::swap(&mut msgs, &mut self.messages);
        self.reset_cursor();
        proof {
            assert(encode_utf8(Seq::<char>::empty()).len() == 0);
        }
        clear_str(&mut self.input);
        proof {
            assert(self.messages.deep_view() =~= old(self)@.history.push(old(self)@.text));
            assert(self@ =~= submit_step(old(self)@));
        }
    }
}

} // verus!
