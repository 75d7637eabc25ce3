//! The box the user types a message into: its text, the cursor, and how a
//! typed character or a deletion changes them.
use vstd::prelude::*;

use crate::text;
use crate::text::{last_line_len, pop_char, push_char};

verus! {

/// The input box widget; its content lives in an `InputBoxState`.
pub struct InputBox {}

impl InputBox {
    pub fn new() -> (r: Self)
        ensures
            r == (InputBox {}),
    {
        InputBox {}
    }
}

/// The editing mode of the input box.
#[derive(Clone, Copy, Debug, PartialEq, Eq, Structural)]
pub enum Mode {
    Normal,
    Insert,
    Visual,
    Command,
}

/// Where the cursor stands, in columns and rows from the box's first cell.
#[derive(Clone, Copy, Debug, PartialEq, Eq, Structural)]
pub struct Offset {
    pub x: i32,
    pub y: i32,
}

impl Offset {
    /// The first cell.
    pub fn zero() -> (r: Offset)
        ensures
            r == (Offset { x: 0, y: 0 }),
    {
        Offset { x: 0, y: 0 }
    }
}

/// The content of the input box.
pub struct InputBoxState {
    pub text: String,
    pub mode: Mode,
    pub max_width: usize,
    pub cursor_offset: Offset,
}

/// The abstract value of an `InputBoxState`.
pub struct InputView {
    pub text: Seq<char>,
    pub mode: Mode,
    pub max_width: usize,
    pub cursor: Offset,
}

impl View for InputBoxState {
    type V = InputView;

    open spec fn view(&self) -> InputView {
        InputView {
            text: self.text@,
            mode: self.mode,
            max_width: self.max_width,
            cursor: self.cursor_offset,
        }
    }
}

/// The cursor after `c` was typed, before any line break that follows.
pub open spec fn cursor_after_typing(cursor: Offset, c: char) -> Offset {
    if c == '\n' {
        Offset { x: 0, y: (cursor.y + 1) as i32 }
    } else {
        Offset { x: (cursor.x + 1) as i32, y: cursor.y }
    }
}

/// Whether typing `c` into `v` fills the last line so that a line break follows.
pub open spec fn breaks_line(v: InputView, c: char) -> bool {
    let t = v.text.push(c);
    match text::last_line(t) {
        Some(l) => text::byte_len(l) >= v.max_width && t.last() != '\n',
        None => false,
    }
}

/// The box `v` after `c` was typed: the character is appended, the cursor
/// moves on (to the next row for a newline), and when the last line has
/// reached the width a newline is appended and the cursor goes to the next row.
pub open spec fn typed(v: InputView, c: char) -> InputView {
    let t = v.text.push(c);
    let cur = cursor_after_typing(v.cursor, c);
    if breaks_line(v, c) {
        InputView { text: t.push('\n'), cursor: Offset { x: 0, y: (cur.y + 1) as i32 }, ..v }
    } else {
        InputView { text: t, cursor: cur, ..v }
    }
}

/// The box `v` after its last character was deleted: after a newline the
/// cursor goes up a row, to the end of what is now the last line.
pub open spec fn deleted(v: InputView) -> InputView {
    if v.text.len() == 0 {
        v
    } else {
        let t = v.text.drop_last();
        if v.text.last() == '\n' {
            let x: i32 = match text::last_line(t) {
                Some(l) => (text::byte_len(l) as usize) as i32,
                None => 0,
            };
            InputView { text: t, cursor: Offset { x, y: (v.cursor.y - 1) as i32 }, ..v }
        } else {
            InputView { text: t, cursor: Offset { x: (v.cursor.x - 1) as i32, y: v.cursor.y }, ..v }
        }
    }
}

/// Whether typing `c` into `v` keeps the cursor within `i32`.
pub open spec fn can_type(v: InputView, c: char) -> bool {
    &&& c == '\n' ==> v.cursor.y < i32::MAX
    &&& c != '\n' ==> v.cursor.x < i32::MAX
    &&& breaks_line(v, c) ==> v.cursor.y < i32::MAX
}

/// Whether deleting the last character of `v` keeps the cursor within `i32`.
pub open spec fn can_delete(v: InputView) -> bool {
    v.text.len() > 0 ==> (if v.text.last() == '\n' {
        v.cursor.y > i32::MIN
    } else {
        v.cursor.x > i32::MIN
    })
}

impl InputBoxState {
    /// An empty box in normal mode with the cursor at the first cell.
    pub fn new() -> (r: Self)
        ensures
            r@ == (InputView {
                text: Seq::empty(),
                mode: Mode::Normal,
                max_width: 0,
                cursor: Offset { x: 0, y: 0 },
            }),
    {
        InputBoxState {
            text: String::new(),
            mode: Mode::Normal,
            max_width: 0,
            cursor_offset: Offset::zero(),
        }
    }

    /// Deletes the last character, if there is one.
    pub fn clear_last_char(&mut self)
        requires
            can_delete(old(self)@),
            text::byte_len(old(self)@.text) <= usize::MAX,
        ensures
            final(self)@ == deleted(old(self)@),
    {
        if let Some(chr) = pop_char(&mut self.text) {
            if chr == '\n' {
                self.cursor_offset.y = self.cursor_offset.y - 1;
                proof {
                    text::lemma_byte_len_push(self.text@, chr);
                    assert(old(self)@.text == self.text@.push(chr));
                }
                self.cursor_offset.x = match last_line_len(&self.text) {
                    Some(len) => len as i32,
                    None => 0,
                };
            } else {
                self.cursor_offset.x = self.cursor_offset.x - 1;
            }
        }
    }

    /// Types `c`: appends it, moves the cursor, and breaks the line when the
    /// last line has reached the width.
    pub fn insert_char(&mut self, c: char)
        requires
            can_type(old(self)@, c),
            text::byte_len(old(self)@.text) + 8 <= isize::MAX,
        ensures
            final(self)@ == typed(old(self)@, c),
    {
        if c == '\n' {
            self.cursor_offset.y = self.cursor_offset.y + 1;
            self.cursor_offset.x = 0;
        } else {
            self.cursor_offset.x = self.cursor_offset.x + 1;
        }
        proof {
            text::lemma_byte_len_bound(seq![c]);
            text::lemma_byte_len_push(self.text@, c);
        }
        push_char(&mut self.text, c);
        assert(self.text@.last() == c);
        assert(self.text@ == old(self)@.text.push(c));
        proof {
            text::lemma_last_line_bytes(self.text@);
        }
        if let Some(len) = last_line_len(&self.text) {
            if len >= self.max_width && c != '\n' {
                proof {
                    text::lemma_byte_len_push(self.text@, '\n');
                }
                push_char(&mut self.text, '\n');
                self.cursor_offset.y = self.cursor_offset.y + 1;
                self.cursor_offset.x = 0;
            }
        }
    }

    /// Whether typing `c` keeps the cursor within `i32` (typing panics otherwise).
    pub fn can_insert(&self, c: char) -> (r: bool)
        requires
            text::byte_len(self@.text) + 8 <= isize::MAX,
        ensures
            r == can_type(self@, c),
    {
        let x = self.cursor_offset.x;
        let y = self.cursor_offset.y;
        if c == '\n' {
            return y < i32::MAX;
        }
        if x == i32::MAX {
            return false;
        }
        let mut t = self.text.clone();
        proof {
            text::lemma_byte_len_bound(seq![c]);
            text::lemma_byte_len_push(self.text@, c);
        }
        push_char(&mut t, c);
        proof {
            text::lemma_last_line_bytes(t@);
        }
        let breaks = match last_line_len(&t) {
            Some(len) => len >= self.max_width,
            None => false,
        };
        assert(t@.last() == c);
        !breaks || y < i32::MAX
    }

    /// Whether deleting keeps the cursor within `i32` (deleting panics otherwise).
    pub fn can_clear(&self) -> (r: bool)
        ensures
            r == can_delete(self@),
    {
        let n = self.text.as_str().unicode_len();
        if n == 0 {
            true
        } else if self.text.as_str().get_char(n - 1) == '\n' {
            self.cursor_offset.y > i32::MIN
        } else {
            self.cursor_offset.x > i32::MIN
        }
    }

    /// Fits the box to an inner area `inner_width` cells wide: a line breaks
    /// two cells before the edge.
    pub fn fit_width(&mut self, inner_width: u16)
        ensures
            final(self)@ == (InputView {
                max_width: if inner_width >= 2 {
                    (inner_width - 2) as usize
                } else {
                    0
                },
                ..old(self)@
            }),
    {
        self.max_width = inner_width.saturating_sub(2) as usize;
    }
}

/// After a character is typed the last line is never at or past the width
/// unless a newline ends the text.
pub proof fn lemma_typed_line_fits(v: InputView, c: char)
    ensures
        ({
            let w = typed(v, c);
            w.text.last() == '\n' || text::byte_len(text::last_line(w.text)->0) < w.max_width
        }),
{
    let t = v.text.push(c);
    assert(t.last() == c);
    if breaks_line(v, c) {
        assert(t.push('\n').last() == '\n');
    }
}

/// Typing a character that breaks no line and deleting it again restores
/// the text and the row of the cursor, and the column too unless it was a newline.
pub proof fn lemma_type_then_delete(v: InputView, c: char)
    requires
        !breaks_line(v, c),
        can_type(v, c),
    ensures
        deleted(typed(v, c)).text == v.text,
        deleted(typed(v, c)).cursor.y == v.cursor.y,
        c != '\n' ==> deleted(typed(v, c)) == v,
{
    assert(v.text.push(c).drop_last() =~= v.text);
}

/// Typing a character only ever appends: the old text is a prefix of the new,
/// which is one or two characters longer.
pub proof fn lemma_typed_extends(v: InputView, c: char)
    ensures
        typed(v, c).text.subrange(0, v.text.len() as int) == v.text,
        typed(v, c).text[v.text.len() as int] == c,
        typed(v, c).text.len() == v.text.len() + 1 || typed(v, c).text.len() == v.text.len() + 2,
{
    let t = v.text.push(c);
    assert(t.subrange(0, v.text.len() as int) =~= v.text);
    assert(t.push('\n').subrange(0, v.text.len() as int) =~= v.text);
}

/// Typing a character other than a newline that breaks no line moves the
/// cursor exactly one column right, whatever the character's width in bytes;
/// deleting a character other than a newline moves it one column left.
pub proof fn lemma_one_column_per_character(v: InputView, c: char)
    ensures
        c != '\n' && !breaks_line(v, c) && v.cursor.x < i32::MAX ==> typed(v, c).cursor == (Offset {
            x: (v.cursor.x + 1) as i32,
            y: v.cursor.y,
        }),
        v.text.len() > 0 && v.text.last() != '\n' && v.cursor.x > i32::MIN ==> deleted(v).cursor == (
        Offset { x: (v.cursor.x - 1) as i32, y: v.cursor.y }),
{
}

/// Two characters that each break no line leave the cursor at the same place.
pub proof fn lemma_cursor_ignores_character(v: InputView, c1: char, c2: char)
    requires
        c1 != '\n',
        c2 != '\n',
        !breaks_line(v, c1),
        !breaks_line(v, c2),
    ensures
        typed(v, c1).cursor == typed(v, c2).cursor,
{
}

} // verus!
