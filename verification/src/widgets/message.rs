//! One message as the conversation view shows it: who wrote it and its text.
use vstd::prelude::*;

use crate::llm::types::Role;
use crate::text;

verus! {

broadcast use vstd::string::group_string_axioms;

use vstd::std_specs::iter::IteratorSpec;

/// Which side of the view a message is drawn against.
#[derive(Clone, Copy, Debug, PartialEq, Eq, Structural)]
pub enum Alignment {
    Left,
    Right,
}

/// A message of the conversation view.
pub struct Message {
    pub role: Role,
    pub content: String,
}

/// Number of items that `str::lines` yields for `s`, counted as
/// `s.lines().count()` counts them.
pub fn count_lines(s: &String) -> (r: usize)
    requires
        s@.len() < usize::MAX,
    ensures
        r == text::line_count(s@),
{
    let mut newlines: usize = 0;
    let mut last_is_newline = false;
    let ghost mut h: Seq<char> = Seq::empty();
    let mut chars = s.chars();
    loop
        invariant
            s@.len() < usize::MAX,
            chars.obeys_prophetic_iter_laws(),
            h.len() <= s@.len(),
            h == s@.take(h.len() as int),
            chars.remaining() == s@.skip(h.len() as int),
            newlines == text::newline_count(h),
            newlines <= h.len(),
            last_is_newline == (h.len() > 0 && h.last() == '\n'),
        ensures
            h == s@,
            newlines == text::newline_count(h),
            last_is_newline == (h.len() > 0 && h.last() == '\n'),
        decreases s@.len() - h.len(),
    {
        let c = match chars.next() {
            Some(c) => c,
            None => {
                assert(h =~= s@);
                break;
            },
        };
        let ghost h2 = h.push(c);
        proof {
            assert(h2.drop_last() =~= h);
            assert(h2 =~= s@.take(h.len() as int + 1));
        }
        if c == '\n' {
            newlines = newlines + 1;
        }
        last_is_newline = c == '\n';
        proof {
            h = h2;
        }
    }
    if s.as_str().is_empty() {
        0
    } else if last_is_newline {
        newlines
    } else {
        newlines + 1
    }
}

impl Message {
    pub fn new(role: Role, content: String) -> (r: Self)
        ensures
            r.role == role,
            r.content == content,
    {
        Message { content, role }
    }

    /// Where the message is drawn: the user's on the right, the assistant's
    /// on the left; other messages are not drawn.
    pub fn alignment(&self) -> (r: Option<Alignment>)
        ensures
            r == (match self.role {
                Role::User => Some(Alignment::Right),
                Role::Assistant => Some(Alignment::Left),
                _ => None::<Alignment>,
            }),
    {
        match self.role {
            Role::User => Some(Alignment::Right),
            Role::Assistant => Some(Alignment::Left),
            _ => None,
        }
    }

    /// Rows the message takes: the number of its lines, as a `u16` (the
    /// count is cut to its low 16 bits).
    pub fn height(&self) -> (r: u16)
        requires
            self.content@.len() < usize::MAX,
        ensures
            r == (text::line_count(self.content@) as usize) as u16,
    {
        count_lines(&self.content) as u16
    }
}

} // verus!
