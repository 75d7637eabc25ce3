//! The position of a scrollbar over a list of items.
use vstd::prelude::*;

verus! {

/// Which way to scroll.
#[derive(Clone, Copy, Debug, PartialEq, Eq, Structural)]
pub enum ScrollDirection {
    Forward,
    Backward,
}

/// The state of a scrollbar: how many items there are, which one the view
/// starts at, and how many fit into the view.
#[derive(Clone, Copy, Debug, PartialEq, Eq, Structural)]
pub struct ScrollbarState {
    pub content_length: usize,
    pub position: usize,
    pub viewport_content_length: usize,
}

/// The last position over `content_length` items (0 when there is none).
pub open spec fn last_position(content_length: usize) -> usize {
    if content_length > 0 {
        (content_length - 1) as usize
    } else {
        0
    }
}

/// The position after one step forward from `position`.
pub open spec fn next_position(position: usize, content_length: usize) -> usize {
    let up: int = if position < usize::MAX {
        position + 1
    } else {
        position as int
    };
    if up < last_position(content_length) {
        up as usize
    } else {
        last_position(content_length)
    }
}

/// The position after one step backward from `position`.
pub open spec fn prev_position(position: usize) -> usize {
    if position > 0 {
        (position - 1) as usize
    } else {
        0
    }
}

impl ScrollbarState {
    /// A scrollbar over `content_length` items, at the first one.
    pub fn new(content_length: usize) -> (r: Self)
        ensures
            r == (ScrollbarState { content_length, position: 0, viewport_content_length: 0 }),
    {
        ScrollbarState { content_length, position: 0, viewport_content_length: 0 }
    }

    /// The same scrollbar at `position`.
    pub fn position(self, position: usize) -> (r: Self)
        ensures
            r == (ScrollbarState { position, ..self }),
    {
        ScrollbarState { position, ..self }
    }

    /// The same scrollbar over `content_length` items.
    pub fn content_length(self, content_length: usize) -> (r: Self)
        ensures
            r == (ScrollbarState { content_length, ..self }),
    {
        ScrollbarState { content_length, ..self }
    }

    /// The same scrollbar with `viewport_content_length` items in view.
    pub fn viewport_content_length(self, viewport_content_length: usize) -> (r: Self)
        ensures
            r == (ScrollbarState { viewport_content_length, ..self }),
    {
        ScrollbarState { viewport_content_length, ..self }
    }

    /// One step back, not below the first item.
    pub fn prev(&mut self)
        ensures
            *final(self) == (ScrollbarState { position: prev_position(old(self).position), ..*old(self) }),
    {
        self.position = self.position.saturating_sub(1);
    }

    /// One step forward, not past the last item.
    pub fn next(&mut self)
        ensures
            *final(self) == (ScrollbarState {
                position: next_position(old(self).position, old(self).content_length),
                ..*old(self)
            }),
    {
        let up = self.position.saturating_add(1);
        let last = self.content_length.saturating_sub(1);
        self.position = if up < last {
            up
        } else {
            last
        };
    }

    /// To the first item.
    pub fn first(&mut self)
        ensures
            *final(self) == (ScrollbarState { position: 0, ..*old(self) }),
    {
        self.position = 0;
    }

    /// To the last item.
    pub fn last(&mut self)
        ensures
            *final(self) == (ScrollbarState {
                position: last_position(old(self).content_length),
                ..*old(self)
            }),
    {
        self.position = self.content_length.saturating_sub(1);
    }

    /// One step in `direction`.
    pub fn scroll(&mut self, direction: ScrollDirection)
        ensures
            direction == ScrollDirection::Forward ==> *final(self) == (ScrollbarState {
                position: next_position(old(self).position, old(self).content_length),
                ..*old(self)
            }),
            direction == ScrollDirection::Backward ==> *final(self) == (ScrollbarState {
                position: prev_position(old(self).position),
                ..*old(self)
            }),
    {
        match direction {
            ScrollDirection::Forward => self.next(),
            ScrollDirection::Backward => self.prev(),
        }
    }

    /// The current position.
    pub fn get_position(&self) -> (r: usize)
        ensures
            r == self.position,
    {
        self.position
    }
}

/// A step forward never leaves the items: from a position at or before the
/// last item it lands at or before the last item.
pub proof fn lemma_next_stays_within(position: usize, content_length: usize)
    requires
        position <= last_position(content_length),
    ensures
        next_position(position, content_length) <= last_position(content_length),
        next_position(position, content_length) >= position,
{
}

/// A step forward that moved is undone by a step backward.
pub proof fn lemma_next_then_prev(position: usize, content_length: usize)
    requires
        position < last_position(content_length),
    ensures
        prev_position(next_position(position, content_length)) == position,
{
}

/// At the last item a step forward changes nothing.
pub proof fn lemma_next_at_last(content_length: usize)
    ensures
        next_position(last_position(content_length), content_length) == last_position(
            content_length,
        ),
{
}

} // verus!
