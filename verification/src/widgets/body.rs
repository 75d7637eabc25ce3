//! The conversation view: which messages it shows, and how its scrollbar
//! follows the history.
use vstd::prelude::*;

use crate::llm::types::{ContentView, ItemView, Message, MessageContent, MessageView, MultimodalContentItem, Role};
use crate::widgets::message;
use crate::widgets::scrollbar;
use crate::widgets::scrollbar::ScrollbarState;

verus! {

/// The texts of the text items of `items`, in order.
pub open spec fn item_texts(items: Seq<ItemView>) -> Seq<Seq<char>>
    decreases items.len(),
{
    if items.len() == 0 {
        Seq::empty()
    } else {
        let rest = item_texts(items.drop_last());
        match items.last() {
            ItemView::Text(t) => rest.push(t),
            ItemView::ImageUrl(_) => rest,
        }
    }
}

/// `parts` joined with single spaces.
pub open spec fn join_spaced(parts: Seq<Seq<char>>) -> Seq<char>
    decreases parts.len(),
{
    if parts.len() == 0 {
        Seq::empty()
    } else if parts.len() == 1 {
        parts[0]
    } else {
        join_spaced(parts.drop_last()) + " "@ + parts.last()
    }
}

/// The text that the view shows of a message's content: the text itself, or
/// the texts of a mixed message's text items joined with spaces.
pub open spec fn content_text(c: ContentView) -> Seq<char> {
    match c {
        ContentView::Text(s) => s,
        ContentView::Multimodal(items) => join_spaced(item_texts(items)),
    }
}

/// The text shown while the model is answering.
pub open spec fn thinking_text() -> Seq<char> {
    "\u{25CF} Thinking..."@
}

/// The rows of the view: each message of `history` as its role and text,
/// then, while `loading`, a row from the assistant saying it is thinking.
pub open spec fn body_lines(history: Seq<MessageView>, loading: bool) -> Seq<(Role, Seq<char>)> {
    history.map_values(|m: MessageView| (m.role, content_text(m.content))) + if loading {
        seq![(Role::Assistant, thinking_text())]
    } else {
        Seq::empty()
    }
}

/// The largest scroll position over `total` rows with `viewport` in view.
pub open spec fn max_scroll(total: int, viewport: int) -> int {
    if total > viewport {
        total - viewport
    } else {
        0
    }
}

/// `position` brought within the scroll range.
pub open spec fn clamped(position: int, total: int, viewport: int) -> int {
    if position < max_scroll(total, viewport) {
        position
    } else {
        max_scroll(total, viewport)
    }
}

/// The rows `[lo, hi)` that are shown: as many as fit, counted back from the
/// newest by how far the position is from the end of the scroll range.
pub open spec fn shown_range(total: int, viewport: int, position: int) -> (int, int) {
    let show = if viewport < total {
        viewport
    } else {
        total
    };
    let start = max_scroll(total, viewport) - clamped(position, total, viewport);
    (total - start - show, total - start)
}

impl View for message::Message {
    type V = (Role, Seq<char>);

    open spec fn view(&self) -> (Role, Seq<char>) {
        (self.role, self.content@)
    }
}

/// The conversation view widget; what it shows lives in a `BodyState`.
pub struct Body {}

impl Body {
    pub fn new() -> (r: Self)
        ensures
            r == (Body {}),
    {
        Body {}
    }
}

/// What the conversation view shows and where it is scrolled to.
pub struct BodyState {
    pub history: Vec<Message>,
    pub is_modifying: bool,
    pub is_loading: bool,
    pub scrollbar_state: ScrollbarState,
}

impl BodyState {
    /// The views of the history's messages.
    pub open spec fn history_view(&self) -> Seq<MessageView> {
        self.history@.map_values(|m: Message| m@)
    }

    /// An empty view over `rows` rows, scrolled to the last one.
    pub fn new(rows: usize) -> (r: Self)
        ensures
            r.history@.len() == 0,
            !r.is_modifying,
            !r.is_loading,
            r.scrollbar_state == (ScrollbarState {
                content_length: rows,
                position: scrollbar::last_position(rows),
                viewport_content_length: 0,
            }),
    {
        let max_scroll = rows.saturating_sub(1);
        let mut scrollbar_state = ScrollbarState::new(max_scroll).content_length(rows);
        scrollbar_state.last();
        BodyState { is_modifying: false, is_loading: false, history: Vec::new(), scrollbar_state }
    }
}

/// The text that the view shows of a message's content.
pub fn extract_content(content: &MessageContent) -> (r: String)
    ensures
        r@ == content_text(content@),
{
    match content {
        MessageContent::Text(s) => s.clone(),
        MessageContent::Multimodal(items) => {
            let ghost iv = items@.map_values(|i: MultimodalContentItem| i@);
            let mut out = String::new();
            let mut any = false;
            for i in 0..items.len()
                invariant
                    iv == items@.map_values(|i: MultimodalContentItem| i@),
                    out@ == join_spaced(item_texts(iv.take(i as int))),
                    any == (item_texts(iv.take(i as int)).len() > 0),
            {
                proof {
                    assert(iv.take(i + 1).drop_last() =~= iv.take(i as int));
                }
                let ghost rest = item_texts(iv.take(i as int));
                proof {
                    assert(iv[i as int] == items@[i as int]@);
                }
                match &items[i] {
                    MultimodalContentItem::Text { text } => {
                        proof {
                            assert(item_texts(iv.take(i + 1)) == rest.push(text@));
                            assert(rest.push(text@).drop_last() =~= rest);
                        }
                        if any {
                            out = out.concat(" ").concat(text.as_str());
                        } else {
                            out = text.clone();
                        }
                        any = true;
                    },
                    _ => {},
                }
            }
            proof {
                assert(iv.take(items.len() as int) =~= iv);
            }
            out
        },
    }
}

impl Body {
    /// Lays out the view for `viewport_height` rows: brings the scroll
    /// position within range, records the sizes in the scrollbar, and gives
    /// the rows to show, oldest first.
    pub fn visible_messages(state: &mut BodyState, viewport_height: usize) -> (r: Vec<
        message::Message,
    >)
        requires
            old(state).history@.len() < usize::MAX,
        ensures
            ({
                let lines = body_lines(old(state).history_view(), old(state).is_loading);
                let total = lines.len() as int;
                let (lo, hi) = shown_range(
                    total,
                    viewport_height as int,
                    old(state).scrollbar_state.position as int,
                );
                &&& r@.map_values(|m: message::Message| m@) == lines.subrange(lo, hi)
                &&& final(state).scrollbar_state == (ScrollbarState {
                    content_length: total as usize,
                    position: clamped(
                        old(state).scrollbar_state.position as int,
                        total,
                        viewport_height as int,
                    ) as usize,
                    viewport_content_length: viewport_height,
                })
            }),
            final(state).history == old(state).history,
            final(state).is_loading == old(state).is_loading,
            final(state).is_modifying == old(state).is_modifying,
    {
        let ghost hv = state.history_view();
        let ghost lines_spec = body_lines(hv, state.is_loading);
        let mut lines: Vec<message::Message> = Vec::new();
        for i in 0..state.history.len()
            invariant
                hv == state.history@.map_values(|m: Message| m@),
                lines@.len() == i,
                forall|j: int|
                    0 <= j < i ==> #[trigger] lines@[j]@ == (
                        state.history@[j]@.role,
                        content_text(state.history@[j]@.content),
                    ),
        {
            let m = &state.history[i];
            lines.push(message::Message::new(m.role, extract_content(&m.content)));
        }
        if state.is_loading {
            lines.push(message::Message::new(Role::Assistant, String::from_str("\u{25CF} Thinking...")));
        }
        assert(lines@.map_values(|m: message::Message| m@) =~= lines_spec);
        let total = lines.len();
        let max_scroll = total.saturating_sub(viewport_height);
        let pos = state.scrollbar_state.get_position();
        let current_position = if pos < max_scroll {
            pos
        } else {
            max_scroll
        };
        state.scrollbar_state = state.scrollbar_state.position(current_position).viewport_content_length(
            viewport_height,
        ).content_length(total);
        let lines_to_show = if viewport_height < total {
            viewport_height
        } else {
            total
        };
        let start_line = max_scroll - current_position;
        let hi = total - start_line;
        let lo = hi - lines_to_show;
        lines.truncate(hi);
        let shown = lines.split_off(lo);
        assert(shown@.map_values(|m: message::Message| m@) =~= lines_spec.subrange(
            lo as int,
            hi as int,
        ));
        shown
    }
}

/// The view always shows as many rows as fit, a contiguous run of them.
pub proof fn lemma_shown_range_fits(total: nat, viewport: nat, position: nat)
    ensures
        ({
            let (lo, hi) = shown_range(total as int, viewport as int, position as int);
            &&& 0 <= lo <= hi <= total
            &&& hi - lo == if viewport < total {
                viewport as int
            } else {
                total as int
            }
        }),
{
}

/// Scrolled to the end of its range (where a new view starts), the view
/// shows the newest row; scrolled to the start, it shows the oldest.
pub proof fn lemma_shown_range_ends(total: nat, viewport: nat, position: nat)
    ensures
        position >= max_scroll(total as int, viewport as int) ==> shown_range(
            total as int,
            viewport as int,
            position as int,
        ).1 == total,
        position == 0 ==> shown_range(total as int, viewport as int, position as int).0 == 0,
{
}

/// Laying the view out again with the same rows and height changes nothing:
/// the position it brought within range stays, and so do the rows shown.
pub proof fn lemma_layout_stable(total: nat, viewport: nat, position: nat)
    ensures
        clamped(clamped(position as int, total as int, viewport as int), total as int, viewport as int)
            == clamped(position as int, total as int, viewport as int),
        shown_range(
            total as int,
            viewport as int,
            clamped(position as int, total as int, viewport as int),
        ) == shown_range(total as int, viewport as int, position as int),
{
}

/// Every row that comes from the history carries the role and the shown text
/// of the message it comes from, in the history's order; the rows are the
/// history's messages, plus one more from the assistant while waiting.
pub proof fn lemma_rows_keep_roles(h: Seq<MessageView>, loading: bool)
    ensures
        body_lines(h, loading).len() == h.len() + if loading {
            1int
        } else {
            0int
        },
        forall|j: int|
            0 <= j < h.len() ==> #[trigger] body_lines(h, loading)[j].0 == h[j].role
                && body_lines(h, loading)[j].1 == content_text(h[j].content),
        loading ==> body_lines(h, loading)[h.len() as int] == (Role::Assistant, thinking_text()),
{
}

/// Each shown row that comes from the history carries the role of the
/// history message at the same place.
pub proof fn lemma_shown_rows_keep_roles(
    h: Seq<MessageView>,
    loading: bool,
    viewport: nat,
    position: nat,
)
    ensures
        ({
            let lines = body_lines(h, loading);
            let (lo, hi) = shown_range(lines.len() as int, viewport as int, position as int);
            forall|k: int|
                0 <= k < hi - lo && lo + k < h.len() ==> #[trigger] lines.subrange(lo, hi)[k].0
                    == h[lo + k].role
        }),
{
    lemma_rows_keep_roles(h, loading);
    let lines = body_lines(h, loading);
    lemma_shown_range_fits(lines.len(), viewport, position);
}

} // verus!
