//! How the application reacts to an event: what it changes in the input box
//! and the conversation view, and what it asks the caller to do.
use vstd::prelude::*;

use crate::events::{InputEvent, KeyCode, KeyEvent, MouseEventKind, ALT, CONTROL};
use crate::llm::client;
use crate::llm::client::{AsyncResult, Conversation, LLMError};
use crate::text;
use crate::widgets::body::BodyState;
use crate::widgets::input_box;
use crate::widgets::input_box::{InputBoxState, InputView, Offset};
use crate::widgets::scrollbar;
use crate::widgets::scrollbar::{ScrollDirection, ScrollbarState};

verus! {

/// What the caller has to do after an event.
#[derive(Clone, Debug)]
pub enum Action {
    /// Nothing more.
    Nothing,
    /// Send this message to the model in the background.
    Send(String),
    /// Quit.
    Terminate,
}

/// The abstract value of an `Action`.
pub enum ActionView {
    Nothing,
    Send(Seq<char>),
    Terminate,
}

impl View for Action {
    type V = ActionView;

    open spec fn view(&self) -> ActionView {
        match self {
            Action::Nothing => ActionView::Nothing,
            Action::Send(m) => ActionView::Send(m@),
            Action::Terminate => ActionView::Terminate,
        }
    }
}

/// The part of the view's state that input changes.
pub struct ViewState {
    pub loading: bool,
    pub scroll: ScrollbarState,
}

/// The scrollbar after one step in `direction`.
pub open spec fn scrolled(s: ScrollbarState, direction: ScrollDirection) -> ScrollbarState {
    match direction {
        ScrollDirection::Forward => ScrollbarState {
            position: scrollbar::next_position(s.position, s.content_length),
            ..s
        },
        ScrollDirection::Backward => ScrollbarState {
            position: scrollbar::prev_position(s.position),
            ..s
        },
    }
}

/// The scrollbar after a mouse event.
pub open spec fn after_mouse(kind: MouseEventKind, s: ScrollbarState) -> ScrollbarState {
    match kind {
        MouseEventKind::ScrollDown => scrolled(s, ScrollDirection::Forward),
        MouseEventKind::ScrollUp => scrolled(s, ScrollDirection::Backward),
        MouseEventKind::Other => s,
    }
}

/// Whether `e` sends the typed message: a plain Enter press.
pub open spec fn is_submit(e: InputEvent) -> bool {
    e matches InputEvent::Key(k) && k.is_press && k.code == KeyCode::Enter && k.modifiers != ALT
}

/// The input box, the view and the action after event `e`:
/// Down and Up scroll, Backspace deletes, Alt+Enter types a newline, Enter
/// sends the typed text unless it is empty or a reply is awaited, Ctrl+C
/// quits, another character is typed; mouse wheels scroll; the rest is ignored.
pub open spec fn after_input(e: InputEvent, v: InputView, s: ViewState) -> (InputView, ViewState, ActionView) {
    match e {
        InputEvent::Key(k) => if !k.is_press {
            (v, s, ActionView::Nothing)
        } else {
            match k.code {
                KeyCode::Down => (v, ViewState { scroll: scrolled(s.scroll, ScrollDirection::Forward), ..s }, ActionView::Nothing),
                KeyCode::Up => (v, ViewState { scroll: scrolled(s.scroll, ScrollDirection::Backward), ..s }, ActionView::Nothing),
                KeyCode::Backspace => (input_box::deleted(v), s, ActionView::Nothing),
                KeyCode::Enter => if k.modifiers == ALT {
                    (input_box::typed(v, '\n'), s, ActionView::Nothing)
                } else if v.text.len() > 0 && !s.loading {
                    (
                        InputView { text: Seq::empty(), cursor: Offset { x: 0, y: 0 }, ..v },
                        ViewState { loading: true, ..s },
                        ActionView::Send(v.text),
                    )
                } else {
                    (v, s, ActionView::Nothing)
                },
                KeyCode::Char(c) => if c == 'c' && k.modifiers == CONTROL {
                    (v, s, ActionView::Terminate)
                } else {
                    (input_box::typed(v, c), s, ActionView::Nothing)
                },
                KeyCode::Other => (v, s, ActionView::Nothing),
            }
        },
        InputEvent::Mouse(kind) => (v, ViewState { scroll: after_mouse(kind, s.scroll), ..s }, ActionView::Nothing),
        _ => (v, s, ActionView::Nothing),
    }
}

/// Whether handling `e` keeps the cursor of `v` within `i32`.
pub open spec fn input_fits(e: InputEvent, v: InputView) -> bool {
    e matches InputEvent::Key(k) ==> (k.is_press ==> match k.code {
        KeyCode::Backspace => input_box::can_delete(v),
        KeyCode::Enter => k.modifiers == ALT ==> input_box::can_type(v, '\n'),
        KeyCode::Char(c) => !(c == 'c' && k.modifiers == CONTROL) ==> input_box::can_type(v, c),
        _ => true,
    })
}

/// Whether handling `input_event` keeps the cursor within `i32`; handling it
/// panics otherwise.
pub fn input_allowed(input_event: InputEvent, input_state: &InputBoxState) -> (r: bool)
    requires
        text::byte_len(input_state@.text) + 8 <= isize::MAX,
    ensures
        r == input_fits(input_event, input_state@),
{
    match input_event {
        InputEvent::Key(key) => {
            if !key.is_press {
                return true;
            }
            match key.code {
                KeyCode::Backspace => input_state.can_clear(),
                KeyCode::Enter => if key.modifiers == ALT {
                    input_state.can_insert('\n')
                } else {
                    true
                },
                KeyCode::Char(c) => if c == 'c' && key.modifiers == CONTROL {
                    true
                } else {
                    input_state.can_insert(c)
                },
                _ => true,
            }
        },
        _ => true,
    }
}

/// Scrolls the view on a mouse-wheel event.
pub fn handle_mouse(kind: MouseEventKind, state: &mut BodyState)
    ensures
        final(state).scrollbar_state == after_mouse(kind, old(state).scrollbar_state),
        final(state).history == old(state).history,
        final(state).is_loading == old(state).is_loading,
        final(state).is_modifying == old(state).is_modifying,
{
    match kind {
        MouseEventKind::ScrollDown => state.scrollbar_state.scroll(ScrollDirection::Forward),
        MouseEventKind::ScrollUp => state.scrollbar_state.scroll(ScrollDirection::Backward),
        MouseEventKind::Other => {},
    }
}

/// Reacts to a terminal event; the caller performs the returned action.
pub fn handle_input(
    input_event: InputEvent,
    input_state: &mut InputBoxState,
    body_state: &mut BodyState,
) -> (r: Action)
    requires
        input_fits(input_event, old(input_state)@),
        text::byte_len(old(input_state)@.text) + 8 <= isize::MAX,
    ensures
        ({
            let (v, s, a) = after_input(
                input_event,
                old(input_state)@,
                ViewState { loading: old(body_state).is_loading, scroll: old(body_state).scrollbar_state },
            );
            &&& final(input_state)@ == v
            &&& final(body_state).is_loading == s.loading
            &&& final(body_state).scrollbar_state == s.scroll
            &&& r@ == a
        }),
        final(body_state).history == old(body_state).history,
        final(body_state).is_modifying == old(body_state).is_modifying,
{
    match input_event {
        InputEvent::Key(key) => {
            if key.is_press {
                match key.code {
                    KeyCode::Down => {
                        body_state.scrollbar_state.scroll(ScrollDirection::Forward);
                        Action::Nothing
                    },
                    KeyCode::Up => {
                        body_state.scrollbar_state.scroll(ScrollDirection::Backward);
                        Action::Nothing
                    },
                    KeyCode::Backspace => {
                        proof {
                            text::lemma_byte_len_bound(input_state.text@);
                        }
                        input_state.clear_last_char();
                        Action::Nothing
                    },
                    KeyCode::Enter => {
                        if key.modifiers == ALT {
                            input_state.insert_char('\n');
                            Action::Nothing
                        } else if !input_state.text.as_str().is_empty() && !body_state.is_loading {
                            let message = input_state.text.clone();
                            input_state.text = String::new();
                            input_state.cursor_offset = Offset::zero();
                            body_state.is_loading = true;
                            Action::Send(message)
                        } else {
                            Action::Nothing
                        }
                    },
                    KeyCode::Char(c) => {
                        if c == 'c' && key.modifiers == CONTROL {
                            Action::Terminate
                        } else {
                            input_state.insert_char(c);
                            Action::Nothing
                        }
                    },
                    KeyCode::Other => Action::Nothing,
                }
            } else {
                Action::Nothing
            }
        },
        InputEvent::Mouse(kind) => {
            handle_mouse(kind, body_state);
            Action::Nothing
        },
        _ => Action::Nothing,
    }
}

/// Applies the outcome of a background request to the conversation and the
/// view: the wait is over, and on success the view shows the new history.
/// Gives what applying the outcome reported (the error to show, on failure).
pub fn handle_api_response<L>(
    result: AsyncResult,
    conversation: &mut Conversation<L>,
    body_state: &mut BodyState,
) -> (r: Result<String, LLMError>)
    ensures
        (final(conversation)@, client::text_result(r)) == client::after_async(
            old(conversation)@,
            result@,
        ),
        final(conversation).client() == old(conversation).client(),
        !final(body_state).is_loading,
        r is Ok ==> final(body_state).history_view() == final(conversation)@,
        r is Err ==> final(body_state).history == old(body_state).history,
        final(body_state).scrollbar_state == old(body_state).scrollbar_state,
        final(body_state).is_modifying == old(body_state).is_modifying,
{
    let outcome = conversation.apply_async_result(result);
    body_state.is_loading = false;
    if outcome.is_ok() {
        body_state.history = conversation.history();
    }
    outcome
}

/// Only one request is out at a time: while a reply is awaited no event
/// sends, and an event that sends leaves the view waiting and the box empty.
pub proof fn lemma_one_request_at_a_time(e: InputEvent, v: InputView, s: ViewState)
    ensures
        s.loading ==> !(after_input(e, v, s).2 is Send),
        after_input(e, v, s).2 is Send ==> {
            &&& after_input(e, v, s).1.loading
            &&& after_input(e, v, s).0.text.len() == 0
            &&& after_input(e, v, s).2 == ActionView::Send(v.text)
            &&& v.text.len() > 0
        },
{
}

/// A plain Enter press with text typed and no reply awaited sends exactly
/// the typed text.
pub proof fn lemma_submit_sends_text(e: InputEvent, v: InputView, s: ViewState)
    requires
        is_submit(e),
        v.text.len() > 0,
        !s.loading,
    ensures
        after_input(e, v, s).2 == ActionView::Send(v.text),
{
}

/// A character key press other than Ctrl+C types that character whatever
/// modifiers are held (Shift for a capital letter, Alt, ...): the same
/// outcome for any two sets of modifier bits, the old text followed by the
/// character at the start of the new text, the view untouched, nothing to do.
pub proof fn lemma_typing_ignores_modifiers(
    c: char,
    m1: u8,
    m2: u8,
    v: InputView,
    s: ViewState,
)
    requires
        !(c == 'c' && m1 == CONTROL),
        !(c == 'c' && m2 == CONTROL),
    ensures
        ({
            let e1 = InputEvent::Key(KeyEvent { code: KeyCode::Char(c), modifiers: m1, is_press: true });
            let e2 = InputEvent::Key(KeyEvent { code: KeyCode::Char(c), modifiers: m2, is_press: true });
            let (w, t, a) = after_input(e1, v, s);
            &&& after_input(e1, v, s) == after_input(e2, v, s)
            &&& a == ActionView::Nothing
            &&& t == s
            &&& w.text.len() >= v.text.len() + 1
            &&& w.text.subrange(0, v.text.len() as int + 1) == v.text.push(c)
            &&& w.mode == v.mode
            &&& w.max_width == v.max_width
        }),
{
    let t = v.text.push(c);
    assert(t.subrange(0, v.text.len() as int + 1) =~= t);
    assert(t.push('\n').subrange(0, v.text.len() as int + 1) =~= t);
}

} // verus!
