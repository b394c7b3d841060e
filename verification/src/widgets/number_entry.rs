//! The numeric entry field: press and drag horizontally to scrub the value,
//! click (press and release without dragging) to type it, or scroll over it to
//! step it.
//!
//! The field's geometry and values are floating point and stay with the
//! caller. Each pointer event reaches [`State::update`] as an [`Input`] that
//! already holds the few facts the field decides on (was the pointer over
//! it, did it move far enough from where the press began, what text does the
//! field show), and comes back as the next state and a [`Reaction`] that says
//! what the caller does next. The drag origin `O` (where the press began and
//! the value at that moment) is carried through untouched.

use vstd::prelude::*;

verus! {

/// What the field is doing between events.
#[derive(Debug)]
pub enum State<O> {
    /// Nothing in progress.
    Idle,
    /// The button went down over the field; not yet a drag, maybe a click.
    Pending { origin: O },
    /// The pointer moved far enough while pressed: the value follows it.
    Dragging { origin: O },
    /// The value is being typed; `needs_focus` until the editor has taken focus.
    Editing { buffer: String, needs_focus: bool },
}

/// A pointer event, reduced to what the field decides on.
#[derive(Debug)]
pub enum Input<O> {
    /// The left button went down. `over`: the pointer is over the field;
    /// `origin`: where the press began (and the value then), when the pointer
    /// has a position.
    Press { over: bool, origin: Option<O> },
    /// The left button came up. `display`: the value as the field shows it,
    /// which becomes the text being edited after a click.
    Release { display: String },
    /// The pointer moved. `far`: it is at least the drag threshold away,
    /// horizontally, from the origin of a pending press.
    Move { far: bool },
    /// The wheel turned. `over`: the pointer is over the field.
    Wheel { over: bool },
    /// Any other event.
    Other,
}

/// What the caller does after an event.
#[derive(Debug, Clone, Copy, PartialEq, Eq, Structural)]
pub enum Reaction {
    /// Nothing: the event is not the field's.
    Ignored,
    /// The field is being edited: the event goes to the text editor.
    Forward,
    /// The field took the event.
    Capture,
    /// The editor opened: lay out again, redraw, and take the event.
    OpenEditor,
    /// Publish the value dragged to (clamped origin value plus the pointer's
    /// horizontal travel scaled per pixel) and take the event.
    PublishDrag,
    /// Publish the value stepped by the wheel (clamped) and take the event.
    PublishWheel,
}

/// The mouse cursor to show over the field.
#[derive(Debug, Clone, Copy, PartialEq, Eq, Structural)]
pub enum Interaction {
    /// The platform's default cursor.
    Idle,
    /// A text cursor.
    Text,
    /// A horizontal resize cursor, while dragging.
    ResizingHorizontally,
}

/// How the field is drawn.
#[derive(Debug, Clone, Copy, PartialEq, Eq, Structural)]
pub struct Appearance {
    /// A background is filled behind the field.
    pub filled: bool,
    /// The border takes the accent colour (else it is transparent).
    pub accent_border: bool,
    /// The text editor is drawn (else the value and its suffix, centred).
    pub editor: bool,
}

impl<O> State<O> {
    pub open spec fn editing(self) -> bool {
        self is Editing
    }

    /// The text being edited; empty unless editing.
    pub open spec fn buffer_view(self) -> Seq<char> {
        match self {
            State::Editing { buffer, .. } => buffer@,
            _ => Seq::empty(),
        }
    }

    /// Where the press began, while pending or dragging.
    pub open spec fn origin_of(self) -> Option<O> {
        match self {
            State::Pending { origin } => Some(origin),
            State::Dragging { origin } => Some(origin),
            _ => None,
        }
    }

    /// The state after the editor's text is replaced by `buffer`: only an
    /// editing state changes.
    pub open spec fn with_buffer(self, buffer: String) -> State<O> {
        match self {
            State::Editing { needs_focus, .. } => State::Editing { buffer, needs_focus },
            _ => self,
        }
    }

    /// The answer to the editor's request for focus, and the state after it:
    /// the text to start from, once, while editing and focus is still wanted.
    pub open spec fn focus_request(self) -> (Option<String>, State<O>) {
        match self {
            State::Editing { buffer, needs_focus } => if needs_focus {
                (Some(buffer), State::Editing { buffer, needs_focus: false })
            } else {
                (None, self)
            },
            _ => (None, self),
        }
    }

    /// The field's response to one event.
    ///
    /// | state    | event                        | next state          | reaction     |
    /// |----------|------------------------------|---------------------|--------------|
    /// | editing  | any                          | unchanged           | Forward      |
    /// | other    | press over, with an origin   | Pending at origin   | Capture      |
    /// | Pending  | release                      | Editing the display | OpenEditor   |
    /// | Dragging | release                      | Idle                | Capture      |
    /// | Pending  | move, far                    | Dragging, same origin | PublishDrag |
    /// | Dragging | move                         | unchanged           | PublishDrag  |
    /// | other    | wheel over                   | unchanged           | PublishWheel |
    /// | other    | anything else                | unchanged           | Ignored      |
    pub open spec fn transition(self, input: Input<O>) -> (State<O>, Reaction) {
        if self is Editing {
            (self, Reaction::Forward)
        } else {
            match input {
                Input::Press { over, origin } => match origin {
                    Some(o) if over => (State::Pending { origin: o }, Reaction::Capture),
                    _ => (self, Reaction::Ignored),
                },
                Input::Release { display } => match self {
                    State::Pending { .. } => (
                        State::Editing { buffer: display, needs_focus: true },
                        Reaction::OpenEditor,
                    ),
                    State::Dragging { .. } => (State::Idle, Reaction::Capture),
                    _ => (self, Reaction::Ignored),
                },
                Input::Move { far } => match self {
                    State::Pending { origin } => if far {
                        (State::Dragging { origin }, Reaction::PublishDrag)
                    } else {
                        (self, Reaction::Ignored)
                    },
                    State::Dragging { .. } => (self, Reaction::PublishDrag),
                    _ => (self, Reaction::Ignored),
                },
                Input::Wheel { over } => if over {
                    (self, Reaction::PublishWheel)
                } else {
                    (self, Reaction::Ignored)
                },
                Input::Other => (self, Reaction::Ignored),
            }
        }
    }

    /// Whether the text is being edited.
    pub fn is_editing(&self) -> (r: bool)
        ensures
            r == self.editing(),
    {
        match self {
            State::Editing { .. } => true,
            _ => false,
        }
    }

    /// Whether the value is being dragged.
    pub fn is_dragging(&self) -> (r: bool)
        ensures
            r == (*self is Dragging),
    {
        match self {
            State::Dragging { .. } => true,
            _ => false,
        }
    }

    /// The text being edited, or the empty string when not editing.
    pub fn buffer(&self) -> (r: &str)
        ensures
            r@ == self.buffer_view(),
    {
        proof {
            reveal_strlit("");
        }
        match self {
            State::Editing { buffer, .. } => buffer.as_str(),
            _ => "",
        }
    }

    /// Where the press began (with the value then), while pending or dragging.
    pub fn drag_origin(&self) -> (r: Option<&O>)
        ensures
            r == match self.origin_of() {
                Some(o) => Some(&o),
                None => None::<&O>,
            },
    {
        match self {
            State::Pending { origin } => Some(origin),
            State::Dragging { origin } => Some(origin),
            _ => None,
        }
    }

    /// Takes one pointer event; see [`State::transition`] for the table.
    pub fn update(self, input: Input<O>) -> (r: (State<O>, Reaction))
        ensures
            r == self.transition(input),
    {
        if self.is_editing() {
            return (self, Reaction::Forward);
        }
        match input {
            Input::Press { over, origin } => match origin {
                Some(o) => if over {
                    (State::Pending { origin: o }, Reaction::Capture)
                } else {
                    (self, Reaction::Ignored)
                },
                None => (self, Reaction::Ignored),
            },
            Input::Release { display } => match self {
                State::Pending { .. } => (
                    State::Editing { buffer: display, needs_focus: true },
                    Reaction::OpenEditor,
                ),
                State::Dragging { .. } => (State::Idle, Reaction::Capture),
                other => (other, Reaction::Ignored),
            },
            Input::Move { far } => match self {
                State::Pending { origin } => if far {
                    (State::Dragging { origin }, Reaction::PublishDrag)
                } else {
                    (State::Pending { origin }, Reaction::Ignored)
                },
                State::Dragging { origin } => (State::Dragging { origin }, Reaction::PublishDrag),
                other => (other, Reaction::Ignored),
            },
            Input::Wheel { over } => if over {
                (self, Reaction::PublishWheel)
            } else {
                (self, Reaction::Ignored)
            },
            Input::Other => (self, Reaction::Ignored),
        }
    }

    /// Replaces the text being edited; does nothing when not editing.
    pub fn set_buffer(&mut self, buffer: String)
        ensures
            *final(self) == old(self).with_buffer(buffer),
    {
        if let State::Editing { buffer: slot, .. } = self {
            *slot = buffer;
        }
    }

    /// The editor asks once for focus after it opens: the first call returns
    /// the text to start from and clears the request, later calls return `None`.
    pub fn take_focus_request(&mut self) -> (r: Option<String>)
        ensures
            (r, *final(self)) == old(self).focus_request(),
    {
        match self {
            State::Editing { buffer, needs_focus } => {
                if *needs_focus {
                    *needs_focus = false;
                    Some(buffer.clone())
                } else {
                    None
                }
            },
            _ => None,
        }
    }

    /// Leaves whatever was in progress.
    pub fn set_idle(&mut self)
        ensures
            *final(self) == State::<O>::Idle,
    {
        *self = State::Idle;
    }

    /// Ends editing: returns the text to publish (empty when not editing)
    /// and leaves the field idle. The caller publishes it when it reads as a
    /// number, then lays out again and redraws.
    pub fn commit(&mut self) -> (r: String)
        ensures
            r@ == old(self).buffer_view(),
            *final(self) == State::<O>::Idle,
    {
        let mut taken = State::Idle;
        std::mem::swap(&mut taken, self);
        match taken {
            State::Editing { buffer, .. } => buffer,
            _ => String::new(),
        }
    }

    /// The cursor over the field: resize while dragging, text while editing or
    /// hovered, the default otherwise.
    pub fn mouse_interaction(&self, cursor_over: bool) -> (r: Interaction)
        ensures
            r == (if *self is Dragging {
                Interaction::ResizingHorizontally
            } else if self.editing() || cursor_over {
                Interaction::Text
            } else {
                Interaction::Idle
            }),
    {
        if self.is_dragging() {
            Interaction::ResizingHorizontally
        } else if self.is_editing() || cursor_over {
            Interaction::Text
        } else {
            Interaction::Idle
        }
    }

    /// How the field is drawn: a background while hovered or busy (editing,
    /// pending or dragging), an accent border and the editor while editing.
    pub fn appearance(&self, cursor_over: bool) -> (r: Appearance)
        ensures
            r.filled == (cursor_over || !(*self is Idle)),
            r.accent_border == self.editing(),
            r.editor == self.editing(),
    {
        let editing = self.is_editing();
        let busy = match self {
            State::Idle => false,
            _ => true,
        };
        Appearance { filled: cursor_over || busy, accent_border: editing, editor: editing }
    }
}

impl<O> Default for State<O> {
    fn default() -> (r: Self)
        ensures
            r == State::<O>::Idle,
    {
        State::Idle
    }
}

/// While the text is being edited, every event goes to the editor and the
/// state stays as it is.
pub proof fn lemma_editing_forwards_everything<O>(state: State<O>, input: Input<O>)
    requires
        state.editing(),
    ensures
        state.transition(input) == (state, Reaction::Forward),
{
}

/// A click (a press over the field, then a release without a drag) opens the
/// editor on the displayed value and asks for focus, from any state but
/// editing.
pub proof fn lemma_click_opens_editor<O>(state: State<O>, origin: O, display: String)
    requires
        !state.editing(),
    ensures
        ({
            let (pressed, first) = state.transition(Input::Press { over: true, origin: Some(origin) });
            let (released, second) = pressed.transition(Input::Release { display });
            &&& pressed == State::Pending { origin }
            &&& first == Reaction::Capture
            &&& released == (State::Editing::<O> { buffer: display, needs_focus: true })
            &&& second == Reaction::OpenEditor
        }),
{
}

/// A press, a move past the threshold and any further moves drag the value
/// from the press's origin, publishing at every move; the release ends the
/// drag without opening the editor.
pub proof fn lemma_drag_publishes_then_ends<O>(
    state: State<O>,
    origin: O,
    later_far: bool,
    display: String,
)
    requires
        !state.editing(),
    ensures
        ({
            let (pressed, _) = state.transition(Input::Press { over: true, origin: Some(origin) });
            let (dragging, first) = pressed.transition(Input::Move { far: true });
            let (still, second) = dragging.transition(Input::Move { far: later_far });
            let (released, third) = still.transition(Input::Release { display });
            &&& dragging == State::Dragging { origin }
            &&& first == Reaction::PublishDrag
            &&& still == dragging
            &&& second == Reaction::PublishDrag
            &&& released == State::<O>::Idle
            &&& third == Reaction::Capture
        }),
{
}

/// Moving less than the threshold keeps a press pending: nothing is published
/// and a release still opens the editor.
pub proof fn lemma_small_moves_keep_a_click<O>(origin: O)
    ensures
        (State::Pending { origin }).transition(Input::Move { far: false }) == (
            State::Pending { origin },
            Reaction::Ignored,
        ),
{
}

/// Outside editing, the wheel never changes the state; it steps the value
/// only over the field.
pub proof fn lemma_wheel_keeps_state<O>(state: State<O>, over: bool)
    requires
        !state.editing(),
    ensures
        state.transition(Input::Wheel { over }).0 == state,
        state.transition(Input::Wheel { over }).1 == (if over {
            Reaction::PublishWheel
        } else {
            Reaction::Ignored
        }),
{
}

/// A press that is not over the field, or has no position, leaves the field
/// alone.
pub proof fn lemma_press_elsewhere_ignored<O>(state: State<O>, over: bool, origin: Option<O>)
    requires
        !over || origin is None,
    ensures
        state.transition(Input::Press { over, origin }).0 == state,
        !state.editing() ==> state.transition(Input::Press { over, origin }).1 == Reaction::Ignored,
{
}

/// The editor gets the text to start from once: a second request, with
/// nothing in between, gets nothing and changes nothing.
pub proof fn lemma_focus_requested_once<O>(state: State<O>)
    ensures
        ({
            let (_, after) = state.focus_request();
            &&& after.focus_request().0 is None
            &&& after.focus_request().1 == after
            &&& after.buffer_view() == state.buffer_view()
        }),
{
}

/// What is typed is what is committed: after a click opens the editor and the
/// text is replaced, the focus request and the commit hand out that text.
pub proof fn lemma_typed_text_is_committed<O>(
    state: State<O>,
    origin: O,
    display: String,
    typed: String,
)
    requires
        !state.editing(),
    ensures
        ({
            let (pressed, _) = state.transition(Input::Press { over: true, origin: Some(origin) });
            let (editing, _) = pressed.transition(Input::Release { display });
            let (focus_text, focused) = editing.focus_request();
            &&& focus_text == Some(display)
            &&& focused.with_buffer(typed).buffer_view() == typed@
            &&& focused.with_buffer(typed).editing()
        }),
{
}

/// When each reaction comes, outside editing: the field takes an event only
/// for a press over it with a position, a release ending a press or a drag,
/// a move of a pending press past the threshold or of a drag, and a wheel
/// turned over it. Every other event (a move while idle, a release while
/// idle, anything that is not a pointer event) is ignored.
pub proof fn lemma_when_each_reaction_comes<O>(state: State<O>, input: Input<O>)
    requires
        !state.editing(),
    ensures
        ({
            let r = state.transition(input).1;
            &&& r != Reaction::Forward
            &&& (r == Reaction::Capture) == ((input matches Input::Press { over: true, origin: Some(_) })
                || (input is Release && state is Dragging))
            &&& (r == Reaction::OpenEditor) == (input is Release && state is Pending)
            &&& (r == Reaction::PublishDrag) == ((input matches Input::Move { far: true }
                && state is Pending) || (input is Move && state is Dragging))
            &&& (r == Reaction::PublishWheel) == (input matches Input::Wheel { over: true })
            &&& (r == Reaction::Ignored) == !(
                (input matches Input::Press { over: true, origin: Some(_) })
                || (input is Release && (state is Pending || state is Dragging))
                || (input is Move && (state is Pending || state is Dragging) && (
                    input matches Input::Move { far: true } || state is Dragging))
                || (input matches Input::Wheel { over: true })
            )
        }),
{
}

/// Where each event leads, outside editing: an ignored event and a wheel step
/// leave the state as it was; a press over the field makes it pending at the
/// press's origin; a release ends in the editor (from a press) or idle (from
/// a drag); a drag keeps the origin of the press it came from.
pub proof fn lemma_where_each_event_leads<O>(state: State<O>, input: Input<O>)
    requires
        !state.editing(),
    ensures
        ({
            let (next, r) = state.transition(input);
            &&& (r == Reaction::Ignored || r == Reaction::PublishWheel) ==> next == state
            &&& input matches Input::Press { over: true, origin: Some(o) } ==> next == (State::Pending {
                origin: o,
            })
            &&& state is Pending ==> (input matches Input::Release { display } ==> next == (
            State::Editing::<O> { buffer: display, needs_focus: true }))
            &&& (input is Release && state is Dragging) ==> next == State::<O>::Idle
            &&& r == Reaction::PublishDrag ==> next == (State::Dragging {
                origin: state.origin_of().unwrap(),
            })
        }),
{
}

/// A move never changes an idle field, and never does anything but drag:
/// outside a pending press or a drag it is ignored whatever its distance.
pub proof fn lemma_moves_only_drag<O>(state: State<O>, far: bool)
    requires
        !(state is Pending),
        !(state is Dragging),
        !state.editing(),
    ensures
        state.transition(Input::Move { far }) == (state, Reaction::Ignored),
{
}

/// An event that is not a pointer event is never the field's, and never
/// drops a press or a drag in progress.
pub proof fn lemma_other_events_change_nothing<O>(state: State<O>)
    requires
        !state.editing(),
    ensures
        state.transition(Input::Other) == (state, Reaction::Ignored),
{
}

/// Only a press over the field moves it out of idle: a release, a move, a
/// wheel or anything else leaves an idle field idle.
pub proof fn lemma_idle_leaves_only_on_press<O>(input: Input<O>)
    ensures
        !(input matches Input::Press { over: true, origin: Some(_) }) ==> State::<O>::Idle.transition(
            input,
        ).0 == State::<O>::Idle,
        State::<O>::Idle.transition(input).1 != Reaction::OpenEditor,
        State::<O>::Idle.transition(input).1 != Reaction::PublishDrag,
{
}

/// The editor's request for focus is answered only while editing with the
/// request open, with the text being edited; then the request is closed and
/// the text kept. In every other state it gets nothing and changes nothing,
/// so a press or drag in progress is not disturbed.
pub proof fn lemma_focus_request_answer<O>(state: State<O>)
    ensures
        (state matches State::Editing { needs_focus: true, .. }) ==> {
            &&& state.focus_request().0 == Some(state->buffer)
            &&& state.focus_request().1 == (State::Editing::<O> {
                buffer: state->buffer,
                needs_focus: false,
            })
        },
        !(state matches State::Editing { needs_focus: true, .. }) ==> state.focus_request() == (
            None::<String>,
            state,
        ),
{
}

/// Replacing the editor's text changes only an editor, keeps its focus
/// request, and makes the new text the one being edited.
pub proof fn lemma_set_buffer_changes_only_the_text<O>(state: State<O>, buffer: String)
    ensures
        !state.editing() ==> state.with_buffer(buffer) == state,
        state.editing() ==> {
            &&& state.with_buffer(buffer).editing()
            &&& state.with_buffer(buffer).buffer_view() == buffer@
            &&& state.with_buffer(buffer)->needs_focus == state->needs_focus
        },
{
}

/// A drag scrubs from where its press began: moving a pending press past
/// the threshold, or moving a drag, keeps that origin; the text being
/// edited is empty unless editing, and the origin is known only while a
/// press or drag is in progress.
pub proof fn lemma_drag_keeps_the_press_origin<O>(state: State<O>, far: bool)
    ensures
        state matches State::Pending { origin } ==> (far ==> state.transition(Input::Move { far })
            == (State::Dragging { origin }, Reaction::PublishDrag)),
        state matches State::Dragging { origin } ==> state.transition(Input::Move { far }) == (
            State::Dragging { origin },
            Reaction::PublishDrag,
        ),
        !state.editing() ==> state.buffer_view() == Seq::<char>::empty(),
        state matches State::Editing { buffer, .. } ==> state.buffer_view() == buffer@,
        (state is Pending || state is Dragging) <==> state.origin_of() is Some,
        state matches State::Pending { origin } ==> state.origin_of() == Some(origin),
        state matches State::Dragging { origin } ==> state.origin_of() == Some(origin),
{
}

} // verus!
