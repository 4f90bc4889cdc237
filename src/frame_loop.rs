use vstd::prelude::*;

verus! {

/// A key as far as the loop tells keys apart: Escape, or another key by the
/// toolkit's key code.
#[derive(Clone, Copy, Debug, PartialEq, Eq, Structural)]
pub enum KeyCode {
    Escape,
    Other(i32),
}

/// What happened to a key.
#[derive(Clone, Copy, Debug, PartialEq, Eq, Structural)]
pub enum KeyAction {
    Press,
    Release,
    Repeat,
}

/// An event taken from the window's queue.
#[derive(Clone, Copy, Debug, PartialEq, Eq, Structural)]
pub enum Event {
    /// The framebuffer now has this width and height in pixels.
    FramebufferResize(i32, i32),
    /// A key event: the key, its platform scancode, the action and the
    /// modifier bits held.
    Key(KeyCode, i32, KeyAction, i32),
    /// Any other event; it is dropped.
    Other,
}

/// One step of a frame, in the order it is done.
#[derive(Clone, Copy, Debug, PartialEq, Eq, Structural)]
pub enum FrameCommand {
    /// Take the pending window and input events, without waiting.
    PollEvents,
    /// Clear the colour buffer.
    ClearColorBuffer,
    /// Present the back buffer.
    SwapBuffers,
}

/// The loop's own state: whether the window is to close.
#[derive(Clone, Copy, Debug, PartialEq, Eq, Structural)]
pub struct LoopState {
    pub close_flag: bool,
}

/// A press of the Escape key, whatever the scancode and modifiers.
pub open spec fn is_escape_press(e: Event) -> bool {
    e matches Event::Key(KeyCode::Escape, _, KeyAction::Press, _)
}

/// The state after one event is handled: an Escape press sets the close
/// flag; a framebuffer resize, any other key event and every other event
/// leave the state as it was.
pub open spec fn after_event(s: LoopState, e: Event) -> LoopState {
    LoopState { close_flag: s.close_flag || is_escape_press(e) }
}

/// The state after a frame's events are handled in turn.
pub open spec fn after_events(s: LoopState, es: Seq<Event>) -> LoopState {
    LoopState {
        close_flag: s.close_flag || exists|i: int| 0 <= i < es.len() && is_escape_press(#[trigger] es[i]),
    }
}

/// The steps of the next frame: none once the close flag is set, which ends
/// the loop; else poll, clear and swap.
pub open spec fn frame_plan_of(s: LoopState) -> Seq<FrameCommand> {
    if s.close_flag {
        Seq::empty()
    } else {
        seq![FrameCommand::PollEvents, FrameCommand::ClearColorBuffer, FrameCommand::SwapBuffers]
    }
}

impl LoopState {
    /// The state when the loop starts: the window stays open.
    pub fn new() -> (r: LoopState)
        ensures
            !r.close_flag,
    {
        LoopState { close_flag: false }
    }

    /// The window was asked to close by its own close control.
    pub fn request_close(&mut self)
        ensures
            final(self).close_flag,
    {
        self.close_flag = true;
    }

    /// The steps of the next frame.
    pub fn frame_plan(&self) -> (r: Vec<FrameCommand>)
        ensures
            r@ == frame_plan_of(*self),
    {
        if self.close_flag {
            Vec::new()
        } else {
            vec![FrameCommand::PollEvents, FrameCommand::ClearColorBuffer, FrameCommand::SwapBuffers]
        }
    }

    /// Handles one event.
    pub fn dispatch_event(&mut self, e: &Event)
        ensures
            *final(self) == after_event(*old(self), *e),
    {
        match e {
            Event::Key(KeyCode::Escape, _, KeyAction::Press, _) => {
                self.close_flag = true;
            },
            // The viewport is left at the size the window was created with.
            Event::FramebufferResize(_, _) => {},
            _ => {},
        }
    }

    /// Handles a frame's events in the order they came.
    pub fn dispatch_events(&mut self, es: &Vec<Event>)
        ensures
            *final(self) == after_events(*old(self), es@),
    {
        let ghost start = *self;
        let mut i: usize = 0;
        while i < es.len()
            invariant
                i <= es.len(),
                *self == after_events(start, es@.take(i as int)),
            decreases es.len() - i,
        {
            let ghost before = *self;
            self.dispatch_event(&es[i]);
            proof {
                let t = es@.take(i as int);
                let t1 = es@.take(i as int + 1);
                assert(t1 =~= t.push(es@[i as int]));
                if is_escape_press(es@[i as int]) {
                    assert(is_escape_press(t1[i as int]));
                }
                if exists|j: int| 0 <= j < t.len() && is_escape_press(#[trigger] t[j]) {
                    let j = choose|j: int| 0 <= j < t.len() && is_escape_press(#[trigger] t[j]);
                    assert(t1[j] == t[j]);
                }
                if exists|j: int| 0 <= j < t1.len() && is_escape_press(#[trigger] t1[j]) {
                    let j = choose|j: int| 0 <= j < t1.len() && is_escape_press(#[trigger] t1[j]);
                    if j < i {
                        assert(t[j] == t1[j]);
                    }
                }
            }
            i = i + 1;
        }
        assert(es@.take(es.len() as int) =~= es@);
    }
}

/// Once an Escape press is among a frame's events, the close flag is set
/// when they have been handled, and the next frame draws nothing: the loop
/// ends after that frame's swap.
pub proof fn lemma_escape_press_ends_loop(s: LoopState, es: Seq<Event>, i: int)
    requires
        0 <= i < es.len(),
        is_escape_press(es[i]),
    ensures
        after_events(s, es).close_flag,
        frame_plan_of(after_events(s, es)).len() == 0,
{
}

/// A framebuffer resize changes nothing: the state after it, every later
/// state and every later frame are what they would have been without it.
pub proof fn lemma_resize_is_ignored(s: LoopState, w: i32, h: i32, later: Seq<Event>)
    ensures
        after_event(s, Event::FramebufferResize(w, h)) == s,
        after_events(after_event(s, Event::FramebufferResize(w, h)), later) == after_events(
            s,
            later,
        ),
        frame_plan_of(after_events(after_event(s, Event::FramebufferResize(w, h)), later))
            == frame_plan_of(after_events(s, later)),
{
}

/// With no events and no close request a frame leaves the state as it was
/// and draws the same poll, clear and swap, so frames repeat unchanged.
pub proof fn lemma_idle_frame_is_stable(s: LoopState)
    requires
        !s.close_flag,
    ensures
        after_events(s, Seq::empty()) == s,
        frame_plan_of(s) == seq![
            FrameCommand::PollEvents,
            FrameCommand::ClearColorBuffer,
            FrameCommand::SwapBuffers,
        ],
        frame_plan_of(after_events(s, Seq::empty())) == frame_plan_of(s),
{
}

} // verus!
