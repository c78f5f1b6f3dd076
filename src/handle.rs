//! The host-side handle: typed operations that each queue one command for the
//! worker thread and return at once.

use vstd::prelude::*;
use std::sync::mpsc::Sender;
use crate::command::Command;
use crate::event::{ButtonState, MouseEvent, PointerButton};
use crate::poll::{CellObservation, FramePoll, PollAction, PollState, claimed, issued, spec_action, spec_next};

verus! {

/// std::sync::mpsc::Sender, the sending end of the worker's unbounded FIFO
/// queue, carried through opaquely.
#[verifier::external_type_specification]
#[verifier::external_body]
#[verifier::reject_recursive_types(T)]
pub struct ExSender<T>(Sender<T>);

/// The worker has shut down: the instance is dead and is not retried.
#[derive(Clone, Copy, Debug, PartialEq, Eq, Structural)]
pub struct EngineUnavailable;

/// Relies on std::sync::mpsc::Sender::send: it queues the command behind
/// every command sent before it, and fails only when the receiving worker is
/// gone. Whether it is gone is decided outside, so nothing is promised.
#[verifier::external_body]
fn send_command<S>(tx: &Sender<Command<S>>, c: Command<S>) -> (r: Result<(), EngineUnavailable>) {
    tx.send(c).map_err(|_| EngineUnavailable)
}

/// The sending end of one engine instance's command queue, with a log of
/// every command it has queued, oldest first.
#[verifier::reject_recursive_types(S)]
pub struct Ultralight<S> {
    sender: Sender<Command<S>>,
    sent: Ghost<Seq<Command<S>>>,
}

impl<S> Ultralight<S> {
    /// The commands this handle has queued, in the order they were queued.
    /// The worker runs them in that order.
    pub closed spec fn sent(&self) -> Seq<Command<S>> {
        self.sent@
    }

    /// A handle over the queue whose receiving end the worker thread drains.
    pub fn new(sender: Sender<Command<S>>) -> (r: Ultralight<S>)
        ensures
            r.sent() == Seq::<Command<S>>::empty(),
    {
        Ultralight { sender, sent: Ghost(Seq::empty()) }
    }

    /// Queues `c` behind everything queued before. Fails with
    /// `EngineUnavailable` once the worker is gone, and then queues nothing.
    pub fn submit(&mut self, c: Command<S>) -> (r: Result<(), EngineUnavailable>)
        ensures
            r is Ok ==> final(self).sent() == old(self).sent().push(c),
            r is Err ==> final(self).sent() == old(self).sent(),
    {
        let ghost queued = c;
        let r = send_command(&self.sender, c);
        match r {
            Ok(()) => {
                proof {
                    self.sent = Ghost(self.sent@.push(queued));
                }
            },
            Err(_) => {},
        }
        r
    }

    /// Queues `Command::load_content(html)`.
    pub fn load_html(&mut self, html: &str) -> (r: Result<(), EngineUnavailable>)
        ensures
            r is Ok ==> {
                &&& final(self).sent().len() == old(self).sent().len() + 1
                &&& final(self).sent().drop_last() == old(self).sent()
                &&& final(self).sent().last() matches Command::LoadContent(s) && s@ == html@
            },
            r is Err ==> final(self).sent() == old(self).sent(),
    {
        let r = self.submit(Command::load_content(html));
        proof {
            if r is Ok {
                assert(final(self).sent().drop_last() =~= old(self).sent());
            }
        }
        r
    }

    /// Queues one update and render pass.
    pub fn update(&mut self) -> (r: Result<(), EngineUnavailable>)
        ensures
            r is Ok ==> final(self).sent() == old(self).sent().push(Command::Advance),
            r is Err ==> final(self).sent() == old(self).sent(),
    {
        self.submit(Command::advance())
    }

    /// Queues a pointer move to `(x, y)`, given in the engine's coordinates.
    pub fn fire_mouse_motion_event(&mut self, x: i32, y: i32) -> (r: Result<(), EngineUnavailable>)
        ensures
            r is Ok ==> final(self).sent() == old(self).sent().push(
                Command::FireMouseEvent(MouseEvent::motion_spec(x, y)),
            ),
            r is Err ==> final(self).sent() == old(self).sent(),
    {
        self.submit(Command::pointer_motion(x, y))
    }

    /// Queues a button event at `(x, y)`; an unrecognised button goes out
    /// with the neutral engine button.
    pub fn fire_mouse_button_event(
        &mut self,
        x: i32,
        y: i32,
        button: PointerButton,
        state: ButtonState,
    ) -> (r: Result<(), EngineUnavailable>)
        ensures
            r is Ok ==> final(self).sent() == old(self).sent().push(
                Command::FireMouseEvent(MouseEvent::button_spec(x, y, button, state)),
            ),
            r is Err ==> final(self).sent() == old(self).sent(),
    {
        self.submit(Command::pointer_button(x, y, button, state))
    }

    /// Queues the evaluation of `code`; its value is discarded.
    pub fn execute_javascript(&mut self, code: &str) -> (r: Result<(), EngineUnavailable>)
        ensures
            r is Ok ==> {
                &&& final(self).sent().len() == old(self).sent().len() + 1
                &&& final(self).sent().drop_last() == old(self).sent()
                &&& final(self).sent().last() matches Command::EvaluateScript(s) && s@ == code@
            },
            r is Err ==> final(self).sent() == old(self).sent(),
    {
        let r = self.submit(Command::evaluate_script(code));
        proof {
            if r is Ok {
                assert(final(self).sent().drop_last() =~= old(self).sent());
            }
        }
        r
    }

    /// Queues a capture of the rendered surface into `sink`, the result cell
    /// the caller keeps and polls.
    pub fn receive_texture_buffer(&mut self, sink: S) -> (r: Result<(), EngineUnavailable>)
        ensures
            r is Ok ==> final(self).sent() == old(self).sent().push(Command::CaptureFrame(sink)),
            r is Err ==> final(self).sent() == old(self).sent(),
    {
        self.submit(Command::capture_frame(sink))
    }
}

/// A host-side instance: its handle and its poll state. Captures are queued
/// only by `tick`, so the poll state accounts for every one of them.
#[verifier::reject_recursive_types(S)]
pub struct UltralightInstance<S> {
    instance: Ultralight<S>,
    state: FramePoll,
}

impl<S> UltralightInstance<S> {
    pub closed spec fn poll(&self) -> FramePoll {
        self.state
    }

    /// The commands this instance has queued, oldest first.
    pub closed spec fn sent(&self) -> Seq<Command<S>> {
        self.instance.sent()
    }

    pub open spec fn wf(&self) -> bool {
        self.poll().wf()
    }

    /// An instance over a fresh handle, with no capture requested yet.
    pub fn new(instance: Ultralight<S>) -> (r: UltralightInstance<S>)
        ensures
            r.wf(),
            r.poll().spec_state() == PollState::Idle,
            r.poll().requested() == 0,
            r.poll().taken() == 0,
            r.sent() == instance.sent(),
    {
        UltralightInstance { instance, state: FramePoll::new() }
    }

    /// Replaces the view's document.
    pub fn set_html(&mut self, html: &str) -> (r: Result<(), EngineUnavailable>)
        ensures
            final(self).poll() == old(self).poll(),
            r is Ok ==> {
                &&& final(self).sent().len() == old(self).sent().len() + 1
                &&& final(self).sent().drop_last() == old(self).sent()
                &&& final(self).sent().last() matches Command::LoadContent(s) && s@ == html@
            },
            r is Err ==> final(self).sent() == old(self).sent(),
    {
        self.instance.load_html(html)
    }

    /// Injects a pointer event.
    pub fn fire_mouse_event(&mut self, e: MouseEvent) -> (r: Result<(), EngineUnavailable>)
        ensures
            final(self).poll() == old(self).poll(),
            r is Ok ==> final(self).sent() == old(self).sent().push(Command::FireMouseEvent(e)),
            r is Err ==> final(self).sent() == old(self).sent(),
    {
        self.instance.submit(Command::FireMouseEvent(e))
    }

    /// Evaluates `code` in the view; its value is discarded.
    pub fn execute_javascript(&mut self, code: &str) -> (r: Result<(), EngineUnavailable>)
        ensures
            final(self).poll() == old(self).poll(),
            r is Ok ==> {
                &&& final(self).sent().len() == old(self).sent().len() + 1
                &&& final(self).sent().drop_last() == old(self).sent()
                &&& final(self).sent().last() matches Command::EvaluateScript(s) && s@ == code@
            },
            r is Err ==> final(self).sent() == old(self).sent(),
    {
        self.instance.execute_javascript(code)
    }

    pub fn poll_state(&self) -> (r: PollState)
        ensures
            r == self.poll().spec_state(),
    {
        self.state.state()
    }

    /// One host frame: queues an update and render pass, then takes one
    /// poll step on what the outstanding cell was found to hold, and queues
    /// `fresh` as the new result cell exactly when the step issues a request.
    /// The caller keeps its own reference to `fresh`. When the worker is gone
    /// the poll state is left as it was, and at most the update was queued.
    pub fn tick(&mut self, obs: CellObservation, fresh: S) -> (r: Result<
        PollAction,
        EngineUnavailable,
    >)
        requires
            old(self).wf(),
        ensures
            final(self).wf(),
            0 <= final(self).poll().outstanding() <= 1,
            r matches Ok(a) ==> {
                &&& a == spec_action(old(self).poll().spec_state(), obs)
                &&& final(self).poll().spec_state() == spec_next(old(self).poll().spec_state(), obs)
                &&& final(self).poll().requested() == old(self).poll().requested() + issued(a)
                &&& final(self).poll().taken() == old(self).poll().taken() + claimed(a)
                &&& final(self).sent() == old(self).sent().push(Command::Advance) + (if issued(a)
                    == 1 {
                    seq![Command::CaptureFrame(fresh)]
                } else {
                    Seq::<Command<S>>::empty()
                })
            },
            r is Err ==> final(self).poll() == old(self).poll(),
            r is Err ==> final(self).sent() == old(self).sent() || final(self).sent() == old(
                self,
            ).sent().push(Command::Advance),
    {
        match self.instance.update() {
            Err(e) => return Err(e),
            Ok(()) => {},
        }
        let ghost after_update = self.instance.sent();
        let ghost sink = fresh;
        let before = self.state;
        let action = self.state.step(obs);
        if action.requests_frame() {
            match self.instance.receive_texture_buffer(fresh) {
                Err(e) => {
                    self.state = before;
                    return Err(e);
                },
                Ok(()) => {},
            }
            assert(self.instance.sent() =~= after_update + seq![Command::CaptureFrame(sink)]);
        } else {
            assert(self.instance.sent() =~= after_update + Seq::<Command<S>>::empty());
        }
        Ok(action)
    }
}

} // verus!
