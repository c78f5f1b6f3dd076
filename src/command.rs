//! The commands a handle submits to the engine's worker thread, and the
//! native operations the worker performs for each.

use vstd::prelude::*;
use vstd::string::StringExecFns;
use crate::event::{ButtonState, MouseEvent, PointerButton};

verus! {

/// One unit of work for the worker. `S` is the result cell a frame capture
/// writes into.
#[derive(Debug, PartialEq)]
pub enum Command<S> {
    /// Replace the view's document and give the view input focus.
    LoadContent(String),
    /// One update and render pass of the engine.
    Advance,
    /// Inject a pointer event.
    FireMouseEvent(MouseEvent),
    /// Evaluate a script in the view; its value is discarded.
    EvaluateScript(String),
    /// Copy the rendered surface into the given cell.
    CaptureFrame(S),
}

/// One call against the worker's native resources.
#[derive(Debug, PartialEq)]
pub enum NativeOp<S> {
    LoadHtml(String),
    Focus,
    Update,
    Render,
    FireMouseEvent(MouseEvent),
    EvaluateScript(String),
    CaptureSurface(S),
    DestroyView,
    DestroyRenderer,
    DestroyConfig,
}

/// The native calls a command stands for, in the order they are made.
pub open spec fn ops_of<S>(c: Command<S>) -> Seq<NativeOp<S>> {
    match c {
        Command::LoadContent(html) => seq![NativeOp::LoadHtml(html), NativeOp::Focus],
        Command::Advance => seq![NativeOp::Update, NativeOp::Render],
        Command::FireMouseEvent(e) => seq![NativeOp::FireMouseEvent(e)],
        Command::EvaluateScript(code) => seq![NativeOp::EvaluateScript(code)],
        Command::CaptureFrame(sink) => seq![NativeOp::CaptureSurface(sink)],
    }
}

/// The native calls made when `cmds` run one after another, each to
/// completion before the next begins.
pub open spec fn trace<S>(cmds: Seq<Command<S>>) -> Seq<NativeOp<S>>
    decreases cmds.len(),
{
    if cmds.len() == 0 {
        Seq::empty()
    } else {
        ops_of(cmds[0]) + trace(cmds.drop_first())
    }
}

/// The resources are released in reverse order of creation: view, renderer,
/// then configuration.
pub open spec fn spec_teardown<S>() -> Seq<NativeOp<S>> {
    seq![NativeOp::DestroyView, NativeOp::DestroyRenderer, NativeOp::DestroyConfig]
}

/// Running `a` and then `b` makes the calls of `a` and then those of `b`:
/// commands take effect in the order they were queued, and no two interleave.
pub proof fn lemma_trace_in_order<S>(a: Seq<Command<S>>, b: Seq<Command<S>>)
    ensures
        trace(a + b) == trace(a) + trace(b),
    decreases a.len(),
{
    if a.len() == 0 {
        assert(a + b =~= b);
        assert(trace(a) + trace(b) =~= trace(b));
    } else {
        assert((a + b).drop_first() =~= a.drop_first() + b);
        lemma_trace_in_order(a.drop_first(), b);
        assert(trace(a + b) =~= trace(a) + trace(b));
    }
}

/// Running one more command appends its calls to the trace so far.
pub proof fn lemma_trace_push<S>(a: Seq<Command<S>>, c: Command<S>)
    ensures
        trace(a.push(c)) == trace(a) + ops_of(c),
{
    lemma_trace_in_order(a, seq![c]);
    assert(a.push(c) =~= a + seq![c]);
    let one = seq![c];
    assert(one.drop_first() =~= Seq::<Command<S>>::empty());
    assert(trace(one.drop_first()) =~= Seq::<NativeOp<S>>::empty());
    assert(trace(one) =~= ops_of(c));
}

impl<S> Command<S> {
    /// Load `html` as the view's document.
    pub fn load_content(html: &str) -> (r: Command<S>)
        ensures
            r matches Command::LoadContent(s) && s@ == html@,
    {
        Command::LoadContent(html.to_owned())
    }

    pub fn advance() -> (r: Command<S>)
        ensures
            r == Command::<S>::Advance,
    {
        Command::Advance
    }

    /// Move the pointer to `(x, y)`.
    pub fn pointer_motion(x: i32, y: i32) -> (r: Command<S>)
        ensures
            r == Command::<S>::FireMouseEvent(MouseEvent::motion_spec(x, y)),
    {
        Command::FireMouseEvent(MouseEvent::motion(x, y))
    }

    /// Press or release `button` at `(x, y)`; an unrecognised button is sent
    /// with the neutral engine button.
    pub fn pointer_button(x: i32, y: i32, button: PointerButton, state: ButtonState) -> (r: Command<
        S,
    >)
        ensures
            r == Command::<S>::FireMouseEvent(MouseEvent::button_spec(x, y, button, state)),
    {
        Command::FireMouseEvent(MouseEvent::button(x, y, button, state))
    }

    /// Evaluate `code` in the view.
    pub fn evaluate_script(code: &str) -> (r: Command<S>)
        ensures
            r matches Command::EvaluateScript(s) && s@ == code@,
    {
        Command::EvaluateScript(code.to_owned())
    }

    /// Capture the surface into `sink`.
    pub fn capture_frame(sink: S) -> (r: Command<S>)
        ensures
            r == Command::CaptureFrame(sink),
    {
        Command::CaptureFrame(sink)
    }

    /// The native calls this command stands for.
    pub fn into_native_ops(self) -> (r: Vec<NativeOp<S>>)
        ensures
            r@ == ops_of(self),
    {
        let mut v: Vec<NativeOp<S>> = Vec::new();
        match self {
            Command::LoadContent(html) => {
                v.push(NativeOp::LoadHtml(html));
                v.push(NativeOp::Focus);
            },
            Command::Advance => {
                v.push(NativeOp::Update);
                v.push(NativeOp::Render);
            },
            Command::FireMouseEvent(e) => {
                v.push(NativeOp::FireMouseEvent(e));
            },
            Command::EvaluateScript(code) => {
                v.push(NativeOp::EvaluateScript(code));
            },
            Command::CaptureFrame(sink) => {
                v.push(NativeOp::CaptureSurface(sink));
            },
        }
        assert(v@ =~= ops_of(self));
        v
    }
}

/// The native calls for a batch of commands taken from the queue, in queue
/// order, each command's calls together.
pub fn plan_batch<S>(cmds: Vec<Command<S>>) -> (r: Vec<NativeOp<S>>)
    ensures
        r@ == trace(cmds@),
{
    let ghost all = cmds@;
    let total: usize = cmds.len();
    let mut rest = cmds;
    let mut out: Vec<NativeOp<S>> = Vec::new();
    let mut done: usize = 0;
    while rest.len() > 0
        invariant
            all.len() == total,
            done as int + rest@.len() == all.len(),
            rest@ == all.subrange(done as int, all.len() as int),
            out@ == trace(all.subrange(0, done as int)),
        decreases rest@.len(),
    {
        let c = rest.remove(0);
        proof {
            assert(all.subrange(0, done as int + 1) =~= all.subrange(0, done as int).push(c));
            lemma_trace_push(all.subrange(0, done as int), c);
        }
        let mut block = c.into_native_ops();
        out.append(&mut block);
        done = done + 1;
        assert(rest@ =~= all.subrange(done as int, all.len() as int));
    }
    assert(all.subrange(0, done as int) =~= all);
    out
}

/// The pointer commands for one host frame: with no cursor over the window,
/// none; otherwise a move to the cursor if the pointer moved, then one event
/// at the cursor for each button transition, in the order they came.
pub open spec fn spec_pointer_commands<S>(
    cursor: Option<(i32, i32)>,
    moved: bool,
    buttons: Seq<(PointerButton, ButtonState)>,
) -> Seq<Command<S>> {
    match cursor {
        None => Seq::empty(),
        Some((x, y)) => {
            let motion = if moved {
                seq![Command::FireMouseEvent(MouseEvent::motion_spec(x, y))]
            } else {
                Seq::empty()
            };
            motion + buttons.map_values(
                |b: (PointerButton, ButtonState)|
                    Command::FireMouseEvent(MouseEvent::button_spec(x, y, b.0, b.1)),
            )
        },
    }
}

/// The pointer commands for one host frame; see `spec_pointer_commands`.
pub fn pointer_commands<S>(
    cursor: Option<(i32, i32)>,
    moved: bool,
    buttons: &Vec<(PointerButton, ButtonState)>,
) -> (r: Vec<Command<S>>)
    ensures
        r@ == spec_pointer_commands::<S>(cursor, moved, buttons@),
{
    let mut out: Vec<Command<S>> = Vec::new();
    match cursor {
        None => {
            assert(out@ =~= spec_pointer_commands::<S>(cursor, moved, buttons@));
        },
        Some((x, y)) => {
            if moved {
                out.push(Command::pointer_motion(x, y));
            }
            let ghost start = out@;
            let mut i: usize = 0;
            while i < buttons.len()
                invariant
                    i <= buttons@.len(),
                    out@ == start + buttons@.subrange(0, i as int).map_values(
                        |b: (PointerButton, ButtonState)|
                            Command::<S>::FireMouseEvent(MouseEvent::button_spec(x, y, b.0, b.1)),
                    ),
                decreases buttons@.len() - i,
            {
                let (b, st) = buttons[i];
                out.push(Command::pointer_button(x, y, b, st));
                i = i + 1;
                assert(out@ =~= start + buttons@.subrange(0, i as int).map_values(
                    |b: (PointerButton, ButtonState)|
                        Command::<S>::FireMouseEvent(MouseEvent::button_spec(x, y, b.0, b.1)),
                ));
            }
            assert(buttons@.subrange(0, i as int) =~= buttons@);
        },
    }
    out
}

/// The script that hands the host's serialised scene to the page: it stores
/// `json` as `window.__bevy_scene` and calls `window.__bevy_tick` if the page
/// defines it.
pub open spec fn spec_scene_script(json: Seq<char>) -> Seq<char> {
    "window.__bevy_scene = "@ + json + "; if (window.__bevy_tick) { window.__bevy_tick() }"@
}

/// Builds the scene hand-over script around `json`, which is passed through
/// verbatim.
pub fn scene_sync_script(json: &str) -> (r: String)
    ensures
        r@ == spec_scene_script(json@),
{
    let mut s = String::from_str("window.__bevy_scene = ");
    s.append(json);
    s.append("; if (window.__bevy_tick) { window.__bevy_tick() }");
    s
}

/// The calls that release the worker's resources, in order.
pub fn teardown_ops<S>() -> (r: Vec<NativeOp<S>>)
    ensures
        r@ == spec_teardown::<S>(),
{
    let mut v: Vec<NativeOp<S>> = Vec::new();
    v.push(NativeOp::DestroyView);
    v.push(NativeOp::DestroyRenderer);
    v.push(NativeOp::DestroyConfig);
    assert(v@ =~= spec_teardown::<S>());
    v
}

} // verus!
