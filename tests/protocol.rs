use std::sync::mpsc::channel;

use bevy_ultralight::command::{pointer_commands, plan_batch, scene_sync_script, teardown_ops};
use bevy_ultralight::{
    ButtonState, CellObservation, Command, EngineUnavailable, FrameBuffer, FrameError, FramePoll,
    MouseEvent, MouseEventKind, NativeButton, NativeOp, PointerButton, PollAction, PollState,
    Ultralight, UltralightInstance,
};

#[test]
fn button_mapping_known_buttons() {
    assert_eq!(PointerButton::Primary.to_native(), NativeButton::Left);
    assert_eq!(PointerButton::Secondary.to_native(), NativeButton::Right);
    assert_eq!(PointerButton::Middle.to_native(), NativeButton::Middle);
    assert_eq!(ButtonState::Pressed.to_kind(), MouseEventKind::MouseDown);
    assert_eq!(ButtonState::Released.to_kind(), MouseEventKind::MouseUp);
}

#[test]
fn unrecognized_button_is_neutral_and_enqueued() {
    let (tx, rx) = channel::<Command<u32>>();
    let mut ul = Ultralight::new(tx);
    assert_eq!(
        ul.fire_mouse_button_event(10, 20, PointerButton::Other(7), ButtonState::Pressed),
        Ok(())
    );
    let got = rx.try_recv().unwrap();
    assert_eq!(
        got,
        Command::FireMouseEvent(MouseEvent {
            kind: MouseEventKind::MouseDown,
            x: 10,
            y: 20,
            button: NativeButton::NoButton,
        })
    );
    assert_eq!(
        plan_batch(vec![got]),
        vec![NativeOp::FireMouseEvent(MouseEvent {
            kind: MouseEventKind::MouseDown,
            x: 10,
            y: 20,
            button: NativeButton::NoButton,
        })]
    );
}

#[test]
fn motion_event_has_no_button() {
    assert_eq!(
        MouseEvent::motion(3, -4),
        MouseEvent { kind: MouseEventKind::MouseMoved, x: 3, y: -4, button: NativeButton::NoButton }
    );
    assert_eq!(
        MouseEvent::button(1, 2, PointerButton::Secondary, ButtonState::Released),
        MouseEvent { kind: MouseEventKind::MouseUp, x: 1, y: 2, button: NativeButton::Right }
    );
}

#[test]
fn commands_arrive_in_submission_order() {
    let (tx, rx) = channel::<Command<u32>>();
    let mut ul = Ultralight::new(tx);
    assert_eq!(ul.load_html("<html>A</html>"), Ok(()));
    assert_eq!(ul.update(), Ok(()));
    assert_eq!(ul.fire_mouse_motion_event(5, 6), Ok(()));
    assert_eq!(ul.execute_javascript("go()"), Ok(()));
    assert_eq!(ul.receive_texture_buffer(42), Ok(()));
    let got: Vec<Command<u32>> = rx.try_iter().collect();
    assert_eq!(
        got,
        vec![
            Command::LoadContent("<html>A</html>".to_string()),
            Command::Advance,
            Command::FireMouseEvent(MouseEvent::motion(5, 6)),
            Command::EvaluateScript("go()".to_string()),
            Command::CaptureFrame(42),
        ]
    );
    assert_eq!(
        plan_batch(got),
        vec![
            NativeOp::LoadHtml("<html>A</html>".to_string()),
            NativeOp::Focus,
            NativeOp::Update,
            NativeOp::Render,
            NativeOp::FireMouseEvent(MouseEvent::motion(5, 6)),
            NativeOp::EvaluateScript("go()".to_string()),
            NativeOp::CaptureSurface(42),
        ]
    );
}

#[test]
fn plan_batch_empty() {
    assert_eq!(plan_batch::<u32>(Vec::new()), Vec::new());
}

#[test]
fn calls_fail_after_shutdown() {
    let (tx, rx) = channel::<Command<u32>>();
    let mut ul = Ultralight::new(tx);
    drop(rx);
    assert_eq!(ul.load_html("x"), Err(EngineUnavailable));
    assert_eq!(ul.update(), Err(EngineUnavailable));
    assert_eq!(ul.fire_mouse_motion_event(0, 0), Err(EngineUnavailable));
    assert_eq!(
        ul.fire_mouse_button_event(0, 0, PointerButton::Primary, ButtonState::Pressed),
        Err(EngineUnavailable)
    );
    assert_eq!(ul.execute_javascript("x"), Err(EngineUnavailable));
    assert_eq!(ul.receive_texture_buffer(1), Err(EngineUnavailable));
}

#[test]
fn teardown_in_reverse_creation_order() {
    assert_eq!(
        teardown_ops::<u32>(),
        vec![NativeOp::DestroyView, NativeOp::DestroyRenderer, NativeOp::DestroyConfig]
    );
}

#[test]
fn pointer_commands_need_a_cursor() {
    let buttons = vec![(PointerButton::Primary, ButtonState::Pressed)];
    assert_eq!(pointer_commands::<u32>(None, true, &buttons), Vec::new());
}

#[test]
fn pointer_commands_motion_then_buttons() {
    let buttons = vec![
        (PointerButton::Primary, ButtonState::Pressed),
        (PointerButton::Other(4), ButtonState::Released),
    ];
    assert_eq!(
        pointer_commands::<u32>(Some((7, 8)), true, &buttons),
        vec![
            Command::FireMouseEvent(MouseEvent::motion(7, 8)),
            Command::FireMouseEvent(MouseEvent {
                kind: MouseEventKind::MouseDown,
                x: 7,
                y: 8,
                button: NativeButton::Left,
            }),
            Command::FireMouseEvent(MouseEvent {
                kind: MouseEventKind::MouseUp,
                x: 7,
                y: 8,
                button: NativeButton::NoButton,
            }),
        ]
    );
    assert_eq!(
        pointer_commands::<u32>(Some((7, 8)), false, &Vec::new()),
        Vec::new()
    );
}

#[test]
fn scene_script_wraps_json() {
    assert_eq!(
        scene_sync_script("{\"a\":1}"),
        "window.__bevy_scene = {\"a\":1}; if (window.__bevy_tick) { window.__bevy_tick() }"
    );
}

#[test]
fn frame_copies_exact_bytes() {
    let src: Vec<u8> = (0..20u8).collect();
    let f = FrameBuffer::from_locked_pixels(1, 2, 8, &src).unwrap();
    assert_eq!(f.width(), 1);
    assert_eq!(f.height(), 2);
    assert_eq!(f.stride(), 8);
    assert_eq!(f.pixels(), &src[..16]);
    assert_eq!(f.into_pixels(), (0..16u8).collect::<Vec<u8>>());
}

#[test]
fn frame_errors() {
    let src = vec![0u8; 16];
    assert!(matches!(
        FrameBuffer::from_locked_pixels(3, 1, 8, &src),
        Err(FrameError::StrideTooSmall)
    ));
    assert!(matches!(
        FrameBuffer::from_locked_pixels(2, 3, 8, &src),
        Err(FrameError::PixelsTooShort)
    ));
    let empty = FrameBuffer::from_locked_pixels(0, 0, 0, &[]).unwrap();
    assert_eq!(empty.pixels().len(), 0);
}

#[test]
fn poll_steps() {
    let mut p = FramePoll::new();
    assert_eq!(p.state(), PollState::Idle);
    assert_eq!(p.step(CellObservation::Ready), PollAction::RequestFrame);
    assert_eq!(p.state(), PollState::AwaitingFrame);
    assert_eq!(p.step(CellObservation::NotReady), PollAction::Wait);
    assert_eq!(p.state(), PollState::AwaitingFrame);
    assert_eq!(p.step(CellObservation::Ready), PollAction::DisplayAndRequest);
    assert_eq!(p.state(), PollState::AwaitingFrame);
    assert!(PollAction::RequestFrame.requests_frame());
    assert!(!PollAction::Wait.requests_frame());
    assert!(PollAction::DisplayAndRequest.displays_frame());
    assert!(!PollAction::RequestFrame.displays_frame());
}

#[test]
fn one_capture_in_flight_per_tick() {
    let (tx, rx) = channel::<Command<u32>>();
    let mut inst = UltralightInstance::new(Ultralight::new(tx));
    assert_eq!(inst.tick(CellObservation::NotReady, 1), Ok(PollAction::RequestFrame));
    assert_eq!(inst.tick(CellObservation::NotReady, 2), Ok(PollAction::Wait));
    assert_eq!(inst.tick(CellObservation::Ready, 3), Ok(PollAction::DisplayAndRequest));
    let got: Vec<Command<u32>> = rx.try_iter().collect();
    assert_eq!(
        got,
        vec![
            Command::Advance,
            Command::CaptureFrame(1),
            Command::Advance,
            Command::Advance,
            Command::CaptureFrame(3),
        ]
    );
    let captures = got.iter().filter(|c| matches!(c, Command::CaptureFrame(_))).count();
    assert_eq!(captures, 2);
}

#[test]
fn tick_after_shutdown_keeps_state() {
    let (tx, rx) = channel::<Command<u32>>();
    let mut inst = UltralightInstance::new(Ultralight::new(tx));
    assert_eq!(inst.set_html("<p>hi</p>"), Ok(()));
    drop(rx);
    assert_eq!(inst.tick(CellObservation::Ready, 1), Err(EngineUnavailable));
    assert_eq!(inst.poll_state(), PollState::Idle);
    assert_eq!(inst.set_html("<p>hi</p>"), Err(EngineUnavailable));
}

#[test]
fn packed_pixels_strip_row_padding() {
    let src: Vec<u8> = (0..16u8).collect();
    let f = FrameBuffer::from_locked_pixels(1, 2, 8, &src).unwrap();
    assert_eq!(f.packed_pixels(), vec![0, 1, 2, 3, 8, 9, 10, 11]);
    let g = FrameBuffer::from_locked_pixels(2, 2, 8, &src).unwrap();
    assert_eq!(g.packed_pixels(), src);
}

#[test]
fn instance_queues_input_and_script() {
    let (tx, rx) = channel::<Command<u32>>();
    let mut inst = UltralightInstance::new(Ultralight::new(tx));
    assert_eq!(inst.fire_mouse_event(MouseEvent::motion(1, 2)), Ok(()));
    assert_eq!(inst.execute_javascript("f()"), Ok(()));
    let got: Vec<Command<u32>> = rx.try_iter().collect();
    assert_eq!(
        got,
        vec![
            Command::FireMouseEvent(MouseEvent::motion(1, 2)),
            Command::EvaluateScript("f()".to_string()),
        ]
    );
    assert_eq!(inst.poll_state(), PollState::Idle);
}
