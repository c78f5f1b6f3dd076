//! Bridge between a multi-threaded host frame loop and a thread-affine web
//! view engine: typed commands for the engine's worker thread, the pointer
//! event payloads, the captured frame buffer and the per-frame poll protocol.

pub mod command;
pub mod event;
pub mod frame;
pub mod handle;
pub mod poll;

pub use command::{Command, NativeOp};
pub use event::{ButtonState, MouseEvent, MouseEventKind, NativeButton, PointerButton};
pub use frame::{FrameBuffer, FrameError};
pub use handle::{EngineUnavailable, Ultralight, UltralightInstance};
pub use poll::{CellObservation, FramePoll, PollAction, PollState};
