//! A minimal freehand-drawing widget core: the pointer state machine that
//! turns press/move/release events into drawing commands, and the registry
//! of event subscriptions that makes teardown an explicit, idempotent
//! operation.
//!
//! The host owns the actual drawing surface and its 2D context. It feeds
//! pointer events in as plain coordinates and carries the returned
//! [`context::DrawCmd`] values out to the real context; it likewise attaches
//! and detaches the real listeners, while [`inner::Inner`] remains the source
//! of truth for which subscriptions are live.

pub mod context;
pub mod inner;

pub use context::{CanvasState, DrawCmd, EventKind, PointerEvent, Segment, StrokeColor};
pub use context::{SURFACE_HEIGHT, SURFACE_WIDTH};
pub use inner::{detach_report, ClosureSet, Error, Inner, Token};
