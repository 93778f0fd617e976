//! Orchestration core of a screen-sharing and live-annotation engine.
//!
//! The crate holds the decisions of the engine: the annotation store, the
//! capture session's failure and recovery rules, the wire protocol spoken with
//! the host UI, and the dispatcher that turns each command into state changes
//! and effects. Threads, sockets and the media transport live with the caller.

pub mod annotation;
pub mod annotation_laws;
pub mod application;
pub mod base64;
pub mod capture;
pub mod event;
pub mod host;
pub mod model;
pub mod permissions;
pub mod room;
pub mod socket;
pub mod text;

pub use annotation::{AnnotationStore, Stroke};
pub use application::{Application, Effect};
pub use event::UserEvent;
pub use permissions::{PermissionState, PermissionStatus};
pub use socket::{DataTrackMessage, IncomingMessage, OutgoingMessage};
pub use model::{
    AnnotationTool, CaptureConfig, Color, ConnectionState, CursorStyle, FrameFormat,
    ParticipantData, ParticipantRole, Point, RemoteCursor, Scalar, ScreenInfo,
    ScreenShareMessage, SourceType,
};
