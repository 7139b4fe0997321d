//! Point-to-point message delivery between ephemeral client sessions.
//!
//! Each session registers a single-slot delivery channel under its identifier;
//! any other session that knows the identifier can push one message into it.
//! The modules here hold the session registry, the rules for a send, and the
//! session-identity policy. Transport, rendering and the event loop live
//! outside this library.
pub mod views;
pub mod outcome;
pub mod registry;
pub mod broker;
pub mod session;

pub use views::{ChatView, Index, SendMsgReq, SseView};
pub use outcome::{delivery_outcome, status_code, Outcome, PushResult};
pub use registry::{Connection, RegistryView, SessionRegistry, SLOT_CAPACITY};
pub use broker::Delivery;
pub use session::{issue_session_id, parse_session_id, render_session_id, session_error_status, session_from_cookie, SessionError};
