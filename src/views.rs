use vstd::prelude::*;

verus! {

/// The landing page, before a session exists.
pub struct Index;

/// The chat page shown to a freshly issued session.
pub struct ChatView {
    /// The session identifier, in decimal.
    pub user_id: String,
}

/// One outbound frame: a message body and the session that sent it.
pub struct SseView {
    pub from_user_id: u16,
    pub data: String,
}

/// A request to deliver `message` to the session `target_id`.
pub struct SendMsgReq {
    pub target_id: u16,
    pub message: String,
}

impl SseView {
    /// The frame that carries `body` from the session `from`.
    pub fn new(from: u16, body: String) -> (r: SseView)
        ensures
            r.from_user_id == from,
            r.data@ == body@,
    {
        SseView { from_user_id: from, data: body }
    }
}

} // verus!
