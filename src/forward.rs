//! The forwarding endpoint's decisions: what to hand the queue, and what to
//! answer the caller.
use vstd::prelude::*;
use vstd::string::StringExecFns;

verus! {

/// The status of a successful forward.
pub const STATUS_SUCCESS: u16 = 200;

/// The status of a forward that failed on the server's side.
pub const STATUS_SERVER_ERROR: u16 = 500;

/// One enqueue call: the payload, as received, for the destination queue.
pub struct SendMessage {
    pub queue_url: String,
    pub body: String,
}

/// The answer to the caller of the forwarding endpoint.
pub struct Reply {
    pub status: u16,
    pub body: String,
}

/// The body of a successful reply.
pub open spec fn success_body() -> Seq<char> {
    "{\"Message\":\"success\"}"@
}

/// The body of the reply when the destination queue is not configured.
pub open spec fn missing_queue_body() -> Seq<char> {
    "Failed to read the DESTINATION_QUEUE_URL variable"@
}

/// The body of the reply when the queue refused the message.
pub open spec fn delivery_failure_body(detail: Seq<char>) -> Seq<char> {
    "Failed to send the message to the queue: "@ + detail
}

/// Decides one forward: the enqueue call to make with the payload untouched,
/// or, without a destination queue, the failure reply and no call at all.
pub fn plan_forward(queue_url: Option<String>, payload: String) -> (r: Result<SendMessage, Reply>)
    ensures
        match queue_url {
            Some(q) => r matches Ok(m) && m.queue_url@ == q@ && m.body@ == payload@,
            None => r matches Err(reply) && reply.status == STATUS_SERVER_ERROR
                && reply.body@ == missing_queue_body(),
        },
{
    match queue_url {
        Some(queue_url) => Ok(SendMessage { queue_url, body: payload }),
        None => Err(
            Reply {
                status: STATUS_SERVER_ERROR,
                body: String::from_str("Failed to read the DESTINATION_QUEUE_URL variable"),
            },
        ),
    }
}

/// The reply to the caller once the single enqueue call has returned: the
/// success acknowledgement, or a failure that carries the queue's detail.
pub fn forward_reply(delivery: Result<(), String>) -> (r: Reply)
    ensures
        match delivery {
            Ok(_) => r.status == STATUS_SUCCESS && r.body@ == success_body(),
            Err(detail) => r.status == STATUS_SERVER_ERROR && r.body@ == delivery_failure_body(
                detail@,
            ),
        },
{
    match delivery {
        Ok(_) => Reply {
            status: STATUS_SUCCESS,
            body: String::from_str("{\"Message\":\"success\"}"),
        },
        Err(detail) => Reply {
            status: STATUS_SERVER_ERROR,
            body: String::from_str("Failed to send the message to the queue: ").concat(
                detail.as_str(),
            ),
        },
    }
}

} // verus!
