//! The dispatcher: hands a task to the worker that was claimed for it.
//!
//! A task travels as one message on the worker's own topic. The message is
//! published once, without waiting for the worker to acknowledge it and
//! without retrying. The dispatcher never touches the registry: when a
//! delivery fails the worker stays `Busy`, and it is for the caller to
//! reconcile that.

use vstd::prelude::*;
use crate::json::{json_string, to_json_string};
use crate::registry::{is_idle_in, table_after_write};
use crate::status::WorkerStatus;

verus! {

/// The message delivered to a worker.
#[derive(Debug)]
pub struct TaskEnvelope {
    pub continuation_token: String,
    pub payload: String,
}

/// One message to publish: where it goes, what it says, and its bytes on
/// the wire.
#[derive(Debug)]
pub struct Publication {
    pub topic: String,
    pub envelope: TaskEnvelope,
    /// The envelope as a JSON object.
    pub body: String,
}

/// Why a task did not reach its worker.
#[derive(Clone, Copy, Debug, PartialEq, Eq, Structural)]
pub enum DeliveryError {
    /// The envelope could not be written as JSON.
    Serialization,
    /// The transport did not accept the message.
    Transport,
}

/// How the transport answered a publication.
#[derive(Clone, Copy, Debug, PartialEq, Eq, Structural)]
pub enum TransportOutcome {
    Accepted,
    Failed,
}

/// The topic on which `worker` receives its orders.
pub open spec fn topic_text(worker: Seq<char>) -> Seq<char> {
    "workers/"@ + worker + "/order"@
}

/// The JSON object that carries a token and a payload, given each of them
/// as a JSON string literal.
pub open spec fn envelope_text(token_json: Seq<char>, payload_json: Seq<char>) -> Seq<char> {
    "{\"taskToken\":"@ + token_json + ",\"smoothie\":"@ + payload_json + "}"@
}

/// The wire form of the envelope for `token` and `payload`, where both can
/// be written as JSON.
pub open spec fn envelope_body(token: Seq<char>, payload: Seq<char>) -> Option<Seq<char>> {
    match (json_string(token), json_string(payload)) {
        (Some(token_json), Some(payload_json)) => Some(envelope_text(token_json, payload_json)),
        _ => None,
    }
}

/// Whether `publication` is the message that hands `payload` under `token`
/// to `worker`.
pub open spec fn is_dispatch_of(
    publication: Publication,
    worker: Seq<char>,
    token: Seq<char>,
    payload: Seq<char>,
) -> bool {
    &&& publication.topic@ == topic_text(worker)
    &&& publication.envelope.continuation_token@ == token
    &&& publication.envelope.payload@ == payload
    &&& envelope_body(token, payload) == Some(publication.body@)
}

/// What a dispatch comes to once the transport has answered.
pub open spec fn delivery_verdict(outcome: TransportOutcome) -> Result<(), DeliveryError> {
    match outcome {
        TransportOutcome::Accepted => Ok(()),
        TransportOutcome::Failed => Err(DeliveryError::Transport),
    }
}

/// The topic on which `worker` receives its orders.
pub fn delivery_topic(worker: &str) -> (topic: String)
    ensures
        topic@ == topic_text(worker@),
{
    let mut topic = String::from_str("workers/");
    topic.append(worker);
    topic.append("/order");
    topic
}

/// Puts two JSON string literals into the envelope's JSON object.
pub fn frame_envelope(token_json: &str, payload_json: &str) -> (body: String)
    ensures
        body@ == envelope_text(token_json@, payload_json@),
{
    let mut body = String::from_str("{\"taskToken\":");
    body.append(token_json);
    body.append(",\"smoothie\":");
    body.append(payload_json);
    body.append("}");
    body
}

/// Writes an envelope in its wire form.
pub fn encode_envelope(envelope: &TaskEnvelope) -> (encoded: Result<String, DeliveryError>)
    ensures
        match encoded {
            Ok(body) => envelope_body(envelope.continuation_token@, envelope.payload@) == Some(
                body@,
            ),
            Err(error) => error == DeliveryError::Serialization && envelope_body(
                envelope.continuation_token@,
                envelope.payload@,
            ) is None,
        },
{
    let token_json = match to_json_string(envelope.continuation_token.as_str()) {
        Ok(literal) => literal,
        Err(_) => {
            return Err(DeliveryError::Serialization);
        },
    };
    let payload_json = match to_json_string(envelope.payload.as_str()) {
        Ok(literal) => literal,
        Err(_) => {
            return Err(DeliveryError::Serialization);
        },
    };
    Ok(frame_envelope(token_json.as_str(), payload_json.as_str()))
}

/// Prepares the one message that hands `payload` to `worker` under
/// `continuation_token`. The token and the payload enter the envelope
/// exactly as given.
pub fn dispatch(worker: &str, continuation_token: &str, payload: &str) -> (result: Result<
    Publication,
    DeliveryError,
>)
    ensures
        match result {
            Ok(publication) => is_dispatch_of(
                publication,
                worker@,
                continuation_token@,
                payload@,
            ),
            Err(error) => error == DeliveryError::Serialization && envelope_body(
                continuation_token@,
                payload@,
            ) is None,
        },
{
    let envelope = TaskEnvelope {
        continuation_token: String::from_str(continuation_token),
        payload: String::from_str(payload),
    };
    match encode_envelope(&envelope) {
        Ok(body) => Ok(Publication { topic: delivery_topic(worker), envelope, body }),
        Err(error) => Err(error),
    }
}

/// Decides on the transport's answer. A message that was accepted is taken
/// as delivered; one that was not is reported and not sent again.
pub fn conclude_dispatch(outcome: TransportOutcome) -> (result: Result<(), DeliveryError>)
    ensures
        result == delivery_verdict(outcome),
{
    match outcome {
        TransportOutcome::Accepted => Ok(()),
        TransportOutcome::Failed => Err(DeliveryError::Transport),
    }
}

/// A delivery that fails after the worker was claimed leaves the claim in
/// place: a dispatch writes nothing to the registry, so the worker still
/// reads `Busy` and every other row is as the claim left it.
pub proof fn law_failed_delivery_leaves_worker_busy(
    table: Map<Seq<char>, WorkerStatus>,
    worker: Seq<char>,
    outcome: TransportOutcome,
)
    requires
        is_idle_in(table, worker),
        delivery_verdict(outcome) is Err,
    ensures
        ({
            let claimed = table_after_write(
                table,
                worker,
                Some(WorkerStatus::Idle),
                WorkerStatus::Busy,
            );
            &&& claimed == table.insert(worker, WorkerStatus::Busy)
            &&& claimed[worker] == WorkerStatus::Busy
            &&& delivery_verdict(outcome) == Err::<(), DeliveryError>(DeliveryError::Transport)
        }),
{
}

} // verus!
