//! What each operation answers to its caller.
//!
//! An operation is invoked with a request id and answers with a
//! [`Response`]: the id and one line of text. An assignment answers with
//! the task and the worker chosen for it.

use vstd::prelude::*;
use crate::json::{json_string, to_json_string};
use crate::selector::Assignment;
use crate::status::WorkerStatus;

verus! {

/// The answer to a successful assignment.
#[derive(Debug)]
pub struct AssignResponse {
    pub smoothie_name: String,
    pub robot_name: String,
}

/// The answer of every other operation, in success and in failure.
#[derive(Debug)]
pub struct Response {
    pub req_id: String,
    pub body: String,
}

/// The line that confirms an order was handed to the transport.
pub open spec fn order_sent_text(payload: Seq<char>, worker: Seq<char>) -> Seq<char> {
    "Successfully sent smoothie "@ + payload + " to robot "@ + worker
}

/// The line that confirms a workflow was resumed.
pub open spec fn task_success_text(token: Seq<char>) -> Seq<char> {
    "Successfully sent a task success for task token '"@ + token + "'"@
}

/// The line that reports a workflow could not be resumed.
pub open spec fn task_success_failed_text() -> Seq<char> {
    "The Lambda function encountered an error and no task update was made"@
}

/// The line that confirms a status update.
pub open spec fn status_updated_text(worker: Seq<char>, status: WorkerStatus) -> Seq<char> {
    "the Lambda function has successfully updated your robot '"@ + worker + "' with status '"@
        + status.wire_text() + "'"@
}

/// The line that reports a status was not updated.
pub open spec fn status_not_updated_text() -> Seq<char> {
    "The Lambda function encountered an error and your status was not updated"@
}

/// A response as a JSON object, given both fields as JSON string literals.
/// The keys stand in alphabetical order.
pub open spec fn response_text(body_json: Seq<char>, req_id_json: Seq<char>) -> Seq<char> {
    "{\"body\":"@ + body_json + ",\"req_id\":"@ + req_id_json + "}"@
}

/// An assignment's answer as a JSON object, given both fields as JSON
/// string literals. The keys stand in alphabetical order.
pub open spec fn assign_response_text(robot_json: Seq<char>, smoothie_json: Seq<char>) -> Seq<
    char,
> {
    "{\"RobotName\":"@ + robot_json + ",\"SmoothieName\":"@ + smoothie_json + "}"@
}

/// Puts two JSON string literals into a response's JSON object.
pub fn frame_response(body_json: &str, req_id_json: &str) -> (text: String)
    ensures
        text@ == response_text(body_json@, req_id_json@),
{
    let mut text = String::from_str("{\"body\":");
    text.append(body_json);
    text.append(",\"req_id\":");
    text.append(req_id_json);
    text.append("}");
    text
}

/// Puts two JSON string literals into the JSON object of an assignment's
/// answer.
pub fn frame_assign_response(robot_json: &str, smoothie_json: &str) -> (text: String)
    ensures
        text@ == assign_response_text(robot_json@, smoothie_json@),
{
    let mut text = String::from_str("{\"RobotName\":");
    text.append(robot_json);
    text.append(",\"SmoothieName\":");
    text.append(smoothie_json);
    text.append("}");
    text
}

impl Response {
    /// The response as a JSON object, or `None` where a field cannot be
    /// written as JSON.
    pub fn json_text(&self) -> (text: Option<String>)
        ensures
            match text {
                Some(written) => json_string(self.body@) matches Some(body_json) && json_string(
                    self.req_id@,
                ) matches Some(req_id_json) && written@ == response_text(body_json, req_id_json),
                None => json_string(self.body@) is None || json_string(self.req_id@) is None,
            },
    {
        let body_json = match to_json_string(self.body.as_str()) {
            Ok(literal) => literal,
            Err(_) => {
                return None;
            },
        };
        let req_id_json = match to_json_string(self.req_id.as_str()) {
            Ok(literal) => literal,
            Err(_) => {
                return None;
            },
        };
        Some(frame_response(body_json.as_str(), req_id_json.as_str()))
    }
}

impl AssignResponse {
    /// The answer as a JSON object, or `None` where a field cannot be
    /// written as JSON.
    pub fn json_text(&self) -> (text: Option<String>)
        ensures
            match text {
                Some(written) => json_string(self.robot_name@) matches Some(robot_json)
                    && json_string(self.smoothie_name@) matches Some(smoothie_json) && written@
                    == assign_response_text(robot_json, smoothie_json),
                None => json_string(self.robot_name@) is None || json_string(
                    self.smoothie_name@,
                ) is None,
            },
    {
        let robot_json = match to_json_string(self.robot_name.as_str()) {
            Ok(literal) => literal,
            Err(_) => {
                return None;
            },
        };
        let smoothie_json = match to_json_string(self.smoothie_name.as_str()) {
            Ok(literal) => literal,
            Err(_) => {
                return None;
            },
        };
        Some(frame_assign_response(robot_json.as_str(), smoothie_json.as_str()))
    }
}

/// The answer to an assignment: the task's payload and the worker's name.
pub fn assignment_response(assignment: &Assignment) -> (response: AssignResponse)
    ensures
        response.smoothie_name@ == assignment.payload@,
        response.robot_name@ == assignment.worker@,
{
    AssignResponse {
        smoothie_name: assignment.payload.clone(),
        robot_name: assignment.worker.clone(),
    }
}

/// The answer to a dispatch whose message the transport accepted.
pub fn order_sent_response(req_id: &str, payload: &str, worker: &str) -> (response: Response)
    ensures
        response.req_id@ == req_id@,
        response.body@ == order_sent_text(payload@, worker@),
{
    let mut body = String::from_str("Successfully sent smoothie ");
    body.append(payload);
    body.append(" to robot ");
    body.append(worker);
    Response { req_id: String::from_str(req_id), body }
}

/// The answer to a dispatch whose envelope could not be written: the body
/// is empty.
pub fn order_not_written_response(req_id: &str) -> (response: Response)
    ensures
        response.req_id@ == req_id@,
        response.body@ == Seq::<char>::empty(),
{
    Response { req_id: String::from_str(req_id), body: String::new() }
}

/// The answer to a resolution that the workflow engine accepted.
pub fn task_success_response(req_id: &str, token: &str) -> (response: Response)
    ensures
        response.req_id@ == req_id@,
        response.body@ == task_success_text(token@),
{
    let mut body = String::from_str("Successfully sent a task success for task token '");
    body.append(token);
    body.append("'");
    Response { req_id: String::from_str(req_id), body }
}

/// The answer to a resolution that did not resume the workflow.
pub fn task_success_failed_response(req_id: &str) -> (response: Response)
    ensures
        response.req_id@ == req_id@,
        response.body@ == task_success_failed_text(),
{
    Response {
        req_id: String::from_str(req_id),
        body: String::from_str(
            "The Lambda function encountered an error and no task update was made",
        ),
    }
}

/// The answer to a status update that the registry applied.
pub fn status_updated_response(req_id: &str, worker: &str, status: WorkerStatus) -> (response:
    Response)
    ensures
        response.req_id@ == req_id@,
        response.body@ == status_updated_text(worker@, status),
{
    let mut body = String::from_str("the Lambda function has successfully updated your robot '");
    body.append(worker);
    body.append("' with status '");
    let name = status.wire_name();
    body.append(name.as_str());
    body.append("'");
    Response { req_id: String::from_str(req_id), body }
}

/// The answer to a status update that the registry did not apply.
pub fn status_not_updated_response(req_id: &str) -> (response: Response)
    ensures
        response.req_id@ == req_id@,
        response.body@ == status_not_updated_text(),
{
    Response {
        req_id: String::from_str(req_id),
        body: String::from_str(
            "The Lambda function encountered an error and your status was not updated",
        ),
    }
}

} // verus!
