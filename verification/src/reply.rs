//! What becomes of a request once PulseAudio has answered it, or has not.
use vstd::prelude::*;
use vstd::string::StringExecFns;

verus! {

/// How long PulseAudio may take to answer, in milliseconds.
pub const ANSWER_WAIT_MILLIS: u64 = 2000;

/// Why a request named `action` failed: turned down, or not answered in time (`None`). A
/// confirmed request has not failed.
pub open spec fn failure_of(reply: Option<bool>, action: Seq<char>) -> Option<Seq<char>> {
    match reply {
        Some(true) => None,
        Some(false) => Some("PulseAudio 拒绝"@ + action),
        None => Some("等待"@ + action + "完成超时"@),
    }
}

/// `result` reports exactly the failure `failure`, or success if there is none.
pub open spec fn reports(result: Result<(), String>, failure: Option<Seq<char>>) -> bool {
    match failure {
        None => result is Ok,
        Some(reason) => result matches Err(message) && message@ == reason,
    }
}

/// Judges the answer to the request named `action`; `None` stands for no answer in time.
pub fn wait_success(reply: Option<bool>, action: &str) -> (result: Result<(), String>)
    ensures
        reports(result, failure_of(reply, action@)),
{
    match reply {
        Some(true) => Ok(()),
        Some(false) => {
            let mut message = "PulseAudio 拒绝".to_string();
            message.append(action);
            Err(message)
        },
        None => {
            let mut message = "等待".to_string();
            message.append(action);
            message.append("完成超时");
            Err(message)
        },
    }
}

} // verus!
