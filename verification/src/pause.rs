//! The `pause` command: pause the track playing in the caller's call.

use vstd::prelude::*;
use crate::error::{ButlerError, ButlerErrorView};

verus! {

/// What the `pause` command answers, from what it found: the voice client,
/// a call in the caller's server, and a track playing in it. The first
/// thing missing decides the error; with all three present the command
/// succeeds (a failure of the pause itself is not reported).
pub fn pause_outcome(has_voice_client: bool, has_call: bool, has_track: bool) -> (r: Result<(), ButlerError>)
    ensures
        !has_voice_client ==> (r matches Err(e) && e@ == ButlerErrorView::Log("Couldn't get songbird"@)),
        has_voice_client && !has_call ==> (r matches Err(e) && e@ == ButlerErrorView::Log("No Call"@)),
        has_voice_client && has_call && !has_track ==> (r matches Err(e) && e@
            == ButlerErrorView::User("No track playing"@)),
        has_voice_client && has_call && has_track ==> r is Ok,
{
    if !has_voice_client {
        Err(ButlerError::log("Couldn't get songbird"))
    } else if !has_call {
        Err(ButlerError::log("No Call"))
    } else if !has_track {
        Err(ButlerError::user("No track playing"))
    } else {
        Ok(())
    }
}

/// The error made when pausing fails with the text `reason`.
pub fn pause_failure(reason: &str) -> (e: ButlerError)
    ensures
        e@ == ButlerErrorView::UserAndLog("Failed to pause :person_shrugging:"@, "Failed to pause: "@ + reason@),
{
    let mut log = "Failed to pause: ".to_string();
    log.append(reason);
    ButlerError::user_and_log("Failed to pause :person_shrugging:", log.as_str())
}

} // verus!
