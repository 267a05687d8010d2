//! The worker's HTTP answers.

use vstd::prelude::*;
use crate::worker::messages::{JobStatus, JobStatusView, Status};

verus! {

/// The pretty-printed `Debug` text (`{:#?}`) of a job status.
pub uninterp spec fn job_status_debug_text(job: JobStatusView) -> Seq<char>;

/// `format!("{:#?}", job)` with the `Debug` impl that `derive` writes for
/// [`JobStatus`]. Claimed: the text depends on the status's fields alone,
/// as `job_status_debug_text`; its layout is not stated.
#[verifier::external_body]
fn pretty_debug(job: &JobStatus) -> (s: String)
    ensures
        s@ == job_status_debug_text(job@),
{
    format!("{:#?}", job)
}

/// The body of `GET /status`: `Ready!`, or `Working: ` and the job.
pub fn status_text(status: &Status) -> (s: String)
    ensures
        status is Ready ==> s@ == "Ready!"@,
        status matches Status::Working { job_status } ==> s@ == "Working: "@ + job_status_debug_text(job_status@),
{
    match status {
        Status::Ready => String::from_str("Ready!"),
        Status::Working { job_status } => {
            let details = pretty_debug(job_status);
            String::from_str("Working: ").concat(details.as_str())
        },
    }
}

} // verus!
