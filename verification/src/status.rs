//! The health check: `GET /health`, then print the answer.

use vstd::prelude::*;
use vstd::string::*;
use crate::session::{spec_stage_wf, Action, ActionView, Resume, ResumeView, Stage, StageView};

verus! {

/// The request path of the health check.
pub open spec fn spec_health_path() -> Seq<char> {
    "/health"@
}

/// The first stage of the health check: fetch `/health` as text, then print
/// it.
pub open spec fn spec_start_status() -> StageView {
    StageView::Await(ActionView::GetText(spec_health_path()), ResumeView::PrintText)
}

/// `/health`.
pub fn health_path() -> (p: String)
    ensures
        p@ == spec_health_path(),
{
    String::from_str("/health")
}

/// The first stage of the health check.
pub fn start() -> (s: Stage)
    ensures
        s@ == spec_start_status(),
        spec_stage_wf(s@),
{
    Stage::Await(Action::GetText(health_path()), Resume::PrintText)
}

} // verus!
