//! The guarantees the orchestration gives as a whole, proved over the
//! transition relations of `state` and the outcome mapping of `status`.

use vstd::prelude::*;
use crate::state::{begin_rel, complete_rel, record_rel, set_input_rel, AppState, ThumbnailOutcome};
use crate::status::{
    lemma_outcome_determines_status, lossy_of, status_eqv, ProcessOutcome, Status,
};

verus! {

/// A conversion the tool completes successfully is observed as `Converting`
/// and then exactly `Done`: the status cell never skips the running state.
pub proof fn lemma_success_goes_through_converting(
    pre: AppState,
    mid: AppState,
    post: AppState,
    outcome: ProcessOutcome,
)
    requires
        pre.can_convert_spec(),
        begin_rel(pre, mid),
        outcome matches ProcessOutcome::Exited { success: true, .. },
        complete_rel(mid, outcome, post),
    ensures
        mid.status is Converting,
        post.status is Done,
{
}

/// A conversion whose subprocess exits non-zero ends in `Error`, carrying
/// the captured standard-error text verbatim, lossily decoded.
pub proof fn lemma_failure_reports_stderr(pre: AppState, post: AppState, outcome: ProcessOutcome)
    requires
        outcome matches ProcessOutcome::Exited { success: false, .. },
        complete_rel(pre, outcome, post),
    ensures
        post.status matches Status::Error(m) && m@ == lossy_of(outcome->Exited_stderr@),
{
}

/// Selecting a new input resets the status cell to `Idle` and the thumbnail
/// cell to empty at once, whatever state any in-flight job had left behind.
pub proof fn lemma_new_selection_resets(pre: AppState, path: String, post: AppState)
    requires
        set_input_rel(pre, path, post),
    ensures
        post.status is Idle,
        post.thumbnail_path is None,
{
}

/// A thumbnail job that fails at any stage leaves the whole state — the
/// thumbnail cell and, in particular, the status cell — exactly as it was.
pub proof fn lemma_thumbnail_failure_is_silent(
    pre: AppState,
    outcome: ThumbnailOutcome,
    post: AppState,
)
    requires
        record_rel(pre, outcome, post),
        !(outcome is Extracted),
    ensures
        post.thumbnail_path == pre.thumbnail_path,
        post.status == pre.status,
        post == pre,
{
}

/// Whatever a thumbnail job reports, the status cell is untouched: a
/// thumbnail failure can never surface as a conversion error.
pub proof fn lemma_thumbnail_never_touches_status(
    pre: AppState,
    outcome: ThumbnailOutcome,
    post: AppState,
)
    requires
        record_rel(pre, outcome, post),
    ensures
        post.status == pre.status,
{
}

/// Converting the same selection a second time is allowed once the first
/// run has finished, and with an identical tool outcome the user sees an
/// identical terminal status.
pub proof fn lemma_conversion_idempotent(
    s0: AppState,
    s1: AppState,
    s2: AppState,
    s3: AppState,
    s4: AppState,
    outcome: ProcessOutcome,
)
    requires
        s0.can_convert_spec(),
        begin_rel(s0, s1),
        complete_rel(s1, outcome, s2),
        begin_rel(s2, s3),
        complete_rel(s3, outcome, s4),
    ensures
        s2.can_convert_spec(),
        status_eqv(s2.status, s4.status),
{
    lemma_outcome_determines_status(outcome, s2.status, s4.status);
}

/// Starting a conversion disables starting another, so at most a single
/// conversion runs at a time for the current selection.
pub proof fn lemma_single_conversion_in_flight(pre: AppState, post: AppState)
    requires
        begin_rel(pre, post),
    ensures
        !post.can_convert_spec(),
{
}

} // verus!
