//! Conversion status and the mapping from subprocess outcomes to it.

use vstd::prelude::*;

verus! {

/// The state of the current conversion, held in a shared cell that the
/// render loop reads each frame. Replaced wholesale on every transition.
pub enum Status {
    Idle,
    Converting,
    Done,
    Error(String),
}

/// What was observed of one run of the transcoder subprocess.
pub enum ProcessOutcome {
    /// The executable could not be launched; carries a description of the
    /// launch error.
    SpawnFailed(String),
    /// The tool ran to completion, with this exit disposition and the bytes
    /// it wrote to standard error.
    Exited { success: bool, stderr: Vec<u8> },
}

/// The characters that lossy UTF-8 decoding yields for the given bytes.
pub uninterp spec fn lossy_of(bytes: Seq<u8>) -> Seq<char>;

/// Relies on std's `String::from_utf8_lossy`: the result is a function of
/// the bytes alone, and empty input yields the empty string.
#[verifier::external_body]
pub(crate) fn lossy_decode(bytes: &Vec<u8>) -> (r: String)
    ensures
        r@ == lossy_of(bytes@),
        bytes@.len() == 0 ==> r@.len() == 0,
{
    String::from_utf8_lossy(bytes.as_slice()).into_owned()
}

/// Which terminal `Status` a finished conversion attempt must yield:
/// a clean exit is `Done`; a non-zero exit reports the captured standard
/// error, lossily decoded; a failed launch reports the launch error.
pub open spec fn status_of_outcome(o: ProcessOutcome, r: Status) -> bool {
    match o {
        ProcessOutcome::SpawnFailed(e) => r matches Status::Error(m) && m@ == e@,
        ProcessOutcome::Exited { success, stderr } => if success {
            r is Done
        } else {
            r matches Status::Error(m) && m@ == lossy_of(stderr@)
        },
    }
}

/// Two statuses that a reader cannot tell apart: the same variant, and for
/// errors the same message text.
pub open spec fn status_eqv(a: Status, b: Status) -> bool {
    match (a, b) {
        (Status::Idle, Status::Idle) => true,
        (Status::Converting, Status::Converting) => true,
        (Status::Done, Status::Done) => true,
        (Status::Error(x), Status::Error(y)) => x@ == y@,
        _ => false,
    }
}

/// Maps what the subprocess did to the terminal status shown to the user.
pub fn conversion_status(outcome: ProcessOutcome) -> (r: Status)
    ensures
        status_of_outcome(outcome, r),
{
    match outcome {
        ProcessOutcome::SpawnFailed(e) => Status::Error(e),
        ProcessOutcome::Exited { success, stderr } => if success {
            Status::Done
        } else {
            Status::Error(lossy_decode(&stderr))
        },
    }
}

/// The outcome alone fixes the terminal status: any two statuses produced
/// for the same outcome are indistinguishable.
pub proof fn lemma_outcome_determines_status(o: ProcessOutcome, a: Status, b: Status)
    requires
        status_of_outcome(o, a),
        status_of_outcome(o, b),
    ensures
        status_eqv(a, b),
{
}

} // verus!
