use vstd::prelude::*;
use vstd::string::StringSliceAdditionalSpecFns;

verus! {

/// A step of the proof pipeline, in the order in which the steps run.
#[derive(Clone, Copy, Debug, PartialEq, Eq, Structural)]
pub enum Stage {
    /// The pre-flight check that the accelerator can accept work.
    Ready,
    /// Execution of the program and its raw proof.
    Core,
    /// Folding of the raw proof and any deferred proofs into one.
    Compress,
    /// Reduction of the compressed proof's representation.
    Shrink,
    /// Re-expression of the shrunk proof over an elliptic curve.
    Wrap,
    /// The final constant-size proof, made with the fetched circuit parameters.
    Groth16Wrap,
}

/// Whether a failure is the caller's to fix or the infrastructure's.
#[derive(Clone, Copy, Debug, PartialEq, Eq, Structural)]
pub enum FailureClass {
    /// The backend or its surroundings failed: retrying later may succeed.
    Transient,
    /// The request itself is at fault: it must be corrected first.
    Permanent,
}

/// The cause of a failed proof request.
#[derive(Clone, Copy, Debug, PartialEq, Eq, Structural)]
pub enum Failure {
    /// The requested mode is not one that the pipeline produces.
    UnsupportedMode,
    /// The backend's readiness check failed.
    BackendNotReady,
    /// The backend failed while running the given stage.
    StageFailed(Stage),
    /// The payload or the program could not be used.
    InvalidRequest,
}

/// The class of each failure: what the backend reports is transient, what the
/// caller sent is permanent.
pub open spec fn class_of(f: Failure) -> FailureClass {
    match f {
        Failure::BackendNotReady => FailureClass::Transient,
        Failure::StageFailed(_) => FailureClass::Transient,
        Failure::UnsupportedMode => FailureClass::Permanent,
        Failure::InvalidRequest => FailureClass::Permanent,
    }
}

/// The classification of a failure.
pub fn classify(f: Failure) -> (r: FailureClass)
    ensures
        r == class_of(f),
{
    match f {
        Failure::BackendNotReady => FailureClass::Transient,
        Failure::StageFailed(_) => FailureClass::Transient,
        Failure::UnsupportedMode => FailureClass::Permanent,
        Failure::InvalidRequest => FailureClass::Permanent,
    }
}

/// The HTTP status for each class: 500 asks to retry, 400 to fix the request.
pub open spec fn status_of(c: FailureClass) -> u16 {
    match c {
        FailureClass::Transient => 500,
        FailureClass::Permanent => 400,
    }
}

/// The HTTP status that answers a failure of class `c`.
pub fn status_for(c: FailureClass) -> (r: u16)
    ensures
        r == status_of(c),
{
    match c {
        FailureClass::Transient => 500,
        FailureClass::Permanent => 400,
    }
}

/// The text that marks a failure message as transient where only text is left.
pub const TRANSIENT_PROVER_FAILURE: &'static str = "transient prover failure";

/// Whether `p` occurs in `t` as a run of consecutive bytes.
pub open spec fn occurs_in(p: Seq<u8>, t: Seq<u8>) -> bool {
    exists|i: int| 0 <= i && i + p.len() <= t.len() && #[trigger] t.subrange(i, i + p.len()) == p
}

/// Whether the bytes `p` occur in the bytes `t`.
pub fn contains_bytes(t: &[u8], p: &[u8]) -> (r: bool)
    ensures
        r == occurs_in(p@, t@),
{
    if p.len() > t.len() {
        return false;
    }
    if p.len() == 0 {
        assert(t@.subrange(0, 0 + p@.len() as int) =~= p@);
        return true;
    }
    let n: usize = t.len();
    let last: usize = n - p.len();
    let mut i: usize = 0;
    while i <= last
        invariant
            last == t@.len() - p@.len(),
            n == t@.len(),
            0 < p@.len() <= t@.len(),
            forall|j: int| 0 <= j < i ==> #[trigger] t@.subrange(j, j + p@.len()) != p@,
        decreases last + 1 - i,
    {
        let mut k: usize = 0;
        let mut same: bool = true;
        while k < p.len()
            invariant
                i <= last,
                last == t@.len() - p@.len(),
                n == t@.len(),
                0 < p@.len() <= t@.len(),
                k <= p@.len(),
                same ==> forall|m: int| 0 <= m < k ==> t@[i + m] == p@[m],
                !same ==> exists|m: int| 0 <= m < p@.len() && t@[i + m] != p@[m],
            decreases p@.len() - k,
        {
            if t[i + k] != p[k] {
                same = false;
            }
            k = k + 1;
        }
        if same {
            assert(t@.subrange(i as int, i + p@.len()) =~= p@);
            return true;
        }
        let ghost m = choose|m: int| 0 <= m < p@.len() && t@[i + m] != p@[m];
        assert(t@.subrange(i as int, i + p@.len())[m] != p@[m]);
        i = i + 1;
    }
    proof {
        assert forall|j: int| 0 <= j && j + p@.len() <= t@.len() implies
            #[trigger] t@.subrange(j, j + p@.len()) != p@ by {
            assert(j < i);
        }
    }
    false
}

/// Whether a failure message carries the transient marker.
pub fn is_transient_message(msg: &str) -> (r: bool)
    ensures
        r == occurs_in(TRANSIENT_PROVER_FAILURE.spec_bytes(), msg.spec_bytes()),
{
    contains_bytes(msg.as_bytes(), TRANSIENT_PROVER_FAILURE.as_bytes())
}

/// The HTTP status for a failure known only by its message: 500 where the
/// message carries the transient marker, 400 otherwise.
pub fn status_for_message(msg: &str) -> (r: u16)
    ensures
        r == status_of(
            if occurs_in(TRANSIENT_PROVER_FAILURE.spec_bytes(), msg.spec_bytes()) {
                FailureClass::Transient
            } else {
                FailureClass::Permanent
            },
        ),
{
    if is_transient_message(msg) {
        status_for(FailureClass::Transient)
    } else {
        status_for(FailureClass::Permanent)
    }
}

} // verus!
