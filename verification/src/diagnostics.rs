//! The encoding verifier: an observability diagnostic that re-serializes
//! each received message through two independent code paths and compares
//! the outputs byte for byte. A divergence is recorded as an artifact,
//! never raised as an error; timing is tracked only to report a relative
//! cost, never to steer control flow.

use vstd::prelude::*;

verus! {

/// The two re-encodings of one received message, next to the original
/// wire form: each path's reported length and produced bytes.
#[derive(Debug)]
pub struct EncodingSample {
    pub original_len: usize,
    pub original: Vec<u8>,
    pub primary_len: usize,
    pub primary: Vec<u8>,
    pub reference_len: usize,
    pub reference: Vec<u8>,
}

/// The three-way comparison fails: the original wire length differs from
/// the primary path's reported length, the primary's from the reference
/// path's, or any two corresponding byte buffers differ.
pub open spec fn sample_diverges(s: EncodingSample) -> bool {
    ||| s.original_len != s.primary_len
    ||| s.primary_len != s.reference_len
    ||| s.original@ != s.primary@
    ||| s.primary@ != s.reference@
}

/// Saturating 128-bit addition.
pub open spec fn sat_add128(a: u128, b: u128) -> u128 {
    if a + b > u128::MAX {
        u128::MAX
    } else {
        (a + b) as u128
    }
}

/// Cumulative nanoseconds spent in each encode path across one session.
#[derive(PartialEq, Eq, Structural, Clone, Copy, Debug)]
pub struct VerifierAccumulator {
    pub primary_nanos: u128,
    pub reference_nanos: u128,
}

/// The verifier's state for one session: the timing accumulator and how
/// many divergent messages have been archived so far.
#[derive(Debug)]
pub struct EncodingVerifier {
    pub acc: VerifierAccumulator,
    pub artifacts: u64,
}

/// Compares two byte strings.
fn bytes_equal(a: &Vec<u8>, b: &Vec<u8>) -> (r: bool)
    ensures
        r == (a@ == b@),
{
    if a.len() != b.len() {
        return false;
    }
    let mut i: usize = 0;
    while i < a.len()
        invariant
            0 <= i <= a@.len(),
            a@.len() == b@.len(),
            forall|j: int| 0 <= j < i ==> a@[j] == b@[j],
        decreases a@.len() - i,
    {
        if a[i] != b[i] {
            return false;
        }
        i += 1;
    }
    proof {
        assert(a@ =~= b@);
    }
    true
}

impl EncodingVerifier {
    /// A fresh verifier: no time recorded, no artifact written.
    pub fn new() -> (v: EncodingVerifier)
        ensures
            v.acc.primary_nanos == 0,
            v.acc.reference_nanos == 0,
            v.artifacts == 0,
    {
        EncodingVerifier {
            acc: VerifierAccumulator { primary_nanos: 0, reference_nanos: 0 },
            artifacts: 0,
        }
    }

    /// Checks one message's encodings and books each path's cost. Reports
    /// a mismatch exactly when the three-way comparison fails; exactly
    /// then the artifact count moves, by one, and the caller persists the
    /// divergent buffer. The session continues either way.
    pub fn check_message(
        &mut self,
        sample: &EncodingSample,
        primary_ns: u128,
        reference_ns: u128,
    ) -> (mismatch: bool)
        ensures
            mismatch == sample_diverges(*sample),
            final(self).acc.primary_nanos == sat_add128(old(self).acc.primary_nanos, primary_ns),
            final(self).acc.reference_nanos == sat_add128(
                old(self).acc.reference_nanos,
                reference_ns,
            ),
            final(self).artifacts == if sample_diverges(*sample) {
                sat_inc64(old(self).artifacts)
            } else {
                old(self).artifacts
            },
    {
        self.acc.primary_nanos = self.acc.primary_nanos.saturating_add(primary_ns);
        self.acc.reference_nanos = self.acc.reference_nanos.saturating_add(reference_ns);
        let mismatch = sample.original_len != sample.primary_len || sample.primary_len
            != sample.reference_len || !bytes_equal(&sample.original, &sample.primary)
            || !bytes_equal(&sample.primary, &sample.reference);
        if mismatch {
            self.artifacts = self.artifacts.saturating_add(1);
        }
        mismatch
    }

    /// The running relative cost of the reference path against the
    /// primary path, in whole percent; `None` until the primary path has
    /// booked time, or if the product leaves the 128-bit range.
    pub fn ratio_percent(&self) -> (r: Option<u128>)
        ensures
            match r {
                Some(p) => self.acc.primary_nanos > 0 && self.acc.reference_nanos * 100
                    <= u128::MAX && p == (self.acc.reference_nanos * 100) / (
                self.acc.primary_nanos as int),
                None => self.acc.primary_nanos == 0 || self.acc.reference_nanos * 100
                    > u128::MAX,
            },
    {
        if self.acc.primary_nanos == 0 {
            return None;
        }
        match self.acc.reference_nanos.checked_mul(100) {
            Some(x) => Some(x / self.acc.primary_nanos),
            None => None,
        }
    }
}

/// Saturating increment.
pub open spec fn sat_inc64(a: u64) -> u64 {
    if a + 1 > u64::MAX {
        u64::MAX
    } else {
        (a + 1) as u64
    }
}

/// How many samples of a stream diverge.
pub open spec fn diverge_count(ss: Seq<EncodingSample>) -> int
    decreases ss.len(),
{
    if ss.len() == 0 {
        0
    } else {
        (if sample_diverges(ss[0]) {
            1int
        } else {
            0int
        }) + diverge_count(ss.skip(1))
    }
}

/// Law: across a stream of any length in which no message's encodings
/// diverge, not one artifact is called for; a single divergent message
/// accounts for exactly one.
pub proof fn lemma_no_divergence_no_artifacts(ss: Seq<EncodingSample>)
    requires
        forall|i: int| 0 <= i < ss.len() ==> !sample_diverges(#[trigger] ss[i]),
    ensures
        diverge_count(ss) == 0,
    decreases ss.len(),
{
    if ss.len() > 0 {
        assert(forall|i: int|
            0 <= i < ss.skip(1).len() ==> !sample_diverges(#[trigger] ss.skip(1)[i]));
        lemma_no_divergence_no_artifacts(ss.skip(1));
    }
}

} // verus!
