//! The shared search session and the generate-and-test engine: the worker
//! step, the single-threaded coordinator loops, and the laws of the
//! first-match-wins protocol.

use vstd::prelude::*;

use crate::{VanityError, sat_add};
use crate::address::{BitcoinAddress, Couple, SigningContext};
use crate::policy::{Candidate, MatchPolicy, candidate_matches};

verus! {

/// The mutable state one search shares among its workers: the aggregate
/// attempt counter, the cancellation flag, and the winner slot.
pub struct SearchSession {
    pub attempts: u64,
    pub cancelled: bool,
    pub winner: Option<Candidate>,
}

/// Whether the winner slot may still be claimed.
pub open spec fn claim_allowed(s: SearchSession) -> bool {
    !s.cancelled
}

/// The session after a successful claim: the winner is installed and the
/// cancellation flag is raised in the same step.
pub open spec fn after_claim(s: SearchSession, c: Candidate) -> SearchSession {
    SearchSession { cancelled: true, winner: Some(c), ..s }
}

/// What one worker iteration reports.
#[derive(Clone, Copy, PartialEq, Eq, Structural, Debug)]
pub enum StepOutcome {
    /// The cancellation flag was already set: the worker stopped without
    /// generating or counting anything.
    Stopped,
    /// The candidate matched and the worker claimed the winner slot.
    Claimed,
    /// The candidate did not match and was discarded.
    Continued,
}

/// The session after one worker iteration on `c`.
pub open spec fn step_session(s: SearchSession, p: MatchPolicy, c: Candidate) -> SearchSession {
    if s.cancelled {
        s
    } else {
        let counted = SearchSession { attempts: sat_add(s.attempts, 1), ..s };
        if candidate_matches(p, c) {
            after_claim(counted, c)
        } else {
            counted
        }
    }
}

/// What one worker iteration on `c` reports.
pub open spec fn step_outcome(s: SearchSession, p: MatchPolicy, c: Candidate) -> StepOutcome {
    if s.cancelled {
        StepOutcome::Stopped
    } else if candidate_matches(p, c) {
        StepOutcome::Claimed
    } else {
        StepOutcome::Continued
    }
}

impl SearchSession {
    /// The session invariant: a winner is only ever present once the
    /// cancellation flag is raised.
    pub open spec fn wf(self) -> bool {
        self.winner is Some ==> self.cancelled
    }

    /// A fresh session: nothing attempted, nothing cancelled, no winner.
    pub fn new() -> (s: SearchSession)
        ensures
            s.attempts == 0,
            !s.cancelled,
            s.winner is None,
            s.wf(),
    {
        SearchSession { attempts: 0, cancelled: false, winner: None }
    }

    /// Counts one generated candidate. The counter only ever grows.
    pub fn record_attempt(&mut self)
        ensures
            *final(self) == (SearchSession { attempts: sat_add(old(self).attempts, 1), ..*old(
                self,
            ) }),
    {
        self.attempts = self.attempts.saturating_add(1);
    }

    /// Tries to claim the winner slot for `c`. The claim succeeds exactly
    /// when no cancellation has been observed; a losing candidate is
    /// discarded, which is intentional.
    pub fn try_claim(&mut self, c: Candidate) -> (r: bool)
        ensures
            r == claim_allowed(*old(self)),
            r ==> *final(self) == after_claim(*old(self), c),
            !r ==> *final(self) == *old(self),
    {
        if !self.cancelled {
            self.cancelled = true;
            self.winner = Some(c);
            true
        } else {
            false
        }
    }
}

/// One worker iteration: stop promptly when cancellation is visible;
/// otherwise count the candidate, test it against the policy, and claim the
/// winner slot on a match.
pub fn worker_step(session: &mut SearchSession, policy: &MatchPolicy, candidate: Candidate) -> (o:
    StepOutcome)
    ensures
        *final(session) == step_session(*old(session), *policy, candidate),
        o == step_outcome(*old(session), *policy, candidate),
{
    if session.cancelled {
        return StepOutcome::Stopped;
    }
    session.record_attempt();
    if policy.matches(&candidate) {
        let claimed = session.try_claim(candidate);
        proof {
            assert(claimed);
        }
        StepOutcome::Claimed
    } else {
        StepOutcome::Continued
    }
}

/// A worker iteration never installs a winner that fails the policy: if
/// every winner so far matched, the winner after one more step matches too.
pub proof fn lemma_step_preserves_winner_matches(
    s: SearchSession,
    p: MatchPolicy,
    c: Candidate,
)
    requires
        s.winner matches Some(w) ==> candidate_matches(p, w),
    ensures
        step_session(s, p, c).winner matches Some(w) ==> candidate_matches(p, w),
{
}

/// First match wins, exactly once: after a successful claim the winner is
/// the claimed candidate, no further claim can succeed, and any later
/// worker iteration stops without touching the session, so a second read
/// of the winner never changes.
pub proof fn lemma_exactly_one_winner(
    s: SearchSession,
    p: MatchPolicy,
    c1: Candidate,
    c2: Candidate,
)
    requires
        claim_allowed(s),
    ensures
        after_claim(s, c1).winner == Some(c1),
        !claim_allowed(after_claim(s, c1)),
        step_session(after_claim(s, c1), p, c2) == after_claim(s, c1),
        step_outcome(after_claim(s, c1), p, c2) is Stopped,
{
}

/// Cancellation is bounded: a worker that observes the flag performs no
/// further generation cycle at all — the session, its attempt counter
/// included, is left exactly as it was.
pub proof fn lemma_cancelled_stops_worker(s: SearchSession, p: MatchPolicy, c: Candidate)
    requires
        s.cancelled,
    ensures
        step_session(s, p, c) == s,
        step_outcome(s, p, c) is Stopped,
{
}

/// Drives one worker over an injected candidate sequence, in order, until
/// a candidate matches or the sequence is exhausted. Returns the index of
/// the winning candidate; the winner itself is left in the session.
pub fn search_candidates(
    policy: &MatchPolicy,
    session: &mut SearchSession,
    candidates: Vec<Candidate>,
) -> (found: Option<usize>)
    requires
        old(session).wf(),
    ensures
        final(session).wf(),
        old(session).cancelled ==> found is None && *final(session) == *old(session),
        !old(session).cancelled ==> match found {
            Some(k) => {
                &&& k < candidates@.len()
                &&& candidate_matches(*policy, candidates@[k as int])
                &&& forall|j: int| 0 <= j < k ==> !candidate_matches(*policy, candidates@[j])
                &&& final(session).winner == Some(candidates@[k as int])
                &&& final(session).cancelled
                &&& final(session).attempts == sat_add(old(session).attempts, (k + 1) as u64)
            },
            None => {
                &&& forall|j: int|
                    0 <= j < candidates@.len() ==> !candidate_matches(*policy, candidates@[j])
                &&& *final(session) == (SearchSession {
                    attempts: sat_add(old(session).attempts, candidates@.len() as u64),
                    ..*old(session)
                })
            },
        },
{
    if session.cancelled {
        return None;
    }
    let mut pending = candidates;
    let n = pending.len();
    let mut i: usize = 0;
    while i < n
        invariant
            i <= n,
            n == candidates@.len(),
            pending@ == candidates@.subrange(i as int, n as int),
            !session.cancelled,
            session.winner is None,
            session.wf(),
            session.attempts == sat_add(old(session).attempts, i as u64),
            session.cancelled == old(session).cancelled,
            forall|j: int| 0 <= j < i ==> !candidate_matches(*policy, candidates@[j]),
        decreases n - i,
    {
        let c = pending.remove(0);
        proof {
            assert(c == candidates@[i as int]);
            assert(pending@ =~= candidates@.subrange(i as int + 1, n as int));
        }
        let o = worker_step(session, policy, c);
        match o {
            StepOutcome::Claimed => {
                return Some(i);
            },
            StepOutcome::Continued => {
                i = i + 1;
            },
            StepOutcome::Stopped => {
                proof {
                    assert(false);
                }
            },
        }
    }
    None
}

/// How candidates are generated: one address variant per candidate, or the
/// paired compressed/uncompressed legacy variants from the same secret.
#[derive(Clone, Copy, PartialEq, Eq, Structural, Debug)]
pub enum GenerationMode {
    /// One key pair, one address: compressed or not, segwit or legacy.
    Single { compressed: bool, bech32: bool },
    /// One secret, both legacy variants.
    Paired,
}

/// Generates one candidate in the given mode. Fails only when the entropy
/// source or key construction fails, which aborts the whole search.
pub fn generate_candidate(secp: &SigningContext, mode: &GenerationMode) -> (r: Result<
    Candidate,
    VanityError,
>)
    ensures
        r matches Ok(c) ==> c.wf(),
        r matches Ok(c) ==> (match *mode {
            GenerationMode::Single { compressed, bech32: _ } => {
                &&& c.compressed is Some <==> compressed
                &&& c.uncompressed is Some <==> !compressed
            },
            GenerationMode::Paired => c.compressed is Some && c.uncompressed is Some,
        }),
        r matches Err(e) ==> (match *mode {
            GenerationMode::Single { compressed: _, bech32 } => {
                &&& e is Entropy || e is InvalidSecretKey || e is AddressEncoding
                &&& !bech32 ==> (e is Entropy || e is InvalidSecretKey)
            },
            GenerationMode::Paired => e is Entropy || e is InvalidSecretKey,
        }),
{
    match mode {
        GenerationMode::Single { compressed, bech32 } => {
            let ba = match BitcoinAddress::new(secp, *compressed, *bech32) {
                Ok(b) => b,
                Err(e) => {
                    return Err(e);
                },
            };
            if *compressed {
                Ok(Candidate { compressed: Some(ba), uncompressed: None })
            } else {
                Ok(Candidate { compressed: None, uncompressed: Some(ba) })
            }
        },
        GenerationMode::Paired => {
            let couple = match Couple::new(secp) {
                Ok(c) => c,
                Err(e) => {
                    return Err(e);
                },
            };
            Ok(
                Candidate {
                    compressed: Some(couple.compressed),
                    uncompressed: Some(couple.uncompressed),
                },
            )
        },
    }
}

/// Runs the generate-and-test loop for at most `budget` candidates: the
/// single-threaded coordinator over the real generator. Returns whether a
/// winner was claimed; the winner itself is left in the session, and it
/// always satisfies the policy. A failure of the external generator aborts
/// the search and leaves the winner slot untouched.
pub fn run_search(
    policy: &MatchPolicy,
    session: &mut SearchSession,
    secp: &SigningContext,
    mode: &GenerationMode,
    budget: u64,
) -> (r: Result<bool, VanityError>)
    requires
        old(session).wf(),
    ensures
        final(session).wf(),
        final(session).attempts >= old(session).attempts,
        r matches Ok(true) ==> final(session).cancelled && final(session).winner is Some
            && candidate_matches(*policy, final(session).winner.unwrap()),
        r matches Ok(false) ==> final(session).winner == old(session).winner
            && final(session).cancelled == old(session).cancelled,
        !old(session).cancelled && (r matches Ok(false)) ==> final(session).attempts == sat_add(
            old(session).attempts,
            budget,
        ),
        r is Err ==> final(session).winner == old(session).winner && final(session).cancelled
            == old(session).cancelled,
        old(session).cancelled ==> r == Ok::<bool, VanityError>(false) && *final(session) == *old(
            session,
        ),
        budget == 0 ==> r == Ok::<bool, VanityError>(false),
{
    if session.cancelled {
        return Ok(false);
    }
    let mut remaining = budget;
    while remaining > 0
        invariant
            remaining <= budget,
            !session.cancelled,
            session.winner == old(session).winner,
            session.cancelled == old(session).cancelled,
            session.wf(),
            session.attempts == sat_add(old(session).attempts, (budget - remaining) as u64),
        decreases remaining,
    {
        let c = match generate_candidate(secp, mode) {
            Ok(c) => c,
            Err(e) => {
                return Err(e);
            },
        };
        let o = worker_step(session, policy, c);
        match o {
            StepOutcome::Claimed => {
                return Ok(true);
            },
            StepOutcome::Continued => {
                remaining = remaining - 1;
            },
            StepOutcome::Stopped => {
                proof {
                    assert(false);
                }
            },
        }
    }
    Ok(false)
}

} // verus!
