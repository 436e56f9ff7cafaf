//! The match policy: which target prefixes count, whether comparison is
//! case-sensitive, and which address variants of a candidate are eligible.

use vstd::prelude::*;
use vstd::assert_multisets_equal;

use crate::VanityError;
use crate::address::{BitcoinAddress, matches_any, prefix_matches};

verus! {

/// Which of a candidate's address variants the policy consults.
#[derive(Clone, Copy, PartialEq, Eq, Structural, Debug)]
pub enum VariantFilter {
    /// Only the variant derived from the compressed public key.
    Compressed,
    /// Only the variant derived from the uncompressed public key.
    Uncompressed,
    /// Any variant the candidate carries.
    Any,
}

/// Whether the filter lets the compressed variant be consulted.
pub open spec fn filter_allows_compressed(f: VariantFilter) -> bool {
    f is Compressed || f is Any
}

/// Whether the filter lets the uncompressed variant be consulted.
pub open spec fn filter_allows_uncompressed(f: VariantFilter) -> bool {
    f is Uncompressed || f is Any
}

impl VariantFilter {
    /// Whether the compressed variant is eligible under this filter.
    pub fn allows_compressed(&self) -> (r: bool)
        ensures
            r == filter_allows_compressed(*self),
    {
        match self {
            VariantFilter::Compressed => true,
            VariantFilter::Uncompressed => false,
            VariantFilter::Any => true,
        }
    }

    /// Whether the uncompressed variant is eligible under this filter.
    pub fn allows_uncompressed(&self) -> (r: bool)
        ensures
            r == filter_allows_uncompressed(*self),
    {
        match self {
            VariantFilter::Compressed => false,
            VariantFilter::Uncompressed => true,
            VariantFilter::Any => true,
        }
    }
}

/// One candidate as the engine sees it: up to one address per compression
/// variant, at least one present.
pub struct Candidate {
    pub compressed: Option<BitcoinAddress>,
    pub uncompressed: Option<BitcoinAddress>,
}

impl Candidate {
    /// A candidate carries at least one variant.
    pub open spec fn wf(self) -> bool {
        self.compressed is Some || self.uncompressed is Some
    }
}

/// The match policy: target prefixes, case rule, and variant filter.
/// The target set is never empty.
pub struct MatchPolicy {
    pub targets: Vec<String>,
    pub case_sensitive: bool,
    pub variant_filter: VariantFilter,
}

/// Whether a candidate satisfies the policy: some eligible, present variant
/// whose address starts with some target under the policy's case rule.
pub open spec fn candidate_matches(p: MatchPolicy, c: Candidate) -> bool {
    ||| (filter_allows_compressed(p.variant_filter) && c.compressed is Some && matches_any(
        c.compressed.unwrap().address@,
        p.targets@,
        p.case_sensitive,
    ))
    ||| (filter_allows_uncompressed(p.variant_filter) && c.uncompressed is Some && matches_any(
        c.uncompressed.unwrap().address@,
        p.targets@,
        p.case_sensitive,
    ))
}

impl MatchPolicy {
    /// The policy's invariant: the target set is non-empty.
    pub open spec fn wf(self) -> bool {
        self.targets@.len() > 0
    }

    /// Builds a policy, rejecting an empty target set as a configuration
    /// error before any search starts.
    pub fn new(targets: Vec<String>, case_sensitive: bool, variant_filter: VariantFilter) -> (r:
        Result<MatchPolicy, VanityError>)
        ensures
            r is Ok <==> targets@.len() > 0,
            r matches Ok(p) ==> p == (MatchPolicy { targets, case_sensitive, variant_filter })
                && p.wf(),
            r matches Err(e) ==> e is EmptyTargets,
    {
        if targets.len() == 0 {
            Err(VanityError::EmptyTargets)
        } else {
            Ok(MatchPolicy { targets, case_sensitive, variant_filter })
        }
    }

    /// The pure match predicate over one candidate.
    pub fn matches(&self, c: &Candidate) -> (r: bool)
        ensures
            r == candidate_matches(*self, *c),
    {
        if self.variant_filter.allows_compressed() {
            match &c.compressed {
                Some(a) => {
                    if a.starts_with_any(self.targets.as_slice(), self.case_sensitive) {
                        return true;
                    }
                },
                None => {},
            }
        }
        if self.variant_filter.allows_uncompressed() {
            match &c.uncompressed {
                Some(a) => {
                    if a.starts_with_any(self.targets.as_slice(), self.case_sensitive) {
                        return true;
                    }
                },
                None => {},
            }
        }
        false
    }
}

/// Whether target `i` is satisfied by some eligible, present variant of
/// the candidate.
pub open spec fn target_hits(p: MatchPolicy, c: Candidate, i: int) -> bool {
    ||| (filter_allows_compressed(p.variant_filter) && c.compressed is Some && prefix_matches(
        c.compressed.unwrap().address@,
        p.targets@[i]@,
        p.case_sensitive,
    ))
    ||| (filter_allows_uncompressed(p.variant_filter) && c.uncompressed is Some && prefix_matches(
        c.uncompressed.unwrap().address@,
        p.targets@[i]@,
        p.case_sensitive,
    ))
}

/// A candidate satisfies the policy exactly when some target is satisfied
/// by some eligible variant: the two readings of the match predicate
/// agree.
pub proof fn lemma_candidate_matches_iff_target_hits(p: MatchPolicy, c: Candidate)
    ensures
        candidate_matches(p, c) <==> exists|i: int|
            0 <= i < p.targets@.len() && target_hits(p, c, i),
{
    if candidate_matches(p, c) {
        if filter_allows_compressed(p.variant_filter) && c.compressed is Some && matches_any(
            c.compressed.unwrap().address@,
            p.targets@,
            p.case_sensitive,
        ) {
            let i = choose|i: int|
                0 <= i < p.targets@.len() && prefix_matches(
                    c.compressed.unwrap().address@,
                    p.targets@[i]@,
                    p.case_sensitive,
                );
            assert(target_hits(p, c, i));
        } else {
            let i = choose|i: int|
                0 <= i < p.targets@.len() && prefix_matches(
                    c.uncompressed.unwrap().address@,
                    p.targets@[i]@,
                    p.case_sensitive,
                );
            assert(target_hits(p, c, i));
        }
    }
    if exists|i: int| 0 <= i < p.targets@.len() && target_hits(p, c, i) {
        let i = choose|i: int| 0 <= i < p.targets@.len() && target_hits(p, c, i);
        if filter_allows_compressed(p.variant_filter) && c.compressed is Some && prefix_matches(
            c.compressed.unwrap().address@,
            p.targets@[i]@,
            p.case_sensitive,
        ) {
            assert(matches_any(c.compressed.unwrap().address@, p.targets@, p.case_sensitive));
        } else {
            assert(matches_any(c.uncompressed.unwrap().address@, p.targets@, p.case_sensitive));
        }
    }
}

impl MatchPolicy {
    /// Which target the candidate satisfies, for traceability: the first
    /// target in order that some eligible variant starts with. It is
    /// `Some` exactly when the candidate matches the policy; which target
    /// is reported does not affect the match outcome.
    pub fn matched_target(&self, c: &Candidate) -> (r: Option<usize>)
        ensures
            r is Some <==> candidate_matches(*self, *c),
            r matches Some(i) ==> i < self.targets@.len() && target_hits(*self, *c, i as int)
                && (forall|j: int| 0 <= j < i ==> !target_hits(*self, *c, j)),
    {
        let n = self.targets.len();
        let mut i: usize = 0;
        while i < n
            invariant
                i <= n,
                n == self.targets@.len(),
                forall|j: int| 0 <= j < i ==> !target_hits(*self, *c, j),
            decreases n - i,
        {
            let target = &self.targets[i];
            let mut hit = false;
            if self.variant_filter.allows_compressed() {
                match &c.compressed {
                    Some(a) => {
                        if a.starts_with(target.as_str(), self.case_sensitive) {
                            hit = true;
                        }
                    },
                    None => {},
                }
            }
            if !hit && self.variant_filter.allows_uncompressed() {
                match &c.uncompressed {
                    Some(a) => {
                        if a.starts_with(target.as_str(), self.case_sensitive) {
                            hit = true;
                        }
                    },
                    None => {},
                }
            }
            if hit {
                proof {
                    lemma_candidate_matches_iff_target_hits(*self, *c);
                }
                return Some(i);
            }
            i = i + 1;
        }
        proof {
            lemma_candidate_matches_iff_target_hits(*self, *c);
        }
        None
    }
}

/// Whether the sequence is ordered by ascending character length.
pub open spec fn sorted_by_len(s: Seq<String>) -> bool {
    forall|i: int, j: int| 0 <= i < j < s.len() ==> s[i]@.len() <= s[j]@.len()
}

/// Orders prefixes by ascending length, keeping exactly the given strings.
/// Shorter prefixes are statistically found first, so checking them first
/// lowers the average comparisons per candidate.
pub fn sort_prefixes_by_length(prefixes: Vec<String>) -> (r: Vec<String>)
    ensures
        r@.len() == prefixes@.len(),
        sorted_by_len(r@),
        r@.to_multiset() == prefixes@.to_multiset(),
{
    broadcast use vstd::seq_lib::group_to_multiset_ensures;

    let mut work = prefixes;
    let mut out: Vec<String> = Vec::new();
    proof {
        assert_multisets_equal!(out@.to_multiset().add(work@.to_multiset()), work@.to_multiset());
    }
    while work.len() > 0
        invariant
            out@.len() + work@.len() == prefixes@.len(),
            sorted_by_len(out@),
            forall|i: int, j: int|
                0 <= i < out@.len() && 0 <= j < work@.len() ==> out@[i]@.len() <= work@[j]@.len(),
            out@.to_multiset().add(work@.to_multiset()) == prefixes@.to_multiset(),
        decreases work@.len(),
    {
        let mut m: usize = 0;
        let mut k: usize = 1;
        while k < work.len()
            invariant
                work@.len() > 0,
                m < k,
                k <= work@.len(),
                forall|j: int| 0 <= j < k ==> work@[m as int]@.len() <= work@[j]@.len(),
            decreases work@.len() - k,
        {
            if work[k].as_str().unicode_len() < work[m].as_str().unicode_len() {
                m = k;
            }
            k = k + 1;
        }
        let ghost old_out = out@;
        let ghost old_work = work@;
        let x = work.remove(m);
        out.push(x);
        proof {
            broadcast use vstd::seq_lib::group_to_multiset_ensures, vstd::multiset::group_multiset_axioms;

            assert(old_work.contains(old_work[m as int]));
            assert(out@ == old_out.push(old_work[m as int]));
            assert(work@ == old_work.remove(m as int));
            assert(old_out.push(old_work[m as int]).to_multiset() =~= old_out.to_multiset().insert(
                old_work[m as int],
            ));
            assert(old_work.remove(m as int).to_multiset() =~= old_work.to_multiset().remove(
                old_work[m as int],
            ));
            assert(old_work.to_multiset().count(old_work[m as int]) > 0);
            assert_multisets_equal!(
                out@.to_multiset().add(work@.to_multiset()),
                old_out.to_multiset().add(old_work.to_multiset())
            );
        }
    }
    out
}

} // verus!
