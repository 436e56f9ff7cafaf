use vanity_address::VanityError;
use vanity_address::address::BitcoinAddress;
use vanity_address::address::signing_context;
use vanity_address::policy::Candidate;
use vanity_address::policy::MatchPolicy;
use vanity_address::policy::VariantFilter;
use vanity_address::policy::sort_prefixes_by_length;
use vanity_address::session::GenerationMode;
use vanity_address::session::SearchSession;
use vanity_address::session::StepOutcome;
use vanity_address::session::run_search;
use vanity_address::session::search_candidates;
use vanity_address::session::worker_step;

fn stub_address(address: &str) -> BitcoinAddress {
    BitcoinAddress {
        private_key: format!("priv-{}", address),
        public_key: format!("pub-{}", address),
        address: address.to_string(),
    }
}

fn stub_candidate(address: &str) -> Candidate {
    Candidate { compressed: Some(stub_address(address)), uncompressed: None }
}

fn policy(targets: &[&str], case_sensitive: bool) -> MatchPolicy {
    let targets: Vec<String> = targets.iter().map(|t| t.to_string()).collect();
    MatchPolicy::new(targets, case_sensitive, VariantFilter::Any).unwrap()
}

#[test]
fn case_sensitivity_toggle() {
    let address = stub_address("bc1qxyzabc");

    assert!(address.starts_with("BC1Q", false));
    assert!(!address.starts_with("BC1Q", true));
}

#[test]
fn empty_target_set_rejected() {
    let result = MatchPolicy::new(Vec::new(), false, VariantFilter::Any);

    assert!(matches!(result, Err(VanityError::EmptyTargets)));
    let session = SearchSession::new();
    assert_eq!(session.attempts, 0);
}

#[test]
fn stub_generator_returns_exactly_the_matching_candidate() {
    let p = policy(&["1A"], true);
    let mut session = SearchSession::new();
    let candidates = vec![
        stub_candidate("1Bfirst"),
        stub_candidate("1Csecond"),
        stub_candidate("1Athird"),
        stub_candidate("1Afourth"),
    ];

    let found = search_candidates(&p, &mut session, candidates);

    assert_eq!(found, Some(2));
    assert_eq!(session.attempts, 3);
    assert!(session.cancelled);
    let winner = session.winner.expect("a winner was claimed");
    assert_eq!(winner.compressed.unwrap().address, "1Athird");
}

#[test]
fn stub_generator_without_match_claims_nothing() {
    let p = policy(&["1A"], true);
    let mut session = SearchSession::new();
    let candidates = vec![stub_candidate("1Bfirst"), stub_candidate("1Csecond")];

    let found = search_candidates(&p, &mut session, candidates);

    assert_eq!(found, None);
    assert_eq!(session.attempts, 2);
    assert!(!session.cancelled);
    assert!(session.winner.is_none());
}

#[test]
fn exactly_one_winner_when_two_workers_race() {
    let p = policy(&["1A"], true);
    let mut session = SearchSession::new();

    // Two workers take turns on the shared session; every candidate matches.
    let first = worker_step(&mut session, &p, stub_candidate("1Aalpha"));
    let second = worker_step(&mut session, &p, stub_candidate("1Abeta"));

    assert_eq!(first, StepOutcome::Claimed);
    assert_eq!(second, StepOutcome::Stopped);
    let first_read = session.winner.as_ref().unwrap().compressed.as_ref().unwrap().address.clone();
    let second_read = session.winner.as_ref().unwrap().compressed.as_ref().unwrap().address.clone();
    assert_eq!(first_read, "1Aalpha");
    assert_eq!(first_read, second_read);
}

#[test]
fn cancellation_stops_workers_without_extra_cycles() {
    let p = policy(&["1A"], true);
    let mut session = SearchSession::new();
    assert_eq!(worker_step(&mut session, &p, stub_candidate("1Awin")), StepOutcome::Claimed);
    let attempts_at_cancellation = session.attempts;

    // After the flag is up, further workers stop without generating.
    for _ in 0..5 {
        let outcome = worker_step(&mut session, &p, stub_candidate("1Alate"));
        assert_eq!(outcome, StepOutcome::Stopped);
    }

    assert_eq!(session.attempts, attempts_at_cancellation);
    assert_eq!(session.winner.as_ref().unwrap().compressed.as_ref().unwrap().address, "1Awin");
}

#[test]
fn variant_filter_limits_which_addresses_count() {
    let targets: Vec<String> = vec!["1A".to_string()];
    let p = MatchPolicy::new(targets, true, VariantFilter::Uncompressed).unwrap();
    let compressed_only = stub_candidate("1Amatch");

    assert!(!p.matches(&compressed_only));

    let both = Candidate {
        compressed: Some(stub_address("1Xmiss")),
        uncompressed: Some(stub_address("1Amatch")),
    };
    assert!(p.matches(&both));
}

#[test]
fn prefixes_sort_by_ascending_length() {
    let prefixes = vec![
        "1ABC".to_string(),
        "1".to_string(),
        "1AB".to_string(),
        "1A".to_string(),
    ];

    let sorted = sort_prefixes_by_length(prefixes);

    assert_eq!(sorted, vec!["1", "1A", "1AB", "1ABC"]);
}

#[test]
fn real_generator_finds_legacy_prefix_winner() {
    // Every legacy mainnet address starts with "1", so one candidate is
    // enough for the search to find a verified winner through the real
    // key generator and encoder.
    let secp = signing_context();
    let p = policy(&["1"], true);
    let mut session = SearchSession::new();
    let mode = GenerationMode::Single { compressed: true, bech32: false };

    let found = run_search(&p, &mut session, &secp, &mode, 5).unwrap();

    assert!(found);
    assert!(session.cancelled);
    let winner = session.winner.unwrap().compressed.unwrap();
    assert!(winner.address.starts_with('1'));
}

#[test]
fn real_generator_finds_paired_winner() {
    let secp = signing_context();
    let p = policy(&["1"], true);
    let mut session = SearchSession::new();

    let found = run_search(&p, &mut session, &secp, &GenerationMode::Paired, 5).unwrap();

    assert!(found);
    let winner = session.winner.unwrap();
    assert!(winner.compressed.unwrap().address.starts_with('1'));
    assert!(winner.uncompressed.unwrap().address.starts_with('1'));
}

#[test]
fn search_budget_without_match_reports_no_winner() {
    let secp = signing_context();
    // No base58 address contains the digit zero, so this never matches.
    let p = policy(&["10"], true);
    let mut session = SearchSession::new();
    let mode = GenerationMode::Single { compressed: true, bech32: false };

    let found = run_search(&p, &mut session, &secp, &mode, 3).unwrap();

    assert!(!found);
    assert_eq!(session.attempts, 3);
    assert!(session.winner.is_none());
}

#[test]
fn matched_target_reports_the_first_satisfied_prefix() {
    let p = policy(&["1B", "1A"], true);
    let candidate = stub_candidate("1Axyz");

    assert_eq!(p.matched_target(&candidate), Some(1));
    assert!(p.matches(&candidate));

    let miss = stub_candidate("1Cxyz");
    assert_eq!(p.matched_target(&miss), None);
}

#[test]
fn exactly_one_winner_with_parallel_workers() {
    let p = policy(&["1A"], true);
    let session = std::sync::Mutex::new(SearchSession::new());

    let worker = |tag: &str| {
        for i in 0..100 {
            let candidate = if i >= 60 {
                stub_candidate(&format!("1Awin-{}-{}", tag, i))
            } else {
                stub_candidate(&format!("1Bmiss-{}-{}", tag, i))
            };
            let mut shared = session.lock().unwrap();
            let outcome = worker_step(&mut shared, &p, candidate);
            if outcome != StepOutcome::Continued {
                break;
            }
        }
    };

    rayon::join(|| worker("left"), || worker("right"));

    let final_state = session.into_inner().unwrap();
    assert!(final_state.cancelled);
    let first_read = final_state.winner.as_ref().unwrap().compressed.as_ref().unwrap().address.clone();
    let second_read = final_state.winner.as_ref().unwrap().compressed.as_ref().unwrap().address.clone();
    assert!(first_read.starts_with("1Awin-"));
    assert_eq!(first_read, second_read);
}
