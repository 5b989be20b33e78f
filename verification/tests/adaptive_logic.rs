use impedance::adaptive::AdaptiveState;
use impedance::adaptive::SharedTable;
use impedance::adaptive::TimingTable;
use impedance::adaptive::Token;
use impedance::adaptive::TokenMinter;
use impedance::adaptive::TokenType;
use impedance::adaptive::classify;

#[test]
fn classify_is_strictly_above_cutoff() {
    assert!(matches!(classify(0, 100_000), AdaptiveState::Inline));
    assert!(matches!(classify(100_000, 100_000), AdaptiveState::Inline));
    assert!(matches!(classify(100_001, 100_000), AdaptiveState::Spawn));
    assert!(matches!(classify(u128::MAX, 100_000), AdaptiveState::Spawn));
    assert!(matches!(classify(5_000_000, 5_000_000), AdaptiveState::Inline));
    assert!(matches!(classify(5_000_001, 5_000_000), AdaptiveState::Spawn));
}

#[test]
fn tokens_are_minted_in_sequence() {
    let mut minter = TokenMinter::new();
    let t0 = Token::new(&mut minter);
    let t1 = Token::new(&mut minter);
    let t2 = Token::new(&mut minter);
    assert!(matches!(t0.kind(), TokenType::AdhocAdaptive(0)));
    assert!(matches!(t1.kind(), TokenType::AdhocAdaptive(1)));
    assert!(matches!(t2.kind(), TokenType::AdhocAdaptive(2)));
    assert!(t0 != t1);
    assert!(t1 != t2);
    assert!(t0 == t0);
    assert!(matches!(Token::always_inline().kind(), TokenType::AlwaysInline));
    assert!(matches!(Token::always_spawn().kind(), TokenType::AlwaysSpawn));
}

#[test]
fn the_default_classification_is_inline() {
    assert!(matches!(AdaptiveState::default(), AdaptiveState::Inline));
}

#[test]
fn unseen_sites_default_to_inline() {
    let mut table = TimingTable::new();
    let mut minter = TokenMinter::new();
    let tok = Token::new(&mut minter);
    assert!(matches!(table.strategy(&tok), AdaptiveState::Inline));
    assert!(matches!(table.fetch_or_default(&tok), AdaptiveState::Inline));
    assert!(matches!(table.strategy(&tok), AdaptiveState::Inline));
}

#[test]
fn last_sample_wins() {
    let mut table = TimingTable::new();
    let mut minter = TokenMinter::new();
    let tok = Token::new(&mut minter);
    table.record(&tok, AdaptiveState::Spawn);
    assert!(matches!(table.strategy(&tok), AdaptiveState::Spawn));
    table.record(&tok, AdaptiveState::Spawn);
    table.record(&tok, AdaptiveState::Inline);
    assert!(matches!(table.strategy(&tok), AdaptiveState::Inline));
    table.record(&tok, AdaptiveState::Spawn);
    assert!(matches!(table.strategy(&tok), AdaptiveState::Spawn));
}

#[test]
fn sites_are_tracked_independently() {
    let mut table = TimingTable::new();
    let mut minter = TokenMinter::new();
    let a = Token::new(&mut minter);
    let b = Token::new(&mut minter);
    table.record(&a, AdaptiveState::Spawn);
    assert!(matches!(table.strategy(&a), AdaptiveState::Spawn));
    assert!(matches!(table.strategy(&b), AdaptiveState::Inline));
}

#[test]
fn pinned_tokens_bypass_the_table() {
    let mut table = TimingTable::new();
    let mut minter = TokenMinter::new();
    let adhoc = Token::new(&mut minter);
    table.record(&adhoc, AdaptiveState::Spawn);

    // Pinned strategies are fixed, whatever the table holds.
    assert!(matches!(table.strategy(&Token::always_inline()), AdaptiveState::Inline));
    assert!(matches!(table.strategy(&Token::always_spawn()), AdaptiveState::Spawn));
    assert!(matches!(table.fetch_or_default(&Token::always_inline()), AdaptiveState::Inline));
    assert!(matches!(table.fetch_or_default(&Token::always_spawn()), AdaptiveState::Spawn));

    // Recording against a pinned token mutates nothing: the pinned answers
    // and the ad-hoc entry are all unchanged.
    table.record(&Token::always_inline(), AdaptiveState::Spawn);
    table.record(&Token::always_spawn(), AdaptiveState::Inline);
    assert!(matches!(table.strategy(&Token::always_inline()), AdaptiveState::Inline));
    assert!(matches!(table.strategy(&Token::always_spawn()), AdaptiveState::Spawn));
    assert!(matches!(table.strategy(&adhoc), AdaptiveState::Spawn));
}

#[test]
fn recorded_samples_are_classified_against_the_cutoff() {
    let mut table = TimingTable::new();
    let mut minter = TokenMinter::new();
    let tok = Token::new(&mut minter);
    let other = Token::new(&mut minter);

    table.record_sample(&tok, 1_000_000, 100_000);
    assert!(matches!(table.strategy(&tok), AdaptiveState::Spawn));
    assert!(matches!(table.strategy(&other), AdaptiveState::Inline));
    table.record_sample(&tok, 3_000, 100_000);
    assert!(matches!(table.strategy(&tok), AdaptiveState::Inline));

    // The five-millisecond cutoff used by run_and_bench, exact at the edge.
    table.record_sample(&tok, 5_000_001, 5_000_000);
    assert!(matches!(table.strategy(&tok), AdaptiveState::Spawn));
    table.record_sample(&tok, 5_000_000, 5_000_000);
    assert!(matches!(table.strategy(&tok), AdaptiveState::Inline));

    // A sample recorded for a pinned token touches nothing.
    table.record_sample(&Token::always_inline(), 1_000_000, 100_000);
    assert!(matches!(table.strategy(&Token::always_inline()), AdaptiveState::Inline));
    assert!(matches!(table.strategy(&tok), AdaptiveState::Inline));
}

#[test]
fn shared_table_mirrors_the_plain_table() {
    let table = SharedTable::new();
    let mut minter = TokenMinter::new();
    let tok = Token::new(&mut minter);
    assert!(matches!(table.fetch_or_default(&tok), AdaptiveState::Inline));
    table.record(&tok, AdaptiveState::Spawn);
    assert!(matches!(table.strategy(&tok), AdaptiveState::Spawn));
    let other = table.share();
    assert!(matches!(other.strategy(&tok), AdaptiveState::Spawn));
    other.record(&tok, AdaptiveState::Inline);
    assert!(matches!(table.strategy(&tok), AdaptiveState::Inline));
    assert!(matches!(table.strategy(&Token::always_spawn()), AdaptiveState::Spawn));
}
