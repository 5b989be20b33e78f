use impedance::adaptive::Activation;
use impedance::adaptive::AdaptiveState;
use impedance::adaptive::SharedTable;
use impedance::adaptive::StepVerdict;
use impedance::adaptive::TimedBlockingFuture;
use impedance::adaptive::Token;
use impedance::adaptive::TokenMinter;
use impedance::adaptive::WorkerStatus;
use impedance::adaptive::track_and_run;

#[test]
fn concurrent_instances_share_one_table() {
    let rt = tokio::runtime::Builder::new_multi_thread()
        .worker_threads(2)
        .build()
        .unwrap();

    let table = SharedTable::new();
    let mut minter = TokenMinter::new();
    let tok = Token::new(&mut minter);

    // Classify the site for offloading so that both instances offload.
    table.record(&tok, AdaptiveState::Spawn);

    let mut e1 = TimedBlockingFuture::new(tok, 100_000, move || 1 + 1);
    let mut e2 = TimedBlockingFuture::new(tok, 100_000, move || 21 * 2);
    let work1 = match e1.activate(&table) {
        Activation::Offload(f) => f,
        Activation::Finished(_) => panic!("a Spawn-classified site must offload"),
    };
    let work2 = match e2.activate(&table) {
        Activation::Offload(f) => f,
        Activation::Finished(_) => panic!("a Spawn-classified site must offload"),
    };

    // Run both worker legs concurrently on real worker threads, each with
    // its own handle to the same shared table.
    let t1 = table.share();
    let t2 = table.share();
    let (r1, r2) = rt.block_on(async {
        let h1 = tokio::task::spawn_blocking(move || track_and_run(&t1, tok, 100_000, work1));
        let h2 = tokio::task::spawn_blocking(move || track_and_run(&t2, tok, 100_000, work2));
        (h1.await.unwrap(), h2.await.unwrap())
    });

    // Both complete with their respective correct values.
    assert_eq!(r1, 2);
    assert_eq!(r2, 42);
    assert!(matches!(
        e1.join_step(WorkerStatus::Finished(r1)),
        StepVerdict::Complete(2)
    ));
    assert!(matches!(
        e2.join_step(WorkerStatus::Finished(r2)),
        StepVerdict::Complete(42)
    ));

    // The shared entry reflects whichever worker wrote last; both runs were
    // fast, so either way the site ends classified Inline.
    assert!(matches!(table.strategy(&tok), AdaptiveState::Inline));
}
