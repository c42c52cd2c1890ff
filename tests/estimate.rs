use eip1559_fees::{
    default_estimator, Action, BlockHeader, BlockId, EstimateError, Estimation, Event,
    FeeEstimate, FeeHistory, Phase, Wei, FEE_HISTORY_BLOCKS, MIN_PRIORITY_FEE,
    REWARD_PERCENTILE,
};

fn wei(v: u64) -> Wei {
    Wei::from_u64(v)
}

fn single_rewards(values: &[u64]) -> Vec<Vec<Wei>> {
    values.iter().map(|v| vec![wei(*v)]).collect()
}

fn amount(w: &Wei) -> [u64; 4] {
    w.limbs
}

fn run_default(block: BlockId, base_fee: Option<Wei>, rewards: Vec<Vec<Wei>>) -> Action {
    let mut estimation = Estimation::new(block);
    assert!(matches!(estimation.action(), Action::FetchBlock(b) if b == block));
    let next = estimation.step(Event::Block(Some(BlockHeader { base_fee_per_gas: base_fee })));
    match next {
        Action::FetchFeeHistory { .. } => {}
        other => return other,
    }
    estimation.step(Event::FeeHistory(FeeHistory { reward: rewards }))
}

fn done_ok(action: Action) -> FeeEstimate {
    match action {
        Action::Done(Ok(e)) => e,
        other => panic!("expected a finished estimate, got {:?}", other),
    }
}

#[test]
fn zero_rewards_floor_the_tip() {
    let e = default_estimator(&wei(100), &single_rewards(&[0; 10])).unwrap();
    assert_eq!(amount(&e.max_priority_fee_per_gas), [MIN_PRIORITY_FEE, 0, 0, 0]);
    assert_eq!(amount(&e.max_fee_per_gas), [200 + MIN_PRIORITY_FEE, 0, 0, 0]);
}

#[test]
fn one_to_ten_gives_the_upper_median() {
    let e = default_estimator(&wei(100), &single_rewards(&[1, 2, 3, 4, 5, 6, 7, 8, 9, 10]))
        .unwrap();
    assert_eq!(amount(&e.max_priority_fee_per_gas), [6, 0, 0, 0]);
    assert_eq!(amount(&e.max_fee_per_gas), [206, 0, 0, 0]);
}

#[test]
fn unsorted_rewards_are_sorted_first() {
    let e = default_estimator(&wei(0), &single_rewards(&[10, 1, 7, 5, 3])).unwrap();
    assert_eq!(amount(&e.max_priority_fee_per_gas), [5, 0, 0, 0]);
    assert_eq!(amount(&e.max_fee_per_gas), [5, 0, 0, 0]);
}

#[test]
fn one_gwei_base_and_two_gwei_tip() {
    let action = run_default(BlockId::Latest, Some(wei(1_000_000_000)), single_rewards(&[2_000_000_000]));
    let e = done_ok(action);
    assert_eq!(amount(&e.max_priority_fee_per_gas), [2_000_000_000, 0, 0, 0]);
    assert_eq!(amount(&e.max_fee_per_gas), [4_000_000_000, 0, 0, 0]);
}

#[test]
fn max_fee_covers_the_tip() {
    let action = run_default(BlockId::Number(7), Some(wei(0)), single_rewards(&[9, 3, 12]));
    let e = done_ok(action);
    assert_eq!(amount(&e.max_priority_fee_per_gas), [9, 0, 0, 0]);
    assert_eq!(amount(&e.max_fee_per_gas), [9, 0, 0, 0]);
}

#[test]
fn custom_heuristic_is_taken_verbatim() {
    let mut estimation = Estimation::new(BlockId::Latest);
    let zero = |_: Wei, _: Vec<Vec<Wei>>| FeeEstimate {
        max_fee_per_gas: Wei::zero(),
        max_priority_fee_per_gas: Wei::zero(),
    };
    let next = estimation.step_with(
        Event::Block(Some(BlockHeader { base_fee_per_gas: Some(wei(1_000_000_000)) })),
        zero,
    );
    assert!(matches!(next, Action::FetchFeeHistory { .. }));
    let last = estimation.step_with(
        Event::FeeHistory(FeeHistory { reward: single_rewards(&[5, 6, 7]) }),
        zero,
    );
    let e = done_ok(last);
    assert_eq!(amount(&e.max_fee_per_gas), [0, 0, 0, 0]);
    assert_eq!(amount(&e.max_priority_fee_per_gas), [0, 0, 0, 0]);
}

#[test]
fn missing_block_fails_without_history() {
    let mut estimation = Estimation::new(BlockId::Number(40_340_495));
    let next = estimation.step(Event::Block(None));
    assert!(matches!(next, Action::Done(Err(EstimateError::BlockNotFound))));
    assert!(matches!(estimation.phase, Phase::Finished(Err(EstimateError::BlockNotFound))));
    let after = estimation.step(Event::FeeHistory(FeeHistory { reward: single_rewards(&[1]) }));
    assert!(matches!(after, Action::Done(Err(EstimateError::BlockNotFound))));
}

#[test]
fn pre_fork_block_fails_without_history() {
    let action = run_default(BlockId::Earliest, None, single_rewards(&[1]));
    assert!(matches!(action, Action::Done(Err(EstimateError::Eip1559NotActivated))));
}

#[test]
fn failed_block_lookup() {
    let mut estimation = Estimation::new(BlockId::Pending);
    let next = estimation.step(Event::BlockFailed);
    assert!(matches!(next, Action::Done(Err(EstimateError::BlockUnavailable))));
}

#[test]
fn failed_fee_history() {
    let mut estimation = Estimation::new(BlockId::Latest);
    estimation.step(Event::Block(Some(BlockHeader { base_fee_per_gas: Some(wei(3)) })));
    let next = estimation.step(Event::FeeHistoryFailed);
    assert!(matches!(next, Action::Done(Err(EstimateError::FeeHistoryUnavailable))));
}

#[test]
fn history_request_covers_the_window() {
    let mut estimation = Estimation::new(BlockId::Number(12));
    let next = estimation.step(Event::Block(Some(BlockHeader { base_fee_per_gas: Some(wei(3)) })));
    match next {
        Action::FetchFeeHistory { block_count, newest_block, reward_percentile } => {
            assert_eq!(block_count, FEE_HISTORY_BLOCKS);
            assert_eq!(block_count, 10);
            assert_eq!(newest_block, BlockId::Number(12));
            assert_eq!(reward_percentile, REWARD_PERCENTILE);
        }
        other => panic!("expected a fee-history request, got {:?}", other),
    }
}

#[test]
fn out_of_turn_answer_is_ignored() {
    let mut estimation = Estimation::new(BlockId::Latest);
    let next = estimation.step(Event::FeeHistoryFailed);
    assert!(matches!(next, Action::FetchBlock(BlockId::Latest)));
    assert!(matches!(estimation.phase, Phase::FetchingBlock));
}

#[test]
fn same_answers_give_same_estimate() {
    let first = done_ok(run_default(BlockId::Latest, Some(wei(77)), single_rewards(&[4, 8, 2, 6])));
    let second = done_ok(run_default(BlockId::Latest, Some(wei(77)), single_rewards(&[4, 8, 2, 6])));
    assert_eq!(amount(&first.max_fee_per_gas), amount(&second.max_fee_per_gas));
    assert_eq!(amount(&first.max_priority_fee_per_gas), amount(&second.max_priority_fee_per_gas));
    assert_eq!(amount(&first.max_fee_per_gas), [160, 0, 0, 0]);
}

#[test]
fn empty_window_floors_the_tip() {
    let e = default_estimator(&wei(10), &Vec::new()).unwrap();
    assert_eq!(amount(&e.max_priority_fee_per_gas), [MIN_PRIORITY_FEE, 0, 0, 0]);
    assert_eq!(amount(&e.max_fee_per_gas), [21, 0, 0, 0]);
}

#[test]
fn blocks_without_rewards_are_skipped() {
    let rewards = vec![vec![], vec![wei(4)], vec![], vec![wei(8)], vec![wei(6)]];
    let e = default_estimator(&wei(1), &rewards).unwrap();
    assert_eq!(amount(&e.max_priority_fee_per_gas), [6, 0, 0, 0]);
    assert_eq!(amount(&e.max_fee_per_gas), [8, 0, 0, 0]);
}

#[test]
fn large_tips_compare_by_value() {
    let big = Wei { limbs: [0, 1, 0, 0] };
    let rewards = vec![vec![big], vec![wei(u64::MAX)]];
    let e = default_estimator(&wei(0), &rewards).unwrap();
    assert_eq!(amount(&e.max_priority_fee_per_gas), [0, 1, 0, 0]);
    assert_eq!(amount(&e.max_fee_per_gas), [0, 1, 0, 0]);
}

#[test]
fn carry_between_limbs() {
    let e = default_estimator(&Wei { limbs: [u64::MAX, 0, 0, 0] }, &single_rewards(&[2])).unwrap();
    assert_eq!(amount(&e.max_fee_per_gas), [0, 2, 0, 0]);
}

#[test]
fn overflowing_max_fee_fails() {
    let half = Wei { limbs: [0, 0, 0, 1 << 63] };
    let r = default_estimator(&half, &single_rewards(&[1]));
    assert_eq!(r.unwrap_err(), EstimateError::HeuristicOverflow);
    let just_below = Wei { limbs: [u64::MAX, u64::MAX, u64::MAX, u64::MAX >> 1] };
    let top = default_estimator(&just_below, &single_rewards(&[1])).unwrap();
    assert_eq!(amount(&top.max_fee_per_gas), [u64::MAX; 4]);
    let r = default_estimator(&just_below, &single_rewards(&[2]));
    assert_eq!(r.unwrap_err(), EstimateError::HeuristicOverflow);
    let fits = Wei { limbs: [u64::MAX - 1, u64::MAX, u64::MAX, u64::MAX >> 1] };
    let e = default_estimator(&fits, &single_rewards(&[1])).unwrap();
    assert_eq!(amount(&e.max_fee_per_gas), [u64::MAX - 2, u64::MAX, u64::MAX, u64::MAX]);
}

#[test]
fn gwei_text() {
    assert_eq!(wei(1_500_000_000).to_gwei_string(), "1.500000000");
    assert_eq!(wei(0).to_gwei_string(), "0.000000000");
    assert_eq!(wei(5).to_gwei_string(), "0.000000005");
    assert_eq!(wei(42_000_000_123).to_gwei_string(), "42.000000123");
}
