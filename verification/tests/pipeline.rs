use sando_rs::relay::{bundle_for_block, construct_bundle, FanOut};
use sando_rs::runner::bundle_sender::{BundleSender, PendingSandwich};
use sando_rs::runner::oracles::{
    block_oracle_tick, get_recover_weth_payload_value, recover_weth_if_needed, CycleAction,
    MegaSandwichCycle, NewPoolsSchedule, SyncRange, AGGREGATION_DELAY_MILLIS, RECOVER_AMOUNT,
    WETH_BALANCE_HIGH_WATER,
};
use sando_rs::runner::state::BotState;
use sando_rs::types::address::Address;
use sando_rs::types::block::{
    calculate_next_block_base_fee, BlockHeader, BlockInfo, BlockOracle,
};
use sando_rs::types::pool::{Pool, PoolVariant};
use sando_rs::types::signed::I256;
use sando_rs::types::uint::U256;
use sando_rs::utils::constants::get_weth_address;
use sando_rs::utils::tx_builder::{SandwichMaker, SwapRequest, SwapV2, SwapV3};

fn header(number: u64, gas_used: u64) -> BlockHeader {
    BlockHeader {
        number,
        timestamp: U256::from_u64(1_700_000_000 + 12 * number),
        base_fee_per_gas: U256::from_u64(100_000_000_000),
        gas_used: U256::from_u64(gas_used),
        gas_limit: U256::from_u64(30_000_000),
    }
}

fn empty_info() -> BlockInfo {
    BlockInfo::new(0, U256::zero(), U256::zero())
}

fn token() -> Address {
    Address::new([0xee; 20])
}

fn opportunity(amount: u128) -> PendingSandwich {
    let pair = Pool::new(Address::new([0x22; 20]), get_weth_address(), token(), U256::from_u64(3000), PoolVariant::UniswapV2);
    let swap = SwapV2 {
        block_number: U256::from_u64(17_000_000),
        amount_in: U256::from_u128(amount),
        amount_out: U256::from_u128(amount * 3),
        other_token: token(),
        pair,
    };
    PendingSandwich { frontrun: SwapRequest::V2WethIsInput(swap), backrun: SwapRequest::V2WethIsOutput(swap) }
}

#[test]
fn base_fee_stays_at_the_gas_target() {
    let fee = calculate_next_block_base_fee(&header(1, 15_000_000));
    assert_eq!(fee.as_u64(), 100_000_000_000);
}

#[test]
fn base_fee_rises_above_the_gas_target() {
    let fee = calculate_next_block_base_fee(&header(1, 20_000_000));
    assert_eq!(fee.as_u64(), 104_166_666_666);
    let full = calculate_next_block_base_fee(&header(1, 30_000_000));
    assert_eq!(full.as_u64(), 112_500_000_000);
}

#[test]
fn base_fee_falls_below_the_gas_target() {
    let fee = calculate_next_block_base_fee(&header(1, 10_000_000));
    assert_eq!(fee.as_u64(), 95_833_333_334);
    let empty = calculate_next_block_base_fee(&header(1, 0));
    assert_eq!(empty.as_u64(), 87_500_000_000);
}

#[test]
fn blocks_that_cannot_be_extrapolated_are_told_apart() {
    assert!(header(1, 20_000_000).is_predictable());
    assert!(!header(u64::MAX, 20_000_000).is_predictable());

    let mut no_target = header(1, 5);
    no_target.gas_limit = U256::from_u64(1);
    assert!(!no_target.is_fee_computable());
    no_target.gas_used = U256::zero();
    assert!(no_target.is_fee_computable());
    assert_eq!(calculate_next_block_base_fee(&no_target).as_u64(), 100_000_000_000);

    let mut huge = header(1, 20_000_000);
    huge.base_fee_per_gas = U256::max_value();
    assert!(!huge.is_fee_computable());
    huge.gas_used = U256::from_u64(14_999_999);
    assert!(huge.is_fee_computable());

    let mut late = header(1, 15_000_000);
    late.timestamp = U256::max_value();
    assert!(late.is_fee_computable());
    assert!(!late.is_predictable());
}

#[test]
fn next_block_is_one_interval_later() {
    let next = BlockInfo::find_next_block_info(&header(100, 20_000_000));
    assert_eq!(next.number, 101);
    assert_eq!(next.timestamp.as_u64(), 1_700_000_000 + 1200 + 12);
    assert_eq!(next.base_fee.as_u64(), 104_166_666_666);
}

#[test]
fn oracle_keeps_the_two_latest_snapshots_only() {
    let mut oracle = BlockOracle::new(empty_info(), empty_info());
    oracle.on_new_block(&header(100, 20_000_000));
    assert_eq!(oracle.latest_block.number, 100);
    assert_eq!(oracle.latest_block.timestamp.as_u64(), 1_700_001_200);
    assert_eq!(oracle.latest_block.base_fee.as_u64(), 100_000_000_000);
    assert_eq!(oracle.next_block.number, 101);
    assert_eq!(oracle.next_block.timestamp.as_u64(), 1_700_001_212);
    assert_eq!(oracle.next_block.base_fee.as_u64(), 104_166_666_666);

    oracle.on_new_block(&header(101, 10_000_000));
    assert_eq!(oracle.latest_block.number, 101);
    assert_eq!(oracle.next_block.number, 102);
    assert_eq!(oracle.next_block.timestamp.as_u64(), 1_700_001_224);
    assert_eq!(oracle.next_block.base_fee.as_u64(), 95_833_333_334);
}

#[test]
fn oracle_updates_one_field_at_a_time() {
    let mut oracle = BlockOracle::new(empty_info(), empty_info());
    oracle.update_block_number(7);
    assert_eq!((oracle.latest_block.number, oracle.next_block.number), (7, 8));
    assert!(oracle.next_block.timestamp.is_zero());
    oracle.update_block_timestamp(U256::from_u64(1000));
    assert_eq!(oracle.latest_block.timestamp.as_u64(), 1000);
    assert_eq!(oracle.next_block.timestamp.as_u64(), 1012);
    assert!(oracle.next_block.base_fee.is_zero());
    oracle.update_base_fee(&header(7, 30_000_000));
    assert_eq!(oracle.latest_block.base_fee.as_u64(), 100_000_000_000);
    assert_eq!(oracle.next_block.base_fee.as_u64(), 112_500_000_000);
    assert_eq!((oracle.latest_block.number, oracle.next_block.number), (7, 8));
}

#[test]
fn recover_payload_is_the_recovery_label() {
    let (payload, value) = get_recover_weth_payload_value(U256::from_u64(500_000_000_000_000_000));
    assert_eq!(payload, vec![124]);
    assert_eq!(value.as_u64(), 5_000_000_000_000);
    let (_, value) = get_recover_weth_payload_value(U256::from_u64(99_999));
    assert!(value.is_zero());
}

#[test]
fn balance_above_the_mark_triggers_one_recovery_per_tick() {
    assert_eq!(WETH_BALANCE_HIGH_WATER, 4_500_000_000_000_000_000);
    assert_eq!(RECOVER_AMOUNT, 500_000_000_000_000_000);

    let mut oracle = BlockOracle::new(empty_info(), empty_info());
    let state = BotState::new(U256::from_u64(4_500_000_000_000_000_001));
    let mut recoveries = Vec::new();
    for number in [100u64, 101, 102] {
        if let Some(call) = block_oracle_tick(&mut oracle, &state, &header(number, 15_000_000)) {
            recoveries.push((number, call));
        }
    }
    assert_eq!(recoveries.len(), 3);
    for (_, call) in &recoveries {
        assert_eq!(call.payload, vec![124]);
        assert_eq!(call.value.as_u64(), 5_000_000_000_000);
    }
    assert_eq!(oracle.latest_block.number, 102);
}

#[test]
fn balance_at_or_below_the_mark_triggers_nothing() {
    assert!(recover_weth_if_needed(U256::from_u64(4_500_000_000_000_000_000)).is_none());
    assert!(recover_weth_if_needed(U256::zero()).is_none());
    assert!(recover_weth_if_needed(U256::max_value()).is_some());

    let mut oracle = BlockOracle::new(empty_info(), empty_info());
    let mut state = BotState::new(U256::from_u64(4_000_000_000_000_000_000));
    assert!(block_oracle_tick(&mut oracle, &state, &header(5, 15_000_000)).is_none());
    assert_eq!(oracle.latest_block.number, 5);
    state.update_weth_balance(U256::from_u64(5_000_000_000_000_000_000));
    assert!(block_oracle_tick(&mut oracle, &state, &header(6, 15_000_000)).is_some());
}

#[test]
fn new_pools_are_searched_every_interval() {
    let mut schedule = NewPoolsSchedule::new(1000, 3);
    assert_eq!(schedule.on_new_block(1001), None);
    assert_eq!(schedule.on_new_block(1002), None);
    assert_eq!(schedule.on_new_block(1003), Some(SyncRange { from_block: 1000, to_block: 1003 }));
    assert_eq!(schedule.counter, 0);
    assert_eq!(schedule.current_block_num, 1003);
    assert_eq!(schedule.on_new_block(1004), None);
    assert_eq!(schedule.on_new_block(1005), None);
    assert_eq!(schedule.on_new_block(1007), Some(SyncRange { from_block: 1003, to_block: 1007 }));

    let mut every = NewPoolsSchedule::new(5, 1);
    assert_eq!(every.on_new_block(6), Some(SyncRange { from_block: 5, to_block: 6 }));
    assert_eq!(every.on_new_block(7), Some(SyncRange { from_block: 6, to_block: 7 }));

    let mut never = NewPoolsSchedule::new(5, 0);
    assert_eq!(never.on_new_block(6), None);
    assert_eq!(never.counter, 1);
}

#[test]
fn two_blocks_clear_once_and_build_once_each() {
    let mut cycle = MegaSandwichCycle::new(AGGREGATION_DELAY_MILLIS);
    let mut sender = BundleSender::new();
    let mut maker = SandwichMaker::new(U256::from_u64(40));
    let mut clears = 0;
    let mut builds = Vec::new();

    // what was found during the block before
    sender.add_pending(opportunity(1_000_000));

    for number in [500u64, 501] {
        match cycle.on_new_block(header(number, 15_000_000), &mut sender) {
            CycleAction::Wait { block_number, millis } => {
                assert_eq!(block_number, number);
                assert_eq!(millis, 10_500);
            }
            _ => panic!("a new block opens a window"),
        }
        assert!(sender.pending_sandwiches.is_empty());
        clears += 1;

        // found during the window
        sender.add_pending(opportunity(2_000_000 + number as u128));
        sender.add_pending(opportunity(3_000_000 + number as u128));

        match cycle.on_window_elapsed(number) {
            CycleAction::Build { next_block } => {
                assert_eq!(next_block.number, number + 1);
                let mega = sender.make_mega_sandwich(next_block, &mut maker);
                builds.push(mega);
            }
            _ => panic!("the window of the block in flight closes with a build"),
        }
        // the same window does not close twice
        assert!(matches!(cycle.on_window_elapsed(number), CycleAction::Skip));
        assert!(sender.pending_sandwiches.is_empty());
    }

    assert_eq!(clears, 2);
    assert_eq!(builds.len(), 2);
    assert_eq!(builds[0].target_block.number, 501);
    assert_eq!(builds[1].target_block.number, 502);
    assert_eq!(builds[0].legs.len(), 4);
    assert_eq!(builds[1].legs.len(), 4);
    assert_eq!(builds[0].nonce.as_u64(), 41);
    assert_eq!(builds[1].nonce.as_u64(), 42);
    assert_eq!(maker.nonce.as_u64(), 42);
}

#[test]
fn window_of_a_block_that_passed_is_given_up() {
    let mut cycle = MegaSandwichCycle::new(10_500);
    let mut sender = BundleSender::new();
    assert!(matches!(cycle.on_window_elapsed(1), CycleAction::Skip));
    cycle.on_new_block(header(1, 15_000_000), &mut sender);
    sender.add_pending(opportunity(5));
    cycle.on_new_block(header(2, 15_000_000), &mut sender);
    assert!(sender.pending_sandwiches.is_empty());
    assert!(matches!(cycle.on_window_elapsed(1), CycleAction::Skip));
    match cycle.on_window_elapsed(2) {
        CycleAction::Build { next_block } => {
            assert_eq!(next_block.number, 3);
            assert_eq!(next_block.timestamp.as_u64(), 1_700_000_000 + 24 + 12);
            assert_eq!(next_block.base_fee.as_u64(), 100_000_000_000);
        }
        _ => panic!("the latest window closes with a build"),
    }
}

#[test]
fn mega_sandwich_holds_front_and_back_of_each_opportunity_in_order() {
    let mut sender = BundleSender::new();
    let mut maker = SandwichMaker::new(U256::zero());
    let first = opportunity(1_000_000_000);
    let second = opportunity(7_000_000_000);
    sender.add_pending(first);
    sender.add_pending(second);
    let target = BlockInfo::new(9, U256::from_u64(99), U256::from_u64(1));
    let mega = sender.make_mega_sandwich(target, &mut maker);
    assert_eq!(mega.legs.len(), 4);
    assert_eq!(mega.nonce.as_u64(), 1);
    assert_eq!(mega.target_block.number, 9);

    let reference = SandwichMaker::new(U256::zero());
    let expected = [first.frontrun, first.backrun, second.frontrun, second.backrun];
    for (leg, request) in mega.legs.iter().zip(expected.iter()) {
        let alone = reference.build_leg(request);
        assert_eq!(leg.payload, alone.payload);
        assert!(leg.value.is_equal(&alone.value));
    }
    assert_eq!(mega.legs[0].payload[1], 48);
    assert_eq!(mega.legs[0].value.as_u64(), 10_000);
    assert_eq!(mega.legs[1].payload[1], 53);
    assert_eq!(mega.legs[1].value.as_u64(), 30_000);
    assert_eq!(mega.legs[2].value.as_u64(), 70_000);

    let nothing = sender.make_mega_sandwich(target, &mut maker);
    assert!(nothing.legs.is_empty());
    assert_eq!(nothing.nonce.as_u64(), 2);
}

#[test]
fn legs_of_v3_pools_go_through_the_v3_builder() {
    let maker = SandwichMaker::new(U256::zero());
    let pool = Pool::new(Address::new([0x33; 20]), get_weth_address(), token(), U256::from_u64(500), PoolVariant::UniswapV3);
    let swap = SwapV3 {
        amount_in: I256::from_u128(400_000),
        amount_out: I256::from_u128(9),
        input: get_weth_address(),
        output: token(),
        pool,
    };
    let front = maker.build_leg(&SwapRequest::V3WethIsInput(swap));
    assert_eq!(front.payload.len(), 59);
    assert_eq!(front.payload[0], 54);
    assert_eq!(front.value.as_u64(), 4);
    let (direct, _) = maker.v3.create_payload_weth_is_input(swap.amount_in, swap.amount_out, swap.input, swap.output, pool);
    assert_eq!(front.payload, direct);

    let back = maker.build_leg(&SwapRequest::V3WethIsOutput(swap));
    assert_eq!(back.payload.len(), 79);
    assert_eq!(back.payload[0], 69);
    assert!(back.value.is_zero());
}

#[test]
fn nonce_moves_on_by_one() {
    let mut maker = SandwichMaker::new(U256::from_u64(u64::MAX));
    maker.update_searcher_nonce();
    assert_eq!(maker.nonce.limbs, [0, 1, 0, 0]);
}

#[test]
fn bundle_is_stamped_for_the_target_block() {
    let txs = vec![vec![1u8, 2, 3], vec![], vec![0xff]];
    let bundle = construct_bundle(txs.clone(), 18_000_001, 1_700_000_012);
    assert_eq!(bundle.transactions, txs);
    assert_eq!(bundle.block, 18_000_001);
    assert_eq!(bundle.simulation_block, 18_000_000);
    assert_eq!(bundle.simulation_timestamp, 1_700_000_012);
    assert_eq!(bundle.min_timestamp, 1_700_000_012);
    assert_eq!(bundle.max_timestamp, 1_700_000_012);

    let first = construct_bundle(Vec::new(), 1, 0);
    assert_eq!(first.simulation_block, 0);
    assert!(first.transactions.is_empty());
}

#[test]
fn bundle_for_the_predicted_block() {
    let next = BlockInfo::find_next_block_info(&header(100, 20_000_000));
    let bundle = bundle_for_block(vec![vec![0xaa], vec![0xbb, 0xcc]], &next).unwrap();
    assert_eq!(bundle.transactions, vec![vec![0xaa], vec![0xbb, 0xcc]]);
    assert_eq!(bundle.block, 101);
    assert_eq!(bundle.simulation_block, 100);
    assert_eq!(bundle.simulation_timestamp, 1_700_001_212);
    assert_eq!(bundle.min_timestamp, 1_700_001_212);
    assert_eq!(bundle.max_timestamp, 1_700_001_212);

    let genesis = BlockInfo::new(0, U256::from_u64(5), U256::zero());
    assert!(bundle_for_block(Vec::new(), &genesis).is_none());
    let far = BlockInfo::new(5, U256 { limbs: [0, 1, 0, 0] }, U256::zero());
    assert!(bundle_for_block(Vec::new(), &far).is_none());
    let edge = BlockInfo::new(1, U256::from_u64(u64::MAX), U256::zero());
    assert_eq!(bundle_for_block(Vec::new(), &edge).unwrap().max_timestamp, u64::MAX);
}

#[test]
fn one_failing_relay_of_five_leaves_four_deliveries() {
    let answers = [true, true, false, true, true];
    let mut fan_out = FanOut::new(answers.len());
    let mut tried = Vec::new();
    while let Some(relay) = fan_out.next_relay() {
        tried.push(relay);
        fan_out.record(answers[relay]);
    }
    assert_eq!(tried, vec![0, 1, 2, 3, 4]);
    assert_eq!(fan_out.delivered(), 4);
    assert_eq!(fan_out.failed(), 1);
    assert_eq!(fan_out.next_relay(), None);
}

#[test]
fn fan_out_counts_what_was_tried_so_far() {
    let mut fan_out = FanOut::new(3);
    assert_eq!(fan_out.next_relay(), Some(0));
    assert_eq!((fan_out.delivered(), fan_out.failed()), (0, 0));
    fan_out.record(false);
    assert_eq!(fan_out.next_relay(), Some(1));
    assert_eq!((fan_out.delivered(), fan_out.failed()), (0, 1));
    fan_out.record(true);
    assert_eq!((fan_out.delivered(), fan_out.failed()), (1, 1));
    assert_eq!(FanOut::new(0).next_relay(), None);
}
