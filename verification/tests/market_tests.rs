use serum_dex::critbit::{LeafNode, Slab};
use solana_program::program_option::COption;
use solana_program::program_pack::Pack;
use solana_program::pubkey::Pubkey as SolKey;
use spl_token::state::{Account, AccountState};
use std::convert::TryFrom;
use trade_bot::book::{Order, Side};
use trade_bot::error::TradeBotErrors;
use trade_bot::instruction::{CleanUp, Settle, Trade};
use trade_bot::market::{CleanUpAccounts, SettleAccounts, TradeAccounts, TradeSizes};
use trade_bot::processor::{AccountRef, CpiAction, Invocation, Processor};
use trade_bot::state::{TraderState, TraderStatus};

const PROGRAM: [u8; 32] = [9; 32];
const OWNER: [u8; 32] = [1; 32];
const MARKET: [u8; 32] = [2; 32];
const MINE: [u64; 4] = [7, 7, 7, 7];
const OTHER: [u64; 4] = [8, 8, 8, 8];
const SERUM_MARKET: [u8; 32] = [30; 32];
const OPEN_ORDERS: [u8; 32] = [31; 32];
const BIDS: [u8; 32] = [32; 32];
const ASKS: [u8; 32] = [33; 32];
const EVENT_QUEUE: [u8; 32] = [34; 32];
const SERUM_PROGRAM: [u8; 32] = [35; 32];
const COIN_VAULT: [u8; 32] = [36; 32];
const PC_VAULT: [u8; 32] = [37; 32];
const VAULT_SIGNER: [u8; 32] = [38; 32];
const REQUEST_QUEUE: [u8; 32] = [39; 32];
const RENT: [u8; 32] = [40; 32];

fn w(key: [u8; 32]) -> AccountRef {
    AccountRef { key, is_signer: false, is_writable: true }
}

fn r(key: [u8; 32], is_signer: bool) -> AccountRef {
    AccountRef { key, is_signer, is_writable: false }
}

fn token_account(amount: u64) -> Vec<u8> {
    let account = Account {
        mint: SolKey::new_from_array([40; 32]),
        owner: SolKey::new_from_array([41; 32]),
        amount,
        delegate: COption::None,
        state: AccountState::Initialized,
        is_native: COption::None,
        delegated_amount: 0,
        close_authority: COption::None,
    };
    let mut data = vec![0u8; Account::LEN];
    Account::pack(account, &mut data).unwrap();
    data
}

fn signer() -> ([u8; 32], u8, Vec<u8>) {
    let seed: Vec<u8> = MARKET.iter().zip(OWNER.iter()).map(|(a, b)| a + b).collect();
    let (key, bump) = SolKey::find_program_address(&[&seed], &SolKey::new_from_array(PROGRAM));
    (key.to_bytes(), bump, seed)
}

fn trader() -> TraderState {
    TraderState {
        market_address: MARKET,
        base_trader_wallet: [11; 32],
        quote_trader_wallet: [12; 32],
        serum_open_orders: [13; 32],
        trader_signer: signer().0,
        owner: OWNER,
        min_trade_profit: 1_000,
        stopping_price: 10,
        starting_price_buy: 0,
        starting_price_sell: 0,
        simultaneous_open_positions: 4,
        starting_base_balance: 0,
        starting_quote_balance: 0,
        deposited_base_balance: 0,
        deposited_quote_balance: 0,
        withdrawn_base_balance: 0,
        withdrawn_quote_balance: 0,
        starting_value: 0,
        base_balance: 10_000,
        quote_balance: 2_000_000,
        value: 0,
        open_order_pairs: 0,
        total_txs: 0,
        register_date: 0,
        status: TraderStatus::Registered,
        _padding: [0; 17],
    }
}

/// Builds a slab holding leaves `(price, sequence, owner, quantity, client id)`.
fn slab_bytes(leaves: &[(u64, u64, [u64; 4], u64, u64)]) -> Vec<u8> {
    let mut bytes = vec![0u8; 32 + 72 * 16];
    {
        let slab = Slab::new(&mut bytes);
        for (price, seq, owner, qty, client) in leaves {
            let key = ((*price as u128) << 64) | (*seq as u128);
            let leaf = LeafNode::new(0, key, *owner, *qty, TryFrom::try_from(0u8).unwrap(), *client);
            slab.insert_leaf(&leaf).unwrap();
        }
    }
    bytes
}

fn with_slab<R>(bytes: &mut Vec<u8>, f: impl FnOnce(&Slab) -> R) -> R {
    let slab = Slab::new(bytes);
    f(slab)
}

#[test]
fn parse_order_book_reads_every_leaf() {
    let mut bytes = slab_bytes(&[(100, 1, MINE, 5, 11), (90, 2, OTHER, 6, 12), (120, 3, MINE, 7, 13)]);
    let orders = with_slab(&mut bytes, |s| Processor::parse_order_book(Side::Bid, s));
    assert_eq!(orders.len(), 3);
    let mut prices: Vec<u64> = orders.iter().map(|o| o.price).collect();
    prices.sort();
    assert_eq!(prices, vec![90, 100, 120]);
    let o = orders.iter().find(|o| o.price == 90).unwrap();
    assert_eq!(
        *o,
        Order {
            side: Side::Bid,
            price: 90,
            size: 6,
            client_id: 12,
            owner: OTHER,
            order_id: (90u128 << 64) | 2,
        }
    );
}

#[test]
fn parse_order_book_for_owner_keeps_owner() {
    let mut bytes = slab_bytes(&[(100, 1, MINE, 5, 11), (90, 2, OTHER, 6, 12), (120, 3, MINE, 7, 13)]);
    let orders =
        with_slab(&mut bytes, |s| Processor::parse_order_book_for_owner(Side::Ask, s, &MINE));
    assert_eq!(orders.len(), 2);
    assert!(orders.iter().all(|o| o.owner == MINE && o.side == Side::Ask));
    let empty = with_slab(&mut slab_bytes(&[]), |s| Processor::parse_order_book(Side::Ask, s));
    assert!(empty.is_empty());
}

fn cleanup_accounts(base: u64, quote: u64, pc: u64, coin: u64) -> CleanUpAccounts {
    CleanUpAccounts {
        trader_signer: signer().0,
        base_trader_wallet: [11; 32],
        quote_trader_wallet: [12; 32],
        base_owner_wallet: [21; 32],
        quote_owner_wallet: [22; 32],
        trader_owner: OWNER,
        token_program: spl_token::id().to_bytes(),
        trader_data: trader().to_bytes(),
        open_orders_owner: MINE,
        native_pc_total: pc,
        native_coin_total: coin,
        base_trader_wallet_data: token_account(base),
        quote_trader_wallet_data: token_account(quote),
        serum_market: SERUM_MARKET,
        serum_open_orders: OPEN_ORDERS,
        bids_account: BIDS,
        asks_account: ASKS,
        event_queue: EVENT_QUEUE,
        serum_program: SERUM_PROGRAM,
    }
}

fn run_cleanup(a: &CleanUpAccounts, bids: &[(u64, u64, [u64; 4], u64, u64)], asks: &[(u64, u64, [u64; 4], u64, u64)]) -> Option<Result<trade_bot::processor::Plan, TradeBotErrors>> {
    let mut b = slab_bytes(bids);
    let mut s = slab_bytes(asks);
    let bids_slab = Slab::new(&mut b);
    let bids_ref: &Slab = bids_slab;
    let asks_slab = Slab::new(&mut s);
    let asks_ref: &Slab = asks_slab;
    Processor::try_process_cleanup_decommissioned_trader(&PROGRAM, a, bids_ref, asks_ref, &CleanUp { _padding: [0; 20] })
}

#[test]
fn cleanup_cancels_own_orders_up_to_seven() {
    let mut bids = vec![];
    for i in 0..6u64 {
        bids.push((100 + i, i, MINE, 1, 0));
    }
    bids.push((50, 99, OTHER, 1, 0));
    let asks: Vec<_> = (0..3u64).map(|i| (200 + i, 10 + i, MINE, 1, 0)).collect();
    let plan = run_cleanup(&cleanup_accounts(5, 5, 0, 0), &bids, &asks).unwrap().unwrap();
    assert_eq!(plan.invocations.len(), 7);
    for inv in &plan.invocations {
        match inv.action {
            CpiAction::CancelOrder { program, order_id, accounts, .. } => {
                assert_eq!(program, SERUM_PROGRAM);
                assert_eq!(
                    accounts,
                    [
                        w(SERUM_MARKET),
                        w(BIDS),
                        w(ASKS),
                        w(OPEN_ORDERS),
                        AccountRef { key: signer().0, is_signer: true, is_writable: true },
                        w(EVENT_QUEUE),
                    ]
                );
                assert_ne!(order_id, (50u128 << 64) | 99);
            }
            other => panic!("unexpected {:?}", other),
        }
        assert!(inv.signed);
    }
    assert_eq!(plan.trader.status, TraderStatus::Registered);
}

#[test]
fn cleanup_closes_empty_wallets_and_stops() {
    let plan = run_cleanup(&cleanup_accounts(3, 0, 0, 0), &[(50, 1, OTHER, 1, 0)], &[]).unwrap().unwrap();
    assert_eq!(plan.trader.status, TraderStatus::Stopped);
    assert_eq!(
        plan.invocations,
        vec![
            Invocation {
                action: CpiAction::CloseAccount {
                    token_program: spl_token::id().to_bytes(),
                    account: [11; 32],
                    destination: OWNER,
                    owner: signer().0,
                },
                signed: true,
            },
            Invocation {
                action: CpiAction::CloseAccount {
                    token_program: spl_token::id().to_bytes(),
                    account: [12; 32],
                    destination: OWNER,
                    owner: signer().0,
                },
                signed: true,
            },
        ]
    );
}

#[test]
fn cleanup_returns_tokens_to_owner() {
    let plan = run_cleanup(&cleanup_accounts(3, 4, 0, 0), &[], &[]).unwrap().unwrap();
    assert_eq!(plan.trader.status, TraderStatus::Registered);
    assert_eq!(plan.invocations.len(), 2);
    assert_eq!(
        plan.invocations[0].action,
        CpiAction::Transfer {
            token_program: spl_token::id().to_bytes(),
            source: [12; 32],
            destination: [22; 32],
            authority: signer().0,
            amount: 4,
        }
    );
    assert_eq!(
        plan.invocations[1].action,
        CpiAction::Transfer {
            token_program: spl_token::id().to_bytes(),
            source: [11; 32],
            destination: [21; 32],
            authority: signer().0,
            amount: 3,
        }
    );
}

#[test]
fn cleanup_waits_for_open_orders_funds() {
    let plan = run_cleanup(&cleanup_accounts(3, 4, 1, 0), &[], &[]).unwrap().unwrap();
    assert!(plan.invocations.is_empty());
    assert_eq!(plan.trader, trader());
}

fn settle_accounts(base: u64, quote: u64) -> SettleAccounts {
    SettleAccounts {
        trader_signer: signer().0,
        trader_data: trader().to_bytes(),
        open_orders_owner: MINE,
        native_pc_total: 50,
        native_coin_total: 5,
        coin_lot_size: 10,
        pc_lot_size: 2,
        base_trader_wallet_data: token_account(base),
        quote_trader_wallet_data: token_account(quote),
        serum_market: SERUM_MARKET,
        serum_open_orders: OPEN_ORDERS,
        coin_vault: COIN_VAULT,
        pc_vault: PC_VAULT,
        base_trader_wallet: [11; 32],
        quote_trader_wallet: [12; 32],
        vault_signer: VAULT_SIGNER,
        token_program: spl_token::id().to_bytes(),
        serum_program: SERUM_PROGRAM,
    }
}

fn run_settle(a: &SettleAccounts, bids: &[(u64, u64, [u64; 4], u64, u64)], asks: &[(u64, u64, [u64; 4], u64, u64)]) -> Option<Result<trade_bot::processor::Plan, TradeBotErrors>> {
    let mut b = slab_bytes(bids);
    let mut s = slab_bytes(asks);
    let bids_ref: &Slab = Slab::new(&mut b);
    let asks_ref: &Slab = Slab::new(&mut s);
    Processor::try_process_settle(&PROGRAM, a, bids_ref, asks_ref, &Settle { _padding: [0; 10] })
}

#[test]
fn settle_refreshes_balances_and_value() {
    let bids = [(100, 1, MINE, 1, 0), (110, 2, OTHER, 1, 0), (90, 3, MINE, 1, 0)];
    let asks = [(130, 4, MINE, 1, 0), (150, 5, OTHER, 1, 0)];
    let plan = run_settle(&settle_accounts(95, 1_000), &bids, &asks).unwrap().unwrap();
    // market price (110 + 130) / 2 = 120; value = (95 + 5) * 2 / 10 * 120 + (50 + 1000)
    assert_eq!(plan.trader.value, 20 * 120 + 1_050);
    assert_eq!(plan.trader.base_balance, 95);
    assert_eq!(plan.trader.quote_balance, 1_000);
    assert_eq!(plan.trader.open_order_pairs, 2);
    let accounts = [
        w(SERUM_MARKET),
        w(OPEN_ORDERS),
        r(signer().0, true),
        w(COIN_VAULT),
        w(PC_VAULT),
        w([11; 32]),
        w([12; 32]),
        r(VAULT_SIGNER, false),
        r(spl_token::id().to_bytes(), false),
    ];
    assert_eq!(
        plan.invocations,
        vec![Invocation { action: CpiAction::SettleFunds { program: SERUM_PROGRAM, accounts }, signed: true }]
    );
}

#[test]
fn settle_checks_signer_and_needs_both_sides() {
    let mut a = settle_accounts(95, 1_000);
    a.trader_signer = [0; 32];
    assert_eq!(
        run_settle(&a, &[(100, 1, MINE, 1, 0)], &[(130, 4, MINE, 1, 0)]).unwrap().unwrap_err(),
        TradeBotErrors::Unauthorized
    );
    assert!(run_settle(&settle_accounts(95, 1_000), &[(100, 1, MINE, 1, 0)], &[]).is_none());
}

fn trade_accounts(base: u64, quote: u64) -> TradeAccounts {
    TradeAccounts {
        trader_signer: signer().0,
        trader_data: trader().to_bytes(),
        open_orders_owner: MINE,
        coin_lot_size: 10,
        pc_lot_size: 1,
        base_market_wallet_data: token_account(base),
        quote_market_wallet_data: token_account(quote),
        base_market_wallet: [11; 32],
        quote_market_wallet: [12; 32],
        serum_market: SERUM_MARKET,
        request_queue: REQUEST_QUEUE,
        event_queue: EVENT_QUEUE,
        bids_account: BIDS,
        asks_account: ASKS,
        coin_vault: COIN_VAULT,
        pc_vault: PC_VAULT,
        serum_open_orders: OPEN_ORDERS,
        token_program: spl_token::id().to_bytes(),
        serum_program: SERUM_PROGRAM,
        rent_sysvar: RENT,
    }
}

fn order_accounts(payer: [u8; 32]) -> [AccountRef; 12] {
    [
        w(SERUM_MARKET),
        w(OPEN_ORDERS),
        w(REQUEST_QUEUE),
        w(EVENT_QUEUE),
        w(BIDS),
        w(ASKS),
        w(payer),
        r(signer().0, true),
        w(COIN_VAULT),
        w(PC_VAULT),
        r(spl_token::id().to_bytes(), false),
        r(RENT, false),
    ]
}

fn run_trade(a: &TradeAccounts, bids: &[(u64, u64, [u64; 4], u64, u64)], asks: &[(u64, u64, [u64; 4], u64, u64)], fees: (u64, u64)) -> (Option<TradeSizes>, Option<Result<trade_bot::processor::Plan, TradeBotErrors>>) {
    let mut b = slab_bytes(bids);
    let mut s = slab_bytes(asks);
    let bids_ref: &Slab = Slab::new(&mut b);
    let asks_ref: &Slab = Slab::new(&mut s);
    let sizes = Processor::trade_sizes(&a.trader_data, bids_ref, asks_ref);
    let r = Processor::try_process_trade(&PROGRAM, a, bids_ref, asks_ref, fees.0, fees.1, &Trade { _padding: [0; 128] });
    (sizes, r)
}

#[test]
fn trade_places_a_bid_below_an_ask() {
    let bids = [(90, 1, OTHER, 1, 0), (100, 2, OTHER, 1, 0)];
    let asks = [(120, 3, OTHER, 1, 0), (140, 4, OTHER, 1, 0)];
    let (sizes, r) = run_trade(&trade_accounts(1_000_000, 1_000_000), &bids, &asks, (0, 0));
    // market price 110; base size 10_000 / 4 = 2_500; quote size 275_000;
    // profit 1_000 / 110 = 9 base
    assert_eq!(
        sizes,
        Some(TradeSizes { market_price: 110, profit_as_base: 9, base_size: 2_500, quote_size: 275_000 })
    );
    let plan = r.unwrap().unwrap();
    // buy = 275_000 / (2_500 + 4) = 109; sell = (275_000 + 500) / 2_500 = 110
    // base lots = 250; quote lots = 250 * 1 * 109
    assert_eq!(
        plan.invocations,
        vec![
            Invocation {
                action: CpiAction::NewOrder {
                    program: SERUM_PROGRAM,
                    side: Side::Bid,
                    limit_price: 109,
                    max_coin_qty: 27_250,
                    max_native_pc_qty: 27_250,
                    client_order_id: 110,
                    accounts: order_accounts([12; 32]),
                },
                signed: true,
            },
            Invocation {
                action: CpiAction::NewOrder {
                    program: SERUM_PROGRAM,
                    side: Side::Ask,
                    limit_price: 110,
                    max_coin_qty: 250,
                    max_native_pc_qty: 1,
                    client_order_id: 109,
                    accounts: order_accounts([11; 32]),
                },
                signed: true,
            },
        ]
    );
    assert_eq!(plan.trader.base_balance, 7_500);
    assert_eq!(plan.trader.quote_balance, 2_000_000 - 27_250);
    assert_eq!(plan.trader.open_order_pairs, 1);
    assert_eq!(plan.trader.total_txs, 2);
    assert_eq!(plan.trader.status, TraderStatus::Initialized);
}

#[test]
fn trade_fees_widen_the_spread() {
    let bids = [(100, 2, OTHER, 1, 0)];
    let asks = [(120, 3, OTHER, 1, 0)];
    let (_, r) = run_trade(&trade_accounts(1_000_000, 1_000_000), &bids, &asks, (6, 605));
    let plan = r.unwrap().unwrap();
    // buy = 275_000 / (2_500 + 4 + 6) = 109; sell = (605 + 275_000 + 500) / 2_500 = 110
    match (plan.invocations[0].action, plan.invocations[1].action) {
        (CpiAction::NewOrder { limit_price: b, .. }, CpiAction::NewOrder { limit_price: s, .. }) => {
            assert_eq!((b, s), (109, 110));
        }
        _ => panic!("orders expected"),
    }
}

#[test]
fn trade_errors() {
    let bids = [(100, 2, OTHER, 1, 0)];
    let asks = [(120, 3, OTHER, 1, 0)];
    let (_, r) = run_trade(&trade_accounts(1_000_000, 1_000_000), &bids, &[], (0, 0));
    assert_eq!(r.unwrap().unwrap_err(), TradeBotErrors::NoTradesFoundOnMarket);
    let (_, r) = run_trade(&trade_accounts(2_500, 1_000_000), &bids, &asks, (0, 0));
    assert_eq!(r.unwrap().unwrap_err(), TradeBotErrors::InsufficientTokens);
    let mut a = trade_accounts(1_000_000, 1_000_000);
    a.trader_signer = [3; 32];
    let (_, r) = run_trade(&a, &bids, &asks, (0, 0));
    assert_eq!(r.unwrap().unwrap_err(), TradeBotErrors::Unauthorized);
    let (_, r) = run_trade(&trade_accounts(1_000_000, 1_000_000), &[(10, 2, OTHER, 1, 0)], &asks, (0, 0));
    assert_eq!(r.unwrap().unwrap_err(), TradeBotErrors::StopLossLimit);
    let mine = [(100, 2, OTHER, 1, 0), (95, 5, MINE, 1, 109)];
    let (_, r) = run_trade(&trade_accounts(1_000_000, 1_000_000), &mine, &asks, (0, 0));
    assert_eq!(r.unwrap().unwrap_err(), TradeBotErrors::PriceAlreadyTraded);
    let mut t = trader();
    t.open_order_pairs = 2;
    t.simultaneous_open_positions = 5;
    let mut a = trade_accounts(1_000_000, 1_000_000);
    a.trader_data = t.to_bytes();
    let (_, r) = run_trade(&a, &bids, &asks, (0, 0));
    assert_eq!(r.unwrap().unwrap_err(), TradeBotErrors::ExceededOpenOrdersLimit);
}

#[test]
fn trade_aborts_on_zero_lot_size_and_full_slots() {
    let bids = [(100, 2, OTHER, 1, 0)];
    let asks = [(120, 3, OTHER, 1, 0)];
    let mut t = trader();
    t.open_order_pairs = 2;
    let mut a = trade_accounts(1_000_000, 1_000_000);
    a.trader_data = t.to_bytes();
    let (sizes, r) = run_trade(&a, &bids, &asks, (0, 0));
    assert!(sizes.is_none());
    assert!(r.is_none());
    let mut a = trade_accounts(1_000_000, 1_000_000);
    a.coin_lot_size = 0;
    let (_, r) = run_trade(&a, &bids, &asks, (0, 0));
    assert!(r.is_none());
}

#[test]
fn trades_stay_within_position_limit() {
    let bids = [(100, 2, OTHER, 1, 0)];
    let asks = [(120, 3, OTHER, 1, 0)];
    let mut a = trade_accounts(1_000_000, 1_000_000);
    let mut pairs = Vec::new();
    for _ in 0..2 {
        let (_, r) = run_trade(&a, &bids, &asks, (0, 0));
        let plan = r.unwrap().unwrap();
        assert!(plan.trader.open_order_pairs <= plan.trader.simultaneous_open_positions / 2);
        pairs.push(plan.trader.open_order_pairs);
        a.trader_data = plan.trader.to_bytes();
    }
    assert_eq!(pairs, vec![1, 2]);
    // With every slot taken the base size divides by zero: the trade aborts.
    let (sizes, r) = run_trade(&a, &bids, &asks, (0, 0));
    assert!(sizes.is_none());
    assert!(r.is_none());
}
