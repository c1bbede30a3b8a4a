use vstd::prelude::*;
use serum_dex::critbit::Slab;
use crate::book::{
    highest_price, lowest_price, max_price, min_price, orders_owned_by, owned_by, read_book,
    read_orders, slab_slots, any_price_taken, price_taken, Order, Side, SlabLeaf,
};
use crate::chain::{check_token_program, token_account_amount, token_account_amount_of, token_program_accepted};
use crate::error::{TradeBotErrors, TradeBotResult};
use crate::instruction::{CleanUp, Settle, Trade};
use crate::processor::{
    outcome_of, plan_result, readonly, seed_of, signer_of, writable, AccountRef, CpiAction, Invocation,
    Outcome, Plan, PlanView, Processor,
};
use crate::state::{decoded_state, TraderState, TraderStatus};
use crate::wire::{keys_equal, Pubkey};

verus! {

/// At most this many orders are cancelled by one clean-up.
pub const MAX_CANCELS: usize = 7;

/// What `CleanUp` reads from its accounts, besides the two order books.
pub struct CleanUpAccounts {
    pub trader_signer: Pubkey,
    pub base_trader_wallet: Pubkey,
    pub quote_trader_wallet: Pubkey,
    pub base_owner_wallet: Pubkey,
    pub quote_owner_wallet: Pubkey,
    pub trader_owner: Pubkey,
    pub token_program: Pubkey,
    pub trader_data: Vec<u8>,
    /// The open-orders address as serum stores owners: four native-endian words.
    pub open_orders_owner: [u64; 4],
    /// Quote funds held by the open-orders account.
    pub native_pc_total: u64,
    /// Base funds held by the open-orders account.
    pub native_coin_total: u64,
    pub base_trader_wallet_data: Vec<u8>,
    pub quote_trader_wallet_data: Vec<u8>,
    pub serum_market: Pubkey,
    pub serum_open_orders: Pubkey,
    pub bids_account: Pubkey,
    pub asks_account: Pubkey,
    pub event_queue: Pubkey,
    pub serum_program: Pubkey,
}

/// What `Settle` reads from its accounts, besides the two order books.
pub struct SettleAccounts {
    pub trader_signer: Pubkey,
    pub trader_data: Vec<u8>,
    pub open_orders_owner: [u64; 4],
    pub native_pc_total: u64,
    pub native_coin_total: u64,
    pub coin_lot_size: u64,
    pub pc_lot_size: u64,
    pub base_trader_wallet_data: Vec<u8>,
    pub quote_trader_wallet_data: Vec<u8>,
    pub serum_market: Pubkey,
    pub serum_open_orders: Pubkey,
    pub coin_vault: Pubkey,
    pub pc_vault: Pubkey,
    pub base_trader_wallet: Pubkey,
    pub quote_trader_wallet: Pubkey,
    pub vault_signer: Pubkey,
    pub token_program: Pubkey,
    pub serum_program: Pubkey,
}

/// What `Trade` reads from its accounts, besides the two order books.
pub struct TradeAccounts {
    pub trader_signer: Pubkey,
    pub trader_data: Vec<u8>,
    pub open_orders_owner: [u64; 4],
    pub coin_lot_size: u64,
    pub pc_lot_size: u64,
    pub base_market_wallet_data: Vec<u8>,
    pub quote_market_wallet_data: Vec<u8>,
    pub base_market_wallet: Pubkey,
    pub quote_market_wallet: Pubkey,
    pub serum_market: Pubkey,
    pub request_queue: Pubkey,
    pub event_queue: Pubkey,
    pub bids_account: Pubkey,
    pub asks_account: Pubkey,
    pub coin_vault: Pubkey,
    pub pc_vault: Pubkey,
    pub serum_open_orders: Pubkey,
    pub token_program: Pubkey,
    pub serum_program: Pubkey,
    pub rent_sysvar: Pubkey,
}

/// The accounts of a cancellation: market, bids, asks and open orders
/// (writable), the signer (writable and signing), and the event queue (writable).
pub open spec fn cancel_accounts(a: CleanUpAccounts, signer: Pubkey) -> [AccountRef; 6] {
    [
        writable(a.serum_market),
        writable(a.bids_account),
        writable(a.asks_account),
        writable(a.serum_open_orders),
        AccountRef { key: signer, is_signer: true, is_writable: true },
        writable(a.event_queue),
    ]
}

/// The accounts of a settlement: market and open orders (writable), the
/// trader signer (read-only, signing), the two vaults and the trader's two
/// wallets (writable), the vault signer and the token program (read-only).
pub open spec fn settle_accounts(a: SettleAccounts) -> [AccountRef; 9] {
    [
        writable(a.serum_market),
        writable(a.serum_open_orders),
        readonly(a.trader_signer, true),
        writable(a.coin_vault),
        writable(a.pc_vault),
        writable(a.base_trader_wallet),
        writable(a.quote_trader_wallet),
        readonly(a.vault_signer, false),
        readonly(a.token_program, false),
    ]
}

/// The accounts of a new order paid from `payer`: market, open orders,
/// request queue, event queue, bids, asks and the payer (writable), the
/// trader signer (read-only, signing), the two vaults (writable), the token
/// program and the rent sysvar (read-only).
pub open spec fn order_accounts(a: TradeAccounts, payer: Pubkey) -> [AccountRef; 12] {
    [
        writable(a.serum_market),
        writable(a.serum_open_orders),
        writable(a.request_queue),
        writable(a.event_queue),
        writable(a.bids_account),
        writable(a.asks_account),
        writable(payer),
        readonly(a.trader_signer, true),
        writable(a.coin_vault),
        writable(a.pc_vault),
        readonly(a.token_program, false),
        readonly(a.rent_sysvar, false),
    ]
}

/// The sizes a trade works with.
#[derive(Debug, Clone, Copy, PartialEq, Eq)]
pub struct TradeSizes {
    /// The midpoint of the best bid and the best ask.
    pub market_price: u64,
    /// The profit target in base units.
    pub profit_as_base: u64,
    /// The base balance spread over the free position slots.
    pub base_size: u64,
    /// The base size in quote units.
    pub quote_size: u64,
}

/// The calls of a clean-up: with orders still open, cancel up to seven of
/// them; with none and nothing held by the open-orders account, either close
/// both wallets (when the quote wallet is empty) or send both wallets' tokens
/// to the owner's wallets.
pub open spec fn cleanup_invocations(a: CleanUpAccounts, t: TraderState, mine: Seq<Order>, base: u64, quote: u64) -> Seq<Invocation> {
    if mine.len() == 0 {
        if a.native_pc_total == 0 && a.native_coin_total == 0 {
            if quote == 0 {
                seq![
                    Invocation {
                        action: CpiAction::CloseAccount {
                            token_program: a.token_program,
                            account: a.base_trader_wallet,
                            destination: a.trader_owner,
                            owner: a.trader_signer,
                        },
                        signed: true,
                    },
                    Invocation {
                        action: CpiAction::CloseAccount {
                            token_program: a.token_program,
                            account: a.quote_trader_wallet,
                            destination: a.trader_owner,
                            owner: a.trader_signer,
                        },
                        signed: true,
                    },
                ]
            } else {
                seq![
                    Invocation {
                        action: CpiAction::Transfer {
                            token_program: a.token_program,
                            source: a.quote_trader_wallet,
                            destination: a.quote_owner_wallet,
                            authority: a.trader_signer,
                            amount: quote,
                        },
                        signed: true,
                    },
                    Invocation {
                        action: CpiAction::Transfer {
                            token_program: a.token_program,
                            source: a.base_trader_wallet,
                            destination: a.base_owner_wallet,
                            authority: a.trader_signer,
                            amount: base,
                        },
                        signed: true,
                    },
                ]
            }
        } else {
            Seq::empty()
        }
    } else {
        let n = if mine.len() < MAX_CANCELS { mine.len() } else { MAX_CANCELS as nat };
        Seq::new(
            n,
            |i: int|
                Invocation {
                    action: CpiAction::CancelOrder {
                        program: a.serum_program,
                        side: mine[i].side,
                        order_id: mine[i].order_id,
                        accounts: cancel_accounts(a, t.trader_signer),
                    },
                    signed: true,
                },
        )
    }
}

/// `CleanUp` never reports an error: it plans the clean-up calls, and the
/// trader becomes stopped exactly when both wallets get closed. Unreadable
/// data, books or wallets, an overflowing seed byte, a missing bump and, where
/// wallets are closed or emptied, a token program that spl-token refuses abort.
pub open spec fn cleanup_outcome(program_id: Pubkey, a: CleanUpAccounts, bids: Seq<Option<SlabLeaf>>, asks: Seq<Option<SlabLeaf>>) -> Outcome {
    match decoded_state(a.trader_data@) {
        None => None,
        Some(t) => match (read_book(Side::Bid, bids, None), read_book(Side::Ask, asks, None)) {
            (Some(all_bids), Some(all_asks)) => {
                let mine = owned_by(all_bids, a.open_orders_owner) + owned_by(
                    all_asks,
                    a.open_orders_owner,
                );
                match signer_of(t.market_address, t.owner, program_id) {
                    None => None,
                    Some((_pda, nonce)) => match (
                        token_account_amount_of(a.base_trader_wallet_data@),
                        token_account_amount_of(a.quote_trader_wallet_data@),
                    ) {
                        (Some(base), Some(quote)) => {
                            let stops = mine.len() == 0 && a.native_pc_total == 0
                                && a.native_coin_total == 0 && quote == 0;
                            if mine.len() == 0 && a.native_pc_total == 0 && a.native_coin_total == 0
                                && !token_program_accepted(a.token_program@) {
                                None
                            } else {
                                Some(
                                    Ok(
                                        PlanView {
                                            seed: seed_of(t.market_address, t.owner),
                                            nonce,
                                            invocations: cleanup_invocations(a, t, mine, base, quote),
                                            trader: if stops {
                                                TraderState { status: TraderStatus::Stopped, ..t }
                                            } else {
                                                t
                                            },
                                        },
                                    ),
                                )
                            }
                        },
                        _ => None,
                    },
                }
            },
            _ => None,
        },
    }
}

/// The value of a trader after settling, or `None` where a step overflows or
/// the coin lot size is zero:
/// `(base + coin_total) * pc_lot / coin_lot * market_price + (pc_total + quote)`.
pub open spec fn settled_value(a: SettleAccounts, base: u64, quote: u64, market_price: u64) -> Option<u64> {
    let held_base = base + a.native_coin_total;
    let in_pc_lots = held_base * a.pc_lot_size;
    if held_base > u64::MAX || in_pc_lots > u64::MAX || a.coin_lot_size == 0 {
        None
    } else {
        let base_value = (in_pc_lots / (a.coin_lot_size as int)) * market_price;
        let quote_value = a.native_pc_total + quote;
        if base_value > u64::MAX || quote_value > u64::MAX || base_value + quote_value > u64::MAX {
            None
        } else {
            Some((base_value + quote_value) as u64)
        }
    }
}

/// `Settle`: the trader signer must be the derived address (else
/// `Unauthorized`). The balances become the wallets' amounts, the value is
/// recomputed at the midpoint of the best bid and best ask, the open pairs
/// become the larger count of the trader's resting bids and asks, and funds
/// are settled. An empty side, overflow, unreadable data and a missing bump abort.
pub open spec fn settle_outcome(program_id: Pubkey, a: SettleAccounts, bids: Seq<Option<SlabLeaf>>, asks: Seq<Option<SlabLeaf>>) -> Outcome {
    match decoded_state(a.trader_data@) {
        None => None,
        Some(t) => match signer_of(t.market_address, t.owner, program_id) {
            None => None,
            Some((pda, nonce)) => if pda != a.trader_signer@ {
                Some(Err(TradeBotErrors::Unauthorized))
            } else {
                match (
                    read_book(Side::Bid, bids, Some(a.open_orders_owner)),
                    read_book(Side::Ask, asks, Some(a.open_orders_owner)),
                    token_account_amount_of(a.base_trader_wallet_data@),
                    token_account_amount_of(a.quote_trader_wallet_data@),
                    read_book(Side::Bid, bids, None),
                    read_book(Side::Ask, asks, None),
                ) {
                    (
                        Some(own_bids),
                        Some(own_asks),
                        Some(base),
                        Some(quote),
                        Some(all_bids),
                        Some(all_asks),
                    ) => if all_bids.len() == 0 || all_asks.len() == 0 || max_price(all_bids)
                        + min_price(all_asks) > u64::MAX {
                        None
                    } else {
                        let market_price = ((max_price(all_bids) + min_price(all_asks))
                            / 2) as u64;
                        match settled_value(a, base, quote, market_price) {
                            None => None,
                            Some(value) => Some(
                                Ok(
                                    PlanView {
                                        seed: seed_of(t.market_address, t.owner),
                                        nonce,
                                        invocations: seq![
                                            Invocation {
                                                action: CpiAction::SettleFunds {
                                                    program: a.serum_program,
                                                    accounts: settle_accounts(a),
                                                },
                                                signed: true,
                                            },
                                        ],
                                        trader: TraderState {
                                            base_balance: base,
                                            quote_balance: quote,
                                            value,
                                            open_order_pairs: if own_bids.len() >= own_asks.len() {
                                                own_bids.len() as u64
                                            } else {
                                                own_asks.len() as u64
                                            },
                                            ..t
                                        },
                                    },
                                ),
                            ),
                        }
                    },
                    _ => None,
                }
            },
        },
    }
}

/// The sizes of a trade at the given best prices, or `None` where a step
/// panics (overflow, a subtraction below zero, a division by zero).
pub open spec fn trade_sizes_of(t: TraderState, best_bid: u64, best_ask: u64) -> Option<TradeSizes> {
    if best_bid + best_ask > u64::MAX {
        None
    } else {
        let market_price = ((best_bid + best_ask) / 2) as u64;
        let pairs = t.open_order_pairs * 2;
        if market_price == 0 || pairs > u64::MAX || t.simultaneous_open_positions < pairs
            || t.simultaneous_open_positions - pairs == 0 {
            None
        } else {
            let base_size = (t.base_balance / ((t.simultaneous_open_positions - pairs) as u64)) as u64;
            if base_size * market_price > u64::MAX {
                None
            } else {
                Some(
                    TradeSizes {
                        market_price,
                        profit_as_base: (t.min_trade_profit / market_price) as u64,
                        base_size,
                        quote_size: (base_size * market_price) as u64,
                    },
                )
            }
        }
    }
}

/// The buy and sell limit prices of a trade, or `None` where a step panics.
/// The fees stand for the floating-point fees the bot charges on the base and
/// quote sizes; when both prices meet, they are moved one apart each way.
pub open spec fn order_prices_of(t: TraderState, s: TradeSizes, fee_on_base: u64, fee_on_quote: u64) -> Option<(u64, u64)> {
    let divisor = s.base_size + s.profit_as_base / 2 + fee_on_base;
    let dividend = fee_on_quote + s.quote_size + t.min_trade_profit / 2;
    if s.base_size + s.profit_as_base / 2 > u64::MAX || divisor > u64::MAX || divisor == 0
        || fee_on_quote + s.quote_size > u64::MAX || dividend > u64::MAX || s.base_size == 0 {
        None
    } else {
        let buy = (s.quote_size / (divisor as u64)) as u64;
        let sell = ((dividend as u64) / s.base_size) as u64;
        if buy == sell {
            if sell == 0 || sell == u64::MAX {
                None
            } else {
                Some(((sell - 1) as u64, (sell + 1) as u64))
            }
        } else {
            Some((buy, sell))
        }
    }
}

/// The sizes in lots: the base size in coin lots, and that many coin lots
/// priced at `buy` in quote, or `None` where a step panics.
pub open spec fn lots_of(a: TradeAccounts, base_size: u64, buy: u64) -> Option<(u64, u64)> {
    if a.coin_lot_size == 0 {
        None
    } else {
        let base_lots = (base_size / a.coin_lot_size) as u64;
        if base_lots * a.pc_lot_size > u64::MAX || base_lots * a.pc_lot_size * buy > u64::MAX {
            None
        } else {
            Some((base_lots, (base_lots * a.pc_lot_size * buy) as u64))
        }
    }
}

/// The two orders of a trade: a bid at `buy` and an ask at `sell`, each
/// carrying the other's price as its client id; the bid is placed first.
pub open spec fn trade_invocations(a: TradeAccounts, buy: u64, sell: u64, base_lots: u64, quote_lots: u64) -> Seq<Invocation> {
    seq![
        Invocation {
            action: CpiAction::NewOrder {
                program: a.serum_program,
                side: Side::Bid,
                limit_price: buy,
                max_coin_qty: quote_lots,
                max_native_pc_qty: quote_lots,
                client_order_id: sell,
                accounts: order_accounts(a, a.quote_market_wallet),
            },
            signed: true,
        },
        Invocation {
            action: CpiAction::NewOrder {
                program: a.serum_program,
                side: Side::Ask,
                limit_price: sell,
                max_coin_qty: base_lots,
                max_native_pc_qty: 1,
                client_order_id: buy,
                accounts: order_accounts(a, a.base_market_wallet),
            },
            signed: true,
        },
    ]
}

/// `Trade`, once both sides of the book have orders and all sizes are known:
/// the checks in order (`InsufficientTokens`, `ExceededOpenOrdersLimit`,
/// `StopLossLimit`, `PriceAlreadyTraded`), then the two orders and the
/// trader's reduced balances, one more open pair and two more transactions.
pub open spec fn trade_decision(
    a: TradeAccounts,
    t: TraderState,
    seed: Seq<u8>,
    nonce: u8,
    best_bid: u64,
    best_ask: u64,
    s: TradeSizes,
    buy: u64,
    sell: u64,
    base_lots: u64,
    quote_lots: u64,
    base_amount: u64,
    quote_amount: u64,
    mine: Seq<Order>,
) -> Outcome {
    if base_amount <= s.base_size || quote_amount <= quote_lots {
        Some(Err(TradeBotErrors::InsufficientTokens))
    } else if t.open_order_pairs >= t.simultaneous_open_positions / 2 {
        Some(Err(TradeBotErrors::ExceededOpenOrdersLimit))
    } else if t.stopping_price >= best_bid || t.stopping_price >= best_ask {
        Some(Err(TradeBotErrors::StopLossLimit))
    } else if price_taken(mine, buy, sell) {
        Some(Err(TradeBotErrors::PriceAlreadyTraded))
    } else if sell == 0 || base_lots == 0 || buy == 0 || quote_lots == 0 || t.base_balance
        < s.base_size || t.quote_balance < quote_lots || t.open_order_pairs + 1 > u64::MAX
        || t.total_txs + 2 > u64::MAX {
        None
    } else {
        Some(
            Ok(
                PlanView {
                    seed,
                    nonce,
                    invocations: trade_invocations(a, buy, sell, base_lots, quote_lots),
                    trader: TraderState {
                        base_balance: (t.base_balance - s.base_size) as u64,
                        quote_balance: (t.quote_balance - quote_lots) as u64,
                        open_order_pairs: (t.open_order_pairs + 1) as u64,
                        total_txs: (t.total_txs + 2) as u64,
                        status: TraderStatus::Initialized,
                        ..t
                    },
                },
            ),
        )
    }
}

/// `Trade`: the trader signer must be the derived address (else
/// `Unauthorized`); both sides of the book must have orders (else
/// `NoTradesFoundOnMarket`); then `trade_decision`. Unreadable data, books or
/// wallets, a missing bump and every panicking step abort.
pub open spec fn trade_outcome(
    program_id: Pubkey,
    a: TradeAccounts,
    bids: Seq<Option<SlabLeaf>>,
    asks: Seq<Option<SlabLeaf>>,
    fee_on_base: u64,
    fee_on_quote: u64,
) -> Outcome {
    match decoded_state(a.trader_data@) {
        None => None,
        Some(t) => match signer_of(t.market_address, t.owner, program_id) {
            None => None,
            Some((pda, nonce)) => if pda != a.trader_signer@ {
                Some(Err(TradeBotErrors::Unauthorized))
            } else {
                match (
                    token_account_amount_of(a.base_market_wallet_data@),
                    token_account_amount_of(a.quote_market_wallet_data@),
                    read_book(Side::Bid, bids, None),
                    read_book(Side::Ask, asks, None),
                ) {
                    (Some(base_amount), Some(quote_amount), Some(all_bids), Some(all_asks)) => {
                        if all_bids.len() < 1 || all_asks.len() < 1 {
                            Some(Err(TradeBotErrors::NoTradesFoundOnMarket))
                        } else {
                            let best_bid = max_price(all_bids);
                            let best_ask = min_price(all_asks);
                            match trade_sizes_of(t, best_bid, best_ask) {
                                None => None,
                                Some(s) => match order_prices_of(t, s, fee_on_base, fee_on_quote) {
                                    None => None,
                                    Some((buy, sell)) => match lots_of(a, s.base_size, buy) {
                                        None => None,
                                        Some((base_lots, quote_lots)) => trade_decision(
                                            a,
                                            t,
                                            seed_of(t.market_address, t.owner),
                                            nonce,
                                            best_bid,
                                            best_ask,
                                            s,
                                            buy,
                                            sell,
                                            base_lots,
                                            quote_lots,
                                            base_amount,
                                            quote_amount,
                                            owned_by(all_bids, a.open_orders_owner) + owned_by(
                                                all_asks,
                                                a.open_orders_owner,
                                            ),
                                        ),
                                    },
                                },
                            }
                        }
                    },
                    _ => None,
                }
            },
        },
    }
}

/// The sizes `Trade` would work with for this trader and these books, if it
/// gets that far.
pub open spec fn trade_sizes_for(trader_data: Seq<u8>, bids: Seq<Option<SlabLeaf>>, asks: Seq<Option<SlabLeaf>>) -> Option<TradeSizes> {
    match (decoded_state(trader_data), read_book(Side::Bid, bids, None), read_book(Side::Ask, asks, None)) {
        (Some(t), Some(all_bids), Some(all_asks)) => if all_bids.len() < 1 || all_asks.len() < 1 {
            None
        } else {
            trade_sizes_of(t, max_price(all_bids), min_price(all_asks))
        },
        _ => None,
    }
}

fn cancel_accounts_of(a: &CleanUpAccounts, signer: Pubkey) -> (r: [AccountRef; 6])
    ensures
        r == cancel_accounts(*a, signer),
{
    [
        AccountRef { key: a.serum_market, is_signer: false, is_writable: true },
        AccountRef { key: a.bids_account, is_signer: false, is_writable: true },
        AccountRef { key: a.asks_account, is_signer: false, is_writable: true },
        AccountRef { key: a.serum_open_orders, is_signer: false, is_writable: true },
        AccountRef { key: signer, is_signer: true, is_writable: true },
        AccountRef { key: a.event_queue, is_signer: false, is_writable: true },
    ]
}

fn settle_accounts_of(a: &SettleAccounts) -> (r: [AccountRef; 9])
    ensures
        r == settle_accounts(*a),
{
    [
        AccountRef { key: a.serum_market, is_signer: false, is_writable: true },
        AccountRef { key: a.serum_open_orders, is_signer: false, is_writable: true },
        AccountRef { key: a.trader_signer, is_signer: true, is_writable: false },
        AccountRef { key: a.coin_vault, is_signer: false, is_writable: true },
        AccountRef { key: a.pc_vault, is_signer: false, is_writable: true },
        AccountRef { key: a.base_trader_wallet, is_signer: false, is_writable: true },
        AccountRef { key: a.quote_trader_wallet, is_signer: false, is_writable: true },
        AccountRef { key: a.vault_signer, is_signer: false, is_writable: false },
        AccountRef { key: a.token_program, is_signer: false, is_writable: false },
    ]
}

fn order_accounts_of(a: &TradeAccounts, payer: Pubkey) -> (r: [AccountRef; 12])
    ensures
        r == order_accounts(*a, payer),
{
    [
        AccountRef { key: a.serum_market, is_signer: false, is_writable: true },
        AccountRef { key: a.serum_open_orders, is_signer: false, is_writable: true },
        AccountRef { key: a.request_queue, is_signer: false, is_writable: true },
        AccountRef { key: a.event_queue, is_signer: false, is_writable: true },
        AccountRef { key: a.bids_account, is_signer: false, is_writable: true },
        AccountRef { key: a.asks_account, is_signer: false, is_writable: true },
        AccountRef { key: payer, is_signer: false, is_writable: true },
        AccountRef { key: a.trader_signer, is_signer: true, is_writable: false },
        AccountRef { key: a.coin_vault, is_signer: false, is_writable: true },
        AccountRef { key: a.pc_vault, is_signer: false, is_writable: true },
        AccountRef { key: a.token_program, is_signer: false, is_writable: false },
        AccountRef { key: a.rent_sysvar, is_signer: false, is_writable: false },
    ]
}

impl Processor {
    fn compute_trade_sizes(t: &TraderState, best_bid: u64, best_ask: u64) -> (r: Option<TradeSizes>)
        ensures
            r == trade_sizes_of(*t, best_bid, best_ask),
    {
        let sum = match best_bid.checked_add(best_ask) {
            Some(v) => v,
            None => {
                return None;
            },
        };
        let market_price = sum / 2;
        let pairs = match t.open_order_pairs.checked_mul(2) {
            Some(v) => v,
            None => {
                return None;
            },
        };
        if market_price == 0 || t.simultaneous_open_positions < pairs {
            return None;
        }
        let free = t.simultaneous_open_positions - pairs;
        if free == 0 {
            return None;
        }
        let base_size = t.base_balance / free;
        let quote_size = match base_size.checked_mul(market_price) {
            Some(v) => v,
            None => {
                return None;
            },
        };
        Some(
            TradeSizes {
                market_price,
                profit_as_base: t.min_trade_profit / market_price,
                base_size,
                quote_size,
            },
        )
    }

    fn compute_order_prices(t: &TraderState, s: TradeSizes, fee_on_base: u64, fee_on_quote: u64) -> (r: Option<(u64, u64)>)
        ensures
            r == order_prices_of(*t, s, fee_on_base, fee_on_quote),
    {
        let part = match s.base_size.checked_add(s.profit_as_base / 2) {
            Some(v) => v,
            None => {
                return None;
            },
        };
        let divisor = match part.checked_add(fee_on_base) {
            Some(v) => v,
            None => {
                return None;
            },
        };
        if divisor == 0 {
            return None;
        }
        let part2 = match fee_on_quote.checked_add(s.quote_size) {
            Some(v) => v,
            None => {
                return None;
            },
        };
        let dividend = match part2.checked_add(t.min_trade_profit / 2) {
            Some(v) => v,
            None => {
                return None;
            },
        };
        if s.base_size == 0 {
            return None;
        }
        let buy = s.quote_size / divisor;
        let sell = dividend / s.base_size;
        if buy == sell {
            if sell == 0 || sell == u64::MAX {
                return None;
            }
            Some((sell - 1, sell + 1))
        } else {
            Some((buy, sell))
        }
    }

    fn compute_lots(accounts: &TradeAccounts, base_size: u64, buy: u64) -> (r: Option<(u64, u64)>)
        ensures
            r == lots_of(*accounts, base_size, buy),
    {
        if accounts.coin_lot_size == 0 {
            return None;
        }
        let base_lots = base_size / accounts.coin_lot_size;
        let in_pc = match base_lots.checked_mul(accounts.pc_lot_size) {
            Some(v) => v,
            None => {
                return None;
            },
        };
        let quote_lots = match in_pc.checked_mul(buy) {
            Some(v) => v,
            None => {
                return None;
            },
        };
        Some((base_lots, quote_lots))
    }

    fn run_cleanup(program_id: &Pubkey, accounts: &CleanUpAccounts, bids: &Slab, asks: &Slab) -> (r: Option<TradeBotResult<Plan>>)
        ensures
            outcome_of(r) == cleanup_outcome(*program_id, *accounts, slab_slots(bids), slab_slots(asks)),
    {
        let trader = match TraderState::unpack(accounts.trader_data.as_slice()) {
            Ok(t) => t,
            Err(_) => {
                return None;
            },
        };
        let all_bids = match read_orders(Side::Bid, bids, None) {
            Some(v) => v,
            None => {
                return None;
            },
        };
        let all_asks = match read_orders(Side::Ask, asks, None) {
            Some(v) => v,
            None => {
                return None;
            },
        };
        let mut mine = orders_owned_by(&all_bids, &accounts.open_orders_owner);
        let mut mine_asks = orders_owned_by(&all_asks, &accounts.open_orders_owner);
        mine.append(&mut mine_asks);
        let (seed, _pda, nonce) = match Self::derive_signer(
            &trader.market_address,
            &trader.owner,
            program_id,
        ) {
            None => {
                return None;
            },
            Some(found) => found,
        };
        let base = match token_account_amount(accounts.base_trader_wallet_data.as_slice()) {
            None => {
                return None;
            },
            Some(amount) => amount,
        };
        let quote = match token_account_amount(accounts.quote_trader_wallet_data.as_slice()) {
            None => {
                return None;
            },
            Some(amount) => amount,
        };
        let mut invocations: Vec<Invocation> = Vec::new();
        let mut updated = trader;
        if mine.len() == 0 {
            if accounts.native_pc_total == 0 && accounts.native_coin_total == 0 {
                if !check_token_program(&accounts.token_program) {
                    return None;
                }
                if quote == 0 {
                    updated.status = TraderStatus::Stopped;
                    invocations.push(
                        Invocation {
                            action: CpiAction::CloseAccount {
                                token_program: accounts.token_program,
                                account: accounts.base_trader_wallet,
                                destination: accounts.trader_owner,
                                owner: accounts.trader_signer,
                            },
                            signed: true,
                        },
                    );
                    invocations.push(
                        Invocation {
                            action: CpiAction::CloseAccount {
                                token_program: accounts.token_program,
                                account: accounts.quote_trader_wallet,
                                destination: accounts.trader_owner,
                                owner: accounts.trader_signer,
                            },
                            signed: true,
                        },
                    );
                } else {
                    invocations.push(
                        Invocation {
                            action: CpiAction::Transfer {
                                token_program: accounts.token_program,
                                source: accounts.quote_trader_wallet,
                                destination: accounts.quote_owner_wallet,
                                authority: accounts.trader_signer,
                                amount: quote,
                            },
                            signed: true,
                        },
                    );
                    invocations.push(
                        Invocation {
                            action: CpiAction::Transfer {
                                token_program: accounts.token_program,
                                source: accounts.base_trader_wallet,
                                destination: accounts.base_owner_wallet,
                                authority: accounts.trader_signer,
                                amount: base,
                            },
                            signed: true,
                        },
                    );
                }
            }
        } else {
            let n = if mine.len() < MAX_CANCELS {
                mine.len()
            } else {
                MAX_CANCELS
            };
            let cancel_refs = cancel_accounts_of(accounts, trader.trader_signer);
            let mut i: usize = 0;
            while i < n
                invariant
                    i <= n,
                    n <= mine@.len(),
                    invocations@.len() == i,
                    cancel_refs == cancel_accounts(*accounts, trader.trader_signer),
                    forall|j: int|
                        0 <= j < i ==> #[trigger] invocations@[j] == (Invocation {
                            action: CpiAction::CancelOrder {
                                program: accounts.serum_program,
                                side: mine@[j].side,
                                order_id: mine@[j].order_id,
                                accounts: cancel_accounts(*accounts, trader.trader_signer),
                            },
                            signed: true,
                        }),
                decreases n - i,
            {
                let o = mine[i];
                invocations.push(
                    Invocation {
                        action: CpiAction::CancelOrder {
                            program: accounts.serum_program,
                            side: o.side,
                            order_id: o.order_id,
                            accounts: cancel_refs,
                        },
                        signed: true,
                    },
                );
                i = i + 1;
            }
        }
        proof {
            assert(invocations@ =~= cleanup_invocations(*accounts, trader, mine@, base, quote));
        }
        Some(Ok(Plan { seed, nonce, invocations, trader: updated }))
    }

    /// Winds down a decommissioned trader: cancels up to seven of its resting
    /// orders, or, with none left, returns its tokens to the owner or closes
    /// its wallets and stops it.
    pub fn process_cleanup_decommissioned_trader(
        program_id: &Pubkey,
        accounts: &CleanUpAccounts,
        bids: &Slab,
        asks: &Slab,
        ix: &CleanUp,
    ) -> (r: TradeBotResult<Plan>)
        requires
            cleanup_outcome(*program_id, *accounts, slab_slots(bids), slab_slots(asks)) is Some,
        ensures
            Some(plan_result(r)) == cleanup_outcome(
                *program_id,
                *accounts,
                slab_slots(bids),
                slab_slots(asks),
            ),
    {
        match Self::run_cleanup(program_id, accounts, bids, asks) {
            Some(r) => r,
            None => Err(TradeBotErrors::UnknownError),
        }
    }

    /// `process_cleanup_decommissioned_trader` where it does not abort;
    /// `None` where the transaction aborts.
    pub fn try_process_cleanup_decommissioned_trader(
        program_id: &Pubkey,
        accounts: &CleanUpAccounts,
        bids: &Slab,
        asks: &Slab,
        ix: &CleanUp,
    ) -> (r: Option<TradeBotResult<Plan>>)
        ensures
            outcome_of(r) == cleanup_outcome(*program_id, *accounts, slab_slots(bids), slab_slots(asks)),
    {
        Self::run_cleanup(program_id, accounts, bids, asks)
    }
}

impl Processor {
    fn compute_settled_value(accounts: &SettleAccounts, base: u64, quote: u64, market_price: u64) -> (r: Option<u64>)
        ensures
            r == settled_value(*accounts, base, quote, market_price),
    {
        let held_base = match base.checked_add(accounts.native_coin_total) {
            Some(v) => v,
            None => {
                return None;
            },
        };
        let in_pc_lots = match held_base.checked_mul(accounts.pc_lot_size) {
            Some(v) => v,
            None => {
                return None;
            },
        };
        if accounts.coin_lot_size == 0 {
            return None;
        }
        let base_value = match (in_pc_lots / accounts.coin_lot_size).checked_mul(market_price) {
            Some(v) => v,
            None => {
                return None;
            },
        };
        let quote_value = match accounts.native_pc_total.checked_add(quote) {
            Some(v) => v,
            None => {
                return None;
            },
        };
        base_value.checked_add(quote_value)
    }

    fn run_settle(program_id: &Pubkey, accounts: &SettleAccounts, bids: &Slab, asks: &Slab) -> (r: Option<TradeBotResult<Plan>>)
        ensures
            outcome_of(r) == settle_outcome(*program_id, *accounts, slab_slots(bids), slab_slots(asks)),
    {
        let trader = match TraderState::unpack(accounts.trader_data.as_slice()) {
            Ok(t) => t,
            Err(_) => {
                return None;
            },
        };
        let (seed, pda, nonce) = match Self::derive_signer(
            &trader.market_address,
            &trader.owner,
            program_id,
        ) {
            None => {
                return None;
            },
            Some(found) => found,
        };
        if !keys_equal(&pda, &accounts.trader_signer) {
            return Some(Err(TradeBotErrors::Unauthorized));
        }
        let own_bids = match read_orders(Side::Bid, bids, Some(accounts.open_orders_owner)) {
            Some(v) => v,
            None => {
                return None;
            },
        };
        let own_asks = match read_orders(Side::Ask, asks, Some(accounts.open_orders_owner)) {
            Some(v) => v,
            None => {
                return None;
            },
        };
        let base = match token_account_amount(accounts.base_trader_wallet_data.as_slice()) {
            None => {
                return None;
            },
            Some(amount) => amount,
        };
        let quote = match token_account_amount(accounts.quote_trader_wallet_data.as_slice()) {
            None => {
                return None;
            },
            Some(amount) => amount,
        };
        let all_bids = match read_orders(Side::Bid, bids, None) {
            Some(v) => v,
            None => {
                return None;
            },
        };
        let all_asks = match read_orders(Side::Ask, asks, None) {
            Some(v) => v,
            None => {
                return None;
            },
        };
        if all_bids.len() == 0 || all_asks.len() == 0 {
            return None;
        }
        let best_bid = highest_price(&all_bids);
        let best_ask = lowest_price(&all_asks);
        let sum = match best_bid.checked_add(best_ask) {
            Some(v) => v,
            None => {
                return None;
            },
        };
        let market_price = sum / 2;
        let value = match Self::compute_settled_value(accounts, base, quote, market_price) {
            Some(v) => v,
            None => {
                return None;
            },
        };
        let bid_count = own_bids.len() as u64;
        let ask_count = own_asks.len() as u64;
        let mut updated = trader;
        updated.base_balance = base;
        updated.quote_balance = quote;
        updated.value = value;
        updated.open_order_pairs = if bid_count >= ask_count {
            bid_count
        } else {
            ask_count
        };
        let mut invocations: Vec<Invocation> = Vec::new();
        invocations.push(
            Invocation {
                action: CpiAction::SettleFunds {
                    program: accounts.serum_program,
                    accounts: settle_accounts_of(accounts),
                },
                signed: true,
            },
        );
        let ghost spec_outcome = settle_outcome(*program_id, *accounts, slab_slots(bids), slab_slots(asks));
        proof {
            assert(spec_outcome matches Some(Ok(p)) && p.invocations =~= invocations@);
        }
        Some(Ok(Plan { seed, nonce, invocations, trader: updated }))
    }

    /// Settles a trader's funds on the market and refreshes its record: wallet
    /// balances, value at the market midpoint, and the number of open pairs.
    pub fn process_settle(program_id: &Pubkey, accounts: &SettleAccounts, bids: &Slab, asks: &Slab, ix: &Settle) -> (r: TradeBotResult<Plan>)
        requires
            settle_outcome(*program_id, *accounts, slab_slots(bids), slab_slots(asks)) is Some,
        ensures
            Some(plan_result(r)) == settle_outcome(*program_id, *accounts, slab_slots(bids), slab_slots(asks)),
    {
        match Self::run_settle(program_id, accounts, bids, asks) {
            Some(r) => r,
            None => Err(TradeBotErrors::UnknownError),
        }
    }

    /// `process_settle` where it does not abort; `None` where the transaction aborts.
    pub fn try_process_settle(program_id: &Pubkey, accounts: &SettleAccounts, bids: &Slab, asks: &Slab, ix: &Settle) -> (r: Option<TradeBotResult<Plan>>)
        ensures
            outcome_of(r) == settle_outcome(*program_id, *accounts, slab_slots(bids), slab_slots(asks)),
    {
        Self::run_settle(program_id, accounts, bids, asks)
    }

    /// The sizes that `Trade` works with for this trader data and these
    /// books, where it gets that far; the floating-point fees of a trade are
    /// computed from them.
    pub fn trade_sizes(trader_data: &[u8], bids: &Slab, asks: &Slab) -> (r: Option<TradeSizes>)
        ensures
            r == trade_sizes_for(trader_data@, slab_slots(bids), slab_slots(asks)),
    {
        let trader = match TraderState::unpack(trader_data) {
            Ok(t) => t,
            Err(_) => {
                return None;
            },
        };
        let all_bids = match read_orders(Side::Bid, bids, None) {
            Some(v) => v,
            None => {
                return None;
            },
        };
        let all_asks = match read_orders(Side::Ask, asks, None) {
            Some(v) => v,
            None => {
                return None;
            },
        };
        if all_bids.len() < 1 || all_asks.len() < 1 {
            return None;
        }
        let best_bid = highest_price(&all_bids);
        let best_ask = lowest_price(&all_asks);
        Self::compute_trade_sizes(&trader, best_bid, best_ask)
    }

    fn run_trade(
        program_id: &Pubkey,
        accounts: &TradeAccounts,
        bids: &Slab,
        asks: &Slab,
        fee_on_base: u64,
        fee_on_quote: u64,
    ) -> (r: Option<TradeBotResult<Plan>>)
        ensures
            outcome_of(r) == trade_outcome(
                *program_id,
                *accounts,
                slab_slots(bids),
                slab_slots(asks),
                fee_on_base,
                fee_on_quote,
            ),
    {
        let trader = match TraderState::unpack(accounts.trader_data.as_slice()) {
            Ok(t) => t,
            Err(_) => {
                return None;
            },
        };
        let (seed, pda, nonce) = match Self::derive_signer(
            &trader.market_address,
            &trader.owner,
            program_id,
        ) {
            None => {
                return None;
            },
            Some(found) => found,
        };
        if !keys_equal(&pda, &accounts.trader_signer) {
            return Some(Err(TradeBotErrors::Unauthorized));
        }
        let base_amount = match token_account_amount(accounts.base_market_wallet_data.as_slice()) {
            None => {
                return None;
            },
            Some(amount) => amount,
        };
        let quote_amount = match token_account_amount(accounts.quote_market_wallet_data.as_slice()) {
            None => {
                return None;
            },
            Some(amount) => amount,
        };
        let all_bids = match read_orders(Side::Bid, bids, None) {
            Some(v) => v,
            None => {
                return None;
            },
        };
        let all_asks = match read_orders(Side::Ask, asks, None) {
            Some(v) => v,
            None => {
                return None;
            },
        };
        if all_bids.len() < 1 || all_asks.len() < 1 {
            return Some(Err(TradeBotErrors::NoTradesFoundOnMarket));
        }
        let best_bid = highest_price(&all_bids);
        let best_ask = lowest_price(&all_asks);
        let sizes = match Self::compute_trade_sizes(&trader, best_bid, best_ask) {
            Some(v) => v,
            None => {
                return None;
            },
        };
        let (buy, sell) = match Self::compute_order_prices(&trader, sizes, fee_on_base, fee_on_quote) {
            Some(v) => v,
            None => {
                return None;
            },
        };
        let (base_lots, quote_lots) = match Self::compute_lots(accounts, sizes.base_size, buy) {
            Some(v) => v,
            None => {
                return None;
            },
        };
        if base_amount <= sizes.base_size || quote_amount <= quote_lots {
            return Some(Err(TradeBotErrors::InsufficientTokens));
        }
        if trader.open_order_pairs >= trader.simultaneous_open_positions / 2 {
            return Some(Err(TradeBotErrors::ExceededOpenOrdersLimit));
        }
        if trader.stopping_price >= best_bid || trader.stopping_price >= best_ask {
            return Some(Err(TradeBotErrors::StopLossLimit));
        }
        let mut mine = orders_owned_by(&all_bids, &accounts.open_orders_owner);
        let mut mine_asks = orders_owned_by(&all_asks, &accounts.open_orders_owner);
        mine.append(&mut mine_asks);
        if any_price_taken(&mine, buy, sell) {
            return Some(Err(TradeBotErrors::PriceAlreadyTraded));
        }
        if sell == 0 || base_lots == 0 || buy == 0 || quote_lots == 0 {
            return None;
        }
        if trader.base_balance < sizes.base_size || trader.quote_balance < quote_lots
            || trader.open_order_pairs == u64::MAX || trader.total_txs > u64::MAX - 2 {
            return None;
        }
        let mut invocations: Vec<Invocation> = Vec::new();
        invocations.push(
            Invocation {
                action: CpiAction::NewOrder {
                    program: accounts.serum_program,
                    side: Side::Bid,
                    limit_price: buy,
                    max_coin_qty: quote_lots,
                    max_native_pc_qty: quote_lots,
                    client_order_id: sell,
                    accounts: order_accounts_of(accounts, accounts.quote_market_wallet),
                },
                signed: true,
            },
        );
        invocations.push(
            Invocation {
                action: CpiAction::NewOrder {
                    program: accounts.serum_program,
                    side: Side::Ask,
                    limit_price: sell,
                    max_coin_qty: base_lots,
                    max_native_pc_qty: 1,
                    client_order_id: buy,
                    accounts: order_accounts_of(accounts, accounts.base_market_wallet),
                },
                signed: true,
            },
        );
        let mut updated = trader;
        updated.base_balance = trader.base_balance - sizes.base_size;
        updated.quote_balance = trader.quote_balance - quote_lots;
        updated.open_order_pairs = trader.open_order_pairs + 1;
        updated.total_txs = trader.total_txs + 2;
        updated.status = TraderStatus::Initialized;
        proof {
            assert(invocations@ =~= trade_invocations(*accounts, buy, sell, base_lots, quote_lots));
        }
        Some(Ok(Plan { seed, nonce, invocations, trader: updated }))
    }

    /// Places one pair of orders around the market midpoint for a trader: a
    /// bid below and an ask above, sized from its free position slots and
    /// priced to earn its profit target after fees. `fee_on_base` and
    /// `fee_on_quote` are the fees on the base and quote sizes of
    /// `trade_sizes`, which the bot computes in floating point.
    pub fn process_trade(
        program_id: &Pubkey,
        accounts: &TradeAccounts,
        bids: &Slab,
        asks: &Slab,
        fee_on_base: u64,
        fee_on_quote: u64,
        ix: &Trade,
    ) -> (r: TradeBotResult<Plan>)
        requires
            trade_outcome(
                *program_id,
                *accounts,
                slab_slots(bids),
                slab_slots(asks),
                fee_on_base,
                fee_on_quote,
            ) is Some,
        ensures
            Some(plan_result(r)) == trade_outcome(
                *program_id,
                *accounts,
                slab_slots(bids),
                slab_slots(asks),
                fee_on_base,
                fee_on_quote,
            ),
    {
        match Self::run_trade(program_id, accounts, bids, asks, fee_on_base, fee_on_quote) {
            Some(r) => r,
            None => Err(TradeBotErrors::UnknownError),
        }
    }

    /// `process_trade` where it does not abort; `None` where the transaction aborts.
    pub fn try_process_trade(
        program_id: &Pubkey,
        accounts: &TradeAccounts,
        bids: &Slab,
        asks: &Slab,
        fee_on_base: u64,
        fee_on_quote: u64,
        ix: &Trade,
    ) -> (r: Option<TradeBotResult<Plan>>)
        ensures
            outcome_of(r) == trade_outcome(
                *program_id,
                *accounts,
                slab_slots(bids),
                slab_slots(asks),
                fee_on_base,
                fee_on_quote,
            ),
    {
        Self::run_trade(program_id, accounts, bids, asks, fee_on_base, fee_on_quote)
    }
}

} // verus!
