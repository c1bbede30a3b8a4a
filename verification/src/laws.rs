use vstd::prelude::*;
use vstd::arithmetic::div_mod::{lemma_div_is_ordered, lemma_div_is_ordered_by_denominator, lemma_div_multiples_vanish};
use crate::book::{
    lemma_owned_by_owner, max_price, min_price, orders_in, owned_by, read_book, Order, Side,
    SlabLeaf,
};
use crate::error::TradeBotErrors;
use crate::instruction::{Deposit, RegisterTrader, UpdateTrader};
use crate::market::{
    cleanup_outcome, order_prices_of, settle_outcome, trade_outcome, trade_sizes_of, CleanUpAccounts,
    SettleAccounts, TradeAccounts, TradeSizes, MAX_CANCELS,
};
use crate::chain::token_account_amount_of;
use crate::processor::{signer_of, AccountRef, CpiAction, Invocation, PlanView};
use crate::state::{decoded_state, TraderState, TraderStatus};
use crate::trader::{
    decommission_trader_outcome, deposit_outcome, register_trader_outcome, update_trader_outcome,
    DepositAccounts, RegisterTraderAccounts, TraderOwnerAccounts,
};
use crate::wire::Pubkey;

verus! {

/// The signer that `RegisterTrader` records for a trader is the address that
/// the later instructions derive from the recorded market and owner.
pub proof fn lemma_registered_signer_is_derived(program_id: Pubkey, a: RegisterTraderAccounts, ix: RegisterTrader)
    requires
        register_trader_outcome(program_id, a, ix) matches Some(Ok(_)),
    ensures
        register_trader_outcome(program_id, a, ix) matches Some(Ok(p)) && signer_of(
            p.trader.market_address,
            p.trader.owner,
            program_id,
        ) matches Some((pda, _)) && pda == p.trader.trader_signer@,
{
}

/// A deposit into a trader just registered, presented with the signer that
/// registration recorded, is never refused as `InvalidInstruction`.
pub proof fn lemma_registered_trader_accepts_deposit(
    program_id: Pubkey,
    a: RegisterTraderAccounts,
    ix: RegisterTrader,
    d: DepositAccounts,
    dix: Deposit,
)
    requires
        register_trader_outcome(program_id, a, ix) matches Some(Ok(p)) && d.trader_data@
            == p.trader.packed() && d.trader_signer == p.trader.trader_signer,
    ensures
        deposit_outcome(program_id, d, dix) != Some(
            Err::<PlanView, TradeBotErrors>(TradeBotErrors::InvalidInstruction),
        ),
{
    let p = register_trader_outcome(program_id, a, ix)->0->Ok_0;
    p.trader.lemma_decoded_packed();
}

/// A trade by a trader just registered, presented with the signer that
/// registration recorded, is never refused as `Unauthorized`.
pub proof fn lemma_registered_trader_may_trade(
    program_id: Pubkey,
    a: RegisterTraderAccounts,
    ix: RegisterTrader,
    t: TradeAccounts,
    bids: Seq<Option<SlabLeaf>>,
    asks: Seq<Option<SlabLeaf>>,
    fee_on_base: u64,
    fee_on_quote: u64,
)
    requires
        register_trader_outcome(program_id, a, ix) matches Some(Ok(p)) && t.trader_data@
            == p.trader.packed() && t.trader_signer == p.trader.trader_signer,
    ensures
        trade_outcome(program_id, t, bids, asks, fee_on_base, fee_on_quote) != Some(
            Err::<PlanView, TradeBotErrors>(TradeBotErrors::Unauthorized),
        ),
{
    let p = register_trader_outcome(program_id, a, ix)->0->Ok_0;
    p.trader.lemma_decoded_packed();
}

/// A settlement of a trader just registered, presented with the signer that
/// registration recorded, is never refused as `Unauthorized`.
pub proof fn lemma_registered_trader_may_settle(
    program_id: Pubkey,
    a: RegisterTraderAccounts,
    ix: RegisterTrader,
    s: SettleAccounts,
    bids: Seq<Option<SlabLeaf>>,
    asks: Seq<Option<SlabLeaf>>,
)
    requires
        register_trader_outcome(program_id, a, ix) matches Some(Ok(p)) && s.trader_data@
            == p.trader.packed() && s.trader_signer == p.trader.trader_signer,
    ensures
        settle_outcome(program_id, s, bids, asks) != Some(
            Err::<PlanView, TradeBotErrors>(TradeBotErrors::Unauthorized),
        ),
{
    let p = register_trader_outcome(program_id, a, ix)->0->Ok_0;
    p.trader.lemma_decoded_packed();
}

/// A deposit raises a balance and its deposit total by the same amount, so
/// the balance less the deposits is kept, for base and for quote.
pub proof fn lemma_deposit_keeps_balance_less_deposits(program_id: Pubkey, d: DepositAccounts, dix: Deposit)
    requires
        deposit_outcome(program_id, d, dix) matches Some(Ok(_)),
    ensures
        deposit_outcome(program_id, d, dix) matches Some(Ok(p)) && decoded_state(d.trader_data@) matches Some(t)
            && p.trader.base_balance - p.trader.deposited_base_balance == t.base_balance
            - t.deposited_base_balance && p.trader.quote_balance - p.trader.deposited_quote_balance
            == t.quote_balance - t.deposited_quote_balance,
{
}

/// At any sizes a trade works with, its bid is priced strictly below its ask.
pub proof fn lemma_order_prices_straddle(t: TraderState, best_bid: u64, best_ask: u64, fee_on_base: u64, fee_on_quote: u64)
    requires
        trade_sizes_of(t, best_bid, best_ask) matches Some(s) && order_prices_of(
            t,
            s,
            fee_on_base,
            fee_on_quote,
        ) is Some,
    ensures
        trade_sizes_of(t, best_bid, best_ask) matches Some(s) && order_prices_of(
            t,
            s,
            fee_on_base,
            fee_on_quote,
        ) matches Some((buy, sell)) && buy < sell,
{
    let s = trade_sizes_of(t, best_bid, best_ask)->0;
    let bs = s.base_size as int;
    let mp = s.market_price as int;
    let q = s.quote_size as int;
    assert(q == bs * mp);
    let divisor = bs + (s.profit_as_base / 2) as int + fee_on_base as int;
    let dividend = fee_on_quote as int + q + (t.min_trade_profit / 2) as int;
    assert(bs > 0);
    // buy = q / divisor <= q / bs == mp
    lemma_div_is_ordered_by_denominator(q, bs, divisor);
    lemma_div_multiples_vanish(mp, bs);
    assert(q / divisor <= mp);
    // sell = dividend / bs >= q / bs == mp
    lemma_div_is_ordered(q, dividend, bs);
    assert(dividend / bs >= mp);
}

/// The calls are a bid followed by an ask priced strictly above it.
pub open spec fn bid_below_ask(invocations: Seq<Invocation>) -> bool {
    invocations.len() == 2 && match (invocations[0].action, invocations[1].action) {
        (
            CpiAction::NewOrder { side: Side::Bid, limit_price: buy, .. },
            CpiAction::NewOrder { side: Side::Ask, limit_price: sell, .. },
        ) => buy < sell,
        _ => false,
    }
}

/// Every cancellation among the calls cancels one of `orders`.
pub open spec fn cancels_only(invocations: Seq<Invocation>, orders: Seq<Order>) -> bool {
    forall|i: int|
        0 <= i < invocations.len() ==> match (#[trigger] invocations[i]).action {
            CpiAction::CancelOrder { order_id, .. } => exists|j: int|
                0 <= j < orders.len() && (#[trigger] orders[j]).order_id == order_id,
            _ => true,
        }
}

/// A trade that goes ahead places a bid strictly below its ask.
pub proof fn lemma_trade_bid_below_ask(
    program_id: Pubkey,
    a: TradeAccounts,
    bids: Seq<Option<SlabLeaf>>,
    asks: Seq<Option<SlabLeaf>>,
    fee_on_base: u64,
    fee_on_quote: u64,
)
    requires
        trade_outcome(program_id, a, bids, asks, fee_on_base, fee_on_quote) matches Some(Ok(_)),
    ensures
        trade_outcome(program_id, a, bids, asks, fee_on_base, fee_on_quote) matches Some(Ok(p))
            && bid_below_ask(p.invocations),
{
    let t = decoded_state(a.trader_data@)->0;
    let all_bids = read_book(Side::Bid, bids, None)->0;
    let all_asks = read_book(Side::Ask, asks, None)->0;
    let best_bid = max_price(all_bids);
    let best_ask = min_price(all_asks);
    lemma_order_prices_straddle(t, best_bid, best_ask, fee_on_base, fee_on_quote);
}

/// A trade that goes ahead adds one open pair and leaves the trader with at
/// most half its position limit in open pairs.
pub proof fn lemma_trade_within_position_limit(
    program_id: Pubkey,
    a: TradeAccounts,
    bids: Seq<Option<SlabLeaf>>,
    asks: Seq<Option<SlabLeaf>>,
    fee_on_base: u64,
    fee_on_quote: u64,
)
    requires
        trade_outcome(program_id, a, bids, asks, fee_on_base, fee_on_quote) matches Some(Ok(_)),
    ensures
        trade_outcome(program_id, a, bids, asks, fee_on_base, fee_on_quote) matches Some(Ok(p))
            && decoded_state(a.trader_data@) matches Some(t) && p.trader.open_order_pairs
            == t.open_order_pairs + 1 && p.trader.simultaneous_open_positions
            == t.simultaneous_open_positions && p.trader.open_order_pairs
            <= p.trader.simultaneous_open_positions / 2,
{
}

/// A trade goes ahead only while the best bid and the best ask are both above
/// the trader's stopping price.
pub proof fn lemma_trade_above_stopping_price(
    program_id: Pubkey,
    a: TradeAccounts,
    bids: Seq<Option<SlabLeaf>>,
    asks: Seq<Option<SlabLeaf>>,
    fee_on_base: u64,
    fee_on_quote: u64,
)
    requires
        trade_outcome(program_id, a, bids, asks, fee_on_base, fee_on_quote) matches Some(Ok(_)),
    ensures
        decoded_state(a.trader_data@) matches Some(t) && read_book(Side::Bid, bids, None) matches Some(
            all_bids,
        ) && read_book(Side::Ask, asks, None) matches Some(all_asks) && t.stopping_price < max_price(
            all_bids,
        ) && t.stopping_price < min_price(all_asks),
{
}

/// The trader's own resting orders, bids first: those whose owner is the
/// trader's open-orders account.
pub open spec fn own_orders(a: CleanUpAccounts, bids: Seq<Option<SlabLeaf>>, asks: Seq<Option<SlabLeaf>>) -> Seq<Order> {
    owned_by(read_book(Side::Bid, bids, None)->0, a.open_orders_owner) + owned_by(
        read_book(Side::Ask, asks, None)->0,
        a.open_orders_owner,
    )
}

/// A clean-up cancels at most seven orders, and only the trader's own.
pub proof fn lemma_cleanup_cancels_own_orders(
    program_id: Pubkey,
    a: CleanUpAccounts,
    bids: Seq<Option<SlabLeaf>>,
    asks: Seq<Option<SlabLeaf>>,
)
    requires
        cleanup_outcome(program_id, a, bids, asks) matches Some(Ok(_)),
    ensures
        cleanup_outcome(program_id, a, bids, asks) matches Some(Ok(p)) && p.invocations.len()
            <= MAX_CANCELS && cancels_only(p.invocations, own_orders(a, bids, asks)),
        forall|j: int|
            0 <= j < own_orders(a, bids, asks).len() ==> (#[trigger] own_orders(a, bids, asks)[j]).owner@
                == a.open_orders_owner@,
{
    let all_bids = read_book(Side::Bid, bids, None)->0;
    let all_asks = read_book(Side::Ask, asks, None)->0;
    let first = owned_by(all_bids, a.open_orders_owner);
    let mine = own_orders(a, bids, asks);
    lemma_owned_by_owner(all_bids, a.open_orders_owner);
    lemma_owned_by_owner(all_asks, a.open_orders_owner);
    assert forall|j: int| 0 <= j < mine.len() implies (#[trigger] mine[j]).owner@
        == a.open_orders_owner@ by {
        if j < first.len() {
            assert(mine[j] == first[j]);
        } else {
            assert(mine[j] == owned_by(all_asks, a.open_orders_owner)[j - first.len()]);
        }
    }
    let p = cleanup_outcome(program_id, a, bids, asks)->0->Ok_0;
    assert forall|i: int| 0 <= i < p.invocations.len() implies match (
    #[trigger] p.invocations[i]).action {
        CpiAction::CancelOrder { order_id, .. } => exists|j: int|
            0 <= j < mine.len() && (#[trigger] mine[j]).order_id == order_id,
        _ => true,
    } by {
        if p.invocations[i].action is CancelOrder {
            assert(mine[i].order_id == p.invocations[i].action->order_id);
        }
    }
}

} // verus!

verus! {

/// The trader's own resting orders seen by a trade, bids first.
pub open spec fn trade_own_orders(a: TradeAccounts, bids: Seq<Option<SlabLeaf>>, asks: Seq<Option<SlabLeaf>>) -> Seq<Order> {
    owned_by(read_book(Side::Bid, bids, None)->0, a.open_orders_owner) + owned_by(
        read_book(Side::Ask, asks, None)->0,
        a.open_orders_owner,
    )
}

/// A trade that goes ahead places its bid and its ask so that no price and no
/// client id of the trader's own resting orders lies between them (inclusive).
pub proof fn lemma_trade_avoids_own_prices(
    program_id: Pubkey,
    a: TradeAccounts,
    bids: Seq<Option<SlabLeaf>>,
    asks: Seq<Option<SlabLeaf>>,
    fee_on_base: u64,
    fee_on_quote: u64,
)
    requires
        trade_outcome(program_id, a, bids, asks, fee_on_base, fee_on_quote) matches Some(Ok(_)),
    ensures
        ({
            &&& trade_outcome(program_id, a, bids, asks, fee_on_base, fee_on_quote) matches Some(Ok(p))
            &&& p.invocations.len() == 2
            &&& p.invocations[0].action matches CpiAction::NewOrder { limit_price: buy, .. }
            &&& p.invocations[1].action matches CpiAction::NewOrder { limit_price: sell, .. }
            &&& forall|j: int|
                0 <= j < trade_own_orders(a, bids, asks).len() ==> {
                    let o = #[trigger] trade_own_orders(a, bids, asks)[j];
                    &&& (o.price < buy || o.price > sell)
                    &&& (o.client_id < buy || o.client_id > sell)
                }
        }),
{
    let mine = trade_own_orders(a, bids, asks);
    let p = trade_outcome(program_id, a, bids, asks, fee_on_base, fee_on_quote)->0->Ok_0;
    let buy = p.invocations[0].action->NewOrder_limit_price;
    let sell = p.invocations[1].action->NewOrder_limit_price;
    assert forall|j: int| 0 <= j < mine.len() implies {
        let o = #[trigger] mine[j];
        &&& (o.price < buy || o.price > sell)
        &&& (o.client_id < buy || o.client_id > sell)
    } by {
        let o = mine[j];
        if !((o.price < buy || o.price > sell) && (o.client_id < buy || o.client_id > sell)) {
            assert(crate::book::price_taken(mine, buy, sell));
        }
    }
}

/// No more orders than slots.
proof fn lemma_orders_in_len(side: Side, slots: Seq<Option<SlabLeaf>>)
    ensures
        orders_in(side, slots).len() <= slots.len(),
    decreases slots.len(),
{
    if slots.len() > 0 {
        lemma_orders_in_len(side, slots.drop_last());
    }
}

/// No more owned orders than orders.
proof fn lemma_owned_by_len(orders: Seq<Order>, owner: [u64; 4])
    ensures
        owned_by(orders, owner).len() <= orders.len(),
    decreases orders.len(),
{
    if orders.len() > 0 {
        lemma_owned_by_len(orders.drop_last(), owner);
    }
}

/// After a settlement the trader's open pairs are the larger of its own
/// resting bids and its own resting asks: at least each count, and one of them.
pub proof fn lemma_settle_counts_open_pairs(
    program_id: Pubkey,
    a: SettleAccounts,
    bids: Seq<Option<SlabLeaf>>,
    asks: Seq<Option<SlabLeaf>>,
)
    requires
        settle_outcome(program_id, a, bids, asks) matches Some(Ok(_)),
    ensures
        settle_outcome(program_id, a, bids, asks) matches Some(Ok(p)) && read_book(
            Side::Bid,
            bids,
            Some(a.open_orders_owner),
        ) matches Some(own_bids) && read_book(Side::Ask, asks, Some(a.open_orders_owner)) matches Some(
            own_asks,
        ) && p.trader.open_order_pairs >= own_bids.len() && p.trader.open_order_pairs
            >= own_asks.len() && (p.trader.open_order_pairs == own_bids.len()
            || p.trader.open_order_pairs == own_asks.len()),
{
    let o = a.open_orders_owner;
    lemma_orders_in_len(Side::Bid, bids);
    lemma_orders_in_len(Side::Ask, asks);
    lemma_owned_by_len(orders_in(Side::Bid, bids), o);
    lemma_owned_by_len(orders_in(Side::Ask, asks), o);
}

/// Each cancellation of a clean-up cancels the trader's own order at the same
/// position, on that order's side; there are as many as the own orders, up to seven.
pub proof fn lemma_cleanup_cancels_in_order(
    program_id: Pubkey,
    a: CleanUpAccounts,
    bids: Seq<Option<SlabLeaf>>,
    asks: Seq<Option<SlabLeaf>>,
)
    requires
        cleanup_outcome(program_id, a, bids, asks) matches Some(Ok(_)),
        own_orders(a, bids, asks).len() > 0,
    ensures
        cleanup_outcome(program_id, a, bids, asks) matches Some(Ok(p)) && p.invocations.len() == (
        if own_orders(a, bids, asks).len() < MAX_CANCELS {
            own_orders(a, bids, asks).len()
        } else {
            MAX_CANCELS as nat
        }) && forall|i: int|
            0 <= i < p.invocations.len() ==> ({
                &&& (#[trigger] p.invocations[i]).action matches CpiAction::CancelOrder { side, order_id, .. }
                &&& side == own_orders(a, bids, asks)[i].side
                &&& order_id == own_orders(a, bids, asks)[i].order_id
            }),
{
}

/// A registered trader's record keeps each parameter of the instruction in its
/// own field, starts with the starting balances, which are exactly what the
/// first two calls move into the market wallets, and belongs to the initializer.
pub proof fn lemma_register_records_parameters(program_id: Pubkey, a: RegisterTraderAccounts, ix: RegisterTrader)
    requires
        register_trader_outcome(program_id, a, ix) matches Some(Ok(_)),
    ensures
        register_trader_outcome(program_id, a, ix) matches Some(Ok(p)) && {
            let t = p.trader;
            &&& t.min_trade_profit == ix.trade_profit
            &&& t.stopping_price == ix.stopping_price
            &&& t.starting_price_buy == ix.starting_price_buy
            &&& t.starting_price_sell == ix.starting_price_sell
            &&& t.simultaneous_open_positions == ix.simultaneous_open_positions
            &&& t.starting_base_balance == ix.starting_base_balance
            &&& t.starting_quote_balance == ix.starting_quote_balance
            &&& t.starting_value == ix.starting_value
            &&& t.value == ix.starting_value
            &&& t.register_date == ix.register_date
            &&& t.base_balance == ix.starting_base_balance
            &&& t.quote_balance == ix.starting_quote_balance
            &&& t.deposited_base_balance == 0 && t.deposited_quote_balance == 0
            &&& t.withdrawn_base_balance == 0 && t.withdrawn_quote_balance == 0
            &&& t.open_order_pairs == 0 && t.total_txs == 0
            &&& t.owner == a.initializer && t.market_address == a.serum_market
            &&& t.base_trader_wallet == a.base_market_wallet
            &&& t.quote_trader_wallet == a.quote_market_wallet
            &&& t.serum_open_orders == a.serum_open_orders
            &&& t.trader_signer == a.trader_signer
            &&& p.invocations[0].action == CpiAction::Transfer {
                token_program: a.token_program,
                source: a.initializer_base_wallet,
                destination: a.base_market_wallet,
                authority: a.initializer,
                amount: t.base_balance,
            }
            &&& p.invocations[1].action == CpiAction::Transfer {
                token_program: a.token_program,
                source: a.initializer_quote_wallet,
                destination: a.quote_market_wallet,
                authority: a.initializer,
                amount: t.quote_balance,
            }
        },
{
}

/// A deposit moves into the base market wallet exactly the amount by which the
/// base balance and the base deposit total rise, which is the instruction's
/// base amount; likewise for quote. Nothing else in the record changes.
pub proof fn lemma_deposit_moves_what_it_records(program_id: Pubkey, d: DepositAccounts, dix: Deposit)
    requires
        deposit_outcome(program_id, d, dix) matches Some(Ok(_)),
    ensures
        ({
            &&& deposit_outcome(program_id, d, dix) matches Some(Ok(p))
            &&& decoded_state(d.trader_data@) matches Some(t)
            &&& p.invocations.len() == 2
            &&& p.invocations[0].action matches CpiAction::Transfer {
                source: s0,
                destination: d0,
                amount: base,
                ..
            }
            &&& p.invocations[1].action matches CpiAction::Transfer {
                source: s1,
                destination: d1,
                amount: quote,
                ..
            }
            &&& s0 == d.initializer_base_wallet && d0 == d.base_market_wallet
            &&& s1 == d.initializer_quote_wallet && d1 == d.quote_market_wallet
            &&& base == dix.base_amount && quote == dix.quote_amount
            &&& p.trader.base_balance == t.base_balance + base
            &&& p.trader.deposited_base_balance == t.deposited_base_balance + base
            &&& p.trader.quote_balance == t.quote_balance + quote
            &&& p.trader.deposited_quote_balance == t.deposited_quote_balance + quote
            &&& p.trader == (TraderState {
                base_balance: p.trader.base_balance,
                quote_balance: p.trader.quote_balance,
                deposited_base_balance: p.trader.deposited_base_balance,
                deposited_quote_balance: p.trader.deposited_quote_balance,
                ..t
            })
        }),
{
}

} // verus!

verus! {

/// The two orders of a trade that goes ahead: a bid then an ask, both signed
/// and sent to the serum program, the bid paid from the quote market wallet
/// and the ask from the base market wallet, each carrying the other's price as
/// its client id. The ask sells the base taken from the balance, in coin lots;
/// the bid locks that many lots at its price, which leaves the quote balance.
/// The trader gains one open pair and two transactions; nothing else changes.
pub proof fn lemma_trade_orders_and_record(
    program_id: Pubkey,
    a: TradeAccounts,
    bids: Seq<Option<SlabLeaf>>,
    asks: Seq<Option<SlabLeaf>>,
    fee_on_base: u64,
    fee_on_quote: u64,
)
    requires
        trade_outcome(program_id, a, bids, asks, fee_on_base, fee_on_quote) matches Some(Ok(_)),
    ensures
        ({
            &&& trade_outcome(program_id, a, bids, asks, fee_on_base, fee_on_quote) matches Some(Ok(p))
            &&& decoded_state(a.trader_data@) matches Some(t)
            &&& p.invocations.len() == 2
            &&& p.invocations[0].signed && p.invocations[1].signed
            &&& p.invocations[0].action matches CpiAction::NewOrder {
                program: bid_program,
                side: Side::Bid,
                limit_price: buy,
                max_coin_qty: bid_qty,
                max_native_pc_qty: bid_pc,
                client_order_id: bid_client,
                accounts: bid_accounts,
            }
            &&& p.invocations[1].action matches CpiAction::NewOrder {
                program: ask_program,
                side: Side::Ask,
                limit_price: sell,
                max_coin_qty: ask_qty,
                max_native_pc_qty: ask_pc,
                client_order_id: ask_client,
                accounts: ask_accounts,
            }
            &&& bid_program == a.serum_program && ask_program == a.serum_program
            &&& bid_client == sell && ask_client == buy
            &&& bid_accounts@[6].key == a.quote_market_wallet
            &&& ask_accounts@[6].key == a.base_market_wallet
            &&& bid_accounts@[7] == (AccountRef { key: a.trader_signer, is_signer: true, is_writable: false })
            &&& ask_accounts@[7] == (AccountRef { key: a.trader_signer, is_signer: true, is_writable: false })
            &&& ask_pc == 1
            &&& a.coin_lot_size > 0
            &&& ask_qty == (t.base_balance - p.trader.base_balance) / (a.coin_lot_size as int)
            &&& bid_qty == bid_pc && bid_pc == ask_qty * a.pc_lot_size * buy
            &&& p.trader.quote_balance == t.quote_balance - bid_pc
            &&& p.trader.open_order_pairs == t.open_order_pairs + 1
            &&& p.trader.total_txs == t.total_txs + 2
            &&& p.trader == (TraderState {
                base_balance: p.trader.base_balance,
                quote_balance: p.trader.quote_balance,
                open_order_pairs: p.trader.open_order_pairs,
                total_txs: p.trader.total_txs,
                status: TraderStatus::Initialized,
                ..t
            })
        }),
{
}

/// A settlement makes one signed `SettleFunds` call to the serum program, and
/// records the wallets' token amounts as the balances and, as the value, the
/// base held (wallet and open orders) in quote lots at the midpoint of the best
/// bid and best ask, plus the quote held; nothing else but the open pairs changes.
pub proof fn lemma_settle_records_holdings(
    program_id: Pubkey,
    a: SettleAccounts,
    bids: Seq<Option<SlabLeaf>>,
    asks: Seq<Option<SlabLeaf>>,
)
    requires
        settle_outcome(program_id, a, bids, asks) matches Some(Ok(_)),
    ensures
        ({
            &&& settle_outcome(program_id, a, bids, asks) matches Some(Ok(p))
            &&& decoded_state(a.trader_data@) matches Some(t)
            &&& read_book(Side::Bid, bids, None) matches Some(all_bids)
            &&& read_book(Side::Ask, asks, None) matches Some(all_asks)
            &&& p.invocations.len() == 1
            &&& p.invocations[0].signed
            &&& p.invocations[0].action matches CpiAction::SettleFunds { program, .. }
            &&& program == a.serum_program
            &&& token_account_amount_of(a.base_trader_wallet_data@) == Some(p.trader.base_balance)
            &&& token_account_amount_of(a.quote_trader_wallet_data@) == Some(p.trader.quote_balance)
            &&& a.coin_lot_size > 0
            &&& p.trader.value == (p.trader.base_balance + a.native_coin_total) * a.pc_lot_size
                / (a.coin_lot_size as int) * ((max_price(all_bids) + min_price(all_asks)) / 2)
                + a.native_pc_total + p.trader.quote_balance
            &&& p.trader == (TraderState {
                base_balance: p.trader.base_balance,
                quote_balance: p.trader.quote_balance,
                value: p.trader.value,
                open_order_pairs: p.trader.open_order_pairs,
                ..t
            })
        }),
{
}

/// A clean-up of a trader with no resting orders: while the open-orders
/// account still holds funds it does nothing; otherwise, with an empty quote
/// wallet it closes both wallets to the owner and stops the trader, and with
/// quote left it sends each wallet's whole amount to the owner's wallet.
/// The record changes only in its status, and only when the wallets close.
pub proof fn lemma_cleanup_without_orders(
    program_id: Pubkey,
    a: CleanUpAccounts,
    bids: Seq<Option<SlabLeaf>>,
    asks: Seq<Option<SlabLeaf>>,
)
    requires
        cleanup_outcome(program_id, a, bids, asks) matches Some(Ok(_)),
        own_orders(a, bids, asks).len() == 0,
    ensures
        ({
            &&& cleanup_outcome(program_id, a, bids, asks) matches Some(Ok(p))
            &&& decoded_state(a.trader_data@) matches Some(t)
            &&& token_account_amount_of(a.base_trader_wallet_data@) matches Some(base)
            &&& token_account_amount_of(a.quote_trader_wallet_data@) matches Some(quote)
            &&& if a.native_pc_total != 0 || a.native_coin_total != 0 {
                p.invocations.len() == 0 && p.trader == t
            } else if quote == 0 {
                &&& p.trader == (TraderState { status: TraderStatus::Stopped, ..t })
                &&& p.invocations == seq![
                    Invocation {
                        action: CpiAction::CloseAccount {
                            token_program: a.token_program,
                            account: a.base_trader_wallet,
                            destination: a.trader_owner,
                            owner: a.trader_signer,
                        },
                        signed: true,
                    },
                    Invocation {
                        action: CpiAction::CloseAccount {
                            token_program: a.token_program,
                            account: a.quote_trader_wallet,
                            destination: a.trader_owner,
                            owner: a.trader_signer,
                        },
                        signed: true,
                    },
                ]
            } else {
                &&& p.trader == t
                &&& p.invocations == seq![
                    Invocation {
                        action: CpiAction::Transfer {
                            token_program: a.token_program,
                            source: a.quote_trader_wallet,
                            destination: a.quote_owner_wallet,
                            authority: a.trader_signer,
                            amount: quote,
                        },
                        signed: true,
                    },
                    Invocation {
                        action: CpiAction::Transfer {
                            token_program: a.token_program,
                            source: a.base_trader_wallet,
                            destination: a.base_owner_wallet,
                            authority: a.trader_signer,
                            amount: base,
                        },
                        signed: true,
                    },
                ]
            }
        }),
{
}

/// An accepted update comes from the signing owner and replaces the profit
/// target, stop price and position limit with the instruction's, each in its
/// own field; everything else in the record stays.
pub proof fn lemma_update_replaces_parameters(a: TraderOwnerAccounts, ix: UpdateTrader)
    requires
        update_trader_outcome(a, ix) matches Some(Ok(_)),
    ensures
        ({
            &&& update_trader_outcome(a, ix) matches Some(Ok(n))
            &&& decoded_state(a.trader_data@) matches Some(t)
            &&& a.initializer_is_signer && t.owner == a.initializer
            &&& n.min_trade_profit == ix.trade_profit
            &&& n.stopping_price == ix.stopping_price
            &&& n.simultaneous_open_positions == ix.simultaneous_open_positions
            &&& n == (TraderState {
                min_trade_profit: n.min_trade_profit,
                stopping_price: n.stopping_price,
                simultaneous_open_positions: n.simultaneous_open_positions,
                ..t
            })
        }),
{
    let t = decoded_state(a.trader_data@)->0;
    assert(t.owner =~= a.initializer);
}

/// An accepted decommission comes from the signing owner and changes only the
/// status, to decommissioned.
pub proof fn lemma_decommission_only_marks(a: TraderOwnerAccounts)
    requires
        decommission_trader_outcome(a) matches Some(Ok(_)),
    ensures
        ({
            &&& decommission_trader_outcome(a) matches Some(Ok(n))
            &&& decoded_state(a.trader_data@) matches Some(t)
            &&& a.initializer_is_signer && t.owner == a.initializer
            &&& n == (TraderState { status: TraderStatus::Decommissioned, ..t })
        }),
{
    let t = decoded_state(a.trader_data@)->0;
    assert(t.owner =~= a.initializer);
}

} // verus!
