use vstd::prelude::*;
use crate::error::{TradeBotErrors, TradeBotResult};
use crate::wire::{
    append_bytes, append_words, lemma_concat_split, lemma_words_bytes_injective,
    lemma_words_bytes_len, read_array, read_words, words_bytes, words_to_array, Pubkey,
};

verus! {

/// The states a market can be in.
#[derive(Debug, Clone, PartialEq, Eq)]
pub enum MarketStatus {
    UnInitialized,
    Initialized,
    Paused,
    Stopped,
}

/// Opens a market for trading; it carries no data.
#[derive(Debug, PartialEq, Eq)]
pub struct InitializeTradeMarket {}

/// Closes a market.
#[derive(Debug, PartialEq, Eq)]
pub struct CloseTradeMarket {
    pub market_state: Pubkey,
    pub address: Pubkey,
}

/// An instruction with a fixed-size packed form: borsh's layout, in which each
/// `u64` is 8 little-endian bytes and arrays are laid out element by element.
pub trait TradeBotInstruction: Sized {
    /// The length of the packed form.
    spec fn packed_len() -> nat;

    /// The packed form of the instruction.
    spec fn packed(&self) -> Seq<u8>;

    proof fn lemma_packed_len(&self)
        ensures
            self.packed().len() == Self::packed_len(),
    ;

    proof fn lemma_packed_injective(&self, other: &Self)
        requires
            self.packed() == other.packed(),
        ensures
            *self == *other,
    ;

    /// Reads an instruction: the data must be exactly one packed instruction,
    /// otherwise the result is `InvalidInstruction`.
    fn unpack(data: &[u8]) -> (r: TradeBotResult<Box<Self>>)
        ensures
            r is Ok <==> data@.len() == Self::packed_len(),
            r matches Ok(ix) ==> (*ix).packed() == data@,
            r matches Err(e) ==> e == TradeBotErrors::InvalidInstruction,
    ;

    /// Writes the packed form of an instruction; this never fails.
    fn pack(to_pack: Self) -> (r: TradeBotResult<Vec<u8>>)
        ensures
            r matches Ok(bytes) && bytes@ == to_pack.packed(),
    ;
}

/// Packing and unpacking undo each other: the packed form of `x` has the length
/// that `unpack` accepts, and any instruction with the same packed form is `x`,
/// so `unpack(pack(x))` gives back `x`.
pub proof fn lemma_pack_unpack_roundtrip<T: TradeBotInstruction>(x: T, y: T)
    requires
        y.packed() == x.packed(),
    ensures
        x.packed().len() == T::packed_len(),
        y == x,
{
    x.lemma_packed_len();
    y.lemma_packed_injective(&x);
}

/// Registers a trader: its trading parameters and starting balances.
#[derive(Debug, PartialEq, Eq)]
pub struct RegisterTrader {
    pub trade_profit: u64,
    pub stopping_price: u64,
    pub starting_price_buy: u64,
    pub starting_price_sell: u64,
    pub simultaneous_open_positions: u64,
    pub starting_base_balance: u64,
    pub starting_quote_balance: u64,
    pub starting_value: u64,
    pub serum_open_orders_rent: u64,
    pub register_date: u64,
    pub padding: [u8; 16],
}

impl RegisterTrader {
    /// The 64-bit words of the packed form, in order.
    pub open spec fn words(&self) -> Seq<u64> {
        seq![self.trade_profit, self.stopping_price, self.starting_price_buy, self.starting_price_sell, self.simultaneous_open_positions, self.starting_base_balance, self.starting_quote_balance, self.starting_value, self.serum_open_orders_rent, self.register_date]
    }
}

impl TradeBotInstruction for RegisterTrader {
    open spec fn packed_len() -> nat {
        96
    }

    open spec fn packed(&self) -> Seq<u8> {
        words_bytes(self.words()) + self.padding@
    }

    proof fn lemma_packed_len(&self) {
        lemma_words_bytes_len(self.words());
    }

    proof fn lemma_packed_injective(&self, other: &Self) {
        broadcast use vstd::array::group_array_axioms;

        lemma_words_bytes_len(self.words());
        lemma_words_bytes_len(other.words());
        lemma_concat_split(words_bytes(self.words()), self.padding@, words_bytes(other.words()), other.padding@);
        lemma_words_bytes_injective(self.words(), other.words());
        assert(self.words()[0] == other.words()[0]);
        assert(self.words()[1] == other.words()[1]);
        assert(self.words()[2] == other.words()[2]);
        assert(self.words()[3] == other.words()[3]);
        assert(self.words()[4] == other.words()[4]);
        assert(self.words()[5] == other.words()[5]);
        assert(self.words()[6] == other.words()[6]);
        assert(self.words()[7] == other.words()[7]);
        assert(self.words()[8] == other.words()[8]);
        assert(self.words()[9] == other.words()[9]);
        assert(self.padding =~= other.padding);
    }

    fn unpack(data: &[u8]) -> (r: TradeBotResult<Box<Self>>) {
        if data.len() != 96 {
            return Err(TradeBotErrors::InvalidInstruction);
        }
        let ws = read_words(data, 0, 10);
        let tail = read_array::<16>(data, 80);
        let ix = RegisterTrader { trade_profit: ws[0], stopping_price: ws[1], starting_price_buy: ws[2], starting_price_sell: ws[3], simultaneous_open_positions: ws[4], starting_base_balance: ws[5], starting_quote_balance: ws[6], starting_value: ws[7], serum_open_orders_rent: ws[8], register_date: ws[9], padding: tail };
        proof {
            assert(ix.words() =~= ws@);
            assert(data@ =~= data@.subrange(0, 80) + data@.subrange(80, 96));
        }
        Ok(Box::new(ix))
    }

    fn pack(to_pack: Self) -> (r: TradeBotResult<Vec<u8>>) {
        let mut ws: Vec<u64> = Vec::new();
        ws.push(to_pack.trade_profit);
        ws.push(to_pack.stopping_price);
        ws.push(to_pack.starting_price_buy);
        ws.push(to_pack.starting_price_sell);
        ws.push(to_pack.simultaneous_open_positions);
        ws.push(to_pack.starting_base_balance);
        ws.push(to_pack.starting_quote_balance);
        ws.push(to_pack.starting_value);
        ws.push(to_pack.serum_open_orders_rent);
        ws.push(to_pack.register_date);
        let mut bytes: Vec<u8> = Vec::new();
        append_words(&mut bytes, ws.as_slice());
        append_bytes(&mut bytes, to_pack.padding.as_slice());
        proof {
            assert(ws@ =~= to_pack.words());
        }
        Ok(bytes)
    }
}

/// Changes a trader's profit target, stop price and position limit.
#[derive(Debug, PartialEq, Eq)]
pub struct UpdateTrader {
    pub trade_profit: u64,
    pub stopping_price: u64,
    pub simultaneous_open_positions: u64,
    pub _padding: [u8; 65],
}

impl UpdateTrader {
    /// The 64-bit words of the packed form, in order.
    pub open spec fn words(&self) -> Seq<u64> {
        seq![self.trade_profit, self.stopping_price, self.simultaneous_open_positions]
    }
}

impl TradeBotInstruction for UpdateTrader {
    open spec fn packed_len() -> nat {
        89
    }

    open spec fn packed(&self) -> Seq<u8> {
        words_bytes(self.words()) + self._padding@
    }

    proof fn lemma_packed_len(&self) {
        lemma_words_bytes_len(self.words());
    }

    proof fn lemma_packed_injective(&self, other: &Self) {
        broadcast use vstd::array::group_array_axioms;

        lemma_words_bytes_len(self.words());
        lemma_words_bytes_len(other.words());
        lemma_concat_split(words_bytes(self.words()), self._padding@, words_bytes(other.words()), other._padding@);
        lemma_words_bytes_injective(self.words(), other.words());
        assert(self.words()[0] == other.words()[0]);
        assert(self.words()[1] == other.words()[1]);
        assert(self.words()[2] == other.words()[2]);
        assert(self._padding =~= other._padding);
    }

    fn unpack(data: &[u8]) -> (r: TradeBotResult<Box<Self>>) {
        if data.len() != 89 {
            return Err(TradeBotErrors::InvalidInstruction);
        }
        let ws = read_words(data, 0, 3);
        let tail = read_array::<65>(data, 24);
        let ix = UpdateTrader { trade_profit: ws[0], stopping_price: ws[1], simultaneous_open_positions: ws[2], _padding: tail };
        proof {
            assert(ix.words() =~= ws@);
            assert(data@ =~= data@.subrange(0, 24) + data@.subrange(24, 89));
        }
        Ok(Box::new(ix))
    }

    fn pack(to_pack: Self) -> (r: TradeBotResult<Vec<u8>>) {
        let mut ws: Vec<u64> = Vec::new();
        ws.push(to_pack.trade_profit);
        ws.push(to_pack.stopping_price);
        ws.push(to_pack.simultaneous_open_positions);
        let mut bytes: Vec<u8> = Vec::new();
        append_words(&mut bytes, ws.as_slice());
        append_bytes(&mut bytes, to_pack._padding.as_slice());
        proof {
            assert(ws@ =~= to_pack.words());
        }
        Ok(bytes)
    }
}

/// Moves more base and quote tokens into a trader's wallets.
#[derive(Debug, PartialEq, Eq)]
pub struct Deposit {
    pub base_amount: u64,
    pub quote_amount: u64,
    pub _padding: [u64; 7],
}

impl Deposit {
    /// The 64-bit words of the packed form, in order.
    pub open spec fn words(&self) -> Seq<u64> {
        seq![self.base_amount, self.quote_amount] + self._padding@
    }
}

impl TradeBotInstruction for Deposit {
    open spec fn packed_len() -> nat {
        72
    }

    open spec fn packed(&self) -> Seq<u8> {
        words_bytes(self.words())
    }

    proof fn lemma_packed_len(&self) {
        lemma_words_bytes_len(self.words());
    }

    proof fn lemma_packed_injective(&self, other: &Self) {
        broadcast use vstd::array::group_array_axioms;

        lemma_words_bytes_len(self.words());
        lemma_words_bytes_len(other.words());
        lemma_words_bytes_injective(self.words(), other.words());
        assert(self.words()[0] == other.words()[0]);
        assert(self.words()[1] == other.words()[1]);
        assert forall|j: int| 0 <= j < 7 implies self._padding@[j] == other._padding@[j] by {
            assert(self.words()[2 + j] == other.words()[2 + j]);
        }
        assert(self._padding =~= other._padding);
    }

    fn unpack(data: &[u8]) -> (r: TradeBotResult<Box<Self>>) {
        if data.len() != 72 {
            return Err(TradeBotErrors::InvalidInstruction);
        }
        let ws = read_words(data, 0, 9);
        let pad = words_to_array::<7>(&ws, 2);
        let ix = Deposit { base_amount: ws[0], quote_amount: ws[1], _padding: pad };
        proof {
            assert(ix.words() =~= ws@);
            assert(data@ =~= data@.subrange(0, 72) + data@.subrange(72, 72));
        }
        Ok(Box::new(ix))
    }

    fn pack(to_pack: Self) -> (r: TradeBotResult<Vec<u8>>) {
        let mut ws: Vec<u64> = Vec::new();
        ws.push(to_pack.base_amount);
        ws.push(to_pack.quote_amount);
        ws.extend_from_slice(to_pack._padding.as_slice());
        let mut bytes: Vec<u8> = Vec::new();
        append_words(&mut bytes, ws.as_slice());
        proof {
            assert(ws@ =~= to_pack.words());
        }
        Ok(bytes)
    }
}

/// Marks a trader as decommissioned.
#[derive(Debug, PartialEq, Eq)]
pub struct DecommissionTrader {
    pub _padding: [u64; 7],
}

impl DecommissionTrader {
    /// The 64-bit words of the packed form, in order.
    pub open spec fn words(&self) -> Seq<u64> {
        self._padding@
    }
}

impl TradeBotInstruction for DecommissionTrader {
    open spec fn packed_len() -> nat {
        56
    }

    open spec fn packed(&self) -> Seq<u8> {
        words_bytes(self.words())
    }

    proof fn lemma_packed_len(&self) {
        lemma_words_bytes_len(self.words());
    }

    proof fn lemma_packed_injective(&self, other: &Self) {
        broadcast use vstd::array::group_array_axioms;

        lemma_words_bytes_len(self.words());
        lemma_words_bytes_len(other.words());
        lemma_words_bytes_injective(self.words(), other.words());
        assert forall|j: int| 0 <= j < 7 implies self._padding@[j] == other._padding@[j] by {
            assert(self.words()[0 + j] == other.words()[0 + j]);
        }
        assert(self._padding =~= other._padding);
    }

    fn unpack(data: &[u8]) -> (r: TradeBotResult<Box<Self>>) {
        if data.len() != 56 {
            return Err(TradeBotErrors::InvalidInstruction);
        }
        let ws = read_words(data, 0, 7);
        let pad = words_to_array::<7>(&ws, 0);
        let ix = DecommissionTrader { _padding: pad };
        proof {
            assert(ix.words() =~= ws@);
            assert(data@ =~= data@.subrange(0, 56) + data@.subrange(56, 56));
        }
        Ok(Box::new(ix))
    }

    fn pack(to_pack: Self) -> (r: TradeBotResult<Vec<u8>>) {
        let mut ws: Vec<u64> = Vec::new();
        ws.extend_from_slice(to_pack._padding.as_slice());
        let mut bytes: Vec<u8> = Vec::new();
        append_words(&mut bytes, ws.as_slice());
        proof {
            assert(ws@ =~= to_pack.words());
        }
        Ok(bytes)
    }
}

/// Places one pair of buy and sell orders for a trader.
#[derive(Debug, PartialEq, Eq)]
pub struct Trade {
    pub _padding: [u8; 128],
}

impl Trade {
    /// The 64-bit words of the packed form, in order.
    pub open spec fn words(&self) -> Seq<u64> {
        Seq::empty()
    }
}

impl TradeBotInstruction for Trade {
    open spec fn packed_len() -> nat {
        128
    }

    open spec fn packed(&self) -> Seq<u8> {
        words_bytes(self.words()) + self._padding@
    }

    proof fn lemma_packed_len(&self) {
        lemma_words_bytes_len(self.words());
    }

    proof fn lemma_packed_injective(&self, other: &Self) {
        broadcast use vstd::array::group_array_axioms;

        lemma_words_bytes_len(self.words());
        lemma_words_bytes_len(other.words());
        lemma_concat_split(words_bytes(self.words()), self._padding@, words_bytes(other.words()), other._padding@);
        lemma_words_bytes_injective(self.words(), other.words());
        assert(self._padding =~= other._padding);
    }

    fn unpack(data: &[u8]) -> (r: TradeBotResult<Box<Self>>) {
        if data.len() != 128 {
            return Err(TradeBotErrors::InvalidInstruction);
        }
        let ws = read_words(data, 0, 0);
        let tail = read_array::<128>(data, 0);
        let ix = Trade { _padding: tail };
        proof {
            assert(ix.words() =~= ws@);
            assert(data@ =~= data@.subrange(0, 0) + data@.subrange(0, 128));
        }
        Ok(Box::new(ix))
    }

    fn pack(to_pack: Self) -> (r: TradeBotResult<Vec<u8>>) {
        let mut ws: Vec<u64> = Vec::new();
        let mut bytes: Vec<u8> = Vec::new();
        append_words(&mut bytes, ws.as_slice());
        append_bytes(&mut bytes, to_pack._padding.as_slice());
        proof {
            assert(ws@ =~= to_pack.words());
        }
        Ok(bytes)
    }
}

/// Settles a trader's funds on the market and refreshes its balances.
#[derive(Debug, PartialEq, Eq)]
pub struct Settle {
    pub _padding: [u64; 10],
}

impl Settle {
    /// The 64-bit words of the packed form, in order.
    pub open spec fn words(&self) -> Seq<u64> {
        self._padding@
    }
}

impl TradeBotInstruction for Settle {
    open spec fn packed_len() -> nat {
        80
    }

    open spec fn packed(&self) -> Seq<u8> {
        words_bytes(self.words())
    }

    proof fn lemma_packed_len(&self) {
        lemma_words_bytes_len(self.words());
    }

    proof fn lemma_packed_injective(&self, other: &Self) {
        broadcast use vstd::array::group_array_axioms;

        lemma_words_bytes_len(self.words());
        lemma_words_bytes_len(other.words());
        lemma_words_bytes_injective(self.words(), other.words());
        assert forall|j: int| 0 <= j < 10 implies self._padding@[j] == other._padding@[j] by {
            assert(self.words()[0 + j] == other.words()[0 + j]);
        }
        assert(self._padding =~= other._padding);
    }

    fn unpack(data: &[u8]) -> (r: TradeBotResult<Box<Self>>) {
        if data.len() != 80 {
            return Err(TradeBotErrors::InvalidInstruction);
        }
        let ws = read_words(data, 0, 10);
        let pad = words_to_array::<10>(&ws, 0);
        let ix = Settle { _padding: pad };
        proof {
            assert(ix.words() =~= ws@);
            assert(data@ =~= data@.subrange(0, 80) + data@.subrange(80, 80));
        }
        Ok(Box::new(ix))
    }

    fn pack(to_pack: Self) -> (r: TradeBotResult<Vec<u8>>) {
        let mut ws: Vec<u64> = Vec::new();
        ws.extend_from_slice(to_pack._padding.as_slice());
        let mut bytes: Vec<u8> = Vec::new();
        append_words(&mut bytes, ws.as_slice());
        proof {
            assert(ws@ =~= to_pack.words());
        }
        Ok(bytes)
    }
}

/// Winds down a decommissioned trader.
#[derive(Debug, PartialEq, Eq)]
pub struct CleanUp {
    pub _padding: [u64; 20],
}

impl CleanUp {
    /// The 64-bit words of the packed form, in order.
    pub open spec fn words(&self) -> Seq<u64> {
        self._padding@
    }
}

impl TradeBotInstruction for CleanUp {
    open spec fn packed_len() -> nat {
        160
    }

    open spec fn packed(&self) -> Seq<u8> {
        words_bytes(self.words())
    }

    proof fn lemma_packed_len(&self) {
        lemma_words_bytes_len(self.words());
    }

    proof fn lemma_packed_injective(&self, other: &Self) {
        broadcast use vstd::array::group_array_axioms;

        lemma_words_bytes_len(self.words());
        lemma_words_bytes_len(other.words());
        lemma_words_bytes_injective(self.words(), other.words());
        assert forall|j: int| 0 <= j < 20 implies self._padding@[j] == other._padding@[j] by {
            assert(self.words()[0 + j] == other.words()[0 + j]);
        }
        assert(self._padding =~= other._padding);
    }

    fn unpack(data: &[u8]) -> (r: TradeBotResult<Box<Self>>) {
        if data.len() != 160 {
            return Err(TradeBotErrors::InvalidInstruction);
        }
        let ws = read_words(data, 0, 20);
        let pad = words_to_array::<20>(&ws, 0);
        let ix = CleanUp { _padding: pad };
        proof {
            assert(ix.words() =~= ws@);
            assert(data@ =~= data@.subrange(0, 160) + data@.subrange(160, 160));
        }
        Ok(Box::new(ix))
    }

    fn pack(to_pack: Self) -> (r: TradeBotResult<Vec<u8>>) {
        let mut ws: Vec<u64> = Vec::new();
        ws.extend_from_slice(to_pack._padding.as_slice());
        let mut bytes: Vec<u8> = Vec::new();
        append_words(&mut bytes, ws.as_slice());
        proof {
            assert(ws@ =~= to_pack.words());
        }
        Ok(bytes)
    }
}

} // verus!
