use vstd::prelude::*;
use solana_program::program_error::ProgramError;
use crate::error::{program_error_from_code, program_error_of, INVALID_ACCOUNT_DATA};
use crate::wire::{
    append_bytes, append_words, lemma_concat_split, lemma_words_bytes_injective,
    lemma_words_bytes_len, read_key, read_words, words_bytes, words_to_array, Pubkey,
};

verus! {

/// The life cycle of a trader.
#[derive(Debug, Clone, Copy, PartialEq, Eq)]
pub enum TraderStatus {
    Registered,
    Initialized,
    Decommissioned,
    Stopped,
}

/// The byte that stands for a status in the packed form (its variant index).
pub open spec fn status_tag(s: TraderStatus) -> u8 {
    match s {
        TraderStatus::Registered => 0,
        TraderStatus::Initialized => 1,
        TraderStatus::Decommissioned => 2,
        TraderStatus::Stopped => 3,
    }
}

/// The on-chain record of one trader.
#[derive(Debug, Clone, Copy, PartialEq, Eq)]
pub struct TraderState {
    pub market_address: Pubkey,
    pub base_trader_wallet: Pubkey,
    pub quote_trader_wallet: Pubkey,
    pub serum_open_orders: Pubkey,
    pub trader_signer: Pubkey,
    pub owner: Pubkey,
    pub min_trade_profit: u64,
    pub stopping_price: u64,
    pub starting_price_buy: u64,
    pub starting_price_sell: u64,
    pub simultaneous_open_positions: u64,
    pub starting_base_balance: u64,
    pub starting_quote_balance: u64,
    pub deposited_base_balance: u64,
    pub deposited_quote_balance: u64,
    pub withdrawn_base_balance: u64,
    pub withdrawn_quote_balance: u64,
    pub starting_value: u64,
    pub base_balance: u64,
    pub quote_balance: u64,
    pub value: u64,
    pub open_order_pairs: u64,
    pub total_txs: u64,
    pub register_date: u64,
    pub status: TraderStatus,
    pub _padding: [u64; 17],
}

/// The size of a trader account's data.
pub const TRADER_SPAN: u64 = 473;

/// The length of a packed `TraderState`.
pub const TRADER_STATE_LEN: usize = 473;

/// Offset of the status byte in the packed form: six keys and eighteen words.
pub const STATUS_OFFSET: usize = 336;

/// Data that holds a packed `TraderState` at its start: long enough, and with
/// a status byte that names a status.
pub open spec fn state_prefix_decodes(data: Seq<u8>) -> bool {
    data.len() >= TRADER_STATE_LEN && data[STATUS_OFFSET as int] <= 3
}

/// Data that is exactly one packed `TraderState`.
pub open spec fn state_decodes(data: Seq<u8>) -> bool {
    data.len() == TRADER_STATE_LEN && state_prefix_decodes(data)
}

/// The trader state whose packed form is `data`, if there is one.
pub open spec fn decoded_state(data: Seq<u8>) -> Option<TraderState> {
    if state_decodes(data) {
        Some(choose|s: TraderState| s.packed() == data)
    } else {
        None
    }
}

impl TraderState {
    /// The 64-bit fields between the keys and the status, in order.
    pub open spec fn words(&self) -> Seq<u64> {
        seq![
            self.min_trade_profit,
            self.stopping_price,
            self.starting_price_buy,
            self.starting_price_sell,
            self.simultaneous_open_positions,
            self.starting_base_balance,
            self.starting_quote_balance,
            self.deposited_base_balance,
            self.deposited_quote_balance,
            self.withdrawn_base_balance,
            self.withdrawn_quote_balance,
            self.starting_value,
            self.base_balance,
            self.quote_balance,
            self.value,
            self.open_order_pairs,
            self.total_txs,
            self.register_date,
        ]
    }

    /// The six keys, one after another.
    pub open spec fn keys_bytes(&self) -> Seq<u8> {
        self.market_address@ + self.base_trader_wallet@ + self.quote_trader_wallet@
            + self.serum_open_orders@ + self.trader_signer@ + self.owner@
    }

    /// The packed (borsh) form: keys, words, status byte, padding words.
    pub open spec fn packed(&self) -> Seq<u8> {
        self.keys_bytes() + words_bytes(self.words()) + seq![status_tag(self.status)]
            + words_bytes(self._padding@)
    }

    pub proof fn lemma_packed_len(&self)
        ensures
            self.packed().len() == TRADER_STATE_LEN,
            self.packed()[STATUS_OFFSET as int] == status_tag(self.status),
            state_decodes(self.packed()),
    {
        lemma_words_bytes_len(self.words());
        lemma_words_bytes_len(self._padding@);
    }

    pub proof fn lemma_packed_injective(&self, other: &Self)
        requires
            self.packed() == other.packed(),
        ensures
            *self == *other,
    {
        broadcast use vstd::array::group_array_axioms;

        lemma_words_bytes_len(self.words());
        lemma_words_bytes_len(other.words());
        lemma_words_bytes_len(self._padding@);
        lemma_words_bytes_len(other._padding@);
        let a = self.keys_bytes() + words_bytes(self.words()) + seq![status_tag(self.status)];
        let b = other.keys_bytes() + words_bytes(other.words()) + seq![status_tag(other.status)];
        lemma_concat_split(a, words_bytes(self._padding@), b, words_bytes(other._padding@));
        lemma_concat_split(
            self.keys_bytes() + words_bytes(self.words()),
            seq![status_tag(self.status)],
            other.keys_bytes() + words_bytes(other.words()),
            seq![status_tag(other.status)],
        );
        lemma_concat_split(
            self.keys_bytes(),
            words_bytes(self.words()),
            other.keys_bytes(),
            words_bytes(other.words()),
        );
        lemma_words_bytes_injective(self.words(), other.words());
        lemma_words_bytes_injective(self._padding@, other._padding@);
        assert(status_tag(self.status) == seq![status_tag(self.status)][0]);
        assert(status_tag(other.status) == seq![status_tag(other.status)][0]);
        let ka = self.keys_bytes();
        let kb = other.keys_bytes();
        assert(self.market_address@ =~= ka.subrange(0, 32));
        assert(other.market_address@ =~= kb.subrange(0, 32));
        assert(self.base_trader_wallet@ =~= ka.subrange(32, 64));
        assert(other.base_trader_wallet@ =~= kb.subrange(32, 64));
        assert(self.quote_trader_wallet@ =~= ka.subrange(64, 96));
        assert(other.quote_trader_wallet@ =~= kb.subrange(64, 96));
        assert(self.serum_open_orders@ =~= ka.subrange(96, 128));
        assert(other.serum_open_orders@ =~= kb.subrange(96, 128));
        assert(self.trader_signer@ =~= ka.subrange(128, 160));
        assert(other.trader_signer@ =~= kb.subrange(128, 160));
        assert(self.owner@ =~= ka.subrange(160, 192));
        assert(other.owner@ =~= kb.subrange(160, 192));
        assert(self.market_address =~= other.market_address);
        assert(self.base_trader_wallet =~= other.base_trader_wallet);
        assert(self.quote_trader_wallet =~= other.quote_trader_wallet);
        assert(self.serum_open_orders =~= other.serum_open_orders);
        assert(self.trader_signer =~= other.trader_signer);
        assert(self.owner =~= other.owner);
        assert(self._padding =~= other._padding);
        let wa = self.words();
        let wb = other.words();
        assert(wa[0] == wb[0] && wa[1] == wb[1] && wa[2] == wb[2] && wa[3] == wb[3]);
        assert(wa[4] == wb[4] && wa[5] == wb[5] && wa[6] == wb[6] && wa[7] == wb[7]);
        assert(wa[8] == wb[8] && wa[9] == wb[9] && wa[10] == wb[10] && wa[11] == wb[11]);
        assert(wa[12] == wb[12] && wa[13] == wb[13] && wa[14] == wb[14] && wa[15] == wb[15]);
        assert(wa[16] == wb[16] && wa[17] == wb[17]);
    }

    /// The packed form of a state is decoded back to that state.
    pub proof fn lemma_decoded_packed(&self)
        ensures
            decoded_state(self.packed()) == Some(*self),
    {
        self.lemma_packed_len();
        let s = choose|s: TraderState| s.packed() == self.packed();
        s.lemma_packed_injective(self);
    }

    /// Reads the packed state at the start of `src`; bytes after it are ignored.
    /// A status byte above 3, or too little data, gives `InvalidAccountData`.
    pub fn unpack_from_slice(src: &[u8]) -> (r: Result<TraderState, ProgramError>)
        ensures
            r is Ok <==> state_prefix_decodes(src@),
            r matches Ok(s) ==> s.packed() == src@.subrange(0, TRADER_STATE_LEN as int),
            r matches Err(e) ==> e == program_error_of(INVALID_ACCOUNT_DATA),
    {
        if src.len() < TRADER_STATE_LEN {
            return Err(program_error_from_code(INVALID_ACCOUNT_DATA));
        }
        let status = match src[STATUS_OFFSET] {
            0 => TraderStatus::Registered,
            1 => TraderStatus::Initialized,
            2 => TraderStatus::Decommissioned,
            3 => TraderStatus::Stopped,
            _ => {
                return Err(program_error_from_code(INVALID_ACCOUNT_DATA));
            },
        };
        let market_address = read_key(src, 0);
        let base_trader_wallet = read_key(src, 32);
        let quote_trader_wallet = read_key(src, 64);
        let serum_open_orders = read_key(src, 96);
        let trader_signer = read_key(src, 128);
        let owner = read_key(src, 160);
        let ws = read_words(src, 192, 18);
        let pw = read_words(src, 337, 17);
        let padding = words_to_array::<17>(&pw, 0);
        let s = TraderState {
            market_address,
            base_trader_wallet,
            quote_trader_wallet,
            serum_open_orders,
            trader_signer,
            owner,
            min_trade_profit: ws[0],
            stopping_price: ws[1],
            starting_price_buy: ws[2],
            starting_price_sell: ws[3],
            simultaneous_open_positions: ws[4],
            starting_base_balance: ws[5],
            starting_quote_balance: ws[6],
            deposited_base_balance: ws[7],
            deposited_quote_balance: ws[8],
            withdrawn_base_balance: ws[9],
            withdrawn_quote_balance: ws[10],
            starting_value: ws[11],
            base_balance: ws[12],
            quote_balance: ws[13],
            value: ws[14],
            open_order_pairs: ws[15],
            total_txs: ws[16],
            register_date: ws[17],
            status,
            _padding: padding,
        };
        proof {
            assert(s.words() =~= ws@);
            assert(s._padding@ =~= pw@);
            let d = src@;
            assert(s.keys_bytes() =~= d.subrange(0, 192));
            assert(seq![status_tag(s.status)] =~= d.subrange(336, 337));
            assert(d.subrange(0, 473) =~= d.subrange(0, 192) + d.subrange(192, 336) + d.subrange(
                336,
                337,
            ) + d.subrange(337, 473));
        }
        Ok(s)
    }

    /// `Pack::unpack`: the data must be exactly one packed state.
    pub fn unpack(input: &[u8]) -> (r: Result<TraderState, ProgramError>)
        ensures
            r is Ok <==> state_decodes(input@),
            r matches Ok(s) ==> s.packed() == input@ && decoded_state(input@) == Some(s),
            r matches Err(e) ==> e == program_error_of(INVALID_ACCOUNT_DATA),
    {
        if input.len() != TRADER_STATE_LEN {
            return Err(program_error_from_code(INVALID_ACCOUNT_DATA));
        }
        let r = Self::unpack_from_slice(input);
        match r {
            Ok(s) => {
                proof {
                    assert(input@.subrange(0, TRADER_STATE_LEN as int) =~= input@);
                    s.lemma_decoded_packed();
                }
                if s.is_initialized() {
                    Ok(s)
                } else {
                    Err(program_error_from_code(INVALID_ACCOUNT_DATA))
                }
            },
            Err(e) => Err(e),
        }
    }

    /// The packed form as a new byte vector.
    pub fn to_bytes(&self) -> (bytes: Vec<u8>)
        ensures
            bytes@ == self.packed(),
    {
        let mut bytes: Vec<u8> = Vec::new();
        append_bytes(&mut bytes, self.market_address.as_slice());
        append_bytes(&mut bytes, self.base_trader_wallet.as_slice());
        append_bytes(&mut bytes, self.quote_trader_wallet.as_slice());
        append_bytes(&mut bytes, self.serum_open_orders.as_slice());
        append_bytes(&mut bytes, self.trader_signer.as_slice());
        append_bytes(&mut bytes, self.owner.as_slice());
        let mut ws: Vec<u64> = Vec::new();
        ws.push(self.min_trade_profit);
        ws.push(self.stopping_price);
        ws.push(self.starting_price_buy);
        ws.push(self.starting_price_sell);
        ws.push(self.simultaneous_open_positions);
        ws.push(self.starting_base_balance);
        ws.push(self.starting_quote_balance);
        ws.push(self.deposited_base_balance);
        ws.push(self.deposited_quote_balance);
        ws.push(self.withdrawn_base_balance);
        ws.push(self.withdrawn_quote_balance);
        ws.push(self.starting_value);
        ws.push(self.base_balance);
        ws.push(self.quote_balance);
        ws.push(self.value);
        ws.push(self.open_order_pairs);
        ws.push(self.total_txs);
        ws.push(self.register_date);
        append_words(&mut bytes, ws.as_slice());
        let tag: u8 = match self.status {
            TraderStatus::Registered => 0,
            TraderStatus::Initialized => 1,
            TraderStatus::Decommissioned => 2,
            TraderStatus::Stopped => 3,
        };
        bytes.push(tag);
        append_words(&mut bytes, self._padding.as_slice());
        proof {
            assert(ws@ =~= self.words());
        }
        bytes
    }

    /// Writes the packed state over the start of `dst`; the rest of `dst` is kept.
    pub fn pack_into_slice(&self, dst: &mut [u8])
        requires
            old(dst)@.len() >= TRADER_STATE_LEN,
        ensures
            final(dst)@ == self.packed() + old(dst)@.subrange(TRADER_STATE_LEN as int, old(dst)@.len() as int),
    {
        let bytes = self.to_bytes();
        proof {
            self.lemma_packed_len();
        }
        let ghost start = dst@;
        let len = dst.len();
        let mut i: usize = 0;
        while i < TRADER_STATE_LEN
            invariant
                i <= TRADER_STATE_LEN,
                bytes@ == self.packed(),
                bytes@.len() == TRADER_STATE_LEN,
                dst@.len() == start.len(),
                len == start.len(),
                len >= TRADER_STATE_LEN,
                forall|j: int| 0 <= j < i ==> dst@[j] == bytes@[j],
                forall|j: int| i <= j < start.len() ==> dst@[j] == start[j],
            decreases TRADER_STATE_LEN - i,
        {
            dst[i] = bytes[i];
            i = i + 1;
        }
        assert(dst@ =~= self.packed() + start.subrange(TRADER_STATE_LEN as int, start.len() as int));
    }

    /// `Pack::pack`: the destination must be exactly as long as a packed state,
    /// otherwise it is left alone and the result is `InvalidAccountData`.
    pub fn pack(src: TraderState, dst: &mut [u8]) -> (r: Result<(), ProgramError>)
        ensures
            r is Ok <==> old(dst)@.len() == TRADER_STATE_LEN,
            r is Ok ==> final(dst)@ == src.packed(),
            r matches Err(e) ==> e == program_error_of(INVALID_ACCOUNT_DATA) && final(dst)@ == old(dst)@,
    {
        if dst.len() != TRADER_STATE_LEN {
            return Err(program_error_from_code(INVALID_ACCOUNT_DATA));
        }
        src.pack_into_slice(dst);
        assert(dst@ =~= src.packed());
        Ok(())
    }

    /// Every trader record counts as initialized.
    pub fn is_initialized(&self) -> (r: bool)
        ensures
            r,
    {
        true
    }
}

} // verus!
