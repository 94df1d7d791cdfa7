//! Mathematical model of a bridge instance: the abstract state, the
//! decision and transition functions that every operation is specified
//! against, and the arithmetic facts behind the fee computation.

use vstd::prelude::*;

use crate::types::BridgeError;
use crate::types::BridgeSendTx;
use crate::types::Bytes32;
use crate::types::ChainData;
use crate::types::FulfillOutcome;
use crate::types::Pubkey;
use crate::types::SendOutcome;
use crate::types::MAX_FEE;

verus! {

/// Abstract state of one bridge instance: its parameters, the chain
/// registry, each user's outbound nonce, the outbound transfer records
/// keyed by (user, nonce), and the set of claimed inbound replay guards
/// keyed by (source chain, remote nonce).
#[verifier::ext_equal]
pub ghost struct BridgeView {
    pub fee_send: u16,
    pub fee_fulfill: u16,
    pub limit_send: u64,
    pub fee_recipient: Seq<u8>,
    pub paused: bool,
    pub chains: Map<Seq<u8>, ChainData>,
    pub nonces: Map<Seq<u8>, u64>,
    pub records: Map<(Seq<u8>, u64), BridgeSendTx>,
    pub fulfilled: Set<(Seq<u8>, u64)>,
}

/// Validation shared by `initialize` and `set_params`: each fee must be
/// strictly below 100%, the send fee checked first.
pub open spec fn params_error(fee_send: u16, fee_fulfill: u16) -> Option<BridgeError> {
    if fee_send >= MAX_FEE {
        Some(BridgeError::SendFeeTooHigh)
    } else if fee_fulfill >= MAX_FEE {
        Some(BridgeError::FulfillFeeTooHigh)
    } else {
        None
    }
}

/// The fee on a converted amount: `floor(converted * bps / MAX_FEE)`.
pub open spec fn spec_fee(converted: int, bps: u16) -> int {
    converted * bps / (MAX_FEE as int)
}

/// The state of a freshly initialized instance: parameters set, no chain
/// registered, no send performed, no inbound transfer fulfilled.
pub open spec fn initial_view(
    fee_send: u16,
    fee_fulfill: u16,
    limit_send: u64,
    fee_recipient: Seq<u8>,
    paused: bool,
) -> BridgeView {
    BridgeView {
        fee_send,
        fee_fulfill,
        limit_send,
        fee_recipient,
        paused,
        chains: Map::empty(),
        nonces: Map::empty(),
        records: Map::empty(),
        fulfilled: Set::empty(),
    }
}

impl BridgeView {
    /// A chain can be bridged to or from only while its registry entry
    /// exists and is enabled.
    pub open spec fn chain_enabled(self, chain: Seq<u8>) -> bool {
        self.chains.contains_key(chain) && self.chains[chain].enabled
    }

    /// The exchange-rate multiplier of a registered chain.
    pub open spec fn rate_of(self, chain: Seq<u8>) -> u64 {
        self.chains[chain].exchange_rate_from
    }

    /// A user's next outbound nonce; 0 before the user's first send.
    pub open spec fn nonce_of(self, user: Seq<u8>) -> u64 {
        if self.nonces.contains_key(user) {
            self.nonces[user]
        } else {
            0
        }
    }

    /// Internal consistency: fees are below 100%, every registered rate
    /// is non-zero, and each user's records are exactly the nonces
    /// `0 .. nonce_of(user)`, each carrying its own key.
    pub open spec fn wf(self) -> bool {
        &&& self.fee_send < MAX_FEE
        &&& self.fee_fulfill < MAX_FEE
        &&& forall|c: Seq<u8>|
            #[trigger] self.chains.contains_key(c) ==> self.chains[c].exchange_rate_from > 0
        &&& forall|u: Seq<u8>, n: u64|
            #[trigger] self.records.contains_key((u, n)) <==> n < self.nonce_of(u)
        &&& forall|u: Seq<u8>, n: u64|
            #[trigger] self.records.contains_key((u, n)) ==> self.records[(u, n)].initiator@ == u
                && self.records[(u, n)].nonce == n
    }

    /// The state after `set_params`.
    pub open spec fn set_params_next(
        self,
        fee_send: u16,
        fee_fulfill: u16,
        limit_send: u64,
        fee_recipient: Seq<u8>,
        paused: bool,
    ) -> BridgeView {
        BridgeView { fee_send, fee_fulfill, limit_send, fee_recipient, paused, ..self }
    }

    /// Why `set_chain_data` rejects a request: a zero exchange rate.
    pub open spec fn set_chain_error(self, exchange_rate_from: u64) -> Option<BridgeError> {
        if exchange_rate_from == 0 {
            Some(BridgeError::ExchangeRateZero)
        } else {
            None
        }
    }

    /// The state after `set_chain_data`: the entry is created or
    /// overwritten in place.
    pub open spec fn set_chain_next(
        self,
        chain: Seq<u8>,
        enabled: bool,
        exchange_rate_from: u64,
    ) -> BridgeView {
        BridgeView {
            chains: self.chains.insert(chain, ChainData { enabled, exchange_rate_from }),
            ..self
        }
    }

    /// Why `send` rejects a request, checked in this order: the pause
    /// flag, the destination chain's registry entry, the per-transaction
    /// limit, divisibility by the exchange rate (so that no fraction is
    /// silently lost), and a floor on the converted amount that keeps
    /// the fee non-zero whenever a fee rate is configured.
    pub open spec fn send_error(self, to_chain: Seq<u8>, amount: u64) -> Option<BridgeError> {
        if self.paused {
            Some(BridgeError::BridgePaused)
        } else if !self.chain_enabled(to_chain) {
            Some(BridgeError::ChainDisabled)
        } else if amount > self.limit_send {
            Some(BridgeError::SendLimitExceeded)
        } else if (amount as int % self.rate_of(to_chain) as int) != 0 {
            Some(BridgeError::AmountUneven)
        } else if (amount as int / self.rate_of(to_chain) as int) < MAX_FEE as int {
            Some(BridgeError::AmountTooLow)
        } else {
            None
        }
    }

    /// The amount of a send in destination-chain units.
    pub open spec fn send_converted(self, to_chain: Seq<u8>, amount: u64) -> int {
        amount as int / self.rate_of(to_chain) as int
    }

    /// The fee taken from a send, in destination-chain units.
    pub open spec fn send_fee(self, to_chain: Seq<u8>, amount: u64) -> int {
        spec_fee(self.send_converted(to_chain, amount), self.fee_send)
    }

    /// What a send delivers on the destination chain, after the fee.
    pub open spec fn send_taxed(self, to_chain: Seq<u8>, amount: u64) -> int {
        self.send_converted(to_chain, amount) - self.send_fee(to_chain, amount)
    }

    /// The record a successful send writes at the user's current nonce.
    pub open spec fn send_record(
        self,
        user: Pubkey,
        amount: u64,
        to: Bytes32,
        to_chain: Bytes32,
        timestamp: i64,
        block: u64,
    ) -> BridgeSendTx {
        BridgeSendTx {
            initiator: user,
            amount: self.send_taxed(to_chain@, amount) as u64,
            to,
            nonce: self.nonce_of(user@),
            timestamp,
            to_chain,
            block,
        }
    }

    /// The amounts a successful send reports: `deposit + fee_deposit`
    /// is exactly the amount taken from the user.
    pub open spec fn send_outcome(self, user: Seq<u8>, to_chain: Seq<u8>, amount: u64) -> SendOutcome {
        SendOutcome {
            nonce: self.nonce_of(user),
            converted: self.send_converted(to_chain, amount) as u64,
            fee: self.send_fee(to_chain, amount) as u64,
            amount_taxed: self.send_taxed(to_chain, amount) as u64,
            deposit: (self.send_taxed(to_chain, amount) * self.rate_of(to_chain) as int) as u64,
            fee_deposit: (self.send_fee(to_chain, amount) * self.rate_of(to_chain) as int) as u64,
        }
    }

    /// The state after a successful send: the record is written at the
    /// user's current nonce and the nonce advances by exactly one.
    /// Nothing else changes.
    pub open spec fn send_next(
        self,
        user: Pubkey,
        amount: u64,
        to: Bytes32,
        to_chain: Bytes32,
        timestamp: i64,
        block: u64,
    ) -> BridgeView {
        BridgeView {
            nonces: self.nonces.insert(user@, (self.nonce_of(user@) + 1) as u64),
            records: self.records.insert(
                (user@, self.nonce_of(user@)),
                self.send_record(user, amount, to, to_chain, timestamp, block),
            ),
            ..self
        }
    }

    /// The amount of an inbound transfer in home-chain units: inbound
    /// conversion multiplies where the outbound one divides.
    pub open spec fn fulfill_converted(self, from_chain: Seq<u8>, amount: u64) -> int {
        amount as int * self.rate_of(from_chain) as int
    }

    /// The fee taken from a fulfillment, in home-chain units.
    pub open spec fn fulfill_fee(self, from_chain: Seq<u8>, amount: u64) -> int {
        spec_fee(self.fulfill_converted(from_chain, amount), self.fee_fulfill)
    }

    /// What a fulfillment pays out, after the fee.
    pub open spec fn fulfill_taxed(self, from_chain: Seq<u8>, amount: u64) -> int {
        self.fulfill_converted(from_chain, amount) - self.fulfill_fee(from_chain, amount)
    }

    /// Why `fulfill` rejects a request, checked in this order: the pause
    /// flag, the source chain's registry entry, a zero payout, and the
    /// replay guard — a guard already claimed for this (source chain,
    /// remote nonce) key is the double-spend defense.
    pub open spec fn fulfill_error(
        self,
        from_chain: Seq<u8>,
        remote_nonce: u64,
        amount: u64,
    ) -> Option<BridgeError> {
        if self.paused {
            Some(BridgeError::BridgePaused)
        } else if !self.chain_enabled(from_chain) {
            Some(BridgeError::ChainDisabled)
        } else if self.fulfill_taxed(from_chain, amount) == 0 {
            Some(BridgeError::AmountTooLow)
        } else if self.fulfilled.contains((from_chain, remote_nonce)) {
            Some(BridgeError::DuplicateFulfillment)
        } else {
            None
        }
    }

    /// The amounts a successful fulfillment pays out of custody.
    pub open spec fn fulfill_outcome(self, from_chain: Seq<u8>, amount: u64) -> FulfillOutcome {
        FulfillOutcome {
            converted: self.fulfill_converted(from_chain, amount) as u64,
            fee: self.fulfill_fee(from_chain, amount) as u64,
            amount_taxed: self.fulfill_taxed(from_chain, amount) as u64,
        }
    }

    /// The state after a successful fulfillment: the replay guard is
    /// claimed; nothing else changes.
    pub open spec fn fulfill_next(self, from_chain: Seq<u8>, remote_nonce: u64) -> BridgeView {
        BridgeView { fulfilled: self.fulfilled.insert((from_chain, remote_nonce)), ..self }
    }
}

/// Why `withdraw` rejects a request: an empty custody account. There is
/// no partial withdraw; success moves the entire balance.
pub open spec fn withdraw_error(custody_balance: u64) -> Option<BridgeError> {
    if custody_balance == 0 {
        Some(BridgeError::WithdrawZero)
    } else {
        None
    }
}

/// Bounds on the fee: it never exceeds the converted amount, is strictly
/// below it whenever the amount is positive, and `fee * MAX_FEE` never
/// exceeds `converted * bps` — the fee stays below the configured
/// fraction of the converted amount.
pub proof fn lemma_fee_bounds(converted: int, bps: u16)
    requires
        0 <= converted,
        bps < MAX_FEE,
    ensures
        0 <= spec_fee(converted, bps) <= converted,
        converted > 0 ==> spec_fee(converted, bps) < converted,
        spec_fee(converted, bps) * (MAX_FEE as int) <= converted * (bps as int),
{
    let b = bps as int;
    let m = MAX_FEE as int;
    let p = converted * b;
    let f = p / m;
    vstd::arithmetic::mul::lemma_mul_nonnegative(converted, b);
    vstd::arithmetic::div_mod::lemma_fundamental_div_mod(p, m);
    vstd::arithmetic::div_mod::lemma_remainder_lower(p, m);
    assert(m * f <= p);
    vstd::arithmetic::div_mod::lemma_div_pos_is_pos(p, m);
    assert(p <= converted * (m - 1)) by {
        vstd::arithmetic::mul::lemma_mul_inequality(b, m - 1, converted);
        vstd::arithmetic::mul::lemma_mul_is_commutative(b, converted);
        vstd::arithmetic::mul::lemma_mul_is_commutative(m - 1, converted);
    }
    assert(f <= converted) by (nonlinear_arith)
        requires
            m * f <= converted * (m - 1),
            0 <= converted,
            0 < m,
    ;
    if converted > 0 {
        assert(f < converted) by (nonlinear_arith)
            requires
                m * f <= converted * (m - 1),
                0 < converted,
                0 < m,
        ;
    }
    vstd::arithmetic::mul::lemma_mul_is_commutative(m, f);
}

/// Arithmetic facts about a send that passed validation: the converted
/// amount is between `MAX_FEE` and the raw amount, the fee split is
/// exact (`taxed + fee == converted`), and scaled back to home-chain
/// units the two transfers sum to exactly the amount sent — the fee
/// split neither creates nor destroys a unit.
pub proof fn lemma_send_math(v: BridgeView, to_chain: Seq<u8>, amount: u64)
    requires
        v.wf(),
        v.send_error(to_chain, amount) is None,
    ensures
        MAX_FEE as int <= v.send_converted(to_chain, amount) <= amount as int,
        0 <= v.send_fee(to_chain, amount) < v.send_converted(to_chain, amount),
        0 < v.send_taxed(to_chain, amount) <= v.send_converted(to_chain, amount),
        v.send_taxed(to_chain, amount) + v.send_fee(to_chain, amount) == v.send_converted(
            to_chain,
            amount,
        ),
        v.send_converted(to_chain, amount) * v.rate_of(to_chain) as int == amount as int,
        v.send_taxed(to_chain, amount) * v.rate_of(to_chain) as int + v.send_fee(to_chain, amount)
            * v.rate_of(to_chain) as int == amount as int,
        0 <= v.send_taxed(to_chain, amount) * v.rate_of(to_chain) as int <= amount as int,
        0 <= v.send_fee(to_chain, amount) * v.rate_of(to_chain) as int <= amount as int,
{
    let r = v.rate_of(to_chain) as int;
    let a = amount as int;
    let c = v.send_converted(to_chain, amount);
    let f = v.send_fee(to_chain, amount);
    let t = v.send_taxed(to_chain, amount);
    assert(r > 0);
    vstd::arithmetic::div_mod::lemma_fundamental_div_mod(a, r);
    assert(a == r * c);
    vstd::arithmetic::mul::lemma_mul_is_commutative(r, c);
    lemma_fee_bounds(c, v.fee_send);
    assert(c <= a) by (nonlinear_arith)
        requires
            a == c * r,
            0 <= c,
            1 <= r,
    ;
    assert(t * r + f * r == a) by {
        vstd::arithmetic::mul::lemma_mul_is_distributive_add_other_way(r, t, f);
    }
    vstd::arithmetic::mul::lemma_mul_nonnegative(t, r);
    vstd::arithmetic::mul::lemma_mul_nonnegative(f, r);
}

/// A freshly initialized instance is well-formed.
pub proof fn lemma_initial_wf(
    fee_send: u16,
    fee_fulfill: u16,
    limit_send: u64,
    fee_recipient: Seq<u8>,
    paused: bool,
)
    requires
        fee_send < MAX_FEE,
        fee_fulfill < MAX_FEE,
    ensures
        initial_view(fee_send, fee_fulfill, limit_send, fee_recipient, paused).wf(),
{
}

/// `set_params` preserves well-formedness when the new fees pass
/// validation.
pub proof fn lemma_set_params_next_wf(
    v: BridgeView,
    fee_send: u16,
    fee_fulfill: u16,
    limit_send: u64,
    fee_recipient: Seq<u8>,
    paused: bool,
)
    requires
        v.wf(),
        fee_send < MAX_FEE,
        fee_fulfill < MAX_FEE,
    ensures
        v.set_params_next(fee_send, fee_fulfill, limit_send, fee_recipient, paused).wf(),
{
}

/// `set_chain_data` preserves well-formedness when the new rate passes
/// validation.
pub proof fn lemma_set_chain_next_wf(
    v: BridgeView,
    chain: Seq<u8>,
    enabled: bool,
    exchange_rate_from: u64,
)
    requires
        v.wf(),
        exchange_rate_from > 0,
    ensures
        v.set_chain_next(chain, enabled, exchange_rate_from).wf(),
{
}

/// A successful send preserves well-formedness: the new record fills
/// exactly the nonce the user's sequencer stood at, so the user's
/// records stay gap-free.
pub proof fn lemma_send_next_wf(
    v: BridgeView,
    user: Pubkey,
    amount: u64,
    to: Bytes32,
    to_chain: Bytes32,
    timestamp: i64,
    block: u64,
)
    requires
        v.wf(),
        v.nonce_of(user@) < u64::MAX,
    ensures
        v.send_next(user, amount, to, to_chain, timestamp, block).wf(),
{
    let v2 = v.send_next(user, amount, to, to_chain, timestamp, block);
    let nn = v.nonce_of(user@);
    assert forall|u: Seq<u8>, n: u64| #[trigger]
        v2.records.contains_key((u, n)) <==> n < v2.nonce_of(u) by {
        if u == user@ {
            assert(v2.nonce_of(u) == nn + 1);
            assert(v.records.contains_key((u, n)) <==> n < nn);
        } else {
            assert(v2.nonce_of(u) == v.nonce_of(u));
            assert((u, n) != (user@, nn));
            assert(v.records.contains_key((u, n)) <==> n < v.nonce_of(u));
        }
    }
}

/// A successful fulfillment preserves well-formedness: it only claims a
/// replay guard.
pub proof fn lemma_fulfill_next_wf(v: BridgeView, from_chain: Seq<u8>, remote_nonce: u64)
    requires
        v.wf(),
    ensures
        v.fulfill_next(from_chain, remote_nonce).wf(),
{
}

/// Arithmetic facts about a fulfillment that passed validation: the fee
/// split is exact and the fee never exceeds the converted amount.
pub proof fn lemma_fulfill_math(v: BridgeView, from_chain: Seq<u8>, amount: u64)
    requires
        v.wf(),
        v.chains.contains_key(from_chain),
        v.fulfill_converted(from_chain, amount) <= u64::MAX as int,
    ensures
        0 <= v.fulfill_converted(from_chain, amount),
        0 <= v.fulfill_fee(from_chain, amount) <= v.fulfill_converted(from_chain, amount),
        v.fulfill_converted(from_chain, amount) > 0 ==> v.fulfill_fee(from_chain, amount)
            < v.fulfill_converted(from_chain, amount),
        v.fulfill_taxed(from_chain, amount) + v.fulfill_fee(from_chain, amount)
            == v.fulfill_converted(from_chain, amount),
        0 <= v.fulfill_taxed(from_chain, amount) <= v.fulfill_converted(from_chain, amount),
{
    let c = v.fulfill_converted(from_chain, amount);
    vstd::arithmetic::mul::lemma_mul_nonnegative(amount as int, v.rate_of(from_chain) as int);
    lemma_fee_bounds(c, v.fee_fulfill);
}

} // verus!
