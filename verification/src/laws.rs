//! The bridge's guarantees, stated once over the model and proved for
//! every state and every input: nonce monotonicity, double-spend
//! exclusion, conservation of value across the fee split, the fee
//! bound, and the pause flag.

use vstd::prelude::*;

use crate::model::initial_view;
use crate::model::lemma_fee_bounds;
use crate::model::lemma_fulfill_math;
use crate::model::lemma_send_math;
use crate::model::params_error;
use crate::model::spec_fee;
use crate::model::withdraw_error;
use crate::model::BridgeView;
use crate::types::BridgeError;
use crate::types::Bytes32;
use crate::types::Pubkey;
use crate::types::MAX_FEE;

verus! {

/// Nonce monotonicity, base case: a fresh instance holds no sequencer,
/// so every user's first send is assigned nonce 0.
pub proof fn lemma_nonce_starts_at_zero(
    fee_send: u16,
    fee_fulfill: u16,
    limit_send: u64,
    fee_recipient: Seq<u8>,
    paused: bool,
    user: Seq<u8>,
)
    ensures
        initial_view(fee_send, fee_fulfill, limit_send, fee_recipient, paused).nonce_of(user) == 0,
{
}

/// Nonce monotonicity, step case: a successful send writes its record
/// at the user's current nonce and advances that sequencer by exactly
/// one, leaving every other user's sequencer untouched — so a user's
/// successive sends are assigned 0, 1, 2, … with no repeats.
pub proof fn lemma_nonce_monotonic(
    v: BridgeView,
    user: Pubkey,
    amount: u64,
    to: Bytes32,
    to_chain: Bytes32,
    timestamp: i64,
    block: u64,
)
    requires
        v.wf(),
        v.nonce_of(user@) < u64::MAX,
    ensures
        ({
            let v2 = v.send_next(user, amount, to, to_chain, timestamp, block);
            &&& v2.nonce_of(user@) == v.nonce_of(user@) + 1
            &&& v2.records.contains_key((user@, v.nonce_of(user@)))
            &&& v2.records[(user@, v.nonce_of(user@))].nonce == v.nonce_of(user@)
            &&& forall|w: Seq<u8>| w != user@ ==> v2.nonce_of(w) == v.nonce_of(w)
        }),
{
}

/// Nonce monotonicity, no gaps: in a well-formed instance a record
/// exists for (user, n) exactly when n is below the user's sequencer —
/// the assigned nonces form the gap-free range 0 .. nonce_of(user).
pub proof fn lemma_nonce_no_gaps(v: BridgeView, user: Seq<u8>, n: u64)
    requires
        v.wf(),
    ensures
        v.records.contains_key((user, n)) <==> n < v.nonce_of(user),
{
}

/// Double-spend exclusion: once a fulfillment of (from_chain,
/// remote_nonce) has succeeded, every further fulfillment of the same
/// key fails, whatever its amount — and fails with DuplicateFulfillment
/// whenever it reaches the replay guard (a zero payout is rejected as
/// AmountTooLow one check earlier).
pub proof fn lemma_double_spend_exclusion(
    v: BridgeView,
    from_chain: Seq<u8>,
    remote_nonce: u64,
    amount1: u64,
    amount2: u64,
)
    requires
        v.fulfill_error(from_chain, remote_nonce, amount1) is None,
    ensures
        ({
            let v2 = v.fulfill_next(from_chain, remote_nonce);
            &&& v2.fulfill_error(from_chain, remote_nonce, amount2) is Some
            &&& v2.fulfill_taxed(from_chain, amount2) != 0 ==> v2.fulfill_error(
                from_chain,
                remote_nonce,
                amount2,
            ) == Some(BridgeError::DuplicateFulfillment)
        }),
{
}

/// A claimed replay guard is never released: it survives every other
/// fulfillment, every send, and every parameter or registry change, so
/// the exclusion above holds regardless of what happens in between.
pub proof fn lemma_guard_persists(
    v: BridgeView,
    key: (Seq<u8>, u64),
    other_chain: Seq<u8>,
    other_nonce: u64,
    user: Pubkey,
    amount: u64,
    to: Bytes32,
    to_chain: Bytes32,
    timestamp: i64,
    block: u64,
    fee_send: u16,
    fee_fulfill: u16,
    limit_send: u64,
    fee_recipient: Seq<u8>,
    paused: bool,
    chain: Seq<u8>,
    enabled: bool,
    exchange_rate_from: u64,
)
    requires
        v.fulfilled.contains(key),
    ensures
        v.fulfill_next(other_chain, other_nonce).fulfilled.contains(key),
        v.send_next(user, amount, to, to_chain, timestamp, block).fulfilled.contains(key),
        v.set_params_next(fee_send, fee_fulfill, limit_send, fee_recipient, paused)
            .fulfilled
            .contains(key),
        v.set_chain_next(chain, enabled, exchange_rate_from).fulfilled.contains(key),
{
}

/// Conservation for send: the fee split is exact in destination units
/// (`taxed + fee == converted`), and scaled back to home-chain units
/// the two transfers sum to exactly the amount the user sent — the
/// floor division loses no unit and creates none.
pub proof fn lemma_send_conservation(v: BridgeView, to_chain: Seq<u8>, amount: u64)
    requires
        v.wf(),
        v.send_error(to_chain, amount) is None,
    ensures
        v.send_taxed(to_chain, amount) + v.send_fee(to_chain, amount) == v.send_converted(
            to_chain,
            amount,
        ),
        v.send_taxed(to_chain, amount) * v.rate_of(to_chain) as int + v.send_fee(to_chain, amount)
            * v.rate_of(to_chain) as int == amount as int,
{
    lemma_send_math(v, to_chain, amount);
}

/// Conservation for fulfill: the fee split is exact in home-chain
/// units — payout plus fee equals the converted amount.
pub proof fn lemma_fulfill_conservation(v: BridgeView, from_chain: Seq<u8>, amount: u64)
    ensures
        v.fulfill_taxed(from_chain, amount) + v.fulfill_fee(from_chain, amount)
            == v.fulfill_converted(from_chain, amount),
{
}

/// Fee bound, arithmetic core: the fee equals
/// `floor(converted * bps / MAX_FEE)`, stays below the configured
/// fraction of the converted amount, and is strictly smaller than any
/// positive converted amount.
pub proof fn lemma_fee_bound(converted: int, bps: u16)
    requires
        0 <= converted,
        bps < MAX_FEE,
    ensures
        spec_fee(converted, bps) == converted * (bps as int) / (MAX_FEE as int),
        spec_fee(converted, bps) * (MAX_FEE as int) <= converted * (bps as int),
        converted > 0 ==> spec_fee(converted, bps) < converted,
{
    lemma_fee_bounds(converted, bps);
}

/// Fee bound for send: the fee a valid send charges is exactly the
/// floor-division formula over the converted amount and the configured
/// send fee, and is strictly below the converted amount. The minimum
/// converted amount that `send` enforces makes the fee strictly
/// positive whenever a send fee is configured at all: no send dodges a
/// configured fee by being small.
pub proof fn lemma_send_fee_bound(v: BridgeView, to_chain: Seq<u8>, amount: u64)
    requires
        v.wf(),
        v.send_error(to_chain, amount) is None,
    ensures
        v.send_fee(to_chain, amount) == spec_fee(v.send_converted(to_chain, amount), v.fee_send),
        v.send_fee(to_chain, amount) * (MAX_FEE as int) <= v.send_converted(to_chain, amount) * (
        v.fee_send as int),
        v.send_fee(to_chain, amount) < v.send_converted(to_chain, amount),
        v.fee_send > 0 ==> v.send_fee(to_chain, amount) >= v.fee_send,
{
    lemma_send_math(v, to_chain, amount);
    lemma_fee_bounds(v.send_converted(to_chain, amount), v.fee_send);
    if v.fee_send > 0 {
        let m = MAX_FEE as int;
        let b = v.fee_send as int;
        let c = v.send_converted(to_chain, amount);
        assert(m <= c);
        vstd::arithmetic::mul::lemma_mul_inequality(m, c, b);
        vstd::arithmetic::div_mod::lemma_div_is_ordered(m * b, c * b, m);
        vstd::arithmetic::div_mod::lemma_div_multiples_vanish(b, m);
    }
}

/// Fee bound for fulfill: the fee a fulfillment charges is exactly the
/// floor-division formula over the converted amount and the configured
/// fulfill fee, and is strictly below any positive converted amount.
pub proof fn lemma_fulfill_fee_bound(v: BridgeView, from_chain: Seq<u8>, amount: u64)
    requires
        v.wf(),
        v.chains.contains_key(from_chain),
        v.fulfill_converted(from_chain, amount) <= u64::MAX as int,
    ensures
        v.fulfill_fee(from_chain, amount) == spec_fee(
            v.fulfill_converted(from_chain, amount),
            v.fee_fulfill,
        ),
        v.fulfill_fee(from_chain, amount) * (MAX_FEE as int) <= v.fulfill_converted(
            from_chain,
            amount,
        ) * (v.fee_fulfill as int),
        v.fulfill_converted(from_chain, amount) > 0 ==> v.fulfill_fee(from_chain, amount)
            < v.fulfill_converted(from_chain, amount),
{
    lemma_fulfill_math(v, from_chain, amount);
    lemma_fee_bounds(v.fulfill_converted(from_chain, amount), v.fee_fulfill);
}

/// Pause: while the pause flag is set, every send and every
/// fulfillment fails with BridgePaused, whatever its arguments; the
/// administrative operations are unaffected, since their validation
/// reads only their own arguments; and `set_params` with `paused =
/// false` reopens the bridge.
pub proof fn lemma_pause_blocks_traffic(
    v: BridgeView,
    chain: Seq<u8>,
    remote_nonce: u64,
    amount: u64,
    fee_send: u16,
    fee_fulfill: u16,
    limit_send: u64,
    fee_recipient: Seq<u8>,
)
    requires
        v.paused,
    ensures
        v.send_error(chain, amount) == Some(BridgeError::BridgePaused),
        v.fulfill_error(chain, remote_nonce, amount) == Some(BridgeError::BridgePaused),
        params_error(fee_send, fee_fulfill) is None <==> (fee_send < MAX_FEE && fee_fulfill
            < MAX_FEE),
        forall|rate: u64| #[trigger] v.set_chain_error(rate) is None <==> rate != 0,
        forall|balance: u64| #[trigger] withdraw_error(balance) is None <==> balance != 0,
        !v.set_params_next(fee_send, fee_fulfill, limit_send, fee_recipient, false).paused,
{
}

} // verus!
