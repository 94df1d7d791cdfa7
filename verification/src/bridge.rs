//! The bridge engine: one instance per (owner, token, version, home-chain)
//! tuple, with the operations `initialize`, `set_params`, `set_chain_data`,
//! `send`, `fulfill` and `withdraw`.
//!
//! Records are kept in append-only lists where a later entry for a key
//! shadows an earlier one; the abstraction functions below read such a
//! list as the map or set the contracts speak of.

use vstd::prelude::*;

use crate::model::initial_view;
use crate::model::lemma_fulfill_math;
use crate::model::lemma_fulfill_next_wf;
use crate::model::lemma_initial_wf;
use crate::model::lemma_send_math;
use crate::model::lemma_send_next_wf;
use crate::model::lemma_set_chain_next_wf;
use crate::model::lemma_set_params_next_wf;
use crate::model::params_error;
use crate::model::withdraw_error;
use crate::model::BridgeView;
use crate::types::bytes_eq;
use crate::types::BridgeError;
use crate::types::BridgeParams;
use crate::types::BridgeSendTx;
use crate::types::Bytes32;
use crate::types::ChainData;
use crate::types::FulfillOutcome;
use crate::types::Pubkey;
use crate::types::SendOutcome;
use crate::types::UserNonce;
use crate::types::MAX_FEE;

verus! {

/// Reads a chain-registry list as a map from chain identifier to its
/// latest entry.
spec fn chains_map(s: Seq<(Bytes32, ChainData)>) -> Map<Seq<u8>, ChainData>
    decreases s.len(),
{
    if s.len() == 0 {
        Map::empty()
    } else {
        chains_map(s.drop_last()).insert(s.last().0@, s.last().1)
    }
}

/// Reads a sequencer list as a map from user to the latest nonce entry.
spec fn nonces_map(s: Seq<(Pubkey, UserNonce)>) -> Map<Seq<u8>, u64>
    decreases s.len(),
{
    if s.len() == 0 {
        Map::empty()
    } else {
        nonces_map(s.drop_last()).insert(s.last().0@, s.last().1.nonce)
    }
}

/// Reads the transfer-record list as a map keyed by (initiator, nonce).
spec fn records_map(s: Seq<BridgeSendTx>) -> Map<(Seq<u8>, u64), BridgeSendTx>
    decreases s.len(),
{
    if s.len() == 0 {
        Map::empty()
    } else {
        records_map(s.drop_last()).insert((s.last().initiator@, s.last().nonce), s.last())
    }
}

/// Reads the replay-guard list as the set of claimed (source chain,
/// remote nonce) keys.
spec fn guards_set(s: Seq<(Bytes32, u64)>) -> Set<(Seq<u8>, u64)>
    decreases s.len(),
{
    if s.len() == 0 {
        Set::empty()
    } else {
        guards_set(s.drop_last()).insert((s.last().0@, s.last().1))
    }
}

proof fn lemma_chains_map_push(s: Seq<(Bytes32, ChainData)>, e: (Bytes32, ChainData))
    ensures
        chains_map(s.push(e)) == chains_map(s).insert(e.0@, e.1),
{
    assert(s.push(e).drop_last() =~= s);
    assert(s.push(e).last() == e);
}

proof fn lemma_nonces_map_push(s: Seq<(Pubkey, UserNonce)>, e: (Pubkey, UserNonce))
    ensures
        nonces_map(s.push(e)) == nonces_map(s).insert(e.0@, e.1.nonce),
{
    assert(s.push(e).drop_last() =~= s);
    assert(s.push(e).last() == e);
}

proof fn lemma_records_map_push(s: Seq<BridgeSendTx>, e: BridgeSendTx)
    ensures
        records_map(s.push(e)) == records_map(s).insert((e.initiator@, e.nonce), e),
{
    assert(s.push(e).drop_last() =~= s);
    assert(s.push(e).last() == e);
}

proof fn lemma_guards_set_push(s: Seq<(Bytes32, u64)>, e: (Bytes32, u64))
    ensures
        guards_set(s.push(e)) == guards_set(s).insert((e.0@, e.1)),
{
    assert(s.push(e).drop_last() =~= s);
    assert(s.push(e).last() == e);
}

/// One bridge instance: parameters, chain registry, per-user outbound
/// sequencers, write-once transfer records, and inbound replay guards.
///
/// The engine validates and accounts; it never moves funds itself. A
/// successful `send` or `fulfill` returns the exact transfers the
/// caller's token-ledger service must perform, and the caller must
/// authenticate the acting user or owner before invoking any mutating
/// operation.
pub struct BridgeInstance {
    params: BridgeParams,
    chains: Vec<(Bytes32, ChainData)>,
    nonces: Vec<(Pubkey, UserNonce)>,
    records: Vec<BridgeSendTx>,
    fulfilled: Vec<(Bytes32, u64)>,
}

impl View for BridgeInstance {
    type V = BridgeView;

    closed spec fn view(&self) -> BridgeView {
        BridgeView {
            fee_send: self.params.fee_send,
            fee_fulfill: self.params.fee_fulfill,
            limit_send: self.params.limit_send,
            fee_recipient: self.params.fee_recipient@,
            paused: self.params.paused,
            chains: chains_map(self.chains@),
            nonces: nonces_map(self.nonces@),
            records: records_map(self.records@),
            fulfilled: guards_set(self.fulfilled@),
        }
    }
}

impl BridgeInstance {
    /// Creates a bridge instance: rejects a send or fulfill fee at or
    /// above 100%, otherwise starts with the given parameters, an empty
    /// chain registry, no sends and no fulfilled transfers.
    pub fn initialize(
        fee_send: u16,
        fee_fulfill: u16,
        limit_send: u64,
        fee_recipient: Pubkey,
        paused: bool,
    ) -> (r: Result<BridgeInstance, BridgeError>)
        ensures
            (r is Ok) <==> params_error(fee_send, fee_fulfill) is None,
            r matches Err(e) ==> Some(e) == params_error(fee_send, fee_fulfill),
            r matches Ok(b) ==> (b@ == initial_view(
                fee_send,
                fee_fulfill,
                limit_send,
                fee_recipient@,
                paused,
            ) && b@.wf()),
    {
        if fee_send >= MAX_FEE {
            return Err(BridgeError::SendFeeTooHigh);
        }
        if fee_fulfill >= MAX_FEE {
            return Err(BridgeError::FulfillFeeTooHigh);
        }
        let b = BridgeInstance {
            params: BridgeParams { fee_send, fee_fulfill, limit_send, fee_recipient, paused },
            chains: Vec::new(),
            nonces: Vec::new(),
            records: Vec::new(),
            fulfilled: Vec::new(),
        };
        proof {
            assert(b@ =~~= initial_view(fee_send, fee_fulfill, limit_send, fee_recipient@, paused));
            lemma_initial_wf(fee_send, fee_fulfill, limit_send, fee_recipient@, paused);
        }
        Ok(b)
    }

    /// Overwrites the instance parameters, with the same validation as
    /// `initialize`. On rejection the instance is unchanged. Pause has
    /// no effect on this operation; in particular it is how a paused
    /// instance is unpaused.
    pub fn set_params(
        &mut self,
        fee_send: u16,
        fee_fulfill: u16,
        limit_send: u64,
        fee_recipient: Pubkey,
        paused: bool,
    ) -> (r: Result<(), BridgeError>)
        ensures
            (r is Ok) <==> params_error(fee_send, fee_fulfill) is None,
            r matches Err(e) ==> (Some(e) == params_error(fee_send, fee_fulfill) && final(self)@
                == old(self)@),
            r is Ok ==> final(self)@ == old(self)@.set_params_next(
                fee_send,
                fee_fulfill,
                limit_send,
                fee_recipient@,
                paused,
            ),
            old(self)@.wf() ==> final(self)@.wf(),
    {
        let ghost pre = *self;
        if fee_send >= MAX_FEE {
            return Err(BridgeError::SendFeeTooHigh);
        }
        if fee_fulfill >= MAX_FEE {
            return Err(BridgeError::FulfillFeeTooHigh);
        }
        self.params = BridgeParams { fee_send, fee_fulfill, limit_send, fee_recipient, paused };
        proof {
            assert(self@ =~~= pre@.set_params_next(
                fee_send,
                fee_fulfill,
                limit_send,
                fee_recipient@,
                paused,
            ));
            if pre@.wf() {
                lemma_set_params_next_wf(
                    pre@,
                    fee_send,
                    fee_fulfill,
                    limit_send,
                    fee_recipient@,
                    paused,
                );
            }
        }
        Ok(())
    }

    /// Creates or overwrites the registry entry for a remote chain:
    /// rejects a zero exchange rate, leaving the registry unchanged.
    /// Pause has no effect on this operation.
    pub fn set_chain_data(
        &mut self,
        chain: Bytes32,
        enabled: bool,
        exchange_rate_from: u64,
    ) -> (r: Result<(), BridgeError>)
        ensures
            (r is Ok) <==> old(self)@.set_chain_error(exchange_rate_from) is None,
            r matches Err(e) ==> (Some(e) == old(self)@.set_chain_error(exchange_rate_from) && final(self)@ == old(self)@),
            r is Ok ==> final(self)@ == old(self)@.set_chain_next(
                chain@,
                enabled,
                exchange_rate_from,
            ),
            old(self)@.wf() ==> final(self)@.wf(),
    {
        let ghost pre = *self;
        if exchange_rate_from == 0 {
            return Err(BridgeError::ExchangeRateZero);
        }
        self.chains.push((chain, ChainData { enabled, exchange_rate_from }));
        proof {
            lemma_chains_map_push(
                pre.chains@,
                (chain, ChainData { enabled, exchange_rate_from }),
            );
            assert(self@ =~~= pre@.set_chain_next(chain@, enabled, exchange_rate_from));
            if pre@.wf() {
                lemma_set_chain_next_wf(pre@, chain@, enabled, exchange_rate_from);
            }
        }
        Ok(())
    }

    /// The registry entry of a remote chain, if one was ever configured.
    pub fn get_chain_data(&self, chain: &Bytes32) -> (r: Option<ChainData>)
        ensures
            match r {
                Some(d) => self@.chains.contains_key(chain@) && d == self@.chains[chain@],
                None => !self@.chains.contains_key(chain@),
            },
    {
        let ghost s = self.chains@;
        let mut i: usize = self.chains.len();
        proof {
            assert(s.take(s.len() as int) =~= s);
        }
        while i > 0
            invariant
                i <= s.len(),
                s == self.chains@,
                chains_map(s).contains_key(chain@) == chains_map(s.take(i as int)).contains_key(
                    chain@,
                ),
                chains_map(s).contains_key(chain@) ==> chains_map(s.take(i as int))[chain@]
                    == chains_map(s)[chain@],
            decreases i,
        {
            proof {
                assert(s.take(i as int).drop_last() =~= s.take(i as int - 1));
                assert(s.take(i as int).last() == s[i as int - 1]);
            }
            let entry = &self.chains[i - 1];
            if bytes_eq(&entry.0.byte, &chain.byte) {
                return Some(entry.1);
            }
            i -= 1;
        }
        proof {
            assert(s.take(0) =~= Seq::<(Bytes32, ChainData)>::empty());
        }
        None
    }

    /// The nonce entry of a user, if the user has ever completed a send.
    fn lookup_nonce(&self, user: &Pubkey) -> (r: Option<UserNonce>)
        ensures
            match r {
                Some(u) => self@.nonces.contains_key(user@) && u.nonce == self@.nonces[user@],
                None => !self@.nonces.contains_key(user@),
            },
    {
        let ghost s = self.nonces@;
        let mut i: usize = self.nonces.len();
        proof {
            assert(s.take(s.len() as int) =~= s);
        }
        while i > 0
            invariant
                i <= s.len(),
                s == self.nonces@,
                nonces_map(s).contains_key(user@) == nonces_map(s.take(i as int)).contains_key(
                    user@,
                ),
                nonces_map(s).contains_key(user@) ==> nonces_map(s.take(i as int))[user@]
                    == nonces_map(s)[user@],
            decreases i,
        {
            proof {
                assert(s.take(i as int).drop_last() =~= s.take(i as int - 1));
                assert(s.take(i as int).last() == s[i as int - 1]);
            }
            let entry = &self.nonces[i - 1];
            if bytes_eq(&entry.0.byte, &user.byte) {
                return Some(entry.1);
            }
            i -= 1;
        }
        proof {
            assert(s.take(0) =~= Seq::<(Pubkey, UserNonce)>::empty());
        }
        None
    }

    /// The nonce the user's next send will be assigned; 0 before the
    /// user's first send.
    pub fn get_nonce(&self, user: &Pubkey) -> (n: u64)
        ensures
            n == self@.nonce_of(user@),
    {
        match self.lookup_nonce(user) {
            Some(u) => u.nonce,
            None => 0,
        }
    }

    /// The write-once record of the user's send with the given nonce.
    pub fn get_send_tx(&self, user: &Pubkey, nonce: u64) -> (r: Option<BridgeSendTx>)
        ensures
            match r {
                Some(tx) => self@.records.contains_key((user@, nonce)) && tx == self@.records[(
                    user@,
                    nonce,
                )],
                None => !self@.records.contains_key((user@, nonce)),
            },
    {
        let ghost s = self.records@;
        let ghost k = (user@, nonce);
        let mut i: usize = self.records.len();
        proof {
            assert(s.take(s.len() as int) =~= s);
        }
        while i > 0
            invariant
                i <= s.len(),
                s == self.records@,
                k == (user@, nonce),
                records_map(s).contains_key(k) == records_map(s.take(i as int)).contains_key(k),
                records_map(s).contains_key(k) ==> records_map(s.take(i as int))[k]
                    == records_map(s)[k],
            decreases i,
        {
            proof {
                assert(s.take(i as int).drop_last() =~= s.take(i as int - 1));
                assert(s.take(i as int).last() == s[i as int - 1]);
            }
            let entry = &self.records[i - 1];
            if entry.nonce == nonce && bytes_eq(&entry.initiator.byte, &user.byte) {
                return Some(*entry);
            }
            i -= 1;
        }
        proof {
            assert(s.take(0) =~= Seq::<BridgeSendTx>::empty());
        }
        None
    }

    /// Whether the replay guard for (source chain, remote nonce) has
    /// already been claimed by a successful fulfillment.
    pub fn is_fulfilled(&self, from_chain: &Bytes32, remote_nonce: u64) -> (b: bool)
        ensures
            b == self@.fulfilled.contains((from_chain@, remote_nonce)),
    {
        let ghost s = self.fulfilled@;
        let ghost k = (from_chain@, remote_nonce);
        let mut i: usize = self.fulfilled.len();
        proof {
            assert(s.take(s.len() as int) =~= s);
        }
        while i > 0
            invariant
                i <= s.len(),
                s == self.fulfilled@,
                k == (from_chain@, remote_nonce),
                guards_set(s).contains(k) == guards_set(s.take(i as int)).contains(k),
            decreases i,
        {
            proof {
                assert(s.take(i as int).drop_last() =~= s.take(i as int - 1));
                assert(s.take(i as int).last() == s[i as int - 1]);
            }
            let entry = &self.fulfilled[i - 1];
            if entry.1 == remote_nonce && bytes_eq(&entry.0.byte, &from_chain.byte) {
                return true;
            }
            i -= 1;
        }
        proof {
            assert(s.take(0) =~= Seq::<(Bytes32, u64)>::empty());
        }
        false
    }

    /// A copy of the instance parameters.
    pub fn get_params(&self) -> (p: BridgeParams)
        ensures
            p.fee_send == self@.fee_send,
            p.fee_fulfill == self@.fee_fulfill,
            p.limit_send == self@.limit_send,
            p.fee_recipient@ == self@.fee_recipient,
            p.paused == self@.paused,
    {
        self.params
    }

    /// Sends `amount` home-chain units to `to` on `to_chain`, acting for
    /// the authenticated `user`.
    ///
    /// Validation, in order: the pause flag, the destination chain's
    /// enablement, the per-transaction limit, divisibility of the amount
    /// by the exchange rate, and the minimum converted amount. A
    /// rejection leaves the instance unchanged.
    ///
    /// On success the record is written at the user's current nonce, the
    /// nonce advances by exactly one, and the returned outcome carries
    /// the two transfers the token-ledger service must perform, which
    /// together take exactly `amount` from the user.
    pub fn send(
        &mut self,
        user: Pubkey,
        amount: u64,
        to: Bytes32,
        to_chain: Bytes32,
        timestamp: i64,
        block: u64,
    ) -> (r: Result<SendOutcome, BridgeError>)
        requires
            old(self)@.wf(),
            old(self)@.nonce_of(user@) < u64::MAX,
        ensures
            final(self)@.wf(),
            (r is Ok) <==> old(self)@.send_error(to_chain@, amount) is None,
            r matches Err(e) ==> (Some(e) == old(self)@.send_error(to_chain@, amount) && final(self)@ == old(self)@),
            r matches Ok(o) ==> (o == old(self)@.send_outcome(user@, to_chain@, amount) && final(self)@ == old(self)@.send_next(user, amount, to, to_chain, timestamp, block)),
    {
        let ghost pre = *self;
        if self.params.paused {
            return Err(BridgeError::BridgePaused);
        }
        let cd = match self.get_chain_data(&to_chain) {
            Some(cd) => {
                if !cd.enabled {
                    return Err(BridgeError::ChainDisabled);
                }
                cd
            },
            None => {
                return Err(BridgeError::ChainDisabled);
            },
        };
        if amount > self.params.limit_send {
            return Err(BridgeError::SendLimitExceeded);
        }
        let rate = cd.exchange_rate_from;
        assert(rate == pre@.rate_of(to_chain@) && rate > 0);
        if amount % rate != 0 {
            return Err(BridgeError::AmountUneven);
        }
        let converted = amount / rate;
        if converted < MAX_FEE as u64 {
            return Err(BridgeError::AmountTooLow);
        }
        proof {
            assert(pre@.send_error(to_chain@, amount) is None);
            lemma_send_math(pre@, to_chain@, amount);
            vstd::arithmetic::mul::lemma_mul_upper_bound(
                converted as int,
                u64::MAX as int,
                self.params.fee_send as int,
                (MAX_FEE - 1) as int,
            );
        }
        let fee = ((converted as u128) * (self.params.fee_send as u128) / (MAX_FEE as u128)) as u64;
        assert(fee as int == pre@.send_fee(to_chain@, amount));
        let amount_taxed = converted - fee;
        let deposit = amount_taxed * rate;
        let fee_deposit = fee * rate;
        let nonce = self.get_nonce(&user);
        let record = BridgeSendTx { initiator: user, amount: amount_taxed, to, nonce, timestamp, to_chain, block };
        self.records.push(record);
        self.nonces.push((user, UserNonce { nonce: nonce + 1 }));
        let outcome = SendOutcome { nonce, converted, fee, amount_taxed, deposit, fee_deposit };
        proof {
            lemma_records_map_push(pre.records@, record);
            lemma_nonces_map_push(pre.nonces@, (user, UserNonce { nonce: (nonce + 1) as u64 }));
            assert(self@ =~~= pre@.send_next(user, amount, to, to_chain, timestamp, block));
            lemma_send_next_wf(pre@, user, amount, to, to_chain, timestamp, block);
            assert(outcome == pre@.send_outcome(user@, to_chain@, amount));
        }
        Ok(outcome)
    }

    /// Releases an inbound transfer of `amount` remote-chain units that
    /// the bridge owner attests was sent on `from_chain` under
    /// `remote_nonce`.
    ///
    /// Validation, in order: the pause flag, the source chain's
    /// enablement, a zero payout, and the replay guard: the guard for
    /// (source chain, remote nonce) is claimed exactly once, so a second
    /// fulfillment of the same remote nonce fails and no funds move. A
    /// rejection leaves the instance unchanged.
    ///
    /// On success the returned outcome carries the two transfers the
    /// token-ledger service must pay out of bridge custody.
    pub fn fulfill(
        &mut self,
        from_chain: Bytes32,
        remote_nonce: u64,
        amount: u64,
    ) -> (r: Result<FulfillOutcome, BridgeError>)
        requires
            old(self)@.wf(),
            old(self)@.chain_enabled(from_chain@) ==> old(self)@.fulfill_converted(
                from_chain@,
                amount,
            ) <= u64::MAX as int,
        ensures
            final(self)@.wf(),
            (r is Ok) <==> old(self)@.fulfill_error(from_chain@, remote_nonce, amount) is None,
            r matches Err(e) ==> (Some(e) == old(self)@.fulfill_error(
                from_chain@,
                remote_nonce,
                amount,
            ) && final(self)@ == old(self)@),
            r matches Ok(o) ==> (o == old(self)@.fulfill_outcome(from_chain@, amount) && final(self)@ == old(self)@.fulfill_next(from_chain@, remote_nonce)),
    {
        let ghost pre = *self;
        if self.params.paused {
            return Err(BridgeError::BridgePaused);
        }
        let cd = match self.get_chain_data(&from_chain) {
            Some(cd) => {
                if !cd.enabled {
                    return Err(BridgeError::ChainDisabled);
                }
                cd
            },
            None => {
                return Err(BridgeError::ChainDisabled);
            },
        };
        let rate = cd.exchange_rate_from;
        proof {
            lemma_fulfill_math(pre@, from_chain@, amount);
        }
        let converted = amount * rate;
        proof {
            vstd::arithmetic::mul::lemma_mul_upper_bound(
                converted as int,
                u64::MAX as int,
                self.params.fee_fulfill as int,
                (MAX_FEE - 1) as int,
            );
        }
        let fee = ((converted as u128) * (self.params.fee_fulfill as u128) / (MAX_FEE as u128))
            as u64;
        assert(fee as int == pre@.fulfill_fee(from_chain@, amount));
        let amount_taxed = converted - fee;
        if amount_taxed == 0 {
            return Err(BridgeError::AmountTooLow);
        }
        if self.is_fulfilled(&from_chain, remote_nonce) {
            return Err(BridgeError::DuplicateFulfillment);
        }
        self.fulfilled.push((from_chain, remote_nonce));
        proof {
            lemma_guards_set_push(pre.fulfilled@, (from_chain, remote_nonce));
            assert(self@ =~~= pre@.fulfill_next(from_chain@, remote_nonce));
            lemma_fulfill_next_wf(pre@, from_chain@, remote_nonce);
        }
        Ok(FulfillOutcome { converted, fee, amount_taxed })
    }

    /// Owner-only escape hatch: moves the entire custody balance, which
    /// the caller reads from the token-ledger service, to an
    /// owner-designated destination. Rejects an empty custody account;
    /// there is no partial withdraw. Pause has no effect on this
    /// operation.
    pub fn withdraw(&self, custody_balance: u64) -> (r: Result<u64, BridgeError>)
        ensures
            (r is Ok) <==> withdraw_error(custody_balance) is None,
            r matches Err(e) ==> Some(e) == withdraw_error(custody_balance),
            r matches Ok(a) ==> a == custody_balance,
    {
        if custody_balance == 0 {
            return Err(BridgeError::WithdrawZero);
        }
        Ok(custody_balance)
    }
}

} // verus!
