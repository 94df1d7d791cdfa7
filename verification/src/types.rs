//! Plain data carried through the bridge: addresses, parameters, records,
//! and the error taxonomy.

use vstd::prelude::*;

verus! {

/// Fees are expressed in basis points; `MAX_FEE` (10000 bps) is 100%.
pub const MAX_FEE: u16 = 10000;

/// Compares two 32-byte values.
pub(crate) fn bytes_eq(a: &[u8; 32], b: &[u8; 32]) -> (r: bool)
    ensures
        r == (a@ == b@),
{
    let mut i: usize = 0;
    while i < 32
        invariant
            i <= 32,
            forall|j: int| 0 <= j < i ==> a@[j] == b@[j],
        decreases 32 - i,
    {
        if a[i] != b[i] {
            assert(a@ != b@) by {
                assert(a@[i as int] != b@[i as int]);
            }
            return false;
        }
        i += 1;
    }
    assert(a@ =~= b@);
    true
}

/// A generic 32-byte value used for addresses on remote chains and for
/// chain identifiers (a null-terminated byte string such as "evm.97").
/// It need not be a valid public key on any chain, which is why it is a
/// distinct type from the home-chain `Pubkey`.
#[derive(Clone, Copy, Debug)]
pub struct Bytes32 {
    pub byte: [u8; 32],
}

impl View for Bytes32 {
    type V = Seq<u8>;

    open spec fn view(&self) -> Seq<u8> {
        self.byte@
    }
}

impl PartialEq for Bytes32 {
    fn eq(&self, other: &Bytes32) -> (r: bool) {
        bytes_eq(&self.byte, &other.byte)
    }
}

impl Eq for Bytes32 {
}

impl vstd::std_specs::cmp::PartialEqSpecImpl for Bytes32 {
    open spec fn obeys_eq_spec() -> bool {
        true
    }

    open spec fn eq_spec(&self, other: &Bytes32) -> bool {
        self@ == other@
    }
}

/// A home-chain account identifier: the initiator of a send, or the
/// account that receives fees.
#[derive(Clone, Copy, Debug)]
pub struct Pubkey {
    pub byte: [u8; 32],
}

impl View for Pubkey {
    type V = Seq<u8>;

    open spec fn view(&self) -> Seq<u8> {
        self.byte@
    }
}

impl PartialEq for Pubkey {
    fn eq(&self, other: &Pubkey) -> (r: bool) {
        bytes_eq(&self.byte, &other.byte)
    }
}

impl Eq for Pubkey {
}

impl vstd::std_specs::cmp::PartialEqSpecImpl for Pubkey {
    open spec fn obeys_eq_spec() -> bool {
        true
    }

    open spec fn eq_spec(&self, other: &Pubkey) -> bool {
        self@ == other@
    }
}

/// Why a bridge operation was rejected. Every rejection is pre-commit:
/// a failed call leaves no trace in the instance.
#[derive(Clone, Copy, Debug, PartialEq, Eq, Structural)]
pub enum BridgeError {
    /// A configured send fee reaches 100%.
    SendFeeTooHigh,
    /// A configured fulfill fee reaches 100%.
    FulfillFeeTooHigh,
    /// A configured exchange rate is zero.
    ExchangeRateZero,
    /// The instance is paused; `send` and `fulfill` are disabled.
    BridgePaused,
    /// The destination (send) or source (fulfill) chain is not enabled.
    ChainDisabled,
    /// The post-fee amount would be zero, or the converted amount is too
    /// small to guarantee a non-zero fee.
    AmountTooLow,
    /// The custody balance is zero at withdraw time.
    WithdrawZero,
    /// The send amount exceeds the configured per-transaction limit.
    SendLimitExceeded,
    /// The send amount is not evenly divisible by the exchange rate.
    AmountUneven,
    /// A replay guard already exists for this remote nonce.
    DuplicateFulfillment,
}

/// Bridge-wide parameters, mutated only through `initialize` and
/// `set_params`.
#[derive(Clone, Copy, Debug)]
pub struct BridgeParams {
    /// Outbound fee in basis points, strictly below `MAX_FEE`.
    pub fee_send: u16,
    /// Inbound fee in basis points, strictly below `MAX_FEE`.
    pub fee_fulfill: u16,
    /// Maximum amount of token allowed to be bridged in a single send.
    pub limit_send: u64,
    /// Home-chain account that receives the fees.
    pub fee_recipient: Pubkey,
    /// While set, `send` and `fulfill` are rejected.
    pub paused: bool,
}

/// Per-remote-chain registry entry: enablement flag and the exchange-rate
/// multiplier that reconciles decimal conventions between the chains.
#[derive(Clone, Copy, Debug, PartialEq, Eq, Structural)]
pub struct ChainData {
    pub enabled: bool,
    /// `remote_amount * exchange_rate_from == home_amount`; never zero.
    pub exchange_rate_from: u64,
}

/// Per-user outbound sequencer value: the number of sends the user has
/// completed, and the nonce the next send will be assigned.
#[derive(Clone, Copy, Debug, PartialEq, Eq, Structural)]
pub struct UserNonce {
    pub nonce: u64,
}

/// Write-once receipt of a completed send, keyed by (initiator, nonce).
#[derive(Clone, Copy, Debug)]
pub struct BridgeSendTx {
    pub initiator: Pubkey,
    /// Post-fee amount in destination-chain units.
    pub amount: u64,
    /// Recipient address on the destination chain.
    pub to: Bytes32,
    pub nonce: u64,
    /// Wall-clock time supplied by the caller; recorded, never read back.
    pub timestamp: i64,
    pub to_chain: Bytes32,
    /// Block height supplied by the caller; recorded, never read back.
    pub block: u64,
}

/// What a successful `send` asks the token-ledger service to do: move
/// `deposit` home-chain units from the user to custody and `fee_deposit`
/// to the fee recipient. Together they sum to exactly the amount sent.
#[derive(Clone, Copy, Debug, PartialEq, Eq, Structural)]
pub struct SendOutcome {
    /// The nonce assigned to this send.
    pub nonce: u64,
    /// The amount in destination-chain units, before the fee.
    pub converted: u64,
    /// The fee in destination-chain units.
    pub fee: u64,
    /// The amount in destination-chain units, after the fee.
    pub amount_taxed: u64,
    /// Home-chain units to move from the user to bridge custody.
    pub deposit: u64,
    /// Home-chain units to move from the user to the fee recipient.
    pub fee_deposit: u64,
}

/// What a successful `fulfill` asks the token-ledger service to do: move
/// `amount_taxed` home-chain units from custody to the recipient and
/// `fee` to the fee recipient.
#[derive(Clone, Copy, Debug, PartialEq, Eq, Structural)]
pub struct FulfillOutcome {
    /// The amount in home-chain units, before the fee.
    pub converted: u64,
    /// The fee in home-chain units.
    pub fee: u64,
    /// The amount in home-chain units paid out to the recipient.
    pub amount_taxed: u64,
}

} // verus!
