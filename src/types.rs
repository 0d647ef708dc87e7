use vstd::prelude::*;

verus! {

/// Identifier of a chain taking part in the bridge.
pub type DomainID = u8;

/// Per-domain sequence number of a transfer.
pub type DepositNonce = u64;

/// Canonical identifier of an asset type, independent of any chain's encoding.
pub type ResourceId = [u8; 32];

/// Public key of the threshold-signing relayer set.
pub type BridgeKey = [u8; 32];

/// A transaction hash on a source chain.
pub type H256 = [u8; 32];

/// An account of this chain.
pub type AccountId = u64;

/// An asset of this chain.
pub type AssetId = u32;

/// An amount of an asset.
pub type Balance = u128;

/// Who submits a call.
#[derive(Clone, Copy, Debug, PartialEq, Eq)]
pub enum Origin {
    /// The privileged administrative origin.
    Root,
    /// An ordinary signed account.
    Signed(AccountId),
    /// An unsigned submission.
    Unsigned,
}

/// An amount of one asset of this chain.
#[derive(Clone, Copy, Debug, PartialEq, Eq)]
pub struct MultiAsset {
    pub id: AssetId,
    pub amount: Balance,
}

/// Where an outbound transfer goes: a domain and an address on that domain.
#[derive(Clone, Debug, PartialEq, Eq)]
pub struct MultiLocation {
    pub domain_id: DomainID,
    pub recipient: Vec<u8>,
}

/// A claimed inbound transfer, identified by its origin domain and nonce.
///
/// `data` holds the amount as 16 big-endian bytes followed by the recipient
/// account as 8 big-endian bytes.
#[derive(Clone, Debug, PartialEq, Eq)]
pub struct Proposal {
    pub origin_domain_id: DomainID,
    pub deposit_nonce: DepositNonce,
    pub resource_id: ResourceId,
    pub data: Vec<u8>,
}

/// Why a call of the bridge failed.
#[derive(Clone, Copy, Debug, PartialEq, Eq)]
pub enum Error {
    /// The caller is not allowed to make this call.
    BadOrigin,
    /// The batch is not signed by the bridge key.
    BadMpcSignature,
    /// The bridge key is not set.
    MissingMpcKey,
    /// The bridge key is already set and cannot change.
    MpcKeyNotUpdatable,
    /// The bridge is paused.
    BridgePaused,
    /// The bridge is not paused.
    BridgeUnpaused,
    /// No fee applies to this asset and destination.
    MissingFeeConfig,
    /// The asset is not bound to a resource id.
    AssetNotBound,
    /// The destination domain is not served by this bridge.
    DestDomainNotSupported,
    /// The outbound nonce of the destination domain is exhausted.
    DepositNonceOverflow,
    /// Moving the asset failed.
    TransactorFailed,
}

/// What happened to one proposal of an executed batch.
#[derive(Clone, Copy, Debug, PartialEq, Eq)]
pub enum ProposalOutcome {
    /// The transfer was made and the nonce is now used.
    Executed,
    /// The nonce was already used: the proposal was skipped.
    AlreadyComplete,
    /// The resource id is not bound to an asset; the nonce stays unused.
    AssetNotBound,
    /// The data cannot be read as an amount and a recipient; the nonce stays unused.
    InvalidData,
    /// Moving the asset failed; the nonce stays unused.
    TransactorFailed,
}

/// What the bridge reports.
#[derive(Clone, Debug, PartialEq, Eq)]
pub enum Event {
    /// A transfer left for a destination domain:
    /// destination, resource id, nonce, sender, deposit data, handler response.
    Deposit(DomainID, ResourceId, DepositNonce, AccountId, Vec<u8>, Vec<u8>),
    /// A retry of a source transaction was requested.
    Retry(H256),
    /// The bridge was paused; carries this chain's domain.
    BridgePaused(DomainID),
    /// The bridge was unpaused; carries this chain's domain.
    BridgeUnpaused(DomainID),
}

} // verus!
