use vstd::prelude::*;

use crate::identity::Identity;

verus! {

/// The single platform-wide configuration record.
#[derive(Clone, Copy, Debug, PartialEq, Eq)]
pub struct PlatformConfig {
    /// Who may change this record.
    pub authority: Identity,
    /// Where protocol fees go.
    pub fee_vault: Identity,
    /// Lamports charged for every message.
    pub protocol_fee: u64,
    pub updated_at: i64,
}

/// One participant's published encryption key and inbound fee.
#[derive(Clone, Copy, Debug, PartialEq, Eq)]
pub struct EncryptionRegistry {
    pub owner: Identity,
    pub encryption_key: Identity,
    /// Lamports a sender pays this owner per message; zero means no charge.
    pub min_fee: u64,
    pub created_at: i64,
    pub updated_at: i64,
}

/// The notification appended to the event log by a successful send.
#[derive(Clone, Debug)]
pub struct MessageSent {
    pub sender: Identity,
    pub recipient: Identity,
    pub ciphertext: Vec<u8>,
    pub nonce: [u8; 24],
    pub timestamp: i64,
}

/// Why a request was rejected. A rejected request changes nothing.
#[derive(Clone, Copy, Debug, PartialEq, Eq, Structural)]
pub enum MessengerError {
    /// The ciphertext is longer than the protocol allows.
    MessageTooLarge,
    /// The ciphertext is empty.
    EmptyMessage,
    /// The fee account supplied is not the configured fee vault.
    InvalidFeeVault,
    /// The wallet that would receive the recipient's fee is not the recipient.
    InvalidRecipientWallet,
    /// The signer does not control the record.
    Unauthorized,
    /// The configuration record already exists.
    AlreadyInitialized,
    /// The identity already has a registry record.
    AlreadyRegistered,
    /// The record does not exist.
    NotFound,
    /// The payer's balance cannot cover a transfer.
    InsufficientFunds,
    /// A transfer would push the receiving balance past the largest amount.
    BalanceOverflow,
}

} // verus!
