use vstd::prelude::*;

use crate::identity::Identity;
use crate::ledger::{transfer, transfer_spec, Ledger, LedgerView};
use crate::state::{EncryptionRegistry, MessageSent, MessengerError, PlatformConfig};
use crate::MAX_CIPHERTEXT_LEN;

verus! {

/// Signer of a configuration-creating request.
#[derive(Clone, Copy, Debug, PartialEq, Eq)]
pub struct InitializeConfig {
    pub authority: Identity,
}

/// Signer of a configuration-changing request.
#[derive(Clone, Copy, Debug, PartialEq, Eq)]
pub struct UpdateConfig {
    pub authority: Identity,
}

/// Accounts of a send: the signing sender, the fee vault it names, and the
/// wallet that is to receive the recipient's fee.
#[derive(Clone, Copy, Debug, PartialEq, Eq)]
pub struct SendMessage {
    pub sender: Identity,
    pub fee_vault: Identity,
    pub recipient_wallet: Identity,
}

/// Signer of a registration; the record goes in the signer's own slot.
#[derive(Clone, Copy, Debug, PartialEq, Eq)]
pub struct Register {
    pub owner: Identity,
}

/// The registry slot addressed (named by the identity it is derived from)
/// and the signer of the request.
#[derive(Clone, Copy, Debug, PartialEq, Eq)]
pub struct UpdateEncryptionKey {
    pub registry: Identity,
    pub owner: Identity,
}

/// The registry slot addressed and the signer of the request.
#[derive(Clone, Copy, Debug, PartialEq, Eq)]
pub struct SetMinFee {
    pub registry: Identity,
    pub owner: Identity,
}

/// The registry slot addressed and the signer of the request.
#[derive(Clone, Copy, Debug, PartialEq, Eq)]
pub struct Deregister {
    pub registry: Identity,
    pub owner: Identity,
}

pub open spec fn initialize_config_spec(
    v: LedgerView,
    ctx: InitializeConfig,
    fee_vault: Identity,
    protocol_fee: u64,
    now: i64,
) -> Result<LedgerView, MessengerError> {
    if v.config is Some {
        Err(MessengerError::AlreadyInitialized)
    } else {
        Ok(
            LedgerView {
                config: Some(
                    PlatformConfig { authority: ctx.authority, fee_vault, protocol_fee, updated_at: now },
                ),
                ..v
            },
        )
    }
}

pub open spec fn update_config_spec(
    v: LedgerView,
    ctx: UpdateConfig,
    fee_vault: Option<Identity>,
    protocol_fee: Option<u64>,
    now: i64,
) -> Result<LedgerView, MessengerError> {
    match v.config {
        None => Err(MessengerError::NotFound),
        Some(c) => if c.authority != ctx.authority {
            Err(MessengerError::Unauthorized)
        } else {
            Ok(
                LedgerView {
                    config: Some(
                        PlatformConfig {
                            authority: c.authority,
                            fee_vault: match fee_vault {
                                Some(f) => f,
                                None => c.fee_vault,
                            },
                            protocol_fee: match protocol_fee {
                                Some(p) => p,
                                None => c.protocol_fee,
                            },
                            updated_at: now,
                        },
                    ),
                    ..v
                },
            )
        },
    }
}

/// What the recipient charges per message: its registry's `min_fee`, or nothing.
pub open spec fn recipient_fee(v: LedgerView, recipient: Identity) -> u64 {
    if v.registries.contains_key(recipient) {
        v.registries[recipient].min_fee
    } else {
        0
    }
}

/// The account checks and the two fee transfers of a send, giving the
/// balances afterwards.
pub open spec fn send_charges(v: LedgerView, ctx: SendMessage, recipient: Identity) -> Result<
    Map<Identity, u64>,
    MessengerError,
> {
    match v.config {
        None => Err(MessengerError::NotFound),
        Some(c) => if ctx.fee_vault != c.fee_vault {
            Err(MessengerError::InvalidFeeVault)
        } else if recipient_fee(v, recipient) > 0 && ctx.recipient_wallet != recipient {
            Err(MessengerError::InvalidRecipientWallet)
        } else {
            let after_protocol = if c.protocol_fee > 0 {
                transfer_spec(v.balances, ctx.sender, c.fee_vault, c.protocol_fee)
            } else {
                Ok(v.balances)
            };
            match after_protocol {
                Err(e) => Err(e),
                Ok(b) => if recipient_fee(v, recipient) > 0 {
                    transfer_spec(b, ctx.sender, ctx.recipient_wallet, recipient_fee(v, recipient))
                } else {
                    Ok(b)
                },
            }
        },
    }
}

pub open spec fn send_message_spec(
    v: LedgerView,
    ctx: SendMessage,
    recipient: Identity,
    ciphertext: Vec<u8>,
    nonce: [u8; 24],
    now: i64,
) -> Result<LedgerView, MessengerError> {
    if ciphertext@.len() == 0 {
        Err(MessengerError::EmptyMessage)
    } else if ciphertext@.len() > MAX_CIPHERTEXT_LEN {
        Err(MessengerError::MessageTooLarge)
    } else {
        match send_charges(v, ctx, recipient) {
            Err(e) => Err(e),
            Ok(b) => Ok(
                LedgerView {
                    balances: b,
                    events: v.events.push(
                        MessageSent { sender: ctx.sender, recipient, ciphertext, nonce, timestamp: now },
                    ),
                    ..v
                },
            ),
        }
    }
}

pub open spec fn register_spec(v: LedgerView, ctx: Register, encryption_pubkey: Identity, now: i64) -> Result<
    LedgerView,
    MessengerError,
> {
    if v.registries.contains_key(ctx.owner) {
        Err(MessengerError::AlreadyRegistered)
    } else {
        Ok(
            LedgerView {
                registries: v.registries.insert(
                    ctx.owner,
                    EncryptionRegistry {
                        owner: ctx.owner,
                        encryption_key: encryption_pubkey,
                        min_fee: 0,
                        created_at: now,
                        updated_at: now,
                    },
                ),
                ..v
            },
        )
    }
}

/// Why a request by `signer` on the registry in `slot` is refused, if it is.
pub open spec fn registry_access_error(v: LedgerView, slot: Identity, signer: Identity) -> Option<
    MessengerError,
> {
    if !v.registries.contains_key(slot) {
        Some(MessengerError::NotFound)
    } else if v.registries[slot].owner != signer {
        Some(MessengerError::Unauthorized)
    } else {
        None
    }
}

pub open spec fn update_encryption_key_spec(
    v: LedgerView,
    ctx: UpdateEncryptionKey,
    new_encryption_pubkey: Identity,
    now: i64,
) -> Result<LedgerView, MessengerError> {
    match registry_access_error(v, ctx.registry, ctx.owner) {
        Some(e) => Err(e),
        None => Ok(
            LedgerView {
                registries: v.registries.insert(
                    ctx.registry,
                    EncryptionRegistry {
                        encryption_key: new_encryption_pubkey,
                        updated_at: now,
                        ..v.registries[ctx.registry]
                    },
                ),
                ..v
            },
        ),
    }
}

pub open spec fn set_min_fee_spec(v: LedgerView, ctx: SetMinFee, min_fee: u64, now: i64) -> Result<
    LedgerView,
    MessengerError,
> {
    match registry_access_error(v, ctx.registry, ctx.owner) {
        Some(e) => Err(e),
        None => Ok(
            LedgerView {
                registries: v.registries.insert(
                    ctx.registry,
                    EncryptionRegistry { min_fee, updated_at: now, ..v.registries[ctx.registry] },
                ),
                ..v
            },
        ),
    }
}

pub open spec fn deregister_spec(v: LedgerView, ctx: Deregister) -> Result<LedgerView, MessengerError> {
    match registry_access_error(v, ctx.registry, ctx.owner) {
        Some(e) => Err(e),
        None => Ok(LedgerView { registries: v.registries.remove(ctx.registry), ..v }),
    }
}

/// Creates the configuration record; the signer becomes its authority.
pub fn initialize_config(
    ledger: &mut Ledger,
    ctx: &InitializeConfig,
    fee_vault: Identity,
    protocol_fee: u64,
    now: i64,
) -> (r: Result<(), MessengerError>)
    requires
        old(ledger).wf(),
    ensures
        final(ledger).wf(),
        match initialize_config_spec(old(ledger)@, *ctx, fee_vault, protocol_fee, now) {
            Ok(v) => r is Ok && final(ledger)@ == v,
            Err(e) => r == Err::<(), MessengerError>(e) && *final(ledger) == *old(ledger),
        },
{
    if ledger.config().is_some() {
        return Err(MessengerError::AlreadyInitialized);
    }
    ledger.set_config(PlatformConfig { authority: ctx.authority, fee_vault, protocol_fee, updated_at: now });
    Ok(())
}

/// Replaces the fields given, leaving the others; only the authority may.
pub fn update_config(
    ledger: &mut Ledger,
    ctx: &UpdateConfig,
    fee_vault: Option<Identity>,
    protocol_fee: Option<u64>,
    now: i64,
) -> (r: Result<(), MessengerError>)
    requires
        old(ledger).wf(),
    ensures
        final(ledger).wf(),
        match update_config_spec(old(ledger)@, *ctx, fee_vault, protocol_fee, now) {
            Ok(v) => r is Ok && final(ledger)@ == v,
            Err(e) => r == Err::<(), MessengerError>(e) && *final(ledger) == *old(ledger),
        },
{
    let mut config = match ledger.config() {
        Some(c) => c,
        None => return Err(MessengerError::NotFound),
    };
    if !config.authority.same_as(&ctx.authority) {
        return Err(MessengerError::Unauthorized);
    }
    if let Some(vault) = fee_vault {
        config.fee_vault = vault;
    }
    if let Some(fee) = protocol_fee {
        config.protocol_fee = fee;
    }
    config.updated_at = now;
    ledger.set_config(config);
    Ok(())
}

/// What a send to `recipient` owes the recipient: the `min_fee` of its
/// registry record, or nothing where it has none.
pub fn fee_due_to_recipient(ledger: &Ledger, recipient: &Identity) -> (r: u64)
    requires
        ledger.wf(),
    ensures
        r == recipient_fee(ledger@, *recipient),
{
    match ledger.registry(recipient) {
        Some(record) => record.min_fee,
        None => 0,
    }
}

/// Publishes an encrypted message: checks its size and accounts, charges the
/// protocol fee and the recipient's fee, and emits one notification. Either
/// all of this happens or nothing does.
pub fn send_message(
    ledger: &mut Ledger,
    ctx: &SendMessage,
    recipient: Identity,
    ciphertext: Vec<u8>,
    nonce: [u8; 24],
    now: i64,
) -> (r: Result<(), MessengerError>)
    requires
        old(ledger).wf(),
    ensures
        final(ledger).wf(),
        match send_message_spec(old(ledger)@, *ctx, recipient, ciphertext, nonce, now) {
            Ok(v) => r is Ok && final(ledger)@ == v,
            Err(e) => r == Err::<(), MessengerError>(e) && *final(ledger) == *old(ledger),
        },
{
    if ciphertext.len() == 0 {
        return Err(MessengerError::EmptyMessage);
    }
    if ciphertext.len() > MAX_CIPHERTEXT_LEN {
        return Err(MessengerError::MessageTooLarge);
    }
    let config = match ledger.config() {
        Some(c) => c,
        None => return Err(MessengerError::NotFound),
    };
    if !ctx.fee_vault.same_as(&config.fee_vault) {
        return Err(MessengerError::InvalidFeeVault);
    }
    let fee_to_recipient = fee_due_to_recipient(ledger, &recipient);
    if fee_to_recipient > 0 && !ctx.recipient_wallet.same_as(&recipient) {
        return Err(MessengerError::InvalidRecipientWallet);
    }
    let mut balances = ledger.balances_copy();
    if config.protocol_fee > 0 {
        match transfer(&mut balances, ctx.sender, config.fee_vault, config.protocol_fee) {
            Ok(()) => {},
            Err(e) => return Err(e),
        }
    }
    if fee_to_recipient > 0 {
        match transfer(&mut balances, ctx.sender, ctx.recipient_wallet, fee_to_recipient) {
            Ok(()) => {},
            Err(e) => return Err(e),
        }
    }
    let event = MessageSent { sender: ctx.sender, recipient, ciphertext, nonce, timestamp: now };
    ledger.commit(balances, event);
    Ok(())
}

/// Creates the signer's registry record with the given key and no fee.
pub fn register(ledger: &mut Ledger, ctx: &Register, encryption_pubkey: Identity, now: i64) -> (r: Result<
    (),
    MessengerError,
>)
    requires
        old(ledger).wf(),
    ensures
        final(ledger).wf(),
        match register_spec(old(ledger)@, *ctx, encryption_pubkey, now) {
            Ok(v) => r is Ok && final(ledger)@ == v,
            Err(e) => r == Err::<(), MessengerError>(e) && *final(ledger) == *old(ledger),
        },
{
    if ledger.registry(&ctx.owner).is_some() {
        return Err(MessengerError::AlreadyRegistered);
    }
    let record = EncryptionRegistry {
        owner: ctx.owner,
        encryption_key: encryption_pubkey,
        min_fee: 0,
        created_at: now,
        updated_at: now,
    };
    ledger.put_registry(ctx.owner, record);
    Ok(())
}

/// The record in `slot`, if `signer` owns it; else why not.
fn owned_record(ledger: &Ledger, slot: &Identity, signer: &Identity) -> (r: Result<
    EncryptionRegistry,
    MessengerError,
>)
    requires
        ledger.wf(),
    ensures
        match registry_access_error(ledger@, *slot, *signer) {
            Some(e) => r == Err::<EncryptionRegistry, MessengerError>(e),
            None => r == Ok::<EncryptionRegistry, MessengerError>(ledger@.registries[*slot]),
        },
{
    match ledger.registry(slot) {
        None => Err(MessengerError::NotFound),
        Some(record) => if record.owner.same_as(signer) {
            Ok(record)
        } else {
            Err(MessengerError::Unauthorized)
        },
    }
}

/// Replaces the owner's published encryption key.
pub fn update_encryption_key(
    ledger: &mut Ledger,
    ctx: &UpdateEncryptionKey,
    new_encryption_pubkey: Identity,
    now: i64,
) -> (r: Result<(), MessengerError>)
    requires
        old(ledger).wf(),
    ensures
        final(ledger).wf(),
        match update_encryption_key_spec(old(ledger)@, *ctx, new_encryption_pubkey, now) {
            Ok(v) => r is Ok && final(ledger)@ == v,
            Err(e) => r == Err::<(), MessengerError>(e) && *final(ledger) == *old(ledger),
        },
{
    let mut record = match owned_record(ledger, &ctx.registry, &ctx.owner) {
        Ok(record) => record,
        Err(e) => return Err(e),
    };
    record.encryption_key = new_encryption_pubkey;
    record.updated_at = now;
    ledger.put_registry(ctx.registry, record);
    Ok(())
}

/// Sets the fee the owner asks of each sender; no upper bound.
pub fn set_min_fee(ledger: &mut Ledger, ctx: &SetMinFee, min_fee: u64, now: i64) -> (r: Result<
    (),
    MessengerError,
>)
    requires
        old(ledger).wf(),
    ensures
        final(ledger).wf(),
        match set_min_fee_spec(old(ledger)@, *ctx, min_fee, now) {
            Ok(v) => r is Ok && final(ledger)@ == v,
            Err(e) => r == Err::<(), MessengerError>(e) && *final(ledger) == *old(ledger),
        },
{
    let mut record = match owned_record(ledger, &ctx.registry, &ctx.owner) {
        Ok(record) => record,
        Err(e) => return Err(e),
    };
    record.min_fee = min_fee;
    record.updated_at = now;
    ledger.put_registry(ctx.registry, record);
    Ok(())
}

/// Deletes the owner's registry record, freeing its slot.
pub fn deregister(ledger: &mut Ledger, ctx: &Deregister) -> (r: Result<(), MessengerError>)
    requires
        old(ledger).wf(),
    ensures
        final(ledger).wf(),
        match deregister_spec(old(ledger)@, *ctx) {
            Ok(v) => r is Ok && final(ledger)@ == v,
            Err(e) => r == Err::<(), MessengerError>(e) && *final(ledger) == *old(ledger),
        },
{
    match owned_record(ledger, &ctx.registry, &ctx.owner) {
        Ok(_) => {},
        Err(e) => return Err(e),
    }
    ledger.remove_registry(&ctx.registry);
    Ok(())
}

} // verus!
