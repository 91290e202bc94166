use vstd::prelude::*;

use crate::identity::Identity;
use crate::ledger::{transfer_spec, LedgerView};
use crate::messenger::{
    deregister_spec, initialize_config_spec, recipient_fee, register_spec, send_charges, send_message_spec,
    set_min_fee_spec, update_config_spec, update_encryption_key_spec, Deregister, InitializeConfig, Register,
    SendMessage, SetMinFee, UpdateConfig, UpdateEncryptionKey,
};
use crate::state::MessengerError;
use crate::MAX_CIPHERTEXT_LEN;

verus! {

/// Every registry record sits in the slot derived from its own owner.
pub open spec fn slots_match_owners(v: LedgerView) -> bool {
    forall|k: Identity| #[trigger] v.registries.contains_key(k) ==> v.registries[k].owner == k
}

/// A fresh ledger has no records, so every record sits in its owner's slot.
pub proof fn lemma_empty_slots_match(v: LedgerView)
    requires
        v.registries == Map::<Identity, crate::state::EncryptionRegistry>::empty(),
    ensures
        slots_match_owners(v),
{
}

/// No request moves a registry record out of its owner's slot.
pub proof fn lemma_requests_keep_slots(
    v: LedgerView,
    key: Identity,
    fee: u64,
    now: i64,
    c_reg: Register,
    c_key: UpdateEncryptionKey,
    c_fee: SetMinFee,
    c_dereg: Deregister,
    c_init: InitializeConfig,
    c_upd: UpdateConfig,
    vault: Option<Identity>,
    protocol_fee: Option<u64>,
    c_send: SendMessage,
    recipient: Identity,
    ciphertext: Vec<u8>,
    nonce: [u8; 24],
)
    requires
        slots_match_owners(v),
    ensures
        register_spec(v, c_reg, key, now) is Ok ==> slots_match_owners(register_spec(v, c_reg, key, now)->Ok_0),
        update_encryption_key_spec(v, c_key, key, now) is Ok ==> slots_match_owners(
            update_encryption_key_spec(v, c_key, key, now)->Ok_0,
        ),
        set_min_fee_spec(v, c_fee, fee, now) is Ok ==> slots_match_owners(set_min_fee_spec(v, c_fee, fee, now)->Ok_0),
        deregister_spec(v, c_dereg) is Ok ==> slots_match_owners(deregister_spec(v, c_dereg)->Ok_0),
        initialize_config_spec(v, c_init, key, fee, now) is Ok ==> slots_match_owners(
            initialize_config_spec(v, c_init, key, fee, now)->Ok_0,
        ),
        update_config_spec(v, c_upd, vault, protocol_fee, now) is Ok ==> slots_match_owners(
            update_config_spec(v, c_upd, vault, protocol_fee, now)->Ok_0,
        ),
        send_message_spec(v, c_send, recipient, ciphertext, nonce, now) is Ok ==> slots_match_owners(
            send_message_spec(v, c_send, recipient, ciphertext, nonce, now)->Ok_0,
        ),
{
}

/// The size gate of a send: an empty ciphertext is refused as empty, one over
/// the limit as too large, and for every length in between the outcome is
/// that of the account checks and fee transfers alone.
pub proof fn lemma_send_size_gate(
    v: LedgerView,
    ctx: SendMessage,
    recipient: Identity,
    ciphertext: Vec<u8>,
    nonce: [u8; 24],
    now: i64,
)
    ensures
        ciphertext@.len() == 0 ==> send_message_spec(v, ctx, recipient, ciphertext, nonce, now) == Err::<
            LedgerView,
            MessengerError,
        >(MessengerError::EmptyMessage),
        ciphertext@.len() > MAX_CIPHERTEXT_LEN ==> send_message_spec(v, ctx, recipient, ciphertext, nonce, now) == Err::<
            LedgerView,
            MessengerError,
        >(MessengerError::MessageTooLarge),
        1 <= ciphertext@.len() <= MAX_CIPHERTEXT_LEN ==> (send_message_spec(v, ctx, recipient, ciphertext, nonce, now) is Ok
            <==> send_charges(v, ctx, recipient) is Ok),
{
}

/// Once an identity has registered, registering it again fails, whatever
/// key or time the second request carries.
pub proof fn lemma_register_twice_refused(
    v: LedgerView,
    first: Register,
    key1: Identity,
    now1: i64,
    second: Register,
    key2: Identity,
    now2: i64,
)
    requires
        register_spec(v, first, key1, now1) is Ok,
        second.owner == first.owner,
    ensures
        register_spec(register_spec(v, first, key1, now1)->Ok_0, second, key2, now2) == Err::<
            LedgerView,
            MessengerError,
        >(MessengerError::AlreadyRegistered),
{
}

/// A signer who does not own an existing registry record can neither change
/// its key, nor its fee, nor delete it.
pub proof fn lemma_non_owner_refused(
    v: LedgerView,
    slot: Identity,
    signer: Identity,
    key: Identity,
    fee: u64,
    now: i64,
)
    requires
        v.registries.contains_key(slot),
        v.registries[slot].owner != signer,
    ensures
        update_encryption_key_spec(v, UpdateEncryptionKey { registry: slot, owner: signer }, key, now) == Err::<
            LedgerView,
            MessengerError,
        >(MessengerError::Unauthorized),
        set_min_fee_spec(v, SetMinFee { registry: slot, owner: signer }, fee, now) == Err::<
            LedgerView,
            MessengerError,
        >(MessengerError::Unauthorized),
        deregister_spec(v, Deregister { registry: slot, owner: signer }) == Err::<LedgerView, MessengerError>(
            MessengerError::Unauthorized,
        ),
{
}

/// After a registration, the owner's slot holds the key given, no fee, and
/// the time of the request as both timestamps.
pub proof fn lemma_register_read_back(v: LedgerView, ctx: Register, key: Identity, now: i64)
    requires
        register_spec(v, ctx, key, now) is Ok,
    ensures
        ({
            let w = register_spec(v, ctx, key, now)->Ok_0;
            &&& w.registries.contains_key(ctx.owner)
            &&& w.registries[ctx.owner].owner == ctx.owner
            &&& w.registries[ctx.owner].encryption_key == key
            &&& w.registries[ctx.owner].min_fee == 0
            &&& w.registries[ctx.owner].created_at == now
            &&& w.registries[ctx.owner].updated_at == now
        }),
{
}

/// After a fee change, the record holds the new fee and its key and creation
/// time as before; its update time is the request's, so it moves forward
/// whenever the request is later than the last change.
pub proof fn lemma_set_min_fee_read_back(v: LedgerView, ctx: SetMinFee, fee: u64, now: i64)
    requires
        set_min_fee_spec(v, ctx, fee, now) is Ok,
    ensures
        ({
            let w = set_min_fee_spec(v, ctx, fee, now)->Ok_0;
            let before = v.registries[ctx.registry];
            &&& w.registries.contains_key(ctx.registry)
            &&& w.registries[ctx.registry].min_fee == fee
            &&& w.registries[ctx.registry].encryption_key == before.encryption_key
            &&& w.registries[ctx.registry].owner == before.owner
            &&& w.registries[ctx.registry].created_at == before.created_at
            &&& w.registries[ctx.registry].updated_at == now
            &&& now > before.updated_at ==> w.registries[ctx.registry].updated_at > before.updated_at
        }),
{
}

/// Where the protocol fee could be paid but the recipient's fee could not,
/// the send fails as a whole (and `send_message` then leaves the ledger as
/// it was, protocol fee included).
pub proof fn lemma_fee_atomicity(
    v: LedgerView,
    ctx: SendMessage,
    recipient: Identity,
    ciphertext: Vec<u8>,
    nonce: [u8; 24],
    now: i64,
    after_protocol: Map<Identity, u64>,
)
    requires
        1 <= ciphertext@.len() <= MAX_CIPHERTEXT_LEN,
        v.config is Some,
        ctx.fee_vault == v.config->Some_0.fee_vault,
        ctx.recipient_wallet == recipient,
        v.config->Some_0.protocol_fee > 0,
        transfer_spec(v.balances, ctx.sender, ctx.fee_vault, v.config->Some_0.protocol_fee) == Ok::<
            Map<Identity, u64>,
            MessengerError,
        >(after_protocol),
        recipient_fee(v, recipient) > 0,
        transfer_spec(after_protocol, ctx.sender, recipient, recipient_fee(v, recipient)) == Err::<
            Map<Identity, u64>,
            MessengerError,
        >(MessengerError::InsufficientFunds),
    ensures
        send_message_spec(v, ctx, recipient, ciphertext, nonce, now) == Err::<LedgerView, MessengerError>(
            MessengerError::InsufficientFunds,
        ),
{
}

/// Deregistering empties the owner's slot, and the owner can register again.
pub proof fn lemma_deregister_frees_slot(v: LedgerView, ctx: Deregister, key: Identity, now: i64)
    requires
        slots_match_owners(v),
        deregister_spec(v, ctx) is Ok,
    ensures
        !(deregister_spec(v, ctx)->Ok_0).registries.contains_key(ctx.owner),
        register_spec(deregister_spec(v, ctx)->Ok_0, Register { owner: ctx.owner }, key, now) is Ok,
{
    assert(v.registries[ctx.registry].owner == ctx.registry);
}

} // verus!
