use messenger::identity::Identity;
use messenger::ledger::Ledger;
use messenger::messenger::{
    deregister, initialize_config, register, send_message, set_min_fee, update_config, update_encryption_key,
    Deregister, InitializeConfig, Register, SendMessage, SetMinFee, UpdateConfig, UpdateEncryptionKey,
};
use messenger::state::{EncryptionRegistry, MessengerError, PlatformConfig};
use messenger::MAX_CIPHERTEXT_LEN;

fn id(b: u8) -> Identity {
    Identity::new([b; 32])
}

const AUTHORITY: u8 = 1;
const VAULT: u8 = 2;
const SENDER: u8 = 3;
const RECIPIENT: u8 = 4;
const STRANGER: u8 = 5;
const KEY: u8 = 9;

/// A ledger with a config charging `protocol_fee` and a funded sender.
fn setup(protocol_fee: u64, sender_funds: u64) -> Ledger {
    let mut l = Ledger::new();
    let ctx = InitializeConfig { authority: id(AUTHORITY) };
    assert_eq!(initialize_config(&mut l, &ctx, id(VAULT), protocol_fee, 10), Ok(()));
    if sender_funds > 0 {
        assert_eq!(l.credit(id(SENDER), sender_funds), Ok(()));
    }
    l
}

fn send_ctx() -> SendMessage {
    SendMessage { sender: id(SENDER), fee_vault: id(VAULT), recipient_wallet: id(RECIPIENT) }
}

fn register_recipient_with_fee(l: &mut Ledger, fee: u64) {
    assert_eq!(register(l, &Register { owner: id(RECIPIENT) }, id(KEY), 20), Ok(()));
    let ctx = SetMinFee { registry: id(RECIPIENT), owner: id(RECIPIENT) };
    assert_eq!(set_min_fee(l, &ctx, fee, 21), Ok(()));
}

#[test]
fn identity_comparison() {
    let mut b = [7u8; 32];
    assert!(id(7).same_as(&Identity::new(b)));
    b[31] = 8;
    assert!(!id(7).same_as(&Identity::new(b)));
}

#[test]
fn initialize_config_sets_fields() {
    let l = setup(100, 0);
    let expected = PlatformConfig { authority: id(AUTHORITY), fee_vault: id(VAULT), protocol_fee: 100, updated_at: 10 };
    assert_eq!(l.config(), Some(expected));
}

#[test]
fn initialize_config_twice_fails() {
    let mut l = setup(100, 0);
    let ctx = InitializeConfig { authority: id(STRANGER) };
    assert_eq!(initialize_config(&mut l, &ctx, id(STRANGER), 0, 11), Err(MessengerError::AlreadyInitialized));
    assert_eq!(l.config().unwrap().fee_vault, id(VAULT));
}

#[test]
fn update_config_is_partial() {
    let mut l = setup(100, 0);
    let ctx = UpdateConfig { authority: id(AUTHORITY) };
    assert_eq!(update_config(&mut l, &ctx, None, Some(7), 30), Ok(()));
    let c = l.config().unwrap();
    assert_eq!((c.fee_vault, c.protocol_fee, c.updated_at), (id(VAULT), 7, 30));
    assert_eq!(update_config(&mut l, &ctx, Some(id(STRANGER)), None, 31), Ok(()));
    let c = l.config().unwrap();
    assert_eq!((c.fee_vault, c.protocol_fee, c.updated_at), (id(STRANGER), 7, 31));
}

#[test]
fn update_config_by_stranger_fails() {
    let mut l = setup(100, 0);
    let ctx = UpdateConfig { authority: id(STRANGER) };
    assert_eq!(update_config(&mut l, &ctx, None, Some(0), 30), Err(MessengerError::Unauthorized));
    assert_eq!(l.config().unwrap().protocol_fee, 100);
}

#[test]
fn update_config_before_initialize_fails() {
    let mut l = Ledger::new();
    let ctx = UpdateConfig { authority: id(AUTHORITY) };
    assert_eq!(update_config(&mut l, &ctx, None, Some(0), 30), Err(MessengerError::NotFound));
}

#[test]
fn send_size_bounds() {
    let mut l = setup(0, 0);
    let ctx = send_ctx();
    assert_eq!(send_message(&mut l, &ctx, id(RECIPIENT), vec![], [0u8; 24], 40), Err(MessengerError::EmptyMessage));
    let too_big = vec![1u8; MAX_CIPHERTEXT_LEN + 1];
    assert_eq!(too_big.len(), 901);
    assert_eq!(send_message(&mut l, &ctx, id(RECIPIENT), too_big, [0u8; 24], 40), Err(MessengerError::MessageTooLarge));
    assert_eq!(l.events().len(), 0);
    assert_eq!(send_message(&mut l, &ctx, id(RECIPIENT), vec![1u8; 900], [0u8; 24], 40), Ok(()));
    assert_eq!(send_message(&mut l, &ctx, id(RECIPIENT), vec![1u8], [0u8; 24], 41), Ok(()));
    assert_eq!(l.events().len(), 2);
    assert_eq!(l.events()[0].ciphertext.len(), 900);
}

#[test]
fn send_without_config_fails() {
    let mut l = Ledger::new();
    assert_eq!(send_message(&mut l, &send_ctx(), id(RECIPIENT), vec![1], [0u8; 24], 40), Err(MessengerError::NotFound));
}

#[test]
fn send_with_wrong_fee_vault_fails() {
    let mut l = setup(100, 1000);
    let ctx = SendMessage { fee_vault: id(STRANGER), ..send_ctx() };
    assert_eq!(send_message(&mut l, &ctx, id(RECIPIENT), vec![1], [0u8; 24], 40), Err(MessengerError::InvalidFeeVault));
    assert_eq!(l.balance(&id(SENDER)), 1000);
    assert_eq!(l.balance(&id(STRANGER)), 0);
}

#[test]
fn send_with_wrong_recipient_wallet_fails() {
    let mut l = setup(100, 1000);
    register_recipient_with_fee(&mut l, 50);
    let ctx = SendMessage { recipient_wallet: id(STRANGER), ..send_ctx() };
    assert_eq!(
        send_message(&mut l, &ctx, id(RECIPIENT), vec![1], [0u8; 24], 40),
        Err(MessengerError::InvalidRecipientWallet)
    );
    assert_eq!(l.balance(&id(SENDER)), 1000);
}

#[test]
fn send_charges_both_fees() {
    let mut l = setup(100, 200);
    register_recipient_with_fee(&mut l, 50);
    let nonce = [3u8; 24];
    assert_eq!(send_message(&mut l, &send_ctx(), id(RECIPIENT), vec![5, 6, 7], nonce, 50), Ok(()));
    assert_eq!(l.balance(&id(SENDER)), 50);
    assert_eq!(l.balance(&id(VAULT)), 100);
    assert_eq!(l.balance(&id(RECIPIENT)), 50);
    assert_eq!(l.events().len(), 1);
    let e = &l.events()[0];
    assert_eq!(e.sender, id(SENDER));
    assert_eq!(e.recipient, id(RECIPIENT));
    assert_eq!(e.ciphertext, vec![5, 6, 7]);
    assert_eq!(e.nonce, nonce);
    assert_eq!(e.timestamp, 50);
}

#[test]
fn send_to_unregistered_charges_protocol_fee_only() {
    let mut l = setup(100, 200);
    assert_eq!(send_message(&mut l, &send_ctx(), id(RECIPIENT), vec![5], [0u8; 24], 50), Ok(()));
    assert_eq!(l.balance(&id(SENDER)), 100);
    assert_eq!(l.balance(&id(VAULT)), 100);
    assert_eq!(l.balance(&id(RECIPIENT)), 0);
    assert_eq!(l.events().len(), 1);
}

#[test]
fn send_to_zero_fee_registry_charges_protocol_fee_only() {
    let mut l = setup(100, 200);
    register_recipient_with_fee(&mut l, 0);
    let ctx = SendMessage { recipient_wallet: id(STRANGER), ..send_ctx() };
    assert_eq!(send_message(&mut l, &ctx, id(RECIPIENT), vec![5], [0u8; 24], 50), Ok(()));
    assert_eq!(l.balance(&id(SENDER)), 100);
    assert_eq!(l.balance(&id(STRANGER)), 0);
}

#[test]
fn send_rolls_back_protocol_fee_when_recipient_fee_fails() {
    let mut l = setup(100, 120);
    register_recipient_with_fee(&mut l, 50);
    assert_eq!(
        send_message(&mut l, &send_ctx(), id(RECIPIENT), vec![5], [0u8; 24], 50),
        Err(MessengerError::InsufficientFunds)
    );
    assert_eq!(l.balance(&id(SENDER)), 120);
    assert_eq!(l.balance(&id(VAULT)), 0);
    assert_eq!(l.balance(&id(RECIPIENT)), 0);
    assert_eq!(l.events().len(), 0);
}

#[test]
fn send_without_funds_for_protocol_fee_fails() {
    let mut l = setup(100, 99);
    assert_eq!(
        send_message(&mut l, &send_ctx(), id(RECIPIENT), vec![5], [0u8; 24], 50),
        Err(MessengerError::InsufficientFunds)
    );
    assert_eq!(l.balance(&id(SENDER)), 99);
}

#[test]
fn send_free_when_no_fees() {
    let mut l = setup(0, 0);
    assert_eq!(send_message(&mut l, &send_ctx(), id(RECIPIENT), vec![5], [0u8; 24], 50), Ok(()));
    assert_eq!(l.events().len(), 1);
}

#[test]
fn send_fee_overflowing_vault_fails() {
    let mut l = setup(100, 200);
    assert_eq!(l.credit(id(VAULT), u64::MAX - 50), Ok(()));
    assert_eq!(
        send_message(&mut l, &send_ctx(), id(RECIPIENT), vec![5], [0u8; 24], 50),
        Err(MessengerError::BalanceOverflow)
    );
    assert_eq!(l.balance(&id(SENDER)), 200);
}

#[test]
fn sender_paying_itself_keeps_balance() {
    let mut l = Ledger::new();
    let ctx = InitializeConfig { authority: id(AUTHORITY) };
    assert_eq!(initialize_config(&mut l, &ctx, id(SENDER), 100, 10), Ok(()));
    assert_eq!(l.credit(id(SENDER), 100), Ok(()));
    let ctx = SendMessage { sender: id(SENDER), fee_vault: id(SENDER), recipient_wallet: id(RECIPIENT) };
    assert_eq!(send_message(&mut l, &ctx, id(RECIPIENT), vec![5], [0u8; 24], 50), Ok(()));
    assert_eq!(l.balance(&id(SENDER)), 100);
}

#[test]
fn credit_overflow_fails() {
    let mut l = Ledger::new();
    assert_eq!(l.credit(id(SENDER), u64::MAX), Ok(()));
    assert_eq!(l.credit(id(SENDER), 1), Err(MessengerError::BalanceOverflow));
    assert_eq!(l.balance(&id(SENDER)), u64::MAX);
}

#[test]
fn register_then_read_back() {
    let mut l = Ledger::new();
    assert_eq!(register(&mut l, &Register { owner: id(RECIPIENT) }, id(KEY), 20), Ok(()));
    let expected = EncryptionRegistry {
        owner: id(RECIPIENT),
        encryption_key: id(KEY),
        min_fee: 0,
        created_at: 20,
        updated_at: 20,
    };
    assert_eq!(l.registry(&id(RECIPIENT)), Some(expected));
    assert_eq!(l.registry(&id(SENDER)), None);
}

#[test]
fn register_twice_fails() {
    let mut l = Ledger::new();
    assert_eq!(register(&mut l, &Register { owner: id(RECIPIENT) }, id(KEY), 20), Ok(()));
    assert_eq!(register(&mut l, &Register { owner: id(RECIPIENT) }, id(8), 25), Err(MessengerError::AlreadyRegistered));
    assert_eq!(l.registry(&id(RECIPIENT)).unwrap().encryption_key, id(KEY));
}

#[test]
fn set_min_fee_then_read_back() {
    let mut l = Ledger::new();
    assert_eq!(register(&mut l, &Register { owner: id(RECIPIENT) }, id(KEY), 20), Ok(()));
    let ctx = SetMinFee { registry: id(RECIPIENT), owner: id(RECIPIENT) };
    assert_eq!(set_min_fee(&mut l, &ctx, 7, 30), Ok(()));
    let r = l.registry(&id(RECIPIENT)).unwrap();
    assert_eq!((r.min_fee, r.created_at, r.updated_at, r.encryption_key), (7, 20, 30, id(KEY)));
}

#[test]
fn update_encryption_key_replaces_key() {
    let mut l = Ledger::new();
    assert_eq!(register(&mut l, &Register { owner: id(RECIPIENT) }, id(KEY), 20), Ok(()));
    let ctx = UpdateEncryptionKey { registry: id(RECIPIENT), owner: id(RECIPIENT) };
    assert_eq!(update_encryption_key(&mut l, &ctx, id(8), 30), Ok(()));
    let r = l.registry(&id(RECIPIENT)).unwrap();
    assert_eq!((r.encryption_key, r.min_fee, r.created_at, r.updated_at), (id(8), 0, 20, 30));
}

#[test]
fn non_owner_requests_fail() {
    let mut l = Ledger::new();
    assert_eq!(register(&mut l, &Register { owner: id(RECIPIENT) }, id(KEY), 20), Ok(()));
    let k = UpdateEncryptionKey { registry: id(RECIPIENT), owner: id(STRANGER) };
    assert_eq!(update_encryption_key(&mut l, &k, id(8), 30), Err(MessengerError::Unauthorized));
    let f = SetMinFee { registry: id(RECIPIENT), owner: id(STRANGER) };
    assert_eq!(set_min_fee(&mut l, &f, 7, 30), Err(MessengerError::Unauthorized));
    let d = Deregister { registry: id(RECIPIENT), owner: id(STRANGER) };
    assert_eq!(deregister(&mut l, &d), Err(MessengerError::Unauthorized));
    let r = l.registry(&id(RECIPIENT)).unwrap();
    assert_eq!((r.encryption_key, r.min_fee, r.updated_at), (id(KEY), 0, 20));
}

#[test]
fn requests_on_missing_record_fail() {
    let mut l = Ledger::new();
    let k = UpdateEncryptionKey { registry: id(RECIPIENT), owner: id(RECIPIENT) };
    assert_eq!(update_encryption_key(&mut l, &k, id(8), 30), Err(MessengerError::NotFound));
    let f = SetMinFee { registry: id(RECIPIENT), owner: id(RECIPIENT) };
    assert_eq!(set_min_fee(&mut l, &f, 7, 30), Err(MessengerError::NotFound));
    let d = Deregister { registry: id(RECIPIENT), owner: id(RECIPIENT) };
    assert_eq!(deregister(&mut l, &d), Err(MessengerError::NotFound));
}

#[test]
fn deregister_then_register_again() {
    let mut l = Ledger::new();
    assert_eq!(register(&mut l, &Register { owner: id(SENDER) }, id(KEY), 19), Ok(()));
    assert_eq!(register(&mut l, &Register { owner: id(RECIPIENT) }, id(KEY), 20), Ok(()));
    let d = Deregister { registry: id(RECIPIENT), owner: id(RECIPIENT) };
    assert_eq!(deregister(&mut l, &d), Ok(()));
    assert_eq!(l.registry(&id(RECIPIENT)), None);
    assert_eq!(l.registry(&id(SENDER)).unwrap().created_at, 19);
    assert_eq!(register(&mut l, &Register { owner: id(RECIPIENT) }, id(8), 40), Ok(()));
    assert_eq!(l.registry(&id(RECIPIENT)).unwrap().encryption_key, id(8));
}

#[test]
fn fee_due_follows_registry() {
    let mut l = setup(100, 0);
    assert_eq!(messenger::messenger::fee_due_to_recipient(&l, &id(RECIPIENT)), 0);
    register_recipient_with_fee(&mut l, 50);
    assert_eq!(messenger::messenger::fee_due_to_recipient(&l, &id(RECIPIENT)), 50);
    assert_eq!(messenger::messenger::fee_due_to_recipient(&l, &id(STRANGER)), 0);
}
