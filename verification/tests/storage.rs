use jstz_proto::context::{ExecutionContext, Resolved};
use jstz_proto::kv::{Edit, Kv};
use jstz_proto::ledger::Ledger;
use jstz_proto::address::Address;
use jstz_proto::error::Error;

#[test]
fn committed_writes_are_visible() {
    let mut kv = Kv::new();
    let mut tx = kv.begin_transaction();
    tx.insert(b"a".to_vec(), b"1".to_vec());
    tx.insert(b"b".to_vec(), b"2".to_vec());
    tx.insert(b"a".to_vec(), b"3".to_vec());
    assert_eq!(tx.get(&kv, b"a"), Some(&b"3".to_vec()));
    assert_eq!(kv.get(b"a"), None);
    kv.commit_transaction(tx);
    assert_eq!(kv.get(b"a"), Some(&b"3".to_vec()));
    assert_eq!(kv.get(b"b"), Some(&b"2".to_vec()));
    assert_eq!(kv.get(b"c"), None);
}

#[test]
fn rolled_back_writes_are_not_visible() {
    let mut kv = Kv::new();
    let mut first = kv.begin_transaction();
    first.insert(b"a".to_vec(), b"1".to_vec());
    kv.commit_transaction(first);
    let mut second = kv.begin_transaction();
    second.insert(b"a".to_vec(), b"2".to_vec());
    second.remove(b"a".to_vec());
    second.insert(b"b".to_vec(), b"3".to_vec());
    assert_eq!(second.get(&kv, b"a"), None);
    assert_eq!(second.get(&kv, b"b"), Some(&b"3".to_vec()));
    kv.rollback_transaction(second);
    assert_eq!(kv.get(b"a"), Some(&b"1".to_vec()));
    assert_eq!(kv.get(b"b"), None);
}

#[test]
fn removal_commits_too() {
    let mut kv = Kv::new();
    let mut first = kv.begin_transaction();
    first.insert(b"a".to_vec(), b"1".to_vec());
    kv.commit_transaction(first);
    let mut second = kv.begin_transaction();
    second.remove(b"a".to_vec());
    assert_eq!(second.get(&kv, b"a"), None);
    kv.commit_transaction(second);
    assert_eq!(kv.get(b"a"), None);
}

#[test]
fn transaction_extend_makes_writes_in_order() {
    let kv = Kv::new();
    let mut tx = kv.begin_transaction();
    tx.insert(b"a".to_vec(), b"0".to_vec());
    tx.extend(vec![
        Edit { key: b"a".to_vec(), value: Some(b"1".to_vec()) },
        Edit { key: b"a".to_vec(), value: Some(b"2".to_vec()) },
    ]);
    assert_eq!(tx.get(&kv, b"a"), Some(&b"2".to_vec()));
}

#[test]
fn context_commit_and_rollback_are_recorded() {
    let mut ctx = ExecutionContext::new(Kv::new());
    assert!(!ctx.is_open());
    ctx.begin();
    assert!(ctx.is_open());
    ctx.write(Edit { key: b"k".to_vec(), value: Some(b"v".to_vec()) });
    assert_eq!(ctx.read(b"k"), Some(&b"v".to_vec()));
    assert_eq!(ctx.committed(b"k"), None);
    ctx.commit();
    assert!(!ctx.is_open());
    assert_eq!(ctx.committed(b"k"), Some(&b"v".to_vec()));
    ctx.begin();
    ctx.write_all(vec![Edit { key: b"k".to_vec(), value: None }]);
    assert_eq!(ctx.read(b"k"), None);
    ctx.rollback();
    assert_eq!(ctx.committed(b"k"), Some(&b"v".to_vec()));
    assert_eq!(ctx.resolutions(), &vec![Resolved::Committed, Resolved::RolledBack]);
}

#[test]
fn ledger_creates_accounts_once() {
    let mut ledger = Ledger::new();
    let address = Address::digest(b"function");
    assert!(ledger.account(&address).is_none());
    assert_eq!(ledger.contract_code(&address), None);
    assert_eq!(ledger.nonce(&address), 0);
    assert_eq!(ledger.create(&address, 5, Some("export default 1".to_string())), Ok(()));
    let account = ledger.account(&address).unwrap();
    assert_eq!(account.nonce, 0);
    assert_eq!(account.amount, 5);
    assert_eq!(ledger.contract_code(&address), Some(&"export default 1".to_string()));
    assert_eq!(ledger.create(&address, 9, None), Err(Error::AccountExists));
    assert_eq!(ledger.account(&address).unwrap().amount, 5);
}

#[test]
fn ledger_nonce_advances_by_one() {
    let mut ledger = Ledger::new();
    let address = Address::digest(b"account");
    assert_eq!(ledger.increment_nonce(&address), Some(1));
    assert_eq!(ledger.nonce(&address), 1);
    assert_eq!(ledger.account(&address).unwrap().amount, 0);
    assert_eq!(ledger.increment_nonce(&address), Some(2));
    assert_eq!(ledger.nonce(&address), 2);
    let other = Address::digest(b"other");
    assert_eq!(ledger.create(&other, 7, Some("code".to_string())), Ok(()));
    assert_eq!(ledger.increment_nonce(&other), Some(1));
    assert_eq!(ledger.account(&other).unwrap().amount, 7);
    assert_eq!(ledger.contract_code(&other), Some(&"code".to_string()));
    assert_eq!(ledger.nonce(&address), 2);
}
