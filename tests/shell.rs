use anoma_shell::genesis::{genesis_roster, KeypairGenerationError, VALIDATOR_COUNT, VALIDATOR_VOTING_POWER};
use anoma_shell::node::{run, Request, Response};
use anoma_shell::shell::{reset, ApplyError, MempoolTxType, Shell, ValidationError};
use anoma_shell::transaction::Transaction;

fn tx(count: u64) -> Vec<u8> {
    prost::Message::encode_to_vec(&count)
}

#[test]
fn end_to_end_counter() {
    let mut shell = Shell::new();
    assert_eq!(shell.count(), 0);
    assert!(shell.apply_tx(&tx(1)).is_ok());
    assert_eq!(shell.commit().0, vec![0, 0, 0, 0, 0, 0, 0, 1]);
    assert!(shell.apply_tx(&tx(2)).is_ok());
    assert_eq!(shell.commit().0, vec![0, 0, 0, 0, 0, 0, 0, 2]);
    let r = shell.mempool_validate(&tx(4), MempoolTxType::NewTransaction);
    assert!(matches!(
        r,
        Err(ValidationError::NotIncremental { previous: 2, found: 4 })
    ));
    assert_eq!(shell.count(), 2);
}

#[test]
fn commit_twice_same_root() {
    let mut shell = Shell::new();
    shell.apply_tx(&tx(41)).unwrap();
    let a = shell.commit();
    let b = shell.commit();
    assert_eq!(a.0, b.0);
    assert_eq!(a.0, vec![0, 0, 0, 0, 0, 0, 0, 41]);
}

#[test]
fn commit_is_big_endian() {
    let mut shell = Shell::new();
    shell.apply_tx(&tx(0x0102_0304_0506_0708)).unwrap();
    assert_eq!(shell.commit().0, vec![1, 2, 3, 4, 5, 6, 7, 8]);
    shell.apply_tx(&tx(u64::MAX)).unwrap();
    assert_eq!(shell.commit().0, vec![0xff; 8]);
}

#[test]
fn apply_then_commit_from_different_histories() {
    // Reach counter 7 in two ways, then apply 8.
    let mut direct = Shell::new();
    direct.apply_tx(&tx(7)).unwrap();
    let mut stepwise = Shell::new();
    for c in 1..=7u64 {
        stepwise.mempool_validate(&tx(c), MempoolTxType::NewTransaction).unwrap();
        stepwise.apply_tx(&tx(c)).unwrap();
        stepwise.commit();
    }
    direct.apply_tx(&tx(8)).unwrap();
    stepwise.apply_tx(&tx(8)).unwrap();
    assert_eq!(direct.commit().0, vec![0, 0, 0, 0, 0, 0, 0, 8]);
    assert_eq!(stepwise.commit().0, vec![0, 0, 0, 0, 0, 0, 0, 8]);
}

#[test]
fn admission_only_next_value() {
    for bad in [5u64, 7, 0, 100, u64::MAX] {
        let mut shell = Shell::new();
        shell.apply_tx(&tx(5)).unwrap();
        let r = shell.mempool_validate(&tx(bad), MempoolTxType::NewTransaction);
        match r {
            Err(ValidationError::NotIncremental { previous, found }) => {
                assert_eq!(previous, 5);
                assert_eq!(found, bad);
            }
            _ => panic!("value {} should be refused", bad),
        }
        assert_eq!(shell.count(), 5);
    }
    let mut shell = Shell::new();
    shell.apply_tx(&tx(5)).unwrap();
    assert!(shell
        .mempool_validate(&tx(6), MempoolTxType::RecheckTransaction)
        .is_ok());
    assert_eq!(shell.count(), 5);
}

#[test]
fn admission_chains_pending_transactions() {
    let mut shell = Shell::new();
    assert!(shell.mempool_validate(&tx(1), MempoolTxType::NewTransaction).is_ok());
    assert!(shell.mempool_validate(&tx(2), MempoolTxType::NewTransaction).is_ok());
    assert!(shell.mempool_validate(&tx(2), MempoolTxType::NewTransaction).is_err());
    assert_eq!(shell.count(), 0);
    // Block holds tx 1 only: the pool restarts from the committed counter.
    shell.apply_tx(&tx(1)).unwrap();
    assert!(shell
        .mempool_validate(&tx(2), MempoolTxType::RecheckTransaction)
        .is_ok());
    assert!(shell.mempool_validate(&tx(3), MempoolTxType::NewTransaction).is_ok());
}

#[test]
fn reset_discards_pool_cursor() {
    let mut shell = Shell::new();
    shell.apply_tx(&tx(3)).unwrap();
    shell.mempool_validate(&tx(4), MempoolTxType::NewTransaction).unwrap();
    shell.mempool_validate(&tx(5), MempoolTxType::NewTransaction).unwrap();
    reset(&mut shell);
    assert_eq!(shell.count(), 3);
    assert!(shell.mempool_validate(&tx(6), MempoolTxType::NewTransaction).is_err());
    assert!(shell.mempool_validate(&tx(4), MempoolTxType::NewTransaction).is_ok());
}

#[test]
fn malformed_bytes_are_decode_errors() {
    let bad: Vec<u8> = vec![0x08];
    let mut shell = Shell::new();
    shell.apply_tx(&tx(9)).unwrap();
    match shell.mempool_validate(&bad, MempoolTxType::NewTransaction) {
        Err(ValidationError::Decode(e)) => {
            assert_eq!(e.bytes, bad);
            assert!(!e.cause.is_empty());
        }
        _ => panic!("expected a decode error"),
    }
    assert_eq!(shell.count(), 9);
    match shell.apply_tx(&bad) {
        Err(ApplyError::Decode(e)) => assert_eq!(e.bytes, bad),
        _ => panic!("expected a decode error"),
    }
    assert_eq!(shell.count(), 9);
    // A wrong wire type for the counter field is malformed too.
    assert!(matches!(
        shell.apply_tx(&[0x0a, 0x01, 0x00]),
        Err(ApplyError::Decode(_))
    ));
    assert_eq!(shell.commit().0, vec![0, 0, 0, 0, 0, 0, 0, 9]);
}

#[test]
fn decode_reads_counter() {
    assert_eq!(Transaction::decode(&tx(300)).unwrap(), Transaction { count: 300 });
    assert_eq!(Transaction::decode(&[0x08, 0x96, 0x01]).unwrap().count, 150);
    assert_eq!(Transaction::decode(&[]).unwrap().count, 0);
    assert!(Transaction::decode(&[0xff]).is_err());
}

#[test]
fn empty_transaction_carries_zero() {
    let mut shell = Shell::new();
    let r = shell.mempool_validate(&[], MempoolTxType::NewTransaction);
    assert!(matches!(
        r,
        Err(ValidationError::NotIncremental { previous: 0, found: 0 })
    ));
}

#[test]
fn genesis_roster_shape() {
    let params = Shell::init_chain().unwrap();
    let validators = params.validators();
    assert_eq!(validators.len(), 10);
    assert_eq!(VALIDATOR_COUNT, 10);
    for (i, v) in validators.iter().enumerate() {
        assert_eq!(v.voting_power, 10);
        assert_eq!(v.voting_power, VALIDATOR_VOTING_POWER);
        for w in &validators[i + 1..] {
            assert_ne!(v.pk, w.pk);
        }
    }
}

#[test]
fn genesis_roster_from_keys() {
    let keys: Vec<[u8; 32]> = (0..3u8).map(|b| [b; 32]).collect();
    let params = genesis_roster(&keys).unwrap();
    let validators = params.validators();
    assert_eq!(validators.len(), 3);
    for (v, k) in validators.iter().zip(keys.iter()) {
        assert_eq!(&v.pk, k);
        assert_eq!(v.voting_power, 10);
    }
    let mut repeated = keys.clone();
    repeated.push([1; 32]);
    let err = genesis_roster(&repeated).unwrap_err();
    assert_eq!(err, KeypairGenerationError::DuplicateKey { index: 3 });
    assert_eq!(genesis_roster(&Vec::new()).unwrap().validators().len(), 0);
}

#[test]
fn requests_dispatch_to_shell() {
    let mut shell = Shell::new();
    let check = Request::CheckTx { tx: tx(1), kind: MempoolTxType::NewTransaction };
    assert!(matches!(run(&mut shell, &check), Response::CheckTx(Ok(()))));
    assert_eq!(shell.count(), 0);
    let deliver = Request::DeliverTx { tx: tx(1) };
    assert!(matches!(run(&mut shell, &deliver), Response::DeliverTx(Ok(()))));
    match run(&mut shell, &Request::Commit) {
        Response::Commit(root) => assert_eq!(root.0, vec![0, 0, 0, 0, 0, 0, 0, 1]),
        _ => panic!("expected a commit response"),
    }
    let stale = Request::CheckTx { tx: tx(1), kind: MempoolTxType::RecheckTransaction };
    assert!(matches!(
        run(&mut shell, &stale),
        Response::CheckTx(Err(ValidationError::NotIncremental { previous: 1, found: 1 }))
    ));
    let bad = Request::DeliverTx { tx: vec![0x08] };
    assert!(matches!(run(&mut shell, &bad), Response::DeliverTx(Err(ApplyError::Decode(_)))));
    assert_eq!(shell.count(), 1);
}
