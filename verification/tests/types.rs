use astria_conductor::types::{bytes_eq, copy_bytes, Block, CommitmentState, Timestamp};

#[test]
fn bytes_eq_compares_contents() {
    assert!(bytes_eq(&vec![1, 2, 3], &vec![1, 2, 3]));
    assert!(!bytes_eq(&vec![1, 2, 3], &vec![1, 2, 4]));
    assert!(!bytes_eq(&vec![1, 2], &vec![1, 2, 3]));
    assert!(bytes_eq(&vec![], &vec![]));
}

#[test]
fn copies_keep_contents() {
    assert_eq!(copy_bytes(&vec![9, 8, 7]), vec![9, 8, 7]);
    let b = Block {
        number: 4,
        hash: vec![1; 32],
        parent_block_hash: vec![0; 32],
        timestamp: Some(Timestamp { seconds: 10, nanos: 20 }),
    };
    let cs = CommitmentState { soft: Some(b.clone()), firm: None };
    let copy = cs.clone();
    let soft = copy.soft.unwrap();
    assert_eq!(soft.number, 4);
    assert_eq!(soft.hash, vec![1; 32]);
    assert_eq!(soft.parent_block_hash, vec![0; 32]);
    assert_eq!(soft.timestamp, Some(Timestamp { seconds: 10, nanos: 20 }));
    assert!(copy.firm.is_none());
}

