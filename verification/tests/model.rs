use nautilink::{CrateRecord, ErrorCode, OperationType, Pubkey};

#[test]
fn bounds_of_a_record() {
    assert_eq!(CrateRecord::MAX_PARENTS, 10);
    assert_eq!(CrateRecord::MAX_CHILDREN, 10);
    assert_eq!(CrateRecord::MAX_SIZE, 985);
}

#[test]
fn keys_are_equal_when_all_their_bytes_are() {
    let a = Pubkey([7; 32]);
    let b = Pubkey([7; 32]);
    assert!(a == b);
    assert!(!(a != b));
    for i in 0..32 {
        let mut bytes = [7u8; 32];
        bytes[i] = 8;
        assert!(a != Pubkey(bytes));
    }
}

#[test]
fn every_refusal_has_its_text() {
    assert_eq!(
        ErrorCode::WeightMismatchOnTransfer.message(),
        "Weight must remain the same during transfer"
    );
    assert_eq!(
        ErrorCode::MixRequiresMultipleParents.message(),
        "Mix operation requires at least 2 parent crates"
    );
    assert_eq!(
        ErrorCode::SplitRequiresMultipleChildren.message(),
        "Split operation requires at least 2 child crates"
    );
    assert_eq!(ErrorCode::TooManyParents.message(), "Too many parent crates (max 10)");
    assert_eq!(ErrorCode::TooManyChildren.message(), "Too many child crates (max 10)");
    assert_eq!(
        ErrorCode::ChildKeyWeightMismatch.message(),
        "Child keys and weights arrays must have same length"
    );
    assert_eq!(
        ErrorCode::SplitWeightMismatch.message(),
        "Sum of split weights must equal parent weight"
    );
    assert_eq!(ErrorCode::WeightOverflow.message(), "Weight calculation overflow");
    assert_eq!(ErrorCode::UnauthorizedUpdate.message(), "Unauthorized to update this record");
}

#[test]
fn kinds_of_operation_are_distinct() {
    let kinds = [
        OperationType::Created,
        OperationType::Transferred,
        OperationType::Mixed,
        OperationType::Split,
    ];
    for (i, a) in kinds.iter().enumerate() {
        for (j, b) in kinds.iter().enumerate() {
            assert_eq!(a == b, i == j);
        }
    }
}
