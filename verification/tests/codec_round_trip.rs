use proof_system::codec::{deserialize_meta_statements, serialize_meta_statements};
use proof_system::meta_statement::{EqualWitnesses, MetaStatement, MetaStatements};

fn views(m: &MetaStatements) -> Vec<Vec<(usize, usize)>> {
    m.0.iter()
        .map(|ms| match ms {
            MetaStatement::WitnessEquality(e) => e.0.clone(),
        })
        .collect()
}

#[test]
fn meta_statements_round_trip() {
    let mut m = MetaStatements::new();
    m.add_witness_equality(EqualWitnesses(vec![(0, 1), (1, 0)]));
    m.add_witness_equality(EqualWitnesses(vec![(0, 4), (2, 0), (3, 7)]));
    let bytes = serialize_meta_statements(&m);
    let back = deserialize_meta_statements(&bytes).unwrap();
    assert_eq!(views(&m), views(&back));
}

#[test]
fn empty_meta_statements_round_trip() {
    let m = MetaStatements::new();
    let bytes = serialize_meta_statements(&m);
    assert_eq!(bytes.len(), 8);
    let back = deserialize_meta_statements(&bytes).unwrap();
    assert_eq!(views(&back), Vec::<Vec<(usize, usize)>>::new());
}

#[test]
fn encoding_is_exactly_le_counts_and_indices() {
    let mut m = MetaStatements::new();
    m.add_witness_equality(EqualWitnesses(vec![(1, 2)]));
    let bytes = serialize_meta_statements(&m);
    let mut expected: Vec<u8> = Vec::new();
    expected.extend_from_slice(&1u64.to_le_bytes());
    expected.extend_from_slice(&1u64.to_le_bytes());
    expected.extend_from_slice(&1u64.to_le_bytes());
    expected.extend_from_slice(&2u64.to_le_bytes());
    assert_eq!(bytes, expected);
}

#[test]
fn truncated_and_padded_buffers_are_rejected() {
    let mut m = MetaStatements::new();
    m.add_witness_equality(EqualWitnesses(vec![(0, 1), (1, 0)]));
    let bytes = serialize_meta_statements(&m);
    let mut truncated = bytes.clone();
    truncated.pop();
    assert!(deserialize_meta_statements(&truncated).is_none());
    let mut padded = bytes.clone();
    padded.push(0);
    assert!(deserialize_meta_statements(&padded).is_none());
    let empty: Vec<u8> = Vec::new();
    assert!(deserialize_meta_statements(&empty).is_none());
}
