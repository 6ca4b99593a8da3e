use wred_client::mutation::{build_mutation_request, method_name, submit_mutation, MutationKind};

#[test]
fn persist_request_carries_the_serialized_credential() {
    let req = submit_mutation(MutationKind::Persist, 5, "secret").expect("strings serialize");
    assert_eq!(req.kind, MutationKind::Persist);
    assert_eq!(req.id, 5);
    // Compact serialization: varint length prefix, then the UTF-8 bytes —
    // not the raw credential bytes themselves.
    assert_eq!(req.body, vec![6, b's', b'e', b'c', b'r', b'e', b't']);
    assert_ne!(req.body, b"secret".to_vec());
    assert_eq!(req.body, postcard::to_allocvec("secret").unwrap());
}

#[test]
fn discard_request_targets_the_same_entry() {
    let req = submit_mutation(MutationKind::Discard, 77, "k").expect("strings serialize");
    assert_eq!(req.kind, MutationKind::Discard);
    assert_eq!(req.id, 77);
    assert_eq!(req.body, vec![1, b'k']);
}

#[test]
fn empty_credential_serializes_to_a_lone_length_byte() {
    let req = submit_mutation(MutationKind::Persist, 1, "").expect("strings serialize");
    assert_eq!(req.body, vec![0]);
}

#[test]
fn methods_follow_the_mutation_kind() {
    assert_eq!(method_name(MutationKind::Persist), "POST");
    assert_eq!(method_name(MutationKind::Discard), "DELETE");
}

#[test]
fn request_builder_is_exact() {
    let req = build_mutation_request(MutationKind::Discard, 9, vec![1, 2, 3]);
    assert_eq!(req.kind, MutationKind::Discard);
    assert_eq!(req.id, 9);
    assert_eq!(req.body, vec![1, 2, 3]);
}
