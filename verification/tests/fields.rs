use alloy_primitives::B256;
use payload_sidecar::AmsterdamPayloadFields;
use payload_sidecar::CancunPayloadFields;
use payload_sidecar::MaybeAmsterdamPayloadFields;
use payload_sidecar::MaybeCancunPayloadFields;
use payload_sidecar::MaybePraguePayloadFields;
use payload_sidecar::PraguePayloadFields;
use payload_sidecar::Requests;
use payload_sidecar::RequestsOrHash;

#[test]
fn amsterdam_new_keeps_the_list() {
    let fields = AmsterdamPayloadFields::new(vec![vec![1, 2], vec![3]]);
    assert_eq!(fields.il, vec![vec![1, 2], vec![3]]);
}

#[test]
fn amsterdam_default_has_an_empty_list() {
    let fields = AmsterdamPayloadFields::default();
    assert_eq!(fields.il, Vec::<Vec<u8>>::new());
}

#[test]
fn maybe_amsterdam_none_holds_nothing() {
    let maybe = MaybeAmsterdamPayloadFields::none();
    assert_eq!(maybe.il(), None);
    assert_eq!(maybe.as_ref(), None);
    assert_eq!(maybe.into_inner(), None);
    assert_eq!(MaybeAmsterdamPayloadFields::default(), MaybeAmsterdamPayloadFields::none());
}

#[test]
fn maybe_amsterdam_from_fields_holds_them() {
    let fields = AmsterdamPayloadFields::new(vec![vec![1, 2], vec![], vec![3]]);
    let maybe = MaybeAmsterdamPayloadFields::from_fields(fields.clone());
    assert_eq!(maybe.il(), Some(&vec![vec![1, 2], vec![], vec![3]]));
    assert_eq!(maybe.as_ref(), Some(&fields));
    assert_eq!(maybe.into_inner(), Some(fields));
}

#[test]
fn maybe_amsterdam_from_conversions() {
    let fields = AmsterdamPayloadFields::new(vec![vec![9]]);
    let direct = MaybeAmsterdamPayloadFields::from(fields.clone());
    assert_eq!(direct, MaybeAmsterdamPayloadFields::from_fields(fields.clone()));
    let some = MaybeAmsterdamPayloadFields::from(Some(fields.clone()));
    assert_eq!(some, MaybeAmsterdamPayloadFields::from_fields(fields));
    let none = MaybeAmsterdamPayloadFields::from(None);
    assert_eq!(none, MaybeAmsterdamPayloadFields::none());
}

#[test]
fn cancun_new_keeps_root_and_hashes() {
    let fields = CancunPayloadFields::new(
        B256::repeat_byte(0x11),
        vec![B256::repeat_byte(0x02), B256::repeat_byte(0x01)],
    );
    assert_eq!(fields.parent_beacon_block_root, B256::repeat_byte(0x11));
    assert_eq!(
        fields.versioned_hashes,
        vec![B256::repeat_byte(0x02), B256::repeat_byte(0x01)]
    );
}

#[test]
fn cancun_hash_order_matters() {
    let a = CancunPayloadFields::new(
        B256::ZERO,
        vec![B256::repeat_byte(0x01), B256::repeat_byte(0x02)],
    );
    let b = CancunPayloadFields::new(
        B256::ZERO,
        vec![B256::repeat_byte(0x02), B256::repeat_byte(0x01)],
    );
    assert_ne!(a, b);
    let hashes_a = MaybeCancunPayloadFields::from_fields(a);
    let hashes_b = MaybeCancunPayloadFields::from_fields(b);
    assert_ne!(hashes_a.versioned_hashes(), hashes_b.versioned_hashes());
}

#[test]
fn maybe_cancun_none_holds_nothing() {
    let maybe = MaybeCancunPayloadFields::none();
    assert_eq!(maybe.parent_beacon_block_root(), None);
    assert_eq!(maybe.versioned_hashes(), None);
    assert_eq!(maybe.as_ref(), None);
    assert_eq!(maybe.into_inner(), None);
    assert_eq!(MaybeCancunPayloadFields::default(), MaybeCancunPayloadFields::none());
}

#[test]
fn maybe_cancun_from_fields_holds_them() {
    let fields = CancunPayloadFields::new(B256::repeat_byte(0x11), vec![B256::repeat_byte(0x02)]);
    let maybe = MaybeCancunPayloadFields::from_fields(fields.clone());
    assert_eq!(maybe.parent_beacon_block_root(), Some(B256::repeat_byte(0x11)));
    assert_eq!(maybe.versioned_hashes(), Some(&vec![B256::repeat_byte(0x02)]));
    assert_eq!(maybe.as_ref(), Some(&fields));
    assert_eq!(maybe.into_inner(), Some(fields));
}

#[test]
fn maybe_cancun_from_conversions() {
    let fields = CancunPayloadFields::new(B256::repeat_byte(0x11), vec![]);
    assert_eq!(
        MaybeCancunPayloadFields::from(fields.clone()),
        MaybeCancunPayloadFields::from_fields(fields.clone())
    );
    assert_eq!(
        MaybeCancunPayloadFields::from(Some(fields.clone())),
        MaybeCancunPayloadFields::from_fields(fields)
    );
    assert_eq!(MaybeCancunPayloadFields::from(None), MaybeCancunPayloadFields::none());
}

#[test]
fn prague_new_from_requests_holds_the_list() {
    let requests = Requests::new(vec![vec![0x00, 0x01]]);
    let fields = PraguePayloadFields::new(requests.clone());
    assert_eq!(fields.requests, RequestsOrHash::Requests(requests.clone()));
    assert_eq!(fields.requests(), Some(&requests));
}

#[test]
fn prague_new_from_digest_holds_the_digest() {
    let digest = B256::repeat_byte(0x5a);
    let fields = PraguePayloadFields::new(digest);
    assert_eq!(fields.requests, RequestsOrHash::Hash(digest));
    assert_eq!(fields.requests(), None);
    assert_eq!(fields.requests_hash(), digest);
}

#[test]
fn prague_new_from_either_keeps_it() {
    let either = RequestsOrHash::Hash(B256::repeat_byte(0x5a));
    let fields = PraguePayloadFields::new(either.clone());
    assert_eq!(fields.requests, either);
}

#[test]
fn maybe_prague_none_holds_nothing() {
    let maybe = MaybePraguePayloadFields::none();
    assert_eq!(maybe.requests(), None);
    assert_eq!(maybe.requests_hash(), None);
    assert_eq!(maybe.as_ref(), None);
    assert_eq!(maybe.into_inner(), None);
    assert_eq!(MaybePraguePayloadFields::default(), MaybePraguePayloadFields::none());
}

#[test]
fn maybe_prague_with_list_exposes_list_and_digest() {
    let requests = Requests::new(vec![vec![0x00, 0x01, 0x02], vec![0x01, 0xaa]]);
    let fields = PraguePayloadFields::new(requests.clone());
    let maybe = MaybePraguePayloadFields::from_fields(fields.clone());
    assert_eq!(maybe.requests(), Some(&requests));
    assert_eq!(maybe.requests_hash(), Some(requests.requests_hash()));
    assert_eq!(maybe.as_ref(), Some(&fields));
    assert_eq!(maybe.into_inner(), Some(fields));
}

#[test]
fn maybe_prague_with_digest_hides_the_list() {
    let digest = B256::repeat_byte(0x5a);
    let maybe = MaybePraguePayloadFields::from_fields(PraguePayloadFields::new(digest));
    assert_eq!(maybe.requests(), None);
    assert_eq!(maybe.requests_hash(), Some(digest));
}

#[test]
fn maybe_prague_from_conversions() {
    let fields = PraguePayloadFields::new(B256::repeat_byte(0x5a));
    assert_eq!(
        MaybePraguePayloadFields::from(fields.clone()),
        MaybePraguePayloadFields::from_fields(fields.clone())
    );
    assert_eq!(
        MaybePraguePayloadFields::from(Some(fields.clone())),
        MaybePraguePayloadFields::from_fields(fields)
    );
    assert_eq!(MaybePraguePayloadFields::from(None), MaybePraguePayloadFields::none());
}
