use noise_prekeys::bundle::{
    DigestAction, DigestCheck, DigestEvent, DigestOutcome, DigestResponse, QueryFailure,
};
use noise_prekeys::device::DeviceKeys;
use noise_prekeys::fetch::fetch_pre_keys;
use noise_prekeys::records::{generate_key_pairs, new_pre_key_record, PreKeyPair};
use noise_prekeys::retry::{RetryAction, RetryEvent, UploadRetry};
use noise_prekeys::upload::{
    first_pre_key_id, pre_key_ids, UploadAction, UploadEvent, UploadOutcome, UploadPreKeys,
    UploadRequest,
};
use prost::Message;
use std::collections::HashMap;
use waproto::whatsapp::PreKeyRecordStructure;

/// The store fails to load this pre-key.
const BROKEN_ID: u32 = 1000;

fn device(next_pre_key_id: u32) -> DeviceKeys {
    DeviceKeys {
        registration_id: 4711,
        identity_key: vec![1u8; 32],
        signed_pre_key_id: 9,
        signed_pre_key: vec![2u8; 32],
        signed_pre_key_signature: vec![3u8; 64],
        next_pre_key_id,
    }
}

/// A server and a store, and what goes wrong with them.
#[derive(Default)]
struct World {
    count: usize,
    next_pre_key_id: u32,
    stored: HashMap<u32, (Vec<u8>, bool)>,
    request: Option<UploadRequest>,
    log: Vec<&'static str>,
    fail_count: bool,
    fail_max_id: bool,
    fail_store: bool,
    fail_upload: bool,
    fail_mark: bool,
}

fn result(fails: bool, text: &'static str) -> Result<(), &'static str> {
    if fails {
        Err(text)
    } else {
        Ok(())
    }
}

impl World {
    fn max_id(&self) -> u32 {
        self.stored.keys().copied().max().unwrap_or(0)
    }

    fn upload(&mut self, force: bool) -> Result<UploadOutcome, &'static str> {
        let mut upload = UploadPreKeys::new(force);
        let counted = result(self.fail_count, "count").map(|()| self.count);
        let mut action = upload.step(UploadEvent::Counted(counted));
        loop {
            action = match action {
                UploadAction::ReadDevice => {
                    self.log.push("device");
                    upload.step(UploadEvent::Device(device(self.next_pre_key_id)))
                }
                UploadAction::ReadMaxId => {
                    self.log.push("max id");
                    let max_id = result(self.fail_max_id, "max id").map(|()| self.max_id());
                    upload.step(UploadEvent::MaxId(max_id))
                }
                UploadAction::Store => {
                    self.log.push("store");
                    if !self.fail_store {
                        for (id, record) in upload.encoded_batch() {
                            self.stored.insert(*id, (record.clone(), false));
                        }
                    }
                    upload.step(UploadEvent::Stored(result(self.fail_store, "store")))
                }
                UploadAction::Upload(request) => {
                    self.log.push("upload");
                    self.request = Some(request);
                    upload.step(UploadEvent::Uploaded(result(self.fail_upload, "upload")))
                }
                UploadAction::Mark => {
                    self.log.push("mark");
                    if !self.fail_mark {
                        for (id, record) in upload.encoded_batch() {
                            self.stored.insert(*id, (record.clone(), true));
                        }
                    }
                    upload.step(UploadEvent::Marked(result(self.fail_mark, "mark")))
                }
                UploadAction::SaveCounter(next_id) => {
                    self.log.push("counter");
                    self.next_pre_key_id = next_id;
                    upload.step(UploadEvent::CounterSaved)
                }
                UploadAction::Return(result) => return result,
            };
        }
    }

    fn check(
        &self,
        response: Result<DigestResponse, QueryFailure<&'static str>>,
    ) -> Option<DigestOutcome<&'static str>> {
        let mut check = DigestCheck::new();
        let mut action = check.step(DigestEvent::Queried(response));
        loop {
            action = match action {
                DigestAction::ReadDevice => {
                    check.step(DigestEvent::Device(device(self.next_pre_key_id)))
                }
                DigestAction::LoadPreKey(BROKEN_ID) => {
                    check.step(DigestEvent::Loaded(Err("broken")))
                }
                DigestAction::LoadPreKey(id) => {
                    let record = self.stored.get(&id).map(|(record, _)| record.clone());
                    check.step(DigestEvent::Loaded(Ok(record)))
                }
                DigestAction::UploadAgain => return None,
                DigestAction::Finish(outcome) => return Some(outcome),
            };
        }
    }
}

fn response(reg_id: u32, prekey_ids: Vec<u32>, hash: Vec<u8>) -> DigestResponse {
    DigestResponse { reg_id, prekey_ids, hash }
}

#[test]
fn a_first_upload_starts_after_the_store() {
    let mut world = World { next_pre_key_id: 0, ..World::default() };
    world.stored.insert(6, (vec![], true));
    assert_eq!(world.upload(false), Ok(UploadOutcome::Uploaded { count: 30, start_id: 7 }));
    assert_eq!(world.next_pre_key_id, 37);
    assert_eq!(
        world.log,
        vec!["device", "max id", "store", "upload", "mark", "counter"]
    );
    let request = world.request.unwrap();
    assert_eq!(request.registration_id, 4711);
    assert_eq!(request.identity_key, vec![1u8; 32]);
    assert_eq!(request.signed_pre_key_id, 9);
    assert_eq!(request.signed_pre_key, vec![2u8; 32]);
    assert_eq!(request.signed_pre_key_signature, vec![3u8; 64]);
    let ids: Vec<u32> = request.pre_keys.iter().map(|(id, _)| *id).collect();
    assert_eq!(ids, (7..37).collect::<Vec<u32>>());
}

#[test]
fn a_full_pool_is_left_alone_unless_forced() {
    for (count, force, uploads) in
        [(4, false, true), (5, false, false), (812, false, false), (812, true, true)]
    {
        let mut world = World { count, ..World::default() };
        let outcome = world.upload(force).unwrap();
        assert_eq!(outcome != UploadOutcome::NotNeeded, uploads);
        assert_eq!(world.request.is_some(), uploads);
        assert_eq!(world.log.is_empty(), !uploads);
    }
}

#[test]
fn failures_end_an_upload_where_they_happen() {
    let mut world = World { fail_count: true, ..World::default() };
    assert_eq!(world.upload(true), Err("count"));
    assert!(world.log.is_empty());

    let mut world = World { fail_max_id: true, ..World::default() };
    assert_eq!(world.upload(false), Err("max id"));
    assert_eq!(world.log, vec!["device", "max id"]);

    let mut world = World { fail_store: true, ..World::default() };
    assert_eq!(world.upload(false), Err("store"));
    assert_eq!(world.log, vec!["device", "max id", "store"]);

    let mut world = World { fail_upload: true, ..World::default() };
    assert_eq!(world.upload(false), Err("upload"));
    assert_eq!(world.log, vec!["device", "max id", "store", "upload"]);
    assert_eq!(world.next_pre_key_id, 0);
}

#[test]
fn a_batch_that_cannot_be_marked_counts_all_the_same() {
    let mut world = World { fail_mark: true, next_pre_key_id: 100, ..World::default() };
    assert_eq!(world.upload(false), Ok(UploadOutcome::Uploaded { count: 30, start_id: 100 }));
    assert_eq!(world.next_pre_key_id, 130);
    assert!(world.stored.values().all(|(_, marked)| !marked));
}

#[test]
fn ids_are_not_used_twice_after_a_crash() {
    // The first batch is stored, but the counter does not get saved.
    let mut world = World { next_pre_key_id: 10, fail_upload: true, ..World::default() };
    assert_eq!(world.upload(false), Err("upload"));
    assert_eq!((world.next_pre_key_id, world.max_id()), (10, 39));
    world.fail_upload = false;
    assert_eq!(world.upload(false), Ok(UploadOutcome::Uploaded { count: 30, start_id: 40 }));

    // The store forgets its largest ids, but the counter does not.
    world.stored.retain(|id, _| *id < 20);
    assert_eq!(world.upload(false), Ok(UploadOutcome::Uploaded { count: 30, start_id: 70 }));
}

#[test]
fn ids_run_out() {
    let mut world = World { next_pre_key_id: 0xFF_FFFE, ..World::default() };
    assert_eq!(
        world.upload(false),
        Ok(UploadOutcome::Uploaded { count: 2, start_id: 0xFF_FFFE })
    );
    assert_eq!(world.next_pre_key_id, 0x100_0000);
    world.log.clear();
    assert_eq!(world.upload(false), Ok(UploadOutcome::NoneAvailable));
    assert_eq!(world.log, vec!["device", "max id"]);
    assert_eq!(world.next_pre_key_id, 0x100_0000);
}

#[test]
fn success_leaves_enough_pre_keys_while_ids_last() {
    let mut world = World { count: 4, ..World::default() };
    match world.upload(false) {
        Ok(UploadOutcome::Uploaded { count, .. }) => assert_eq!(world.count + count, 34),
        _ => panic!("the pool should be refilled"),
    }

    // One id is left, and four pre-keys are lacking.
    let mut world = World { count: 1, next_pre_key_id: 0xFF_FFFF, ..World::default() };
    assert_eq!(
        world.upload(false),
        Ok(UploadOutcome::Uploaded { count: 1, start_id: 0xFF_FFFF })
    );
}

#[test]
fn ids_of_a_batch() {
    assert_eq!(first_pre_key_id(0, 0), 1);
    assert_eq!(first_pre_key_id(5, 4), 5);
    assert_eq!(first_pre_key_id(5, 5), 6);
    assert_eq!(first_pre_key_id(u32::MAX, 7), u32::MAX);
    assert_eq!(pre_key_ids(1), (1..31).collect::<Vec<u32>>());
    assert_eq!(pre_key_ids(0xFF_FFE2).len(), 30);
    assert_eq!(pre_key_ids(0xFF_FFE3).len(), 29);
    assert_eq!(pre_key_ids(0xFF_FFFF), vec![0xFF_FFFF]);
    assert!(pre_key_ids(0x100_0000).is_empty());
    assert!(pre_key_ids(u32::MAX).is_empty());
}

#[test]
fn given_pairs_are_stored_and_uploaded_under_their_ids() {
    let mut upload = UploadPreKeys::new(false);
    assert!(matches!(
        upload.step(UploadEvent::<()>::Counted(Ok(0))),
        UploadAction::ReadDevice
    ));
    assert!(matches!(
        upload.step(UploadEvent::<()>::Device(device(0xFF_FFFF))),
        UploadAction::ReadMaxId
    ));
    let pair = PreKeyPair { public_key: vec![0xAA; 32], private_key: vec![0xBB; 32] };
    assert!(matches!(
        upload.with_pairs::<()>(0, vec![pair]),
        UploadAction::Store
    ));
    let mut record = vec![0x08, 0xFF, 0xFF, 0xFF, 0x07, 0x12, 0x20];
    record.extend_from_slice(&[0xAA; 32]);
    record.extend_from_slice(&[0x1A, 0x20]);
    record.extend_from_slice(&[0xBB; 32]);
    assert_eq!(upload.encoded_batch(), &vec![(0xFF_FFFF, record)]);
    match upload.step(UploadEvent::<()>::Stored(Ok(()))) {
        UploadAction::Upload(request) => {
            assert_eq!(request.pre_keys, vec![(0xFF_FFFF, vec![0xAA; 32])]);
        }
        _ => panic!("the batch should be uploaded"),
    }
}

#[test]
fn the_store_has_the_keys_that_the_server_is_given() {
    let mut world = World::default();
    world.upload(false).unwrap();
    let request = world.request.unwrap();
    assert_eq!(request.pre_keys.len(), world.stored.len());
    for (id, public_key) in &request.pre_keys {
        let (record, marked) = &world.stored[id];
        assert!(marked);
        let record = PreKeyRecordStructure::decode(record.as_slice()).unwrap();
        assert_eq!(record.id, Some(*id));
        assert_eq!(record.public_key.as_ref(), Some(public_key));
        let private_key = wacore::libsignal::protocol::PrivateKey::deserialize(
            record.private_key.unwrap().as_slice(),
        )
        .unwrap();
        assert_eq!(
            private_key.public_key().unwrap().public_key_bytes(),
            public_key.as_slice()
        );
    }
}

#[test]
fn key_pairs_differ() {
    assert!(generate_key_pairs(0).is_empty());
    let pairs = generate_key_pairs(3);
    assert_eq!(pairs.len(), 3);
    for pair in &pairs {
        assert_eq!((pair.public_key.len(), pair.private_key.len()), (32, 32));
        let private_key =
            wacore::libsignal::protocol::PrivateKey::deserialize(&pair.private_key).unwrap();
        assert_eq!(
            private_key.public_key().unwrap().public_key_bytes(),
            pair.public_key.as_slice()
        );
    }
    assert_ne!(pairs[0].public_key, pairs[1].public_key);
    assert_ne!(pairs[1].public_key, pairs[2].public_key);
    assert_ne!(pairs[0].private_key, pairs[1].private_key);
}

#[test]
fn a_record_holds_its_pair() {
    let pair = PreKeyPair { public_key: vec![1, 2], private_key: vec![3] };
    let record = new_pre_key_record(77, &pair);
    assert_eq!(record.id, Some(77));
    assert_eq!(record.public_key, Some(vec![1, 2]));
    assert_eq!(record.private_key, Some(vec![3]));
}

#[test]
fn pauses_grow_up_to_the_longest() {
    let mut retry = UploadRetry::new();
    let schedule = [1, 2, 3, 5, 8, 13, 21, 34, 55, 89, 144, 233, 377, 610, 610, 610];
    for secs in schedule {
        assert_eq!(retry.step(RetryEvent::Attempted(Err("no"))), RetryAction::Sleep(secs));
        assert_eq!(
            retry.step(RetryEvent::<()>::Slept { logged_in: true }),
            RetryAction::Attempt
        );
    }
    for _ in 0..200 {
        assert_eq!(retry.step(RetryEvent::Attempted(Err("no"))), RetryAction::Sleep(610));
        assert_eq!(
            retry.step(RetryEvent::<()>::Slept { logged_in: true }),
            RetryAction::Attempt
        );
    }
    assert_eq!(
        retry.step(RetryEvent::<()>::Attempted(Ok(()))),
        RetryAction::Return(Ok(()))
    );
}

#[test]
fn a_retry_ends_with_the_connection() {
    let mut retry = UploadRetry::new();
    assert_eq!(retry.step(RetryEvent::Attempted(Err("no"))), RetryAction::Sleep(1));
    assert_eq!(
        retry.step(RetryEvent::<()>::Slept { logged_in: false }),
        RetryAction::Return(Err("Connection lost during pre-key upload retry".to_string()))
    );
}

#[test]
fn only_a_missing_record_is_uploaded_again() {
    let world = World::default();
    let server = |code| Err(QueryFailure::Server { code, error: "server" });
    assert!(world.check(server(404)).is_none());
    assert!(matches!(world.check(server(406)), Some(DigestOutcome::MalformedRequest)));
    assert!(matches!(world.check(server(503)), Some(DigestOutcome::ServiceUnavailable)));
    assert!(matches!(world.check(server(500)), Some(DigestOutcome::QueryFailed("server"))));
    assert!(matches!(
        world.check(Err(QueryFailure::Parse("odd"))),
        Some(DigestOutcome::Unparseable("odd"))
    ));
    assert!(matches!(
        world.check(Err(QueryFailure::Other("timeout"))),
        Some(DigestOutcome::QueryFailed("timeout"))
    ));
}

#[test]
fn what_was_uploaded_is_validated() {
    let mut world = World::default();
    world.upload(false).unwrap();
    let request = world.request.take().unwrap();
    let ids: Vec<u32> = request.pre_keys.iter().map(|(id, _)| *id).collect();
    let keys: Vec<Vec<u8>> = request.pre_keys.iter().map(|(_, key)| key.clone()).collect();
    let hash = wacore::prekeys::compute_key_bundle_digest(
        &request.identity_key,
        &request.signed_pre_key,
        &request.signed_pre_key_signature,
        &keys,
    );
    assert!(matches!(
        world.check(Ok(response(4711, ids.clone(), hash.clone()))),
        Some(DigestOutcome::Validated)
    ));

    match world.check(Ok(response(4711, ids.clone(), vec![0u8; 20]))) {
        Some(DigestOutcome::HashMismatch { server_hash, local_hash }) => {
            assert_eq!(server_hash, vec![0u8; 20]);
            assert_eq!(local_hash, hash);
        }
        _ => panic!("the digests should differ"),
    }

    let mut swapped = ids;
    swapped.swap(0, 1);
    assert!(matches!(
        world.check(Ok(response(4711, swapped, hash))),
        Some(DigestOutcome::HashMismatch { .. })
    ));
}

#[test]
fn a_digest_is_taken_over_all_keys() {
    // SHA-1 of "abcdbcdecdefdefgefghfghighijhijkijkljklmklmnlmnomnopnopq".
    let mut check = DigestCheck::new();
    let hash = hex::decode("84983e441c3bd26ebaae4aa1f95129e5e54670f1").unwrap();
    let answer = response(1, vec![5, 6], hash);
    assert!(matches!(
        check.step(DigestEvent::<()>::Queried(Ok(answer))),
        DigestAction::ReadDevice
    ));
    let device = DeviceKeys {
        registration_id: 1,
        identity_key: b"abcdbcde".to_vec(),
        signed_pre_key_id: 0,
        signed_pre_key: b"cdefdefgefgh".to_vec(),
        signed_pre_key_signature: b"fghighijhijkijkl".to_vec(),
        next_pre_key_id: 0,
    };
    assert!(matches!(
        check.step(DigestEvent::<()>::Device(device)),
        DigestAction::LoadPreKey(5)
    ));
    let record = |public_key: &[u8]| {
        PreKeyRecordStructure {
            id: None,
            public_key: Some(public_key.to_vec()),
            private_key: None,
        }
        .encode_to_vec()
    };
    assert!(matches!(
        check.step(DigestEvent::<()>::Loaded(Ok(Some(record(b"jklmklmn"))))),
        DigestAction::LoadPreKey(6)
    ));
    assert!(matches!(
        check.step(DigestEvent::<()>::Loaded(Ok(Some(record(b"lmnomnopnopq"))))),
        DigestAction::Finish(DigestOutcome::Validated)
    ));
}

#[test]
fn a_bundle_without_pre_keys_is_checked_at_once() {
    let world = World::default();
    let device = device(0);
    let hash = wacore::prekeys::compute_key_bundle_digest(
        &device.identity_key,
        &device.signed_pre_key,
        &device.signed_pre_key_signature,
        &[],
    );
    assert!(matches!(
        world.check(Ok(response(4711, vec![], hash))),
        Some(DigestOutcome::Validated)
    ));
}

#[test]
fn the_first_unusable_pre_key_ends_a_check() {
    let mut world = World::default();
    world.upload(false).unwrap();
    let no_key = PreKeyRecordStructure {
        id: Some(50),
        public_key: None,
        private_key: None,
    };
    world.stored.insert(50, (no_key.encode_to_vec(), true));
    world.stored.insert(51, (vec![0xFF; 3], true));
    let check = |ids: Vec<u32>| world.check(Ok(response(4711, ids, vec![0u8; 20])));

    assert!(matches!(check(vec![1, 99, 50]), Some(DigestOutcome::MissingPreKey(99))));
    assert!(matches!(check(vec![1, 50, 99]), Some(DigestOutcome::NoPublicKey(50))));
    assert!(matches!(check(vec![51]), Some(DigestOutcome::UndecodablePreKey(51, _))));
    assert!(matches!(
        check(vec![2, BROKEN_ID]),
        Some(DigestOutcome::LoadFailed(BROKEN_ID, "broken"))
    ));
    assert!(matches!(
        world.check(Ok(response(4712, vec![99], vec![]))),
        Some(DigestOutcome::RegistrationMismatch { server_id: 4712, local_id: 4711 })
    ));
}

#[test]
fn a_fetch_asks_for_its_addresses() {
    let request = fetch_pre_keys(vec!["a", "b"], Some("identity"));
    assert_eq!(request.jids, vec!["a", "b"]);
    assert_eq!(request.reason, Some("identity".to_string()));
    let request = fetch_pre_keys(vec!["c"], None);
    assert_eq!(request.jids, vec!["c"]);
    assert_eq!(request.reason, None);
}
