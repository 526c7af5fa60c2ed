//! What holds of whole checks of a key bundle.

use vstd::prelude::*;

use crate::bundle;
use crate::bundle::{
    DigestActionView, DigestEventView, DigestOutcomeView, DigestResponseView, DigestView,
    QueryFailure,
};
use crate::device::DeviceKeysView;
use crate::records::PreKeyPairView;
use crate::{records, upload};

verus! {

/// Pre-keys are uploaded again just when the server answered that it has no record.
pub proof fn law_only_a_missing_record_is_uploaded_again<E>(
    check: DigestView,
    event: DigestEventView<E>,
)
    requires
        check.valid(),
        check.awaits(event),
    ensures
        check.step(event).1 is UploadAgain <==> (event matches DigestEventView::Queried(
            Err(QueryFailure::Server { code, error }),
        ) && code == bundle::CODE_NO_RECORD),
{
}

/// How many pre-keys a check has yet to load.
pub open spec fn loads_left(check: DigestView) -> nat {
    match check {
        DigestView::Loading { response, device, public_keys } => if public_keys.len()
            < response.prekey_ids.len() {
            (response.prekey_ids.len() - public_keys.len()) as nat
        } else {
            0
        },
        _ => 0,
    }
}

/// The last action of a check that stands so, having asked for `action`, over a store that gives
/// for each id what `store` says.
pub open spec fn settle<E>(
    check: DigestView,
    action: DigestActionView<E>,
    store: spec_fn(u32) -> Result<Option<Seq<u8>>, E>,
) -> DigestActionView<E>
    decreases loads_left(check),
{
    match action {
        DigestActionView::LoadPreKey(id) if loads_left(check) > 0 => {
            let (next, next_action) = check.step(DigestEventView::Loaded(store(id)));
            settle(next, next_action, store)
        },
        _ => action,
    }
}

/// The last action of a check of a device against the server's answer.
pub open spec fn verdict<E>(
    response: DigestResponseView,
    device: DeviceKeysView,
    store: spec_fn(u32) -> Result<Option<Seq<u8>>, E>,
) -> DigestActionView<E> {
    let (check, action) = DigestView::ReadingDevice(response).step(
        DigestEventView::Device(device),
    );
    settle(check, action, store)
}

/// Whether the store has a record with a public key for the id.
pub open spec fn readable<E>(id: u32, store: spec_fn(u32) -> Result<Option<Seq<u8>>, E>) -> bool {
    bundle::loaded_key(id, store(id)) is Ok
}

/// The public keys that the store has for the ids.
pub open spec fn stored_keys<E>(
    ids: Seq<u32>,
    store: spec_fn(u32) -> Result<Option<Seq<u8>>, E>,
) -> Seq<Seq<u8>> {
    ids.map_values(|id: u32| bundle::loaded_key(id, store(id))->Ok_0)
}

proof fn lemma_settle<E>(
    response: DigestResponseView,
    device: DeviceKeysView,
    n: nat,
    store: spec_fn(u32) -> Result<Option<Seq<u8>>, E>,
)
    requires
        n <= response.prekey_ids.len(),
        forall|i: int| 0 <= i < n ==> readable(#[trigger] response.prekey_ids[i], store),
    ensures
        ({
            let ids = response.prekey_ids;
            let (check, action) = bundle::digest_advance(
                response,
                device,
                stored_keys(ids.take(n as int), store),
            );
            let last = settle(check, action, store);
            &&& (forall|i: int| 0 <= i < ids.len() ==> readable(#[trigger] ids[i], store))
                ==> last == DigestActionView::Finish(
                bundle::digest_verdict::<E>(response, device, stored_keys(ids, store)),
            )
            &&& forall|i: int|
                0 <= i < ids.len() && !readable(#[trigger] ids[i], store) && (forall|j: int|
                    0 <= j < i ==> readable(#[trigger] ids[j], store)) ==> last
                    == DigestActionView::Finish(
                    bundle::loaded_key(ids[i], store(ids[i]))->Err_0,
                )
        }),
    decreases response.prekey_ids.len() - n,
{
    let ids = response.prekey_ids;
    let keys = stored_keys(ids.take(n as int), store);
    if n == ids.len() {
        assert(ids.take(n as int) =~= ids);
    } else if readable(ids[n as int], store) {
        assert(stored_keys(ids.take(n as int + 1), store) =~= keys.push(
            bundle::loaded_key(ids[n as int], store(ids[n as int]))->Ok_0,
        ));
        lemma_settle(response, device, n + 1, store);
    } else {
        reveal_with_fuel(settle, 2);
        assert forall|i: int|
            0 <= i < ids.len() && !readable(#[trigger] ids[i], store) && (forall|j: int|
                0 <= j < i ==> readable(#[trigger] ids[j], store)) implies i == n by {
            if n < i {
                assert(readable(ids[n as int], store));
            }
        }
    }
}

/// The verdict of a check: another registration id ends it; else the first pre-key that the store
/// has no usable record for does; else it is up to the digest of the keys in the store.
pub proof fn law_verdict<E>(
    response: DigestResponseView,
    device: DeviceKeysView,
    store: spec_fn(u32) -> Result<Option<Seq<u8>>, E>,
)
    ensures
        response.reg_id != device.registration_id ==> verdict(response, device, store)
            == DigestActionView::<E>::Finish(
            DigestOutcomeView::RegistrationMismatch {
                server_id: response.reg_id,
                local_id: device.registration_id,
            },
        ),
        response.reg_id == device.registration_id && (forall|i: int|
            0 <= i < response.prekey_ids.len() ==> readable(
                #[trigger] response.prekey_ids[i],
                store,
            )) ==> verdict(response, device, store) == DigestActionView::Finish(
            bundle::digest_verdict::<E>(response, device, stored_keys(response.prekey_ids, store)),
        ),
        response.reg_id == device.registration_id ==> forall|i: int|
            0 <= i < response.prekey_ids.len() && !readable(
                #[trigger] response.prekey_ids[i],
                store,
            ) && (forall|j: int|
                0 <= j < i ==> readable(#[trigger] response.prekey_ids[j], store)) ==> verdict(
                response,
                device,
                store,
            ) == DigestActionView::Finish(
                bundle::loaded_key(
                    response.prekey_ids[i],
                    store(response.prekey_ids[i]),
                )->Err_0,
            ),
{
    lemma_settle(response, device, 0, store);
    assert(stored_keys(response.prekey_ids.take(0), store) =~= Seq::empty());
}

proof fn lemma_first_unreadable<E>(
    ids: Seq<u32>,
    store: spec_fn(u32) -> Result<Option<Seq<u8>>, E>,
    bound: int,
) -> (first: int)
    requires
        0 <= bound < ids.len(),
        !readable(ids[bound], store),
    ensures
        0 <= first <= bound,
        !readable(ids[first], store),
        forall|j: int| 0 <= j < first ==> readable(#[trigger] ids[j], store),
    decreases bound,
{
    if exists|j: int| 0 <= j < bound && !readable(#[trigger] ids[j], store) {
        let j = choose|j: int| 0 <= j < bound && !readable(#[trigger] ids[j], store);
        lemma_first_unreadable(ids, store, j)
    } else {
        bound
    }
}

/// A bundle is found to be the same just when the registration ids are, the store has a public key
/// for every pre-key of the server's, and the digest of the keys at hand is the server's.
pub proof fn law_validated_just_when_same<E>(
    response: DigestResponseView,
    device: DeviceKeysView,
    store: spec_fn(u32) -> Result<Option<Seq<u8>>, E>,
)
    ensures
        verdict(response, device, store) == DigestActionView::Finish(
            DigestOutcomeView::<E>::Validated,
        ) <==> {
            &&& response.reg_id == device.registration_id
            &&& forall|i: int|
                0 <= i < response.prekey_ids.len() ==> readable(
                    #[trigger] response.prekey_ids[i],
                    store,
                )
            &&& response.hash == bundle::sha1_digest(
                bundle::bundle_material(
                    device.identity_key,
                    device.signed_pre_key,
                    device.signed_pre_key_signature,
                    stored_keys(response.prekey_ids, store),
                ),
            )
        },
{
    law_verdict(response, device, store);
    if exists|i: int|
        0 <= i < response.prekey_ids.len() && !readable(#[trigger] response.prekey_ids[i], store) {
        let i = choose|i: int|
            0 <= i < response.prekey_ids.len() && !readable(
                #[trigger] response.prekey_ids[i],
                store,
            );
        let first = lemma_first_unreadable(response.prekey_ids, store, i);
        assert(!readable(response.prekey_ids[first], store));
    }
}

/// The digest that a server has of an upload request.
pub open spec fn request_digest(request: upload::UploadRequestView) -> Seq<u8> {
    bundle::sha1_digest(
        bundle::bundle_material(
            request.identity_key,
            request.signed_pre_key,
            request.signed_pre_key_signature,
            request.pre_keys.map_values(|entry: (u32, Seq<u8>)| entry.1),
        ),
    )
}

/// What was uploaded is found to be the same: a server that has an upload request on record,
/// checked against the device and the store that the request was made from, has the same bundle.
pub proof fn law_uploaded_bundle_validates<E>(
    device: DeviceKeysView,
    start_id: int,
    pairs: Seq<PreKeyPairView>,
    store: spec_fn(u32) -> Result<Option<Seq<u8>>, E>,
    response: DigestResponseView,
)
    requires
        upload::batch_reads_as(upload::batch_of(start_id, pairs), start_id, pairs),
        forall|i: int|
            0 <= i < pairs.len() ==> store(
                (#[trigger] upload::batch_of(start_id, pairs)[i]).0,
            ) == Ok::<Option<Seq<u8>>, E>(Some(upload::batch_of(start_id, pairs)[i].1)),
        response.reg_id == upload::request_of(device, start_id, pairs).registration_id,
        response.prekey_ids == upload::request_of(device, start_id, pairs).pre_keys.map_values(
            |entry: (u32, Seq<u8>)| entry.0,
        ),
        response.hash == request_digest(upload::request_of(device, start_id, pairs)),
    ensures
        verdict(response, device, store) == DigestActionView::Finish(
            DigestOutcomeView::<E>::Validated,
        ),
{
    let batch = upload::batch_of(start_id, pairs);
    let request = upload::request_of(device, start_id, pairs);
    let ids = response.prekey_ids;
    assert forall|i: int| 0 <= i < ids.len() implies {
        &&& readable(#[trigger] ids[i], store)
        &&& bundle::loaded_key(ids[i], store(ids[i]))->Ok_0 == pairs[i].public_key
    } by {
        assert(ids[i] == batch[i].0);
        assert(records::reads_as(batch[i].1, pairs[i].record((start_id + i) as u32)));
    }
    assert(stored_keys(ids, store) =~= request.pre_keys.map_values(
        |entry: (u32, Seq<u8>)| entry.1,
    ));
    law_validated_just_when_same(response, device, store);
}

/// The public key in what a store gives for an id, if there is a record with one.
pub open spec fn key_in<E>(loaded: Result<Option<Seq<u8>>, E>) -> Option<Seq<u8>> {
    match loaded {
        Ok(Some(bytes)) => match records::decoded_record(bytes) {
            Ok(record) => record.public_key,
            Err(_) => None,
        },
        _ => None,
    }
}

/// Whether the store has a record with a public key for every one of the ids.
pub open spec fn all_there<E>(
    ids: Seq<u32>,
    store: spec_fn(u32) -> Result<Option<Seq<u8>>, E>,
) -> bool {
    forall|i: int| 0 <= i < ids.len() ==> key_in(store(#[trigger] ids[i])) is Some
}

/// The digest of a device's keys and the public keys that the store has for the ids.
pub open spec fn local_digest<E>(
    device: DeviceKeysView,
    ids: Seq<u32>,
    store: spec_fn(u32) -> Result<Option<Seq<u8>>, E>,
) -> Seq<u8> {
    bundle::sha1_digest(
        device.identity_key + device.signed_pre_key + device.signed_pre_key_signature + Seq::new(
            ids.len(),
            |i: int| key_in(store(ids[i]))->0,
        ).flatten(),
    )
}

/// The last action of a new check that is told this of the server, then of this device, should it
/// ask, and then what the store has for each id that it asks for.
pub open spec fn whole_check<E>(
    queried: Result<DigestResponseView, QueryFailure<E>>,
    device: DeviceKeysView,
    store: spec_fn(u32) -> Result<Option<Seq<u8>>, E>,
) -> DigestActionView<E> {
    let (check, action) = DigestView::Querying.step(DigestEventView::Queried(queried));
    match action {
        DigestActionView::ReadDevice => {
            let (next, next_action) = check.step(DigestEventView::Device(device));
            settle(next, next_action, store)
        },
        _ => action,
    }
}

/// The ids that a check asks the store for, having asked for `action`.
pub open spec fn asked<E>(
    check: DigestView,
    action: DigestActionView<E>,
    store: spec_fn(u32) -> Result<Option<Seq<u8>>, E>,
) -> Seq<u32>
    decreases loads_left(check),
{
    match action {
        DigestActionView::LoadPreKey(id) if loads_left(check) > 0 => {
            let (next, next_action) = check.step(DigestEventView::Loaded(store(id)));
            seq![id] + asked(next, next_action, store)
        },
        _ => Seq::empty(),
    }
}

proof fn lemma_readable<E>(
    ids: Seq<u32>,
    store: spec_fn(u32) -> Result<Option<Seq<u8>>, E>,
)
    ensures
        forall|id: u32|
            #![trigger readable(id, store)]
            #![trigger key_in(store(id))]
            readable(id, store) <==> key_in(store(id)) is Some,
        all_there(ids, store) ==> stored_keys(ids, store) =~= Seq::new(
            ids.len(),
            |i: int| key_in(store(ids[i]))->0,
        ),
{
    if all_there(ids, store) {
        let keys = Seq::new(ids.len(), |i: int| key_in(store(ids[i]))->0);
        assert forall|i: int| 0 <= i < ids.len() implies stored_keys(ids, store)[i] == keys[i] by {
            assert(key_in(store(ids[i])) is Some);
        }
    }
}

/// A whole check, from the start on, finds the bundles to be the same just when the registration
/// ids are equal, the store has a record with a public key for every pre-key of the server's, and
/// the server's hash is the SHA-1 digest of the device's identity key, its signed pre-key, the
/// signature, and those public keys in the server's order.
pub proof fn law_whole_check_validates_just_the_same_bundle<E>(
    response: DigestResponseView,
    device: DeviceKeysView,
    store: spec_fn(u32) -> Result<Option<Seq<u8>>, E>,
)
    ensures
        whole_check(Ok(response), device, store) == DigestActionView::Finish(
            DigestOutcomeView::<E>::Validated,
        ) <==> {
            &&& response.reg_id == device.registration_id
            &&& all_there(response.prekey_ids, store)
            &&& response.hash == local_digest(device, response.prekey_ids, store)
        },
{
    lemma_readable(response.prekey_ids, store);
    law_validated_just_when_same(response, device, store);
    if all_there(response.prekey_ids, store) {
        assert forall|i: int| 0 <= i < response.prekey_ids.len() implies readable(
            #[trigger] response.prekey_ids[i],
            store,
        ) by {
            assert(key_in(store(response.prekey_ids[i])) is Some);
        }
    }
}

/// What is wrong, a whole check says: that the registration ids differ, and which they are; else of
/// the first pre-key of the server's without a public key in the store, why there is none; else, if
/// the digests differ, both of them.
pub proof fn law_whole_check_says_what_is_wrong<E>(
    response: DigestResponseView,
    device: DeviceKeysView,
    store: spec_fn(u32) -> Result<Option<Seq<u8>>, E>,
    i: int,
)
    ensures
        response.reg_id != device.registration_id ==> whole_check(Ok(response), device, store)
            == DigestActionView::<E>::Finish(
            DigestOutcomeView::RegistrationMismatch {
                server_id: response.reg_id,
                local_id: device.registration_id,
            },
        ),
        response.reg_id == device.registration_id && all_there(response.prekey_ids, store)
            && response.hash != local_digest(device, response.prekey_ids, store) ==> whole_check(
            Ok(response),
            device,
            store,
        ) == DigestActionView::<E>::Finish(
            DigestOutcomeView::HashMismatch {
                server_hash: response.hash,
                local_hash: local_digest(device, response.prekey_ids, store),
            },
        ),
        response.reg_id == device.registration_id && 0 <= i < response.prekey_ids.len() && key_in(
            store(response.prekey_ids[i]),
        ) is None && all_there(response.prekey_ids.take(i), store) ==> {
            let id = response.prekey_ids[i];
            let last = whole_check(Ok(response), device, store);
            match store(id) {
                Err(error) => last == DigestActionView::Finish(
                    DigestOutcomeView::LoadFailed(id, error),
                ),
                Ok(None) => last == DigestActionView::<E>::Finish(
                    DigestOutcomeView::MissingPreKey(id),
                ),
                Ok(Some(bytes)) => match records::decoded_record(bytes) {
                    Err(error) => last == DigestActionView::<E>::Finish(
                        DigestOutcomeView::UndecodablePreKey(id, error),
                    ),
                    Ok(_) => last == DigestActionView::<E>::Finish(
                        DigestOutcomeView::NoPublicKey(id),
                    ),
                },
            }
        },
{
    let ids = response.prekey_ids;
    lemma_readable(ids, store);
    law_verdict(response, device, store);
    if all_there(ids, store) {
        assert forall|j: int| 0 <= j < ids.len() implies readable(#[trigger] ids[j], store) by {
            assert(key_in(store(ids[j])) is Some);
        }
    }
    if 0 <= i < ids.len() && key_in(store(ids[i])) is None && all_there(ids.take(i), store) {
        assert(!readable(ids[i], store));
        assert forall|j: int| 0 <= j < i implies readable(#[trigger] ids[j], store) by {
            assert(ids.take(i)[j] == ids[j]);
            assert(key_in(store(ids.take(i)[j])) is Some);
        }
    }
}

/// What a check does about a server that gave no digest: without a record pre-keys are uploaded
/// again; after anything else the check just ends, says why, and is no success.
pub proof fn law_check_without_a_digest<E>(
    failure: QueryFailure<E>,
    device: DeviceKeysView,
    store: spec_fn(u32) -> Result<Option<Seq<u8>>, E>,
)
    ensures
        match failure {
            QueryFailure::Server { code, error } => {
                let last = whole_check(Err(failure), device, store);
                &&& code == 404 <==> last is UploadAgain
                &&& code == 406 <==> last == DigestActionView::<E>::Finish(
                    DigestOutcomeView::MalformedRequest,
                )
                &&& code == 503 <==> last == DigestActionView::<E>::Finish(
                    DigestOutcomeView::ServiceUnavailable,
                )
                &&& code != 404 && code != 406 && code != 503 ==> last == DigestActionView::Finish(
                    DigestOutcomeView::QueryFailed(error),
                )
            },
            QueryFailure::Parse(error) => whole_check(Err(failure), device, store)
                == DigestActionView::Finish(DigestOutcomeView::Unparseable(error)),
            QueryFailure::Other(error) => whole_check(Err(failure), device, store)
                == DigestActionView::Finish(DigestOutcomeView::QueryFailed(error)),
        },
{
}

proof fn lemma_asked<E>(
    response: DigestResponseView,
    device: DeviceKeysView,
    keys: Seq<Seq<u8>>,
    store: spec_fn(u32) -> Result<Option<Seq<u8>>, E>,
)
    requires
        keys.len() <= response.prekey_ids.len(),
    ensures
        ({
            let (check, action) = bundle::digest_advance::<E>(response, device, keys);
            let rest = response.prekey_ids.skip(keys.len() as int);
            let loads = asked(check, action, store);
            &&& loads.len() <= rest.len()
            &&& loads == rest.take(loads.len() as int)
            &&& all_there(rest, store) ==> loads == rest
        }),
    decreases response.prekey_ids.len() - keys.len(),
{
    let ids = response.prekey_ids;
    let n = keys.len() as int;
    let rest = ids.skip(n);
    let (check, action) = bundle::digest_advance::<E>(response, device, keys);
    let loads = asked(check, action, store);
    if n < ids.len() {
        reveal_with_fuel(asked, 2);
        lemma_readable(ids, store);
        assert(rest[0] == ids[n]);
        if readable(ids[n], store) {
            let key = bundle::loaded_key(ids[n], store(ids[n]))->Ok_0;
            lemma_asked(response, device, keys.push(key), store);
            assert(rest =~= seq![ids[n]] + ids.skip(n + 1));
            let (next, next_action) = bundle::digest_advance::<E>(response, device, keys.push(key));
            let later = asked(next, next_action, store);
            assert(loads == seq![ids[n]] + later);
            assert(loads =~= rest.take(loads.len() as int));
            if all_there(rest, store) {
                assert forall|i: int| 0 <= i < ids.skip(n + 1).len() implies key_in(
                    store(#[trigger] ids.skip(n + 1)[i]),
                ) is Some by {
                    assert(ids.skip(n + 1)[i] == rest[i + 1]);
                }
            }
        } else {
            assert(loads =~= seq![ids[n]]);
            assert(loads =~= rest.take(1));
            assert(key_in(store(rest[0])) is None);
        }
    } else {
        assert(loads =~= rest);
        assert(loads =~= rest.take(0));
    }
}

/// A check first reads the device's keys, and asks the store for nothing before. Then, if the
/// registration ids are equal, it asks for the server's pre-keys in the server's order, and for
/// every one of them as long as each has a public key.
pub proof fn law_check_loads_the_pre_keys_in_order<E>(
    response: DigestResponseView,
    device: DeviceKeysView,
    store: spec_fn(u32) -> Result<Option<Seq<u8>>, E>,
)
    ensures
        ({
            let (check, action) = DigestView::Querying.step(
                DigestEventView::<E>::Queried(Ok(response)),
            );
            let (next, next_action) = check.step(DigestEventView::<E>::Device(device));
            let loads = asked(next, next_action, store);
            &&& action is ReadDevice
            &&& response.reg_id != device.registration_id ==> loads.len() == 0
            &&& loads.len() <= response.prekey_ids.len()
            &&& loads == response.prekey_ids.take(loads.len() as int)
            &&& response.reg_id == device.registration_id && all_there(response.prekey_ids, store)
                ==> loads == response.prekey_ids
        }),
{
    lemma_asked(response, device, Seq::empty(), store);
    assert(response.prekey_ids.skip(0) =~= response.prekey_ids);
    assert(response.prekey_ids.take(0) =~= Seq::empty());
}

/// What a check waits for is what its last action can lead to, whatever comes of that; and each
/// action leaves it waiting for what that leads to, the last ones for nothing.
pub proof fn law_check_waits_for_every_answer<E>(check: DigestView, event: DigestEventView<E>)
    ensures
        check is Querying ==> check.valid() && (check.awaits(event) <==> event is Queried),
        check is ReadingDevice ==> check.valid() && (check.awaits(event) <==> event is Device),
        check is Loading ==> (check.awaits(event) <==> event is Loaded),
        check is Done ==> check.valid() && !check.awaits(event),
        check.valid() && check.awaits(event) ==> match check.step(event).1 {
            DigestActionView::ReadDevice => check.step(event).0 is ReadingDevice,
            DigestActionView::LoadPreKey(_) => check.step(event).0 is Loading,
            DigestActionView::UploadAgain => check.step(event).0 is Done,
            DigestActionView::Finish(_) => check.step(event).0 is Done,
        },
{
}

} // verus!
