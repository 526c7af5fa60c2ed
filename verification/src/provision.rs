//! What a whole upload does for the device whose keys it sends, for the store that keeps them and
//! for the server that gives them out.
//!
//! The laws here speak of what an upload is told and of what it then does, from its beginning to
//! its end.

use vstd::prelude::*;

use crate::pool::Answers;
use crate::records::PreKeyRecordView;
use crate::upload::{
    UploadActionView, UploadEventView, UploadOutcome, UploadPhaseView, UploadRequestView,
    UploadView,
};
use crate::{pool, records, upload};

verus! {

/// Something that an upload did, and the batch that it had at hand then.
pub struct Moment<E> {
    pub action: UploadActionView<E>,
    pub batch: Seq<(u32, Seq<u8>)>,
}

/// All that an upload does, from where it stands to its end.
pub open spec fn moments<E>(upload: UploadView, answers: Answers<E>) -> Seq<Moment<E>>
    decreases pool::steps_left(upload.phase),
{
    if upload.phase is Done {
        Seq::empty()
    } else {
        let (next, action) = upload.step(pool::answer(upload, answers), answers.pairs);
        seq![Moment { action, batch: next.batch }] + moments(next, answers)
    }
}

/// All that a new upload does.
pub open spec fn course<E>(force: bool, answers: Answers<E>) -> Seq<Moment<E>> {
    moments(UploadView::fresh(force), answers)
}

/// That these are key pairs that the upload may make, should it come to that.
pub open spec fn may_come<E>(force: bool, answers: Answers<E>) -> bool {
    answers.max_id matches Ok(max_id) ==> (UploadView {
        force,
        phase: UploadPhaseView::ReadingMaxId(answers.device),
        batch: Seq::empty(),
    }).may_make(UploadEventView::<E>::MaxId(Ok(max_id)), answers.pairs)
}

/// That the upload is called for: the server was asked, and has fewer than five pre-keys unless
/// the upload is forced; and that the store was asked.
pub open spec fn called_for<E>(force: bool, answers: Answers<E>) -> bool {
    &&& answers.count matches Ok(count) && (force || count < 5)
    &&& answers.max_id is Ok
}

/// That `first` is the least id allowed: not before the counter, past the largest id in the store,
/// and not further on than the two ask for.
pub open spec fn least_allowed(first: int, next_pre_key_id: u32, max_id: u32) -> bool {
    &&& first >= next_pre_key_id
    &&& first > max_id
    &&& first == next_pre_key_id || first == max_id + 1
}

/// The first new id is not before the counter and past the largest id in the store, and it is one
/// of the counter and the id after the store's largest: no id is passed over. A larger counter or
/// a fuller store never leads to a smaller id.
pub proof fn law_first_id_is_the_least_allowed(
    next_pre_key_id: u32,
    max_id: u32,
    later_next_pre_key_id: u32,
    later_max_id: u32,
)
    ensures
        upload::first_id(next_pre_key_id, max_id) >= next_pre_key_id,
        upload::first_id(next_pre_key_id, max_id) > max_id,
        upload::first_id(next_pre_key_id, max_id) == next_pre_key_id || upload::first_id(
            next_pre_key_id,
            max_id,
        ) == max_id + 1,
        next_pre_key_id <= later_next_pre_key_id && max_id <= later_max_id ==> upload::first_id(
            next_pre_key_id,
            max_id,
        ) <= upload::first_id(later_next_pre_key_id, later_max_id),
{
}

/// As long as the counter and the id after the store's largest leave room for thirty ids, an upload
/// that is called for makes exactly thirty pre-keys, and stores them.
pub proof fn law_thirty_pre_keys_while_ids_last<E>(force: bool, answers: Answers<E>)
    requires
        may_come(force, answers),
        called_for(force, answers),
        answers.device.next_pre_key_id <= 0xFF_FFFF - 29,
        answers.max_id->Ok_0 + 1 <= 0xFF_FFFF - 29,
    ensures
        answers.pairs.len() == 30,
        course(force, answers).len() > 2,
        course(force, answers)[2].action is Store,
        course(force, answers)[2].batch.len() == 30,
{
    reveal_with_fuel(moments, 4);
}

/// An upload that is not called for ends at once, with the failure of asking the server or with
/// nothing done; and one that cannot ask the store ends with that failure.
pub proof fn law_upload_that_does_not_take_place<E>(force: bool, answers: Answers<E>)
    ensures
        answers.count matches Err(error) ==> {
            &&& course(force, answers).len() == 1
            &&& course(force, answers)[0].action == UploadActionView::<E>::Return(Err(error))
        },
        answers.count matches Ok(count) ==> !force && count >= 5 ==> {
            &&& course(force, answers).len() == 1
            &&& course(force, answers)[0].action == UploadActionView::<E>::Return(
                Ok(UploadOutcome::NotNeeded),
            )
        },
        answers.count matches Ok(count) ==> (force || count < 5) ==> {
            &&& course(force, answers).len() >= 3
            &&& course(force, answers)[0].action is ReadDevice
            &&& course(force, answers)[1].action is ReadMaxId
            &&& answers.max_id matches Err(error) ==> course(force, answers).len() == 3 && course(
                force,
                answers,
            )[2].action == UploadActionView::<E>::Return(Err(error))
        },
{
    reveal_with_fuel(moments, 4);
}

/// An upload that is called for makes pre-keys under the ids from the least one allowed on, one
/// after the other: thirty of them, or as many as there are ids left, of which the largest is
/// 16777215. Where there are none left it ends with nothing done; else it has them stored.
pub proof fn law_batch_has_the_next_ids<E>(force: bool, answers: Answers<E>, first: int)
    requires
        may_come(force, answers),
        called_for(force, answers),
        least_allowed(first, answers.device.next_pre_key_id, answers.max_id->Ok_0),
    ensures
        answers.pairs.len() <= 30,
        answers.pairs.len() < 30 ==> first + answers.pairs.len() > 0xFF_FFFF,
        answers.pairs.len() > 0 ==> first + answers.pairs.len() <= 0xFF_FFFF + 1,
        answers.pairs.len() == 0 ==> {
            &&& course(force, answers).len() == 3
            &&& course(force, answers)[2].action == UploadActionView::<E>::Return(
                Ok(UploadOutcome::NoneAvailable),
            )
        },
        answers.pairs.len() > 0 ==> {
            &&& course(force, answers).len() > 3
            &&& course(force, answers)[2].action is Store
            &&& course(force, answers)[2].batch.len() == answers.pairs.len()
            &&& forall|i: int|
                0 <= i < answers.pairs.len() ==> (#[trigger] course(force, answers)[2].batch[i]).0
                    == first + i
        },
{
    reveal_with_fuel(moments, 5);
    let max_id = answers.max_id->Ok_0;
    assert(upload::first_id(answers.device.next_pre_key_id, max_id) == first);
    let pairs = answers.pairs;
    if pairs.len() > 0 {
        let batch = course(force, answers)[2].batch;
        assert(batch == upload::batch_of(first, pairs));
    }
}

/// What becomes of new pre-keys: they are uploaded only once they are stored; the first failure to
/// store or to upload ends the upload, with the counter as it was; once they are uploaded, they are
/// marked, and then, whether or not that worked, the id after the last one is saved as the next,
/// and the upload ends with their number and the first id.
pub proof fn law_stored_then_uploaded_then_counted<E>(
    force: bool,
    answers: Answers<E>,
    first: int,
)
    requires
        may_come(force, answers),
        called_for(force, answers),
        least_allowed(first, answers.device.next_pre_key_id, answers.max_id->Ok_0),
        answers.pairs.len() > 0,
    ensures
        answers.stored matches Err(error) ==> {
            &&& course(force, answers).len() == 4
            &&& course(force, answers)[3].action == UploadActionView::<E>::Return(Err(error))
        },
        answers.stored is Ok ==> {
            &&& course(force, answers).len() > 4
            &&& course(force, answers)[3].action is Upload
        },
        answers.uploaded matches Err(error) ==> answers.stored is Ok ==> {
            &&& course(force, answers).len() == 5
            &&& course(force, answers)[4].action == UploadActionView::<E>::Return(Err(error))
        },
        answers.stored is Ok && answers.uploaded is Ok ==> {
            &&& course(force, answers).len() == 7
            &&& course(force, answers)[4].action is Mark
            &&& course(force, answers)[5].action matches UploadActionView::SaveCounter(next_id)
                && next_id == first + answers.pairs.len()
            &&& course(force, answers)[6].action matches UploadActionView::Return(
                Ok(UploadOutcome::Uploaded { count, start_id }),
            ) && count == answers.pairs.len() && start_id == first
        },
{
    reveal_with_fuel(moments, 9);
    law_batch_has_the_next_ids(force, answers, first);
    let max_id = answers.max_id->Ok_0;
    assert(upload::first_id(answers.device.next_pre_key_id, max_id) == first);
    let batch = upload::batch_of(first, answers.pairs);
    assert(batch[0].0 == first);
}

/// The server is told of the device just what the device holds: whatever the device, the store and
/// the new pre-keys, a request has the device's registration id, its identity key, the id of its
/// signed pre-key, that key and its signature.
pub proof fn law_request_has_the_keys_of_the_device<E>(
    force: bool,
    answers: Answers<E>,
    k: int,
    request: UploadRequestView,
)
    requires
        0 <= k < course(force, answers).len(),
        course(force, answers)[k].action == UploadActionView::<E>::Upload(request),
    ensures
        request.registration_id == answers.device.registration_id,
        request.identity_key == answers.device.identity_key,
        request.signed_pre_key_id == answers.device.signed_pre_key_id,
        request.signed_pre_key == answers.device.signed_pre_key,
        request.signed_pre_key_signature == answers.device.signed_pre_key_signature,
{
    reveal_with_fuel(moments, 9);
}

/// A batch never changes once it is made: from the moment in which it is to be stored to the end,
/// and so when it is to be marked, it has the same ids with the same bytes.
pub proof fn law_batch_stays_as_it_was_stored<E>(
    force: bool,
    answers: Answers<E>,
    stored: int,
    k: int,
)
    requires
        0 <= stored <= k < course(force, answers).len(),
        course(force, answers)[stored].action is Store,
    ensures
        course(force, answers)[k].batch.len() == course(force, answers)[stored].batch.len(),
        forall|i: int|
            0 <= i < course(force, answers)[stored].batch.len() ==> {
                &&& (#[trigger] course(force, answers)[k].batch[i]).0 == course(
                    force,
                    answers,
                )[stored].batch[i].0
                &&& course(force, answers)[k].batch[i].1 == course(
                    force,
                    answers,
                )[stored].batch[i].1
            },
{
    reveal_with_fuel(moments, 9);
}

/// What is stored, and what is marked, is what was uploaded: under each id in the request the batch
/// has a record that reads as that id, the public key in the request and the private key of the
/// same pair. Where the pairs belong together, each of these private keys is the one that the
/// uploaded public key is derived from.
pub proof fn law_batch_is_what_was_uploaded<E>(
    force: bool,
    answers: Answers<E>,
    stored: int,
    k: int,
    uploaded: int,
    request: UploadRequestView,
    i: int,
)
    requires
        0 <= stored <= k < course(force, answers).len(),
        course(force, answers)[stored].action is Store,
        upload::batch_reads_as(
            course(force, answers)[stored].batch,
            course(force, answers)[stored].batch[0].0 as int,
            answers.pairs,
        ),
        may_come(force, answers),
        0 <= uploaded < course(force, answers).len(),
        course(force, answers)[uploaded].action == UploadActionView::<E>::Upload(request),
        0 <= i < request.pre_keys.len(),
    ensures
        request.pre_keys.len() == answers.pairs.len(),
        course(force, answers)[k].batch.len() == request.pre_keys.len(),
        course(force, answers)[k].batch[i].0 == request.pre_keys[i].0,
        request.pre_keys[i].1 == answers.pairs[i].public_key,
        records::decoded_record(course(force, answers)[k].batch[i].1) == Ok::<
            PreKeyRecordView,
            prost::DecodeError,
        >(
            PreKeyRecordView {
                id: Some(request.pre_keys[i].0),
                public_key: Some(request.pre_keys[i].1),
                private_key: Some(answers.pairs[i].private_key),
            },
        ),
        answers.pairs[i].matched() ==> request.pre_keys[i].1 == records::public_key_of(
            answers.pairs[i].private_key,
        ),
{
    reveal_with_fuel(moments, 9);
    let max_id = answers.max_id->Ok_0;
    let first = upload::first_id(answers.device.next_pre_key_id, max_id);
    let batch = course(force, answers)[stored].batch;
    assert(batch == upload::batch_of(first, answers.pairs));
    assert(request == upload::request_of(answers.device, first, answers.pairs));
    assert(batch[0].0 == first);
    assert(records::reads_as(batch[i].1, answers.pairs[i].record((first + i) as u32)));
}

/// What an upload waits for is what its last action can lead to, whatever comes of that; and once
/// it has returned, it waits for nothing any more.
pub proof fn law_upload_waits_for_every_answer<E>(upload: UploadView, event: UploadEventView<E>)
    ensures
        UploadView::fresh(upload.force).awaits(event) <==> event is Counted,
        upload.phase is Done ==> !upload.awaits(event),
        upload.phase is Counting ==> (upload.awaits(event) <==> event is Counted),
        upload.phase is ReadingDevice ==> (upload.awaits(event) <==> event is Device),
        upload.phase is ReadingMaxId ==> (upload.awaits(event) <==> event is MaxId),
        upload.phase is Storing ==> (upload.awaits(event) <==> event is Stored),
        upload.phase is Uploading ==> (upload.awaits(event) <==> event is Uploaded),
        upload.phase is Marking ==> (upload.awaits(event) <==> event is Marked),
        upload.phase is SavingCounter ==> (upload.awaits(event) <==> event is CounterSaved),
{
}

/// An action leaves the upload waiting for what that action leads to, and only the last one for
/// nothing.
pub proof fn law_upload_action_and_wait_agree<E>(
    upload: UploadView,
    event: UploadEventView<E>,
    pairs: Seq<records::PreKeyPairView>,
)
    requires
        upload.awaits(event),
    ensures
        match upload.step(event, pairs).1 {
            UploadActionView::ReadDevice => upload.step(event, pairs).0.phase is ReadingDevice,
            UploadActionView::ReadMaxId => upload.step(event, pairs).0.phase is ReadingMaxId,
            UploadActionView::Store => upload.step(event, pairs).0.phase is Storing,
            UploadActionView::Upload(_) => upload.step(event, pairs).0.phase is Uploading,
            UploadActionView::Mark => upload.step(event, pairs).0.phase is Marking,
            UploadActionView::SaveCounter(_) => upload.step(event, pairs).0.phase
                is SavingCounter,
            UploadActionView::Return(_) => upload.step(event, pairs).0.phase is Done,
        },
        upload.step(event, pairs).0.force == upload.force,
{
}

/// New key pairs come in just when the largest id in the store is known: on every other event it
/// makes no difference which they are, and the batch stays as it is. The device is kept as it was
/// read.
pub proof fn law_pairs_come_in_once<E>(
    upload: UploadView,
    event: UploadEventView<E>,
    pairs: Seq<records::PreKeyPairView>,
    others: Seq<records::PreKeyPairView>,
)
    requires
        upload.awaits(event),
        event matches UploadEventView::MaxId(max_id) ==> max_id is Err,
    ensures
        upload.step(event, pairs) == upload.step(event, others),
        upload.step(event, pairs).0.batch == upload.batch,
        event matches UploadEventView::Device(device) ==> upload.step(event, pairs).0.phase
            == UploadPhaseView::ReadingMaxId(device),
{
}

} // verus!
