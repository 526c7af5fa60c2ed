//! What holds of whole uploads, and from one upload to the next.

use vstd::prelude::*;

use crate::device::DeviceKeysView;
use crate::records::PreKeyPairView;
use crate::{records, upload};
use crate::upload::{UploadActionView, UploadEventView, UploadOutcome, UploadPhaseView, UploadView};

verus! {

/// The ids of a batch follow one another, past every id in the store and not before the counter,
/// and none is larger than an id can be. There are as many as are wanted, as long as there are so
/// many ids left. The id after the last is past the counter.
pub proof fn law_batch_ids(next_pre_key_id: u32, max_id: u32, pairs: Seq<PreKeyPairView>)
    requires
        pairs.len() == upload::batch_len(upload::first_id(next_pre_key_id, max_id)),
    ensures
        pairs.len() <= upload::WANTED_PRE_KEY_COUNT,
        pairs.len() == upload::WANTED_PRE_KEY_COUNT || upload::first_id(next_pre_key_id, max_id)
            + upload::WANTED_PRE_KEY_COUNT > upload::MAX_PRE_KEY_ID + 1,
        forall|i: int|
            0 <= i < pairs.len() ==> {
                let id = (#[trigger] upload::batch_of(
                    upload::first_id(next_pre_key_id, max_id),
                    pairs,
                )[i]).0;
                &&& id == upload::first_id(next_pre_key_id, max_id) + i
                &&& max_id < id <= upload::MAX_PRE_KEY_ID
                &&& next_pre_key_id <= id
            },
        pairs.len() > 0 ==> upload::first_id(next_pre_key_id, max_id) + pairs.len()
            > next_pre_key_id,
{
}

/// No id is given out twice: where the counter was saved after an upload, or where its batch is in
/// the store although the counter was not saved, the ids of a later batch are past all of its
/// ids.
pub proof fn law_ids_are_never_reused(
    next_pre_key_id: u32,
    max_id: u32,
    later_next_pre_key_id: u32,
    later_max_id: u32,
    pairs: Seq<PreKeyPairView>,
    later_pairs: Seq<PreKeyPairView>,
)
    requires
        pairs.len() == upload::batch_len(upload::first_id(next_pre_key_id, max_id)),
        later_pairs.len() == upload::batch_len(
            upload::first_id(later_next_pre_key_id, later_max_id),
        ),
        ({
            let end = upload::first_id(next_pre_key_id, max_id) + pairs.len();
            later_next_pre_key_id >= end || later_max_id >= end - 1
        }),
    ensures
        forall|i: int, j: int|
            0 <= i < pairs.len() && 0 <= j < later_pairs.len() ==> (#[trigger] upload::batch_of(
                upload::first_id(next_pre_key_id, max_id),
                pairs,
            )[i]).0 < (#[trigger] upload::batch_of(
                upload::first_id(later_next_pre_key_id, later_max_id),
                later_pairs,
            )[j]).0,
{
}

/// What an upload is told, should it ask, and the key pairs that it makes.
pub struct Answers<E> {
    pub count: Result<usize, E>,
    pub device: DeviceKeysView,
    pub max_id: Result<u32, E>,
    pub pairs: Seq<PreKeyPairView>,
    pub stored: Result<(), E>,
    pub uploaded: Result<(), E>,
    pub marked: Result<(), E>,
}

/// What an upload is told where it stands.
pub open spec fn answer<E>(upload: UploadView, answers: Answers<E>) -> UploadEventView<E> {
    match upload.phase {
        UploadPhaseView::Counting => UploadEventView::Counted(answers.count),
        UploadPhaseView::ReadingDevice => UploadEventView::Device(answers.device),
        UploadPhaseView::ReadingMaxId(_) => UploadEventView::MaxId(answers.max_id),
        UploadPhaseView::Storing(_) => UploadEventView::Stored(answers.stored),
        UploadPhaseView::Uploading => UploadEventView::Uploaded(answers.uploaded),
        UploadPhaseView::Marking => UploadEventView::Marked(answers.marked),
        _ => UploadEventView::CounterSaved,
    }
}

/// How many steps an upload has before it at most.
pub open spec fn steps_left(phase: UploadPhaseView) -> nat {
    match phase {
        UploadPhaseView::Counting => 7,
        UploadPhaseView::ReadingDevice => 6,
        UploadPhaseView::ReadingMaxId(_) => 5,
        UploadPhaseView::Storing(_) => 4,
        UploadPhaseView::Uploading => 3,
        UploadPhaseView::Marking => 2,
        UploadPhaseView::SavingCounter => 1,
        UploadPhaseView::Done => 0,
    }
}

/// All that an upload has done, from where it stands to its end.
pub open spec fn actions<E>(upload: UploadView, answers: Answers<E>) -> Seq<UploadActionView<E>>
    decreases steps_left(upload.phase),
{
    if upload.phase is Done {
        Seq::empty()
    } else {
        let (next, action) = upload.step(answer(upload, answers), answers.pairs);
        seq![action] + actions(next, answers)
    }
}

/// What an upload is meant to do, as far as it gets.
pub open spec fn upload_course<E>(force: bool, answers: Answers<E>) -> Seq<UploadActionView<E>> {
    match (answers.count, answers.max_id, answers.stored, answers.uploaded) {
        (Err(error), _, _, _) => seq![UploadActionView::Return(Err(error))],
        (Ok(count), max_id, stored, uploaded) => {
            let asked = seq![UploadActionView::ReadDevice, UploadActionView::ReadMaxId];
            if !force && count >= upload::MIN_PRE_KEY_COUNT {
                seq![UploadActionView::Return(Ok(UploadOutcome::NotNeeded))]
            } else {
                match max_id {
                    Err(error) => asked + seq![UploadActionView::Return(Err(error))],
                    Ok(max_id) => if answers.pairs.len() == 0 {
                        asked + seq![UploadActionView::Return(Ok(UploadOutcome::NoneAvailable))]
                    } else {
                        asked + seq![UploadActionView::Store] + batch_course(
                            upload::first_id(answers.device.next_pre_key_id, max_id),
                            answers,
                        )
                    },
                }
            }
        },
    }
}

/// What an upload is meant to do with a batch that it has had stored.
pub open spec fn batch_course<E>(start_id: int, answers: Answers<E>) -> Seq<UploadActionView<E>> {
    let request = upload::request_of(answers.device, start_id, answers.pairs);
    match (answers.stored, answers.uploaded) {
        (Err(error), _) => seq![UploadActionView::Return(Err(error))],
        (Ok(()), Err(error)) => seq![
            UploadActionView::Upload(request),
            UploadActionView::Return(Err(error)),
        ],
        (Ok(()), Ok(())) => seq![
            UploadActionView::Upload(request),
            UploadActionView::Mark,
            UploadActionView::SaveCounter((start_id + answers.pairs.len()) as u32),
            UploadActionView::Return(
                Ok(
                    UploadOutcome::Uploaded {
                        count: answers.pairs.len() as usize,
                        start_id: start_id as u32,
                    },
                ),
            ),
        ],
    }
}

/// The course of an upload, whatever it is told: it does not take place where the server has
/// enough pre-keys, unless forced; pre-keys are uploaded only once they are stored; the first
/// failure to store or to upload ends it, with the counter as it was; whether the batch can then
/// be marked makes no difference; and the counter is saved last.
pub proof fn law_upload_course<E>(force: bool, answers: Answers<E>)
    requires
        answers.max_id matches Ok(max_id) ==> {
            let start_id = upload::first_id(answers.device.next_pre_key_id, max_id);
            answers.pairs.len() == upload::batch_len(start_id)
        },
    ensures
        actions(UploadView::fresh(force), answers) == upload_course(force, answers),
{
    reveal_with_fuel(actions, 9);
    let fresh = UploadView::fresh(force);
    assert(actions(fresh, answers) =~= upload_course(force, answers));
}

/// How many pre-keys the server has once an upload ended so, having had `count` before.
pub open spec fn server_count(count: usize, outcome: UploadOutcome) -> int {
    match outcome {
        UploadOutcome::Uploaded { count: uploaded, .. } => count + uploaded,
        _ => count as int,
    }
}

/// An upload that succeeds leaves the server with enough pre-keys, unless too few ids are left to
/// make up for those that it lacks.
pub proof fn law_success_leaves_enough_pre_keys<E>(force: bool, answers: Answers<E>)
    requires
        answers.max_id matches Ok(max_id) ==> {
            let start_id = upload::first_id(answers.device.next_pre_key_id, max_id);
            answers.pairs.len() == upload::batch_len(start_id)
        },
        answers.count matches Ok(count) ==> answers.max_id matches Ok(max_id) ==> count
            + upload::batch_len(upload::first_id(answers.device.next_pre_key_id, max_id))
            >= upload::MIN_PRE_KEY_COUNT,
    ensures
        actions(UploadView::fresh(force), answers).last() matches UploadActionView::Return(
            Ok(outcome),
        ) ==> {
            &&& answers.count matches Ok(count)
            &&& server_count(count, outcome) >= upload::MIN_PRE_KEY_COUNT
        },
{
    law_upload_course(force, answers);
}

/// Uploaded pre-keys can be used here: in the store the record of a new pre-key stands under the
/// id, and with the public key, that the server is given, and it has the private key of the pair.
/// Where the pair belongs together, that private key is the one that the uploaded public key is
/// derived from.
pub proof fn law_request_matches_batch(
    device: DeviceKeysView,
    start_id: int,
    pairs: Seq<PreKeyPairView>,
    i: int,
)
    requires
        upload::batch_reads_as(upload::batch_of(start_id, pairs), start_id, pairs),
        0 <= i < pairs.len(),
    ensures
        upload::request_of(device, start_id, pairs).pre_keys.len() == upload::batch_of(
            start_id,
            pairs,
        ).len(),
        upload::request_of(device, start_id, pairs).pre_keys[i].0 == upload::batch_of(
            start_id,
            pairs,
        )[i].0,
        records::decoded_record(upload::batch_of(start_id, pairs)[i].1) matches Ok(record) && {
            let (id, public_key) = upload::request_of(device, start_id, pairs).pre_keys[i];
            &&& record.id == Some(id)
            &&& record.public_key == Some(public_key)
            &&& record.private_key == Some(pairs[i].private_key)
            &&& pairs[i].matched() ==> public_key == records::public_key_of(
                record.private_key->0,
            )
        },
{
    assert(records::reads_as(
        upload::batch_of(start_id, pairs)[i].1,
        pairs[i].record((start_id + i) as u32),
    ));
}

} // verus!
