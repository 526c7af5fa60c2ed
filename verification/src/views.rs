//! What stands for a value in contracts is the value, whole and unchanged.
//!
//! Contracts speak of views. The laws here say of each view that it has just what the value has, so
//! that what is proved of views holds of what goes in and comes out.

use vstd::prelude::*;

use crate::bundle::{
    DigestAction, DigestActionView, DigestEvent, DigestEventView, DigestOutcome,
    DigestOutcomeView, DigestResponse,
};
use crate::device::DeviceKeys;
use crate::error::{EncryptSendError, EncryptSendErrorView, SendResult};
use crate::records::{PreKeyPair, PreKeyPairView, PreKeyRecord};
use crate::retry::{RetryAction, RetryActionView};
use crate::sender::{SenderAction, SenderActionView, SenderEvent, SenderEventView};
use crate::upload::{UploadAction, UploadActionView, UploadEvent, UploadEventView, UploadRequest};
use crate::{bundle, error, records, upload};

verus! {

/// Byte strings, with or without ids, and optional ones are seen one by one.
pub proof fn law_byte_strings_are_seen_whole(
    strings: Seq<Vec<u8>>,
    entries: Seq<(u32, Vec<u8>)>,
    bytes: Option<Vec<u8>>,
)
    ensures
        bundle::strings_view(strings).len() == strings.len(),
        forall|i: int|
            0 <= i < strings.len() ==> #[trigger] bundle::strings_view(strings)[i] == strings[i]@,
        upload::entries_view(entries).len() == entries.len(),
        forall|i: int|
            0 <= i < entries.len() ==> (#[trigger] upload::entries_view(entries)[i]).0
                == entries[i].0 && upload::entries_view(entries)[i].1 == entries[i].1@,
        records::bytes_view(bytes) is Some <==> bytes is Some,
        bytes matches Some(given) ==> records::bytes_view(bytes) == Some(given@),
{
}

/// The keys of a device are seen field by field.
pub proof fn law_device_is_seen_whole(device: DeviceKeys)
    ensures
        device@.registration_id == device.registration_id,
        device@.identity_key == device.identity_key@,
        device@.signed_pre_key_id == device.signed_pre_key_id,
        device@.signed_pre_key == device.signed_pre_key@,
        device@.signed_pre_key_signature == device.signed_pre_key_signature@,
        device@.next_pre_key_id == device.next_pre_key_id,
{
}

/// Key pairs and records are seen field by field, and the record of a pair has the id, the public
/// key and the private key. Keys have thirty-two bytes.
pub proof fn law_pre_keys_are_seen_whole(
    pair: PreKeyPair,
    pairs: Seq<PreKeyPair>,
    record: PreKeyRecord,
    view: PreKeyPairView,
    id: u32,
)
    ensures
        pair@.public_key == pair.public_key@,
        pair@.private_key == pair.private_key@,
        records::pairs_view(pairs).len() == pairs.len(),
        forall|i: int|
            0 <= i < pairs.len() ==> (#[trigger] records::pairs_view(pairs)[i]).public_key
                == pairs[i].public_key@ && records::pairs_view(pairs)[i].private_key
                == pairs[i].private_key@,
        record@.id == record.id,
        record@.public_key is Some <==> record.public_key is Some,
        record.public_key matches Some(key) ==> record@.public_key == Some(key@),
        record@.private_key is Some <==> record.private_key is Some,
        record.private_key matches Some(key) ==> record@.private_key == Some(key@),
        view.record(id).id == Some(id),
        view.record(id).public_key == Some(view.public_key),
        view.record(id).private_key == Some(view.private_key),
        view.sized() <==> view.public_key.len() == 32 && view.private_key.len() == 32,
        view.matched() <==> view.public_key == records::public_key_of(view.private_key),
{
}

/// A request is seen field by field, and its pre-keys one by one.
pub proof fn law_request_is_seen_whole(request: UploadRequest)
    ensures
        request@.registration_id == request.registration_id,
        request@.identity_key == request.identity_key@,
        request@.signed_pre_key_id == request.signed_pre_key_id,
        request@.signed_pre_key == request.signed_pre_key@,
        request@.signed_pre_key_signature == request.signed_pre_key_signature@,
        request@.pre_keys.len() == request.pre_keys@.len(),
        forall|i: int|
            0 <= i < request.pre_keys@.len() ==> (#[trigger] request@.pre_keys[i]).0
                == request.pre_keys@[i].0 && request@.pre_keys[i].1 == request.pre_keys@[i].1@,
{
}

/// What an upload is told, and what it does, is seen as it is.
pub proof fn law_upload_is_seen_whole<E>(event: UploadEvent<E>, action: UploadAction<E>)
    ensures
        match event {
            UploadEvent::Counted(result) => event@ == UploadEventView::Counted(result),
            UploadEvent::Device(device) => event@ == UploadEventView::<E>::Device(device@),
            UploadEvent::MaxId(result) => event@ == UploadEventView::MaxId(result),
            UploadEvent::Stored(result) => event@ == UploadEventView::Stored(result),
            UploadEvent::Uploaded(result) => event@ == UploadEventView::Uploaded(result),
            UploadEvent::Marked(result) => event@ == UploadEventView::Marked(result),
            UploadEvent::CounterSaved => event@ is CounterSaved,
        },
        match action {
            UploadAction::ReadDevice => action@ is ReadDevice,
            UploadAction::ReadMaxId => action@ is ReadMaxId,
            UploadAction::Store => action@ is Store,
            UploadAction::Upload(request) => action@ == UploadActionView::<E>::Upload(request@),
            UploadAction::Mark => action@ is Mark,
            UploadAction::SaveCounter(next_id) => action@ == UploadActionView::<E>::SaveCounter(
                next_id,
            ),
            UploadAction::Return(result) => action@ == UploadActionView::Return(result),
        },
{
}

/// What a retry does is seen as it is.
pub proof fn law_retry_is_seen_whole(action: RetryAction)
    ensures
        match action {
            RetryAction::Attempt => action@ is Attempt,
            RetryAction::Sleep(secs) => action@ == RetryActionView::Sleep(secs as nat),
            RetryAction::Return(Ok(())) => action@ == RetryActionView::Return(Ok(())),
            RetryAction::Return(Err(text)) => action@ == RetryActionView::Return(Err(text@)),
        },
{
}

/// What a check is told, and what it does, is seen as it is.
pub proof fn law_check_is_seen_whole<E>(
    response: DigestResponse,
    event: DigestEvent<E>,
    action: DigestAction<E>,
    outcome: DigestOutcome<E>,
)
    ensures
        response@.reg_id == response.reg_id,
        response@.prekey_ids == response.prekey_ids@,
        response@.hash == response.hash@,
        match event {
            DigestEvent::Queried(Ok(response)) => event@ == DigestEventView::<E>::Queried(
                Ok(response@),
            ),
            DigestEvent::Queried(Err(failure)) => event@ == DigestEventView::Queried(Err(failure)),
            DigestEvent::Device(device) => event@ == DigestEventView::<E>::Device(device@),
            DigestEvent::Loaded(Ok(Some(bytes))) => event@ == DigestEventView::<E>::Loaded(
                Ok(Some(bytes@)),
            ),
            DigestEvent::Loaded(Ok(None)) => event@ == DigestEventView::<E>::Loaded(Ok(None)),
            DigestEvent::Loaded(Err(error)) => event@ == DigestEventView::Loaded(Err(error)),
        },
        match action {
            DigestAction::ReadDevice => action@ is ReadDevice,
            DigestAction::LoadPreKey(id) => action@ == DigestActionView::<E>::LoadPreKey(id),
            DigestAction::UploadAgain => action@ is UploadAgain,
            DigestAction::Finish(outcome) => action@ == DigestActionView::Finish(outcome@),
        },
        match outcome {
            DigestOutcome::Validated => outcome@ is Validated,
            DigestOutcome::MalformedRequest => outcome@ is MalformedRequest,
            DigestOutcome::ServiceUnavailable => outcome@ is ServiceUnavailable,
            DigestOutcome::Unparseable(error) => outcome@ == DigestOutcomeView::Unparseable(error),
            DigestOutcome::QueryFailed(error) => outcome@ == DigestOutcomeView::QueryFailed(error),
            DigestOutcome::RegistrationMismatch { server_id, local_id } => outcome@
                == DigestOutcomeView::<E>::RegistrationMismatch { server_id, local_id },
            DigestOutcome::MissingPreKey(id) => outcome@ == DigestOutcomeView::<E>::MissingPreKey(
                id,
            ),
            DigestOutcome::LoadFailed(id, error) => outcome@ == DigestOutcomeView::LoadFailed(
                id,
                error,
            ),
            DigestOutcome::UndecodablePreKey(id, error) => outcome@
                == DigestOutcomeView::<E>::UndecodablePreKey(id, error),
            DigestOutcome::NoPublicKey(id) => outcome@ == DigestOutcomeView::<E>::NoPublicKey(id),
            DigestOutcome::HashMismatch { server_hash, local_hash } => outcome@
                == DigestOutcomeView::<E>::HashMismatch {
                server_hash: server_hash@,
                local_hash: local_hash@,
            },
        },
{
}

/// What a sender is told, and what it does, is seen as it is; of a job, the message.
pub proof fn law_sender_is_seen_whole(
    event: SenderEvent,
    action: SenderAction,
    failure: EncryptSendError,
    result: SendResult,
)
    ensures
        match event {
            SenderEvent::Job(job) => event@ == SenderEventView::Job(job.plaintext_buf@),
            SenderEvent::Sealed(Ok(ciphertext)) => event@ == SenderEventView::Sealed(
                Ok(ciphertext@),
            ),
            SenderEvent::Sealed(Err(failure)) => event@ == SenderEventView::Sealed(Err(failure@)),
            SenderEvent::Sent(Ok(())) => event@ == SenderEventView::Sent(Ok(())),
            SenderEvent::Sent(Err(text)) => event@ == SenderEventView::Sent(Err(text@)),
            SenderEvent::Closed => event@ is Closed,
        },
        match action {
            SenderAction::Seal(task) => action@ == SenderActionView::Seal(task@),
            SenderAction::Transmit(frame) => action@ == SenderActionView::Transmit(frame@),
            SenderAction::Reply(Ok(())) => action@ == SenderActionView::Reply(Ok(())),
            SenderAction::Reply(Err(failure)) => action@ == SenderActionView::Reply(Err(failure@)),
            SenderAction::Exit => action@ is Exit,
        },
        match failure {
            EncryptSendError::Crypto(text) => failure@ == EncryptSendErrorView::Crypto(text@),
            EncryptSendError::Framing(text) => failure@ == EncryptSendErrorView::Framing(text@),
            EncryptSendError::Transport(text) => failure@ == EncryptSendErrorView::Transport(text@),
            EncryptSendError::ChannelClosed => failure@ is ChannelClosed,
        },
        match result {
            Ok(()) => error::send_result_view(result) == Ok::<(), EncryptSendErrorView>(()),
            Err(failure) => error::send_result_view(result) == Err::<(), EncryptSendErrorView>(
                failure@,
            ),
        },
{
}

} // verus!
