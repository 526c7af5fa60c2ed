//! Checking that the server has the key bundle that the device has.
//!
//! The server is asked for a digest of the bundle that it has on record, and the same digest is
//! made of the keys at hand. Only where the server has no record are pre-keys uploaded again:
//! after anything else that is wrong the check just ends.
//!
//! Whoever drives a [`DigestCheck`] first asks the server for the digest. From then on each event
//! is answered with the action to carry out next.

use vstd::prelude::*;

use crate::device::{DeviceKeys, DeviceKeysView};
use crate::records;

verus! {

/// The error code of a server that has no record of the bundle.
pub const CODE_NO_RECORD: u16 = 404;

/// The error code of a server that was asked amiss.
pub const CODE_MALFORMED: u16 = 406;

/// The error code of a server that cannot answer now.
pub const CODE_UNAVAILABLE: u16 = 503;

/// The SHA-1 digest of a message.
pub uninterp spec fn sha1_digest(message: Seq<u8>) -> Seq<u8>;

/// What the digest of a key bundle is taken over: the public identity key, the public signed
/// pre-key and its signature, and the public pre-keys, one after the other.
pub open spec fn bundle_material(
    identity_key: Seq<u8>,
    signed_pre_key: Seq<u8>,
    signature: Seq<u8>,
    pre_keys: Seq<Seq<u8>>,
) -> Seq<u8> {
    identity_key + signed_pre_key + signature + pre_keys.flatten()
}

/// Byte strings in contracts.
pub open spec fn strings_view(strings: Seq<Vec<u8>>) -> Seq<Seq<u8>> {
    strings.map_values(|string: Vec<u8>| string@)
}

/// Trusted: `wacore::prekeys::compute_key_bundle_digest` gives the SHA-1 digest, which has twenty
/// bytes, of its arguments one after the other.
pub assume_specification[ wacore::prekeys::compute_key_bundle_digest ](
    identity_pub_key: &[u8],
    signed_prekey_pub: &[u8],
    signed_prekey_signature: &[u8],
    prekey_pubkeys: &[Vec<u8>],
) -> (digest: Vec<u8>)
    ensures
        digest@ == sha1_digest(
            bundle_material(
                identity_pub_key@,
                signed_prekey_pub@,
                signed_prekey_signature@,
                strings_view(prekey_pubkeys@),
            ),
        ),
        digest@.len() == 20,
;

/// What the server says of the bundle that it has on record.
pub struct DigestResponse {
    pub reg_id: u32,
    /// The ids of the pre-keys in the bundle.
    pub prekey_ids: Vec<u32>,
    pub hash: Vec<u8>,
}

/// A [`DigestResponse`] in contracts.
pub struct DigestResponseView {
    pub reg_id: u32,
    pub prekey_ids: Seq<u32>,
    pub hash: Seq<u8>,
}

/// Why asking the server failed.
pub enum QueryFailure<E> {
    /// The server answered with an error of this code.
    Server { code: u16, error: E },
    /// The answer could not be parsed.
    Parse(E),
    /// Anything else.
    Other(E),
}

/// How a check ended.
pub enum DigestOutcome<E> {
    /// The bundles are the same.
    Validated,
    /// The server was asked amiss.
    MalformedRequest,
    /// The server cannot answer now.
    ServiceUnavailable,
    /// The answer could not be parsed.
    Unparseable(E),
    /// Asking failed otherwise.
    QueryFailed(E),
    /// The server has another registration id on record.
    RegistrationMismatch { server_id: u32, local_id: u32 },
    /// The server has a pre-key on record that is not in the store.
    MissingPreKey(u32),
    /// A pre-key could not be loaded from the store.
    LoadFailed(u32, E),
    /// What the store has for a pre-key is no record.
    UndecodablePreKey(u32, prost::DecodeError),
    /// The record of a pre-key has no public key.
    NoPublicKey(u32),
    /// The digests differ.
    HashMismatch { server_hash: Vec<u8>, local_hash: Vec<u8> },
}

/// A [`DigestOutcome`] in contracts.
pub enum DigestOutcomeView<E> {
    Validated,
    MalformedRequest,
    ServiceUnavailable,
    Unparseable(E),
    QueryFailed(E),
    RegistrationMismatch { server_id: u32, local_id: u32 },
    MissingPreKey(u32),
    LoadFailed(u32, E),
    UndecodablePreKey(u32, prost::DecodeError),
    NoPublicKey(u32),
    HashMismatch { server_hash: Seq<u8>, local_hash: Seq<u8> },
}

/// Something that happened to a check.
pub enum DigestEvent<E> {
    /// The server answered, or asking failed.
    Queried(Result<DigestResponse, QueryFailure<E>>),
    /// The keys of the device.
    Device(DeviceKeys),
    /// The store gave the record of a pre-key, has none, or failed.
    Loaded(Result<Option<Vec<u8>>, E>),
}

/// A [`DigestEvent`] in contracts.
pub enum DigestEventView<E> {
    Queried(Result<DigestResponseView, QueryFailure<E>>),
    Device(DeviceKeysView),
    Loaded(Result<Option<Seq<u8>>, E>),
}

/// What a check wants done next.
pub enum DigestAction<E> {
    /// Read the keys of the device.
    ReadDevice,
    /// Load the record of this pre-key from the store.
    LoadPreKey(u32),
    /// Upload pre-keys, however many the server has, until that succeeds; the result of that is
    /// the result of the check.
    UploadAgain,
    /// Be done; the check itself does not fail.
    Finish(DigestOutcome<E>),
}

/// A [`DigestAction`] in contracts.
pub enum DigestActionView<E> {
    ReadDevice,
    LoadPreKey(u32),
    UploadAgain,
    Finish(DigestOutcomeView<E>),
}

/// Where a check stands.
enum DigestPhase {
    Querying,
    ReadingDevice(DigestResponse),
    Loading { response: DigestResponse, device: DeviceKeys, public_keys: Vec<Vec<u8>> },
    Done,
}

/// Where a check stands, in contracts.
pub enum DigestView {
    Querying,
    ReadingDevice(DigestResponseView),
    Loading {
        response: DigestResponseView,
        device: DeviceKeysView,
        public_keys: Seq<Seq<u8>>,
    },
    Done,
}

/// A check of the key bundle in progress.
pub struct DigestCheck {
    phase: DigestPhase,
}

impl View for DigestResponse {
    type V = DigestResponseView;

    open spec fn view(&self) -> DigestResponseView {
        DigestResponseView {
            reg_id: self.reg_id,
            prekey_ids: self.prekey_ids@,
            hash: self.hash@,
        }
    }
}

impl<E> View for DigestOutcome<E> {
    type V = DigestOutcomeView<E>;

    open spec fn view(&self) -> DigestOutcomeView<E> {
        match *self {
            DigestOutcome::Validated => DigestOutcomeView::Validated,
            DigestOutcome::MalformedRequest => DigestOutcomeView::MalformedRequest,
            DigestOutcome::ServiceUnavailable => DigestOutcomeView::ServiceUnavailable,
            DigestOutcome::Unparseable(error) => DigestOutcomeView::Unparseable(error),
            DigestOutcome::QueryFailed(error) => DigestOutcomeView::QueryFailed(error),
            DigestOutcome::RegistrationMismatch {
                server_id,
                local_id,
            } => DigestOutcomeView::RegistrationMismatch { server_id, local_id },
            DigestOutcome::MissingPreKey(id) => DigestOutcomeView::MissingPreKey(id),
            DigestOutcome::LoadFailed(id, error) => DigestOutcomeView::LoadFailed(id, error),
            DigestOutcome::UndecodablePreKey(
                id,
                error,
            ) => DigestOutcomeView::UndecodablePreKey(id, error),
            DigestOutcome::NoPublicKey(id) => DigestOutcomeView::NoPublicKey(id),
            DigestOutcome::HashMismatch {
                server_hash,
                local_hash,
            } => DigestOutcomeView::HashMismatch {
                server_hash: server_hash@,
                local_hash: local_hash@,
            },
        }
    }
}

impl<E> View for DigestEvent<E> {
    type V = DigestEventView<E>;

    open spec fn view(&self) -> DigestEventView<E> {
        match *self {
            DigestEvent::Queried(Ok(response)) => DigestEventView::Queried(Ok(response@)),
            DigestEvent::Queried(Err(failure)) => DigestEventView::Queried(Err(failure)),
            DigestEvent::Device(device) => DigestEventView::Device(device@),
            DigestEvent::Loaded(Ok(record)) => DigestEventView::Loaded(
                Ok(records::bytes_view(record)),
            ),
            DigestEvent::Loaded(Err(error)) => DigestEventView::Loaded(Err(error)),
        }
    }
}

impl<E> View for DigestAction<E> {
    type V = DigestActionView<E>;

    open spec fn view(&self) -> DigestActionView<E> {
        match *self {
            DigestAction::ReadDevice => DigestActionView::ReadDevice,
            DigestAction::LoadPreKey(id) => DigestActionView::LoadPreKey(id),
            DigestAction::UploadAgain => DigestActionView::UploadAgain,
            DigestAction::Finish(outcome) => DigestActionView::Finish(outcome@),
        }
    }
}

impl View for DigestCheck {
    type V = DigestView;

    closed spec fn view(&self) -> DigestView {
        match self.phase {
            DigestPhase::Querying => DigestView::Querying,
            DigestPhase::ReadingDevice(response) => DigestView::ReadingDevice(response@),
            DigestPhase::Loading { response, device, public_keys } => DigestView::Loading {
                response: response@,
                device: device@,
                public_keys: strings_view(public_keys@),
            },
            DigestPhase::Done => DigestView::Done,
        }
    }
}

/// How a check ends that has all public keys of the bundle.
pub open spec fn digest_verdict<E>(
    response: DigestResponseView,
    device: DeviceKeysView,
    public_keys: Seq<Seq<u8>>,
) -> DigestOutcomeView<E> {
    let local_hash = sha1_digest(
        bundle_material(
            device.identity_key,
            device.signed_pre_key,
            device.signed_pre_key_signature,
            public_keys,
        ),
    );
    if local_hash == response.hash {
        DigestOutcomeView::Validated
    } else {
        DigestOutcomeView::HashMismatch { server_hash: response.hash, local_hash }
    }
}

/// Where a check goes that has these public keys of the bundle: on to the next pre-key, or to the
/// end.
pub open spec fn digest_advance<E>(
    response: DigestResponseView,
    device: DeviceKeysView,
    public_keys: Seq<Seq<u8>>,
) -> (DigestView, DigestActionView<E>) {
    if public_keys.len() < response.prekey_ids.len() {
        (
            DigestView::Loading { response, device, public_keys },
            DigestActionView::LoadPreKey(response.prekey_ids[public_keys.len() as int]),
        )
    } else {
        (
            DigestView::Done,
            DigestActionView::Finish(digest_verdict(response, device, public_keys)),
        )
    }
}

/// The public key in what the store gave for a pre-key, or how a check ends that there is none.
pub open spec fn loaded_key<E>(id: u32, loaded: Result<Option<Seq<u8>>, E>) -> Result<
    Seq<u8>,
    DigestOutcomeView<E>,
> {
    match loaded {
        Ok(Some(bytes)) => match records::decoded_record(bytes) {
            Ok(record) => match record.public_key {
                Some(public_key) => Ok(public_key),
                None => Err(DigestOutcomeView::NoPublicKey(id)),
            },
            Err(error) => Err(DigestOutcomeView::UndecodablePreKey(id, error)),
        },
        Ok(None) => Err(DigestOutcomeView::MissingPreKey(id)),
        Err(error) => Err(DigestOutcomeView::LoadFailed(id, error)),
    }
}

/// What a check does about a failure to ask the server.
pub open spec fn on_query_failure<E>(failure: QueryFailure<E>) -> DigestActionView<E> {
    match failure {
        QueryFailure::Server { code, error } => if code == CODE_NO_RECORD {
            DigestActionView::UploadAgain
        } else if code == CODE_MALFORMED {
            DigestActionView::Finish(DigestOutcomeView::MalformedRequest)
        } else if code == CODE_UNAVAILABLE {
            DigestActionView::Finish(DigestOutcomeView::ServiceUnavailable)
        } else {
            DigestActionView::Finish(DigestOutcomeView::QueryFailed(error))
        },
        QueryFailure::Parse(error) => DigestActionView::Finish(
            DigestOutcomeView::Unparseable(error),
        ),
        QueryFailure::Other(error) => DigestActionView::Finish(
            DigestOutcomeView::QueryFailed(error),
        ),
    }
}

impl DigestView {
    /// That there is a pre-key left to load where one is being loaded.
    pub open spec fn valid(self) -> bool {
        self matches DigestView::Loading { response, device, public_keys } ==> public_keys.len()
            < response.prekey_ids.len()
    }

    /// Whether the event is one that the check waits for: what its last action leads to.
    pub open spec fn awaits<E>(self, event: DigestEventView<E>) -> bool {
        match event {
            DigestEventView::Queried(_) => self is Querying,
            DigestEventView::Device(_) => self is ReadingDevice,
            DigestEventView::Loaded(_) => self is Loading,
        }
    }

    /// Where the check goes on an event, and what it does about it.
    pub open spec fn step<E>(self, event: DigestEventView<E>) -> (DigestView, DigestActionView<E>) {
        match (self, event) {
            (_, DigestEventView::Queried(Ok(response))) => (
                DigestView::ReadingDevice(response),
                DigestActionView::ReadDevice,
            ),
            (_, DigestEventView::Queried(Err(failure))) => (
                DigestView::Done,
                on_query_failure(failure),
            ),
            (
                DigestView::ReadingDevice(response),
                DigestEventView::Device(device),
            ) => if response.reg_id == device.registration_id {
                digest_advance(response, device, Seq::empty())
            } else {
                (
                    DigestView::Done,
                    DigestActionView::Finish(
                        DigestOutcomeView::RegistrationMismatch {
                            server_id: response.reg_id,
                            local_id: device.registration_id,
                        },
                    ),
                )
            },
            (
                DigestView::Loading { response, device, public_keys },
                DigestEventView::Loaded(loaded),
            ) => match loaded_key(response.prekey_ids[public_keys.len() as int], loaded) {
                Ok(public_key) => digest_advance(response, device, public_keys.push(public_key)),
                Err(outcome) => (DigestView::Done, DigestActionView::Finish(outcome)),
            },
            _ => arbitrary(),
        }
    }
}

impl DigestCheck {
    /// A check that has not begun.
    pub fn new() -> (check: DigestCheck)
        ensures
            check@ == DigestView::Querying,
            check@.valid(),
    {
        DigestCheck { phase: DigestPhase::Querying }
    }

    /// Takes the event, and says what to do next.
    pub fn step<E>(&mut self, event: DigestEvent<E>) -> (action: DigestAction<E>)
        requires
            old(self)@.valid(),
            old(self)@.awaits(event@),
        ensures
            final(self)@.valid(),
            (final(self)@, action@) == old(self)@.step(event@),
    {
        let mut phase = DigestPhase::Done;
        std::mem::swap(&mut self.phase, &mut phase);
        match (phase, event) {
            (_, DigestEvent::Queried(Ok(response))) => {
                self.phase = DigestPhase::ReadingDevice(response);
                DigestAction::ReadDevice
            },
            (_, DigestEvent::Queried(Err(failure))) => Self::query_failed(failure),
            (DigestPhase::ReadingDevice(response), DigestEvent::Device(device)) => {
                if response.reg_id != device.registration_id {
                    return DigestAction::Finish(
                        DigestOutcome::RegistrationMismatch {
                            server_id: response.reg_id,
                            local_id: device.registration_id,
                        },
                    );
                }
                let public_keys: Vec<Vec<u8>> = Vec::with_capacity(response.prekey_ids.len());
                assert(strings_view(public_keys@) =~= Seq::empty());
                self.advance(response, device, public_keys)
            },
            (
                DigestPhase::Loading { response, device, public_keys },
                DigestEvent::Loaded(loaded),
            ) => {
                let id: u32 = response.prekey_ids[public_keys.len()];
                match Self::loaded_key(id, loaded) {
                    Ok(public_key) => {
                        let ghost before = strings_view(public_keys@);
                        let mut public_keys = public_keys;
                        public_keys.push(public_key);
                        assert(strings_view(public_keys@) =~= before.push(public_key@));
                        self.advance(response, device, public_keys)
                    },
                    Err(outcome) => DigestAction::Finish(outcome),
                }
            },
            _ => vstd::pervasive::unreached(),
        }
    }

    /// What to do about a failure to ask the server.
    fn query_failed<E>(failure: QueryFailure<E>) -> (action: DigestAction<E>)
        ensures
            action@ == on_query_failure(failure),
    {
        match failure {
            QueryFailure::Server { code, error } => {
                if code == CODE_NO_RECORD {
                    DigestAction::UploadAgain
                } else if code == CODE_MALFORMED {
                    DigestAction::Finish(DigestOutcome::MalformedRequest)
                } else if code == CODE_UNAVAILABLE {
                    DigestAction::Finish(DigestOutcome::ServiceUnavailable)
                } else {
                    DigestAction::Finish(DigestOutcome::QueryFailed(error))
                }
            },
            QueryFailure::Parse(error) => DigestAction::Finish(DigestOutcome::Unparseable(error)),
            QueryFailure::Other(error) => DigestAction::Finish(DigestOutcome::QueryFailed(error)),
        }
    }

    /// The public key in what the store gave for a pre-key, or how the check ends without one.
    fn loaded_key<E>(id: u32, loaded: Result<Option<Vec<u8>>, E>) -> (result: Result<
        Vec<u8>,
        DigestOutcome<E>,
    >)
        ensures
            match loaded_key(
                id,
                match loaded {
                    Ok(record) => Ok(records::bytes_view(record)),
                    Err(error) => Err(error),
                },
            ) {
                Ok(public_key) => result matches Ok(bytes) && bytes@ == public_key,
                Err(outcome) => result matches Err(given) && given@ == outcome,
            },
    {
        match loaded {
            Ok(Some(bytes)) => match records::decode_record(bytes.as_slice()) {
                Ok(record) => match record.public_key {
                    Some(public_key) => Ok(public_key),
                    None => Err(DigestOutcome::NoPublicKey(id)),
                },
                Err(error) => Err(DigestOutcome::UndecodablePreKey(id, error)),
            },
            Ok(None) => Err(DigestOutcome::MissingPreKey(id)),
            Err(error) => Err(DigestOutcome::LoadFailed(id, error)),
        }
    }

    /// Goes on to the next pre-key or, with all public keys at hand, compares the digests.
    fn advance<E>(
        &mut self,
        response: DigestResponse,
        device: DeviceKeys,
        public_keys: Vec<Vec<u8>>,
    ) -> (action: DigestAction<E>)
        requires
            old(self)@ is Done,
        ensures
            final(self)@.valid(),
            (final(self)@, action@) == digest_advance::<E>(
                response@,
                device@,
                strings_view(public_keys@),
            ),
    {
        if public_keys.len() < response.prekey_ids.len() {
            let id: u32 = response.prekey_ids[public_keys.len()];
            self.phase = DigestPhase::Loading { response, device, public_keys };
            return DigestAction::LoadPreKey(id);
        }
        let local_hash = wacore::prekeys::compute_key_bundle_digest(
            device.identity_key.as_slice(),
            device.signed_pre_key.as_slice(),
            device.signed_pre_key_signature.as_slice(),
            public_keys.as_slice(),
        );
        let same = local_hash == response.hash;
        assert(same <==> local_hash@ =~= response.hash@);
        if same {
            DigestAction::Finish(DigestOutcome::Validated)
        } else {
            DigestAction::Finish(
                DigestOutcome::HashMismatch { server_hash: response.hash, local_hash },
            )
        }
    }
}

} // verus!
