//! One-time pre-keys: how they are made, and how they are kept in the store.

use vstd::prelude::*;

verus! {

/// Bytes of a public key, and of a private one.
pub const KEY_SIZE: usize = 32;

/// A key pair by its bytes.
pub struct PreKeyPair {
    pub public_key: Vec<u8>,
    pub private_key: Vec<u8>,
}

/// A [`PreKeyPair`] in contracts.
pub struct PreKeyPairView {
    pub public_key: Seq<u8>,
    pub private_key: Seq<u8>,
}

/// A pre-key as the store keeps it. Each part may be missing from a record that was read.
pub struct PreKeyRecord {
    pub id: Option<u32>,
    pub public_key: Option<Vec<u8>>,
    pub private_key: Option<Vec<u8>>,
}

/// A [`PreKeyRecord`] in contracts.
pub struct PreKeyRecordView {
    pub id: Option<u32>,
    pub public_key: Option<Seq<u8>>,
    pub private_key: Option<Seq<u8>>,
}

/// Optional bytes in contracts.
pub open spec fn bytes_view(bytes: Option<Vec<u8>>) -> Option<Seq<u8>> {
    match bytes {
        Some(bytes) => Some(bytes@),
        None => None,
    }
}

impl View for PreKeyPair {
    type V = PreKeyPairView;

    open spec fn view(&self) -> PreKeyPairView {
        PreKeyPairView { public_key: self.public_key@, private_key: self.private_key@ }
    }
}

impl View for PreKeyRecord {
    type V = PreKeyRecordView;

    open spec fn view(&self) -> PreKeyRecordView {
        PreKeyRecordView {
            id: self.id,
            public_key: bytes_view(self.public_key),
            private_key: bytes_view(self.private_key),
        }
    }
}

impl PreKeyPairView {
    /// That both keys have the size of a key.
    pub open spec fn sized(self) -> bool {
        &&& self.public_key.len() == KEY_SIZE
        &&& self.private_key.len() == KEY_SIZE
    }

    /// That the public key belongs to the private one.
    pub open spec fn matched(self) -> bool {
        self.public_key == public_key_of(self.private_key)
    }

    /// The record that keeps this pair under an id.
    pub open spec fn record(self, id: u32) -> PreKeyRecordView {
        PreKeyRecordView {
            id: Some(id),
            public_key: Some(self.public_key),
            private_key: Some(self.private_key),
        }
    }
}

/// `prost::DecodeError`, why bytes are no record.
#[verifier::external_type_specification]
#[verifier::external_body]
pub struct ExDecodeError(prost::DecodeError);

/// The bytes that `prost::Message::encode_to_vec` makes of a
/// `waproto::whatsapp::PreKeyRecordStructure` with the fields of the record.
pub uninterp spec fn encoded_record(record: PreKeyRecordView) -> Seq<u8>;

/// The record that `prost::Message::decode` reads from the bytes of a
/// `waproto::whatsapp::PreKeyRecordStructure`, or the error that it gives.
pub uninterp spec fn decoded_record(bytes: Seq<u8>) -> Result<PreKeyRecordView, prost::DecodeError>;

/// The bytes of the public key that `wacore::libsignal::protocol::PrivateKey::public_key` gives for
/// a private key of these bytes.
pub uninterp spec fn public_key_of(private_key: Seq<u8>) -> Seq<u8>;

/// That the record is what is read from the bytes.
pub open spec fn reads_as(bytes: Seq<u8>, record: PreKeyRecordView) -> bool {
    decoded_record(bytes) == Ok::<PreKeyRecordView, prost::DecodeError>(record)
}

/// Trusted: `wacore::libsignal::protocol::KeyPair::generate`, on a generator seeded by
/// `rand::make_rng`, gives a key pair: keys of the size of a key, the public one being what
/// `PrivateKey::public_key` derives from the private one. Which pair it is, is up to chance, and
/// nothing is claimed of it. `rand::make_rng` panics where the system has no randomness to give,
/// which no argument decides.
#[verifier::external_body]
fn generate_key_pair() -> (pair: PreKeyPair)
    ensures
        pair@.sized(),
        pair@.public_key == public_key_of(pair@.private_key),
{
    let pair = wacore::libsignal::protocol::KeyPair::generate(
        &mut rand::make_rng::<rand::rngs::StdRng>(),
    );
    PreKeyPair {
        public_key: pair.public_key.public_key_bytes().to_vec(),
        private_key: pair.private_key.serialize().to_vec(),
    }
}

/// Trusted: `prost::Message::encode_to_vec` gives the bytes of a record, and
/// `prost::Message::decode` reads the same record back from them. The bytes have to fit in memory,
/// with room to spare for what stands between the keys.
#[verifier::external_body]
pub(crate) fn encode_record(record: &PreKeyRecord) -> (bytes: Vec<u8>)
    requires
        record@.public_key matches Some(public_key) ==> public_key.len() <= 0x1000_0000,
        record@.private_key matches Some(private_key) ==> private_key.len() <= 0x1000_0000,
    ensures
        bytes@ == encoded_record(record@),
        reads_as(bytes@, record@),
{
    let structure = waproto::whatsapp::PreKeyRecordStructure {
        id: record.id,
        public_key: record.public_key.clone(),
        private_key: record.private_key.clone(),
    };
    prost::Message::encode_to_vec(&structure)
}

/// Trusted: `prost::Message::decode` reads a record from bytes, or says why they are none.
#[verifier::external_body]
pub(crate) fn decode_record(bytes: &[u8]) -> (result: Result<PreKeyRecord, prost::DecodeError>)
    ensures
        match decoded_record(bytes@) {
            Ok(record) => result matches Ok(read) && read@ == record,
            Err(error) => result matches Err(given) && given == error,
        },
{
    let structure: waproto::whatsapp::PreKeyRecordStructure = prost::Message::decode(bytes)?;
    Ok(
        PreKeyRecord {
            id: structure.id,
            public_key: structure.public_key,
            private_key: structure.private_key,
        },
    )
}

/// Copies bytes.
pub(crate) fn copy_bytes(bytes: &Vec<u8>) -> (copy: Vec<u8>)
    ensures
        copy@ == bytes@,
{
    let copy = bytes.clone();
    assert(copy@ =~= bytes@);
    copy
}

/// The record that keeps a key pair under an id.
pub fn new_pre_key_record(id: u32, pair: &PreKeyPair) -> (record: PreKeyRecord)
    ensures
        record@ == pair@.record(id),
        record.id == Some(id),
        record.public_key matches Some(public_key) && public_key@ == pair.public_key@,
        record.private_key matches Some(private_key) && private_key@ == pair.private_key@,
{
    PreKeyRecord {
        id: Some(id),
        public_key: Some(copy_bytes(&pair.public_key)),
        private_key: Some(copy_bytes(&pair.private_key)),
    }
}

/// Key pairs in contracts.
pub open spec fn pairs_view(pairs: Seq<PreKeyPair>) -> Seq<PreKeyPairView> {
    pairs.map_values(|pair: PreKeyPair| pair@)
}

/// Makes as many key pairs as asked for, each of a private key and the public key that belongs to
/// it.
pub fn generate_key_pairs(count: usize) -> (pairs: Vec<PreKeyPair>)
    ensures
        pairs@.len() == count,
        forall|i: int| 0 <= i < count ==> (#[trigger] pairs@[i])@.sized(),
        forall|i: int| 0 <= i < count ==> (#[trigger] pairs@[i])@.matched(),
        forall|i: int|
            0 <= i < count ==> (#[trigger] pairs@[i]).public_key@ == public_key_of(
                pairs@[i].private_key@,
            ),
        forall|i: int| 0 <= i < count ==> (#[trigger] pairs@[i]).public_key@.len() == 32,
        forall|i: int| 0 <= i < count ==> (#[trigger] pairs@[i]).private_key@.len() == 32,
{
    let mut pairs: Vec<PreKeyPair> = Vec::new();
    let mut i: usize = 0;
    while i < count
        invariant
            i <= count,
            pairs@.len() == i,
            forall|j: int| 0 <= j < i ==> (#[trigger] pairs@[j])@.sized(),
            forall|j: int| 0 <= j < i ==> (#[trigger] pairs@[j])@.matched(),
        decreases count - i,
    {
        pairs.push(generate_key_pair());
        i += 1;
    }
    pairs
}

} // verus!
