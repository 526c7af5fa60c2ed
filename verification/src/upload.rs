//! Uploading one-time pre-keys.
//!
//! Pre-key ids come from a counter that is kept with the device and only grows, so that no id is
//! given out twice even where the store forgets keys in any order.
//!
//! Whoever drives an [`UploadPreKeys`] first asks the server how many pre-keys it has. From then
//! on each event is answered with the action to carry out next.

use vstd::prelude::*;

use crate::device::{DeviceKeys, DeviceKeysView};
use crate::records;
use crate::records::{PreKeyPair, PreKeyPairView};

verus! {

/// How many pre-keys are uploaded at a time. A small batch is made and stored in seconds; the
/// pool is refilled on later connections.
pub const WANTED_PRE_KEY_COUNT: usize = 30;

/// With at least this many pre-keys on the server none are uploaded.
pub const MIN_PRE_KEY_COUNT: usize = 5;

/// The largest pre-key id: ids have three bytes.
pub const MAX_PRE_KEY_ID: u32 = 0xFF_FFFF;

/// What is uploaded: the device's long-lived public keys, and the new pre-keys by id.
pub struct UploadRequest {
    pub registration_id: u32,
    pub identity_key: Vec<u8>,
    pub signed_pre_key_id: u32,
    pub signed_pre_key: Vec<u8>,
    pub signed_pre_key_signature: Vec<u8>,
    pub pre_keys: Vec<(u32, Vec<u8>)>,
}

/// An [`UploadRequest`] in contracts.
pub struct UploadRequestView {
    pub registration_id: u32,
    pub identity_key: Seq<u8>,
    pub signed_pre_key_id: u32,
    pub signed_pre_key: Seq<u8>,
    pub signed_pre_key_signature: Seq<u8>,
    pub pre_keys: Seq<(u32, Seq<u8>)>,
}

/// Byte strings by id, in contracts.
pub open spec fn entries_view(entries: Seq<(u32, Vec<u8>)>) -> Seq<(u32, Seq<u8>)> {
    entries.map_values(|entry: (u32, Vec<u8>)| (entry.0, entry.1@))
}

impl View for UploadRequest {
    type V = UploadRequestView;

    open spec fn view(&self) -> UploadRequestView {
        UploadRequestView {
            registration_id: self.registration_id,
            identity_key: self.identity_key@,
            signed_pre_key_id: self.signed_pre_key_id,
            signed_pre_key: self.signed_pre_key@,
            signed_pre_key_signature: self.signed_pre_key_signature@,
            pre_keys: entries_view(self.pre_keys@),
        }
    }
}

/// The id of the first new pre-key, where the largest id in the store is `max_id`: past the
/// store, and not before the counter. The store counts even where there is a counter: keys that
/// were stored before a crash may not have reached it.
pub open spec fn first_id(next_pre_key_id: u32, max_id: u32) -> int {
    if next_pre_key_id > max_id {
        next_pre_key_id as int
    } else {
        max_id + 1
    }
}

/// How many pre-keys a batch has that starts at this id: as many as are wanted, or as there are
/// ids left.
pub open spec fn batch_len(start_id: int) -> nat {
    if start_id > MAX_PRE_KEY_ID {
        0
    } else if start_id + WANTED_PRE_KEY_COUNT > MAX_PRE_KEY_ID + 1 {
        (MAX_PRE_KEY_ID + 1 - start_id) as nat
    } else {
        WANTED_PRE_KEY_COUNT as nat
    }
}

/// The records of new pre-keys, encoded for the store, under consecutive ids.
pub open spec fn batch_of(start_id: int, pairs: Seq<PreKeyPairView>) -> Seq<(u32, Seq<u8>)> {
    Seq::new(
        pairs.len(),
        |i: int|
            (
                (start_id + i) as u32,
                records::encoded_record(pairs[i].record((start_id + i) as u32)),
            ),
    )
}

/// The public keys of new pre-keys, under consecutive ids.
pub open spec fn public_keys_of(start_id: int, pairs: Seq<PreKeyPairView>) -> Seq<(u32, Seq<u8>)> {
    Seq::new(pairs.len(), |i: int| ((start_id + i) as u32, pairs[i].public_key))
}

/// The request that uploads new pre-keys of a device.
pub open spec fn request_of(
    device: DeviceKeysView,
    start_id: int,
    pairs: Seq<PreKeyPairView>,
) -> UploadRequestView {
    UploadRequestView {
        registration_id: device.registration_id,
        identity_key: device.identity_key,
        signed_pre_key_id: device.signed_pre_key_id,
        signed_pre_key: device.signed_pre_key,
        signed_pre_key_signature: device.signed_pre_key_signature,
        pre_keys: public_keys_of(start_id, pairs),
    }
}

/// That the records of a batch read as the key pairs that they were made from.
pub open spec fn batch_reads_as(
    batch: Seq<(u32, Seq<u8>)>,
    start_id: int,
    pairs: Seq<PreKeyPairView>,
) -> bool {
    &&& batch.len() == pairs.len()
    &&& forall|i: int|
        0 <= i < pairs.len() ==> records::reads_as(
            (#[trigger] batch[i]).1,
            pairs[i].record((start_id + i) as u32),
        )
}

/// How an upload ended that did not fail.
#[derive(Debug, Clone, Copy, PartialEq, Eq)]
pub enum UploadOutcome {
    /// The server has enough pre-keys.
    NotNeeded,
    /// There are no ids left.
    NoneAvailable,
    /// So many new pre-keys are on the server, from this id on.
    Uploaded { count: usize, start_id: u32 },
}

/// Something that happened to an upload.
pub enum UploadEvent<E> {
    /// The server said how many pre-keys it has, or asking failed.
    Counted(Result<usize, E>),
    /// The keys of the device.
    Device(DeviceKeys),
    /// The store said what its largest pre-key id is, zero where it has none, or asking failed.
    MaxId(Result<u32, E>),
    /// The batch was stored, or storing it failed.
    Stored(Result<(), E>),
    /// The request was accepted, or it failed.
    Uploaded(Result<(), E>),
    /// The batch was marked, or marking it failed.
    Marked(Result<(), E>),
    /// The counter was saved.
    CounterSaved,
}

/// An [`UploadEvent`] in contracts.
pub enum UploadEventView<E> {
    Counted(Result<usize, E>),
    Device(DeviceKeysView),
    MaxId(Result<u32, E>),
    Stored(Result<(), E>),
    Uploaded(Result<(), E>),
    Marked(Result<(), E>),
    CounterSaved,
}

/// What an upload wants done next.
pub enum UploadAction<E> {
    /// Read the keys of the device.
    ReadDevice,
    /// Ask the store for its largest pre-key id.
    ReadMaxId,
    /// Store the batch, as not yet uploaded.
    Store,
    /// Send this request to the server.
    Upload(UploadRequest),
    /// Mark the batch in the store as uploaded.
    Mark,
    /// Save this as the id of the next pre-key.
    SaveCounter(u32),
    /// Be done, with this result.
    Return(Result<UploadOutcome, E>),
}

/// An [`UploadAction`] in contracts.
pub enum UploadActionView<E> {
    ReadDevice,
    ReadMaxId,
    Store,
    Upload(UploadRequestView),
    Mark,
    SaveCounter(u32),
    Return(Result<UploadOutcome, E>),
}

/// Where an upload stands.
enum UploadPhase {
    Counting,
    ReadingDevice,
    ReadingMaxId(DeviceKeys),
    Storing(UploadRequest),
    Uploading,
    Marking,
    SavingCounter,
    Done,
}

/// Where an upload stands, in contracts.
pub enum UploadPhaseView {
    Counting,
    ReadingDevice,
    ReadingMaxId(DeviceKeysView),
    Storing(UploadRequestView),
    Uploading,
    Marking,
    SavingCounter,
    Done,
}

/// An upload in progress.
pub struct UploadPreKeys {
    force: bool,
    phase: UploadPhase,
    batch: Vec<(u32, Vec<u8>)>,
}

/// An upload in progress, in contracts.
pub struct UploadView {
    /// Whether to upload however many pre-keys the server has.
    pub force: bool,
    pub phase: UploadPhaseView,
    /// The new pre-keys, as they are kept in the store.
    pub batch: Seq<(u32, Seq<u8>)>,
}

impl<E> View for UploadEvent<E> {
    type V = UploadEventView<E>;

    open spec fn view(&self) -> UploadEventView<E> {
        match *self {
            UploadEvent::Counted(result) => UploadEventView::Counted(result),
            UploadEvent::Device(device) => UploadEventView::Device(device@),
            UploadEvent::MaxId(result) => UploadEventView::MaxId(result),
            UploadEvent::Stored(result) => UploadEventView::Stored(result),
            UploadEvent::Uploaded(result) => UploadEventView::Uploaded(result),
            UploadEvent::Marked(result) => UploadEventView::Marked(result),
            UploadEvent::CounterSaved => UploadEventView::CounterSaved,
        }
    }
}

impl<E> View for UploadAction<E> {
    type V = UploadActionView<E>;

    open spec fn view(&self) -> UploadActionView<E> {
        match *self {
            UploadAction::ReadDevice => UploadActionView::ReadDevice,
            UploadAction::ReadMaxId => UploadActionView::ReadMaxId,
            UploadAction::Store => UploadActionView::Store,
            UploadAction::Upload(request) => UploadActionView::Upload(request@),
            UploadAction::Mark => UploadActionView::Mark,
            UploadAction::SaveCounter(next_id) => UploadActionView::SaveCounter(next_id),
            UploadAction::Return(result) => UploadActionView::Return(result),
        }
    }
}

impl View for UploadPreKeys {
    type V = UploadView;

    closed spec fn view(&self) -> UploadView {
        UploadView {
            force: self.force,
            phase: match self.phase {
                UploadPhase::Counting => UploadPhaseView::Counting,
                UploadPhase::ReadingDevice => UploadPhaseView::ReadingDevice,
                UploadPhase::ReadingMaxId(device) => UploadPhaseView::ReadingMaxId(device@),
                UploadPhase::Storing(request) => UploadPhaseView::Storing(request@),
                UploadPhase::Uploading => UploadPhaseView::Uploading,
                UploadPhase::Marking => UploadPhaseView::Marking,
                UploadPhase::SavingCounter => UploadPhaseView::SavingCounter,
                UploadPhase::Done => UploadPhaseView::Done,
            },
            batch: entries_view(self.batch@),
        }
    }
}

impl UploadView {
    /// An upload that has not begun.
    pub open spec fn fresh(force: bool) -> UploadView {
        UploadView { force, phase: UploadPhaseView::Counting, batch: Seq::empty() }
    }

    /// That the batch is there just when it has been made, is no longer than a batch is, and has
    /// consecutive ids.
    pub open spec fn valid(self) -> bool {
        match self.phase {
            UploadPhaseView::Storing(_)
            | UploadPhaseView::Uploading
            | UploadPhaseView::Marking
            | UploadPhaseView::SavingCounter => {
                &&& 0 < self.batch.len() <= WANTED_PRE_KEY_COUNT
                &&& self.batch[0].0 + self.batch.len() <= MAX_PRE_KEY_ID + 1
                &&& forall|i: int|
                    0 <= i < self.batch.len() ==> (#[trigger] self.batch[i]).0
                        == self.batch[0].0 + i
            },
            UploadPhaseView::Done => true,
            _ => self.batch.len() == 0,
        }
    }

    /// Whether the event is one that the upload waits for: what its last action leads to.
    pub open spec fn awaits<E>(self, event: UploadEventView<E>) -> bool {
        match event {
            UploadEventView::Counted(_) => self.phase is Counting,
            UploadEventView::Device(_) => self.phase is ReadingDevice,
            UploadEventView::MaxId(_) => self.phase is ReadingMaxId,
            UploadEventView::Stored(_) => self.phase is Storing,
            UploadEventView::Uploaded(_) => self.phase is Uploading,
            UploadEventView::Marked(_) => self.phase is Marking,
            UploadEventView::CounterSaved => self.phase is SavingCounter,
        }
    }

    /// The id from which on this upload makes pre-keys.
    pub open spec fn start_id(self, max_id: u32) -> int {
        first_id(self.phase->ReadingMaxId_0.next_pre_key_id, max_id)
    }

    /// The id after the last one of the batch.
    pub open spec fn next_id(self) -> u32 {
        (self.batch[0].0 + self.batch.len()) as u32
    }

    /// The upload, standing elsewhere.
    pub open spec fn at(self, phase: UploadPhaseView) -> UploadView {
        UploadView { phase, ..self }
    }

    /// The end of the upload.
    pub open spec fn end<E>(self, result: Result<UploadOutcome, E>) -> (
        UploadView,
        UploadActionView<E>,
    ) {
        (self.at(UploadPhaseView::Done), UploadActionView::Return(result))
    }

    /// What the upload does with new key pairs, the largest id in the store being `max_id`.
    pub open spec fn with_pairs<E>(self, max_id: u32, pairs: Seq<PreKeyPairView>) -> (
        UploadView,
        UploadActionView<E>,
    ) {
        let start_id = self.start_id(max_id);
        if pairs.len() == 0 {
            self.end(Ok(UploadOutcome::NoneAvailable))
        } else {
            (
                UploadView {
                    force: self.force,
                    phase: UploadPhaseView::Storing(
                        request_of(self.phase->ReadingMaxId_0, start_id, pairs),
                    ),
                    batch: batch_of(start_id, pairs),
                },
                UploadActionView::Store,
            )
        }
    }

    /// That these are key pairs that the upload may make on the event: a whole batch of them once
    /// it knows the largest id in the store, and none at any other time.
    pub open spec fn may_make<E>(
        self,
        event: UploadEventView<E>,
        pairs: Seq<PreKeyPairView>,
    ) -> bool {
        &&& pairs.len() == match event {
            UploadEventView::MaxId(Ok(max_id)) => batch_len(self.start_id(max_id)),
            _ => 0,
        }
        &&& forall|i: int| 0 <= i < pairs.len() ==> (#[trigger] pairs[i]).sized()
    }

    /// Where the upload goes on an event, with the key pairs that it makes, and what it does
    /// about it.
    pub open spec fn step<E>(
        self,
        event: UploadEventView<E>,
        pairs: Seq<PreKeyPairView>,
    ) -> (UploadView, UploadActionView<E>) {
        match event {
            UploadEventView::Counted(Ok(count)) => if !self.force && count
                >= MIN_PRE_KEY_COUNT {
                self.end(Ok(UploadOutcome::NotNeeded))
            } else {
                (self.at(UploadPhaseView::ReadingDevice), UploadActionView::ReadDevice)
            },
            UploadEventView::Counted(Err(error)) => self.end(Err(error)),
            UploadEventView::Device(device) => (
                self.at(UploadPhaseView::ReadingMaxId(device)),
                UploadActionView::ReadMaxId,
            ),
            UploadEventView::MaxId(Ok(max_id)) => self.with_pairs(max_id, pairs),
            UploadEventView::MaxId(Err(error)) => self.end(Err(error)),
            UploadEventView::Stored(Ok(())) => (
                self.at(UploadPhaseView::Uploading),
                UploadActionView::Upload(self.phase->Storing_0),
            ),
            UploadEventView::Stored(Err(error)) => self.end(Err(error)),
            UploadEventView::Uploaded(Ok(())) => (
                self.at(UploadPhaseView::Marking),
                UploadActionView::Mark,
            ),
            UploadEventView::Uploaded(Err(error)) => self.end(Err(error)),
            UploadEventView::Marked(_) => (
                self.at(UploadPhaseView::SavingCounter),
                UploadActionView::SaveCounter(self.next_id()),
            ),
            UploadEventView::CounterSaved => self.end(
                Ok(
                    UploadOutcome::Uploaded {
                        count: self.batch.len() as usize,
                        start_id: self.batch[0].0,
                    },
                ),
            ),
        }
    }
}

/// The ids of a batch that starts at `start_id`.
pub fn pre_key_ids(start_id: u32) -> (ids: Vec<u32>)
    ensures
        ids@ == Seq::new(batch_len(start_id as int), |i: int| (start_id + i) as u32),
        ids@.len() <= 30,
        ids@.len() < 30 ==> start_id + ids@.len() > 0xFF_FFFF,
        forall|i: int| 0 <= i < ids@.len() ==> #[trigger] ids@[i] == start_id + i,
        forall|i: int| 0 <= i < ids@.len() ==> #[trigger] ids@[i] <= 0xFF_FFFF,
{
    let mut ids: Vec<u32> = Vec::with_capacity(WANTED_PRE_KEY_COUNT);
    let mut i: usize = 0;
    while i < WANTED_PRE_KEY_COUNT
        invariant
            i <= WANTED_PRE_KEY_COUNT,
            i <= batch_len(start_id as int),
            ids@ == Seq::new(i as nat, |j: int| (start_id + j) as u32),
        ensures
            ids@ == Seq::new(batch_len(start_id as int), |j: int| (start_id + j) as u32),
        decreases WANTED_PRE_KEY_COUNT - i,
    {
        if start_id > MAX_PRE_KEY_ID || start_id + i as u32 > MAX_PRE_KEY_ID {
            break;
        }
        ids.push(start_id + i as u32);
        i += 1;
    }
    ids
}

/// The id of the first new pre-key of a device, where the largest id in the store is `max_id`.
pub fn first_pre_key_id(next_pre_key_id: u32, max_id: u32) -> (start_id: u32)
    requires
        max_id < u32::MAX,
    ensures
        start_id == first_id(next_pre_key_id, max_id),
        start_id >= next_pre_key_id,
        start_id > max_id,
        start_id == next_pre_key_id || start_id == max_id + 1,
{
    let after_store: u32 = max_id + 1;
    if next_pre_key_id > after_store {
        next_pre_key_id
    } else {
        after_store
    }
}

impl UploadPreKeys {
    /// An upload that has not begun. With `force` it takes place however many pre-keys the server
    /// has.
    pub fn new(force: bool) -> (upload: UploadPreKeys)
        ensures
            upload@ == UploadView::fresh(force),
            upload@.valid(),
    {
        let upload = UploadPreKeys { force, phase: UploadPhase::Counting, batch: Vec::new() };
        assert(upload@.batch =~= Seq::empty());
        upload
    }

    /// The new pre-keys, as they are kept in the store: what to store, and later to mark.
    pub fn encoded_batch(&self) -> (batch: &Vec<(u32, Vec<u8>)>)
        ensures
            entries_view(batch@) == self@.batch,
    {
        &self.batch
    }

    /// Goes on with new key pairs, the largest id in the store being `max_id`: prepares the batch
    /// for the store, and the request for the server.
    pub fn with_pairs<E>(&mut self, max_id: u32, pairs: Vec<PreKeyPair>) -> (action: UploadAction<
        E,
    >)
        requires
            old(self)@.valid(),
            old(self)@.phase is ReadingMaxId,
            max_id < u32::MAX,
            old(self)@.may_make(
                UploadEventView::<E>::MaxId(Ok(max_id)),
                records::pairs_view(pairs@),
            ),
        ensures
            final(self)@.valid(),
            (final(self)@, action@) == old(self)@.with_pairs::<E>(
                max_id,
                records::pairs_view(pairs@),
            ),
            pairs@.len() > 0 ==> batch_reads_as(
                final(self)@.batch,
                old(self)@.start_id(max_id),
                records::pairs_view(pairs@),
            ),
            final(self)@.phase matches UploadPhaseView::Storing(request) ==> {
                let device = old(self)@.phase->ReadingMaxId_0;
                &&& request.registration_id == device.registration_id
                &&& request.identity_key == device.identity_key
                &&& request.signed_pre_key_id == device.signed_pre_key_id
                &&& request.signed_pre_key == device.signed_pre_key
                &&& request.signed_pre_key_signature == device.signed_pre_key_signature
            },
    {
        let mut phase = UploadPhase::Done;
        std::mem::swap(&mut self.phase, &mut phase);
        let ghost views = records::pairs_view(pairs@);
        match phase {
            UploadPhase::ReadingMaxId(device) => {
                if pairs.len() == 0 {
                    return UploadAction::Return(Ok(UploadOutcome::NoneAvailable));
                }
                let start_id: u32 = first_pre_key_id(device.next_pre_key_id, max_id);
                let ids = pre_key_ids(start_id);
                let mut batch: Vec<(u32, Vec<u8>)> = Vec::with_capacity(pairs.len());
                let mut pre_keys: Vec<(u32, Vec<u8>)> = Vec::with_capacity(pairs.len());
                let mut i: usize = 0;
                while i < pairs.len()
                    invariant
                        i <= pairs@.len(),
                        views == records::pairs_view(pairs@),
                        forall|j: int| 0 <= j < views.len() ==> (#[trigger] views[j]).sized(),
                        pairs@.len() == batch_len(start_id as int),
                        ids@ == Seq::new(
                            batch_len(start_id as int),
                            |j: int| (start_id + j) as u32,
                        ),
                        entries_view(batch@) == batch_of(start_id as int, views.take(i as int)),
                        entries_view(pre_keys@) == public_keys_of(
                            start_id as int,
                            views.take(i as int),
                        ),
                        batch_reads_as(
                            entries_view(batch@),
                            start_id as int,
                            views.take(i as int),
                        ),
                    decreases pairs@.len() - i,
                {
                    let ghost done = views.take(i as int);
                    let ghost next = views.take(i + 1);
                    assert(views[i as int] == pairs@[i as int]@);
                    assert(next =~= done.push(views[i as int]));
                    let record = records::new_pre_key_record(ids[i], &pairs[i]);
                    let bytes = records::encode_record(&record);
                    let public_key = records::copy_bytes(&pairs[i].public_key);
                    let ghost old_batch = entries_view(batch@);
                    let ghost old_pre_keys = entries_view(pre_keys@);
                    batch.push((ids[i], bytes));
                    pre_keys.push((ids[i], public_key));
                    assert(entries_view(batch@) =~= old_batch.push((ids@[i as int], bytes@)));
                    assert(entries_view(pre_keys@) =~= old_pre_keys.push(
                        (ids@[i as int], public_key@),
                    ));
                    assert(entries_view(batch@) =~= batch_of(start_id as int, next));
                    assert(entries_view(pre_keys@) =~= public_keys_of(start_id as int, next));
                    i += 1;
                }
                assert(views.take(pairs@.len() as int) =~= views);
                self.batch = batch;
                self.phase = UploadPhase::Storing(
                    UploadRequest {
                        registration_id: device.registration_id,
                        identity_key: device.identity_key,
                        signed_pre_key_id: device.signed_pre_key_id,
                        signed_pre_key: device.signed_pre_key,
                        signed_pre_key_signature: device.signed_pre_key_signature,
                        pre_keys,
                    },
                );
                UploadAction::Store
            },
            _ => vstd::pervasive::unreached(),
        }
    }

    /// Takes the event, and says what to do next.
    ///
    /// Once the largest id in the store is known, this makes the new key pairs: `pairs` stands for
    /// whichever came out, each with the public key that belongs to its private key. They are
    /// stored before they are uploaded, so that none is given out that could not be used here; and
    /// where the upload fails, the counter stays.
    pub fn step<E>(&mut self, event: UploadEvent<E>) -> (action: UploadAction<E>)
        requires
            old(self)@.valid(),
            old(self)@.awaits(event@),
            event matches UploadEvent::MaxId(Ok(max_id)) ==> max_id < u32::MAX,
        ensures
            final(self)@.valid(),
            exists|pairs: Seq<PreKeyPairView>| #[trigger]
                old(self)@.may_make(event@, pairs) && (final(self)@, action@) == old(self)@.step(
                    event@,
                    pairs,
                ) && (pairs.len() > 0 ==> batch_reads_as(
                    final(self)@.batch,
                    final(self)@.batch[0].0 as int,
                    pairs,
                )) && (forall|i: int| 0 <= i < pairs.len() ==> (#[trigger] pairs[i]).matched()),
            !(event is MaxId) ==> final(self)@.batch == old(self)@.batch,
    {
        let ghost before = self@;
        let ghost none = Seq::<PreKeyPairView>::empty();
        match event {
            UploadEvent::MaxId(Ok(max_id)) => {
                let next_pre_key_id: u32 = match &self.phase {
                    UploadPhase::ReadingMaxId(device) => device.next_pre_key_id,
                    _ => vstd::pervasive::unreached(),
                };
                let count: usize = pre_key_ids(first_pre_key_id(next_pre_key_id, max_id)).len();
                let pairs = records::generate_key_pairs(count);
                let ghost views = records::pairs_view(pairs@);
                assert(before.may_make(event@, views));
                self.with_pairs(max_id, pairs)
            },
            UploadEvent::Counted(Ok(count)) => {
                assert(before.may_make(event@, none));
                if !self.force && count >= MIN_PRE_KEY_COUNT {
                    self.phase = UploadPhase::Done;
                    UploadAction::Return(Ok(UploadOutcome::NotNeeded))
                } else {
                    self.phase = UploadPhase::ReadingDevice;
                    UploadAction::ReadDevice
                }
            },
            UploadEvent::Device(device) => {
                assert(before.may_make(event@, none));
                self.phase = UploadPhase::ReadingMaxId(device);
                UploadAction::ReadMaxId
            },
            UploadEvent::Stored(Ok(())) => {
                assert(before.may_make(event@, none));
                let mut phase = UploadPhase::Uploading;
                std::mem::swap(&mut self.phase, &mut phase);
                match phase {
                    UploadPhase::Storing(request) => UploadAction::Upload(request),
                    _ => vstd::pervasive::unreached(),
                }
            },
            UploadEvent::Uploaded(Ok(())) => {
                assert(before.may_make(event@, none));
                self.phase = UploadPhase::Marking;
                UploadAction::Mark
            },
            UploadEvent::Marked(_) => {
                assert(before.may_make(event@, none));
                self.phase = UploadPhase::SavingCounter;
                assert(before.batch[0].0 == self.batch@[0].0);
                UploadAction::SaveCounter(self.batch[0].0 + self.batch.len() as u32)
            },
            UploadEvent::CounterSaved => {
                assert(before.may_make(event@, none));
                assert(before.batch[0].0 == self.batch@[0].0);
                self.phase = UploadPhase::Done;
                UploadAction::Return(
                    Ok(
                        UploadOutcome::Uploaded {
                            count: self.batch.len(),
                            start_id: self.batch[0].0,
                        },
                    ),
                )
            },
            UploadEvent::Counted(Err(e))
            | UploadEvent::MaxId(Err(e))
            | UploadEvent::Stored(Err(e))
            | UploadEvent::Uploaded(Err(e)) => {
                assert(before.may_make(event@, none));
                self.phase = UploadPhase::Done;
                UploadAction::Return(Err(e))
            },
        }
    }
}

} // verus!
