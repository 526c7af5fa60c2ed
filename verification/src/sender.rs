//! The sender: it owns the write counter, and takes the jobs of a socket one at a time.
//!
//! Whoever drives a [`SenderTask`] hands it an event, carries out the action that it answers
//! with, and hands it what came of that as the next event.

use std::sync::Arc;
use vstd::prelude::*;
use wacore::handshake::NoiseCipher;

use crate::error::{EncryptSendError, EncryptSendErrorView, SendResult};
use crate::{error, frames, sealing};

verus! {

/// The longest message that is sealed on the sender's own lane. Longer ones are sealed where
/// blocking is acceptable.
pub const INLINE_ENCRYPT_THRESHOLD: usize = 0x4000;

/// A message to send, and a buffer to frame it in.
pub struct SendJob {
    pub plaintext_buf: Vec<u8>,
    pub out_buf: Vec<u8>,
}

/// A long message to seal off the sender's lane.
pub struct SealTask {
    write_key: Arc<NoiseCipher>,
    counter: u32,
    plaintext: Vec<u8>,
}

/// What a [`SealTask`] seals, and how.
pub struct SealTaskView {
    pub cipher: NoiseCipher,
    pub counter: u32,
    pub plaintext: Seq<u8>,
}

/// Where the sender stands.
enum SenderPhase {
    /// Waiting for a job.
    Idle,
    /// Waiting for a long message to be sealed; it is to be framed in this buffer.
    Sealing(Vec<u8>),
    /// Waiting for the transport to take a frame.
    Sending,
    /// Done for good.
    Stopped,
}

/// Where the sender stands, without its buffers.
pub enum SenderPhaseView {
    Idle,
    Sealing,
    Sending,
    Stopped,
}

/// Something that happened to the sender.
pub enum SenderEvent {
    /// A job arrived.
    Job(SendJob),
    /// A [`SealTask`] was run, with this result.
    Sealed(Result<Vec<u8>, EncryptSendError>),
    /// The transport took the frame, or failed with this text.
    Sent(Result<(), String>),
    /// No job will arrive any more.
    Closed,
}

/// A [`SenderEvent`] by what the sender goes by. The buffer of a job holds nothing of interest.
pub enum SenderEventView {
    Job(Seq<u8>),
    Sealed(Result<Seq<u8>, EncryptSendErrorView>),
    Sent(Result<(), Seq<char>>),
    Closed,
}

/// What the sender wants done next.
pub enum SenderAction {
    /// Seal a long message where blocking is acceptable.
    Seal(SealTask),
    /// Hand this frame to the transport.
    Transmit(Vec<u8>),
    /// Answer the job with this, and receive the next one.
    Reply(SendResult),
    /// Stop.
    Exit,
}

/// A [`SenderAction`] by its contents.
pub enum SenderActionView {
    Seal(SealTaskView),
    Transmit(Seq<u8>),
    Reply(Result<(), EncryptSendErrorView>),
    Exit,
}

/// The sender of a socket: the write key, the number of the next message, and where it stands.
pub struct SenderTask {
    write_key: Arc<NoiseCipher>,
    write_counter: u32,
    phase: SenderPhase,
}

/// A [`SenderTask`] without its buffers.
pub struct SenderView {
    pub cipher: NoiseCipher,
    pub counter: u32,
    pub phase: SenderPhaseView,
}

impl View for SealTask {
    type V = SealTaskView;

    closed spec fn view(&self) -> SealTaskView {
        SealTaskView {
            cipher: *self.write_key,
            counter: self.counter,
            plaintext: self.plaintext@,
        }
    }
}

impl View for SenderEvent {
    type V = SenderEventView;

    open spec fn view(&self) -> SenderEventView {
        match self {
            SenderEvent::Job(job) => SenderEventView::Job(job.plaintext_buf@),
            SenderEvent::Sealed(Ok(ciphertext)) => SenderEventView::Sealed(Ok(ciphertext@)),
            SenderEvent::Sealed(Err(error)) => SenderEventView::Sealed(Err(error@)),
            SenderEvent::Sent(Ok(())) => SenderEventView::Sent(Ok(())),
            SenderEvent::Sent(Err(text)) => SenderEventView::Sent(Err(text@)),
            SenderEvent::Closed => SenderEventView::Closed,
        }
    }
}

impl View for SenderAction {
    type V = SenderActionView;

    open spec fn view(&self) -> SenderActionView {
        match self {
            SenderAction::Seal(task) => SenderActionView::Seal(task@),
            SenderAction::Transmit(frame) => SenderActionView::Transmit(frame@),
            SenderAction::Reply(result) => SenderActionView::Reply(
                error::send_result_view(*result),
            ),
            SenderAction::Exit => SenderActionView::Exit,
        }
    }
}

impl View for SenderTask {
    type V = SenderView;

    closed spec fn view(&self) -> SenderView {
        SenderView {
            cipher: *self.write_key,
            counter: self.write_counter,
            phase: match self.phase {
                SenderPhase::Idle => SenderPhaseView::Idle,
                SenderPhase::Sealing(_) => SenderPhaseView::Sealing,
                SenderPhase::Sending => SenderPhaseView::Sending,
                SenderPhase::Stopped => SenderPhaseView::Stopped,
            },
        }
    }
}

impl SenderView {
    /// A sender that has sent nothing yet.
    pub open spec fn fresh(cipher: NoiseCipher) -> SenderView {
        SenderView { cipher, counter: 0, phase: SenderPhaseView::Idle }
    }

    /// Whether the event is one that the sender waits for: what its last action leads to.
    pub open spec fn awaits(self, event: SenderEventView) -> bool {
        match event {
            SenderEventView::Job(_) => self.phase is Idle,
            SenderEventView::Sealed(_) => self.phase is Sealing,
            SenderEventView::Sent(_) => self.phase is Sending,
            SenderEventView::Closed => self.phase is Idle,
        }
    }

    /// The same sender, standing elsewhere.
    pub open spec fn at(self, phase: SenderPhaseView) -> SenderView {
        SenderView { phase, ..self }
    }

    /// The sender once it is done with a job: at the next message number if the frame went out,
    /// and still at the same one if not.
    pub open spec fn after_send(self, accepted: bool) -> SenderView {
        SenderView {
            cipher: self.cipher,
            counter: if accepted {
                next_counter(self.counter)
            } else {
                self.counter
            },
            phase: SenderPhaseView::Idle,
        }
    }

    /// Where the sender goes with a sealed message, and what it does about it.
    pub open spec fn frame(self, ciphertext: Seq<u8>) -> (SenderView, SenderActionView) {
        if ciphertext.len() < frames::FRAME_MAX_SIZE {
            (
                self.at(SenderPhaseView::Sending),
                SenderActionView::Transmit(frames::frame_of(ciphertext)),
            )
        } else {
            (
                self.after_send(false),
                SenderActionView::Reply(
                    Err(
                        EncryptSendErrorView::Framing(frames::frame_error_text(ciphertext.len())),
                    ),
                ),
            )
        }
    }

    /// Where the sender goes on an event, and what it does about it.
    pub open spec fn step(self, event: SenderEventView) -> (SenderView, SenderActionView) {
        match event {
            SenderEventView::Job(plaintext) => if plaintext.len() <= INLINE_ENCRYPT_THRESHOLD {
                self.frame(sealing::sealed(self.cipher, self.counter, plaintext))
            } else {
                (
                    self.at(SenderPhaseView::Sealing),
                    SenderActionView::Seal(
                        SealTaskView { cipher: self.cipher, counter: self.counter, plaintext },
                    ),
                )
            },
            SenderEventView::Sealed(Ok(ciphertext)) => self.frame(ciphertext),
            SenderEventView::Sealed(Err(error)) => (
                self.after_send(false),
                SenderActionView::Reply(Err(error)),
            ),
            SenderEventView::Sent(Ok(())) => (
                self.after_send(true),
                SenderActionView::Reply(Ok(())),
            ),
            SenderEventView::Sent(Err(text)) => (
                self.after_send(false),
                SenderActionView::Reply(Err(EncryptSendErrorView::Transport(text))),
            ),
            SenderEventView::Closed => (self.at(SenderPhaseView::Stopped), SenderActionView::Exit),
        }
    }
}

/// The message number after `counter`: after the last one, counting starts over.
pub open spec fn next_counter(counter: u32) -> u32 {
    if counter == u32::MAX {
        0
    } else {
        (counter + 1) as u32
    }
}

impl SealTask {
    /// Seals the message.
    pub fn run(self) -> (result: Result<Vec<u8>, EncryptSendError>)
        requires
            self@.plaintext.len() + sealing::TAG_SIZE <= isize::MAX,
        ensures
            match sealing::seal_outcome(self@.cipher, self@.counter, self@.plaintext) {
                Ok(ciphertext) => {
                    &&& result matches Ok(bytes) && bytes@ == ciphertext
                    &&& sealing::seal_sound(self@.cipher, self@.counter, self@.plaintext)
                },
                Err(text) => result matches Err(error) && error@ == EncryptSendErrorView::Crypto(
                    text,
                ),
            },
            result is Ok <==> self@.plaintext.len() <= sealing::MAX_PLAINTEXT_SIZE,
            result matches Ok(bytes) ==> bytes@ == sealing::sealed(
                self@.cipher,
                self@.counter,
                self@.plaintext,
            ),
            result matches Ok(bytes) ==> sealing::opened(self@.cipher, self@.counter, bytes@)
                == Some(self@.plaintext),
            result matches Err(error) ==> error matches EncryptSendError::Crypto(text) && text@
                == sealing::seal_error_text(),
    {
        match self.write_key.encrypt_with_counter(self.counter, self.plaintext.as_slice()) {
            Ok(ciphertext) => Ok(ciphertext),
            Err(e) => Err(EncryptSendError::Crypto(sealing::describe_noise_error(&e))),
        }
    }
}

impl SenderTask {
    /// A sender with this key, that has sent nothing yet.
    pub fn new(write_key: NoiseCipher) -> (sender: SenderTask)
        ensures
            sender@ == SenderView::fresh(write_key),
    {
        SenderTask { write_key: Arc::new(write_key), write_counter: 0, phase: SenderPhase::Idle }
    }

    /// Takes the event, and says what to do next.
    ///
    /// A job is sealed under the number of the next message, framed and handed to the transport.
    /// Only a frame that the transport took uses the number up: after any failure the next job is
    /// sealed under the same one.
    pub fn step(&mut self, event: SenderEvent) -> (action: SenderAction)
        requires
            old(self)@.awaits(event@),
            event matches SenderEvent::Job(job) ==> job.plaintext_buf@.len() + sealing::TAG_SIZE
                <= isize::MAX,
        ensures
            (final(self)@, action@) == old(self)@.step(event@),
            event matches SenderEvent::Job(job) ==> job.plaintext_buf@.len()
                <= INLINE_ENCRYPT_THRESHOLD ==> sealing::seal_sound(
                old(self)@.cipher,
                old(self)@.counter,
                job.plaintext_buf@,
            ),
    {
        match event {
            SenderEvent::Job(job) => self.process_send_job(job),
            SenderEvent::Sealed(Ok(ciphertext)) => {
                let mut phase = SenderPhase::Idle;
                std::mem::swap(&mut self.phase, &mut phase);
                let out_buf = match phase {
                    SenderPhase::Sealing(out_buf) => out_buf,
                    _ => vstd::pervasive::unreached(),
                };
                self.frame_message(&ciphertext, out_buf)
            },
            SenderEvent::Sealed(Err(e)) => {
                self.phase = SenderPhase::Idle;
                SenderAction::Reply(Err(e))
            },
            SenderEvent::Sent(Ok(())) => {
                self.write_counter = self.write_counter.wrapping_add(1);
                self.phase = SenderPhase::Idle;
                SenderAction::Reply(Ok(()))
            },
            SenderEvent::Sent(Err(text)) => {
                self.phase = SenderPhase::Idle;
                SenderAction::Reply(Err(EncryptSendError::Transport(text)))
            },
            SenderEvent::Closed => {
                self.phase = SenderPhase::Stopped;
                SenderAction::Exit
            },
        }
    }

    /// Starts on a job: seals a short message in its own buffer and frames it, and has a long one
    /// sealed off this lane.
    pub fn process_send_job(&mut self, job: SendJob) -> (action: SenderAction)
        requires
            old(self)@.awaits(SenderEventView::Job(job.plaintext_buf@)),
            job.plaintext_buf@.len() + sealing::TAG_SIZE <= isize::MAX,
        ensures
            (final(self)@, action@) == old(self)@.step(SenderEventView::Job(job.plaintext_buf@)),
            job.plaintext_buf@.len() <= INLINE_ENCRYPT_THRESHOLD ==> sealing::seal_sound(
                old(self)@.cipher,
                old(self)@.counter,
                job.plaintext_buf@,
            ),
    {
        let mut plaintext_buf = job.plaintext_buf;
        if plaintext_buf.len() <= INLINE_ENCRYPT_THRESHOLD {
            match self.write_key.encrypt_in_place_with_counter(
                self.write_counter,
                &mut plaintext_buf,
            ) {
                Ok(()) => self.frame_message(&plaintext_buf, job.out_buf),
                Err(e) => {
                    self.phase = SenderPhase::Idle;
                    SenderAction::Reply(
                        Err(EncryptSendError::Crypto(sealing::describe_noise_error(&e))),
                    )
                },
            }
        } else {
            self.phase = SenderPhase::Sealing(job.out_buf);
            SenderAction::Seal(
                SealTask {
                    write_key: self.write_key.clone(),
                    counter: self.write_counter,
                    plaintext: plaintext_buf,
                },
            )
        }
    }

    /// Frames a sealed message in `out_buf` and has it sent, or answers that it is too long.
    fn frame_message(&mut self, ciphertext: &Vec<u8>, out_buf: Vec<u8>) -> (action: SenderAction)
        ensures
            (final(self)@, action@) == old(self)@.frame(ciphertext@),
    {
        let mut out_buf = out_buf;
        out_buf.clear();
        match frames::encode_frame(ciphertext.as_slice(), &mut out_buf) {
            Ok(()) => {
                self.phase = SenderPhase::Sending;
                SenderAction::Transmit(out_buf)
            },
            Err(text) => {
                self.phase = SenderPhase::Idle;
                SenderAction::Reply(Err(EncryptSendError::Framing(text)))
            },
        }
    }
}

} // verus!
