//! A socket that carries sealed messages both ways.
//!
//! A [`NoiseSocket`] reads. What it sends goes through a queue to a [`SenderTask`] of its own, so
//! that messages leave in the order of their numbers without a lock: a caller queues its message
//! and waits for the sender's answer.

use vstd::prelude::*;
use wacore::handshake::NoiseCipher;

use crate::error::{EncryptSendError, SendResult, SocketError};
use crate::sealing;
use crate::sender;
use crate::sender::{SendJob, SenderTask};

verus! {

/// How many jobs wait in the queue to the sender before a caller has to wait for room.
pub const SEND_QUEUE_CAPACITY: usize = 32;

/// The reading side of a connection, and the way to its sender.
pub struct NoiseSocket {
    read_key: NoiseCipher,
    read_counter: u32,
}

/// The read key of a socket, and the number of the next message to read.
pub struct NoiseSocketView {
    pub cipher: NoiseCipher,
    pub counter: u32,
}

impl View for NoiseSocket {
    type V = NoiseSocketView;

    closed spec fn view(&self) -> NoiseSocketView {
        NoiseSocketView { cipher: self.read_key, counter: self.read_counter }
    }
}

/// Something that happened to a caller that wants a message sent.
pub enum SendCallEvent {
    /// It asks for this message to be sent, framed in this buffer.
    Start { plaintext_buf: Vec<u8>, out_buf: Vec<u8> },
    /// The queue took its job.
    Enqueued,
    /// The queue is closed.
    Refused,
    /// The sender answered.
    Replied(SendResult),
    /// The sender stopped without an answer.
    Unanswered,
}

/// What a caller that wants a message sent does next.
pub enum SendCallAction {
    /// Put this job in the queue.
    Enqueue(SendJob),
    /// Wait for the sender's answer.
    AwaitReply,
    /// Be done, with this result.
    Return(SendResult),
}

/// What a caller that wants a message sent does about an event.
pub open spec fn send_call(event: SendCallEvent) -> SendCallAction {
    match event {
        SendCallEvent::Start { plaintext_buf, out_buf } => SendCallAction::Enqueue(
            SendJob { plaintext_buf, out_buf },
        ),
        SendCallEvent::Enqueued => SendCallAction::AwaitReply,
        SendCallEvent::Replied(result) => SendCallAction::Return(result),
        SendCallEvent::Refused | SendCallEvent::Unanswered => SendCallAction::Return(
            Err(EncryptSendError::ChannelClosed),
        ),
    }
}

impl NoiseSocketView {
    /// The socket once it has been handed a message, whether or not that opened.
    pub open spec fn after_read(self) -> NoiseSocketView {
        NoiseSocketView { cipher: self.cipher, counter: sender::next_counter(self.counter) }
    }

    /// What the socket makes of a message.
    pub open spec fn read(self, ciphertext: Seq<u8>) -> Result<Seq<u8>, Seq<char>> {
        match sealing::opened(self.cipher, self.counter, ciphertext) {
            Some(plaintext) => Ok(plaintext),
            None => Err(sealing::open_error_text()),
        }
    }
}

impl NoiseSocket {
    /// A socket over a fresh pair of keys, and the sender of its messages. Both sides count their
    /// messages from zero.
    pub fn new(write_key: NoiseCipher, read_key: NoiseCipher) -> (socket: (NoiseSocket, SenderTask))
        ensures
            (socket.0)@ == (NoiseSocketView { cipher: read_key, counter: 0 }),
            (socket.1)@ == sender::SenderView::fresh(write_key),
    {
        (NoiseSocket { read_key, read_counter: 0 }, SenderTask::new(write_key))
    }

    /// Guides a caller that wants a message sent: its job goes into the queue, and its result is
    /// the sender's answer. Where the queue is closed, or the sender stops without an answer, the
    /// result is that the channel is closed. Nothing of the socket goes into it, so that a caller
    /// need not wait for a message that is being read.
    pub fn encrypt_and_send(event: SendCallEvent) -> (action: SendCallAction)
        ensures
            action == match event {
                SendCallEvent::Start { plaintext_buf, out_buf } => SendCallAction::Enqueue(
                    SendJob { plaintext_buf, out_buf },
                ),
                SendCallEvent::Enqueued => SendCallAction::AwaitReply,
                SendCallEvent::Refused => SendCallAction::Return(
                    Err(EncryptSendError::ChannelClosed),
                ),
                SendCallEvent::Replied(result) => SendCallAction::Return(result),
                SendCallEvent::Unanswered => SendCallAction::Return(
                    Err(EncryptSendError::ChannelClosed),
                ),
            },
            action == send_call(event),
    {
        match event {
            SendCallEvent::Start { plaintext_buf, out_buf } => SendCallAction::Enqueue(
                SendJob { plaintext_buf, out_buf },
            ),
            SendCallEvent::Enqueued => SendCallAction::AwaitReply,
            SendCallEvent::Replied(result) => SendCallAction::Return(result),
            SendCallEvent::Refused | SendCallEvent::Unanswered => SendCallAction::Return(
                Err(EncryptSendError::ChannelClosed),
            ),
        }
    }

    /// Opens the next message, and counts it. A message that does not open uses its number up
    /// too.
    pub fn decrypt_frame(&mut self, ciphertext: &[u8]) -> (result: Result<Vec<u8>, SocketError>)
        ensures
            final(self)@ == old(self)@.after_read(),
            match old(self)@.read(ciphertext@) {
                Ok(plaintext) => {
                    &&& result matches Ok(bytes) && bytes@ == plaintext
                    &&& plaintext.len() + sealing::TAG_SIZE == ciphertext@.len()
                },
                Err(text) => result matches Err(SocketError::Crypto(message)) && message@ == text,
            },
            result is Ok <==> sealing::opened(old(self)@.cipher, old(self)@.counter, ciphertext@)
                is Some,
            result matches Ok(bytes) ==> sealing::opened(
                old(self)@.cipher,
                old(self)@.counter,
                ciphertext@,
            ) == Some(bytes@),
            result matches Err(error) ==> error matches SocketError::Crypto(message) && message@
                == sealing::open_error_text(),
            final(self)@.cipher == old(self)@.cipher,
            final(self)@.counter == (old(self)@.counter + 1) % 0x1_0000_0000,
    {
        let counter: u32 = self.read_counter;
        self.read_counter = counter.wrapping_add(1);
        match self.read_key.decrypt_with_counter(counter, ciphertext) {
            Ok(plaintext) => Ok(plaintext),
            Err(e) => Err(SocketError::Crypto(sealing::describe_noise_error(&e))),
        }
    }
}

} // verus!
