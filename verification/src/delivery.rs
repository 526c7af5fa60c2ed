//! What holds of a sender over a whole run of jobs, and of the socket that reads its frames.

use vstd::prelude::*;
use wacore::handshake::NoiseCipher;

use crate::error::{EncryptSendError, EncryptSendErrorView};
use crate::sender::{SenderActionView, SenderEventView, SenderPhaseView, SenderView};
use crate::socket::{NoiseSocketView, SendCallAction, SendCallEvent};
use crate::{frames, sealing, sender, socket};

verus! {

/// A job, and what the transport says to its frame, if it comes to that.
pub struct Delivery {
    pub plaintext: Seq<u8>,
    pub sent: Result<(), Seq<char>>,
}

/// What became of a job.
pub struct JobRun {
    /// The sender afterwards.
    pub sender: SenderView,
    /// The frame that was handed to the transport, if any was.
    pub frame: Option<Seq<u8>>,
    /// The last action.
    pub action: SenderActionView,
    /// Whether every event came when the sender waited for it.
    pub orderly: bool,
}

/// Takes a sender through a job. A message to be sealed off its lane is sealed as the task says.
pub open spec fn run_job(s: SenderView, job: Delivery) -> JobRun {
    let arrived = SenderEventView::Job(job.plaintext);
    let (s1, a1) = s.step(arrived);
    let sealed = match a1 {
        SenderActionView::Seal(task) => SenderEventView::Sealed(
            match sealing::seal_outcome(task.cipher, task.counter, task.plaintext) {
                Ok(ciphertext) => Ok(ciphertext),
                Err(text) => Err(EncryptSendErrorView::Crypto(text)),
            },
        ),
        _ => arrived,
    };
    let (s2, a2) = if a1 is Seal {
        s1.step(sealed)
    } else {
        (s1, a1)
    };
    let orderly = s.awaits(arrived) && (a1 is Seal ==> s1.awaits(sealed));
    match a2 {
        SenderActionView::Transmit(frame) => {
            let sent = SenderEventView::Sent(job.sent);
            let (s3, a3) = s2.step(sent);
            JobRun {
                sender: s3,
                frame: Some(frame),
                action: a3,
                orderly: orderly && s2.awaits(sent),
            }
        },
        _ => JobRun { sender: s2, frame: None, action: a2, orderly },
    }
}

/// The frame that a message is sent in, if it fits in one.
pub open spec fn message_frame(cipher: NoiseCipher, counter: u32, plaintext: Seq<u8>) -> Option<
    Seq<u8>,
> {
    if plaintext.len() + sealing::TAG_SIZE < frames::FRAME_MAX_SIZE {
        Some(frames::frame_of(sealing::sealed(cipher, counter, plaintext)))
    } else {
        None
    }
}

/// What a job is answered with.
pub open spec fn job_reply(job: Delivery) -> Result<(), EncryptSendErrorView> {
    if job.plaintext.len() > sealing::MAX_PLAINTEXT_SIZE {
        Err(EncryptSendErrorView::Crypto(sealing::seal_error_text()))
    } else if job.plaintext.len() + sealing::TAG_SIZE >= frames::FRAME_MAX_SIZE {
        Err(
            EncryptSendErrorView::Framing(
                frames::frame_error_text((job.plaintext.len() + sealing::TAG_SIZE) as nat),
            ),
        )
    } else {
        match job.sent {
            Ok(()) => Ok(()),
            Err(text) => Err(EncryptSendErrorView::Transport(text)),
        }
    }
}

/// That the cipher seals the message of a job soundly, where it seals it at all.
pub open spec fn job_sound(s: SenderView, job: Delivery) -> bool {
    job.plaintext.len() <= sealing::MAX_PLAINTEXT_SIZE ==> sealing::seal_sound(
        s.cipher,
        s.counter,
        job.plaintext,
    )
}

/// A job is answered once, at the end, and leaves the sender ready for the next one. The frame
/// that it is sent in is the same whether the message was sealed on the sender's lane or off it.
/// The message number moves on just when the answer is success.
pub proof fn law_job_is_answered_once(s: SenderView, job: Delivery)
    requires
        s.phase is Idle,
        job_sound(s, job),
    ensures
        run_job(s, job).orderly,
        run_job(s, job).frame == message_frame(s.cipher, s.counter, job.plaintext),
        run_job(s, job).action == SenderActionView::Reply(job_reply(job)),
        run_job(s, job).sender == s.after_send(job_reply(job) is Ok),
{
    let plaintext = job.plaintext;
    if plaintext.len() <= sealing::MAX_PLAINTEXT_SIZE {
        assert(sealing::sealed(s.cipher, s.counter, plaintext).len() == plaintext.len()
            + sealing::TAG_SIZE);
    }
}

/// A frame is three bytes of length and a tag longer than the message in it, so that a buffer of
/// the message's size and 32 bytes is large enough.
pub proof fn law_frame_size(cipher: NoiseCipher, counter: u32, plaintext: Seq<u8>)
    requires
        sealing::seal_sound(cipher, counter, plaintext),
    ensures
        message_frame(cipher, counter, plaintext) matches Some(frame) ==> {
            &&& frame.len() == plaintext.len() + 19
            &&& frame.len() <= plaintext.len() + 32
        },
{
}

/// The length of the payload that a frame announces.
pub open spec fn announced_length(frame: Seq<u8>) -> nat {
    (frame[0] * 0x1_0000 + frame[1] * 0x100 + frame[2]) as nat
}

/// The payload of a frame.
pub open spec fn payload_of(frame: Seq<u8>) -> Seq<u8> {
    frame.skip(frames::FRAME_LENGTH_SIZE as int)
}

/// A frame announces the length of its payload, and holds the payload.
pub proof fn law_frame_announces_its_payload(payload: Seq<u8>)
    requires
        payload.len() < frames::FRAME_MAX_SIZE,
    ensures
        announced_length(frames::frame_of(payload)) == payload.len(),
        payload_of(frames::frame_of(payload)) == payload,
{
    let n = payload.len();
    let frame = frames::frame_of(payload);
    assert(frame[0] == n / 0x1_0000);
    assert(frame[1] == n / 0x100 % 0x100);
    assert(frame[2] == n % 0x100);
    assert(n == n / 0x1_0000 * 0x1_0000 + n / 0x100 % 0x100 * 0x100 + n % 0x100);
    assert(payload_of(frame) =~= payload);
}

/// Just the messages longer than the threshold are sealed off the sender's lane, once each, and
/// under the key and the number that a short one is sealed under on it. The frame does not tell
/// the two apart.
pub proof fn law_long_messages_are_sealed_off_the_lane(
    s: SenderView,
    job: Delivery,
    sealed: Result<Seq<u8>, EncryptSendErrorView>,
)
    requires
        s.phase is Idle,
        job_sound(s, job),
    ensures
        s.step(SenderEventView::Job(job.plaintext)).1 is Seal <==> job.plaintext.len()
            > 0x4000,
        s.step(SenderEventView::Job(job.plaintext)).1 matches SenderActionView::Seal(task) ==> task
            == (sender::SealTaskView {
            cipher: s.cipher,
            counter: s.counter,
            plaintext: job.plaintext,
        }),
        !(s.step(SenderEventView::Job(job.plaintext)).0.step(SenderEventView::Sealed(sealed)).1
            is Seal),
        run_job(s, job).frame == message_frame(s.cipher, s.counter, job.plaintext),
{
    law_job_is_answered_once(s, job);
}

/// After a send that failed, the same message goes out in the same frame. If that is taken, the
/// two sends together have used one message number.
pub proof fn law_failed_send_can_be_repeated(s: SenderView, job: Delivery, again: Delivery)
    requires
        s.phase is Idle,
        job_sound(s, job),
        job_reply(job) is Err,
        again.plaintext == job.plaintext,
    ensures
        run_job(s, job).sender == s,
        run_job(run_job(s, job).sender, again).frame == run_job(s, job).frame,
        job_reply(again) is Ok ==> run_job(run_job(s, job).sender, again).sender == (SenderView {
            counter: sender::next_counter(s.counter),
            ..s
        }),
{
    law_job_is_answered_once(s, job);
    law_job_is_answered_once(s, again);
}

/// The sender after a run of jobs.
pub open spec fn run_jobs(s: SenderView, jobs: Seq<Delivery>) -> SenderView
    decreases jobs.len(),
{
    if jobs.len() == 0 {
        s
    } else {
        run_jobs(run_job(s, jobs.first()).sender, jobs.drop_first())
    }
}

/// The frames that the transport took over a run of jobs, in the order in which it took them.
pub open spec fn wire(s: SenderView, jobs: Seq<Delivery>) -> Seq<Seq<u8>>
    decreases jobs.len(),
{
    if jobs.len() == 0 {
        Seq::empty()
    } else {
        let run = run_job(s, jobs.first());
        let rest = wire(run.sender, jobs.drop_first());
        match run.frame {
            Some(frame) if jobs.first().sent is Ok => seq![frame] + rest,
            _ => rest,
        }
    }
}

/// The messages of the jobs that were answered with success, in the order of the jobs.
pub open spec fn delivered(jobs: Seq<Delivery>) -> Seq<Seq<u8>>
    decreases jobs.len(),
{
    if jobs.len() == 0 {
        Seq::empty()
    } else {
        let rest = delivered(jobs.drop_first());
        if job_reply(jobs.first()) is Ok {
            seq![jobs.first().plaintext] + rest
        } else {
            rest
        }
    }
}

/// That the cipher seals the messages of a run of jobs soundly.
pub open spec fn jobs_sound(s: SenderView, jobs: Seq<Delivery>) -> bool
    decreases jobs.len(),
{
    jobs.len() > 0 ==> {
        &&& job_sound(s, jobs.first())
        &&& jobs_sound(run_job(s, jobs.first()).sender, jobs.drop_first())
    }
}

/// The message number `k` messages after `counter`.
pub open spec fn counter_after(counter: u32, k: nat) -> u32 {
    ((counter + k) % 0x1_0000_0000) as u32
}

proof fn lemma_counter_after_next(counter: u32, k: nat)
    ensures
        counter_after(sender::next_counter(counter), k) == counter_after(counter, k + 1),
        counter_after(counter, 0) == counter,
{
    if counter == u32::MAX {
        assert((0x1_0000_0000 + k) % 0x1_0000_0000 == k % 0x1_0000_0000) by (nonlinear_arith);
        assert(counter + (k + 1) == 0x1_0000_0000 + k);
    }
}

/// Messages leave in the order in which their jobs arrived, and in the order of their numbers:
/// what is on the wire is, message by message, the delivered messages, the first sealed under
/// the sender's number and each later one under the next. The sender ends at the number after the
/// last, ready for the next job.
pub proof fn law_messages_leave_in_order(s: SenderView, jobs: Seq<Delivery>)
    requires
        s.phase is Idle,
        jobs_sound(s, jobs),
    ensures
        wire(s, jobs).len() == delivered(jobs).len(),
        forall|k: int|
            #![trigger wire(s, jobs)[k]]
            0 <= k < delivered(jobs).len() ==> Some(wire(s, jobs)[k]) == message_frame(
                s.cipher,
                counter_after(s.counter, k as nat),
                delivered(jobs)[k],
            ),
        run_jobs(s, jobs) == (SenderView {
            counter: counter_after(s.counter, delivered(jobs).len()),
            ..s
        }),
    decreases jobs.len(),
{
    lemma_counter_after_next(s.counter, 0);
    if jobs.len() > 0 {
        let job = jobs.first();
        let rest = jobs.drop_first();
        let next = run_job(s, job).sender;
        law_job_is_answered_once(s, job);
        law_messages_leave_in_order(next, rest);
        if job_reply(job) is Ok {
            let frame = message_frame(s.cipher, s.counter, job.plaintext)->0;
            assert(wire(s, jobs) == seq![frame] + wire(next, rest));
            assert forall|k: int|
                #![trigger wire(s, jobs)[k]]
                0 <= k < delivered(jobs).len() implies Some(wire(s, jobs)[k]) == message_frame(
                s.cipher,
                counter_after(s.counter, k as nat),
                delivered(jobs)[k],
            ) by {
                if k > 0 {
                    lemma_counter_after_next(s.counter, (k - 1) as nat);
                    assert(wire(s, jobs)[k] == wire(next, rest)[k - 1]);
                    assert(delivered(jobs)[k] == delivered(rest)[k - 1]);
                }
            }
            lemma_counter_after_next(s.counter, delivered(rest).len());
        } else {
            assert(next == s);
            assert(wire(s, jobs) == wire(next, rest));
        }
    }
}

/// What a socket reads from frames, one after the other.
pub open spec fn read_all(reader: NoiseSocketView, wire: Seq<Seq<u8>>) -> Seq<
    Result<Seq<u8>, Seq<char>>,
>
    decreases wire.len(),
{
    if wire.len() == 0 {
        Seq::empty()
    } else {
        seq![reader.read(payload_of(wire.first()))] + read_all(
            reader.after_read(),
            wire.drop_first(),
        )
    }
}

/// The other end reads what was sent: a socket that reads under the sender's key, and that counts
/// as the sender does, reads from the wire just the delivered messages, in their order.
pub proof fn law_peer_reads_what_was_sent(
    s: SenderView,
    jobs: Seq<Delivery>,
    reader: NoiseSocketView,
)
    requires
        s.phase is Idle,
        jobs_sound(s, jobs),
        reader.cipher == s.cipher,
        reader.counter == s.counter,
    ensures
        read_all(reader, wire(s, jobs)) == delivered(jobs).map_values(
            |plaintext: Seq<u8>| Ok::<Seq<u8>, Seq<char>>(plaintext),
        ),
    decreases jobs.len(),
{
    let ok = |plaintext: Seq<u8>| Ok::<Seq<u8>, Seq<char>>(plaintext);
    if jobs.len() > 0 {
        let job = jobs.first();
        let rest = jobs.drop_first();
        let next = run_job(s, job).sender;
        law_job_is_answered_once(s, job);
        if job_reply(job) is Ok {
            let frame = message_frame(s.cipher, s.counter, job.plaintext)->0;
            law_frame_announces_its_payload(
                sealing::sealed(s.cipher, s.counter, job.plaintext),
            );
            law_peer_reads_what_was_sent(next, rest, reader.after_read());
            let frames = wire(s, jobs);
            assert(frames == seq![frame] + wire(next, rest));
            assert(frames.drop_first() =~= wire(next, rest));
            assert(read_all(reader, frames) =~= seq![Ok::<Seq<u8>, Seq<char>>(job.plaintext)]
                + read_all(reader.after_read(), wire(next, rest)));
            assert(delivered(jobs).map_values(ok) =~= seq![ok(job.plaintext)] + delivered(
                rest,
            ).map_values(ok));
        } else {
            law_peer_reads_what_was_sent(next, rest, reader);
        }
    } else {
        assert(read_all(reader, wire(s, jobs)) =~= delivered(jobs).map_values(ok));
    }
}

/// Once it is told that no job will arrive, the sender stops, and waits for nothing any more.
pub proof fn law_stopped_sender_stays_stopped(s: SenderView, event: SenderEventView)
    requires
        s.phase is Idle,
    ensures
        s.step(SenderEventView::Closed).1 is Exit,
        s.step(SenderEventView::Closed).0 == s.at(SenderPhaseView::Stopped),
        !s.step(SenderEventView::Closed).0.awaits(event),
{
}

/// A socket reads a message just when the cipher opens it under the socket's number, and reads what
/// the cipher opens it to; every other message is refused. Whichever it is, the socket then expects
/// the next number, which after the last is zero, under the same key.
pub proof fn law_just_what_opens_is_read(reader: NoiseSocketView, ciphertext: Seq<u8>)
    ensures
        reader.read(ciphertext) is Ok <==> sealing::opened(
            reader.cipher,
            reader.counter,
            ciphertext,
        ) is Some,
        reader.read(ciphertext) matches Ok(plaintext) ==> sealing::opened(
            reader.cipher,
            reader.counter,
            ciphertext,
        ) == Some(plaintext),
        reader.read(ciphertext) matches Err(text) ==> text
            == "Cryptographic operation failed: Decrypt failed: aead::Error"@,
        reader.after_read().cipher == reader.cipher,
        reader.after_read().counter == (reader.counter + 1) % 0x1_0000_0000,
{
}

/// The two ends of a new connection understand each other: whatever a new sender sends, a new
/// socket with the same key reads, message by message.
pub proof fn law_new_ends_understand_each_other(cipher: NoiseCipher, jobs: Seq<Delivery>)
    requires
        jobs_sound(SenderView::fresh(cipher), jobs),
    ensures
        SenderView::fresh(cipher).counter == 0,
        SenderView::fresh(cipher).cipher == cipher,
        SenderView::fresh(cipher).phase is Idle,
        read_all(
            NoiseSocketView { cipher, counter: 0 },
            wire(SenderView::fresh(cipher), jobs),
        ) == delivered(jobs).map_values(
            |plaintext: Seq<u8>| Ok::<Seq<u8>, Seq<char>>(plaintext),
        ),
{
    law_peer_reads_what_was_sent(
        SenderView::fresh(cipher),
        jobs,
        NoiseSocketView { cipher, counter: 0 },
    );
}

/// The answer to a job tells what became of its message. It is success just when the sealed message
/// fits in a frame and the transport took that; else it says which of sealing, framing and the
/// transport failed, and with what. A frame is handed to the transport just when the message fits,
/// and its payload is the message sealed under the sender's key and number. Only success uses the
/// number up.
pub proof fn law_answer_tells_what_became_of_the_message(s: SenderView, job: Delivery)
    requires
        s.phase is Idle,
        job_sound(s, job),
    ensures
        run_job(s, job).action is Reply,
        run_job(s, job).action == SenderActionView::Reply(Ok(())) <==> job.plaintext.len() + 16
            < 0x100_0000 && job.sent is Ok,
        job.sent matches Err(text) ==> job.plaintext.len() + 16 < 0x100_0000 ==> run_job(
            s,
            job,
        ).action == SenderActionView::Reply(Err(EncryptSendErrorView::Transport(text))),
        0x100_0000 <= job.plaintext.len() + 16 && job.plaintext.len() <= 0x10_0000_0000 ==> run_job(
            s,
            job,
        ).action == SenderActionView::Reply(
            Err(
                EncryptSendErrorView::Framing(
                    frames::frame_error_text((job.plaintext.len() + 16) as nat),
                ),
            ),
        ),
        job.plaintext.len() > 0x10_0000_0000 ==> run_job(s, job).action == SenderActionView::Reply(
            Err(EncryptSendErrorView::Crypto("Cryptographic operation failed: aead::Error"@)),
        ),
        run_job(s, job).frame is Some <==> job.plaintext.len() + 16 < 0x100_0000,
        run_job(s, job).frame matches Some(frame) ==> {
            &&& frame.len() == job.plaintext.len() + 19
            &&& announced_length(frame) == job.plaintext.len() + 16
            &&& frame.skip(3) == sealing::sealed(s.cipher, s.counter, job.plaintext)
            &&& sealing::opened(s.cipher, s.counter, frame.skip(3)) == Some(job.plaintext)
        },
        run_job(s, job).sender.cipher == s.cipher,
        run_job(s, job).sender.phase is Idle,
        run_job(s, job).action == SenderActionView::Reply(Ok(())) ==> run_job(s, job).sender.counter
            == (s.counter + 1) % 0x1_0000_0000,
        run_job(s, job).action != SenderActionView::Reply(Ok(())) ==> run_job(s, job).sender.counter
            == s.counter,
{
    law_job_is_answered_once(s, job);
    if job.plaintext.len() + 16 < 0x100_0000 {
        law_frame_announces_its_payload(sealing::sealed(s.cipher, s.counter, job.plaintext));
    }
}

/// What a sender makes of what it is handed while a message is being sealed: a sealed message that
/// fits in a frame goes out as its payload, one that does not is refused, and a failure is the
/// answer. In none of these cases is the number used up.
pub proof fn law_sealed_message_goes_out_or_is_refused(
    s: SenderView,
    ciphertext: Seq<u8>,
    error: EncryptSendErrorView,
)
    requires
        s.phase is Sealing,
    ensures
        ciphertext.len() < 0x100_0000 ==> {
            let (next, action) = s.step(SenderEventView::Sealed(Ok(ciphertext)));
            &&& action matches SenderActionView::Transmit(frame) && {
                &&& frame.len() == ciphertext.len() + 3
                &&& announced_length(frame) == ciphertext.len()
                &&& frame.skip(3) == ciphertext
            }
            &&& next.phase is Sending
            &&& next.cipher == s.cipher
            &&& next.counter == s.counter
        },
        ciphertext.len() >= 0x100_0000 ==> {
            let (next, action) = s.step(SenderEventView::Sealed(Ok(ciphertext)));
            &&& action == SenderActionView::Reply(
                Err(EncryptSendErrorView::Framing(frames::frame_error_text(ciphertext.len()))),
            )
            &&& next.phase is Idle
            &&& next.cipher == s.cipher
            &&& next.counter == s.counter
        },
        s.step(SenderEventView::Sealed(Err(error))).1 == SenderActionView::Reply(Err(error)),
        s.step(SenderEventView::Sealed(Err(error))).0.phase is Idle,
        s.step(SenderEventView::Sealed(Err(error))).0.cipher == s.cipher,
        s.step(SenderEventView::Sealed(Err(error))).0.counter == s.counter,
{
    if ciphertext.len() < 0x100_0000 {
        law_frame_announces_its_payload(ciphertext);
    }
}

/// What a sender waits for is what its last action can lead to, whatever comes of that; and each
/// action leaves it waiting for what that leads to.
pub proof fn law_sender_waits_for_every_answer(s: SenderView, event: SenderEventView)
    ensures
        s.phase is Idle ==> (s.awaits(event) <==> event is Job || event is Closed),
        s.phase is Sealing ==> (s.awaits(event) <==> event is Sealed),
        s.phase is Sending ==> (s.awaits(event) <==> event is Sent),
        s.phase is Stopped ==> !s.awaits(event),
        s.awaits(event) ==> match s.step(event).1 {
            SenderActionView::Seal(_) => s.step(event).0.phase is Sealing,
            SenderActionView::Transmit(_) => s.step(event).0.phase is Sending,
            SenderActionView::Reply(_) => s.step(event).0.phase is Idle,
            SenderActionView::Exit => s.step(event).0.phase is Stopped,
        },
        s.awaits(event) ==> (s.step(event).1 is Exit <==> event is Closed),
{
}

/// A caller queues the very message that it was given, and its result is the sender's answer, where
/// there is one; without one it is that the channel is closed. It returns just when the sender has
/// answered, or when no answer can come. Thirty-two jobs fit in the queue.
pub proof fn law_caller_gets_the_answer_to_its_own_message(event: SendCallEvent)
    ensures
        event matches SendCallEvent::Start { plaintext_buf, out_buf } ==> {
            &&& socket::send_call(event) matches SendCallAction::Enqueue(job)
            &&& job.plaintext_buf == plaintext_buf
            &&& job.out_buf == out_buf
        },
        event is Enqueued <==> socket::send_call(event) is AwaitReply,
        event matches SendCallEvent::Replied(result) ==> socket::send_call(event)
            == SendCallAction::Return(result),
        event is Refused || event is Unanswered ==> socket::send_call(event)
            == SendCallAction::Return(Err(EncryptSendError::ChannelClosed)),
        socket::send_call(event) is Return <==> event is Replied || event is Refused || event
            is Unanswered,
        socket::SEND_QUEUE_CAPACITY == 32,
{
}

} // verus!
