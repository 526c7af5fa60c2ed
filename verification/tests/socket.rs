use noise_prekeys::error::{EncryptSendError, SendResult, SocketError};
use noise_prekeys::sender::{SendJob, SenderAction, SenderEvent, SenderTask};
use noise_prekeys::socket::{NoiseSocket, SendCallAction, SendCallEvent};
use wacore::handshake::NoiseCipher;

fn cipher(key: &[u8; 32]) -> NoiseCipher {
    NoiseCipher::new(key).expect("32-byte key should be valid")
}

/// Takes a job through the sender, over a transport.
fn process(
    sender: &mut SenderTask,
    job: SendJob,
    transport: &mut dyn FnMut(Vec<u8>) -> Result<(), String>,
) -> SendResult {
    let mut action = sender.step(SenderEvent::Job(job));
    loop {
        action = match action {
            SenderAction::Seal(task) => sender.step(SenderEvent::Sealed(task.run())),
            SenderAction::Transmit(frame) => sender.step(SenderEvent::Sent(transport(frame))),
            SenderAction::Reply(result) => return result,
            SenderAction::Exit => panic!("the sender should answer a job"),
        };
    }
}

fn enqueue(plaintext_buf: Vec<u8>, out_buf: Vec<u8>) -> SendJob {
    match NoiseSocket::encrypt_and_send(SendCallEvent::Start { plaintext_buf, out_buf }) {
        SendCallAction::Enqueue(job) => job,
        _ => panic!("a call should start with a job"),
    }
}

fn conclude(event: SendCallEvent) -> SendResult {
    match NoiseSocket::encrypt_and_send(event) {
        SendCallAction::Return(result) => result,
        _ => panic!("the call should be over"),
    }
}

/// Sends a message from start to end, over a transport.
fn encrypt_and_send(
    sender: &mut SenderTask,
    plaintext_buf: Vec<u8>,
    out_buf: Vec<u8>,
    transport: &mut dyn FnMut(Vec<u8>) -> Result<(), String>,
) -> SendResult {
    let job = enqueue(plaintext_buf, out_buf);
    assert!(matches!(
        NoiseSocket::encrypt_and_send(SendCallEvent::Enqueued),
        SendCallAction::AwaitReply
    ));
    let result = process(sender, job, transport);
    conclude(SendCallEvent::Replied(result))
}

#[test]
fn test_encrypt_and_send_succeeds() {
    let key = [0u8; 32];
    let (_, mut sender) = NoiseSocket::new(cipher(&key), cipher(&key));

    let plaintext_buf = Vec::with_capacity(1024);
    let encrypted_buf = Vec::with_capacity(1024);

    let result = encrypt_and_send(&mut sender, plaintext_buf, encrypted_buf, &mut |_| {
        Ok(())
    });
    assert!(result.is_ok(), "encrypt_and_send should succeed");
}

#[test]
fn test_concurrent_sends_maintain_order() {
    let key = [0u8; 32];
    let (_, mut sender) = NoiseSocket::new(cipher(&key), cipher(&key));

    let read_key = cipher(&key);
    let mut counter: u32 = 0;
    let mut order: Vec<u8> = Vec::new();

    // All callers have their jobs in the queue before the sender gets to the first.
    let mut queue: Vec<SendJob> = Vec::new();
    for i in 0..10 {
        let mut plaintext = vec![i as u8];
        plaintext.extend_from_slice(&[0u8; 99]);
        let out_buf = Vec::with_capacity(256);
        queue.push(enqueue(plaintext, out_buf));
    }

    for job in queue {
        let result = process(&mut sender, job, &mut |data| {
            if data.len() > 16 {
                // Skip the noise frame header (3 bytes for length)
                let ciphertext = &data[3..];
                let opened = read_key.decrypt_with_counter(counter, ciphertext);
                counter += 1;
                if let Ok(plaintext) = opened {
                    if !plaintext.is_empty() {
                        order.push(plaintext[0]);
                    }
                }
            }
            Ok(())
        });
        let result = conclude(SendCallEvent::Replied(result));
        assert!(result.is_ok(), "All sends should succeed");
    }

    let expected: Vec<u8> = (0..10).collect();
    assert_eq!(order, expected, "Sends should maintain FIFO order");
}

#[test]
fn test_encrypted_buffer_sizing_is_sufficient() {
    let key = [0u8; 32];
    let (_, mut sender) = NoiseSocket::new(cipher(&key), cipher(&key));

    let test_sizes = [0, 1, 50, 100, 500, 1000, 1024, 2000, 5000, 16384, 20000];

    for size in test_sizes {
        let plaintext = vec![0xABu8; size];
        let buffer_capacity = plaintext.len() + 32;
        let encrypted_buf = Vec::with_capacity(buffer_capacity);

        let mut actual_encrypted_size = 0;
        let result =
            encrypt_and_send(&mut sender, plaintext.clone(), encrypted_buf, &mut |data| {
                actual_encrypted_size = data.len();
                Ok(())
            });

        assert!(
            result.is_ok(),
            "encrypt_and_send should succeed for payload size {}",
            size
        );

        let expected_max = size + 19;
        assert_eq!(
            actual_encrypted_size, expected_max,
            "Encrypted size for {} byte payload should be {} (got {})",
            size, expected_max, actual_encrypted_size
        );

        assert!(
            buffer_capacity >= actual_encrypted_size,
            "Buffer capacity {} should be >= encrypted size {} for payload size {}",
            buffer_capacity,
            actual_encrypted_size,
            size
        );
    }
}

#[test]
fn test_encrypted_buffer_sizing_edge_cases() {
    let key = [0u8; 32];
    let (_, mut sender) = NoiseSocket::new(cipher(&key), cipher(&key));
    let mut transport = |_: Vec<u8>| Ok(());

    let result = encrypt_and_send(
        &mut sender,
        vec![],
        Vec::with_capacity(32),
        &mut transport,
    );
    assert!(result.is_ok(), "Empty payload should encrypt successfully");

    let at_threshold = vec![0u8; 16 * 1024];
    let result = encrypt_and_send(
        &mut sender,
        at_threshold,
        Vec::with_capacity(16 * 1024 + 32),
        &mut transport,
    );
    assert!(
        result.is_ok(),
        "Payload at inline threshold should encrypt successfully"
    );

    let above_threshold = vec![0u8; 16 * 1024 + 1];
    let result = encrypt_and_send(
        &mut sender,
        above_threshold,
        Vec::with_capacity(16 * 1024 + 33),
        &mut transport,
    );
    assert!(
        result.is_ok(),
        "Payload above inline threshold should encrypt successfully"
    );
}

#[test]
fn frames_have_these_bytes() {
    // AES-256-GCM with a key of zeroes, a nonce of zeroes: no plaintext, then a block of zeroes.
    let empty = "00001053".to_owned() + "0f8afbc74536b9a963b4f1c4cb738b";
    let block = "000020".to_owned()
        + "cea7403d4d606b6e074ec5d3baf39d18"
        + "d0d1c8a799996bf0265b98b5d48ab919";
    for (plaintext, expected) in [(vec![], empty), (vec![0u8; 16], block)] {
        let mut sender = SenderTask::new(cipher(&[0u8; 32]));
        let mut frame = Vec::new();
        let job = SendJob { plaintext_buf: plaintext, out_buf: vec![7, 7, 7] };
        let result = process(&mut sender, job, &mut |data| {
            frame = data;
            Ok(())
        });
        assert_eq!(result, Ok(()));
        assert_eq!(hex::encode(frame), expected);
    }
}

#[test]
fn only_long_messages_are_sealed_off_the_lane() {
    let mut sender = SenderTask::new(cipher(&[1u8; 32]));
    let job = SendJob { plaintext_buf: vec![0u8; 0x4000], out_buf: vec![] };
    assert!(matches!(sender.step(SenderEvent::Job(job)), SenderAction::Transmit(_)));
    assert!(matches!(sender.step(SenderEvent::Sent(Ok(()))), SenderAction::Reply(Ok(()))));
    let job = SendJob { plaintext_buf: vec![0u8; 0x4001], out_buf: vec![] };
    assert!(matches!(sender.step(SenderEvent::Job(job)), SenderAction::Seal(_)));
}

#[test]
fn processing_a_job_offloads_just_above_the_threshold() {
    for (size, offloaded) in [(0, false), (16384, false), (16385, true)] {
        let mut sender = SenderTask::new(cipher(&[1u8; 32]));
        let job = SendJob { plaintext_buf: vec![0u8; size], out_buf: vec![] };
        let action = sender.process_send_job(job);
        assert_eq!(matches!(action, SenderAction::Seal(_)), offloaded);
        assert_eq!(matches!(action, SenderAction::Transmit(_)), !offloaded);
    }
}

#[test]
fn a_sealing_error_is_the_answer() {
    let mut sender = SenderTask::new(cipher(&[1u8; 32]));
    let job = SendJob { plaintext_buf: vec![0u8; 0x4001], out_buf: vec![] };
    assert!(matches!(sender.step(SenderEvent::Job(job)), SenderAction::Seal(_)));
    let error = EncryptSendError::Crypto("no luck".to_string());
    match sender.step(SenderEvent::Sealed(Err(error))) {
        SenderAction::Reply(result) => {
            assert_eq!(result, Err(EncryptSendError::Crypto("no luck".to_string())));
        }
        _ => panic!("the error should be the answer"),
    }
}

#[test]
fn a_message_too_long_for_a_frame_is_refused() {
    let mut sender = SenderTask::new(cipher(&[2u8; 32]));
    let job = SendJob { plaintext_buf: vec![5u8; 0x100_0000 - 16], out_buf: vec![] };
    let result = process(&mut sender, job, &mut |_| panic!("nothing should be sent"));
    assert_eq!(
        result,
        Err(EncryptSendError::Framing(
            "Frame is too large (max: 16777216, got: 16777216)".to_string()
        ))
    );

    let job = SendJob { plaintext_buf: vec![5u8; 0x100_0000 - 17], out_buf: vec![] };
    let mut frame = Vec::new();
    let result = process(&mut sender, job, &mut |data| {
        frame = data;
        Ok(())
    });
    assert_eq!(result, Ok(()));
    assert_eq!(frame.len(), 0x100_0000 + 2);
    assert_eq!(&frame[..3], &[0xFF, 0xFF, 0xFF]);
    let opened = cipher(&[2u8; 32]).decrypt_with_counter(0, &frame[3..]);
    assert_eq!(opened.unwrap(), vec![5u8; 0x100_0000 - 17]);
}

#[test]
fn a_failed_send_keeps_the_message_number() {
    for size in [10, 20000] {
        let mut sender = SenderTask::new(cipher(&[3u8; 32]));
        let mut frames: Vec<Vec<u8>> = Vec::new();
        for sent in [Err("cut off".to_string()), Ok(()), Ok(())] {
            let job = SendJob { plaintext_buf: vec![9u8; size], out_buf: vec![] };
            let expected = match &sent {
                Ok(()) => Ok(()),
                Err(text) => Err(EncryptSendError::Transport(text.clone())),
            };
            let result = process(&mut sender, job, &mut |data| {
                frames.push(data);
                sent.clone()
            });
            assert_eq!(result, expected);
        }
        assert_eq!(frames[0], frames[1]);
        assert_ne!(frames[1], frames[2]);
    }
}

#[test]
fn both_lanes_make_the_same_frames() {
    let reference = cipher(&[4u8; 32]);
    for size in [0x4000, 0x4001] {
        let mut sender = SenderTask::new(cipher(&[4u8; 32]));
        let plaintext = vec![6u8; size];
        let sealed = reference.encrypt_with_counter(0, &plaintext).unwrap();
        let mut frame = Vec::new();
        let job = SendJob { plaintext_buf: plaintext, out_buf: vec![] };
        assert_eq!(
            process(&mut sender, job, &mut |data| {
                frame = data;
                Ok(())
            }),
            Ok(())
        );
        assert_eq!(&frame[3..], &sealed[..]);
    }
}

#[test]
fn the_peer_reads_what_was_sent() {
    let (_, mut sender) = NoiseSocket::new(cipher(&[5u8; 32]), cipher(&[6u8; 32]));
    let (mut peer, _) = NoiseSocket::new(cipher(&[6u8; 32]), cipher(&[5u8; 32]));
    let mut wire: Vec<Vec<u8>> = Vec::new();
    let mut delivered: Vec<Vec<u8>> = Vec::new();
    for (i, size) in [3usize, 0, 17000, 40, 8].iter().enumerate() {
        let plaintext = vec![i as u8; *size];
        let accepted = i != 3;
        let job = SendJob { plaintext_buf: plaintext.clone(), out_buf: vec![] };
        let result = process(&mut sender, job, &mut |data| {
            if accepted {
                wire.push(data);
                Ok(())
            } else {
                Err("lost".to_string())
            }
        });
        assert_eq!(result.is_ok(), accepted);
        if accepted {
            delivered.push(plaintext);
        }
    }
    let read: Vec<Vec<u8>> = wire
        .iter()
        .map(|frame| {
            let len = (frame[0] as usize) << 16 | (frame[1] as usize) << 8 | frame[2] as usize;
            assert_eq!(len, frame.len() - 3);
            peer.decrypt_frame(&frame[3..]).unwrap()
        })
        .collect();
    assert_eq!(read, delivered);
}

#[test]
fn a_message_that_does_not_open_is_counted() {
    let key = [7u8; 32];
    let writer = cipher(&key);
    let (mut socket, _) = NoiseSocket::new(cipher(&key), cipher(&key));
    let refusal = Err(SocketError::Crypto(
        "Cryptographic operation failed: Decrypt failed: aead::Error".to_string(),
    ));
    assert_eq!(socket.decrypt_frame(&[1, 2, 3]), refusal);
    let first = writer.encrypt_with_counter(0, b"first").unwrap();
    assert_eq!(socket.decrypt_frame(&first), refusal);
    let third = writer.encrypt_with_counter(2, b"third").unwrap();
    assert_eq!(socket.decrypt_frame(&third), Ok(b"third".to_vec()));
}

#[test]
fn a_caller_learns_that_the_channel_is_closed() {
    assert_eq!(
        conclude(SendCallEvent::Refused),
        Err(EncryptSendError::ChannelClosed)
    );
    assert_eq!(
        conclude(SendCallEvent::Unanswered),
        Err(EncryptSendError::ChannelClosed)
    );
    let error = EncryptSendError::Transport("gone".to_string());
    assert_eq!(
        conclude(SendCallEvent::Replied(Err(error))),
        Err(EncryptSendError::Transport("gone".to_string()))
    );
}

#[test]
fn the_sender_stops_when_no_job_can_arrive() {
    let mut sender = SenderTask::new(cipher(&[9u8; 32]));
    assert!(matches!(sender.step(SenderEvent::Closed), SenderAction::Exit));
}
