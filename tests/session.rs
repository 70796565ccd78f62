use netcp::chunk::Chunker;
use netcp::error::NetError;
use netcp::session::{Receiver, ReceiverPhase, Sender, SenderPhase};
use netcp::wire::{encode_string, encode_u64, Marker};

/// One direction of an in-memory stream.
#[derive(Default)]
struct Pipe {
    bytes: Vec<u8>,
}

impl Pipe {
    fn write(&mut self, data: &[u8]) {
        self.bytes.extend_from_slice(data);
    }

    fn read(&mut self, n: usize) -> Vec<u8> {
        assert!(self.bytes.len() >= n, "peer reads past what was sent");
        self.bytes.drain(..n).collect()
    }
}

struct Outcome {
    written: Vec<(String, Vec<u8>)>,
    chunks: Vec<Vec<usize>>,
    sender: Sender,
    receiver: Receiver,
}

/// Runs one full session: the sender offers `files`; the receiver can create
/// a destination file only where `creatable` says so.
fn run(files: &[(&str, Vec<u8>)], creatable: &[bool]) -> Outcome {
    let mut to_sender = Pipe::default();
    let mut to_receiver = Pipe::default();
    let mut s = Sender::new(files.len());
    let mut r = Receiver::new();
    let mut written = Vec::new();
    let mut chunks = Vec::new();

    to_sender.write(&r.open());
    let reply = s.accept_callsign(&to_sender.read(10)).unwrap();
    to_receiver.write(&reply);
    r.on_handshake(&to_receiver.read(8)).unwrap();

    let mut offered = 0;
    loop {
        if s.phase == SenderPhase::Closing {
            to_receiver.write(&s.finish());
        } else {
            assert_eq!(s.phase, SenderPhase::Offer);
            let (name, data) = &files[s.current];
            to_receiver.write(&s.announce(data.len() as u64, name));
        }

        match r.on_marker(&to_receiver.read(4)).unwrap() {
            Marker::End => break,
            Marker::File => {}
        }
        let size = r.on_size(&to_receiver.read(8));
        let len = r.on_name_length(&to_receiver.read(8)) as usize;
        let name = r.on_name(to_receiver.read(len)).unwrap();
        let created = creatable[offered];
        offered += 1;
        to_sender.write(&r.decide(created));

        let index = s.current;
        if s.on_answer(&to_sender.read(8)).unwrap() {
            let mut out = Chunker::new(files[index].1.len() as u64);
            while !out.is_done() {
                let n = out.next_len();
                let start = out.moved as usize;
                to_receiver.write(&files[index].1[start..start + n]);
                out.advance();
            }
            s.file_sent();

            let mut dest = Vec::new();
            let mut seen = Vec::new();
            let mut inc = Chunker::new(size);
            while !inc.is_done() {
                let n = inc.next_len();
                seen.push(n);
                dest.extend_from_slice(&to_receiver.read(n));
                inc.advance();
            }
            r.file_received();
            written.push((name, dest));
            chunks.push(seen);
        }
    }
    assert!(to_sender.bytes.is_empty());
    assert!(to_receiver.bytes.is_empty());
    Outcome { written, chunks, sender: s, receiver: r }
}

#[test]
fn agree_disagree_agree_transfers_first_and_third() {
    let files = [("one", vec![1u8; 700]), ("two", vec![2u8; 10]), ("three", vec![3u8; 3])];
    let out = run(&files, &[true, false, true]);
    assert_eq!(out.written.len(), 2);
    assert_eq!(out.written[0], ("one".to_string(), vec![1u8; 700]));
    assert_eq!(out.written[1], ("three".to_string(), vec![3u8; 3]));
    assert_eq!(out.sender.phase, SenderPhase::Finished);
    assert_eq!(out.sender.current, 3);
    assert_eq!(out.receiver.phase, ReceiverPhase::Finished);
}

#[test]
fn file_of_1300_bytes_arrives_in_three_chunks() {
    let data: Vec<u8> = (0..1300u32).map(|i| (i % 251) as u8).collect();
    let out = run(&[("a.bin", data.clone())], &[true]);
    assert_eq!(out.chunks, vec![vec![512, 512, 276]]);
    assert_eq!(out.written[0].0, "a.bin");
    assert_eq!(out.written[0].1.len(), 1300);
    assert_eq!(out.written[0].1, data);
}

#[test]
fn empty_file_is_created_with_no_payload() {
    let out = run(&[("empty", Vec::new())], &[true]);
    assert_eq!(out.chunks, vec![Vec::<usize>::new()]);
    assert_eq!(out.written, vec![("empty".to_string(), Vec::new())]);
    assert_eq!(out.receiver.phase, ReceiverPhase::Finished);
}

#[test]
fn empty_file_list_sends_only_the_end_marker() {
    let out = run(&[], &[]);
    assert!(out.written.is_empty());
    assert_eq!(out.sender.phase, SenderPhase::Finished);
    assert_eq!(out.receiver.phase, ReceiverPhase::Finished);
}

#[test]
fn announce_frames_marker_size_and_name() {
    let mut s = Sender::new(1);
    s.accept_callsign(b"netcp v0.1").unwrap();
    let frame = s.announce(1300, "a.bin");
    let mut expected = b"FILE".to_vec();
    expected.extend(encode_u64(1300));
    expected.extend(encode_string("a.bin"));
    assert_eq!(frame, expected);
    assert_eq!(&frame[4..12], &[0x14, 0x05, 0, 0, 0, 0, 0, 0]);
    assert_eq!(&frame[12..20], &[5, 0, 0, 0, 0, 0, 0, 0]);
    assert_eq!(&frame[20..], b"a.bin");
    assert_eq!(s.phase, SenderPhase::AwaitAnswer);
}

#[test]
fn wrong_callsign_is_a_protocol_error() {
    let mut s = Sender::new(2);
    assert_eq!(s.accept_callsign(b"netcp v0.2"), Err(NetError::InvalidProtocol));
    assert_eq!(s.phase, SenderPhase::Failed);
    let mut s = Sender::new(2);
    assert_eq!(s.accept_callsign(b"netcp v0.1 "), Err(NetError::InvalidProtocol));
    let mut s = Sender::new(2);
    assert_eq!(s.accept_callsign(b"netcp v0.1"), Ok(b"AGREE   ".to_vec()));
    assert_eq!(s.phase, SenderPhase::Offer);
}

#[test]
fn refused_handshake_is_fatal() {
    let mut r = Receiver::new();
    assert_eq!(r.open(), b"netcp v0.1".to_vec());
    assert_eq!(r.on_handshake(b"DISAGREE"), Err(NetError::NoServer));
    assert_eq!(r.phase, ReceiverPhase::Failed);
    let mut r = Receiver::new();
    r.open();
    assert_eq!(r.on_handshake(b"garbage!"), Err(NetError::NoServer));
    let mut r = Receiver::new();
    r.open();
    assert_eq!(r.on_handshake(b"AGREE   "), Ok(()));
    assert_eq!(r.phase, ReceiverPhase::AwaitMarker);
}

#[test]
fn unknown_marker_is_a_protocol_error() {
    let mut r = Receiver::new();
    r.open();
    r.on_handshake(b"AGREE   ").unwrap();
    assert_eq!(r.on_marker(b"FIL "), Err(NetError::InvalidProtocol));
    assert_eq!(r.phase, ReceiverPhase::Failed);
}

#[test]
fn invalid_answer_is_a_protocol_error() {
    let mut s = Sender::new(1);
    s.accept_callsign(b"netcp v0.1").unwrap();
    s.announce(3, "x");
    assert_eq!(s.on_answer(b"MAYBE   "), Err(NetError::InvalidProtocol));
    assert_eq!(s.phase, SenderPhase::Failed);
}

#[test]
fn disagree_skips_to_the_end_marker() {
    let mut s = Sender::new(1);
    s.accept_callsign(b"netcp v0.1").unwrap();
    s.announce(3, "x");
    assert_eq!(s.on_answer(b"DISAGREE"), Ok(false));
    assert_eq!(s.phase, SenderPhase::Closing);
    assert_eq!(s.finish(), b"END ".to_vec());
}

#[test]
fn receiver_reports_invalid_name_and_refuses_uncreatable_file() {
    let mut r = Receiver::new();
    r.open();
    r.on_handshake(b"AGREE   ").unwrap();
    assert_eq!(r.on_marker(b"FILE"), Ok(Marker::File));
    assert_eq!(r.on_size(&encode_u64(42)), 42);
    assert_eq!(r.file_size, 42);
    assert_eq!(r.on_name_length(&encode_u64(2)), 2);
    assert_eq!(r.on_name(vec![0xff, 0xff]), Err(NetError::InvalidText));
    assert_eq!(r.phase, ReceiverPhase::Failed);

    let mut r = Receiver::new();
    r.open();
    r.on_handshake(b"AGREE   ").unwrap();
    r.on_marker(b"FILE").unwrap();
    r.on_size(&encode_u64(42));
    r.on_name_length(&encode_u64(1));
    assert_eq!(r.on_name(b"x".to_vec()), Ok("x".to_string()));
    assert_eq!(r.decide(false), b"DISAGREE".to_vec());
    assert_eq!(r.phase, ReceiverPhase::AwaitMarker);
    assert_eq!(r.on_marker(b"END "), Ok(Marker::End));
    assert_eq!(r.phase, ReceiverPhase::Finished);
}

#[test]
fn error_messages() {
    assert_eq!(NetError::Timeout.message(), "Connection lost (timeout)");
    assert_eq!(NetError::InvalidProtocol.message(), "Invalid protocol");
    assert_eq!(NetError::NoServer.message(), "No server found");
}
