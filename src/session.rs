use vstd::prelude::*;
use vstd::utf8::{decode_utf8, valid_utf8};
use crate::error::NetError;
use crate::wire::{
    agree_bytes, agree_token, answer_of, callsign, callsign_bytes, compare_byte_array, decode_answer,
    decode_marker, decode_text, decode_u64, disagree_bytes, disagree_token, encode_string,
    encode_u64, end_marker, end_marker_bytes, file_marker, file_marker_bytes, le_value, marker_of,
    string_field, u64_field, Answer, Marker, U64_WIDTH,
};

verus! {

/// What announces one file: the `FILE` marker, its size, then its name.
pub open spec fn offer_frame(size: u64, name: Seq<char>) -> Seq<u8> {
    file_marker() + u64_field(size) + string_field(name)
}

/// Where the offering peer stands in a session.
#[derive(Clone, Copy, Debug, PartialEq, Eq, Structural)]
pub enum SenderPhase {
    /// Waiting for the requesting peer's callsign.
    Handshake,
    /// About to announce the current file.
    Offer,
    /// Waiting for the answer to the current file.
    AwaitAnswer,
    /// Streaming the current file's payload.
    Transfer,
    /// Every file has been dealt with: the end marker is due.
    Closing,
    /// The end marker has been sent.
    Finished,
    /// The session ended on an error.
    Failed,
}

/// The offering side of a session over `file_count` files, offered in order.
#[derive(Clone, Copy, Debug, PartialEq, Eq, Structural)]
pub struct Sender {
    pub file_count: usize,
    /// Index of the file being offered.
    pub current: usize,
    pub phase: SenderPhase,
}

/// The phase once the file at `index` has been transferred or skipped.
pub open spec fn phase_after_file(index: int, file_count: int) -> SenderPhase {
    if index + 1 < file_count {
        SenderPhase::Offer
    } else {
        SenderPhase::Closing
    }
}

impl Sender {
    pub open spec fn wf(&self) -> bool {
        &&& self.current <= self.file_count
        &&& self.phase == SenderPhase::Handshake ==> self.current == 0
        &&& (self.phase == SenderPhase::Offer || self.phase == SenderPhase::AwaitAnswer
            || self.phase == SenderPhase::Transfer) ==> self.current < self.file_count
        &&& (self.phase == SenderPhase::Closing || self.phase == SenderPhase::Finished)
            ==> self.current == self.file_count
    }

    pub fn new(file_count: usize) -> (r: Sender)
        ensures
            r.wf(),
            r.file_count == file_count,
            r.current == 0,
            r.phase == SenderPhase::Handshake,
    {
        Sender { file_count, current: 0, phase: SenderPhase::Handshake }
    }

    fn next_file(&mut self)
        requires
            old(self).wf(),
            old(self).current < old(self).file_count,
        ensures
            final(self).wf(),
            final(self).file_count == old(self).file_count,
            final(self).current == old(self).current + 1,
            final(self).phase == phase_after_file(old(self).current as int, old(self).file_count as int),
    {
        self.current = self.current + 1;
        if self.current < self.file_count {
            self.phase = SenderPhase::Offer;
        } else {
            self.phase = SenderPhase::Closing;
        }
    }

    /// Checks the callsign the requesting peer opened with. On a match the reply
    /// is the agreement token, which the protocol always sends; anything else
    /// ends the session.
    pub fn accept_callsign(&mut self, received: &[u8]) -> (r: Result<Vec<u8>, NetError>)
        requires
            old(self).wf(),
            old(self).phase == SenderPhase::Handshake,
        ensures
            final(self).wf(),
            final(self).file_count == old(self).file_count,
            final(self).current == old(self).current,
            r is Ok <==> received@ == callsign(),
            r matches Ok(reply) ==> reply@ == agree_token() && final(self).phase == (if old(
                self,
            ).file_count == 0 {
                SenderPhase::Closing
            } else {
                SenderPhase::Offer
            }),
            r matches Err(e) ==> e == NetError::InvalidProtocol && final(self).phase
                == SenderPhase::Failed,
    {
        let expected = callsign_bytes();
        if !compare_byte_array(received, expected.as_slice()) {
            self.phase = SenderPhase::Failed;
            return Err(NetError::InvalidProtocol);
        }
        self.phase = if self.file_count == 0 {
            SenderPhase::Closing
        } else {
            SenderPhase::Offer
        };
        Ok(agree_bytes())
    }

    /// Announces the current file, of `size` bytes, under `name` (a base name).
    pub fn announce(&mut self, size: u64, name: &str) -> (r: Vec<u8>)
        requires
            old(self).wf(),
            old(self).phase == SenderPhase::Offer,
        ensures
            final(self).wf(),
            final(self).file_count == old(self).file_count,
            final(self).current == old(self).current,
            final(self).phase == SenderPhase::AwaitAnswer,
            r@ == offer_frame(size, name@),
    {
        let mut out = file_marker_bytes();
        let mut size_field = encode_u64(size);
        let mut name_field = encode_string(name);
        out.append(&mut size_field);
        out.append(&mut name_field);
        self.phase = SenderPhase::AwaitAnswer;
        out
    }

    /// Takes the requesting peer's answer to the current file: `Ok(true)` when
    /// the payload is to be streamed, `Ok(false)` when the file is skipped and
    /// the next one (or the end marker) is due.
    pub fn on_answer(&mut self, received: &[u8]) -> (r: Result<bool, NetError>)
        requires
            old(self).wf(),
            old(self).phase == SenderPhase::AwaitAnswer,
        ensures
            final(self).wf(),
            final(self).file_count == old(self).file_count,
            r == (match answer_of(received@) {
                Some(Answer::Agree) => Ok(true),
                Some(Answer::Disagree) => Ok(false),
                None => Err(NetError::InvalidProtocol),
            }),
            r matches Ok(true) ==> final(self).current == old(self).current && final(self).phase
                == SenderPhase::Transfer,
            r matches Ok(false) ==> final(self).current == old(self).current + 1 && final(self).phase
                == phase_after_file(old(self).current as int, old(self).file_count as int),
            r is Err ==> final(self).current == old(self).current && final(self).phase
                == SenderPhase::Failed,
    {
        match decode_answer(received) {
            Ok(Answer::Agree) => {
                self.phase = SenderPhase::Transfer;
                Ok(true)
            },
            Ok(Answer::Disagree) => {
                self.next_file();
                Ok(false)
            },
            Err(e) => {
                self.phase = SenderPhase::Failed;
                Err(e)
            },
        }
    }

    /// Records that the current file's payload has been streamed.
    pub fn file_sent(&mut self)
        requires
            old(self).wf(),
            old(self).phase == SenderPhase::Transfer,
        ensures
            final(self).wf(),
            final(self).file_count == old(self).file_count,
            final(self).current == old(self).current + 1,
            final(self).phase == phase_after_file(old(self).current as int, old(self).file_count as int),
    {
        self.next_file();
    }

    /// Closes the session: the end marker to send.
    pub fn finish(&mut self) -> (r: Vec<u8>)
        requires
            old(self).wf(),
            old(self).phase == SenderPhase::Closing,
        ensures
            final(self).wf(),
            final(self).file_count == old(self).file_count,
            final(self).current == old(self).current,
            final(self).phase == SenderPhase::Finished,
            r@ == end_marker(),
    {
        self.phase = SenderPhase::Finished;
        end_marker_bytes()
    }
}

/// Where the requesting peer stands in a session.
#[derive(Clone, Copy, Debug, PartialEq, Eq, Structural)]
pub enum ReceiverPhase {
    /// The callsign is due.
    Start,
    /// Waiting for the offering peer's answer to the callsign.
    AwaitHandshake,
    /// Waiting for the next marker.
    AwaitMarker,
    /// Waiting for the announced file's size.
    AwaitSize,
    /// Waiting for the length of the announced file's name.
    AwaitNameLength,
    /// Waiting for the bytes of the announced file's name.
    AwaitName,
    /// The file is known: the answer is due.
    Decide,
    /// Receiving the accepted file's payload.
    Receive,
    /// The end marker has arrived.
    Finished,
    /// The session ended on an error.
    Failed,
}

impl ReceiverPhase {
    /// Whether the session is over: nothing further is read, sent or written.
    pub open spec fn is_over(self) -> bool {
        self == ReceiverPhase::Finished || self == ReceiverPhase::Failed
    }
}

/// The requesting side of a session.
#[derive(Clone, Copy, Debug, PartialEq, Eq, Structural)]
pub struct Receiver {
    pub phase: ReceiverPhase,
    /// Size of the announced file.
    pub file_size: u64,
    /// Length in bytes of the announced file's name.
    pub name_length: u64,
}

/// The phase that the answer to the callsign leads to.
pub open spec fn phase_after_handshake(received: Seq<u8>) -> ReceiverPhase {
    if received == agree_token() {
        ReceiverPhase::AwaitMarker
    } else {
        ReceiverPhase::Failed
    }
}

impl Receiver {
    pub fn new() -> (r: Receiver)
        ensures
            r.phase == ReceiverPhase::Start,
    {
        Receiver { phase: ReceiverPhase::Start, file_size: 0, name_length: 0 }
    }

    /// Opens the session: the callsign to send.
    pub fn open(&mut self) -> (r: Vec<u8>)
        requires
            old(self).phase == ReceiverPhase::Start,
        ensures
            final(self).phase == ReceiverPhase::AwaitHandshake,
            r@ == callsign(),
    {
        self.phase = ReceiverPhase::AwaitHandshake;
        callsign_bytes()
    }

    /// Takes the answer to the callsign. Only the agreement token goes on; the
    /// refusal token, or anything else, means that no server is there.
    pub fn on_handshake(&mut self, received: &[u8]) -> (r: Result<(), NetError>)
        requires
            old(self).phase == ReceiverPhase::AwaitHandshake,
        ensures
            r is Ok <==> received@ == agree_token(),
            r matches Err(e) ==> e == NetError::NoServer,
            final(self).phase == phase_after_handshake(received@),
    {
        match decode_answer(received) {
            Ok(Answer::Agree) => {
                self.phase = ReceiverPhase::AwaitMarker;
                Ok(())
            },
            _ => {
                self.phase = ReceiverPhase::Failed;
                Err(NetError::NoServer)
            },
        }
    }

    /// Takes the next marker: a file follows, or the session is complete.
    pub fn on_marker(&mut self, received: &[u8]) -> (r: Result<Marker, NetError>)
        requires
            old(self).phase == ReceiverPhase::AwaitMarker,
        ensures
            r == (match marker_of(received@) {
                Some(m) => Ok(m),
                None => Err(NetError::InvalidProtocol),
            }),
            final(self).phase == (match marker_of(received@) {
                Some(Marker::File) => ReceiverPhase::AwaitSize,
                Some(Marker::End) => ReceiverPhase::Finished,
                None => ReceiverPhase::Failed,
            }),
    {
        match decode_marker(received) {
            Ok(Marker::File) => {
                self.phase = ReceiverPhase::AwaitSize;
                Ok(Marker::File)
            },
            Ok(Marker::End) => {
                self.phase = ReceiverPhase::Finished;
                Ok(Marker::End)
            },
            Err(e) => {
                self.phase = ReceiverPhase::Failed;
                Err(e)
            },
        }
    }

    /// Takes the announced file's size field.
    pub fn on_size(&mut self, received: &[u8]) -> (r: u64)
        requires
            old(self).phase == ReceiverPhase::AwaitSize,
            received@.len() == U64_WIDTH,
        ensures
            r == le_value(received@),
            final(self).file_size == r,
            final(self).phase == ReceiverPhase::AwaitNameLength,
    {
        let size = decode_u64(received);
        self.file_size = size;
        self.phase = ReceiverPhase::AwaitNameLength;
        size
    }

    /// Takes the length field of the announced file's name: the number of
    /// name bytes to read next.
    pub fn on_name_length(&mut self, received: &[u8]) -> (r: u64)
        requires
            old(self).phase == ReceiverPhase::AwaitNameLength,
            received@.len() == U64_WIDTH,
        ensures
            r == le_value(received@),
            final(self).name_length == r,
            final(self).file_size == old(self).file_size,
            final(self).phase == ReceiverPhase::AwaitName,
    {
        let n = decode_u64(received);
        self.name_length = n;
        self.phase = ReceiverPhase::AwaitName;
        n
    }

    /// Takes the bytes of the announced file's name, which must be UTF-8.
    pub fn on_name(&mut self, received: Vec<u8>) -> (r: Result<String, NetError>)
        requires
            old(self).phase == ReceiverPhase::AwaitName,
            received@.len() == old(self).name_length,
        ensures
            r is Ok <==> valid_utf8(received@),
            r matches Ok(name) ==> name@ == decode_utf8(received@) && final(self).phase
                == ReceiverPhase::Decide,
            r matches Err(e) ==> e == NetError::InvalidText && final(self).phase
                == ReceiverPhase::Failed,
            final(self).file_size == old(self).file_size,
    {
        match decode_text(received) {
            Ok(name) => {
                self.phase = ReceiverPhase::Decide;
                Ok(name)
            },
            Err(e) => {
                self.phase = ReceiverPhase::Failed;
                Err(e)
            },
        }
    }

    /// Answers the offer, given whether the destination file could be created:
    /// agree and receive the payload, or refuse and wait for the next marker.
    pub fn decide(&mut self, created: bool) -> (r: Vec<u8>)
        requires
            old(self).phase == ReceiverPhase::Decide,
        ensures
            r@ == (if created {
                agree_token()
            } else {
                disagree_token()
            }),
            final(self).phase == (if created {
                ReceiverPhase::Receive
            } else {
                ReceiverPhase::AwaitMarker
            }),
            final(self).file_size == old(self).file_size,
    {
        if created {
            self.phase = ReceiverPhase::Receive;
            agree_bytes()
        } else {
            self.phase = ReceiverPhase::AwaitMarker;
            disagree_bytes()
        }
    }

    /// Records that the accepted file's payload has arrived.
    pub fn file_received(&mut self)
        requires
            old(self).phase == ReceiverPhase::Receive,
        ensures
            final(self).phase == ReceiverPhase::AwaitMarker,
    {
        self.phase = ReceiverPhase::AwaitMarker;
    }
}

/// A requesting peer refused at the handshake ends the session with the
/// no-server error and never reaches a file: its session is over.
pub proof fn lemma_refused_handshake_is_fatal(received: Seq<u8>)
    requires
        received == disagree_token(),
    ensures
        answer_of(received) == Some(Answer::Disagree),
        phase_after_handshake(received) == ReceiverPhase::Failed,
        phase_after_handshake(received).is_over(),
{
    assert(agree_token()[0] != disagree_token()[0]);
}

} // verus!
