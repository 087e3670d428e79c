//! The decisions of reading the next hub frame off a websocket: the frames
//! already received wait in a queue; each transport event either feeds the
//! queue, asks for a pong, or ends the read with an error.
use std::collections::VecDeque;
use std::string::FromUtf8Error;

use vstd::prelude::*;
use vstd::utf8::{decode_utf8, valid_utf8};

use crate::framing::{
    frames_of, framed_all, lemma_drop_empty_keeps_non_empty, lemma_framed_all_frames, non_empty,
    queue_signalr_frames, separator_free,
};

verus! {

#[verifier::external_type_specification]
#[verifier::external_body]
pub struct ExFromUtf8Error(FromUtf8Error);

/// `String::from_utf8`: succeeds exactly on valid UTF-8, and then holds the
/// characters that the bytes encode. What the error value holds is left unsaid.
#[verifier::external_body]
fn string_from_utf8(bytes: Vec<u8>) -> (r: Result<String, FromUtf8Error>)
    ensures
        r is Ok <==> valid_utf8(bytes@),
        r matches Ok(s) ==> s@ == decode_utf8(bytes@),
{
    String::from_utf8(bytes)
}

/// What the websocket delivered while a frame was awaited.
pub enum TransportEvent {
    /// A text message
    Text(String),
    /// A binary message
    Binary(Vec<u8>),
    /// A ping, with its payload
    Ping(Vec<u8>),
    /// A pong
    Pong,
    /// A raw frame
    Frame,
    /// A close message; the text is the close frame as `Debug` prints it
    Close(String),
    /// The stream ended
    Ended,
}

/// Why reading a frame failed.
#[derive(Debug)]
pub enum ReadError {
    /// The stream ended before a frame arrived
    Closed,
    /// The peer closed the connection; the close frame as `Debug` prints it
    ClosedByPeer(String),
    /// A binary message was not UTF-8
    InvalidUtf8(FromUtf8Error),
}

/// The text an error of the string kinds reports itself with.
pub open spec fn read_error_message(e: ReadError) -> Seq<char> {
    match e {
        ReadError::Closed => "websocket closed"@,
        ReadError::ClosedByPeer(frame) => "websocket closed by peer: "@ + frame@,
        ReadError::InvalidUtf8(_) => Seq::<char>::empty(),
    }
}

impl ReadError {
    /// The message of a string error, as the reader reports it; `None` for
    /// an encoding error, which reports itself.
    pub fn message(&self) -> (r: Option<String>)
        ensures
            (self is InvalidUtf8) <==> r is None,
            r matches Some(m) ==> m@ == read_error_message(*self),
    {
        match self {
            ReadError::Closed => Some("websocket closed".to_owned()),
            ReadError::ClosedByPeer(frame) => {
                let mut m = "websocket closed by peer: ".to_owned();
                m.append(frame.as_str());
                Some(m)
            },
            ReadError::InvalidUtf8(_) => None,
        }
    }
}

/// What the reader does after a transport event.
#[derive(Debug)]
pub enum ReadStep {
    /// Check the queue, then wait for the next event
    Continue,
    /// Answer with a pong that carries this payload, then go on as for `Continue`
    SendPong(Vec<u8>),
    /// Stop with this error
    Fail(ReadError),
}

/// Takes the oldest queued frame, if any.
pub fn next_queued_frame(frames: &mut VecDeque<String>) -> (r: Option<String>)
    ensures
        old(frames)@.len() == 0 ==> r is None && final(frames)@ == old(frames)@,
        old(frames)@.len() > 0 ==> r == Some(old(frames)@[0]) && final(frames)@ == old(
            frames,
        )@.drop_first(),
{
    let r = frames.pop_front();
    proof {
        if old(frames)@.len() > 0 {
            assert(old(frames)@.subrange(1, old(frames)@.len() as int) =~= old(frames)@.drop_first());
        }
    }
    r
}

/// Handles one transport event: text queues the frames it carries, binary
/// does the same once decoded as UTF-8, a ping asks for a pong, and a close
/// or the end of the stream fails the read.
pub fn handle_transport_event(event: TransportEvent, frames: &mut VecDeque<String>) -> (step:
    ReadStep)
    ensures
        match event {
            TransportEvent::Text(t) => {
                &&& step is Continue
                &&& final(frames).deep_view() == old(frames).deep_view() + frames_of(t@)
            },
            TransportEvent::Binary(b) => if valid_utf8(b@) {
                &&& step is Continue
                &&& final(frames).deep_view() == old(frames).deep_view() + frames_of(decode_utf8(b@))
            } else {
                &&& step matches ReadStep::Fail(ReadError::InvalidUtf8(_))
                &&& final(frames)@ == old(frames)@
            },
            TransportEvent::Ping(p) => {
                &&& step == ReadStep::SendPong(p)
                &&& final(frames)@ == old(frames)@
            },
            TransportEvent::Pong => step is Continue && final(frames)@ == old(frames)@,
            TransportEvent::Frame => step is Continue && final(frames)@ == old(frames)@,
            TransportEvent::Close(d) => {
                &&& step == ReadStep::Fail(ReadError::ClosedByPeer(d))
                &&& final(frames)@ == old(frames)@
            },
            TransportEvent::Ended => {
                &&& step == ReadStep::Fail(ReadError::Closed)
                &&& final(frames)@ == old(frames)@
            },
        },
{
    match event {
        TransportEvent::Text(t) => {
            queue_signalr_frames(t.as_str(), frames);
            ReadStep::Continue
        },
        TransportEvent::Binary(b) => match string_from_utf8(b) {
            Ok(t) => {
                queue_signalr_frames(t.as_str(), frames);
                ReadStep::Continue
            },
            Err(e) => ReadStep::Fail(ReadError::InvalidUtf8(e)),
        },
        TransportEvent::Ping(p) => ReadStep::SendPong(p),
        TransportEvent::Pong => ReadStep::Continue,
        TransportEvent::Frame => ReadStep::Continue,
        TransportEvent::Close(d) => ReadStep::Fail(ReadError::ClosedByPeer(d)),
        TransportEvent::Ended => ReadStep::Fail(ReadError::Closed),
    }
}

} // verus!

verus! {

/// A text message that carries payloads, each framed, queues exactly those
/// payloads behind the frames already waiting, in the order they were written.
pub proof fn lemma_text_queues_framed_payloads(queued: Seq<Seq<char>>, payloads: Seq<Seq<char>>)
    requires
        forall|i: int|
            0 <= i < payloads.len() ==> non_empty(#[trigger] payloads[i]) && separator_free(
                payloads[i],
            ),
    ensures
        queued + frames_of(framed_all(payloads)) == queued + payloads,
{
    assert forall|i: int| 0 <= i < payloads.len() implies separator_free(#[trigger] payloads[i]) by {}
    lemma_framed_all_frames(payloads);
    lemma_drop_empty_keeps_non_empty(payloads);
}

} // verus!
