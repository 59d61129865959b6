//! The control protocol: one frame per connection, one message per frame.
//! A frame is a single tag byte, followed for a fan command by one speed
//! byte. Decoding is total over frames and fails closed on anything that is
//! not a known tag or is cut short.

use vstd::prelude::*;

verus! {

/// The tag byte of a stop request.
pub const TAG_STOP: u8 = 0;

/// The tag byte of a fan command; one speed byte follows it.
pub const TAG_FAN: u8 = 1;

/// A control message: stop the service, or set the fan to a speed.
#[derive(Clone, Copy, PartialEq, Eq, Structural, Debug)]
pub enum Message {
    Stop,
    Fan(u8),
}

/// Why a received frame was refused.
#[derive(Clone, Copy, PartialEq, Eq, Structural, Debug)]
pub enum ProtocolError {
    /// The leading byte names no known message.
    InvalidTag,
    /// The frame ended before the message was complete.
    Truncated,
}

/// The wire form of a message.
pub open spec fn encode_spec(m: Message) -> Seq<u8> {
    match m {
        Message::Stop => seq![TAG_STOP],
        Message::Fan(speed) => seq![TAG_FAN, speed],
    }
}

/// The message a frame carries. Exactly one message is read from the front
/// of the frame; bytes past it are left alone, as a reader that stops after
/// one message never sees them.
pub open spec fn decode_spec(frame: Seq<u8>) -> Result<Message, ProtocolError> {
    if frame.len() == 0 {
        Result::Err(ProtocolError::Truncated)
    } else if frame[0] == TAG_STOP {
        Result::Ok(Message::Stop)
    } else if frame[0] == TAG_FAN {
        if frame.len() >= 2 {
            Result::Ok(Message::Fan(frame[1]))
        } else {
            Result::Err(ProtocolError::Truncated)
        }
    } else {
        Result::Err(ProtocolError::InvalidTag)
    }
}

/// How many bytes a frame led by this tag occupies in all, or `None` for a
/// tag that names no message. A reader uses it to take exactly one frame off
/// a stream.
pub open spec fn frame_len_spec(tag: u8) -> Option<usize> {
    if tag == TAG_STOP {
        Option::Some(1usize)
    } else if tag == TAG_FAN {
        Option::Some(2usize)
    } else {
        Option::None
    }
}

impl Message {
    /// The exact bytes this message puts on the wire.
    pub fn encode(self) -> (frame: Vec<u8>)
        ensures
            frame@ == encode_spec(self),
    {
        let mut frame: Vec<u8> = Vec::new();
        match self {
            Message::Stop => {
                frame.push(TAG_STOP);
            },
            Message::Fan(speed) => {
                frame.push(TAG_FAN);
                frame.push(speed);
            },
        }
        proof {
            assert(frame@ =~= encode_spec(self));
        }
        frame
    }

    /// Reads the one message at the front of a frame, or says exactly why it
    /// cannot: an unknown leading byte, or a frame cut short.
    pub fn decode(frame: &Vec<u8>) -> (r: Result<Message, ProtocolError>)
        ensures
            r == decode_spec(frame@),
    {
        if frame.len() == 0 {
            Err(ProtocolError::Truncated)
        } else if frame[0] == TAG_STOP {
            Ok(Message::Stop)
        } else if frame[0] == TAG_FAN {
            if frame.len() >= 2 {
                Ok(Message::Fan(frame[1]))
            } else {
                Err(ProtocolError::Truncated)
            }
        } else {
            Err(ProtocolError::InvalidTag)
        }
    }
}

/// Total frame length for a leading tag; `None` refuses the tag.
pub fn frame_len(tag: u8) -> (r: Option<usize>)
    ensures
        r == frame_len_spec(tag),
{
    if tag == TAG_STOP {
        Some(1)
    } else if tag == TAG_FAN {
        Some(2)
    } else {
        None
    }
}

/// Round trip: any message, encoded and then decoded, comes back as itself.
pub proof fn lemma_round_trip(m: Message)
    ensures
        decode_spec(encode_spec(m)) == Result::<Message, ProtocolError>::Ok(m),
{
}

/// Fail closed: a frame whose leading byte names no message decodes to a
/// protocol error, never to a message; the frame's remaining bytes cannot
/// change that.
pub proof fn lemma_malformed_frame(frame: Seq<u8>)
    requires
        frame.len() > 0,
        frame[0] != TAG_STOP,
        frame[0] != TAG_FAN,
    ensures
        decode_spec(frame) == Result::<Message, ProtocolError>::Err(ProtocolError::InvalidTag),
{
}

} // verus!
