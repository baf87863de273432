//! Framing of sealed envelopes on a byte stream.
use crate::errors::{error_text, Error};
use crate::message::compression::IoError;
use crate::message::envelope::{SealedEnvelope, MAX_MSG_SIZE, SEALED_ENVELOPE_MIN_SIZE};
use crate::text::{decimal, push_decimal, push_str};
use vstd::prelude::*;

verus! {

/// Frames sealed envelopes: each is read from, or written to, a byte stream, within size limits.
pub struct SealedEnvelopeCodec {
    max_msg_size: usize,
    min_msg_size: usize,
}

/// What the decoder asks for next.
pub enum DecodeStep {
    /// Too few bytes are buffered: wait for more.
    NeedMoreBytes,
    /// Try to decode an envelope from the first bytes of the buffer, up to the given count.
    Parse(usize),
}

/// The text of the error for a stream that holds no envelope within the size limit.
pub open spec fn too_large_text(max: nat, err: Seq<char>) -> Seq<char> {
    "message failed to be decoded within max message size limit: "@ + decimal(max) + " : "@ + err
}

/// The text of the error for an envelope that encodes to more bytes than the limit.
pub open spec fn max_exceeded_text(len: nat, max: nat) -> Seq<char> {
    "max message size exceeded: "@ + decimal(len) + " > "@ + decimal(max)
}

impl Default for SealedEnvelopeCodec {
    /// A codec with the default limits: 256 KB at most, 90 bytes at least.
    fn default() -> (c: SealedEnvelopeCodec)
        ensures
            c.spec_max() == MAX_MSG_SIZE,
            c.spec_min() == SEALED_ENVELOPE_MIN_SIZE,
    {
        SealedEnvelopeCodec { max_msg_size: MAX_MSG_SIZE, min_msg_size: SEALED_ENVELOPE_MIN_SIZE }
    }
}

impl SealedEnvelopeCodec {
    /// The largest message, in bytes.
    pub closed spec fn spec_max(&self) -> nat {
        self.max_msg_size as nat
    }

    /// The smallest message, in bytes.
    pub closed spec fn spec_min(&self) -> nat {
        self.min_msg_size as nat
    }

    /// constructor
    pub fn new(max_msg_size: usize) -> (c: SealedEnvelopeCodec)
        ensures
            c.spec_max() == max_msg_size,
            c.spec_min() == SEALED_ENVELOPE_MIN_SIZE,
    {
        SealedEnvelopeCodec { max_msg_size, min_msg_size: SEALED_ENVELOPE_MIN_SIZE }
    }

    /// The number of buffered bytes that a decode attempt looks at.
    pub open spec fn window(&self, buffered: nat) -> nat {
        if self.spec_max() < buffered {
            self.spec_max()
        } else {
            buffered
        }
    }

    /// The first decoding step: with `buffered` bytes in the buffer, look at up to the size
    /// limit of them; when that is fewer than the smallest message, wait for more bytes.
    pub fn decode_step(&self, buffered: usize) -> (r: DecodeStep)
        ensures
            self.window(buffered as nat) < self.spec_min() ==> r is NeedMoreBytes,
            self.window(buffered as nat) >= self.spec_min() ==> r == DecodeStep::Parse(
                self.window(buffered as nat) as usize,
            ),
    {
        let read_to = if self.max_msg_size < buffered {
            self.max_msg_size
        } else {
            buffered
        };
        if read_to < self.min_msg_size {
            DecodeStep::NeedMoreBytes
        } else {
            DecodeStep::Parse(read_to)
        }
    }

    /// The second decoding step, given what decoding the first `window` bytes of the buffer
    /// gave: the envelope and the number of bytes that it took, or the decoding error. A
    /// decoded envelope is returned and its bytes are dropped from the buffer. A failure is
    /// final when the window already holds the size limit: then it is an error; otherwise the
    /// buffer is kept, to try again when more bytes come in.
    pub fn decode(
        &self,
        buf: &mut Vec<u8>,
        window: usize,
        decoded: Result<(SealedEnvelope, usize), Error>,
    ) -> (r: Result<Option<SealedEnvelope>, IoError>)
        requires
            window == self.window(old(buf)@.len()),
            window >= self.spec_min(),
            decoded matches Ok((_, n)) ==> n <= window,
        ensures
            decoded matches Ok((env, n)) ==> r == Ok::<Option<SealedEnvelope>, IoError>(Some(env))
                && final(buf)@ == old(buf)@.subrange(n as int, old(buf)@.len() as int),
            decoded matches Err(e) ==> final(buf)@ == old(buf)@ && (if window == self.spec_max() {
                r matches Err(io) && io.message@ == too_large_text(self.spec_max(), error_text(e))
            } else {
                r matches Ok(None)
            }),
    {
        match decoded {
            Ok((env, n)) => {
                let rest = buf.split_off(n);
                *buf = rest;
                Ok(Some(env))
            },
            Err(err) => {
                if window == self.max_msg_size {
                    let mut msg = String::new();
                    push_str(&mut msg, "message failed to be decoded within max message size limit: ");
                    push_decimal(&mut msg, self.max_msg_size as u128);
                    push_str(&mut msg, " : ");
                    let t = err.to_string();
                    push_str(&mut msg, t.as_str());
                    Err(IoError { message: msg })
                } else {
                    Ok(None)
                }
            },
        }
    }

    /// Writes an envelope, given what encoding it gave: the bytes are appended to `dst` when
    /// they fit the size limit; an encoding failure, or too many bytes, is an error and leaves
    /// `dst` as it was.
    pub fn encode(&self, encoded: Result<Vec<u8>, Error>, dst: &mut Vec<u8>) -> (r: Result<(), IoError>)
        ensures
            encoded matches Err(e) ==> r matches Err(io) && io.message@ == error_text(e)
                && final(dst)@ == old(dst)@,
            encoded matches Ok(b) ==> if b@.len() > self.spec_max() {
                r matches Err(io) && io.message@ == max_exceeded_text(b@.len(), self.spec_max())
                    && final(dst)@ == old(dst)@
            } else {
                r is Ok && final(dst)@ == old(dst)@ + b@
            },
    {
        match encoded {
            Err(err) => Err(IoError { message: err.to_string() }),
            Ok(buf) => {
                if buf.len() > self.max_msg_size {
                    let mut msg = String::new();
                    push_str(&mut msg, "max message size exceeded: ");
                    push_decimal(&mut msg, buf.len() as u128);
                    push_str(&mut msg, " > ");
                    push_decimal(&mut msg, self.max_msg_size as u128);
                    return Err(IoError { message: msg });
                }
                dst.extend_from_slice(buf.as_slice());
                Ok(())
            },
        }
    }
}

/// Frames written to a stream come out in order: encoding a frame appends its bytes to the
/// buffer (see [`SealedEnvelopeCodec::encode`]), so the frames written in turn to an empty
/// buffer are its bytes one after another; decoding the first, whose bytes the parser
/// reports it took, drops exactly them (see [`SealedEnvelopeCodec::decode`]) and leaves the
/// later frames as they were written.
pub proof fn law_frames_in_order(frames: Seq<Seq<u8>>, next: Seq<u8>)
    ensures
        frames.flatten() + next == frames.push(next).flatten(),
        frames.len() > 0 ==> frames.flatten().subrange(frames[0].len() as int, frames.flatten().len() as int)
            == frames.drop_first().flatten(),
{
    frames.lemma_flatten_and_flatten_alt_are_equivalent();
    frames.push(next).lemma_flatten_and_flatten_alt_are_equivalent();
    assert(frames.push(next).drop_last() =~= frames);
    if frames.len() > 0 {
        assert(frames.flatten() == frames[0] + frames.drop_first().flatten());
        assert(frames.flatten().subrange(frames[0].len() as int, frames.flatten().len() as int)
            =~= frames.drop_first().flatten());
    }
}

} // verus!
