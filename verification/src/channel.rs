//! The framed channel: the state of one connection, without the connection.
//!
//! The caller owns the socket. It hands in the bytes that it read and asks
//! for frames; it reports a failed read, and the channel is closed from then
//! on.

use crate::codec::{decode, encode, encoded, is_decoded_frame, FromJson, ToJson};
use crate::error::{io_error, ErrorKind, TransportFault};
use crate::framing::{
    empty_state, first_frame, has_frame, state_after_frame, state_after_push, FrameBuffer,
    FrameState,
};
use vstd::prelude::*;

verus! {

/// The model of a channel.
pub struct ChannelView {
    /// Whether the channel is still open.
    pub open: bool,
    /// Whether its connection is in non-blocking mode.
    pub non_blocking: bool,
    /// The bytes received and not yet handed out as frames.
    pub frames: FrameState,
}

/// One framed connection.
pub struct FramedChannel {
    open: bool,
    non_blocking: bool,
    frames: FrameBuffer,
}

impl View for FramedChannel {
    type V = ChannelView;

    closed spec fn view(&self) -> ChannelView {
        ChannelView { open: self.open, non_blocking: self.non_blocking, frames: self.frames@ }
    }
}

/// Whether `outcome` is what receiving a frame gives on a channel in the
/// state `channel`: `Disconnected` on a closed channel, the first frame
/// where a whole one is pending, and `WouldBlock` otherwise.
pub open spec fn is_received_frame(
    outcome: Result<Vec<u8>, ErrorKind>,
    channel: ChannelView,
) -> bool {
    match outcome {
        Ok(frame) => channel.open && has_frame(channel.frames) && frame@ == first_frame(
            channel.frames,
        ),
        Err(ErrorKind::WouldBlock) => channel.open && !has_frame(channel.frames),
        Err(ErrorKind::Disconnected(_)) => !channel.open,
        Err(_) => false,
    }
}

impl FramedChannel {
    /// An open channel in blocking mode that has received nothing.
    pub fn new() -> (channel: FramedChannel)
        ensures
            channel@ == (ChannelView { open: true, non_blocking: false, frames: empty_state() }),
    {
        FramedChannel { open: true, non_blocking: false, frames: FrameBuffer::new() }
    }

    /// Whether the channel is open.
    pub fn is_open(&self) -> (open: bool)
        ensures
            open == self@.open,
    {
        self.open
    }

    /// Whether the connection is in non-blocking mode.
    pub fn is_non_blocking(&self) -> (non_blocking: bool)
        ensures
            non_blocking == self@.non_blocking,
    {
        self.non_blocking
    }

    /// Notes the mode of the connection.
    pub fn set_nonblocking(&mut self, non_blocking: bool)
        ensures
            final(self)@ == (ChannelView { non_blocking, ..old(self)@ }),
    {
        self.non_blocking = non_blocking;
    }

    /// Takes in bytes that were read from the connection. On a closed
    /// channel they are dropped, and the result is `Disconnected`.
    pub fn feed(&mut self, bytes: &[u8]) -> (fed: Result<(), ErrorKind>)
        ensures
            fed is Ok <==> old(self)@.open,
            fed is Err ==> fed matches Err(ErrorKind::Disconnected(_)),
            fed is Err ==> final(self)@ == old(self)@,
            fed is Ok ==> final(self)@ == (ChannelView {
                frames: state_after_push(old(self)@.frames, bytes@),
                ..old(self)@
            }),
    {
        if !self.open {
            return Err(ErrorKind::Disconnected(io_error(TransportFault::NotConnected)));
        }
        self.frames.push_bytes(bytes);
        Ok(())
    }

    /// Takes in what one read on the connection gave. A read that gave no
    /// bytes means that the peer has closed the connection: that is a
    /// transport failure, and the channel is closed. On a closed channel the
    /// bytes are dropped. Either failure is reported as `Disconnected`.
    pub fn read_gave(&mut self, bytes: &[u8]) -> (taken: Result<(), ErrorKind>)
        ensures
            taken is Ok <==> old(self)@.open && bytes@.len() > 0,
            taken is Err ==> taken matches Err(ErrorKind::Disconnected(_)),
            taken is Ok ==> final(self)@ == (ChannelView {
                frames: state_after_push(old(self)@.frames, bytes@),
                ..old(self)@
            }),
            taken is Err ==> final(self)@ == (ChannelView { open: false, ..old(self)@ }),
    {
        if !self.open {
            return Err(ErrorKind::Disconnected(io_error(TransportFault::NotConnected)));
        }
        if bytes.len() == 0 {
            self.open = false;
            return Err(ErrorKind::Disconnected(io_error(TransportFault::EndOfInput)));
        }
        self.frames.push_bytes(bytes);
        Ok(())
    }

    /// Takes in that a read on the connection failed, and says what the
    /// caller is to report. A read that would block is no failure: the
    /// channel stays as it is, and the report is `WouldBlock`. Any other
    /// failed read closes the channel, and the report is `Disconnected` with
    /// the error of the read.
    pub fn read_failed(&mut self, would_block: bool, error: std::io::Error) -> (reported: ErrorKind)
        ensures
            would_block ==> reported is WouldBlock && final(self)@ == old(self)@,
            !would_block ==> reported == ErrorKind::Disconnected(error) && final(self)@
                == (ChannelView { open: false, ..old(self)@ }),
    {
        if would_block {
            ErrorKind::WouldBlock
        } else {
            self.open = false;
            ErrorKind::Disconnected(error)
        }
    }

    /// Hands out the next frame. Where no whole frame is pending the result
    /// is `WouldBlock`, which is no failure: more bytes have to arrive. On a
    /// closed channel the result is `Disconnected`.
    pub fn receive_frame(&mut self) -> (outcome: Result<Vec<u8>, ErrorKind>)
        ensures
            is_received_frame(outcome, old(self)@),
            outcome is Ok ==> final(self)@ == (ChannelView {
                frames: state_after_frame(old(self)@.frames),
                ..old(self)@
            }),
            outcome is Err ==> final(self)@ == old(self)@,
    {
        if !self.open {
            return Err(ErrorKind::Disconnected(io_error(TransportFault::NotConnected)));
        }
        match self.frames.next_frame() {
            Some(frame) => Ok(frame),
            None => Err(ErrorKind::WouldBlock),
        }
    }

    /// Receives a frame and decodes it as a `T`.
    pub fn recv<T: FromJson>(&mut self) -> (outcome: Result<T, ErrorKind>)
        ensures
            exists|received: Result<Vec<u8>, ErrorKind>| #[trigger]
                is_received_frame(received, old(self)@) && match received {
                    Ok(frame) => is_decoded_frame(outcome, frame@) && final(self)@
                        == (ChannelView {
                        frames: state_after_frame(old(self)@.frames),
                        ..old(self)@
                    }),
                    Err(error) => outcome == Err::<T, ErrorKind>(error) && final(self)@ == old(
                        self,
                    )@,
                },
    {
        let received = self.receive_frame();
        assert(is_received_frame(received, old(self)@));
        match received {
            Ok(frame) => decode(frame.as_slice()),
            Err(error) => Err(error),
        }
    }

    /// The text to send for a message. On a closed channel nothing is to be
    /// sent, and the result is `Disconnected`.
    pub fn send<S: ToJson>(&self, message: &S) -> (text: Result<Vec<u8>, ErrorKind>)
        ensures
            text is Ok <==> self@.open,
            text matches Ok(bytes) ==> bytes@ == encoded(*message),
            text is Err ==> text matches Err(ErrorKind::Disconnected(_)),
    {
        if !self.open {
            return Err(ErrorKind::Disconnected(io_error(TransportFault::NotConnected)));
        }
        Ok(encode(message))
    }

    /// Reports that the transport failed otherwise than in a read: in a
    /// write, or in setting the mode. The channel is closed, and the failure
    /// is handed back as the error `Disconnected`.
    pub fn fail(&mut self, error: std::io::Error) -> (reported: ErrorKind)
        ensures
            reported == ErrorKind::Disconnected(error),
            final(self)@ == (ChannelView { open: false, ..old(self)@ }),
    {
        self.open = false;
        ErrorKind::Disconnected(error)
    }

    /// Closes the channel. Every later operation on it fails.
    pub fn close(&mut self)
        ensures
            final(self)@ == (ChannelView { open: false, ..old(self)@ }),
    {
        self.open = false;
    }
}

} // verus!
