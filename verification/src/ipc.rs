//! A channel of datagrams between two processes on one machine.
//!
//! The process that comes first owns the socket, and the other one connects to it. What is sent and
//! what is received passes through one buffer.

use vstd::prelude::*;

verus! {

/// Where the socket is.
pub const SOCKET_PATH: &'static str = "/tmp/bevy.sock";

/// How many bytes a message can have.
pub const BUFFER_SIZE: usize = 8192;

/// What came of binding the socket.
#[derive(Clone, Copy, PartialEq, Eq, Structural, Debug)]
pub enum BindOutcome {
    Bound,
    AddrInUse,
    Failed,
}

/// What came of waiting for a message without blocking.
#[derive(Clone, Copy, PartialEq, Eq, Structural, Debug)]
pub enum RecvOutcome {
    /// This many bytes are at the front of the buffer.
    Received(usize),
    WouldBlock,
    Failed,
}

/// The system refused for a reason that cannot be dealt with.
#[derive(Clone, Copy, PartialEq, Eq, Structural, Debug)]
pub struct ChannelError;

/// One end of the channel.
pub struct IpcChannel {
    pub buffer: Vec<u8>,
    /// This end owns the socket, and removes it in the end.
    pub drop_socket: bool,
}

/// The buffer after a message was put to its front.
pub open spec fn staged(buffer: Seq<u8>, bytes: Seq<u8>) -> Seq<u8> {
    bytes + buffer.skip(bytes.len() as int)
}

impl IpcChannel {
    /// The buffer has the size that it was made with.
    pub open spec fn wf(&self) -> bool {
        self.buffer@.len() == BUFFER_SIZE
    }

    /// An end of the channel, once binding the socket was tried. Where another process owns the
    /// socket, this end is to connect to it.
    pub fn open(bound: BindOutcome) -> (channel: Result<Self, ChannelError>)
        ensures
            match bound {
                BindOutcome::Failed => channel is Err,
                _ => {
                    &&& channel is Ok
                    &&& channel->Ok_0.wf()
                    &&& channel->Ok_0.buffer@ == Seq::new(BUFFER_SIZE as nat, |i: int| 0u8)
                    &&& channel->Ok_0.drop_socket == (bound == BindOutcome::Bound)
                },
            },
    {
        let drop_socket = match bound {
            BindOutcome::Bound => true,
            BindOutcome::AddrInUse => false,
            BindOutcome::Failed => {
                return Err(ChannelError);
            },
        };
        let mut buffer: Vec<u8> = Vec::new();
        while buffer.len() < BUFFER_SIZE
            invariant
                buffer@.len() <= BUFFER_SIZE,
                buffer@ == Seq::new(buffer@.len(), |i: int| 0u8),
            decreases BUFFER_SIZE - buffer@.len(),
        {
            buffer.push(0);
            assert(buffer@ =~= Seq::new(buffer@.len(), |i: int| 0u8));
        }
        Ok(IpcChannel { buffer, drop_socket })
    }

    /// Puts an encoded message to the front of the buffer, from where it is sent. One that is too
    /// long is refused.
    pub fn send(&mut self, bytes: &Vec<u8>) -> (length: Result<usize, ChannelError>)
        ensures
            final(self).drop_socket == old(self).drop_socket,
            if bytes@.len() <= old(self).buffer@.len() {
                &&& length == Ok::<usize, ChannelError>(bytes@.len() as usize)
                &&& final(self).buffer@ == staged(old(self).buffer@, bytes@)
            } else {
                &&& length == Err::<usize, ChannelError>(ChannelError)
                &&& final(self).buffer@ == old(self).buffer@
            },
    {
        if bytes.len() > self.buffer.len() {
            return Err(ChannelError);
        }
        let ghost before = self.buffer@;
        let mut i: usize = 0;
        while i < bytes.len()
            invariant
                i <= bytes@.len() <= before.len(),
                self.buffer@ == staged(before, bytes@.take(i as int)),
                self.drop_socket == old(self).drop_socket,
            decreases bytes@.len() - i,
        {
            self.buffer.set(i, bytes[i]);
            i += 1;
            assert(self.buffer@ =~= staged(before, bytes@.take(i as int)));
        }
        assert(bytes@.take(i as int) =~= bytes@);
        Ok(bytes.len())
    }

    /// The encoded message that was received, if there is one.
    pub fn recv(&self, outcome: RecvOutcome) -> (message: Result<Option<Vec<u8>>, ChannelError>)
        requires
            outcome is Received ==> outcome->Received_0 <= self.buffer@.len(),
        ensures
            match outcome {
                RecvOutcome::Received(length) => {
                    &&& message is Ok
                    &&& message->Ok_0 is Some
                    &&& message->Ok_0->0@ == self.buffer@.take(length as int)
                },
                RecvOutcome::WouldBlock => message == Ok::<Option<Vec<u8>>, ChannelError>(None),
                RecvOutcome::Failed => message == Err::<Option<Vec<u8>>, ChannelError>(
                    ChannelError,
                ),
            },
    {
        let length: usize = match outcome {
            RecvOutcome::Received(length) => length,
            RecvOutcome::WouldBlock => {
                return Ok(None);
            },
            RecvOutcome::Failed => {
                return Err(ChannelError);
            },
        };
        let mut message: Vec<u8> = Vec::new();
        let mut i: usize = 0;
        while i < length
            invariant
                i <= length <= self.buffer@.len(),
                message@ == self.buffer@.take(i as int),
            decreases length - i,
        {
            message.push(self.buffer[i]);
            i += 1;
            assert(message@ =~= self.buffer@.take(i as int));
        }
        Ok(Some(message))
    }
}

/// A message that reaches the front of a buffer is read from there as it was sent.
pub proof fn law_message_is_read_as_sent(buffer: Seq<u8>, bytes: Seq<u8>)
    requires
        bytes.len() <= buffer.len(),
    ensures
        staged(buffer, bytes).len() == buffer.len(),
        staged(buffer, bytes).take(bytes.len() as int) == bytes,
{
    assert(staged(buffer, bytes).take(bytes.len() as int) =~= bytes);
}

/// A channel opens unless binding failed for a reason of its own, with room for a whole message. It is
/// the end that bound the socket that removes it.
pub proof fn law_who_binds_the_socket_removes_it(
    bound: BindOutcome,
    channel: Result<IpcChannel, ChannelError>,
)
    requires
        call_ensures(IpcChannel::open, (bound,), channel),
    ensures
        channel is Err <==> bound is Failed,
        channel is Ok ==> (channel->Ok_0.drop_socket <==> bound is Bound),
        channel is Ok ==> channel->Ok_0.buffer@.len() == 8192,
{
}

/// A message is refused only if it is longer than the buffer, and then nothing changes. Otherwise it
/// is sent at its full length, and read from the buffer at that length it is the message again.
pub proof fn law_message_passes_through_the_buffer(
    channel: &mut IpcChannel,
    bytes: &Vec<u8>,
    length: Result<usize, ChannelError>,
    after: &IpcChannel,
    message: Result<Option<Vec<u8>>, ChannelError>,
)
    requires
        call_ensures(IpcChannel::send, (channel, bytes), length),
        *after == *final(channel),
        length is Ok ==> call_ensures(
            IpcChannel::recv,
            (after, RecvOutcome::Received(length->Ok_0)),
            message,
        ),
    ensures
        length is Err <==> bytes@.len() > old(channel).buffer@.len(),
        length is Err ==> final(channel).buffer@ == old(channel).buffer@,
        length is Ok ==> {
            &&& length->Ok_0 == bytes@.len()
            &&& final(channel).buffer@.len() == old(channel).buffer@.len()
            &&& message is Ok
            &&& message->Ok_0 is Some
            &&& message->Ok_0->0@ == bytes@
        },
        final(channel).drop_socket == old(channel).drop_socket,
{
    if length is Ok {
        assert(bytes.len() == bytes@.len());
        law_message_is_read_as_sent(old(channel).buffer@, bytes@);
    }
}

/// What was received is read from the front of the buffer, byte for byte. Having received nothing is
/// no error, and everything else is one.
pub proof fn law_received_bytes_are_read(
    channel: &IpcChannel,
    outcome: RecvOutcome,
    message: Result<Option<Vec<u8>>, ChannelError>,
)
    requires
        call_ensures(IpcChannel::recv, (channel, outcome), message),
        outcome is Received ==> outcome->Received_0 <= channel.buffer@.len(),
    ensures
        message is Err <==> outcome is Failed,
        message is Ok ==> (message->Ok_0 is Some <==> outcome is Received),
        outcome is Received ==> {
            let bytes = message->Ok_0->0@;
            &&& bytes.len() == outcome->Received_0
            &&& forall|i: int|
                #![trigger bytes[i]]
                0 <= i < bytes.len() ==> bytes[i] == channel.buffer@[i]
        },
{
}

} // verus!
