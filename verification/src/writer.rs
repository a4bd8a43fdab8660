//! The byte sink behind a session's terminal. The terminal library writes
//! escape sequences into it and flushes at the end of each frame; the bytes
//! gathered since the last send then go to the SSH client in one message.
use vstd::prelude::*;

verus! {

/// `russh::ChannelId`, carried through opaquely.
#[verifier::external_type_specification]
#[verifier::external_body]
pub struct ExChannelId(russh::ChannelId);

/// `russh::server::Handle`, carried through opaquely.
#[verifier::external_type_specification]
#[verifier::external_body]
pub struct ExServerHandle(russh::server::Handle);

/// `<russh::ChannelId as Clone>::clone`: `ChannelId` is `Copy` and derives
/// `Clone`, so the clone is the same id.
pub assume_specification[ <russh::ChannelId as Clone>::clone ](id: &russh::ChannelId) -> (copy:
    russh::ChannelId)
    ensures
        copy == *id,
;

/// `<russh::server::Handle as Clone>::clone`: the derived clone of the
/// handle's senders, a second handle to the same session. Nothing is claimed
/// of it, since a handle shows nothing of itself.
pub assume_specification[ <russh::server::Handle as Clone>::clone ](handle: &russh::server::Handle) -> russh::server::Handle;

/// `std::io::Error`, named by the `std::io::Write` impls; never produced here.
#[verifier::external_type_specification]
#[verifier::external_body]
pub struct ExIoError(std::io::Error);

/// The bytes written since the last send, and whether a flush was asked for.
#[derive(Clone)]
pub struct FrameSink {
    flushing: bool,
    bytes: Vec<u8>,
}

/// The bytes still to send after `buf` is written on top of `pending`.
pub open spec fn after_write(pending: Seq<u8>, buf: Seq<u8>) -> Seq<u8> {
    pending + buf
}

/// What a send hands over, given what is pending and whether a flush was asked.
pub open spec fn send_result(pending: Seq<u8>, flushing: bool) -> Option<Seq<u8>> {
    if flushing {
        Some(pending)
    } else {
        None
    }
}

/// What stays pending after a send.
pub open spec fn pending_after_send(pending: Seq<u8>, flushing: bool) -> Seq<u8> {
    if flushing {
        Seq::<u8>::empty()
    } else {
        pending
    }
}

impl FrameSink {
    /// The bytes written since the last send.
    pub closed spec fn pending(&self) -> Seq<u8> {
        self.bytes@
    }

    /// Whether a flush was asked for since the last send.
    pub closed spec fn is_flushing(&self) -> bool {
        self.flushing
    }

    /// A sink with nothing pending.
    pub fn new() -> (sink: Self)
        ensures
            sink.pending() == Seq::<u8>::empty(),
            !sink.is_flushing(),
    {
        FrameSink { flushing: false, bytes: Vec::new() }
    }

    /// How many bytes are pending.
    pub fn pending_len(&self) -> (len: usize)
        ensures
            len == self.pending().len(),
    {
        self.bytes.len()
    }

    /// Whether a flush was asked for since the last send.
    pub fn flushing(&self) -> (flushing: bool)
        ensures
            flushing == self.is_flushing(),
    {
        self.flushing
    }

    /// Appends all of `buf`.
    pub fn push_bytes(&mut self, buf: &[u8])
        ensures
            final(self).pending() == after_write(old(self).pending(), buf@),
            final(self).is_flushing() == old(self).is_flushing(),
    {
        self.bytes.extend_from_slice(buf);
        assert(self.bytes@ =~= old(self).bytes@ + buf@);
    }

    /// Marks the pending bytes as ready to send.
    pub fn mark_flush(&mut self)
        ensures
            final(self).is_flushing(),
            final(self).pending() == old(self).pending(),
    {
        self.flushing = true;
    }

    /// Hands over the pending bytes when a flush was asked for since the last
    /// send, leaving nothing pending; otherwise hands over nothing and changes
    /// nothing.
    pub fn take_for_send(&mut self) -> (data: Option<Vec<u8>>)
        ensures
            match data {
                Some(bytes) => send_result(old(self).pending(), old(self).is_flushing()) == Some(
                    bytes@,
                ),
                None => send_result(old(self).pending(), old(self).is_flushing()) is None,
            },
            final(self).pending() == pending_after_send(
                old(self).pending(),
                old(self).is_flushing(),
            ),
            !final(self).is_flushing(),
    {
        if !self.flushing {
            return None;
        }
        let mut data: Vec<u8> = Vec::new();
        std::mem::swap(&mut data, &mut self.bytes);
        self.flushing = false;
        Some(data)
    }

    /// Hands over whatever is pending, flushed or not; nothing when nothing is
    /// pending, in which case nothing changes.
    pub fn take_for_background(&mut self) -> (data: Option<Vec<u8>>)
        ensures
            old(self).pending().len() == 0 ==> {
                &&& data is None
                &&& final(self).pending() == old(self).pending()
                &&& final(self).is_flushing() == old(self).is_flushing()
            },
            old(self).pending().len() > 0 ==> {
                &&& data matches Some(bytes) && bytes@ == old(self).pending()
                &&& final(self).pending() == Seq::<u8>::empty()
                &&& !final(self).is_flushing()
            },
    {
        if self.bytes.len() == 0 {
            return None;
        }
        let mut data: Vec<u8> = Vec::new();
        std::mem::swap(&mut data, &mut self.bytes);
        self.flushing = false;
        Some(data)
    }
}

impl std::io::Write for FrameSink {
    /// Appends all of `buf`; never fails.
    fn write(&mut self, buf: &[u8]) -> (written: std::io::Result<usize>)
        ensures
            written == Ok::<usize, std::io::Error>(buf@.len() as usize),
            final(self).pending() == after_write(old(self).pending(), buf@),
            final(self).is_flushing() == old(self).is_flushing(),
    {
        self.push_bytes(buf);
        Ok(buf.len())
    }

    /// Marks the pending bytes as ready to send; never fails.
    fn flush(&mut self) -> (flushed: std::io::Result<()>)
        ensures
            flushed == Ok::<(), std::io::Error>(()),
            final(self).is_flushing(),
            final(self).pending() == old(self).pending(),
    {
        self.mark_flush();
        Ok(())
    }
}

/// Buffer of bytes destined for one channel of an SSH client. The terminal
/// library writes into it and flushes at the end of a frame; the caller then
/// sends what `take_for_send` hands over through `handle()`.
#[derive(Clone)]
pub struct SSHWriterProxy {
    channel_id: russh::ChannelId,
    handle: russh::server::Handle,
    sink: FrameSink,
}

impl SSHWriterProxy {
    /// The bytes written since the last send.
    pub closed spec fn pending(&self) -> Seq<u8> {
        self.sink.pending()
    }

    /// Whether a flush was asked for since the last send.
    pub closed spec fn is_flushing(&self) -> bool {
        self.sink.is_flushing()
    }

    /// The channel the bytes go to.
    pub closed spec fn channel(&self) -> russh::ChannelId {
        self.channel_id
    }

    /// The session handle the bytes go through.
    pub closed spec fn session(&self) -> russh::server::Handle {
        self.handle
    }

    /// A proxy with nothing pending for `channel_id` of the session `handle`.
    pub fn new(channel_id: russh::ChannelId, handle: russh::server::Handle) -> (proxy: Self)
        ensures
            proxy.pending() == Seq::<u8>::empty(),
            !proxy.is_flushing(),
            proxy.channel() == channel_id,
            proxy.session() == handle,
    {
        SSHWriterProxy { channel_id, handle, sink: FrameSink::new() }
    }

    /// The channel the bytes go to.
    pub fn channel_id(&self) -> (id: russh::ChannelId)
        ensures
            id == self.channel(),
    {
        self.channel_id
    }

    /// The session handle the bytes go through.
    pub fn handle(&self) -> (handle: &russh::server::Handle)
        ensures
            *handle == self.session(),
    {
        &self.handle
    }

    /// How many bytes are pending.
    pub fn pending_len(&self) -> (len: usize)
        ensures
            len == self.pending().len(),
    {
        self.sink.pending_len()
    }

    /// Whether a flush was asked for since the last send.
    pub fn flushing(&self) -> (flushing: bool)
        ensures
            flushing == self.is_flushing(),
    {
        self.sink.flushing()
    }

    /// As `FrameSink::take_for_send`; the channel and session stay.
    pub fn take_for_send(&mut self) -> (data: Option<Vec<u8>>)
        ensures
            final(self).channel() == old(self).channel(),
            final(self).session() == old(self).session(),
            match data {
                Some(bytes) => send_result(old(self).pending(), old(self).is_flushing()) == Some(
                    bytes@,
                ),
                None => send_result(old(self).pending(), old(self).is_flushing()) is None,
            },
            final(self).pending() == pending_after_send(
                old(self).pending(),
                old(self).is_flushing(),
            ),
            !final(self).is_flushing(),
    {
        self.sink.take_for_send()
    }

    /// As `FrameSink::take_for_background`; the channel and session stay.
    pub fn take_for_background(&mut self) -> (data: Option<Vec<u8>>)
        ensures
            final(self).channel() == old(self).channel(),
            final(self).session() == old(self).session(),
            old(self).pending().len() == 0 ==> {
                &&& data is None
                &&& final(self).pending() == old(self).pending()
                &&& final(self).is_flushing() == old(self).is_flushing()
            },
            old(self).pending().len() > 0 ==> {
                &&& data matches Some(bytes) && bytes@ == old(self).pending()
                &&& final(self).pending() == Seq::<u8>::empty()
                &&& !final(self).is_flushing()
            },
    {
        self.sink.take_for_background()
    }
}

impl std::io::Write for SSHWriterProxy {
    /// Appends all of `buf`; never fails.
    fn write(&mut self, buf: &[u8]) -> (written: std::io::Result<usize>)
        ensures
            written == Ok::<usize, std::io::Error>(buf@.len() as usize),
            final(self).pending() == after_write(old(self).pending(), buf@),
            final(self).is_flushing() == old(self).is_flushing(),
            final(self).channel() == old(self).channel(),
            final(self).session() == old(self).session(),
    {
        self.sink.push_bytes(buf);
        Ok(buf.len())
    }

    /// Marks the pending bytes as ready to send; never fails.
    fn flush(&mut self) -> (flushed: std::io::Result<()>)
        ensures
            flushed == Ok::<(), std::io::Error>(()),
            final(self).is_flushing(),
            final(self).pending() == old(self).pending(),
            final(self).channel() == old(self).channel(),
            final(self).session() == old(self).session(),
    {
        self.sink.mark_flush();
        Ok(())
    }
}

/// What a send hands over after writes and a flush is exactly what was
/// pending followed by every byte written, in order.
pub proof fn lemma_flushed_writes_are_sent(pending: Seq<u8>, first: Seq<u8>, second: Seq<u8>)
    ensures
        send_result(after_write(after_write(pending, first), second), true) == Some(
            pending + first + second,
        ),
{
    assert(after_write(after_write(pending, first), second) =~= pending + first + second);
}

/// Nothing is sent twice: right after a send, another send hands over
/// nothing, and a send after more writes and a flush hands over only those.
pub proof fn lemma_sent_once(pending: Seq<u8>, flushing: bool, later: Seq<u8>)
    ensures
        send_result(pending_after_send(pending, flushing), false) is None,
        flushing ==> send_result(after_write(pending_after_send(pending, flushing), later), true)
            == Some(later),
{
    if flushing {
        assert(after_write(pending_after_send(pending, flushing), later) =~= later);
    }
}

/// Writing nothing changes nothing that is pending.
pub proof fn lemma_empty_write(pending: Seq<u8>)
    ensures
        after_write(pending, Seq::<u8>::empty()) == pending,
{
    assert(after_write(pending, Seq::<u8>::empty()) =~= pending);
}

} // verus!
