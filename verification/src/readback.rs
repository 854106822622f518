use vstd::prelude::*;
use crate::compute::{BufferId, Command, CommandEncoder};

verus! {

/// How the mapping of the staging buffer ended.
#[derive(Debug)]
pub enum Completion {
    /// The device finished the copy; these are the bytes it copied.
    Mapped(Vec<u8>),
    /// The mapping was denied or cancelled.
    Denied,
}

/// The host's side of reading a device buffer back without waiting for it:
/// the buffer that is read, and what was last read from it.
#[derive(Debug)]
pub struct ReadbackChannel {
    /// The device buffer that is read back.
    pub source: BufferId,
    /// The number of bytes that are read back.
    pub size: u64,
    /// The bytes of the last read-back that arrived: the last known good value.
    pub latest: Vec<u8>,
}

impl ReadbackChannel {
    /// A channel for the first `size` bytes of `source`, with nothing read yet.
    pub fn new(source: BufferId, size: u64) -> (channel: ReadbackChannel)
        ensures
            channel.source == source,
            channel.size == size,
            channel.latest@ == Seq::<u8>::empty(),
    {
        ReadbackChannel { source, size, latest: Vec::new() }
    }

    /// Records the copy of the source buffer to the staging buffer. What the
    /// channel holds stays as it is until the copy is reported complete.
    pub fn request(&self, encoder: &mut CommandEncoder)
        ensures
            final(encoder)@ == old(encoder)@.push(
                Command::CopyBuffer {
                    source: self.source,
                    destination: BufferId::Staging,
                    size: self.size,
                },
            ),
    {
        encoder.record(
            Command::CopyBuffer { source: self.source, destination: BufferId::Staging, size: self.size },
        );
    }

    /// Takes the outcome of a read-back. The bytes are kept if the mapping
    /// succeeded and the destination was free; if the mapping was denied, or
    /// the destination was held by its reader, the update is dropped and the
    /// last known good value stays.
    pub fn complete(&mut self, completion: Completion, destination_free: bool) -> (updated: bool)
        ensures
            updated <==> completion is Mapped && destination_free,
            updated ==> final(self).latest@ == completion->Mapped_0@,
            !updated ==> final(self).latest@ == old(self).latest@,
            final(self).source == old(self).source,
            final(self).size == old(self).size,
    {
        match completion {
            Completion::Mapped(bytes) => {
                if destination_free {
                    self.latest = bytes;
                    true
                } else {
                    false
                }
            },
            Completion::Denied => false,
        }
    }
}

} // verus!
