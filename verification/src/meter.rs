//! Stream classification for the audio backend's meters.

use vstd::prelude::*;

verus! {

/// Which kind of audio stream a meter shows.
#[derive(Clone, Copy, Debug, PartialEq, Eq, Structural)]
pub enum StreamType {
    Sink,
    SinkInput,
    Source,
    SourceOutput,
}

impl Default for StreamType {
    /// The default stream kind is the output sink.
    fn default() -> (r: StreamType)
        ensures
            r == StreamType::Sink,
    {
        StreamType::Sink
    }
}

} // verus!
