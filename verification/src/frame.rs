//! Frames of the browser transport and the frame stream that numbers and
//! caches what it yields.

use vstd::prelude::*;
use std::collections::HashMap;
use bytes::Bytes;

verus! {

/// Size of the frames the worker stream yields.
pub const STREAM_FRAME_SIZE: usize = 1024;

/// The kinds of RSocket frames.
#[derive(PartialEq, Eq, Structural, Debug, Clone, Copy)]
pub enum FrameType {
    Setup,
    RequestResponse,
    RequestStream,
    RequestChannel,
    RequestFnf,
    Payload,
    Error,
    Cancel,
    KeepAlive,
}

/// A frame: its kind and its payload bytes.
pub struct Frame {
    pub payload: Bytes,
    pub frame_type: FrameType,
}

impl Frame {
    /// A frame of the given kind carrying the payload.
    pub fn new(frame_type: FrameType, payload: Bytes) -> (f: Frame)
        ensures
            f.frame_type == frame_type,
            f.payload == payload,
    {
        Frame { payload, frame_type }
    }

    /// The payload.
    pub fn payload(&self) -> (p: &Bytes)
        ensures
            *p == self.payload,
    {
        &self.payload
    }

    /// The kind.
    pub fn frame_type(&self) -> (t: FrameType)
        ensures
            t == self.frame_type,
    {
        self.frame_type
    }
}

/// A frame of `STREAM_FRAME_SIZE` zero bytes.
pub open spec fn blank_frame() -> Seq<u8> {
    Seq::new(STREAM_FRAME_SIZE as nat, |i: int| 0u8)
}

/// A frame of `STREAM_FRAME_SIZE` zero bytes, as the receiving side yields
/// and the benchmark sends.
pub fn blank_frame_bytes() -> (v: Vec<u8>)
    ensures
        v@ == blank_frame(),
{
    zero_bytes(STREAM_FRAME_SIZE)
}

/// A vector of `n` zero bytes.
fn zero_bytes(n: usize) -> (v: Vec<u8>)
    ensures
        v@ == Seq::new(n as nat, |i: int| 0u8),
{
    let mut v: Vec<u8> = Vec::new();
    let mut i: usize = 0;
    while i < n
        invariant
            0 <= i <= n,
            v@ == Seq::new(i as nat, |k: int| 0u8),
        decreases n - i,
    {
        v.push(0);
        i = i + 1;
        assert(v@ =~= Seq::new(i as nat, |k: int| 0u8));
    }
    v
}

/// The receiving side of a worker-backed connection: it numbers the frames
/// it yields and keeps each under its number.
pub struct IrohWasmWebWorkersFrameStream {
    frame_cache: HashMap<u32, Vec<u8>>,
    next_frame_id: u32,
}

impl IrohWasmWebWorkersFrameStream {
    /// The number of the last frame yielded (1 before any).
    pub closed spec fn last_id(&self) -> u32 {
        self.next_frame_id
    }

    /// The cached frames by number.
    pub closed spec fn cache(&self) -> Map<u32, Seq<u8>> {
        Map::new(
            |k: u32| self.frame_cache@.contains_key(k),
            |k: u32| self.frame_cache@[k]@,
        )
    }

    /// A stream that has yielded nothing.
    pub fn new() -> (s: IrohWasmWebWorkersFrameStream)
        ensures
            s.last_id() == 1,
            s.cache() == Map::<u32, Seq<u8>>::empty(),
    {
        let s = IrohWasmWebWorkersFrameStream { frame_cache: HashMap::new(), next_frame_id: 1 };
        assert(s.cache() =~= Map::<u32, Seq<u8>>::empty());
        s
    }

    /// Yields the next frame, a blank 1 KiB frame, and caches it under the
    /// next number. The numbers must not run out.
    pub fn next(&mut self) -> (res: Option<Vec<u8>>)
        requires
            old(self).last_id() < u32::MAX,
        ensures
            final(self).last_id() == old(self).last_id() + 1,
            final(self).cache() == old(self).cache().insert(final(self).last_id(), blank_frame()),
            res matches Some(f) && f@ == blank_frame(),
    {
        self.next_frame_id = self.next_frame_id + 1;
        let frame_id = self.next_frame_id;
        let simulated = blank_frame_bytes();
        let cached = blank_frame_bytes();
        self.frame_cache.insert(frame_id, cached);
        assert(self.cache() =~= old(self).cache().insert(frame_id, blank_frame()));
        Some(simulated)
    }
}

} // verus!
