//! The frame: a single decoded media unit and its metadata.
//!
//! A frame either borrows a buffer record that some external stage owns,
//! or owns a freshly allocated one. The owning path must release the
//! record exactly once at end of life; the borrowing path must never
//! release it. Releasing consumes the frame, so a second release of the
//! same frame is impossible by construction, and the record's release
//! counter makes the discipline visible to callers.

use crate::buffer::Buffer;
use crate::dictionary::Dictionary;
use crate::dictionary::DictionaryRef;
use crate::flag::CORRUPT;
use crate::flag::Flags;
use crate::side_data::SideData;
use crate::side_data::Type;
use crate::side_data::find_side_data;
use crate::side_data::lemma_find_absent;
use crate::side_data::lemma_find_present;
use crate::side_data::without_kind;
use crate::timestamp::decode_timestamp;
use crate::timestamp::decoded_timestamp;
use crate::timestamp::encode_timestamp;
use crate::timestamp::encoded_timestamp;
use vstd::prelude::*;

verus! {

/// Most bytes a single side-data record may request; the extent rides in
/// an int-sized native field.
pub const MAX_SIDE_DATA_SIZE: usize = 0x7fff_ffff;

/// Most side-data records a frame may hold; the count rides in an
/// int-sized native field.
pub const MAX_SIDE_DATA_COUNT: usize = 0x7fff_ffff;

/// Packet data snapshotted from a frame: a read-only value recomputed on
/// demand, with no lifecycle of its own. The timestamps are raw,
/// sentinel-encoded fields.
#[derive(PartialEq, Eq, Copy, Clone, Debug, Structural)]
pub struct Packet {
    pub duration: i64,
    pub position: i64,
    pub size: usize,
    pub pts: i64,
    pub dts: i64,
}

/// A single decoded media unit: a buffer record plus the duty — or the
/// explicit absence of the duty — to release it.
#[derive(Debug)]
pub struct Frame {
    buf: Buffer,
    owned: bool,
}

impl Frame {
    /// The underlying buffer record, as a value.
    pub closed spec fn buffer(self) -> Buffer {
        self.buf
    }

    /// Whether this frame owns its record and so must release it.
    pub closed spec fn is_owned(self) -> bool {
        self.owned
    }

    /// Well-formedness: the record is valid, and a record this frame owns
    /// has seen no release action yet — the frame's own release is to be
    /// the first and only one.
    pub open spec fn wf(self) -> bool {
        &&& self.buffer().wf()
        &&& self.is_owned() ==> self.buffer().release_count == 0
    }

    /// The frame's flag set, decoded from the raw bitfield.
    pub open spec fn spec_flags(self) -> Flags {
        Flags::spec_truncate(self.buffer().flags)
    }

    /// Wrap a buffer record owned elsewhere. The resulting frame borrows:
    /// it performs no allocation and will never release the record.
    pub fn wrap(buf: Buffer) -> (r: Frame)
        requires
            buf.wf(),
        ensures
            r.buffer() == buf,
            !r.is_owned(),
            r.wf(),
    {
        Frame { buf, owned: false }
    }

    /// A frame owning a freshly allocated, zeroed buffer record. The
    /// frame's release will be the record's only one.
    pub fn empty() -> (r: Frame)
        ensures
            r.is_owned(),
            r.wf(),
            r.buffer().is_fresh(),
    {
        Frame { buf: Buffer::allocate(), owned: true }
    }

    /// Shared access to the underlying buffer record.
    pub fn as_ptr(&self) -> (r: &Buffer)
        ensures
            *r == self.buffer(),
    {
        &self.buf
    }

    /// Exclusive access to the underlying buffer record.
    pub fn as_mut_ptr(&mut self) -> (r: &mut Buffer)
        ensures
            *r == old(self).buffer(),
            final(self).buffer() == *final(r),
            final(self).is_owned() == old(self).is_owned(),
    {
        &mut self.buf
    }

    /// True iff the primary data plane is not populated — a freshly
    /// allocated, undecoded frame. Side data and metadata play no part.
    pub fn is_empty(&self) -> (r: bool)
        ensures
            r == !self.buffer().data_present,
    {
        !self.buf.data_present
    }

    /// True iff the key-frame indicator holds its "set" sentinel.
    pub fn is_key(&self) -> (r: bool)
        ensures
            r == (self.buffer().key_frame == 1),
    {
        self.buf.key_frame == 1
    }

    /// True iff the decoded flag set contains the corrupt flag.
    pub fn is_corrupt(&self) -> (r: bool)
        ensures
            r == self.spec_flags().spec_contains((Flags { bits: CORRUPT })),
    {
        self.flags().contains(Flags { bits: CORRUPT })
    }

    /// Snapshot the packet-derived fields. A pure read that always
    /// succeeds; unset fields simply hold their defaults.
    pub fn packet(&self) -> (r: Packet)
        ensures
            r == (Packet {
                duration: self.buffer().pkt_duration,
                position: self.buffer().pkt_position,
                size: self.buffer().pkt_size,
                pts: self.buffer().pkt_pts,
                dts: self.buffer().pkt_dts,
            }),
    {
        Packet {
            duration: self.buf.pkt_duration,
            position: self.buf.pkt_position,
            size: self.buf.pkt_size,
            pts: self.buf.pkt_pts,
            dts: self.buf.pkt_dts,
        }
    }

    /// The presentation timestamp, absent when the field holds the
    /// sentinel.
    pub fn pts(&self) -> (r: Option<i64>)
        ensures
            r == decoded_timestamp(self.buffer().pts),
    {
        decode_timestamp(self.buf.pts)
    }

    /// Write the presentation timestamp: the sentinel for absence, the
    /// value itself otherwise — the exact inverse of `pts`.
    pub fn set_pts(&mut self, value: Option<i64>)
        ensures
            final(self).buffer() == (Buffer { pts: encoded_timestamp(value), ..old(self).buffer() }),
            final(self).is_owned() == old(self).is_owned(),
    {
        self.buf.pts = encode_timestamp(value);
    }

    /// The best-effort timestamp the upstream stage computed (it may be
    /// derived from the decode timestamp when the presentation timestamp
    /// is absent), with the same sentinel translation as `pts`.
    pub fn timestamp(&self) -> (r: Option<i64>)
        ensures
            r == decoded_timestamp(self.buffer().best_effort_timestamp),
    {
        decode_timestamp(self.buf.best_effort_timestamp)
    }

    /// The numeric quality indicator.
    pub fn quality(&self) -> (r: usize)
        ensures
            r == self.buffer().quality,
    {
        self.buf.quality
    }

    /// The status flag set, decoded leniently from the raw bitfield:
    /// unrecognized bits are discarded, never an error.
    pub fn flags(&self) -> (r: Flags)
        ensures
            r == self.spec_flags(),
    {
        Flags::from_bits_truncate(self.buf.flags)
    }

    /// A non-owning read view of the attached metadata dictionary. An
    /// absent dictionary appears as an empty view, not as an error.
    pub fn metadata(&self) -> (r: DictionaryRef<'_>)
        ensures
            r@ == self.buffer().metadata@,
    {
        DictionaryRef::wrap(&self.buf.metadata)
    }

    /// Hand a dictionary over to the frame as its metadata, replacing any
    /// prior one; the prior dictionary's resources go with it.
    pub fn set_metadata(&mut self, value: Dictionary)
        ensures
            final(self).buffer() == (Buffer { metadata: value, ..old(self).buffer() }),
            final(self).is_owned() == old(self).is_owned(),
    {
        self.buf.metadata = value;
    }

    /// Look up the first side-data record of the given kind; `None` iff
    /// the frame holds no record of that kind.
    pub fn side_data(&self, kind: Type) -> (r: Option<SideData>)
        ensures
            r == find_side_data(self.buffer().side_data@, kind),
    {
        let n = self.buf.side_data.len();
        let mut i: usize = 0;
        while i < n
            invariant
                n == self.buf.side_data@.len(),
                i <= n,
                forall|j: int| 0 <= j < i ==> self.buf.side_data@[j].kind != kind,
            decreases n - i,
        {
            if self.buf.side_data[i].kind == kind {
                proof {
                    lemma_find_present(self.buf.side_data@, kind, i as int);
                }
                return Some(self.buf.side_data[i]);
            }
            i += 1;
        }
        proof {
            lemma_find_absent(self.buf.side_data@, kind);
        }
        None
    }

    /// Attach a new side-data record of `size` bytes tagged `kind`.
    /// `None` reports a recoverable failure — an extent the native field
    /// cannot carry, or a full record list — and leaves the frame
    /// untouched.
    pub fn new_side_data(&mut self, kind: Type, size: usize) -> (r: Option<SideData>)
        ensures
            final(self).is_owned() == old(self).is_owned(),
            (r is Some <==> (size <= MAX_SIDE_DATA_SIZE && old(self).buffer().side_data@.len()
                < MAX_SIDE_DATA_COUNT)),
            (r matches Some(e) ==> {
                &&& e == (SideData { kind, size })
                &&& final(self).buffer().side_data@ == old(self).buffer().side_data@.push(e)
                &&& old(self).buffer().agrees_except_side_data(final(self).buffer())
            }),
            (r is None ==> *final(self) == *old(self)),
    {
        if size > MAX_SIDE_DATA_SIZE {
            return None;
        }
        if self.buf.side_data.len() >= MAX_SIDE_DATA_COUNT {
            return None;
        }
        let entry = SideData { kind, size };
        self.buf.side_data.push(entry);
        Some(entry)
    }

    /// Detach and drop every side-data record of the given kind, keeping
    /// the others in order; a no-op when none is attached.
    pub fn remove_side_data(&mut self, kind: Type)
        ensures
            final(self).buffer().side_data@ == without_kind(old(self).buffer().side_data@, kind),
            old(self).buffer().agrees_except_side_data(final(self).buffer()),
            final(self).is_owned() == old(self).is_owned(),
    {
        let ghost s = self.buf.side_data@;
        let n = self.buf.side_data.len();
        let mut kept: Vec<SideData> = Vec::new();
        let mut i: usize = 0;
        while i < n
            invariant
                *self == *old(self),
                s == self.buf.side_data@,
                n == s.len(),
                i <= n,
                kept@ == without_kind(s.take(i as int), kind),
            decreases n - i,
        {
            proof {
                assert(s.take(i as int + 1).drop_last() =~= s.take(i as int));
                assert(s.take(i as int + 1).last() == s[i as int]);
            }
            if self.buf.side_data[i].kind != kind {
                kept.push(self.buf.side_data[i]);
            }
            i += 1;
        }
        proof {
            assert(s.take(n as int) =~= s);
        }
        self.buf.side_data = kept;
    }

    /// End the frame's life. Exactly when the frame owns its record, one
    /// release action hits the record — the only one it will ever see
    /// from this frame, since the frame is consumed. A borrowed record
    /// comes back to its true owner exactly as it was, untouched by any
    /// release action.
    pub fn release(self) -> (r: Buffer)
        requires
            self.wf(),
        ensures
            self.is_owned() ==> r.is_released_from(self.buffer()) && r.release_count == 1,
            !self.is_owned() ==> r == self.buffer(),
    {
        let Frame { mut buf, owned } = self;
        if owned {
            buf.release();
        }
        buf
    }
}

} // verus!
