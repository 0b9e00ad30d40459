//! The buffer record underlying a frame.
//!
//! The buffer layer hands frames their storage as a record with a
//! documented field layout: data-plane population, timestamps, the
//! packet-derived fields, the raw flag bitfield, the side-data list and
//! the metadata dictionary. This module models that record as plain
//! values, together with the release action the layer performs when an
//! owning frame reaches its end of life. The record counts the release
//! actions it has seen, so the exactly-once release discipline is visible
//! in the state itself.

use crate::dictionary::Dictionary;
use crate::side_data::SideData;
use crate::timestamp::NO_TIMESTAMP;
use vstd::prelude::*;

verus! {

/// A buffer record. An owning frame must release it exactly once; a
/// borrowing frame must never release it.
#[derive(Debug)]
pub struct Buffer {
    /// Whether the primary data plane is populated.
    pub data_present: bool,
    /// Key-frame indicator; the value 1 is its "set" sentinel.
    pub key_frame: i32,
    /// Presentation timestamp, sentinel-encoded.
    pub pts: i64,
    /// Best-effort timestamp computed upstream, sentinel-encoded.
    pub best_effort_timestamp: i64,
    /// Duration of the packet the frame came from.
    pub pkt_duration: i64,
    /// Stream position of that packet.
    pub pkt_position: i64,
    /// Encoded byte size of that packet.
    pub pkt_size: usize,
    /// Presentation timestamp of that packet.
    pub pkt_pts: i64,
    /// Decode timestamp of that packet.
    pub pkt_dts: i64,
    /// Numeric quality indicator.
    pub quality: usize,
    /// Raw status flag bitfield.
    pub flags: u32,
    /// Attached side-data records.
    pub side_data: Vec<SideData>,
    /// Attached metadata dictionary; an empty one stands for absent.
    pub metadata: Dictionary,
    /// How many release actions have hit this record.
    pub release_count: u64,
}

impl Buffer {
    /// Validity of the record: its dictionary is well formed.
    pub open spec fn wf(self) -> bool {
        self.metadata.wf()
    }

    /// A freshly allocated record: planes unpopulated, timestamps absent,
    /// everything else zeroed or empty, no release action seen.
    pub open spec fn is_fresh(self) -> bool {
        &&& !self.data_present
        &&& self.key_frame == 0
        &&& self.pts == NO_TIMESTAMP
        &&& self.best_effort_timestamp == NO_TIMESTAMP
        &&& self.pkt_duration == 0
        &&& self.pkt_position == 0
        &&& self.pkt_size == 0
        &&& self.pkt_pts == NO_TIMESTAMP
        &&& self.pkt_dts == NO_TIMESTAMP
        &&& self.quality == 0
        &&& self.flags == 0
        &&& self.side_data@ == Seq::<SideData>::empty()
        &&& self.metadata@ == Seq::<(String, String)>::empty()
        &&& self.release_count == 0
    }

    /// The two records agree on every field but the side-data list.
    pub open spec fn agrees_except_side_data(self, other: Buffer) -> bool {
        other == (Buffer { side_data: other.side_data, ..self })
    }

    /// What one release action leaves behind: the data plane and the
    /// attached side data and dictionary are dropped, the action is
    /// counted, and the plain fields stay as they were.
    pub open spec fn is_released_from(self, pre: Buffer) -> bool {
        &&& self.release_count == pre.release_count + 1
        &&& !self.data_present
        &&& self.side_data@ == Seq::<SideData>::empty()
        &&& self.metadata@ == Seq::<(String, String)>::empty()
        &&& self.metadata.wf()
        &&& self.key_frame == pre.key_frame
        &&& self.pts == pre.pts
        &&& self.best_effort_timestamp == pre.best_effort_timestamp
        &&& self.pkt_duration == pre.pkt_duration
        &&& self.pkt_position == pre.pkt_position
        &&& self.pkt_size == pre.pkt_size
        &&& self.pkt_pts == pre.pkt_pts
        &&& self.pkt_dts == pre.pkt_dts
        &&& self.quality == pre.quality
        &&& self.flags == pre.flags
    }

    /// Allocate a fresh, zeroed record.
    pub fn allocate() -> (r: Buffer)
        ensures
            r.is_fresh(),
            r.wf(),
    {
        Buffer {
            data_present: false,
            key_frame: 0,
            pts: NO_TIMESTAMP,
            best_effort_timestamp: NO_TIMESTAMP,
            pkt_duration: 0,
            pkt_position: 0,
            pkt_size: 0,
            pkt_pts: NO_TIMESTAMP,
            pkt_dts: NO_TIMESTAMP,
            quality: 0,
            flags: 0,
            side_data: Vec::new(),
            metadata: Dictionary::new(),
            release_count: 0,
        }
    }

    /// Perform one release action on this record.
    pub(crate) fn release(&mut self)
        requires
            old(self).release_count < u64::MAX,
        ensures
            final(self).is_released_from(*old(self)),
    {
        self.data_present = false;
        self.side_data = Vec::new();
        self.metadata = Dictionary::new();
        self.release_count = self.release_count + 1;
    }
}

} // verus!
