//! Side data: auxiliary binary records attached to a frame.
//!
//! Each record carries a kind tag from a closed enumeration and a byte
//! extent. A frame holds a list of such records; lookup is a linear scan
//! returning the first record of the requested kind, and removal drops
//! every record of the requested kind while keeping the order of the rest.

use vstd::prelude::*;

verus! {

/// The closed set of side-data kind tags understood by the buffer layer.
#[derive(Clone, Copy, Debug, PartialEq, Eq, Structural)]
pub enum Type {
    PanScan,
    A53Captions,
    Stereo3D,
    MatrixEncoding,
    DownmixInfo,
    ReplayGain,
    DisplayMatrix,
    ActiveFormat,
    MotionVectors,
    SkipSamples,
    AudioServiceType,
    MasteringDisplayMetadata,
    ContentLightLevel,
}

/// One side-data record: a kind tag and the byte extent that was requested
/// for it. The record is owned by the frame it is attached to; a value of
/// this type is a handle, with no release duty of its own.
#[derive(Clone, Copy, Debug, PartialEq, Eq, Structural)]
pub struct SideData {
    pub kind: Type,
    pub size: usize,
}

impl SideData {
    /// The kind tag of this record.
    pub fn kind(&self) -> (r: Type)
        ensures
            r == self.kind,
    {
        self.kind
    }

    /// The byte extent of this record.
    pub fn size(&self) -> (r: usize)
        ensures
            r == self.size,
    {
        self.size
    }
}

/// The first record of the given kind in the list, if any.
pub open spec fn find_side_data(s: Seq<SideData>, kind: Type) -> Option<SideData>
    decreases s.len(),
{
    if s.len() == 0 {
        Option::None
    } else if s[0].kind == kind {
        Option::Some(s[0])
    } else {
        find_side_data(s.drop_first(), kind)
    }
}

/// The list with every record of the given kind removed, others kept in
/// order.
pub open spec fn without_kind(s: Seq<SideData>, kind: Type) -> Seq<SideData>
    decreases s.len(),
{
    if s.len() == 0 {
        Seq::empty()
    } else {
        let rest = without_kind(s.drop_last(), kind);
        if s.last().kind == kind {
            rest
        } else {
            rest.push(s.last())
        }
    }
}

/// A linear scan that saw no match up to index `i` and a match at `i`
/// has found the first match.
pub proof fn lemma_find_present(s: Seq<SideData>, kind: Type, i: int)
    requires
        0 <= i < s.len(),
        s[i].kind == kind,
        forall|j: int| 0 <= j < i ==> s[j].kind != kind,
    ensures
        find_side_data(s, kind) == Some(s[i]),
    decreases i,
{
    if i > 0 {
        lemma_find_present(s.drop_first(), kind, i - 1);
    }
}

/// A list with no record of the kind has no first match.
pub proof fn lemma_find_absent(s: Seq<SideData>, kind: Type)
    requires
        forall|j: int| 0 <= j < s.len() ==> s[j].kind != kind,
    ensures
        find_side_data(s, kind) is None,
    decreases s.len(),
{
    if s.len() > 0 {
        lemma_find_absent(s.drop_first(), kind);
    }
}

/// Conversely, when lookup finds nothing, no record of the kind is there.
pub proof fn lemma_find_none_all_absent(s: Seq<SideData>, kind: Type)
    requires
        find_side_data(s, kind) is None,
    ensures
        forall|j: int| 0 <= j < s.len() ==> s[j].kind != kind,
    decreases s.len(),
{
    if s.len() > 0 {
        lemma_find_none_all_absent(s.drop_first(), kind);
        assert forall|j: int| 0 <= j < s.len() implies s[j].kind != kind by {
            if j > 0 {
                assert(s.drop_first()[j - 1] == s[j]);
            }
        }
    }
}

/// Removal leaves no record of the removed kind behind.
pub proof fn lemma_without_kind_excludes(s: Seq<SideData>, kind: Type)
    ensures
        forall|j: int| 0 <= j < without_kind(s, kind).len() ==> without_kind(s, kind)[j].kind != kind,
    decreases s.len(),
{
    if s.len() > 0 {
        lemma_without_kind_excludes(s.drop_last(), kind);
    }
}

/// Law: a freshly attached record of a kind the frame did not hold is what
/// lookup of that kind then returns.
pub proof fn lemma_lookup_after_new(s: Seq<SideData>, kind: Type, size: usize)
    requires
        find_side_data(s, kind) is None,
    ensures
        find_side_data(s.push((SideData { kind, size })), kind) == Some(
            (SideData { kind, size }),
        ),
{
    lemma_find_none_all_absent(s, kind);
    lemma_find_present(s.push((SideData { kind, size })), kind, s.len() as int);
}

/// Law: after removal of a kind, lookup of that kind finds nothing.
pub proof fn lemma_lookup_after_remove(s: Seq<SideData>, kind: Type)
    ensures
        find_side_data(without_kind(s, kind), kind) is None,
{
    lemma_without_kind_excludes(s, kind);
    lemma_find_absent(without_kind(s, kind), kind);
}

} // verus!
