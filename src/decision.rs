use vstd::prelude::*;

use crate::digest::sha1_of;

verus! {

/// A modification time: whole seconds relative to the Unix epoch (negative
/// before it) and the nanoseconds within that second.
#[derive(Clone, Copy, Debug, PartialEq, Eq, Structural)]
pub struct ModTime {
    pub secs: i64,
    pub nanos: u32,
}

/// The metadata that the fast path compares.
#[derive(Clone, Copy, Debug, PartialEq, Eq, Structural)]
pub struct FileMeta {
    pub len: u64,
    pub modified: ModTime,
}

/// Length and modification time both agree.
pub open spec fn same_metadata(a: FileMeta, b: FileMeta) -> bool {
    a.len == b.len && a.modified == b.modified
}

/// The copy policy for one file: `src` is the source's metadata and content,
/// `dst` the destination's, `None` when it does not exist. An absent
/// destination is always written; one whose length and modification time both
/// agree is kept without reading it; otherwise it is written only when the
/// content digests differ.
pub open spec fn copy_needed(src: (FileMeta, Seq<u8>), dst: Option<(FileMeta, Seq<u8>)>) -> bool {
    match dst {
        None => true,
        Some(d) => !same_metadata(src.0, d.0) && sha1_of(src.1) != sha1_of(d.1),
    }
}

/// Where the decision for one file pair stands. The phase also names the
/// work that the caller does next: `Start`, find whether the destination
/// exists and, if so, read both files' metadata; `AwaitDigests`, digest both
/// files; `AwaitCopy`, copy the source over the destination, metadata
/// included; `Done`, nothing.
#[derive(Clone, Copy, Debug, PartialEq, Eq, Structural)]
pub enum CopyPhase {
    Start,
    AwaitDigests,
    AwaitCopy,
    Done { copied: bool },
}

/// What the caller observed while doing the work of a phase.
#[derive(Clone, Debug)]
pub enum CopyEvent {
    DestinationMissing,
    DestinationFound { src: FileMeta, dst: FileMeta },
    Digests { src: Vec<u8>, dst: Vec<u8> },
    CopyFinished,
}

/// The transition of the decision; an event that does not belong to the
/// phase leaves it unchanged.
pub open spec fn advanced(phase: CopyPhase, event: CopyEvent) -> CopyPhase {
    match (phase, event) {
        (CopyPhase::Start, CopyEvent::DestinationMissing) => CopyPhase::AwaitCopy,
        (CopyPhase::Start, CopyEvent::DestinationFound { src, dst }) => if same_metadata(src, dst) {
            CopyPhase::Done { copied: false }
        } else {
            CopyPhase::AwaitDigests
        },
        (CopyPhase::AwaitDigests, CopyEvent::Digests { src, dst }) => if src@ == dst@ {
            CopyPhase::Done { copied: false }
        } else {
            CopyPhase::AwaitCopy
        },
        (CopyPhase::AwaitCopy, CopyEvent::CopyFinished) => CopyPhase::Done { copied: true },
        _ => phase,
    }
}

fn same_bytes(a: &Vec<u8>, b: &Vec<u8>) -> (r: bool)
    ensures
        r == (a@ == b@),
{
    if a.len() != b.len() {
        return false;
    }
    let mut i: usize = 0;
    while i < a.len()
        invariant
            i <= a@.len(),
            a@.len() == b@.len(),
            forall|k: int| 0 <= k < i ==> a@[k] == b@[k],
        decreases a@.len() - i,
    {
        if a[i] != b[i] {
            return false;
        }
        i = i + 1;
    }
    assert(a@ == b@);
    true
}

impl CopyPhase {
    /// The phase in which the decision for a file pair begins.
    pub fn start() -> (r: CopyPhase)
        ensures
            r == CopyPhase::Start,
    {
        CopyPhase::Start
    }

    /// The phase after `event`.
    pub fn advance(self, event: &CopyEvent) -> (r: CopyPhase)
        ensures
            r == advanced(self, *event),
    {
        match (self, event) {
            (CopyPhase::Start, CopyEvent::DestinationMissing) => CopyPhase::AwaitCopy,
            (CopyPhase::Start, CopyEvent::DestinationFound { src, dst }) => {
                if *src == *dst {
                    CopyPhase::Done { copied: false }
                } else {
                    CopyPhase::AwaitDigests
                }
            },
            (CopyPhase::AwaitDigests, CopyEvent::Digests { src, dst }) => {
                if same_bytes(src, dst) {
                    CopyPhase::Done { copied: false }
                } else {
                    CopyPhase::AwaitCopy
                }
            },
            (CopyPhase::AwaitCopy, CopyEvent::CopyFinished) => CopyPhase::Done { copied: true },
            _ => self,
        }
    }

    /// Whether the decision is over.
    pub fn is_done(&self) -> (r: bool)
        ensures
            r == (*self is Done),
    {
        match self {
            CopyPhase::Done { .. } => true,
            _ => false,
        }
    }
}

/// The phase reached when the caller reports truthfully on the files `src`
/// and `dst` (`None`: no destination), `digests` being what it reports when
/// asked to digest both.
pub open spec fn decision_run(
    src: (FileMeta, Seq<u8>),
    dst: Option<(FileMeta, Seq<u8>)>,
    digests: CopyEvent,
) -> CopyPhase {
    match dst {
        None => advanced(
            advanced(CopyPhase::Start, CopyEvent::DestinationMissing),
            CopyEvent::CopyFinished,
        ),
        Some(d) => {
            let p = advanced(CopyPhase::Start, CopyEvent::DestinationFound { src: src.0, dst: d.0 });
            if p == CopyPhase::AwaitDigests {
                let q = advanced(p, digests);
                if q == CopyPhase::AwaitCopy {
                    advanced(q, CopyEvent::CopyFinished)
                } else {
                    q
                }
            } else {
                p
            }
        },
    }
}

/// The report of both files' digests.
pub open spec fn digests_of(digests: CopyEvent, src: Seq<u8>, dst: Seq<u8>) -> bool {
    digests matches CopyEvent::Digests { src: s, dst: d } && s@ == sha1_of(src) && d@ == sha1_of(dst)
}

/// Driven by truthful observations, the decision ends, and it copies exactly
/// when the copy policy asks for it.
pub proof fn lemma_decision_follows_policy(
    src: (FileMeta, Seq<u8>),
    dst: Option<(FileMeta, Seq<u8>)>,
    digests: CopyEvent,
)
    requires
        dst matches Some(d) ==> digests_of(digests, src.1, d.1),
    ensures
        decision_run(src, dst, digests) == (CopyPhase::Done { copied: copy_needed(src, dst) }),
{
}

/// A file whose destination has its length and modification time is kept
/// without digesting either file.
pub proof fn lemma_unchanged_metadata_skips(m: FileMeta, src_data: Seq<u8>, dst_data: Seq<u8>)
    ensures
        advanced(CopyPhase::Start, CopyEvent::DestinationFound { src: m, dst: m }) == (
        CopyPhase::Done { copied: false }),
        !copy_needed((m, src_data), Some((m, dst_data))),
{
}

/// Equal content is never copied again, whatever the metadata says: the
/// digest comparison stops a copy that a changed modification time alone
/// would have asked for.
pub proof fn lemma_equal_content_not_copied(
    src_meta: FileMeta,
    dst_meta: FileMeta,
    data: Seq<u8>,
    digests: CopyEvent,
)
    requires
        digests_of(digests, data, data),
    ensures
        !copy_needed((src_meta, data), Some((dst_meta, data))),
        decision_run((src_meta, data), Some((dst_meta, data)), digests) == (CopyPhase::Done {
            copied: false,
        }),
{
}

/// Files whose metadata differ and whose digests differ are copied: the
/// decision goes through digesting and copying to its end.
pub proof fn lemma_changed_content_copied(
    src: (FileMeta, Seq<u8>),
    dst: (FileMeta, Seq<u8>),
    digests: CopyEvent,
)
    requires
        !same_metadata(src.0, dst.0),
        sha1_of(src.1) != sha1_of(dst.1),
        digests_of(digests, src.1, dst.1),
    ensures
        copy_needed(src, Some(dst)),
        advanced(CopyPhase::Start, CopyEvent::DestinationFound { src: src.0, dst: dst.0 })
            == CopyPhase::AwaitDigests,
        advanced(CopyPhase::AwaitDigests, digests) == CopyPhase::AwaitCopy,
        decision_run(src, Some(dst), digests) == (CopyPhase::Done { copied: true }),
{
}

} // verus!
