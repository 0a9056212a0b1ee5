//! The identity resolver: correlate the two probe descriptors of a path with
//! the mount table and classify the path as lying on a live filesystem or on
//! a snapshot, or fail with a definite error.

use vstd::prelude::*;
use crate::mount::{MntTabEnt, MntTabEntView, lookup};
use crate::seqfacts::{lemma_filter_take_step, lemma_map_values_push};
use crate::strutil::{hex_of, str_eq, to_hex_lower};

verus! {

/// Result of probing a path at the filesystem level. Even for a path inside a
/// snapshot, the operating system reports the *live* filesystem here; the
/// resolver relies on that.
pub struct FilesystemDescriptor {
    /// Filesystem type name.
    pub basetype: String,
    /// Compressed filesystem identifier, ephemeral for the current import.
    pub fsid: u64,
    /// Whether the filesystem reports itself read-only. Snapshots do *not*
    /// set this flag even though they are logically read-only; the resolver
    /// observes the quirk and never consults the flag.
    pub read_only: bool,
}

/// Mathematical model of a `FilesystemDescriptor`.
pub ghost struct FsDescView {
    pub basetype: Seq<char>,
    pub fsid: u64,
    pub read_only: bool,
}

impl View for FilesystemDescriptor {
    type V = FsDescView;

    open spec fn view(&self) -> FsDescView {
        FsDescView { basetype: self.basetype@, fsid: self.fsid, read_only: self.read_only }
    }
}

/// Result of probing a path at the vnode level: the device number of the
/// exact object the path resolves to, already decomposed into its major and
/// minor components, and the path-specific filesystem type name.
pub struct PathDescriptor {
    /// Filesystem type name from the path-level probe.
    pub fstype: String,
    /// Major component of the vnode's device number.
    pub major: u32,
    /// Minor component of the vnode's device number.
    pub minor: u32,
}

/// Mathematical model of a `PathDescriptor`.
pub ghost struct PathDescView {
    pub fstype: Seq<char>,
    pub major: u32,
    pub minor: u32,
}

impl View for PathDescriptor {
    type V = PathDescView;

    open spec fn view(&self) -> PathDescView {
        PathDescView { fstype: self.fstype@, major: self.major, minor: self.minor }
    }
}

/// The resolver's answer: the path lies on the live filesystem backed by the
/// named device, or on a snapshot of it.
#[derive(Debug, PartialEq, Eq)]
pub enum Classification {
    Live(String),
    Snapshot(String),
}

/// Mathematical model of a `Classification`.
pub ghost enum ClassificationView {
    Live(Seq<char>),
    Snapshot(Seq<char>),
}

impl View for Classification {
    type V = ClassificationView;

    open spec fn view(&self) -> ClassificationView {
        match self {
            Classification::Live(s) => ClassificationView::Live(s@),
            Classification::Snapshot(s) => ClassificationView::Snapshot(s@),
        }
    }
}

/// The resolver's definite failures.
#[derive(Debug, PartialEq, Eq)]
pub enum ResolveError {
    /// The two independently probed type names disagree.
    InconsistentFsType { path_fstype: String, basetype: String },
    /// No mount record correlates with the probed filesystem.
    NoMatch,
    /// Two or more mount records correlate: an invariant violation, never
    /// silently resolved by picking one. Carries every candidate.
    AmbiguousMatch { candidates: Vec<Classification> },
}

/// Mathematical model of a `ResolveError`.
pub ghost enum ResolveErrorView {
    InconsistentFsType { path_fstype: Seq<char>, basetype: Seq<char> },
    NoMatch,
    AmbiguousMatch { candidates: Seq<ClassificationView> },
}

impl View for ResolveError {
    type V = ResolveErrorView;

    open spec fn view(&self) -> ResolveErrorView {
        match self {
            ResolveError::InconsistentFsType { path_fstype, basetype } => (
                ResolveErrorView::InconsistentFsType {
                    path_fstype: path_fstype@,
                    basetype: basetype@,
                }
            ),
            ResolveError::NoMatch => ResolveErrorView::NoMatch,
            ResolveError::AmbiguousMatch { candidates } => (
                ResolveErrorView::AmbiguousMatch { candidates: cls_view(candidates@) }
            ),
        }
    }
}

/// The models of a sequence of classifications.
pub open spec fn cls_view(v: Seq<Classification>) -> Seq<ClassificationView> {
    v.map_values(|c: Classification| c@)
}

/// The models of a sequence of mount records.
pub open spec fn table_view(t: Seq<MntTabEnt>) -> Seq<MntTabEntView> {
    t.map_values(|e: MntTabEnt| e@)
}

/// The model of a `resolve` result.
pub open spec fn res_view(r: Result<Classification, ResolveError>) -> Result<
    ClassificationView,
    ResolveErrorView,
> {
    match r {
        Ok(c) => Ok(c@),
        Err(e) => Err(e@),
    }
}

/// Whether a mount record correlates with the probed filesystem: its type
/// name and major number agree, and its `dev` mount option holds exactly the
/// lowercase hexadecimal rendering of the filesystem identifier.
pub open spec fn record_matches(
    r: MntTabEntView,
    basetype: Seq<char>,
    path_major: u32,
    devhex: Seq<char>,
) -> bool {
    &&& r.fstype == basetype
    &&& r.major == path_major
    &&& lookup(r.mntopts, "dev"@) == Some(devhex)
}

/// The record predicate `resolve` filters the table with.
pub open spec fn match_pred(fs: FsDescView, path: PathDescView) -> spec_fn(MntTabEntView) -> bool {
    |r: MntTabEntView| record_matches(r, fs.basetype, path.major, hex_of(fs.fsid as nat))
}

/// Classify one correlated record: a minor-number mismatch is the sole signal
/// that the path denotes a snapshot rather than the live filesystem.
pub open spec fn classify(r: MntTabEntView, path_minor: u32) -> ClassificationView {
    if r.minor != path_minor {
        ClassificationView::Snapshot(r.special)
    } else {
        ClassificationView::Live(r.special)
    }
}

/// The classifications of every mount record that correlates with the probed
/// filesystem, in table order.
pub open spec fn candidates(
    fs: FsDescView,
    path: PathDescView,
    table: Seq<MntTabEntView>,
) -> Seq<ClassificationView> {
    table.filter(match_pred(fs, path)).map_values(|r: MntTabEntView| classify(r, path.minor))
}

/// What `resolve` returns, as a function of the models of its inputs.
pub open spec fn resolve_spec(
    fs: FsDescView,
    path: PathDescView,
    table: Seq<MntTabEntView>,
) -> Result<ClassificationView, ResolveErrorView> {
    if path.fstype != fs.basetype {
        Err(
            ResolveErrorView::InconsistentFsType {
                path_fstype: path.fstype,
                basetype: fs.basetype,
            },
        )
    } else {
        let cands = candidates(fs, path, table);
        if cands.len() == 0 {
            Err(ResolveErrorView::NoMatch)
        } else if cands.len() == 1 {
            Ok(cands[0])
        } else {
            Err(ResolveErrorView::AmbiguousMatch { candidates: cands })
        }
    }
}

/// Correlate the probe descriptors of one path with the mount table and
/// classify the path, exactly as `resolve_spec` describes: verify the two
/// type names agree, collect every record whose type, major number and `dev`
/// option correlate, and demand exactly one survivor.
pub fn resolve(
    fs: &FilesystemDescriptor,
    path: &PathDescriptor,
    table: &Vec<MntTabEnt>,
) -> (r: Result<Classification, ResolveError>)
    ensures
        res_view(r) == resolve_spec(fs@, path@, table_view(table@)),
{
    if !str_eq(path.fstype.as_str(), fs.basetype.as_str()) {
        return Err(
            ResolveError::InconsistentFsType {
                path_fstype: path.fstype.clone(),
                basetype: fs.basetype.clone(),
            },
        );
    }
    let devhex = to_hex_lower(fs.fsid);
    let ghost pred = match_pred(fs@, path@);
    let ghost tview = table_view(table@);
    let mut cands: Vec<Classification> = Vec::new();
    let mut idx: usize = 0;
    proof {
        assert(tview.take(0) =~= Seq::<MntTabEntView>::empty());
        reveal(Seq::filter);
        assert(cls_view(cands@) =~= tview.take(0).filter(pred).map_values(
            |r: MntTabEntView| classify(r, path@.minor),
        ));
    }
    while idx < table.len()
        invariant
            0 <= idx <= table.len(),
            devhex@ == hex_of(fs@.fsid as nat),
            pred == match_pred(fs@, path@),
            tview == table_view(table@),
            cls_view(cands@) == tview.take(idx as int).filter(pred).map_values(
                (|r: MntTabEntView| classify(r, path@.minor)),
            ),
        decreases table.len() - idx,
    {
        let ent = &table[idx];
        proof {
            assert(tview[idx as int] == ent@);
        }
        let mut matched = false;
        if str_eq(ent.fstype.as_str(), fs.basetype.as_str()) && ent.major == path.major {
            match ent.getopt("dev") {
                Some(v) => {
                    matched = str_eq(v.as_str(), devhex.as_str());
                },
                None => {},
            }
        }
        proof {
            assert(matched == pred(tview[idx as int]));
            lemma_filter_take_step(tview, pred, idx as int);
        }
        if matched {
            let c = if ent.minor != path.minor {
                Classification::Snapshot(ent.special.clone())
            } else {
                Classification::Live(ent.special.clone())
            };
            proof {
                assert(c@ == classify(tview[idx as int], path@.minor));
            }
            let ghost prev = cands@;
            cands.push(c);
            proof {
                lemma_map_values_push(prev, |x: Classification| x@, c);
                lemma_map_values_push(
                    tview.take(idx as int).filter(pred),
                    |r: MntTabEntView| classify(r, path@.minor),
                    tview[idx as int],
                );
            }
        }
        idx += 1;
    }
    proof {
        assert(tview.take(table@.len() as int) =~= tview);
    }
    if cands.len() == 0 {
        Err(ResolveError::NoMatch)
    } else if cands.len() == 1 {
        let c = cands.remove(0);
        Ok(c)
    } else {
        Err(ResolveError::AmbiguousMatch { candidates: cands })
    }
}

} // verus!
