//! Laws of the resolver, stated over the same spec functions its contract
//! uses and proved once and for all.

use vstd::prelude::*;
use crate::mount::MntTabEntView;
use crate::resolve::{
    candidates, classify, match_pred, record_matches, resolve_spec, ClassificationView,
    FsDescView, PathDescView, ResolveErrorView,
};
use crate::seqfacts::{
    lemma_filter_all_excluded, lemma_filter_at_least_one, lemma_filter_pair, lemma_filter_unique,
};
use crate::strutil::hex_of;

verus! {

/// A path on a live filesystem — its sole correlating mount record has the
/// path's own minor number — resolves to `Live` with that record's special.
pub proof fn law_live(fs: FsDescView, path: PathDescView, table: Seq<MntTabEntView>, i: int)
    requires
        path.fstype == fs.basetype,
        0 <= i < table.len(),
        record_matches(table[i], fs.basetype, path.major, hex_of(fs.fsid as nat)),
        forall|j: int|
            0 <= j < table.len() && j != i ==> !record_matches(
                table[j],
                fs.basetype,
                path.major,
                hex_of(fs.fsid as nat),
            ),
        table[i].minor == path.minor,
    ensures
        resolve_spec(fs, path, table) == Ok::<_, ResolveErrorView>(ClassificationView::Live(table[i].special)),
{
    lemma_filter_unique(table, match_pred(fs, path), i);
    assert(candidates(fs, path, table) =~= seq![classify(table[i], path.minor)]);
}

/// A path under a snapshot — its sole correlating mount record has a minor
/// number other than the path's — resolves to `Snapshot` with that record's
/// special.
pub proof fn law_snapshot(fs: FsDescView, path: PathDescView, table: Seq<MntTabEntView>, i: int)
    requires
        path.fstype == fs.basetype,
        0 <= i < table.len(),
        record_matches(table[i], fs.basetype, path.major, hex_of(fs.fsid as nat)),
        forall|j: int|
            0 <= j < table.len() && j != i ==> !record_matches(
                table[j],
                fs.basetype,
                path.major,
                hex_of(fs.fsid as nat),
            ),
        table[i].minor != path.minor,
    ensures
        resolve_spec(fs, path, table) == Ok::<_, ResolveErrorView>(ClassificationView::Snapshot(table[i].special)),
{
    lemma_filter_unique(table, match_pred(fs, path), i);
    assert(candidates(fs, path, table) =~= seq![classify(table[i], path.minor)]);
}

/// A live path and a snapshot path of one filesystem resolve through the
/// *same* mount record to the same underlying device identity: `Live` and
/// `Snapshot` carry one and the same special.
pub proof fn law_snapshot_same_identity(
    fs: FsDescView,
    live_path: PathDescView,
    snap_path: PathDescView,
    table: Seq<MntTabEntView>,
    i: int,
)
    requires
        live_path.fstype == fs.basetype,
        snap_path.fstype == fs.basetype,
        snap_path.major == live_path.major,
        0 <= i < table.len(),
        record_matches(table[i], fs.basetype, live_path.major, hex_of(fs.fsid as nat)),
        forall|j: int|
            0 <= j < table.len() && j != i ==> !record_matches(
                table[j],
                fs.basetype,
                live_path.major,
                hex_of(fs.fsid as nat),
            ),
        table[i].minor == live_path.minor,
        table[i].minor != snap_path.minor,
    ensures
        resolve_spec(fs, live_path, table) == Ok::<_, ResolveErrorView>(ClassificationView::Live(table[i].special)),
        resolve_spec(fs, snap_path, table) == Ok::<_, ResolveErrorView>(ClassificationView::Snapshot(table[i].special)),
{
    law_live(fs, live_path, table, i);
    law_snapshot(fs, snap_path, table, i);
}

/// The resolver is a pure function: identical inputs always produce the
/// identical output, whatever the call order.
pub proof fn law_deterministic(
    fs1: FsDescView,
    path1: PathDescView,
    table1: Seq<MntTabEntView>,
    fs2: FsDescView,
    path2: PathDescView,
    table2: Seq<MntTabEntView>,
)
    requires
        fs1 == fs2,
        path1 == path2,
        table1 == table2,
    ensures
        resolve_spec(fs1, path1, table1) == resolve_spec(fs2, path2, table2),
{
}

/// `InconsistentFsType` comes if and only if the two probed type names
/// disagree, whatever the mount table holds; and it carries both names.
pub proof fn law_inconsistent_iff(fs: FsDescView, path: PathDescView, table: Seq<MntTabEntView>)
    ensures
        (resolve_spec(fs, path, table) matches Err(
            ResolveErrorView::InconsistentFsType { .. },
        )) <==> path.fstype != fs.basetype,
        path.fstype != fs.basetype ==> resolve_spec(fs, path, table) == Err::<ClassificationView, _>(
            ResolveErrorView::InconsistentFsType {
                path_fstype: path.fstype,
                basetype: fs.basetype,
            },
        ),
{
}

/// When the type names agree, `NoMatch` comes if and only if no mount record
/// correlates with the probed filesystem.
pub proof fn law_no_match(fs: FsDescView, path: PathDescView, table: Seq<MntTabEntView>)
    requires
        path.fstype == fs.basetype,
    ensures
        resolve_spec(fs, path, table) == Err::<ClassificationView, _>(ResolveErrorView::NoMatch) <==> (forall|j: int|
            0 <= j < table.len() ==> !record_matches(
                table[j],
                fs.basetype,
                path.major,
                hex_of(fs.fsid as nat),
            )),
{
    if forall|j: int|
        0 <= j < table.len() ==> !record_matches(
            table[j],
            fs.basetype,
            path.major,
            hex_of(fs.fsid as nat),
        ) {
        lemma_filter_all_excluded(table, match_pred(fs, path));
    } else {
        let j = choose|j: int|
            0 <= j < table.len() && record_matches(
                table[j],
                fs.basetype,
                path.major,
                hex_of(fs.fsid as nat),
            );
        lemma_filter_at_least_one(table, match_pred(fs, path), j);
    }
}

/// Two or more correlating mount records force `AmbiguousMatch`, which
/// carries every candidate — at least two — rather than picking one.
pub proof fn law_ambiguous(
    fs: FsDescView,
    path: PathDescView,
    table: Seq<MntTabEntView>,
    i: int,
    j: int,
)
    requires
        path.fstype == fs.basetype,
        0 <= i < j < table.len(),
        record_matches(table[i], fs.basetype, path.major, hex_of(fs.fsid as nat)),
        record_matches(table[j], fs.basetype, path.major, hex_of(fs.fsid as nat)),
    ensures
        resolve_spec(fs, path, table) == Err::<ClassificationView, _>(
            ResolveErrorView::AmbiguousMatch { candidates: candidates(fs, path, table) },
        ),
        candidates(fs, path, table).len() >= 2,
{
    lemma_filter_pair(table, match_pred(fs, path), i, j);
}

} // verus!
