use snapresolve::mount::MntTabEnt;
use snapresolve::resolve::{
    resolve, Classification, FilesystemDescriptor, PathDescriptor, ResolveError,
};

fn ent(special: &str, fstype: &str, opts: &str, major: u32, minor: u32) -> MntTabEnt {
    MntTabEnt::new(
        special.to_string(),
        "/data".to_string(),
        fstype.to_string(),
        opts,
        "1700000000".to_string(),
        major,
        minor,
    )
}

fn fsdesc(basetype: &str, fsid: u64) -> FilesystemDescriptor {
    FilesystemDescriptor { basetype: basetype.to_string(), fsid, read_only: false }
}

fn pathdesc(fstype: &str, major: u32, minor: u32) -> PathDescriptor {
    PathDescriptor { fstype: fstype.to_string(), major, minor }
}

fn zfs_table() -> Vec<MntTabEnt> {
    vec![ent("pool/data", "zfs", "dev=3f2a1", 0x97, 3)]
}

#[test]
fn live_path_resolves_live() {
    let r = resolve(&fsdesc("zfs", 0x3f2a1), &pathdesc("zfs", 0x97, 3), &zfs_table());
    assert_eq!(r, Ok(Classification::Live("pool/data".to_string())));
}

#[test]
fn snapshot_path_resolves_snapshot() {
    let r = resolve(&fsdesc("zfs", 0x3f2a1), &pathdesc("zfs", 0x97, 7), &zfs_table());
    assert_eq!(r, Ok(Classification::Snapshot("pool/data".to_string())));
}

#[test]
fn unknown_fsid_is_no_match() {
    let r = resolve(&fsdesc("zfs", 0x999), &pathdesc("zfs", 0x97, 3), &zfs_table());
    assert_eq!(r, Err(ResolveError::NoMatch));
}

#[test]
fn inconsistent_fstype_reported_with_both_names() {
    let r = resolve(&fsdesc("zfs", 0x3f2a1), &pathdesc("ufs", 0x97, 3), &zfs_table());
    assert_eq!(
        r,
        Err(ResolveError::InconsistentFsType {
            path_fstype: "ufs".to_string(),
            basetype: "zfs".to_string(),
        })
    );
}

#[test]
fn inconsistent_fstype_independent_of_table() {
    let r = resolve(&fsdesc("zfs", 0x3f2a1), &pathdesc("ufs", 0x97, 3), &Vec::new());
    assert_eq!(
        r,
        Err(ResolveError::InconsistentFsType {
            path_fstype: "ufs".to_string(),
            basetype: "zfs".to_string(),
        })
    );
}

#[test]
fn empty_table_is_no_match() {
    let r = resolve(&fsdesc("zfs", 0x3f2a1), &pathdesc("zfs", 0x97, 3), &Vec::new());
    assert_eq!(r, Err(ResolveError::NoMatch));
}

#[test]
fn wrong_major_is_no_match() {
    let r = resolve(&fsdesc("zfs", 0x3f2a1), &pathdesc("zfs", 0x98, 3), &zfs_table());
    assert_eq!(r, Err(ResolveError::NoMatch));
}

#[test]
fn wrong_table_fstype_is_no_match() {
    let table = vec![ent("pool/data", "ufs", "dev=3f2a1", 0x97, 3)];
    let r = resolve(&fsdesc("zfs", 0x3f2a1), &pathdesc("zfs", 0x97, 3), &table);
    assert_eq!(r, Err(ResolveError::NoMatch));
}

#[test]
fn record_without_dev_option_is_no_match() {
    let table = vec![ent("pool/data", "zfs", "ro,atime", 0x97, 3)];
    let r = resolve(&fsdesc("zfs", 0x3f2a1), &pathdesc("zfs", 0x97, 3), &table);
    assert_eq!(r, Err(ResolveError::NoMatch));
}

#[test]
fn two_matching_records_are_ambiguous() {
    let table = vec![
        ent("pool/data", "zfs", "dev=3f2a1", 0x97, 3),
        ent("pool/other", "zfs", "dev=3f2a1", 0x97, 5),
    ];
    let r = resolve(&fsdesc("zfs", 0x3f2a1), &pathdesc("zfs", 0x97, 3), &table);
    assert_eq!(
        r,
        Err(ResolveError::AmbiguousMatch {
            candidates: vec![
                Classification::Live("pool/data".to_string()),
                Classification::Snapshot("pool/other".to_string()),
            ],
        })
    );
}

#[test]
fn distinct_dev_options_are_not_ambiguous() {
    let table = vec![
        ent("pool/data", "zfs", "dev=3f2a1", 0x97, 3),
        ent("pool/other", "zfs", "dev=3f2a2", 0x97, 5),
    ];
    let r = resolve(&fsdesc("zfs", 0x3f2a1), &pathdesc("zfs", 0x97, 3), &table);
    assert_eq!(r, Ok(Classification::Live("pool/data".to_string())));
}

#[test]
fn live_and_snapshot_share_one_identity() {
    let table = zfs_table();
    let fs = fsdesc("zfs", 0x3f2a1);
    let live = resolve(&fs, &pathdesc("zfs", 0x97, 3), &table);
    let snap = resolve(&fs, &pathdesc("zfs", 0x97, 7), &table);
    assert_eq!(live, Ok(Classification::Live("pool/data".to_string())));
    assert_eq!(snap, Ok(Classification::Snapshot("pool/data".to_string())));
}

#[test]
fn identical_inputs_give_identical_outputs() {
    let table = zfs_table();
    let fs = fsdesc("zfs", 0x3f2a1);
    let first = resolve(&fs, &pathdesc("zfs", 0x97, 3), &table);
    let second = resolve(&fs, &pathdesc("zfs", 0x97, 3), &table);
    assert_eq!(first, second);
}

#[test]
fn read_only_flag_is_observed_not_consulted() {
    let table = zfs_table();
    let mut fs = fsdesc("zfs", 0x3f2a1);
    let with_clear = resolve(&fs, &pathdesc("zfs", 0x97, 7), &table);
    fs.read_only = true;
    let with_set = resolve(&fs, &pathdesc("zfs", 0x97, 7), &table);
    assert_eq!(with_clear, with_set);
}

#[test]
fn fsid_matches_in_lowercase_hex() {
    let table = vec![ent("pool/data", "zfs", "dev=ff", 0x97, 3)];
    let r = resolve(&fsdesc("zfs", 0xff), &pathdesc("zfs", 0x97, 3), &table);
    assert_eq!(r, Ok(Classification::Live("pool/data".to_string())));
    let miss = vec![ent("pool/data", "zfs", "dev=FF", 0x97, 3)];
    let r = resolve(&fsdesc("zfs", 0xff), &pathdesc("zfs", 0x97, 3), &miss);
    assert_eq!(r, Err(ResolveError::NoMatch));
}
