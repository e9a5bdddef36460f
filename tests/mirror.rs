use dirmirror::{
    digest_of, plan_entry, ContentHasher, CopyEvent, CopyPhase, EntryAction, FileMeta,
    IgnorePattern, IgnoreSet, InvalidPattern, ModTime, SyncCounters,
};

fn hex(bytes: &[u8]) -> String {
    bytes.iter().map(|b| format!("{:02x}", b)).collect()
}

fn set(patterns: &[&str]) -> IgnoreSet {
    let sources: Vec<String> = patterns.iter().map(|p| p.to_string()).collect();
    IgnoreSet::new(&sources).unwrap()
}

fn meta(len: u64, secs: i64, nanos: u32) -> FileMeta {
    FileMeta { len, modified: ModTime { secs, nanos } }
}

/// Runs the decision for one file pair as a caller would, given what the
/// files hold; returns whether it copied, and the destination afterwards.
fn run_decision(
    src: (FileMeta, &[u8]),
    dst: Option<(FileMeta, Vec<u8>)>,
) -> (bool, (FileMeta, Vec<u8>), usize) {
    let mut phase = CopyPhase::start();
    let mut dst = dst;
    let mut digests_taken = 0usize;
    loop {
        let event = match phase {
            CopyPhase::Start => match &dst {
                None => CopyEvent::DestinationMissing,
                Some((m, _)) => CopyEvent::DestinationFound { src: src.0, dst: *m },
            },
            CopyPhase::AwaitDigests => {
                digests_taken += 1;
                let d = dst.as_ref().unwrap();
                CopyEvent::Digests { src: digest_of(src.1), dst: digest_of(&d.1) }
            }
            CopyPhase::AwaitCopy => {
                dst = Some((src.0, src.1.to_vec()));
                CopyEvent::CopyFinished
            }
            CopyPhase::Done { copied } => return (copied, dst.unwrap(), digests_taken),
        };
        phase = phase.advance(&event);
    }
}

#[test]
fn anchored_pattern_matches_whole_name_only() {
    let s = set(&["^skip$"]);
    assert!(s.is_ignored("skip"));
    assert!(!s.is_ignored("skipper"));
    assert!(!s.is_ignored("a.txt"));
}

#[test]
fn unanchored_pattern_matches_anywhere_in_name() {
    let s = set(&["tmp"]);
    assert!(s.is_ignored("a.tmp.txt"));
    assert!(s.is_ignored("tmp"));
    assert!(!s.is_ignored("a.txt"));
}

#[test]
fn matching_is_case_sensitive() {
    let s = set(&["build"]);
    assert!(s.is_ignored("build"));
    assert!(!s.is_ignored("Build"));
}

#[test]
fn any_pattern_suffices() {
    let s = set(&["^target$", r"\.log$"]);
    assert!(s.is_ignored("target"));
    assert!(s.is_ignored("run.log"));
    assert!(!s.is_ignored("log.txt"));
    assert_eq!(s.len(), 2);
}

#[test]
fn empty_set_ignores_nothing() {
    let s = set(&[]);
    assert!(!s.is_ignored("anything"));
    assert!(!s.is_ignored(""));
}

#[test]
fn invalid_pattern_reports_first_bad_index() {
    let sources: Vec<String> = vec!["ok".to_string(), "(".to_string(), "[".to_string()];
    match IgnoreSet::new(&sources) {
        Err(e) => assert_eq!(e, InvalidPattern { index: 1 }),
        Ok(_) => panic!("an unbalanced parenthesis must be refused"),
    }
}

#[test]
fn from_lines_skips_empty_lines() {
    let lines: Vec<String> = vec!["".to_string(), "^skip$".to_string(), "".to_string()];
    let s = IgnoreSet::from_lines(&lines).unwrap();
    assert_eq!(s.len(), 1);
    assert!(s.is_ignored("skip"));
    assert!(!s.is_ignored(""));
}

#[test]
fn from_lines_counts_index_among_patterns() {
    let lines: Vec<String> = vec!["".to_string(), "a".to_string(), "".to_string(), "(".to_string()];
    match IgnoreSet::from_lines(&lines) {
        Err(e) => assert_eq!(e.index, 1),
        Ok(_) => panic!("an unbalanced parenthesis must be refused"),
    }
}

#[test]
fn single_pattern_compiles_and_keeps_text() {
    let p = IgnorePattern::new(r"^\.git$").unwrap();
    assert_eq!(p.as_str(), r"^\.git$");
    assert!(p.is_match(".git"));
    assert!(!p.is_match("xgit"));
    assert!(IgnorePattern::new("[").is_none());
}

#[test]
fn digest_of_known_inputs() {
    assert_eq!(hex(&digest_of(b"hello world")), "2aae6c35c94fcfb415dbe95f408b9ce91ee846ed");
    assert_eq!(hex(&digest_of(b"")), "da39a3ee5e6b4b0d3255bfef95601890afd80709");
    assert_eq!(hex(&digest_of(b"hello")), "aaf4c61ddcc5e8a2dabede0f3b482cd9aea9434d");
}

#[test]
fn chunked_digest_equals_whole_digest() {
    let data: Vec<u8> = (0..3000u32).map(|i| (i % 251) as u8).collect();
    let mut h = ContentHasher::new();
    for chunk in data.chunks(1024) {
        h.update(chunk);
    }
    assert_eq!(h.finish(), digest_of(&data));
    let mut h2 = ContentHasher::new();
    h2.update(b"hello ");
    h2.update(b"");
    h2.update(b"world");
    assert_eq!(hex(&h2.finish()), "2aae6c35c94fcfb415dbe95f408b9ce91ee846ed");
}

#[test]
fn missing_destination_is_copied_without_digests() {
    let (copied, dst, digests) = run_decision((meta(5, 100, 0), b"hello"), None);
    assert!(copied);
    assert_eq!(dst.1, b"hello".to_vec());
    assert_eq!(digests, 0);
}

#[test]
fn same_metadata_skips_without_digests() {
    let m = meta(5, 100, 7);
    let (copied, dst, digests) = run_decision((m, b"hello"), Some((m, b"HELLO".to_vec())));
    assert!(!copied);
    assert_eq!(dst.1, b"HELLO".to_vec());
    assert_eq!(digests, 0);
}

#[test]
fn equal_content_with_other_mtime_is_not_copied() {
    let (copied, dst, digests) =
        run_decision((meta(5, 200, 0), b"hello"), Some((meta(5, 100, 0), b"hello".to_vec())));
    assert!(!copied);
    assert_eq!(dst.0, meta(5, 100, 0));
    assert_eq!(digests, 1);
}

#[test]
fn changed_content_is_copied() {
    let (copied, dst, digests) =
        run_decision((meta(11, 200, 0), b"hello world"), Some((meta(5, 100, 0), b"hello".to_vec())));
    assert!(copied);
    assert_eq!(dst.1, b"hello world".to_vec());
    assert_eq!(dst.0, meta(11, 200, 0));
    assert_eq!(digests, 1);
}

#[test]
fn nanosecond_difference_is_a_metadata_change() {
    let (copied, _, digests) =
        run_decision((meta(5, 100, 1), b"hello"), Some((meta(5, 100, 2), b"jello".to_vec())));
    assert!(copied);
    assert_eq!(digests, 1);
}

#[test]
fn event_outside_its_phase_changes_nothing() {
    assert_eq!(CopyPhase::Start.advance(&CopyEvent::CopyFinished), CopyPhase::Start);
    assert_eq!(
        CopyPhase::AwaitCopy.advance(&CopyEvent::DestinationMissing),
        CopyPhase::AwaitCopy
    );
    let done = CopyPhase::Done { copied: true };
    assert_eq!(done.advance(&CopyEvent::CopyFinished), done);
    assert!(done.is_done());
    assert!(!CopyPhase::AwaitDigests.is_done());
}

#[test]
fn digests_event_decides_by_bytes() {
    let same = CopyEvent::Digests { src: vec![1, 2, 3], dst: vec![1, 2, 3] };
    let other = CopyEvent::Digests { src: vec![1, 2, 3], dst: vec![1, 2, 4] };
    let shorter = CopyEvent::Digests { src: vec![1, 2, 3], dst: vec![1, 2] };
    assert_eq!(CopyPhase::AwaitDigests.advance(&same), CopyPhase::Done { copied: false });
    assert_eq!(CopyPhase::AwaitDigests.advance(&other), CopyPhase::AwaitCopy);
    assert_eq!(CopyPhase::AwaitDigests.advance(&shorter), CopyPhase::AwaitCopy);
}

#[test]
fn entry_plans() {
    let s = set(&["^skip$"]);
    assert_eq!(plan_entry(&s, "skip", true), EntryAction::Skip);
    assert_eq!(plan_entry(&s, "skip", false), EntryAction::Skip);
    assert_eq!(plan_entry(&s, "docs", true), EntryAction::Descend);
    assert_eq!(plan_entry(&s, "a.txt", false), EntryAction::SyncFile);
}

#[test]
fn counters_record_visits_and_copies() {
    let mut c = SyncCounters::new();
    assert_eq!((c.total_files, c.copied_files), (0, 0));
    c.record_file(true);
    c.record_file(false);
    c.record_file(true);
    assert_eq!((c.total_files, c.copied_files), (3, 2));
    assert!(c.has_room());
    let full = SyncCounters { total_files: u64::MAX, copied_files: 0 };
    assert!(!full.has_room());
}

/// A source tree as (path below the root, is_dir, content) in walk order.
type Entry = (Vec<&'static str>, bool, &'static [u8]);

/// Walks `tree` with the library's decisions; the destination maps a path to
/// (metadata, content); directories are recorded with empty content.
fn sync(
    ignore: &IgnoreSet,
    tree: &[Entry],
    dst: &mut Vec<(Vec<&'static str>, bool, FileMeta, Vec<u8>)>,
) -> SyncCounters {
    let mut c = SyncCounters::new();
    for (path, is_dir, content) in tree {
        let reached = path
            .iter()
            .enumerate()
            .all(|(k, name)| {
                let dir = k + 1 < path.len() || *is_dir;
                plan_entry(ignore, name, dir) != EntryAction::Skip
            });
        if !reached {
            continue;
        }
        if *is_dir {
            if !dst.iter().any(|(p, _, _, _)| p == path) {
                dst.push((path.clone(), true, meta(0, 0, 0), vec![]));
            }
            continue;
        }
        let src_meta = meta(content.len() as u64, 50, 0);
        let existing = dst.iter().position(|(p, _, _, _)| p == path);
        let before = existing.map(|i| (dst[i].2, dst[i].3.clone()));
        let (copied, after, _) = run_decision((src_meta, content), before);
        match existing {
            Some(i) => {
                dst[i].2 = after.0;
                dst[i].3 = after.1;
            }
            None => dst.push((path.clone(), false, after.0, after.1)),
        }
        c.record_file(copied);
    }
    c
}

fn scenario_tree() -> Vec<Entry> {
    vec![
        (vec!["a.txt"], false, b"hello"),
        (vec!["b.txt"], false, b"hello"),
        (vec!["skip"], true, b""),
        (vec!["skip", "c.txt"], false, b"c"),
        (vec!["skip", "deep"], true, b""),
        (vec!["skip", "deep", "d.txt"], false, b"d"),
    ]
}

#[test]
fn two_files_and_an_ignored_directory() {
    let ignore = set(&["^skip$"]);
    let mut dst = Vec::new();
    let c = sync(&ignore, &scenario_tree(), &mut dst);
    assert_eq!(c.total_files, 2);
    assert_eq!(c.copied_files, 2);
    assert_eq!(dst.len(), 2);
    assert!(dst.iter().any(|(p, _, _, d)| p == &vec!["a.txt"] && d == b"hello"));
    assert!(dst.iter().any(|(p, _, _, d)| p == &vec!["b.txt"] && d == b"hello"));
    assert!(!dst.iter().any(|(p, _, _, _)| p[0] == "skip"));
}

#[test]
fn second_run_copies_nothing() {
    let ignore = set(&["^skip$"]);
    let mut dst = Vec::new();
    sync(&ignore, &scenario_tree(), &mut dst);
    let again = sync(&ignore, &scenario_tree(), &mut dst);
    assert_eq!(again.total_files, 2);
    assert_eq!(again.copied_files, 0);
}

#[test]
fn new_files_all_copied() {
    let ignore = set(&[r"\.bak$"]);
    let tree: Vec<Entry> = vec![
        (vec!["x"], false, b"1"),
        (vec!["d"], true, b""),
        (vec!["d", "y"], false, b"22"),
        (vec!["d", "y.bak"], false, b"old"),
        (vec!["d", "e"], true, b""),
        (vec!["d", "e", "z"], false, b""),
    ];
    let mut dst = Vec::new();
    let c = sync(&ignore, &tree, &mut dst);
    assert_eq!(c.total_files, 3);
    assert_eq!(c.copied_files, 3);
    assert!(dst.iter().any(|(p, d, _, _)| p == &vec!["d", "e"] && *d));
    assert!(!dst.iter().any(|(p, _, _, _)| p.last() == Some(&"y.bak")));
}
