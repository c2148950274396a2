use cargo_assets::direct::{direct_tasks, DirectConclusion, DownloadAssetTask, ProgressMsg};
use cargo_assets::download::{
    accepts_byte_ranges, assets_dir_under, choose_transfer, chunk_ranges, first_failure,
    sync_tasks, Conclusion, HeadReply, SyncAssetTask, Transfer, CHUNK_SIZE,
};
use cargo_assets::error::{AssetsError, VerificationError};
use cargo_assets::hashing::DigestStream;
use cargo_assets::metadata::{Asset, CargoMetadata, Package, PackageMetadata};
use cargo_assets::progress::{BarBoard, BarCommand, Progress};
use cargo_assets::text::{range_header, u64_to_decimal, verifying_text};

const HELLO_SHA: &str = "b94d27b9934d3e08a52e52d7da7dabfac484efe37a5380ee9088f7ace2efcde9";
const EMPTY_SHA: &str = "e3b0c44298fc1c149afbf4c8996fb92427ae41e4649b934ca495991b7852b855";

fn asset(name: &str, sha: Option<&str>) -> Asset {
    Asset {
        name: name.to_string(),
        url: format!("https://example.com/{name}"),
        sha256: sha.map(|s| s.to_string()),
    }
}

fn task(id: usize, sha: Option<&str>) -> SyncAssetTask {
    SyncAssetTask::new(id, asset("model.bin", sha), "/work/target/assets".to_string())
}

#[test]
fn decimal_rendering_matches_display() {
    for n in [0u64, 7, 10, 99, 1234567890, u64::MAX] {
        assert_eq!(u64_to_decimal(n), n.to_string());
    }
}

#[test]
fn range_header_names_inclusive_bytes() {
    assert_eq!(range_header(0, 1073741823), "bytes=0-1073741823");
    assert_eq!(range_header(1073741824, 1073741830), "bytes=1073741824-1073741830");
}

#[test]
fn chunk_ranges_of_empty_download_is_empty() {
    assert!(chunk_ranges(0).is_empty());
}

#[test]
fn chunk_ranges_tile_the_content() {
    assert_eq!(chunk_ranges(1), vec![(0, 0)]);
    assert_eq!(chunk_ranges(CHUNK_SIZE), vec![(0, CHUNK_SIZE - 1)]);
    assert_eq!(chunk_ranges(CHUNK_SIZE + 1), vec![(0, CHUNK_SIZE - 1), (CHUNK_SIZE, CHUNK_SIZE)]);
    let size = 3 * CHUNK_SIZE + 5;
    let r = chunk_ranges(size);
    assert_eq!(r.len(), 4);
    assert_eq!(r[0].0, 0);
    for k in 0..r.len() - 1 {
        assert_eq!(r[k].1 + 1, r[k + 1].0);
        assert_eq!(r[k].1 - r[k].0 + 1, CHUNK_SIZE);
    }
    assert_eq!(r[3], (3 * CHUNK_SIZE, size - 1));
}

#[test]
fn accept_ranges_value_must_be_bytes() {
    assert!(accepts_byte_ranges(b"bytes"));
    assert!(!accepts_byte_ranges(b"none"));
    assert!(!accepts_byte_ranges(b"Bytes"));
    assert!(!accepts_byte_ranges(b"bytes "));
    assert!(!accepts_byte_ranges(b""));
}

fn head(success: bool, len: Option<u64>, ranges: Option<&[u8]>) -> Option<HeadReply> {
    Some(HeadReply { success, content_length: len, accept_ranges: ranges.map(|r| r.to_vec()) })
}

#[test]
fn parallel_only_for_large_ranged_content() {
    let big = CHUNK_SIZE + 1;
    assert_eq!(choose_transfer(&head(true, Some(big), Some(b"bytes"))), Transfer::Parallel { size: big });
    assert_eq!(choose_transfer(&head(true, Some(CHUNK_SIZE), Some(b"bytes"))), Transfer::Sequential);
    assert_eq!(choose_transfer(&head(true, Some(big), Some(b"none"))), Transfer::Sequential);
    assert_eq!(choose_transfer(&head(true, Some(big), None)), Transfer::Sequential);
    assert_eq!(choose_transfer(&head(false, Some(big), Some(b"bytes"))), Transfer::Sequential);
    assert_eq!(choose_transfer(&head(true, None, Some(b"bytes"))), Transfer::Sequential);
    assert_eq!(choose_transfer(&None), Transfer::Sequential);
}

#[test]
fn digest_of_streamed_content() {
    let mut s = DigestStream::new(3);
    let p1 = s.feed(b"hello ");
    let p2 = s.feed(b"world");
    assert!(matches!(p1, Progress::Inc { id: 3, n: 6 }));
    assert!(matches!(p2, Progress::Inc { id: 3, n: 5 }));
    assert_eq!(s.hex_digest(), HELLO_SHA);
    let mut whole = DigestStream::new(0);
    whole.absorb(b"hello world");
    assert_eq!(whole.hex_digest(), HELLO_SHA);
    assert_eq!(DigestStream::new(0).hex_digest(), EMPTY_SHA);
}

#[test]
fn paths_are_joined_like_camino() {
    assert_eq!(assets_dir_under("/work/target"), "/work/target/assets");
    assert_eq!(task(0, None).destination(), "/work/target/assets/model.bin");
    let nested = SyncAssetTask::new(0, asset("sub/model.bin", None), "/work/target/assets".to_string());
    assert_eq!(nested.destination(), "/work/target/assets/sub/model.bin");
    let absolute = SyncAssetTask::new(0, asset("/abs/model.bin", None), "/work/target/assets".to_string());
    assert_eq!(absolute.destination(), "/abs/model.bin");
    let trailing = SyncAssetTask::new(0, asset("m", None), "/dir/".to_string());
    assert_eq!(trailing.destination(), "/dir/m");
}

#[test]
fn existing_destination_finishes_at_once() {
    let t = task(4, None);
    assert!(matches!(t.cached(true), Some(Progress::Finish { id: 4 })));
    assert!(t.cached(false).is_none());
}

#[test]
fn start_reports_length_or_zero() {
    let t = task(2, None);
    assert!(matches!(t.started(Some(10)), Progress::Start { id: 2, ref name, size: 10 } if name == "model.bin"));
    assert!(matches!(t.started(None), Progress::Start { id: 2, size: 0, .. }));
    assert!(matches!(t.stored(7), Progress::Inc { id: 2, n: 7 }));
}

#[test]
fn verification_phase_only_with_checksum() {
    assert!(task(1, None).verification(100).is_none());
    let p = task(1, Some(HELLO_SHA)).verification(100);
    assert!(matches!(p, Some(Progress::Reset { id: 1, ref name, size: 100 }) if name == "Verifying model.bin..."));
    assert_eq!(verifying_text("x"), "Verifying x...");
}

#[test]
fn matching_checksum_finishes() {
    let t = task(5, Some(HELLO_SHA));
    let mut s = t.digest_stream();
    s.absorb(b"hello world");
    assert!(matches!(t.conclude(s), Conclusion::Finished(Progress::Finish { id: 5 })));
}

#[test]
fn mismatching_checksum_fails_with_name() {
    let t = task(5, Some(HELLO_SHA));
    let mut s = t.digest_stream();
    s.absorb(b"hello there");
    match t.conclude(s) {
        Conclusion::Mismatch { notice: Progress::Error { id, msg }, error: AssetsError::Checksum(n) } => {
            assert_eq!(id, 5);
            assert_eq!(msg, "SHA-256 mismatch for model.bin");
            assert_eq!(n, "model.bin");
        }
        _ => panic!("expected a mismatch"),
    }
}

#[test]
fn uppercase_checksum_does_not_match() {
    let t = task(0, Some(&HELLO_SHA.to_uppercase()));
    let mut s = t.digest_stream();
    s.absorb(b"hello world");
    assert!(matches!(t.conclude(s), Conclusion::Mismatch { .. }));
}

#[test]
fn no_checksum_always_finishes() {
    let t = task(6, None);
    let mut s = t.digest_stream();
    s.absorb(b"anything");
    assert!(matches!(t.conclude(s), Conclusion::Finished(Progress::Finish { id: 6 })));
}

#[test]
fn asset_accessors() {
    let a = asset("data.tar", None);
    assert_eq!(a.name(), "data.tar");
    assert_eq!(a.url(), "https://example.com/data.tar");
    assert_eq!(a.expected_sha256(), None);
    assert_eq!(asset("d", Some("ab")).expected_sha256(), Some("ab"));
}

#[test]
fn asset_verification_outcomes() {
    assert!(asset("a", None).start_verification(0).is_none());
    let good = asset("a", Some(HELLO_SHA));
    let mut s = good.start_verification(9).unwrap();
    assert!(matches!(s.feed(b"hello world"), Progress::Inc { id: 9, n: 11 }));
    assert!(good.check_digest(s).is_ok());
    let bad = asset("a", Some(EMPTY_SHA));
    let mut s = bad.start_verification(9).unwrap();
    s.absorb(b"hello world");
    match bad.check_digest(s) {
        Err(AssetsError::Verification(VerificationError::Mismatch { name, expected, actual })) => {
            assert_eq!(name, "a");
            assert_eq!(expected, EMPTY_SHA);
            assert_eq!(actual, HELLO_SHA);
        }
        other => panic!("unexpected {other:?}"),
    }
    assert!(matches!(good.verification_notice(2, 11), Progress::Reset { id: 2, ref name, size: 11 } if name == "Verifying a..."));
    let e = good.read_failure(std::io::Error::new(std::io::ErrorKind::NotFound, "gone"));
    assert!(matches!(e, AssetsError::Verification(VerificationError::Io { ref name, .. }) if name == "a"));
}

#[test]
fn workspace_assets_come_first() {
    let m = CargoMetadata {
        packages: vec![
            Package { metadata: Some(PackageMetadata { assets: Some(vec![asset("p1", None), asset("p2", None)]) }) },
            Package { metadata: None },
            Package { metadata: Some(PackageMetadata { assets: None }) },
            Package { metadata: Some(PackageMetadata { assets: Some(vec![asset("p3", None)]) }) },
        ],
        target_directory: "/work/target".to_string(),
        metadata: Some(PackageMetadata { assets: Some(vec![asset("w1", Some("00"))]) }),
    };
    let names: Vec<String> = m.assets().iter().map(|a| a.name().to_string()).collect();
    assert_eq!(names, vec!["w1", "p1", "p2", "p3"]);
    assert_eq!(m.assets()[0].expected_sha256(), Some("00"));
    assert_eq!(m.target_directory(), "/work/target");
}

#[test]
fn no_metadata_means_no_assets() {
    let m = CargoMetadata { packages: vec![], target_directory: String::new(), metadata: None };
    assert!(m.assets().is_empty());
}

#[test]
fn failed_metadata_run_reports_stderr() {
    match CargoMetadata::load_failure(b"error: no Cargo.toml\n".to_vec()) {
        AssetsError::CargoMetadata(s) => assert_eq!(s, "error: no Cargo.toml\n"),
        other => panic!("unexpected {other:?}"),
    }
    assert!(matches!(CargoMetadata::load_failure(vec![0xff, 0xfe]), AssetsError::FromUtf8(_)));
}

#[test]
fn tasks_are_numbered_in_asset_order() {
    let tasks = sync_tasks(vec![asset("a", None), asset("b", Some("ff"))], "/dir");
    assert_eq!(tasks.len(), 2);
    assert_eq!((tasks[0].id, tasks[0].name.as_str(), tasks[0].assets_dir.as_str()), (0, "a", "/dir"));
    assert_eq!((tasks[1].id, tasks[1].name.as_str(), tasks[1].sha256.as_deref()), (1, "b", Some("ff")));
    assert_eq!(tasks[1].url, "https://example.com/b");
}

#[test]
fn first_failure_in_task_order() {
    let ok: Vec<Result<(), &str>> = vec![Ok(()), Ok(())];
    assert_eq!(first_failure(ok), Ok(()));
    assert_eq!(first_failure::<&str>(vec![]), Ok(()));
    assert_eq!(first_failure(vec![Ok(()), Err("b"), Err("c")]), Err("b"));
}

#[test]
fn bars_follow_task_lifecycle() {
    let mut b = BarBoard::new();
    assert!(matches!(b.route(Progress::Inc { id: 1, n: 5 }), BarCommand::Skip));
    assert!(matches!(b.route(Progress::Start { id: 1, name: "x".into(), size: 9 }), BarCommand::Add { id: 1, size: 9, ref message } if message == "x"));
    assert!(b.has_bar(1));
    assert!(matches!(b.route(Progress::Inc { id: 1, n: 5 }), BarCommand::Advance { id: 1, n: 5 }));
    assert!(matches!(b.route(Progress::Reset { id: 1, name: "v".into(), size: 9 }), BarCommand::Restart { id: 1, size: 9, .. }));
    assert!(matches!(b.route(Progress::Finish { id: 1 }), BarCommand::Clear { id: 1 }));
    assert!(!b.has_bar(1));
    assert!(matches!(b.route(Progress::Inc { id: 1, n: 5 }), BarCommand::Skip));
    assert!(matches!(b.route(Progress::Finish { id: 1 }), BarCommand::Skip));
    b.route(Progress::Start { id: 2, name: "y".into(), size: 1 });
    assert!(matches!(b.route(Progress::Error { id: 2, msg: "bad".into() }), BarCommand::Close { id: 2, ref message } if message == "bad"));
    assert!(matches!(b.route(Progress::Error { id: 2, msg: "bad".into() }), BarCommand::Skip));
}

#[test]
fn board_open_and_close() {
    let mut b = BarBoard::new();
    b.open_bar(3);
    b.open_bar(3);
    assert!(b.close_bar(3));
    assert!(!b.has_bar(3));
    assert!(!b.close_bar(3));
}

#[test]
fn direct_messages() {
    let a = asset("m.bin", Some(HELLO_SHA));
    let t = DownloadAssetTask { id: 7, asset: &a, assets_dir: "/t/assets" };
    assert_eq!(t.destination(), "/t/assets/m.bin");
    assert!(matches!(t.cached_notice(), ProgressMsg::Finish { id: 7, ref msg } if msg == "✅ m.bin (cached)"));
    assert!(matches!(t.started(None), ProgressMsg::Start { id: 7, total_size: 0, ref name } if name == "m.bin"));
    assert!(matches!(t.received(4), ProgressMsg::Inc { id: 7, n: 4 }));
    let mut s = DigestStream::new(7);
    s.absorb(b"hello world");
    assert!(matches!(t.conclude(s), DirectConclusion::Finished(ProgressMsg::Finish { id: 7, ref msg }) if msg == "✅ Downloaded m.bin"));
    let mut s = DigestStream::new(7);
    s.absorb(b"other");
    match t.conclude(s) {
        DirectConclusion::Mismatch { notice: ProgressMsg::Error { id, msg }, reason } => {
            assert_eq!(id, 7);
            assert_eq!(msg, "❌ SHA-256 mismatch for m.bin");
            assert_eq!(reason, msg);
        }
        _ => panic!("expected a mismatch"),
    }
}

#[test]
fn direct_tasks_borrow_assets_in_order() {
    let assets = vec![asset("a", None), asset("b", None)];
    let tasks = direct_tasks(&assets, "/d");
    assert_eq!(tasks.len(), 2);
    assert_eq!((tasks[1].id, tasks[1].asset.name(), tasks[1].assets_dir), (1, "b", "/d"));
}

#[test]
fn direct_bars() {
    let mut b = BarBoard::new();
    assert!(matches!(b.route_direct(ProgressMsg::Finish { id: 1, msg: "cached".into() }), BarCommand::Print { ref message } if message == "cached"));
    assert!(matches!(b.route_direct(ProgressMsg::Start { id: 1, name: "f".into(), total_size: 3 }), BarCommand::Add { id: 1, size: 3, ref message } if message == "Downloading f"));
    assert!(matches!(b.route_direct(ProgressMsg::Inc { id: 1, n: 3 }), BarCommand::Advance { id: 1, n: 3 }));
    assert!(matches!(b.route_direct(ProgressMsg::Finish { id: 1, msg: "done".into() }), BarCommand::Close { id: 1, ref message } if message == "done"));
    assert!(matches!(b.route_direct(ProgressMsg::Error { id: 1, msg: "x".into() }), BarCommand::Skip));
}

#[test]
fn judging_a_hex_digest() {
    let t = task(8, Some("abc"));
    assert!(matches!(t.judge_digest("abc".to_string()), Conclusion::Finished(Progress::Finish { id: 8 })));
    assert!(matches!(t.judge_digest("ABC".to_string()), Conclusion::Mismatch { error: AssetsError::Checksum(_), .. }));
    assert!(matches!(task(8, None).judge_digest("zz".to_string()), Conclusion::Finished(_)));
    let a = asset("f", Some("abc"));
    assert!(a.judge_digest("abc".to_string()).is_ok());
    assert!(matches!(a.judge_digest("abd".to_string()), Err(AssetsError::Verification(VerificationError::Mismatch { ref actual, .. })) if actual == "abd"));
    assert!(asset("f", None).judge_digest("x".to_string()).is_ok());
    let d = DownloadAssetTask { id: 1, asset: &a, assets_dir: "/d" };
    assert!(matches!(d.judge_digest("abc".to_string()), DirectConclusion::Finished(_)));
    assert!(matches!(d.judge_digest("".to_string()), DirectConclusion::Mismatch { .. }));
}

#[test]
fn download_reports_a_complete_lifecycle() {
    let t = task(3, Some(HELLO_SHA));
    let mut events = vec![t.started(Some(11))];
    events.push(t.stored(11));
    events.push(t.verification(11).unwrap());
    let mut s = t.digest_stream();
    events.push(s.feed(b"hello world"));
    match t.conclude(s) {
        Conclusion::Finished(e) => events.push(e),
        Conclusion::Mismatch { notice, .. } => events.push(notice),
    }
    assert!(matches!(events[0], Progress::Start { id: 3, .. }));
    assert!(matches!(events[1], Progress::Inc { id: 3, n: 11 }));
    assert!(matches!(events[2], Progress::Reset { id: 3, .. }));
    assert!(matches!(events[3], Progress::Inc { id: 3, n: 11 }));
    assert!(matches!(events[4], Progress::Finish { id: 3 }));
    let mut board = BarBoard::new();
    let commands: Vec<BarCommand> = events.into_iter().map(|e| board.route(e)).collect();
    assert!(matches!(commands[4], BarCommand::Clear { id: 3 }));
    assert!(!board.has_bar(3));
}
