use ipfs_proxy::caching::{
    after_directory, cache_path, cached_data, caching_filename, content_type_of, delete_caching,
    get_caching, last_segment_of, names_directory, set_stream_caching, CachePath, Data, Found,
    Probe, INFERENCE_WINDOW,
};
use ipfs_proxy::error::Error;
use ipfs_proxy::stream_write::{WriteAction, WriteEvent, WriteState};
use std::path::Path;

const CID: &str = "bafybeicugp6ayh2wh3j2dwb2bhesmxmo2husbbs5prla4wj6rf3ivg3344";

#[test]
fn filename_for_dir() {
    let path = caching_filename(
        "ipfs://bafybeicugp6ayh2wh3j2dwb2bhesmxmo2husbbs5prla4wj6rf3ivg3344",
        "tmp/ipfs",
        Some("text/html".to_string()),
    )
    .unwrap();

    assert_eq!(
        path.filename,
        "tmp/ipfs/bafybeicugp6ayh2wh3j2dwb2bhesmxmo2husbbs5prla4wj6rf3ivg3344/index.html"
    );
    assert_eq!(
        Path::new(&path.cache_dir),
        Path::new("tmp/ipfs/bafybeicugp6ayh2wh3j2dwb2bhesmxmo2husbbs5prla4wj6rf3ivg3344")
    );
}

#[test]
fn filename_for_subdir() {
    let path = caching_filename(
        "ipfs://bafybeicugp6ayh2wh3j2dwb2bhesmxmo2husbbs5prla4wj6rf3ivg3344/metadata",
        "tmp/ipfs",
        Some("text/html".to_string()),
    )
    .unwrap();

    assert_eq!(
        path.filename,
        "tmp/ipfs/bafybeicugp6ayh2wh3j2dwb2bhesmxmo2husbbs5prla4wj6rf3ivg3344/metadata/index.html"
    );
    assert_eq!(
        Path::new(&path.cache_dir),
        Path::new("tmp/ipfs/bafybeicugp6ayh2wh3j2dwb2bhesmxmo2husbbs5prla4wj6rf3ivg3344/metadata")
    );
}

#[test]
fn filename_for_non_html_file() {
    let path = caching_filename(
        "ipfs://bafybeicugp6ayh2wh3j2dwb2bhesmxmo2husbbs5prla4wj6rf3ivg3344/metadata/3",
        "tmp/ipfs",
        Some("application/json".to_string()),
    )
    .unwrap();

    assert_eq!(
        path.filename,
        "tmp/ipfs/bafybeicugp6ayh2wh3j2dwb2bhesmxmo2husbbs5prla4wj6rf3ivg3344/metadata/3"
    );
    assert_eq!(
        Path::new(&path.cache_dir),
        Path::new("tmp/ipfs/bafybeicugp6ayh2wh3j2dwb2bhesmxmo2husbbs5prla4wj6rf3ivg3344/metadata")
    );
}

#[test]
fn filename_for_html_file_without_extension() {
    let path = caching_filename(
        "ipfs://bafybeicugp6ayh2wh3j2dwb2bhesmxmo2husbbs5prla4wj6rf3ivg3344/metadata/4",
        "tmp/ipfs",
        Some("text/html".to_string()),
    )
    .unwrap();

    assert_eq!(
        path.filename,
        "tmp/ipfs/bafybeicugp6ayh2wh3j2dwb2bhesmxmo2husbbs5prla4wj6rf3ivg3344/metadata/4/index.html"
    );
    assert_eq!(
        Path::new(&path.cache_dir),
        Path::new("tmp/ipfs/bafybeicugp6ayh2wh3j2dwb2bhesmxmo2husbbs5prla4wj6rf3ivg3344/metadata/4")
    );
}

#[test]
fn filename_for_html_file_with_extension() {
    let path = caching_filename(
        "ipfs://bafybeicugp6ayh2wh3j2dwb2bhesmxmo2husbbs5prla4wj6rf3ivg3344/metadata/5.html",
        "tmp/ipfs",
        Some("text/html".to_string()),
    )
    .unwrap();

    assert_eq!(
        path.filename,
        "tmp/ipfs/bafybeicugp6ayh2wh3j2dwb2bhesmxmo2husbbs5prla4wj6rf3ivg3344/metadata/5.html"
    );
    assert_eq!(
        Path::new(&path.cache_dir),
        Path::new("tmp/ipfs/bafybeicugp6ayh2wh3j2dwb2bhesmxmo2husbbs5prla4wj6rf3ivg3344/metadata/")
    );
}

#[test]
fn delete_caching_one_file() {
    let ipfs_url = "ipfs://bafybeicugp6ayh2wh3j2dwb2bhesmxmo2husbbs5prla4wj6rf3ivg3344/metadata/81";

    let removal = delete_caching(ipfs_url, "tmp/ipfs", None).unwrap();

    assert_eq!(
        removal.filename,
        "tmp/ipfs/bafybeicugp6ayh2wh3j2dwb2bhesmxmo2husbbs5prla4wj6rf3ivg3344/metadata/81"
    );
    assert_eq!(
        removal.directories,
        vec![
            "tmp/ipfs/bafybeicugp6ayh2wh3j2dwb2bhesmxmo2husbbs5prla4wj6rf3ivg3344/metadata"
                .to_string(),
            "tmp/ipfs/bafybeicugp6ayh2wh3j2dwb2bhesmxmo2husbbs5prla4wj6rf3ivg3344".to_string(),
        ]
    );
}

#[test]
fn delete_caching_multiple_files() {
    let first = "ipfs://bafybeicugp6ayh2wh3j2dwb2bhesmxmo2husbbs5prla4wj6rf3ivg3344/metadata/81";
    let second = "ipfs://bafybeicugp6ayh2wh3j2dwb2bhesmxmo2husbbs5prla4wj6rf3ivg3344/metadata/82";

    let kept = delete_caching(first, "tmp/ipfs", Some("application/json".to_string())).unwrap();
    let removal = delete_caching(second, "tmp/ipfs", Some("application/json".to_string())).unwrap();

    assert_eq!(
        removal.filename,
        "tmp/ipfs/bafybeicugp6ayh2wh3j2dwb2bhesmxmo2husbbs5prla4wj6rf3ivg3344/metadata/82"
    );
    assert_ne!(removal.filename, kept.filename);
    // siblings share their directories, so the first that is not empty ends the removal
    assert_eq!(removal.directories, kept.directories);
}

#[test]
fn removal_of_a_directory_listing_names_each_directory_once() {
    let url = format!("ipfs://{CID}/metadata/");
    let removal = delete_caching(&url, "/var/cache", Some("text/html".to_string())).unwrap();
    assert_eq!(removal.filename, format!("/var/cache/{CID}/metadata//index.html"));
    assert_eq!(
        removal.directories,
        vec![format!("/var/cache/{CID}/metadata"), format!("/var/cache/{CID}")]
    );
}

#[test]
fn removal_never_names_the_cache_root() {
    let url = format!("ipfs://{CID}");
    let removal = delete_caching(&url, "tmp/ipfs", None).unwrap();
    assert_eq!(removal.filename, format!("tmp/ipfs/{CID}"));
    assert!(removal.directories.is_empty());
}

#[test]
fn removal_of_an_invalid_url_is_refused() {
    assert_eq!(
        delete_caching("ipfs://nothing/metadata/1", "tmp/ipfs", None),
        Err(Error::InvalidCid { url: "ipfs://nothing/metadata/1".to_string() })
    );
    assert_eq!(
        delete_caching("https://example.org/x", "tmp/ipfs", None),
        Err(Error::NotIpfsUrl { url: "https://example.org/x".to_string() })
    );
}

#[test]
fn resolution_is_the_same_on_every_call() {
    let url = format!("ipfs://{CID}/a/b.json");
    let first = caching_filename(&url, "root", Some("text/html".to_string())).unwrap();
    let second = caching_filename(&url, "root", Some("text/html".to_string())).unwrap();
    assert_eq!(first, second);
    assert_eq!(first.filename, format!("root/{CID}/a/b.json"));
}

#[test]
fn trailing_slash_marks_a_directory_whatever_the_hint() {
    let url = format!("ipfs://{CID}/metadata/");
    for hint in [None, Some("application/json".to_string()), Some("text/html".to_string())] {
        let path = caching_filename(&url, "root", hint).unwrap();
        assert_eq!(path.filename, format!("root/{CID}/metadata//index.html"));
        assert_eq!(path.cache_dir, format!("root/{CID}/metadata/"));
    }
}

#[test]
fn without_a_hint_a_plain_name_is_a_file() {
    let url = format!("ipfs://{CID}/metadata/4");
    let path = caching_filename(&url, "root", None).unwrap();
    assert_eq!(path.filename, format!("root/{CID}/metadata/4"));
    assert!(!path.filename.ends_with("/index.html"));
    assert_eq!(path.cache_dir, format!("root/{CID}/metadata"));
}

#[test]
fn a_file_named_index_html_keeps_its_name() {
    let url = format!("ipfs://{CID}/index.html");
    let path = caching_filename(&url, "root", None).unwrap();
    assert_eq!(path.filename, format!("root/{CID}/index.html"));
    assert_eq!(path.cache_dir, format!("root/{CID}"));
}

#[test]
fn extension_decides_under_the_html_hint() {
    let html = Some("text/html".to_string());
    assert!(names_directory("cid/page", &html));
    assert!(!names_directory("cid/page.html", &html));
    assert!(!names_directory("cid/page.JSON", &html));
    assert!(names_directory("cid/page.no-such-extension", &html));
    assert!(names_directory("cid/.html", &html));
    assert!(!names_directory("cid/page", &Some("text/plain".to_string())));
    assert!(!names_directory("cid/page", &None));
    assert!(names_directory("cid/page.html/", &None));
}

#[test]
fn cache_path_lays_out_files_and_directories() {
    assert_eq!(
        cache_path("root", "cid", false),
        CachePath { filename: "root/cid".to_string(), cache_dir: "root".to_string() }
    );
    assert_eq!(
        cache_path("root", "cid", true),
        CachePath { filename: "root/cid/index.html".to_string(), cache_dir: "root/cid".to_string() }
    );
    assert_eq!(
        cache_path("root", "cid/a/b", false),
        CachePath { filename: "root/cid/a/b".to_string(), cache_dir: "root/cid/a".to_string() }
    );
    assert_eq!(last_segment_of("cid/a/b"), "b");
    assert_eq!(last_segment_of("cid"), "cid");
    assert_eq!(last_segment_of("cid/a/"), "");
}

#[test]
fn lookup_tries_the_file_and_then_the_directory() {
    let url = format!("ipfs://{CID}/metadata");
    let probes = get_caching(&url, "tmp/ipfs").unwrap();
    assert_eq!(
        probes,
        vec![
            Probe { ipfs_url: url.clone(), filename: format!("tmp/ipfs/{CID}/metadata") },
            Probe { ipfs_url: url.clone(), filename: format!("tmp/ipfs/{CID}/metadata//index.html") },
        ]
    );
}

#[test]
fn lookup_of_a_directory_url_has_one_probe() {
    let url = format!("ipfs://{CID}/metadata/");
    let probes = get_caching(&url, "tmp/ipfs").unwrap();
    assert_eq!(
        probes,
        vec![Probe { ipfs_url: url.clone(), filename: format!("tmp/ipfs/{CID}/metadata//index.html") }]
    );
    assert!(get_caching("ipfs://", "tmp/ipfs").is_err());
}

#[test]
fn what_was_written_is_found_again() {
    let url = format!("ipfs://{CID}/metadata/1");
    let written = caching_filename(&url, "tmp/ipfs", Some("application/json".to_string())).unwrap();
    let probes = get_caching(&url, "tmp/ipfs").unwrap();
    assert_eq!(probes[0].filename, written.filename);

    let listing = caching_filename(&url, "tmp/ipfs", Some("text/html".to_string())).unwrap();
    assert_eq!(Path::new(&probes[1].filename), Path::new(&listing.filename));
}

#[test]
fn recorded_type_wins_over_inferred_type() {
    let probe = Probe { ipfs_url: "u".to_string(), filename: "f".to_string() };
    let png = [0x89u8, 0x50, 0x4e, 0x47, 0x0d, 0x0a, 0x1a, 0x0a, 0, 0, 0, 0];
    assert_eq!(
        cached_data(&probe, Some("application/json".to_string()), &png),
        Data { content_type: Some("application/json".to_string()), filename: Some("f".to_string()) }
    );
    assert_eq!(
        cached_data(&probe, None, &png),
        Data { content_type: Some("image/png".to_string()), filename: Some("f".to_string()) }
    );
    assert_eq!(
        cached_data(&probe, None, b"plain words"),
        Data { content_type: None, filename: Some("f".to_string()) }
    );
    assert_eq!(content_type_of(None, Some("a/b".to_string())), Some("a/b".to_string()));
    assert_eq!(content_type_of(Some("c/d".to_string()), Some("a/b".to_string())), Some("c/d".to_string()));
    assert_eq!(content_type_of(None, None), None);
}

#[test]
fn a_stream_is_promoted_after_its_end() {
    let url = format!("ipfs://{CID}/metadata/1");
    let write = set_stream_caching(&url, "tmp/ipfs", Some("application/json".to_string())).unwrap();
    assert_eq!(write.temp_prefix, "tmp/ipfs/");
    assert_eq!(write.path.cache_dir, format!("tmp/ipfs/{CID}/metadata"));
    assert_eq!(write.state, WriteState::Open);

    let (write, action) = write.step(WriteEvent::Chunk);
    assert_eq!(action, WriteAction::Append);
    let (write, action) = write.step(WriteEvent::Chunk);
    assert_eq!(action, WriteAction::Append);
    let (write, action) = write.step(WriteEvent::End);
    assert_eq!(action, WriteAction::Promote { filename: format!("tmp/ipfs/{CID}/metadata/1") });
    assert_eq!(write.state, WriteState::Promoting);
    let (write, action) = write.step(WriteEvent::Promoted);
    assert_eq!(
        action,
        WriteAction::Finish {
            data: Data {
                content_type: Some("application/json".to_string()),
                filename: Some(format!("tmp/ipfs/{CID}/metadata/1")),
            }
        }
    );
    assert_eq!(write.state, WriteState::Done);
}

#[test]
fn a_broken_stream_is_never_promoted() {
    let url = format!("ipfs://{CID}/metadata/1");
    let write = set_stream_caching(&url, "tmp/ipfs", None).unwrap();
    let (write, _) = write.step(WriteEvent::Chunk);
    let (write, action) = write.step(WriteEvent::Failed { detail: "connection reset".to_string() });
    assert_eq!(
        action,
        WriteAction::Abandon { error: Error::CacheIo { detail: "connection reset".to_string() } }
    );
    assert_eq!(write.state, WriteState::Aborted);
    let (write, action) = write.step(WriteEvent::End);
    assert_eq!(action, WriteAction::Abandon { error: Error::UnexpectedEvent });
    let (write, action) = write.step(WriteEvent::Promoted);
    assert_eq!(action, WriteAction::Abandon { error: Error::UnexpectedEvent });
    assert_eq!(write.state, WriteState::Aborted);
}

#[test]
fn a_failed_rename_abandons_the_write() {
    let url = format!("ipfs://{CID}/x");
    let write = set_stream_caching(&url, "root", None).unwrap();
    let (write, _) = write.step(WriteEvent::End);
    let (write, action) = write.step(WriteEvent::Failed { detail: "no space".to_string() });
    assert_eq!(action, WriteAction::Abandon { error: Error::CacheIo { detail: "no space".to_string() } });
    assert_eq!(write.state, WriteState::Aborted);
    assert!(set_stream_caching("ipfs://bad", "root", None).is_err());
}

#[test]
fn a_listing_is_removed_where_it_was_written() {
    let url = format!("ipfs://{CID}/metadata");
    let html = Some("text/html".to_string());
    let write = set_stream_caching(&url, "tmp/ipfs", html.clone()).unwrap();
    assert_eq!(write.path.filename, format!("tmp/ipfs/{CID}/metadata/index.html"));

    let removal = delete_caching(&url, "tmp/ipfs", html).unwrap();
    assert_eq!(removal.filename, write.path.filename);
    assert_eq!(
        removal.directories,
        vec![format!("tmp/ipfs/{CID}/metadata"), format!("tmp/ipfs/{CID}")]
    );

    // the same URL stored as a plain file is removed as a plain file
    for hint in [None, Some("application/json".to_string()), Some(String::new())] {
        let write = set_stream_caching(&url, "tmp/ipfs", hint.clone()).unwrap();
        let removal = delete_caching(&url, "tmp/ipfs", hint).unwrap();
        assert_eq!(removal.filename, format!("tmp/ipfs/{CID}/metadata"));
        assert_eq!(removal.filename, write.path.filename);
        assert_eq!(removal.directories, vec![format!("tmp/ipfs/{CID}")]);
    }
}

#[test]
fn the_walk_upwards_ends_at_the_first_directory_that_is_not_empty() {
    assert!(after_directory(Found::Empty));
    assert!(!after_directory(Found::Occupied));
    assert!(!after_directory(Found::Unreadable));
}

#[test]
fn the_type_is_told_from_the_first_bytes_only() {
    assert_eq!(INFERENCE_WINDOW, 8192);
    let probe = Probe { ipfs_url: "u".to_string(), filename: "f".to_string() };
    let mut long = vec![0x89u8, 0x50, 0x4e, 0x47, 0x0d, 0x0a, 0x1a, 0x0a];
    long.resize(1_000_000, 0);
    assert_eq!(cached_data(&probe, None, &long).content_type, Some("image/png".to_string()));

    // a long run of frames that the archive matcher skips one by one
    let mut frames = Vec::new();
    while frames.len() < 4_000_000 {
        frames.extend_from_slice(&[0x50, 0x2a, 0x4d, 0x18, 0, 0, 0, 0]);
    }
    assert_eq!(cached_data(&probe, None, &frames).content_type, None);
    assert_eq!(
        cached_data(&probe, Some("a/b".to_string()), &frames).content_type,
        Some("a/b".to_string())
    );
    assert_eq!(cached_data(&probe, None, &[]).content_type, None);
    let exactly: Vec<u8> = vec![b'a'; INFERENCE_WINDOW];
    assert_eq!(cached_data(&probe, None, &exactly).content_type, None);
}

#[test]
fn a_listing_is_looked_up_under_the_url_that_was_fetched() {
    let url = format!("ipfs://{CID}/metadata");
    let written = caching_filename(&url, "tmp/ipfs", Some("text/html".to_string())).unwrap();
    let probes = get_caching(&url, "tmp/ipfs").unwrap();
    assert!(probes.iter().all(|probe| probe.ipfs_url == url));
    assert_eq!(Path::new(&probes[1].filename), Path::new(&written.filename));
    // the recorded type of the URL is the type of what was found there
    let page = b"<ul><li>1</li></ul>";
    assert_eq!(
        cached_data(&probes[1], Some("text/html".to_string()), page).content_type,
        Some("text/html".to_string())
    );
}
