use ipfs_proxy::caching::{delete_caching, set_stream_caching, Data};
use ipfs_proxy::config::{Dimension, IpfsConfig, Settings};
use ipfs_proxy::error::Error;
use ipfs_proxy::fetch::{FetchAction, FetchEvent, FetchState};
use ipfs_proxy::gateway_pool::{younger_than, GatewayPool};
use ipfs_proxy::ipfs_client::{
    check_ipfs_url, fetch_ipfs_data, first_segment, strip_scheme, validated,
};
use ipfs_proxy::ipfs_object::{Column, Upsert};
use ipfs_proxy::stream_write::{WriteAction, WriteEvent};

const CID: &str = "bafybeicugp6ayh2wh3j2dwb2bhesmxmo2husbbs5prla4wj6rf3ivg3344";

fn settings() -> Settings {
    Settings {
        ipfs_gateways: vec!["https://ipfs.io/ipfs".to_string(), "https://dweb.link/ipfs".to_string()],
        ipfs_cache_directory: "tmp/ipfs".to_string(),
        user_agent: "test".to_string(),
        connect_timeout: 5000,
        pause_gateway_seconds: 60,
        delete_after_days: 30,
        max_content_length: 10_000_000,
        server_port: 3000,
        db_max_connections: 10,
        db_min_connections: 1,
        permitted_resize_dimensions: vec![Dimension { width: 256, height: 256 }],
        ipfs: IpfsConfig { enabled: false, binary_path: "ipfs".to_string() },
    }
}

fn response(status: u16, host: &str, content_length: Option<u64>, content_type: Option<&str>) -> FetchEvent {
    FetchEvent::Response {
        host: Some(host.to_string()),
        status,
        content_length,
        content_type: content_type.map(|t| t.to_string()),
    }
}

#[test]
fn fetch_json() {
    let config = settings();
    let mut pool = GatewayPool::new(config.ipfs_gateways.clone());
    let remote_url = "ipfs://bafybeicugp6ayh2wh3j2dwb2bhesmxmo2husbbs5prla4wj6rf3ivg3344/metadata/1";

    let fetch = fetch_ipfs_data(remote_url).unwrap();
    let (fetch, action) = fetch.step(FetchEvent::Started, &config, &mut pool, 1_000);
    assert_eq!(action, FetchAction::ProbeCache);
    let (fetch, action) = fetch.step(FetchEvent::CacheMiss, &config, &mut pool, 1_000);
    assert_eq!(
        action,
        FetchAction::Dispatch {
            urls: vec![
                format!("https://ipfs.io/ipfs/{CID}/metadata/1"),
                format!("https://dweb.link/ipfs/{CID}/metadata/1"),
            ],
            user_agent: "test".to_string(),
            timeout_millis: 5000,
        }
    );
    let (fetch, action) = fetch.step(
        response(200, "dweb.link", Some(1023), Some("application/json")),
        &config,
        &mut pool,
        1_200,
    );
    let write = match action {
        FetchAction::StoreBody { write } => write,
        other => panic!("unexpected {other:?}"),
    };
    assert_eq!(
        write,
        set_stream_caching(remote_url, "tmp/ipfs", Some("application/json".to_string())).unwrap()
    );
    let (write, _) = write.step(WriteEvent::Chunk);
    let (write, _) = write.step(WriteEvent::End);
    let (_, finished) = write.step(WriteEvent::Promoted);
    let stored = match finished {
        WriteAction::Finish { data } => data,
        other => panic!("unexpected {other:?}"),
    };

    let (fetch, action) = fetch.step(FetchEvent::Stored { data: stored, size: 1023 }, &config, &mut pool, 1_300);
    let upsert = match action {
        FetchAction::Record { upsert } => upsert,
        other => panic!("unexpected {other:?}"),
    };
    assert_eq!(upsert.remote_url, remote_url);
    assert_eq!(upsert.content_type, "application/json");
    assert_eq!(upsert.content_size, 1023);

    let (fetch, action) = fetch.step(FetchEvent::Recorded, &config, &mut pool, 1_400);
    let expected = Data {
        content_type: Some("application/json".to_string()),
        filename: Some(
            "tmp/ipfs/bafybeicugp6ayh2wh3j2dwb2bhesmxmo2husbbs5prla4wj6rf3ivg3344/metadata/1".to_string(),
        ),
    };
    assert_eq!(action, FetchAction::Finish { result: Ok(expected.clone()) });
    assert!(fetch.is_finished());

    // the second fetch is served from the cache
    let fetch = fetch_ipfs_data(
        "ipfs://bafybeicugp6ayh2wh3j2dwb2bhesmxmo2husbbs5prla4wj6rf3ivg3344/metadata/1",
    )
    .unwrap();
    let (fetch, _) = fetch.step(FetchEvent::Started, &config, &mut pool, 2_000);
    let (fetch, action) =
        fetch.step(FetchEvent::CacheHit { data: expected.clone(), size: 1023 }, &config, &mut pool, 2_000);
    assert_eq!(
        action,
        FetchAction::Serve {
            data: expected,
            touch: Upsert {
                remote_url: remote_url.to_string(),
                cached_at: 2_000,
                last_accessed_at: 2_000,
                content_type: "application/json".to_string(),
                content_size: 1023,
                conflict: Column::RemoteUrl,
                update: Column::LastAccessedAt,
            },
        }
    );
    assert_eq!(fetch.state, FetchState::Finished);
}

#[test]
fn fetch_large_file() {
    let mut config = settings();
    config.max_content_length = 1;
    let mut pool = GatewayPool::new(config.ipfs_gateways.clone());
    let remote_url = "ipfs://bafybeicugp6ayh2wh3j2dwb2bhesmxmo2husbbs5prla4wj6rf3ivg3344/metadata/1";

    let fetch = fetch_ipfs_data(remote_url).unwrap();
    let (fetch, _) = fetch.step(FetchEvent::Started, &config, &mut pool, 0);
    let (fetch, _) = fetch.step(FetchEvent::CacheMiss, &config, &mut pool, 0);
    let (fetch, action) =
        fetch.step(response(200, "ipfs.io", Some(1023), Some("application/json")), &config, &mut pool, 0);
    let result = match action {
        FetchAction::Finish { result } => result,
        other => panic!("unexpected {other:?}"),
    };

    assert_eq!(
        result.err().expect("Expected error").message(),
        "File is 1023 bytes, maximum allowed is 1"
    );
    assert!(fetch.is_finished());
}

#[test]
fn an_oversized_body_is_removed_before_the_fetch_fails() {
    let mut config = settings();
    config.max_content_length = 1;
    let mut pool = GatewayPool::new(config.ipfs_gateways.clone());
    let fetch = fetch_ipfs_data(&format!("ipfs://{CID}/metadata/1")).unwrap();
    let (fetch, _) = fetch.step(FetchEvent::Started, &config, &mut pool, 0);
    let (fetch, _) = fetch.step(FetchEvent::CacheMiss, &config, &mut pool, 0);
    // no length announced, so the body is taken
    let (fetch, action) = fetch.step(response(200, "ipfs.io", None, None), &config, &mut pool, 0);
    let write = match action {
        FetchAction::StoreBody { write } => write,
        other => panic!("unexpected {other:?}"),
    };
    assert_eq!(write.path.filename, format!("tmp/ipfs/{CID}/metadata/1"));
    let data = Data { content_type: None, filename: Some(write.path.filename.clone()) };
    let (fetch, action) = fetch.step(FetchEvent::Stored { data, size: 1023 }, &config, &mut pool, 0);
    let removal = match action {
        FetchAction::RemoveEntry { removal } => removal,
        other => panic!("unexpected {other:?}"),
    };
    assert_eq!(removal.filename, write.path.filename);
    assert_eq!(
        removal.directories,
        vec![format!("tmp/ipfs/{CID}/metadata"), format!("tmp/ipfs/{CID}")]
    );
    assert_eq!(fetch.state, FetchState::Removing { size: 1023 });
    let (fetch, action) = fetch.step(FetchEvent::Removed, &config, &mut pool, 0);
    let error = Error::StoredTooLarge { size: 1023, limit: 1 };
    assert_eq!(
        error.message(),
        "File is 1023 bytes, maximum allowed is 1. Fetched and deleting cached file."
    );
    assert_eq!(action, FetchAction::Finish { result: Err(error) });
    assert!(fetch.is_finished());
}

#[test]
fn a_body_of_exactly_the_limit_is_kept() {
    let mut config = settings();
    config.max_content_length = 1023;
    let mut pool = GatewayPool::new(config.ipfs_gateways.clone());
    let fetch = fetch_ipfs_data(&format!("ipfs://{CID}")).unwrap();
    let (fetch, _) = fetch.step(FetchEvent::Started, &config, &mut pool, 0);
    let (fetch, _) = fetch.step(FetchEvent::CacheMiss, &config, &mut pool, 0);
    let (fetch, action) = fetch.step(response(200, "ipfs.io", Some(1023), None), &config, &mut pool, 0);
    assert_eq!(
        action,
        FetchAction::StoreBody {
            write: set_stream_caching(&format!("ipfs://{CID}"), "tmp/ipfs", None).unwrap()
        }
    );
    let data = Data { content_type: None, filename: Some("f".to_string()) };
    let (_, action) = fetch.step(FetchEvent::Stored { data, size: 1023 }, &config, &mut pool, 7);
    assert_eq!(
        action,
        FetchAction::Record {
            upsert: Upsert {
                remote_url: format!("ipfs://{CID}"),
                cached_at: 7,
                last_accessed_at: 7,
                content_type: String::new(),
                content_size: 1023,
                conflict: Column::RemoteUrl,
                update: Column::LastAccessedAt,
            }
        }
    );
}

#[test]
fn a_rate_limited_gateway_is_left_out_for_a_while() {
    let config = settings();
    let mut pool = GatewayPool::new(config.ipfs_gateways.clone());
    let fetch = fetch_ipfs_data(&format!("ipfs://{CID}/a")).unwrap();
    let (fetch, _) = fetch.step(FetchEvent::Started, &config, &mut pool, 10_000);
    let (fetch, _) = fetch.step(FetchEvent::CacheMiss, &config, &mut pool, 10_000);
    let (fetch, action) = fetch.step(response(429, "ipfs.io", None, None), &config, &mut pool, 10_500);
    assert_eq!(action, FetchAction::Await);
    assert_eq!(pool.blocked_since("https://ipfs.io/ipfs"), Some(10_500));
    assert_eq!(pool.blocked_since("https://dweb.link/ipfs"), None);
    let (fetch, action) = fetch.step(response(404, "dweb.link", None, None), &config, &mut pool, 10_600);
    assert_eq!(
        action,
        FetchAction::Finish {
            result: Err(Error::AllGatewaysFailed {
                urls: vec![
                    format!("https://ipfs.io/ipfs/{CID}/a"),
                    format!("https://dweb.link/ipfs/{CID}/a"),
                ]
            })
        }
    );
    assert!(fetch.is_finished());

    // 59.999 s later the gateway is still paused, 60 s later it is back
    assert_eq!(
        pool.candidate_urls("x", 10_500 + 59_999, 60),
        vec!["https://dweb.link/ipfs/x".to_string()]
    );
    assert_eq!(
        pool.candidate_urls("x", 10_500 + 60_000, 60),
        vec!["https://ipfs.io/ipfs/x".to_string(), "https://dweb.link/ipfs/x".to_string()]
    );
}

#[test]
fn all_gateways_paused_fails_without_a_request() {
    let config = settings();
    let mut pool = GatewayPool::new(config.ipfs_gateways.clone());
    pool.record_rate_limit("ipfs.io", 5);
    pool.record_rate_limit("dweb.link", 6);
    let fetch = fetch_ipfs_data(&format!("ipfs://{CID}")).unwrap();
    let (fetch, _) = fetch.step(FetchEvent::Started, &config, &mut pool, 10);
    let (_, action) = fetch.step(FetchEvent::CacheMiss, &config, &mut pool, 10);
    let error = Error::AllGatewaysFailed { urls: vec![] };
    assert_eq!(error.message(), "Couldn't fetch any url: []");
    assert_eq!(action, FetchAction::Finish { result: Err(error) });
}

#[test]
fn transport_errors_are_passed_over() {
    let config = settings();
    let mut pool = GatewayPool::new(config.ipfs_gateways.clone());
    let fetch = fetch_ipfs_data(&format!("ipfs://{CID}")).unwrap();
    let (fetch, _) = fetch.step(FetchEvent::Started, &config, &mut pool, 10);
    let (fetch, _) = fetch.step(FetchEvent::CacheMiss, &config, &mut pool, 10);
    let (fetch, action) = fetch.step(FetchEvent::NoResponse, &config, &mut pool, 10);
    assert_eq!(action, FetchAction::Await);
    let (_, action) = fetch.step(response(200, "dweb.link", None, Some("image/png")), &config, &mut pool, 10);
    assert_eq!(
        action,
        FetchAction::StoreBody {
            write: set_stream_caching(
                &format!("ipfs://{CID}"),
                "tmp/ipfs",
                Some("image/png".to_string())
            )
            .unwrap()
        }
    );
}

#[test]
fn a_local_listing_is_stored_and_returned() {
    let mut config = settings();
    config.ipfs.enabled = true;
    config.ipfs.binary_path = "/usr/local/bin/ipfs".to_string();
    let mut pool = GatewayPool::new(config.ipfs_gateways.clone());
    let fetch = fetch_ipfs_data(&format!("ipfs://{CID}/metadata")).unwrap();
    let (fetch, _) = fetch.step(FetchEvent::Started, &config, &mut pool, 10);
    let (fetch, action) = fetch.step(FetchEvent::CacheMiss, &config, &mut pool, 10);
    assert_eq!(
        action,
        FetchAction::ListDirectory {
            binary_path: "/usr/local/bin/ipfs".to_string(),
            arguments: vec![
                "ls".to_string(),
                "-s".to_string(),
                "--size=false".to_string(),
                "--resolve-type=false".to_string(),
                format!("{CID}/metadata"),
            ],
        }
    );
    let output = "QmA 1\nQmB two words\n\nQmC \n".to_string();
    let (fetch, action) = fetch.step(FetchEvent::Listed { output }, &config, &mut pool, 10);
    assert_eq!(
        action,
        FetchAction::StoreListing {
            page: format!(
                "<!DOCTYPE html>\n<html>\n<head><meta charset=\"utf-8\"><title>Index of {CID}/metadata</title></head>\n<body>\n<h1>Index of {CID}/metadata</h1>\n<ul>\n<li><a href=\"/ipfs/QmA\">1</a></li>\n<li><a href=\"/ipfs/QmB\">two words</a></li>\n</ul>\n</body>\n</html>\n"
            ),
            write: set_stream_caching(
                &format!("ipfs://{CID}/metadata"),
                "tmp/ipfs",
                Some("text/html".to_string())
            )
            .unwrap(),
        }
    );
    let data = Data { content_type: Some("text/html".to_string()), filename: Some("f".to_string()) };
    let (_, action) = fetch.step(FetchEvent::ListingStored { data: data.clone() }, &config, &mut pool, 10);
    assert_eq!(action, FetchAction::Finish { result: Ok(data) });
}

#[test]
fn an_empty_listing_turns_to_the_gateways() {
    let mut config = settings();
    config.ipfs.enabled = true;
    let mut pool = GatewayPool::new(config.ipfs_gateways.clone());
    let fetch = fetch_ipfs_data(&format!("ipfs://{CID}")).unwrap();
    let (fetch, _) = fetch.step(FetchEvent::Started, &config, &mut pool, 10);
    let (fetch, _) = fetch.step(FetchEvent::CacheMiss, &config, &mut pool, 10);
    let (_, action) = fetch.step(FetchEvent::Listed { output: "\n\n".to_string() }, &config, &mut pool, 10);
    assert!(matches!(action, FetchAction::Dispatch { .. }));

    let fetch = fetch_ipfs_data(&format!("ipfs://{CID}")).unwrap();
    let (fetch, _) = fetch.step(FetchEvent::Started, &config, &mut pool, 10);
    let (fetch, _) = fetch.step(FetchEvent::CacheMiss, &config, &mut pool, 10);
    let (_, action) = fetch.step(FetchEvent::NotListed, &config, &mut pool, 10);
    assert!(matches!(action, FetchAction::Dispatch { .. }));
}

#[test]
fn failures_of_the_driver_end_the_fetch() {
    let config = settings();
    let mut pool = GatewayPool::new(config.ipfs_gateways.clone());
    let fetch = fetch_ipfs_data(&format!("ipfs://{CID}")).unwrap();
    let (fetch, _) = fetch.step(FetchEvent::Started, &config, &mut pool, 10);
    let (fetch, _) = fetch.step(FetchEvent::CacheMiss, &config, &mut pool, 10);
    let (fetch, _) = fetch.step(response(200, "ipfs.io", None, None), &config, &mut pool, 10);
    let (fetch, action) =
        fetch.step(FetchEvent::Failed { detail: "disk full".to_string() }, &config, &mut pool, 10);
    assert_eq!(
        action,
        FetchAction::Finish { result: Err(Error::CacheIo { detail: "disk full".to_string() }) }
    );
    let (_, action) = fetch.step(FetchEvent::Recorded, &config, &mut pool, 10);
    assert_eq!(action, FetchAction::Finish { result: Err(Error::UnexpectedEvent) });

    let fetch = fetch_ipfs_data(&format!("ipfs://{CID}")).unwrap();
    let (fetch, _) = fetch.step(FetchEvent::Started, &config, &mut pool, 10);
    let (fetch, _) = fetch.step(FetchEvent::CacheMiss, &config, &mut pool, 10);
    let (fetch, _) = fetch.step(response(200, "ipfs.io", None, None), &config, &mut pool, 10);
    let data = Data { content_type: None, filename: None };
    let (fetch, _) = fetch.step(FetchEvent::Stored { data, size: 3 }, &config, &mut pool, 10);
    let (_, action) =
        fetch.step(FetchEvent::Failed { detail: "database locked".to_string() }, &config, &mut pool, 10);
    assert_eq!(
        action,
        FetchAction::Finish { result: Err(Error::ObjectStore { detail: "database locked".to_string() }) }
    );
}

#[test]
fn invalid_urls_fail_fast() {
    assert_eq!(
        fetch_ipfs_data("http://example.org").err().map(|e| e.message()),
        Some("Not an IPFS URL: http://example.org".to_string())
    );
    assert_eq!(
        fetch_ipfs_data("ipfs://not-a-cid/x").err().map(|e| e.message()),
        Some("CID is invalid for ipfs://not-a-cid/x".to_string())
    );
    assert_eq!(check_ipfs_url("ipfs://"), Err(Error::InvalidCid { url: "ipfs://".to_string() }));
    assert_eq!(check_ipfs_url("ipfs:/"), Err(Error::NotIpfsUrl { url: "ipfs:/".to_string() }));
    assert_eq!(check_ipfs_url(""), Err(Error::NotIpfsUrl { url: String::new() }));
    assert_eq!(
        check_ipfs_url(&format!("IPFS://{CID}")),
        Err(Error::NotIpfsUrl { url: format!("IPFS://{CID}") })
    );
}

#[test]
fn valid_urls_give_their_base_uri() {
    assert_eq!(check_ipfs_url(&format!("ipfs://{CID}")), Ok(CID.to_string()));
    assert_eq!(check_ipfs_url(&format!("ipfs://{CID}/")), Ok(format!("{CID}/")));
    assert_eq!(
        check_ipfs_url(&format!("ipfs://{CID}/metadata/1")),
        Ok(format!("{CID}/metadata/1"))
    );
    // a version 0 identifier
    assert_eq!(
        check_ipfs_url("ipfs://QmdfTbBqBPQ7VNxZEYEj14VmRuZBkqFbiwReogJgS1zR1n/file.txt"),
        Ok("QmdfTbBqBPQ7VNxZEYEj14VmRuZBkqFbiwReogJgS1zR1n/file.txt".to_string())
    );
    assert_eq!(strip_scheme("ipfs://a/b"), Some("a/b".to_string()));
    assert_eq!(strip_scheme("ipfs:/a/b"), None);
    assert_eq!(first_segment("a/b/c"), "a");
    assert_eq!(first_segment("abc"), "abc");
    assert_eq!(first_segment("/abc"), "");
}

#[test]
fn elapsed_time_is_counted_in_whole_seconds() {
    assert!(younger_than(0, 59_999, 60));
    assert!(!younger_than(0, 60_000, 60));
    assert!(younger_than(1_000, 0, 0));
    assert!(!younger_than(999, 0, 0));
    assert!(!younger_than(0, 0, 0));
    assert!(younger_than(i64::MAX, i64::MIN, 0));
    assert!(younger_than(i64::MIN, i64::MAX, i64::MAX));
    assert!(!younger_than(i64::MIN, i64::MAX, 1_000_000));
}

#[test]
fn a_429_blocks_every_gateway_that_contains_the_host() {
    let mut pool = GatewayPool::new(vec![
        "https://a.example/ipfs".to_string(),
        "https://b.example/ipfs".to_string(),
        "https://gateway.a.example".to_string(),
    ]);
    pool.record_rate_limit("a.example", 42);
    assert_eq!(pool.blocked_since("https://a.example/ipfs"), Some(42));
    assert_eq!(pool.blocked_since("https://gateway.a.example"), Some(42));
    assert_eq!(pool.blocked_since("https://b.example/ipfs"), None);
    assert_eq!(pool.blocked_since("a.example"), None);
    pool.record_rate_limit("b.example", 50);
    pool.record_rate_limit("a.example", 60);
    assert_eq!(pool.blocked_since("https://a.example/ipfs"), Some(60));
    assert_eq!(pool.blocked_since("https://b.example/ipfs"), Some(50));
    assert_eq!(pool.candidate_urls("cid", 1_000_000, 60).len(), 3);
    assert_eq!(pool.candidate_urls("cid", 60_055, 60), vec!["https://b.example/ipfs/cid".to_string()]);
}

#[test]
fn a_url_is_accepted_for_its_content_identifier() {
    assert_eq!(validated("ipfs://a/b", "a/b".to_string(), true), Ok("a/b".to_string()));
    assert_eq!(
        validated("ipfs://a/b", "a/b".to_string(), false),
        Err(Error::InvalidCid { url: "ipfs://a/b".to_string() })
    );
    assert_eq!(
        validated("ipfs:///b", "/b".to_string(), true),
        Err(Error::InvalidCid { url: "ipfs:///b".to_string() })
    );
    assert_eq!(
        validated("ipfs://", String::new(), true),
        Err(Error::InvalidCid { url: "ipfs://".to_string() })
    );
}

#[test]
fn an_unreadable_listing_or_a_lost_request_interrupts_the_fetch() {
    let mut config = settings();
    config.ipfs.enabled = true;
    let mut pool = GatewayPool::new(config.ipfs_gateways.clone());
    let fetch = fetch_ipfs_data(&format!("ipfs://{CID}")).unwrap();
    let (fetch, _) = fetch.step(FetchEvent::Started, &config, &mut pool, 10);
    let (fetch, _) = fetch.step(FetchEvent::CacheMiss, &config, &mut pool, 10);
    let (_, action) =
        fetch.step(FetchEvent::Failed { detail: "invalid utf-8".to_string() }, &config, &mut pool, 10);
    assert_eq!(
        action,
        FetchAction::Finish { result: Err(Error::Interrupted { detail: "invalid utf-8".to_string() }) }
    );

    config.ipfs.enabled = false;
    let fetch = fetch_ipfs_data(&format!("ipfs://{CID}")).unwrap();
    let (fetch, _) = fetch.step(FetchEvent::Started, &config, &mut pool, 10);
    let (fetch, _) = fetch.step(FetchEvent::CacheMiss, &config, &mut pool, 10);
    let (fetch, action) =
        fetch.step(FetchEvent::Failed { detail: "task panicked".to_string() }, &config, &mut pool, 10);
    assert_eq!(
        action,
        FetchAction::Finish { result: Err(Error::Interrupted { detail: "task panicked".to_string() }) }
    );
    assert!(fetch.is_finished());
}

#[test]
fn a_fetch_advances_by_the_clock() {
    let config = settings();
    let mut pool = GatewayPool::new(config.ipfs_gateways.clone());
    let before = chrono::Utc::now().timestamp_millis();
    let fetch = fetch_ipfs_data(&format!("ipfs://{CID}/a")).unwrap();
    let (fetch, action) = fetch.advance(FetchEvent::Started, &config, &mut pool);
    assert_eq!(action, FetchAction::ProbeCache);
    let (fetch, _) = fetch.advance(FetchEvent::CacheMiss, &config, &mut pool);
    let (fetch, action) = fetch.advance(response(429, "dweb.link", None, None), &config, &mut pool);
    assert_eq!(action, FetchAction::Await);
    let after = chrono::Utc::now().timestamp_millis();
    let at = pool.blocked_since("https://dweb.link/ipfs").unwrap();
    assert!(before <= at && at <= after);
    let (_, action) = fetch.advance(
        FetchEvent::Failed { detail: "gone".to_string() },
        &config,
        &mut pool,
    );
    assert_eq!(
        action,
        FetchAction::Finish { result: Err(Error::Interrupted { detail: "gone".to_string() }) }
    );
}

#[test]
fn an_oversized_listing_is_removed_where_it_was_stored() {
    let mut config = settings();
    config.max_content_length = 10;
    let mut pool = GatewayPool::new(config.ipfs_gateways.clone());
    let url = format!("ipfs://{CID}/metadata");
    let fetch = fetch_ipfs_data(&url).unwrap();
    let (fetch, _) = fetch.step(FetchEvent::Started, &config, &mut pool, 0);
    let (fetch, _) = fetch.step(FetchEvent::CacheMiss, &config, &mut pool, 0);
    let (fetch, action) =
        fetch.step(response(200, "ipfs.io", None, Some("text/html")), &config, &mut pool, 0);
    let write = match action {
        FetchAction::StoreBody { write } => write,
        other => panic!("unexpected {other:?}"),
    };
    assert_eq!(write.path.filename, format!("tmp/ipfs/{CID}/metadata/index.html"));
    assert_eq!(fetch.state, FetchState::Storing { content_type: Some("text/html".to_string()) });
    let data = Data {
        content_type: Some("text/html".to_string()),
        filename: Some(write.path.filename.clone()),
    };
    let (fetch, action) = fetch.step(FetchEvent::Stored { data, size: 11 }, &config, &mut pool, 0);
    assert_eq!(
        action,
        FetchAction::RemoveEntry {
            removal: delete_caching(&url, "tmp/ipfs", Some("text/html".to_string())).unwrap()
        }
    );
    let removal = match action {
        FetchAction::RemoveEntry { removal } => removal,
        other => panic!("unexpected {other:?}"),
    };
    assert_eq!(removal.filename, write.path.filename);
    let (_, action) = fetch.step(FetchEvent::Removed, &config, &mut pool, 0);
    assert_eq!(
        action,
        FetchAction::Finish { result: Err(Error::StoredTooLarge { size: 11, limit: 10 }) }
    );
}

#[test]
fn a_fetch_of_an_invalid_url_stores_nothing() {
    let config = settings();
    let mut pool = GatewayPool::new(config.ipfs_gateways.clone());
    let fetch = ipfs_proxy::fetch::Fetch::new("ipfs://nothing".to_string(), "nothing".to_string());
    let (fetch, _) = fetch.step(FetchEvent::Started, &config, &mut pool, 0);
    let (fetch, _) = fetch.step(FetchEvent::CacheMiss, &config, &mut pool, 0);
    let (_, action) = fetch.step(response(200, "ipfs.io", None, None), &config, &mut pool, 0);
    assert_eq!(
        action,
        FetchAction::Finish { result: Err(Error::InvalidCid { url: "ipfs://nothing".to_string() }) }
    );
}
