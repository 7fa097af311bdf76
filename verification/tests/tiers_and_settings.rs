use edge_cdn_store::cache_statistics::{
    cache_state_path, capacity_shrunk, eviction_manager_cfg, seed_size, CacheStatistics,
    EvictionManagerCfg, Uptime,
};
use edge_cdn_store::disk_cache::{DiskCache, PurgeType, Timestamp};
use edge_cdn_store::error::{CacheError, ErrorType};
use edge_cdn_store::handle_miss::MissFinishType;
use edge_cdn_store::logger::{trace_fn_exit, trace_fn_exit_with_err, BackgroundLogger, Trace};
use edge_cdn_store::metrics::{counter_add, gauge_move, CacheMetrics};
use edge_cdn_store::proxy::EdgeCdnProxy;
use edge_cdn_store::statics::{
    cache_dir, env_var_or_num, env_var_or_str, path_to_app_log, path_to_panic_log, runtime_dir,
    server_keys_dir,
};
use edge_cdn_store::tiered::{FanoutMiss, MissRoute, Routed, Tier, TieredStorage, WritePolicy};

fn err(words: &str) -> CacheError {
    CacheError::internal(words.to_string())
}

#[test]
fn tiered_lookup_prefers_the_primary() {
    let both = TieredStorage::new(true, WritePolicy::PrimaryOnly);
    let single = TieredStorage::new(false, WritePolicy::PrimaryOnly);
    assert_eq!(both.lookup::<u8>(None, None), Routed::Ask(Tier::Primary));
    assert_eq!(both.lookup(Some(Ok(Some(1u8))), None), Routed::Answer(Ok(Some(1))));
    assert_eq!(both.lookup::<u8>(Some(Err(err("p"))), None), Routed::Answer(Err(err("p"))));
    assert_eq!(both.lookup::<u8>(Some(Ok(None)), None), Routed::Ask(Tier::Secondary));
    assert_eq!(both.lookup(Some(Ok(None)), Some(Ok(Some(2u8)))), Routed::Answer(Ok(Some(2))));
    assert_eq!(both.lookup::<u8>(Some(Ok(None)), Some(Ok(None))), Routed::Answer(Ok(None)));
    assert_eq!(both.lookup::<u8>(Some(Ok(None)), Some(Err(err("s")))), Routed::Answer(Err(err("s"))));
    assert_eq!(single.lookup::<u8>(Some(Ok(None)), None), Routed::Answer(Ok(None)));
    assert_eq!(single.lookup(Some(Ok(Some(1u8))), None), Routed::Answer(Ok(Some(1))));
}

#[test]
fn tiered_miss_handler_fans_out_only_when_told() {
    let through = TieredStorage::new(true, WritePolicy::WriteThroughBoth);
    assert_eq!(through.get_miss_handler::<u8>(None, None), Routed::Ask(Tier::Primary));
    assert_eq!(through.get_miss_handler(Some(Ok(1u8)), None), Routed::Ask(Tier::Secondary));
    assert_eq!(
        through.get_miss_handler(Some(Ok(1u8)), Some(Ok(2u8))),
        Routed::Answer(Ok(MissRoute::Fanout(FanoutMiss {
            primary: Some(1),
            secondary: Some(2),
            created_bytes_primary: 0
        })))
    );
    assert_eq!(
        through.get_miss_handler(Some(Ok(1u8)), Some(Err(err("s")))),
        Routed::Answer(Ok(MissRoute::Fanout(FanoutMiss {
            primary: Some(1),
            secondary: None,
            created_bytes_primary: 0
        })))
    );
    assert_eq!(through.get_miss_handler::<u8>(Some(Err(err("p"))), None), Routed::Answer(Err(err("p"))));
    for t in [
        TieredStorage::new(true, WritePolicy::PrimaryOnly),
        TieredStorage::new(false, WritePolicy::PrimaryOnly),
        TieredStorage::new(false, WritePolicy::WriteThroughBoth),
    ] {
        assert_eq!(t.get_miss_handler(Some(Ok(1u8)), None), Routed::Answer(Ok(MissRoute::Single(1))));
    }
}

#[test]
fn eviction_touches_the_primary_only() {
    let both = TieredStorage::new(true, WritePolicy::WriteThroughBoth);
    assert_eq!(both.purge(PurgeType::Eviction, None, None), Routed::Ask(Tier::Primary));
    assert_eq!(both.purge(PurgeType::Eviction, Some(Ok(true)), None), Routed::Answer(Ok(true)));
    assert_eq!(both.purge(PurgeType::Eviction, Some(Ok(false)), None), Routed::Answer(Ok(false)));
    assert_eq!(both.purge(PurgeType::Eviction, Some(Err(err("p"))), None), Routed::Answer(Ok(false)));
}

#[test]
fn invalidation_goes_to_both_and_never_fails() {
    let both = TieredStorage::new(true, WritePolicy::PrimaryOnly);
    let single = TieredStorage::new(false, WritePolicy::PrimaryOnly);
    let inv = PurgeType::Invalidation;
    assert_eq!(both.purge(inv, None, None), Routed::Ask(Tier::Primary));
    assert_eq!(both.purge(inv, Some(Ok(true)), None), Routed::Ask(Tier::Secondary));
    assert_eq!(both.purge(inv, Some(Err(err("p"))), None), Routed::Ask(Tier::Secondary));
    for (p, s, want) in [
        (Ok(true), Ok(true), true),
        (Ok(true), Ok(false), true),
        (Ok(false), Ok(true), true),
        (Ok(false), Ok(false), false),
        (Err(err("p")), Ok(true), true),
        (Ok(true), Err(err("s")), true),
        (Err(err("p")), Err(err("s")), false),
        (Ok(false), Err(err("s")), false),
    ] {
        assert_eq!(both.purge(inv, Some(p), Some(s)), Routed::Answer(Ok(want)));
    }
    assert_eq!(single.purge(inv, Some(Ok(true)), None), Routed::Answer(Ok(true)));
    assert_eq!(single.purge(inv, Some(Err(err("p"))), None), Routed::Answer(Ok(false)));
}

#[test]
fn meta_update_is_decided_by_the_primary() {
    let both = TieredStorage::new(true, WritePolicy::PrimaryOnly);
    let single = TieredStorage::new(false, WritePolicy::PrimaryOnly);
    assert_eq!(both.update_meta(None, None), Routed::Ask(Tier::Primary));
    assert_eq!(both.update_meta(Some(Err(err("p"))), None), Routed::Answer(Err(err("p"))));
    assert_eq!(both.update_meta(Some(Ok(false)), None), Routed::Ask(Tier::Secondary));
    assert_eq!(both.update_meta(Some(Ok(false)), Some(Ok(true))), Routed::Answer(Ok(true)));
    assert_eq!(both.update_meta(Some(Ok(true)), Some(Ok(false))), Routed::Answer(Ok(true)));
    assert_eq!(both.update_meta(Some(Ok(false)), Some(Ok(false))), Routed::Answer(Ok(false)));
    assert_eq!(both.update_meta(Some(Ok(true)), Some(Err(err("s")))), Routed::Answer(Ok(true)));
    assert_eq!(both.update_meta(Some(Ok(false)), Some(Err(err("s")))), Routed::Answer(Ok(false)));
    assert_eq!(single.update_meta(Some(Ok(true)), None), Routed::Answer(Ok(true)));
}

#[test]
fn fanout_write_needs_the_primary_and_forgives_the_secondary() {
    let f = FanoutMiss { primary: Some(1u8), secondary: Some(2u8), created_bytes_primary: 0 };
    assert_eq!(f.write_body(None, None), Routed::Ask(Tier::Primary));
    assert_eq!(f.write_body(Some(Err(err("p"))), None), Routed::Answer(Err(err("p"))));
    assert_eq!(f.write_body(Some(Ok(())), None), Routed::Ask(Tier::Secondary));
    assert_eq!(f.write_body(Some(Ok(())), Some(Ok(()))), Routed::Answer(Ok(())));
    assert_eq!(f.write_body(Some(Ok(())), Some(Err(err("s")))), Routed::Answer(Ok(())));
    let alone = FanoutMiss { primary: Some(1u8), secondary: None, created_bytes_primary: 0 };
    assert_eq!(alone.write_body(Some(Ok(())), None), Routed::Answer(Ok(())));
    let headless: FanoutMiss<u8> = FanoutMiss { primary: None, secondary: Some(2), created_bytes_primary: 0 };
    match headless.write_body(None, None) {
        Routed::Answer(Err(e)) => {
            assert_eq!(e.etype, ErrorType::InternalError);
            assert_eq!(e.context, "primary miss handler missing");
        },
        other => panic!("{:?}", other),
    }
    assert_eq!(alone.streaming_write_tag(), None);
}

#[test]
fn fanout_finish_answers_with_the_primary() {
    let mut f = FanoutMiss { primary: Some(1u8), secondary: Some(2u8), created_bytes_primary: 0 };
    assert_eq!(f.finish(None, None), Routed::Ask(Tier::Primary));
    assert_eq!(f.finish(Some(Err(err("p"))), None), Routed::Answer(Err(err("p"))));
    assert_eq!(f.created_bytes_primary, 0);
    assert_eq!(f.finish(Some(Ok(MissFinishType::Created(5))), None), Routed::Ask(Tier::Secondary));
    assert_eq!(f.created_bytes_primary, 5);
    assert_eq!(
        f.finish(Some(Ok(MissFinishType::Created(5))), Some(Err(err("s")))),
        Routed::Answer(Ok(MissFinishType::Created(5)))
    );
    assert_eq!(
        f.finish(Some(Ok(MissFinishType::Created(5))), Some(Ok(MissFinishType::Created(9)))),
        Routed::Answer(Ok(MissFinishType::Created(5)))
    );
    let mut headless: FanoutMiss<u8> = FanoutMiss { primary: None, secondary: None, created_bytes_primary: 3 };
    match headless.finish(None, None) {
        Routed::Answer(Err(e)) => assert_eq!(e.context, "primary miss handler missing at finish"),
        other => panic!("{:?}", other),
    }
    assert_eq!(headless.created_bytes_primary, 3);
    // A handler that was taken out to be finished is no longer missed.
    assert_eq!(
        headless.finish(Some(Ok(MissFinishType::Appended(5))), None),
        Routed::Answer(Ok(MissFinishType::Appended(5)))
    );
    assert_eq!(headless.created_bytes_primary, 3);
}

#[test]
fn counters_wrap_like_atomics() {
    assert_eq!(counter_add(1, 2), 3);
    assert_eq!(counter_add(u64::MAX, 1), 0);
    assert_eq!(counter_add(u64::MAX, u64::MAX), u64::MAX - 1);
    assert_eq!(counter_add(5, u64::MAX), 5u64.wrapping_add(u64::MAX));
    assert_eq!(gauge_move(10, 4, true), 14);
    assert_eq!(gauge_move(10, 14, false), -4);
    assert_eq!(gauge_move(i64::MAX, 1, true), i64::MIN);
    assert_eq!(gauge_move(i64::MIN, 1, false), i64::MAX);
    for (x, b) in [(0i64, u64::MAX), (-5, 1u64 << 63), (i64::MAX, u64::MAX), (i64::MIN, (1u64 << 63) + 7)] {
        assert_eq!(gauge_move(x, b, true), x.wrapping_add(b as i64));
        assert_eq!(gauge_move(x, b, false), x.wrapping_sub(b as i64));
    }
}

#[test]
fn metrics_count_each_event() {
    let mut m = CacheMetrics::new(100);
    assert_eq!(m.size_bytes, 100);
    m.record_lookup_hit();
    m.record_miss();
    m.record_miss();
    m.record_purge_attempt();
    m.record_insert(50);
    assert_eq!((m.lookup_hits, m.misses, m.purge_attempts, m.inserts, m.size_bytes), (1, 2, 1, 1, 150));
    m.record_purge(true, 30);
    assert_eq!((m.evictions, m.evicted_bytes, m.size_bytes), (1, 30, 120));
    m.record_purge(false, 30);
    assert_eq!((m.evictions, m.evicted_bytes, m.size_bytes), (1, 30, 120));
}

#[test]
fn settings_fall_back_to_their_defaults() {
    assert_eq!(env_var_or_str(Some("/srv".to_string()), "/tmp"), "/srv");
    assert_eq!(env_var_or_str(None, "/tmp"), "/tmp");
    assert_eq!(env_var_or_num(Some(" 8080 "), 6188, 65535), 8080);
    assert_eq!(env_var_or_num(Some("65536"), 6188, 65535), 6188);
    assert_eq!(env_var_or_num(Some("eighty"), 6188, 65535), 6188);
    assert_eq!(env_var_or_num(Some(""), 6188, 65535), 6188);
    assert_eq!(env_var_or_num(Some("8 0"), 6188, 65535), 6188);
    assert_eq!(env_var_or_num(None, 6143, 65535), 6143);
    assert_eq!(runtime_dir(None), "/tmp/edge-cdn-store");
    assert_eq!(runtime_dir(Some("/run/edge".to_string())), "/run/edge");
    assert_eq!(cache_dir("/tmp/edge-cdn-store"), "/tmp/edge-cdn-store/cache");
    assert_eq!(server_keys_dir("/tmp/edge-cdn-store"), "/tmp/edge-cdn-store/keys");
    assert_eq!(path_to_app_log("/tmp/edge-cdn-store"), "/tmp/edge-cdn-store/app.log");
    assert_eq!(path_to_panic_log("/tmp/edge-cdn-store/"), "/tmp/edge-cdn-store//panic.log");
}

#[test]
fn capacity_defaults_to_two_gibibytes() {
    assert_eq!(eviction_manager_cfg(None).max_bytes, 2 * 1024 * 1024 * 1024);
    assert_eq!(eviction_manager_cfg(Some("1024")).max_bytes, 1024);
    assert_eq!(eviction_manager_cfg(Some("\t1024\n")).max_bytes, 1024);
    assert_eq!(eviction_manager_cfg(Some("1k")).max_bytes, 2147483648);
    assert_eq!(eviction_manager_cfg(Some("-1")).max_bytes, 2147483648);
    assert_eq!(eviction_manager_cfg(Some("0")).max_bytes, 0);
}

#[test]
fn size_survives_a_restart() {
    let cfg = EvictionManagerCfg { max_bytes: 1000 };
    let mut cache = DiskCache::new("/cache".to_string(), 0, Timestamp { secs: 9, nanos: 8 });
    cache.metrics.record_insert(700);
    let stats = CacheStatistics::snapshot(&cache, Uptime { secs: 60, nanos: 1 }, &cfg);
    assert_eq!(
        stats,
        CacheStatistics {
            root: "/cache".to_string(),
            start_time: Timestamp { secs: 9, nanos: 8 },
            uptime: Uptime { secs: 60, nanos: 1 },
            size_bytes_current: 700,
            size_bytes_max: 1000,
        }
    );
    assert_eq!(cache_state_path("/cache"), "/cache/_cache_state.json");
    let seed = seed_size(Some(&stats));
    assert_eq!(seed, 700);
    assert_eq!(seed_size(None), 0);
    let restarted = DiskCache::new("/cache".to_string(), seed, Timestamp { secs: 99, nanos: 0 });
    assert_eq!(restarted.metrics, CacheMetrics::new(700));
    assert_eq!(restarted.uptime, 0);
    assert!(!capacity_shrunk(&cfg, Some(&stats)));
    assert!(capacity_shrunk(&EvictionManagerCfg { max_bytes: 699 }, Some(&stats)));
    assert!(!capacity_shrunk(&EvictionManagerCfg { max_bytes: 0 }, None));
}

#[test]
fn negative_gauge_is_persisted_wrapped() {
    let cfg = EvictionManagerCfg { max_bytes: 1 };
    let cache = DiskCache::new("/c".to_string(), -1, Timestamp { secs: 0, nanos: 0 });
    let stats = CacheStatistics::snapshot(&cache, Uptime { secs: 0, nanos: 0 }, &cfg);
    assert_eq!(stats.size_bytes_current, u64::MAX);
    assert_eq!(seed_size(Some(&stats)), -1);
}

#[test]
fn trace_marks() {
    assert_eq!(<DiskCache as Trace>::struct_name(), "DiskCache");
    assert_eq!(<DiskCache as Trace>::fn_enter("lookup"), "---> DiskCache::lookup()");
    assert_eq!(<EdgeCdnProxy as Trace>::fn_enter_exit("new"), "<--> EdgeCdnProxy::new()");
    assert_eq!(<TieredStorage as Trace>::fn_exit("purge"), "<--- TieredStorage::purge()");
    assert_eq!(
        trace_fn_exit("seek", "seek failed", true),
        vec!["---> seek", "     seek failed", "<--- seek"]
    );
    assert_eq!(trace_fn_exit("seek", "x", false), vec!["     x", "<--- seek"]);
    let (lines, r) = trace_fn_exit_with_err::<u8>("f", "broken", None, false);
    assert_eq!(lines, vec!["     broken", "<--- f"]);
    assert_eq!(r, Err(err("broken")));
    let (_, r) = trace_fn_exit_with_err::<u8>("f", "bad", Some(ErrorType::HTTPStatus(400)), true);
    assert_eq!(r, Err(CacheError::explain(ErrorType::HTTPStatus(400), "bad".to_string())));
}

#[test]
fn logger_filter_falls_back_to_info() {
    let set = BackgroundLogger { path: "/l".to_string(), filter: Some("debug".to_string()) };
    let unset = BackgroundLogger { path: "/l".to_string(), filter: None };
    assert_eq!(set.effective_filter(Some("warn".to_string())), "debug");
    assert_eq!(unset.effective_filter(Some("warn".to_string())), "warn");
    assert_eq!(unset.effective_filter(None), "info");
}
