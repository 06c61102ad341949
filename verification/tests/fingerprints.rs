use std::time::{Duration, SystemTime, UNIX_EPOCH};

use zendriver::fingerprints::cache::{is_stale, CachePolicy};
use zendriver::fingerprints::mapping::{
    destringify_scalar, is_desktop_ua, map_platform, PersonaPlatform,
};
use zendriver::fingerprints::rng::Mulberry32;

fn nanos(t: SystemTime) -> i128 {
    match t.duration_since(UNIX_EPOCH) {
        Ok(d) => d.as_nanos() as i128,
        Err(e) => -(e.duration().as_nanos() as i128),
    }
}

fn ttl(d: Duration) -> Option<u128> {
    Some(d.as_nanos())
}

#[test]
fn permanent_cache_is_never_stale() {
    let now = SystemTime::now();
    let ancient = now - Duration::from_secs(1_000_000_000);
    assert!(!is_stale(nanos(ancient), nanos(now), None));
}

#[test]
fn within_ttl_is_not_stale() {
    let now = SystemTime::now();
    let mtime = now - Duration::from_secs(10);
    assert!(!is_stale(nanos(mtime), nanos(now), ttl(Duration::from_secs(60))));
}

#[test]
fn older_than_ttl_is_stale() {
    let now = SystemTime::now();
    let mtime = now - Duration::from_secs(120);
    assert!(is_stale(nanos(mtime), nanos(now), ttl(Duration::from_secs(60))));
}

#[test]
fn zero_ttl_is_always_stale() {
    let now = SystemTime::now();
    assert!(is_stale(nanos(now), nanos(now), ttl(Duration::ZERO)));
}

#[test]
fn clock_skew_future_mtime_fails_closed_to_stale() {
    let now = SystemTime::now();
    let future_mtime = now + Duration::from_secs(3600);
    assert!(is_stale(nanos(future_mtime), nanos(now), ttl(Duration::from_secs(60))));
}

#[test]
fn default_policy_is_permanent_cache() {
    let policy = CachePolicy::default();
    assert_eq!(policy.ttl, None);
    assert!(!policy.force_refresh);
    assert_eq!(CachePolicy::default(), CachePolicy::permanent());
}

#[test]
fn policy_constructors_set_what_they_name() {
    let hourly = CachePolicy::with_ttl(Duration::from_secs(3600));
    assert_eq!(hourly.ttl, Some(Duration::from_secs(3600)));
    assert!(!hourly.force_refresh);
    let forced = CachePolicy::force_refresh();
    assert!(forced.force_refresh);
    assert_eq!(forced.ttl, None);
}

#[test]
fn extreme_times_do_not_overflow() {
    assert!(is_stale(i128::MIN, i128::MAX, Some(u128::MAX)));
    assert!(!is_stale(-5, 5, Some(11)));
    assert!(is_stale(-5, 5, Some(10)));
}

#[test]
fn destringify_scalar_strips_prefix() {
    assert_eq!(destringify_scalar("*STRINGIFIED*16"), "16");
    assert_eq!(destringify_scalar("MacIntel"), "MacIntel");
}

#[test]
fn is_desktop_ua_filters_mobile() {
    assert!(is_desktop_ua(
        "Mozilla/5.0 (Windows NT 10.0; Win64; x64) AppleWebKit/537.36 Chrome/120.0 Safari/537.36"
    ));
    assert!(!is_desktop_ua(
        "Mozilla/5.0 (Linux; Android 10) AppleWebKit/537.36 Chrome/120.0 Mobile Safari/537.36"
    ));
    assert!(!is_desktop_ua("Mozilla/5.0 (iPhone; CPU iPhone OS 17_0 like Mac OS X)"));
    assert!(!is_desktop_ua("Mozilla/5.0 (iPad; CPU OS 17_0 like Mac OS X)"));
}

#[test]
fn sampled_platforms_map_to_desktop_ones() {
    assert_eq!(map_platform("Win32"), Some(PersonaPlatform::Win32));
    assert_eq!(map_platform("MacIntel"), Some(PersonaPlatform::MacIntel));
    assert_eq!(map_platform("Linux x86_64"), Some(PersonaPlatform::LinuxX86_64));
    assert_eq!(map_platform("iPhone"), None);
}

#[test]
fn map_platform_table() {
    assert_eq!(map_platform("Win32"), Some(PersonaPlatform::Win32));
    assert_eq!(map_platform("MacIntel"), Some(PersonaPlatform::MacIntel));
    assert_eq!(map_platform("Linux x86_64"), Some(PersonaPlatform::LinuxX86_64));
    assert_eq!(map_platform("Linux aarch64"), Some(PersonaPlatform::LinuxX86_64));
    assert_eq!(map_platform("iPhone"), None);
}

#[test]
fn mulberry32_is_deterministic_in_its_seed() {
    let mut a = Mulberry32::new(42);
    let mut b = Mulberry32::new(42);
    let xs: Vec<u32> = (0..5).map(|_| a.next_u32()).collect();
    let ys: Vec<u32> = (0..5).map(|_| b.next_u32()).collect();
    assert_eq!(xs, ys);
    let mut c = Mulberry32::new(43);
    assert_ne!(xs[0], c.next_u32());
    // The reference stream for seed 0.
    let mut z = Mulberry32::new(0);
    assert_eq!(z.next_u32(), 1_144_304_738);
    assert_eq!(z.state, 0x6D2B_79F5);
}
