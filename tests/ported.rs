use justbus_cache::plain;
use justbus_cache::sharded;
use justbus_cache::time::Span;
use std::collections::hash_map::RandomState as StdRandomState;
use std::sync::RwLock as StdRwLock;
use std::time::{Duration, Instant};

const DURATION: Duration = Duration::from_secs(1);

fn ttl_of(d: Duration) -> Span {
    Span::from_nanos(d.as_nanos())
}

/// Waits for `d` to pass on the monotonic clock.
fn pause(d: Duration) {
    let start = Instant::now();
    while start.elapsed() < d {
        std::hint::spin_loop();
    }
}

#[test]
fn hm_test_single_threaded() {
    let hm = sharded::Cache::with_ttl(ttl_of(DURATION));

    // insert an entry that will expire in 1s
    hm.insert(32, "hello_32");
    pause(DURATION);
    let g = hm.get(&32);
    if let Some(_) = g {
        panic!("Values dont match!");
    }

    // check if value with same key is replaced
    hm.insert(32, "hello_32_replaced");
    pause(Duration::from_millis(10));
    let g = hm.get(&32);
    if let None = g {
        panic!("Values dont match!");
    }
}

#[test]
fn hm_test_multi_threaded() {
    let hm = sharded::Cache::with_ttl(ttl_of(DURATION));

    {
        // insert an entry that will expire in 1s
        hm.insert(32, "hello_32");
        pause(DURATION);
    }

    {
        let g = hm.get(&32);
        if let Some(_) = g {
            panic!("Values dont match!");
        }
    }

    {
        // check if value with same key is replaced
        hm.insert(32, "hello_32_replaced");
    }

    let g = hm.get(&32);
    if let None = g {
        panic!("Values dont match!");
    }
}

#[test]
fn construct_std_hasher() {
    let s = StdRandomState::new();
    let _ = sharded::Cache::<u32, &str, _>::with_ttl_sz_and_hasher(Span::from_secs(1), 500, s);
}

#[test]
fn lib_hm_test_single_threaded() {
    let mut hm = plain::Cache::with_ttl(ttl_of(DURATION));

    // insert an entry that will expire in 1s
    hm.insert(32, "hello_32");
    pause(DURATION);
    assert_eq!(hm.get(32), None);
    println!("{:?}", hm.get(32));

    // check if value with same key is replaced
    hm.insert(32, "hello_32_replaced");
    pause(Duration::from_millis(10));
    assert_eq!(hm.get(32), Some(&"hello_32_replaced"));
    println!("{:?}", hm.get(32));
}

#[test]
fn hm_test_multi_threaded_std() {
    let hm = StdRwLock::new(plain::Cache::with_ttl(ttl_of(DURATION)));

    {
        let mut hm_w = hm.write().unwrap();
        // insert an entry that will expire in 1s
        hm_w.insert(32, "hello_32");
        pause(DURATION);
    }

    {
        let hm_r = hm.read().unwrap();
        assert_eq!(hm_r.get(32), None);
        println!("{:?}", hm_r.get(32));
    }

    {
        let mut hm_w = hm.write().unwrap();
        // check if value with same key is replaced
        hm_w.insert(32, "hello_32_replaced");
    }

    let hm_r = hm.read().unwrap();
    assert_eq!(hm_r.get(32), Some(&"hello_32_replaced"));
    println!("{:?}", hm_r.get(32));
}

#[test]
fn lib_construct_std_hasher() {
    let s = StdRandomState::new();
    let _ = plain::Cache::<u32, &str, _>::with_ttl_sz_and_hasher(Span::from_secs(1), 500, s);
}
