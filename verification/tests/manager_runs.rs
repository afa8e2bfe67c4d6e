use gn::statistics::Statistics;
use gn::{Protocol, SendOutcome, SocketManager, WorkerTally, WriteOptions};
use std::str::FromStr;
use std::time::Instant;

// These tests drive the engine exactly the way the application's transport
// does: ask for the plan, keep attempting while the bound allows it, hand
// every outcome back, fold worker tallies after joining, and finalize. The
// endpoint is served in process — it accepts (or refuses) each attempt after
// a fixed service time — so the runs exercise the engine's scheduling and
// folding under real wall-clock time without a wire.

/// Parse a human-readable span like `"2s"` into whole milliseconds.
fn millis(s: &str) -> u64 {
    humantime::Duration::from_str(s).unwrap().as_millis() as u64
}

/// An in-process endpoint: either accepts and discards every payload after
/// `latency_micros` of service time, or refuses every attempt.
#[derive(Clone, Copy)]
struct Endpoint {
    refuse: bool,
    latency_micros: u64,
}

/// One write attempt against the endpoint: the full payload is either
/// confirmed or refused.
async fn send_once(endpoint: Endpoint, payload: &[u8]) -> SendOutcome {
    if endpoint.latency_micros > 0 {
        tokio::time::sleep(std::time::Duration::from_micros(endpoint.latency_micros)).await;
    } else {
        tokio::task::yield_now().await;
    }
    if endpoint.refuse {
        SendOutcome::Failed
    } else {
        SendOutcome::Sent(payload.len() as u64)
    }
}

/// Clamp a millisecond clock reading into the engine's `u64` unit.
fn clamp_millis(elapsed: u128) -> u64 {
    if elapsed > u64::MAX as u128 {
        u64::MAX
    } else {
        elapsed as u64
    }
}

/// Drive a single-worker plan: keep sending while the bound allows it,
/// folding every outcome straight into the engine, then finalize.
async fn run_sequential(manager: &mut SocketManager, endpoint: Endpoint) -> u64 {
    let plan = manager.write_options().plan();
    let payload = manager.input().clone();
    let start = Instant::now();
    let mut attempts: u64 = 0;
    loop {
        let elapsed = clamp_millis(start.elapsed().as_millis());
        if !plan.bound.should_attempt(attempts, elapsed) {
            break;
        }
        let outcome = send_once(endpoint, &payload).await;
        manager.record_attempt(outcome);
        attempts += 1;
    }
    manager.finish()
}

/// Drive a concurrent plan: spawn one task per worker, each keeping a private
/// tally under the shared bound, then join them all and fold the tallies into
/// the engine before finalizing.
async fn run_concurrent(manager: &mut SocketManager, endpoint: Endpoint) -> u64 {
    let plan = manager.write_options().plan();
    let payload = manager.input().clone();
    let mut handles = Vec::new();
    let mut worker: u64 = 0;
    while worker < plan.workers {
        let payload = payload.clone();
        let bound = plan.bound;
        handles.push(tokio::spawn(async move {
            let start = Instant::now();
            let mut tally = WorkerTally::new();
            let mut attempts: u64 = 0;
            loop {
                let elapsed = clamp_millis(start.elapsed().as_millis());
                if !bound.should_attempt(attempts, elapsed) {
                    break;
                }
                let outcome = send_once(endpoint, &payload).await;
                tally.record(outcome);
                attempts += 1;
            }
            tally
        }));
        worker += 1;
    }
    let mut tallies = Vec::new();
    for handle in handles {
        tallies.push(handle.await.unwrap());
    }
    manager.merge_tallies(&tallies);
    manager.finish()
}

/// The bytes-per-second figure of a recorded throughput sample.
fn throughput_value(manager: &SocketManager) -> f64 {
    let t = manager.throughput();
    t.total_bytes as f64 / t.elapsed_seconds as f64
}

#[test]
fn write_multiple_tcp() {
    let rt = tokio::runtime::Runtime::new().unwrap();
    rt.block_on(async {
        let endpoint = Endpoint { refuse: false, latency_micros: 0 };
        let mut s = SocketManager::new(
            b"hello".to_vec(),
            Protocol::Tcp,
            WriteOptions::Count(5),
            Statistics::new(),
        );
        let total = run_sequential(&mut s, endpoint).await;
        assert_eq!(total, 25);
        assert_eq!(s.successful_requests(), 5);
        assert_eq!(s.failed_requests(), 0);
    });
}

#[test]
fn write_multiple_udp() {
    let rt = tokio::runtime::Runtime::new().unwrap();
    rt.block_on(async {
        let endpoint = Endpoint { refuse: false, latency_micros: 0 };
        let mut s = SocketManager::new(
            b"hello".to_vec(),
            Protocol::Udp,
            WriteOptions::Count(5),
            Statistics::new(),
        );
        let total = run_sequential(&mut s, endpoint).await;
        assert_eq!(total, 25);
        assert_eq!(s.successful_requests(), 5);
        assert_eq!(s.failed_requests(), 0);
    });
}

#[test]
fn manager_write_for_duration() {
    let rt = tokio::runtime::Runtime::new().unwrap();
    rt.block_on(async {
        let input = b"duration";
        let duration = millis("2s");
        let protocols = vec![Protocol::Tcp, Protocol::Udp];

        for protocol in protocols {
            let endpoint = Endpoint { refuse: false, latency_micros: 1_000 };
            let mut s = SocketManager::new(
                input.to_vec(),
                protocol,
                WriteOptions::Duration(duration),
                Statistics::default(),
            );
            let start = Instant::now();
            run_sequential(&mut s, endpoint).await;
            let elapsed = start.elapsed().as_secs();
            assert_eq!(elapsed, 2);
            println!("[{}] Wrote {} bytes per second", protocol.name(), throughput_value(&s));
        }
    });
}

#[test]
fn write_concurrency() {
    let rt = tokio::runtime::Runtime::new().unwrap();
    rt.block_on(async {
        let protocols = vec![Protocol::Tcp, Protocol::Udp];

        for protocol in protocols {
            let endpoint = Endpoint { refuse: false, latency_micros: 0 };
            let mut s = SocketManager::new(
                b"c".to_vec(),
                protocol,
                WriteOptions::ConcurrencyWithCount(5, 100_000),
                Statistics::default(),
            );
            let total = run_concurrent(&mut s, endpoint).await;
            assert_eq!(total, 100_000);
            assert_eq!(s.successful_requests(), 100_000);
            println!("[{}] Wrote {} bytes per second", protocol.name(), throughput_value(&s));
        }
    });
}

#[test]
fn write_concurrency_with_duration() {
    let rt = tokio::runtime::Runtime::new().unwrap();
    rt.block_on(async {
        let protocols = vec![Protocol::Tcp, Protocol::Udp];
        let input = b"concurrent_duration";
        for protocol in protocols {
            let endpoint = Endpoint { refuse: false, latency_micros: 1_000 };
            let duration = millis("2s");
            let mut s = SocketManager::new(
                input.to_vec(),
                protocol,
                WriteOptions::ConcurrencyWithDuration(10, duration),
                Statistics::default(),
            );

            let start = Instant::now();
            run_concurrent(&mut s, endpoint).await;
            let elapsed = start.elapsed().as_secs();
            assert_eq!(elapsed, 2);
            assert!(throughput_value(&s) > 0.0);
            assert!(
                s.total_bytes() > input.len() as u64 * 100,
                "[{}] More than 100 requests should be sent",
                protocol.name()
            );
            println!("[{}] Wrote {} bytes per second", protocol.name(), throughput_value(&s));
        }
    });
}

#[test]
fn manager_throughput() {
    let rt = tokio::runtime::Runtime::new().unwrap();
    rt.block_on(async {
        for protocol in vec![Protocol::Tcp, Protocol::Udp] {
            let endpoint = Endpoint { refuse: false, latency_micros: 0 };
            let mut s = SocketManager::new(
                b"a".to_vec(),
                protocol,
                WriteOptions::Count(100),
                Statistics::new(),
            );
            run_sequential(&mut s, endpoint).await;
            assert!(
                throughput_value(&s) != 0.0,
                "Throughput should be set after writing {} data",
                protocol.name()
            );
        }
    });
}

#[test]
fn refused_attempts_are_counted() {
    let rt = tokio::runtime::Runtime::new().unwrap();
    rt.block_on(async {
        let endpoint = Endpoint { refuse: true, latency_micros: 0 };
        let mut s = SocketManager::new(
            b"hello".to_vec(),
            Protocol::Tcp,
            WriteOptions::Count(3),
            Statistics::new(),
        );
        let total = run_sequential(&mut s, endpoint).await;
        assert_eq!(total, 0);
        assert_eq!(s.successful_requests(), 0);
        assert_eq!(s.failed_requests(), 3);
    });
}
