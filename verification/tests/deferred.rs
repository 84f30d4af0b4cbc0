use defer_drop::DeferDrop;
use defer_drop::GarbageCan;
use std::sync::Arc;
use std::sync::Mutex;
use std::time::Duration;
use std::time::Instant;

/// Burns CPU for `spin` when destructed, then reports on its channel.
struct SlowLoud {
    spin: Duration,
    done: crossbeam_channel::Sender<u8>,
}

impl Drop for SlowLoud {
    fn drop(&mut self) {
        let start = Instant::now();
        while start.elapsed() < self.spin {
            std::hint::spin_loop();
        }
        let _ = self.done.send(1);
    }
}

/// Appends its id to a shared log when destructed.
struct Recorder {
    id: u32,
    log: Arc<Mutex<Vec<u32>>>,
}

impl Drop for Recorder {
    fn drop(&mut self) {
        self.log.lock().unwrap().push(self.id);
    }
}

/// A value that owns further wrappers, so that destructing it on the worker
/// queues more work on the same worker.
struct Branch {
    recorder: Recorder,
    children: Vec<DeferDrop<Branch>>,
}

fn wait_for_len(log: &Mutex<Vec<u32>>, target: usize, patience: Duration) -> usize {
    let start = Instant::now();
    loop {
        let seen = log.lock().unwrap().len();
        if seen >= target || start.elapsed() > patience {
            return seen;
        }
        // Sleep briefly so the worker thread gets the processor.
        let _ = crossbeam_channel::after(Duration::from_millis(2)).recv();
    }
}

#[test]
fn destruction_is_deferred_to_another_thread() {
    let can = GarbageCan::new();
    let spin = Duration::from_millis(300);
    let (done, heard) = crossbeam_channel::bounded(1);

    // Destructing the bare value on this thread takes at least its intrinsic
    // destruction time.
    let inline_start = Instant::now();
    drop(SlowLoud { spin, done: done.clone() });
    assert!(inline_start.elapsed() >= spin);
    heard.recv_timeout(Duration::from_secs(5)).unwrap();

    // Destructing the wrapper returns long before that intrinsic time: the
    // destruction itself runs while this thread sits blocked waiting for the
    // report, so another thread must be performing it.
    let wrapper = DeferDrop::new(SlowLoud { spin, done }, &can);
    let deferred_start = Instant::now();
    drop(wrapper);
    assert!(
        deferred_start.elapsed() < Duration::from_millis(150),
        "dropping the wrapper waited for the value's own destruction"
    );
    heard
        .recv_timeout(Duration::from_secs(5))
        .expect("the value was not destructed within five seconds");
}

#[test]
fn same_thread_values_destruct_in_order() {
    let can = GarbageCan::new();
    let log: Arc<Mutex<Vec<u32>>> = Arc::new(Mutex::new(Vec::new()));

    for id in 0..20 {
        let wrapper = DeferDrop::new(Recorder { id, log: log.clone() }, &can);
        drop(wrapper);
    }

    assert_eq!(wait_for_len(&log, 20, Duration::from_secs(10)), 20);
    let seen = log.lock().unwrap().clone();
    let expected: Vec<u32> = (0..20).collect();
    assert_eq!(seen, expected);
}

#[test]
fn nested_wrappers_destruct_exactly_once() {
    let can = GarbageCan::new();
    let log: Arc<Mutex<Vec<u32>>> = Arc::new(Mutex::new(Vec::new()));
    let leaf = |id: u32| Branch { recorder: Recorder { id, log: log.clone() }, children: vec![] };

    let outer = Branch {
        recorder: Recorder { id: 0, log: log.clone() },
        children: vec![
            DeferDrop::new(
                Branch {
                    recorder: Recorder { id: 1, log: log.clone() },
                    children: vec![DeferDrop::new(leaf(2), &can), DeferDrop::new(leaf(3), &can)],
                },
                &can,
            ),
            DeferDrop::new(
                Branch {
                    recorder: Recorder { id: 4, log: log.clone() },
                    children: vec![DeferDrop::new(leaf(5), &can), DeferDrop::new(leaf(6), &can)],
                },
                &can,
            ),
        ],
    };

    drop(DeferDrop::new(outer, &can));

    assert_eq!(wait_for_len(&log, 7, Duration::from_secs(10)), 7);
    // Destructing a value on the worker queues the wrappers nested in it
    // behind everything already waiting, so teardown proceeds level by level,
    // every signal arriving exactly once, parents before their children.
    let seen = log.lock().unwrap().clone();
    assert_eq!(seen, vec![0, 1, 4, 2, 3, 5, 6]);
    // And no signal may ever repeat.
    assert_eq!(wait_for_len(&log, 8, Duration::from_millis(300)), 7);
}
