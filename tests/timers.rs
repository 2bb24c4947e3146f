use timers::{action_for, TickAction, Timer, TimerError, Timers, WallTime};

const SEC: u128 = 1_000_000_000;
const PERIOD: u128 = SEC / 60;

fn wall() -> WallTime {
    WallTime { unix_millis: 1_700_000_000_000, offset_secs: 3600 }
}

#[test]
fn new_timer_is_not_complete() {
    for d in [0u128, 1, 5 * SEC, u128::MAX] {
        let t = Timer::new(d);
        assert!(!t.is_complete());
        assert_eq!(t.duration, d);
        assert_eq!(t.elapsed, None);
        assert_eq!(t.started, None);
        assert_eq!(t.version, 0);
    }
    let mut r = Timers::new();
    assert!(!r.make(0).is_complete());
}

#[test]
fn reset_clears_completion() {
    let mut t = Timer::new(SEC);
    t.start(wall(), 0);
    assert_eq!(t.tick(2 * SEC), Ok(()));
    assert!(t.is_complete());
    t.reset(SEC);
    assert!(!t.is_complete());
    assert_eq!(t.elapsed, None);
    assert_eq!(t.started, None);
    assert_eq!(t.version, 2);
}

#[test]
fn tick_before_start_fails() {
    let mut t = Timer::new(SEC);
    let before = t;
    assert_eq!(t.tick(123), Err(TimerError::NotStarted));
    assert_eq!(t, before);
    let mut r = Timers::new();
    let id = r.make(SEC).id;
    assert_eq!(r.tick(id), Err(TimerError::NotStarted));
    assert_eq!(r.tick_at(id, 10), Err(TimerError::NotStarted));
}

#[test]
fn ticks_accumulate_and_reach_duration() {
    let mut t = Timer::new(SEC);
    t.start(wall(), 100);
    let mut last: u128 = 0;
    let mut ticks: u128 = 0;
    while !t.is_complete() {
        ticks += 1;
        assert_eq!(t.tick(100 + ticks * PERIOD), Ok(()));
        let e = t.elapsed.unwrap();
        assert!(e >= last);
        last = e;
    }
    assert_eq!(ticks, 61);
    assert_eq!(t.elapsed, Some(61 * PERIOD));
    assert_eq!(t.checked, Some(100 + 61 * PERIOD));
}

#[test]
fn tick_adds_exact_delta() {
    let mut t = Timer::new(10);
    t.start(wall(), 1000);
    assert_eq!(t.tick(1004), Ok(()));
    assert_eq!(t.elapsed, Some(4));
    assert_eq!(t.tick(1010), Ok(()));
    assert_eq!(t.elapsed, Some(10));
    assert!(t.is_complete());
    // a reading behind the last one adds nothing and keeps the reading
    assert_eq!(t.tick(900), Ok(()));
    assert_eq!(t.elapsed, Some(10));
    assert_eq!(t.checked, Some(1010));
}

#[test]
fn complete_stays_complete() {
    let mut t = Timer::new(5);
    t.start(wall(), 0);
    assert_eq!(t.tick(4), Ok(()));
    assert!(!t.is_complete());
    assert_eq!(t.tick(5), Ok(()));
    assert!(t.is_complete());
    for n in 6..20u128 {
        assert_eq!(t.tick(n), Ok(()));
        assert!(t.is_complete());
    }
}

#[test]
fn unknown_id_is_not_found() {
    let mut r = Timers::new();
    let known = r.make(SEC);
    let unknown = known.id.wrapping_add(1);
    assert_eq!(r.start(unknown), Err(TimerError::NotFound));
    assert_eq!(r.start_at(unknown, wall(), 0), Err(TimerError::NotFound));
    assert_eq!(r.tick(unknown), Err(TimerError::NotFound));
    assert_eq!(r.reset(unknown, SEC), Err(TimerError::NotFound));
    assert_eq!(r.delete(unknown), None);
    assert_eq!(r.step_at(unknown, 0, 5), TickAction::Stop);
    assert_eq!(r.get(unknown), None);
    assert_eq!(r.get(known.id), Some(known));
}

#[test]
fn five_second_run_ends_with_one_done() {
    let mut r = Timers::new();
    let id = r.make(5 * SEC).id;
    let started = r.start_at(id, wall(), 0).unwrap();
    let generation = started.version;
    let mut updates: u128 = 0;
    let mut dones: u128 = 0;
    let mut n: u128 = 0;
    loop {
        n += 1;
        match r.step_at(id, generation, n * PERIOD) {
            TickAction::Update(t) => {
                assert!(!t.is_complete());
                updates += 1;
            }
            TickAction::Done(t) => {
                assert!(t.is_complete());
                dones += 1;
                break;
            }
            TickAction::Stop => break,
        }
    }
    assert_eq!(dones, 1);
    assert_eq!(updates, 300);
    assert_eq!(r.get(id).unwrap().elapsed, Some(301 * PERIOD));
}

#[test]
fn delete_stops_the_tick_task() {
    let mut r = Timers::new();
    let id = r.make(5 * SEC).id;
    let started = r.start_at(id, wall(), 0).unwrap();
    assert!(matches!(r.step_at(id, started.version, PERIOD), TickAction::Update(_)));
    let removed = r.delete(id).unwrap();
    assert_eq!(removed.id, id);
    assert_eq!(removed.elapsed, Some(PERIOD));
    assert_eq!(r.get(id), None);
    assert_eq!(r.step_at(id, started.version, 2 * PERIOD), TickAction::Stop);
    assert_eq!(r.tick(id), Err(TimerError::NotFound));
    assert_eq!(r.delete(id), None);
}

#[test]
fn reset_running_timer_needs_new_start() {
    let mut r = Timers::new();
    let id = r.make(5 * SEC).id;
    let started = r.start_at(id, wall(), 0).unwrap();
    assert!(r.tick_at(id, SEC).is_ok());
    let reset = r.reset(id, 10 * SEC).unwrap();
    assert_eq!(reset.duration, 10 * SEC);
    assert_eq!(reset.elapsed, None);
    assert_eq!(reset.started, None);
    assert_eq!(reset.checked, None);
    assert!(!reset.is_complete());
    assert_eq!(r.tick_at(id, 2 * SEC), Err(TimerError::NotStarted));
    assert_eq!(r.step_at(id, started.version, 2 * SEC), TickAction::Stop);
    assert_eq!(r.step_at(id, reset.version, 2 * SEC), TickAction::Stop);
    let again = r.start_at(id, wall(), 3 * SEC).unwrap();
    assert_eq!(again.elapsed, Some(0));
    assert_eq!(r.tick_at(id, 4 * SEC).unwrap().elapsed, Some(SEC));
}

#[test]
fn restart_retires_the_earlier_task() {
    let mut r = Timers::new();
    let id = r.make(5 * SEC).id;
    let first = r.start_at(id, wall(), 0).unwrap();
    let second = r.start_at(id, wall(), 10).unwrap();
    assert_ne!(first.version, second.version);
    assert_eq!(r.step_at(id, first.version, 20), TickAction::Stop);
    assert!(matches!(r.step_at(id, second.version, 20), TickAction::Update(_)));
}

#[test]
fn action_for_each_outcome() {
    assert_eq!(action_for(Err(TimerError::NotFound)), TickAction::Stop);
    assert_eq!(action_for(Err(TimerError::NotStarted)), TickAction::Stop);
    let mut t = Timer::new(10);
    t.start(wall(), 0);
    assert_eq!(action_for(Ok(t)), TickAction::Update(t));
    t.tick(10).unwrap();
    assert_eq!(action_for(Ok(t)), TickAction::Done(t));
}

#[test]
fn error_messages() {
    assert_eq!(TimerError::NotFound.message(), "timer not found");
    assert_eq!(TimerError::NotStarted.message(), "timer not started");
}

#[test]
fn start_records_clock_readings() {
    let mut t = Timer::new(SEC);
    t.start(wall(), 42);
    assert_eq!(t.started, Some(wall()));
    assert_eq!(t.elapsed, Some(0));
    assert_eq!(t.checked, Some(42));
    assert_eq!(t.version, 1);
}

#[test]
fn version_wraps_at_the_top() {
    let mut t = Timer::new(SEC);
    t.version = u64::MAX;
    t.reset(SEC);
    assert_eq!(t.version, 0);
}

#[test]
fn live_clocks_and_ids() {
    let mut r = Timers::new();
    let a = r.make(SEC);
    let b = r.make(SEC);
    assert_ne!(a.id, b.id);
    assert_ne!(a.id, 0);
    let t0 = r.now();
    let s = r.start(a.id).unwrap();
    let w = s.started.unwrap();
    assert!(w.unix_millis > 1_600_000_000_000);
    assert!(w.offset_secs.abs() < 86_400);
    assert!(s.checked.unwrap() >= t0);
    let ticked = r.tick(a.id).unwrap();
    assert!(ticked.checked.unwrap() >= s.checked.unwrap());
    assert!(r.now() >= ticked.checked.unwrap());
    assert!(matches!(r.step(a.id, s.version), TickAction::Update(_)));
    assert_eq!(r.step(b.id, 0), TickAction::Stop);
}
