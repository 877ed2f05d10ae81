use sage::sg_threading::timer::{describe_timer, Timer as RuntimeTimer, TimerType as RuntimeTimerType};
use sage::time_span::TimeSpan;
use sage::timer::{
    arm_spec, disarm_spec, get_next_timer_id, timer_type_name, Timer, TimerIdSource, TimerSpec,
    TimerType,
};

#[test]
fn ids_start_at_one_and_count_up() {
    let mut source = TimerIdSource::new();
    assert_eq!(get_next_timer_id(&mut source), 1);
    assert_eq!(get_next_timer_id(&mut source), 2);
    assert_eq!(get_next_timer_id(&mut source), 3);
}

#[test]
fn arming_values_for_each_type() {
    let delta = TimeSpan::new(1, 500_000_000);
    assert_eq!(
        arm_spec(&delta, true),
        TimerSpec { value_secs: 1, value_nanos: 500_000_000, interval_secs: 1, interval_nanos: 500_000_000 }
    );
    assert_eq!(
        arm_spec(&delta, false),
        TimerSpec { value_secs: 1, value_nanos: 500_000_000, interval_secs: 0, interval_nanos: 0 }
    );
    assert_eq!(
        disarm_spec(),
        TimerSpec { value_secs: 0, value_nanos: 0, interval_secs: 0, interval_nanos: 0 }
    );
}

#[test]
fn start_spec_follows_timer_type() {
    let periodic = Timer::new(7, "p", TimeSpan::from_millis(200), TimerType::Periodic, ());
    let spec = periodic.start_spec();
    assert_eq!((spec.value_secs, spec.value_nanos), (0, 200_000_000));
    assert_eq!((spec.interval_secs, spec.interval_nanos), (0, 200_000_000));
    let once = Timer::new(8, "o", TimeSpan::from_millis(200), TimerType::FireOnce, ());
    let spec = once.start_spec();
    assert_eq!((spec.interval_secs, spec.interval_nanos), (0, 0));
    assert_eq!(once.get_id(), 8);
}

#[test]
fn periodic_timer_fires_while_running() {
    let mut timer = Timer::new(1, "p", TimeSpan::from_millis(10), TimerType::Periodic, ());
    assert!(timer.period_covers_grace());
    assert_eq!(timer.on_notification(&TimeSpan::from_millis(10)), Some(false));
    timer.mark_started();
    assert_eq!(timer.on_notification(&TimeSpan::from_millis(10)), Some(true));
    assert!(timer.running());
    // within the grace period before the period counts
    assert_eq!(timer.on_notification(&TimeSpan::from_micros(9_750)), Some(true));
    assert_eq!(timer.on_notification(&TimeSpan::from_micros(9_749)), None);
    timer.mark_stopped();
    assert_eq!(timer.on_notification(&TimeSpan::from_millis(20)), Some(false));
}

#[test]
fn fire_once_timer_fires_once() {
    let mut timer = Timer::new(2, "o", TimeSpan::from_millis(10), TimerType::FireOnce, ());
    timer.mark_started();
    assert_eq!(timer.on_notification(&TimeSpan::from_millis(11)), Some(true));
    assert!(!timer.running());
    assert_eq!(timer.on_notification(&TimeSpan::from_millis(11)), Some(false));
}

#[test]
fn short_period_cannot_be_checked() {
    let timer = Timer::new(3, "s", TimeSpan::from_micros(100), TimerType::Periodic, ());
    assert!(!timer.period_covers_grace());
}

#[test]
fn timer_description_reads_like_the_display() {
    let mut timer = Timer::new(12, "dispatcher", TimeSpan::from_millis(1_000), TimerType::Periodic, ());
    assert_eq!(
        timer.describe(42),
        "(id:12 name:'dispatcher' type:'Periodic' period:1000000us since-last-expiry:42us)"
    );
    *timer.inner_mut() = ();
    assert_eq!(timer_type_name(TimerType::FireOnce), "FireOnce");
}

#[test]
fn runtime_timer_description_uses_duration_debug() {
    let timer = RuntimeTimer::new("shutdown", TimeSpan::from_millis(200), RuntimeTimerType::FireOnce, 0u8);
    assert_eq!(timer.describe(), "(name:'shutdown' type:'FireOnce' period:200ms)");
    let timer = RuntimeTimer::new("tick", TimeSpan::new(1, 500_000_000), RuntimeTimerType::Periodic, 0u8);
    assert_eq!(timer.describe(), "(name:'tick' type:'Periodic' period:1.5s)");
    assert_eq!(*timer.inner(), 0u8);
    assert_eq!(describe_timer("n", RuntimeTimerType::Periodic, "3s"), "(name:'n' type:'Periodic' period:3s)");
}

#[test]
fn runtime_timer_specs() {
    let timer = RuntimeTimer::new("t", TimeSpan::from_millis(500), RuntimeTimerType::Periodic, ());
    let spec = timer.start_spec();
    assert_eq!(spec.interval_nanos, 500_000_000);
    assert_eq!(timer.stop_spec(), disarm_spec());
}
