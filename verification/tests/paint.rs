use osstat::clock::Clock;
use osstat::display::{render, REPAINT_AFTER_MILLIS};
use osstat::level::Level;
use osstat::memory::{Share, BYTES_PER_MIB};
use osstat::single::Single;
use osstat::snapshot::{Reading, StatsSnapshot, SAMPLE_INTERVAL_NANOS};
use osstat::widget::OsStat;
use osstat::window::window_config;
use sysinfo::System;

fn reading(total: u64, used: u64, cpu: f32) -> Reading {
    Reading { total_memory: total, used_memory: used, cpu_usage: Single::from_bits(cpu.to_bits()) }
}

fn snapshot(total_mib: u64, used_mib: u64, cpu: f32) -> StatsSnapshot {
    StatsSnapshot::from_reading(
        reading(total_mib * BYTES_PER_MIB, used_mib * BYTES_PER_MIB, cpu),
        SAMPLE_INTERVAL_NANOS,
    )
}

fn query(system: &mut System) -> Reading {
    system.refresh_cpu_usage();
    system.refresh_memory();
    Reading {
        total_memory: system.total_memory(),
        used_memory: system.used_memory(),
        cpu_usage: Single::from_bits(system.global_cpu_usage().to_bits()),
    }
}

#[test]
fn low_memory_use_end_to_end() {
    let frame = render(&snapshot(16000, 1500, 0.0));
    assert_eq!(frame.ram, "RAM: 9.38%");
    assert_eq!(frame.ram_level, Level::Low);
    assert_eq!(frame.memory, "1500.00/16000.00 MiB");
}

#[test]
fn high_processor_load_end_to_end() {
    let frame = render(&snapshot(16000, 8000, 95.2));
    assert_eq!(frame.cpu, "CPU: 95.20%");
    assert_eq!(frame.cpu_level, Level::High);
}

#[test]
fn half_the_memory_end_to_end() {
    let frame = render(&snapshot(16000, 8000, 50.0));
    assert_eq!(frame.ram, "RAM: 50.00%");
    assert_eq!(frame.ram_level, Level::Medium);
    assert_eq!(frame.cpu, "CPU: 50.00%");
    assert_eq!(frame.cpu_level, Level::Medium);
}

#[test]
fn frame_has_a_heading_and_asks_for_the_next_paint() {
    let frame = render(&snapshot(1, 1, 1.0));
    assert_eq!(frame.heading, "OSStats");
    assert_eq!(frame.repaint_after_millis, 100);
    assert_eq!(REPAINT_AFTER_MILLIS, 100);
}

#[test]
fn snapshot_that_was_never_sampled_is_drawn_as_zero() {
    let frame = render(&StatsSnapshot::zeroed());
    assert_eq!(frame.ram, "RAM: 0.00%");
    assert_eq!(frame.ram_level, Level::Low);
    assert_eq!(frame.memory, "0.00/0.00 MiB");
    assert_eq!(frame.cpu, "CPU: 0.00%");
    assert_eq!(frame.cpu_level, Level::Low);
}

#[test]
fn sample_without_memory_is_drawn() {
    let frame = render(&snapshot(0, 0, 0.0));
    assert_eq!(frame.ram, "RAM: NaN%");
    assert_eq!(frame.ram_level, Level::Medium);
    assert_eq!(frame.memory, "0.00/0.00 MiB");
    assert_eq!(frame.cpu, "CPU: 0.00%");
    assert_eq!(frame.cpu_level, Level::Low);
}

#[test]
fn sample_with_use_but_no_memory_is_drawn() {
    let frame = render(&snapshot(0, 5, 0.0));
    assert_eq!(frame.ram, "RAM: inf%");
    assert_eq!(frame.ram_level, Level::High);
    assert_eq!(frame.memory, "5.00/0.00 MiB");
}

#[test]
fn frame_shows_the_share_that_the_snapshot_holds() {
    let mut s = snapshot(16000, 1500, 0.0);
    s.used_memory_share = Share::new(1, 4);
    let frame = render(&s);
    assert_eq!(frame.ram, "RAM: 25.00%");
    assert_eq!(frame.ram_level, Level::Medium);
    assert_eq!(frame.memory, "1500.00/16000.00 MiB");
}

#[test]
fn share_of_nothing_is_zero_percent() {
    let share = Share::none();
    let mut out = String::new();
    share.push_text(&mut out);
    assert_eq!(out, "0.00");
    assert_eq!(share.level(), Level::Low);
}

#[test]
fn share_is_graded_and_written_from_its_two_counts() {
    let share = Share::new(1500, 16000);
    assert_eq!(share, Share { part: 1500, whole: 16000 });
    let mut out = String::new();
    share.push_text(&mut out);
    assert_eq!(out, "9.38");
    assert_eq!(share.level(), Level::Low);
    assert_eq!(Share::new(901, 1000).level(), Level::High);
    assert_eq!(Share::new(0, 0).level(), Level::Medium);
}

#[test]
fn undefined_processor_load_is_drawn() {
    let frame = render(&snapshot(16000, 8000, f32::NAN));
    assert_eq!(frame.cpu, "CPU: NaN%");
    assert_eq!(frame.cpu_level, Level::Medium);
}

#[test]
fn frame_is_what_floating_point_would_show() {
    let total: u64 = 33_554_432_000;
    let mut used: u64 = 0;
    while used <= total {
        let s = StatsSnapshot::from_reading(reading(total, used, 0.0), 0);
        let total_mib = (total as f64) / 1024.0 / 1024.0;
        let used_mib = (used as f64) / 1024.0 / 1024.0;
        let frame = render(&s);
        assert_eq!(frame.memory, format!("{:.2}/{:.2} MiB", used_mib, total_mib));
        assert_eq!(frame.ram, format!("RAM: {:.2}%", used_mib / total_mib * 100.0));
        used += 1_048_576_000;
    }
}

#[test]
fn zeroed_snapshot_holds_nothing() {
    let s = StatsSnapshot::zeroed();
    assert_eq!(s.total_memory, 0);
    assert_eq!(s.used_memory, 0);
    assert_eq!(s.used_memory_share, Share::none());
    assert_eq!(s.cpu_usage, Single::from_bits(0.0f32.to_bits()));
    assert_eq!(s.last_sample_time, 0);
}

#[test]
fn sample_is_due_after_one_second() {
    let s = snapshot(1, 1, 1.0);
    let taken = s.last_sample_time;
    assert!(!s.is_due(taken));
    assert!(!s.is_due(taken + 1));
    assert!(!s.is_due(taken + 999_999_999));
    assert!(s.is_due(taken + 1_000_000_000));
    assert!(s.is_due(taken + 1_000_000_001));
    assert!(s.is_due(u128::MAX));
}

#[test]
fn sample_is_not_due_when_the_clock_ran_backwards() {
    let mut s = snapshot(1, 1, 1.0);
    s.last_sample_time = 5_000_000_000;
    assert!(!s.is_due(0));
    assert!(!s.is_due(4_999_999_999));
    s.last_sample_time = u128::MAX;
    assert!(!s.is_due(0));
    assert!(!s.is_due(u128::MAX));
}

#[test]
fn zeroed_snapshot_is_due_from_the_first_reading_of_the_clock() {
    let s = StatsSnapshot::zeroed();
    assert!(s.is_due(SAMPLE_INTERVAL_NANOS));
    assert!(!s.is_due(SAMPLE_INTERVAL_NANOS - 1));
}

#[test]
fn record_replaces_every_reading() {
    let mut s = snapshot(16000, 1500, 95.2);
    s.record(reading(7, 3, 12.5), 42);
    assert_eq!(
        s,
        StatsSnapshot {
            total_memory: 7,
            used_memory: 3,
            used_memory_share: Share { part: 3, whole: 7 },
            cpu_usage: Single::from_bits(12.5f32.to_bits()),
            last_sample_time: 42,
        }
    );
    assert_eq!(s, StatsSnapshot::from_reading(reading(7, 3, 12.5), 42));
}

#[test]
fn paint_replaces_the_readings_when_due() {
    let mut s = snapshot(16000, 1500, 95.2);
    let now = s.last_sample_time + SAMPLE_INTERVAL_NANOS;
    assert!(s.paint(now, reading(7, 3, 12.5)));
    assert_eq!(s, StatsSnapshot::from_reading(reading(7, 3, 12.5), now));
    assert_eq!(s.last_sample_time, now);
}

#[test]
fn paint_keeps_the_readings_when_not_due() {
    let before = snapshot(16000, 1500, 95.2);
    let mut s = before;
    assert!(!s.paint(before.last_sample_time + SAMPLE_INTERVAL_NANOS - 1, reading(7, 3, 12.5)));
    assert_eq!(s, before);
    assert!(!s.paint(0, reading(7, 3, 12.5)));
    assert_eq!(s, before);
}

#[test]
fn window_is_bare_and_see_through() {
    let config = window_config();
    assert_eq!(config.title, "OsStat");
    assert!(config.resizable);
    assert!(!config.decorations);
    assert!(config.transparent);
    assert_eq!(config.position, (0, 0));
    assert_eq!(config.inner_size, (200, 100));
}

#[test]
fn window_stays_on_top() {
    assert!(window_config().always_on_top);
}

#[test]
fn new_monitor_holds_nothing() {
    let stat = OsStat::new();
    assert_eq!(stat.current(), StatsSnapshot::zeroed());
    let stat = OsStat::default();
    assert_eq!(stat.current(), StatsSnapshot::zeroed());
}

#[test]
fn new_monitor_shows_zero_until_it_has_sampled() {
    let mut stat = OsStat::new();
    let frame = stat.frame();
    assert_eq!(frame.ram, "RAM: 0.00%");
    assert_eq!(frame.ram_level, Level::Low);
    let frame = stat.update_with(0, reading(16000, 8000, 50.0));
    assert_eq!(frame.ram, "RAM: 0.00%");
    assert_eq!(frame.ram_level, Level::Low);
    assert_eq!(stat.current(), StatsSnapshot::zeroed());
}

#[test]
fn new_monitor_is_due_at_once() {
    let stat = OsStat::new();
    let now = stat.now();
    assert!(now >= SAMPLE_INTERVAL_NANOS);
    assert!(stat.is_due(now));
    assert!(!stat.is_due(SAMPLE_INTERVAL_NANOS - 1));
}

#[test]
fn first_paint_takes_the_reading() {
    let mut stat = OsStat::new();
    let now = stat.now();
    let frame = stat.update_with(now, reading(16000 * BYTES_PER_MIB, 1500 * BYTES_PER_MIB, 95.2));
    assert_eq!(
        stat.current(),
        StatsSnapshot::from_reading(
            reading(16000 * BYTES_PER_MIB, 1500 * BYTES_PER_MIB, 95.2),
            now
        )
    );
    assert_eq!(stat.current().last_sample_time, now);
    assert_eq!(frame.heading, "OSStats");
    assert_eq!(frame.ram, "RAM: 9.38%");
    assert_eq!(frame.ram_level, Level::Low);
    assert_eq!(frame.memory, "1500.00/16000.00 MiB");
    assert_eq!(frame.cpu, "CPU: 95.20%");
    assert_eq!(frame.cpu_level, Level::High);
    let again = stat.frame();
    assert_eq!(again.ram, frame.ram);
    assert_eq!(again.memory, frame.memory);
    assert_eq!(again.cpu, frame.cpu);
}

#[test]
fn second_paint_within_a_second_keeps_the_snapshot() {
    let mut stat = OsStat::new();
    let now = stat.now();
    stat.update_with(now, reading(100, 50, 1.0));
    let first = stat.current();
    assert!(!stat.is_due(now));
    assert!(!stat.is_due(now + SAMPLE_INTERVAL_NANOS - 1));
    let frame = stat.update_with(now + SAMPLE_INTERVAL_NANOS - 1, reading(7, 3, 99.0));
    assert_eq!(stat.current(), first);
    assert_eq!(frame.ram, "RAM: 50.00%");
    stat.update_with(0, reading(7, 3, 99.0));
    assert_eq!(stat.current(), first);
}

#[test]
fn paint_after_a_second_samples_again() {
    let mut stat = OsStat::new();
    let now = stat.now();
    stat.update_with(now, reading(100, 50, 1.0));
    let first = stat.current();
    let later = now + SAMPLE_INTERVAL_NANOS;
    assert!(stat.is_due(later));
    let frame = stat.update_with(later, reading(100, 95, 99.0));
    let second = stat.current();
    assert_eq!(second, StatsSnapshot::from_reading(reading(100, 95, 99.0), later));
    assert!(second.last_sample_time > first.last_sample_time);
    assert_eq!(frame.ram, "RAM: 95.00%");
    assert_eq!(frame.ram_level, Level::High);
    assert_eq!(frame.cpu_level, Level::High);
}

#[test]
fn clock_starts_one_interval_in_and_runs_forwards() {
    let clock = Clock::start();
    let first = clock.now();
    let second = clock.now();
    assert!(first >= SAMPLE_INTERVAL_NANOS);
    assert!(second >= first);
}

#[test]
fn host_reading_is_graded_and_drawn() {
    let mut system = System::new_all();
    let mut stat = OsStat::new();
    let now = stat.now();
    assert!(stat.is_due(now));
    let answer = query(&mut system);
    let frame = stat.update_with(now, answer);
    let s = stat.current();
    assert_eq!(s, StatsSnapshot::from_reading(answer, now));
    assert_eq!(frame.cpu_level, answer.cpu_usage.level());
    assert_eq!(frame.ram_level, Share::new(answer.used_memory, answer.total_memory).level());
    let load = f32::from_bits(answer.cpu_usage.bits);
    assert_eq!(frame.cpu, format!("CPU: {:.2}%", load));
    let total_mib = (answer.total_memory as f64) / 1024.0 / 1024.0;
    let used_mib = (answer.used_memory as f64) / 1024.0 / 1024.0;
    assert_eq!(frame.memory, format!("{:.2}/{:.2} MiB", used_mib, total_mib));
    let later = stat.now();
    if !stat.is_due(later) {
        stat.update_with(later, query(&mut system));
        assert_eq!(stat.current(), s);
    }
}
