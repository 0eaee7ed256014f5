use netease_watcher::engine::{
    doubles_equal, normalize_playback, Directive, Engine, Event, HintUpdate, Phase, Work,
    FIND_RETRY_MS, POLL_INTERVAL_MS, SENTINEL_BITS,
};
use netease_watcher::header::Architecture;
use netease_watcher::resolve::{locate_playback_address, RegionSnapshot};

fn bits(v: f64) -> u64 {
    v.to_bits()
}

fn module_header(machine: u16) -> Vec<u8> {
    let mut h = vec![0u8; 0x100];
    h[0] = b'M';
    h[1] = b'Z';
    h[0x3C..0x40].copy_from_slice(&0x80u32.to_le_bytes());
    h[0x80..0x84].copy_from_slice(b"PE\0\0");
    h[0x84..0x86].copy_from_slice(&machine.to_le_bytes());
    h
}

fn attached(address: usize, published: u64) -> Engine {
    Engine {
        phase: Phase::Polling { address, hooked: true, last_hook_attempt_ms: Some(0) },
        published,
        retry_hint_ms: None,
    }
}

#[test]
fn sentinel_bits_are_minus_one() {
    assert_eq!(f64::from_bits(SENTINEL_BITS), -1.0);
}

#[test]
fn start_publishes_the_sentinel_and_discovers() {
    let (engine, d) = Engine::start(1_000);
    assert_eq!(engine.phase, Phase::Searching);
    assert_eq!(engine.retry_hint_ms, Some(1_000));
    assert_eq!(d.publish, Some(bits(-1.0)));
    assert_eq!(d.next, Work::Discover);
}

#[test]
fn absent_target_keeps_searching_every_five_seconds() {
    let (mut engine, _) = Engine::start(0);
    let mut now = 0u64;
    for _ in 0..4 {
        let d = engine.step(Event::NotFound { now_ms: now });
        assert_eq!(engine.phase, Phase::Searching);
        assert_eq!(engine.retry_hint_ms, Some(now + 5_000));
        assert_eq!(d.hint, HintUpdate::NextAttemptAt { at_ms: now + 5_000 });
        assert_eq!(d.sleep_ms, FIND_RETRY_MS);
        assert_eq!(d.next, Work::Discover);
        assert_eq!(d.publish, None);
        assert_eq!(f64::from_bits(engine.published), -1.0);
        now += d.sleep_ms;
    }
}

#[test]
fn end_to_end_attach_and_first_read() {
    let (mut engine, _) = Engine::start(0);
    engine.step(Event::NotFound { now_ms: 0 });
    assert_eq!(f64::from_bits(engine.published), -1.0);

    let mut code = vec![0x90u8; 64];
    code[0..12].copy_from_slice(&[0xF2, 0x0F, 0x11, 0x3D, 0x00, 0x01, 0x00, 0x00, 0xF2, 0x0F, 0x11, 0x35]);
    let regions = vec![RegionSnapshot { base: 0x1000, bytes: code }];
    let address = locate_playback_address(&module_header(0x8664), &regions).unwrap();
    assert_eq!(address, 0x1108);

    let d = engine.step(Event::Discovered { now_ms: 5_000, address });
    assert_eq!(d.hint, HintUpdate::Attached);
    assert_eq!(d.next, Work::Read { address: 0x1108 });
    assert_eq!(engine.retry_hint_ms, None);

    let d = engine.step(Event::ReadOk { now_ms: 5_001, bits: bits(42.5) });
    assert_eq!(d.publish, Some(bits(42.5)));
    assert_eq!(d.next, Work::InstallHook);
    let d = engine.step(Event::HookResult { installed: false });
    assert_eq!(d.next, Work::Read { address: 0x1108 });
    assert_eq!(d.sleep_ms, POLL_INTERVAL_MS);
    let d = engine.step(Event::ReadOk { now_ms: 5_051, bits: bits(42.5) });
    assert_eq!(d.publish, None);
    assert_eq!(d.next, Work::Read { address: 0x1108 });
}

#[test]
fn process_exit_releases_and_rediscovers() {
    let mut engine = attached(0x1108, bits(10.0));
    let d = engine.step(Event::ReadOk { now_ms: 100, bits: bits(10.5) });
    assert_eq!(d.publish, Some(bits(10.5)));
    let d = engine.step(Event::Unreadable);
    assert_eq!(engine.phase, Phase::Searching);
    assert!(d.release_attachment);
    assert_eq!(d.next, Work::Discover);
    let d = engine.step(Event::Discovered { now_ms: 200, address: 0x2208 });
    assert_eq!(
        engine.phase,
        Phase::Polling { address: 0x2208, hooked: false, last_hook_attempt_ms: None }
    );
    assert_eq!(d.next, Work::Read { address: 0x2208 });
    assert!(!d.release_attachment);
}

#[test]
fn sentinel_read_is_published_as_zero() {
    let mut engine = attached(0x10, bits(-1.0));
    let d = engine.step(Event::ReadOk { now_ms: 1, bits: bits(-1.0) });
    assert_eq!(d.publish, Some(bits(0.0)));
    assert_eq!(engine.published, bits(0.0));
    let d = engine.step(Event::ReadOk { now_ms: 2, bits: bits(-1.0) });
    assert_eq!(d.publish, None);
}

#[test]
fn other_values_are_published_unchanged_only_when_different() {
    let mut engine = attached(0x10, bits(3.0));
    assert_eq!(engine.step(Event::ReadOk { now_ms: 1, bits: bits(3.0) }).publish, None);
    assert_eq!(engine.step(Event::ReadOk { now_ms: 2, bits: bits(3.25) }).publish, Some(bits(3.25)));
    assert_eq!(engine.step(Event::ReadOk { now_ms: 3, bits: bits(-2.0) }).publish, Some(bits(-2.0)));
    assert_eq!(engine.step(Event::ReadOk { now_ms: 4, bits: bits(-0.0) }).publish, Some(bits(-0.0)));
    assert_eq!(engine.step(Event::ReadOk { now_ms: 5, bits: bits(0.0) }).publish, None);
    assert_eq!(engine.step(Event::ReadOk { now_ms: 6, bits: f64::NAN.to_bits() }).publish, Some(f64::NAN.to_bits()));
    assert_eq!(engine.step(Event::ReadOk { now_ms: 7, bits: f64::NAN.to_bits() }).publish, Some(f64::NAN.to_bits()));
}

#[test]
fn hook_is_tried_once_per_cooldown_until_installed() {
    let mut engine = Engine {
        phase: Phase::Polling { address: 0x10, hooked: false, last_hook_attempt_ms: None },
        published: bits(1.0),
        retry_hint_ms: None,
    };
    assert_eq!(engine.step(Event::ReadOk { now_ms: 1_000, bits: bits(1.0) }).next, Work::InstallHook);
    engine.step(Event::HookResult { installed: false });
    assert_eq!(engine.step(Event::ReadOk { now_ms: 2_000, bits: bits(1.0) }).next, Work::Read { address: 0x10 });
    assert_eq!(engine.step(Event::ReadOk { now_ms: 3_999, bits: bits(1.0) }).next, Work::Read { address: 0x10 });
    assert_eq!(engine.step(Event::ReadOk { now_ms: 4_000, bits: bits(1.0) }).next, Work::InstallHook);
    engine.step(Event::HookResult { installed: true });
    assert_eq!(engine.step(Event::ReadOk { now_ms: 9_000, bits: bits(1.0) }).next, Work::Read { address: 0x10 });
}

#[test]
fn stop_halts_and_releases_an_attachment() {
    let mut engine = attached(0x10, bits(1.0));
    let d = engine.step(Event::StopRequested);
    assert_eq!(engine.phase, Phase::Stopped);
    assert!(d.release_attachment);
    assert_eq!(d.next, Work::Halt);
    let d = engine.step(Event::NotFound { now_ms: 5 });
    assert_eq!(d, Directive { publish: None, hint: HintUpdate::Unchanged, release_attachment: false, sleep_ms: 0, next: Work::Halt });

    let (mut searching, _) = Engine::start(0);
    let d = searching.step(Event::StopRequested);
    assert!(!d.release_attachment);
    assert_eq!(d.next, Work::Halt);
}

#[test]
fn losing_the_target_then_failing_publishes_the_sentinel_again() {
    let mut engine = attached(0x10, bits(12.0));
    engine.step(Event::Unreadable);
    let d = engine.step(Event::NotFound { now_ms: 50 });
    assert_eq!(d.publish, Some(SENTINEL_BITS));
    assert_eq!(d.hint, HintUpdate::NextAttemptAt { at_ms: 5_050 });
}

#[test]
fn retry_hint_saturates() {
    let (mut engine, _) = Engine::start(0);
    let d = engine.step(Event::NotFound { now_ms: u64::MAX - 10 });
    assert_eq!(d.hint, HintUpdate::NextAttemptAt { at_ms: u64::MAX });
}

#[test]
fn double_helpers_follow_ieee_equality() {
    assert!(doubles_equal(bits(0.0), bits(-0.0)));
    assert!(doubles_equal(bits(2.5), bits(2.5)));
    assert!(!doubles_equal(bits(2.5), bits(2.0)));
    assert!(!doubles_equal(f64::NAN.to_bits(), f64::NAN.to_bits()));
    assert!(doubles_equal(f64::INFINITY.to_bits(), f64::INFINITY.to_bits()));
    assert_eq!(normalize_playback(bits(-1.0)), bits(0.0));
    assert_eq!(normalize_playback(bits(-1.5)), bits(-1.5));
    assert_eq!(normalize_playback(bits(42.5)), bits(42.5));
    let _ = Architecture::Bits64;
}
