//! The polling state machine: it decides, from its state and the outcome of
//! the last piece of outside work, what to publish and what to do next.
//!
//! The driver performs the work a [`Directive`] names (discover the target,
//! read the field, install the optional hook, or halt), sleeps for the time it
//! gives, and reports the outcome back as an [`Event`]. Playback times travel
//! as the bit patterns of IEEE-754 doubles.

use vstd::prelude::*;

verus! {

/// Seconds between two attempts to find the target process.
pub const FIND_RETRY_SECS: u64 = 5;

/// Seconds between two attempts to install the optional hook.
pub const HOOK_COOLDOWN: u64 = 3;

/// Milliseconds between two attempts to find the target process.
pub const FIND_RETRY_MS: u64 = FIND_RETRY_SECS * 1000;

/// Milliseconds between two attempts to install the optional hook.
pub const HOOK_COOLDOWN_MS: u64 = HOOK_COOLDOWN * 1000;

/// Milliseconds between two reads of the playback field.
pub const POLL_INTERVAL_MS: u64 = 50;

/// Bits of the double `-1.0`: the value the player stores in the field before
/// playback starts, and the value published while nothing is known.
pub const SENTINEL_BITS: u64 = 0xBFF0_0000_0000_0000;

/// Bits of the double `0.0`.
pub const ZERO_BITS: u64 = 0;

/// The double with bits `x` is a NaN: all exponent bits set, fraction non-zero.
pub open spec fn is_nan_bits(x: u64) -> bool {
    (x >> 52u64) & 0x7FFu64 == 0x7FFu64 && x & 0xF_FFFF_FFFF_FFFFu64 != 0
}

/// The double with bits `x` is `0.0` or `-0.0`.
pub open spec fn is_zero_bits(x: u64) -> bool {
    x & 0x7FFF_FFFF_FFFF_FFFFu64 == 0
}

/// IEEE-754 equality of the doubles with bits `a` and `b`: a NaN equals
/// nothing, the two zeros are equal, and otherwise equal bits mean equal values.
pub open spec fn same_double(a: u64, b: u64) -> bool {
    !is_nan_bits(a) && !is_nan_bits(b) && (a == b || (is_zero_bits(a) && is_zero_bits(b)))
}

/// The value published for a raw read: the sentinel becomes `0.0`, any other
/// value stays as it is.
pub open spec fn normalized(bits: u64) -> u64 {
    if bits == SENTINEL_BITS {
        ZERO_BITS
    } else {
        bits
    }
}

/// Compares two doubles given by their bits, as `==` on `f64` does.
pub fn doubles_equal(a: u64, b: u64) -> (r: bool)
    ensures
        r == same_double(a, b),
{
    let a_nan = (a >> 52u64) & 0x7FFu64 == 0x7FFu64 && a & 0xF_FFFF_FFFF_FFFFu64 != 0;
    let b_nan = (b >> 52u64) & 0x7FFu64 == 0x7FFu64 && b & 0xF_FFFF_FFFF_FFFFu64 != 0;
    let both_zero = a & 0x7FFF_FFFF_FFFF_FFFFu64 == 0 && b & 0x7FFF_FFFF_FFFF_FFFFu64 == 0;
    !a_nan && !b_nan && (a == b || both_zero)
}

/// The value to publish for a raw read of the playback field.
pub fn normalize_playback(bits: u64) -> (r: u64)
    ensures
        r == normalized(bits),
{
    if bits == SENTINEL_BITS {
        ZERO_BITS
    } else {
        bits
    }
}

/// Where the engine stands.
#[derive(Clone, Copy, Debug, PartialEq, Eq)]
pub enum Phase {
    /// No target is attached; discovery runs until one is found.
    Searching,
    /// The playback field at `address` is read on every poll. `hooked` tells
    /// whether the optional hook is in place, and `last_hook_attempt_ms` when
    /// it was last tried.
    Polling { address: usize, hooked: bool, last_hook_attempt_ms: Option<u64> },
    /// A stop was requested; nothing more is done.
    Stopped,
}

/// The outcome of the work that the last directive asked for.
#[derive(Clone, Copy, Debug, PartialEq, Eq)]
pub enum Event {
    /// Discovery found the target and resolved the playback field's address.
    Discovered { now_ms: u64, address: usize },
    /// Discovery found no usable target.
    NotFound { now_ms: u64 },
    /// The field was read; `bits` are the eight bytes as a little-endian word.
    ReadOk { now_ms: u64, bits: u64 },
    /// The field could not be read: the attachment is lost.
    Unreadable,
    /// The hook installation was tried.
    HookResult { installed: bool },
    /// A stop was signalled from outside.
    StopRequested,
}

/// The next piece of outside work.
#[derive(Clone, Copy, Debug, PartialEq, Eq, Structural)]
pub enum Work {
    Discover,
    Read { address: usize },
    InstallHook,
    Halt,
}

/// What to tell observers about the next discovery attempt.
#[derive(Clone, Copy, Debug, PartialEq, Eq, Structural)]
pub enum HintUpdate {
    Unchanged,
    /// The next attempt happens at this time.
    NextAttemptAt { at_ms: u64 },
    /// The target was found: no attempt is scheduled.
    Attached,
}

/// What the driver does after a step: publish, update the hint, release the
/// attachment (close the process handle, remove hooks), sleep, then work.
#[derive(Clone, Copy, Debug, PartialEq, Eq)]
pub struct Directive {
    pub publish: Option<u64>,
    pub hint: HintUpdate,
    pub release_attachment: bool,
    pub sleep_ms: u64,
    pub next: Work,
}

/// The engine's state: its phase, the bits of the value last published on
/// the channel, and when the next discovery attempt is due (none while
/// attached).
#[derive(Clone, Copy, Debug, PartialEq, Eq)]
pub struct Engine {
    pub phase: Phase,
    pub published: u64,
    pub retry_hint_ms: Option<u64>,
}

/// When the discovery attempt after a failed one at `now_ms` is due.
pub open spec fn retry_at(now_ms: u64) -> u64 {
    if now_ms <= u64::MAX - FIND_RETRY_MS {
        (now_ms + FIND_RETRY_MS) as u64
    } else {
        u64::MAX
    }
}

/// The hook may be tried again at `now_ms`.
pub open spec fn cooldown_elapsed(last_attempt_ms: Option<u64>, now_ms: u64) -> bool {
    match last_attempt_ms {
        None => true,
        Some(t) => t <= now_ms && now_ms - t >= HOOK_COOLDOWN_MS,
    }
}

/// A directive that only names the next work.
pub open spec fn plain(next: Work, sleep_ms: u64) -> Directive {
    Directive {
        publish: None,
        hint: HintUpdate::Unchanged,
        release_attachment: false,
        sleep_ms,
        next,
    }
}

/// The engine's transition: its state after `ev`, and the directive it issues.
pub open spec fn transition(e: Engine, ev: Event) -> (Engine, Directive) {
    match e.phase {
        Phase::Stopped => (e, plain(Work::Halt, 0)),
        Phase::Searching => match ev {
            Event::StopRequested => (Engine { phase: Phase::Stopped, ..e }, plain(Work::Halt, 0)),
            Event::Discovered { now_ms, address } => (
                Engine {
                    phase: Phase::Polling { address, hooked: false, last_hook_attempt_ms: None },
                    published: e.published,
                    retry_hint_ms: None,
                },
                Directive {
                    publish: None,
                    hint: HintUpdate::Attached,
                    release_attachment: false,
                    sleep_ms: 0,
                    next: Work::Read { address },
                },
            ),
            Event::NotFound { now_ms } => (
                Engine {
                    phase: Phase::Searching,
                    published: SENTINEL_BITS,
                    retry_hint_ms: Some(retry_at(now_ms)),
                },
                Directive {
                    publish: if e.published == SENTINEL_BITS {
                        None
                    } else {
                        Some(SENTINEL_BITS)
                    },
                    hint: HintUpdate::NextAttemptAt { at_ms: retry_at(now_ms) },
                    release_attachment: false,
                    sleep_ms: FIND_RETRY_MS,
                    next: Work::Discover,
                },
            ),
            _ => (e, plain(Work::Discover, 0)),
        },
        Phase::Polling { address, hooked, last_hook_attempt_ms } => match ev {
            Event::StopRequested => (
                Engine { phase: Phase::Stopped, ..e },
                Directive { release_attachment: true, ..plain(Work::Halt, 0) },
            ),
            Event::ReadOk { now_ms, bits } => {
                let v = normalized(bits);
                let changed = !same_double(v, e.published);
                let attempt = !hooked && cooldown_elapsed(last_hook_attempt_ms, now_ms);
                (
                    Engine {
                        phase: Phase::Polling {
                            address,
                            hooked,
                            last_hook_attempt_ms: if attempt {
                                Some(now_ms)
                            } else {
                                last_hook_attempt_ms
                            },
                        },
                        published: if changed {
                            v
                        } else {
                            e.published
                        },
                        retry_hint_ms: e.retry_hint_ms,
                    },
                    Directive {
                        publish: if changed {
                            Some(v)
                        } else {
                            None
                        },
                        hint: HintUpdate::Unchanged,
                        release_attachment: false,
                        sleep_ms: if attempt {
                            0
                        } else {
                            POLL_INTERVAL_MS
                        },
                        next: if attempt {
                            Work::InstallHook
                        } else {
                            Work::Read { address }
                        },
                    },
                )
            },
            Event::HookResult { installed } => (
                Engine {
                    phase: Phase::Polling {
                        address,
                        hooked: hooked || installed,
                        last_hook_attempt_ms,
                    },
                    ..e
                },
                plain(Work::Read { address }, POLL_INTERVAL_MS),
            ),
            Event::Unreadable => (
                Engine { phase: Phase::Searching, ..e },
                Directive { release_attachment: true, ..plain(Work::Discover, 0) },
            ),
            _ => (e, plain(Work::Read { address }, 0)),
        },
    }
}

/// While polling, a read of the sentinel is published as `0.0`, and a read
/// of any other value is published unchanged; either is published exactly when
/// it differs from the value last published, and the channel then holds it.
pub proof fn lemma_publish_rule(e: Engine, now_ms: u64, bits: u64)
    requires
        e.phase is Polling,
    ensures
        ({
            let (next, d) = transition(e, Event::ReadOk { now_ms, bits });
            let shown = if bits == SENTINEL_BITS {
                ZERO_BITS
            } else {
                bits
            };
            &&& d.publish == if same_double(shown, e.published) {
                None
            } else {
                Some(shown)
            }
            &&& next.published == if same_double(shown, e.published) {
                e.published
            } else {
                shown
            }
            &&& next.phase is Polling
        }),
{
}

/// Two reads of the same value in a row publish it at most once: the second
/// read publishes nothing, unless the value is a NaN, which equals nothing.
pub proof fn lemma_equal_reads_publish_once(e: Engine, first_ms: u64, second_ms: u64, bits: u64)
    requires
        e.phase is Polling,
        !is_nan_bits(normalized(bits)),
    ensures
        transition(transition(e, Event::ReadOk { now_ms: first_ms, bits }).0, Event::ReadOk {
            now_ms: second_ms,
            bits,
        }).1.publish is None,
{
}

/// While the target is absent, each failed discovery keeps the engine
/// searching with the sentinel published, and schedules the next attempt
/// five seconds later.
pub proof fn lemma_searching_while_absent(e: Engine, now_ms: u64)
    requires
        e.phase is Searching,
        now_ms <= u64::MAX - FIND_RETRY_MS,
    ensures
        ({
            let (next, d) = transition(e, Event::NotFound { now_ms });
            &&& next.phase is Searching
            &&& next.published == SENTINEL_BITS
            &&& next.retry_hint_ms == Some((now_ms + FIND_RETRY_MS) as u64)
            &&& d.hint == HintUpdate::NextAttemptAt { at_ms: (now_ms + FIND_RETRY_MS) as u64 }
            &&& d.sleep_ms == FIND_RETRY_MS
            &&& d.next == Work::Discover
        }),
{
}

/// A failed read while polling releases the attachment and returns to
/// discovery; a later successful discovery attaches to the new address, with
/// no other step in between.
pub proof fn lemma_rediscovery_after_exit(e: Engine, now_ms: u64, address: usize)
    requires
        e.phase is Polling,
    ensures
        ({
            let (lost, d1) = transition(e, Event::Unreadable);
            let (found, d2) = transition(lost, Event::Discovered { now_ms, address });
            &&& lost.phase is Searching
            &&& d1.release_attachment
            &&& d1.next == Work::Discover
            &&& found.phase == (Phase::Polling {
                address,
                hooked: false,
                last_hook_attempt_ms: None,
            })
            &&& found.retry_hint_ms is None
            &&& d2.hint == HintUpdate::Attached
            &&& d2.next == (Work::Read { address })
        }),
{
}

impl Engine {
    /// A fresh engine at `now_ms`, searching, with the sentinel published and
    /// the first attempt due at once; and the directive that starts it.
    pub fn start(now_ms: u64) -> (r: (Engine, Directive))
        ensures
            r.0 == (Engine {
                phase: Phase::Searching,
                published: SENTINEL_BITS,
                retry_hint_ms: Some(now_ms),
            }),
            r.1 == (Directive {
                publish: Some(SENTINEL_BITS),
                hint: HintUpdate::NextAttemptAt { at_ms: now_ms },
                release_attachment: false,
                sleep_ms: 0,
                next: Work::Discover,
            }),
    {
        (
            Engine { phase: Phase::Searching, published: SENTINEL_BITS, retry_hint_ms: Some(now_ms) },
            Directive {
                publish: Some(SENTINEL_BITS),
                hint: HintUpdate::NextAttemptAt { at_ms: now_ms },
                release_attachment: false,
                sleep_ms: 0,
                next: Work::Discover,
            },
        )
    }

    /// Takes one step on the outcome `ev` of the last work.
    pub fn step(&mut self, ev: Event) -> (d: Directive)
        ensures
            (*final(self), d) == transition(*old(self), ev),
    {
        match self.phase {
            Phase::Stopped => Directive {
                publish: None,
                hint: HintUpdate::Unchanged,
                release_attachment: false,
                sleep_ms: 0,
                next: Work::Halt,
            },
            Phase::Searching => self.step_searching(ev),
            Phase::Polling { address, hooked, last_hook_attempt_ms } => self.step_polling(
                ev,
                address,
                hooked,
                last_hook_attempt_ms,
            ),
        }
    }

    fn step_searching(&mut self, ev: Event) -> (d: Directive)
        requires
            old(self).phase == Phase::Searching,
        ensures
            (*final(self), d) == transition(*old(self), ev),
    {
        match ev {
            Event::StopRequested => {
                self.phase = Phase::Stopped;
                Directive {
                    publish: None,
                    hint: HintUpdate::Unchanged,
                    release_attachment: false,
                    sleep_ms: 0,
                    next: Work::Halt,
                }
            },
            Event::Discovered { now_ms, address } => {
                self.phase = Phase::Polling { address, hooked: false, last_hook_attempt_ms: None };
                self.retry_hint_ms = None;
                Directive {
                    publish: None,
                    hint: HintUpdate::Attached,
                    release_attachment: false,
                    sleep_ms: 0,
                    next: Work::Read { address },
                }
            },
            Event::NotFound { now_ms } => {
                let at_ms = if now_ms <= u64::MAX - FIND_RETRY_MS {
                    now_ms + FIND_RETRY_MS
                } else {
                    u64::MAX
                };
                let publish = if self.published == SENTINEL_BITS {
                    None
                } else {
                    Some(SENTINEL_BITS)
                };
                self.published = SENTINEL_BITS;
                self.retry_hint_ms = Some(at_ms);
                Directive {
                    publish,
                    hint: HintUpdate::NextAttemptAt { at_ms },
                    release_attachment: false,
                    sleep_ms: FIND_RETRY_MS,
                    next: Work::Discover,
                }
            },
            _ => Directive {
                publish: None,
                hint: HintUpdate::Unchanged,
                release_attachment: false,
                sleep_ms: 0,
                next: Work::Discover,
            },
        }
    }

    fn step_polling(
        &mut self,
        ev: Event,
        address: usize,
        hooked: bool,
        last_hook_attempt_ms: Option<u64>,
    ) -> (d: Directive)
        requires
            old(self).phase == (Phase::Polling { address, hooked, last_hook_attempt_ms }),
        ensures
            (*final(self), d) == transition(*old(self), ev),
    {
        match ev {
            Event::StopRequested => {
                self.phase = Phase::Stopped;
                Directive {
                    publish: None,
                    hint: HintUpdate::Unchanged,
                    release_attachment: true,
                    sleep_ms: 0,
                    next: Work::Halt,
                }
            },
            Event::ReadOk { now_ms, bits } => {
                let v = normalize_playback(bits);
                let changed = !doubles_equal(v, self.published);
                let attempt = !hooked && match last_hook_attempt_ms {
                    None => true,
                    Some(t) => t <= now_ms && now_ms - t >= HOOK_COOLDOWN_MS,
                };
                if attempt {
                    self.phase = Phase::Polling {
                        address,
                        hooked,
                        last_hook_attempt_ms: Some(now_ms),
                    };
                }
                let publish = if changed {
                    self.published = v;
                    Some(v)
                } else {
                    None
                };
                Directive {
                    publish,
                    hint: HintUpdate::Unchanged,
                    release_attachment: false,
                    sleep_ms: if attempt {
                        0
                    } else {
                        POLL_INTERVAL_MS
                    },
                    next: if attempt {
                        Work::InstallHook
                    } else {
                        Work::Read { address }
                    },
                }
            },
            Event::HookResult { installed } => {
                self.phase = Phase::Polling {
                    address,
                    hooked: hooked || installed,
                    last_hook_attempt_ms,
                };
                Directive {
                    publish: None,
                    hint: HintUpdate::Unchanged,
                    release_attachment: false,
                    sleep_ms: POLL_INTERVAL_MS,
                    next: Work::Read { address },
                }
            },
            Event::Unreadable => {
                self.phase = Phase::Searching;
                Directive {
                    publish: None,
                    hint: HintUpdate::Unchanged,
                    release_attachment: true,
                    sleep_ms: 0,
                    next: Work::Discover,
                }
            },
            _ => Directive {
                publish: None,
                hint: HintUpdate::Unchanged,
                release_attachment: false,
                sleep_ms: 0,
                next: Work::Read { address },
            },
        }
    }
}

} // verus!
