//! Timers of the event loop.
//!
//! Loading a commit's files or a file's diff is put off until the keys have
//! been quiet for a while, so that a held-down arrow key loads once and not
//! for every commit it passes. Each kind of work has at most one time at
//! which it is due; putting it off again moves that time. The clock is a
//! count of milliseconds that the host supplies.

use crate::event::KeyCode;
use vstd::prelude::*;

verus! {

/// Milliseconds between two looks at the repository for changes.
pub const CHECK_CHANGE_RATE: u64 = 2000;

/// Milliseconds taken for the key repeat time before any was measured,
/// doubled.
pub const INITIAL_KEY_REPEAT_TIME: u64 = 100;

/// A repeat time is taken up only if twice its length is more than this many
/// milliseconds.
pub const MIN_KEY_REPEAT_TIME: u64 = 50;

/// The time that lies `delay` after `now`, or the end of time.
pub open spec fn later(now: u64, delay: u64) -> u64 {
    if now + delay > u64::MAX { u64::MAX } else { (now + delay) as u64 }
}

/// Work that is put off until it is due.
#[derive(Debug, Clone, Copy, PartialEq, Eq, Structural)]
pub struct Debounce {
    /// When the work is due, if any is waiting.
    pub due: Option<u64>,
}

/// What happens to a timer: work is put off, or the loop looks whether work
/// is due.
pub enum TimerEvent {
    Schedule { now: u64, delay: u64 },
    Poll { now: u64 },
}

impl Debounce {
    /// A timer with no work waiting.
    pub open spec fn idle() -> Debounce {
        Debounce { due: None }
    }

    /// Whether work is waiting and due at `now`.
    pub open spec fn fires_at(self, now: u64) -> bool {
        self.due matches Some(time) && time <= now
    }

    /// The timer after `event`.
    pub open spec fn step(self, event: TimerEvent) -> Debounce {
        match event {
            TimerEvent::Schedule { now, delay } => Debounce { due: Some(later(now, delay)) },
            TimerEvent::Poll { now } => if self.fires_at(now) { Debounce::idle() } else { self },
        }
    }

    /// The timer after `events`, one after the other.
    pub open spec fn after(self, events: Seq<TimerEvent>) -> Debounce
        decreases events.len(),
    {
        if events.len() == 0 {
            self
        } else {
            self.after(events.drop_last()).step(events.last())
        }
    }

    /// How often work was found due in the course of `events`.
    pub open spec fn fires(self, events: Seq<TimerEvent>) -> nat
        decreases events.len(),
    {
        if events.len() == 0 {
            0
        } else {
            let before = self.fires(events.drop_last());
            match events.last() {
                TimerEvent::Poll { now } => if self.after(events.drop_last()).fires_at(now) {
                    before + 1
                } else {
                    before
                },
                TimerEvent::Schedule { .. } => before,
            }
        }
    }

    pub fn new() -> (timer: Debounce)
        ensures
            timer == Debounce::idle(),
    {
        Debounce { due: None }
    }

    /// Puts the work off until `delay` after `now`. A time set before is
    /// overwritten.
    pub fn schedule(&mut self, now: u64, delay: u64)
        ensures
            *final(self) == old(self).step(TimerEvent::Schedule { now, delay }),
            final(self).due == Some(later(now, delay)),
    {
        self.due = Some(now.saturating_add(delay));
    }

    /// Tells whether work is due at `now`, and if so stops waiting for it.
    pub fn poll(&mut self, now: u64) -> (fire: bool)
        ensures
            fire == old(self).fires_at(now),
            *final(self) == old(self).step(TimerEvent::Poll { now }),
    {
        match self.due {
            Some(time) => {
                if time <= now {
                    self.due = None;
                    true
                } else {
                    false
                }
            },
            None => false,
        }
    }
}

/// The time at which the work is due after `events`, were it never found
/// due: what the last `Schedule` among them set.
pub open spec fn deadline(events: Seq<TimerEvent>) -> Option<u64>
    decreases events.len(),
{
    if events.len() == 0 {
        None
    } else {
        match events.last() {
            TimerEvent::Schedule { now, delay } => Some(later(now, delay)),
            TimerEvent::Poll { .. } => deadline(events.drop_last()),
        }
    }
}

/// The time at which an event happens.
pub open spec fn time_of(event: TimerEvent) -> u64 {
    match event {
        TimerEvent::Schedule { now, .. } => now,
        TimerEvent::Poll { now } => now,
    }
}

/// Whether `events` is a burst: it begins by putting work off, and each of
/// its events comes before the work would have been due.
pub open spec fn is_burst(events: Seq<TimerEvent>) -> bool {
    &&& events.len() > 0
    &&& events[0] is Schedule
    &&& forall|i: int|
        0 < i < events.len() ==> (deadline(events.take(i)) matches Some(time) && time_of(
            #[trigger] events[i],
        ) < time)
}

/// During a burst the work is never found due, and at its end the work
/// waits for the time that the last event of the burst set.
pub proof fn lemma_burst_is_quiet(events: Seq<TimerEvent>)
    requires
        is_burst(events),
    ensures
        Debounce::idle().fires(events) == 0,
        Debounce::idle().after(events).due == deadline(events),
        deadline(events) is Some,
    decreases events.len(),
{
    let shorter = events.drop_last();
    let idle = Debounce::idle();
    if events.len() == 1 {
        assert(shorter.len() == 0);
        assert(events.last() == events[0]);
        assert(idle.fires(shorter) == 0);
        assert(idle.after(shorter) == idle);
    } else {
        assert(shorter[0] == events[0]);
        assert forall|i: int| 0 < i < shorter.len() implies (deadline(shorter.take(i)) matches Some(
            time,
        ) && time_of(#[trigger] shorter[i]) < time) by {
            assert(shorter.take(i) =~= events.take(i));
            assert(shorter[i] == events[i]);
        }
        lemma_burst_is_quiet(shorter);
        assert(events.take(events.len() - 1) =~= shorter);
        assert(events.last() == events[events.len() - 1]);
        match events.last() {
            TimerEvent::Poll { now } => {
                assert(!idle.after(shorter).fires_at(now));
            },
            TimerEvent::Schedule { .. } => {},
        }
    }
}

/// Looking for due work any number of times finds it at most once, and
/// exactly once if one of the looks comes at or after the time it is due.
pub proof fn lemma_polls_fire_once(timer: Debounce, polls: Seq<TimerEvent>)
    requires
        forall|i: int| 0 <= i < polls.len() ==> (#[trigger] polls[i]) is Poll,
    ensures
        timer.fires(polls) <= 1,
        timer.fires(polls) == 1 <==> exists|i: int|
            0 <= i < polls.len() && timer.fires_at(time_of(#[trigger] polls[i])),
        timer.fires(polls) == 1 ==> timer.after(polls).due is None,
        timer.fires(polls) == 0 ==> timer.after(polls) == timer,
    decreases polls.len(),
{
    if polls.len() > 0 {
        let shorter = polls.drop_last();
        assert forall|i: int| 0 <= i < shorter.len() implies (#[trigger] shorter[i]) is Poll by {
            assert(shorter[i] == polls[i]);
        }
        lemma_polls_fire_once(timer, shorter);
        let last = polls.last();
        assert(last == polls[polls.len() - 1]);
        if timer.fires(shorter) == 1 {
            let i = choose|i: int| 0 <= i < shorter.len() && timer.fires_at(time_of(#[trigger] shorter[i]));
            assert(polls[i] == shorter[i]);
        } else {
            if timer.fires(polls) == 1 {
                assert(timer.fires_at(time_of(polls[polls.len() - 1])));
            }
            if exists|i: int| 0 <= i < polls.len() && timer.fires_at(time_of(#[trigger] polls[i])) {
                let i = choose|i: int| 0 <= i < polls.len() && timer.fires_at(time_of(#[trigger] polls[i]));
                if i < shorter.len() {
                    assert(shorter[i] == polls[i]);
                }
            }
        }
    }
}

/// Running `first` and then `second` fires as often as the two together,
/// and ends where `second` ends when started from where `first` ended.
pub proof fn lemma_fires_in_sequence(timer: Debounce, first: Seq<TimerEvent>, second: Seq<TimerEvent>)
    ensures
        timer.after(first + second) == timer.after(first).after(second),
        timer.fires(first + second) == timer.fires(first) + timer.after(first).fires(second),
    decreases second.len(),
{
    if second.len() == 0 {
        assert(first + second =~= first);
    } else {
        assert((first + second).drop_last() =~= first + second.drop_last());
        assert((first + second).last() == second.last());
        lemma_fires_in_sequence(timer, first, second.drop_last());
    }
}

/// However many times the work is put off in a burst, it is done exactly
/// once: not during the burst, and once among the looks that follow, if one
/// of them comes at or after the time that the last event of the burst set.
/// Nothing is left waiting afterwards.
pub proof fn lemma_burst_fires_once(burst: Seq<TimerEvent>, polls: Seq<TimerEvent>)
    requires
        is_burst(burst),
        forall|i: int| 0 <= i < polls.len() ==> (#[trigger] polls[i]) is Poll,
        exists|i: int|
            0 <= i < polls.len() && (deadline(burst) matches Some(time) && time <= time_of(
                #[trigger] polls[i],
            )),
    ensures
        Debounce::idle().fires(burst) == 0,
        Debounce::idle().fires(burst + polls) == 1,
        Debounce::idle().after(burst + polls).due is None,
{
    lemma_burst_is_quiet(burst);
    let waiting = Debounce::idle().after(burst);
    lemma_polls_fire_once(waiting, polls);
    lemma_fires_in_sequence(Debounce::idle(), burst, polls);
    let i = choose|i: int|
        0 <= i < polls.len() && (deadline(burst) matches Some(time) && time <= time_of(
            #[trigger] polls[i],
        ));
    assert(waiting.fires_at(time_of(polls[i])));
}

/// The estimate of how fast a held-down key repeats.
#[derive(Debug, Clone, Copy, PartialEq, Eq, Structural)]
pub struct KeyRepeat {
    /// The key pressed last.
    pub last_key: KeyCode,
    /// When it was pressed.
    pub last_key_time: u64,
    /// Milliseconds between two repeats of a held-down key, as estimated.
    pub key_repeat_time: u64,
}

impl KeyRepeat {
    /// The estimate after the key `key` was pressed at `now`.
    ///
    /// Where the same key comes again sooner than the estimate says, the
    /// time between the two presses becomes the estimate, unless it is so
    /// short that twice its length is not more than `MIN_KEY_REPEAT_TIME`.
    pub open spec fn observed(self, key: KeyCode, now: u64) -> KeyRepeat {
        let duration = if now >= self.last_key_time { now - self.last_key_time } else { 0 };
        if key == self.last_key {
            KeyRepeat {
                last_key_time: now,
                key_repeat_time: if duration < self.key_repeat_time && 2 * duration
                    > MIN_KEY_REPEAT_TIME {
                    duration as u64
                } else {
                    self.key_repeat_time
                },
                ..self
            }
        } else {
            KeyRepeat { last_key: key, last_key_time: now, ..self }
        }
    }

    /// Milliseconds for which work is put off: twice the estimate.
    pub open spec fn interval(self) -> u64 {
        later(self.key_repeat_time, self.key_repeat_time)
    }

    /// The estimate at the start of the loop, at time `now`.
    pub fn new(now: u64) -> (repeat: KeyRepeat)
        ensures
            repeat == (KeyRepeat {
                last_key: KeyCode::Esc,
                last_key_time: now,
                key_repeat_time: 50,
            }),
    {
        KeyRepeat {
            last_key: KeyCode::Esc,
            last_key_time: now,
            key_repeat_time: INITIAL_KEY_REPEAT_TIME / 2,
        }
    }

    /// Takes note that the key `key` was pressed at `now`. The estimate
    /// never grows, and never falls to half of `MIN_KEY_REPEAT_TIME` or
    /// below unless it was there before.
    pub fn observe(&mut self, key: KeyCode, now: u64)
        ensures
            *final(self) == old(self).observed(key, now),
            final(self).key_repeat_time <= old(self).key_repeat_time,
            2 * old(self).key_repeat_time > MIN_KEY_REPEAT_TIME ==> 2 * final(self).key_repeat_time
                > MIN_KEY_REPEAT_TIME,
    {
        if key == self.last_key {
            let duration = now.saturating_sub(self.last_key_time);
            if duration < self.key_repeat_time && duration > MIN_KEY_REPEAT_TIME / 2 {
                self.key_repeat_time = duration;
            }
        } else {
            self.last_key = key;
        }
        self.last_key_time = now;
    }

    /// Milliseconds for which work is put off: twice the estimate.
    pub fn debounce_interval(&self) -> (delay: u64)
        ensures
            delay == self.interval(),
    {
        self.key_repeat_time.saturating_add(self.key_repeat_time)
    }
}

/// What is due when the loop wakes up.
#[derive(Debug, Clone, Copy, PartialEq, Eq, Structural)]
pub struct Due {
    /// Whether to look at the repository for changes.
    pub check_repository: bool,
    /// Whether to load the files of the commit shown.
    pub reload_files: bool,
    /// Whether to load the selected file's diff.
    pub reload_file_diff: bool,
}

/// The timers of the event loop.
#[derive(Debug, Clone, Copy, PartialEq, Eq, Structural)]
pub struct Timers {
    /// When to look at the repository next.
    pub next_repo_refresh: u64,
    /// When to load the files of the commit shown.
    pub next_diff_update: Debounce,
    /// When to load the selected file's diff.
    pub next_file_update: Debounce,
    /// Whether the diff panel is scrolled back to the origin when the
    /// selected file's diff is loaded.
    pub reset_diff_scroll: bool,
}

/// The earlier of a time and a time that may not be set.
pub open spec fn earlier(time: u64, other: Option<u64>) -> u64 {
    match other {
        Some(t) => if t < time { t } else { time },
        None => time,
    }
}

fn min_time(time: u64, other: Option<u64>) -> (r: u64)
    ensures
        r == earlier(time, other),
{
    match other {
        Some(t) => if t < time { t } else { time },
        None => time,
    }
}

impl Timers {
    /// The timers at the start of the loop, at time `now`: nothing waits but
    /// the first look at the repository.
    pub fn new(now: u64) -> (timers: Timers)
        ensures
            timers == (Timers {
                next_repo_refresh: later(now, CHECK_CHANGE_RATE),
                next_diff_update: Debounce::idle(),
                next_file_update: Debounce::idle(),
                reset_diff_scroll: false,
            }),
    {
        Timers {
            next_repo_refresh: now.saturating_add(CHECK_CHANGE_RATE),
            next_diff_update: Debounce::new(),
            next_file_update: Debounce::new(),
            reset_diff_scroll: false,
        }
    }

    /// The time at which the loop has to wake up if no key comes before:
    /// the earliest time at which anything is due.
    pub open spec fn wake_time(self) -> u64 {
        earlier(earlier(self.next_repo_refresh, self.next_diff_update.due), self.next_file_update.due)
    }

    /// Tells when the loop has to wake up if no key comes before.
    pub fn next_wake(&self) -> (time: u64)
        ensures
            time == self.wake_time(),
            time <= self.next_repo_refresh,
            self.next_diff_update.due matches Some(t) ==> time <= t,
            self.next_file_update.due matches Some(t) ==> time <= t,
    {
        min_time(min_time(self.next_repo_refresh, self.next_diff_update.due), self.next_file_update.due)
    }

    /// Milliseconds from `now` for which the loop may wait for a key: the
    /// time left until the next wake-up, none if that has passed.
    pub fn timeout(&self, now: u64) -> (wait: u64)
        ensures
            wait == (if self.wake_time() > now { self.wake_time() - now } else { 0 }),
    {
        self.next_wake().saturating_sub(now)
    }

    /// The timers after a wake-up at `now`: what was due no longer waits,
    /// and the next look at the repository is set.
    pub open spec fn woken(self, now: u64) -> Timers {
        Timers {
            next_repo_refresh: if self.next_repo_refresh <= now {
                later(now, CHECK_CHANGE_RATE)
            } else {
                self.next_repo_refresh
            },
            next_diff_update: self.next_diff_update.step(TimerEvent::Poll { now }),
            next_file_update: self.next_file_update.step(TimerEvent::Poll { now }),
            ..self
        }
    }

    /// Tells what is due at `now` and stops waiting for it.
    pub fn wake(&mut self, now: u64) -> (due: Due)
        ensures
            *final(self) == old(self).woken(now),
            due == (Due {
                check_repository: old(self).next_repo_refresh <= now,
                reload_files: old(self).next_diff_update.fires_at(now),
                reload_file_diff: old(self).next_file_update.fires_at(now),
            }),
    {
        let check_repository = self.next_repo_refresh <= now;
        if check_repository {
            self.next_repo_refresh = now.saturating_add(CHECK_CHANGE_RATE);
        }
        let reload_files = self.next_diff_update.poll(now);
        let reload_file_diff = self.next_file_update.poll(now);
        Due { check_repository, reload_files, reload_file_diff }
    }

    /// The timers after a key or a wake-up asked for work: each kind of work
    /// asked for is put off until `delay` after `now`, whatever it waited
    /// for before.
    pub open spec fn put_off(
        self,
        reload_diffs: bool,
        reload_file: bool,
        reset_scroll: bool,
        now: u64,
        delay: u64,
    ) -> Timers {
        Timers {
            next_diff_update: if reload_diffs {
                Debounce { due: Some(later(now, delay)) }
            } else {
                self.next_diff_update
            },
            next_file_update: if reload_file {
                Debounce { due: Some(later(now, delay)) }
            } else {
                self.next_file_update
            },
            reset_diff_scroll: if reload_file { reset_scroll } else { self.reset_diff_scroll },
            ..self
        }
    }

    /// Puts off the work that a key or a wake-up asked for: loading the
    /// files of the commit shown where `reload_diffs` is set, loading the
    /// selected file's diff where `reload_file` is set.
    pub fn schedule(
        &mut self,
        reload_diffs: bool,
        reload_file: bool,
        reset_scroll: bool,
        now: u64,
        delay: u64,
    )
        ensures
            *final(self) == old(self).put_off(reload_diffs, reload_file, reset_scroll, now, delay),
    {
        if reload_diffs {
            self.next_diff_update.schedule(now, delay);
        }
        if reload_file {
            self.reset_diff_scroll = reset_scroll;
            self.next_file_update.schedule(now, delay);
        }
    }
}

} // verus!
