//! A pausable stopwatch that counts microseconds since it was started.
use vstd::prelude::*;
use vstd::string::*;
use std::time::{Duration, SystemTime, SystemTimeError, UNIX_EPOCH};
use crate::error::ShapoError;

verus! {

/// A point in time read from the system clock.
#[verifier::external_type_specification]
#[verifier::external_body]
pub struct ExSystemTime(SystemTime);

/// The error that tells that a point in time lies before another one.
#[verifier::external_type_specification]
#[verifier::external_body]
pub struct ExSystemTimeError(SystemTimeError);

/// Why a [`Timer`] operation failed.
#[derive(Debug, Clone)]
pub enum TimerError {
    /// The timer is already running.
    Running,
    /// The timer is already paused.
    Paused,
    /// The timer has no reading (with the reason).
    CouldNotRead(String),
    /// The timer could not be moved (with the reason).
    CouldNotSet(String),
}

/// A stopwatch. Times are microseconds since the Unix epoch; a reading is the
/// number of microseconds the timer has run.
#[derive(Debug, Clone, Copy, PartialEq)]
pub struct Timer {
    last_pause_time: Option<i64>,
    last_start_time: Option<i64>,
    if_paused: bool,
    pub id: usize,
}

/// The abstract state of a [`Timer`].
pub struct TimerView {
    /// When the timer was last paused, if ever.
    pub pause: Option<i64>,
    /// The moment from which the timer counts, once started.
    pub start: Option<i64>,
    /// Whether the timer is stopped.
    pub paused: bool,
    /// The timer's label.
    pub id: usize,
}

impl View for Timer {
    type V = TimerView;

    closed spec fn view(&self) -> TimerView {
        TimerView {
            pause: self.last_pause_time,
            start: self.last_start_time,
            paused: self.if_paused,
            id: self.id,
        }
    }
}

/// The state of a timer that has never been started.
pub open spec fn fresh(id: usize) -> TimerView {
    TimerView { pause: None, start: None, paused: true, id }
}

/// The moment from which a paused timer counts after it is started at `now`:
/// the time it had already run is kept.
pub open spec fn resumed_start(v: TimerView, now: i64) -> int {
    match v.start {
        Some(t) => t + now - (match v.pause {
            Some(p) => p,
            None => 0i64,
        }),
        None => now as int,
    }
}

/// Whether starting the timer at `now` stays within the range of `i64`,
/// for the sum and then the difference in [`resumed_start`].
pub open spec fn start_fits(v: TimerView, now: i64) -> bool {
    match v.start {
        Some(t) => {
            &&& i64::MIN <= t + now <= i64::MAX
            &&& i64::MIN <= resumed_start(v, now) <= i64::MAX
        },
        None => true,
    }
}

/// The state after a paused timer is started at `now`.
pub open spec fn started(v: TimerView, now: i64) -> TimerView {
    TimerView { start: Some(resumed_start(v, now) as i64), paused: false, ..v }
}

/// Whether the timer has a reading: it was started, and, while paused, it
/// has a pause time.
pub open spec fn has_reading(v: TimerView) -> bool {
    &&& v.start is Some
    &&& v.paused ==> v.pause is Some
}

/// The reading of the timer at `now`: the time from the start to the pause
/// while paused, and to `now` while running.
pub open spec fn elapsed(v: TimerView, now: i64) -> int {
    if v.paused {
        v.pause.unwrap() - v.start.unwrap()
    } else {
        now - v.start.unwrap()
    }
}

/// Whether the reading at `now` lies in the range of `i64`.
pub open spec fn reading_fits(v: TimerView, now: i64) -> bool {
    has_reading(v) ==> i64::MIN <= elapsed(v, now) <= i64::MAX
}

/// The state after the timer is moved `delay` microseconds forward.
pub open spec fn shifted(v: TimerView, delay: i64) -> TimerView {
    TimerView { start: Some((v.start.unwrap() - delay) as i64), ..v }
}

/// `SystemTime::now`: the present moment of the system clock. Nothing is
/// claimed of it: it depends on the clock.
#[verifier::external_body]
fn system_now() -> SystemTime {
    SystemTime::now()
}

/// `SystemTime::duration_since(UNIX_EPOCH)`: the time from the Unix epoch to
/// `t`, or an error where `t` lies before it. Nothing is claimed of the
/// result, since `t` itself is opaque here.
#[verifier::external_body]
fn since_unix_epoch(t: SystemTime) -> Result<Duration, SystemTimeError> {
    t.duration_since(UNIX_EPOCH)
}

/// `Duration::as_micros`: the whole number of microseconds in `d`. Nothing
/// is claimed of it, since `d` itself is opaque here.
#[verifier::external_body]
fn duration_as_micros(d: &Duration) -> u128 {
    d.as_micros()
}

/// `ToString::to_string` on a clock error: its message. Nothing is claimed
/// of the text.
#[verifier::external_body]
fn clock_error_text(e: &SystemTimeError) -> String {
    e.to_string()
}

/// Microseconds since the Unix epoch, from the system clock.
fn read_time() -> (r: Result<i64, ShapoError>)
    ensures
        r matches Err(e) ==> e matches ShapoError::TimerError(TimerError::CouldNotRead(_)),
{
    let now = system_now();
    match since_unix_epoch(now) {
        Ok(d) => {
            let micros = duration_as_micros(&d);
            Ok(micros as i64)
        },
        Err(e) => Err(ShapoError::TimerError(TimerError::CouldNotRead(clock_error_text(&e)))),
    }
}

impl Default for Timer {
    fn default() -> (t: Self)
        ensures
            t@ == fresh(0),
    {
        Self { last_pause_time: None, last_start_time: None, if_paused: true, id: 0 }
    }
}

impl Timer {
    /// A paused timer that has never run.
    pub fn new(id: usize) -> (t: Self)
        ensures
            t@ == fresh(id),
    {
        Self { last_pause_time: None, last_start_time: None, if_paused: true, id }
    }

    /// The timer's label.
    pub fn label(&self) -> (r: usize)
        ensures
            r == self@.id,
    {
        self.id
    }

    /// Starts a paused timer at the moment `now` (or fails with the error of
    /// reading the clock). A running timer is refused and left as it was.
    pub fn start_at(&mut self, now: Result<i64, ShapoError>) -> (r: Result<(), ShapoError>)
        requires
            old(self)@.paused ==> (now matches Ok(n) ==> start_fits(old(self)@, n)),
        ensures
            !old(self)@.paused ==> {
                &&& r matches Err(ShapoError::TimerError(TimerError::Running))
                &&& final(self)@ == old(self)@
            },
            old(self)@.paused ==> match now {
                Ok(n) => r is Ok && final(self)@ == started(old(self)@, n),
                Err(e) => r == Err::<(), ShapoError>(e) && final(self)@ == old(self)@,
            },
    {
        if self.if_paused {
            let time_read = match now {
                Ok(t) => t,
                Err(e) => return Err(e),
            };
            let last_start_time = match self.last_start_time {
                Some(t) => {
                    let pause = match self.last_pause_time {
                        Some(p) => p,
                        None => 0,
                    };
                    t + time_read - pause
                },
                None => time_read,
            };
            self.last_start_time = Some(last_start_time);
            self.if_paused = false;
            Ok(())
        } else {
            Err(ShapoError::TimerError(TimerError::Running))
        }
    }

    /// Starts a paused timer at the moment `now` (or fails with the error of
    /// reading the clock). A running timer is refused, and so is a start
    /// whose new start time would leave the range of `i64`; a refused timer
    /// is left as it was.
    pub fn start_from(&mut self, now: Result<i64, ShapoError>) -> (r: Result<(), ShapoError>)
        ensures
            !old(self)@.paused ==> {
                &&& r matches Err(ShapoError::TimerError(TimerError::Running))
                &&& final(self)@ == old(self)@
            },
            old(self)@.paused ==> match now {
                Ok(n) => if start_fits(old(self)@, n) {
                    r is Ok && final(self)@ == started(old(self)@, n)
                } else {
                    &&& r matches Err(ShapoError::TimerError(TimerError::CouldNotRead(m)))
                    &&& m@ == "start time out of range"@
                    &&& final(self)@ == old(self)@
                },
                Err(e) => r == Err::<(), ShapoError>(e) && final(self)@ == old(self)@,
            },
    {
        if !self.if_paused {
            return Err(ShapoError::TimerError(TimerError::Running));
        }
        if let Ok(n) = now {
            if let Some(t) = self.last_start_time {
                let pause = match self.last_pause_time {
                    Some(p) => p,
                    None => 0,
                };
                let fits = match t.checked_add(n) {
                    Some(s) => s.checked_sub(pause).is_some(),
                    None => false,
                };
                if !fits {
                    return Err(ShapoError::TimerError(TimerError::CouldNotRead(
                        String::from_str("start time out of range"),
                    )));
                }
            }
        }
        self.start_at(now)
    }

    /// Starts a paused timer now (see [`Timer::start_from`], which gets the
    /// moment read from the system clock). A running timer is refused and
    /// left as it was.
    pub fn start(&mut self) -> (r: Result<(), ShapoError>)
        ensures
            !old(self)@.paused ==> {
                &&& r matches Err(ShapoError::TimerError(TimerError::Running))
                &&& final(self)@ == old(self)@
            },
            old(self)@.paused ==> (r is Ok <==> exists|n: i64|
                #[trigger] started(old(self)@, n) == final(self)@ && start_fits(old(self)@, n)),
            old(self)@.paused && r is Err ==> final(self)@ == old(self)@ && r matches Err(
                ShapoError::TimerError(TimerError::CouldNotRead(_)),
            ),
    {
        let now = read_time();
        let r = self.start_from(now);
        proof {
            if r is Ok {
                assert(started(old(self)@, now->Ok_0) == self@);
            }
        }
        r
    }

    /// The reading of the timer, taking `now` as the present moment when it
    /// runs (a paused timer does not look at `now`).
    pub fn read_at(&self, now: Result<i64, ShapoError>) -> (r: Result<i64, ShapoError>)
        requires
            now matches Ok(n) ==> reading_fits(self@, n),
            self@.paused ==> reading_fits(self@, 0),
        ensures
            self@.paused ==> {
                if has_reading(self@) {
                    r == Ok::<i64, ShapoError>(elapsed(self@, 0) as i64)
                } else if self@.pause is None {
                    r matches Err(ShapoError::TimerError(TimerError::CouldNotRead(m)))
                        && m@ == "havn't pause yet"@
                } else {
                    r matches Err(ShapoError::TimerError(TimerError::CouldNotRead(m)))
                        && m@ == "havn't start yet"@
                }
            },
            !self@.paused ==> match now {
                Err(e) => r == Err::<i64, ShapoError>(e),
                Ok(n) => if has_reading(self@) {
                    r == Ok::<i64, ShapoError>(elapsed(self@, n) as i64)
                } else {
                    r matches Err(ShapoError::TimerError(TimerError::CouldNotRead(m)))
                        && m@ == "havn't start yet"@
                },
            },
    {
        if self.if_paused {
            let pause = match self.last_pause_time {
                Some(t) => t,
                None => return Err(ShapoError::TimerError(TimerError::CouldNotRead(
                    String::from_str("havn't pause yet"),
                ))),
            };
            let start = match self.last_start_time {
                Some(t) => t,
                None => return Err(ShapoError::TimerError(TimerError::CouldNotRead(
                    String::from_str("havn't start yet"),
                ))),
            };
            Ok(pause - start)
        } else {
            let now = match now {
                Ok(t) => t,
                Err(e) => return Err(e),
            };
            let start = match self.last_start_time {
                Some(t) => t,
                None => return Err(ShapoError::TimerError(TimerError::CouldNotRead(
                    String::from_str("havn't start yet"),
                ))),
            };
            Ok(now - start)
        }
    }

    /// The reading of the timer, taking `now` as the present moment when it
    /// runs; a running timer whose reading would leave the range of `i64` is
    /// refused.
    pub fn read_from(&self, now: Result<i64, ShapoError>) -> (r: Result<i64, ShapoError>)
        requires
            self@.paused ==> reading_fits(self@, 0),
        ensures
            self@.paused && has_reading(self@) ==> r == Ok::<i64, ShapoError>(elapsed(self@, 0) as i64),
            self@.paused && self@.pause is None ==> (r matches Err(
                ShapoError::TimerError(TimerError::CouldNotRead(m)),
            ) && m@ == "havn't pause yet"@),
            self@.paused && self@.pause is Some && self@.start is None ==> (r matches Err(
                ShapoError::TimerError(TimerError::CouldNotRead(m)),
            ) && m@ == "havn't start yet"@),
            !self@.paused ==> match now {
                Err(e) => r == Err::<i64, ShapoError>(e),
                Ok(n) => if !has_reading(self@) {
                    r matches Err(ShapoError::TimerError(TimerError::CouldNotRead(m)))
                        && m@ == "havn't start yet"@
                } else if reading_fits(self@, n) {
                    r == Ok::<i64, ShapoError>(elapsed(self@, n) as i64)
                } else {
                    r matches Err(ShapoError::TimerError(TimerError::CouldNotRead(m)))
                        && m@ == "reading out of range"@
                },
            },
    {
        if self.if_paused {
            return self.read_at(Ok(0));
        }
        if let Ok(n) = now {
            if let Some(s) = self.last_start_time {
                if n.checked_sub(s).is_none() {
                    return Err(ShapoError::TimerError(TimerError::CouldNotRead(
                        String::from_str("reading out of range"),
                    )));
                }
            }
        }
        self.read_at(now)
    }

    /// The reading of the timer now (see [`Timer::read_from`], which gets the
    /// moment read from the system clock). A paused timer is read without the
    /// clock.
    pub fn read(&self) -> (r: Result<i64, ShapoError>)
        requires
            self@.paused ==> reading_fits(self@, 0),
        ensures
            self@.paused && has_reading(self@) ==> r == Ok::<i64, ShapoError>(elapsed(self@, 0) as i64),
            self@.paused && self@.pause is None ==> (r matches Err(
                ShapoError::TimerError(TimerError::CouldNotRead(m)),
            ) && m@ == "havn't pause yet"@),
            self@.paused && self@.pause is Some && self@.start is None ==> (r matches Err(
                ShapoError::TimerError(TimerError::CouldNotRead(m)),
            ) && m@ == "havn't start yet"@),
            !self@.paused && !has_reading(self@) ==> r is Err,
            !self@.paused && r is Ok ==> exists|n: i64|
                reading_fits(self@, n) && r == Ok::<i64, ShapoError>(#[trigger] elapsed(self@, n) as i64),
    {
        if self.if_paused {
            return self.read_from(Ok(0));
        }
        let now = read_time();
        self.read_from(now)
    }

    /// Moves a started timer `delay` microseconds forward: every later
    /// reading grows by `delay`. A timer that was never started is refused.
    pub fn set(&mut self, delay: i64) -> (r: Result<(), ShapoError>)
        requires
            old(self)@.start matches Some(t) ==> i64::MIN <= t - delay <= i64::MAX,
        ensures
            old(self)@.start is Some ==> r is Ok && final(self)@ == shifted(old(self)@, delay),
            old(self)@.start is None ==> {
                &&& r matches Err(ShapoError::TimerError(TimerError::CouldNotSet(m)))
                &&& m@ == "havn't start yet"@
                &&& final(self)@ == old(self)@
            },
    {
        let last_start_time = match self.last_start_time {
            Some(t) => t - delay,
            None => return Err(ShapoError::TimerError(TimerError::CouldNotSet(
                String::from_str("havn't start yet"),
            ))),
        };
        self.last_start_time = Some(last_start_time);
        Ok(())
    }
}

} // verus!

verus! {

/// A timer that was never started has no reading.
pub proof fn lemma_fresh_has_no_reading(id: usize)
    ensures
        !has_reading(fresh(id)),
{
}

/// A new timer started at `s` reads `r - s` at any later moment `r`: it
/// counts the time since it was started.
pub proof fn lemma_fresh_start_counts_from_start(id: usize, s: i64, r: i64)
    ensures
        start_fits(fresh(id), s),
        has_reading(started(fresh(id), s)),
        elapsed(started(fresh(id), s), r) == r - s,
{
}

/// Starting a paused timer again keeps the time it had run: right after it
/// is started at `now`, it reads what it read while paused.
pub proof fn lemma_restart_keeps_reading(v: TimerView, now: i64)
    requires
        v.paused,
        has_reading(v),
        start_fits(v, now),
    ensures
        has_reading(started(v, now)),
        elapsed(started(v, now), now) == elapsed(v, now),
{
}

/// A paused timer reads the same at every moment.
pub proof fn lemma_paused_reading_is_constant(v: TimerView, n1: i64, n2: i64)
    requires
        v.paused,
    ensures
        elapsed(v, n1) == elapsed(v, n2),
{
}

/// A running timer's reading grows exactly as much as the clock does.
pub proof fn lemma_running_reading_follows_clock(v: TimerView, n1: i64, n2: i64)
    requires
        !v.paused,
        has_reading(v),
    ensures
        elapsed(v, n2) - elapsed(v, n1) == n2 - n1,
{
}

/// Moving a started timer by `delay` adds `delay` to its reading, paused or
/// running, and keeps whether it has a reading.
pub proof fn lemma_set_adds_delay(v: TimerView, delay: i64, now: i64)
    requires
        has_reading(v),
        i64::MIN <= v.start.unwrap() - delay <= i64::MAX,
    ensures
        has_reading(shifted(v, delay)),
        elapsed(shifted(v, delay), now) == elapsed(v, now) + delay,
{
}

/// Moving a started timer by `a` and then by `b` is moving it once by
/// `a + b`.
pub proof fn lemma_set_twice_is_set_by_sum(v: TimerView, a: i64, b: i64)
    requires
        v.start is Some,
        i64::MIN <= v.start.unwrap() - a <= i64::MAX,
        i64::MIN <= v.start.unwrap() - a - b <= i64::MAX,
        i64::MIN <= a + b <= i64::MAX,
    ensures
        shifted(shifted(v, a), b) == shifted(v, (a + b) as i64),
{
}

} // verus!
