//! How a hit on a note is judged, and how judgements add up to a combo and
//! a tally. Times are microseconds.
use vstd::prelude::*;

verus! {

/// Half the width of the window of an immaculate hit.
pub const IMMACULATE_TIME: i128 = 50000;
/// Half the width of the window of an extra hit.
pub const EXTRA_TIME: i128 = 70000;
/// Half the width of the window of a normal hit.
pub const NORMAL_TIME: i128 = 120000;
/// Half the width of the window of a fading hit; a note not hit this long
/// after its time is missed.
pub const FADE_TIME: i128 = 150000;

/// The grade of a judged note, best first. (The accuracy that an immaculate
/// hit earns is a fraction, which is computed outside the library.)
#[derive(Clone, Copy, Debug, PartialEq, Eq, Structural)]
pub enum JudgeLevel {
    Immaculate,
    Extra,
    Normal,
    Fade,
    Miss,
}

/// The rank of a grade: 0 for the best.
pub open spec fn rank(l: JudgeLevel) -> int {
    match l {
        JudgeLevel::Immaculate => 0,
        JudgeLevel::Extra => 1,
        JudgeLevel::Normal => 2,
        JudgeLevel::Fade => 3,
        JudgeLevel::Miss => 4,
    }
}

/// The grade of a tap that comes `delta` microseconds before the note's
/// time (after it, where negative); `None` outside every window, where the
/// tap does not count.
pub open spec fn tap_window(delta: int) -> Option<JudgeLevel> {
    if -IMMACULATE_TIME < delta < IMMACULATE_TIME {
        Some(JudgeLevel::Immaculate)
    } else if -EXTRA_TIME < delta < EXTRA_TIME {
        Some(JudgeLevel::Extra)
    } else if -NORMAL_TIME < delta < NORMAL_TIME {
        Some(JudgeLevel::Normal)
    } else if -FADE_TIME < delta < FADE_TIME {
        Some(JudgeLevel::Fade)
    } else {
        None
    }
}

/// How far the moment `time_read` lies before the note's time `click_time`.
pub open spec fn hit_delta(click_time: u128, time_read: u128) -> int {
    click_time as int - time_read as int
}

/// The grade of a tap at `time_read` on a tap note due at `click_time`.
pub fn judge_tap(click_time: u128, time_read: u128) -> (r: Option<JudgeLevel>)
    requires
        click_time <= i128::MAX,
        time_read <= i128::MAX,
    ensures
        r == tap_window(hit_delta(click_time, time_read)),
{
    let delta = click_time as i128 - time_read as i128;
    if -IMMACULATE_TIME < delta && delta < IMMACULATE_TIME {
        Some(JudgeLevel::Immaculate)
    } else if -EXTRA_TIME < delta && delta < EXTRA_TIME {
        Some(JudgeLevel::Extra)
    } else if -NORMAL_TIME < delta && delta < NORMAL_TIME {
        Some(JudgeLevel::Normal)
    } else if -FADE_TIME < delta && delta < FADE_TIME {
        Some(JudgeLevel::Fade)
    } else {
        None
    }
}

/// Whether a slide note due at `click_time` is caught when held over at
/// `time_read`: only within the immaculate window.
pub fn judge_slide(click_time: u128, time_read: u128) -> (r: bool)
    requires
        click_time <= i128::MAX,
        time_read <= i128::MAX,
    ensures
        r == (-IMMACULATE_TIME < hit_delta(click_time, time_read) < IMMACULATE_TIME),
{
    let delta = click_time as i128 - time_read as i128;
    -IMMACULATE_TIME < delta && delta < IMMACULATE_TIME
}

/// Whether a note due at `click_time` is missed at `time_read`: the fading
/// window has passed.
pub fn is_missed(click_time: u128, time_read: u128) -> (r: bool)
    requires
        click_time + FADE_TIME <= u128::MAX,
    ensures
        r == (click_time + FADE_TIME < time_read),
{
    click_time + (FADE_TIME as u128) < time_read
}

/// The combo and best combo after a judgement: a fading or missed note
/// breaks the combo, any other grade extends it; the best combo keeps the
/// larger of itself and the new combo.
pub open spec fn combo_step(combo: int, max_combo: int, judge: JudgeLevel) -> (int, int) {
    let c = if judge == JudgeLevel::Miss || judge == JudgeLevel::Fade {
        0
    } else {
        combo + 1
    };
    (c, if c > max_combo { c } else { max_combo })
}

/// The combo and best combo after a judgement (see [`combo_step`]).
pub fn update_combo(combo: usize, max_combo: usize, judge: JudgeLevel) -> (r: (usize, usize))
    requires
        combo < usize::MAX,
    ensures
        (r.0 as int, r.1 as int) == combo_step(combo as int, max_combo as int, judge),
{
    let new_combo = match judge {
        JudgeLevel::Miss => 0,
        JudgeLevel::Fade => 0,
        _ => combo + 1,
    };
    let new_max = if new_combo > max_combo {
        new_combo
    } else {
        max_combo
    };
    (new_combo, new_max)
}

/// How many judgements of each grade there are.
#[derive(Clone, Copy, Debug, PartialEq, Eq)]
pub struct JudgeCount {
    pub immaculate_number: usize,
    pub extra_number: usize,
    pub normal_number: usize,
    pub fade_number: usize,
    pub miss_number: usize,
}

/// How many judgements in `s` have grade `l`.
pub open spec fn count_level(s: Seq<JudgeLevel>, l: JudgeLevel) -> nat
    decreases s.len(),
{
    if s.len() == 0 {
        0
    } else {
        count_level(s.drop_last(), l) + if s.last() == l {
            1nat
        } else {
            0nat
        }
    }
}

/// A tally of `judges` by grade.
pub fn count_judges(judges: &Vec<JudgeLevel>) -> (r: JudgeCount)
    ensures
        r.immaculate_number == count_level(judges@, JudgeLevel::Immaculate),
        r.extra_number == count_level(judges@, JudgeLevel::Extra),
        r.normal_number == count_level(judges@, JudgeLevel::Normal),
        r.fade_number == count_level(judges@, JudgeLevel::Fade),
        r.miss_number == count_level(judges@, JudgeLevel::Miss),
{
    let mut c = JudgeCount {
        immaculate_number: 0,
        extra_number: 0,
        normal_number: 0,
        fade_number: 0,
        miss_number: 0,
    };
    let mut i: usize = 0;
    while i < judges.len()
        invariant
            i <= judges.len(),
            c.immaculate_number == count_level(judges@.take(i as int), JudgeLevel::Immaculate),
            c.extra_number == count_level(judges@.take(i as int), JudgeLevel::Extra),
            c.normal_number == count_level(judges@.take(i as int), JudgeLevel::Normal),
            c.fade_number == count_level(judges@.take(i as int), JudgeLevel::Fade),
            c.miss_number == count_level(judges@.take(i as int), JudgeLevel::Miss),
        decreases judges.len() - i,
    {
        proof {
            let t = judges@.take(i as int + 1);
            assert(t.drop_last() =~= judges@.take(i as int));
            assert(t.last() == judges@[i as int]);
            lemma_count_total(judges@.take(i as int));
            lemma_count_le_len(judges@.take(i as int), judges@[i as int]);
        }
        match judges[i] {
            JudgeLevel::Immaculate => c.immaculate_number = c.immaculate_number + 1,
            JudgeLevel::Extra => c.extra_number = c.extra_number + 1,
            JudgeLevel::Normal => c.normal_number = c.normal_number + 1,
            JudgeLevel::Fade => c.fade_number = c.fade_number + 1,
            JudgeLevel::Miss => c.miss_number = c.miss_number + 1,
        }
        i = i + 1;
    }
    proof {
        assert(judges@.take(judges@.len() as int) =~= judges@);
    }
    c
}

/// No grade occurs more often than there are judgements.
pub proof fn lemma_count_le_len(s: Seq<JudgeLevel>, l: JudgeLevel)
    ensures
        count_level(s, l) <= s.len(),
    decreases s.len(),
{
    if s.len() > 0 {
        lemma_count_le_len(s.drop_last(), l);
    }
}

/// Every judgement is counted under exactly one grade: the five counts add
/// up to the number of judgements.
pub proof fn lemma_count_total(s: Seq<JudgeLevel>)
    ensures
        count_level(s, JudgeLevel::Immaculate) + count_level(s, JudgeLevel::Extra) + count_level(
            s,
            JudgeLevel::Normal,
        ) + count_level(s, JudgeLevel::Fade) + count_level(s, JudgeLevel::Miss) == s.len(),
    decreases s.len(),
{
    if s.len() > 0 {
        lemma_count_total(s.drop_last());
    }
}

/// The tap windows are symmetric: a tap as early as another is late gets
/// the same grade.
pub proof fn lemma_tap_window_symmetric(delta: int)
    ensures
        tap_window(delta) == tap_window(-delta),
{
}

/// A tap closer to the note's time never gets a worse grade, and a tap that
/// counts stays counted when closer.
pub proof fn lemma_tap_window_monotonic(d1: int, d2: int)
    requires
        (if d1 < 0 { -d1 } else { d1 }) <= (if d2 < 0 { -d2 } else { d2 }),
        tap_window(d2) is Some,
    ensures
        tap_window(d1) is Some,
        rank(tap_window(d1).unwrap()) <= rank(tap_window(d2).unwrap()),
{
}

/// A tap counts exactly within the fading window, and a tap that counts is
/// never graded a miss.
pub proof fn lemma_tap_window_range(delta: int)
    ensures
        tap_window(delta) is Some <==> -FADE_TIME < delta < FADE_TIME,
        tap_window(delta) != Some(JudgeLevel::Miss),
{
}

/// A slide is caught exactly where a tap would be immaculate.
pub proof fn lemma_slide_is_immaculate_tap(delta: int)
    ensures
        (-IMMACULATE_TIME < delta < IMMACULATE_TIME) <==> tap_window(delta) == Some(
            JudgeLevel::Immaculate,
        ),
{
}

/// A note is missed only once a tap on it would no longer count.
pub proof fn lemma_missed_after_windows(click_time: u128, time_read: u128)
    requires
        click_time + FADE_TIME < time_read,
    ensures
        tap_window(hit_delta(click_time, time_read)) is None,
{
}

/// The best combo never falls behind the combo: a judgement keeps
/// `combo <= max_combo`, never lowers the best combo, and leaves the combo
/// at zero exactly when the note faded or was missed.
pub proof fn lemma_combo_within_best(combo: int, max_combo: int, judge: JudgeLevel)
    requires
        0 <= combo <= max_combo,
    ensures
        combo_step(combo, max_combo, judge).0 <= combo_step(combo, max_combo, judge).1,
        max_combo <= combo_step(combo, max_combo, judge).1,
        combo_step(combo, max_combo, judge).0 == 0 <==> (judge == JudgeLevel::Miss || judge
            == JudgeLevel::Fade),
{
}

} // verus!
