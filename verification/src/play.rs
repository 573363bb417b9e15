//! The judging of a chart while it is played: when play starts and ends,
//! which note of a judge field a key or a touch judges, and when a note that
//! nobody hit becomes a miss. Times are microseconds.
use vstd::prelude::*;
use crate::judge::{
    judge_slide, judge_tap, hit_delta, tap_window, JudgeLevel, FADE_TIME, IMMACULATE_TIME,
};
use crate::note::JudgeType;

verus! {

/// The lead-in before the music starts.
pub const LEAD_IN: u128 = 3000000;
/// How long play goes on after the chart's end.
pub const TAIL: u128 = 1000000;

/// Where a play stands.
#[derive(Clone, Copy, Debug, PartialEq, Eq, Structural)]
pub enum PlayPhase {
    /// Still in the lead-in: nothing is judged yet.
    Waiting,
    /// The chart is at this time.
    Playing(u128),
    /// The chart is over.
    Ended,
}

/// The phase of a play whose timer reads `read`, with the player's offset
/// and the chart's offset, for a chart of length `length`. Offsets that
/// reach back before the start count from the start.
pub open spec fn phase_of(read: u128, setting_offset: u128, chart_offset: u128, length: u128) -> PlayPhase {
    if read < LEAD_IN {
        PlayPhase::Waiting
    } else {
        let t1 = read - LEAD_IN;
        let t2 = if t1 >= setting_offset { t1 - setting_offset } else { 0 };
        let t3 = if t2 >= chart_offset { t2 - chart_offset } else { 0 };
        if t3 > length + TAIL {
            PlayPhase::Ended
        } else {
            PlayPhase::Playing(t3 as u128)
        }
    }
}

/// The phase of a play (see [`phase_of`]).
pub fn play_phase(read: u128, setting_offset: u128, chart_offset: u128, length: u128) -> (r: PlayPhase)
    ensures
        r == phase_of(read, setting_offset, chart_offset, length),
{
    if read < LEAD_IN {
        return PlayPhase::Waiting;
    }
    let t1 = read - LEAD_IN;
    let t2 = if t1 >= setting_offset {
        t1 - setting_offset
    } else {
        0
    };
    let t3 = if t2 >= chart_offset {
        t2 - chart_offset
    } else {
        0
    };
    if t3 > length && t3 - length > TAIL {
        PlayPhase::Ended
    } else {
        PlayPhase::Playing(t3)
    }
}

/// A note in play: its id, when it is due, how it is hit, its grade once
/// judged, and when it was hit.
#[derive(Clone, Copy, Debug, PartialEq, Eq, Structural)]
pub struct PlayNote {
    pub id: usize,
    pub click_time: u128,
    pub judge_type: JudgeType,
    pub judge: Option<JudgeLevel>,
    pub clicked_time: Option<u128>,
}

/// The notes of one judge field in play, and the place of the next note to
/// judge.
#[derive(Debug)]
pub struct FieldNotes {
    pub field: usize,
    pub now_judge: usize,
    pub notes: Vec<PlayNote>,
}

/// The abstract value of [`FieldNotes`].
pub struct FieldView {
    pub field: usize,
    pub now_judge: usize,
    pub notes: Seq<PlayNote>,
}

impl View for FieldNotes {
    type V = FieldView;

    open spec fn view(&self) -> FieldView {
        FieldView { field: self.field, now_judge: self.now_judge, notes: self.notes@ }
    }
}

/// What the player does to a judge field.
#[derive(Clone, Copy, Debug, PartialEq, Eq, Structural)]
pub enum FieldEvent {
    /// The field's key is held down.
    KeyDown,
    /// The field's key is let go.
    KeyReleased,
    /// A touch lies on the field; whether it has just been put down.
    Touch(bool),
}

/// Whether every note of `s` is due within the range that judging reads.
pub open spec fn times_in_range(s: Seq<PlayNote>) -> bool {
    forall|i: int| 0 <= i < s.len() ==> #[trigger] s[i].click_time <= i128::MAX
}

/// The grade that the event `e` at `t` gives the note `n`: a held key or a
/// touch catches a slide note within the immaculate window; a released key
/// or a new touch grades a tap note by its windows.
pub open spec fn event_level(n: PlayNote, e: FieldEvent, t: u128) -> Option<JudgeLevel> {
    let delta = hit_delta(n.click_time, t);
    match (e, n.judge_type) {
        (FieldEvent::KeyDown, JudgeType::Slide) | (FieldEvent::Touch(_), JudgeType::Slide) => if -IMMACULATE_TIME
            < delta < IMMACULATE_TIME {
            Some(JudgeLevel::Immaculate)
        } else {
            None
        },
        (FieldEvent::KeyReleased, JudgeType::Tap) | (FieldEvent::Touch(true), JudgeType::Tap) => tap_window(delta),
        _ => None,
    }
}

/// The field after the event `e` at `t`, and the judged note (field and
/// place), if the event judged the next note.
pub open spec fn after_event(v: FieldView, e: FieldEvent, t: u128) -> (FieldView, Option<(usize, usize)>) {
    let i = v.now_judge as int;
    if i < v.notes.len() {
        match event_level(v.notes[i], e, t) {
            Some(l) => (
                FieldView {
                    notes: v.notes.update(i, PlayNote { judge: Some(l), clicked_time: Some(t), ..v.notes[i] }),
                    now_judge: (i + 1) as usize,
                    ..v
                },
                Some((v.field, i as usize)),
            ),
            None => (v, None),
        }
    } else {
        (v, None)
    }
}

/// Judges the next note of the field by the event `e` at `t` (see
/// [`after_event`]), and returns the judged note, if any.
pub fn judge_event(f: &mut FieldNotes, e: FieldEvent, t: u128) -> (r: Option<(usize, usize)>)
    requires
        times_in_range(old(f)@.notes),
        t <= i128::MAX,
    ensures
        (final(f)@, r) == after_event(old(f)@, e, t),
{
    let i = f.now_judge;
    if i >= f.notes.len() {
        return None;
    }
    let n = f.notes[i];
    let level = match (e, n.judge_type) {
        (FieldEvent::KeyDown, JudgeType::Slide) | (FieldEvent::Touch(_), JudgeType::Slide) => {
            if judge_slide(n.click_time, t) {
                Some(JudgeLevel::Immaculate)
            } else {
                None
            }
        },
        (FieldEvent::KeyReleased, JudgeType::Tap) | (FieldEvent::Touch(true), JudgeType::Tap) => judge_tap(
            n.click_time,
            t,
        ),
        _ => None,
    };
    match level {
        Some(l) => {
            f.notes.set(i, PlayNote { judge: Some(l), clicked_time: Some(t), ..n });
            f.now_judge = i + 1;
            Some((f.field, i))
        },
        None => None,
    }
}

/// The scan for missed notes from place `c` on: a note whose fading window
/// has passed at `t` and that was never judged becomes a miss, and the next
/// note to judge moves on; the scan stops `depth` notes past the next note
/// to judge. Returns the field and the list of missed notes' ids (each with
/// its field), after `judged`.
pub open spec fn miss_scan(v: FieldView, c: nat, t: u128, depth: usize, judged: Seq<(usize, usize)>) -> (
    FieldView,
    Seq<(usize, usize)>,
)
    decreases v.notes.len() - c,
{
    if c >= v.notes.len() || v.now_judge + depth < c {
        (v, judged)
    } else {
        let n = v.notes[c as int];
        if n.click_time + FADE_TIME < t && n.judge is None {
            miss_scan(
                FieldView {
                    notes: v.notes.update(c as int, PlayNote { judge: Some(JudgeLevel::Miss), ..n }),
                    now_judge: (v.now_judge + 1) as usize,
                    ..v
                },
                c + 1,
                t,
                depth,
                judged.push((v.field, n.id)),
            )
        } else {
            miss_scan(v, c + 1, t, depth, judged)
        }
    }
}

/// Marks missed the notes whose fading window has passed at `t`, scanning
/// from the next note to judge (see [`miss_scan`]), and returns the missed
/// notes, each as its field and its id.
pub fn mark_misses(f: &mut FieldNotes, t: u128, depth: usize) -> (r: Vec<(usize, usize)>)
    ensures
        (final(f)@, r@) == miss_scan(old(f)@, old(f)@.now_judge as nat, t, depth, Seq::empty()),
{
    let mut judged: Vec<(usize, usize)> = Vec::new();
    let mut c: usize = f.now_judge;
    let ghost start = f.now_judge;
    while c < f.notes.len()
        invariant_except_break
            start <= f.now_judge <= c,
        invariant
            miss_scan(old(f)@, start as nat, t, depth, Seq::empty()) == miss_scan(f@, c as nat, t, depth, judged@),
            start == old(f)@.now_judge,
            f.notes.len() == old(f)@.notes.len(),
        ensures
            miss_scan(old(f)@, start as nat, t, depth, Seq::empty()) == (f@, judged@),
        decreases f.notes.len() - c,
    {
        if c > depth && c - depth > f.now_judge {
            break;
        }
        let n = f.notes[c];
        let passed = t > (FADE_TIME as u128) && n.click_time < t - (FADE_TIME as u128);
        if passed && n.judge.is_none() {
            f.notes.set(c, PlayNote { judge: Some(JudgeLevel::Miss), ..n });
            judged.push((f.field, n.id));
            f.now_judge = f.now_judge + 1;
        }
        c = c + 1;
    }
    judged
}

/// An event judges at most the next note of its field: every other note
/// stays as it was, and the next note to judge moves on by one exactly when
/// a note was judged.
pub proof fn lemma_event_judges_only_the_next_note(v: FieldView, e: FieldEvent, t: u128)
    requires
        v.now_judge < usize::MAX,
    ensures
        after_event(v, e, t).0.notes.len() == v.notes.len(),
        forall|i: int|
            0 <= i < v.notes.len() && i != v.now_judge ==> #[trigger] after_event(v, e, t).0.notes[i]
                == v.notes[i],
        after_event(v, e, t).1 is Some ==> after_event(v, e, t).0.now_judge == v.now_judge + 1,
        after_event(v, e, t).1 is None ==> after_event(v, e, t).0 == v,
{
}

/// When an animation ends: its delay (none for no delay) plus its length.
pub open spec fn animation_end(a: (Option<u128>, u128)) -> int {
    match a.0 {
        Some(d) => d + a.1,
        None => a.1 as int,
    }
}

/// Whether a shape whose animations are `anims` (each its delay and its
/// length) has finished them all at `t`, so that it is taken off the chart
/// once it reports an animation done.
pub fn shape_finished(anims: &Vec<(Option<u128>, u128)>, t: u128) -> (r: bool)
    requires
        forall|i: int| 0 <= i < anims.len() ==> animation_end(#[trigger] anims@[i]) <= u128::MAX,
    ensures
        r == forall|i: int| 0 <= i < anims.len() ==> animation_end(#[trigger] anims@[i]) <= t,
{
    let mut max_time: u128 = 0;
    let mut i: usize = 0;
    while i < anims.len()
        invariant
            i <= anims.len(),
            forall|j: int| 0 <= j < anims.len() ==> animation_end(#[trigger] anims@[j]) <= u128::MAX,
            forall|j: int| 0 <= j < i ==> animation_end(#[trigger] anims@[j]) <= max_time,
            max_time == 0 || exists|j: int| 0 <= j < i && animation_end(#[trigger] anims@[j]) == max_time,
        decreases anims.len() - i,
    {
        let (delay, length) = anims[i];
        let d = match delay {
            Some(x) => x,
            None => 0,
        };
        assert(animation_end(anims@[i as int]) == d + length);
        if max_time <= d + length {
            max_time = d + length;
        }
        i = i + 1;
    }
    max_time <= t
}

/// A held key catches exactly what a resting touch catches: a slide note
/// within the immaculate window, graded immaculate; a tap note never.
pub proof fn lemma_held_key_catches_slides(n: PlayNote, t: u128)
    ensures
        event_level(n, FieldEvent::KeyDown, t) == event_level(n, FieldEvent::Touch(false), t),
        n.judge_type == JudgeType::Slide && -IMMACULATE_TIME < n.click_time - t < IMMACULATE_TIME
            ==> event_level(n, FieldEvent::KeyDown, t) == Some(JudgeLevel::Immaculate),
        n.judge_type == JudgeType::Tap ==> event_level(n, FieldEvent::KeyDown, t) is None,
{
}

/// Without offsets, play waits through the lead-in, then the chart time is
/// the time since the lead-in ended, and play ends once that is past the
/// chart's length and the tail.
pub proof fn lemma_phase_without_offsets(read: u128, length: u128)
    ensures
        phase_of(read, 0, 0, length) == (if read < LEAD_IN {
            PlayPhase::Waiting
        } else if read - LEAD_IN > length + TAIL {
            PlayPhase::Ended
        } else {
            PlayPhase::Playing((read - LEAD_IN) as u128)
        }),
{
}

/// The chart offset delays the chart as a whole: a play whose chart starts
/// `d` later, read `d` later, stands exactly where it stood, up to its end.
/// So the end of play is judged on the chart time, after both offsets.
pub proof fn lemma_chart_offset_delays_everything(
    read: u128,
    setting_offset: u128,
    chart_offset: u128,
    length: u128,
    d: u128,
)
    requires
        read >= LEAD_IN + setting_offset,
        read + d <= u128::MAX,
        chart_offset + d <= u128::MAX,
    ensures
        phase_of((read + d) as u128, setting_offset, (chart_offset + d) as u128, length) == phase_of(
            read,
            setting_offset,
            chart_offset,
            length,
        ),
{
}

/// The player's offset and the chart's offset add up: either may carry
/// the delay, wherever the lead-in is over and the delay does not reach
/// back before the chart's start.
pub proof fn lemma_offsets_add_up(read: u128, a: u128, b: u128, length: u128)
    requires
        read >= LEAD_IN + a + b,
        a + b <= u128::MAX,
    ensures
        phase_of(read, a, b, length) == phase_of(read, (a + b) as u128, 0, length),
        phase_of(read, a, b, length) == phase_of(read, 0, (a + b) as u128, length),
{
}

} // verus!
