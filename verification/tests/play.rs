use shapoist::judge::JudgeLevel;
use shapoist::note::JudgeType;
use shapoist::play::{judge_event, mark_misses, play_phase, shape_finished, FieldEvent, FieldNotes, PlayNote, PlayPhase};

fn note(id: usize, click_time: u128, judge_type: JudgeType) -> PlayNote {
    PlayNote { id, click_time, judge_type, judge: None, clicked_time: None }
}

fn field() -> FieldNotes {
    FieldNotes {
        field: 7,
        now_judge: 0,
        notes: vec![
            note(10, 1_000_000, JudgeType::Tap),
            note(11, 2_000_000, JudgeType::Slide),
            note(12, 3_000_000, JudgeType::Tap),
        ],
    }
}

#[test]
fn phase_waits_through_the_lead_in() {
    assert_eq!(play_phase(2_999_999, 0, 0, 10), PlayPhase::Waiting);
    assert_eq!(play_phase(3_000_000, 0, 0, 10), PlayPhase::Playing(0));
}

#[test]
fn phase_subtracts_offsets_down_to_zero() {
    assert_eq!(play_phase(5_000_000, 500_000, 250_000, 10_000_000), PlayPhase::Playing(1_250_000));
    assert_eq!(play_phase(3_100_000, 500_000, 0, 10_000_000), PlayPhase::Playing(0));
    assert_eq!(play_phase(4_000_000, 0, 2_000_000, 10_000_000), PlayPhase::Playing(0));
}

#[test]
fn phase_ends_a_second_after_the_chart() {
    assert_eq!(play_phase(3_000_000 + 11_000_000, 0, 0, 10_000_000), PlayPhase::Playing(11_000_000));
    assert_eq!(play_phase(3_000_000 + 11_000_001, 0, 0, 10_000_000), PlayPhase::Ended);
}

#[test]
fn released_key_grades_the_next_tap() {
    let mut f = field();
    assert_eq!(judge_event(&mut f, FieldEvent::KeyReleased, 1_060_000), Some((7, 0)));
    assert_eq!(f.notes[0].judge, Some(JudgeLevel::Extra));
    assert_eq!(f.notes[0].clicked_time, Some(1_060_000));
    assert_eq!(f.now_judge, 1);
}

#[test]
fn held_key_does_not_judge_a_tap() {
    let mut f = field();
    assert_eq!(judge_event(&mut f, FieldEvent::KeyDown, 1_000_000), None);
    assert_eq!(f.now_judge, 0);
    assert_eq!(f.notes[0].judge, None);
}

#[test]
fn tap_outside_every_window_is_ignored() {
    let mut f = field();
    assert_eq!(judge_event(&mut f, FieldEvent::Touch(true), 1_200_000), None);
    assert_eq!(f.now_judge, 0);
}

#[test]
fn held_key_catches_a_slide_only_when_immaculate() {
    let mut f = field();
    f.now_judge = 1;
    assert_eq!(judge_event(&mut f, FieldEvent::KeyDown, 2_060_000), None);
    assert_eq!(judge_event(&mut f, FieldEvent::Touch(false), 2_040_000), Some((7, 1)));
    assert_eq!(f.notes[1].judge, Some(JudgeLevel::Immaculate));
    assert_eq!(f.now_judge, 2);
}

#[test]
fn touch_without_press_does_not_judge_a_tap() {
    let mut f = field();
    assert_eq!(judge_event(&mut f, FieldEvent::Touch(false), 1_000_000), None);
    assert_eq!(judge_event(&mut f, FieldEvent::Touch(true), 1_000_000), Some((7, 0)));
    assert_eq!(f.notes[0].judge, Some(JudgeLevel::Immaculate));
}

#[test]
fn nothing_left_to_judge() {
    let mut f = field();
    f.now_judge = 3;
    assert_eq!(judge_event(&mut f, FieldEvent::KeyReleased, 3_000_000), None);
}

#[test]
fn passed_notes_become_misses() {
    let mut f = field();
    let missed = mark_misses(&mut f, 2_200_000, 5);
    assert_eq!(missed, vec![(7, 10), (7, 11)]);
    assert_eq!(f.notes[0].judge, Some(JudgeLevel::Miss));
    assert_eq!(f.notes[1].judge, Some(JudgeLevel::Miss));
    assert_eq!(f.notes[2].judge, None);
    assert_eq!(f.notes[0].clicked_time, None);
    assert_eq!(f.now_judge, 2);
}

#[test]
fn a_note_inside_its_fading_window_is_not_missed() {
    let mut f = field();
    assert!(mark_misses(&mut f, 1_150_000, 5).is_empty());
    assert_eq!(f.now_judge, 0);
    assert_eq!(mark_misses(&mut f, 1_150_001, 5), vec![(7, 10)]);
}

#[test]
fn judged_notes_are_not_missed() {
    let mut f = field();
    f.notes[0].judge = Some(JudgeLevel::Normal);
    let missed = mark_misses(&mut f, 9_000_000, 5);
    assert_eq!(missed, vec![(7, 11), (7, 12)]);
    assert_eq!(f.notes[0].judge, Some(JudgeLevel::Normal));
    assert_eq!(f.now_judge, 2);
}

#[test]
fn miss_scan_stops_at_the_search_depth() {
    let mut f = field();
    f.notes[0].click_time = 5_000_000;
    assert!(mark_misses(&mut f, 3_200_000, 0).is_empty());
    assert_eq!(f.now_judge, 0);
    assert_eq!(mark_misses(&mut f, 3_200_000, 1), vec![(7, 11), (7, 12)]);
    assert_eq!(f.notes[0].judge, None);
    assert_eq!(f.now_judge, 2);
}

#[test]
fn shape_finishes_after_its_last_animation() {
    let anims = vec![(Some(100u128), 50u128), (None, 120u128)];
    assert!(!shape_finished(&anims, 149));
    assert!(shape_finished(&anims, 150));
    assert!(shape_finished(&Vec::new(), 0));
}
