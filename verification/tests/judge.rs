use shapoist::judge::{count_judges, is_missed, judge_slide, judge_tap, update_combo, JudgeCount, JudgeLevel};

#[test]
fn tap_windows() {
    assert_eq!(judge_tap(1_000_000, 1_000_000), Some(JudgeLevel::Immaculate));
    assert_eq!(judge_tap(1_000_000, 1_049_999), Some(JudgeLevel::Immaculate));
    assert_eq!(judge_tap(1_000_000, 1_050_000), Some(JudgeLevel::Extra));
    assert_eq!(judge_tap(1_000_000, 930_001), Some(JudgeLevel::Extra));
    assert_eq!(judge_tap(1_000_000, 930_000), Some(JudgeLevel::Normal));
    assert_eq!(judge_tap(1_000_000, 1_119_999), Some(JudgeLevel::Normal));
    assert_eq!(judge_tap(1_000_000, 1_120_000), Some(JudgeLevel::Fade));
    assert_eq!(judge_tap(1_000_000, 850_001), Some(JudgeLevel::Fade));
    assert_eq!(judge_tap(1_000_000, 850_000), None);
    assert_eq!(judge_tap(1_000_000, 1_150_000), None);
}

#[test]
fn tap_windows_are_symmetric() {
    for d in [0u128, 30_000, 60_000, 100_000, 140_000, 200_000] {
        assert_eq!(judge_tap(1_000_000, 1_000_000 + d), judge_tap(1_000_000 + d, 1_000_000));
    }
}

#[test]
fn slide_caught_in_immaculate_window_only() {
    assert!(judge_slide(500_000, 500_000));
    assert!(judge_slide(500_000, 549_999));
    assert!(!judge_slide(500_000, 550_000));
    assert!(!judge_slide(500_000, 450_000));
}

#[test]
fn missed_after_fading_window() {
    assert!(!is_missed(1_000_000, 1_150_000));
    assert!(is_missed(1_000_000, 1_150_001));
    assert!(!is_missed(1_000_000, 0));
}

#[test]
fn combo_breaks_on_fade_and_miss() {
    assert_eq!(update_combo(4, 4, JudgeLevel::Immaculate), (5, 5));
    assert_eq!(update_combo(4, 9, JudgeLevel::Normal), (5, 9));
    assert_eq!(update_combo(4, 9, JudgeLevel::Fade), (0, 9));
    assert_eq!(update_combo(7, 7, JudgeLevel::Miss), (0, 7));
}

#[test]
fn tally_counts_every_judgement_once() {
    let judges = vec![
        JudgeLevel::Immaculate,
        JudgeLevel::Miss,
        JudgeLevel::Immaculate,
        JudgeLevel::Extra,
        JudgeLevel::Fade,
        JudgeLevel::Normal,
        JudgeLevel::Immaculate,
    ];
    let c = count_judges(&judges);
    assert_eq!(
        c,
        JudgeCount { immaculate_number: 3, extra_number: 1, normal_number: 1, fade_number: 1, miss_number: 1 }
    );
    let total = c.immaculate_number + c.extra_number + c.normal_number + c.fade_number + c.miss_number;
    assert_eq!(total, judges.len());
    assert_eq!(count_judges(&vec![]), JudgeCount { immaculate_number: 0, extra_number: 0, normal_number: 0, fade_number: 0, miss_number: 0 });
}
