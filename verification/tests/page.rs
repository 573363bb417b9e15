use shapoist::error::ShapoError;
use shapoist::note::{NoteChange, PossibleChartChange};
use shapoist::page::{
    handle_back, project_created, project_dir, Back, ChartRef, Effect, PageState, Route, WindowSlot, PAUSE_WINDOW_ID,
};
use shapoist::timer::Timer;

fn chart(key: usize, name: &str) -> ChartRef {
    ChartRef {
        key,
        songtitle: "song".to_string(),
        mapname: name.to_string(),
        painter: "p".to_string(),
        producer: "q".to_string(),
        charter: "c".to_string(),
        bpm_is_zero: false,
    }
}

fn window(id: usize, key: usize) -> WindowSlot {
    WindowSlot { id, key, if_enabled: false }
}

fn page() -> PageState {
    PageState {
        windows: vec![window(1, 10), window(2, 20)],
        timers: Vec::new(),
        if_normal: true,
        chart: chart(0, "now"),
        project_chart: chart(0, "now"),
        project_windows: vec![1, 2],
        chart_undo: vec![
            (PossibleChartChange::Bpm, chart(1, "one")),
            (PossibleChartChange::Mapname, chart(2, "two")),
        ],
        undo_times: 0,
        undo_steps: 10,
        music_path: "song.mp3".to_string(),
        image_path: "image.png".to_string(),
        now_project_path: String::new(),
        assets_path: "/game".to_string(),
    }
}

fn system_message(r: Result<Vec<Effect>, ShapoError>) -> String {
    match r {
        Err(ShapoError::SystemError(m)) => m,
        _ => panic!("expected a refusal"),
    }
}

#[test]
fn open_window_replaces_same_id() {
    let mut p = page();
    assert!(handle_back(&mut p, &Back::OpenWindow(window(2, 99))).is_ok());
    assert_eq!(p.windows, vec![window(1, 10), window(2, 99)]);
}

#[test]
fn open_window_appends_new_id() {
    let mut p = page();
    assert!(handle_back(&mut p, &Back::OpenWindow(window(3, 30))).is_ok());
    assert_eq!(p.windows, vec![window(1, 10), window(2, 20), window(3, 30)]);
}

#[test]
fn close_window_keeps_the_order_of_others() {
    let mut p = page();
    p.windows.push(window(1, 11));
    p.windows.push(window(4, 40));
    assert!(handle_back(&mut p, &Back::CloseWindow(1)).is_ok());
    assert_eq!(p.windows, vec![window(2, 20), window(4, 40)]);
}

#[test]
fn ignore_enables_windows_and_closes_the_error_window() {
    let mut p = page();
    p.if_normal = false;
    p.windows.push(window(0, 5));
    assert!(handle_back(&mut p, &Back::Ignore).is_ok());
    assert!(p.if_normal);
    assert_eq!(p.windows.len(), 2);
    assert!(p.windows.iter().all(|w| w.if_enabled && w.id != 0));
}

#[test]
fn pause_and_play() {
    let mut p = page();
    let r = handle_back(&mut p, &Back::Pause(window(PAUSE_WINDOW_ID, 7))).unwrap();
    assert!(matches!(r.as_slice(), [Effect::StopSound]));
    assert_eq!(p.windows.len(), 3);
    let r = handle_back(&mut p, &Back::Play).unwrap();
    assert!(matches!(r.as_slice(), [Effect::ResumePlay]));
    assert_eq!(p.windows, vec![window(1, 10), window(2, 20)]);
}

#[test]
fn undo_takes_the_recorded_chart_and_clears_windows() {
    let mut p = page();
    assert!(handle_back(&mut p, &Back::Undo).is_ok());
    assert_eq!(p.chart.key, 1);
    assert_eq!(p.project_chart.key, 1);
    assert_eq!(p.undo_times, 1);
    assert!(p.project_windows.is_empty());
    assert!(handle_back(&mut p, &Back::Undo).is_ok());
    assert_eq!(p.chart.key, 2);
    assert_eq!(p.undo_times, 2);
    assert_eq!(system_message(handle_back(&mut p, &Back::Undo)), "nothing undo");
    assert_eq!(p.undo_times, 2);
}

#[test]
fn redo_goes_back_one_step() {
    let mut p = page();
    assert_eq!(system_message(handle_back(&mut p, &Back::Redo)), "nothing redo");
    assert!(handle_back(&mut p, &Back::Undo).is_ok());
    assert!(handle_back(&mut p, &Back::Undo).is_ok());
    assert!(handle_back(&mut p, &Back::Redo).is_ok());
    assert_eq!(p.undo_times, 1);
    assert_eq!(p.chart.key, 2);
    assert_eq!(p.project_chart.key, 2);
}

#[test]
fn change_chart_records_the_old_chart() {
    let mut p = page();
    let r = handle_back(&mut p, &Back::ChangeChart(PossibleChartChange::Bpm, chart(5, "new"))).unwrap();
    assert!(matches!(r.as_slice(), [Effect::NormalizeChart]));
    assert_eq!(p.chart.key, 5);
    assert_eq!(p.project_chart.key, 5);
    assert_eq!(p.undo_times, 0);
    assert_eq!(p.chart_undo.len(), 3);
    assert_eq!(p.chart_undo[2].1.key, 0);
}

#[test]
fn change_chart_of_the_same_kind_replaces_the_last_record() {
    let mut p = page();
    p.chart_undo.pop();
    handle_back(&mut p, &Back::ChangeChart(PossibleChartChange::Bpm, chart(5, "new"))).unwrap();
    assert_eq!(p.chart_undo.len(), 1);
    assert_eq!(p.chart_undo[0].1.key, 0);
}

#[test]
fn change_chart_after_undo_drops_first_and_undone_steps() {
    let mut p = page();
    p.chart_undo.push((PossibleChartChange::Note(NoteChange::ClickTime), chart(3, "three")));
    handle_back(&mut p, &Back::Undo).unwrap();
    handle_back(&mut p, &Back::ChangeChart(PossibleChartChange::Length, chart(6, "six"))).unwrap();
    assert_eq!(p.undo_times, 0);
    let keys: Vec<usize> = p.chart_undo.iter().map(|(_, c)| c.key).collect();
    assert_eq!(keys, vec![2, 1]);
}

#[test]
fn new_project_needs_chart_music_and_image() {
    let mut p = page();
    p.music_path = String::new();
    assert_eq!(system_message(handle_back(&mut p, &Back::NewProject)), "invailed chart info input");
    assert!(p.now_project_path.is_empty());
    let mut p = page();
    p.chart.bpm_is_zero = true;
    assert_eq!(system_message(handle_back(&mut p, &Back::NewProject)), "invailed chart info input");
    let mut p = page();
    p.chart.charter = String::new();
    assert_eq!(system_message(handle_back(&mut p, &Back::NewProject)), "invailed chart info input");
}

#[test]
fn chart_is_empty_checks_every_text_and_the_tempo() {
    assert!(!chart(0, "x").is_empty());
    let mut c = chart(0, "x");
    c.songtitle = String::new();
    assert!(c.is_empty());
    let mut c = chart(0, "x");
    c.bpm_is_zero = true;
    assert!(c.is_empty());
}

#[test]
fn new_project_sets_its_path_once_created() {
    let mut p = page();
    p.project_chart = chart(9, "old");
    let r = handle_back(&mut p, &Back::NewProject).unwrap();
    assert!(matches!(r.as_slice(), [Effect::CreateProject]));
    assert!(p.now_project_path.is_empty());
    assert_eq!(p.project_chart.key, 0);
    assert!(p.project_windows.is_empty());
    assert_eq!(project_dir(&p), "/game/assets/chart/now");
    let r = project_created(&mut p, Ok(())).unwrap();
    assert!(matches!(r.as_slice(), [Effect::StopSound, Effect::Push(Route::EditPage)]));
    assert_eq!(p.now_project_path, "/game/assets/chart/now");
}

#[test]
fn failed_project_keeps_the_old_path() {
    let mut p = page();
    p.now_project_path = "/before".to_string();
    handle_back(&mut p, &Back::NewProject).unwrap();
    let r = project_created(&mut p, Err(ShapoError::SystemError("disk".to_string())));
    assert_eq!(system_message(r), "disk");
    assert_eq!(p.now_project_path, "/before");
}

#[test]
fn save_needs_a_project_path() {
    let mut p = page();
    assert_eq!(system_message(handle_back(&mut p, &Back::Save)), "invailed chart info input");
    p.now_project_path = "/p".to_string();
    match handle_back(&mut p, &Back::Save).unwrap().as_slice() {
        [Effect::SaveProject(path)] => assert_eq!(path, "/p"),
        _ => panic!("a save"),
    }
}

#[test]
fn animation_starts_a_timer_and_done_drops_it() {
    let mut p = page();
    assert!(handle_back(&mut p, &Back::Animation(3)).unwrap().is_empty());
    assert_eq!(p.timers.len(), 1);
    assert_eq!(p.timers[0].id, 3);
    assert!(p.timers[0].read().is_ok());
    assert!(handle_back(&mut p, &Back::Animation(3)).is_ok());
    assert_eq!(p.timers.len(), 1);
    p.timers.push(Timer::new(4));
    assert!(handle_back(&mut p, &Back::AnimateDone(3)).is_ok());
    assert_eq!(p.timers.len(), 1);
    assert_eq!(p.timers[0].id, 4);
}

#[test]
fn error_marks_the_page_abnormal() {
    let mut p = page();
    assert!(handle_back(&mut p, &Back::Error(ShapoError::SystemError("x".to_string()))).unwrap().is_empty());
    assert!(!p.if_normal);
}

#[test]
fn paths_change() {
    let mut p = page();
    handle_back(&mut p, &Back::ChangeMusicPath("m".to_string())).unwrap();
    handle_back(&mut p, &Back::ChangeImagePath("i".to_string())).unwrap();
    handle_back(&mut p, &Back::ChangeProjectPath("q".to_string())).unwrap();
    assert_eq!((p.music_path.as_str(), p.image_path.as_str(), p.now_project_path.as_str()), ("m", "i", "q"));
}

#[test]
fn open_then_close_window_is_close_alone() {
    let mut opened = page();
    handle_back(&mut opened, &Back::OpenWindow(window(2, 77))).unwrap();
    handle_back(&mut opened, &Back::CloseWindow(2)).unwrap();
    let mut closed = page();
    handle_back(&mut closed, &Back::CloseWindow(2)).unwrap();
    assert_eq!(opened.windows, closed.windows);
    assert_eq!(opened.windows, vec![window(1, 10)]);
}
