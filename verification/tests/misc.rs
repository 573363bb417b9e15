use shapoist::init::{compressed_charts, is_compressed_chart};
use shapoist::window::{chart_page, ChartPage};
use shapoist::button::{id_to_string, PathToRemove};
use shapoist::edit_page::none_to_zero;
use shapoist::error::ShapoError;
use shapoist::system_function::clear_log;

#[test]
fn none_is_zero() {
    assert_eq!(none_to_zero(&None), 0);
    assert_eq!(none_to_zero(&Some(-42)), -42);
}

#[test]
fn path_to_remove() {
    assert_eq!(PathToRemove::FromPath("a/b".to_string()).to_string("proj"), "a/b");
    assert_eq!(PathToRemove::FromTemp.to_string("proj"), "proj");
}

#[test]
fn test_button_captions() {
    assert_eq!(id_to_string(0), "Logic::To(Router::MainPage)");
    assert_eq!(id_to_string(2), "Logic::CloseWindow(1000)");
    assert_eq!(id_to_string(8), "Logic::Animation(1)");
    assert_eq!(
        id_to_string(9),
        "Logic::CopyFile(\"data/data/com.saving.shapoist/assets/garbage/test.garbage\", \"data/data/com.saving.shapoist/assets/garbage/another.garbage\""
    );
}

#[test]
fn few_logs_are_kept() {
    let files: Vec<String> = (0..5).map(|i| format!("log{}", i)).collect();
    assert!(clear_log(Ok(files)).unwrap().is_empty());
    assert!(clear_log(Ok(vec![])).unwrap().is_empty());
}

#[test]
fn many_logs_are_all_removed() {
    let files: Vec<String> = (0..6).map(|i| format!("log{}", i)).collect();
    assert_eq!(clear_log(Ok(files.clone())).unwrap(), files);
}

#[test]
fn unreadable_log_directory_is_error() {
    assert!(matches!(clear_log(Err(ShapoError::SystemError("e".to_string()))), Err(ShapoError::SystemError(m)) if m == "e"));
}

#[test]
fn compressed_chart_names() {
    assert!(is_compressed_chart("Chart/song.shapoistcompress"));
    assert!(is_compressed_chart(".shapoistcompress"));
    assert!(!is_compressed_chart("shapoistcompress"));
    assert!(!is_compressed_chart("song.shapoistcompress.bak"));
    assert!(!is_compressed_chart("song.zip"));
    assert!(is_compressed_chart("歌.v2.shapoistcompress"));
    let files: Vec<String> = ["a.shapoistcompress", "b.txt", "c.shapoistcompress"].iter().map(|s| s.to_string()).collect();
    assert_eq!(compressed_charts(&files), vec!["a.shapoistcompress".to_string(), "c.shapoistcompress".to_string()]);
}

#[test]
fn chart_browser_pages() {
    assert_eq!(chart_page(20, 1).unwrap(), ChartPage { first: 0, shown: 9, if_next_page: true, if_previous_page: false });
    assert_eq!(chart_page(20, 2).unwrap(), ChartPage { first: 9, shown: 9, if_next_page: true, if_previous_page: true });
    assert_eq!(chart_page(20, 3).unwrap(), ChartPage { first: 18, shown: 2, if_next_page: false, if_previous_page: true });
    assert_eq!(chart_page(18, 2).unwrap(), ChartPage { first: 9, shown: 9, if_next_page: false, if_previous_page: true });
    assert_eq!(chart_page(18, 3).unwrap(), ChartPage { first: 18, shown: 0, if_next_page: false, if_previous_page: true });
    match chart_page(18, 4) {
        Err(ShapoError::SystemError(m)) => assert_eq!(m, "invailed page number"),
        _ => panic!("page 4 starts beyond the charts"),
    }
}
