use shapoist::command::{
    apply_command, command_parse, shape_label, ChartItems, Command, CommandParser, Edit, EditorState, FieldItem,
    Kind, NoteItem, NoteList, ShapeItem, Target,
};
use shapoist::error::{ParseError, ShapoError};
use shapoist::note::PossibleChartSelection;

fn note(key: usize, id: usize) -> NoteItem {
    NoteItem { key, id, start_time: 0, click_time: 100, if_delete: false }
}

fn editor() -> EditorState {
    EditorState {
        notes: vec![NoteList { field: 0, notes: vec![note(100, 0), note(101, 1)] }],
        shapes: vec![ShapeItem { key: 200, label: Some(4), start_time: 0, end_time: 10, if_delete: false }],
        judge_fields: vec![FieldItem { key: 300, id: 0, start_time: 0, end_time: 1000, if_delete: false }],
        shown: ChartItems {
            notes: vec![NoteList { field: 0, notes: vec![note(500, 0), note(501, 1)] }],
            shapes: vec![ShapeItem { key: 600, label: Some(4), start_time: 0, end_time: 10, if_delete: false }],
            judge_fields: Vec::new(),
        },
        edits: Vec::new(),
        multi_select: Vec::new(),
        now_select: None,
        current_time: 1000,
        uspb: 100,
        now_judge_field_id: 0,
        now_note_id: 2,
        now_shape_id: 5,
        new_judge_field_id: 1,
        commands: Vec::new(),
    }
}

fn run(ed: &mut EditorState, text: &str) -> Result<(), ShapoError> {
    command_parse(&text.to_string(), ed, true)
}

fn is_invalid(r: &Result<(), ShapoError>) -> bool {
    matches!(r, Err(ShapoError::ParseError(ParseError::InvaildCommand)))
}

fn is_nan<T>(r: &Result<T, ShapoError>) -> bool {
    matches!(r, Err(ShapoError::ParseError(ParseError::NaN(_))))
}

fn system_message(r: Result<(), ShapoError>) -> String {
    match r {
        Err(ShapoError::SystemError(m)) => m,
        _ => panic!("expected a system error"),
    }
}

#[test]
fn parse_time_and_repeat() {
    assert!(matches!(CommandParser::parse(&"time 500".to_string()), Ok(Command::Time(500))));
    assert!(matches!(CommandParser::parse(&"time -3".to_string()), Ok(Command::Time(-3))));
    assert!(matches!(CommandParser::parse(&"repeat".to_string()), Ok(Command::Repeat { id: 1, times: 1 })));
    assert!(matches!(CommandParser::parse(&"repeat 2".to_string()), Ok(Command::Repeat { id: 2, times: 1 })));
    assert!(matches!(CommandParser::parse(&"repeat 2 3".to_string()), Ok(Command::Repeat { id: 2, times: 3 })));
}

#[test]
fn parse_lists() {
    match CommandParser::parse(&"select note:0:1,shape:3,field:2".to_string()) {
        Ok(Command::Select(l)) => assert_eq!(
            l,
            vec![
                PossibleChartSelection::Note(0, 1),
                PossibleChartSelection::Shape(3),
                PossibleChartSelection::JudgeField(2),
            ]
        ),
        _ => panic!("a selection"),
    }
    assert!(matches!(CommandParser::parse(&"delete".to_string()), Ok(Command::Delete(None))));
    match CommandParser::parse(&"delete shape:7".to_string()) {
        Ok(Command::Delete(Some(l))) => assert_eq!(l, vec![PossibleChartSelection::Shape(7)]),
        _ => panic!("a deletion"),
    }
}

#[test]
fn parse_attributes_keep_the_rest_of_the_text() {
    match CommandParser::parse(&"add tap click_time = 5 ".to_string()) {
        Ok(Command::Add(Kind::Tap, t)) => assert_eq!(t, "click_time = 5 "),
        _ => panic!("an addition"),
    }
    match CommandParser::parse(&"default bezier_curve a = 1".to_string()) {
        Ok(Command::Default(Kind::BezierCurve, t)) => assert_eq!(t, "a = 1"),
        _ => panic!("a default"),
    }
    match CommandParser::parse(&"change selected x = 2".to_string()) {
        Ok(Command::Change(None, t)) => assert_eq!(t, "x = 2"),
        _ => panic!("a change"),
    }
    match CommandParser::parse(&"change note:0:1 x = 2".to_string()) {
        Ok(Command::Change(Some(l), t)) => {
            assert_eq!(l, vec![PossibleChartSelection::Note(0, 1)]);
            assert_eq!(t, "x = 2");
        },
        _ => panic!("a change"),
    }
}

#[test]
fn parse_refuses_what_is_no_command() {
    for text in [
        "jump",
        "time",
        "repeat 1 2 3",
        "select",
        "select note:1",
        "select note:1,star:2",
        "add tap",
        "add star a = 1",
        "",
    ] {
        assert!(
            matches!(CommandParser::parse(&text.to_string()), Err(ShapoError::ParseError(ParseError::InvaildCommand))),
            "{}",
            text
        );
    }
}

#[test]
fn numbers_that_do_not_read_are_reported() {
    for text in [
        "time 12a",
        "time 99999999999999999999",
        "repeat x",
        "repeat 99999999999999999999999",
        "repeat 1 -2",
        "select note:a:1",
        "delete shape:99999999999999999999999",
        "change field:+ x = 1",
    ] {
        assert!(is_nan(&CommandParser::parse(&text.to_string())), "{}", text);
    }
}

#[test]
fn numbers_read_as_std_reads_them() {
    assert!(matches!(CommandParser::parse(&"repeat +2 007".to_string()), Ok(Command::Repeat { id: 2, times: 7 })));
    assert!(matches!(CommandParser::parse(&"time +5".to_string()), Ok(Command::Time(5))));
    assert!(matches!(
        CommandParser::parse(&"time -9223372036854775808".to_string()),
        Ok(Command::Time(i64::MIN))
    ));
}

#[test]
fn unreadable_number_leaves_the_editor() {
    let mut ed = editor();
    assert!(is_nan(&run(&mut ed, "time x")));
    assert_eq!(ed.current_time, 1000);
    assert!(ed.commands.is_empty());
}

#[test]
fn shape_labels_are_decimal_texts() {
    assert_eq!(shape_label(&"7".to_string()), Some(7));
    assert_eq!(shape_label(&"0".to_string()), Some(0));
    assert_eq!(shape_label(&"07".to_string()), None);
    assert_eq!(shape_label(&"+7".to_string()), None);
    assert_eq!(shape_label(&"x".to_string()), None);
    assert_eq!(shape_label(&String::new()), None);
}

#[test]
fn time_sets_the_editor_time_and_is_recorded() {
    let mut ed = editor();
    assert!(run(&mut ed, "time 42").is_ok());
    assert_eq!(ed.current_time, 42);
    assert_eq!(ed.commands.len(), 1);
    assert_eq!(ed.commands[0].0, "time 42");
}

#[test]
fn unsaved_commands_are_not_recorded() {
    let mut ed = editor();
    assert!(command_parse(&"time 7".to_string(), &mut ed, false).is_ok());
    assert_eq!(ed.current_time, 7);
    assert!(ed.commands.is_empty());
}

#[test]
fn add_tap_starts_four_beats_early() {
    let mut ed = editor();
    assert!(run(&mut ed, "add tap a = 1").is_ok());
    let n = ed.notes[0].notes[2];
    assert_eq!(n.start_time, 600);
    assert_eq!(n.click_time, 1000);
    assert_eq!(n.id, 2);
    assert!(!n.if_delete);
    assert_eq!(ed.now_note_id, 3);
    assert_eq!(ed.edits.len(), 2);
    assert_eq!(n.key, 0);
    assert!(matches!(ed.edits[0], (Target::Item(0), Edit::Inherit(Kind::Tap))));
    match &ed.edits[1] {
        (Target::Item(0), Edit::Merge(t)) => assert_eq!(t, "a = 1"),
        _ => panic!("the attributes of the new note"),
    }
}

#[test]
fn add_note_without_its_judge_field_fails() {
    let mut ed = editor();
    ed.now_judge_field_id = 9;
    let r = run(&mut ed, "add slide a = 1");
    assert_eq!(system_message(r), "invaild judge field");
    assert!(ed.commands.is_empty());
    assert_eq!(ed.notes[0].notes.len(), 2);
}

#[test]
fn add_shape_and_judge_field() {
    let mut ed = editor();
    assert!(run(&mut ed, "add circle r = 2").is_ok());
    assert_eq!(ed.shapes[1].label, Some(5));
    assert_eq!(ed.shapes[1].start_time, 600);
    assert_eq!(ed.shapes[1].end_time, 1000);
    assert_eq!(ed.now_shape_id, 6);
    assert!(run(&mut ed, "add judge_field w = 1").is_ok());
    assert_eq!(ed.judge_fields[1].id, 1);
    assert_eq!(ed.new_judge_field_id, 2);
}

#[test]
fn delete_marks_without_removing() {
    let mut ed = editor();
    assert!(run(&mut ed, "delete note:0:1,shape:4").is_ok());
    assert_eq!(ed.notes[0].notes.len(), 2);
    assert!(ed.notes[0].notes[1].if_delete);
    assert!(!ed.notes[0].notes[0].if_delete);
    assert!(ed.shapes[0].if_delete);
}

#[test]
fn delete_judge_field_drops_its_notes() {
    let mut ed = editor();
    assert!(run(&mut ed, "delete field:0").is_ok());
    assert!(ed.judge_fields[0].if_delete);
    assert!(ed.notes.is_empty());
}

#[test]
fn delete_in_missing_judge_field_fails_after_earlier_marks() {
    let mut ed = editor();
    let r = run(&mut ed, "delete shape:4,note:3:0");
    assert_eq!(system_message(r), "invaild judge field");
    assert!(ed.shapes[0].if_delete);
    assert!(ed.commands.is_empty());
}

#[test]
fn delete_without_list_uses_the_selection() {
    let mut ed = editor();
    assert!(run(&mut ed, "select note:0:0").is_ok());
    assert!(run(&mut ed, "delete").is_ok());
    assert!(ed.notes[0].notes[0].if_delete);
}

#[test]
fn repeat_replays_without_recording() {
    let mut ed = editor();
    assert!(run(&mut ed, "add tap a = 1").is_ok());
    assert!(run(&mut ed, "repeat 1 2").is_ok());
    assert_eq!(ed.notes[0].notes.len(), 5);
    assert_eq!(ed.now_note_id, 5);
    assert_eq!(ed.commands.len(), 2);
    assert_eq!(ed.commands[1].0, "repeat 1 2");
}

#[test]
fn repeat_zero_means_once() {
    let mut ed = editor();
    assert!(run(&mut ed, "add tap a = 1").is_ok());
    assert!(run(&mut ed, "repeat 0 0").is_ok());
    assert_eq!(ed.notes[0].notes.len(), 4);
}

#[test]
fn repeat_beyond_the_history_is_invalid() {
    let mut ed = editor();
    assert!(run(&mut ed, "time 3").is_ok());
    let r = run(&mut ed, "repeat 2");
    assert!(is_invalid(&r));
    assert_eq!(ed.commands.len(), 1);
}

#[test]
fn change_without_selection_fails() {
    let mut ed = editor();
    assert_eq!(system_message(run(&mut ed, "change selected a = 1")), "no selection");
}

#[test]
fn change_moves_the_others_by_the_same_amount() {
    let mut ed = editor();
    ed.now_select = Some(PossibleChartSelection::Note(0, 0));
    assert!(run(&mut ed, "change note:0:1,shape:4 x = 1").is_ok());
    assert_eq!(ed.edits.len(), 2);
    match &ed.edits[0] {
        (Target::ShownItem(500), Edit::Merge(t)) => assert_eq!(t, "x = 1"),
        _ => panic!("the selected note of the chart on show is changed"),
    }
    assert!(matches!(ed.edits[1], (Target::ShownItem(501), Edit::Shift(0))));
}

#[test]
fn change_works_on_the_chart_on_show() {
    let mut ed = editor();
    ed.shown.notes.clear();
    ed.now_select = Some(PossibleChartSelection::Note(0, 0));
    assert_eq!(system_message(run(&mut ed, "change selected x = 1")), "invaild selection");
    ed.now_select = Some(PossibleChartSelection::Shape(4));
    assert!(run(&mut ed, "change selected x = 1").is_ok());
    assert!(matches!(ed.edits[0], (Target::ShownItem(600), Edit::Merge(_))));
}

#[test]
fn default_records_an_edit_of_the_kind() {
    let mut ed = editor();
    assert!(run(&mut ed, "default slide speed = 2").is_ok());
    match &ed.edits[0] {
        (Target::Default(Kind::Slide), Edit::Merge(t)) => assert_eq!(t, "speed = 2"),
        _ => panic!("a default"),
    }
}

#[test]
fn apply_command_records_its_text() {
    let mut ed = editor();
    assert!(apply_command(Command::Time(9), &mut ed, "time 9".to_string(), true).is_ok());
    assert_eq!(ed.current_time, 9);
    assert_eq!(ed.commands[0].0, "time 9");
    assert!(matches!(ed.commands[0].1, Command::Time(9)));
}

#[test]
fn invalid_text_leaves_the_editor() {
    let mut ed = editor();
    assert!(is_invalid(&run(&mut ed, "fly away")));
    assert_eq!(ed.current_time, 1000);
    assert!(ed.commands.is_empty());
}
