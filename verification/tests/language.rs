use shapoist::error::ShapoError;
use shapoist::language::{Language, Mess};
use shapoist::text::Text;

fn lines(v: &[&str]) -> Result<Vec<String>, ShapoError> {
    Ok(v.iter().map(|s| s.to_string()).collect())
}

fn missing() -> Result<Vec<String>, ShapoError> {
    Err(ShapoError::SystemError("missing".to_string()))
}

#[test]
fn numbered_text_is_its_line() {
    assert_eq!(Language::Code(1).get_language(lines(&["a", "b"])).unwrap(), "b");
    assert_eq!(Language::Code(0).get_language(lines(&["a", "b"])).unwrap(), "a");
}

#[test]
fn numbered_text_beyond_file_is_error() {
    match Language::Code(2).get_language(lines(&["a", "b"])) {
        Err(ShapoError::SystemError(m)) => assert_eq!(m, "[ERROR] The language code didn't exist"),
        _ => panic!("there is no third line"),
    }
}

#[test]
fn numbered_text_without_file_is_error() {
    assert!(matches!(Language::Code(0).get_language(missing()), Err(ShapoError::SystemError(m)) if m == "missing"));
}

#[test]
fn error_text_falls_back_to_builtin_lines() {
    assert_eq!(Language::Error(Mess::Code(0)).get_language(missing()).unwrap(), "Error! ");
    assert_eq!(Language::Error(Mess::Code(1)).get_language(missing()).unwrap(), "Ignore");
    assert_eq!(Language::Error(Mess::Code(2)).get_language(missing()).unwrap(), "Exit");
    assert_eq!(Language::Error(Mess::Code(0)).get_language(lines(&["Fehler"])).unwrap(), "Fehler");
}

#[test]
fn literal_texts_are_themselves() {
    assert_eq!(Language::Text("hi".to_string()).get_language(missing()).unwrap(), "hi");
    assert_eq!(Language::Error(Mess::Text("oops".to_string())).get_language(missing()).unwrap(), "oops");
}

#[test]
fn language_file_of_numbered_text() {
    let p = Language::Code(3).language_file("root", Ok("zh-CN".to_string())).unwrap();
    assert_eq!(p, Some("root/assets/language/zh-CN/language.ini".to_string()));
    assert!(matches!(
        Language::Code(3).language_file("root", Err(ShapoError::SystemError("s".to_string()))),
        Err(ShapoError::SystemError(m)) if m == "s"
    ));
}

#[test]
fn language_file_of_error_text_defaults_to_english() {
    let p = Language::Error(Mess::Code(0)).language_file("root", Err(ShapoError::SystemError("s".to_string())));
    assert_eq!(p.unwrap(), Some("root/assets/language/en-US/error.ini".to_string()));
    let q = Language::Error(Mess::Code(0)).language_file("root", Ok("ja".to_string()));
    assert_eq!(q.unwrap(), Some("root/assets/language/ja/error.ini".to_string()));
}

#[test]
fn literal_texts_need_no_file() {
    assert_eq!(Language::Text("x".to_string()).language_file("root", Ok("ja".to_string())).unwrap(), None);
    assert_eq!(Language::Error(Mess::Text("x".to_string())).language_file("root", Ok("ja".to_string())).unwrap(), None);
}

#[test]
fn tip_file_path() {
    assert_eq!(Language::tip_file(".", Ok("en-US".to_string())).unwrap(), "./assets/language/en-US/tip.ini");
    assert!(Language::tip_file(".", Err(ShapoError::ConvertError("c".to_string()))).is_err());
}

#[test]
fn random_tip_is_one_of_the_tips() {
    let tips = ["first", "second", "third"];
    for _ in 0..20 {
        match Language::random_tip(lines(&tips)).unwrap() {
            Language::Text(t) => assert!(tips.contains(&t.as_str())),
            _ => panic!("a tip is literal text"),
        }
    }
    assert_eq!(Language::random_tip(lines(&["only"])).unwrap(), Language::Text("only".to_string()));
}

#[test]
fn random_tip_of_empty_file_is_error() {
    match Language::random_tip(lines(&[])) {
        Err(ShapoError::SystemError(m)) => assert_eq!(m, "[ERROR] tip file is empty"),
        _ => panic!("no tip to draw"),
    }
    assert!(matches!(Language::random_tip(missing()), Err(ShapoError::SystemError(m)) if m == "missing"));
}

#[test]
fn text_constructors() {
    assert_eq!(Text::default().text, Language::Code(0));
    assert_eq!(Text::new_from_string("hello".to_string()).text, Language::Text("hello".to_string()));
    assert_eq!(Text::new(Language::Code(9)).text, Language::Code(9));
}
