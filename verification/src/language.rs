//! Texts shown to the player, either given directly or looked up by number in
//! the language files of the chosen language.
use vstd::prelude::*;
use vstd::string::*;
use rand::Rng;
use rand::rngs::ThreadRng;
use crate::error::ShapoError;

verus! {

/// The random number generator of the current thread.
#[verifier::external_type_specification]
#[verifier::external_body]
pub struct ExThreadRng(ThreadRng);

/// A text: a line of the language file, an error message, or literal text.
#[derive(Clone, Debug, PartialEq)]
pub enum Language {
    /// The line with this number in `language.ini`.
    Code(usize),
    /// An error message.
    Error(Mess),
    /// This very text.
    Text(String),
}

/// An error message: a line of `error.ini`, or literal text.
#[derive(Clone, Debug, PartialEq)]
pub enum Mess {
    /// The line with this number in `error.ini`.
    Code(usize),
    /// This very text.
    Text(String),
}

/// The path of the language file `file` of `language` under `assets`.
pub open spec fn language_file_path(assets: Seq<char>, language: Seq<char>, file: Seq<char>) -> Seq<char> {
    assets + "/assets/language/"@ + language + "/"@ + file
}

/// The lines that error messages are taken from: those read from
/// `error.ini`, or the built-in three where it could not be read.
pub open spec fn error_lines(lines: Result<Vec<String>, ShapoError>) -> Seq<Seq<char>> {
    match lines {
        Ok(v) => v@.map_values(|s: String| s@),
        Err(_) => seq!["Error! "@, "Ignore"@, "Exit"@],
    }
}

/// `rand::thread_rng`: the random number generator of this thread.
#[verifier::external_body]
fn thread_rng() -> ThreadRng {
    rand::thread_rng()
}

/// `Rng::gen_range(0..len)`: a number drawn at random below `len`. Claims
/// that the result lies in `0..len` (the range it is asked for); it panics on
/// an empty range, which `requires` leaves out.
#[verifier::external_body]
fn gen_range_below(rng: &mut ThreadRng, len: usize) -> (r: usize)
    requires
        len > 0,
    ensures
        r < len,
{
    rng.gen_range(0..len)
}

/// Builds the path of a language file.
fn build_language_file_path(assets_path: &str, language: &str, file: &str) -> (p: String)
    ensures
        p@ == language_file_path(assets_path@, language@, file@),
{
    let mut p = String::from_str(assets_path);
    p.append("/assets/language/");
    p.append(language);
    p.append("/");
    p.append(file);
    p
}

impl Language {
    /// The language file that must be read to know this text, given the
    /// assets directory and the language of the settings (or the error of
    /// reading them). `None` where the text is given directly. A numbered text
    /// needs the settings; an error message falls back to `en-US`.
    pub fn language_file(&self, assets_path: &str, setting_language: Result<String, ShapoError>)
        -> (r: Result<Option<String>, ShapoError>)
        ensures
            match *self {
                Language::Code(_) => match setting_language {
                    Err(e) => r == Err::<Option<String>, ShapoError>(e),
                    Ok(l) => r matches Ok(Some(p))
                        && p@ == language_file_path(assets_path@, l@, "language.ini"@),
                },
                Language::Error(Mess::Code(_)) => r matches Ok(Some(p)) && p@ == language_file_path(
                    assets_path@,
                    match setting_language {
                        Ok(l) => l@,
                        Err(_) => "en-US"@,
                    },
                    "error.ini"@,
                ),
                _ => r matches Ok(None),
            },
    {
        match self {
            Language::Code(_) => {
                let l = match setting_language {
                    Ok(l) => l,
                    Err(e) => return Err(e),
                };
                Ok(Some(build_language_file_path(assets_path, l.as_str(), "language.ini")))
            },
            Language::Error(Mess::Code(_)) => {
                let l = match setting_language {
                    Ok(l) => l,
                    Err(_) => String::from_str("en-US"),
                };
                Ok(Some(build_language_file_path(assets_path, l.as_str(), "error.ini")))
            },
            _ => Ok(None),
        }
    }

    /// The text itself, given the lines of the file that
    /// [`Language::language_file`] names (or the error of reading it; where
    /// no file is named, `lines` is not looked at). A number beyond the
    /// language file is an error; a number beyond the error lines is
    /// left out by `requires`.
    pub fn get_language(&self, lines: Result<Vec<String>, ShapoError>) -> (r: Result<String, ShapoError>)
        requires
            self matches Language::Error(Mess::Code(a)) ==> a < error_lines(lines).len(),
        ensures
            match *self {
                Language::Code(t) => match lines {
                    Err(e) => r == Err::<String, ShapoError>(e),
                    Ok(v) => if t < v.len() {
                        r matches Ok(s) && s@ == v@[t as int]@
                    } else {
                        r matches Err(ShapoError::SystemError(m))
                            && m@ == "[ERROR] The language code didn't exist"@
                    },
                },
                Language::Error(Mess::Code(a)) => r matches Ok(s) && s@ == error_lines(lines)[a as int],
                Language::Error(Mess::Text(t)) => r matches Ok(s) && s@ == t@,
                Language::Text(t) => r matches Ok(s) && s@ == t@,
            },
    {
        match self {
            Language::Code(t) => {
                let language = match lines {
                    Ok(v) => v,
                    Err(e) => return Err(e),
                };
                if *t < language.len() {
                    Ok(language[*t].clone())
                } else {
                    Err(ShapoError::SystemError(String::from_str("[ERROR] The language code didn't exist")))
                }
            },
            Language::Error(m) => match m {
                Mess::Code(a) => {
                    let language = match lines {
                        Ok(v) => v,
                        Err(_) => {
                            let mut v: Vec<String> = Vec::new();
                            v.push(String::from_str("Error! "));
                            v.push(String::from_str("Ignore"));
                            v.push(String::from_str("Exit"));
                            v
                        },
                    };
                    proof {
                        assert(language@.map_values(|s: String| s@) =~= error_lines(lines));
                    }
                    Ok(language[*a].clone())
                },
                Mess::Text(s) => Ok(s.clone()),
            },
            Language::Text(t) => Ok(t.clone()),
        }
    }

    /// The file that tips are drawn from, given the assets directory and the
    /// language of the settings (or the error of reading them).
    pub fn tip_file(assets_path: &str, setting_language: Result<String, ShapoError>) -> (r: Result<String, ShapoError>)
        ensures
            match setting_language {
                Err(e) => r == Err::<String, ShapoError>(e),
                Ok(l) => r matches Ok(p) && p@ == language_file_path(assets_path@, l@, "tip.ini"@),
            },
    {
        match setting_language {
            Ok(l) => Ok(build_language_file_path(assets_path, l.as_str(), "tip.ini")),
            Err(e) => Err(e),
        }
    }

    /// A tip drawn at random from the lines of the tip file (or the error of
    /// reading it). An empty tip file is an error.
    pub fn random_tip(tips: Result<Vec<String>, ShapoError>) -> (r: Result<Self, ShapoError>)
        ensures
            match tips {
                Err(e) => r == Err::<Self, ShapoError>(e),
                Ok(v) => if v.len() == 0 {
                    r matches Err(ShapoError::SystemError(m)) && m@ == "[ERROR] tip file is empty"@
                } else {
                    r matches Ok(Language::Text(s))
                        && exists|i: int| 0 <= i < v.len() && s@ == (#[trigger] v@[i])@
                },
            },
    {
        let language = match tips {
            Ok(v) => v,
            Err(e) => return Err(e),
        };
        if language.len() == 0 {
            Err(ShapoError::SystemError(String::from_str("[ERROR] tip file is empty")))
        } else {
            let mut rng = thread_rng();
            let random_number = gen_range_below(&mut rng, language.len());
            let tip = language[random_number].clone();
            proof {
                assert(tip@ == language@[random_number as int]@);
            }
            Ok(Self::Text(tip))
        }
    }
}

} // verus!
