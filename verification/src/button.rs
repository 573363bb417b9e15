//! What the buttons of the interface act on.
use vstd::prelude::*;
use vstd::string::*;

verus! {

/// The path that a "remove" button deletes: the open project's, or a given one.
#[derive(Clone, Debug)]
pub enum PathToRemove {
    /// The directory of the project that is open in the editor.
    FromTemp,
    /// This path.
    FromPath(String),
}

impl PathToRemove {
    /// The path to delete, given the directory of the open project.
    pub fn to_string(&self, now_project_path: &str) -> (r: String)
        ensures
            r@ == match *self {
                PathToRemove::FromPath(t) => t@,
                PathToRemove::FromTemp => now_project_path@,
            },
    {
        match self {
            PathToRemove::FromPath(t) => t.clone(),
            PathToRemove::FromTemp => String::from_str(now_project_path),
        }
    }
}

/// The caption of the test button with number `id` (the buttons of the test
/// page are numbered from 0 to 9).
pub open spec fn test_button_caption(id: usize) -> Seq<char> {
    if id == 0 {
        "Logic::To(Router::MainPage)"@
    } else if id == 1 {
        "Logic::OpenWindow(Window::default())"@
    } else if id == 2 {
        "Logic::CloseWindow(1000)"@
    } else if id == 3 {
        "Logic::CreateDir(\"data/data/com.saving.shapoist/assets/garbage/\")"@
    } else if id == 4 {
        "Logic::Remove(\"data/data/com.saving.shapoist/assets/garbage/test.garbage\")"@
    } else if id == 5 {
        "Logic::Read(\"data/data/com.saving.shapoist/assets/garbage/test.garbage\")"@
    } else if id == 6 {
        "Logic::Write([\"data/data/com.saving.shapoist/assets/garbage/test.garbage\", \"Hello World! \"])"@
    } else if id == 7 {
        "Logic::Create(\"data/data/com.saving.shapoist/assets/garbage/test.garbage\")"@
    } else if id == 8 {
        "Logic::Animation(1)"@
    } else {
        "Logic::CopyFile(\"data/data/com.saving.shapoist/assets/garbage/test.garbage\", \"data/data/com.saving.shapoist/assets/garbage/another.garbage\""@
    }
}

/// The caption of the test button with number `id`; there are ten of them.
pub fn id_to_string(id: usize) -> (r: String)
    requires
        id < 10,
    ensures
        r@ == test_button_caption(id),
{
    let back = if id == 0 {
        "Logic::To(Router::MainPage)"
    } else if id == 1 {
        "Logic::OpenWindow(Window::default())"
    } else if id == 2 {
        "Logic::CloseWindow(1000)"
    } else if id == 3 {
        "Logic::CreateDir(\"data/data/com.saving.shapoist/assets/garbage/\")"
    } else if id == 4 {
        "Logic::Remove(\"data/data/com.saving.shapoist/assets/garbage/test.garbage\")"
    } else if id == 5 {
        "Logic::Read(\"data/data/com.saving.shapoist/assets/garbage/test.garbage\")"
    } else if id == 6 {
        "Logic::Write([\"data/data/com.saving.shapoist/assets/garbage/test.garbage\", \"Hello World! \"])"
    } else if id == 7 {
        "Logic::Create(\"data/data/com.saving.shapoist/assets/garbage/test.garbage\")"
    } else if id == 8 {
        "Logic::Animation(1)"
    } else {
        "Logic::CopyFile(\"data/data/com.saving.shapoist/assets/garbage/test.garbage\", \"data/data/com.saving.shapoist/assets/garbage/another.garbage\""
    };
    String::from_str(back)
}

} // verus!
