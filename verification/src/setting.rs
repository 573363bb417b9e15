//! The player's settings that can be changed, and related choices.
use vstd::prelude::*;

verus! {

/// How a root of an equation is searched for.
#[derive(Clone, Debug)]
pub enum RootFindRule {
    BisectionMethod,
    NewtonMethod,
}

/// A user interface theme.
#[derive(Clone, Debug)]
pub struct UiTheme {}

/// A setting that can be changed.
#[derive(Clone, Debug)]
pub enum PossibleSettingChange {
    UiTheme,
    Language,
    Accuracy,
    IfImmaculate,
    TapPromptColor,
    SlidePromptColor,
    NotePromptRadius,
    JudgeFieldPromptColor,
    JudgeFieldPromptSize,
    DropVelocity,
    ImmaculateColor,
    ExtraColor,
    NormalColor,
    FadeColor,
    MissColor,
    BackgroundColor,
    SearchDepth,
    IfTip,
    Volume,
    UndoSteps,
    IfShader,
    Offect,
}

} // verus!
