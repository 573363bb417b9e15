//! The chart editor's command language: what each command does to the
//! project being edited, and the history that lets earlier commands be
//! repeated.
//!
//! The attributes of notes, shapes and judge fields (positions, colours,
//! animations) are written by the user as TOML text. The editor keeps them
//! as a list of edits, each addressed to an item or to the defaults of a
//! kind, in the order in which they were made; the attributes of an item are
//! what its edits give, applied in that order.
use vstd::prelude::*;
use vstd::string::*;
use crate::error::{ParseError, ShapoError};
use crate::note::PossibleChartSelection;

verus! {

/// The kinds of items that a command can add or give defaults to.
#[derive(Clone, Copy, Debug, PartialEq, Eq, Structural)]
pub enum Kind {
    Tap,
    Slide,
    Rectangle,
    Circle,
    BezierCurve,
    Image,
    Text,
    JudgeField,
}

/// Whom an edit addresses: an item of the project's chart (by its key), an
/// item of the chart on show (by its key), or the defaults of a kind.
#[derive(Clone, Copy, Debug, PartialEq, Eq, Structural)]
pub enum Target {
    Item(usize),
    ShownItem(usize),
    Default(Kind),
}

/// An edit of the attributes of an item or of the defaults of a kind.
#[derive(Debug)]
pub enum Edit {
    /// Merge these attributes, written as TOML, into the target.
    Merge(String),
    /// The target starts from the defaults of this kind as they stand here.
    Inherit(Kind),
    /// Add to the target the change that the edit at this place of the list
    /// made to its own target.
    Shift(usize),
}

/// The abstract value of an [`Edit`].
pub enum EditView {
    Merge(Seq<char>),
    Inherit(Kind),
    Shift(usize),
}

impl View for Edit {
    type V = EditView;

    open spec fn view(&self) -> EditView {
        match self {
            Edit::Merge(t) => EditView::Merge(t@),
            Edit::Inherit(k) => EditView::Inherit(*k),
            Edit::Shift(p) => EditView::Shift(*p),
        }
    }
}

/// What the change of the selected item was, for the other items of a
/// change command to follow: the place in the edit list of the edit that
/// made it, by the kind of the item.
#[derive(Clone, Copy, Debug, PartialEq, Eq, Structural)]
pub enum DeltaType {
    Note(usize),
    JudgeField(usize),
    Shape(usize),
    Nothing,
}

/// A note: the key of its edits, its id, when it appears and when it is to
/// be hit, and whether it is marked deleted.
#[derive(Clone, Copy, Debug, PartialEq, Eq, Structural)]
pub struct NoteItem {
    pub key: usize,
    pub id: usize,
    pub start_time: i64,
    pub click_time: i64,
    pub if_delete: bool,
}

/// The notes of one judge field, in their order.
#[derive(Debug)]
pub struct NoteList {
    pub field: usize,
    pub notes: Vec<NoteItem>,
}

/// The abstract value of a [`NoteList`].
pub struct NoteListView {
    pub field: usize,
    pub notes: Seq<NoteItem>,
}

impl View for NoteList {
    type V = NoteListView;

    open spec fn view(&self) -> NoteListView {
        NoteListView { field: self.field, notes: self.notes@ }
    }
}

/// A shape: the key of its edits, its label number (the `n` whose decimal
/// text `n.to_string()` is its first label, see [`shape_label`]; none where
/// the first label is no such text, as "07" or "x"), when it is shown, and
/// whether it is marked deleted. A selection `Shape(n)` names the shapes
/// whose first label is the text of `n`.
#[derive(Clone, Copy, Debug, PartialEq, Eq, Structural)]
pub struct ShapeItem {
    pub key: usize,
    pub label: Option<usize>,
    pub start_time: i64,
    pub end_time: i64,
    pub if_delete: bool,
}

/// A judge field: the key of its edits, its id, when it is active, and
/// whether it is marked deleted.
#[derive(Clone, Copy, Debug, PartialEq, Eq, Structural)]
pub struct FieldItem {
    pub key: usize,
    pub id: usize,
    pub start_time: i64,
    pub end_time: i64,
    pub if_delete: bool,
}

/// A command of the editor, as read from its text.
#[derive(Debug)]
pub enum Command {
    /// Change the selected item by these attributes, and the listed items
    /// (the multiple selection where none are listed) by the same amount.
    Change(Option<Vec<PossibleChartSelection>>, String),
    /// Run the command `id` places back in the history (1 where 0 is
    /// given) `times` times (once where 0 is given).
    Repeat { id: usize, times: usize },
    /// Merge these attributes into the defaults of a kind.
    Default(Kind, String),
    /// Make these items the multiple selection.
    Select(Vec<PossibleChartSelection>),
    /// Move the editor's time to this microsecond.
    Time(i64),
    /// Add an item of a kind, from its defaults and these attributes.
    Add(Kind, String),
    /// Mark the listed items deleted (the multiple selection where none are
    /// listed).
    Delete(Option<Vec<PossibleChartSelection>>),
}

/// The abstract value of a [`Command`].
pub enum CommandView {
    Change(Option<Seq<PossibleChartSelection>>, Seq<char>),
    Repeat(usize, usize),
    Default(Kind, Seq<char>),
    Select(Seq<PossibleChartSelection>),
    Time(i64),
    Add(Kind, Seq<char>),
    Delete(Option<Seq<PossibleChartSelection>>),
}

/// The abstract value of an optional list of selections.
pub open spec fn selections_view(s: Option<Vec<PossibleChartSelection>>) -> Option<Seq<PossibleChartSelection>> {
    match s {
        Some(v) => Some(v@),
        None => None,
    }
}

impl View for Command {
    type V = CommandView;

    open spec fn view(&self) -> CommandView {
        match self {
            Command::Change(s, t) => CommandView::Change(selections_view(*s), t@),
            Command::Repeat { id, times } => CommandView::Repeat(*id, *times),
            Command::Default(k, t) => CommandView::Default(*k, t@),
            Command::Select(s) => CommandView::Select(s@),
            Command::Time(t) => CommandView::Time(*t),
            Command::Add(k, t) => CommandView::Add(*k, t@),
            Command::Delete(s) => CommandView::Delete(selections_view(*s)),
        }
    }
}

/// The items of a chart.
pub struct ChartItems {
    /// The notes, by judge field.
    pub notes: Vec<NoteList>,
    pub shapes: Vec<ShapeItem>,
    pub judge_fields: Vec<FieldItem>,
}

/// The abstract value of [`ChartItems`].
pub struct ChartItemsView {
    pub notes: Seq<NoteListView>,
    pub shapes: Seq<ShapeItem>,
    pub judge_fields: Seq<FieldItem>,
}

impl View for ChartItems {
    type V = ChartItemsView;

    open spec fn view(&self) -> ChartItemsView {
        ChartItemsView { notes: lists_view(self.notes@), shapes: self.shapes@, judge_fields: self.judge_fields@ }
    }
}

/// The project that the editor works on. Adding and deleting items works on
/// the project's chart (the fields `notes`, `shapes`, `judge_fields`); change
/// commands work on the chart on show (`shown`).
pub struct EditorState {
    /// The notes of the project's chart, by judge field.
    pub notes: Vec<NoteList>,
    pub shapes: Vec<ShapeItem>,
    pub judge_fields: Vec<FieldItem>,
    /// The items of the chart on show.
    pub shown: ChartItems,
    /// The edits of the items' attributes, in the order in which they were made.
    pub edits: Vec<(Target, Edit)>,
    pub multi_select: Vec<PossibleChartSelection>,
    pub now_select: Option<PossibleChartSelection>,
    /// The editor's time, in microseconds.
    pub current_time: i64,
    /// Microseconds per beat of the chart's music.
    pub uspb: i64,
    /// The judge field to which new notes go.
    pub now_judge_field_id: usize,
    /// The id of the next new note.
    pub now_note_id: usize,
    /// The label number of the next new shape.
    pub now_shape_id: usize,
    /// The id of the next new judge field.
    pub new_judge_field_id: usize,
    /// The commands run so far, each with its text.
    pub commands: Vec<(String, Command)>,
}

/// The abstract values of note lists.
pub open spec fn lists_view(ls: Seq<NoteList>) -> Seq<NoteListView> {
    ls.map_values(|l: NoteList| l@)
}

/// The abstract values of edits.
pub open spec fn edits_view(es: Seq<(Target, Edit)>) -> Seq<(Target, EditView)> {
    es.map_values(|e: (Target, Edit)| (e.0, e.1@))
}

/// The abstract values of the entries of a history.
pub open spec fn history_view(cs: Seq<(String, Command)>) -> Seq<(Seq<char>, CommandView)> {
    cs.map_values(|c: (String, Command)| (c.0@, c.1@))
}

/// The abstract state of the editor.
pub struct EditorView {
    pub notes: Seq<NoteListView>,
    pub shapes: Seq<ShapeItem>,
    pub judge_fields: Seq<FieldItem>,
    pub shown: ChartItemsView,
    pub edits: Seq<(Target, EditView)>,
    pub multi_select: Seq<PossibleChartSelection>,
    pub now_select: Option<PossibleChartSelection>,
    pub current_time: i64,
    pub uspb: i64,
    pub now_judge_field_id: usize,
    pub now_note_id: usize,
    pub now_shape_id: usize,
    pub new_judge_field_id: usize,
    pub commands: Seq<(Seq<char>, CommandView)>,
}

impl View for EditorState {
    type V = EditorView;

    open spec fn view(&self) -> EditorView {
        EditorView {
            notes: lists_view(self.notes@),
            shapes: self.shapes@,
            judge_fields: self.judge_fields@,
            shown: self.shown@,
            edits: edits_view(self.edits@),
            multi_select: self.multi_select@,
            now_select: self.now_select,
            current_time: self.current_time,
            uspb: self.uspb,
            now_judge_field_id: self.now_judge_field_id,
            now_note_id: self.now_note_id,
            now_shape_id: self.now_shape_id,
            new_judge_field_id: self.new_judge_field_id,
            commands: history_view(self.commands@),
        }
    }
}

/// No two of the note lists belong to the same judge field.
pub open spec fn unique_fields(ls: Seq<NoteListView>) -> bool {
    forall|i: int, j: int| 0 <= i < j < ls.len() ==> #[trigger] ls[i].field != #[trigger] ls[j].field
}

/// Each judge field has at most one list of notes, in either chart.
pub open spec fn wf(v: EditorView) -> bool {
    unique_fields(v.notes) && unique_fields(v.shown.notes)
}

/// How a command can fail.
pub enum Failure {
    /// With this message.
    System(Seq<char>),
    /// The command refers to a command that is not in the history.
    Invalid,
}

/// Where running a command ends: with a new state, with a failure (in the
/// state reached by then), or nowhere, where the editor would stop on an
/// item that is not there, on a number out of range, or on a repetition
/// that repeats itself without end.
pub enum Outcome {
    Done(EditorView),
    Failed(EditorView, Failure),
    Stuck,
}

/// Whether `r` is the error that reports `f`.
pub open spec fn reports(r: Result<(), ShapoError>, f: Failure) -> bool {
    match f {
        Failure::System(m) => r matches Err(ShapoError::SystemError(e)) && e@ == m,
        Failure::Invalid => r matches Err(ShapoError::ParseError(ParseError::InvaildCommand)),
    }
}

/// Whether the result `r` and the state `w` are those of the outcome `o`.
pub open spec fn ends_as(o: Outcome, w: EditorView, r: Result<(), ShapoError>) -> bool {
    match o {
        Outcome::Done(v) => r is Ok && w == v,
        Outcome::Failed(v, f) => reports(r, f) && w == v,
        Outcome::Stuck => false,
    }
}

/// The place of the note list of judge field `field`, if there is one.
pub open spec fn list_index(ls: Seq<NoteListView>, field: usize) -> Option<int> {
    if exists|i: int| 0 <= i < ls.len() && ls[i].field == field {
        Some(choose|i: int| 0 <= i < ls.len() && ls[i].field == field)
    } else {
        None
    }
}

/// The place of the first shape whose label is `label`, if there is one.
pub open spec fn shape_index(ss: Seq<ShapeItem>, label: usize) -> Option<int> {
    if exists|i: int| 0 <= i < ss.len() && ss[i].label == Some(label) {
        Some(
            choose|i: int|
                0 <= i < ss.len() && ss[i].label == Some(label) && forall|j: int|
                    0 <= j < i ==> ss[j].label != Some(label),
        )
    } else {
        None
    }
}

/// The place of the first judge field of id `id`, if there is one.
pub open spec fn field_index(fs: Seq<FieldItem>, id: usize) -> Option<int> {
    if exists|i: int| 0 <= i < fs.len() && fs[i].id == id {
        Some(
            choose|i: int|
                0 <= i < fs.len() && fs[i].id == id && forall|j: int| 0 <= j < i ==> fs[j].id != id,
        )
    } else {
        None
    }
}

/// `v` with the edit `e` of target `t` appended.
pub open spec fn with_edit(v: EditorView, t: Target, e: EditView) -> EditorView {
    EditorView { edits: v.edits.push((t, e)), ..v }
}

/// `v` with note `j` of note list `li` replaced by `n`.
pub open spec fn with_note(v: EditorView, li: int, j: int, n: NoteItem) -> EditorView {
    EditorView {
        notes: v.notes.update(li, NoteListView { notes: v.notes[li].notes.update(j, n), ..v.notes[li] }),
        ..v
    }
}

/// Marking one item deleted.
pub open spec fn delete_one(v: EditorView, s: PossibleChartSelection) -> Outcome {
    match s {
        PossibleChartSelection::Note(a, b) => match list_index(v.notes, a) {
            None => Outcome::Failed(v, Failure::System("invaild judge field"@)),
            Some(li) => if b < v.notes[li].notes.len() {
                Outcome::Done(with_note(v, li, b as int, NoteItem { if_delete: true, ..v.notes[li].notes[b as int] }))
            } else {
                Outcome::Stuck
            },
        },
        PossibleChartSelection::JudgeField(a) => if a < v.judge_fields.len() {
            Outcome::Done(
                EditorView {
                    judge_fields: v.judge_fields.update(a as int, FieldItem { if_delete: true, ..v.judge_fields[a as int] }),
                    notes: match list_index(v.notes, a) {
                        Some(li) => v.notes.remove(li),
                        None => v.notes,
                    },
                    ..v
                },
            )
        } else {
            Outcome::Stuck
        },
        PossibleChartSelection::Shape(i) => Outcome::Done(
            EditorView {
                shapes: v.shapes.map_values(
                    |sh: ShapeItem| if sh.label == Some(i) { ShapeItem { if_delete: true, ..sh } } else { sh },
                ),
                ..v
            },
        ),
    }
}

/// Marking the first `n` of `sels` deleted, one after the other.
pub open spec fn delete_upto(v: EditorView, sels: Seq<PossibleChartSelection>, n: nat) -> Outcome
    decreases n,
{
    if n == 0 {
        Outcome::Done(v)
    } else {
        match delete_upto(v, sels, (n - 1) as nat) {
            Outcome::Done(w) => delete_one(w, sels[n - 1]),
            o => o,
        }
    }
}

/// The change of the selected item of the chart on show by the
/// attributes `text`.
pub open spec fn change_selected(v: EditorView, text: Seq<char>) -> Outcome {
    match v.now_select {
        None => Outcome::Failed(v, Failure::System("no selection"@)),
        Some(PossibleChartSelection::Note(i, j)) => match list_index(v.shown.notes, i) {
            None => Outcome::Failed(v, Failure::System("invaild selection"@)),
            Some(li) => if j < v.shown.notes[li].notes.len() {
                Outcome::Done(with_edit(v, Target::ShownItem(v.shown.notes[li].notes[j as int].key), EditView::Merge(text)))
            } else {
                Outcome::Stuck
            },
        },
        Some(PossibleChartSelection::Shape(i)) => match shape_index(v.shown.shapes, i) {
            Some(k) => Outcome::Done(with_edit(v, Target::ShownItem(v.shown.shapes[k].key), EditView::Merge(text))),
            None => Outcome::Done(v),
        },
        Some(PossibleChartSelection::JudgeField(i)) => match field_index(v.shown.judge_fields, i) {
            Some(k) => Outcome::Done(with_edit(v, Target::ShownItem(v.shown.judge_fields[k].key), EditView::Merge(text))),
            None => Outcome::Done(v),
        },
    }
}

/// What the change of the selected item was (read before the change).
pub open spec fn delta_of(v: EditorView) -> DeltaType {
    match v.now_select {
        Some(PossibleChartSelection::Note(_, _)) => DeltaType::Note(v.edits.len() as usize),
        Some(PossibleChartSelection::Shape(i)) => if shape_index(v.shown.shapes, i) is Some {
            DeltaType::Shape(v.edits.len() as usize)
        } else {
            DeltaType::Nothing
        },
        Some(PossibleChartSelection::JudgeField(i)) => if field_index(v.shown.judge_fields, i) is Some {
            DeltaType::JudgeField(v.edits.len() as usize)
        } else {
            DeltaType::Nothing
        },
        None => DeltaType::Nothing,
    }
}

/// Moving one item of the chart on show by the change `d`, where it is of
/// the same kind.
pub open spec fn shift_one(v: EditorView, s: PossibleChartSelection, d: DeltaType) -> Outcome {
    match (s, d) {
        (PossibleChartSelection::Note(i, j), DeltaType::Note(p)) => match list_index(v.shown.notes, i) {
            None => Outcome::Failed(v, Failure::System("invaild selection"@)),
            Some(li) => if j < v.shown.notes[li].notes.len() {
                Outcome::Done(with_edit(v, Target::ShownItem(v.shown.notes[li].notes[j as int].key), EditView::Shift(p)))
            } else {
                Outcome::Stuck
            },
        },
        (PossibleChartSelection::Shape(i), DeltaType::Shape(p)) => match shape_index(v.shown.shapes, i) {
            Some(k) => Outcome::Done(with_edit(v, Target::ShownItem(v.shown.shapes[k].key), EditView::Shift(p))),
            None => Outcome::Done(v),
        },
        (PossibleChartSelection::JudgeField(i), DeltaType::JudgeField(p)) => match field_index(
            v.shown.judge_fields,
            i,
        ) {
            Some(k) => Outcome::Done(with_edit(v, Target::ShownItem(v.shown.judge_fields[k].key), EditView::Shift(p))),
            None => Outcome::Done(v),
        },
        _ => Outcome::Done(v),
    }
}

/// Moving the first `n` of `sels` by the change `d`, one after the other.
pub open spec fn shift_upto(v: EditorView, sels: Seq<PossibleChartSelection>, d: DeltaType, n: nat) -> Outcome
    decreases n,
{
    if n == 0 {
        Outcome::Done(v)
    } else {
        match shift_upto(v, sels, d, (n - 1) as nat) {
            Outcome::Done(w) => shift_one(w, sels[n - 1], d),
            o => o,
        }
    }
}

/// A change command: the selected item is changed, then the listed items
/// (the multiple selection where none are listed) follow.
pub open spec fn change(v: EditorView, targets: Option<Seq<PossibleChartSelection>>, text: Seq<char>) -> Outcome {
    let to_change = match targets {
        Some(t) => t,
        None => v.multi_select,
    };
    match change_selected(v, text) {
        Outcome::Done(w) => shift_upto(w, to_change, delta_of(v), to_change.len()),
        o => o,
    }
}

/// The time at which a new item starts: four beats before the editor's time.
pub open spec fn lead_in(v: EditorView) -> int {
    v.current_time - 4 * v.uspb
}

/// Whether `x` lies in the range of `i64`.
pub open spec fn fits_i64(x: int) -> bool {
    i64::MIN <= x <= i64::MAX
}

/// The edits after a new item of key `key` and kind `k` is given its
/// defaults and the attributes `text`.
pub open spec fn new_item_edits(v: EditorView, k: Kind, text: Seq<char>) -> Seq<(Target, EditView)> {
    let key = v.edits.len() as usize;
    v.edits.push((Target::Item(key), EditView::Inherit(k))).push((Target::Item(key), EditView::Merge(text)))
}

/// Adding an item of kind `k` with the attributes `text`.
pub open spec fn add_item(v: EditorView, k: Kind, text: Seq<char>) -> Outcome {
    let key = v.edits.len() as usize;
    let start = lead_in(v) as i64;
    let times_fit = fits_i64(4 * v.uspb) && fits_i64(lead_in(v));
    match k {
        Kind::Tap | Kind::Slide => match list_index(v.notes, v.now_judge_field_id) {
            None => Outcome::Failed(v, Failure::System("invaild judge field"@)),
            Some(li) => if times_fit && v.now_note_id < usize::MAX {
                let n = NoteItem { key, id: v.now_note_id, start_time: start, click_time: v.current_time, if_delete: false };
                Outcome::Done(
                    EditorView {
                        notes: v.notes.update(li, NoteListView { notes: v.notes[li].notes.push(n), ..v.notes[li] }),
                        edits: new_item_edits(v, k, text),
                        now_note_id: (v.now_note_id + 1) as usize,
                        ..v
                    },
                )
            } else {
                Outcome::Stuck
            },
        },
        Kind::JudgeField => if times_fit {
            let f = FieldItem { key, id: v.new_judge_field_id, start_time: start, end_time: v.current_time, if_delete: false };
            Outcome::Done(
                EditorView {
                    judge_fields: v.judge_fields.push(f),
                    edits: new_item_edits(v, k, text),
                    new_judge_field_id: (v.judge_fields.len() + 1) as usize,
                    ..v
                },
            )
        } else {
            Outcome::Stuck
        },
        _ => if times_fit && v.now_shape_id < usize::MAX {
            let s = ShapeItem {
                key,
                label: Some(v.now_shape_id),
                start_time: start,
                end_time: v.current_time,
                if_delete: false,
            };
            Outcome::Done(
                EditorView {
                    shapes: v.shapes.push(s),
                    edits: new_item_edits(v, k, text),
                    now_shape_id: (v.now_shape_id + 1) as usize,
                    ..v
                },
            )
        } else {
            Outcome::Stuck
        },
    }
}

/// The place in the history of the command that `Repeat { id, .. }`
/// repeats, if there is one.
pub open spec fn repeated_index(v: EditorView, id: usize) -> Option<int> {
    let i = if id == 0 { 1 } else { id as int };
    if i <= v.commands.len() {
        Some(v.commands.len() - i)
    } else {
        None
    }
}

/// Running `c` on `v`, where repetitions may nest `fuel` deep.
pub open spec fn run(v: EditorView, c: CommandView, fuel: nat) -> Outcome
    decreases fuel, usize::MAX as nat + 1,
{
    match c {
        CommandView::Change(t, text) => change(v, t, text),
        CommandView::Repeat(id, times) => match repeated_index(v, id) {
            None => Outcome::Failed(v, Failure::Invalid),
            Some(t) => replay(v, v.commands[t].1, if times == 0 { 1 } else { times as nat }, fuel),
        },
        CommandView::Default(k, text) => Outcome::Done(with_edit(v, Target::Default(k), EditView::Merge(text))),
        CommandView::Select(s) => Outcome::Done(EditorView { multi_select: s, ..v }),
        CommandView::Time(t) => Outcome::Done(EditorView { current_time: t, ..v }),
        CommandView::Add(k, text) => add_item(v, k, text),
        CommandView::Delete(s) => {
            let to_delete = match s {
                Some(t) => t,
                None => v.multi_select,
            };
            delete_upto(v, to_delete, to_delete.len())
        },
    }
}

/// Running `c` `n` times on `v`, stopping at the first failure.
pub open spec fn replay(v: EditorView, c: CommandView, n: nat, fuel: nat) -> Outcome
    decreases fuel, n,
{
    if n == 0 {
        Outcome::Done(v)
    } else {
        match replay(v, c, (n - 1) as nat, fuel) {
            Outcome::Done(w) => if fuel == 0 {
                Outcome::Stuck
            } else {
                run(w, c, (fuel - 1) as nat)
            },
            o => o,
        }
    }
}

/// Whether `c` ends on `v` when repetitions may nest deep enough.
pub open spec fn ends(v: EditorView, c: CommandView) -> bool {
    exists|f: nat| !(run(v, c, f) is Stuck)
}

/// The outcome of running `c` on `v`, where it ends.
pub open spec fn outcome(v: EditorView, c: CommandView) -> Outcome {
    run(v, c, choose|f: nat| !(run(v, c, f) is Stuck))
}

/// A failure stops a run of deletions: what it ends with is what the whole
/// run ends with.
proof fn lemma_delete_stops(v: EditorView, sels: Seq<PossibleChartSelection>, i: nat, n: nat)
    requires
        i <= n,
        !(delete_upto(v, sels, i) is Done),
    ensures
        delete_upto(v, sels, n) == delete_upto(v, sels, i),
    decreases n,
{
    if n > i {
        lemma_delete_stops(v, sels, i, (n - 1) as nat);
    }
}

/// A failure stops a run of moves: what it ends with is what the whole run
/// ends with.
proof fn lemma_shift_stops(v: EditorView, sels: Seq<PossibleChartSelection>, d: DeltaType, i: nat, n: nat)
    requires
        i <= n,
        !(shift_upto(v, sels, d, i) is Done),
    ensures
        shift_upto(v, sels, d, n) == shift_upto(v, sels, d, i),
    decreases n,
{
    if n > i {
        lemma_shift_stops(v, sels, d, i, (n - 1) as nat);
    }
}

/// A failure stops a repetition: what it ends with is what the whole
/// repetition ends with.
proof fn lemma_replay_stops(v: EditorView, c: CommandView, i: nat, n: nat, fuel: nat)
    requires
        i <= n,
        !(replay(v, c, i, fuel) is Done),
    ensures
        replay(v, c, n, fuel) == replay(v, c, i, fuel),
    decreases n,
{
    if n > i {
        lemma_replay_stops(v, c, i, (n - 1) as nat, fuel);
    }
}

/// One more move after a run of moves that went through.
proof fn lemma_shift_next(v: EditorView, sels: Seq<PossibleChartSelection>, d: DeltaType, k: nat, w: EditorView)
    requires
        shift_upto(v, sels, d, k) == Outcome::Done(w),
    ensures
        shift_upto(v, sels, d, k + 1) == shift_one(w, sels[k as int], d),
{
}

/// The place of the note list of judge field `field`, if there is one.
fn find_list(ls: &Vec<NoteList>, field: usize) -> (r: Option<usize>)
    requires
        unique_fields(lists_view(ls@)),
    ensures
        match r {
            Some(i) => list_index(lists_view(ls@), field) == Some(i as int) && i < ls.len(),
            None => list_index(lists_view(ls@), field) is None,
        },
{
    let ghost lv = lists_view(ls@);
    let mut i: usize = 0;
    while i < ls.len()
        invariant
            i <= ls.len(),
            lv == lists_view(ls@),
            unique_fields(lv),
            forall|j: int| 0 <= j < i ==> lv[j].field != field,
        decreases ls.len() - i,
    {
        if ls[i].field == field {
            proof {
                assert(lv[i as int].field == field);
                let c = choose|k: int| 0 <= k < lv.len() && lv[k].field == field;
                assert(0 <= c < lv.len() && lv[c].field == field);
                if c < i {
                    assert(lv[c].field != lv[i as int].field);
                } else if c > i {
                    assert(lv[i as int].field != lv[c].field);
                }
            }
            return Some(i);
        }
        assert(lv[i as int].field != field);
        i = i + 1;
    }
    None
}

/// The place of the first shape whose label is `label`, if there is one.
fn find_shape(ss: &Vec<ShapeItem>, label: usize) -> (r: Option<usize>)
    ensures
        match r {
            Some(i) => shape_index(ss@, label) == Some(i as int) && i < ss.len(),
            None => shape_index(ss@, label) is None,
        },
{
    let mut i: usize = 0;
    while i < ss.len()
        invariant
            i <= ss.len(),
            forall|j: int| 0 <= j < i ==> ss@[j].label != Some(label),
        decreases ss.len() - i,
    {
        if ss[i].label == Some(label) {
            proof {
                let p = |k: int|
                    0 <= k < ss@.len() && ss@[k].label == Some(label) && forall|j: int|
                        0 <= j < k ==> ss@[j].label != Some(label);
                assert(p(i as int));
                let c = choose|k: int|
                    0 <= k < ss@.len() && ss@[k].label == Some(label) && forall|j: int|
                        0 <= j < k ==> ss@[j].label != Some(label);
                assert(p(c));
                if c < i {
                    assert(ss@[c].label != Some(label));
                } else if c > i {
                    assert(ss@[i as int].label != Some(label));
                }
            }
            return Some(i);
        }
        i = i + 1;
    }
    None
}

/// The place of the first judge field of id `id`, if there is one.
fn find_field(fs: &Vec<FieldItem>, id: usize) -> (r: Option<usize>)
    ensures
        match r {
            Some(i) => field_index(fs@, id) == Some(i as int) && i < fs.len(),
            None => field_index(fs@, id) is None,
        },
{
    let mut i: usize = 0;
    while i < fs.len()
        invariant
            i <= fs.len(),
            forall|j: int| 0 <= j < i ==> fs@[j].id != id,
        decreases fs.len() - i,
    {
        if fs[i].id == id {
            proof {
                let p = |k: int|
                    0 <= k < fs@.len() && fs@[k].id == id && forall|j: int| 0 <= j < k ==> fs@[j].id != id;
                assert(p(i as int));
                let c = choose|k: int|
                    0 <= k < fs@.len() && fs@[k].id == id && forall|j: int| 0 <= j < k ==> fs@[j].id != id;
                assert(p(c));
                if c < i {
                    assert(fs@[c].id != id);
                } else if c > i {
                    assert(fs@[i as int].id != id);
                }
            }
            return Some(i);
        }
        i = i + 1;
    }
    None
}

/// Appends the edit `e` of target `t`.
fn push_edit(es: &mut Vec<(Target, Edit)>, t: Target, e: Edit)
    ensures
        edits_view(final(es)@) == edits_view(old(es)@).push((t, e@)),
{
    es.push((t, e));
    proof {
        assert(edits_view(es@) =~= edits_view(old(es)@).push((t, e@)));
    }
}

/// Puts `n` in place of note `j` of list `li`.
fn set_note(ls: &mut Vec<NoteList>, li: usize, j: usize, n: NoteItem)
    requires
        li < old(ls).len(),
        j < old(ls)@[li as int].notes.len(),
    ensures
        lists_view(final(ls)@) == lists_view(old(ls)@).update(
            li as int,
            NoteListView { notes: old(ls)@[li as int].notes@.update(j as int, n), ..old(ls)@[li as int]@ },
        ),
{
    let mut l = ls.remove(li);
    l.notes.set(j, n);
    ls.insert(li, l);
    proof {
        assert(lists_view(ls@) =~= lists_view(old(ls)@).update(
            li as int,
            NoteListView { notes: old(ls)@[li as int].notes@.update(j as int, n), ..old(ls)@[li as int]@ },
        ));
    }
}

/// Appends `n` to list `li`.
fn push_note(ls: &mut Vec<NoteList>, li: usize, n: NoteItem)
    requires
        li < old(ls).len(),
    ensures
        lists_view(final(ls)@) == lists_view(old(ls)@).update(
            li as int,
            NoteListView { notes: old(ls)@[li as int].notes@.push(n), ..old(ls)@[li as int]@ },
        ),
{
    let mut l = ls.remove(li);
    l.notes.push(n);
    ls.insert(li, l);
    proof {
        assert(lists_view(ls@) =~= lists_view(old(ls)@).update(
            li as int,
            NoteListView { notes: old(ls)@[li as int].notes@.push(n), ..old(ls)@[li as int]@ },
        ));
    }
}

/// Removes list `li`.
fn remove_list(ls: &mut Vec<NoteList>, li: usize)
    requires
        li < old(ls).len(),
    ensures
        lists_view(final(ls)@) == lists_view(old(ls)@).remove(li as int),
{
    let _ = ls.remove(li);
    proof {
        assert(lists_view(ls@) =~= lists_view(old(ls)@).remove(li as int));
    }
}

/// Marks deleted the shapes whose label is `label`.
fn mark_shapes(ss: &mut Vec<ShapeItem>, label: usize)
    ensures
        final(ss)@ == old(ss)@.map_values(
            |sh: ShapeItem| if sh.label == Some(label) { ShapeItem { if_delete: true, ..sh } } else { sh },
        ),
{
    let ghost f = |sh: ShapeItem| if sh.label == Some(label) { ShapeItem { if_delete: true, ..sh } } else { sh };
    let mut i: usize = 0;
    while i < ss.len()
        invariant
            i <= ss.len(),
            ss@.len() == old(ss)@.len(),
            f == (|sh: ShapeItem| if sh.label == Some(label) { ShapeItem { if_delete: true, ..sh } } else { sh }),
            forall|j: int| 0 <= j < i ==> ss@[j] == f(old(ss)@[j]),
            forall|j: int| i <= j < ss@.len() ==> ss@[j] == old(ss)@[j],
        decreases ss.len() - i,
    {
        if ss[i].label == Some(label) {
            let sh = ss[i];
            ss.set(i, ShapeItem { if_delete: true, ..sh });
        }
        i = i + 1;
    }
    proof {
        assert(ss@ =~= old(ss)@.map_values(f));
    }
}

/// A copy of a list of selections.
fn copy_selections(s: &Vec<PossibleChartSelection>) -> (r: Vec<PossibleChartSelection>)
    ensures
        r@ == s@,
{
    let mut r: Vec<PossibleChartSelection> = Vec::new();
    let mut i: usize = 0;
    while i < s.len()
        invariant
            i <= s.len(),
            r@ == s@.take(i as int),
        decreases s.len() - i,
    {
        r.push(s[i]);
        proof {
            assert(r@ =~= s@.take(i as int + 1));
        }
        i = i + 1;
    }
    proof {
        assert(s@.take(s@.len() as int) =~= s@);
    }
    r
}

/// A copy of an optional list of selections.
fn copy_optional(s: &Option<Vec<PossibleChartSelection>>) -> (r: Option<Vec<PossibleChartSelection>>)
    ensures
        selections_view(r) == selections_view(*s),
{
    match s {
        Some(v) => Some(copy_selections(v)),
        None => None,
    }
}

impl Clone for Command {
    fn clone(&self) -> (r: Self)
        ensures
            r@ == self@,
    {
        match self {
            Command::Change(s, t) => Command::Change(copy_optional(s), t.clone()),
            Command::Repeat { id, times } => Command::Repeat { id: *id, times: *times },
            Command::Default(k, t) => Command::Default(*k, t.clone()),
            Command::Select(s) => Command::Select(copy_selections(s)),
            Command::Time(t) => Command::Time(*t),
            Command::Add(k, t) => Command::Add(*k, t.clone()),
            Command::Delete(s) => Command::Delete(copy_optional(s)),
        }
    }
}

/// Changing one list, but not its judge field, keeps the judge fields of
/// the lists apart.
proof fn lemma_unique_update(ls: Seq<NoteListView>, li: int, l: NoteListView)
    requires
        unique_fields(ls),
        0 <= li < ls.len(),
        l.field == ls[li].field,
    ensures
        unique_fields(ls.update(li, l)),
{
    let u = ls.update(li, l);
    assert forall|i: int, j: int| 0 <= i < j < u.len() implies #[trigger] u[i].field != #[trigger] u[j].field by {
        assert(u[i].field == ls[i].field);
        assert(u[j].field == ls[j].field);
    }
}

/// Removing a list keeps the judge fields of the others apart.
proof fn lemma_unique_remove(ls: Seq<NoteListView>, li: int)
    requires
        unique_fields(ls),
        0 <= li < ls.len(),
    ensures
        unique_fields(ls.remove(li)),
{
    let u = ls.remove(li);
    assert forall|i: int, j: int| 0 <= i < j < u.len() implies #[trigger] u[i].field != #[trigger] u[j].field by {
        let oi = if i < li { i } else { i + 1 };
        let oj = if j < li { j } else { j + 1 };
        assert(u[i] == ls[oi]);
        assert(u[j] == ls[oj]);
        assert(ls[oi].field != ls[oj].field);
    }
}

/// Marks deleted the listed items, one after the other.
fn delete_exec(sels: &Vec<PossibleChartSelection>, ed: &mut EditorState) -> (r: Result<(), ShapoError>)
    requires
        wf(old(ed)@),
        !(delete_upto(old(ed)@, sels@, sels@.len()) is Stuck),
    ensures
        wf(final(ed)@),
        ends_as(delete_upto(old(ed)@, sels@, sels@.len()), final(ed)@, r),
        final(ed)@.commands == old(ed)@.commands,
{
    let ghost v0 = ed@;
    let mut i: usize = 0;
    while i < sels.len()
        invariant
            i <= sels.len(),
            wf(ed@),
            v0 == old(ed)@,
            ed@.commands == v0.commands,
            delete_upto(v0, sels@, i as nat) == Outcome::Done(ed@),
            !(delete_upto(v0, sels@, sels@.len()) is Stuck),
        decreases sels.len() - i,
    {
        let ghost before = ed@;
        assert(delete_upto(v0, sels@, (i + 1) as nat) == delete_one(before, sels@[i as int]));
        match sels[i] {
            PossibleChartSelection::Note(a, b) => {
                match find_list(&ed.notes, a) {
                    None => {
                        proof {
                            lemma_delete_stops(v0, sels@, (i + 1) as nat, sels@.len());
                        }
                        return Err(ShapoError::SystemError(String::from_str("invaild judge field")));
                    },
                    Some(li) => {
                        proof {
                            if b >= ed.notes@[li as int].notes@.len() {
                                lemma_delete_stops(v0, sels@, (i + 1) as nat, sels@.len());
                            }
                        }
                        let n = ed.notes[li].notes[b];
                        set_note(&mut ed.notes, li, b, NoteItem { if_delete: true, ..n });
                        proof {
                            lemma_unique_update(
                                before.notes,
                                li as int,
                                NoteListView { notes: before.notes[li as int].notes.update(b as int, NoteItem { if_delete: true, ..n }), ..before.notes[li as int] },
                            );
                        }
                    },
                }
            },
            PossibleChartSelection::JudgeField(a) => {
                proof {
                    if a >= ed.judge_fields.len() {
                        lemma_delete_stops(v0, sels@, (i + 1) as nat, sels@.len());
                    }
                }
                let fi = ed.judge_fields[a];
                ed.judge_fields.set(a, FieldItem { if_delete: true, ..fi });
                match find_list(&ed.notes, a) {
                    Some(li) => {
                        remove_list(&mut ed.notes, li);
                        proof {
                            lemma_unique_remove(before.notes, li as int);
                        }
                    },
                    None => {},
                }
            },
            PossibleChartSelection::Shape(l) => {
                mark_shapes(&mut ed.shapes, l);
            },
        }
        i = i + 1;
    }
    Ok(())
}

/// Changes the selected item by the attributes `text`, and the listed items
/// (the multiple selection where none are listed) by the same amount.
fn change_exec(targets: &Option<Vec<PossibleChartSelection>>, text: &String, ed: &mut EditorState) -> (r: Result<
    (),
    ShapoError,
>)
    requires
        wf(old(ed)@),
        !(change(old(ed)@, selections_view(*targets), text@) is Stuck),
    ensures
        wf(final(ed)@),
        ends_as(change(old(ed)@, selections_view(*targets), text@), final(ed)@, r),
        final(ed)@.commands == old(ed)@.commands,
{
    let ghost v0 = ed@;
    let to_change = match targets {
        Some(t) => copy_selections(t),
        None => copy_selections(&ed.multi_select),
    };
    let delta: DeltaType;
    match ed.now_select {
        None => {
            return Err(ShapoError::SystemError(String::from_str("no selection")));
        },
        Some(PossibleChartSelection::Note(i, j)) => {
            match find_list(&ed.shown.notes, i) {
                None => {
                    return Err(ShapoError::SystemError(String::from_str("invaild selection")));
                },
                Some(li) => {
                    let key = ed.shown.notes[li].notes[j].key;
                    delta = DeltaType::Note(ed.edits.len());
                    push_edit(&mut ed.edits, Target::ShownItem(key), Edit::Merge(text.clone()));
                },
            }
        },
        Some(PossibleChartSelection::Shape(i)) => {
            match find_shape(&ed.shown.shapes, i) {
                Some(k) => {
                    let key = ed.shown.shapes[k].key;
                    delta = DeltaType::Shape(ed.edits.len());
                    push_edit(&mut ed.edits, Target::ShownItem(key), Edit::Merge(text.clone()));
                },
                None => {
                    delta = DeltaType::Nothing;
                },
            }
        },
        Some(PossibleChartSelection::JudgeField(i)) => {
            match find_field(&ed.shown.judge_fields, i) {
                Some(k) => {
                    let key = ed.shown.judge_fields[k].key;
                    delta = DeltaType::JudgeField(ed.edits.len());
                    push_edit(&mut ed.edits, Target::ShownItem(key), Edit::Merge(text.clone()));
                },
                None => {
                    delta = DeltaType::Nothing;
                },
            }
        },
    }
    assert(delta == delta_of(v0));
    assert(change_selected(v0, text@) == Outcome::Done(ed@));
    let ghost w0 = ed@;
    let mut k: usize = 0;
    while k < to_change.len()
        invariant
            k <= to_change.len(),
            wf(ed@),
            v0 == old(ed)@,
            ed@.commands == v0.commands,
            change(v0, selections_view(*targets), text@) == shift_upto(w0, to_change@, delta, to_change@.len()),
            shift_upto(w0, to_change@, delta, k as nat) == Outcome::Done(ed@),
            !(shift_upto(w0, to_change@, delta, to_change@.len()) is Stuck),
        decreases to_change.len() - k,
    {
        let ghost before = ed@;
        proof {
            lemma_shift_next(w0, to_change@, delta, k as nat, before);
        }
        match (to_change[k], delta) {
            (PossibleChartSelection::Note(i, j), DeltaType::Note(p)) => {
                match find_list(&ed.shown.notes, i) {
                    None => {
                        proof {
                            lemma_shift_stops(w0, to_change@, delta, (k + 1) as nat, to_change@.len());
                        }
                        return Err(ShapoError::SystemError(String::from_str("invaild selection")));
                    },
                    Some(li) => {
                        proof {
                            if j >= ed.shown.notes@[li as int].notes@.len() {
                                lemma_shift_stops(w0, to_change@, delta, (k + 1) as nat, to_change@.len());
                            }
                        }
                        let key = ed.shown.notes[li].notes[j].key;
                        push_edit(&mut ed.edits, Target::ShownItem(key), Edit::Shift(p));
                    },
                }
            },
            (PossibleChartSelection::Shape(i), DeltaType::Shape(p)) => {
                match find_shape(&ed.shown.shapes, i) {
                    Some(s) => {
                        let key = ed.shown.shapes[s].key;
                        push_edit(&mut ed.edits, Target::ShownItem(key), Edit::Shift(p));
                    },
                    None => {},
                }
            },
            (PossibleChartSelection::JudgeField(i), DeltaType::JudgeField(p)) => {
                match find_field(&ed.shown.judge_fields, i) {
                    Some(s) => {
                        let key = ed.shown.judge_fields[s].key;
                        push_edit(&mut ed.edits, Target::ShownItem(key), Edit::Shift(p));
                    },
                    None => {},
                }
            },
            _ => {},
        }
        k = k + 1;
    }
    Ok(())
}

/// Adds an item of kind `k` with the attributes `text`.
fn add_exec(k: Kind, text: &String, ed: &mut EditorState) -> (r: Result<(), ShapoError>)
    requires
        wf(old(ed)@),
        !(add_item(old(ed)@, k, text@) is Stuck),
    ensures
        wf(final(ed)@),
        ends_as(add_item(old(ed)@, k, text@), final(ed)@, r),
        final(ed)@.commands == old(ed)@.commands,
{
    let ghost v0 = ed@;
    let key = ed.edits.len();
    match k {
        Kind::Tap | Kind::Slide => {
            match find_list(&ed.notes, ed.now_judge_field_id) {
                None => {
                    return Err(ShapoError::SystemError(String::from_str("invaild judge field")));
                },
                Some(li) => {
                    let start = ed.current_time - 4 * ed.uspb;
                    let n = NoteItem {
                        key,
                        id: ed.now_note_id,
                        start_time: start,
                        click_time: ed.current_time,
                        if_delete: false,
                    };
                    push_note(&mut ed.notes, li, n);
                    ed.now_note_id = ed.now_note_id + 1;
                    proof {
                        lemma_unique_update(
                            v0.notes,
                            li as int,
                            NoteListView { notes: v0.notes[li as int].notes.push(n), ..v0.notes[li as int] },
                        );
                    }
                },
            }
        },
        Kind::JudgeField => {
            let start = ed.current_time - 4 * ed.uspb;
            let f = FieldItem {
                key,
                id: ed.new_judge_field_id,
                start_time: start,
                end_time: ed.current_time,
                if_delete: false,
            };
            ed.judge_fields.push(f);
            ed.new_judge_field_id = ed.judge_fields.len();
        },
        _ => {
            let start = ed.current_time - 4 * ed.uspb;
            let s = ShapeItem {
                key,
                label: Some(ed.now_shape_id),
                start_time: start,
                end_time: ed.current_time,
                if_delete: false,
            };
            ed.shapes.push(s);
            ed.now_shape_id = ed.now_shape_id + 1;
        },
    }
    push_edit(&mut ed.edits, Target::Item(key), Edit::Inherit(k));
    push_edit(&mut ed.edits, Target::Item(key), Edit::Merge(text.clone()));
    Ok(())
}

/// Runs `cmd` on the editor, where repetitions may nest `fuel` deep.
fn run_exec(cmd: &Command, ed: &mut EditorState, Ghost(fuel): Ghost<nat>) -> (r: Result<(), ShapoError>)
    requires
        wf(old(ed)@),
        !(run(old(ed)@, cmd@, fuel) is Stuck),
    ensures
        wf(final(ed)@),
        ends_as(run(old(ed)@, cmd@, fuel), final(ed)@, r),
        final(ed)@.commands == old(ed)@.commands,
    decreases fuel,
{
    match cmd {
        Command::Change(t, text) => change_exec(t, text, ed),
        Command::Repeat { id, times } => {
            let i: usize = if *id == 0 {
                1
            } else {
                *id
            };
            if i > ed.commands.len() {
                return Err(ShapoError::ParseError(ParseError::InvaildCommand));
            }
            let t = ed.commands.len() - i;
            let c = ed.commands[t].1.clone();
            let n: usize = if *times == 0 {
                1
            } else {
                *times
            };
            let ghost v0 = ed@;
            assert(c@ == v0.commands[t as int].1);
            let mut j: usize = 0;
            while j < n
                invariant
                    j <= n,
                    wf(ed@),
                    v0 == old(ed)@,
                    ed@.commands == v0.commands,
                    run(v0, cmd@, fuel) == replay(v0, c@, n as nat, fuel),
                    replay(v0, c@, j as nat, fuel) == Outcome::Done(ed@),
                    !(replay(v0, c@, n as nat, fuel) is Stuck),
                decreases n - j,
            {
                proof {
                    if fuel == 0 || run(ed@, c@, (fuel - 1) as nat) is Stuck {
                        lemma_replay_stops(v0, c@, (j + 1) as nat, n as nat, fuel);
                    }
                }
                let r = run_exec(&c, ed, Ghost((fuel - 1) as nat));
                if r.is_err() {
                    proof {
                        lemma_replay_stops(v0, c@, (j + 1) as nat, n as nat, fuel);
                    }
                    return r;
                }
                j = j + 1;
            }
            Ok(())
        },
        Command::Default(k, text) => {
            push_edit(&mut ed.edits, Target::Default(*k), Edit::Merge(text.clone()));
            Ok(())
        },
        Command::Select(s) => {
            ed.multi_select = copy_selections(s);
            Ok(())
        },
        Command::Time(t) => {
            ed.current_time = *t;
            Ok(())
        },
        Command::Add(k, text) => add_exec(*k, text, ed),
        Command::Delete(s) => match s {
            Some(v) => delete_exec(v, ed),
            None => {
                let v = copy_selections(&ed.multi_select);
                delete_exec(&v, ed)
            },
        },
    }
}

/// Runs the command `cmd`, read from the text `input`, on the editor, and
/// records it in the history where it succeeds and `if_save_command` holds.
/// A command that fails leaves what it had done before the failure.
pub fn apply_command(cmd: Command, editor: &mut EditorState, input: String, if_save_command: bool) -> (r: Result<
    (),
    ShapoError,
>)
    requires
        wf(old(editor)@),
        ends(old(editor)@, cmd@),
    ensures
        wf(final(editor)@),
        match outcome(old(editor)@, cmd@) {
            Outcome::Done(v) => r is Ok && final(editor)@ == (if if_save_command {
                EditorView { commands: v.commands.push((input@, cmd@)), ..v }
            } else {
                v
            }),
            Outcome::Failed(v, f) => reports(r, f) && final(editor)@ == v,
            Outcome::Stuck => false,
        },
        final(editor)@.commands == (if r is Ok && if_save_command {
            old(editor)@.commands.push((input@, cmd@))
        } else {
            old(editor)@.commands
        }),
{
    let ghost f = choose|f: nat| !(run(old(editor)@, cmd@, f) is Stuck);
    let r = run_exec(&cmd, editor, Ghost(f));
    if r.is_ok() && if_save_command {
        let ghost before = editor.commands@;
        editor.commands.push((input, cmd));
        proof {
            assert(history_view(editor.commands@) =~= history_view(before).push((input@, cmd@)));
        }
    }
    r
}

/// `s` cut at each `sep` into its pieces, in order (an empty piece where
/// two separators meet or one stands at either end).
pub open spec fn split_on(s: Seq<char>, sep: char) -> Seq<Seq<char>>
    decreases s.len(),
{
    if s.len() == 0 {
        seq![Seq::empty()]
    } else {
        let init = split_on(s.drop_last(), sep);
        if s.last() == sep {
            init.push(Seq::empty())
        } else {
            init.update(init.len() - 1, init.last().push(s.last()))
        }
    }
}

/// There is always at least one piece.
proof fn lemma_split_nonempty(s: Seq<char>, sep: char)
    ensures
        split_on(s, sep).len() >= 1,
    decreases s.len(),
{
    if s.len() > 0 {
        lemma_split_nonempty(s.drop_last(), sep);
    }
}

/// Whether `c` is a decimal digit.
pub open spec fn is_digit(c: char) -> bool {
    '0' <= c <= '9'
}

/// The number that the decimal digits `w` spell.
pub open spec fn digits_value(w: Seq<char>) -> nat
    decreases w.len(),
{
    if w.len() == 0 {
        0
    } else {
        digits_value(w.drop_last()) * 10 + (w.last() as nat - '0' as nat) as nat
    }
}

/// The number that the word `w` spells, where it is made of decimal digits.
pub open spec fn digits_word(w: Seq<char>) -> Option<nat> {
    if w.len() > 0 && forall|i: int| 0 <= i < w.len() ==> is_digit(#[trigger] w[i]) {
        Some(digits_value(w))
    } else {
        None
    }
}

/// `w` without the plus sign that may stand in front of its digits.
pub open spec fn unsigned_part(w: Seq<char>) -> Seq<char> {
    if w.len() > 0 && w[0] == '+' {
        w.drop_first()
    } else {
        w
    }
}

/// The `usize` that std's `str::parse` reads from the word `w`: an optional
/// plus sign and one or more ASCII digits whose number fits.
pub open spec fn usize_text(w: Seq<char>) -> Option<usize> {
    match digits_word(unsigned_part(w)) {
        Some(n) => if n <= usize::MAX {
            Some(n as usize)
        } else {
            None
        },
        None => None,
    }
}

/// The `i64` that std's `str::parse` reads from the word `w`: an optional
/// sign and one or more ASCII digits whose number fits.
pub open spec fn i64_text(w: Seq<char>) -> Option<i64> {
    if w.len() > 0 && w[0] == '-' {
        match digits_word(w.drop_first()) {
            Some(n) => if n <= 0x8000_0000_0000_0000 {
                Some((-n) as i64)
            } else {
                None
            },
            None => None,
        }
    } else {
        match digits_word(unsigned_part(w)) {
            Some(n) => if n <= i64::MAX {
                Some(n as i64)
            } else {
                None
            },
            None => None,
        }
    }
}

/// `str::parse::<usize>` on the text of the characters `w`. std reads an
/// optional `+` followed by one or more ASCII digits, and fails on anything
/// else and on a number beyond `usize::MAX`; the error value itself is left
/// unsaid.
#[verifier::external_body]
fn parse_usize(w: &Vec<char>) -> (r: Result<usize, std::num::ParseIntError>)
    ensures
        match usize_text(w@) {
            Some(n) => r == Ok::<usize, std::num::ParseIntError>(n),
            None => r is Err,
        },
{
    w.iter().collect::<String>().parse::<usize>()
}

/// `str::parse::<i64>` on the text of the characters `w`. std reads an
/// optional `+` or `-` followed by one or more ASCII digits, and fails on
/// anything else and on a number outside the range of `i64`; the error value
/// itself is left unsaid.
#[verifier::external_body]
fn parse_i64(w: &Vec<char>) -> (r: Result<i64, std::num::ParseIntError>)
    ensures
        match i64_text(w@) {
            Some(n) => r == Ok::<i64, std::num::ParseIntError>(n),
            None => r is Err,
        },
{
    w.iter().collect::<String>().parse::<i64>()
}

/// The kind that the word `w` names.
pub open spec fn kind_word(w: Seq<char>) -> Option<Kind> {
    if w == "tap"@ {
        Some(Kind::Tap)
    } else if w == "slide"@ {
        Some(Kind::Slide)
    } else if w == "rectangle"@ {
        Some(Kind::Rectangle)
    } else if w == "circle"@ {
        Some(Kind::Circle)
    } else if w == "bezier_curve"@ {
        Some(Kind::BezierCurve)
    } else if w == "image"@ {
        Some(Kind::Image)
    } else if w == "text"@ {
        Some(Kind::Text)
    } else if w == "judge_field"@ {
        Some(Kind::JudgeField)
    } else {
        None
    }
}

/// Whether the word `w` has the form of an item: `note:F:I` (note `I` of
/// judge field `F`), `shape:L` or `field:J`, whatever stands in the places
/// of the numbers.
pub open spec fn item_shape(w: Seq<char>) -> bool {
    let q = split_on(w, ':');
    ||| q.len() == 3 && q[0] == "note"@
    ||| q.len() == 2 && q[0] == "shape"@
    ||| q.len() == 2 && q[0] == "field"@
}

/// The item that the word `w`, which has the form of an item, names; none
/// where one of its numbers does not read.
pub open spec fn item_value(w: Seq<char>) -> Option<PossibleChartSelection> {
    let q = split_on(w, ':');
    if q[0] == "note"@ {
        match (usize_text(q[1]), usize_text(q[2])) {
            (Some(f), Some(i)) => Some(PossibleChartSelection::Note(f, i)),
            _ => None,
        }
    } else if q[0] == "shape"@ {
        match usize_text(q[1]) {
            Some(l) => Some(PossibleChartSelection::Shape(l)),
            None => None,
        }
    } else {
        match usize_text(q[1]) {
            Some(j) => Some(PossibleChartSelection::JudgeField(j)),
            None => None,
        }
    }
}

/// Whether every word of `ws` has the form of an item.
pub open spec fn items_shaped(ws: Seq<Seq<char>>) -> bool {
    forall|i: int| 0 <= i < ws.len() ==> item_shape(#[trigger] ws[i])
}

/// The items that the words `ws` name; none where a number of one of them
/// does not read.
pub open spec fn items_value(ws: Seq<Seq<char>>) -> Option<Seq<PossibleChartSelection>>
    decreases ws.len(),
{
    if ws.len() == 0 {
        Some(Seq::empty())
    } else {
        match (items_value(ws.drop_last()), item_value(ws.last())) {
            (Some(a), Some(b)) => Some(a.push(b)),
            _ => None,
        }
    }
}

/// What reading a text gives: a command, a number that does not read, or
/// text that is not a command.
pub enum Reading {
    Command(CommandView),
    NaN,
    Invalid,
}

/// Reading a list of items separated by commas, to be used by `f`.
pub open spec fn read_list(w: Seq<char>, f: spec_fn(Seq<PossibleChartSelection>) -> CommandView) -> Reading {
    let items = split_on(w, ',');
    if !items_shaped(items) {
        Reading::Invalid
    } else {
        match items_value(items) {
            Some(l) => Reading::Command(f(l)),
            None => Reading::NaN,
        }
    }
}

/// The text after the first two words of `s`.
pub open spec fn rest_after_two(s: Seq<char>, ws: Seq<Seq<char>>) -> Option<Seq<char>> {
    let from = ws[0].len() + ws[1].len() + 2;
    if from <= s.len() {
        Some(s.skip(from as int))
    } else {
        None
    }
}

/// What the text `s` writes. Words are separated by single spaces:
/// `repeat [I [K]]`, `time T`, `select LIST`, `delete [LIST]`,
/// `change selected|LIST ATTRIBUTES`, `add KIND ATTRIBUTES`,
/// `default KIND ATTRIBUTES`, where a LIST is items separated by commas
/// (`note:F:I`, `shape:L`, `field:J`), a KIND is one of `tap`, `slide`,
/// `rectangle`, `circle`, `bezier_curve`, `image`, `text`, `judge_field`,
/// and ATTRIBUTES is the rest of the text, in TOML. Text of another form is
/// no command; in a text of one of these forms, a number (`I`, `K`, `T`, or
/// one in an item) that std does not read as a `usize` (an `i64` for `T`)
/// makes the reading fail as a number that does not read.
pub open spec fn command_text(s: Seq<char>) -> Reading {
    let ws = split_on(s, ' ');
    let n = ws.len();
    if ws[0] == "repeat"@ {
        if n == 1 {
            Reading::Command(CommandView::Repeat(1, 1))
        } else if n == 2 {
            match usize_text(ws[1]) {
                Some(i) => Reading::Command(CommandView::Repeat(i, 1)),
                None => Reading::NaN,
            }
        } else if n == 3 {
            match (usize_text(ws[1]), usize_text(ws[2])) {
                (Some(i), Some(k)) => Reading::Command(CommandView::Repeat(i, k)),
                _ => Reading::NaN,
            }
        } else {
            Reading::Invalid
        }
    } else if ws[0] == "time"@ {
        if n == 2 {
            match i64_text(ws[1]) {
                Some(t) => Reading::Command(CommandView::Time(t)),
                None => Reading::NaN,
            }
        } else {
            Reading::Invalid
        }
    } else if ws[0] == "select"@ {
        if n == 2 {
            read_list(ws[1], |l: Seq<PossibleChartSelection>| CommandView::Select(l))
        } else {
            Reading::Invalid
        }
    } else if ws[0] == "delete"@ {
        if n == 1 {
            Reading::Command(CommandView::Delete(None))
        } else if n == 2 {
            read_list(ws[1], |l: Seq<PossibleChartSelection>| CommandView::Delete(Some(l)))
        } else {
            Reading::Invalid
        }
    } else if ws[0] == "change"@ && n >= 3 {
        match rest_after_two(s, ws) {
            Some(rest) => if ws[1] == "selected"@ {
                Reading::Command(CommandView::Change(None, rest))
            } else {
                read_list(ws[1], |l: Seq<PossibleChartSelection>| CommandView::Change(Some(l), rest))
            },
            None => Reading::Invalid,
        }
    } else if ws[0] == "add"@ && n >= 3 {
        match (kind_word(ws[1]), rest_after_two(s, ws)) {
            (Some(k), Some(rest)) => Reading::Command(CommandView::Add(k, rest)),
            _ => Reading::Invalid,
        }
    } else if ws[0] == "default"@ && n >= 3 {
        match (kind_word(ws[1]), rest_after_two(s, ws)) {
            (Some(k), Some(rest)) => Reading::Command(CommandView::Default(k, rest)),
            _ => Reading::Invalid,
        }
    } else {
        Reading::Invalid
    }
}

/// The abstract values of words.
pub open spec fn words_view(ws: Seq<Vec<char>>) -> Seq<Seq<char>> {
    ws.map_values(|w: Vec<char>| w@)
}

/// A number that does not read stops the reading of a list: each longer
/// part of it fails too.
proof fn lemma_items_fail(ws: Seq<Seq<char>>, i: nat, n: nat)
    requires
        i <= n <= ws.len(),
        items_value(ws.take(i as int)) is None,
    ensures
        items_value(ws.take(n as int)) is None,
    decreases n,
{
    if n > i {
        lemma_items_fail(ws, i, (n - 1) as nat);
        assert(ws.take(n as int).drop_last() =~= ws.take(n - 1));
    }
}

/// The characters of `s`.
fn chars_of(s: &str) -> (r: Vec<char>)
    ensures
        r@ == s@,
{
    let n = s.unicode_len();
    let mut r: Vec<char> = Vec::new();
    let mut i: usize = 0;
    while i < n
        invariant
            i <= n,
            n == s@.len(),
            r@ == s@.take(i as int),
        decreases n - i,
    {
        r.push(s.get_char(i));
        proof {
            assert(r@ =~= s@.take(i as int + 1));
        }
        i = i + 1;
    }
    proof {
        assert(s@.take(n as int) =~= s@);
    }
    r
}

/// `s` cut at each `sep` into its pieces.
fn split_chars(s: &Vec<char>, sep: char) -> (r: Vec<Vec<char>>)
    ensures
        words_view(r@) == split_on(s@, sep),
{
    let mut parts: Vec<Vec<char>> = Vec::new();
    let mut cur: Vec<char> = Vec::new();
    let mut i: usize = 0;
    proof {
        assert(words_view(parts@).push(cur@) =~= split_on(s@.take(0), sep));
    }
    while i < s.len()
        invariant
            i <= s.len(),
            words_view(parts@).push(cur@) == split_on(s@.take(i as int), sep),
        decreases s.len() - i,
    {
        let ghost before = words_view(parts@).push(cur@);
        proof {
            assert(s@.take(i as int + 1).drop_last() =~= s@.take(i as int));
        }
        if s[i] == sep {
            parts.push(cur);
            cur = Vec::new();
            proof {
                assert(words_view(parts@).push(cur@) =~= before.push(Seq::empty()));
            }
        } else {
            cur.push(s[i]);
            proof {
                assert(words_view(parts@).push(cur@) =~= before.update(before.len() - 1, before.last().push(s@[i as int])));
            }
        }
        i = i + 1;
    }
    let ghost last = words_view(parts@).push(cur@);
    parts.push(cur);
    proof {
        assert(s@.take(s@.len() as int) =~= s@);
        assert(words_view(parts@) =~= last);
    }
    parts
}

/// Whether the word `w` is `lit`.
fn word_is(w: &Vec<char>, lit: &str) -> (r: bool)
    ensures
        r == (w@ == lit@),
{
    let n = lit.unicode_len();
    if w.len() != n {
        return false;
    }
    let mut i: usize = 0;
    while i < n
        invariant
            n == lit@.len(),
            w@.len() == n,
            i <= n,
            forall|j: int| 0 <= j < i ==> w@[j] == lit@[j],
        decreases n - i,
    {
        if w[i] != lit.get_char(i) {
            return false;
        }
        i = i + 1;
    }
    proof {
        assert(w@ =~= lit@);
    }
    true
}

/// The kind that the word `w` names.
fn kind_of(w: &Vec<char>) -> (r: Option<Kind>)
    ensures
        r == kind_word(w@),
{
    if word_is(w, "tap") {
        Some(Kind::Tap)
    } else if word_is(w, "slide") {
        Some(Kind::Slide)
    } else if word_is(w, "rectangle") {
        Some(Kind::Rectangle)
    } else if word_is(w, "circle") {
        Some(Kind::Circle)
    } else if word_is(w, "bezier_curve") {
        Some(Kind::BezierCurve)
    } else if word_is(w, "image") {
        Some(Kind::Image)
    } else if word_is(w, "text") {
        Some(Kind::Text)
    } else if word_is(w, "judge_field") {
        Some(Kind::JudgeField)
    } else {
        None
    }
}

/// Whether the word `w` has the form of an item.
fn item_shape_of(w: &Vec<char>) -> (r: bool)
    ensures
        r == item_shape(w@),
{
    let q = split_chars(w, ':');
    proof {
        lemma_split_nonempty(w@, ':');
    }
    (q.len() == 3 && word_is(&q[0], "note")) || (q.len() == 2 && word_is(&q[0], "shape")) || (q.len() == 2
        && word_is(&q[0], "field"))
}

/// The item that the word `w`, which has the form of an item, names, or the
/// error of reading one of its numbers.
fn item_value_of(w: &Vec<char>) -> (r: Result<PossibleChartSelection, std::num::ParseIntError>)
    requires
        item_shape(w@),
    ensures
        match item_value(w@) {
            Some(x) => r matches Ok(y) && y == x,
            None => r is Err,
        },
{
    let q = split_chars(w, ':');
    proof {
        lemma_split_nonempty(w@, ':');
        reveal_strlit("note");
        reveal_strlit("shape");
        reveal_strlit("field");
        assert("note"@ != "shape"@ && "note"@ != "field"@ && "shape"@ != "field"@) by {
            assert("note"@[0] != "shape"@[0] && "note"@[0] != "field"@[0] && "shape"@[0] != "field"@[0]);
        }
    }
    if word_is(&q[0], "note") {
        let f = match parse_usize(&q[1]) {
            Ok(f) => f,
            Err(e) => return Err(e),
        };
        let i = match parse_usize(&q[2]) {
            Ok(i) => i,
            Err(e) => return Err(e),
        };
        Ok(PossibleChartSelection::Note(f, i))
    } else if word_is(&q[0], "shape") {
        match parse_usize(&q[1]) {
            Ok(l) => Ok(PossibleChartSelection::Shape(l)),
            Err(e) => Err(e),
        }
    } else {
        match parse_usize(&q[1]) {
            Ok(j) => Ok(PossibleChartSelection::JudgeField(j)),
            Err(e) => Err(e),
        }
    }
}

/// The items that the word `w` lists, separated by commas: refused as an
/// invalid command where a word is not an item, and as a number that does
/// not read where one of their numbers does not read.
fn list_of(w: &Vec<char>) -> (r: Result<Vec<PossibleChartSelection>, ShapoError>)
    ensures
        !items_shaped(split_on(w@, ',')) ==> r matches Err(ShapoError::ParseError(ParseError::InvaildCommand)),
        items_shaped(split_on(w@, ',')) ==> match items_value(split_on(w@, ',')) {
            Some(l) => r matches Ok(v) && v@ == l,
            None => r matches Err(ShapoError::ParseError(ParseError::NaN(_))),
        },
{
    let parts = split_chars(w, ',');
    let ghost wv = words_view(parts@);
    let mut i: usize = 0;
    while i < parts.len()
        invariant
            i <= parts.len(),
            wv == words_view(parts@),
            wv == split_on(w@, ','),
            forall|j: int| 0 <= j < i ==> item_shape(#[trigger] wv[j]),
        decreases parts.len() - i,
    {
        if !item_shape_of(&parts[i]) {
            proof {
                assert(!item_shape(wv[i as int]));
            }
            return Err(ShapoError::ParseError(ParseError::InvaildCommand));
        }
        i = i + 1;
    }
    let mut out: Vec<PossibleChartSelection> = Vec::new();
    let mut i: usize = 0;
    proof {
        assert(wv.take(0) =~= Seq::<Seq<char>>::empty());
    }
    while i < parts.len()
        invariant
            i <= parts.len(),
            wv == words_view(parts@),
            wv == split_on(w@, ','),
            items_shaped(wv),
            items_value(wv.take(i as int)) == Some(out@),
        decreases parts.len() - i,
    {
        proof {
            assert(wv.take(i as int + 1).drop_last() =~= wv.take(i as int));
            assert(wv.take(i as int + 1).last() == parts@[i as int]@);
            assert(item_shape(wv[i as int]));
        }
        match item_value_of(&parts[i]) {
            Ok(x) => {
                out.push(x);
            },
            Err(e) => {
                proof {
                    lemma_items_fail(wv, (i + 1) as nat, wv.len());
                    assert(wv.take(wv.len() as int) =~= wv);
                }
                return Err(ShapoError::ParseError(ParseError::NaN(e)));
            },
        }
        i = i + 1;
    }
    proof {
        assert(wv.take(wv.len() as int) =~= wv);
    }
    Ok(out)
}

/// Whether `r` is what reading `m` owes.
pub open spec fn read_as(m: Reading, r: Result<Command, ShapoError>) -> bool {
    match m {
        Reading::Command(c) => r matches Ok(x) && x@ == c,
        Reading::NaN => r matches Err(ShapoError::ParseError(ParseError::NaN(_))),
        Reading::Invalid => r matches Err(ShapoError::ParseError(ParseError::InvaildCommand)),
    }
}

/// The reader of the editor's command language.
pub struct CommandParser;

impl CommandParser {
    /// The command that `input` writes (see [`command_text`]): text that is
    /// no command is refused as an invalid command, and a number that does
    /// not read is reported with std's error.
    pub fn parse(input: &String) -> (r: Result<Command, ShapoError>)
        ensures
            read_as(command_text(input@), r),
    {
        let text = input.as_str();
        let s = chars_of(text);
        let ws = split_chars(&s, ' ');
        proof {
            lemma_split_nonempty(s@, ' ');
        }
        let n = ws.len();
        let invalid = Err(ShapoError::ParseError(ParseError::InvaildCommand));
        if word_is(&ws[0], "repeat") {
            if n == 1 {
                Ok(Command::Repeat { id: 1, times: 1 })
            } else if n == 2 {
                match parse_usize(&ws[1]) {
                    Ok(i) => Ok(Command::Repeat { id: i, times: 1 }),
                    Err(e) => Err(ShapoError::ParseError(ParseError::NaN(e))),
                }
            } else if n == 3 {
                let i = match parse_usize(&ws[1]) {
                    Ok(i) => i,
                    Err(e) => return Err(ShapoError::ParseError(ParseError::NaN(e))),
                };
                match parse_usize(&ws[2]) {
                    Ok(k) => Ok(Command::Repeat { id: i, times: k }),
                    Err(e) => Err(ShapoError::ParseError(ParseError::NaN(e))),
                }
            } else {
                invalid
            }
        } else if word_is(&ws[0], "time") {
            if n == 2 {
                match parse_i64(&ws[1]) {
                    Ok(t) => Ok(Command::Time(t)),
                    Err(e) => Err(ShapoError::ParseError(ParseError::NaN(e))),
                }
            } else {
                invalid
            }
        } else if word_is(&ws[0], "select") {
            if n == 2 {
                match list_of(&ws[1]) {
                    Ok(l) => Ok(Command::Select(l)),
                    Err(e) => Err(e),
                }
            } else {
                invalid
            }
        } else if word_is(&ws[0], "delete") {
            if n == 1 {
                Ok(Command::Delete(None))
            } else if n == 2 {
                match list_of(&ws[1]) {
                    Ok(l) => Ok(Command::Delete(Some(l))),
                    Err(e) => Err(e),
                }
            } else {
                invalid
            }
        } else {
            let is_change = word_is(&ws[0], "change");
            let is_add = word_is(&ws[0], "add");
            let is_default = word_is(&ws[0], "default");
            if !(is_change || is_add || is_default) || n < 3 {
                return invalid;
            }
            let a = ws[0].len();
            let b = ws[1].len();
            if !(a <= s.len() && b <= s.len() - a && 2 <= s.len() - a - b) {
                return invalid;
            }
            let from = a + b + 2;
            let rest = String::from_str(text.substring_char(from, s.len()));
            proof {
                assert(rest@ =~= s@.skip(from as int));
            }
            if is_change {
                if word_is(&ws[1], "selected") {
                    Ok(Command::Change(None, rest))
                } else {
                    match list_of(&ws[1]) {
                        Ok(l) => Ok(Command::Change(Some(l), rest)),
                        Err(e) => Err(e),
                    }
                }
            } else {
                match kind_of(&ws[1]) {
                    Some(k) => if is_add {
                        Ok(Command::Add(k, rest))
                    } else {
                        Ok(Command::Default(k, rest))
                    },
                    None => invalid,
                }
            }
        }
    }
}

/// Reads the command written in `input` and runs it on the editor (see
/// [`apply_command`]). Text that is no command, or whose number does not
/// read, is refused and leaves the editor as it was.
pub fn command_parse(input: &String, temp: &mut EditorState, if_save_command: bool) -> (r: Result<(), ShapoError>)
    requires
        wf(old(temp)@),
        command_text(input@) matches Reading::Command(c) ==> ends(old(temp)@, c),
    ensures
        wf(final(temp)@),
        match command_text(input@) {
            Reading::Invalid => r matches Err(ShapoError::ParseError(ParseError::InvaildCommand)) && final(temp)@
                == old(temp)@,
            Reading::NaN => r matches Err(ShapoError::ParseError(ParseError::NaN(_))) && final(temp)@ == old(
                temp,
            )@,
            Reading::Command(c) => match outcome(old(temp)@, c) {
                Outcome::Done(v) => r is Ok && final(temp)@ == (if if_save_command {
                    EditorView { commands: v.commands.push((input@, c)), ..v }
                } else {
                    v
                }),
                Outcome::Failed(v, f) => reports(r, f) && final(temp)@ == v,
                Outcome::Stuck => false,
            },
        },
{
    let cmd = match CommandParser::parse(input) {
        Ok(c) => c,
        Err(e) => return Err(e),
    };
    apply_command(cmd, temp, input.clone(), if_save_command)
}

/// Whether `w` holds the same items as `v`, each where it was: the same
/// note lists with as many notes, as many shapes and judge fields.
pub open spec fn same_items(v: EditorView, w: EditorView) -> bool {
    &&& w.notes.len() == v.notes.len()
    &&& forall|li: int|
        0 <= li < v.notes.len() ==> #[trigger] w.notes[li].field == v.notes[li].field
            && w.notes[li].notes.len() == v.notes[li].notes.len()
    &&& w.shapes.len() == v.shapes.len()
    &&& w.judge_fields.len() == v.judge_fields.len()
}

/// Deleting notes and shapes only marks them: every item stays where it
/// was, whether the deletion goes through or fails on the way.
pub proof fn lemma_delete_marks_only(v: EditorView, sels: Seq<PossibleChartSelection>, n: nat)
    requires
        n <= sels.len(),
        forall|i: int| 0 <= i < sels.len() ==> !(#[trigger] sels[i] is JudgeField),
    ensures
        delete_upto(v, sels, n) matches Outcome::Done(w) ==> same_items(v, w),
        delete_upto(v, sels, n) matches Outcome::Failed(w, _) ==> same_items(v, w),
    decreases n,
{
    if n > 0 {
        lemma_delete_marks_only(v, sels, (n - 1) as nat);
        assert(!(sels[n - 1] is JudgeField));
    }
}

/// The number whose decimal text, with no sign and no leading zero, is `w`.
pub open spec fn label_number(w: Seq<char>) -> Option<usize> {
    if w.len() > 0 && w[0] != '+' && (w.len() == 1 || w[0] != '0') {
        usize_text(w)
    } else {
        None
    }
}

/// The label number of a shape whose first label is `label`: the `n` with
/// `n.to_string() == label`, if there is one.
pub fn shape_label(label: &String) -> (r: Option<usize>)
    ensures
        r == label_number(label@),
{
    let w = chars_of(label.as_str());
    if w.len() > 0 && w[0] != '+' && (w.len() == 1 || w[0] != '0') {
        match parse_usize(&w) {
            Ok(n) => Some(n),
            Err(_) => None,
        }
    } else {
        None
    }
}

/// Adding an item of kind `k` gives the new item the key of the next edit,
/// records that it starts from the defaults of `k` itself and then takes the
/// attributes `text`, and puts it where items of `k` belong: a tap or slide
/// at the end of the current judge field's notes, a judge field at the end
/// of the judge fields, any other kind at the end of the shapes.
pub proof fn lemma_add_inherits_its_own_kind(v: EditorView, k: Kind, text: Seq<char>)
    requires
        v.edits.len() <= usize::MAX,
    ensures
        add_item(v, k, text) matches Outcome::Done(w) ==> {
            let key = v.edits.len() as usize;
            &&& w.edits.len() == v.edits.len() + 2
            &&& w.edits.take(v.edits.len() as int) == v.edits
            &&& w.edits[v.edits.len() as int] == (Target::Item(key), EditView::Inherit(k))
            &&& w.edits[v.edits.len() as int + 1] == (Target::Item(key), EditView::Merge(text))
            &&& (k == Kind::Tap || k == Kind::Slide) ==> {
                &&& list_index(v.notes, v.now_judge_field_id) matches Some(li)
                &&& w.notes[li].notes == v.notes[li].notes.push(w.notes[li].notes.last())
                &&& w.notes[li].notes.last().key == key
                &&& w.shapes == v.shapes && w.judge_fields == v.judge_fields
            }
            &&& k == Kind::JudgeField ==> w.judge_fields.len() == v.judge_fields.len() + 1
                && w.judge_fields.last().key == key && w.shapes == v.shapes && w.notes == v.notes
            &&& !(k == Kind::Tap || k == Kind::Slide || k == Kind::JudgeField) ==> w.shapes.len()
                == v.shapes.len() + 1 && w.shapes.last().key == key && w.notes == v.notes && w.judge_fields
                == v.judge_fields
        },
{
    if add_item(v, k, text) is Done {
        let w = add_item(v, k, text)->Done_0;
        assert(w.edits.take(v.edits.len() as int) =~= v.edits);
        if k == Kind::Tap || k == Kind::Slide {
            let li = list_index(v.notes, v.now_judge_field_id)->Some_0;
            assert(w.notes[li].notes =~= v.notes[li].notes.push(w.notes[li].notes.last()));
        }
    }
}

/// The word of each kind of item, as commands write it.
pub open spec fn kind_name(k: Kind) -> Seq<char> {
    match k {
        Kind::Tap => "tap"@,
        Kind::Slide => "slide"@,
        Kind::Rectangle => "rectangle"@,
        Kind::Circle => "circle"@,
        Kind::BezierCurve => "bezier_curve"@,
        Kind::Image => "image"@,
        Kind::Text => "text"@,
        Kind::JudgeField => "judge_field"@,
    }
}

/// A word reads as a kind only where it is that kind's word.
pub proof fn lemma_kind_word_is_its_name(w: Seq<char>)
    ensures
        kind_word(w) matches Some(k) ==> w == kind_name(k),
{
}

/// Each kind's word reads as that kind, so no two kind words read as the
/// same kind and every kind can be written.
pub proof fn lemma_kind_names_read_back(k: Kind)
    ensures
        kind_word(kind_name(k)) == Some(k),
        forall|w1: Seq<char>, w2: Seq<char>|
            kind_word(w1) is Some && #[trigger] kind_word(w1) == #[trigger] kind_word(w2) ==> w1 == w2,
{
    reveal_strlit("tap");
    reveal_strlit("slide");
    reveal_strlit("rectangle");
    reveal_strlit("circle");
    reveal_strlit("bezier_curve");
    reveal_strlit("image");
    reveal_strlit("text");
    reveal_strlit("judge_field");
    let names = seq!["tap"@, "slide"@, "rectangle"@, "circle"@, "bezier_curve"@, "image"@, "text"@, "judge_field"@];
    assert forall|i: int, j: int| 0 <= i < j < 8 implies names[i] != names[j] by {
        if names[i].len() == names[j].len() {
            assert(names[i][0] != names[j][0] || names[i][1] != names[j][1]);
        }
    }
    assert(names[0] == "tap"@ && names[1] == "slide"@ && names[2] == "rectangle"@ && names[3] == "circle"@);
    assert(names[4] == "bezier_curve"@ && names[5] == "image"@ && names[6] == "text"@ && names[7] == "judge_field"@);
    assert forall|w1: Seq<char>, w2: Seq<char>|
        kind_word(w1) is Some && #[trigger] kind_word(w1) == #[trigger] kind_word(w2) implies w1 == w2 by {
        lemma_kind_word_is_its_name(w1);
        lemma_kind_word_is_its_name(w2);
    }
}

} // verus!
