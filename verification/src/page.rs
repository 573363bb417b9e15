//! The page's handling of the events that its components report: windows,
//! animation timers, the chart editor's undo list and project paths. The
//! handler decides; what must be done outside (sounds, files, closing the
//! program) comes back as a list of effects that the program performs in
//! order.
use vstd::prelude::*;
use vstd::string::*;
use crate::error::ShapoError;
use crate::note::PossibleChartChange;
use crate::timer::{Timer, TimerView, fresh, started};

verus! {

/// A window on the page: its id, the key under which the program keeps its
/// contents, and whether it takes input.
#[derive(Clone, Copy, Debug, PartialEq, Eq, Structural)]
pub struct WindowSlot {
    pub id: usize,
    pub key: usize,
    pub if_enabled: bool,
}

/// A chart as the page sees it: the key under which the program keeps it,
/// its information texts, and whether its tempo is zero.
#[derive(Debug)]
pub struct ChartRef {
    pub key: usize,
    pub songtitle: String,
    pub mapname: String,
    pub painter: String,
    pub producer: String,
    pub charter: String,
    pub bpm_is_zero: bool,
}

impl Clone for ChartRef {
    fn clone(&self) -> (r: Self)
        ensures
            r == *self,
    {
        ChartRef {
            key: self.key,
            songtitle: self.songtitle.clone(),
            mapname: self.mapname.clone(),
            painter: self.painter.clone(),
            producer: self.producer.clone(),
            charter: self.charter.clone(),
            bpm_is_zero: self.bpm_is_zero,
        }
    }
}

/// Whether the information of chart `c` is incomplete: a text is empty or
/// the tempo is zero.
pub open spec fn chart_is_empty(c: ChartRef) -> bool {
    c.songtitle@.len() == 0 || c.mapname@.len() == 0 || c.painter@.len() == 0 || c.producer@.len() == 0
        || c.charter@.len() == 0 || c.bpm_is_zero
}

impl ChartRef {
    /// Whether the chart's information is incomplete (see [`chart_is_empty`]).
    pub fn is_empty(&self) -> (r: bool)
        ensures
            r == chart_is_empty(*self),
    {
        self.songtitle.as_str().is_empty() || self.mapname.as_str().is_empty() || self.painter.as_str().is_empty()
            || self.producer.as_str().is_empty() || self.charter.as_str().is_empty() || self.bpm_is_zero
    }
}

/// A page of the game.
#[derive(Debug)]
pub enum Route {
    MainPage,
    ChartPage,
    PlayPage(String),
    ShopPage,
    EditPage,
    UserPage,
    TestPage,
    EndPage,
}

impl Clone for Route {
    fn clone(&self) -> (r: Self)
        ensures
            r == *self,
    {
        match self {
            Route::MainPage => Route::MainPage,
            Route::ChartPage => Route::ChartPage,
            Route::PlayPage(s) => Route::PlayPage(s.clone()),
            Route::ShopPage => Route::ShopPage,
            Route::EditPage => Route::EditPage,
            Route::UserPage => Route::UserPage,
            Route::TestPage => Route::TestPage,
            Route::EndPage => Route::EndPage,
        }
    }
}

/// An event reported by a component of the page.
pub enum Back {
    Nothing,
    Router(Route),
    Animation(usize),
    AnimateDone(usize),
    OpenWindow(WindowSlot),
    CloseWindow(usize),
    Close,
    Error(ShapoError),
    Ignore,
    /// The game is paused; the pause window to show.
    Pause(WindowSlot),
    Retry,
    Play,
    JudgeNote,
    MusicPlay(String),
    LoadedTexture(usize),
    PlaySound(String),
    PauseSound,
    /// New settings, as stored text.
    ChangeSetting(String),
    /// The chart was edited by this kind of change into this chart.
    ChangeChart(PossibleChartChange, ChartRef),
    ChangeMusicPath(String),
    ChangeImagePath(String),
    ChangeProjectPath(String),
    NewProject,
    OpenProject,
    Save,
    Undo,
    Redo,
    Export,
}

/// What the program must do after an event.
#[derive(Debug)]
pub enum Effect {
    /// Show this page (and drop the current page's components and textures).
    Push(Route),
    /// Close the program.
    Close,
    StopSound,
    /// Resume the game being played.
    ResumePlay,
    /// Restart the game being played.
    RetryPlay,
    PlayMusic(String),
    PlaySound(String),
    /// Keep the texture with this key.
    StoreTexture(usize),
    /// Store these settings.
    WriteSettings(String),
    /// Bring the current chart's timeline in order.
    NormalizeChart,
    /// Create the project of the current chart in the directory that
    /// [`project_dir`] names, and copy its music and image there; where that
    /// fails, remove the directory. Then report the result to
    /// [`project_created`].
    CreateProject,
    OpenProject(String),
    SaveProject(String),
    Export,
}

/// The state of the page.
pub struct PageState {
    pub windows: Vec<WindowSlot>,
    pub timers: Vec<Timer>,
    pub if_normal: bool,
    pub chart: ChartRef,
    /// The chart of the open project.
    pub project_chart: ChartRef,
    /// The keys of the open project's editor windows.
    pub project_windows: Vec<usize>,
    /// Earlier charts, each with the kind of change that replaced it.
    pub chart_undo: Vec<(PossibleChartChange, ChartRef)>,
    /// How many steps have been undone.
    pub undo_times: usize,
    /// How many steps the undo list keeps (from the settings).
    pub undo_steps: usize,
    pub music_path: String,
    pub image_path: String,
    pub now_project_path: String,
    pub assets_path: String,
}

/// The abstract state of a page.
pub struct PageView {
    pub windows: Seq<WindowSlot>,
    pub timers: Seq<Timer>,
    pub if_normal: bool,
    pub chart: ChartRef,
    pub project_chart: ChartRef,
    pub project_windows: Seq<usize>,
    pub chart_undo: Seq<(PossibleChartChange, ChartRef)>,
    pub undo_times: usize,
    pub undo_steps: usize,
    pub music_path: Seq<char>,
    pub image_path: Seq<char>,
    pub now_project_path: Seq<char>,
    pub assets_path: Seq<char>,
}

impl View for PageState {
    type V = PageView;

    open spec fn view(&self) -> PageView {
        PageView {
            windows: self.windows@,
            timers: self.timers@,
            if_normal: self.if_normal,
            chart: self.chart,
            project_chart: self.project_chart,
            project_windows: self.project_windows@,
            chart_undo: self.chart_undo@,
            undo_times: self.undo_times,
            undo_steps: self.undo_steps,
            music_path: self.music_path@,
            image_path: self.image_path@,
            now_project_path: self.now_project_path@,
            assets_path: self.assets_path@,
        }
    }
}

/// The id of the pause window (and of the window that a restart closes).
pub const PAUSE_WINDOW_ID: usize = 1004;

/// `ws` with every window of `w`'s id replaced by `w`, or with `w` appended
/// where there is none.
pub open spec fn put_window(ws: Seq<WindowSlot>, w: WindowSlot) -> Seq<WindowSlot> {
    if exists|i: int| 0 <= i < ws.len() && ws[i].id == w.id {
        Seq::new(ws.len(), |i: int| if ws[i].id == w.id { w } else { ws[i] })
    } else {
        ws.push(w)
    }
}

/// `ws` without the windows of id `id`, in their order.
pub open spec fn drop_window(ws: Seq<WindowSlot>, id: usize) -> Seq<WindowSlot> {
    ws.filter(|w: WindowSlot| w.id != id)
}

/// `ts` with every timer of `t`'s id replaced by `t`, or with `t` appended
/// where there is none.
pub open spec fn put_timer(ts: Seq<Timer>, t: Timer) -> Seq<Timer> {
    if exists|i: int| 0 <= i < ts.len() && ts[i]@.id == t@.id {
        Seq::new(ts.len(), |i: int| if ts[i]@.id == t@.id { t } else { ts[i] })
    } else {
        ts.push(t)
    }
}

/// `ts` without the timers of id `id`, in their order.
pub open spec fn drop_timer(ts: Seq<Timer>, id: usize) -> Seq<Timer> {
    ts.filter(|t: Timer| t@.id != id)
}

/// `s` without its first item and without its last `cut` items (empty where
/// nothing is left).
pub open spec fn middle<A>(s: Seq<A>, cut: int) -> Seq<A> {
    if s.len() - cut > 1 {
        s.subrange(1, s.len() - cut)
    } else {
        Seq::empty()
    }
}

/// The undo list after the chart `old_chart` is replaced by a change of kind
/// `t`: the undone steps are dropped, the list is kept below its size, and
/// the old chart is recorded, in place of the last record where that was a
/// change of the same kind.
pub open spec fn record_change(
    undo: Seq<(PossibleChartChange, ChartRef)>,
    undo_times: usize,
    undo_steps: usize,
    t: PossibleChartChange,
    old_chart: ChartRef,
) -> Seq<(PossibleChartChange, ChartRef)> {
    let u1 = if undo_times != 0 { middle(undo, undo_times as int) } else { undo };
    let u2 = if u1.len() >= undo_steps { middle(u1, 0) } else { u1 };
    if u2.len() < 1 {
        u2.push((t, old_chart))
    } else if u2.last().0 == t {
        u2.update(u2.len() - 1, (t, old_chart))
    } else {
        u2.push((t, old_chart))
    }
}

/// Why the page refuses an event, if it does.
pub open spec fn refusal(v: PageView, back: Back) -> Option<Seq<char>> {
    match back {
        Back::NewProject => if chart_is_empty(v.chart) || v.music_path.len() == 0 || v.image_path.len() == 0 {
            Some("invailed chart info input"@)
        } else {
            None
        },
        Back::OpenProject => if v.now_project_path.len() == 0 {
            Some("invailed chart info input"@)
        } else {
            None
        },
        Back::Save => if v.now_project_path.len() == 0 {
            Some("invailed chart info input"@)
        } else {
            None
        },
        Back::Undo => if v.undo_times >= v.chart_undo.len() {
            Some("nothing undo"@)
        } else {
            None
        },
        Back::Redo => if v.undo_times == 0 {
            Some("nothing redo"@)
        } else {
            None
        },
        _ => None,
    }
}

/// The state of the page after an event that it accepts (an animation
/// event's timer is left out here: see [`handle_back`]).
pub open spec fn next_view(v: PageView, back: Back) -> PageView {
    match back {
        Back::AnimateDone(id) => PageView { timers: drop_timer(v.timers, id), ..v },
        Back::OpenWindow(w) => PageView { windows: put_window(v.windows, w), ..v },
        Back::CloseWindow(id) => PageView { windows: drop_window(v.windows, id), ..v },
        Back::Error(_) => PageView { if_normal: false, ..v },
        Back::Ignore => PageView {
            if_normal: true,
            windows: drop_window(
                v.windows.map_values(|w: WindowSlot| WindowSlot { if_enabled: true, ..w }),
                0,
            ),
            ..v
        },
        Back::Pause(w) => PageView { windows: put_window(v.windows, w), ..v },
        Back::Play => PageView { windows: drop_window(v.windows, PAUSE_WINDOW_ID), ..v },
        Back::Retry => PageView { windows: drop_window(v.windows, PAUSE_WINDOW_ID), ..v },
        Back::ChangeChart(t, c) => PageView {
            chart_undo: record_change(v.chart_undo, v.undo_times, v.undo_steps, t, v.chart),
            chart: c,
            project_chart: c,
            undo_times: 0,
            ..v
        },
        Back::ChangeMusicPath(p) => PageView { music_path: p@, ..v },
        Back::ChangeImagePath(p) => PageView { image_path: p@, ..v },
        Back::ChangeProjectPath(p) => PageView { now_project_path: p@, ..v },
        Back::NewProject => PageView { project_chart: v.chart, project_windows: Seq::empty(), ..v },
        Back::Undo => PageView {
            chart: v.chart_undo[v.undo_times as int].1,
            project_chart: v.chart_undo[v.undo_times as int].1,
            project_windows: Seq::empty(),
            undo_times: (v.undo_times + 1) as usize,
            ..v
        },
        Back::Redo => PageView {
            chart: v.chart_undo[v.undo_times - 1].1,
            project_chart: v.chart_undo[v.undo_times - 1].1,
            undo_times: (v.undo_times - 1) as usize,
            ..v
        },
        _ => v,
    }
}

/// What the program must do after an event that the page accepts.
pub open spec fn effects(s: PageState, back: Back) -> Seq<Effect> {
    match back {
        Back::Router(r) => seq![Effect::Push(r)],
        Back::Close => seq![Effect::Close],
        Back::Pause(_) => seq![Effect::StopSound],
        Back::Play => seq![Effect::ResumePlay],
        Back::Retry => seq![Effect::RetryPlay],
        Back::MusicPlay(p) => seq![Effect::PlayMusic(p)],
        Back::LoadedTexture(k) => seq![Effect::StoreTexture(k)],
        Back::PlaySound(p) => seq![Effect::PlaySound(p)],
        Back::PauseSound => seq![Effect::StopSound],
        Back::ChangeSetting(s) => seq![Effect::WriteSettings(s)],
        Back::ChangeChart(_, _) => seq![Effect::NormalizeChart],
        Back::NewProject => seq![Effect::CreateProject],
        Back::OpenProject => seq![
            Effect::OpenProject(s.now_project_path),
            Effect::StopSound,
            Effect::Push(Route::EditPage),
        ],
        Back::Save => seq![Effect::SaveProject(s.now_project_path)],
        Back::Export => seq![Effect::Export],
        _ => seq![],
    }
}

/// Puts `w` in place of every window of its id, or appends it.
fn put_window_in(ws: &mut Vec<WindowSlot>, w: WindowSlot)
    ensures
        final(ws)@ == put_window(old(ws)@, w),
{
    let ghost old_ws = ws@;
    let mut found = false;
    let mut i: usize = 0;
    while i < ws.len()
        invariant
            ws@.len() == old_ws.len(),
            i <= ws.len(),
            forall|j: int| 0 <= j < i ==> ws@[j] == (if old_ws[j].id == w.id { w } else { old_ws[j] }),
            forall|j: int| i <= j < ws@.len() ==> ws@[j] == old_ws[j],
            found <==> exists|j: int| 0 <= j < i && old_ws[j].id == w.id,
        decreases ws.len() - i,
    {
        assert(ws@[i as int] == old_ws[i as int]);
        if ws[i].id == w.id {
            ws[i] = w;
            found = true;
        }
        i = i + 1;
    }
    if !found {
        ws.push(w);
        proof {
            assert(ws@ =~= old_ws.push(w));
        }
    } else {
        proof {
            assert(ws@ =~= Seq::new(old_ws.len(), |j: int| if old_ws[j].id == w.id { w } else { old_ws[j] }));
        }
    }
}

/// Puts `t` in place of every timer of its id, or appends it.
fn put_timer_in(ts: &mut Vec<Timer>, t: Timer)
    ensures
        final(ts)@ == put_timer(old(ts)@, t),
{
    let ghost old_ts = ts@;
    let mut found = false;
    let mut i: usize = 0;
    while i < ts.len()
        invariant
            ts@.len() == old_ts.len(),
            i <= ts.len(),
            forall|j: int| 0 <= j < i ==> ts@[j] == (if old_ts[j]@.id == t@.id { t } else { old_ts[j] }),
            forall|j: int| i <= j < ts@.len() ==> ts@[j] == old_ts[j],
            found <==> exists|j: int| 0 <= j < i && old_ts[j]@.id == t@.id,
        decreases ts.len() - i,
    {
        assert(ts@[i as int] == old_ts[i as int]);
        if ts[i].label() == t.label() {
            ts[i] = t;
            found = true;
        }
        i = i + 1;
    }
    if !found {
        ts.push(t);
        proof {
            assert(ts@ =~= old_ts.push(t));
        }
    } else {
        proof {
            assert(ts@ =~= Seq::new(old_ts.len(), |j: int| if old_ts[j]@.id == t@.id { t } else { old_ts[j] }));
        }
    }
}

/// The windows of `ws` whose id is not `id`, in their order.
fn without_window(ws: &Vec<WindowSlot>, id: usize) -> (r: Vec<WindowSlot>)
    ensures
        r@ == drop_window(ws@, id),
{
    let ghost pred = |w: WindowSlot| w.id != id;
    let mut r: Vec<WindowSlot> = Vec::new();
    let mut i: usize = 0;
    while i < ws.len()
        invariant
            i <= ws.len(),
            pred == (|w: WindowSlot| w.id != id),
            r@ == ws@.take(i as int).filter(pred),
        decreases ws.len() - i,
    {
        let keep = ws[i].id != id;
        if keep {
            r.push(ws[i]);
        }
        proof {
            let t = ws@.take(i as int + 1);
            assert(t.drop_last() =~= ws@.take(i as int));
            assert(t.last() == ws@[i as int]);
            reveal_with_fuel(Seq::<WindowSlot>::filter, 1);
            assert(r@ =~= t.filter(pred));
        }
        i = i + 1;
    }
    proof {
        assert(ws@.take(ws@.len() as int) =~= ws@);
    }
    r
}

/// The timers of `ts` whose id is not `id`, in their order.
fn without_timer(ts: &Vec<Timer>, id: usize) -> (r: Vec<Timer>)
    ensures
        r@ == drop_timer(ts@, id),
{
    let ghost pred = |t: Timer| t@.id != id;
    let mut r: Vec<Timer> = Vec::new();
    let mut i: usize = 0;
    while i < ts.len()
        invariant
            i <= ts.len(),
            pred == (|t: Timer| t@.id != id),
            r@ == ts@.take(i as int).filter(pred),
        decreases ts.len() - i,
    {
        let keep = ts[i].label() != id;
        if keep {
            r.push(ts[i]);
        }
        proof {
            let t = ts@.take(i as int + 1);
            assert(t.drop_last() =~= ts@.take(i as int));
            assert(t.last() == ts@[i as int]);
            reveal_with_fuel(Seq::<Timer>::filter, 1);
            assert(r@ =~= t.filter(pred));
        }
        i = i + 1;
    }
    proof {
        assert(ts@.take(ts@.len() as int) =~= ts@);
    }
    r
}

/// The windows of `ws`, all taking input.
fn enable_windows(ws: &Vec<WindowSlot>) -> (r: Vec<WindowSlot>)
    ensures
        r@ == ws@.map_values(|w: WindowSlot| WindowSlot { if_enabled: true, ..w }),
{
    let mut r: Vec<WindowSlot> = Vec::new();
    let mut i: usize = 0;
    while i < ws.len()
        invariant
            i <= ws.len(),
            r@ == ws@.take(i as int).map_values(|w: WindowSlot| WindowSlot { if_enabled: true, ..w }),
        decreases ws.len() - i,
    {
        r.push(WindowSlot { if_enabled: true, ..ws[i] });
        proof {
            assert(r@ =~= ws@.take(i as int + 1).map_values(
                |w: WindowSlot| WindowSlot { if_enabled: true, ..w },
            ));
        }
        i = i + 1;
    }
    proof {
        assert(ws@.take(ws@.len() as int) =~= ws@);
    }
    r
}

/// `s` without its first item and its last `cut` items.
fn middle_of(s: &Vec<(PossibleChartChange, ChartRef)>, cut: usize) -> (r: Vec<(PossibleChartChange, ChartRef)>)
    requires
        cut <= s.len(),
    ensures
        r@ == middle(s@, cut as int),
{
    let mut r: Vec<(PossibleChartChange, ChartRef)> = Vec::new();
    let end = s.len() - cut;
    if end <= 1 {
        proof {
            assert(r@ =~= middle(s@, cut as int));
        }
        return r;
    }
    let mut i: usize = 1;
    while i < end
        invariant
            1 <= i <= end,
            end == s.len() - cut,
            end <= s.len(),
            r@ == s@.subrange(1, i as int),
        decreases end - i,
    {
        let item = (s[i].0, s[i].1.clone());
        r.push(item);
        proof {
            assert(r@ =~= s@.subrange(1, i as int + 1));
        }
        i = i + 1;
    }
    r
}

/// Records the chart `old_chart`, replaced by a change of kind `t`, in the
/// undo list (see [`record_change`]).
fn record_change_in(
    undo: &mut Vec<(PossibleChartChange, ChartRef)>,
    undo_times: usize,
    undo_steps: usize,
    t: PossibleChartChange,
    old_chart: &ChartRef,
)
    requires
        undo_times <= old(undo)@.len(),
    ensures
        final(undo)@ == record_change(old(undo)@, undo_times, undo_steps, t, *old_chart),
{
    if undo_times != 0 {
        let u1 = middle_of(undo, undo_times);
        *undo = u1;
    }
    if undo.len() >= undo_steps {
        let u2 = middle_of(undo, 0);
        *undo = u2;
    }
    let length = undo.len();
    if length < 1 {
        undo.push((t, old_chart.clone()));
    } else if undo[length - 1].0 == t {
        undo[length - 1] = (t, old_chart.clone());
    } else {
        undo.push((t, old_chart.clone()));
    }
}

/// Handles an event of the page: updates the page's state and returns what
/// the program must do, in order. A refused event (see [`refusal`]) leaves
/// the state as it was. An animation event starts a new timer with the
/// animation's id from the system clock, in place of the timers of that id
/// or appended; where the clock cannot be read, the state is left as it was.
pub fn handle_back(state: &mut PageState, back: &Back) -> (r: Result<Vec<Effect>, ShapoError>)
    requires
        old(state).undo_times <= old(state).chart_undo.len(),
        !(back is JudgeNote),
    ensures
        final(state).undo_times <= final(state).chart_undo.len(),
        !(back is Animation) ==> match refusal(old(state)@, *back) {
            Some(m) => (r matches Err(ShapoError::SystemError(e)) && e@ == m) && final(state)@ == old(
                state,
            )@,
            None => (r matches Ok(es) && es@ == effects(*old(state), *back)) && final(state)@
                == next_view(old(state)@, *back),
        },
        back matches Back::Animation(id) ==> {
            &&& r is Ok ==> (r matches Ok(es) && es@.len() == 0) && exists|tm: Timer, n: i64|
                #![trigger put_timer(old(state)@.timers, tm), started(fresh(*id), n)]
                tm@ == started(fresh(*id), n) && final(state)@ == PageView {
                    timers: put_timer(old(state)@.timers, tm),
                    ..old(state)@
                }
            &&& r is Err ==> final(state)@ == old(state)@ && r matches Err(
                ShapoError::TimerError(_),
            )
        },
{
    let mut out: Vec<Effect> = Vec::new();
    match back {
        Back::Nothing => {},
        Back::Router(t) => {
            out.push(Effect::Push(t.clone()));
        },
        Back::Animation(t) => {
            let mut timer = Timer::new(*t);
            match timer.start() {
                Ok(()) => {},
                Err(e) => return Err(e),
            }
            put_timer_in(&mut state.timers, timer);
        },
        Back::AnimateDone(t) => {
            state.timers = without_timer(&state.timers, *t);
        },
        Back::OpenWindow(w) => {
            put_window_in(&mut state.windows, *w);
        },
        Back::CloseWindow(t) => {
            state.windows = without_window(&state.windows, *t);
        },
        Back::Close => {
            out.push(Effect::Close);
        },
        Back::Error(_) => {
            state.if_normal = false;
        },
        Back::Ignore => {
            state.if_normal = true;
            let enabled = enable_windows(&state.windows);
            state.windows = without_window(&enabled, 0);
        },
        Back::Pause(w) => {
            out.push(Effect::StopSound);
            put_window_in(&mut state.windows, *w);
        },
        Back::Play => {
            out.push(Effect::ResumePlay);
            state.windows = without_window(&state.windows, PAUSE_WINDOW_ID);
        },
        Back::JudgeNote => {},
        Back::MusicPlay(p) => {
            out.push(Effect::PlayMusic(p.clone()));
        },
        Back::LoadedTexture(k) => {
            out.push(Effect::StoreTexture(*k));
        },
        Back::PlaySound(p) => {
            out.push(Effect::PlaySound(p.clone()));
        },
        Back::Retry => {
            out.push(Effect::RetryPlay);
            state.windows = without_window(&state.windows, PAUSE_WINDOW_ID);
        },
        Back::PauseSound => {
            out.push(Effect::StopSound);
        },
        Back::ChangeSetting(json) => {
            out.push(Effect::WriteSettings(json.clone()));
        },
        Back::ChangeChart(t, c) => {
            let old_chart = state.chart.clone();
            record_change_in(&mut state.chart_undo, state.undo_times, state.undo_steps, *t, &old_chart);
            state.chart = c.clone();
            state.project_chart = c.clone();
            state.undo_times = 0;
            out.push(Effect::NormalizeChart);
        },
        Back::ChangeMusicPath(p) => {
            state.music_path = p.clone();
        },
        Back::ChangeImagePath(p) => {
            state.image_path = p.clone();
        },
        Back::ChangeProjectPath(p) => {
            state.now_project_path = p.clone();
        },
        Back::NewProject => {
            if state.chart.is_empty() || state.music_path.as_str().is_empty() || state.image_path.as_str().is_empty() {
                return Err(ShapoError::SystemError(String::from_str("invailed chart info input")));
            }
            state.project_chart = state.chart.clone();
            state.project_windows = Vec::new();
            out.push(Effect::CreateProject);
        },
        Back::OpenProject => {
            if state.now_project_path.as_str().is_empty() {
                return Err(ShapoError::SystemError(String::from_str("invailed chart info input")));
            }
            out.push(Effect::OpenProject(state.now_project_path.clone()));
            out.push(Effect::StopSound);
            out.push(Effect::Push(Route::EditPage));
        },
        Back::Save => {
            if state.now_project_path.as_str().is_empty() {
                return Err(ShapoError::SystemError(String::from_str("invailed chart info input")));
            }
            out.push(Effect::SaveProject(state.now_project_path.clone()));
        },
        Back::Undo => {
            if state.undo_times >= state.chart_undo.len() {
                return Err(ShapoError::SystemError(String::from_str("nothing undo")));
            }
            state.chart = state.chart_undo[state.undo_times].1.clone();
            state.project_chart = state.chart_undo[state.undo_times].1.clone();
            state.undo_times = state.undo_times + 1;
            state.project_windows = Vec::new();
        },
        Back::Redo => {
            if state.undo_times == 0 {
                return Err(ShapoError::SystemError(String::from_str("nothing redo")));
            }
            state.chart = state.chart_undo[state.undo_times - 1].1.clone();
            state.project_chart = state.chart_undo[state.undo_times - 1].1.clone();
            state.undo_times = state.undo_times - 1;
        },
        Back::Export => {
            out.push(Effect::Export);
        },
    }
    proof {
        assert(out@ =~= effects(*old(state), *back));
    }
    Ok(out)
}

/// Two lists that keep the same items at the same places, and agree on which
/// items the filter keeps, filter to the same list.
proof fn lemma_filter_same_kept(a: Seq<WindowSlot>, b: Seq<WindowSlot>, p: spec_fn(WindowSlot) -> bool)
    requires
        a.len() == b.len(),
        forall|i: int| 0 <= i < a.len() ==> p(#[trigger] a[i]) == p(b[i]),
        forall|i: int| 0 <= i < a.len() && p(#[trigger] a[i]) ==> a[i] == b[i],
    ensures
        a.filter(p) == b.filter(p),
    decreases a.len(),
{
    reveal_with_fuel(Seq::<WindowSlot>::filter, 1);
    if a.len() > 0 {
        lemma_filter_same_kept(a.drop_last(), b.drop_last(), p);
    }
}

/// Closing the windows of an id after opening a window of that id leaves
/// the windows that closing them alone would leave.
pub proof fn lemma_close_undoes_open(ws: Seq<WindowSlot>, w: WindowSlot)
    ensures
        drop_window(put_window(ws, w), w.id) == drop_window(ws, w.id),
{
    let p = |x: WindowSlot| x.id != w.id;
    let opened = put_window(ws, w);
    if exists|i: int| 0 <= i < ws.len() && ws[i].id == w.id {
        lemma_filter_same_kept(opened, ws, p);
    } else {
        reveal_with_fuel(Seq::<WindowSlot>::filter, 1);
        assert(opened.drop_last() =~= ws);
    }
}

/// A redo right after an undo counts the steps back to where they were and
/// keeps the chart that the undo brought back.
pub proof fn lemma_redo_after_undo(v: PageView)
    requires
        v.undo_times < v.chart_undo.len() <= usize::MAX,
    ensures
        refusal(v, Back::Undo) is None,
        refusal(next_view(v, Back::Undo), Back::Redo) is None,
        next_view(next_view(v, Back::Undo), Back::Redo).undo_times == v.undo_times,
        next_view(next_view(v, Back::Undo), Back::Redo).chart == next_view(v, Back::Undo).chart,
{
}

/// The directory of the project of the current chart.
pub open spec fn project_dir_of(v: PageView) -> Seq<char> {
    v.assets_path + "/assets/chart/"@ + v.chart.mapname@
}

/// The directory of the project of the current chart (see
/// [`project_dir_of`]).
pub fn project_dir(state: &PageState) -> (r: String)
    ensures
        r@ == project_dir_of(state@),
{
    let mut path = state.assets_path.clone();
    path.append("/assets/chart/");
    path.append(state.chart.mapname.as_str());
    path
}

/// Finishes a new project once the program has tried to create it: where
/// it was created, the project's directory becomes the project path and the
/// editor is shown; where it was not, its error is returned and the state
/// is left as it was.
pub fn project_created(state: &mut PageState, created: Result<(), ShapoError>) -> (r: Result<Vec<Effect>, ShapoError>)
    ensures
        match created {
            Ok(()) => (r matches Ok(es) && es@ == seq![Effect::StopSound, Effect::Push(Route::EditPage)])
                && final(state)@ == PageView { now_project_path: project_dir_of(old(state)@), ..old(state)@ },
            Err(e) => r == Err::<Vec<Effect>, ShapoError>(e) && final(state)@ == old(state)@,
        },
{
    match created {
        Ok(()) => {
            state.now_project_path = project_dir(state);
            let mut out: Vec<Effect> = Vec::new();
            out.push(Effect::StopSound);
            out.push(Effect::Push(Route::EditPage));
            proof {
                assert(out@ =~= seq![Effect::StopSound, Effect::Push(Route::EditPage)]);
            }
            Ok(out)
        },
        Err(e) => Err(e),
    }
}

/// Retry and Play both close the pause window, but a retry asks for the
/// play to start over while a play asks for it to go on where it stopped:
/// the two are never answered alike.
pub proof fn lemma_retry_restarts_play(s: PageState)
    ensures
        refusal(s@, Back::Retry) is None,
        refusal(s@, Back::Play) is None,
        next_view(s@, Back::Retry) == next_view(s@, Back::Play),
        effects(s, Back::Retry) == seq![Effect::RetryPlay],
        effects(s, Back::Play) == seq![Effect::ResumePlay],
        effects(s, Back::Retry) != effects(s, Back::Play),
{
    assert(effects(s, Back::Retry)[0] != effects(s, Back::Play)[0]);
}

} // verus!
