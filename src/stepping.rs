use vstd::prelude::*;
use vstd::utf8::encode_utf8;

verus! {

/// The UTF-8 bytes of `bevy`, the prefix that marks a system owned by the
/// engine itself.
pub open spec fn engine_prefix() -> Seq<u8> {
    seq![98u8, 101u8, 118u8, 121u8]
}

/// A system whose name starts with the engine's prefix always runs and is
/// never stepped.
pub open spec fn engine_owned(name: Seq<char>) -> bool {
    let bytes = encode_utf8(name);
    bytes.len() >= engine_prefix().len() && bytes.subrange(0, engine_prefix().len() as int)
        == engine_prefix()
}

/// A system of one of the stepped schedules: the schedule's position in the
/// stepping order and the index of the system's node in that schedule.
#[derive(Clone, Copy, Debug, PartialEq, Eq, Structural)]
pub struct SystemRef {
    pub schedule: usize,
    pub node: usize,
}

/// A system that the overlay lists, with the text span that shows the cursor
/// in front of its name.
#[derive(Clone, Copy, Debug, PartialEq, Eq, Structural)]
pub struct SteppedSystem {
    pub schedule: usize,
    pub node: usize,
    pub text_index: usize,
}

/// A span of the overlay's text after its empty root span.
#[derive(Clone, Copy, Debug, PartialEq, Eq, Structural)]
pub enum OverlaySpan {
    /// The label of the schedule at this position in the stepping order.
    ScheduleLabel(usize),
    /// The place of the cursor in front of a system's name.
    Cursor,
    /// The name of a system: the position of its schedule, and its position
    /// in that schedule's run order.
    SystemName(usize, usize),
}

/// The text of the overlay and which systems it lists.
///
/// The overlay's text holds an empty root span, then for each schedule a
/// span with its label, and for each stepped system a cursor span followed by
/// a span with the system's name. A span's text index counts the root span.
pub struct OverlayLayout {
    /// The spans that follow the root span.
    pub spans: Vec<OverlaySpan>,
    /// The stepped systems, in schedule order and then run order.
    pub stepped: Vec<SteppedSystem>,
    /// The engine's own systems, which keep running while stepping.
    pub always_run: Vec<SystemRef>,
}

/// The overlay's layout as a mathematical value.
pub struct LayoutModel {
    pub spans: Seq<OverlaySpan>,
    pub stepped: Seq<SteppedSystem>,
    pub always_run: Seq<SystemRef>,
}

impl View for OverlayLayout {
    type V = LayoutModel;

    open spec fn view(&self) -> LayoutModel {
        LayoutModel {
            spans: self.spans@,
            stepped: self.stepped@,
            always_run: self.always_run@,
        }
    }
}

/// The layout before any schedule: no spans and no systems.
pub open spec fn empty_layout() -> LayoutModel {
    LayoutModel { spans: Seq::empty(), stepped: Seq::empty(), always_run: Seq::empty() }
}

/// The layout after one more system, `(node, name)`, which runs at
/// `position` in schedule `schedule`.
pub open spec fn add_system(
    m: LayoutModel,
    schedule: int,
    position: int,
    system: (usize, Seq<char>),
) -> LayoutModel {
    if engine_owned(system.1) {
        LayoutModel {
            always_run: m.always_run.push(SystemRef { schedule: schedule as usize, node: system.0 }),
            ..m
        }
    } else {
        LayoutModel {
            spans: m.spans.push(OverlaySpan::Cursor).push(
                OverlaySpan::SystemName(schedule as usize, position as usize),
            ),
            stepped: m.stepped.push(
                SteppedSystem {
                    schedule: schedule as usize,
                    node: system.0,
                    text_index: (m.spans.len() + 1) as usize,
                },
            ),
            ..m
        }
    }
}

/// The layout after the label of schedule `schedule` and its first `n`
/// systems.
pub open spec fn add_schedule(
    m: LayoutModel,
    schedule: int,
    systems: Seq<(usize, Seq<char>)>,
    n: int,
) -> LayoutModel
    decreases n,
{
    if n <= 0 {
        LayoutModel { spans: m.spans.push(OverlaySpan::ScheduleLabel(schedule as usize)), ..m }
    } else {
        add_system(add_schedule(m, schedule, systems, n - 1), schedule, n - 1, systems[n - 1])
    }
}

/// The layout of the first `k` schedules, each given as its systems in run
/// order.
pub open spec fn layout_of(schedules: Seq<Seq<(usize, Seq<char>)>>, k: int) -> LayoutModel
    decreases k,
{
    if k <= 0 {
        empty_layout()
    } else {
        add_schedule(layout_of(schedules, k - 1), k - 1, schedules[k - 1], schedules[k - 1].len() as int)
    }
}

/// The layout of all the stepped schedules.
pub open spec fn overlay_layout(schedules: Seq<Seq<(usize, Seq<char>)>>) -> LayoutModel {
    layout_of(schedules, schedules.len() as int)
}

/// The number of systems in the first `k` schedules.
pub open spec fn system_count(schedules: Seq<Seq<(usize, Seq<char>)>>, k: int) -> nat
    decreases k,
{
    if k <= 0 {
        0
    } else {
        system_count(schedules, k - 1) + schedules[k - 1].len()
    }
}

proof fn lemma_add_schedule_counts(
    m: LayoutModel,
    schedule: int,
    systems: Seq<(usize, Seq<char>)>,
    n: int,
)
    requires
        0 <= n,
    ensures
        add_schedule(m, schedule, systems, n).stepped.len() + add_schedule(
            m,
            schedule,
            systems,
            n,
        ).always_run.len() == m.stepped.len() + m.always_run.len() + n,
        add_schedule(m, schedule, systems, n).spans.len() <= m.spans.len() + 1 + 2 * n,
    decreases n,
{
    if n > 0 {
        lemma_add_schedule_counts(m, schedule, systems, n - 1);
    }
}

/// Every system of the stepped schedules is either listed on the overlay or
/// left to run always; the overlay has at most a label span for each
/// schedule and two spans for each system.
pub proof fn lemma_every_system_placed(schedules: Seq<Seq<(usize, Seq<char>)>>, k: int)
    requires
        0 <= k <= schedules.len(),
    ensures
        layout_of(schedules, k).stepped.len() + layout_of(schedules, k).always_run.len()
            == system_count(schedules, k),
        layout_of(schedules, k).spans.len() <= k + 2 * system_count(schedules, k),
    decreases k,
{
    if k > 0 {
        let s = schedules[k - 1];
        lemma_every_system_placed(schedules, k - 1);
        lemma_add_schedule_counts(layout_of(schedules, k - 1), k - 1, s, s.len() as int);
    }
}

proof fn lemma_add_schedule_grows(
    m: LayoutModel,
    schedule: int,
    systems: Seq<(usize, Seq<char>)>,
    n1: int,
    n2: int,
)
    requires
        0 <= n1 <= n2,
    ensures
        m.spans.len() < add_schedule(m, schedule, systems, n1).spans.len(),
        add_schedule(m, schedule, systems, n1).spans.len() <= add_schedule(
            m,
            schedule,
            systems,
            n2,
        ).spans.len(),
    decreases n2,
{
    if n2 > n1 {
        lemma_add_schedule_grows(m, schedule, systems, n1, n2 - 1);
    } else if n1 > 0 {
        lemma_add_schedule_grows(m, schedule, systems, n1 - 1, n1 - 1);
    }
}

proof fn lemma_layout_grows(schedules: Seq<Seq<(usize, Seq<char>)>>, k1: int, k2: int)
    requires
        0 <= k1 <= k2,
    ensures
        layout_of(schedules, k1).spans.len() <= layout_of(schedules, k2).spans.len(),
    decreases k2,
{
    if k2 > k1 {
        lemma_layout_grows(schedules, k1, k2 - 1);
        let s = schedules[k2 - 1];
        lemma_add_schedule_grows(layout_of(schedules, k2 - 1), k2 - 1, s, s.len() as int, s.len() as int);
    }
}

/// The text index of every listed system is that of a cursor span, followed
/// by a name span, and the listed systems come in the order of their spans.
pub open spec fn spans_in_order(m: LayoutModel) -> bool {
    &&& forall|i: int|
        #![trigger m.stepped[i]]
        0 <= i < m.stepped.len() ==> {
            let t = m.stepped[i].text_index as int;
            &&& 1 <= t < m.spans.len()
            &&& m.spans[t - 1] == OverlaySpan::Cursor
            &&& m.spans[t] is SystemName
            &&& m.spans[t]->SystemName_0 == m.stepped[i].schedule
        }
    &&& forall|i: int, j: int|
        0 <= i < j < m.stepped.len() ==> m.stepped[i].text_index < m.stepped[j].text_index
}

proof fn lemma_add_schedule_in_order(
    m: LayoutModel,
    schedule: int,
    systems: Seq<(usize, Seq<char>)>,
    n: int,
)
    requires
        0 <= n,
        spans_in_order(m),
        add_schedule(m, schedule, systems, n).spans.len() < usize::MAX,
    ensures
        spans_in_order(add_schedule(m, schedule, systems, n)),
    decreases n,
{
    if n > 0 {
        lemma_add_schedule_grows(m, schedule, systems, n - 1, n);
        lemma_add_schedule_in_order(m, schedule, systems, n - 1);
    }
}

/// In the overlay's text, each listed system's cursor span is followed by its
/// name span, and the systems are listed in the order of their spans.
pub proof fn lemma_overlay_spans_in_order(schedules: Seq<Seq<(usize, Seq<char>)>>, k: int)
    requires
        0 <= k <= schedules.len(),
        layout_of(schedules, k).spans.len() < usize::MAX,
    ensures
        spans_in_order(layout_of(schedules, k)),
    decreases k,
{
    if k > 0 {
        let s = schedules[k - 1];
        let before = layout_of(schedules, k - 1);
        lemma_layout_grows(schedules, k - 1, k);
        lemma_overlay_spans_in_order(schedules, k - 1);
        lemma_add_schedule_in_order(before, k - 1, s, s.len() as int);
    }
}

/// Whether a system belongs to the engine, judged by its name.
pub fn is_engine_system(name: &str) -> (r: bool)
    ensures
        r == engine_owned(name@),
{
    let bytes = name.as_bytes();
    let r = bytes.len() >= 4 && bytes[0] == 98u8 && bytes[1] == 101u8 && bytes[2] == 118u8
        && bytes[3] == 121u8;
    proof {
        if bytes@.len() >= 4 {
            assert(r == (bytes@.subrange(0, 4) =~= engine_prefix()));
        }
    }
    r
}

/// Lays out the overlay for the stepped schedules, each given as the
/// `(node, name)` of its systems in the order a single-threaded executor
/// runs them.
pub fn plan_layout(schedules: &Vec<Vec<(usize, String)>>) -> (r: OverlayLayout)
    requires
        schedules@.len() + 2 * system_count(schedules.deep_view(), schedules@.len() as int)
            < usize::MAX,
    ensures
        r@ == overlay_layout(schedules.deep_view()),
        spans_in_order(r@),
        r.stepped@.len() + r.always_run@.len() == system_count(
            schedules.deep_view(),
            schedules@.len() as int,
        ),
{
    let ghost all = schedules.deep_view();
    proof {
        lemma_every_system_placed(all, all.len() as int);
    }
    let mut layout = OverlayLayout { spans: Vec::new(), stepped: Vec::new(), always_run: Vec::new() };
    let mut i: usize = 0;
    while i < schedules.len()
        invariant
            i <= schedules@.len(),
            all == schedules.deep_view(),
            layout@ == layout_of(all, i as int),
            layout_of(all, all.len() as int).spans.len() < usize::MAX,
        decreases schedules@.len() - i,
    {
        let systems = &schedules[i];
        let ghost before = layout@;
        let ghost names = all[i as int];
        assert(names == systems.deep_view());
        proof {
            lemma_layout_grows(all, i + 1, all.len() as int);
            lemma_add_schedule_grows(before, i as int, names, 0, names.len() as int);
        }
        layout.spans.push(OverlaySpan::ScheduleLabel(i));
        let mut j: usize = 0;
        while j < systems.len()
            invariant
                i < schedules@.len(),
                j <= systems@.len(),
                all == schedules.deep_view(),
                names == all[i as int],
                names == systems.deep_view(),
                layout@ == add_schedule(before, i as int, names, j as int),
                add_schedule(before, i as int, names, names.len() as int).spans.len() < usize::MAX,
            decreases systems@.len() - j,
        {
            proof {
                lemma_add_schedule_grows(before, i as int, names, j + 1, names.len() as int);
            }
            let node = systems[j].0;
            if is_engine_system(systems[j].1.as_str()) {
                layout.always_run.push(SystemRef { schedule: i, node });
            } else {
                let text_index = layout.spans.len() + 1;
                layout.stepped.push(SteppedSystem { schedule: i, node, text_index });
                layout.spans.push(OverlaySpan::Cursor);
                layout.spans.push(OverlaySpan::SystemName(i, j));
            }
            j = j + 1;
        }
        i = i + 1;
    }
    proof {
        lemma_overlay_spans_in_order(all, all.len() as int);
        lemma_every_system_placed(all, all.len() as int);
    }
    layout
}

/// Whether the overlay has been built: it lists at least one system.
pub fn initialized(systems: &Vec<SteppedSystem>) -> (r: bool)
    ensures
        r == (systems@.len() > 0),
{
    systems.len() > 0
}

/// For each listed system, whether the stepping cursor stands on it.
pub fn cursor_marks(systems: &Vec<SteppedSystem>, cursor: SystemRef) -> (r: Vec<bool>)
    ensures
        r@.len() == systems@.len(),
        forall|i: int|
            0 <= i < systems@.len() ==> r@[i] == (systems@[i].schedule == cursor.schedule
                && systems@[i].node == cursor.node),
{
    let mut marks: Vec<bool> = Vec::new();
    let mut i: usize = 0;
    while i < systems.len()
        invariant
            i <= systems@.len(),
            marks@.len() == i,
            forall|k: int|
                0 <= k < i ==> marks@[k] == (systems@[k].schedule == cursor.schedule
                    && systems@[k].node == cursor.node),
        decreases systems@.len() - i,
    {
        let s = systems[i];
        marks.push(s.schedule == cursor.schedule && s.node == cursor.node);
        i = i + 1;
    }
    marks
}

/// Visibility of the overlay.
#[derive(Clone, Copy, Debug, PartialEq, Eq, Structural)]
pub enum OverlayVisibility {
    Inherited,
    Hidden,
    Visible,
}

/// The visibility to give the overlay, if it must change: shown when
/// stepping is switched on while it is hidden, hidden when stepping is off
/// while it is not hidden.
pub fn visibility_change(current: OverlayVisibility, enabled: bool) -> (r: Option<
    OverlayVisibility,
>)
    ensures
        r == (if enabled && current == OverlayVisibility::Hidden {
            Some(OverlayVisibility::Inherited)
        } else if !enabled && current != OverlayVisibility::Hidden {
            Some(OverlayVisibility::Hidden)
        } else {
            None
        }),
{
    match (current, enabled) {
        (OverlayVisibility::Hidden, true) => Some(OverlayVisibility::Inherited),
        (OverlayVisibility::Hidden, false) | (_, true) => None,
        (_, false) => Some(OverlayVisibility::Hidden),
    }
}

/// The stepping keys pressed in this frame.
#[derive(Clone, Copy, Debug, PartialEq, Eq, Structural)]
pub struct SteppingKeys {
    /// Log the stepping state.
    pub dump: bool,
    /// Switch stepping on or off.
    pub toggle: bool,
    /// Run the rest of the frame.
    pub continue_frame: bool,
    /// Run the next system.
    pub step: bool,
}

/// How far to advance the stepped schedules.
#[derive(Clone, Copy, Debug, PartialEq, Eq, Structural)]
pub enum Advance {
    ContinueFrame,
    StepFrame,
}

/// What to do with the stepping state in response to the keys.
#[derive(Clone, Copy, Debug, PartialEq, Eq, Structural)]
pub struct SteppingResponse {
    pub log_state: bool,
    /// The value to switch the enabled flag to, when it changes.
    pub set_enabled: Option<bool>,
    pub advance: Option<Advance>,
}

/// Handles the stepping keys. The toggle key switches stepping on or off
/// from the next frame on; while stepping is on now, the continue key runs
/// the rest of the frame, or else the step key runs one system.
pub fn respond_to_keys(keys: SteppingKeys, enabled: bool) -> (r: SteppingResponse)
    ensures
        r.log_state == keys.dump,
        r.set_enabled == (if keys.toggle {
            Some(!enabled)
        } else {
            None
        }),
        r.advance == (if !enabled {
            None
        } else if keys.continue_frame {
            Some(Advance::ContinueFrame)
        } else if keys.step {
            Some(Advance::StepFrame)
        } else {
            None
        }),
{
    let set_enabled = if keys.toggle {
        Some(!enabled)
    } else {
        None
    };
    let advance = if !enabled {
        None
    } else if keys.continue_frame {
        Some(Advance::ContinueFrame)
    } else if keys.step {
        Some(Advance::StepFrame)
    } else {
        None
    };
    SteppingResponse { log_state: keys.dump, set_enabled, advance }
}

} // verus!
