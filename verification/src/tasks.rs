//! The running-task list of the taskbar and its reconciliation against the
//! windows the host reports on every tick.

use std::collections::BTreeMap;
use base64::Engine;
use vstd::prelude::*;
use vstd::slice::slice_subrange;
use vstd::std_specs::btree::{increasing_seq, spec_btree_map_iter};
use vstd::std_specs::iter::IteratorSpec;
use crate::order::lemma_increasing_keys;
use vstd::string::StringExecFns;
use vstd::utf8::encode_utf8;
use crate::effect::{Effect, EffectView};
use crate::views::seq_view;
use crate::window::{taskbar_layout, spec_taskbar_layout, Size, WindowHandle, WindowKind, WindowSettings};

verus! {

/// One application window as the host reports it.
#[derive(Debug)]
pub struct WindowInfo {
    pub id: u32,
    pub title: String,
    pub exec_name: String,
}

pub struct WindowInfoView {
    pub id: u32,
    pub title: Seq<char>,
    pub exec_name: Seq<char>,
}

impl View for WindowInfo {
    type V = WindowInfoView;

    open spec fn view(&self) -> WindowInfoView {
        WindowInfoView { id: self.id, title: self.title@, exec_name: self.exec_name@ }
    }
}

impl Clone for WindowInfo {
    fn clone(&self) -> (copy: Self)
        ensures
            copy@ == self@,
    {
        WindowInfo { id: self.id, title: self.title.clone(), exec_name: self.exec_name.clone() }
    }
}

/// The key under which the host keeps a decoded icon image.
#[derive(Clone, Copy, Debug, PartialEq, Eq, Structural)]
pub struct IconAllocation(pub u64);

/// One entry of the task list: a window and its icon, once the host has
/// decoded one. An entry without an icon is shown with a placeholder.
#[derive(Debug)]
pub struct TaskEntry {
    pub icon: Option<IconAllocation>,
    pub window: WindowInfo,
}

pub struct TaskEntryView {
    pub icon: Option<IconAllocation>,
    pub window: WindowInfoView,
}

impl View for TaskEntry {
    type V = TaskEntryView;

    open spec fn view(&self) -> TaskEntryView {
        TaskEntryView { icon: self.icon, window: self.window@ }
    }
}

impl Clone for TaskEntry {
    fn clone(&self) -> (copy: Self)
        ensures
            copy@ == self@,
    {
        TaskEntry { icon: self.icon, window: self.window.clone() }
    }
}

/// What the taskbar reacts to. `Tick` carries the windows the host has just
/// enumerated, or nothing if the enumeration failed. `Extracted` is the
/// host's answer to a request for a window's icon: the icon as a data URL,
/// or nothing if there is none. `Allocate` is its answer to a request for an
/// image: the entry to store under the window's id.
#[derive(Clone, Debug)]
pub enum TaskbarMessage {
    Init,
    Resize(Option<Size>),
    FocusWindow(u32),
    Tick(Option<Vec<WindowInfo>>),
    Extracted(WindowInfo, Option<String>),
    Allocate(u32, TaskEntry),
    Nothing,
}

pub enum TaskbarMessageView {
    Init,
    Resize(Option<Size>),
    FocusWindow(u32),
    Tick(Option<Seq<WindowInfoView>>),
    Extracted(WindowInfoView, Option<Seq<char>>),
    Allocate(u32, TaskEntryView),
    Nothing,
}

impl View for TaskbarMessage {
    type V = TaskbarMessageView;

    open spec fn view(&self) -> TaskbarMessageView {
        match *self {
            TaskbarMessage::Init => TaskbarMessageView::Init,
            TaskbarMessage::Resize(size) => TaskbarMessageView::Resize(size),
            TaskbarMessage::FocusWindow(id) => TaskbarMessageView::FocusWindow(id),
            TaskbarMessage::Tick(windows) => TaskbarMessageView::Tick(
                match windows {
                    Some(list) => Some(seq_view(list@)),
                    None => None,
                },
            ),
            TaskbarMessage::Extracted(window, data) => TaskbarMessageView::Extracted(
                window@,
                match data {
                    Some(text) => Some(text@),
                    None => None,
                },
            ),
            TaskbarMessage::Allocate(id, entry) => TaskbarMessageView::Allocate(id, entry@),
            TaskbarMessage::Nothing => TaskbarMessageView::Nothing,
        }
    }
}

/// Whether one of `windows` has the id `id`.
pub open spec fn lists_id(windows: Seq<WindowInfoView>, id: u32) -> bool {
    exists|i: int| 0 <= i < windows.len() && #[trigger] windows[i].id == id
}

/// The first of `windows` that has the id `id`.
pub open spec fn first_with_id(windows: Seq<WindowInfoView>, id: u32) -> WindowInfoView
    decreases windows.len(),
{
    if windows.len() == 0 {
        arbitrary()
    } else if lists_id(windows.drop_last(), id) {
        first_with_id(windows.drop_last(), id)
    } else {
        windows.last()
    }
}

/// The task list after a tick: it holds exactly the ids that `windows`
/// lists. An id that `previous` knew keeps its entry as it was; a new id
/// gets an entry without an icon for the first window listed under it.
pub open spec fn reconciled(
    previous: Map<u32, TaskEntryView>,
    windows: Seq<WindowInfoView>,
) -> Map<u32, TaskEntryView> {
    Map::new(
        |id: u32| lists_id(windows, id),
        |id: u32|
            if previous.contains_key(id) {
                previous[id]
            } else {
                TaskEntryView { icon: None, window: first_with_id(windows, id) }
            },
    )
}

/// The windows whose icons a tick asks for: those listed under an id that
/// `previous` did not know, each id once, in the order of the list.
pub open spec fn extractions(
    previous: Map<u32, TaskEntryView>,
    windows: Seq<WindowInfoView>,
) -> Seq<WindowInfoView>
    decreases windows.len(),
{
    if windows.len() == 0 {
        Seq::empty()
    } else {
        let before = windows.drop_last();
        let window = windows.last();
        if !previous.contains_key(window.id) && !lists_id(before, window.id) {
            extractions(previous, before).push(window)
        } else {
            extractions(previous, before)
        }
    }
}

/// One request to extract an icon for each of `windows`.
pub open spec fn extraction_effects(windows: Seq<WindowInfoView>) -> Seq<EffectView> {
    Seq::new(windows.len(), |i: int| EffectView::ExtractIcon(windows[i]))
}

/// The views of the entries of a task list.
pub open spec fn tasks_view(tasks: Map<u32, TaskEntry>) -> Map<u32, TaskEntryView> {
    tasks.map_values(|entry: TaskEntry| entry@)
}

proof fn lemma_reconciled_extend(
    previous: Map<u32, TaskEntryView>,
    windows: Seq<WindowInfoView>,
    n: int,
)
    requires
        0 <= n < windows.len(),
    ensures
        windows.take(n + 1).drop_last() == windows.take(n),
        windows.take(n + 1).last() == windows[n],
        forall|id: u32|
            lists_id(windows.take(n + 1), id) <==> lists_id(windows.take(n), id) || id
                == windows[n].id,
        lists_id(windows.take(n), windows[n].id) ==> reconciled(previous, windows.take(n + 1))
            == reconciled(previous, windows.take(n)),
        !lists_id(windows.take(n), windows[n].id) ==> reconciled(previous, windows.take(n + 1))
            == reconciled(previous, windows.take(n)).insert(
            windows[n].id,
            if previous.contains_key(windows[n].id) {
                previous[windows[n].id]
            } else {
                TaskEntryView { icon: None, window: windows[n] }
            },
        ),
{
    let shorter = windows.take(n);
    let longer = windows.take(n + 1);
    assert(longer.drop_last() =~= shorter);
    assert forall|id: u32| lists_id(longer, id) <==> lists_id(shorter, id) || id
        == windows[n].id by {
        if lists_id(shorter, id) {
            let i = choose|i: int| 0 <= i < shorter.len() && #[trigger] shorter[i].id == id;
            assert(longer[i].id == id);
        }
        if id == windows[n].id {
            assert(longer[n].id == id);
        }
        if lists_id(longer, id) {
            let i = choose|i: int| 0 <= i < longer.len() && #[trigger] longer[i].id == id;
            if i < n {
                assert(shorter[i].id == id);
            }
        }
    }
    if lists_id(shorter, windows[n].id) {
        assert(reconciled(previous, longer) =~= reconciled(previous, shorter));
    } else {
        assert(reconciled(previous, longer) =~= reconciled(previous, shorter).insert(
            windows[n].id,
            if previous.contains_key(windows[n].id) {
                previous[windows[n].id]
            } else {
                TaskEntryView { icon: None, window: windows[n] }
            },
        ));
    }
}

/// Rebuilds the task list from the windows the host has just enumerated,
/// consulting the previous list, and asks for the icon of every window seen
/// for the first time.
pub fn reconcile(previous: &BTreeMap<u32, TaskEntry>, windows: &Vec<WindowInfo>) -> (next: (
    BTreeMap<u32, TaskEntry>,
    Vec<Effect>,
))
    ensures
        tasks_view(next.0@) == reconciled(tasks_view(previous@), seq_view(windows@)),
        seq_view(next.1@) == extraction_effects(
            extractions(tasks_view(previous@), seq_view(windows@)),
        ),
{
    let mut tasks: BTreeMap<u32, TaskEntry> = BTreeMap::new();
    let mut effects: Vec<Effect> = Vec::new();
    let ghost listed = seq_view(windows@);
    let ghost known = tasks_view(previous@);
    let mut i: usize = 0;
    proof {
        assert(listed.take(0) =~= Seq::<WindowInfoView>::empty());
        assert(tasks_view(tasks@) =~= reconciled(known, listed.take(0)));
        assert(seq_view(effects@) =~= extraction_effects(extractions(known, listed.take(0))));
    }
    while i < windows.len()
        invariant
            0 <= i <= windows.len(),
            listed == seq_view(windows@),
            known == tasks_view(previous@),
            tasks_view(tasks@) == reconciled(known, listed.take(i as int)),
            seq_view(effects@) == extraction_effects(extractions(known, listed.take(i as int))),
        decreases windows.len() - i,
    {
        let window = windows[i].clone();
        proof {
            lemma_reconciled_extend(known, listed, i as int);
            assert(listed[i as int] == window@);
        }
        let ghost before_tasks = tasks@;
        let ghost before_effects = effects@;
        if !tasks.contains_key(&window.id) {
            assert(!lists_id(listed.take(i as int), window.id)) by {
                assert(!tasks_view(tasks@).contains_key(window.id));
            }
            match previous.get(&window.id) {
                Some(entry) => {
                    let kept = entry.clone();
                    assert(known.contains_key(window.id) && known[window.id] == kept@);
                    tasks.insert(window.id, kept);
                    assert(tasks_view(tasks@) =~= tasks_view(before_tasks).insert(
                        window.id,
                        kept@,
                    ));
                },
                None => {
                    assert(!known.contains_key(window.id));
                    let entry = TaskEntry { icon: None, window: window.clone() };
                    tasks.insert(window.id, entry);
                    assert(tasks_view(tasks@) =~= tasks_view(before_tasks).insert(
                        window.id,
                        TaskEntryView { icon: None, window: window@ },
                    ));
                    effects.push(Effect::ExtractIcon(window));
                    proof {
                        let asked = extractions(known, listed.take(i as int));
                        assert(extractions(known, listed.take(i as int + 1)) == asked.push(
                            window@,
                        ));
                        assert(seq_view(effects@) =~= seq_view(before_effects).push(
                            EffectView::ExtractIcon(window@),
                        ));
                        assert(extraction_effects(asked.push(window@)) =~= extraction_effects(
                            asked,
                        ).push(EffectView::ExtractIcon(window@)));
                    }
                },
            }
        } else {
            assert(lists_id(listed.take(i as int), window.id)) by {
                assert(tasks_view(tasks@).contains_key(window.id));
            }
        }
        i = i + 1;
    }
    assert(listed.take(i as int) =~= listed);
    (tasks, effects)
}

/// The position of the first comma in `bytes`, or their length if there is
/// none.
pub open spec fn first_comma(bytes: Seq<u8>) -> int
    decreases bytes.len(),
{
    if bytes.len() == 0 {
        0
    } else if bytes[0] == 0x2c {
        0
    } else {
        1 + first_comma(bytes.drop_first())
    }
}

/// The part of a data URL that holds the encoded image: what stands between
/// the first comma and the next one, or the end. Without a comma there is no
/// such part, and the payload is empty.
pub open spec fn icon_payload(bytes: Seq<u8>) -> Seq<u8> {
    let comma = first_comma(bytes);
    if comma >= bytes.len() {
        Seq::empty()
    } else {
        let rest = bytes.skip(comma + 1);
        rest.take(first_comma(rest))
    }
}

proof fn lemma_first_comma(bytes: Seq<u8>)
    ensures
        0 <= first_comma(bytes) <= bytes.len(),
        first_comma(bytes) < bytes.len() ==> bytes[first_comma(bytes)] == 0x2c,
        forall|i: int| 0 <= i < first_comma(bytes) ==> bytes[i] != 0x2c,
    decreases bytes.len(),
{
    if bytes.len() > 0 && bytes[0] != 0x2c {
        let rest = bytes.drop_first();
        lemma_first_comma(rest);
        assert forall|i: int| 0 <= i < first_comma(bytes) implies bytes[i] != 0x2c by {
            if i > 0 {
                assert(bytes[i] == rest[i - 1]);
            }
        }
    }
}

proof fn lemma_first_comma_found(bytes: Seq<u8>, at: int)
    requires
        0 <= at <= bytes.len(),
        forall|i: int| 0 <= i < at ==> bytes[i] != 0x2c,
        at < bytes.len() ==> bytes[at] == 0x2c,
    ensures
        first_comma(bytes) == at,
{
    lemma_first_comma(bytes);
}

/// The position of the first comma at or after `from`, or the length.
fn find_comma(bytes: &[u8], from: usize) -> (at: usize)
    requires
        from <= bytes@.len(),
    ensures
        at == from + first_comma(bytes@.skip(from as int)),
        from <= at <= bytes@.len(),
{
    let mut at: usize = from;
    let ghost tail = bytes@.skip(from as int);
    while at < bytes.len() && bytes[at] != 0x2c
        invariant
            from <= at <= bytes@.len(),
            tail == bytes@.skip(from as int),
            forall|i: int| 0 <= i < at - from ==> tail[i] != 0x2c,
        decreases bytes@.len() - at,
    {
        at = at + 1;
    }
    proof {
        lemma_first_comma_found(tail, at - from);
    }
    at
}

/// What the standard base64 alphabet with padding decodes `text` to, or
/// `None` where `text` is no such encoding.
pub uninterp spec fn base64_decoded(text: Seq<u8>) -> Option<Seq<u8>>;

/// Calls `Engine::decode` of the crate `base64` on its engine
/// `general_purpose::STANDARD`. The contract claims only that the outcome is
/// a function of the input: the decoded bytes, or nothing where the engine
/// reports an error.
#[verifier::external_body]
fn decode_base64(text: &[u8]) -> (decoded: Option<Vec<u8>>)
    ensures
        match decoded {
            Some(bytes) => base64_decoded(text@) == Some(bytes@),
            None => base64_decoded(text@) is None,
        },
{
    base64::engine::general_purpose::STANDARD.decode(text).ok()
}

/// What follows the decoding of an icon: decoded bytes are handed to the
/// host to make an image of, and a failed decoding asks for nothing, which
/// leaves the window with its placeholder.
pub open spec fn decoded_effects(window: WindowInfoView, decoded: Option<Seq<u8>>) -> Seq<
    EffectView,
> {
    match decoded {
        Some(bytes) => seq![EffectView::AllocateIcon(window, bytes)],
        None => Seq::empty(),
    }
}

/// What follows the extraction of an icon that came as the data URL `data`.
pub open spec fn extracted_effects(window: WindowInfoView, data: Option<Seq<char>>) -> Seq<
    EffectView,
> {
    match data {
        Some(text) => decoded_effects(window, base64_decoded(icon_payload(encode_utf8(text)))),
        None => Seq::empty(),
    }
}

pub fn icon_decoded(window: WindowInfo, decoded: Option<Vec<u8>>) -> (effects: Vec<Effect>)
    ensures
        seq_view(effects@) == decoded_effects(
            window@,
            match decoded {
                Some(bytes) => Some(bytes@),
                None => None,
            },
        ),
{
    let mut effects: Vec<Effect> = Vec::new();
    match decoded {
        Some(bytes) => {
            effects.push(Effect::AllocateIcon(window, bytes));
            assert(seq_view(effects@) =~= seq![EffectView::AllocateIcon(window@, bytes@)]);
        },
        None => {
            assert(seq_view(effects@) =~= Seq::<EffectView>::empty());
        },
    }
    effects
}

/// Decodes the icon that the host extracted for `window` and asks for an
/// image of it.
pub fn icon_extracted(window: WindowInfo, data: Option<String>) -> (effects: Vec<Effect>)
    ensures
        seq_view(effects@) == extracted_effects(
            window@,
            match data {
                Some(text) => Some(text@),
                None => None,
            },
        ),
{
    match data {
        Some(text) => {
            let bytes = text.as_str().as_bytes();
            let comma = find_comma(bytes, 0);
            assert(bytes@.skip(0) =~= bytes@);
            if comma >= bytes.len() {
                let empty = slice_subrange(bytes, 0, 0);
                assert(empty@ =~= icon_payload(bytes@));
                icon_decoded(window, decode_base64(empty))
            } else {
                let end = find_comma(bytes, comma + 1);
                let payload = slice_subrange(bytes, comma + 1, end);
                assert(payload@ =~= icon_payload(bytes@));
                icon_decoded(window, decode_base64(payload))
            }
        },
        None => {
            let effects: Vec<Effect> = Vec::new();
            assert(seq_view(effects@) =~= Seq::<EffectView>::empty());
            effects
        },
    }
}

/// Whether an entry is shown on the taskbar: the shell's own windows and the
/// task switcher's overlay are not.
pub open spec fn is_visible(entry: TaskEntryView) -> bool {
    entry.window.exec_name != "frostwin"@ && entry.window.title != "Task Switching"@
}

pub struct Taskbar {
    pub id: WindowHandle,
    tasks: BTreeMap<u32, TaskEntry>,
}

pub struct TaskbarView {
    pub id: WindowHandle,
    pub tasks: Map<u32, TaskEntryView>,
}

impl View for Taskbar {
    type V = TaskbarView;

    closed spec fn view(&self) -> TaskbarView {
        TaskbarView { id: self.id, tasks: tasks_view(self.tasks@) }
    }
}

impl TaskbarView {
    /// The taskbar after `message`, and what the host is asked to do.
    pub open spec fn step(self, message: TaskbarMessageView) -> (TaskbarView, Seq<EffectView>) {
        match message {
            TaskbarMessageView::Init => (
                self,
                seq![
                    EffectView::DockAtTop(self.id),
                    EffectView::QueryMonitorSize(self.id, WindowKind::Taskbar),
                ],
            ),
            TaskbarMessageView::Resize(Some(size)) => (
                self,
                seq![
                    EffectView::Resize(self.id, spec_taskbar_layout(size).size),
                    EffectView::MoveTo(self.id, spec_taskbar_layout(size).position),
                ],
            ),
            TaskbarMessageView::Resize(None) => (self, Seq::empty()),
            TaskbarMessageView::FocusWindow(id) => (self, seq![EffectView::FocusTask(id)]),
            TaskbarMessageView::Tick(Some(windows)) => (
                TaskbarView { tasks: reconciled(self.tasks, windows), ..self },
                extraction_effects(extractions(self.tasks, windows)),
            ),
            TaskbarMessageView::Tick(None) => (
                TaskbarView { tasks: Map::empty(), ..self },
                Seq::empty(),
            ),
            TaskbarMessageView::Extracted(window, data) => (self, extracted_effects(window, data)),
            TaskbarMessageView::Allocate(id, entry) => (
                TaskbarView { tasks: self.tasks.insert(id, entry), ..self },
                Seq::empty(),
            ),
            TaskbarMessageView::Nothing => (self, Seq::empty()),
        }
    }
}

impl Taskbar {
    /// A taskbar without tasks in the window `id`, and the request to open
    /// that window.
    pub fn new(id: WindowHandle) -> (opened: (Self, Effect))
        ensures
            opened.0@ == (TaskbarView { id, tasks: Map::empty() }),
            opened.1@ == (EffectView::OpenWindow {
                handle: id,
                kind: WindowKind::Taskbar,
                settings: WindowSettings::spec_for_kind(WindowKind::Taskbar),
            }),
    {
        let taskbar = Taskbar { id, tasks: BTreeMap::new() };
        assert(taskbar@.tasks =~= Map::empty());
        (
            taskbar,
            Effect::OpenWindow {
                handle: id,
                kind: WindowKind::Taskbar,
                settings: WindowSettings::for_kind(WindowKind::Taskbar),
            },
        )
    }

    pub fn update(&mut self, message: TaskbarMessage) -> (effects: Vec<Effect>)
        ensures
            final(self)@ == old(self)@.step(message@).0,
            seq_view(effects@) == old(self)@.step(message@).1,
    {
        let mut effects: Vec<Effect> = Vec::new();
        match message {
            TaskbarMessage::Init => {
                effects.push(Effect::DockAtTop(self.id));
                effects.push(Effect::QueryMonitorSize(self.id, WindowKind::Taskbar));
            },
            TaskbarMessage::Resize(resize) => {
                if let Some(size) = resize {
                    let layout = taskbar_layout(size);
                    effects.push(Effect::Resize(self.id, layout.size));
                    effects.push(Effect::MoveTo(self.id, layout.position));
                }
            },
            TaskbarMessage::FocusWindow(window_id) => {
                effects.push(Effect::FocusTask(window_id));
            },
            TaskbarMessage::Tick(enumerated) => {
                match enumerated {
                    Some(windows) => {
                        let (tasks, requests) = reconcile(&self.tasks, &windows);
                        self.tasks = tasks;
                        effects = requests;
                    },
                    None => {
                        self.tasks.clear();
                        assert(self@.tasks =~= Map::empty());
                    },
                }
            },
            TaskbarMessage::Extracted(window, data) => {
                effects = icon_extracted(window, data);
            },
            TaskbarMessage::Allocate(window_id, entry) => {
                let ghost before = self.tasks@;
                let ghost stored = entry@;
                self.tasks.insert(window_id, entry);
                assert(tasks_view(self.tasks@) =~= tasks_view(before).insert(window_id, stored));
            },
            TaskbarMessage::Nothing => {},
        }
        assert(seq_view(effects@) =~= old(self)@.step(message@).1);
        effects
    }

    /// The window the taskbar is shown in.
    pub fn handle(&self) -> (id: WindowHandle)
        ensures
            id == self@.id,
    {
        self.id
    }

    /// The number of entries in the task list.
    pub fn len(&self) -> (n: usize)
        ensures
            n == self@.tasks.len(),
    {
        assert(self.tasks@.dom() =~= tasks_view(self.tasks@).dom());
        self.tasks.len()
    }

    /// The entries that the taskbar shows, each with the id it is stored
    /// under, in increasing order of that id.
    pub fn visible_tasks(&self) -> (shown: Vec<(u32, TaskEntry)>)
        ensures
            forall|i: int|
                0 <= i < shown@.len() ==> self@.tasks.contains_key(#[trigger] shown@[i].0)
                    && self@.tasks[shown@[i].0] == shown@[i].1@ && is_visible(shown@[i].1@),
            forall|i: int, j: int|
                0 <= i < j < shown@.len() ==> #[trigger] shown@[i].0 < #[trigger] shown@[j].0,
            forall|id: u32|
                #[trigger] self@.tasks.contains_key(id) && is_visible(self@.tasks[id])
                    ==> exists|i: int| 0 <= i < shown@.len() && #[trigger] shown@[i].0 == id,
    {
        let shell = String::from_str("frostwin");
        let switcher = String::from_str("Task Switching");
        let mut shown: Vec<(u32, TaskEntry)> = Vec::new();
        let ghost mut picked: Seq<int> = Seq::empty();
        for kv in it: self.tasks.iter()
            invariant
                it.seq() == spec_btree_map_iter(&self.tasks).remaining(),
                increasing_seq(it.seq().map_values(|kv: (&u32, &TaskEntry)| *kv.0)),
                shell@ == "frostwin"@,
                switcher@ == "Task Switching"@,
                picked.len() == shown@.len(),
                forall|i: int|
                    0 <= i < picked.len() ==> 0 <= #[trigger] picked[i] < it.index() && shown@[i].0
                        == *it.seq()[picked[i]].0 && shown@[i].1@ == (*it.seq()[picked[i]].1)@
                        && is_visible(shown@[i].1@),
                forall|i: int, j: int|
                    0 <= i < j < picked.len() ==> #[trigger] picked[i] < #[trigger] picked[j],
                forall|p: int|
                    0 <= p < it.index() && is_visible((*#[trigger] it.seq()[p].1)@) ==> exists|
                        i: int,
                    | 0 <= i < picked.len() && #[trigger] picked[i] == p,
        {
            let (key, entry) = kv;
            let ghost at = it.index();
            let ghost before = picked;
            if !(entry.window.exec_name == shell) && !(entry.window.title == switcher) {
                shown.push((*key, entry.clone()));
                proof {
                    picked = picked.push(at);
                    assert forall|p: int|
                        0 <= p < at + 1 && is_visible(
                            (*#[trigger] it.seq()[p].1)@,
                        ) implies exists|i: int|
                        0 <= i < picked.len() && #[trigger] picked[i] == p by {
                        if p < at {
                            let i = choose|i: int| 0 <= i < before.len() && #[trigger] before[i] == p;
                            assert(picked[i] == p);
                        } else {
                            assert(picked.last() == p);
                        }
                    }
                }
            }
        }
        proof {
            let all = spec_btree_map_iter(&self.tasks).remaining();
            let keys = all.map_values(|kv: (&u32, &TaskEntry)| *kv.0);
            assert forall|i: int| 0 <= i < shown@.len() implies self@.tasks.contains_key(
                #[trigger] shown@[i].0,
            ) && self@.tasks[shown@[i].0] == shown@[i].1@ && is_visible(shown@[i].1@) by {
                let p = picked[i];
                assert(self.tasks@.contains_key(*all[p].0));
                assert(self.tasks@[*all[p].0] == *all[p].1);
            }
            assert forall|i: int, j: int| 0 <= i < j < shown@.len() implies #[trigger] shown@[i].0
                < #[trigger] shown@[j].0 by {
                assert(keys[picked[i]] == shown@[i].0);
                assert(keys[picked[j]] == shown@[j].0);
                lemma_increasing_keys(keys, picked[i], picked[j]);
            }
            assert forall|id: u32|
                #[trigger] self@.tasks.contains_key(id) && is_visible(
                    self@.tasks[id],
                ) implies exists|i: int| 0 <= i < shown@.len() && #[trigger] shown@[i].0 == id by {
                assert(self.tasks@.contains_key(id));
                let pair = (&id, &self.tasks@[id]);
                assert(all.contains(pair));
                let p = choose|p: int| 0 <= p < all.len() && all[p] == pair;
                assert(is_visible((*all[p].1)@));
                let i = choose|i: int| 0 <= i < picked.len() && #[trigger] picked[i] == p;
                assert(shown@[i].0 == id);
            }
        }
        shown
    }

    /// The entry stored under the window id `id`, if there is one.
    pub fn get(&self, id: u32) -> (found: Option<&TaskEntry>)
        ensures
            match found {
                Some(entry) => self@.tasks.contains_key(id) && self@.tasks[id] == entry@,
                None => !self@.tasks.contains_key(id),
            },
    {
        self.tasks.get(&id)
    }
}

/// A tick that finds the windows it found the tick before keeps every entry
/// as it is and asks for no icon.
pub proof fn law_reconcile_idempotent(
    previous: Map<u32, TaskEntryView>,
    windows: Seq<WindowInfoView>,
)
    ensures
        reconciled(reconciled(previous, windows), windows) == reconciled(previous, windows),
        extractions(reconciled(previous, windows), windows) == Seq::<WindowInfoView>::empty(),
{
    assert(reconciled(reconciled(previous, windows), windows) =~= reconciled(previous, windows));
    lemma_no_extraction_for_known(reconciled(previous, windows), windows, windows.len() as int);
    assert(windows.take(windows.len() as int) =~= windows);
}

/// A tick that finds no window id that the task list does not hold already
/// keeps the entry of every id it finds, icon and all, and asks for no
/// icon. If it finds every id that the list holds, the list is left as it
/// is.
pub proof fn law_reconcile_keeps_known(
    previous: Map<u32, TaskEntryView>,
    windows: Seq<WindowInfoView>,
)
    requires
        forall|i: int| 0 <= i < windows.len() ==> previous.contains_key(#[trigger] windows[i].id),
    ensures
        extractions(previous, windows) == Seq::<WindowInfoView>::empty(),
        forall|id: u32|
            lists_id(windows, id) ==> #[trigger] reconciled(previous, windows)[id] == previous[id],
        (forall|id: u32| previous.contains_key(id) ==> lists_id(windows, id)) ==> reconciled(
            previous,
            windows,
        ) == previous,
{
    lemma_no_extraction_for_known(previous, windows, windows.len() as int);
    assert(windows.take(windows.len() as int) =~= windows);
    if forall|id: u32| previous.contains_key(id) ==> lists_id(windows, id) {
        assert(reconciled(previous, windows) =~= previous);
    }
}

proof fn lemma_no_extraction_for_known(
    known: Map<u32, TaskEntryView>,
    windows: Seq<WindowInfoView>,
    n: int,
)
    requires
        0 <= n <= windows.len(),
        forall|i: int| 0 <= i < windows.len() ==> known.contains_key(#[trigger] windows[i].id),
    ensures
        extractions(known, windows.take(n)) == Seq::<WindowInfoView>::empty(),
    decreases n,
{
    if n > 0 {
        lemma_no_extraction_for_known(known, windows, n - 1);
        assert(windows.take(n).drop_last() =~= windows.take(n - 1));
        assert(windows.take(n).last() == windows[n - 1]);
    }
}

/// A tick asks for the icon of a window only when its id is new to the
/// task list, and for no id twice.
pub proof fn law_one_extraction_per_id(
    previous: Map<u32, TaskEntryView>,
    windows: Seq<WindowInfoView>,
)
    ensures
        forall|i: int|
            0 <= i < extractions(previous, windows).len() ==> !previous.contains_key(
                (#[trigger] extractions(previous, windows)[i]).id,
            ) && lists_id(windows, extractions(previous, windows)[i].id),
        forall|i: int, j: int|
            0 <= i < j < extractions(previous, windows).len() ==> (#[trigger] extractions(
                previous,
                windows,
            )[i]).id != (#[trigger] extractions(previous, windows)[j]).id,
    decreases windows.len(),
{
    if windows.len() > 0 {
        let before = windows.drop_last();
        let window = windows.last();
        law_one_extraction_per_id(previous, before);
        let asked = extractions(previous, before);
        assert forall|i: int| 0 <= i < asked.len() implies lists_id(
            windows,
            (#[trigger] asked[i]).id,
        ) by {
            let k = choose|k: int| 0 <= k < before.len() && #[trigger] before[k].id == asked[i].id;
            assert(windows[k].id == asked[i].id);
        }
        assert(windows[windows.len() - 1].id == window.id);
    }
}

/// A window id that the host no longer lists is gone from the task list
/// after the tick, whatever the list held before; and every id it lists is
/// there.
pub proof fn law_no_ghost_entries(
    previous: Map<u32, TaskEntryView>,
    windows: Seq<WindowInfoView>,
    id: u32,
)
    ensures
        reconciled(previous, windows).contains_key(id) <==> lists_id(windows, id),
        previous.contains_key(id) && lists_id(windows, id) ==> reconciled(previous, windows)[id]
            == previous[id],
{
}

} // verus!
