//! The start menu: the tree of launchable entries and the pinned tiles.

use vstd::prelude::*;
use vstd::string::StringExecFns;
use crate::effect::{Effect, EffectView};
use crate::names::{
    extension, file_stem, has_extension, listing_order, sort_names, spec_extension,
    spec_file_stem,
};
use crate::views::seq_view;
use crate::window::{
    spec_start_menu_layout, start_menu_layout, Size, WindowHandle, WindowKind, WindowSettings,
};

verus! {

/// The user's start-menu preferences: the pinned tiles, as paths, in the
/// order in which they were pinned.
#[derive(Clone, Debug)]
pub struct StartMenuSettings {
    pub tiles: Vec<String>,
}

pub struct StartMenuSettingsView {
    pub tiles: Seq<Seq<char>>,
}

impl View for StartMenuSettings {
    type V = StartMenuSettingsView;

    open spec fn view(&self) -> StartMenuSettingsView {
        StartMenuSettingsView { tiles: seq_view(self.tiles@) }
    }
}

/// The tiles after `path` was pinned: it is added at the end, whether or not
/// it is pinned already.
pub open spec fn pinned(tiles: Seq<Seq<char>>, path: Seq<char>) -> Seq<Seq<char>> {
    tiles.push(path)
}

/// The tiles after `path` was unpinned: every tile equal to it is gone, and
/// the others keep their order.
pub open spec fn unpinned(tiles: Seq<Seq<char>>, path: Seq<char>) -> Seq<Seq<char>> {
    tiles.filter(differs_from(path))
}

/// The predicate that holds of every tile but `path`.
pub open spec fn differs_from(path: Seq<char>) -> spec_fn(Seq<char>) -> bool {
    |tile: Seq<char>| tile != path
}

impl StartMenuSettings {
    pub fn new() -> (settings: StartMenuSettings)
        ensures
            settings@.tiles == Seq::<Seq<char>>::empty(),
    {
        let settings = StartMenuSettings { tiles: Vec::new() };
        assert(settings@.tiles =~= Seq::<Seq<char>>::empty());
        settings
    }

    pub fn pin(&mut self, path: String)
        ensures
            final(self)@.tiles == pinned(old(self)@.tiles, path@),
    {
        self.tiles.push(path);
        assert(self@.tiles =~= pinned(old(self)@.tiles, path@));
    }

    pub fn unpin(&mut self, path: &String)
        ensures
            final(self)@.tiles == unpinned(old(self)@.tiles, path@),
    {
        let mut kept: Vec<String> = Vec::new();
        let ghost before = seq_view(self.tiles@);
        let ghost differs = differs_from(path@);
        let mut i: usize = 0;
        proof {
            assert(before.take(0) =~= Seq::<Seq<char>>::empty());
            assert(seq_view(kept@) =~= before.take(0).filter(differs));
        }
        while i < self.tiles.len()
            invariant
                0 <= i <= self.tiles.len(),
                before == seq_view(self.tiles@),
                differs == differs_from(path@),
                seq_view(kept@) == before.take(i as int).filter(differs),
            decreases self.tiles.len() - i,
        {
            proof {
                assert(before.take(i as int + 1) =~= before.take(i as int).push(before[i as int]));
                lemma_filter_push(before.take(i as int), before[i as int], differs);
            }
            let ghost kept_before = kept@;
            if !(self.tiles[i] == *path) {
                kept.push(self.tiles[i].clone());
                assert(seq_view(kept@) =~= seq_view(kept_before).push(before[i as int]));
            }
            i = i + 1;
        }
        assert(before.take(i as int) =~= before);
        self.tiles = kept;
    }

    pub fn duplicate(&self) -> (copy: StartMenuSettings)
        ensures
            copy@ == self@,
    {
        let mut tiles: Vec<String> = Vec::new();
        let mut i: usize = 0;
        while i < self.tiles.len()
            invariant
                0 <= i <= self.tiles.len(),
                tiles@.len() == i,
                forall|j: int| 0 <= j < i ==> tiles@[j]@ == self.tiles@[j]@,
            decreases self.tiles.len() - i,
        {
            tiles.push(self.tiles[i].clone());
            i = i + 1;
        }
        assert(seq_view(tiles@) =~= seq_view(self.tiles@));
        StartMenuSettings { tiles }
    }
}

proof fn lemma_filter_push<T>(s: Seq<T>, x: T, keep: spec_fn(T) -> bool)
    ensures
        s.push(x).filter(keep) == if keep(x) {
            s.filter(keep).push(x)
        } else {
            s.filter(keep)
        },
{
    reveal(Seq::filter);
    assert(s.push(x).drop_last() =~= s);
}

/// Unpinning a path that was just pinned gives back the tiles as they were,
/// provided the path was not among them before.
pub proof fn law_pin_unpin_round_trip(tiles: Seq<Seq<char>>, path: Seq<char>)
    requires
        !tiles.contains(path),
    ensures
        unpinned(pinned(tiles, path), path) == tiles,
{
    let differs = differs_from(path);
    lemma_filter_push(tiles, path, differs);
    assert forall|i: int| 0 <= i < tiles.len() implies differs(tiles[i]) by {
        assert(tiles.contains(tiles[i]));
    }
    lemma_filter_keeps_all(tiles, differs);
}

proof fn lemma_filter_keeps_all<T>(s: Seq<T>, keep: spec_fn(T) -> bool)
    requires
        forall|i: int| 0 <= i < s.len() ==> keep(s[i]),
    ensures
        s.filter(keep) == s,
    decreases s.len(),
{
    reveal(Seq::filter);
    if s.len() > 0 {
        lemma_filter_keeps_all(s.drop_last(), keep);
        assert(s.drop_last().push(s.last()) =~= s);
    }
}

/// The two pages of the start menu.
#[derive(Clone, Copy, Debug, PartialEq, Eq, Structural)]
pub enum StartMenuTab {
    Tiles,
    Applications,
}

impl StartMenuTab {
    /// The heading of the page.
    pub open spec fn spec_title(self) -> Seq<char> {
        match self {
            StartMenuTab::Tiles => "Tiles"@,
            StartMenuTab::Applications => "Applications"@,
        }
    }

    pub fn title(self) -> (title: &'static str)
        ensures
            title@ == self.spec_title(),
    {
        match self {
            StartMenuTab::Tiles => "Tiles",
            StartMenuTab::Applications => "Applications",
        }
    }
}

/// What the disk holds at a path.
#[derive(Clone, Copy, Debug, PartialEq, Eq, Structural)]
pub enum FsKind {
    Directory,
    File,
    Other,
}

/// One entry of a directory, as the host read it: its path, its file name
/// if it has one that is text, what it is, and, for a directory that could
/// be listed, its own entries.
#[derive(Debug)]
pub struct FsEntry {
    pub path: String,
    pub name: Option<String>,
    pub kind: FsKind,
    pub children: Option<Vec<FsEntry>>,
}

pub struct FsEntryView {
    pub path: Seq<char>,
    pub name: Option<Seq<char>>,
    pub kind: FsKind,
    pub children: Option<Seq<FsEntryView>>,
}

/// What an entry holds, seen through the views of its parts.
pub open spec fn fs_entry_view(entry: FsEntry) -> FsEntryView
    decreases entry,
{
    FsEntryView {
        path: entry.path@,
        name: match entry.name {
            Some(name) => Some(name@),
            None => None,
        },
        kind: entry.kind,
        children: match entry.children {
            Some(children) => Some(
                Seq::new(
                    children@.len(),
                    |i: int|
                        if 0 <= i < children@.len() {
                            fs_entry_view(children@[i])
                        } else {
                            arbitrary()
                        },
                ),
            ),
            None => None,
        },
    }
}

impl View for FsEntry {
    type V = FsEntryView;

    open spec fn view(&self) -> FsEntryView {
        fs_entry_view(*self)
    }
}

/// Why a path gives no start-menu entry.
#[derive(Clone, Copy, Debug, PartialEq, Eq, Structural)]
pub enum StartItemError {
    /// The path has no file name, or one that is not text.
    NameMissing,
    /// The path is a directory that could not be listed.
    DirectoryUnreadable,
}

/// One entry of the start-menu tree: a folder with its entries, or something
/// to launch.
#[derive(Debug)]
pub struct StartItem {
    pub name: String,
    pub content: Option<Vec<StartItem>>,
    pub sorted: Option<Vec<String>>,
    pub path: String,
    /// The extension of the file name at `path`, if it has one.
    pub extension: Option<String>,
    pub open: bool,
}

pub struct StartItemView {
    pub name: Seq<char>,
    pub content: Option<Seq<StartItemView>>,
    pub sorted: Option<Seq<Seq<char>>>,
    pub path: Seq<char>,
    pub extension: Option<Seq<char>>,
    pub open: bool,
}

/// What an entry of the tree holds, seen through the views of its parts.
pub open spec fn start_item_view(item: StartItem) -> StartItemView
    decreases item,
{
    StartItemView {
        name: item.name@,
        content: match item.content {
            Some(content) => Some(
                Seq::new(
                    content@.len(),
                    |i: int|
                        if 0 <= i < content@.len() {
                            start_item_view(content@[i])
                        } else {
                            arbitrary()
                        },
                ),
            ),
            None => None,
        },
        sorted: match item.sorted {
            Some(sorted) => Some(seq_view(sorted@)),
            None => None,
        },
        path: item.path@,
        extension: match item.extension {
            Some(extension) => Some(extension@),
            None => None,
        },
        open: item.open,
    }
}

impl View for StartItem {
    type V = StartItemView;

    open spec fn view(&self) -> StartItemView {
        start_item_view(*self)
    }
}

/// What a start-menu entry reacts to. The path of `Toggle` names the entry
/// to open or close from the inside out: its last name is looked up first.
#[derive(Clone, Debug)]
pub enum StartItemMessage {
    Toggle(Vec<String>),
    Launch(String),
}

pub enum StartItemMessageView {
    Toggle(Seq<Seq<char>>),
    Launch(Seq<char>),
}

impl View for StartItemMessage {
    type V = StartItemMessageView;

    open spec fn view(&self) -> StartItemMessageView {
        match *self {
            StartItemMessage::Toggle(path) => StartItemMessageView::Toggle(seq_view(path@)),
            StartItemMessage::Launch(path) => StartItemMessageView::Launch(path@),
        }
    }
}

/// The place of the first of `items` that is called `name`.
pub open spec fn position(items: Seq<StartItemView>, name: Seq<char>) -> Option<int>
    decreases items.len(),
{
    if items.len() == 0 {
        None
    } else {
        match position(items.drop_last(), name) {
            Some(at) => Some(at),
            None => if items.last().name == name {
                Some(items.len() - 1)
            } else {
                None
            },
        }
    }
}

/// The entries after `item` was put among them: it takes the place of the
/// entry of its name, or the last place if there is none.
pub open spec fn inserted(items: Seq<StartItemView>, item: StartItemView) -> Seq<StartItemView> {
    match position(items, item.name) {
        Some(at) => items.update(at, item),
        None => items.push(item),
    }
}

/// The names of `items`, in their order.
pub open spec fn names_of(items: Seq<StartItemView>) -> Seq<Seq<char>> {
    Seq::new(items.len(), |i: int| items[i].name)
}

/// Whether an entry of a directory is left out of the start menu: files
/// with the extension `ini` are.
pub open spec fn is_skipped(entry: FsEntryView) -> bool {
    entry.kind is File && match entry.name {
        Some(name) => spec_extension(name) == Some("ini"@),
        None => false,
    }
}

/// The start-menu entry for what the disk holds at a path. A directory
/// becomes a folder with the entries of its listing; a shortcut, that is a
/// file with the extension `lnk`, is called by its stem; everything else is
/// called by its file name.
pub open spec fn spec_new(entry: FsEntryView) -> Result<StartItemView, StartItemError>
    decreases entry,
{
    match entry.name {
        None => Err(StartItemError::NameMissing),
        Some(name) => match entry.kind {
            FsKind::Directory => match entry.children {
                Some(children) => Ok(
                    StartItemView {
                        name,
                        content: Some(collected_first(Seq::empty(), children, children.len())),
                        sorted: None,
                        path: entry.path,
                        extension: spec_extension(name),
                        open: false,
                    },
                ),
                None => Err(StartItemError::DirectoryUnreadable),
            },
            FsKind::File => Ok(
                StartItemView {
                    name: if spec_extension(name) == Some("lnk"@) {
                        spec_file_stem(name)
                    } else {
                        name
                    },
                    content: None,
                    sorted: None,
                    path: entry.path,
                    extension: spec_extension(name),
                    open: false,
                },
            ),
            FsKind::Other => Ok(
                StartItemView {
                    name,
                    content: None,
                    sorted: None,
                    path: entry.path,
                    extension: spec_extension(name),
                    open: false,
                },
            ),
        },
    }
}

/// The entries after the first `n` of `entries` were put among `target`,
/// one after the other. An entry that is skipped or gives no start-menu
/// entry changes nothing.
pub open spec fn collected_first(
    target: Seq<StartItemView>,
    entries: Seq<FsEntryView>,
    n: nat,
) -> Seq<StartItemView>
    decreases entries, n,
{
    if n == 0 || n > entries.len() {
        target
    } else {
        let before = collected_first(target, entries, (n - 1) as nat);
        let entry = entries[n - 1];
        if is_skipped(entry) {
            before
        } else {
            match spec_new(entry) {
                Ok(item) => inserted(before, item),
                Err(_) => before,
            }
        }
    }
}

/// The entries after all of `entries` were put among `target`.
pub open spec fn collected(target: Seq<StartItemView>, entries: Seq<FsEntryView>) -> Seq<
    StartItemView,
> {
    collected_first(target, entries, entries.len())
}

/// The entries of a directory are seen one by one.
pub proof fn lemma_entry_children(entry: FsEntry)
    ensures
        entry@.children == match entry.children {
            Some(children) => Some(seq_view(children@)),
            None => None,
        },
{
    match entry.children {
        Some(children) => {
            assert(entry@.children is Some);
            assert(entry@.children->0 =~= seq_view(children@));
        },
        None => {},
    }
}

/// The entries of a folder are seen one by one.
pub proof fn lemma_item_content(item: StartItem)
    ensures
        item@.content == match item.content {
            Some(content) => Some(seq_view(content@)),
            None => None,
        },
{
    match item.content {
        Some(content) => {
            assert(item@.content is Some);
            assert(item@.content->0 =~= seq_view(content@));
        },
        None => {},
    }
}

/// The place of the first of `items` that is called `name`.
fn find(items: &Vec<StartItem>, name: &String) -> (found: Option<usize>)
    ensures
        match found {
            Some(at) => position(seq_view(items@), name@) == Some(at as int) && at < items@.len(),
            None => position(seq_view(items@), name@) is None,
        },
{
    let ghost all = seq_view(items@);
    let mut i: usize = 0;
    assert(all.take(0) =~= Seq::<StartItemView>::empty());
    while i < items.len()
        invariant
            0 <= i <= items.len(),
            all == seq_view(items@),
            position(all.take(i as int), name@) is None,
        decreases items.len() - i,
    {
        assert(all.take(i as int + 1).drop_last() =~= all.take(i as int));
        if items[i].name == *name {
            proof {
                lemma_position_extends(all, name@, i as int + 1);
            }
            return Some(i);
        }
        i = i + 1;
    }
    assert(all.take(i as int) =~= all);
    None
}

/// A place found among the first `n` entries is the place among all.
proof fn lemma_position_extends(items: Seq<StartItemView>, name: Seq<char>, n: int)
    requires
        0 <= n <= items.len(),
        position(items.take(n), name) is Some,
    ensures
        position(items, name) == position(items.take(n), name),
    decreases items.len() - n,
{
    if n < items.len() {
        assert(items.take(n + 1).drop_last() =~= items.take(n));
        lemma_position_extends(items, name, n + 1);
    } else {
        assert(items.take(n) =~= items);
    }
}

proof fn lemma_position_bounds(items: Seq<StartItemView>, name: Seq<char>)
    ensures
        match position(items, name) {
            Some(at) => 0 <= at < items.len() && items[at].name == name,
            None => true,
        },
    decreases items.len(),
{
    if items.len() > 0 {
        lemma_position_bounds(items.drop_last(), name);
    }
}

/// Puts `item` among `items`: in the place of the entry of its name, or at
/// the end.
fn insert(items: &mut Vec<StartItem>, item: StartItem)
    ensures
        seq_view(final(items)@) == inserted(seq_view(old(items)@), item@),
{
    let ghost before = seq_view(items@);
    match find(items, &item.name) {
        Some(at) => {
            items[at] = item;
            assert(seq_view(items@) =~= before.update(at as int, item@));
        },
        None => {
            items.push(item);
            assert(seq_view(items@) =~= before.push(item@));
        },
    }
}

/// Whether a directory entry is left out of the start menu.
fn skips(entry: &FsEntry) -> (skipped: bool)
    ensures
        skipped == is_skipped(entry@),
{
    match entry.kind {
        FsKind::File => match &entry.name {
            Some(name) => has_extension(name.as_str(), "ini"),
            None => false,
        },
        _ => false,
    }
}

/// Puts the start-menu entries for `entries` among `target`, one after the
/// other. Entries that are skipped, and entries that give no start-menu
/// entry, are passed over.
pub fn get_dir_contents(entries: &Vec<FsEntry>, target: &mut Vec<StartItem>)
    ensures
        seq_view(final(target)@) == collected(seq_view(old(target)@), seq_view(entries@)),
        well_formed_all(seq_view(old(target)@)) ==> well_formed_all(seq_view(final(target)@)),
    decreases entries,
{
    let ghost start = seq_view(target@);
    proof {
        if well_formed_all(start) {
            law_listing_is_well_formed(start, seq_view(entries@), entries@.len());
        }
    }
    let ghost listed = seq_view(entries@);
    let mut i: usize = 0;
    while i < entries.len()
        invariant
            0 <= i <= entries.len(),
            listed == seq_view(entries@),
            seq_view(target@) == collected_first(start, listed, i as nat),
        decreases entries.len() - i,
    {
        let entry = &entries[i];
        assert(listed[i as int] == entry@);
        if !skips(entry) {
            match StartItem::new(entry) {
                Ok(item) => {
                    insert(target, item);
                },
                Err(_) => {},
            }
        }
        i = i + 1;
    }
}

/// The entry made ready for display: every folder in it holds the names of
/// its entries in the order in which they are listed.
pub open spec fn prepared(item: StartItemView) -> StartItemView
    decreases item,
{
    match item.content {
        Some(content) => StartItemView {
            content: Some(
                Seq::new(
                    content.len(),
                    |i: int|
                        if 0 <= i < content.len() {
                            prepared(content[i])
                        } else {
                            arbitrary()
                        },
                ),
            ),
            sorted: Some(listing_order(names_of(content))),
            ..item
        },
        None => item,
    }
}

/// Each of `items` made ready for display.
pub open spec fn prepared_all(items: Seq<StartItemView>) -> Seq<StartItemView> {
    Seq::new(items.len(), |i: int| prepared(items[i]))
}

/// The paths whose icons an entry needs: its own if it is something to
/// launch, those of its entries, in their order, if it is a folder.
pub open spec fn icon_paths(item: StartItemView) -> Seq<Seq<char>>
    decreases item,
{
    match item.content {
        Some(content) => icon_paths_first(content, content.len()),
        None => seq![item.path],
    }
}

/// The paths whose icons the first `n` of `items` need.
pub open spec fn icon_paths_first(items: Seq<StartItemView>, n: nat) -> Seq<Seq<char>>
    decreases items, n,
{
    if n == 0 || n > items.len() {
        Seq::empty()
    } else {
        icon_paths_first(items, (n - 1) as nat) + icon_paths(items[n - 1])
    }
}

/// One request to load an icon for each of `paths`.
pub open spec fn load_effects(paths: Seq<Seq<char>>) -> Seq<EffectView> {
    Seq::new(paths.len(), |i: int| EffectView::LoadIcon(paths[i]))
}

/// The entry after the entry that `path` names in it was opened or closed.
/// The path is read from its end: the empty path names the entry itself, and
/// a longer one names what the rest of it names in the entry called by its
/// last name. A path that names nothing changes nothing.
pub open spec fn toggled(item: StartItemView, path: Seq<Seq<char>>) -> StartItemView
    decreases path.len(),
{
    if path.len() == 0 {
        StartItemView { open: !item.open, ..item }
    } else {
        match item.content {
            Some(content) => StartItemView {
                content: Some(toggled_in(content, path)),
                ..item
            },
            None => item,
        }
    }
}

/// The entries after the entry that `path` names among them was opened or
/// closed.
pub open spec fn toggled_in(items: Seq<StartItemView>, path: Seq<Seq<char>>) -> Seq<
    StartItemView,
>
    decreases path.len(), 0nat,
{
    if path.len() == 0 {
        items
    } else {
        match position(items, path.last()) {
            Some(at) => if 0 <= at < items.len() {
                items.update(at, toggled(items[at], path.drop_last()))
            } else {
                items
            },
            None => items,
        }
    }
}

/// The entry after `message`: launching changes nothing in the tree.
pub open spec fn updated(item: StartItemView, message: StartItemMessageView) -> StartItemView {
    match message {
        StartItemMessageView::Toggle(path) => toggled(item, path),
        StartItemMessageView::Launch(_) => item,
    }
}

/// Opens or closes the entry that `path` names among `items`.
fn toggle_in(items: &mut Vec<StartItem>, path: Vec<String>)
    ensures
        seq_view(final(items)@) == toggled_in(seq_view(old(items)@), seq_view(path@)),
    decreases path@.len(), 0nat,
{
    let mut path = path;
    let ghost whole = seq_view(path@);
    let ghost before = seq_view(items@);
    match path.pop() {
        Some(sub_dir) => {
            assert(seq_view(path@) =~= whole.drop_last());
            assert(sub_dir@ == whole.last());
            match find(items, &sub_dir) {
                Some(at) => {
                    let ghost child = items@[at as int];
                    items[at].toggle(path);
                    assert(seq_view(items@) =~= before.update(
                        at as int,
                        toggled(child@, whole.drop_last()),
                    ));
                },
                None => {},
            }
        },
        None => {
            assert(whole.len() == 0);
        },
    }
}

impl StartItem {
    /// The start-menu entry for what the disk holds at a path.
    pub fn new(entry: &FsEntry) -> (made: Result<StartItem, StartItemError>)
        ensures
            match made {
                Ok(item) => spec_new(entry@) == Ok::<StartItemView, StartItemError>(item@)
                    && well_formed(item@),
                Err(error) => spec_new(entry@) == Err::<StartItemView, StartItemError>(error),
            },
        decreases entry,
    {
        proof {
            law_new_is_well_formed(entry@);
        }
        match &entry.name {
            None => Err(StartItemError::NameMissing),
            Some(file_name) => match entry.kind {
                FsKind::Directory => match &entry.children {
                    Some(children) => {
                        let mut content: Vec<StartItem> = Vec::new();
                        proof {
                            assert(seq_view(content@) =~= Seq::<StartItemView>::empty());
                            lemma_entry_children(*entry);
                        }
                        get_dir_contents(children, &mut content);
                        let item = StartItem {
                            name: file_name.clone(),
                            content: Some(content),
                            sorted: None,
                            path: entry.path.clone(),
                            extension: extension(file_name.as_str()),
                            open: false,
                        };
                        proof {
                            lemma_item_content(item);
                        }
                        Ok(item)
                    },
                    None => Err(StartItemError::DirectoryUnreadable),
                },
                FsKind::File => {
                    let name = if has_extension(file_name.as_str(), "lnk") {
                        file_stem(file_name.as_str())
                    } else {
                        file_name.clone()
                    };
                    Ok(
                        StartItem {
                            name,
                            content: None,
                            sorted: None,
                            path: entry.path.clone(),
                            extension: extension(file_name.as_str()),
                            open: false,
                        },
                    )
                },
                FsKind::Other => Ok(
                    StartItem {
                        name: file_name.clone(),
                        content: None,
                        sorted: None,
                        path: entry.path.clone(),
                        extension: extension(file_name.as_str()),
                        open: false,
                    },
                ),
            },
        }
    }

    /// Opens or closes the entry that `path` names in this one.
    fn toggle(&mut self, path: Vec<String>)
        ensures
            final(self)@ == toggled(old(self)@, seq_view(path@)),
        decreases path@.len(), 1nat,
    {
        if path.len() == 0 {
            self.open = !self.open;
            proof {
                lemma_item_content(*old(self));
                lemma_item_content(*self);
            }
        } else {
            proof {
                lemma_item_content(*old(self));
            }
            match &mut self.content {
                Some(content) => {
                    toggle_in(content, path);
                },
                None => {},
            }
            proof {
                lemma_item_content(*self);
            }
        }
    }

    /// Makes the entry ready for display: every folder in it gets the list
    /// of the names of its entries, in the order in which they are shown.
    /// Asks for the icon of everything in it that can be launched.
    pub fn prep(&mut self) -> (effects: Vec<Effect>)
        ensures
            final(self)@ == prepared(old(self)@),
            seq_view(effects@) == load_effects(icon_paths(old(self)@)),
            well_formed(old(self)@) ==> well_formed(final(self)@),
        decreases *old(self),
    {
        proof {
            lemma_item_content(*old(self));
            if well_formed(old(self)@) {
                law_prepared_keeps_well_formed(old(self)@);
            }
        }
        let mut effects: Vec<Effect> = Vec::new();
        match &mut self.content {
            Some(content) => {
                let keys = sort_names(&names(content));
                self.sorted = Some(keys);
                let ghost start = content@;
                let ghost seen = seq_view(content@);
                let mut i: usize = 0;
                assert(seq_view(effects@) =~= load_effects(icon_paths_first(seen, 0)));
                while i < content.len()
                    invariant
                        0 <= i <= content.len(),
                        content@.len() == start.len(),
                        seen == seq_view(start),
                        old(self).content is Some,
                        old(self).content->0@ == start,
                        forall|j: int| 0 <= j < i ==> content@[j]@ == prepared(seen[j]),
                        forall|j: int| i <= j < content@.len() ==> content@[j] == start[j],
                        seq_view(effects@) == load_effects(icon_paths_first(seen, i as nat)),
                    decreases content.len() - i,
                {
                    let ghost before = seq_view(effects@);
                    proof {
                        let held = old(self).content->0;
                        assert(content@[i as int] == held@[i as int]);
                        assert(decreases_to!(*old(self) => held));
                        assert(decreases_to!(held => held[i as int]));
                    }
                    let mut more = content[i].prep();
                    let ghost added = seq_view(more@);
                    effects.append(&mut more);
                    proof {
                        assert(seq_view(effects@) =~= before + added);
                        assert(load_effects(icon_paths_first(seen, (i + 1) as nat)) =~= before
                            + added);
                    }
                    i = i + 1;
                }
                proof {
                    assert(seq_view(content@) =~= prepared(old(self)@).content->0);
                }
            },
            None => {
                effects.push(Effect::LoadIcon(self.path.clone()));
                assert(seq_view(effects@) =~= load_effects(seq![self.path@]));
            },
        }
        proof {
            lemma_item_content(*self);
        }
        effects
    }

    /// The rows that the entry shows on the applications page when `path`
    /// names it.
    pub fn rows(&self, path: Vec<String>) -> (shown: Vec<TreeRow>)
        ensures
            seq_view(shown@) == rows(self@, seq_view(path@)),
        decreases self,
    {
        proof {
            lemma_item_content(*self);
        }
        let mut shown: Vec<TreeRow> = Vec::new();
        match (&self.content, &self.sorted) {
            (Some(content), Some(keys)) => {
                if content.len() > 0 && keys.len() > 0 {
                    let mut below = if self.open {
                        rows_of(content, keys, &path)
                    } else {
                        Vec::new()
                    };
                    let ghost under = seq_view(below@);
                    let head = TreeRow {
                        path,
                        name: self.name.clone(),
                        target: self.path.clone(),
                        kind: RowKind::Folder { open: self.open },
                    };
                    let ghost first = head@;
                    shown.push(head);
                    shown.append(&mut below);
                    assert(seq_view(shown@) =~= seq![first] + under);
                    assert(seq![first] + Seq::<TreeRowView>::empty() =~= seq![first]);
                }
            },
            _ => {
                let launchable = match &self.extension {
                    Some(extension) => !(*extension == String::from_str("ini")),
                    None => false,
                };
                if launchable {
                    let row = TreeRow {
                        path,
                        name: self.name.clone(),
                        target: self.path.clone(),
                        kind: RowKind::Launcher,
                    };
                    let ghost only = row@;
                    shown.push(row);
                    assert(seq_view(shown@) =~= seq![only]);
                }
            },
        }
        assert(seq_view(shown@) =~= rows(self@, seq_view(path@)));
        shown
    }

    pub fn update(&mut self, message: StartItemMessage)
        ensures
            final(self)@ == updated(old(self)@, message@),
            well_formed(old(self)@) ==> well_formed(final(self)@),
    {
        proof {
            if well_formed(old(self)@) {
                match message@ {
                    StartItemMessageView::Toggle(path) => {
                        law_toggle_keeps_well_formed(old(self)@, path);
                    },
                    StartItemMessageView::Launch(_) => {},
                }
            }
        }
        match message {
            StartItemMessage::Toggle(path) => {
                self.toggle(path);
            },
            StartItemMessage::Launch(_) => {},
        }
    }
}

/// The names of `items`, in their order.
fn names(items: &Vec<StartItem>) -> (keys: Vec<String>)
    ensures
        seq_view(keys@) == names_of(seq_view(items@)),
{
    let mut keys: Vec<String> = Vec::new();
    let mut i: usize = 0;
    while i < items.len()
        invariant
            0 <= i <= items.len(),
            keys@.len() == i,
            forall|j: int| 0 <= j < i ==> keys@[j]@ == items@[j]@.name,
        decreases items.len() - i,
    {
        keys.push(items[i].name.clone());
        i = i + 1;
    }
    assert(seq_view(keys@) =~= names_of(seq_view(items@)));
    keys
}

/// What a row of the applications page is.
#[derive(Clone, Copy, Debug, PartialEq, Eq, Structural)]
pub enum RowKind {
    /// A folder, which a press opens or closes.
    Folder { open: bool },
    /// Something to launch, which can be pinned to the tiles.
    Launcher,
}

/// One row of the applications page. `path` names the entry from the inside
/// out, as a `Toggle` wants it, and its length is the depth of the row;
/// `target` is the path on disk that a launcher opens.
#[derive(Clone, Debug)]
pub struct TreeRow {
    pub path: Vec<String>,
    pub name: String,
    pub target: String,
    pub kind: RowKind,
}

pub struct TreeRowView {
    pub path: Seq<Seq<char>>,
    pub name: Seq<char>,
    pub target: Seq<char>,
    pub kind: RowKind,
}

impl View for TreeRow {
    type V = TreeRowView;

    open spec fn view(&self) -> TreeRowView {
        TreeRowView {
            path: seq_view(self.path@),
            name: self.name@,
            target: self.target@,
            kind: self.kind,
        }
    }
}

/// Whether an entry that is no folder is shown as something to launch: its
/// file name has an extension other than `ini`.
pub open spec fn is_launchable(item: StartItemView) -> bool {
    item.extension matches Some(extension) && extension != "ini"@
}

/// The rows that an entry shows when `path` names it. A folder that was
/// made ready for display and is not empty shows itself and, while it is
/// open, the rows of its entries; an empty folder shows nothing. Anything
/// else shows itself if it can be launched.
pub open spec fn rows(item: StartItemView, path: Seq<Seq<char>>) -> Seq<TreeRowView>
    decreases item,
{
    if item.content is Some && item.sorted is Some {
        let content = item.content->0;
        let keys = item.sorted->0;
        if content.len() > 0 && keys.len() > 0 {
            let head = seq![
                TreeRowView {
                    path,
                    name: item.name,
                    target: item.path,
                    kind: RowKind::Folder { open: item.open },
                },
            ];
            if item.open {
                head + rows_below(content, keys, keys.len(), path)
            } else {
                head
            }
        } else {
            Seq::empty()
        }
    } else if is_launchable(item) {
        seq![TreeRowView { path, name: item.name, target: item.path, kind: RowKind::Launcher }]
    } else {
        Seq::empty()
    }
}

/// The rows of the entries of `content` that the first `n` of `keys` name,
/// in the order of `keys`, where `path` names the folder that holds them.
/// A key that names no entry shows nothing.
pub open spec fn rows_below(
    content: Seq<StartItemView>,
    keys: Seq<Seq<char>>,
    n: nat,
    path: Seq<Seq<char>>,
) -> Seq<TreeRowView>
    decreases content, n,
{
    if n == 0 || n > keys.len() {
        Seq::empty()
    } else {
        let key = keys[n - 1];
        rows_below(content, keys, (n - 1) as nat, path) + match position(content, key) {
            Some(at) => if 0 <= at < content.len() {
                rows(content[at], seq![key] + path)
            } else {
                Seq::empty()
            },
            None => Seq::empty(),
        }
    }
}

/// The path `path` with `key` put in front of it.
fn prepend(key: &String, path: &Vec<String>) -> (longer: Vec<String>)
    ensures
        seq_view(longer@) == seq![key@] + seq_view(path@),
{
    let mut longer: Vec<String> = Vec::new();
    longer.push(key.clone());
    let mut i: usize = 0;
    while i < path.len()
        invariant
            0 <= i <= path.len(),
            longer@.len() == i + 1,
            longer@[0]@ == key@,
            forall|j: int| 0 <= j < i ==> longer@[j + 1]@ == path@[j]@,
        decreases path.len() - i,
    {
        longer.push(path[i].clone());
        i = i + 1;
    }
    assert(seq_view(longer@) =~= seq![key@] + seq_view(path@));
    longer
}

/// The rows of the entries of `content` that `keys` name, in the order of
/// `keys`.
fn rows_of(content: &Vec<StartItem>, keys: &Vec<String>, path: &Vec<String>) -> (shown: Vec<
    TreeRow,
>)
    ensures
        seq_view(shown@) == rows_below(
            seq_view(content@),
            seq_view(keys@),
            keys@.len(),
            seq_view(path@),
        ),
    decreases content,
{
    let mut shown: Vec<TreeRow> = Vec::new();
    let ghost held = seq_view(content@);
    let ghost named = seq_view(keys@);
    let ghost above = seq_view(path@);
    let mut i: usize = 0;
    assert(seq_view(shown@) =~= rows_below(held, named, 0, above));
    while i < keys.len()
        invariant
            0 <= i <= keys.len(),
            held == seq_view(content@),
            named == seq_view(keys@),
            above == seq_view(path@),
            seq_view(shown@) == rows_below(held, named, i as nat, above),
        decreases keys.len() - i,
    {
        let key = &keys[i];
        let ghost before = seq_view(shown@);
        assert(named[i as int] == key@);
        match find(content, key) {
            Some(at) => {
                let mut more = content[at].rows(prepend(key, path));
                let ghost added = seq_view(more@);
                shown.append(&mut more);
                assert(seq_view(shown@) =~= before + added);
            },
            None => {
                assert(before + Seq::<TreeRowView>::empty() =~= before);
            },
        }
        i = i + 1;
    }
    shown
}

/// What the host read for the start menu when its window opened: the saved
/// preferences, if there are any that could be read, and the listings of the
/// user's and of the system's program folders, where they could be listed.
#[derive(Debug)]
pub struct StartMenuLoad {
    pub settings: Option<StartMenuSettings>,
    pub user_programs: Option<Vec<FsEntry>>,
    pub system_programs: Option<Vec<FsEntry>>,
}

pub struct StartMenuLoadView {
    pub settings: Option<StartMenuSettingsView>,
    pub user_programs: Option<Seq<FsEntryView>>,
    pub system_programs: Option<Seq<FsEntryView>>,
}

impl View for StartMenuLoad {
    type V = StartMenuLoadView;

    open spec fn view(&self) -> StartMenuLoadView {
        StartMenuLoadView {
            settings: match self.settings {
                Some(settings) => Some(settings@),
                None => None,
            },
            user_programs: match self.user_programs {
                Some(entries) => Some(seq_view(entries@)),
                None => None,
            },
            system_programs: match self.system_programs {
                Some(entries) => Some(seq_view(entries@)),
                None => None,
            },
        }
    }
}

/// What the start menu reacts to.
#[derive(Debug)]
pub enum StartMessage {
    Init(StartMenuLoad),
    Resize(Option<Size>),
    ItemMessage(StartItemMessage),
    SwitchToTab(StartMenuTab),
    PinToTiles(String),
    UnpinFromTiles(String),
}

pub enum StartMessageView {
    Init(StartMenuLoadView),
    Resize(Option<Size>),
    ItemMessage(StartItemMessageView),
    SwitchToTab(StartMenuTab),
    PinToTiles(Seq<char>),
    UnpinFromTiles(Seq<char>),
}

impl View for StartMessage {
    type V = StartMessageView;

    open spec fn view(&self) -> StartMessageView {
        match *self {
            StartMessage::Init(load) => StartMessageView::Init(load@),
            StartMessage::Resize(size) => StartMessageView::Resize(size),
            StartMessage::ItemMessage(message) => StartMessageView::ItemMessage(message@),
            StartMessage::SwitchToTab(tab) => StartMessageView::SwitchToTab(tab),
            StartMessage::PinToTiles(path) => StartMessageView::PinToTiles(path@),
            StartMessage::UnpinFromTiles(path) => StartMessageView::UnpinFromTiles(path@),
        }
    }
}

pub struct StartMenu {
    pub id: WindowHandle,
    content: Vec<StartItem>,
    sorted: Vec<String>,
    tab: StartMenuTab,
    settings: StartMenuSettings,
}

pub struct StartMenuView {
    pub id: WindowHandle,
    pub content: Seq<StartItemView>,
    pub sorted: Seq<Seq<char>>,
    pub tab: StartMenuTab,
    pub settings: StartMenuSettingsView,
}

impl View for StartMenu {
    type V = StartMenuView;

    closed spec fn view(&self) -> StartMenuView {
        StartMenuView {
            id: self.id,
            content: seq_view(self.content@),
            sorted: seq_view(self.sorted@),
            tab: self.tab,
            settings: self.settings@,
        }
    }
}

/// What a listing holds, or nothing where it could not be read.
pub open spec fn listed(entries: Option<Seq<FsEntryView>>) -> Seq<FsEntryView> {
    match entries {
        Some(entries) => entries,
        None => Seq::empty(),
    }
}

/// The entries of the start menu for the two program folders: those of the
/// user's folder first, then those of the system's, which take the place of
/// the user's entries of the same name.
pub open spec fn loaded_content(load: StartMenuLoadView) -> Seq<StartItemView> {
    collected(collected(Seq::empty(), listed(load.user_programs)), listed(load.system_programs))
}

/// The paths whose icons `items` need, in their order.
pub open spec fn icon_paths_of(items: Seq<StartItemView>) -> Seq<Seq<char>> {
    icon_paths_first(items, items.len())
}

impl StartMenuView {
    /// The start menu before its window has opened.
    pub open spec fn initial(id: WindowHandle) -> StartMenuView {
        StartMenuView {
            id,
            content: Seq::empty(),
            sorted: Seq::empty(),
            tab: StartMenuTab::Tiles,
            settings: StartMenuSettingsView { tiles: Seq::empty() },
        }
    }

    /// The rows of the applications page: those of the entries of the top
    /// of the tree, in the order in which they are listed.
    pub open spec fn rows(self) -> Seq<TreeRowView> {
        rows_below(self.content, self.sorted, self.sorted.len(), Seq::empty())
    }

    /// The start menu after `message`, and what the host is asked to do.
    pub open spec fn step(self, message: StartMessageView) -> (StartMenuView, Seq<EffectView>) {
        match message {
            StartMessageView::Init(load) => (
                StartMenuView {
                    content: prepared_all(loaded_content(load)),
                    sorted: listing_order(names_of(loaded_content(load))),
                    settings: match load.settings {
                        Some(settings) => settings,
                        None => self.settings,
                    },
                    ..self
                },
                load_effects(icon_paths_of(loaded_content(load))).push(
                    EffectView::QueryMonitorSize(self.id, WindowKind::StartMenu),
                ),
            ),
            StartMessageView::Resize(Some(size)) => (
                self,
                seq![
                    EffectView::Resize(self.id, spec_start_menu_layout(size).size),
                    EffectView::MoveTo(self.id, spec_start_menu_layout(size).position),
                ],
            ),
            StartMessageView::Resize(None) => (self, Seq::empty()),
            StartMessageView::ItemMessage(StartItemMessageView::Toggle(path)) => (
                StartMenuView { content: toggled_in(self.content, path), ..self },
                Seq::empty(),
            ),
            StartMessageView::ItemMessage(StartItemMessageView::Launch(path)) => (
                self,
                seq![EffectView::Launch { path, window: self.id }],
            ),
            StartMessageView::SwitchToTab(tab) => (StartMenuView { tab, ..self }, Seq::empty()),
            StartMessageView::PinToTiles(path) => {
                let settings = StartMenuSettingsView { tiles: pinned(self.settings.tiles, path) };
                (StartMenuView { settings, ..self }, seq![EffectView::SaveSettings(settings)])
            },
            StartMessageView::UnpinFromTiles(path) => {
                let settings = StartMenuSettingsView { tiles: unpinned(self.settings.tiles, path) };
                (StartMenuView { settings, ..self }, seq![EffectView::SaveSettings(settings)])
            },
        }
    }
}

/// Makes each of `items` ready for display and asks for their icons.
fn prep_all(items: &mut Vec<StartItem>) -> (effects: Vec<Effect>)
    ensures
        seq_view(final(items)@) == prepared_all(seq_view(old(items)@)),
        seq_view(effects@) == load_effects(icon_paths_of(seq_view(old(items)@))),
{
    let mut effects: Vec<Effect> = Vec::new();
    let ghost start = items@;
    let ghost seen = seq_view(items@);
    let mut i: usize = 0;
    assert(seq_view(effects@) =~= load_effects(icon_paths_first(seen, 0)));
    while i < items.len()
        invariant
            0 <= i <= items.len(),
            items@.len() == start.len(),
            seen == seq_view(start),
            forall|j: int| 0 <= j < i ==> items@[j]@ == prepared(seen[j]),
            forall|j: int| i <= j < items@.len() ==> items@[j] == start[j],
            seq_view(effects@) == load_effects(icon_paths_first(seen, i as nat)),
        decreases items.len() - i,
    {
        let ghost before = seq_view(effects@);
        let mut more = items[i].prep();
        let ghost added = seq_view(more@);
        effects.append(&mut more);
        proof {
            assert(seq_view(effects@) =~= before + added);
            assert(load_effects(icon_paths_first(seen, (i + 1) as nat)) =~= before + added);
        }
        i = i + 1;
    }
    assert(seq_view(items@) =~= prepared_all(seen));
    effects
}

impl StartMenu {
    /// An empty start menu in the window `id`, showing its tiles, and the
    /// request to open that window.
    pub fn new(id: WindowHandle) -> (opened: (Self, Effect))
        ensures
            opened.0@ == StartMenuView::initial(id),
            well_formed_all(opened.0@.content),
            opened.1@ == (EffectView::OpenWindow {
                handle: id,
                kind: WindowKind::StartMenu,
                settings: WindowSettings::spec_for_kind(WindowKind::StartMenu),
            }),
    {
        let menu = StartMenu {
            id,
            content: Vec::new(),
            sorted: Vec::new(),
            tab: StartMenuTab::Tiles,
            settings: StartMenuSettings::new(),
        };
        proof {
            assert(menu@.content =~= Seq::<StartItemView>::empty());
            assert(menu@.sorted =~= Seq::<Seq<char>>::empty());
        }
        (
            menu,
            Effect::OpenWindow {
                handle: id,
                kind: WindowKind::StartMenu,
                settings: WindowSettings::for_kind(WindowKind::StartMenu),
            },
        )
    }

    pub fn update(&mut self, message: StartMessage) -> (effects: Vec<Effect>)
        ensures
            final(self)@ == old(self)@.step(message@).0,
            seq_view(effects@) == old(self)@.step(message@).1,
            well_formed_all(old(self)@.content) ==> well_formed_all(final(self)@.content),
    {
        proof {
            if well_formed_all(old(self)@.content) {
                law_menu_stays_well_formed(old(self)@, message@);
            }
        }
        let mut effects: Vec<Effect> = Vec::new();
        match message {
            StartMessage::Init(load) => {
                let mut content: Vec<StartItem> = Vec::new();
                assert(seq_view(content@) =~= Seq::<StartItemView>::empty());
                if let Some(settings) = load.settings {
                    self.settings = settings;
                }
                match &load.user_programs {
                    Some(entries) => {
                        get_dir_contents(entries, &mut content);
                    },
                    None => {
                        assert(collected(seq_view(content@), Seq::empty()) =~= seq_view(content@));
                    },
                }
                match &load.system_programs {
                    Some(entries) => {
                        get_dir_contents(entries, &mut content);
                    },
                    None => {
                        assert(collected(seq_view(content@), Seq::empty()) =~= seq_view(content@));
                    },
                }
                assert(seq_view(content@) == loaded_content(message@->Init_0));
                let keys = sort_names(&names(&content));
                effects = prep_all(&mut content);
                let ghost asked = seq_view(effects@);
                self.content = content;
                self.sorted = keys;
                effects.push(Effect::QueryMonitorSize(self.id, WindowKind::StartMenu));
                assert(seq_view(effects@) =~= asked.push(
                    EffectView::QueryMonitorSize(self.id, WindowKind::StartMenu),
                ));
            },
            StartMessage::Resize(resize) => {
                if let Some(size) = resize {
                    let layout = start_menu_layout(size);
                    effects.push(Effect::Resize(self.id, layout.size));
                    effects.push(Effect::MoveTo(self.id, layout.position));
                }
            },
            StartMessage::ItemMessage(message) => {
                match message {
                    StartItemMessage::Toggle(path) => {
                        toggle_in(&mut self.content, path);
                    },
                    StartItemMessage::Launch(path) => {
                        effects.push(Effect::Launch { path, window: self.id });
                    },
                }
            },
            StartMessage::SwitchToTab(tab) => {
                self.tab = tab;
            },
            StartMessage::PinToTiles(path) => {
                self.settings.pin(path);
                effects.push(Effect::SaveSettings(self.settings.duplicate()));
            },
            StartMessage::UnpinFromTiles(path) => {
                self.settings.unpin(&path);
                effects.push(Effect::SaveSettings(self.settings.duplicate()));
            },
        }
        assert(seq_view(effects@) =~= old(self)@.step(message@).1);
        effects
    }

    /// The window the start menu is shown in.
    pub fn handle(&self) -> (id: WindowHandle)
        ensures
            id == self@.id,
    {
        self.id
    }

    /// The rows of the applications page, from top to bottom.
    pub fn rows(&self) -> (shown: Vec<TreeRow>)
        ensures
            seq_view(shown@) == self@.rows(),
    {
        let top: Vec<String> = Vec::new();
        assert(seq_view(top@) =~= Seq::<Seq<char>>::empty());
        rows_of(&self.content, &self.sorted, &top)
    }

    /// The page that the start menu shows.
    pub fn tab(&self) -> (tab: StartMenuTab)
        ensures
            tab == self@.tab,
    {
        self.tab
    }

    /// The pinned tiles, in the order in which they were pinned.
    pub fn tiles(&self) -> (tiles: &Vec<String>)
        ensures
            seq_view(tiles@) == self@.settings.tiles,
    {
        &self.settings.tiles
    }

    /// The entries of the top of the tree.
    pub fn content(&self) -> (content: &Vec<StartItem>)
        ensures
            seq_view(content@) == self@.content,
    {
        &self.content
    }

    /// The names of the entries of the top of the tree, in the order in
    /// which they are listed.
    pub fn sorted(&self) -> (sorted: &Vec<String>)
        ensures
            seq_view(sorted@) == self@.sorted,
    {
        &self.sorted
    }
}

/// Whether no two of `items` have the same name.
pub open spec fn distinct_names(items: Seq<StartItemView>) -> bool {
    forall|i: int, j: int|
        0 <= i < j < items.len() ==> (#[trigger] items[i]).name != (#[trigger] items[j]).name
}

/// Whether the entries of every folder in `item` have names that differ
/// from one another: a folder holds its entries by their names.
pub open spec fn well_formed(item: StartItemView) -> bool
    decreases item,
{
    match item.content {
        Some(content) => distinct_names(content) && forall|i: int|
            0 <= i < content.len() ==> well_formed(#[trigger] content[i]),
        None => true,
    }
}

/// Whether `items` have names that differ from one another and are well
/// formed each.
pub open spec fn well_formed_all(items: Seq<StartItemView>) -> bool {
    distinct_names(items) && forall|i: int|
        0 <= i < items.len() ==> well_formed(#[trigger] items[i])
}

proof fn lemma_position_none(items: Seq<StartItemView>, name: Seq<char>)
    requires
        position(items, name) is None,
    ensures
        forall|i: int| 0 <= i < items.len() ==> (#[trigger] items[i]).name != name,
    decreases items.len(),
{
    if items.len() > 0 {
        lemma_position_none(items.drop_last(), name);
        assert forall|i: int| 0 <= i < items.len() implies (#[trigger] items[i]).name != name by {
            if i < items.len() - 1 {
                assert(items.drop_last()[i] == items[i]);
            }
        }
    }
}

/// Putting an entry among entries with different names leaves the names
/// different: it takes the place of the entry of its name.
pub proof fn lemma_inserted_well_formed(items: Seq<StartItemView>, item: StartItemView)
    requires
        well_formed_all(items),
        well_formed(item),
    ensures
        well_formed_all(inserted(items, item)),
{
    lemma_position_bounds(items, item.name);
    match position(items, item.name) {
        Some(at) => {
            let after = items.update(at, item);
            assert forall|i: int, j: int| 0 <= i < j < after.len() implies (#[trigger] after[i]).name
                != (#[trigger] after[j]).name by {
                assert(items[i].name != items[j].name);
            }
        },
        None => {
            lemma_position_none(items, item.name);
            let after = items.push(item);
            assert forall|i: int, j: int| 0 <= i < j < after.len() implies (#[trigger] after[i]).name
                != (#[trigger] after[j]).name by {
                if j < items.len() {
                    assert(items[i].name != items[j].name);
                }
            }
        },
    }
}

/// The entry made for a path is well formed, and so are the entries after
/// a listing was put among well-formed entries.
pub proof fn law_listing_is_well_formed(
    target: Seq<StartItemView>,
    entries: Seq<FsEntryView>,
    n: nat,
)
    requires
        well_formed_all(target),
    ensures
        well_formed_all(collected_first(target, entries, n)),
    decreases entries, n,
{
    if n == 0 || n > entries.len() {
    } else {
        law_listing_is_well_formed(target, entries, (n - 1) as nat);
        let before = collected_first(target, entries, (n - 1) as nat);
        let entry = entries[n - 1];
        if !is_skipped(entry) {
            match spec_new(entry) {
                Ok(item) => {
                    law_new_is_well_formed(entry);
                    lemma_inserted_well_formed(before, item);
                },
                Err(_) => {},
            }
        }
    }
}

/// The entry made for a path is well formed.
pub proof fn law_new_is_well_formed(entry: FsEntryView)
    ensures
        spec_new(entry) matches Ok(item) ==> well_formed(item),
    decreases entry,
{
    if entry.name is Some && entry.kind is Directory && entry.children is Some {
        let children = entry.children->0;
        law_listing_is_well_formed(Seq::empty(), children, children.len());
    }
}

/// Opening or closing an entry changes no name, so a well-formed entry
/// stays well formed.
pub proof fn law_toggle_keeps_well_formed(item: StartItemView, path: Seq<Seq<char>>)
    requires
        well_formed(item),
    ensures
        well_formed(toggled(item, path)),
        toggled(item, path).name == item.name,
    decreases path.len(), 1nat,
{
    if path.len() > 0 {
        match item.content {
            Some(content) => {
                law_toggle_in_keeps_well_formed(content, path);
            },
            None => {},
        }
    }
}

/// Opening or closing an entry among well-formed entries leaves them well
/// formed.
pub proof fn law_toggle_in_keeps_well_formed(items: Seq<StartItemView>, path: Seq<Seq<char>>)
    requires
        well_formed_all(items),
    ensures
        well_formed_all(toggled_in(items, path)),
        names_of(toggled_in(items, path)) == names_of(items),
    decreases path.len(), 0nat,
{
    let after = toggled_in(items, path);
    if path.len() > 0 {
        match position(items, path.last()) {
            Some(at) => {
                if 0 <= at < items.len() {
                    law_toggle_keeps_well_formed(items[at], path.drop_last());
                    assert forall|i: int, j: int| 0 <= i < j < after.len() implies (
                    #[trigger] after[i]).name != (#[trigger] after[j]).name by {
                        assert(items[i].name != items[j].name);
                    }
                    assert forall|i: int| 0 <= i < after.len() implies well_formed(
                        #[trigger] after[i],
                    ) by {
                        if i != at {
                            assert(well_formed(items[i]));
                        }
                    }
                }
            },
            None => {},
        }
    }
    assert(names_of(after) =~= names_of(items));
}

/// Making an entry ready for display changes no name, so a well-formed
/// entry stays well formed.
pub proof fn law_prepared_keeps_well_formed(item: StartItemView)
    requires
        well_formed(item),
    ensures
        well_formed(prepared(item)),
        prepared(item).name == item.name,
    decreases item,
{
    match item.content {
        Some(content) => {
            let after = prepared(item).content->0;
            assert forall|i: int| 0 <= i < after.len() implies well_formed(#[trigger] after[i])
                && after[i].name == content[i].name by {
                assert(well_formed(content[i]));
                law_prepared_keeps_well_formed(content[i]);
            }
            assert forall|i: int, j: int| 0 <= i < j < after.len() implies (#[trigger] after[i]).name
                != (#[trigger] after[j]).name by {
                assert(after[i].name == content[i].name);
                assert(after[j].name == content[j].name);
                assert(content[i].name != content[j].name);
            }
        },
        None => {},
    }
}

/// The tree of a start menu whose entries are well formed stays so,
/// whatever the menu is sent.
pub proof fn law_menu_stays_well_formed(menu: StartMenuView, message: StartMessageView)
    requires
        well_formed_all(menu.content),
    ensures
        well_formed_all(menu.step(message).0.content),
{
    match message {
        StartMessageView::Init(load) => {
            let user = listed(load.user_programs);
            let system = listed(load.system_programs);
            law_listing_is_well_formed(Seq::empty(), user, user.len());
            law_listing_is_well_formed(collected(Seq::empty(), user), system, system.len());
            let loaded = loaded_content(load);
            let after = prepared_all(loaded);
            assert forall|i: int| 0 <= i < after.len() implies well_formed(#[trigger] after[i])
                && after[i].name == loaded[i].name by {
                assert(well_formed(loaded[i]));
                law_prepared_keeps_well_formed(loaded[i]);
            }
            assert forall|i: int, j: int| 0 <= i < j < after.len() implies (#[trigger] after[i]).name
                != (#[trigger] after[j]).name by {
                assert(after[i].name == loaded[i].name);
                assert(after[j].name == loaded[j].name);
                assert(loaded[i].name != loaded[j].name);
            }
        },
        StartMessageView::ItemMessage(StartItemMessageView::Toggle(path)) => {
            law_toggle_in_keeps_well_formed(menu.content, path);
        },
        _ => {},
    }
}

} // verus!
