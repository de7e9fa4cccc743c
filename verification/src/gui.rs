//! The state of the client window and how each message changes it: the
//! detection feed (newest first, bounded, held back while paused), the
//! expanded rows, the filter, the theme, the view and the file-context
//! listing it asks the agent for.

use std::collections::VecDeque;
use vstd::prelude::*;

use crate::snapshot::FileContextSnapshot;
use crate::text::{chars_of, dec_chars, dec_digits, string_from_chars};
use crate::theme::{theme_at, theme_count, theme_index, AppTheme};

verus! {

/// Most detections kept, shown or held back.
pub const MAX_DETECTIONS: usize = 1000;

/// Most file contexts asked for in one listing.
pub const FILE_CONTEXT_SNAPSHOT_LIMIT: usize = 500;

/// What the window shows.
#[derive(Debug, Clone, Copy, PartialEq, Eq, Structural)]
pub enum ViewMode {
    Detections,
    FileContexts,
}

/// What the connection to the agent reported.
#[derive(Debug)]
pub enum ClientEvent<D> {
    Connected,
    Disconnected,
    /// A detection was broadcast.
    Detection(D),
    /// Any other message, which the window ignores.
    Other,
}

/// A message to the window.
#[derive(Debug)]
pub enum GuiMessage<D> {
    IpcEvent(ClientEvent<D>),
    FilterChanged(String),
    DetectionSelected(usize),
    ToggleExpanded(String),
    ThemeChanged,
    TogglePause,
    ViewModeChanged(ViewMode),
    RefreshFileContexts,
    FileContextsLoaded(Result<Vec<FileContextSnapshot>, String>),
}

/// What the window asks its runtime to do after a message.
#[derive(Debug, Clone, Copy, PartialEq, Eq, Structural)]
pub enum GuiCommand {
    Nothing,
    /// Ask the agent for at most this many cached file contexts.
    LoadFileContexts(usize),
}

/// The state of the window.
pub struct GuiModel<D> {
    connected: bool,
    detections: VecDeque<D>,
    pending_detections: VecDeque<D>,
    selected_detection: Option<usize>,
    expanded_events: Vec<String>,
    filter_text: String,
    current_theme: AppTheme,
    paused: bool,
    view_mode: ViewMode,
    file_contexts: Vec<FileContextSnapshot>,
    file_context_status: Option<String>,
    loading_file_contexts: bool,
}

/// The abstract state of the window.
pub struct GuiView<D> {
    pub connected: bool,
    /// Shown detections, newest first.
    pub detections: Seq<D>,
    /// Detections held back while paused, newest first.
    pub pending: Seq<D>,
    pub selected: Option<usize>,
    /// The keys of the expanded rows.
    pub expanded: Set<Seq<char>>,
    pub filter: Seq<char>,
    pub theme: AppTheme,
    pub paused: bool,
    pub view_mode: ViewMode,
    pub file_contexts: Seq<FileContextSnapshot>,
    pub status: Option<Seq<char>>,
    pub loading: bool,
}

/// At most the first `MAX_DETECTIONS` detections.
pub open spec fn capped<D>(s: Seq<D>) -> Seq<D> {
    if s.len() > MAX_DETECTIONS {
        s.subrange(0, MAX_DETECTIONS as int)
    } else {
        s
    }
}

/// The status line after a listing arrived.
pub open spec fn loaded_status(count: nat) -> Seq<char> {
    dec_digits(count) + " cached files"@
}

/// The state after asking for a fresh file-context listing, and the command:
/// nothing while one is already being loaded.
pub open spec fn refreshed<D>(v: GuiView<D>) -> (GuiView<D>, GuiCommand) {
    if v.loading {
        (v, GuiCommand::Nothing)
    } else {
        (
            GuiView { loading: true, status: Some("Refreshing file context cache..."@), ..v },
            GuiCommand::LoadFileContexts(FILE_CONTEXT_SNAPSHOT_LIMIT),
        )
    }
}

/// How a message changes the window, and what it asks for.
pub open spec fn gui_update<D>(v: GuiView<D>, msg: GuiMessage<D>) -> (GuiView<D>, GuiCommand) {
    match msg {
        GuiMessage::IpcEvent(ClientEvent::Connected) => (
            GuiView { connected: true, ..v },
            GuiCommand::Nothing,
        ),
        GuiMessage::IpcEvent(ClientEvent::Disconnected) => (
            GuiView { connected: false, ..v },
            GuiCommand::Nothing,
        ),
        GuiMessage::IpcEvent(ClientEvent::Detection(d)) => if v.paused {
            (GuiView { pending: capped(seq![d] + v.pending), ..v }, GuiCommand::Nothing)
        } else {
            (GuiView { detections: capped(seq![d] + v.detections), ..v }, GuiCommand::Nothing)
        },
        GuiMessage::IpcEvent(ClientEvent::Other) => (v, GuiCommand::Nothing),
        GuiMessage::FilterChanged(text) => (GuiView { filter: text@, ..v }, GuiCommand::Nothing),
        GuiMessage::DetectionSelected(i) => (
            GuiView { selected: Some(i), ..v },
            GuiCommand::Nothing,
        ),
        GuiMessage::ToggleExpanded(id) => if v.expanded.contains(id@) {
            (GuiView { expanded: v.expanded.remove(id@), ..v }, GuiCommand::Nothing)
        } else {
            (
                GuiView {
                    expanded: v.expanded.insert(id@),
                    paused: v.paused || v.view_mode == ViewMode::Detections,
                    ..v
                },
                GuiCommand::Nothing,
            )
        },
        GuiMessage::ThemeChanged => (
            GuiView { theme: theme_at((theme_index(v.theme) + 1) % theme_count()), ..v },
            GuiCommand::Nothing,
        ),
        GuiMessage::TogglePause => if v.paused {
            (
                GuiView {
                    paused: false,
                    detections: capped(v.pending + v.detections),
                    pending: seq![],
                    ..v
                },
                GuiCommand::Nothing,
            )
        } else {
            (GuiView { paused: true, ..v }, GuiCommand::Nothing)
        },
        GuiMessage::ViewModeChanged(mode) => {
            let w = GuiView { view_mode: mode, filter: seq![], ..v };
            if mode == ViewMode::FileContexts && v.file_contexts.len() == 0 {
                refreshed(w)
            } else {
                (w, GuiCommand::Nothing)
            }
        },
        GuiMessage::RefreshFileContexts => refreshed(v),
        GuiMessage::FileContextsLoaded(Ok(entries)) => (
            GuiView {
                loading: false,
                file_contexts: entries@,
                status: Some(loaded_status(entries@.len())),
                ..v
            },
            GuiCommand::Nothing,
        ),
        GuiMessage::FileContextsLoaded(Err(e)) => (
            GuiView { loading: false, status: Some(e@), ..v },
            GuiCommand::Nothing,
        ),
    }
}

/// The view of an optional string.
pub open spec fn opt_text(o: Option<String>) -> Option<Seq<char>> {
    match o {
        Some(s) => Some(s@),
        None => None,
    }
}

impl<D> GuiModel<D> {
    /// The abstract state.
    pub closed spec fn view(&self) -> GuiView<D> {
        GuiView {
            connected: self.connected,
            detections: self.detections@,
            pending: self.pending_detections@,
            selected: self.selected_detection,
            expanded: self.expanded_events@.map_values(|k: String| k@).to_set(),
            filter: self.filter_text@,
            theme: self.current_theme,
            paused: self.paused,
            view_mode: self.view_mode,
            file_contexts: self.file_contexts@,
            status: opt_text(self.file_context_status),
            loading: self.loading_file_contexts,
        }
    }

    /// The feeds are bounded and each row is remembered as expanded once.
    pub closed spec fn wf(&self) -> bool {
        &&& self.detections@.len() <= MAX_DETECTIONS
        &&& self.pending_detections@.len() <= MAX_DETECTIONS
        &&& self.expanded_events@.map_values(|k: String| k@).no_duplicates()
    }

    /// A window that shows the detection feed, unpaused, disconnected, with
    /// nothing in it and the default theme.
    pub fn new() -> (r: GuiModel<D>)
        ensures
            r.wf(),
            !r.view().connected,
            r.view().detections == Seq::<D>::empty(),
            r.view().pending == Seq::<D>::empty(),
            r.view().selected is None,
            r.view().expanded == Set::<Seq<char>>::empty(),
            r.view().filter == Seq::<char>::empty(),
            r.view().theme == AppTheme::DefenderExplorer,
            !r.view().paused,
            r.view().view_mode == ViewMode::Detections,
            r.view().file_contexts == Seq::<FileContextSnapshot>::empty(),
            r.view().status is None,
            !r.view().loading,
    {
        let r = GuiModel {
            connected: false,
            detections: VecDeque::new(),
            pending_detections: VecDeque::new(),
            selected_detection: None,
            expanded_events: Vec::new(),
            filter_text: String::new(),
            current_theme: AppTheme::DefenderExplorer,
            paused: false,
            view_mode: ViewMode::Detections,
            file_contexts: Vec::new(),
            file_context_status: None,
            loading_file_contexts: false,
        };
        assert(r.expanded_events@.map_values(|k: String| k@) =~= Seq::<Seq<char>>::empty());
        assert(r.view().expanded =~= Set::<Seq<char>>::empty());
        r
    }

    /// The shown detections, newest first.
    pub fn detections(&self) -> (r: &VecDeque<D>)
        ensures
            r@ == self.view().detections,
    {
        &self.detections
    }

    /// The number of detections held back while paused.
    pub fn pending_count(&self) -> (r: usize)
        ensures
            r == self.view().pending.len(),
    {
        self.pending_detections.len()
    }

    /// The cached file contexts last listed.
    pub fn file_contexts(&self) -> (r: &Vec<FileContextSnapshot>)
        ensures
            r@ == self.view().file_contexts,
    {
        &self.file_contexts
    }

    /// The filter text.
    pub fn filter_text(&self) -> (r: &String)
        ensures
            r@ == self.view().filter,
    {
        &self.filter_text
    }

    /// The theme in use.
    pub fn theme(&self) -> (r: AppTheme)
        ensures
            r == self.view().theme,
    {
        self.current_theme
    }

    /// Whether the feed is paused.
    pub fn is_paused(&self) -> (r: bool)
        ensures
            r == self.view().paused,
    {
        self.paused
    }

    /// What the window shows.
    pub fn view_mode(&self) -> (r: ViewMode)
        ensures
            r == self.view().view_mode,
    {
        self.view_mode
    }

    /// Whether the window is connected to the agent.
    pub fn is_connected(&self) -> (r: bool)
        ensures
            r == self.view().connected,
    {
        self.connected
    }

    /// Whether a file-context listing is being loaded.
    pub fn is_loading(&self) -> (r: bool)
        ensures
            r == self.view().loading,
    {
        self.loading_file_contexts
    }

    /// The selected detection.
    pub fn selected_detection(&self) -> (r: Option<usize>)
        ensures
            r == self.view().selected,
    {
        self.selected_detection
    }

    /// The status line of the file-context listing.
    pub fn file_context_status(&self) -> (r: &Option<String>)
        ensures
            opt_text(*r) == self.view().status,
    {
        &self.file_context_status
    }

    /// Where `key` is in the list of expanded rows.
    fn find_expanded(&self, key: &String) -> (r: Option<usize>)
        ensures
            match r {
                Some(i) => i < self.expanded_events@.len() && self.expanded_events@[i as int]@
                    == key@ && self.view().expanded.contains(key@),
                None => !self.view().expanded.contains(key@),
            },
    {
        let ghost keys = self.expanded_events@.map_values(|k: String| k@);
        let mut i: usize = 0;
        while i < self.expanded_events.len()
            invariant
                0 <= i <= self.expanded_events@.len(),
                keys == self.expanded_events@.map_values(|k: String| k@),
                forall|j: int| 0 <= j < i ==> keys[j] != key@,
            decreases self.expanded_events@.len() - i,
        {
            let same: bool = self.expanded_events[i].eq(key);
            if same {
                assert(keys[i as int] == key@);
                assert(keys.contains(key@));
                return Some(i);
            }
            i = i + 1;
        }
        proof {
            if keys.to_set().contains(key@) {
                let j = keys.index_of(key@);
                assert(keys[j] == key@);
            }
        }
        None
    }

    /// Whether the row with `key` is expanded.
    pub fn is_expanded(&self, key: &String) -> (r: bool)
        ensures
            r == self.view().expanded.contains(key@),
    {
        self.find_expanded(key).is_some()
    }

    /// Starts loading a fresh file-context listing unless one is loading.
    fn refresh_file_contexts(&mut self) -> (r: GuiCommand)
        requires
            old(self).wf(),
        ensures
            final(self).wf(),
            (final(self).view(), r) == refreshed(old(self).view()),
    {
        if self.loading_file_contexts {
            return GuiCommand::Nothing;
        }
        self.loading_file_contexts = true;
        self.file_context_status = Some(String::from_str("Refreshing file context cache..."));
        GuiCommand::LoadFileContexts(FILE_CONTEXT_SNAPSHOT_LIMIT)
    }

    /// Applies a message to the window; what it asks the runtime to do.
    pub fn update(&mut self, message: GuiMessage<D>) -> (r: GuiCommand)
        requires
            old(self).wf(),
        ensures
            final(self).wf(),
            (final(self).view(), r) == gui_update(old(self).view(), message),
    {
        let ghost pre = self.view();
        match message {
            GuiMessage::IpcEvent(event) => {
                match event {
                    ClientEvent::Connected => {
                        self.connected = true;
                    },
                    ClientEvent::Disconnected => {
                        self.connected = false;
                    },
                    ClientEvent::Detection(detection) => {
                        if self.paused {
                            self.pending_detections.push_front(detection);
                            if self.pending_detections.len() > MAX_DETECTIONS {
                                self.pending_detections.pop_back();
                            }
                            assert(self.pending_detections@ =~= capped(
                                seq![detection] + pre.pending,
                            ));
                        } else {
                            self.detections.push_front(detection);
                            if self.detections.len() > MAX_DETECTIONS {
                                self.detections.pop_back();
                            }
                            assert(self.detections@ =~= capped(seq![detection] + pre.detections));
                        }
                    },
                    ClientEvent::Other => {},
                }
                GuiCommand::Nothing
            },
            GuiMessage::FilterChanged(text) => {
                self.filter_text = text;
                GuiCommand::Nothing
            },
            GuiMessage::DetectionSelected(index) => {
                self.selected_detection = Some(index);
                GuiCommand::Nothing
            },
            GuiMessage::ToggleExpanded(event_id) => {
                let ghost before = self.expanded_events@.map_values(|k: String| k@);
                match self.find_expanded(&event_id) {
                    Some(i) => {
                        self.expanded_events.remove(i);
                        let ghost after = self.expanded_events@.map_values(|k: String| k@);
                        assert(after =~= before.remove(i as int));
                        proof {
                            crate::maps::lemma_distinct_remove(before, i as int);
                        }
                    },
                    None => {
                        self.expanded_events.push(event_id);
                        let ghost after = self.expanded_events@.map_values(|k: String| k@);
                        assert(after =~= before.push(event_id@));
                        proof {
                            crate::maps::lemma_distinct_push(before, event_id@);
                        }
                        if self.view_mode == ViewMode::Detections && !self.paused {
                            self.paused = true;
                        }
                    },
                }
                GuiCommand::Nothing
            },
            GuiMessage::ThemeChanged => {
                self.current_theme = self.current_theme.next();
                GuiCommand::Nothing
            },
            GuiMessage::TogglePause => {
                self.paused = !self.paused;
                if !self.paused {
                    let mut moved: VecDeque<D> = VecDeque::new();
                    std::mem::swap(&mut moved, &mut self.pending_detections);
                    moved.append(&mut self.detections);
                    if moved.len() > MAX_DETECTIONS {
                        moved.truncate(MAX_DETECTIONS);
                    }
                    self.detections = moved;
                    assert(self.detections@ =~= capped(pre.pending + pre.detections));
                    assert(self.pending_detections@ =~= Seq::<D>::empty());
                }
                GuiCommand::Nothing
            },
            GuiMessage::ViewModeChanged(view_mode) => {
                self.view_mode = view_mode;
                self.filter_text = String::new();
                if view_mode == ViewMode::FileContexts && self.file_contexts.len() == 0 {
                    return self.refresh_file_contexts();
                }
                GuiCommand::Nothing
            },
            GuiMessage::RefreshFileContexts => self.refresh_file_contexts(),
            GuiMessage::FileContextsLoaded(result) => {
                self.loading_file_contexts = false;
                match result {
                    Ok(entries) => {
                        let count = entries.len();
                        self.file_contexts = entries;
                        let mut status = dec_chars(count as u64);
                        let mut tail = chars_of(" cached files");
                        status.append(&mut tail);
                        self.file_context_status = Some(string_from_chars(&status));
                    },
                    Err(e) => {
                        self.file_context_status = Some(e);
                    },
                }
                GuiCommand::Nothing
            },
        }
    }
}

/// The feeds never hold more than `MAX_DETECTIONS` detections, whatever the
/// messages.
pub proof fn law_feeds_stay_bounded<D>(v: GuiView<D>, msg: GuiMessage<D>)
    requires
        v.detections.len() <= MAX_DETECTIONS,
        v.pending.len() <= MAX_DETECTIONS,
    ensures
        gui_update(v, msg).0.detections.len() <= MAX_DETECTIONS,
        gui_update(v, msg).0.pending.len() <= MAX_DETECTIONS,
{
}

/// While paused, a new detection is held back and the shown feed does not
/// change; unpausing puts every held-back detection in front of the shown
/// ones, newest first, and empties the held-back feed.
pub proof fn law_pause_holds_back_detections<D>(v: GuiView<D>, d: D)
    requires
        v.paused,
    ensures
        gui_update(v, GuiMessage::IpcEvent(ClientEvent::Detection(d))).0.detections
            == v.detections,
        gui_update(v, GuiMessage::IpcEvent(ClientEvent::Detection(d))).0.pending == capped(
            seq![d] + v.pending,
        ),
        gui_update(v, GuiMessage::TogglePause).0.detections == capped(v.pending + v.detections),
        gui_update(v, GuiMessage::TogglePause).0.pending == Seq::<D>::empty(),
        !gui_update(v, GuiMessage::TogglePause).0.paused,
{
}

/// Expanding a row of the detection feed pauses the feed; toggling the same
/// row twice leaves the set of expanded rows as it was.
pub proof fn law_toggle_expanded<D>(v: GuiView<D>, id: String)
    ensures
        !v.expanded.contains(id@) && v.view_mode == ViewMode::Detections ==> gui_update(
            v,
            GuiMessage::ToggleExpanded(id),
        ).0.paused,
        gui_update(gui_update(v, GuiMessage::ToggleExpanded(id)).0, GuiMessage::ToggleExpanded(id)).0.expanded
            == v.expanded,
{
    let w = gui_update(v, GuiMessage::ToggleExpanded(id)).0;
    if v.expanded.contains(id@) {
        assert(w.expanded.insert(id@) =~= v.expanded);
    } else {
        assert(w.expanded.remove(id@) =~= v.expanded);
    }
}

/// While a listing is loading, asking for another one asks nothing.
pub proof fn law_one_listing_at_a_time<D>(v: GuiView<D>)
    requires
        v.loading,
    ensures
        gui_update(v, GuiMessage::RefreshFileContexts) == (v, GuiCommand::Nothing),
{
}

} // verus!
