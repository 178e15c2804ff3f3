//! The picker's view state machine: what each key does in each view, the
//! hand-off to saving and description lookup, and the frame drawn for each
//! state.

use vstd::prelude::*;
use crate::enrich::{description_from, opt_view, reply_description, EnrichmentResult, ServiceReply};
use crate::error::PickerError;
use crate::filter::{filter_spec, fuzzy_filter, texts};
use crate::renderer::{DrawOpView, Renderer};
use crate::selection::{cursor_in_bounds, moved, MoveDirection, SelectionList, SelectionView};
use crate::text::{pop_char, push_char};

verus! {

/// How many history lines are visible at once.
pub const VISIBLE_LIMIT: usize = 10;

/// Shown while the description is fetched, before the command.
pub const LOADING_TEXT: &'static str = "Fetching description for: ";

/// Shown once the command is saved, before the command.
pub const SAVED_TEXT: &'static str = "Saved: ";

/// Shown when no description could be had.
pub const NO_DESCRIPTION: &'static str = "No description available.";

/// A key press, as the picker reads it.
#[derive(Debug, Clone, Copy, PartialEq, Eq, Structural)]
pub enum Key {
    Char(char),
    Up,
    Down,
    Enter,
    Esc,
    Backspace,
    Other,
}

/// What the caller is to do after a key press.
pub enum Action {
    /// Draw the next frame and read the next key.
    Continue,
    /// End the session.
    Quit,
    /// Save the command and fetch its description, then report back with
    /// `complete_enrichment`.
    Enrich(String),
}

/// What an action asks for.
pub enum ActionView {
    Continue,
    Quit,
    Enrich(Seq<char>),
}

impl View for Action {
    type V = ActionView;

    open spec fn view(&self) -> ActionView {
        match self {
            Action::Continue => ActionView::Continue,
            Action::Quit => ActionView::Quit,
            Action::Enrich(c) => ActionView::Enrich(c@),
        }
    }
}

/// The view that is active, with its own data.
pub enum ViewState {
    List,
    Search,
    ApiLoading { command: String },
    Saved { result: EnrichmentResult },
}

/// Which view is active.
#[derive(Debug, Clone, Copy, PartialEq, Eq, Structural)]
pub enum ViewKind {
    List,
    Search,
    Loading,
    Done,
}

/// The active view with what it holds.
pub enum Mode {
    List,
    Search,
    /// The command whose description is being fetched.
    Loading(Seq<char>),
    /// The saved command and its description, if one was found.
    Done(Seq<char>, Option<Seq<char>>),
}

/// What a view state holds.
pub open spec fn mode_of(s: ViewState) -> Mode {
    match s {
        ViewState::List => Mode::List,
        ViewState::Search => Mode::Search,
        ViewState::ApiLoading { command } => Mode::Loading(command@),
        ViewState::Saved { result } => Mode::Done(result.command@, opt_view(result.description)),
    }
}

/// Which view a mode is.
pub open spec fn kind_of(m: Mode) -> ViewKind {
    match m {
        Mode::List => ViewKind::List,
        Mode::Search => ViewKind::Search,
        Mode::Loading(_) => ViewKind::Loading,
        Mode::Done(_, _) => ViewKind::Done,
    }
}

/// The whole state of the picker.
pub struct PickerView {
    pub mode: Mode,
    pub query: Seq<char>,
    pub all: Seq<Seq<char>>,
    pub limit: nat,
    pub list: SelectionView,
}

/// The state after the query becomes `query`: the list is filtered anew and
/// its cursor is back on the first item.
pub open spec fn refiltered(v: PickerView, query: Seq<char>) -> PickerView {
    PickerView {
        mode: v.mode,
        query,
        all: v.all,
        limit: v.limit,
        list: SelectionView { items: filter_spec(v.all, query, v.limit), cursor: 0 },
    }
}

/// The state with another active view.
pub open spec fn with_mode(v: PickerView, mode: Mode) -> PickerView {
    PickerView { mode, query: v.query, all: v.all, limit: v.limit, list: v.list }
}

/// The state with another visible list.
pub open spec fn with_list(v: PickerView, list: SelectionView) -> PickerView {
    PickerView { mode: v.mode, query: v.query, all: v.all, limit: v.limit, list }
}

/// The highlighted item.
pub open spec fn selected_item(v: PickerView) -> Seq<char> {
    v.list.items[v.list.cursor]
}

/// The state after `key`.
pub open spec fn next_view(v: PickerView, key: Key) -> PickerView {
    match v.mode {
        Mode::List => {
            if key == Key::Char('k') || key == Key::Up {
                with_list(v, moved(v.list, MoveDirection::Up))
            } else if key == Key::Char('j') || key == Key::Down {
                with_list(v, moved(v.list, MoveDirection::Down))
            } else if key == Key::Char('/') {
                with_mode(refiltered(v, Seq::empty()), Mode::Search)
            } else if key == Key::Enter && v.list.items.len() > 0 {
                with_mode(v, Mode::Loading(selected_item(v)))
            } else {
                v
            }
        },
        Mode::Search => {
            if key == Key::Esc {
                with_mode(refiltered(v, Seq::empty()), Mode::List)
            } else if key == Key::Backspace {
                refiltered(
                    v,
                    if v.query.len() > 0 {
                        v.query.drop_last()
                    } else {
                        v.query
                    },
                )
            } else if key == Key::Enter {
                with_mode(v, Mode::List)
            } else {
                match key {
                    Key::Char(c) => refiltered(v, v.query.push(c)),
                    _ => v,
                }
            }
        },
        _ => v,
    }
}

/// What the caller is asked to do after `key`.
pub open spec fn action_for(v: PickerView, key: Key) -> ActionView {
    match v.mode {
        Mode::List => {
            if key == Key::Char('q') {
                ActionView::Quit
            } else if key == Key::Enter && v.list.items.len() > 0 {
                ActionView::Enrich(selected_item(v))
            } else {
                ActionView::Continue
            }
        },
        Mode::Search => ActionView::Continue,
        _ => {
            if key == Key::Char('q') {
                ActionView::Quit
            } else {
                ActionView::Continue
            }
        },
    }
}

/// The view's title, drawn on the top row.
pub open spec fn mode_title(m: Mode) -> Seq<char> {
    match m {
        Mode::List => "List"@,
        Mode::Search => "Search"@,
        Mode::Loading(_) => "Api loading"@,
        Mode::Done(_, _) => "Saved"@,
    }
}

/// A list row: a marker for the highlighted item, then the item.
pub open spec fn list_line(item: Seq<char>, highlighted: bool) -> Seq<char> {
    (if highlighted {
        "> "@
    } else {
        "  "@
    }) + item
}

/// The list's rows, from the second row of the screen down.
pub open spec fn list_ops(list: SelectionView) -> Seq<DrawOpView> {
    Seq::new(
        list.items.len(),
        |i: int| DrawOpView::Line((i + 1) as u16, list_line(list.items[i], i == list.cursor)),
    )
}

/// What a view draws below its title.
pub open spec fn content_ops(v: PickerView) -> Seq<DrawOpView> {
    match v.mode {
        Mode::List => list_ops(v.list),
        Mode::Search => list_ops(v.list).push(DrawOpView::Status(seq!['/'] + v.query)),
        Mode::Loading(c) => seq![DrawOpView::Line(1, LOADING_TEXT@ + c)],
        Mode::Done(c, d) => seq![
            DrawOpView::Line(1, SAVED_TEXT@ + c),
            DrawOpView::Line(
                2,
                match d {
                    Some(t) => t,
                    None => NO_DESCRIPTION@,
                },
            ),
        ],
    }
}

/// One frame: clear, the view's content, then its title on the top row.
pub open spec fn frame_ops(v: PickerView) -> Seq<DrawOpView> {
    seq![DrawOpView::Clear] + content_ops(v) + seq![DrawOpView::Line(0, mode_title(v.mode))]
}

/// The interactive history picker.
pub struct HistoryView {
    view: ViewState,
    search_query: String,
    list: SelectionList,
    all_commands: Vec<String>,
    visible_limit: usize,
}

impl View for HistoryView {
    type V = PickerView;

    closed spec fn view(&self) -> PickerView {
        PickerView {
            mode: mode_of(self.view),
            query: self.search_query@,
            all: texts(self.all_commands@),
            limit: self.visible_limit as nat,
            list: self.list@,
        }
    }
}

/// The picker's invariant: the visible list is always the current query's
/// filter result, and the cursor stays inside it.
pub open spec fn picker_wf(v: PickerView) -> bool {
    &&& v.limit == VISIBLE_LIMIT
    &&& v.list.items == filter_spec(v.all, v.query, v.limit)
    &&& v.list.items.len() <= v.limit
    &&& cursor_in_bounds(v.list)
}

impl HistoryView {
    pub closed spec fn wf(&self) -> bool {
        &&& picker_wf(self@)
        &&& self.list.wf()
    }

    /// A picker in the list view with no history loaded.
    pub fn new() -> (r: Self)
        ensures
            r.wf(),
            r@.mode == Mode::List,
            r@.query.len() == 0,
            r@.all.len() == 0,
            r@.list.items.len() == 0,
    {
        let r = HistoryView {
            view: ViewState::List,
            search_query: String::new(),
            list: SelectionList::new(),
            all_commands: Vec::new(),
            visible_limit: VISIBLE_LIMIT,
        };
        assert(texts(r.all_commands@) =~= Seq::empty());
        assert(filter_spec(texts(r.all_commands@), r.search_query@, 10) =~= Seq::empty());
        assert(r@.list.items =~= Seq::empty());
        r
    }

    /// Rebuilds the visible list from the history and the current query.
    fn assign_query_commands(&mut self)
        requires
            old(self).list.wf(),
            old(self)@.limit == VISIBLE_LIMIT,
        ensures
            final(self).wf(),
            final(self)@ == refiltered(old(self)@, old(self)@.query),
    {
        let visible = fuzzy_filter(&self.all_commands, self.search_query.as_str(), self.visible_limit);
        self.list.rebuild(visible);
    }

    /// Takes the history lines, most recent first, and shows the first of
    /// them for the current query.
    pub fn load_history(&mut self, history: Vec<String>)
        requires
            old(self).wf(),
        ensures
            final(self).wf(),
            final(self)@.all == texts(history@),
            final(self)@.mode == old(self)@.mode,
            final(self)@.query == old(self)@.query,
            final(self)@.list == (SelectionView {
                items: filter_spec(texts(history@), old(self)@.query, old(self)@.limit),
                cursor: 0,
            }),
    {
        self.all_commands = history;
        self.assign_query_commands();
    }

    /// True when no line is visible.
    pub fn is_empty(&self) -> (r: bool)
        requires
            self.wf(),
        ensures
            r == (self@.list.items.len() == 0),
    {
        self.list.is_empty()
    }

    /// The highlighted line; `EmptySelection` when none is visible.
    pub fn get_selected(&self) -> (r: Result<String, PickerError>)
        requires
            self.wf(),
        ensures
            self@.list.items.len() == 0 ==> r == Err::<String, PickerError>(
                PickerError::EmptySelection,
            ),
            self@.list.items.len() > 0 ==> r is Ok && r->Ok_0@ == selected_item(self@),
    {
        self.list.selected()
    }

    /// Moves the highlight one line, clamped to the visible list.
    pub fn move_selected_index(&mut self, direction: MoveDirection)
        requires
            old(self).wf(),
        ensures
            final(self).wf(),
            final(self)@ == with_list(old(self)@, moved(old(self)@.list, direction)),
    {
        self.list.move_cursor(direction);
    }

    /// Starts saving the highlighted line: the picker shows the loading view
    /// and the line is returned for the caller to save and describe. With
    /// no visible line nothing changes and `EmptySelection` comes back.
    pub fn save_command(&mut self) -> (r: Result<String, PickerError>)
        requires
            old(self).wf(),
        ensures
            final(self).wf(),
            old(self)@.list.items.len() == 0 ==> r == Err::<String, PickerError>(
                PickerError::EmptySelection,
            ) && final(self)@ == old(self)@,
            old(self)@.list.items.len() > 0 ==> r is Ok && r->Ok_0@ == selected_item(old(self)@)
                && final(self)@ == with_mode(old(self)@, Mode::Loading(selected_item(old(self)@))),
    {
        match self.list.selected() {
            Ok(command) => {
                self.view = ViewState::ApiLoading { command: command.clone() };
                Ok(command)
            },
            Err(e) => Err(e),
        }
    }

    /// Ends the loading view with the description service's reply: the
    /// picker reaches the saved view whatever the reply was, with the
    /// description it carried or none. In any other view nothing changes.
    pub fn complete_enrichment(&mut self, reply: ServiceReply)
        requires
            old(self).wf(),
        ensures
            final(self).wf(),
            match old(self)@.mode {
                Mode::Loading(c) => final(self)@ == with_mode(
                    old(self)@,
                    Mode::Done(c, reply_description(reply)),
                ),
                _ => final(self)@ == old(self)@,
            },
    {
        let kind = self.kind();
        if kind == ViewKind::Loading {
            let mut command = String::new();
            match &self.view {
                ViewState::ApiLoading { command: c } => {
                    command = c.clone();
                },
                _ => {},
            }
            let description = description_from(reply);
            self.view = ViewState::Saved { result: EnrichmentResult { command, description } };
        }
    }

    /// Which view is active.
    pub fn kind(&self) -> (r: ViewKind)
        ensures
            r == kind_of(self@.mode),
    {
        match &self.view {
            ViewState::List => ViewKind::List,
            ViewState::Search => ViewKind::Search,
            ViewState::ApiLoading { .. } => ViewKind::Loading,
            ViewState::Saved { .. } => ViewKind::Done,
        }
    }

    /// Applies one key press and says what the caller is to do next.
    pub fn handle_key(&mut self, key: Key) -> (r: Action)
        requires
            old(self).wf(),
        ensures
            final(self).wf(),
            final(self)@ == next_view(old(self)@, key),
            r@ == action_for(old(self)@, key),
    {
        let kind = self.kind();
        match kind {
            ViewKind::List => {
                if key == Key::Char('k') || key == Key::Up {
                    self.move_selected_index(MoveDirection::Up);
                    Action::Continue
                } else if key == Key::Char('j') || key == Key::Down {
                    self.move_selected_index(MoveDirection::Down);
                    Action::Continue
                } else if key == Key::Char('/') {
                    self.search_query = String::new();
                    self.view = ViewState::Search;
                    self.assign_query_commands();
                    Action::Continue
                } else if key == Key::Enter {
                    if self.is_empty() {
                        Action::Continue
                    } else {
                        match self.save_command() {
                            Ok(command) => Action::Enrich(command),
                            Err(_) => Action::Continue,
                        }
                    }
                } else if key == Key::Char('q') {
                    Action::Quit
                } else {
                    Action::Continue
                }
            },
            ViewKind::Search => {
                if key == Key::Esc {
                    self.search_query = String::new();
                    self.view = ViewState::List;
                    self.assign_query_commands();
                } else if key == Key::Backspace {
                    let _ = pop_char(&mut self.search_query);
                    self.assign_query_commands();
                } else if key == Key::Enter {
                    self.view = ViewState::List;
                } else {
                    match key {
                        Key::Char(c) => {
                            push_char(&mut self.search_query, c);
                            self.assign_query_commands();
                        },
                        _ => {},
                    }
                }
                Action::Continue
            },
            _ => {
                if key == Key::Char('q') {
                    Action::Quit
                } else {
                    Action::Continue
                }
            },
        }
    }

    /// The current query.
    pub fn query(&self) -> (r: &String)
        ensures
            r@ == self@.query,
    {
        &self.search_query
    }

    /// The visible lines, in order.
    pub fn visible(&self) -> (r: &Vec<String>)
        ensures
            texts(r@) == self@.list.items,
    {
        self.list.items()
    }

    /// The index of the highlighted line.
    pub fn selected_index(&self) -> (r: usize)
        ensures
            r == self@.list.cursor,
    {
        self.list.cursor()
    }

    /// The saved command and its description, once the saved view is
    /// reached.
    pub fn saved_result(&self) -> (r: Option<&EnrichmentResult>)
        ensures
            match self@.mode {
                Mode::Done(c, d) => r is Some && r->Some_0.command@ == c && opt_view(
                    r->Some_0.description,
                ) == d,
                _ => r is None,
            },
    {
        match &self.view {
            ViewState::Saved { result } => Some(result),
            _ => None,
        }
    }

    /// Draws the visible lines, the highlighted one marked.
    fn render_list(&self, renderer: &mut Renderer)
        requires
            self.wf(),
        ensures
            final(renderer)@.session == old(renderer)@.session,
            final(renderer)@.queued == old(renderer)@.queued + list_ops(self@.list),
    {
        let items = self.list.items();
        let cursor = self.list.cursor();
        let mut i: usize = 0;
        while i < items.len()
            invariant
                self.wf(),
                texts(items@) == self@.list.items,
                cursor == self@.list.cursor,
                items@.len() <= VISIBLE_LIMIT,
                i <= items@.len(),
                renderer@.session == old(renderer)@.session,
                renderer@.queued == old(renderer)@.queued + list_ops(self@.list).take(i as int),
            decreases items@.len() - i,
        {
            let mut line = if i == cursor {
                String::from_str("> ")
            } else {
                String::from_str("  ")
            };
            line.append(items[i].as_str());
            assert(texts(items@)[i as int] == items@[i as int]@);
            renderer.write_line(line, (i + 1) as u16);
            assert(list_ops(self@.list).take(i + 1) =~= list_ops(self@.list).take(i as int).push(
                list_ops(self@.list)[i as int],
            ));
            i = i + 1;
        }
        assert(list_ops(self@.list).take(i as int) =~= list_ops(self@.list));
    }

    /// Draws the query on the bottom row.
    fn render_query(&self, renderer: &mut Renderer)
        ensures
            final(renderer)@.session == old(renderer)@.session,
            final(renderer)@.queued == old(renderer)@.queued.push(
                DrawOpView::Status(seq!['/'] + self@.query),
            ),
    {
        let mut line = String::new();
        push_char(&mut line, '/');
        line.append(self.search_query.as_str());
        assert(line@ =~= seq!['/'] + self@.query);
        renderer.write_status(line);
    }

    /// Draws what a view shows below its title.
    fn render_content(&self, renderer: &mut Renderer)
        requires
            self.wf(),
        ensures
            final(renderer)@.session == old(renderer)@.session,
            final(renderer)@.queued == old(renderer)@.queued + content_ops(self@),
    {
        match &self.view {
            ViewState::List => {
                self.render_list(renderer);
            },
            ViewState::Search => {
                self.render_list(renderer);
                self.render_query(renderer);
                assert(old(renderer)@.queued + list_ops(self@.list).push(
                    DrawOpView::Status(seq!['/'] + self@.query),
                ) =~= (old(renderer)@.queued + list_ops(self@.list)).push(
                    DrawOpView::Status(seq!['/'] + self@.query),
                ));
            },
            ViewState::ApiLoading { command } => {
                let mut line = String::from_str(LOADING_TEXT);
                line.append(command.as_str());
                renderer.write_line(line, 1);
                assert(old(renderer)@.queued + content_ops(self@) =~= old(renderer)@.queued.push(
                    DrawOpView::Line(1, LOADING_TEXT@ + command@),
                ));
            },
            ViewState::Saved { result } => {
                let mut line = String::from_str(SAVED_TEXT);
                line.append(result.command.as_str());
                renderer.write_line(line, 1);
                let description = match &result.description {
                    Some(d) => d.clone(),
                    None => String::from_str(NO_DESCRIPTION),
                };
                renderer.write_line(description, 2);
                assert(old(renderer)@.queued + content_ops(self@) =~= old(renderer)@.queued.push(
                    DrawOpView::Line(1, SAVED_TEXT@ + result.command@),
                ).push(
                    DrawOpView::Line(
                        2,
                        match opt_view(result.description) {
                            Some(t) => t,
                            None => NO_DESCRIPTION@,
                        },
                    ),
                ));
            },
        }
    }

    /// Draws the view's title on the top row.
    fn render_view(&self, renderer: &mut Renderer)
        ensures
            final(renderer)@.session == old(renderer)@.session,
            final(renderer)@.queued == old(renderer)@.queued.push(
                DrawOpView::Line(0, mode_title(self@.mode)),
            ),
    {
        let title = match &self.view {
            ViewState::List => String::from_str("List"),
            ViewState::Search => String::from_str("Search"),
            ViewState::ApiLoading { .. } => String::from_str("Api loading"),
            ViewState::Saved { .. } => String::from_str("Saved"),
        };
        renderer.write_line(title, 0);
    }

    /// Composes one frame of the current view: a clear, the view's content,
    /// then its title. The caller flushes it to the terminal whole.
    pub fn render(&self, renderer: &mut Renderer)
        requires
            self.wf(),
        ensures
            final(renderer)@.session == old(renderer)@.session,
            final(renderer)@.queued == old(renderer)@.queued + frame_ops(self@),
    {
        renderer.clear_screen();
        self.render_content(renderer);
        self.render_view(renderer);
        assert(old(renderer)@.queued + frame_ops(self@) =~= (old(renderer)@.queued.push(
            DrawOpView::Clear,
        ) + content_ops(self@)).push(DrawOpView::Line(0, mode_title(self@.mode))));
    }
}

/// The picker enters the loading view only from the list view and only
/// with a visible line, which is the command it then works on; and only
/// then does it ask for a selection to be saved.
pub proof fn lemma_loading_needs_a_line(v: PickerView, key: Key)
    requires
        picker_wf(v),
    ensures
        kind_of(next_view(v, key).mode) == ViewKind::Loading && kind_of(v.mode) != ViewKind::Loading
            ==> v.mode == Mode::List && v.list.items.len() > 0 && next_view(v, key).mode
            == Mode::Loading(selected_item(v)),
        action_for(v, key) is Enrich ==> v.mode == Mode::List && v.list.items.len() > 0,
{
}

} // verus!
