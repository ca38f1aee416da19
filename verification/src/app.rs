//! The controller: it turns key presses into changes of the navigation state
//! and orchestrates reloads. All outside work (the fetch, the clipboard, the
//! clock) is the caller's; the controller says what is to be done and takes
//! the outcome back.

use vstd::prelude::*;
use vstd::string::*;

use crate::keys::{KeyCode, KeyEvent, KeyModifiers};
use crate::services::manager::{command_target, ServiceManager};
use crate::services::traits::{
    items_view, opt_pair_view, opt_state_view, visible, visible_items, AwsService, LoadRequest,
    LoadRequestView, RemoteFetchError, ResourceItem, ResourceItemView, ServiceId, ViewState,
    ViewStateView, ViewType, ViewTypeView,
};
use crate::text::opt_view;

verus! {

/// How key presses are read.
#[derive(Debug, Clone, Copy, PartialEq, Eq, Structural)]
pub enum InputMode {
    Normal,
    Command,
    Search,
}

/// How long a copy notice stays, in milliseconds. The footer shows the notice
/// for exactly as long as the state keeps it.
pub const COPY_STATUS_MILLIS: u64 = 3000;

/// The interval between two reloads of the active view without a request, in
/// milliseconds.
pub const AUTO_REFRESH_MILLIS: u64 = 30000;

/// The milliseconds from `since` to `now` on a clock that does not run
/// backwards; zero where `now` lies before `since`.
pub open spec fn elapsed(since: u64, now: u64) -> u64 {
    if now >= since {
        (now - since) as u64
    } else {
        0
    }
}

/// The milliseconds from `since` to `now`.
pub fn millis_since(since: u64, now: u64) -> (out: u64)
    ensures
        out == elapsed(since, now),
{
    if now >= since {
        now - since
    } else {
        0
    }
}

/// The session: navigation state, transient input state, and the registry
/// with its cache. Times are milliseconds on the caller's monotonic clock.
pub struct App<S: AwsService> {
    pub running: bool,
    pub input_mode: InputMode,
    pub current_view: Option<ViewState>,
    pub input_buffer: String,
    pub view_stack: Vec<ViewState>,
    pub last_refresh: u64,
    pub loading: bool,
    pub error_message: Option<String>,
    pub copy_status: Option<(String, u64)>,
    pub aws_profile: String,
    pub aws_region: String,
    pub service_manager: ServiceManager<S>,
}

/// The mathematical value of an [`App`].
pub struct AppView<S> {
    pub running: bool,
    pub input_mode: InputMode,
    pub current_view: Option<ViewStateView>,
    pub input_buffer: Seq<char>,
    pub view_stack: Seq<ViewStateView>,
    pub last_refresh: u64,
    pub loading: bool,
    pub error_message: Option<Seq<char>>,
    pub copy_status: Option<(Seq<char>, u64)>,
    pub aws_profile: Seq<char>,
    pub aws_region: Seq<char>,
    /// The ids of the registered services, in the order of registration.
    pub order: Seq<Seq<char>>,
    /// The registered services by id.
    pub services: Map<Seq<char>, S>,
    /// The data last loaded for each service, by id.
    pub cache: Map<Seq<char>, Seq<ResourceItemView>>,
}

/// The values of a stack of view states.
pub open spec fn stack_view(stack: Seq<ViewState>) -> Seq<ViewStateView> {
    stack.map_values(|v: ViewState| v@)
}

/// The value of an optional copy notice.
pub open spec fn status_view(status: Option<(String, u64)>) -> Option<(Seq<char>, u64)> {
    match status {
        Some((text, at)) => Some((text@, at)),
        None => None,
    }
}

impl<S: AwsService> View for App<S> {
    type V = AppView<S>;

    open spec fn view(&self) -> AppView<S> {
        AppView {
            running: self.running,
            input_mode: self.input_mode,
            current_view: opt_state_view(self.current_view),
            input_buffer: self.input_buffer@,
            view_stack: stack_view(self.view_stack@),
            last_refresh: self.last_refresh,
            loading: self.loading,
            error_message: opt_view(self.error_message),
            copy_status: status_view(self.copy_status),
            aws_profile: self.aws_profile@,
            aws_region: self.aws_region@,
            order: self.service_manager.order(),
            services: self.service_manager.services(),
            cache: self.service_manager.cache(),
        }
    }
}

impl<S: AwsService> AppView<S> {
    /// The session at start: running, normal mode, no view, nothing
    /// registered or loaded.
    pub open spec fn initial(profile: Seq<char>, region: Seq<char>, now: u64) -> AppView<S> {
        AppView {
            running: true,
            input_mode: InputMode::Normal,
            current_view: None,
            input_buffer: Seq::empty(),
            view_stack: Seq::empty(),
            last_refresh: now,
            loading: false,
            error_message: None,
            copy_status: None,
            aws_profile: profile,
            aws_region: region,
            order: Seq::empty(),
            services: Map::empty(),
            cache: Map::empty(),
        }
    }

    /// The copy notice that is still to be kept at `now`.
    pub open spec fn live_copy_status(self, now: u64) -> Option<(Seq<char>, u64)> {
        match self.copy_status {
            Some((text, at)) => if elapsed(at, now) >= COPY_STATUS_MILLIS {
                None
            } else {
                Some((text, at))
            },
            None => None,
        }
    }

    /// The state with the expired copy notice dropped.
    pub open spec fn without_expired_copy_status(self, now: u64) -> AppView<S> {
        AppView { copy_status: self.live_copy_status(now), ..self }
    }

    /// The state after a reload was requested at `now`.
    pub open spec fn refreshed(self, now: u64) -> AppView<S> {
        AppView {
            loading: true,
            last_refresh: now,
            copy_status: self.live_copy_status(now),
            ..self
        }
    }

    /// The state after a load failed with `error`.
    pub open spec fn failed(self, error: Seq<char>) -> AppView<S> {
        AppView { loading: false, error_message: Some(error), ..self }
    }

    /// The number of items that the filter of `view_state` leaves of the data
    /// cached for its service; zero without service or data.
    pub open spec fn filtered_count(self, view_state: ViewStateView) -> nat {
        if self.services.contains_key(view_state.service_id) && self.cache.contains_key(
            view_state.service_id,
        ) {
            visible(
                &self.services[view_state.service_id],
                self.cache[view_state.service_id],
                view_state.search_filter,
            ).len()
        } else {
            0
        }
    }

    /// The last row that can be highlighted in `view_state`; row 0 in an
    /// empty listing.
    pub open spec fn max_index(self, view_state: ViewStateView) -> nat {
        if self.filtered_count(view_state) == 0 {
            0
        } else {
            (self.filtered_count(view_state) - 1) as nat
        }
    }

    /// The highlighted row points at an item of the filtered view, or at row
    /// 0 of an empty one.
    pub open spec fn selection_in_range(self) -> bool {
        match self.current_view {
            Some(v) => v.selected_index < self.filtered_count(v) || (self.filtered_count(v) == 0
                && v.selected_index == 0),
            None => true,
        }
    }

    /// The state after a load succeeded: the error is gone and the
    /// highlighted row is clamped to the filtered view.
    pub open spec fn settled(self) -> AppView<S> {
        AppView {
            loading: false,
            error_message: None,
            current_view: match self.current_view {
                Some(v) => Some(
                    if v.selected_index > self.max_index(v) {
                        ViewStateView { selected_index: self.max_index(v) as usize, ..v }
                    } else {
                        v
                    },
                ),
                None => None,
            },
            ..self
        }
    }
}

impl<S: AwsService> AppView<S> {
    /// The state after a request to quit.
    pub open spec fn stopped(self) -> AppView<S> {
        AppView { running: false, ..self }
    }

    /// The state in `mode` with an empty input buffer.
    pub open spec fn in_mode(self, mode: InputMode) -> AppView<S> {
        AppView { input_mode: mode, input_buffer: Seq::empty(), ..self }
    }

    /// The state with the highlight one row up; it stays on the first row.
    pub open spec fn moved_up(self) -> AppView<S> {
        match self.current_view {
            Some(v) => if v.selected_index > 0 {
                AppView {
                    current_view: Some(
                        ViewStateView { selected_index: (v.selected_index - 1) as usize, ..v },
                    ),
                    ..self
                }
            } else {
                self
            },
            None => self,
        }
    }

    /// The state with the highlight one row down; it stays on the last row
    /// of the filtered view.
    pub open spec fn moved_down(self) -> AppView<S> {
        match self.current_view {
            Some(v) => if v.selected_index < self.max_index(v) {
                AppView {
                    current_view: Some(
                        ViewStateView { selected_index: (v.selected_index + 1) as usize, ..v },
                    ),
                    ..self
                }
            } else {
                self
            },
            None => self,
        }
    }

    /// The state that a drill-down from the active view leads to: what its
    /// service says for the cached data; none without view, service or data.
    pub open spec fn enter_target(self) -> Option<ViewStateView> {
        match self.current_view {
            Some(v) => if self.services.contains_key(v.service_id) && self.cache.contains_key(
                v.service_id,
            ) {
                self.services[v.service_id].entered(v, self.cache[v.service_id])
            } else {
                None
            },
            None => None,
        }
    }

    /// The state after a forward transition: the active view goes onto the
    /// stack, the target becomes active and a reload is requested. Without a
    /// target nothing changes.
    pub open spec fn entered(self, now: u64) -> AppView<S> {
        match (self.current_view, self.enter_target()) {
            (Some(v), Some(target)) => AppView {
                view_stack: self.view_stack.push(v),
                current_view: Some(target),
                ..self
            }.refreshed(now),
            _ => self,
        }
    }

    /// The state after a backward transition: the top of the stack becomes
    /// active as it was pushed, and a reload is requested. With an empty
    /// stack nothing changes.
    pub open spec fn escaped(self, now: u64) -> AppView<S> {
        if self.view_stack.len() > 0 {
            AppView {
                current_view: Some(self.view_stack.last()),
                view_stack: self.view_stack.drop_last(),
                ..self
            }.refreshed(now)
        } else {
            self
        }
    }

    /// What a copy exports for the highlighted item: what the service of the
    /// active view says for the cached data; nothing without view, service or
    /// data.
    pub open spec fn copy_request(self) -> Option<(Seq<char>, Seq<char>)> {
        match self.current_view {
            Some(v) => if self.services.contains_key(v.service_id) && self.cache.contains_key(
                v.service_id,
            ) {
                self.services[v.service_id].copy_content(v, self.cache[v.service_id])
            } else {
                None
            },
            None => None,
        }
    }

    /// The state after a key press in normal mode.
    pub open spec fn after_normal_key(self, key: KeyEvent, now: u64) -> AppView<S> {
        if key.is_control('c') || key.is_plain('q') {
            self.stopped()
        } else if key.is_control('r') || key.is_plain('r') {
            self.refreshed(now)
        } else if key.is_plain(':') {
            self.in_mode(InputMode::Command)
        } else if key.is_plain('/') {
            self.in_mode(InputMode::Search)
        } else if key.code == KeyCode::Enter && key.modifiers == KeyModifiers::Plain {
            self.entered(now)
        } else if key.code == KeyCode::Esc && key.modifiers == KeyModifiers::Plain {
            self.escaped(now)
        } else if key.code == KeyCode::Up || key.is_plain('k') {
            self.moved_up()
        } else if key.code == KeyCode::Down || key.is_plain('j') {
            self.moved_down()
        } else {
            self
        }
    }
}

/// A text without its last character; the empty text stays empty.
pub open spec fn without_last(text: Seq<char>) -> Seq<char> {
    if text.len() > 0 {
        text.drop_last()
    } else {
        text
    }
}

/// What the caller has to do after a key press.
#[derive(Debug)]
pub enum Action {
    /// Nothing.
    Nothing,
    /// Put `content` on the clipboard and, if that succeeds, report the copy
    /// of `display_name`.
    Copy { content: String, display_name: String },
}

/// The mathematical value of an [`Action`].
pub enum ActionView {
    Nothing,
    Copy { content: Seq<char>, display_name: Seq<char> },
}

impl View for Action {
    type V = ActionView;

    open spec fn view(&self) -> ActionView {
        match self {
            Action::Nothing => ActionView::Nothing,
            Action::Copy { content, display_name } => ActionView::Copy {
                content: content@,
                display_name: display_name@,
            },
        }
    }
}

impl<S: AwsService> AppView<S> {
    /// The state after the command in the input buffer was run: `quit` and
    /// `q` stop the session, `refresh` and `r` request a reload, the alias of
    /// a registered service switches to its list view and requests a reload.
    /// Any other text changes nothing.
    pub open spec fn command_run(self, now: u64) -> AppView<S> {
        let command = self.input_buffer;
        if command == "quit"@ || command == "q"@ {
            self.stopped()
        } else if command == "refresh"@ || command == "r"@ {
            self.refreshed(now)
        } else {
            match command_target(self.order, self.services, command) {
                Some(id) => AppView {
                    current_view: Some(ViewStateView::fresh(id, ViewTypeView::List)),
                    ..self
                }.refreshed(now),
                None => self,
            }
        }
    }

    /// The state after a key press in command mode.
    pub open spec fn after_command_key(self, key: KeyEvent, now: u64) -> AppView<S> {
        match key.code {
            KeyCode::Esc => self.in_mode(InputMode::Normal),
            KeyCode::Enter => self.command_run(now).in_mode(InputMode::Normal),
            KeyCode::Char(c) => AppView { input_buffer: self.input_buffer.push(c), ..self },
            KeyCode::Backspace => AppView {
                input_buffer: without_last(self.input_buffer),
                ..self
            },
            _ => self,
        }
    }

    /// The state with `filter` as the filter of the active view and the
    /// highlight on the first row.
    pub open spec fn filtered_by(self, filter: Seq<char>) -> AppView<S> {
        match self.current_view {
            Some(v) => AppView {
                current_view: Some(
                    ViewStateView { search_filter: filter, selected_index: 0, ..v },
                ),
                ..self
            },
            None => self,
        }
    }

    /// The state after a key press in search mode: every edit of the buffer
    /// is the filter at once, `Enter` keeps it, `Esc` clears it.
    pub open spec fn after_search_key(self, key: KeyEvent) -> AppView<S> {
        match key.code {
            KeyCode::Esc => self.filtered_by(Seq::empty()).in_mode(InputMode::Normal),
            KeyCode::Enter => self.filtered_by(self.input_buffer).in_mode(InputMode::Normal),
            KeyCode::Char(c) => AppView {
                input_buffer: self.input_buffer.push(c),
                ..self
            }.filtered_by(self.input_buffer.push(c)),
            KeyCode::Backspace => AppView {
                input_buffer: without_last(self.input_buffer),
                ..self
            }.filtered_by(without_last(self.input_buffer)),
            _ => self,
        }
    }

    /// The state after a key press.
    pub open spec fn after_key(self, key: KeyEvent, now: u64) -> AppView<S> {
        match self.input_mode {
            InputMode::Normal => self.after_normal_key(key, now),
            InputMode::Command => self.after_command_key(key, now),
            InputMode::Search => self.after_search_key(key),
        }
    }

    /// What the caller has to do after a key press: a copy for `c` in normal
    /// mode where the highlighted item has something to export.
    pub open spec fn key_action(self, key: KeyEvent) -> ActionView {
        if self.input_mode == InputMode::Normal && key.is_plain('c') {
            match self.copy_request() {
                Some((content, display_name)) => ActionView::Copy { content, display_name },
                None => ActionView::Nothing,
            }
        } else {
            ActionView::Nothing
        }
    }

    /// The notice of a copy of `display_name`.
    pub open spec fn copy_notice(display_name: Seq<char>) -> Seq<char> {
        "\u{2713} "@ + display_name + " copied"@
    }

    /// The state after a copy of `display_name` succeeded at `now`.
    pub open spec fn copied(self, display_name: Seq<char>, now: u64) -> AppView<S> {
        AppView { copy_status: Some((Self::copy_notice(display_name), now)), ..self }
    }
}

/// What a reload is for: the service whose cache entry it fills, the view it
/// was requested for, and what has to be fetched.
#[derive(Debug)]
pub struct LoadTicket {
    pub service_id: ServiceId,
    pub view_state: ViewState,
    pub request: LoadRequest,
}

/// The mathematical value of a [`LoadTicket`].
pub struct LoadTicketView {
    pub service_id: Seq<char>,
    pub view_state: ViewStateView,
    pub request: LoadRequestView,
}

impl View for LoadTicket {
    type V = LoadTicketView;

    open spec fn view(&self) -> LoadTicketView {
        LoadTicketView {
            service_id: self.service_id@,
            view_state: self.view_state@,
            request: self.request@,
        }
    }
}

/// The value of an optional ticket.
pub open spec fn opt_ticket_view(ticket: Option<LoadTicket>) -> Option<LoadTicketView> {
    match ticket {
        Some(t) => Some(t@),
        None => None,
    }
}

/// The value of the outcome of a fetch.
pub open spec fn outcome_view(outcome: Result<Vec<ResourceItem>, RemoteFetchError>) -> Result<
    Seq<ResourceItemView>,
    Seq<char>,
> {
    match outcome {
        Ok(fetched) => Ok(items_view(fetched@)),
        Err(error) => Err(error.cause@),
    }
}

impl<S: AwsService> AppView<S> {
    /// The ticket for a reload of the active view; none without a view or
    /// without a service registered for it.
    pub open spec fn ticket(self) -> Option<LoadTicketView> {
        match self.current_view {
            Some(v) => if self.services.contains_key(v.service_id) {
                Some(
                    LoadTicketView {
                        service_id: v.service_id,
                        view_state: v,
                        request: self.services[v.service_id].request_for(v),
                    },
                )
            } else {
                None
            },
            None => None,
        }
    }

    /// The state with what was fetched for `ticket` in the cache entry of the
    /// ticket's service, whatever view is active. Nothing is kept for a
    /// service that is not registered.
    pub open spec fn stored(
        self,
        ticket: LoadTicketView,
        fetched: Seq<ResourceItemView>,
    ) -> AppView<S> {
        if self.services.contains_key(ticket.service_id) {
            AppView {
                cache: self.cache.insert(
                    ticket.service_id,
                    self.services[ticket.service_id].loaded(ticket.view_state, fetched),
                ),
                ..self
            }
        } else {
            self
        }
    }

    /// The state after the fetch for `ticket` ended with `outcome`.
    pub open spec fn load_completed(
        self,
        ticket: LoadTicketView,
        outcome: Result<Seq<ResourceItemView>, Seq<char>>,
    ) -> AppView<S> {
        match outcome {
            Ok(fetched) => self.stored(ticket, fetched).settled(),
            Err(cause) => self.failed(cause),
        }
    }

    /// Whether a reload is due at `now`: one was requested, or the last one
    /// is `AUTO_REFRESH_MILLIS` old.
    pub open spec fn reload_due(self, now: u64) -> bool {
        self.loading || elapsed(self.last_refresh, now) >= AUTO_REFRESH_MILLIS
    }

    /// The state in which a due reload starts: requested at `now` unless it
    /// was requested before.
    pub open spec fn reload_requested(self, now: u64) -> AppView<S> {
        if self.loading {
            self
        } else {
            self.refreshed(now)
        }
    }

    /// The ticket that the caller has to fetch for at `now`: that of the
    /// active view when a reload is due and there is something to fetch.
    pub open spec fn reload_ticket(self, now: u64) -> Option<LoadTicketView> {
        if self.reload_due(now) {
            match self.reload_requested(now).ticket() {
                Some(t) => if t.request is Nothing {
                    None
                } else {
                    Some(t)
                },
                None => None,
            }
        } else {
            None
        }
    }

    /// The state after a reload was begun at `now`. Where nothing has to be
    /// fetched the reload is complete at once, with the empty result.
    pub open spec fn reload_begun(self, now: u64) -> AppView<S> {
        if self.reload_due(now) {
            let requested = self.reload_requested(now);
            match requested.ticket() {
                Some(t) => if t.request is Nothing {
                    requested.load_completed(t, Ok(Seq::empty()))
                } else {
                    requested
                },
                None => requested.settled(),
            }
        } else {
            self
        }
    }
}

impl<S: AwsService> App<S> {
    /// A session for the default profile and region.
    pub fn new(now: u64) -> (out: Self)
        ensures
            out@ == AppView::<S>::initial("default"@, "us-east-1"@, now),
    {
        App::new_with_aws_config(String::from_str("default"), String::from_str("us-east-1"), now)
    }

    /// A session that shows `profile` and `region`.
    pub fn new_with_aws_config(profile: String, region: String, now: u64) -> (out: Self)
        ensures
            out@ == AppView::<S>::initial(profile@, region@, now),
    {
        let out = App {
            running: true,
            input_mode: InputMode::Normal,
            current_view: None,
            input_buffer: String::new(),
            view_stack: Vec::new(),
            last_refresh: now,
            loading: false,
            error_message: None,
            copy_status: None,
            aws_profile: profile,
            aws_region: region,
            service_manager: ServiceManager::new(),
        };
        assert(out@.view_stack =~= Seq::empty());
        out
    }

    /// Requests a reload of the active view: the loop performs it while
    /// `loading` is set.
    pub fn refresh_data(&mut self, now: u64)
        ensures
            final(self)@ == old(self)@.refreshed(now),
    {
        self.loading = true;
        self.last_refresh = now;
        self.clear_expired_copy_status(now);
    }

    /// Drops the copy notice once it is `COPY_STATUS_MILLIS` old.
    pub fn clear_expired_copy_status(&mut self, now: u64)
        ensures
            final(self)@ == old(self)@.without_expired_copy_status(now),
    {
        let expired = match &self.copy_status {
            Some((_, at)) => millis_since(*at, now) >= COPY_STATUS_MILLIS,
            None => false,
        };
        if expired {
            self.copy_status = None;
        }
    }

    /// The number of items that the filter of `view_state` leaves of the data
    /// cached for its service.
    pub fn get_filtered_data_count(&self, view_state: &ViewState) -> (out: usize)
        ensures
            out == self@.filtered_count(view_state@),
    {
        match self.service_manager.get_service(&view_state.service_id) {
            Some(service) => match self.service_manager.get_service_data(&view_state.service_id) {
                Some(data) => visible_items(service, data, view_state.search_filter.as_str()).len(),
                None => 0,
            },
            None => 0,
        }
    }

    /// The last row that can be highlighted in the active view; row 0 where
    /// nothing is shown.
    fn last_row(&self) -> (out: usize)
        ensures
            out == match self@.current_view {
                Some(v) => self@.max_index(v),
                None => 0,
            },
    {
        match &self.current_view {
            Some(view_state) => {
                let count = self.get_filtered_data_count(view_state);
                if count == 0 {
                    0
                } else {
                    count - 1
                }
            },
            None => 0,
        }
    }

    /// Records a failed load: the message replaces the content pane until a
    /// load succeeds.
    pub fn set_error(&mut self, error: String)
        ensures
            final(self)@ == old(self)@.failed(error@),
    {
        self.loading = false;
        self.error_message = Some(error);
    }

    /// Records a successful load: clears the error and clamps the highlighted
    /// row to the filtered view.
    pub fn finish_loading(&mut self)
        ensures
            final(self)@ == old(self)@.settled(),
            final(self)@.selection_in_range(),
    {
        self.loading = false;
        self.error_message = None;
        let max_index = self.last_row();
        match &mut self.current_view {
            Some(view_state) => {
                if view_state.selected_index > max_index {
                    view_state.selected_index = max_index;
                }
            },
            None => {},
        }
    }

    /// The forward transition of the `Enter` key.
    pub fn handle_enter_key(&mut self, now: u64)
        ensures
            final(self)@ == old(self)@.entered(now),
    {
        let target = match &self.current_view {
            Some(current_view) => match self.service_manager.get_service(
                &current_view.service_id,
            ) {
                Some(service) => match self.service_manager.get_service_data(
                    &current_view.service_id,
                ) {
                    Some(data) => service.handle_enter(current_view, data),
                    None => None,
                },
                None => None,
            },
            None => None,
        };
        match target {
            Some(new_view) => {
                let ghost before = self.view_stack@;
                let mut previous = Some(new_view);
                core::mem::swap(&mut self.current_view, &mut previous);
                match previous {
                    Some(previous_view) => {
                        self.view_stack.push(previous_view);
                        assert(stack_view(self.view_stack@) =~= stack_view(before).push(
                            previous_view@,
                        ));
                    },
                    None => {},
                }
                self.refresh_data(now);
            },
            None => {},
        }
    }

    /// The backward transition of the `Esc` key.
    pub fn handle_escape_key(&mut self, now: u64)
        ensures
            final(self)@ == old(self)@.escaped(now),
    {
        let ghost before = self.view_stack@;
        match self.view_stack.pop() {
            Some(previous_view) => {
                assert(stack_view(self.view_stack@) =~= stack_view(before).drop_last());
                self.current_view = Some(previous_view);
                self.refresh_data(now);
            },
            None => {},
        }
    }

    /// Moves the highlight one row up.
    pub fn move_up(&mut self)
        ensures
            final(self)@ == old(self)@.moved_up(),
    {
        match &mut self.current_view {
            Some(view_state) => {
                if view_state.selected_index > 0 {
                    view_state.selected_index -= 1;
                }
            },
            None => {},
        }
    }

    /// Moves the highlight one row down.
    pub fn move_down(&mut self)
        ensures
            final(self)@ == old(self)@.moved_down(),
    {
        let max_index = self.last_row();
        match &mut self.current_view {
            Some(view_state) => {
                if view_state.selected_index < max_index {
                    view_state.selected_index += 1;
                }
            },
            None => {},
        }
    }

    /// What a copy exports for the highlighted item: the text for the
    /// clipboard and the label for the notice.
    pub fn copy_selected(&self) -> (out: Option<(String, String)>)
        ensures
            opt_pair_view(out) == self@.copy_request(),
    {
        match &self.current_view {
            Some(view_state) => match self.service_manager.get_service(&view_state.service_id) {
                Some(service) => match self.service_manager.get_service_data(
                    &view_state.service_id,
                ) {
                    Some(data) => service.get_copy_content(view_state, data),
                    None => None,
                },
                None => None,
            },
            None => None,
        }
    }

    fn handle_normal_mode(&mut self, key: KeyEvent, now: u64)
        ensures
            final(self)@ == old(self)@.after_normal_key(key, now),
    {
        match (key.code, key.modifiers) {
            (KeyCode::Char('c'), KeyModifiers::Control) => {
                self.running = false;
            },
            (KeyCode::Char('r'), KeyModifiers::Control) => {
                self.refresh_data(now);
            },
            (KeyCode::Char('q'), KeyModifiers::Plain) => {
                self.running = false;
            },
            (KeyCode::Char(':'), KeyModifiers::Plain) => {
                self.input_mode = InputMode::Command;
                self.input_buffer.clear();
            },
            (KeyCode::Char('/'), KeyModifiers::Plain) => {
                self.input_mode = InputMode::Search;
                self.input_buffer.clear();
            },
            (KeyCode::Enter, KeyModifiers::Plain) => {
                self.handle_enter_key(now);
            },
            (KeyCode::Esc, KeyModifiers::Plain) => {
                self.handle_escape_key(now);
            },
            (KeyCode::Up, _) | (KeyCode::Char('k'), KeyModifiers::Plain) => {
                self.move_up();
            },
            (KeyCode::Down, _) | (KeyCode::Char('j'), KeyModifiers::Plain) => {
                self.move_down();
            },
            (KeyCode::Char('r'), KeyModifiers::Plain) => {
                self.refresh_data(now);
            },
            _ => {},
        }
    }

    fn set_filter(&mut self, filter: String)
        ensures
            final(self)@ == old(self)@.filtered_by(filter@),
    {
        match &mut self.current_view {
            Some(view_state) => {
                view_state.search_filter = filter;
                view_state.selected_index = 0;
            },
            None => {},
        }
    }

    fn execute_command(&mut self, now: u64)
        ensures
            final(self)@ == old(self)@.command_run(now),
    {
        if self.input_buffer == String::from_str("quit") || self.input_buffer == String::from_str(
            "q",
        ) {
            self.running = false;
        } else if self.input_buffer == String::from_str("refresh") || self.input_buffer
            == String::from_str("r") {
            self.refresh_data(now);
        } else {
            let target = match self.service_manager.get_service_by_command(
                self.input_buffer.as_str(),
            ) {
                Some((service_id, _)) => Some(service_id.clone()),
                None => None,
            };
            match target {
                Some(service_id) => {
                    self.current_view = Some(ViewState::new(service_id, ViewType::List));
                    self.refresh_data(now);
                },
                None => {},
            }
        }
    }

    fn handle_command_mode(&mut self, key: KeyEvent, now: u64)
        ensures
            final(self)@ == old(self)@.after_command_key(key, now),
    {
        match key.code {
            KeyCode::Esc => {
                self.input_mode = InputMode::Normal;
                self.input_buffer.clear();
            },
            KeyCode::Enter => {
                self.execute_command(now);
                self.input_mode = InputMode::Normal;
                self.input_buffer.clear();
            },
            KeyCode::Char(c) => {
                self.input_buffer.push(c);
            },
            KeyCode::Backspace => {
                self.input_buffer.pop();
            },
            _ => {},
        }
    }

    fn handle_search_mode(&mut self, key: KeyEvent)
        ensures
            final(self)@ == old(self)@.after_search_key(key),
    {
        match key.code {
            KeyCode::Esc => {
                self.input_mode = InputMode::Normal;
                self.input_buffer.clear();
                self.set_filter(String::new());
            },
            KeyCode::Enter => {
                self.input_mode = InputMode::Normal;
                let filter = self.input_buffer.clone();
                self.set_filter(filter);
                self.input_buffer.clear();
            },
            KeyCode::Char(c) => {
                self.input_buffer.push(c);
                let filter = self.input_buffer.clone();
                self.set_filter(filter);
            },
            KeyCode::Backspace => {
                self.input_buffer.pop();
                let filter = self.input_buffer.clone();
                self.set_filter(filter);
            },
            _ => {},
        }
    }

    /// Takes one key press: changes the state as the input mode says and
    /// tells the caller what is left for it to do.
    pub fn handle_key_event(&mut self, key: KeyEvent, now: u64) -> (out: Action)
        ensures
            final(self)@ == old(self)@.after_key(key, now),
            out@ == old(self)@.key_action(key),
    {
        match self.input_mode {
            InputMode::Normal => {
                let action = match (key.code, key.modifiers) {
                    (KeyCode::Char('c'), KeyModifiers::Plain) => match self.copy_selected() {
                        Some((content, display_name)) => Action::Copy { content, display_name },
                        None => Action::Nothing,
                    },
                    _ => Action::Nothing,
                };
                self.handle_normal_mode(key, now);
                action
            },
            InputMode::Command => {
                self.handle_command_mode(key, now);
                Action::Nothing
            },
            InputMode::Search => {
                self.handle_search_mode(key);
                Action::Nothing
            },
        }
    }

    /// Records that the copy the controller asked for succeeded: the notice
    /// is shown from `now` on.
    pub fn copy_succeeded(&mut self, display_name: &str, now: u64)
        ensures
            final(self)@ == old(self)@.copied(display_name@, now),
    {
        let mut notice = String::from_str("\u{2713} ");
        notice.append(display_name);
        notice.append(" copied");
        self.copy_status = Some((notice, now));
    }

    /// The ticket for a reload of the active view.
    pub fn load_request(&self) -> (out: Option<LoadTicket>)
        ensures
            opt_ticket_view(out) == self@.ticket(),
    {
        match &self.current_view {
            Some(view_state) => match self.service_manager.get_service(&view_state.service_id) {
                Some(service) => Some(
                    LoadTicket {
                        service_id: view_state.service_id.clone(),
                        view_state: view_state.clone(),
                        request: service.load_request(view_state),
                    },
                ),
                None => None,
            },
            None => None,
        }
    }

    /// Takes the outcome of the fetch for `ticket`. What was fetched goes
    /// into the cache entry of the ticket's service, whatever view is active
    /// by now; a failure becomes the session's error message. Either way the
    /// session is no longer loading.
    pub fn complete_load(
        &mut self,
        ticket: &LoadTicket,
        outcome: Result<Vec<ResourceItem>, RemoteFetchError>,
    )
        ensures
            final(self)@ == old(self)@.load_completed(ticket@, outcome_view(outcome)),
            outcome is Ok ==> final(self)@.selection_in_range(),
    {
        match outcome {
            Ok(fetched) => {
                let data = match self.service_manager.get_service(&ticket.service_id) {
                    Some(service) => Some(service.load_data(&ticket.view_state, fetched)),
                    None => None,
                };
                match data {
                    Some(data) => {
                        self.service_manager.store_service_data(&ticket.service_id, data);
                    },
                    None => {},
                }
                self.finish_loading();
            },
            Err(error) => {
                self.set_error(error.cause);
            },
        }
    }

    /// Whether a reload is due at `now`.
    pub fn reload_due(&self, now: u64) -> (out: bool)
        ensures
            out == self@.reload_due(now),
    {
        self.loading || millis_since(self.last_refresh, now) >= AUTO_REFRESH_MILLIS
    }

    /// Begins the reload that is due at `now`, if one is, and hands out the
    /// ticket to fetch for. The caller fetches and comes back with
    /// `complete_load`. Without a ticket there is nothing for the caller to
    /// do: no reload is due, or it needed no fetch and is complete.
    pub fn begin_reload(&mut self, now: u64) -> (out: Option<LoadTicket>)
        ensures
            final(self)@ == old(self)@.reload_begun(now),
            opt_ticket_view(out) == old(self)@.reload_ticket(now),
    {
        if !self.reload_due(now) {
            return None;
        }
        if !self.loading {
            self.refresh_data(now);
        }
        match self.load_request() {
            Some(ticket) => match &ticket.request {
                LoadRequest::Nothing => {
                    let fetched: Vec<ResourceItem> = Vec::new();
                    assert(items_view(fetched@) =~= Seq::empty());
                    self.complete_load(&ticket, Ok(fetched));
                    None
                },
                _ => Some(ticket),
            },
            None => {
                self.finish_loading();
                None
            },
        }
    }
}

impl<S: AwsService> Default for App<S> {
    /// A session for the default profile and region whose clock starts at 0.
    fn default() -> (out: Self)
        ensures
            out@ == AppView::<S>::initial("default"@, "us-east-1"@, 0),
    {
        App::new(0)
    }
}

} // verus!
