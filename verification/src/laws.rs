//! What holds of the navigation state machine as a whole: statements over
//! several transitions, proved from their definitions.

use vstd::prelude::*;

use crate::app::{AppView, InputMode, LoadTicketView};
use crate::keys::{KeyCode, KeyEvent, KeyModifiers};
use crate::services::traits::{
    visible, AwsService, LoadRequestView, ResourceItemView, ViewStateView, ViewTypeView,
};
use crate::ui::content::content_of;

verus! {

/// The items that the active view shows: what its filter leaves of the data
/// cached for its service; none without view, service or data.
pub open spec fn shown<S: AwsService>(app: AppView<S>) -> Seq<ResourceItemView> {
    match app.current_view {
        Some(v) => if app.services.contains_key(v.service_id) && app.cache.contains_key(
            v.service_id,
        ) {
            visible(&app.services[v.service_id], app.cache[v.service_id], v.search_filter)
        } else {
            Seq::empty()
        },
        None => Seq::empty(),
    }
}

/// Under the empty filter a service shows all of the data, in its order.
pub proof fn lemma_empty_filter_shows_all<S: AwsService>(
    service: &S,
    data: Seq<ResourceItemView>,
)
    ensures
        visible(service, data, Seq::empty()) == data,
{
}

/// Filtering by any text and then clearing the filter shows the cached data
/// again, whole and in its order: a filter never touches the cache.
pub proof fn lemma_filter_then_clear<S: AwsService>(app: AppView<S>, filter: Seq<char>)
    requires
        app.current_view matches Some(v) && app.services.contains_key(v.service_id)
            && app.cache.contains_key(v.service_id),
    ensures
        app.filtered_by(filter).cache == app.cache,
        app.filtered_by(filter).filtered_by(Seq::empty()).cache == app.cache,
        shown(app.filtered_by(filter).filtered_by(Seq::empty()))
            == app.cache[app.current_view->0.service_id],
{
}

/// Typing a filter in search mode and leaving the mode with `Esc` shows the
/// cached data again, whole and in its order.
pub proof fn lemma_search_then_cancel<S: AwsService>(app: AppView<S>, typed: char)
    requires
        app.input_mode == InputMode::Search,
        app.current_view matches Some(v) && app.services.contains_key(v.service_id)
            && app.cache.contains_key(v.service_id),
    ensures
        ({
            let edited = app.after_search_key(
                KeyEvent { code: KeyCode::Char(typed), modifiers: KeyModifiers::Plain },
            );
            let cancelled = edited.after_search_key(
                KeyEvent { code: KeyCode::Esc, modifiers: KeyModifiers::Plain },
            );
            &&& edited.current_view->0.search_filter == app.input_buffer.push(typed)
            &&& cancelled.input_mode == InputMode::Normal
            &&& cancelled.cache == app.cache
            &&& shown(cancelled) == app.cache[app.current_view->0.service_id]
        }),
{
}

/// After a load has succeeded the highlight points at an item of the
/// filtered view, or at row 0 of an empty one.
pub proof fn lemma_load_puts_selection_in_range<S: AwsService>(
    app: AppView<S>,
    ticket: LoadTicketView,
    fetched: Seq<ResourceItemView>,
)
    ensures
        app.settled().selection_in_range(),
        app.load_completed(ticket, Ok(fetched)).selection_in_range(),
{
}

/// After any change of the filter the highlight is on the first row.
pub proof fn lemma_filter_puts_selection_in_range<S: AwsService>(
    app: AppView<S>,
    filter: Seq<char>,
)
    ensures
        app.filtered_by(filter).selection_in_range(),
{
}

/// Moving the highlight up or down keeps it within the filtered view: it
/// stops at both ends and never wraps.
pub proof fn lemma_movement_keeps_selection_in_range<S: AwsService>(app: AppView<S>)
    requires
        app.selection_in_range(),
    ensures
        app.moved_up().selection_in_range(),
        app.moved_down().selection_in_range(),
{
}

/// A forward transition followed by a backward one leads back to the view it
/// started from: the same service, kind of view and context (and here also
/// the same highlight and filter), over the same stack.
pub proof fn lemma_enter_then_escape<S: AwsService>(app: AppView<S>, entered_at: u64, left_at: u64)
    requires
        app.enter_target() is Some,
    ensures
        ({
            let forth = app.entered(entered_at);
            let back = forth.escaped(left_at);
            &&& forth.current_view == app.enter_target()
            &&& forth.view_stack == app.view_stack.push(app.current_view->0)
            &&& back.current_view == app.current_view
            &&& back.view_stack == app.view_stack
            &&& back.loading
        }),
{
    let forth = app.entered(entered_at);
}

/// With the selection out of range `Enter` changes nothing.
pub proof fn lemma_enter_out_of_range<S: AwsService>(app: AppView<S>, now: u64)
    requires
        app.current_view matches Some(v) && v.selected_index >= app.filtered_count(v),
    ensures
        app.entered(now) == app,
{
    let v = app.current_view->0;
    if app.services.contains_key(v.service_id) && app.cache.contains_key(v.service_id) {
        app.services[v.service_id].law_enter_needs_selection(v, app.cache[v.service_id]);
    }
}

/// With the selection out of range there is nothing to copy.
pub proof fn lemma_copy_out_of_range<S: AwsService>(app: AppView<S>)
    requires
        app.current_view matches Some(v) && v.selected_index >= app.filtered_count(v),
    ensures
        app.copy_request() is None,
{
    let v = app.current_view->0;
    if app.services.contains_key(v.service_id) && app.cache.contains_key(v.service_id) {
        app.services[v.service_id].law_copy_needs_selection(v, app.cache[v.service_id]);
    }
}

/// The state after one whole reload at `now` against a remote source that
/// answers each request of each service with `remote`.
pub open spec fn reloaded<S: AwsService>(
    app: AppView<S>,
    now: u64,
    remote: spec_fn(Seq<char>, LoadRequestView) -> Seq<ResourceItemView>,
) -> AppView<S> {
    let requested = app.refreshed(now);
    match requested.ticket() {
        Some(t) => requested.load_completed(t, Ok(remote(t.service_id, t.request))),
        None => requested.settled(),
    }
}

/// Refreshing twice in a row against an unchanged remote source leaves the
/// same cached data as refreshing once.
pub proof fn lemma_refresh_twice<S: AwsService>(
    app: AppView<S>,
    first_at: u64,
    second_at: u64,
    remote: spec_fn(Seq<char>, LoadRequestView) -> Seq<ResourceItemView>,
)
    ensures
        reloaded(reloaded(app, first_at, remote), second_at, remote).cache == reloaded(
            app,
            first_at,
            remote,
        ).cache,
{
    let first = app.refreshed(first_at);
    let once = reloaded(app, first_at, remote);
    let second = once.refreshed(second_at);
    let twice = reloaded(once, second_at, remote);
    match first.ticket() {
        Some(t1) => {
            let t2 = second.ticket()->0;
            let service = app.services[t1.service_id];
            service.law_load_ignores_selection(
                t1.view_state,
                t2.view_state,
                remote(t1.service_id, t1.request),
            );
        },
        None => {},
    }
}

/// Two views show the same place when they agree on service, kind of view
/// and context.
pub open spec fn same_place(a: Option<ViewStateView>, b: Option<ViewStateView>) -> bool {
    match (a, b) {
        (Some(x), Some(y)) => x.service_id == y.service_id && x.view_type == y.view_type
            && x.context == y.context,
        (None, None) => true,
        _ => false,
    }
}

/// Only navigation changes the place that is shown: a key press leaves
/// service, kind of view and context alone unless it is a forward
/// transition, which sets the context that the service gives, a backward
/// transition, which restores a pushed view, or a command, which starts a
/// list view without context.
pub proof fn lemma_place_changes_by_navigation_only<S: AwsService>(
    app: AppView<S>,
    key: KeyEvent,
    now: u64,
)
    ensures
        ({
            let after = app.after_key(key, now);
            ||| same_place(app.current_view, after.current_view)
            ||| app.input_mode == InputMode::Normal && key.code == KeyCode::Enter
                && app.enter_target() is Some && after.current_view == app.enter_target()
            ||| app.input_mode == InputMode::Normal && key.code == KeyCode::Esc
                && app.view_stack.len() > 0 && after.current_view == Some(app.view_stack.last())
            ||| app.input_mode == InputMode::Command && key.code == KeyCode::Enter && (
            after.current_view matches Some(v) && v == ViewStateView::fresh(
                v.service_id,
                ViewTypeView::List,
            ))
        }),
{
}

/// No key press touches the cached data or the registry.
pub proof fn lemma_keys_keep_the_data<S: AwsService>(app: AppView<S>, key: KeyEvent, now: u64)
    ensures
        app.after_key(key, now).cache == app.cache,
        app.after_key(key, now).services == app.services,
        app.after_key(key, now).order == app.order,
{
}

/// Completing the same load twice is the same as completing it once.
pub proof fn lemma_complete_load_idempotent<S: AwsService>(
    app: AppView<S>,
    ticket: LoadTicketView,
    fetched: Seq<ResourceItemView>,
)
    ensures
        app.load_completed(ticket, Ok(fetched)).load_completed(ticket, Ok(fetched))
            == app.load_completed(ticket, Ok(fetched)),
{
    let once = app.load_completed(ticket, Ok(fetched));
    let twice = once.load_completed(ticket, Ok(fetched));
    assert(twice.cache =~= once.cache);
}

/// A load that completes after the user has moved on fills the cache entry
/// of the service it was fetched for and no other, and leaves the stack and
/// the active view alone but for clamping its highlight.
pub proof fn lemma_load_fills_its_own_entry<S: AwsService>(
    app: AppView<S>,
    ticket: LoadTicketView,
    fetched: Seq<ResourceItemView>,
)
    ensures
        ({
            let after = app.load_completed(ticket, Ok(fetched));
            &&& forall|id: Seq<char>|
                id != ticket.service_id ==> after.cache.contains_key(id)
                    == app.cache.contains_key(id)
            &&& forall|id: Seq<char>|
                id != ticket.service_id && app.cache.contains_key(id) ==> after.cache[id]
                    == app.cache[id]
            &&& app.services.contains_key(ticket.service_id) ==> after.cache.contains_key(
                ticket.service_id,
            ) && after.cache[ticket.service_id] == app.services[ticket.service_id].loaded(
                ticket.view_state,
                fetched,
            )
            &&& after.view_stack == app.view_stack
            &&& after.services == app.services
            &&& !after.loading
            &&& match (app.current_view, after.current_view) {
                (Some(before), Some(now)) => now.service_id == before.service_id && now.view_type
                    == before.view_type && now.context == before.context && now.search_filter
                    == before.search_filter && now.selected_index <= before.selected_index,
                (None, None) => true,
                _ => false,
            }
        }),
{
}

/// A load for another service than the active one leaves a highlight that
/// was in range where it is.
pub proof fn lemma_stale_load_keeps_selection<S: AwsService>(
    app: AppView<S>,
    ticket: LoadTicketView,
    fetched: Seq<ResourceItemView>,
)
    requires
        app.current_view matches Some(v) && v.service_id != ticket.service_id,
        app.selection_in_range(),
    ensures
        app.load_completed(ticket, Ok(fetched)).current_view == app.current_view,
{
}

/// A failed load changes neither the cache nor the navigation state.
pub proof fn lemma_failed_load_keeps_data<S: AwsService>(
    app: AppView<S>,
    ticket: LoadTicketView,
    cause: Seq<char>,
)
    ensures
        ({
            let after = app.load_completed(ticket, Err(cause));
            &&& after.cache == app.cache
            &&& after.current_view == app.current_view
            &&& after.view_stack == app.view_stack
            &&& after.error_message == Some(cause)
            &&& !after.loading
        }),
{
}

/// With an empty result set a load leaves the highlight on row 0, and the
/// content pane shows the same notice whatever the filter, and not the one
/// that it shows where a filter has left nothing of a result set that holds
/// something.
pub proof fn lemma_empty_result_has_its_own_notice<S: AwsService>(
    app: AppView<S>,
    filter: Seq<char>,
    data: Seq<ResourceItemView>,
)
    requires
        app.current_view matches Some(v) && app.services.contains_key(v.service_id)
            && app.cache.contains_key(v.service_id) && app.cache[v.service_id].len() == 0
            && !(v.view_type is Custom),
        app.error_message is None,
        !app.loading,
    ensures
        app.settled().current_view->0.selected_index == 0,
        content_of(app) is Notice,
        content_of(app.filtered_by(filter)) is Notice,
        content_of(app.filtered_by(filter))->Notice_0.message == content_of(
            app,
        )->Notice_0.message,
        ({
            let id = app.current_view->0.service_id;
            let filled = AppView { cache: app.cache.insert(id, data), ..app }.filtered_by(filter);
            data.len() > 0 && shown(filled).len() == 0 ==> content_of(filled) is Notice
                && content_of(filled)->Notice_0.message != content_of(app)->Notice_0.message
        }),
{
    let v = app.current_view->0;
    let other = app.filtered_by(filter).current_view->0;
    app.services[v.service_id].law_render_states(false, v, Seq::empty(), other, data);
    assert(app.cache[v.service_id] =~= Seq::empty());
}

} // verus!
