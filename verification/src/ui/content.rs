//! The content pane: the session's error, the listing of the active view, or
//! a notice where there is nothing to list.

use vstd::prelude::*;
use vstd::string::*;

use crate::app::{App, AppView};
use crate::services::traits::AwsService;
use crate::text::joined;
use crate::ui::widgets::{Color, Content, ContentView, Notice, NoticeView, Style};

verus! {

/// What the content pane shows for `app`: the error while there is one, else
/// what the service of the active view makes of its cached data, else a
/// notice that says what is missing.
pub open spec fn content_of<S: AwsService>(app: AppView<S>) -> ContentView {
    match app.error_message {
        Some(message) => ContentView::Notice(
            NoticeView {
                title: match app.current_view {
                    Some(v) => v.service_id + " - Error"@,
                    None => "Error"@,
                },
                message,
                style: Style::colored(Color::Red),
            },
        ),
        None => match app.current_view {
            Some(v) => if app.services.contains_key(v.service_id) {
                if app.cache.contains_key(v.service_id) {
                    app.services[v.service_id].rendered(app.loading, v, app.cache[v.service_id])
                } else {
                    ContentView::Notice(
                        NoticeView {
                            title: v.service_id,
                            message: if app.loading {
                                "Loading..."@
                            } else {
                                "No data available"@
                            },
                            style: Style::colored(Color::Yellow),
                        },
                    )
                }
            } else {
                no_service_notice()
            },
            None => no_service_notice(),
        },
    }
}

/// The notice of a session without an active service.
pub open spec fn no_service_notice() -> ContentView {
    ContentView::Notice(
        NoticeView {
            title: "ATS - AWS Terminal Service"@,
            message: "No service selected. Use :ecr to start."@,
            style: Style::colored(Color::Gray),
        },
    )
}

fn make_no_service_notice() -> (out: Content)
    ensures
        out@ == no_service_notice(),
{
    Content::Notice(
        Notice {
            title: String::from_str("ATS - AWS Terminal Service"),
            message: String::from_str("No service selected. Use :ecr to start."),
            style: Style::fg(Color::Gray),
        },
    )
}

/// Describes the content pane for `app`.
pub fn render_content<S: AwsService>(app: &App<S>) -> (out: Content)
    ensures
        out@ == content_of(app@),
{
    match &app.error_message {
        Some(message) => {
            let title = match &app.current_view {
                Some(view_state) => joined(view_state.service_id.as_str(), " - Error"),
                None => String::from_str("Error"),
            };
            return Content::Notice(
                Notice { title, message: message.clone(), style: Style::fg(Color::Red) },
            );
        },
        None => {},
    }
    match &app.current_view {
        Some(view_state) => match app.service_manager.get_service(&view_state.service_id) {
            Some(service) => match app.service_manager.get_service_data(&view_state.service_id) {
                Some(data) => service.render(app.loading, view_state, data),
                None => Content::Notice(
                    Notice {
                        title: view_state.service_id.to_string(),
                        message: String::from_str(
                            if app.loading {
                                "Loading..."
                            } else {
                                "No data available"
                            },
                        ),
                        style: Style::fg(Color::Yellow),
                    },
                ),
            },
            None => make_no_service_notice(),
        },
        None => make_no_service_notice(),
    }
}

} // verus!
