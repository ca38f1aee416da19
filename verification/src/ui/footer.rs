//! The footer: the status on the left, the hotkeys of the input mode on the
//! right.

use vstd::prelude::*;
use vstd::string::*;

use crate::app::{millis_since, App, AppView, InputMode, COPY_STATUS_MILLIS};
use crate::services::traits::AwsService;
use crate::ui::widgets::{
    make_span, span, spans_view, Color, Constraint, Span, SpanView, Style,
};

verus! {

/// What the footer shows.
#[derive(Debug)]
pub struct Footer {
    /// The status line, on the left.
    pub status: Vec<Span>,
    /// The hotkeys, on the right.
    pub hotkeys: Vec<Span>,
}

/// The mathematical value of a [`Footer`].
pub struct FooterView {
    pub status: Seq<SpanView>,
    pub hotkeys: Seq<SpanView>,
}

impl View for Footer {
    type V = FooterView;

    open spec fn view(&self) -> FooterView {
        FooterView { status: spans_view(self.status@), hotkeys: spans_view(self.hotkeys@) }
    }
}

/// The widths of the footer's two parts: the status takes what the hotkeys
/// leave.
pub open spec fn footer_columns() -> Seq<Constraint> {
    seq![Constraint::Min(0), Constraint::Length(50)]
}

/// The widths of the footer's two parts.
pub fn make_footer_columns() -> (out: Vec<Constraint>)
    ensures
        out@ == footer_columns(),
{
    let out = vec![Constraint::Min(0), Constraint::Length(50)];
    out
}

/// The status line at `now`: whether the session is loading, and the copy
/// notice for as long as the state keeps it.
pub open spec fn status_line<S: AwsService>(app: AppView<S>, now: u64) -> Seq<SpanView> {
    let main = seq![
        span(if app.loading { "Loading..."@ } else { "Ready"@ }, Style::colored(Color::Green)),
    ];
    match app.live_copy_status(now) {
        Some((notice, _)) => main + seq![
            span(" | "@, Style::plain()),
            span(notice, Style::colored(Color::Green)),
        ],
        None => main,
    }
}

/// The hotkeys of an input mode: each key in yellow before what it does.
pub open spec fn hotkey_line(mode: InputMode) -> Seq<SpanView> {
    let key = Style::colored(Color::Yellow);
    let plain = Style::plain();
    match mode {
        InputMode::Normal => seq![
            span("q "@, key),
            span("Quit | "@, plain),
            span(": "@, key),
            span("Command | "@, plain),
            span("/ "@, key),
            span("Search | "@, plain),
            span("c "@, key),
            span("Copy"@, plain),
        ],
        InputMode::Command => seq![
            span("Enter "@, key),
            span("Execute | "@, plain),
            span("Esc "@, key),
            span("Cancel"@, plain),
        ],
        InputMode::Search => seq![
            span("Enter "@, key),
            span("Apply | "@, plain),
            span("Esc "@, key),
            span("Cancel"@, plain),
        ],
    }
}

/// What the footer shows for `app` at `now`.
pub open spec fn footer_of<S: AwsService>(app: AppView<S>, now: u64) -> FooterView {
    FooterView { status: status_line(app, now), hotkeys: hotkey_line(app.input_mode) }
}

fn make_hotkeys(mode: InputMode) -> (out: Vec<Span>)
    ensures
        spans_view(out@) == hotkey_line(mode),
{
    let key = Style::fg(Color::Yellow);
    let plain = Style::default();
    let mut out: Vec<Span> = Vec::new();
    match mode {
        InputMode::Normal => {
            out.push(make_span("q ", key));
            out.push(make_span("Quit | ", plain));
            out.push(make_span(": ", key));
            out.push(make_span("Command | ", plain));
            out.push(make_span("/ ", key));
            out.push(make_span("Search | ", plain));
            out.push(make_span("c ", key));
            out.push(make_span("Copy", plain));
        },
        InputMode::Command => {
            out.push(make_span("Enter ", key));
            out.push(make_span("Execute | ", plain));
            out.push(make_span("Esc ", key));
            out.push(make_span("Cancel", plain));
        },
        InputMode::Search => {
            out.push(make_span("Enter ", key));
            out.push(make_span("Apply | ", plain));
            out.push(make_span("Esc ", key));
            out.push(make_span("Cancel", plain));
        },
    }
    out
}

/// Describes the footer for `app` at `now`.
pub fn render_footer<S: AwsService>(app: &App<S>, now: u64) -> (out: Footer)
    ensures
        out@ == footer_of(app@, now),
{
    let mut status: Vec<Span> = Vec::new();
    status.push(
        make_span(if app.loading { "Loading..." } else { "Ready" }, Style::fg(Color::Green)),
    );
    match &app.copy_status {
        Some((notice, at)) => {
            if millis_since(*at, now) < COPY_STATUS_MILLIS {
                status.push(make_span(" | ", Style::default()));
                status.push(make_span(notice.as_str(), Style::fg(Color::Green)));
            }
        },
        None => {},
    }
    assert(spans_view(status@) =~= status_line(app@, now));
    Footer { status, hotkeys: make_hotkeys(app.input_mode) }
}

} // verus!
