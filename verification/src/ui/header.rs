//! The header: the program on the left, the account and the clock on the
//! right.

use vstd::prelude::*;
use vstd::string::*;

use crate::app::{App, AppView};
use crate::services::traits::AwsService;
use crate::text::joined;
use crate::ui::widgets::{
    make_span, span, spans_view, Color, Constraint, Span, SpanView, Style,
};

verus! {

/// What the header shows.
#[derive(Debug)]
pub struct Header {
    /// The program's name and version, on the left.
    pub app_info: Vec<Span>,
    /// Profile, region and clock, on the right.
    pub aws_info: Vec<Span>,
}

/// The mathematical value of a [`Header`].
pub struct HeaderView {
    pub app_info: Seq<SpanView>,
    pub aws_info: Seq<SpanView>,
}

impl View for Header {
    type V = HeaderView;

    open spec fn view(&self) -> HeaderView {
        HeaderView { app_info: spans_view(self.app_info@), aws_info: spans_view(self.aws_info@) }
    }
}

/// The widths of the header's three parts: the program, a spacer, the
/// account.
pub open spec fn header_columns() -> Seq<Constraint> {
    seq![Constraint::Length(20), Constraint::Min(0), Constraint::Length(40)]
}

/// The widths of the header's three parts.
pub fn make_header_columns() -> (out: Vec<Constraint>)
    ensures
        out@ == header_columns(),
{
    let out = vec![Constraint::Length(20), Constraint::Min(0), Constraint::Length(40)];
    out
}

/// What the header shows for `app`, with the clock text and the version that
/// the caller hands in.
pub open spec fn header_of<S: AwsService>(
    app: AppView<S>,
    clock: Seq<char>,
    version: Seq<char>,
) -> HeaderView {
    HeaderView {
        app_info: seq![
            span("ATS"@, Style::colored(Color::Yellow)),
            span(" v"@ + version, Style::plain()),
        ],
        aws_info: seq![
            span("Profile: "@, Style::colored(Color::Gray)),
            span(app.aws_profile, Style::colored(Color::Green)),
            span(" | "@, Style::plain()),
            span("Region: "@, Style::colored(Color::Gray)),
            span(app.aws_region, Style::colored(Color::Green)),
            span(" | "@, Style::plain()),
            span(clock, Style::colored(Color::Yellow)),
        ],
    }
}

/// Describes the header for `app`.
pub fn render_header<S: AwsService>(app: &App<S>, clock: &str, version: &str) -> (out: Header)
    ensures
        out@ == header_of(app@, clock@, version@),
{
    let mut app_info: Vec<Span> = Vec::new();
    app_info.push(make_span("ATS", Style::fg(Color::Yellow)));
    app_info.push(Span::raw(joined(" v", version)));
    let mut aws_info: Vec<Span> = Vec::new();
    aws_info.push(make_span("Profile: ", Style::fg(Color::Gray)));
    aws_info.push(make_span(app.aws_profile.as_str(), Style::fg(Color::Green)));
    aws_info.push(make_span(" | ", Style::default()));
    aws_info.push(make_span("Region: ", Style::fg(Color::Gray)));
    aws_info.push(make_span(app.aws_region.as_str(), Style::fg(Color::Green)));
    aws_info.push(make_span(" | ", Style::default()));
    aws_info.push(make_span(clock, Style::fg(Color::Yellow)));
    let out = Header { app_info, aws_info };
    assert(out@.app_info =~= header_of(app@, clock@, version@).app_info);
    assert(out@.aws_info =~= header_of(app@, clock@, version@).aws_info);
    out
}

} // verus!
