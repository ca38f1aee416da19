//! The input bar: where the user is in normal mode, the text being typed in
//! the command and search modes.

use vstd::prelude::*;
use vstd::string::*;
use vstd::utf8::encode_utf8;

use crate::app::{App, AppView, InputMode};
use crate::services::traits::{AwsService, ViewState, ViewStateView, ViewType, ViewTypeView};
use crate::text::joined;
use crate::ui::widgets::{make_span, span, spans_view, Area, Color, Span, SpanView, Style};

verus! {

/// What the input bar shows.
#[derive(Debug)]
pub struct InputBar {
    pub spans: Vec<Span>,
    /// Where the cursor stands, as column and row; `None` hides it.
    pub cursor: Option<(u16, u16)>,
}

/// The mathematical value of an [`InputBar`].
pub struct InputBarView {
    pub spans: Seq<SpanView>,
    pub cursor: Option<(u16, u16)>,
}

impl View for InputBar {
    type V = InputBarView;

    open spec fn view(&self) -> InputBarView {
        InputBarView { spans: spans_view(self.spans@), cursor: self.cursor }
    }
}

/// The prompt of an input mode.
pub open spec fn prompt(mode: InputMode) -> Seq<char> {
    match mode {
        InputMode::Normal => "> "@,
        InputMode::Command => ":"@,
        InputMode::Search => "/"@,
    }
}

/// The mark at the right end of the bar that names the input mode; empty in
/// normal mode.
pub open spec fn mode_indicator(mode: InputMode) -> Seq<char> {
    match mode {
        InputMode::Normal => ""@,
        InputMode::Command => "[:]"@,
        InputMode::Search => "[/]"@,
    }
}

/// The colour of the bar's text in an input mode.
pub open spec fn bar_style(mode: InputMode) -> Style {
    match mode {
        InputMode::Normal => Style::colored(Color::White),
        InputMode::Command => Style::colored(Color::Cyan),
        InputMode::Search => Style::colored(Color::Yellow),
    }
}

/// Where the user is: the service, and below it the parent of a detail view
/// or the tag of a custom one.
pub open spec fn location(view: Option<ViewStateView>) -> Seq<char> {
    match view {
        Some(v) => match v.view_type {
            ViewTypeView::List => v.service_id,
            ViewTypeView::Detail => v.service_id + "/"@ + match v.context {
                Some(context) => context,
                None => "detail"@,
            },
            ViewTypeView::Custom(tag) => v.service_id + "/"@ + tag,
        },
        None => "no service"@,
    }
}

/// The text of the bar: the location in normal mode, else the input buffer.
pub open spec fn bar_text<S: AwsService>(app: AppView<S>) -> Seq<char> {
    match app.input_mode {
        InputMode::Normal => location(app.current_view),
        _ => app.input_buffer,
    }
}

/// The length of a text in bytes of UTF-8.
pub open spec fn byte_len(text: Seq<char>) -> nat {
    encode_utf8(text).len()
}

/// `n` spaces.
pub open spec fn spaces(n: nat) -> Seq<char> {
    Seq::new(n, |i: int| ' ')
}

/// The room between the text and the mode indicator in a bar `width` cells
/// wide: what prompt, text, indicator and the two borders leave, by their
/// lengths in bytes.
pub open spec fn padding<S: AwsService>(app: AppView<S>, width: u16) -> nat {
    let used = byte_len(prompt(app.input_mode)) + byte_len(bar_text(app)) + byte_len(
        mode_indicator(app.input_mode),
    ) + 2;
    if width >= used {
        (width - used) as nat
    } else {
        0
    }
}

/// A position on the screen, held to the largest one a terminal has.
pub open spec fn clipped(position: int) -> u16 {
    if position > u16::MAX {
        u16::MAX
    } else {
        position as u16
    }
}

/// What the input bar shows for `app` in `area`: prompt and text, in the
/// input modes also the mode indicator at the right end and the cursor
/// behind the text.
pub open spec fn input_of<S: AwsService>(app: AppView<S>, area: Area) -> InputBarView {
    let style = bar_style(app.input_mode);
    let text = seq![span(prompt(app.input_mode), style), span(bar_text(app), style)];
    match app.input_mode {
        InputMode::Normal => InputBarView { spans: text, cursor: None },
        _ => InputBarView {
            spans: text + seq![
                span(spaces(padding(app, area.width)), Style::plain()),
                span(mode_indicator(app.input_mode), Style::colored(Color::Gray)),
            ],
            cursor: Some(
                (
                    clipped(
                        area.x + byte_len(prompt(app.input_mode)) + byte_len(bar_text(app)) + 1,
                    ),
                    clipped(area.y + 1),
                ),
            ),
        },
    }
}

fn make_location(view: &Option<ViewState>) -> (out: String)
    ensures
        out@ == location(crate::services::traits::opt_state_view(*view)),
{
    match view {
        Some(view_state) => {
            let id = view_state.service_id.as_str();
            match &view_state.view_type {
                ViewType::List => String::from_str(id),
                ViewType::Detail => {
                    let mut out = joined(id, "/");
                    match &view_state.context {
                        Some(context) => out.append(context.as_str()),
                        None => out.append("detail"),
                    }
                    out
                },
                ViewType::Custom(tag) => {
                    let mut out = joined(id, "/");
                    out.append(tag.as_str());
                    out
                },
            }
        },
        None => String::from_str("no service"),
    }
}

fn make_spaces(n: usize) -> (out: String)
    ensures
        out@ == spaces(n as nat),
{
    let mut out = String::new();
    let mut i: usize = 0;
    while i < n
        invariant
            i <= n,
            out@ == spaces(i as nat),
        decreases n - i,
    {
        out.push(' ');
        i += 1;
    }
    out
}

fn clip(position: u128) -> (out: u16)
    ensures
        out == clipped(position as int),
{
    if position > 65535 {
        65535
    } else {
        position as u16
    }
}

/// Describes the input bar for `app` in `area`.
pub fn render_input<S: AwsService>(app: &App<S>, area: Area) -> (out: InputBar)
    ensures
        out@ == input_of(app@, area),
{
    let (prompt_text, text, indicator) = match app.input_mode {
        InputMode::Normal => ("> ", make_location(&app.current_view), ""),
        InputMode::Command => (":", app.input_buffer.clone(), "[:]"),
        InputMode::Search => ("/", app.input_buffer.clone(), "[/]"),
    };
    let style = match app.input_mode {
        InputMode::Normal => Style::fg(Color::White),
        InputMode::Command => Style::fg(Color::Cyan),
        InputMode::Search => Style::fg(Color::Yellow),
    };
    let prompt_len = prompt_text.as_bytes().len() as u128;
    let text_len = text.as_str().as_bytes().len() as u128;
    let indicator_len = indicator.as_bytes().len() as u128;
    let mut spans: Vec<Span> = Vec::new();
    spans.push(make_span(prompt_text, style));
    spans.push(Span::styled(text, style));
    match app.input_mode {
        InputMode::Normal => {
            let out = InputBar { spans, cursor: None };
            assert(out@.spans =~= input_of(app@, area).spans);
            out
        },
        _ => {
            let used = prompt_len + text_len + indicator_len + 2;
            let width = area.width as u128;
            let pad: usize = if width >= used {
                (width - used) as usize
            } else {
                0
            };
            spans.push(Span::styled(make_spaces(pad), Style::default()));
            spans.push(make_span(indicator, Style::fg(Color::Gray)));
            let cursor = Some(
                (clip(area.x as u128 + prompt_len + text_len + 1), clip(area.y as u128 + 1)),
            );
            let out = InputBar { spans, cursor };
            assert(out@.spans =~= input_of(app@, area).spans);
            out
        },
    }
}

} // verus!
