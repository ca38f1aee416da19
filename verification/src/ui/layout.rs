//! The whole screen: header, input bar, content pane and footer, from top to
//! bottom.

use vstd::prelude::*;

use crate::app::{App, AppView};
use crate::services::traits::AwsService;
use crate::ui::content::{content_of, render_content};
use crate::ui::footer::{footer_of, render_footer, Footer, FooterView};
use crate::ui::header::{header_of, render_header, Header, HeaderView};
use crate::ui::input::{input_of, render_input, InputBar, InputBarView};
use crate::ui::widgets::{Area, Constraint, Content, ContentView};

verus! {

/// What the screen shows, part by part.
#[derive(Debug)]
pub struct Screen {
    pub header: Header,
    pub input: InputBar,
    pub content: Content,
    pub footer: Footer,
}

/// The mathematical value of a [`Screen`].
pub struct ScreenView {
    pub header: HeaderView,
    pub input: InputBarView,
    pub content: ContentView,
    pub footer: FooterView,
}

impl View for Screen {
    type V = ScreenView;

    open spec fn view(&self) -> ScreenView {
        ScreenView {
            header: self.header@,
            input: self.input@,
            content: self.content@,
            footer: self.footer@,
        }
    }
}

/// The heights of the four parts: one line of header, three of input bar,
/// one of footer, and the content pane takes what is left.
pub open spec fn layout_rows() -> Seq<Constraint> {
    seq![Constraint::Length(1), Constraint::Length(3), Constraint::Min(0), Constraint::Length(1)]
}

/// The heights of the four parts of the screen, from top to bottom.
pub fn make_layout_rows() -> (out: Vec<Constraint>)
    ensures
        out@ == layout_rows(),
{
    let out = vec![
        Constraint::Length(1),
        Constraint::Length(3),
        Constraint::Min(0),
        Constraint::Length(1),
    ];
    out
}

/// What the screen shows for `app` at `now`, with the input bar in
/// `input_area`.
pub open spec fn screen_of<S: AwsService>(
    app: AppView<S>,
    input_area: Area,
    clock: Seq<char>,
    version: Seq<char>,
    now: u64,
) -> ScreenView {
    ScreenView {
        header: header_of(app, clock, version),
        input: input_of(app, input_area),
        content: content_of(app),
        footer: footer_of(app, now),
    }
}

/// Describes the whole screen for `app`. The state does not change.
pub fn render_layout<S: AwsService>(
    app: &App<S>,
    input_area: Area,
    clock: &str,
    version: &str,
    now: u64,
) -> (out: Screen)
    ensures
        out@ == screen_of(app@, input_area, clock@, version@, now),
{
    Screen {
        header: render_header(app, clock, version),
        input: render_input(app, input_area),
        content: render_content(app),
        footer: render_footer(app, now),
    }
}

} // verus!
