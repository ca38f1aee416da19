//! The vocabulary of the screen models: colours, styled text, notices and
//! tables.

use vstd::prelude::*;
use vstd::string::*;

verus! {

/// The colours the dashboard uses.
#[derive(Debug, Clone, Copy, PartialEq, Eq, Structural)]
pub enum Color {
    Black,
    Red,
    Green,
    Yellow,
    Blue,
    Cyan,
    Gray,
    White,
}

/// How a piece of text is drawn. `None` leaves the terminal's own colour.
#[derive(Debug, Clone, Copy)]
pub struct Style {
    pub fg: Option<Color>,
    pub bg: Option<Color>,
    pub bold: bool,
}

impl Style {
    /// The terminal's own colours, not bold.
    pub open spec fn plain() -> Style {
        Style { fg: None, bg: None, bold: false }
    }

    /// A foreground colour on the terminal's own background.
    pub open spec fn colored(fg: Color) -> Style {
        Style { fg: Some(fg), bg: None, bold: false }
    }

    /// A foreground colour on a background colour.
    pub open spec fn filled(fg: Color, bg: Color) -> Style {
        Style { fg: Some(fg), bg: Some(bg), bold: false }
    }

    /// A bold foreground colour.
    pub open spec fn strong(fg: Color) -> Style {
        Style { fg: Some(fg), bg: None, bold: true }
    }

    pub fn default() -> (out: Style)
        ensures
            out == Style::plain(),
    {
        Style { fg: None, bg: None, bold: false }
    }

    pub fn fg(color: Color) -> (out: Style)
        ensures
            out == Style::colored(color),
    {
        Style { fg: Some(color), bg: None, bold: false }
    }

    pub fn on(fg: Color, bg: Color) -> (out: Style)
        ensures
            out == Style::filled(fg, bg),
    {
        Style { fg: Some(fg), bg: Some(bg), bold: false }
    }

    pub fn bold(fg: Color) -> (out: Style)
        ensures
            out == Style::strong(fg),
    {
        Style { fg: Some(fg), bg: None, bold: true }
    }
}

/// A run of text in one style.
#[derive(Debug)]
pub struct Span {
    pub content: String,
    pub style: Style,
}

/// The mathematical value of a [`Span`].
pub struct SpanView {
    pub content: Seq<char>,
    pub style: Style,
}

impl View for Span {
    type V = SpanView;

    open spec fn view(&self) -> SpanView {
        SpanView { content: self.content@, style: self.style }
    }
}

impl Span {
    /// Text in the terminal's own colours.
    pub fn raw(content: String) -> (out: Span)
        ensures
            out@ == (SpanView { content: content@, style: Style::plain() }),
    {
        Span { content, style: Style::default() }
    }

    /// Text in the given style.
    pub fn styled(content: String, style: Style) -> (out: Span)
        ensures
            out@ == (SpanView { content: content@, style }),
    {
        Span { content, style }
    }
}

/// The values of a line of spans.
pub open spec fn spans_view(spans: Seq<Span>) -> Seq<SpanView> {
    spans.map_values(|s: Span| s@)
}

/// A bordered, titled block that shows one message.
#[derive(Debug)]
pub struct Notice {
    pub title: String,
    pub message: String,
    pub style: Style,
}

/// The mathematical value of a [`Notice`].
pub struct NoticeView {
    pub title: Seq<char>,
    pub message: Seq<char>,
    pub style: Style,
}

impl View for Notice {
    type V = NoticeView;

    open spec fn view(&self) -> NoticeView {
        NoticeView { title: self.title@, message: self.message@, style: self.style }
    }
}

/// One cell of a table row.
#[derive(Debug)]
pub enum TableCell {
    /// Text shown as it is.
    Text(String),
    /// A size in bytes, shown in megabytes with one decimal.
    Megabytes(i64),
}

/// The mathematical value of a [`TableCell`].
pub enum TableCellView {
    Text(Seq<char>),
    Megabytes(i64),
}

impl View for TableCell {
    type V = TableCellView;

    open spec fn view(&self) -> TableCellView {
        match self {
            TableCell::Text(t) => TableCellView::Text(t@),
            TableCell::Megabytes(n) => TableCellView::Megabytes(*n),
        }
    }
}

/// The values of a row's cells.
pub open spec fn cells_view(cells: Seq<TableCell>) -> Seq<TableCellView> {
    cells.map_values(|c: TableCell| c@)
}

/// One row of a table.
#[derive(Debug)]
pub struct TableRow {
    pub cells: Vec<TableCell>,
    pub style: Style,
}

/// The mathematical value of a [`TableRow`].
pub struct TableRowView {
    pub cells: Seq<TableCellView>,
    pub style: Style,
}

impl View for TableRow {
    type V = TableRowView;

    open spec fn view(&self) -> TableRowView {
        TableRowView { cells: cells_view(self.cells@), style: self.style }
    }
}

/// The values of a table's rows.
pub open spec fn rows_view(rows: Seq<TableRow>) -> Seq<TableRowView> {
    rows.map_values(|r: TableRow| r@)
}

/// The texts of a sequence of strings.
pub open spec fn strings_view(strings: Seq<String>) -> Seq<Seq<char>> {
    strings.map_values(|s: String| s@)
}

/// A bordered, titled table with one header line.
#[derive(Debug)]
pub struct Table {
    pub title: String,
    pub header: Vec<String>,
    pub header_style: Style,
    pub widths: Vec<u16>,
    pub rows: Vec<TableRow>,
    pub highlight_style: Style,
}

/// The mathematical value of a [`Table`].
pub struct TableView {
    pub title: Seq<char>,
    pub header: Seq<Seq<char>>,
    pub header_style: Style,
    pub widths: Seq<u16>,
    pub rows: Seq<TableRowView>,
    pub highlight_style: Style,
}

impl View for Table {
    type V = TableView;

    open spec fn view(&self) -> TableView {
        TableView {
            title: self.title@,
            header: strings_view(self.header@),
            header_style: self.header_style,
            widths: self.widths@,
            rows: rows_view(self.rows@),
            highlight_style: self.highlight_style,
        }
    }
}

/// What the content pane shows.
#[derive(Debug)]
pub enum Content {
    /// Nothing is drawn.
    Blank,
    Notice(Notice),
    Table(Table),
}

/// The mathematical value of a [`Content`].
pub enum ContentView {
    Blank,
    Notice(NoticeView),
    Table(TableView),
}

impl View for Content {
    type V = ContentView;

    open spec fn view(&self) -> ContentView {
        match self {
            Content::Blank => ContentView::Blank,
            Content::Notice(n) => ContentView::Notice(n@),
            Content::Table(t) => ContentView::Table(t@),
        }
    }
}

/// A rectangle of the terminal, in cells.
#[derive(Debug, Clone, Copy, PartialEq, Eq, Structural)]
pub struct Area {
    pub x: u16,
    pub y: u16,
    pub width: u16,
    pub height: u16,
}

/// How much room a part of the screen asks for along the split direction.
#[derive(Debug, Clone, Copy, PartialEq, Eq, Structural)]
pub enum Constraint {
    /// Exactly this many cells.
    Length(u16),
    /// At least this many cells, and whatever is left.
    Min(u16),
}

/// The text `text` in the style `style`.
pub open spec fn span(text: Seq<char>, style: Style) -> SpanView {
    SpanView { content: text, style }
}

/// A span of a given text and style.
pub fn make_span(text: &str, style: Style) -> (out: Span)
    ensures
        out@ == span(text@, style),
{
    Span { content: String::from_str(text), style }
}

} // verus!
