//! The container registry service: repositories and the images inside them.

use vstd::prelude::*;
use vstd::string::*;
use vstd::utf8::{decode_utf8, encode_utf8, is_char_boundary};

use crate::services::traits::{
    items_view, narrowed, refs_view, AwsService, LoadRequest, LoadRequestView, ResourceData,
    ResourceItem, ResourceItemView, ServiceMetadata, ServiceMetadataView, ViewState,
    ViewStateView, ViewType, ViewTypeView,
};
use crate::text::{
    after_sep, before_sep, clone_opt, contains, decimal_text, first_where, is_substring, joined3,
    lemma_first_where, lowercase, opt_view, push_decimal, split_once, to_lowercase,
};
use crate::ui::widgets::{
    rows_view, strings_view, Color, Content, ContentView, Notice, NoticeView, Style, Table,
    TableCell, TableCellView, TableRow, TableRowView, TableView,
};

verus! {

/// A point in time: whole seconds since the Unix epoch and the nanoseconds
/// past that second.
#[derive(Debug, Clone, Copy, PartialEq, Eq, Structural)]
pub struct Timestamp {
    pub secs: i64,
    pub nanos: u32,
}

impl Timestamp {
    /// Strict chronological order.
    pub open spec fn is_after(self, other: Timestamp) -> bool {
        self.secs > other.secs || (self.secs == other.secs && self.nanos > other.nanos)
    }

    /// True when `self` lies strictly later than `other`.
    pub fn after(&self, other: &Timestamp) -> (out: bool)
        ensures
            out == self.is_after(*other),
    {
        self.secs > other.secs || (self.secs == other.secs && self.nanos > other.nanos)
    }
}

/// One repository of the registry.
#[derive(Debug)]
pub struct ECRRepository {
    pub repository_name: String,
    pub repository_uri: String,
    pub registry_id: String,
    pub created_at: Option<Timestamp>,
    pub image_tag_mutability: String,
    pub image_scanning_configuration: bool,
    pub encryption_configuration: String,
}

/// The mathematical value of an [`ECRRepository`].
pub struct ECRRepositoryView {
    pub repository_name: Seq<char>,
    pub repository_uri: Seq<char>,
    pub registry_id: Seq<char>,
    pub created_at: Option<Timestamp>,
    pub image_tag_mutability: Seq<char>,
    pub image_scanning_configuration: bool,
    pub encryption_configuration: Seq<char>,
}

impl View for ECRRepository {
    type V = ECRRepositoryView;

    open spec fn view(&self) -> ECRRepositoryView {
        ECRRepositoryView {
            repository_name: self.repository_name@,
            repository_uri: self.repository_uri@,
            registry_id: self.registry_id@,
            created_at: self.created_at,
            image_tag_mutability: self.image_tag_mutability@,
            image_scanning_configuration: self.image_scanning_configuration,
            encryption_configuration: self.encryption_configuration@,
        }
    }
}

impl Clone for ECRRepository {
    fn clone(&self) -> (out: Self)
        ensures
            out@ == self@,
    {
        ECRRepository {
            repository_name: self.repository_name.clone(),
            repository_uri: self.repository_uri.clone(),
            registry_id: self.registry_id.clone(),
            created_at: self.created_at,
            image_tag_mutability: self.image_tag_mutability.clone(),
            image_scanning_configuration: self.image_scanning_configuration,
            encryption_configuration: self.encryption_configuration.clone(),
        }
    }
}

impl ECRRepository {
    /// The repository's unique id: its name.
    pub fn id(&self) -> (out: String)
        ensures
            out@ == self@.repository_name,
    {
        self.repository_name.clone()
    }
}

/// One image of a repository.
#[derive(Debug)]
pub struct ECRImage {
    pub image_tag: Option<String>,
    pub image_digest: String,
    pub image_pushed_at: Option<Timestamp>,
    pub image_size_in_bytes: Option<i64>,
    pub vulnerability_scan_summary: Option<String>,
}

/// The mathematical value of an [`ECRImage`].
pub struct ECRImageView {
    pub image_tag: Option<Seq<char>>,
    pub image_digest: Seq<char>,
    pub image_pushed_at: Option<Timestamp>,
    pub image_size_in_bytes: Option<i64>,
    pub vulnerability_scan_summary: Option<Seq<char>>,
}

impl View for ECRImage {
    type V = ECRImageView;

    open spec fn view(&self) -> ECRImageView {
        ECRImageView {
            image_tag: opt_view(self.image_tag),
            image_digest: self.image_digest@,
            image_pushed_at: self.image_pushed_at,
            image_size_in_bytes: self.image_size_in_bytes,
            vulnerability_scan_summary: opt_view(self.vulnerability_scan_summary),
        }
    }
}

impl Clone for ECRImage {
    fn clone(&self) -> (out: Self)
        ensures
            out@ == self@,
    {
        ECRImage {
            image_tag: clone_opt(&self.image_tag),
            image_digest: self.image_digest.clone(),
            image_pushed_at: self.image_pushed_at,
            image_size_in_bytes: self.image_size_in_bytes,
            vulnerability_scan_summary: clone_opt(&self.vulnerability_scan_summary),
        }
    }
}

impl ECRImage {
    /// The image's unique id: its digest.
    pub fn id(&self) -> (out: String)
        ensures
            out@ == self@.image_digest,
    {
        self.image_digest.clone()
    }
}

/// The text of an optional string slice, or `default` in its place.
pub open spec fn text_or(text: Option<&str>, default: Seq<char>) -> Seq<char> {
    match text {
        Some(t) => t@,
        None => default,
    }
}

fn string_or(text: Option<&str>, default: &str) -> (out: String)
    ensures
        out@ == text_or(text, default@),
{
    match text {
        Some(t) => String::from_str(t),
        None => String::from_str(default),
    }
}

impl ECRRepository {
    /// The repository that the registry describes by these fields. A missing
    /// text is empty; without a word on them tags are `MUTABLE`, images are
    /// not scanned on push and encryption is `AES256`.
    pub fn from_parts(
        repository_name: Option<&str>,
        repository_uri: Option<&str>,
        registry_id: Option<&str>,
        created_at: Option<Timestamp>,
        image_tag_mutability: Option<&str>,
        scan_on_push: Option<bool>,
        encryption_type: Option<&str>,
    ) -> (out: Self)
        ensures
            out@ == (ECRRepositoryView {
                repository_name: text_or(repository_name, ""@),
                repository_uri: text_or(repository_uri, ""@),
                registry_id: text_or(registry_id, ""@),
                created_at,
                image_tag_mutability: text_or(image_tag_mutability, "MUTABLE"@),
                image_scanning_configuration: match scan_on_push {
                    Some(scan) => scan,
                    None => false,
                },
                encryption_configuration: text_or(encryption_type, "AES256"@),
            }),
    {
        ECRRepository {
            repository_name: string_or(repository_name, ""),
            repository_uri: string_or(repository_uri, ""),
            registry_id: string_or(registry_id, ""),
            created_at,
            image_tag_mutability: string_or(image_tag_mutability, "MUTABLE"),
            image_scanning_configuration: match scan_on_push {
                Some(scan) => scan,
                None => false,
            },
            encryption_configuration: string_or(encryption_type, "AES256"),
        }
    }
}

/// What the registry says of the vulnerability scan of an image.
#[derive(Debug)]
pub enum ScanFindings {
    /// No scan is on record.
    NotScanned,
    /// A scan is on record, its counts are not.
    Pending,
    /// The number of findings of each severity.
    Counts(Vec<i32>),
}

/// The sum of the counts.
pub open spec fn total(counts: Seq<i32>) -> int
    decreases counts.len(),
{
    if counts.len() == 0 {
        0
    } else {
        total(counts.drop_last()) + counts.last()
    }
}

/// The summary of a scan: none without a scan, else whether it is pending,
/// clean, or how many findings it has over all severities.
pub open spec fn scan_summary(findings: ScanFindings) -> Option<Seq<char>> {
    match findings {
        ScanFindings::NotScanned => None,
        ScanFindings::Pending => Some("Scan pending"@),
        ScanFindings::Counts(counts) => if total(counts@) > 0 {
            Some(decimal_text(total(counts@) as nat) + " findings"@)
        } else {
            Some("No vulnerabilities"@)
        },
    }
}

/// Summarises a scan.
pub fn make_scan_summary(findings: &ScanFindings) -> (out: Option<String>)
    ensures
        opt_view(out) == scan_summary(*findings),
{
    match findings {
        ScanFindings::NotScanned => None,
        ScanFindings::Pending => Some(String::from_str("Scan pending")),
        ScanFindings::Counts(counts) => {
            let mut sum: i128 = 0;
            let mut i: usize = 0;
            while i < counts.len()
                invariant
                    i <= counts.len(),
                    sum == total(counts@.take(i as int)),
                    -0x8000_0000 * i <= sum <= 0x8000_0000 * i,
                decreases counts.len() - i,
            {
                assert(counts@.take(i + 1).drop_last() =~= counts@.take(i as int));
                sum = sum + counts[i] as i128;
                i += 1;
            }
            assert(counts@.take(counts.len() as int) =~= counts@);
            if sum > 0 {
                let mut text = String::new();
                push_decimal(&mut text, sum as u128);
                text.append(" findings");
                Some(text)
            } else {
                Some(String::from_str("No vulnerabilities"))
            }
        },
    }
}

impl ECRImage {
    /// The image that the registry describes by these fields: its first tag
    /// if it has one, an empty digest where none is given, and the summary
    /// of its scan.
    pub fn from_parts(
        image_tags: &Vec<String>,
        image_digest: Option<&str>,
        image_pushed_at: Option<Timestamp>,
        image_size_in_bytes: Option<i64>,
        findings: &ScanFindings,
    ) -> (out: Self)
        ensures
            out@ == (ECRImageView {
                image_tag: if image_tags@.len() > 0 {
                    Some(image_tags@[0]@)
                } else {
                    None
                },
                image_digest: text_or(image_digest, ""@),
                image_pushed_at,
                image_size_in_bytes,
                vulnerability_scan_summary: scan_summary(*findings),
            }),
    {
        ECRImage {
            image_tag: if image_tags.len() > 0 {
                Some(image_tags[0].clone())
            } else {
                None
            },
            image_digest: string_or(image_digest, ""),
            image_pushed_at,
            image_size_in_bytes,
            vulnerability_scan_summary: make_scan_summary(findings),
        }
    }
}

/// The registry service. It describes what to fetch and what to show; the
/// fetch itself is the caller's.
#[derive(Debug, Clone, Copy)]
pub struct ECRService {}

impl ECRService {
    pub fn new() -> (out: Self)
        ensures
            out == (ECRService {  }),
    {
        ECRService {  }
    }
}

/// The pattern of a date column: year, month and day, then hour and minute,
/// as in `2024-01-31 09:05`.
pub open spec fn date_pattern() -> Seq<char> {
    "%Y-%m-%d %H:%M"@
}

/// The text of an instant in UTC as chrono formats it under the strftime
/// pattern `pattern`; `None` for an instant outside the range chrono can hold.
pub uninterp spec fn time_text(secs: i64, nanos: u32, pattern: Seq<char>) -> Option<Seq<char>>;

/// chrono's `DateTime::from_timestamp` followed by `DateTime::format` with
/// `pattern`: the result depends on the two numbers and the pattern alone, and
/// is `None` exactly where `from_timestamp` gives `None`. Only the date pattern
/// is admitted: on a pattern that chrono cannot read the conversion to a
/// string panics.
#[verifier::external_body]
fn format_time(secs: i64, nanos: u32, pattern: &str) -> (out: Option<String>)
    requires
        pattern@ == date_pattern(),
    ensures
        opt_view(out) == time_text(secs, nanos, pattern@),
{
    match chrono::DateTime::from_timestamp(secs, nanos) {
        Some(at) => Some(at.format(pattern).to_string()),
        None => None,
    }
}

/// What a date column shows for a formatted instant: the text, or `Unknown`
/// where there is none.
pub open spec fn date_label(formatted: Option<Seq<char>>) -> Seq<char> {
    match formatted {
        Some(text) => text,
        None => "Unknown"@,
    }
}

/// What a date column shows for an optional instant: its text under the date
/// pattern, or `Unknown` where there is none.
pub open spec fn date_text(at: Option<Timestamp>) -> Seq<char> {
    match at {
        Some(t) => date_label(time_text(t.secs, t.nanos, date_pattern())),
        None => "Unknown"@,
    }
}

/// The text of a date column for a formatted instant.
pub fn date_or_unknown(formatted: Option<String>) -> (out: String)
    ensures
        out@ == date_label(opt_view(formatted)),
{
    match formatted {
        Some(text) => text,
        None => String::from_str("Unknown"),
    }
}

/// The text of a date column for an optional instant.
pub fn format_date(at: Option<Timestamp>) -> (out: String)
    ensures
        out@ == date_text(at),
{
    match at {
        Some(t) => date_or_unknown(format_time(t.secs, t.nanos, "%Y-%m-%d %H:%M")),
        None => String::from_str("Unknown"),
    }
}

/// The title of a listing: its name, then the loading mark, the number of
/// items, or the number shown of the total with the filter text.
pub open spec fn listing_title(
    name: Seq<char>,
    loading: bool,
    filter: Seq<char>,
    shown: nat,
    total: nat,
) -> Seq<char> {
    if loading {
        name + " (Loading...)"@
    } else if filter.len() == 0 {
        name + " ("@ + decimal_text(shown) + ")"@
    } else {
        name + " ("@ + decimal_text(shown) + "/"@ + decimal_text(total) + ") - Filter: "@ + filter
    }
}

/// Builds the title of a listing.
pub fn make_listing_title(
    name: String,
    loading: bool,
    filter: &str,
    shown: usize,
    total: usize,
) -> (out: String)
    ensures
        out@ == listing_title(name@, loading, filter@, shown as nat, total as nat),
{
    let mut out = name;
    if loading {
        out.append(" (Loading...)");
    } else if filter.is_empty() {
        out.append(" (");
        push_decimal(&mut out, shown as u128);
        out.append(")");
    } else {
        out.append(" (");
        push_decimal(&mut out, shown as u128);
        out.append("/");
        push_decimal(&mut out, total as u128);
        out.append(") - Filter: ");
        out.append(filter);
    }
    out
}

/// The style of the highlighted row, and of every other row.
pub open spec fn row_style(selected: bool) -> Style {
    if selected {
        Style::filled(Color::Black, Color::Yellow)
    } else {
        Style::plain()
    }
}

fn make_row_style(selected: bool) -> (out: Style)
    ensures
        out == row_style(selected),
{
    if selected {
        Style::on(Color::Black, Color::Yellow)
    } else {
        Style::default()
    }
}

fn text_cell(text: &str) -> (out: TableCell)
    ensures
        out@ == TableCellView::Text(text@),
{
    TableCell::Text(String::from_str(text))
}

/// The table row of a repository.
pub open spec fn repository_row(repo: ECRRepositoryView, selected: bool) -> TableRowView {
    TableRowView {
        cells: seq![
            TableCellView::Text(repo.repository_name),
            TableCellView::Text(repo.registry_id),
            TableCellView::Text(date_text(repo.created_at)),
            TableCellView::Text(repo.image_tag_mutability),
            TableCellView::Text(if repo.image_scanning_configuration { "Yes"@ } else { "No"@ }),
            TableCellView::Text(repo.encryption_configuration),
        ],
        style: row_style(selected),
    }
}

/// The rows of a repository table: one for each repository among `items`, the
/// one at position `selected` of `items` highlighted.
pub open spec fn repository_rows(items: Seq<ResourceItemView>, selected: usize) -> Seq<
    TableRowView,
>
    decreases items.len(),
{
    if items.len() == 0 {
        Seq::empty()
    } else {
        let rest = repository_rows(items.drop_last(), selected);
        match items.last() {
            ResourceItemView::Repository(repo) => rest.push(
                repository_row(repo, items.len() - 1 == selected),
            ),
            ResourceItemView::Image(_) => rest,
        }
    }
}

/// The table row of an image.
pub open spec fn image_row(image: ECRImageView, selected: bool) -> TableRowView {
    TableRowView {
        cells: seq![
            TableCellView::Text(
                match image.image_tag {
                    Some(tag) => tag,
                    None => "<none>"@,
                },
            ),
            TableCellView::Text(image.image_digest),
            TableCellView::Text(date_text(image.image_pushed_at)),
            match image.image_size_in_bytes {
                Some(size) => TableCellView::Megabytes(size),
                None => TableCellView::Text("Unknown"@),
            },
            TableCellView::Text(
                match image.vulnerability_scan_summary {
                    Some(summary) => summary,
                    None => "Not scanned"@,
                },
            ),
        ],
        style: row_style(selected),
    }
}

/// The rows of an image table: one for each image among `items`, the one at
/// position `selected` of `items` highlighted.
pub open spec fn image_rows(items: Seq<ResourceItemView>, selected: usize) -> Seq<TableRowView>
    decreases items.len(),
{
    if items.len() == 0 {
        Seq::empty()
    } else {
        let rest = image_rows(items.drop_last(), selected);
        match items.last() {
            ResourceItemView::Image(image) => rest.push(
                image_row(image, items.len() - 1 == selected),
            ),
            ResourceItemView::Repository(_) => rest,
        }
    }
}

fn make_repository_row(repo: &ECRRepository, selected: bool) -> (out: TableRow)
    ensures
        out@ == repository_row(repo@, selected),
{
    let mut cells: Vec<TableCell> = Vec::new();
    cells.push(text_cell(repo.repository_name.as_str()));
    cells.push(text_cell(repo.registry_id.as_str()));
    cells.push(TableCell::Text(format_date(repo.created_at)));
    cells.push(text_cell(repo.image_tag_mutability.as_str()));
    cells.push(text_cell(if repo.image_scanning_configuration { "Yes" } else { "No" }));
    cells.push(text_cell(repo.encryption_configuration.as_str()));
    let out = TableRow { cells, style: make_row_style(selected) };
    assert(out@.cells =~= repository_row(repo@, selected).cells);
    out
}

fn make_image_row(image: &ECRImage, selected: bool) -> (out: TableRow)
    ensures
        out@ == image_row(image@, selected),
{
    let mut cells: Vec<TableCell> = Vec::new();
    cells.push(
        match &image.image_tag {
            Some(tag) => text_cell(tag.as_str()),
            None => text_cell("<none>"),
        },
    );
    cells.push(text_cell(image.image_digest.as_str()));
    cells.push(TableCell::Text(format_date(image.image_pushed_at)));
    cells.push(
        match image.image_size_in_bytes {
            Some(size) => TableCell::Megabytes(size),
            None => text_cell("Unknown"),
        },
    );
    cells.push(
        match &image.vulnerability_scan_summary {
            Some(summary) => text_cell(summary.as_str()),
            None => text_cell("Not scanned"),
        },
    );
    let out = TableRow { cells, style: make_row_style(selected) };
    assert(out@.cells =~= image_row(image@, selected).cells);
    out
}

/// Whether an item passes a filter text: a repository by its name, an image
/// by its tag, without regard to case. An image without a tag passes none.
pub open spec fn item_matches(item: ResourceItemView, filter: Seq<char>) -> bool {
    match item {
        ResourceItemView::Repository(repo) => is_substring(
            lowercase(filter),
            lowercase(repo.repository_name),
        ),
        ResourceItemView::Image(image) => match image.image_tag {
            Some(tag) => is_substring(lowercase(filter), lowercase(tag)),
            None => false,
        },
    }
}

/// The items that the filter text leaves, in their order.
pub open spec fn shown_items(data: Seq<ResourceItemView>, filter: Seq<char>) -> Seq<
    ResourceItemView,
> {
    narrowed(data, filter, |item: ResourceItemView| item_matches(item, filter))
}

/// The separator between the repository name and the repository URI in the
/// context of an image listing.
pub open spec fn context_sep() -> char {
    '|'
}

/// The context of the image listing of a repository: its name and its URI.
pub open spec fn image_context(repo: ECRRepositoryView) -> Seq<char> {
    repo.repository_name + seq![context_sep()] + repo.repository_uri
}

/// The repository name in a context.
pub open spec fn context_name(context: Seq<char>) -> Seq<char> {
    before_sep(context, context_sep())
}

/// The repository URI in a context; a placeholder where the context holds
/// none.
pub open spec fn context_uri(context: Seq<char>) -> Seq<char> {
    match after_sep(context, context_sep()) {
        Some(rest) => before_sep(rest, context_sep()),
        None => "unknown.dkr.ecr.region.amazonaws.com"@,
    }
}

/// The longest digest, in bytes, that a label shows in full.
pub const DIGEST_LABEL_BYTES: usize = 36;

/// A digest as a label shows it: cut after its first 36 bytes and marked with
/// an ellipsis when it is longer, unless the cut would split a character.
pub open spec fn short_digest(digest: Seq<char>) -> Seq<char> {
    let bytes = encode_utf8(digest);
    if bytes.len() > DIGEST_LABEL_BYTES && is_char_boundary(bytes, DIGEST_LABEL_BYTES as int) {
        decode_utf8(bytes.subrange(0, DIGEST_LABEL_BYTES as int)) + "..."@
    } else {
        digest
    }
}

/// Shortens a digest for a label.
pub fn make_short_digest(digest: &str) -> (out: String)
    ensures
        out@ == short_digest(digest@),
{
    broadcast use vstd::utf8::encode_utf8_decode_utf8;

    if digest.as_bytes().len() > DIGEST_LABEL_BYTES && digest.is_char_boundary(
        DIGEST_LABEL_BYTES,
    ) {
        let (head, _) = digest.split_at(DIGEST_LABEL_BYTES);
        let mut out = String::from_str(head);
        out.append("...");
        out
    } else {
        String::from_str(digest)
    }
}

/// What a copy exports for a repository: its URI, labelled with its name.
pub open spec fn repository_copy(repo: ECRRepositoryView) -> (Seq<char>, Seq<char>) {
    (repo.repository_uri, repo.repository_name)
}

/// What a copy exports for an image of the repository named in `context`: the
/// image reference by tag, or by digest where the image has no tag, labelled
/// with the repository name in place of the URI.
pub open spec fn image_copy(image: ECRImageView, context: Seq<char>) -> (Seq<char>, Seq<char>) {
    match image.image_tag {
        Some(tag) => (
            context_uri(context) + ":"@ + tag,
            context_name(context) + ":"@ + tag,
        ),
        None => (
            context_uri(context) + "@"@ + image.image_digest,
            context_name(context) + "@"@ + short_digest(image.image_digest),
        ),
    }
}

/// The exportable text and label of an image of the repository in `context`.
pub fn make_image_copy(image: &ECRImage, context: &str) -> (out: (String, String))
    ensures
        (out.0@, out.1@) == image_copy(image@, context@),
{
    let (name, rest) = split_once(context, '|');
    let uri = match rest {
        Some(rest) => split_once(rest.as_str(), '|').0,
        None => String::from_str("unknown.dkr.ecr.region.amazonaws.com"),
    };
    match &image.image_tag {
        Some(tag) => (
            joined3(uri.as_str(), ":", tag.as_str()),
            joined3(name.as_str(), ":", tag.as_str()),
        ),
        None => {
            let short = make_short_digest(image.image_digest.as_str());
            (
                joined3(uri.as_str(), "@", image.image_digest.as_str()),
                joined3(name.as_str(), "@", short.as_str()),
            )
        },
    }
}

/// When an item was pushed: the push time of an image that has one.
pub open spec fn pushed_at(item: ResourceItemView) -> Option<Timestamp> {
    match item {
        ResourceItemView::Image(image) => image.image_pushed_at,
        ResourceItemView::Repository(_) => None,
    }
}

/// The order of an image listing: a push time goes before an earlier
/// one, and any push time goes before none.
pub open spec fn newer(a: Option<Timestamp>, b: Option<Timestamp>) -> bool {
    match (a, b) {
        (Some(x), Some(y)) => x.is_after(y),
        (Some(_), None) => true,
        _ => false,
    }
}

/// Where `item` enters a listing that is ordered newest first: before the
/// first entry that it is newer than, else at the end.
pub open spec fn insert_position(sorted: Seq<ResourceItemView>, item: ResourceItemView) -> int {
    first_where(sorted, is_older_than(item))
}

/// The test whether `item` is newer than an entry.
pub open spec fn is_older_than(item: ResourceItemView) -> spec_fn(ResourceItemView) -> bool {
    |entry: ResourceItemView| newer(pushed_at(item), pushed_at(entry))
}

/// The items ordered newest first, those without a push time last. Items
/// that the order does not tell apart keep the order they came in.
pub open spec fn newest_first(items: Seq<ResourceItemView>) -> Seq<ResourceItemView>
    decreases items.len(),
{
    if items.len() == 0 {
        Seq::empty()
    } else {
        let sorted = newest_first(items.drop_last());
        sorted.insert(insert_position(sorted, items.last()), items.last())
    }
}

/// No item of the listing is newer than one that stands before it.
pub open spec fn is_newest_first(items: Seq<ResourceItemView>) -> bool {
    forall|i: int, j: int|
        0 <= i < j < items.len() ==> !newer(
            pushed_at(#[trigger] items[j]),
            pushed_at(#[trigger] items[i]),
        )
}

/// `newest_first` keeps every item, as often as it occurs, and puts the
/// items in order.
pub proof fn lemma_newest_first(items: Seq<ResourceItemView>)
    ensures
        newest_first(items).len() == items.len(),
        newest_first(items).to_multiset() == items.to_multiset(),
        is_newest_first(newest_first(items)),
    decreases items.len(),
{
    if items.len() == 0 {
        assert(newest_first(items) =~= items);
    } else {
        let rest = items.drop_last();
        let item = items.last();
        let sorted = newest_first(rest);
        lemma_newest_first(rest);
        let k = insert_position(sorted, item);
        crate::text::lemma_first_where_bounds(sorted, is_older_than(item));
        let out = sorted.insert(k, item);
        vstd::seq_lib::to_multiset_insert(sorted, k, item);
        assert(items =~= rest.push(item));
        vstd::seq_lib::to_multiset_build(rest, item);
        assert forall|i: int, j: int| 0 <= i < j < out.len() implies !newer(
            pushed_at(#[trigger] out[j]),
            pushed_at(#[trigger] out[i]),
        ) by {
            // What stands behind the new item is no newer than the entry it displaced.
            if i == k && j > k + 1 {
                assert(!newer(pushed_at(sorted[j - 1]), pushed_at(sorted[k])));
            }
        }
    }
}

/// The test whether an item was pushed at `at`.
pub open spec fn pushed_just_at(at: Option<Timestamp>) -> spec_fn(ResourceItemView) -> bool {
    |item: ResourceItemView| pushed_at(item) == at
}

/// `newest_first` is stable: the items of one push time, and those of none,
/// stand in the order they came in.
pub proof fn lemma_newest_first_stable(items: Seq<ResourceItemView>, at: Option<Timestamp>)
    ensures
        newest_first(items).filter(pushed_just_at(at)) == items.filter(pushed_just_at(at)),
    decreases items.len(),
{
    let same = pushed_just_at(at);
    if items.len() > 0 {
        let rest = items.drop_last();
        let item = items.last();
        let sorted = newest_first(rest);
        lemma_newest_first_stable(rest, at);
        lemma_newest_first(rest);
        let k = insert_position(sorted, item);
        crate::text::lemma_first_where_bounds(sorted, is_older_than(item));
        let before = sorted.take(k);
        let after = sorted.skip(k);
        assert(items =~= rest.push(item));
        rest.lemma_filter_push(item, same);
        assert(sorted =~= before + after);
        Seq::filter_distributes_over_add(before, after, same);
        Seq::filter_distributes_over_add(before.push(item), after, same);
        before.lemma_filter_push(item, same);
        if same(item) {
            // The item is newer than all that stands behind it.
            assert forall|j: int| 0 <= j < after.len() implies !same(#[trigger] after[j]) by {
                assert(!newer(pushed_at(sorted[k + j]), pushed_at(sorted[k])));
            }
            lemma_filter_none(after, same);
        }
    }
}

/// Filtering leaves nothing of a sequence in which no item passes.
proof fn lemma_filter_none<A>(s: Seq<A>, test: spec_fn(A) -> bool)
    requires
        forall|j: int| 0 <= j < s.len() ==> !test(#[trigger] s[j]),
    ensures
        s.filter(test) == Seq::<A>::empty(),
    decreases s.len(),
{
    reveal(Seq::filter);
    if s.len() > 0 {
        lemma_filter_none(s.drop_last(), test);
    }
}

fn item_pushed_at(item: &ResourceItem) -> (out: Option<Timestamp>)
    ensures
        out == pushed_at(item@),
{
    match item {
        ResourceItem::Image(image) => image.image_pushed_at,
        ResourceItem::Repository(_) => None,
    }
}

fn is_newer(a: Option<Timestamp>, b: Option<Timestamp>) -> (out: bool)
    ensures
        out == newer(a, b),
{
    match (a, b) {
        (Some(x), Some(y)) => x.after(&y),
        (Some(_), None) => true,
        _ => false,
    }
}

/// Orders items newest first, those without a push time last, keeping the
/// given order among items that the order does not tell apart.
pub fn sort_newest_first(items: Vec<ResourceItem>) -> (out: Vec<ResourceItem>)
    ensures
        items_view(out@) == newest_first(items_view(items@)),
        items_view(out@).to_multiset() == items_view(items@).to_multiset(),
        is_newest_first(items_view(out@)),
{
    proof {
        lemma_newest_first(items_view(items@));
    }
    let ghost all = items_view(items@);
    let mut out: Vec<ResourceItem> = Vec::new();
    for item in it: items
        invariant
            items_view(it.seq()) == all,
            items_view(out@) == newest_first(all.take(it.index() as int)),
    {
        let ghost done = all.take(it.index() as int);
        let ghost sorted = items_view(out@);
        let at = item_pushed_at(&item);
        let mut k: usize = 0;
        while k < out.len() && !is_newer(at, item_pushed_at(&out[k]))
            invariant
                k <= out.len(),
                at == pushed_at(item@),
                sorted == items_view(out@),
                forall|j: int|
                    0 <= j < k ==> !newer(pushed_at(item@), pushed_at(#[trigger] sorted[j])),
            decreases out.len() - k,
        {
            k += 1;
        }
        proof {
            lemma_first_where(sorted, is_older_than(item@), k as int);
            assert(all.take(it.index() + 1).drop_last() =~= done);
        }
        out.insert(k, item);
    }
    assert(all.take(items@.len() as int) =~= all);
    out
}

/// The message of an empty listing of `plural` (repositories, images), of
/// which `total` are loaded: still loading; nothing there, whatever the
/// filter; or, where something is there, filtered to nothing.
pub open spec fn empty_message(
    plural: Seq<char>,
    loading: bool,
    filter: Seq<char>,
    total: nat,
) -> Seq<char> {
    if loading {
        "Loading ECR "@ + plural + "..."@
    } else if total > 0 && filter.len() > 0 {
        "No "@ + plural + " match the current filter"@
    } else {
        "No ECR "@ + plural + " found"@
    }
}

fn make_empty_message(plural: &str, loading: bool, filter: &str, total: usize) -> (out: String)
    ensures
        out@ == empty_message(plural@, loading, filter@, total as nat),
{
    if loading {
        joined3("Loading ECR ", plural, "...")
    } else if total > 0 && !filter.is_empty() {
        joined3("No ", plural, " match the current filter")
    } else {
        joined3("No ECR ", plural, " found")
    }
}

/// The column titles of the repository table.
pub open spec fn repository_header() -> Seq<Seq<char>> {
    seq![
        "REPOSITORY NAME"@,
        "REGISTRY ID"@,
        "CREATED"@,
        "TAG MUTABILITY"@,
        "SCAN ON PUSH"@,
        "ENCRYPTION"@,
    ]
}

/// The column widths of the repository table.
pub open spec fn repository_widths() -> Seq<u16> {
    seq![30u16, 15u16, 20u16, 16u16, 12u16, 12u16]
}

/// The column titles of the image table.
pub open spec fn image_header() -> Seq<Seq<char>> {
    seq!["IMAGE TAG"@, "DIGEST"@, "PUSHED AT"@, "SIZE"@, "VULNERABILITIES"@]
}

/// The column widths of the image table.
pub open spec fn image_widths() -> Seq<u16> {
    seq![25u16, 30u16, 20u16, 12u16, 20u16]
}

/// A listing: the notice of an empty one, else the table of its rows.
pub open spec fn listing(
    title: Seq<char>,
    message: Seq<char>,
    header: Seq<Seq<char>>,
    widths: Seq<u16>,
    rows: Seq<TableRowView>,
    shown: nat,
) -> ContentView {
    if shown == 0 {
        ContentView::Notice(NoticeView { title, message, style: Style::colored(Color::Gray) })
    } else {
        ContentView::Table(
            TableView {
                title,
                header,
                header_style: Style::strong(Color::Yellow),
                widths,
                rows,
                highlight_style: Style::filled(Color::White, Color::Blue),
            },
        )
    }
}

/// The repository listing: what the filter leaves of `data`, one row each.
pub open spec fn repository_listing(
    loading: bool,
    view_state: ViewStateView,
    data: Seq<ResourceItemView>,
) -> ContentView {
    let shown = shown_items(data, view_state.search_filter);
    listing(
        listing_title(
            "ECR Repositories"@,
            loading,
            view_state.search_filter,
            shown.len(),
            data.len(),
        ),
        empty_message("repositories"@, loading, view_state.search_filter, data.len()),
        repository_header(),
        repository_widths(),
        repository_rows(shown, view_state.selected_index),
        shown.len(),
    )
}

/// The name of an image listing: the repository of the context, or `Unknown`
/// without one.
pub open spec fn image_listing_name(context: Option<Seq<char>>) -> Seq<char> {
    "ECR Repositories: "@ + match context {
        Some(c) => context_name(c),
        None => "Unknown"@,
    } + " > ECR Images"@
}

/// The image listing: what the filter leaves of `data`, one row each.
pub open spec fn image_listing(
    loading: bool,
    view_state: ViewStateView,
    data: Seq<ResourceItemView>,
) -> ContentView {
    let shown = shown_items(data, view_state.search_filter);
    listing(
        listing_title(
            image_listing_name(view_state.context),
            loading,
            view_state.search_filter,
            shown.len(),
            data.len(),
        ),
        empty_message("images"@, loading, view_state.search_filter, data.len()),
        image_header(),
        image_widths(),
        image_rows(shown, view_state.selected_index),
        shown.len(),
    )
}

fn strings(texts: &[&str]) -> (out: Vec<String>)
    ensures
        out@.len() == texts@.len(),
        forall|i: int| 0 <= i < texts@.len() ==> (#[trigger] out@[i])@ == texts@[i]@,
{
    let mut out: Vec<String> = Vec::new();
    let mut i: usize = 0;
    while i < texts.len()
        invariant
            i <= texts.len(),
            out@.len() == i,
            forall|j: int| 0 <= j < i ==> (#[trigger] out@[j])@ == texts@[j]@,
        decreases texts.len() - i,
    {
        out.push(String::from_str(texts[i]));
        i += 1;
    }
    out
}

fn make_listing(
    title: String,
    message: String,
    header: Vec<String>,
    widths: Vec<u16>,
    rows: Vec<TableRow>,
    shown: usize,
) -> (out: Content)
    ensures
        out@ == listing(
            title@,
            message@,
            strings_view(header@),
            widths@,
            rows_view(rows@),
            shown as nat,
        ),
{
    if shown == 0 {
        Content::Notice(Notice { title, message, style: Style::fg(Color::Gray) })
    } else {
        Content::Table(
            Table {
                title,
                header,
                header_style: Style::bold(Color::Yellow),
                widths,
                rows,
                highlight_style: Style::on(Color::White, Color::Blue),
            },
        )
    }
}

impl ECRService {
    /// The filtered view of `data`, with the items that the service's own
    /// filter leaves.
    fn shown<'a>(&self, data: &'a ResourceData, filter: &str) -> (out: Vec<&'a ResourceItem>)
        ensures
            refs_view(out@) == shown_items(data@, filter@),
    {
        proof {
            self.lemma_filter(filter@);
        }
        self.filter_data(data, filter)
    }

    /// The service filters by `item_matches`.
    pub proof fn lemma_filter(&self, filter: Seq<char>)
        ensures
            (|item: ResourceItemView| self.matches(item, filter)) == (|item: ResourceItemView|
                item_matches(item, filter)),
    {
    }

    /// Describes the repository listing.
    pub fn render_repositories(
        &self,
        loading: bool,
        view_state: &ViewState,
        data: &ResourceData,
    ) -> (out: Content)
        ensures
            out@ == repository_listing(loading, view_state@, data@),
    {
        let filter = view_state.search_filter.as_str();
        let filtered = self.shown(data, filter);
        let ghost shown = shown_items(data@, filter@);
        let title = make_listing_title(
            String::from_str("ECR Repositories"),
            loading,
            filter,
            filtered.len(),
            data.items.len(),
        );
        let message = make_empty_message("repositories", loading, filter, data.items.len());
        let mut rows: Vec<TableRow> = Vec::new();
        let mut i: usize = 0;
        while i < filtered.len()
            invariant
                i <= filtered.len(),
                refs_view(filtered@) == shown,
                rows_view(rows@) == repository_rows(
                    shown.take(i as int),
                    view_state.selected_index,
                ),
            decreases filtered.len() - i,
        {
            assert(shown.take(i + 1).drop_last() =~= shown.take(i as int));
            match filtered[i].as_repository() {
                Some(repo) => {
                    rows.push(make_repository_row(repo, i == view_state.selected_index));
                },
                None => {},
            }
            i += 1;
        }
        assert(shown.take(filtered.len() as int) =~= shown);
        let header = strings(
            &[
                "REPOSITORY NAME",
                "REGISTRY ID",
                "CREATED",
                "TAG MUTABILITY",
                "SCAN ON PUSH",
                "ENCRYPTION",
            ],
        );
        assert(strings_view(header@) =~= repository_header());
        let widths: Vec<u16> = vec![30, 15, 20, 16, 12, 12];
        make_listing(title, message, header, widths, rows, filtered.len())
    }

    /// Describes the image listing.
    pub fn render_images(
        &self,
        loading: bool,
        view_state: &ViewState,
        data: &ResourceData,
    ) -> (out: Content)
        ensures
            out@ == image_listing(loading, view_state@, data@),
    {
        let filter = view_state.search_filter.as_str();
        let filtered = self.shown(data, filter);
        let ghost shown = shown_items(data@, filter@);
        let repo_name = match &view_state.context {
            Some(context) => split_once(context.as_str(), '|').0,
            None => String::from_str("Unknown"),
        };
        let title = make_listing_title(
            joined3("ECR Repositories: ", repo_name.as_str(), " > ECR Images"),
            loading,
            filter,
            filtered.len(),
            data.items.len(),
        );
        let message = make_empty_message("images", loading, filter, data.items.len());
        let mut rows: Vec<TableRow> = Vec::new();
        let mut i: usize = 0;
        while i < filtered.len()
            invariant
                i <= filtered.len(),
                refs_view(filtered@) == shown,
                rows_view(rows@) == image_rows(
                    shown.take(i as int),
                    view_state.selected_index,
                ),
            decreases filtered.len() - i,
        {
            assert(shown.take(i + 1).drop_last() =~= shown.take(i as int));
            match filtered[i].as_image() {
                Some(image) => {
                    rows.push(make_image_row(image, i == view_state.selected_index));
                },
                None => {},
            }
            i += 1;
        }
        assert(shown.take(filtered.len() as int) =~= shown);
        let header = strings(&["IMAGE TAG", "DIGEST", "PUSHED AT", "SIZE", "VULNERABILITIES"]);
        assert(strings_view(header@) =~= image_header());
        let widths: Vec<u16> = vec![25, 30, 20, 12, 20];
        make_listing(title, message, header, widths, rows, filtered.len())
    }
}

impl AwsService for ECRService {
    open spec fn spec_metadata(&self) -> ServiceMetadataView {
        ServiceMetadataView {
            id: "ecr"@,
            name: "Elastic Container Registry"@,
            description: "AWS Container Registry for Docker images"@,
            command: "ecr"@,
        }
    }

    open spec fn request_for(&self, view_state: ViewStateView) -> LoadRequestView {
        match view_state.view_type {
            ViewTypeView::List => LoadRequestView::TopLevel,
            ViewTypeView::Detail => match view_state.context {
                Some(context) => LoadRequestView::Children(context_name(context)),
                None => LoadRequestView::Nothing,
            },
            ViewTypeView::Custom(_) => LoadRequestView::Nothing,
        }
    }

    open spec fn loaded(&self, view_state: ViewStateView, fetched: Seq<ResourceItemView>) -> Seq<
        ResourceItemView,
    > {
        match view_state.view_type {
            ViewTypeView::List => fetched,
            ViewTypeView::Detail => match view_state.context {
                Some(_) => newest_first(fetched),
                None => Seq::empty(),
            },
            ViewTypeView::Custom(_) => Seq::empty(),
        }
    }

    open spec fn rendered(
        &self,
        loading: bool,
        view_state: ViewStateView,
        data: Seq<ResourceItemView>,
    ) -> ContentView {
        match view_state.view_type {
            ViewTypeView::List => repository_listing(loading, view_state, data),
            ViewTypeView::Detail => image_listing(loading, view_state, data),
            ViewTypeView::Custom(_) => ContentView::Blank,
        }
    }

    open spec fn entered(&self, view_state: ViewStateView, data: Seq<ResourceItemView>) -> Option<
        ViewStateView,
    > {
        let shown = shown_items(data, view_state.search_filter);
        if view_state.view_type is List && view_state.selected_index < shown.len() {
            match shown[view_state.selected_index as int] {
                ResourceItemView::Repository(repo) => Some(
                    ViewStateView {
                        context: Some(image_context(repo)),
                        ..ViewStateView::fresh(view_state.service_id, ViewTypeView::Detail)
                    },
                ),
                ResourceItemView::Image(_) => None,
            }
        } else {
            None
        }
    }

    open spec fn copy_content(
        &self,
        view_state: ViewStateView,
        data: Seq<ResourceItemView>,
    ) -> Option<(Seq<char>, Seq<char>)> {
        let shown = shown_items(data, view_state.search_filter);
        if view_state.selected_index >= shown.len() {
            None
        } else {
            match (view_state.view_type, shown[view_state.selected_index as int]) {
                (ViewTypeView::List, ResourceItemView::Repository(repo)) => Some(
                    repository_copy(repo),
                ),
                (ViewTypeView::Detail, ResourceItemView::Image(image)) => match view_state.context {
                    Some(context) => Some(image_copy(image, context)),
                    None => None,
                },
                _ => None,
            }
        }
    }

    open spec fn matches(&self, item: ResourceItemView, filter: Seq<char>) -> bool {
        item_matches(item, filter)
    }

    proof fn law_enter_needs_selection(
        &self,
        view_state: ViewStateView,
        data: Seq<ResourceItemView>,
    ) {
        self.lemma_filter(view_state.search_filter);
    }

    proof fn law_enter_keeps_service(
        &self,
        view_state: ViewStateView,
        data: Seq<ResourceItemView>,
    ) {
    }

    proof fn law_render_states(
        &self,
        loading: bool,
        view_state: ViewStateView,
        data: Seq<ResourceItemView>,
        other: ViewStateView,
        other_data: Seq<ResourceItemView>,
    ) {
        self.lemma_filter(view_state.search_filter);
        self.lemma_filter(other.search_filter);
        reveal_strlit("No ECR ");
        reveal_strlit("No ");
        reveal_strlit("repositories");
        reveal_strlit("images");
        let plural = if view_state.view_type is List {
            "repositories"@
        } else {
            "images"@
        };
        if other.view_type == view_state.view_type && other_data.len() > 0 && shown_items(
            other_data,
            other.search_filter,
        ).len() == 0 {
            let nothing_there = empty_message(plural, false, view_state.search_filter, 0);
            let nothing_left = empty_message(
                plural,
                false,
                other.search_filter,
                other_data.len(),
            );
            assert(nothing_there[3] != nothing_left[3]);
        }
    }

    proof fn law_copy_needs_selection(
        &self,
        view_state: ViewStateView,
        data: Seq<ResourceItemView>,
    ) {
        self.lemma_filter(view_state.search_filter);
    }

    proof fn law_load_ignores_selection(
        &self,
        a: ViewStateView,
        b: ViewStateView,
        fetched: Seq<ResourceItemView>,
    ) {
    }

    fn metadata(&self) -> (out: ServiceMetadata) {
        ServiceMetadata {
            id: String::from_str("ecr"),
            name: String::from_str("Elastic Container Registry"),
            description: String::from_str("AWS Container Registry for Docker images"),
            command: String::from_str("ecr"),
        }
    }

    fn load_request(&self, view_state: &ViewState) -> (out: LoadRequest) {
        match &view_state.view_type {
            ViewType::List => LoadRequest::TopLevel,
            ViewType::Detail => match &view_state.context {
                Some(context) => LoadRequest::Children(split_once(context.as_str(), '|').0),
                None => LoadRequest::Nothing,
            },
            ViewType::Custom(_) => LoadRequest::Nothing,
        }
    }

    fn load_data(&self, view_state: &ViewState, fetched: Vec<ResourceItem>) -> (out: ResourceData) {
        match &view_state.view_type {
            ViewType::List => ResourceData { items: fetched },
            ViewType::Detail => match &view_state.context {
                Some(_) => ResourceData { items: sort_newest_first(fetched) },
                None => {
                    let out = ResourceData { items: Vec::new() };
                    out
                },
            },
            ViewType::Custom(_) => {
                let out = ResourceData { items: Vec::new() };
                out
            },
        }
    }

    fn render(&self, loading: bool, view_state: &ViewState, data: &ResourceData) -> (out: Content) {
        match &view_state.view_type {
            ViewType::List => self.render_repositories(loading, view_state, data),
            ViewType::Detail => self.render_images(loading, view_state, data),
            ViewType::Custom(_) => Content::Blank,
        }
    }

    fn handle_enter(&self, view_state: &ViewState, data: &ResourceData) -> (out: Option<
        ViewState,
    >) {
        match &view_state.view_type {
            ViewType::List => {
                let filtered = self.shown(data, view_state.search_filter.as_str());
                if view_state.selected_index < filtered.len() {
                    match filtered[view_state.selected_index].as_repository() {
                        Some(repo) => {
                            let mut new_view = ViewState::new(
                                view_state.service_id.clone(),
                                ViewType::Detail,
                            );
                            new_view.context = Some(
                                joined3(
                                    repo.repository_name.as_str(),
                                    "|",
                                    repo.repository_uri.as_str(),
                                ),
                            );
                            proof {
                                reveal_strlit("|");
                                assert("|"@ =~= seq![context_sep()]);
                            }
                            Some(new_view)
                        },
                        None => None,
                    }
                } else {
                    None
                }
            },
            ViewType::Detail => None,
            ViewType::Custom(_) => None,
        }
    }

    fn get_copy_content(&self, view_state: &ViewState, data: &ResourceData) -> (out: Option<
        (String, String),
    >) {
        let filtered = self.shown(data, view_state.search_filter.as_str());
        if view_state.selected_index >= filtered.len() {
            return None;
        }
        let item = filtered[view_state.selected_index];
        match &view_state.view_type {
            ViewType::List => match item.as_repository() {
                Some(repo) => Some((repo.repository_uri.clone(), repo.repository_name.clone())),
                None => None,
            },
            ViewType::Detail => match item.as_image() {
                Some(image) => match &view_state.context {
                    Some(context) => Some(make_image_copy(image, context.as_str())),
                    None => None,
                },
                None => None,
            },
            ViewType::Custom(_) => None,
        }
    }

    fn matches_filter(&self, item: &ResourceItem, filter: &str) -> (out: bool) {
        let needle = to_lowercase(filter);
        match item {
            ResourceItem::Repository(repo) => {
                let hay = to_lowercase(repo.repository_name.as_str());
                contains(hay.as_str(), needle.as_str())
            },
            ResourceItem::Image(image) => match &image.image_tag {
                Some(tag) => {
                    let hay = to_lowercase(tag.as_str());
                    contains(hay.as_str(), needle.as_str())
                },
                None => false,
            },
        }
    }
}

} // verus!
