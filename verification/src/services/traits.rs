//! The capability contract that every resource service fulfils, and the data
//! that travels between the services and the controller.

use vstd::prelude::*;
use vstd::std_specs::cmp::PartialEqSpecImpl;
use vstd::string::*;

use crate::services::ecr::{ECRImage, ECRImageView, ECRRepository, ECRRepositoryView};
use crate::text::{clone_opt, opt_view};

verus! {

/// Identifies one resource service. Fixed once the service is registered.
#[derive(Debug, Eq, Hash)]
pub struct ServiceId(pub String);

impl View for ServiceId {
    type V = Seq<char>;

    open spec fn view(&self) -> Seq<char> {
        self.0@
    }
}

impl PartialEq for ServiceId {
    fn eq(&self, other: &ServiceId) -> (out: bool) {
        self.0 == other.0
    }
}

impl PartialEqSpecImpl for ServiceId {
    open spec fn obeys_eq_spec() -> bool {
        true
    }

    open spec fn eq_spec(&self, other: &ServiceId) -> bool {
        self@ == other@
    }
}

impl Clone for ServiceId {
    fn clone(&self) -> (out: Self)
        ensures
            out@ == self@,
    {
        ServiceId(self.0.clone())
    }
}

impl ServiceId {
    pub fn new(id: &str) -> (out: Self)
        ensures
            out@ == id@,
    {
        ServiceId(String::from_str(id))
    }

    /// The id as text.
    pub fn as_str(&self) -> (out: &str)
        ensures
            out@ == self@,
    {
        self.0.as_str()
    }

    /// The id as an owned string.
    pub fn to_string(&self) -> (out: String)
        ensures
            out@ == self@,
    {
        self.0.clone()
    }
}

/// What a service says of itself at registration.
#[derive(Debug)]
pub struct ServiceMetadata {
    pub id: String,
    pub name: String,
    pub description: String,
    pub command: String,
}

/// The mathematical value of a [`ServiceMetadata`].
pub struct ServiceMetadataView {
    pub id: Seq<char>,
    pub name: Seq<char>,
    pub description: Seq<char>,
    pub command: Seq<char>,
}

impl View for ServiceMetadata {
    type V = ServiceMetadataView;

    open spec fn view(&self) -> ServiceMetadataView {
        ServiceMetadataView {
            id: self.id@,
            name: self.name@,
            description: self.description@,
            command: self.command@,
        }
    }
}

impl Clone for ServiceMetadata {
    fn clone(&self) -> (out: Self)
        ensures
            out@ == self@,
    {
        ServiceMetadata {
            id: self.id.clone(),
            name: self.name.clone(),
            description: self.description.clone(),
            command: self.command.clone(),
        }
    }
}

/// One listed resource: the closed set of kinds the services know.
#[derive(Debug)]
pub enum ResourceItem {
    Repository(ECRRepository),
    Image(ECRImage),
}

/// The mathematical value of a [`ResourceItem`].
pub enum ResourceItemView {
    Repository(ECRRepositoryView),
    Image(ECRImageView),
}

impl ResourceItemView {
    /// The item's unique id within its kind.
    pub open spec fn id(self) -> Seq<char> {
        match self {
            ResourceItemView::Repository(r) => r.repository_name,
            ResourceItemView::Image(i) => i.image_digest,
        }
    }
}

impl View for ResourceItem {
    type V = ResourceItemView;

    open spec fn view(&self) -> ResourceItemView {
        match self {
            ResourceItem::Repository(r) => ResourceItemView::Repository(r@),
            ResourceItem::Image(i) => ResourceItemView::Image(i@),
        }
    }
}

impl Clone for ResourceItem {
    fn clone(&self) -> (out: Self)
        ensures
            out@ == self@,
    {
        match self {
            ResourceItem::Repository(r) => ResourceItem::Repository(r.clone()),
            ResourceItem::Image(i) => ResourceItem::Image(i.clone()),
        }
    }
}

impl ResourceItem {
    /// The item's unique id within its kind.
    pub fn id(&self) -> (out: String)
        ensures
            out@ == self@.id(),
    {
        match self {
            ResourceItem::Repository(r) => r.id(),
            ResourceItem::Image(i) => i.id(),
        }
    }

    /// The repository inside, when the item is one.
    pub fn as_repository(&self) -> (out: Option<&ECRRepository>)
        ensures
            match out {
                Some(r) => self@ == ResourceItemView::Repository(r@),
                None => self@ is Image,
            },
    {
        match self {
            ResourceItem::Repository(r) => Some(r),
            ResourceItem::Image(_) => None,
        }
    }

    /// The image inside, when the item is one.
    pub fn as_image(&self) -> (out: Option<&ECRImage>)
        ensures
            match out {
                Some(i) => self@ == ResourceItemView::Image(i@),
                None => self@ is Repository,
            },
    {
        match self {
            ResourceItem::Image(i) => Some(i),
            ResourceItem::Repository(_) => None,
        }
    }
}

/// The values of a sequence of items.
pub open spec fn items_view(items: Seq<ResourceItem>) -> Seq<ResourceItemView> {
    items.map_values(|i: ResourceItem| i@)
}

/// The values of a sequence of borrowed items.
pub open spec fn refs_view(items: Seq<&ResourceItem>) -> Seq<ResourceItemView> {
    items.map_values(|i: &ResourceItem| i@)
}

/// The full result of one load, in the order the service gave it.
#[derive(Debug)]
pub struct ResourceData {
    pub items: Vec<ResourceItem>,
}

impl View for ResourceData {
    type V = Seq<ResourceItemView>;

    open spec fn view(&self) -> Seq<ResourceItemView> {
        items_view(self.items@)
    }
}

/// Copies a list of items.
pub fn clone_items(items: &Vec<ResourceItem>) -> (out: Vec<ResourceItem>)
    ensures
        items_view(out@) == items_view(items@),
{
    let mut out: Vec<ResourceItem> = Vec::new();
    let mut i: usize = 0;
    while i < items.len()
        invariant
            i <= items.len(),
            out@.len() == i,
            forall|j: int| 0 <= j < i ==> out@[j]@ == items@[j]@,
        decreases items.len() - i,
    {
        out.push(items[i].clone());
        i += 1;
    }
    out
}

impl Clone for ResourceData {
    fn clone(&self) -> (out: Self)
        ensures
            out@ == self@,
    {
        ResourceData { items: clone_items(&self.items) }
    }
}

/// The kind of view a state shows.
#[derive(Debug)]
pub enum ViewType {
    List,
    Detail,
    Custom(String),
}

/// The mathematical value of a [`ViewType`].
pub enum ViewTypeView {
    List,
    Detail,
    Custom(Seq<char>),
}

impl View for ViewType {
    type V = ViewTypeView;

    open spec fn view(&self) -> ViewTypeView {
        match self {
            ViewType::List => ViewTypeView::List,
            ViewType::Detail => ViewTypeView::Detail,
            ViewType::Custom(tag) => ViewTypeView::Custom(tag@),
        }
    }
}

impl PartialEq for ViewType {
    fn eq(&self, other: &ViewType) -> (out: bool) {
        match (self, other) {
            (ViewType::List, ViewType::List) => true,
            (ViewType::Detail, ViewType::Detail) => true,
            (ViewType::Custom(a), ViewType::Custom(b)) => *a == *b,
            _ => false,
        }
    }
}

impl PartialEqSpecImpl for ViewType {
    open spec fn obeys_eq_spec() -> bool {
        true
    }

    open spec fn eq_spec(&self, other: &ViewType) -> bool {
        self@ == other@
    }
}

impl Clone for ViewType {
    fn clone(&self) -> (out: Self)
        ensures
            out@ == self@,
    {
        match self {
            ViewType::List => ViewType::List,
            ViewType::Detail => ViewType::Detail,
            ViewType::Custom(tag) => ViewType::Custom(tag.clone()),
        }
    }
}

/// Where the user is: which service, which view, the highlighted row, the
/// active filter and the parent of a drill-down.
#[derive(Debug)]
pub struct ViewState {
    pub service_id: ServiceId,
    pub view_type: ViewType,
    pub selected_index: usize,
    pub search_filter: String,
    pub context: Option<String>,
}

/// The mathematical value of a [`ViewState`].
pub struct ViewStateView {
    pub service_id: Seq<char>,
    pub view_type: ViewTypeView,
    pub selected_index: usize,
    pub search_filter: Seq<char>,
    pub context: Option<Seq<char>>,
}

impl ViewStateView {
    /// The state in which a view is entered: first row, no filter, no parent.
    pub open spec fn fresh(service_id: Seq<char>, view_type: ViewTypeView) -> ViewStateView {
        ViewStateView {
            service_id,
            view_type,
            selected_index: 0,
            search_filter: Seq::empty(),
            context: None,
        }
    }
}

impl View for ViewState {
    type V = ViewStateView;

    open spec fn view(&self) -> ViewStateView {
        ViewStateView {
            service_id: self.service_id@,
            view_type: self.view_type@,
            selected_index: self.selected_index,
            search_filter: self.search_filter@,
            context: opt_view(self.context),
        }
    }
}

impl Clone for ViewState {
    fn clone(&self) -> (out: Self)
        ensures
            out@ == self@,
    {
        ViewState {
            service_id: self.service_id.clone(),
            view_type: self.view_type.clone(),
            selected_index: self.selected_index,
            search_filter: self.search_filter.clone(),
            context: clone_opt(&self.context),
        }
    }
}

impl ViewState {
    pub fn new(service_id: ServiceId, view_type: ViewType) -> (out: Self)
        ensures
            out@ == ViewStateView::fresh(service_id@, view_type@),
    {
        ViewState {
            service_id,
            view_type,
            selected_index: 0,
            search_filter: String::new(),
            context: None,
        }
    }
}

/// The value of an optional view state.
pub open spec fn opt_state_view(state: Option<ViewState>) -> Option<ViewStateView> {
    match state {
        Some(s) => Some(s@),
        None => None,
    }
}

/// The texts of an optional pair of strings.
pub open spec fn opt_pair_view(pair: Option<(String, String)>) -> Option<(Seq<char>, Seq<char>)> {
    match pair {
        Some((a, b)) => Some((a@, b@)),
        None => None,
    }
}

/// What a load has to fetch from the remote source.
#[derive(Debug)]
pub enum LoadRequest {
    /// Nothing is fetched; the result is the empty set.
    Nothing,
    /// The top-level items of the service.
    TopLevel,
    /// The children of the named parent.
    Children(String),
}

/// The mathematical value of a [`LoadRequest`].
pub enum LoadRequestView {
    Nothing,
    TopLevel,
    Children(Seq<char>),
}

impl View for LoadRequest {
    type V = LoadRequestView;

    open spec fn view(&self) -> LoadRequestView {
        match self {
            LoadRequest::Nothing => LoadRequestView::Nothing,
            LoadRequest::TopLevel => LoadRequestView::TopLevel,
            LoadRequest::Children(parent) => LoadRequestView::Children(parent@),
        }
    }
}

/// A failed fetch from the remote source, with its cause in words.
#[derive(Debug)]
pub struct RemoteFetchError {
    pub cause: String,
}

impl RemoteFetchError {
    pub fn new(cause: String) -> (out: Self)
        ensures
            out.cause@ == cause@,
    {
        RemoteFetchError { cause }
    }

    /// The cause as an owned string.
    pub fn to_string(&self) -> (out: String)
        ensures
            out@ == self.cause@,
    {
        self.cause.clone()
    }
}

/// The items that a filter leaves: all of them under the empty filter, else
/// those that satisfy `keep`, in their order.
pub open spec fn narrowed(
    data: Seq<ResourceItemView>,
    filter: Seq<char>,
    keep: spec_fn(ResourceItemView) -> bool,
) -> Seq<ResourceItemView> {
    if filter.len() == 0 {
        data
    } else {
        data.filter(keep)
    }
}

/// The capability contract of a resource service. Each operation has a
/// mathematical counterpart that says what it computes; the navigation state
/// machine is stated over those.
pub trait AwsService: Sized {
    /// What the service says of itself.
    spec fn spec_metadata(&self) -> ServiceMetadataView;

    /// What a load for `view_state` has to fetch.
    spec fn request_for(&self, view_state: ViewStateView) -> LoadRequestView;

    /// The result set made of what was fetched for `view_state`.
    spec fn loaded(
        &self,
        view_state: ViewStateView,
        fetched: Seq<ResourceItemView>,
    ) -> Seq<ResourceItemView>;

    /// What the content pane shows for `view_state` over `data`.
    spec fn rendered(
        &self,
        loading: bool,
        view_state: ViewStateView,
        data: Seq<ResourceItemView>,
    ) -> crate::ui::widgets::ContentView;

    /// The state that a drill-down from `view_state` leads to, if any.
    spec fn entered(&self, view_state: ViewStateView, data: Seq<ResourceItemView>) -> Option<
        ViewStateView,
    >;

    /// The exportable text and the short label of the highlighted item.
    spec fn copy_content(&self, view_state: ViewStateView, data: Seq<ResourceItemView>) -> Option<
        (Seq<char>, Seq<char>),
    >;

    /// Whether `item` passes the non-empty filter text `filter`.
    spec fn matches(&self, item: ResourceItemView, filter: Seq<char>) -> bool;

    /// A drill-down needs a highlighted item: with the selection out of range
    /// there is none.
    proof fn law_enter_needs_selection(
        &self,
        view_state: ViewStateView,
        data: Seq<ResourceItemView>,
    )
        ensures
            view_state.selected_index >= narrowed(
                data,
                view_state.search_filter,
                |item: ResourceItemView| self.matches(item, view_state.search_filter),
            ).len() ==> self.entered(view_state, data) is None,
    ;

    /// A drill-down stays within the service.
    proof fn law_enter_keeps_service(
        &self,
        view_state: ViewStateView,
        data: Seq<ResourceItemView>,
    )
        ensures
            self.entered(view_state, data) matches Some(target) ==> target.service_id
                == view_state.service_id,
    ;

    /// A list or detail view is shown in one of three states: a table once
    /// its filtered view has something to show, else a notice. While not
    /// loading, the notice of an empty result set is the same whatever the
    /// filter, and it is not the notice of a filter that has left nothing of
    /// a result set that holds something.
    proof fn law_render_states(
        &self,
        loading: bool,
        view_state: ViewStateView,
        data: Seq<ResourceItemView>,
        other: ViewStateView,
        other_data: Seq<ResourceItemView>,
    )
        requires
            !(view_state.view_type is Custom),
        ensures
            narrowed(
                data,
                view_state.search_filter,
                |item: ResourceItemView| self.matches(item, view_state.search_filter),
            ).len() == 0 <==> self.rendered(loading, view_state, data) is Notice,
            narrowed(
                data,
                view_state.search_filter,
                |item: ResourceItemView| self.matches(item, view_state.search_filter),
            ).len() > 0 <==> self.rendered(loading, view_state, data) is Table,
            ({
                let nothing_there = self.rendered(false, view_state, Seq::empty());
                let also_nothing_there = self.rendered(false, other, Seq::empty());
                other.service_id == view_state.service_id && other.view_type
                    == view_state.view_type && other.context == view_state.context
                    ==> nothing_there is Notice && also_nothing_there is Notice
                    && nothing_there->Notice_0.message == also_nothing_there->Notice_0.message
            }),
            ({
                let nothing_there = self.rendered(false, view_state, Seq::empty());
                let nothing_left = self.rendered(false, other, other_data);
                other.service_id == view_state.service_id && other.view_type
                    == view_state.view_type && other.context == view_state.context
                    && other_data.len() > 0 && narrowed(
                    other_data,
                    other.search_filter,
                    |item: ResourceItemView| self.matches(item, other.search_filter),
                ).len() == 0 ==> nothing_there is Notice && nothing_left is Notice
                    && nothing_there->Notice_0.message != nothing_left->Notice_0.message
            }),
    ;

    /// A copy needs a highlighted item: with the selection out of range there
    /// is nothing to export.
    proof fn law_copy_needs_selection(
        &self,
        view_state: ViewStateView,
        data: Seq<ResourceItemView>,
    )
        ensures
            view_state.selected_index >= narrowed(
                data,
                view_state.search_filter,
                |item: ResourceItemView| self.matches(item, view_state.search_filter),
            ).len() ==> self.copy_content(view_state, data) is None,
    ;

    /// What is fetched and what is made of it depends on the kind of view and
    /// on its context, not on the highlighted row or the filter.
    proof fn law_load_ignores_selection(
        &self,
        a: ViewStateView,
        b: ViewStateView,
        fetched: Seq<ResourceItemView>,
    )
        requires
            a.service_id == b.service_id,
            a.view_type == b.view_type,
            a.context == b.context,
        ensures
            self.request_for(a) == self.request_for(b),
            self.loaded(a, fetched) == self.loaded(b, fetched),
    ;

    fn metadata(&self) -> (out: ServiceMetadata)
        ensures
            out@ == self.spec_metadata(),
    ;

    /// Decides what has to be fetched for `view_state`. The fetch itself is
    /// the caller's.
    fn load_request(&self, view_state: &ViewState) -> (out: LoadRequest)
        ensures
            out@ == self.request_for(view_state@),
    ;

    /// Makes the result set of what was fetched for `view_state`. An empty
    /// fetch is a valid result.
    fn load_data(&self, view_state: &ViewState, fetched: Vec<ResourceItem>) -> (out: ResourceData)
        ensures
            out@ == self.loaded(view_state@, items_view(fetched@)),
    ;

    /// Describes the content pane. Neither the state nor the data changes.
    fn render(&self, loading: bool, view_state: &ViewState, data: &ResourceData) -> (out:
        crate::ui::widgets::Content)
        ensures
            out@ == self.rendered(loading, view_state@, data@),
    ;

    fn handle_enter(&self, view_state: &ViewState, data: &ResourceData) -> (out: Option<ViewState>)
        ensures
            opt_state_view(out) == self.entered(view_state@, data@),
    ;

    fn get_copy_content(&self, view_state: &ViewState, data: &ResourceData) -> (out: Option<
        (String, String),
    >)
        ensures
            opt_pair_view(out) == self.copy_content(view_state@, data@),
    ;

    fn matches_filter(&self, item: &ResourceItem, filter: &str) -> (out: bool)
        ensures
            out == self.matches(item@, filter@),
    ;

    /// The items of `data` that `filter` leaves: all of them under the empty
    /// filter, else those that match it, in their order.
    fn filter_data<'a>(&self, data: &'a ResourceData, filter: &str) -> (out: Vec<&'a ResourceItem>)
        ensures
            refs_view(out@) == narrowed(
                data@,
                filter@,
                |item: ResourceItemView| self.matches(item, filter@),
            ),
    {
        let ghost keep = |item: ResourceItemView| self.matches(item, filter@);
        let keep_all = filter.is_empty();
        let mut out: Vec<&'a ResourceItem> = Vec::new();
        let mut i: usize = 0;
        while i < data.items.len()
            invariant
                i <= data.items.len(),
                keep_all == (filter@.len() == 0),
                keep == (|item: ResourceItemView| self.matches(item, filter@)),
                keep_all ==> refs_view(out@) == data@.take(i as int),
                !keep_all ==> refs_view(out@) == data@.take(i as int).filter(keep),
            decreases data.items.len() - i,
        {
            let item = &data.items[i];
            let ghost seen = data@.take(i as int);
            proof {
                assert(data@.take(i + 1) =~= seen.push(item@));
                seen.lemma_filter_push(item@, keep);
            }
            if keep_all || self.matches_filter(item, filter) {
                out.push(item);
            }
            i += 1;
        }
        assert(data@.take(data.items.len() as int) =~= data@);
        out
    }
}

/// The items of `data` that `filter` leaves on `service`: all of them under
/// the empty filter, else those that match it, in their order.
pub open spec fn visible<S: AwsService>(
    service: &S,
    data: Seq<ResourceItemView>,
    filter: Seq<char>,
) -> Seq<ResourceItemView> {
    narrowed(data, filter, |item: ResourceItemView| service.matches(item, filter))
}

/// The filtered view of `data` on `service`.
pub fn visible_items<'a, S: AwsService>(service: &S, data: &'a ResourceData, filter: &str) -> (out:
    Vec<&'a ResourceItem>)
    ensures
        refs_view(out@) == visible(service, data@, filter@),
{
    service.filter_data(data, filter)
}

} // verus!
