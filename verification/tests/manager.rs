use ats::services::ecr::{ECRRepository, ECRService};
use ats::services::manager::ServiceManager;
use ats::services::traits::{
    AwsService, LoadRequest, LoadRequestView, ResourceData, ResourceItem, ResourceItemView,
    ServiceId, ServiceMetadata, ServiceMetadataView, ViewState, ViewStateView,
};
use ats::ui::widgets::{Content, ContentView};
use vstd::seq::Seq;

/// A registry service under another id and command alias.
#[derive(Debug, Clone)]
struct Named {
    id: &'static str,
    command: &'static str,
    inner: ECRService,
}

impl Named {
    fn new(id: &'static str, command: &'static str) -> Named {
        Named { id, command, inner: ECRService::new() }
    }
}

impl AwsService for Named {
    fn spec_metadata(&self) -> ServiceMetadataView {
        unreachable!()
    }

    fn request_for(&self, _: ViewStateView) -> LoadRequestView {
        unreachable!()
    }

    fn loaded(&self, _: ViewStateView, _: Seq<ResourceItemView>) -> Seq<ResourceItemView> {
        unreachable!()
    }

    fn rendered(&self, _: bool, _: ViewStateView, _: Seq<ResourceItemView>) -> ContentView {
        unreachable!()
    }

    fn entered(&self, _: ViewStateView, _: Seq<ResourceItemView>) -> Option<ViewStateView> {
        unreachable!()
    }

    fn copy_content(
        &self,
        _: ViewStateView,
        _: Seq<ResourceItemView>,
    ) -> Option<(Seq<char>, Seq<char>)> {
        unreachable!()
    }

    fn matches(&self, _: ResourceItemView, _: Seq<char>) -> bool {
        unreachable!()
    }

    fn law_enter_needs_selection(&self, _: ViewStateView, _: Seq<ResourceItemView>) {}

    fn law_enter_keeps_service(&self, _: ViewStateView, _: Seq<ResourceItemView>) {}

    fn law_render_states(
        &self,
        _: bool,
        _: ViewStateView,
        _: Seq<ResourceItemView>,
        _: ViewStateView,
        _: Seq<ResourceItemView>,
    ) {
    }

    fn law_copy_needs_selection(&self, _: ViewStateView, _: Seq<ResourceItemView>) {}

    fn law_load_ignores_selection(
        &self,
        _: ViewStateView,
        _: ViewStateView,
        _: Seq<ResourceItemView>,
    ) {
    }

    fn metadata(&self) -> ServiceMetadata {
        ServiceMetadata {
            id: self.id.to_string(),
            name: format!("{} service", self.id),
            description: String::new(),
            command: self.command.to_string(),
        }
    }

    fn load_request(&self, view_state: &ViewState) -> LoadRequest {
        self.inner.load_request(view_state)
    }

    fn load_data(&self, view_state: &ViewState, fetched: Vec<ResourceItem>) -> ResourceData {
        self.inner.load_data(view_state, fetched)
    }

    fn render(&self, loading: bool, view_state: &ViewState, data: &ResourceData) -> Content {
        self.inner.render(loading, view_state, data)
    }

    fn handle_enter(&self, view_state: &ViewState, data: &ResourceData) -> Option<ViewState> {
        self.inner.handle_enter(view_state, data)
    }

    fn get_copy_content(
        &self,
        view_state: &ViewState,
        data: &ResourceData,
    ) -> Option<(String, String)> {
        self.inner.get_copy_content(view_state, data)
    }

    fn matches_filter(&self, item: &ResourceItem, filter: &str) -> bool {
        self.inner.matches_filter(item, filter)
    }
}

fn data_of(names: &[&str]) -> ResourceData {
    ResourceData {
        items: names
            .iter()
            .map(|name| {
                ResourceItem::Repository(ECRRepository::from_parts(
                    Some(name),
                    None,
                    None,
                    None,
                    None,
                    None,
                    None,
                ))
            })
            .collect(),
    }
}

fn names(data: &ResourceData) -> Vec<String> {
    data.items.iter().map(|item| item.id()).collect()
}

#[test]
fn new_manager_is_empty() {
    let manager: ServiceManager<ECRService> = ServiceManager::new();
    assert!(manager.list_services().is_empty());
    assert!(manager.get_service_metadata().is_empty());
    assert!(!manager.has_service(&ServiceId::new("ecr")));
    assert!(manager.get_service(&ServiceId::new("ecr")).is_none());
    assert!(manager.get_service_data(&ServiceId::new("ecr")).is_none());
    assert!(manager.get_service_by_command("ecr").is_none());
    let other: ServiceManager<ECRService> = ServiceManager::default();
    assert!(other.list_services().is_empty());
}

#[test]
fn register_and_look_up() {
    let mut manager: ServiceManager<Named> = ServiceManager::new();
    manager.register_service(Named::new("repos", "r"));
    manager.register_service(Named::new("images", "i"));
    assert!(manager.has_service(&ServiceId::new("repos")));
    assert!(manager.has_service(&ServiceId::new("images")));
    assert!(!manager.has_service(&ServiceId::new("Repos")));
    assert_eq!(manager.get_service(&ServiceId::new("images")).unwrap().command, "i");
    assert_eq!(manager.list_services(), vec![ServiceId::new("repos"), ServiceId::new("images")]);
    let metadata = manager.get_service_metadata();
    assert_eq!(metadata.len(), 2);
    assert_eq!(metadata[0].id, "repos");
    assert_eq!(metadata[0].name, "repos service");
    assert_eq!(metadata[1].command, "i");
    assert_eq!(metadata[1].clone().id, "images");
}

#[test]
fn registering_an_id_again_replaces_the_service_in_place() {
    let mut manager: ServiceManager<Named> = ServiceManager::new();
    manager.register_service(Named::new("repos", "r"));
    manager.register_service(Named::new("images", "i"));
    manager.register_service(Named::new("repos", "repos"));
    assert_eq!(manager.list_services(), vec![ServiceId::new("repos"), ServiceId::new("images")]);
    assert_eq!(manager.get_service(&ServiceId::new("repos")).unwrap().command, "repos");
    assert!(manager.get_service_by_command("r").is_none());
}

#[test]
fn command_lookup_takes_the_first_match() {
    let mut manager: ServiceManager<Named> = ServiceManager::new();
    manager.register_service(Named::new("first", "x"));
    manager.register_service(Named::new("second", "go"));
    manager.register_service(Named::new("third", "go"));
    let (id, service) = manager.get_service_by_command("go").unwrap();
    assert_eq!(*id, ServiceId::new("second"));
    assert_eq!(service.id, "second");
    let (id, _) = manager.get_service_by_command("x").unwrap();
    assert_eq!(id.as_str(), "first");
    assert!(manager.get_service_by_command("GO").is_none());
    assert!(manager.get_service_by_command("").is_none());
}

#[test]
fn one_cache_entry_per_service() {
    let mut manager: ServiceManager<Named> = ServiceManager::new();
    manager.register_service(Named::new("repos", "r"));
    manager.register_service(Named::new("images", "i"));
    let repos = ServiceId::new("repos");
    let images = ServiceId::new("images");
    manager.store_service_data(&repos, data_of(&["a", "b"]));
    manager.store_service_data(&images, data_of(&["x"]));
    assert_eq!(names(manager.get_service_data(&repos).unwrap()), vec!["a", "b"]);
    assert_eq!(names(manager.get_service_data(&images).unwrap()), vec!["x"]);
    manager.store_service_data(&repos, data_of(&["c"]));
    assert_eq!(names(manager.get_service_data(&repos).unwrap()), vec!["c"]);
    assert_eq!(names(manager.get_service_data(&images).unwrap()), vec!["x"]);
    manager.clear_service_data(&repos);
    assert!(manager.get_service_data(&repos).is_none());
    assert_eq!(names(manager.get_service_data(&images).unwrap()), vec!["x"]);
    manager.clear_service_data(&repos);
    assert!(manager.get_service_data(&repos).is_none());
    assert!(manager.has_service(&repos));
}

#[test]
fn nothing_is_cached_for_an_unregistered_service() {
    let mut manager: ServiceManager<Named> = ServiceManager::new();
    manager.register_service(Named::new("repos", "r"));
    manager.store_service_data(&ServiceId::new("images"), data_of(&["x"]));
    assert!(manager.get_service_data(&ServiceId::new("images")).is_none());
    assert!(manager.get_service_data(&ServiceId::new("repos")).is_none());
}

#[test]
fn empty_data_is_a_valid_cache_entry() {
    let mut manager: ServiceManager<Named> = ServiceManager::new();
    manager.register_service(Named::new("repos", "r"));
    manager.store_service_data(&ServiceId::new("repos"), data_of(&[]));
    assert!(manager.get_service_data(&ServiceId::new("repos")).unwrap().items.is_empty());
}
