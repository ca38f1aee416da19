use ats::services::ecr::{
    format_date, make_image_copy, make_listing_title, make_scan_summary, make_short_digest,
    sort_newest_first, date_or_unknown, ECRImage, ECRRepository, ECRService, ScanFindings,
    Timestamp,
};
use ats::services::traits::{
    AwsService, LoadRequest, ResourceData, ResourceItem, ServiceId, ViewState, ViewType,
};
use ats::ui::widgets::{Color, Content, TableCell};

fn repository(name: &str, created: Option<i64>) -> ECRRepository {
    let uri = format!("123456789012.dkr.ecr.us-east-1.amazonaws.com/{}", name);
    ECRRepository::from_parts(
        Some(name),
        Some(uri.as_str()),
        Some("123456789012"),
        created.map(|secs| Timestamp { secs, nanos: 0 }),
        Some("IMMUTABLE"),
        Some(true),
        Some("KMS"),
    )
}

fn tagged(tag: &str, digest: &str, pushed: Option<(i64, u32)>) -> ECRImage {
    ECRImage::from_parts(
        &vec![tag.to_string()],
        Some(digest),
        pushed.map(|(secs, nanos)| Timestamp { secs, nanos }),
        Some(52_428_800),
        &ScanFindings::Counts(vec![0, 2, 1]),
    )
}

fn untagged(digest: &str, pushed: Option<(i64, u32)>) -> ECRImage {
    ECRImage::from_parts(
        &Vec::new(),
        Some(digest),
        pushed.map(|(secs, nanos)| Timestamp { secs, nanos }),
        None,
        &ScanFindings::NotScanned,
    )
}

fn list_view() -> ViewState {
    ViewState::new(ServiceId::new("ecr"), ViewType::List)
}

fn detail_view(context: Option<&str>) -> ViewState {
    let mut view = ViewState::new(ServiceId::new("ecr"), ViewType::Detail);
    view.context = context.map(|c| c.to_string());
    view
}

fn cell_text(cell: &TableCell) -> String {
    match cell {
        TableCell::Text(text) => text.clone(),
        TableCell::Megabytes(bytes) => format!("{} bytes", bytes),
    }
}

#[test]
fn metadata_names_the_registry() {
    let metadata = ECRService::new().metadata();
    assert_eq!(metadata.id, "ecr");
    assert_eq!(metadata.name, "Elastic Container Registry");
    assert_eq!(metadata.description, "AWS Container Registry for Docker images");
    assert_eq!(metadata.command, "ecr");
}

#[test]
fn view_state_new_starts_at_the_top_without_filter() {
    let view = ViewState::new(ServiceId::new("ecr"), ViewType::Custom("x".to_string()));
    assert_eq!(view.service_id, ServiceId::new("ecr"));
    assert_eq!(view.view_type, ViewType::Custom("x".to_string()));
    assert_ne!(view.view_type, ViewType::Custom("y".to_string()));
    assert_ne!(view.view_type, ViewType::List);
    assert_eq!(view.selected_index, 0);
    assert_eq!(view.search_filter, "");
    assert_eq!(view.context, None);
    let copy = view.clone();
    assert_eq!(copy.view_type, view.view_type);
    assert_eq!(copy.service_id.as_str(), "ecr");
}

#[test]
fn service_id_compares_by_text() {
    assert_eq!(ServiceId::new("ecr"), ServiceId::new("ecr"));
    assert_ne!(ServiceId::new("ecr"), ServiceId::new("ecs"));
    assert_eq!(ServiceId::new("registry-repos").to_string(), "registry-repos");
    assert_eq!(ServiceId::new("ecr").clone(), ServiceId::new("ecr"));
}

#[test]
fn resource_items_have_their_ids() {
    let repo = ResourceItem::Repository(repository("web", None));
    let image = ResourceItem::Image(tagged("v1", "sha256:abc", None));
    assert_eq!(repo.id(), "web");
    assert_eq!(image.id(), "sha256:abc");
    assert!(repo.as_repository().is_some());
    assert!(repo.as_image().is_none());
    assert!(image.as_image().is_some());
    assert!(image.as_repository().is_none());
    assert_eq!(repo.clone().id(), "web");
}

#[test]
fn repository_defaults() {
    let repo = ECRRepository::from_parts(None, None, None, None, None, None, None);
    assert_eq!(repo.repository_name, "");
    assert_eq!(repo.repository_uri, "");
    assert_eq!(repo.registry_id, "");
    assert_eq!(repo.created_at, None);
    assert_eq!(repo.image_tag_mutability, "MUTABLE");
    assert!(!repo.image_scanning_configuration);
    assert_eq!(repo.encryption_configuration, "AES256");
    let full = repository("web", Some(5));
    assert_eq!(full.image_tag_mutability, "IMMUTABLE");
    assert!(full.image_scanning_configuration);
    assert_eq!(full.encryption_configuration, "KMS");
    assert_eq!(full.created_at, Some(Timestamp { secs: 5, nanos: 0 }));
    assert_eq!(full.id(), "web");
}

#[test]
fn image_takes_its_first_tag_and_summarises_the_scan() {
    let image = ECRImage::from_parts(
        &vec!["latest".to_string(), "v2".to_string()],
        None,
        None,
        Some(7),
        &ScanFindings::Pending,
    );
    assert_eq!(image.image_tag.as_deref(), Some("latest"));
    assert_eq!(image.image_digest, "");
    assert_eq!(image.image_size_in_bytes, Some(7));
    assert_eq!(image.vulnerability_scan_summary.as_deref(), Some("Scan pending"));
    assert_eq!(untagged("sha256:1", None).image_tag, None);
    assert_eq!(untagged("sha256:1", None).vulnerability_scan_summary, None);
}

#[test]
fn scan_summary_counts_all_severities() {
    assert_eq!(make_scan_summary(&ScanFindings::NotScanned), None);
    assert_eq!(make_scan_summary(&ScanFindings::Pending).as_deref(), Some("Scan pending"));
    assert_eq!(
        make_scan_summary(&ScanFindings::Counts(vec![3, 10, 0])).as_deref(),
        Some("13 findings")
    );
    assert_eq!(
        make_scan_summary(&ScanFindings::Counts(vec![1])).as_deref(),
        Some("1 findings")
    );
    assert_eq!(
        make_scan_summary(&ScanFindings::Counts(Vec::new())).as_deref(),
        Some("No vulnerabilities")
    );
    assert_eq!(
        make_scan_summary(&ScanFindings::Counts(vec![0, 0])).as_deref(),
        Some("No vulnerabilities")
    );
    assert_eq!(
        make_scan_summary(&ScanFindings::Counts(vec![i32::MAX, i32::MAX])).as_deref(),
        Some("4294967294 findings")
    );
    assert_eq!(
        make_scan_summary(&ScanFindings::Counts(vec![-5, 2])).as_deref(),
        Some("No vulnerabilities")
    );
}

#[test]
fn filter_ignores_case() {
    let service = ECRService::new();
    let repo = ResourceItem::Repository(repository("Web-Service", None));
    assert!(service.matches_filter(&repo, "web"));
    assert!(service.matches_filter(&repo, "WEB-SERV"));
    assert!(service.matches_filter(&repo, "b-s"));
    assert!(service.matches_filter(&repo, ""));
    assert!(!service.matches_filter(&repo, "api"));
    assert!(!service.matches_filter(&repo, "web-service-x"));
}

#[test]
fn images_are_filtered_by_tag() {
    let service = ECRService::new();
    let image = ResourceItem::Image(tagged("Release-1.2", "sha256:feed", None));
    assert!(service.matches_filter(&image, "release"));
    assert!(service.matches_filter(&image, "1.2"));
    assert!(!service.matches_filter(&image, "feed"));
    let bare = ResourceItem::Image(untagged("sha256:feed", None));
    assert!(!service.matches_filter(&bare, "feed"));
    assert!(!service.matches_filter(&bare, ""));
}

#[test]
fn filter_data_keeps_order_and_is_identity_when_empty() {
    let service = ECRService::new();
    let data = ResourceData {
        items: vec![
            ResourceItem::Repository(repository("api-service", None)),
            ResourceItem::Repository(repository("web-service", None)),
            ResourceItem::Repository(repository("db-service", None)),
            ResourceItem::Image(untagged("sha256:1", None)),
        ],
    };
    let all: Vec<String> = service.filter_data(&data, "").iter().map(|i| i.id()).collect();
    assert_eq!(all, vec!["api-service", "web-service", "db-service", "sha256:1"]);
    let some: Vec<String> = service.filter_data(&data, "B-SERVICE").iter().map(|i| i.id()).collect();
    assert_eq!(some, vec!["web-service", "db-service"]);
    assert!(service.filter_data(&data, "nothing").is_empty());
    assert_eq!(data.clone().items.len(), 4);
}

#[test]
fn load_request_follows_view_type_and_context() {
    let service = ECRService::new();
    assert!(matches!(service.load_request(&list_view()), LoadRequest::TopLevel));
    match service.load_request(&detail_view(Some("web|example.com/web"))) {
        LoadRequest::Children(parent) => assert_eq!(parent, "web"),
        other => panic!("unexpected {:?}", other),
    }
    match service.load_request(&detail_view(Some("plain"))) {
        LoadRequest::Children(parent) => assert_eq!(parent, "plain"),
        other => panic!("unexpected {:?}", other),
    }
    match service.load_request(&detail_view(Some("|uri"))) {
        LoadRequest::Children(parent) => assert_eq!(parent, ""),
        other => panic!("unexpected {:?}", other),
    }
    assert!(matches!(service.load_request(&detail_view(None)), LoadRequest::Nothing));
    let custom = ViewState::new(ServiceId::new("ecr"), ViewType::Custom("x".to_string()));
    assert!(matches!(service.load_request(&custom), LoadRequest::Nothing));
}

#[test]
fn load_data_sorts_images_newest_first() {
    let service = ECRService::new();
    let fetched = vec![
        ResourceItem::Image(untagged("none-1", None)),
        ResourceItem::Image(untagged("old", Some((100, 0)))),
        ResourceItem::Image(untagged("new", Some((300, 0)))),
        ResourceItem::Image(untagged("none-2", None)),
        ResourceItem::Image(untagged("mid-a", Some((200, 5)))),
        ResourceItem::Image(untagged("mid-b", Some((200, 5)))),
        ResourceItem::Image(untagged("mid-early", Some((200, 4)))),
    ];
    let data = service.load_data(&detail_view(Some("web|uri")), fetched);
    let order: Vec<String> = data.items.iter().map(|i| i.id()).collect();
    assert_eq!(order, vec!["new", "mid-a", "mid-b", "mid-early", "old", "none-1", "none-2"]);
}

#[test]
fn load_data_keeps_the_list_as_fetched() {
    let service = ECRService::new();
    let fetched = vec![
        ResourceItem::Repository(repository("b", Some(1))),
        ResourceItem::Repository(repository("a", Some(2))),
    ];
    let data = service.load_data(&list_view(), fetched);
    let order: Vec<String> = data.items.iter().map(|i| i.id()).collect();
    assert_eq!(order, vec!["b", "a"]);
    let none = service.load_data(&detail_view(None), vec![ResourceItem::Image(untagged("x", None))]);
    assert!(none.items.is_empty());
    let custom = ViewState::new(ServiceId::new("ecr"), ViewType::Custom("x".to_string()));
    assert!(service.load_data(&custom, vec![ResourceItem::Image(untagged("x", None))]).items.is_empty());
    assert!(service.load_data(&list_view(), Vec::new()).items.is_empty());
}

#[test]
fn sort_is_stable_and_handles_the_empty_list() {
    assert!(sort_newest_first(Vec::new()).is_empty());
    let sorted = sort_newest_first(vec![
        ResourceItem::Repository(repository("r1", None)),
        ResourceItem::Image(untagged("i", Some((-5, 0)))),
        ResourceItem::Repository(repository("r2", None)),
        ResourceItem::Image(untagged("j", Some((-5, 1)))),
    ]);
    let order: Vec<String> = sorted.iter().map(|i| i.id()).collect();
    assert_eq!(order, vec!["j", "i", "r1", "r2"]);
}

#[test]
fn timestamps_order_by_seconds_then_nanoseconds() {
    let a = Timestamp { secs: 10, nanos: 5 };
    assert!(a.after(&Timestamp { secs: 9, nanos: 999 }));
    assert!(a.after(&Timestamp { secs: 10, nanos: 4 }));
    assert!(!a.after(&a));
    assert!(!a.after(&Timestamp { secs: 10, nanos: 6 }));
    assert!(!a.after(&Timestamp { secs: 11, nanos: 0 }));
}

#[test]
fn handle_enter_opens_the_images_of_the_selected_repository() {
    let service = ECRService::new();
    let data = ResourceData {
        items: vec![
            ResourceItem::Repository(repository("api", None)),
            ResourceItem::Repository(repository("web", None)),
        ],
    };
    let mut view = list_view();
    view.selected_index = 1;
    let next = service.handle_enter(&view, &data).expect("a repository is selected");
    assert_eq!(next.service_id, ServiceId::new("ecr"));
    assert_eq!(next.view_type, ViewType::Detail);
    assert_eq!(next.selected_index, 0);
    assert_eq!(next.search_filter, "");
    assert_eq!(
        next.context.as_deref(),
        Some("web|123456789012.dkr.ecr.us-east-1.amazonaws.com/web")
    );
    view.selected_index = 2;
    assert!(service.handle_enter(&view, &data).is_none());
    view.selected_index = 0;
    view.search_filter = "web".to_string();
    let next = service.handle_enter(&view, &data).unwrap();
    assert!(next.context.unwrap().starts_with("web|"));
    assert!(service.handle_enter(&detail_view(Some("web|uri")), &data).is_none());
    let images = ResourceData { items: vec![ResourceItem::Image(untagged("x", None))] };
    assert!(service.handle_enter(&list_view(), &images).is_none());
}

#[test]
fn copy_of_a_repository_is_its_uri() {
    let service = ECRService::new();
    let data = ResourceData { items: vec![ResourceItem::Repository(repository("web", None))] };
    let (content, label) = service.get_copy_content(&list_view(), &data).unwrap();
    assert_eq!(content, "123456789012.dkr.ecr.us-east-1.amazonaws.com/web");
    assert_eq!(label, "web");
    let mut view = list_view();
    view.selected_index = 1;
    assert!(service.get_copy_content(&view, &data).is_none());
    assert!(service.get_copy_content(&detail_view(Some("web|uri")), &data).is_none());
    let custom = ViewState::new(ServiceId::new("ecr"), ViewType::Custom("x".to_string()));
    assert!(service.get_copy_content(&custom, &data).is_none());
}

#[test]
fn copy_of_an_image_is_its_reference() {
    let service = ECRService::new();
    let digest = "sha256:0123456789abcdef0123456789abcdef0123456789abcdef0123456789abcdef";
    let data = ResourceData {
        items: vec![
            ResourceItem::Image(tagged("v1", digest, None)),
            ResourceItem::Image(untagged(digest, None)),
        ],
    };
    let mut view = detail_view(Some("web|example.com/web"));
    let (content, label) = service.get_copy_content(&view, &data).unwrap();
    assert_eq!(content, "example.com/web:v1");
    assert_eq!(label, "web:v1");
    view.selected_index = 1;
    let (content, label) = service.get_copy_content(&view, &data).unwrap();
    assert_eq!(content, format!("example.com/web@{}", digest));
    assert_eq!(label, "web@sha256:0123456789abcdef0123456789abc...");
    assert!(service.get_copy_content(&detail_view(None), &data).is_none());
    assert!(service.get_copy_content(&list_view(), &data).is_none());
}

#[test]
fn copy_of_an_image_without_uri_in_the_context() {
    let image = tagged("v1", "sha256:aa", None);
    let (content, label) = make_image_copy(&image, "web");
    assert_eq!(content, "unknown.dkr.ecr.region.amazonaws.com:v1");
    assert_eq!(label, "web:v1");
    let (content, label) = make_image_copy(&image, "web|uri|more");
    assert_eq!(content, "uri:v1");
    assert_eq!(label, "web:v1");
    let (content, label) = make_image_copy(&untagged("sha256:aa", None), "web|");
    assert_eq!(content, "@sha256:aa");
    assert_eq!(label, "web@sha256:aa");
}

#[test]
fn digest_is_cut_after_thirty_six_bytes() {
    assert_eq!(make_short_digest(""), "");
    let exact = "a".repeat(36);
    assert_eq!(make_short_digest(&exact), exact);
    let longer = "a".repeat(37);
    assert_eq!(make_short_digest(&longer), format!("{}...", exact));
    let wide = format!("{}\u{e9}tail", "a".repeat(35));
    assert_eq!(make_short_digest(&wide), wide);
    let fits = format!("{}\u{e9}tail", "a".repeat(34));
    assert_eq!(make_short_digest(&fits), format!("{}\u{e9}...", "a".repeat(34)));
}

#[test]
fn dates_are_shown_to_the_minute_in_utc() {
    assert_eq!(format_date(Some(Timestamp { secs: 0, nanos: 0 })), "1970-01-01 00:00");
    assert_eq!(
        format_date(Some(Timestamp { secs: 1_431_648_000, nanos: 999_999_999 })),
        "2015-05-15 00:00"
    );
    assert_eq!(format_date(Some(Timestamp { secs: 1_700_000_000, nanos: 0 })), "2023-11-14 22:13");
    assert_eq!(format_date(Some(Timestamp { secs: -1, nanos: 0 })), "1969-12-31 23:59");
    assert_eq!(format_date(None), "Unknown");
    assert_eq!(format_date(Some(Timestamp { secs: i64::MAX, nanos: 0 })), "Unknown");
    assert_eq!(format_date(Some(Timestamp { secs: 0, nanos: 2_000_000_000 })), "Unknown");
    assert_eq!(date_or_unknown(None), "Unknown");
    assert_eq!(date_or_unknown(Some("2024-01-31 09:05".to_string())), "2024-01-31 09:05");
}

#[test]
fn listing_titles() {
    assert_eq!(
        make_listing_title("ECR Repositories".to_string(), true, "x", 1, 2),
        "ECR Repositories (Loading...)"
    );
    assert_eq!(
        make_listing_title("ECR Repositories".to_string(), false, "", 12, 12),
        "ECR Repositories (12)"
    );
    assert_eq!(
        make_listing_title("ECR Repositories".to_string(), false, "web", 1, 103),
        "ECR Repositories (1/103) - Filter: web"
    );
    assert_eq!(make_listing_title("T".to_string(), false, "", 0, 0), "T (0)");
}

#[test]
fn repository_table() {
    let service = ECRService::new();
    let data = ResourceData {
        items: vec![
            ResourceItem::Repository(repository("api", Some(1_700_000_000))),
            ResourceItem::Repository(ECRRepository::from_parts(
                Some("web"),
                None,
                Some("42"),
                None,
                None,
                None,
                None,
            )),
        ],
    };
    let mut view = list_view();
    view.selected_index = 1;
    match service.render(false, &view, &data) {
        Content::Table(table) => {
            assert_eq!(table.title, "ECR Repositories (2)");
            assert_eq!(
                table.header,
                vec![
                    "REPOSITORY NAME",
                    "REGISTRY ID",
                    "CREATED",
                    "TAG MUTABILITY",
                    "SCAN ON PUSH",
                    "ENCRYPTION"
                ]
            );
            assert_eq!(table.widths, vec![30, 15, 20, 16, 12, 12]);
            assert_eq!(table.header_style.fg, Some(Color::Yellow));
            assert!(table.header_style.bold);
            assert_eq!(table.highlight_style.bg, Some(Color::Blue));
            assert_eq!(table.highlight_style.fg, Some(Color::White));
            assert_eq!(table.rows.len(), 2);
            let first: Vec<String> = table.rows[0].cells.iter().map(cell_text).collect();
            assert_eq!(
                first,
                vec!["api", "123456789012", "2023-11-14 22:13", "IMMUTABLE", "Yes", "KMS"]
            );
            let second: Vec<String> = table.rows[1].cells.iter().map(cell_text).collect();
            assert_eq!(second, vec!["web", "42", "Unknown", "MUTABLE", "No", "AES256"]);
            assert_eq!(table.rows[0].style.bg, None);
            assert_eq!(table.rows[0].style.fg, None);
            assert_eq!(table.rows[1].style.bg, Some(Color::Yellow));
            assert_eq!(table.rows[1].style.fg, Some(Color::Black));
        }
        other => panic!("expected a table, got {:?}", other),
    }
}

#[test]
fn repository_table_while_loading_and_filtered() {
    let service = ECRService::new();
    let data = ResourceData {
        items: vec![
            ResourceItem::Repository(repository("api", None)),
            ResourceItem::Repository(repository("web", None)),
        ],
    };
    let mut view = list_view();
    view.search_filter = "WEB".to_string();
    match service.render(false, &view, &data) {
        Content::Table(table) => {
            assert_eq!(table.title, "ECR Repositories (1/2) - Filter: WEB");
            assert_eq!(table.rows.len(), 1);
            assert_eq!(cell_text(&table.rows[0].cells[0]), "web");
            assert_eq!(table.rows[0].style.bg, Some(Color::Yellow));
        }
        other => panic!("expected a table, got {:?}", other),
    }
    match service.render(true, &view, &data) {
        Content::Table(table) => assert_eq!(table.title, "ECR Repositories (Loading...)"),
        other => panic!("expected a table, got {:?}", other),
    }
    let empty = ResourceData { items: Vec::new() };
    match service.render(true, &list_view(), &empty) {
        Content::Notice(notice) => {
            assert_eq!(notice.title, "ECR Repositories (Loading...)");
            assert_eq!(notice.message, "Loading ECR repositories...");
            assert_eq!(notice.style.fg, Some(Color::Gray));
        }
        other => panic!("expected a notice, got {:?}", other),
    }
}

#[test]
fn image_table() {
    let service = ECRService::new();
    let data = ResourceData {
        items: vec![
            ResourceItem::Image(tagged("v1", "sha256:aa", Some((0, 0)))),
            ResourceItem::Image(untagged("sha256:bb", None)),
        ],
    };
    let view = detail_view(Some("web|example.com/web"));
    match service.render(false, &view, &data) {
        Content::Table(table) => {
            assert_eq!(table.title, "ECR Repositories: web > ECR Images (2)");
            assert_eq!(
                table.header,
                vec!["IMAGE TAG", "DIGEST", "PUSHED AT", "SIZE", "VULNERABILITIES"]
            );
            assert_eq!(table.widths, vec![25, 30, 20, 12, 20]);
            assert_eq!(table.rows.len(), 2);
            let first = &table.rows[0];
            assert_eq!(cell_text(&first.cells[0]), "v1");
            assert_eq!(cell_text(&first.cells[1]), "sha256:aa");
            assert_eq!(cell_text(&first.cells[2]), "1970-01-01 00:00");
            assert!(matches!(first.cells[3], TableCell::Megabytes(52_428_800)));
            assert_eq!(cell_text(&first.cells[4]), "3 findings");
            assert_eq!(first.style.bg, Some(Color::Yellow));
            let second: Vec<String> = table.rows[1].cells.iter().map(cell_text).collect();
            assert_eq!(second, vec!["<none>", "sha256:bb", "Unknown", "Unknown", "Not scanned"]);
            assert_eq!(table.rows[1].style.bg, None);
        }
        other => panic!("expected a table, got {:?}", other),
    }
}

#[test]
fn image_listing_notices() {
    let service = ECRService::new();
    let empty = ResourceData { items: Vec::new() };
    match service.render(false, &detail_view(None), &empty) {
        Content::Notice(notice) => {
            assert_eq!(notice.title, "ECR Repositories: Unknown > ECR Images (0)");
            assert_eq!(notice.message, "No ECR images found");
        }
        other => panic!("expected a notice, got {:?}", other),
    }
    let mut view = detail_view(Some("web|uri"));
    view.search_filter = "v9".to_string();
    let data = ResourceData { items: vec![ResourceItem::Image(tagged("v1", "d", None))] };
    match service.render(false, &view, &data) {
        Content::Notice(notice) => {
            assert_eq!(notice.title, "ECR Repositories: web > ECR Images (0/1) - Filter: v9");
            assert_eq!(notice.message, "No images match the current filter");
        }
        other => panic!("expected a notice, got {:?}", other),
    }
    match service.render(true, &view, &data) {
        Content::Notice(notice) => assert_eq!(notice.message, "Loading ECR images..."),
        other => panic!("expected a notice, got {:?}", other),
    }
    let custom = ViewState::new(ServiceId::new("ecr"), ViewType::Custom("x".to_string()));
    assert!(matches!(service.render(false, &custom, &data), Content::Blank));
}

#[test]
fn rows_of_the_other_kind_are_left_out_but_counted_for_the_highlight() {
    let service = ECRService::new();
    let data = ResourceData {
        items: vec![
            ResourceItem::Image(untagged("sha256:1", None)),
            ResourceItem::Repository(repository("web", None)),
        ],
    };
    let mut view = list_view();
    view.selected_index = 1;
    match service.render(false, &view, &data) {
        Content::Table(table) => {
            assert_eq!(table.title, "ECR Repositories (2)");
            assert_eq!(table.rows.len(), 1);
            assert_eq!(cell_text(&table.rows[0].cells[0]), "web");
            assert_eq!(table.rows[0].style.bg, Some(Color::Yellow));
        }
        other => panic!("expected a table, got {:?}", other),
    }
}

#[test]
fn empty_data_shows_the_no_data_message_whatever_the_filter() {
    let service = ECRService::new();
    let empty = ResourceData { items: Vec::new() };
    let mut list = list_view();
    list.search_filter = "web".to_string();
    match service.render(false, &list, &empty) {
        Content::Notice(notice) => {
            assert_eq!(notice.message, "No ECR repositories found");
            assert_eq!(notice.title, "ECR Repositories (0/0) - Filter: web");
        }
        other => panic!("expected a notice, got {:?}", other),
    }
    match service.render(false, &list_view(), &empty) {
        Content::Notice(notice) => assert_eq!(notice.message, "No ECR repositories found"),
        other => panic!("expected a notice, got {:?}", other),
    }
    let mut detail = detail_view(Some("web|uri"));
    detail.search_filter = "v1".to_string();
    match service.render(false, &detail, &empty) {
        Content::Notice(notice) => {
            assert_eq!(notice.message, "No ECR images found");
            assert_eq!(notice.title, "ECR Repositories: web > ECR Images (0/0) - Filter: v1");
        }
        other => panic!("expected a notice, got {:?}", other),
    }
    match service.render(true, &detail, &empty) {
        Content::Notice(notice) => assert_eq!(notice.message, "Loading ECR images..."),
        other => panic!("expected a notice, got {:?}", other),
    }
}

#[test]
fn filter_message_only_where_data_is_there_and_none_matches() {
    let service = ECRService::new();
    let data = ResourceData { items: vec![ResourceItem::Repository(repository("api", None))] };
    let mut list = list_view();
    list.search_filter = "web".to_string();
    match service.render(false, &list, &data) {
        Content::Notice(notice) => {
            assert_eq!(notice.message, "No repositories match the current filter");
            assert_eq!(notice.title, "ECR Repositories (0/1) - Filter: web");
        }
        other => panic!("expected a notice, got {:?}", other),
    }
    let images = ResourceData { items: vec![ResourceItem::Image(untagged("sha256:1", None))] };
    let mut detail = detail_view(Some("web|uri"));
    detail.search_filter = "v1".to_string();
    match service.render(false, &detail, &images) {
        Content::Notice(notice) => {
            assert_eq!(notice.message, "No images match the current filter")
        }
        other => panic!("expected a notice, got {:?}", other),
    }
}
