use hb_api::digest::sha1_digest;
use hb_api::filename::{file_name_for, file_name_from_path, last_path_segment};
use hb_api::integrity::check_data_validity;
use hb_api::pipeline::{accept_download, needs_fetch, resolve_local_copy, Action, LocalCopy, Progress};
use hb_api::{ApiError, Download, DownloadStruct, HBClient, Order, Settings, Subproduct, Url};

const GAME: &[u8] = b"linux game archive bytes";

fn client(platforms: &[&str]) -> HBClient {
    HBClient::new(
        String::from("downloads"),
        vec![(String::from("cookie"), String::from("session=1"))],
        platforms.iter().map(|p| p.to_string()).collect(),
    )
}

fn variant(url: Option<&str>, sha1: Option<String>) -> DownloadStruct {
    DownloadStruct { sha1, url: url.map(|u| Url { web: u.to_string() }), md5: None }
}

fn linux_order() -> Order {
    Order {
        subproducts: vec![Subproduct {
            downloads: vec![Download {
                platform: String::from("linux"),
                download_struct: vec![variant(
                    Some("https://cdn.example/game-linux.tar.gz"),
                    Some(sha1_digest(GAME)),
                )],
                download_identifier: None,
            }],
        }],
    }
}

#[test]
fn file_name_drops_query_and_directories() {
    assert_eq!(
        file_name_for("https://cdn.example/dir/sub/file-name.zip?token=abc").unwrap(),
        "file-name.zip"
    );
}

#[test]
fn file_name_drops_fragment() {
    assert_eq!(file_name_for("https://cdn.example/a/b.bin#part").unwrap(), "b.bin");
}

#[test]
fn file_name_missing_for_trailing_slash() {
    assert!(matches!(file_name_for("https://cdn.example/dir/"), Err(ApiError::MalformedUrl)));
    assert!(matches!(file_name_for("https://cdn.example"), Err(ApiError::MalformedUrl)));
}

#[test]
fn file_name_parse_error() {
    assert!(matches!(file_name_for("not a url"), Err(ApiError::UrlParse(_))));
}

#[test]
fn file_name_from_path_cases() {
    assert_eq!(file_name_from_path(&"/a/b/c.txt".to_string()), Some("c.txt".to_string()));
    assert_eq!(file_name_from_path(&"/".to_string()), None);
    assert_eq!(file_name_from_path(&"no-slash".to_string()), None);
    assert_eq!(last_path_segment(&"/x/".to_string()), Some(String::new()));
    assert_eq!(last_path_segment(&"/only".to_string()), Some("only".to_string()));
}

#[test]
fn allowed_platform_variant_is_planned() {
    let order = linux_order();
    let d = &order.subproducts[0].downloads[0];
    let plan = client(&["linux"]).plan_variant(d, &d.download_struct[0]).unwrap();
    assert_eq!(plan, Some("game-linux.tar.gz".to_string()));
    assert!(check_data_validity(&d.download_struct[0], GAME));
}

#[test]
fn unwanted_platform_variants_are_skipped() {
    let order = linux_order();
    let d = &order.subproducts[0].downloads[0];
    let c = client(&["windows"]);
    for v in &d.download_struct {
        assert_eq!(c.plan_variant(d, v).unwrap(), None);
    }
}

#[test]
fn variant_without_url_is_skipped() {
    let d = Download {
        platform: String::from("linux"),
        download_struct: vec![variant(None, None)],
        download_identifier: Some(String::from("id")),
    };
    assert_eq!(client(&["linux"]).plan_variant(&d, &d.download_struct[0]).unwrap(), None);
}

#[test]
fn skipped_variant_does_not_stop_siblings() {
    let d = Download {
        platform: String::from("ebook"),
        download_struct: vec![variant(None, None), variant(Some("https://cdn.example/book.pdf"), None)],
        download_identifier: None,
    };
    let c = client(&["ebook", "linux"]);
    assert_eq!(c.plan_variant(&d, &d.download_struct[0]).unwrap(), None);
    assert_eq!(c.plan_variant(&d, &d.download_struct[1]).unwrap(), Some("book.pdf".to_string()));
}

#[test]
fn malformed_url_is_an_error() {
    let d = Download {
        platform: String::from("linux"),
        download_struct: vec![variant(Some("https://cdn.example/"), None)],
        download_identifier: None,
    };
    assert!(matches!(
        client(&["linux"]).plan_variant(&d, &d.download_struct[0]),
        Err(ApiError::MalformedUrl)
    ));
}

#[test]
fn platform_membership() {
    let c = client(&["windows", "linux"]);
    assert!(c.allows_platform(&"linux".to_string()));
    assert!(!c.allows_platform(&"android".to_string()));
    assert!(!client(&[]).allows_platform(&"linux".to_string()));
}

#[test]
fn valid_local_copy_is_kept() {
    let order = linux_order();
    let v = &order.subproducts[0].downloads[0].download_struct[0];
    let local = resolve_local_copy(true, check_data_validity(v, GAME));
    assert_eq!(local, LocalCopy::Valid);
    assert!(!needs_fetch(local));
}

#[test]
fn invalid_local_copy_is_fetched_again() {
    let order = linux_order();
    let v = &order.subproducts[0].downloads[0].download_struct[0];
    let local = resolve_local_copy(true, check_data_validity(v, b"corrupt"));
    assert_eq!(local, LocalCopy::Invalid);
    assert!(needs_fetch(local));
    assert!(accept_download(&"game-linux.tar.gz".to_string(), check_data_validity(v, GAME)).is_ok());
}

#[test]
fn missing_local_copy_is_fetched() {
    let local = resolve_local_copy(false, true);
    assert_eq!(local, LocalCopy::Missing);
    assert!(needs_fetch(local));
}

#[test]
fn corrupt_download_is_rejected() {
    match accept_download(&"game-linux.tar.gz".to_string(), false) {
        Err(ApiError::IntegrityMismatch(name)) => assert_eq!(name, "game-linux.tar.gz"),
        other => panic!("unexpected {:?}", other),
    }
}

#[test]
fn settings_later_header_overrides_earlier() {
    let s = Settings::new(
        vec![
            (String::from("cookie"), String::from("a")),
            (String::from("user-agent"), String::from("x")),
            (String::from("cookie"), String::from("b")),
        ],
        vec![String::from("linux")],
    );
    assert_eq!(s.headers.len(), 2);
    let cookie: Vec<_> = s.headers.iter().filter(|(k, _)| k == "cookie").collect();
    assert_eq!(cookie.len(), 1);
    assert_eq!(cookie[0].1, "b");
    assert!(s.headers.iter().any(|(k, v)| k == "user-agent" && v == "x"));
}

#[test]
fn settings_platforms_are_a_set() {
    let s = Settings::new(
        vec![],
        vec![String::from("linux"), String::from("ebook"), String::from("linux")],
    );
    assert_eq!(s.platforms.len(), 2);
    assert!(s.platforms.contains(&String::from("linux")));
    assert!(s.platforms.contains(&String::from("ebook")));
    assert!(Settings::new(vec![], vec![]).platforms.is_empty());
}

fn steps_for(platforms: &[&str], local: Option<&[u8]>, fresh: &[u8]) -> (Vec<Action>, Option<ApiError>) {
    let order = linux_order();
    let d = &order.subproducts[0].downloads[0];
    let v = &d.download_struct[0];
    let c = client(platforms);
    let mut steps = Vec::new();
    let mut progress = Progress::Start;
    loop {
        match c.next_action(d, v, progress) {
            Err(e) => return (steps, Some(e)),
            Ok(a) => {
                steps.push(a.clone());
                match a {
                    Action::Skip | Action::Finished => return (steps, None),
                    Action::InspectLocal(_) => {
                        progress = match local {
                            None => Progress::LocalChecked { exists: false, passes: false },
                            Some(bytes) => Progress::LocalChecked {
                                exists: true,
                                passes: check_data_validity(v, bytes),
                            },
                        }
                    }
                    Action::Fetch(_) => progress = Progress::Written { passes: check_data_validity(v, fresh) },
                }
            }
        }
    }
}

#[test]
fn order_for_allowed_platform_fetches_one_file() {
    let (steps, err) = steps_for(&["linux"], None, GAME);
    assert!(err.is_none());
    assert_eq!(
        steps,
        vec![
            Action::InspectLocal("game-linux.tar.gz".to_string()),
            Action::Fetch("game-linux.tar.gz".to_string()),
            Action::Finished
        ]
    );
}

#[test]
fn order_for_other_platform_does_nothing() {
    let (steps, err) = steps_for(&["windows"], None, GAME);
    assert!(err.is_none());
    assert_eq!(steps, vec![Action::Skip]);
}

#[test]
fn rerun_with_valid_file_issues_no_fetch() {
    let (steps, err) = steps_for(&["linux"], Some(GAME), GAME);
    assert!(err.is_none());
    assert_eq!(steps, vec![Action::InspectLocal("game-linux.tar.gz".to_string()), Action::Finished]);
}

#[test]
fn rerun_with_corrupt_file_fetches_once() {
    let (steps, err) = steps_for(&["linux"], Some(b"corrupt"), GAME);
    assert!(err.is_none());
    let fetches = steps.iter().filter(|a| matches!(a, Action::Fetch(_))).count();
    assert_eq!(fetches, 1);
    assert_eq!(steps.last(), Some(&Action::Finished));
}

#[test]
fn corrupt_fresh_download_is_an_integrity_error() {
    let (steps, err) = steps_for(&["linux"], None, b"truncated");
    assert_eq!(steps.len(), 2);
    match err {
        Some(ApiError::IntegrityMismatch(name)) => assert_eq!(name, "game-linux.tar.gz"),
        other => panic!("unexpected {:?}", other),
    }
}
