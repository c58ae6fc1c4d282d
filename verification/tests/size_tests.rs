use gdrive_core::errors::Error;
use gdrive_core::object::RawObject;
use gdrive_core::provider::CloudProvider;
use gdrive_core::session::GDrive;
use gdrive_core::size::{SizeProbe, SizeStep};
use gdrive_core::text::parse_u64;

fn raw_file(id: &str, name: &str, size: &str) -> RawObject {
    RawObject {
        id: Some(id.to_string()),
        name: Some(name.to_string()),
        mime_type: Some("text/plain".to_string()),
        size: Some(size.to_string()),
        extension: None,
        modified_time: Some("2023-01-02T03:04:05Z".to_string()),
    }
}

fn raw_dir(id: &str, name: &str) -> RawObject {
    RawObject {
        id: Some(id.to_string()),
        name: Some(name.to_string()),
        mime_type: Some("application/vnd.google-apps.folder".to_string()),
        size: None,
        extension: None,
        modified_time: Some("2023-01-02T03:04:05Z".to_string()),
    }
}

fn authed() -> GDrive {
    let mut g = GDrive::new();
    g.complete_authentication();
    g
}

/// The synthetic tree: a root directory holding file A (10 bytes) and a
/// subdirectory B holding file C (5 bytes). Size 15, count 4 — directories
/// count themselves and contribute no bytes of their own.
#[test]
fn size_walk_aggregates_a_synthetic_tree() {
    let mut g = authed();
    g.read_dir_commit("gdrive:", vec![raw_dir("top-id", "top")])
        .expect("listing must digest");

    let probe = g.get_item_size("gdrive:/top").expect("resolved path");
    let mut walk = match probe {
        SizeProbe::Walk(w) => w,
        SizeProbe::Ready(_) => panic!("a directory must start a walk"),
    };

    let id = match walk.step() {
        SizeStep::Fetch(id) => id,
        SizeStep::Done(_) => panic!("the root of the walk must be fetched"),
    };
    assert_eq!(id, "top-id");
    walk.feed(&vec![raw_file("a-id", "A", "10"), raw_dir("b-id", "B")])
        .expect("children must digest");

    let id = match walk.step() {
        SizeStep::Fetch(id) => id,
        SizeStep::Done(_) => panic!("subdirectory B must be fetched"),
    };
    assert_eq!(id, "b-id");
    walk.feed(&vec![raw_file("c-id", "C", "5")]).expect("children must digest");

    match walk.step() {
        SizeStep::Done(info) => {
            assert_eq!(info.size, 15);
            assert_eq!(info.count, 4);
        },
        SizeStep::Fetch(_) => panic!("nothing is left to fetch"),
    }
}

#[test]
fn a_file_answers_its_size_without_any_walk() {
    let mut g = authed();
    g.read_dir_commit("gdrive:", vec![raw_file("f1", "a.txt", "123")])
        .expect("listing must digest");
    match g.get_item_size("gdrive:/a.txt").expect("resolved path") {
        SizeProbe::Ready(info) => {
            assert_eq!(info.size, 123);
            assert_eq!(info.count, 1);
        },
        SizeProbe::Walk(_) => panic!("a file must never start a walk"),
    }
}

#[test]
fn size_query_demands_a_resolved_path() {
    let g = authed();
    assert!(matches!(g.get_item_size("gdrive:/never"), Err(Error::NotCached(_))));
}

#[test]
fn unreadable_children_leave_the_walk_untouched() {
    let mut g = authed();
    g.read_dir_commit("gdrive:", vec![raw_dir("top-id", "top")])
        .expect("listing must digest");
    let mut walk = match g.get_item_size("gdrive:/top").expect("resolved path") {
        SizeProbe::Walk(w) => w,
        SizeProbe::Ready(_) => panic!("a directory must start a walk"),
    };
    match walk.step() {
        SizeStep::Fetch(_) => {},
        SizeStep::Done(_) => panic!("the root of the walk must be fetched"),
    }

    let mut sizeless = raw_file("x", "X", "1");
    sizeless.size = None;
    assert!(matches!(walk.feed(&vec![sizeless]), Err(Error::RemoteCall(_))));

    // the walk still finishes: only the directory itself was counted
    match walk.step() {
        SizeStep::Done(info) => {
            assert_eq!(info.size, 0);
            assert_eq!(info.count, 1);
        },
        SizeStep::Fetch(_) => panic!("nothing was admitted to fetch"),
    }
}

#[test]
fn totals_saturate_instead_of_overflowing() {
    let mut g = authed();
    g.read_dir_commit("gdrive:", vec![raw_dir("top-id", "top")])
        .expect("listing must digest");
    let mut walk = match g.get_item_size("gdrive:/top").expect("resolved path") {
        SizeProbe::Walk(w) => w,
        SizeProbe::Ready(_) => panic!("a directory must start a walk"),
    };
    match walk.step() {
        SizeStep::Fetch(_) => {},
        SizeStep::Done(_) => panic!("the root of the walk must be fetched"),
    }
    walk.feed(&vec![
        raw_file("h1", "huge", "18446744073709551615"),
        raw_file("h2", "more", "5"),
    ])
    .expect("children must digest");
    match walk.step() {
        SizeStep::Done(info) => {
            assert_eq!(info.size, u64::MAX);
            assert_eq!(info.count, 3);
        },
        SizeStep::Fetch(_) => panic!("nothing is left to fetch"),
    }
}

#[test]
fn sizes_are_read_as_plain_decimals() {
    assert_eq!(parse_u64("0"), Some(0));
    assert_eq!(parse_u64("123"), Some(123));
    assert_eq!(parse_u64("18446744073709551615"), Some(u64::MAX));
    assert_eq!(parse_u64("18446744073709551616"), None);
    assert_eq!(parse_u64(""), None);
    assert_eq!(parse_u64("12a"), None);
    assert_eq!(parse_u64("-1"), None);
    assert_eq!(parse_u64(" 1"), None);
}
