use gdrive_core::errors::Error;
use gdrive_core::listing::{children_query, search_query_string};
use gdrive_core::object::RawObject;
use gdrive_core::provider::CloudProvider;
use gdrive_core::session::GDrive;

fn raw_file(id: &str, name: &str, size: &str, ext: &str, time: &str) -> RawObject {
    RawObject {
        id: Some(id.to_string()),
        name: Some(name.to_string()),
        mime_type: Some("text/plain".to_string()),
        size: Some(size.to_string()),
        extension: Some(ext.to_string()),
        modified_time: Some(time.to_string()),
    }
}

fn raw_dir(id: &str, name: &str, time: &str) -> RawObject {
    RawObject {
        id: Some(id.to_string()),
        name: Some(name.to_string()),
        mime_type: Some("application/vnd.google-apps.folder".to_string()),
        size: None,
        extension: None,
        modified_time: Some(time.to_string()),
    }
}

fn authed() -> GDrive {
    let mut g = GDrive::new();
    g.complete_authentication();
    g
}

#[test]
fn listing_surfaces_entries_and_caches_children() {
    let mut g = authed();
    let children = vec![
        raw_file("f1", "a.txt", "10", "txt", "2023-01-02T03:04:05Z"),
        raw_dir("d1", "sub", "2024-11-30T23:59:59Z"),
    ];
    let entries = g.read_dir_commit("gdrive:", children).expect("listing must digest");
    assert_eq!(entries.len(), 2);

    assert_eq!(entries[0].name, "a.txt");
    assert_eq!(entries[0].path, "gdrive:/a.txt");
    assert!(!entries[0].is_dir);
    assert_eq!(entries[0].size, 10);
    assert_eq!(entries[0].extension, ".txt");
    assert_eq!(entries[0].last_modified, "2023-01-02 03:04:05");

    assert_eq!(entries[1].name, "sub");
    assert_eq!(entries[1].path, "gdrive:/sub");
    assert!(entries[1].is_dir);
    assert_eq!(entries[1].size, 0);
    assert_eq!(entries[1].extension, ".");
    assert_eq!(entries[1].last_modified, "2024-11-30 23:59:59");

    let cached = g.resolve("gdrive:/sub").expect("listed child must resolve");
    assert_eq!(cached.id, "d1");
}

#[test]
fn listing_twice_is_idempotent() {
    let mut g = authed();
    let make = || {
        vec![
            raw_file("f1", "a.txt", "10", "txt", "2023-01-02T03:04:05Z"),
            raw_dir("d1", "sub", "2024-11-30T23:59:59Z"),
        ]
    };
    let first = g.read_dir_commit("gdrive:", make()).expect("listing must digest");
    let len_after_first = g.path2file.len();
    let second = g.read_dir_commit("gdrive:", make()).expect("listing must digest");

    assert_eq!(first.len(), second.len());
    for (a, b) in first.iter().zip(second.iter()) {
        assert_eq!(a.name, b.name);
        assert_eq!(a.path, b.path);
        assert_eq!(a.is_dir, b.is_dir);
        assert_eq!(a.size, b.size);
        assert_eq!(a.extension, b.extension);
        assert_eq!(a.last_modified, b.last_modified);
    }
    // one cache entry per child, and nothing new the second time round
    assert_eq!(len_after_first, 3);
    assert_eq!(g.path2file.len(), 3);
}

#[test]
fn nested_listing_requires_a_prior_listing() {
    let g = authed();
    assert!(matches!(g.read_dir_query("gdrive:/never/listed"), Err(Error::NotCached(_))));
}

#[test]
fn listing_rejects_undigestible_children() {
    let mut g = authed();
    let mut nameless = raw_file("f1", "a.txt", "10", "txt", "2023-01-02T03:04:05Z");
    nameless.name = None;
    assert!(matches!(g.read_dir_commit("gdrive:", vec![nameless]), Err(Error::RemoteCall(_))));

    let unsized_ = raw_file("f2", "b.txt", "ten", "txt", "2023-01-02T03:04:05Z");
    assert!(matches!(g.read_dir_commit("gdrive:", vec![unsized_]), Err(Error::RemoteCall(_))));

    let untimed = raw_file("f3", "c.txt", "3", "txt", "not a timestamp");
    assert!(matches!(g.read_dir_commit("gdrive:", vec![untimed]), Err(Error::RemoteCall(_))));

    // a failed listing writes nothing
    assert!(g.resolve("gdrive:/a.txt").is_none());
    assert!(g.resolve("gdrive:/b.txt").is_none());
    assert!(g.resolve("gdrive:/c.txt").is_none());
}

#[test]
fn an_empty_directory_lists_no_entries_and_caches_nothing() {
    let mut g = authed();
    let entries = g.read_dir_commit("gdrive:", vec![]).expect("an empty answer digests");
    assert!(entries.is_empty());
    assert_eq!(g.path2file.len(), 1);
}

#[test]
fn children_answering_under_the_same_name_share_one_cache_slot() {
    let mut g = authed();
    let children = vec![
        raw_file("f1", "same.txt", "1", "txt", "2023-01-02T03:04:05Z"),
        raw_file("f2", "same.txt", "2", "txt", "2023-01-02T03:04:05Z"),
    ];
    let entries = g.read_dir_commit("gdrive:", children).expect("listing must digest");
    assert_eq!(entries.len(), 2);
    assert_eq!(g.path2file.len(), 2);
    // the later child wins the slot
    let cached = g.resolve("gdrive:/same.txt").expect("the shared path must resolve");
    assert_eq!(cached.id, "f2");
}

#[test]
fn names_outside_ascii_keep_their_characters() {
    let mut g = authed();
    let entries = g
        .read_dir_commit(
            "gdrive:",
            vec![raw_file("f1", "übersicht.txt", "5", "txt", "2023-01-02T03:04:05Z")],
        )
        .expect("listing must digest");
    assert_eq!(entries[0].path, "gdrive:/übersicht.txt");
    assert!(g.resolve("gdrive:/übersicht.txt").is_some());
}

#[test]
fn queries_are_rendered_for_the_remote_store() {
    let g = authed();
    assert_eq!(children_query("abc123"), "'abc123' in parents");
    assert_eq!(g.search_query("report").unwrap(), "name contains 'report'");
}

#[test]
fn search_needs_no_resolved_path_and_ignores_the_cache() {
    let mut fresh = authed();
    let mut populated = authed();
    populated
        .read_dir_commit(
            "gdrive:",
            vec![raw_dir("d1", "sub", "2024-11-30T23:59:59Z")],
        )
        .expect("listing must digest");

    let make = || vec![raw_file("f9", "notes.txt", "7", "txt", "2020-06-01T12:00:00Z")];
    let a = fresh.search_commit(make()).expect("search must digest");
    let b = populated.search_commit(make()).expect("search must digest");

    assert_eq!(a.len(), 1);
    assert_eq!(b.len(), 1);
    assert_eq!(a[0].name, b[0].name);
    assert_eq!(a[0].path, "gdrive:/notes.txt");
    assert_eq!(b[0].path, "gdrive:/notes.txt");
    assert_eq!(a[0].size, 7);

    // the hit is cached under its synthesized path on both sessions
    assert!(fresh.resolve("gdrive:/notes.txt").is_some());
    assert!(populated.resolve("gdrive:/notes.txt").is_some());
}

#[test]
fn search_query_is_gated_on_authentication() {
    let g = GDrive::new();
    assert!(matches!(g.search_query("x"), Err(Error::Auth(_))));
    assert_eq!(search_query_string("x"), "name contains 'x'");
}
