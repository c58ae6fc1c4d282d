use gdrive_core::errors::Error;
use gdrive_core::object::RawObject;
use gdrive_core::provider::CloudProvider;
use gdrive_core::session::GDrive;
use gdrive_core::transfer::{
    child_dest, choose_strategy, upload_order, LocalChild, UploadStrategy, UPLOAD_SINGLE_SHOT_MAX,
};

fn raw_file(id: &str, name: &str, size: &str) -> RawObject {
    RawObject {
        id: Some(id.to_string()),
        name: Some(name.to_string()),
        mime_type: Some("text/plain".to_string()),
        size: Some(size.to_string()),
        extension: None,
        modified_time: Some("2023-01-02T03:04:05Z".to_string()),
    }
}

fn authed() -> GDrive {
    let mut g = GDrive::new();
    g.complete_authentication();
    g
}

#[test]
fn the_strategy_boundary_is_closed_on_the_single_shot_side() {
    assert_eq!(UPLOAD_SINGLE_SHOT_MAX, 5 * 1024 * 1024);
    assert_eq!(choose_strategy(0), UploadStrategy::SingleShot);
    assert_eq!(choose_strategy(5 * 1024 * 1024), UploadStrategy::SingleShot);
    assert_eq!(choose_strategy(5 * 1024 * 1024 + 1), UploadStrategy::Resumable);
}

#[test]
fn a_file_of_exactly_the_bound_uploads_single_shot() {
    let g = authed();
    let plan = g.upload_plan("work/data/report.pdf", 5 * 1024 * 1024, "gdrive:").unwrap();
    assert_eq!(plan.strategy, UploadStrategy::SingleShot);
    assert_eq!(plan.name, "report.pdf");
    assert_eq!(plan.parent_id, "root");

    let plan = g.upload_plan("work/data/report.pdf", 5 * 1024 * 1024 + 1, "gdrive:").unwrap();
    assert_eq!(plan.strategy, UploadStrategy::Resumable);
}

#[test]
fn uploads_demand_a_resolved_destination() {
    let g = authed();
    assert!(matches!(g.upload_plan("a/b.txt", 1, "gdrive:/nowhere"), Err(Error::NotCached(_))));
    assert!(matches!(g.create_dir_plan("a/b", "gdrive:/nowhere"), Err(Error::NotCached(_))));

    let cold = GDrive::new();
    assert!(matches!(cold.upload_plan("a/b.txt", 1, "gdrive:"), Err(Error::Auth(_))));
}

#[test]
fn created_directories_take_the_local_basename_and_folder_kind() {
    let g = authed();
    let plan = g.create_dir_plan("home/photos/2024", "gdrive:").unwrap();
    assert_eq!(plan.name, "2024");
    assert_eq!(plan.parent_id, "root");
    assert_eq!(plan.mime_type, "application/vnd.google-apps.folder");
}

#[test]
fn downloads_land_under_the_object_name() {
    let mut g = authed();
    g.read_dir_commit("gdrive:", vec![raw_file("f1", "a.txt", "10")])
        .expect("listing must digest");
    let plan = g.download_plan("gdrive:/a.txt", "/tmp/out/").unwrap();
    assert_eq!(plan.id, "f1");
    assert_eq!(plan.save_path, "/tmp/out/a.txt");
}

#[test]
fn downloads_demand_a_resolved_source() {
    let g = authed();
    assert!(matches!(g.download_plan("gdrive:/never", "/tmp/"), Err(Error::NotCached(_))));
    let cold = GDrive::new();
    assert!(matches!(cold.download_plan("gdrive:", "/tmp/"), Err(Error::Auth(_))));
}

#[test]
fn an_upload_registers_the_created_object_for_later_resolution() {
    let mut g = authed();
    let created = raw_file("new-id", "report.pdf", "42");
    g.absorb_created("gdrive:", created).expect("the answer must digest");

    let cached = g.resolve("gdrive:/report.pdf").expect("the new path must resolve");
    assert_eq!(cached.id, "new-id");

    // the round trip: the freshly uploaded object can be planned right back
    let plan = g.download_plan("gdrive:/report.pdf", "/tmp/").unwrap();
    assert_eq!(plan.id, "new-id");
    assert_eq!(plan.save_path, "/tmp/report.pdf");
}

#[test]
fn undigestible_upload_answers_change_nothing() {
    let mut g = authed();
    let mut created = raw_file("new-id", "report.pdf", "42");
    created.id = None;
    assert!(matches!(g.absorb_created("gdrive:", created), Err(Error::RemoteCall(_))));
    assert!(g.resolve("gdrive:/report.pdf").is_none());
}

#[test]
fn directory_uploads_walk_subdirectories_first() {
    let children = vec![
        LocalChild { path: "t/a.txt".to_string(), is_dir: false },
        LocalChild { path: "t/sub".to_string(), is_dir: true },
        LocalChild { path: "t/b.txt".to_string(), is_dir: false },
        LocalChild { path: "t/deep".to_string(), is_dir: true },
    ];
    let ordered = upload_order(&children);
    let paths: Vec<&str> = ordered.iter().map(|c| c.path.as_str()).collect();
    assert_eq!(paths, vec!["t/sub", "t/deep", "t/a.txt", "t/b.txt"]);
}

#[test]
fn children_of_an_uploaded_directory_land_under_its_entry() {
    assert_eq!(child_dest("gdrive:/backup", "home/photos"), "gdrive:/backup/photos");
    assert_eq!(child_dest("gdrive:", "flat"), "gdrive:/flat");
}
