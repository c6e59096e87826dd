use entropy::cli::log_level;
use entropy::poacher::config::{groups_blacklist, is_blacklisted};
use entropy::poacher::local::{CommonConfig, LocalPoacherConfig};
use entropy::poacher::{GroupsBlacklist, MeetupPoacherBlacklist};
use entropy::storage::config::{StorageConfig, StorageCredentialsConfig};
use entropy::storage::{asset_fetched, bucket_creation, custom_region, BucketCreation};

fn list(slugs: &[&str]) -> MeetupPoacherBlacklist {
    MeetupPoacherBlacklist {
        groups: GroupsBlacklist { slugs: slugs.iter().map(|s| s.to_string()).collect() },
    }
}

#[test]
fn common_config_default() {
    let c = CommonConfig::default();
    assert_eq!(c.base_dir, "./");
    assert_eq!(c.include_pattern.as_deref(), Some(r"\.(md|markdown)$"));
    assert_eq!(c.exclude, None);
}

#[test]
fn local_poacher_config_default() {
    let c = LocalPoacherConfig::default();
    for part in [&c.events, &c.groups, &c.initiatives] {
        assert_eq!(part.base_dir, "./");
        assert_eq!(part.include_pattern.as_deref(), Some(r"\.(md|markdown)$"));
        assert_eq!(part.exclude, None);
    }
}

#[test]
fn storage_config_default() {
    let c = StorageConfig::default();
    assert_eq!(c.assets_bucket, "assets");
    assert_eq!(c.credentials.endpoint, "http://localhost:9000");
    assert_eq!(c.credentials.region, None);
    assert_eq!(c.credentials.access_key, "");
    assert_eq!(c.credentials.secret_key, "");
    let d = StorageCredentialsConfig::default();
    assert_eq!(d.endpoint, "http://localhost:9000");
}

#[test]
fn region_of_credentials() {
    let mut c = StorageCredentialsConfig::default();
    assert_eq!(custom_region(&c), ("http://localhost:9000".to_string(), String::new()));
    c.region = Some("ap-south-1".to_string());
    c.endpoint = "https://s3.example.com".to_string();
    assert_eq!(
        custom_region(&c),
        ("https://s3.example.com".to_string(), "ap-south-1".to_string())
    );
}

#[test]
fn bucket_creation_codes() {
    assert_eq!(bucket_creation(409), BucketCreation::AlreadyExists);
    assert_eq!(bucket_creation(200), BucketCreation::Created);
    assert_eq!(bucket_creation(403), BucketCreation::Failed);
    assert_eq!(bucket_creation(500), BucketCreation::Failed);
}

#[test]
fn asset_codes() {
    assert!(asset_fetched(200));
    assert!(!asset_fetched(404));
    assert!(!asset_fetched(204));
}

#[test]
fn merged_blacklist() {
    let merged = groups_blacklist(&vec![list(&["a", "b"]), list(&[]), list(&["c"])]);
    assert_eq!(merged, vec!["a", "b", "c"]);
    assert!(groups_blacklist(&vec![]).is_empty());
    assert!(is_blacklisted(&merged, &"c".to_string()));
    assert!(!is_blacklisted(&merged, &"d".to_string()));
}

#[test]
fn log_levels() {
    assert_eq!(log_level(0), "info");
    assert_eq!(log_level(1), "debug");
    assert_eq!(log_level(2), "trace");
    assert_eq!(log_level(-1), "trace");
}
