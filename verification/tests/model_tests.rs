use kongg::event::{Event, EventType};
use kongg::file_record::{File, FileMetadata};
use kongg::format_size::{u64_to_decimal, FormateToString};
use kongg::pathing::{basename, extension_of, parent_dir};
use kongg::registry::PendingRegistry;

#[test]
fn event_type_names() {
    assert_eq!(EventType::Created.to_string(), "Created");
    assert_eq!(EventType::Renamed.to_string(), "Renamed");
    assert_eq!(EventType::Deleted.to_string(), "Deleted");
    assert_eq!(EventType::Moved.to_string(), "Moved");
    assert_eq!(EventType::Copied.to_string(), "Copied");
}

#[test]
fn event_new_keeps_its_fields() {
    let e = Event::new(EventType::Created, "aab".to_string());
    assert_eq!(e.e_type, EventType::Created);
    assert_eq!(e.path, "aab");
}

#[test]
fn basename_takes_the_last_component() {
    assert_eq!(basename("/tmp/w/a.txt"), "a.txt");
    assert_eq!(basename("a.txt"), "a.txt");
    assert_eq!(basename("/tmp/w/"), "");
    assert_eq!(basename(""), "");
    assert_eq!(basename("C:\\w\\a.txt"), "a.txt");
}

#[test]
fn parent_dir_takes_the_prefix() {
    assert_eq!(parent_dir("/tmp/w/a.txt").as_deref(), Some("/tmp/w"));
    assert_eq!(parent_dir("a.txt"), None);
    assert_eq!(parent_dir("/a.txt").as_deref(), Some("/"));
    assert_eq!(parent_dir("/"), None);
    assert_eq!(parent_dir(""), None);
}

#[test]
fn extension_comes_after_the_last_inner_dot() {
    assert_eq!(extension_of("a.txt").as_deref(), Some("txt"));
    assert_eq!(extension_of("archive.tar.gz").as_deref(), Some("gz"));
    assert_eq!(extension_of(".gitignore"), None);
    assert_eq!(extension_of("README"), None);
    assert_eq!(extension_of(""), None);
}

#[test]
fn decimal_rendering_is_exact() {
    assert_eq!(u64_to_decimal(0), "0");
    assert_eq!(u64_to_decimal(7), "7");
    assert_eq!(u64_to_decimal(10), "10");
    assert_eq!(u64_to_decimal(90210), "90210");
    assert_eq!(u64_to_decimal(u64::MAX), "18446744073709551615");
}

#[test]
fn file_sizes_format_by_the_first_admitting_band() {
    assert_eq!(1u64.formate_file_size().as_deref(), Some("1 B"));
    assert_eq!(0u64.formate_file_size().as_deref(), Some("0 KB"));
    assert_eq!(500u64.formate_file_size().as_deref(), Some("500 KB"));
    assert_eq!(1000u64.formate_file_size().as_deref(), Some("1000 KB"));
    assert_eq!(1010u64.formate_file_size().as_deref(), Some("1010 KiB"));
    assert_eq!(2048u64.formate_file_size().as_deref(), Some("2048 MB"));
    assert_eq!(1_020_000u64.formate_file_size().as_deref(), Some("1020000 MiB"));
    assert_eq!(2_000_000u64.formate_file_size().as_deref(), Some("2000000 GB"));
    assert_eq!(1_050_000_000u64.formate_file_size().as_deref(), Some("1050000000 GiB"));
    assert_eq!(900_000_000_000u64.formate_file_size().as_deref(), Some("900000000000 TB"));
    assert_eq!(1_099_000_000_000u64.formate_file_size().as_deref(), Some("1099000000000 TiB"));
    assert_eq!(2_000_000_000_000u64.formate_file_size().as_deref(), None);
}

#[test]
fn registry_takes_each_entry_once() {
    let mut r = PendingRegistry::new();
    assert!(!r.contains("/a"));
    r.insert_or_replace("/a".to_string());
    r.insert_or_replace("/b".to_string());
    r.insert_or_replace("/a".to_string());
    assert!(r.contains("/a"));
    assert!(r.try_take("/a"));
    assert!(!r.try_take("/a"));
    assert!(r.try_take("/b"));
    assert!(!r.try_take("/c"));
}

#[test]
fn file_record_derives_its_fields_from_the_canonical_path() {
    let meta = FileMetadata {
        canonical_path: "/home/u/docs/report.pdf".to_string(),
        file_size: 500,
        is_read_only: false,
    };
    let f = File::new(EventType::Created, "/home/u/docs/report.pdf".to_string(), &meta, 42);
    assert_eq!(f.event_type, EventType::Created);
    assert_eq!(f.path, "/home/u/docs/report.pdf");
    assert_eq!(f.file_name.as_deref(), Some("report.pdf"));
    assert_eq!(f.extension.as_deref(), Some("pdf"));
    assert_eq!(f.parent_directory.as_deref(), Some("/home/u/docs"));
    assert_eq!(f.file_size, Some(500));
    assert!(!f.is_read_only);
    assert_eq!(f.timestamp, 42);
    assert!(f.previous_path.is_none());
    assert!(f.hash.is_none());
    assert!(f.previous_hash.is_none());
    assert!(f.file_id.is_none());
    assert!(f.permissions.is_none());
}

#[test]
fn add_previous_path_only_fills_that_field() {
    let meta = FileMetadata {
        canonical_path: "/w/b.txt".to_string(),
        file_size: 1,
        is_read_only: true,
    };
    let f = File::new(EventType::Moved, "/w/b.txt".to_string(), &meta, 9)
        .add_previous_path("/w/a.txt".to_string());
    assert_eq!(f.previous_path.as_deref(), Some("/w/a.txt"));
    assert_eq!(f.event_type, EventType::Moved);
    assert_eq!(f.path, "/w/b.txt");
    assert!(f.is_read_only);
}
