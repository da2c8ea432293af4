use demo_mover::config::{StorageConfig, StorageRoot};
use demo_mover::path::{
    file_name, generate_path, is_shardable, trim_separators, try_generate_path,
};
use demo_mover::store::Store;

#[test]
fn path_has_two_levels_cut_from_the_name() {
    assert_eq!(
        generate_path("/srv/demos", "0a1b2c3d4e5f.dem"),
        "/srv/demos/0a/1b/0a1b2c3d4e5f.dem"
    );
}

#[test]
fn path_of_the_shortest_name() {
    assert_eq!(generate_path("/r", "abcd"), "/r/ab/cd/abcd");
}

#[test]
fn path_is_the_same_below_each_root() {
    let name = "deadbeef.dem";
    let source = generate_path("/mnt/hot", name);
    let target = generate_path("/mnt/cold/archive", name);
    assert_eq!(source, "/mnt/hot/de/ad/deadbeef.dem");
    assert_eq!(target, "/mnt/cold/archive/de/ad/deadbeef.dem");
    assert_eq!(
        source.strip_prefix("/mnt/hot"),
        target.strip_prefix("/mnt/cold/archive")
    );
}

#[test]
fn path_is_the_same_each_time() {
    assert_eq!(
        generate_path("/srv", "abcdef"),
        generate_path("/srv", "abcdef")
    );
}

#[test]
fn path_under_an_empty_root_starts_at_the_top() {
    assert_eq!(generate_path("", "abcdef"), "/ab/cd/abcdef");
}

#[test]
fn path_counts_characters() {
    assert_eq!(generate_path("/r", "äöüß.dem"), "/r/äö/üß/äöüß.dem");
}

#[test]
fn short_names_cannot_be_placed() {
    assert!(!is_shardable(""));
    assert!(!is_shardable("abc"));
    assert!(is_shardable("abcd"));
    assert!(is_shardable("äöüß"));
    assert_eq!(try_generate_path("/srv", "abc"), None);
    assert_eq!(try_generate_path("/srv", ""), None);
    assert_eq!(
        try_generate_path("/srv", "abcd"),
        Some(String::from("/srv/ab/cd/abcd"))
    );
}

#[test]
fn file_name_is_the_last_component() {
    assert_eq!(file_name("2016/08/abcdef.dem"), "abcdef.dem");
    assert_eq!(file_name("/abcdef.dem"), "abcdef.dem");
    assert_eq!(file_name("abcdef.dem"), "abcdef.dem");
    assert_eq!(file_name("dir/"), "");
    assert_eq!(file_name(""), "");
    assert_eq!(file_name("a//b"), "b");
}

#[test]
fn trimming_cuts_only_separators_at_the_end() {
    assert_eq!(trim_separators("/srv/demos/"), "/srv/demos");
    assert_eq!(trim_separators("/srv/demos///"), "/srv/demos");
    assert_eq!(trim_separators("/srv/demos"), "/srv/demos");
    assert_eq!(trim_separators("/"), "");
    assert_eq!(trim_separators("//"), "");
    assert_eq!(trim_separators(""), "");
    assert_eq!(trim_separators("/a/ "), "/a/ ");
}

#[test]
fn store_keeps_its_directory_and_trims_its_url() {
    let store = Store::new("/srv/demos/", "https://static.example.org/demos//");
    assert_eq!(store.basedir(), "/srv/demos/");
    assert_eq!(store.baseurl(), "https://static.example.org/demos");
}

#[test]
fn store_places_a_name_below_its_directory() {
    let store = Store::new("/srv/demos", "https://static.example.org");
    assert_eq!(
        store.generate_path("cafebabe.dem"),
        "/srv/demos/ca/fe/cafebabe.dem"
    );
}

#[test]
fn storage_root_is_kept_without_separators_at_its_end() {
    let root = StorageRoot::new(&StorageConfig {
        root: String::from("/mnt/cold//"),
        backend: String::from("cold"),
    });
    assert_eq!(root.dir(), "/mnt/cold");
    assert_eq!(root.backend(), "cold");
    assert_eq!(root.path_of("cafebabe.dem"), "/mnt/cold/ca/fe/cafebabe.dem");
}
