use profile_import::{Config, ProfileItem};
use std::path::PathBuf;

fn item(name: &str, path: &str, output_dir: &str) -> ProfileItem {
    ProfileItem {
        path: PathBuf::from(path),
        name: name.to_string(),
        output_dir: PathBuf::from(output_dir),
    }
}

#[test]
fn new_config_has_no_profiles() {
    assert!(Config::new().profiles.is_empty());
}

#[test]
fn added_profile_is_made_of_the_three_values() {
    let mut config = Config::new();
    config.add_profile(
        "Fabric".to_string(),
        PathBuf::from("/profiles/fabric.json"),
        PathBuf::from("/game/mods"),
    );
    assert_eq!(config.profiles, vec![item("Fabric", "/profiles/fabric.json", "/game/mods")]);
}

#[test]
fn profiles_keep_the_order_in_which_they_were_added() {
    let mut config = Config::new();
    config.add_profile("b".to_string(), PathBuf::from("/2"), PathBuf::from("/out"));
    config.add_profile("c".to_string(), PathBuf::from("/3"), PathBuf::from("/out"));
    config.add_profile("a".to_string(), PathBuf::from("/1"), PathBuf::from("/out"));
    assert_eq!(
        config.profiles,
        vec![item("b", "/2", "/out"), item("c", "/3", "/out"), item("a", "/1", "/out")]
    );
}

#[test]
fn adding_checks_nothing() {
    let mut config = Config::new();
    config.add_profile("Foo".to_string(), PathBuf::from("/1"), PathBuf::from("/out"));
    config.add_profile("foo".to_string(), PathBuf::from("/1"), PathBuf::from("/out"));
    config.add_profile("Foo".to_string(), PathBuf::from(""), PathBuf::from(""));
    assert_eq!(
        config.profiles,
        vec![item("Foo", "/1", "/out"), item("foo", "/1", "/out"), item("Foo", "", "")]
    );
}

#[test]
fn clone_of_a_config_holds_the_same_profiles() {
    let mut config = Config::new();
    config.add_profile("a".to_string(), PathBuf::from("/1"), PathBuf::from("/out/a"));
    config.add_profile("b".to_string(), PathBuf::from("/2"), PathBuf::from("/out/b"));
    let copy = config.clone();
    assert_eq!(copy, config);
    assert_eq!(copy.profiles[1].clone(), item("b", "/2", "/out/b"));
}
