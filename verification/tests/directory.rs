//! Tests of the content-routing directory: advertise registers a provider,
//! lookup returns the current providers and never fails.

use file_sharing::directory::ProviderDirectory;

#[test]
fn unadvertised_name_has_no_providers_and_no_error() {
    let dir = ProviderDirectory::new();
    let providers = dir.lookup(&"report.txt".to_string());
    assert!(providers.is_empty());
}

#[test]
fn advertised_node_appears_in_the_lookup() {
    let mut dir = ProviderDirectory::new();
    dir.advertise(&"report.txt".to_string(), 1);
    let providers = dir.lookup(&"report.txt".to_string());
    assert!(providers.contains(&1));
}

#[test]
fn advertising_twice_lists_the_node_once() {
    let mut dir = ProviderDirectory::new();
    dir.advertise(&"report.txt".to_string(), 1);
    dir.advertise(&"report.txt".to_string(), 1);
    assert_eq!(dir.lookup(&"report.txt".to_string()), vec![1]);
}

#[test]
fn several_nodes_can_advertise_one_name() {
    let mut dir = ProviderDirectory::new();
    dir.advertise(&"report.txt".to_string(), 1);
    dir.advertise(&"report.txt".to_string(), 2);
    let providers = dir.lookup(&"report.txt".to_string());
    assert!(providers.contains(&1));
    assert!(providers.contains(&2));
    assert_eq!(providers.len(), 2);
}

#[test]
fn advertising_one_name_leaves_others_unadvertised() {
    let mut dir = ProviderDirectory::new();
    dir.advertise(&"report.txt".to_string(), 1);
    assert!(dir.lookup(&"other.txt".to_string()).is_empty());
}
