use ssh_config_tui::host::{sample_hosts, HostItem};

#[test]
fn host_new_keeps_name_and_domain() {
    let host = HostItem::new("Github", "github.com");
    assert_eq!(host.name(), "Github");
    assert_eq!(host.domain(), "github.com");
}

#[test]
fn host_from_pair_takes_name_then_domain() {
    let pair = ("Staging", "staging.example.org");
    let host = HostItem::from(&pair);
    assert_eq!(host.name(), "Staging");
    assert_eq!(host.domain(), "staging.example.org");
}

#[test]
fn host_default_is_empty() {
    let host = HostItem::default();
    assert_eq!(host.name(), "");
    assert_eq!(host.domain(), "");
}

#[test]
fn sample_hosts_are_the_nine_entries_in_order() {
    let hosts = sample_hosts();
    let names: Vec<&str> = hosts.iter().map(|host| host.name()).collect();
    assert_eq!(
        names,
        vec![
            "Github", "DevCloud", "Staging", "QaCloud", "TestBM", "Github", "Github", "Github",
            "Github",
        ]
    );
    assert!(hosts.iter().all(|host| host.domain() == "github.com"));
}
