use blaze_ssh::cache::InstanceCache;
use blaze_ssh::config::{Config, CONFIG_PATH};
use blaze_ssh::instance_details::{InstanceDetails, InstanceSet};

fn s(v: &str) -> Option<String> {
    Some(String::from(v))
}

fn named(name: Option<&str>) -> InstanceDetails {
    InstanceDetails {
        public_ip: None,
        private_ip: None,
        instance_id: None,
        instance_name: name.map(String::from),
    }
}

fn sample() -> InstanceSet {
    InstanceSet::new(vec![
        named(Some("web-1")),
        named(Some("db-1")),
        named(None),
        named(Some("web-2")),
        named(Some("Web-3")),
    ])
}

#[test]
fn filter_keeps_matches_in_order() {
    let f = sample().filter("web");
    assert_eq!(f.instances, vec![named(Some("web-1")), named(Some("web-2"))]);
    for d in &f.instances {
        assert!(d.instance_name.clone().unwrap_or_default().contains("web"));
    }
}

#[test]
fn filter_is_literal_and_case_sensitive() {
    assert_eq!(sample().filter("W").instances, vec![named(Some("Web-3"))]);
    assert!(sample().filter("w.b").instances.is_empty());
    assert_eq!(sample().filter("-1").instances.len(), 2);
}

#[test]
fn filter_with_empty_string_keeps_all() {
    assert_eq!(sample().filter(""), sample());
    assert!(InstanceSet::new(vec![]).filter("").instances.is_empty());
}

#[test]
fn filter_needle_longer_than_name() {
    assert!(sample().filter("web-1-extra").instances.is_empty());
}

#[test]
fn empty_record() {
    assert!(named(None).is_empty());
    assert!(!named(Some("x")).is_empty());
    assert!(InstanceDetails::default().is_empty());
}

#[test]
fn display_name_pads_columns() {
    let d = InstanceDetails {
        public_ip: s("1.2.3.4"),
        private_ip: s("10.0.0.1"),
        instance_id: s("i-1"),
        instance_name: s("web-1"),
    };
    let expected = format!(
        "{:<32} | priv_ip: {:12} | pub_ip: {:>12} | {:<32}",
        "web-1", "10.0.0.1", "1.2.3.4", "i-1"
    );
    assert_eq!(d.display_name(), expected);
    let none = format!(
        "{:<32} | priv_ip: {:12} | pub_ip: {:>12} | {:<32}",
        "None", "None", "None", "None"
    );
    assert_eq!(named(None).display_name(), none);
}

#[test]
fn display_name_keeps_long_fields_whole() {
    let long = "a-very-long-instance-name-that-exceeds-thirty-two";
    let d = named(Some(long));
    assert!(d.display_name().starts_with(&format!("{} | priv_ip: ", long)));
}

#[test]
fn table_cells_blank_for_absent_fields() {
    let set = InstanceSet::new(vec![InstanceDetails {
        public_ip: None,
        private_ip: s("10.0.0.1"),
        instance_id: s("i-1"),
        instance_name: s("web-1"),
    }]);
    assert_eq!(
        set.table_rows(),
        vec![vec![
            String::from("web-1"),
            String::new(),
            String::from("10.0.0.1"),
            String::from("i-1")
        ]]
    );
}

#[test]
fn name_taken_from_name_tag() {
    let tags = vec![
        (s("Env"), s("prod")),
        (s("Name"), s("web-1")),
        (s("Name"), s("other")),
        (None, s("x")),
    ];
    let d = InstanceDetails::from_parts(s("1.2.3.4"), None, s("i-1"), &tags);
    assert_eq!(d.instance_name, s("web-1"));
    assert_eq!(d.public_ip, s("1.2.3.4"));
    assert_eq!(InstanceDetails::extract_instance_name(&vec![(s("name"), s("x"))]), None);
    assert_eq!(InstanceDetails::extract_instance_name(&vec![]), None);
}

#[test]
fn single_record_is_non_selectable() {
    assert!(InstanceSet::new(vec![named(Some("a"))]).is_non_selectable());
    assert!(!sample().is_non_selectable());
}

#[test]
fn cache_snapshot_and_use() {
    let set = sample();
    assert_eq!(InstanceCache::new(&set).instances, set);
    assert_eq!(InstanceCache::usable(false, Some(set.clone())), Some(set.clone()));
    assert_eq!(InstanceCache::usable(true, Some(set.clone())), None);
    assert_eq!(InstanceCache::usable(false, None), None);
}

#[test]
fn config_path_default_and_override() {
    assert_eq!(Config::get_config_path(None), CONFIG_PATH);
    assert_eq!(Config::get_config_path(s("/etc/b.toml")), "/etc/b.toml");
}
