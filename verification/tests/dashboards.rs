use infra_core::dashboards::v5::{FilterCondition, GroupType, Layout, PanelFilter, Tab};
use infra_core::dashboards::{FixedDateTime, OrdF64};
use infra_core::stream::StreamType;
use std::hash::{Hash, Hasher};

fn condition(column: &str) -> PanelFilter {
    PanelFilter::Condition(FilterCondition {
        typ: "condition".to_string(),
        values: vec!["a".to_string(), "b".to_string()],
        column: column.to_string(),
        operator: Some("=".to_string()),
        value: None,
        logical_operator: "AND".to_string(),
        filter_type: "condition".to_string(),
    })
}

fn group(conditions: Vec<PanelFilter>) -> PanelFilter {
    PanelFilter::Group(GroupType {
        filter_type: "group".to_string(),
        logical_operator: "OR".to_string(),
        conditions,
    })
}

#[test]
fn a_filter_is_copied_with_all_below_it() {
    let filter = group(vec![
        condition("host"),
        group(vec![condition("level"), group(vec![])]),
        condition("pod"),
    ]);
    let copy = filter.clone();
    assert_eq!(copy, filter);
    match copy {
        PanelFilter::Group(g) => {
            assert_eq!(g.conditions.len(), 3);
            assert_eq!(g.logical_operator, "OR");
            assert_eq!(g.conditions[2], condition("pod"));
        }
        PanelFilter::Condition(_) => panic!("a group is copied as a group"),
    }
}

#[test]
fn a_condition_is_copied_as_a_condition() {
    let filter = condition("host");
    assert_eq!(filter.clone(), filter);
    assert_ne!(filter.clone(), condition("pod"));
}

#[test]
fn records_compare_field_by_field() {
    let a = Layout { x: 0, y: 1, w: 2, h: 3, i: 4 };
    let b = Layout { x: 0, y: 1, w: 2, h: 3, i: 5 };
    assert_eq!(a.clone(), a);
    assert_ne!(a, b);
    let tab = Tab {
        tab_id: "t1".to_string(),
        name: "Overview".to_string(),
        panels: vec![],
    };
    assert_eq!(tab.clone(), tab);
}

#[test]
fn supporting_values_compare_by_what_they_hold() {
    assert_eq!(OrdF64 { bits: 1 }, OrdF64 { bits: 1 });
    assert_ne!(OrdF64 { bits: 1 }, OrdF64 { bits: 2 });
    assert_eq!(StreamType::default(), StreamType::Logs);
    let moment = FixedDateTime {
        seconds: 1_700_000_000,
        nanos: 5,
        offset_seconds: 3600,
    };
    assert_eq!(moment, moment.clone());
}

fn dashboard(title: &str, updated_at: i64) -> infra_core::dashboards::v5::Dashboard {
    infra_core::dashboards::v5::Dashboard {
        version: 5,
        dashboard_id: "d1".to_string(),
        title: title.to_string(),
        description: "".to_string(),
        role: "".to_string(),
        owner: "root".to_string(),
        created: FixedDateTime {
            seconds: 1_700_000_000,
            nanos: 0,
            offset_seconds: 0,
        },
        tabs: vec![Tab {
            tab_id: "default".to_string(),
            name: "Default".to_string(),
            panels: vec![],
        }],
        variables: None,
        default_datetime_duration: None,
        updated_at,
    }
}

#[test]
fn a_dashboard_is_stored_under_a_given_digest() {
    let stored = infra_core::dashboards::Dashboard::with_digest(dashboard("cpu", 42), 1234567890);
    assert_eq!(stored.version, 5);
    assert_eq!(stored.version, infra_core::dashboards::CURRENT_VERSION);
    assert_eq!(stored.hash, "1234567890");
    assert_eq!(stored.updated_at, 42);
    assert_eq!(stored.v5, Some(dashboard("cpu", 42)));
    let stored = infra_core::dashboards::Dashboard::with_digest(dashboard("cpu", 0), 0);
    assert_eq!(stored.hash, "0");
    let stored = infra_core::dashboards::Dashboard::with_digest(dashboard("cpu", 0), u64::MAX);
    assert_eq!(stored.hash, "18446744073709551615");
}

#[test]
fn a_dashboard_is_stored_under_its_digest() {
    let stored = infra_core::dashboards::Dashboard::from(dashboard("cpu", 7));
    assert_eq!(stored.version, 5);
    assert_eq!(stored.updated_at, 7);
    assert_eq!(stored.v5, Some(dashboard("cpu", 7)));
    let digest: u64 = stored.hash.parse().expect("the hash is a number in decimal");
    assert_eq!(digest.to_string(), stored.hash);
}

#[test]
fn the_digest_follows_the_contents() {
    let a = infra_core::dashboards::Dashboard::from(dashboard("cpu", 7));
    let again = infra_core::dashboards::Dashboard::from(dashboard("cpu", 7));
    let other = infra_core::dashboards::Dashboard::from(dashboard("memory", 7));
    assert_eq!(a.hash, again.hash);
    assert_ne!(a.hash, other.hash);
}

#[test]
fn the_digest_is_that_of_the_version_and_the_contents() {
    let value = dashboard("cpu", 7);
    let mut hasher = std::hash::DefaultHasher::new();
    hasher.write_i32(5);
    value.hash(&mut hasher);
    let expected = hasher.finish().to_string();
    let mut without_version = std::hash::DefaultHasher::new();
    value.hash(&mut without_version);
    let mut without_contents = std::hash::DefaultHasher::new();
    without_contents.write_i32(5);
    let stored = infra_core::dashboards::Dashboard::from(value);
    assert_eq!(stored.hash, expected);
    assert_ne!(stored.hash, without_version.finish().to_string());
    assert_ne!(stored.hash, without_contents.finish().to_string());
}

#[test]
fn equal_dashboards_are_stored_under_equal_hashes() {
    let a = dashboard("cpu", 7);
    let b = a.clone();
    assert_eq!(a, b);
    let stored_a = infra_core::dashboards::Dashboard::from(a);
    let stored_b = infra_core::dashboards::Dashboard::from(b);
    assert_eq!(stored_a.hash, stored_b.hash);
    let later = infra_core::dashboards::Dashboard::from(dashboard("cpu", 8));
    assert_ne!(stored_a.hash, later.hash);
}
