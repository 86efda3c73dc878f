use whether::backend::{alerts_from_result, Alert, AlertEntry, AlertReport};
use whether::types::{AlertSeverity, Alerts};

fn entry(id: &str) -> AlertEntry {
    AlertEntry {
        alert: Alert {
            id: id.into(),
            event: "Wind Advisory".into(),
            severity: AlertSeverity::Minor,
            headline: String::new(),
            description: String::new(),
            expires: 0,
        },
        area_desc: "ClarkCounty".into(),
    }
}

fn entry_in(id: &str, area: &str) -> AlertEntry {
    let mut e = entry(id);
    e.area_desc = area.into();
    e
}

#[test]
fn filtered_report_is_local() {
    let report = AlertReport {
        alerts: vec![entry("a")],
        region_filtered: true,
    };
    let alerts = alerts_from_result(Ok(report));
    assert!(matches!(&alerts, Alerts::Local(a) if a.len() == 1 && a[0].id == "a"));
    assert_eq!(alerts.list()[0].area_desc, "ClarkCounty");
}

#[test]
fn unfiltered_report_is_national() {
    let report = AlertReport {
        alerts: vec![entry("a"), entry("b")],
        region_filtered: false,
    };
    let alerts = alerts_from_result(Ok(report));
    assert!(matches!(alerts, Alerts::National(a) if a.len() == 2));
}

#[test]
fn fetch_error_is_unavailable_not_a_quiet_day() {
    let alerts = alerts_from_result(Err(weathervane::Error::Timeout.to_string()));
    assert!(matches!(alerts, Alerts::Unavailable(_)));
    assert!(alerts.list().is_empty());
}

#[test]
fn polygon_duplicates_collapse_to_one_row() {
    // One alert reported twice for the same area collapses to one row.
    let report = AlertReport {
        alerts: vec![entry("a"), entry("a"), entry("b")],
        region_filtered: false,
    };
    let alerts = alerts_from_result(Ok(report));
    assert!(matches!(&alerts, Alerts::National(a) if a.len() == 2));
    assert_eq!(alerts.list()[0].id, "a");
    assert_eq!(alerts.list()[1].id, "b");
}

#[test]
fn same_identifier_area_stays_two_rows() {
    let report = AlertReport {
        alerts: vec![entry_in("a", "Berlin"), entry_in("a", "Brandenburg")],
        region_filtered: false,
    };
    let alerts = alerts_from_result(Ok(report));
    assert!(matches!(&alerts, Alerts::National(a) if a.len() == 2));
}

#[test]
fn unavailable_keeps_the_reason() {
    let alerts = alerts_from_result(Err("request timed out".to_string()));
    match alerts {
        Alerts::Unavailable(reason) => assert_eq!(reason, "request timed out"),
        _ => panic!("expected an unavailable outcome"),
    }
}

#[test]
fn empty_filtered_report_is_a_quiet_local_day() {
    let alerts = alerts_from_result(Ok(AlertReport { alerts: vec![], region_filtered: true }));
    assert!(matches!(&alerts, Alerts::Local(a) if a.is_empty()));
}

#[test]
fn repeats_keep_first_order_and_fields() {
    let mut later = entry("a");
    later.alert.headline = "second copy".into();
    let report = AlertReport {
        alerts: vec![entry("b"), entry("a"), later, entry("b"), entry("c")],
        region_filtered: true,
    };
    let alerts = alerts_from_result(Ok(report));
    let ids: Vec<&str> = alerts.list().iter().map(|a| a.id.as_str()).collect();
    assert_eq!(ids, vec!["b", "a", "c"]);
    assert_eq!(alerts.list()[1].headline, "");
    assert_eq!(alerts.list()[1].event, "Wind Advisory");
    assert_eq!(alerts.list()[1].severity, AlertSeverity::Minor);
}
