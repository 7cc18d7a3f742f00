use optipc::tweaks::{
    applied_result, apply_tweak_script, default_tweak_statuses, reverted_result,
    revert_tweak_script, statuses_from_flags, tweak_statuses, tweaks, POWER_OFF, POWER_ON,
};
use std::collections::HashSet;

#[test]
fn known_tweaks_have_both_scripts() {
    for t in tweaks() {
        assert_eq!(apply_tweak_script(t.id), Some(t.apply));
        assert_eq!(revert_tweak_script(t.id), Some(t.revert));
    }
    assert_eq!(apply_tweak_script("power"), Some(POWER_ON));
    assert_eq!(revert_tweak_script("power"), Some(POWER_OFF));
    assert_eq!(POWER_ON, "powercfg /setactive 8c5e7fda-e8bf-4a96-9a85-a6e23a8c635c");
}

#[test]
fn unknown_tweak_has_no_script() {
    assert_eq!(apply_tweak_script("turbo"), None);
    assert_eq!(revert_tweak_script(""), None);
    assert_eq!(apply_tweak_script("Power"), None);
}

#[test]
fn tweak_ids_are_distinct() {
    let ids: HashSet<&str> = tweaks().iter().map(|t| t.id).collect();
    assert_eq!(ids.len(), 34);
    assert_eq!(tweaks().len(), 34);
}

#[test]
fn result_messages() {
    let r = applied_result("power", true);
    assert!(r.success);
    assert_eq!(r.message, "Tweak 'power' appliqué avec succès");
    let r = applied_result("turbo", false);
    assert!(!r.success);
    assert_eq!(r.message, "Échec du tweak 'turbo' — droits admin requis ?");
    let r = reverted_result("qos", true);
    assert_eq!(r.message, "Tweak 'qos' désactivé");
    let r = reverted_result("qos", false);
    assert_eq!(r.message, "Échec désactivation 'qos' — droits admin requis ?");
}

#[test]
fn default_statuses_cover_every_tweak_inactive() {
    let st = default_tweak_statuses();
    assert_eq!(st.len(), 34);
    assert_eq!(st[0].id, "power");
    assert_eq!(st[33].id, "ultimate_performance");
    assert!(st.iter().all(|s| !s.active));
    let ids: Vec<&str> = st.iter().map(|s| s.id.as_str()).collect();
    let table: Vec<&str> = tweaks().iter().map(|t| t.id).collect();
    assert_eq!(ids, table);
}

#[test]
fn statuses_without_output_are_defaults() {
    let st = tweak_statuses(None);
    assert_eq!(st.len(), 34);
    assert!(st.iter().all(|s| !s.active));
}

#[test]
fn statuses_from_json_output() {
    let out = "  {\"visual\":true,\"power\":false,\"hags\":1,\"qos\":true}\r\n";
    let st = tweak_statuses(Some(out));
    let got: Vec<(&str, bool)> = st.iter().map(|s| (s.id.as_str(), s.active)).collect();
    assert_eq!(got, vec![("hags", false), ("power", false), ("qos", true), ("visual", true)]);
}

#[test]
fn statuses_from_bad_json_are_defaults() {
    assert_eq!(tweak_statuses(Some("not json")).len(), 34);
    assert_eq!(tweak_statuses(Some("[true]")).len(), 34);
    assert_eq!(tweak_statuses(Some("")).len(), 34);
}

#[test]
fn statuses_from_read_flags() {
    let st = statuses_from_flags(Some(vec![("x".to_string(), Some(true)), ("y".to_string(), None)]));
    assert_eq!(st.len(), 2);
    assert!(st[0].active && st[0].id == "x");
    assert!(!st[1].active);
    assert_eq!(statuses_from_flags(None).len(), 34);
}

#[test]
fn status_query_reads_every_tweak() {
    for t in tweaks() {
        let key = format!("$r.{}=", t.id);
        assert!(optipc::tweaks::TWEAK_STATUS_QUERY.contains(&key), "no state query for {}", t.id);
    }
    assert!(optipc::tweaks::TWEAK_STATUS_QUERY.contains("ConvertTo-Json -Compress"));
}
