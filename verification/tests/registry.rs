use wasm3_provider::kvmap::AssocMap;
use wasm3_provider::provider::{
    plan_containers, ModifyAction, Pod, PodEntry, PodId, Provider, ProviderError,
};
use wasm3_provider::runtime::{ExecutionContext, Step};
use wasm3_provider::status::ContainerStatus;

fn pod_id(namespace: &str, name: &str) -> PodId {
    PodId { namespace: namespace.to_string(), name: name.to_string() }
}

fn pod(namespace: &str, name: &str, containers: &[&str], deletion_timestamp: Option<i64>) -> Pod {
    Pod {
        id: pod_id(namespace, name),
        containers: containers.iter().map(|c| c.to_string()).collect(),
        deletion_timestamp,
    }
}

fn finished_entry(containers: &[&str]) -> PodEntry {
    let mut entry = PodEntry::new();
    for c in containers {
        let mut cx = ExecutionContext::new();
        for _ in 0..7 {
            cx.step_succeeded();
        }
        entry.add_container(c.to_string(), cx.into_handle());
    }
    entry
}

#[test]
fn add_then_get_finds_the_entry() {
    let mut provider = Provider::new();
    provider.add(pod_id("default", "web"), finished_entry(&["app"]));
    assert!(provider.contains(&pod_id("default", "web")));
    assert!(provider.get(&pod_id("default", "web")).is_some());
    assert!(!provider.contains(&pod_id("default", "api")));
    assert!(!provider.contains(&pod_id("other", "web")));
}

#[test]
fn delete_removes_the_entry() {
    let mut provider = Provider::new();
    provider.add(pod_id("default", "web"), finished_entry(&["app"]));
    assert!(provider.delete(&pod("default", "web", &["app"], None)));
    assert!(!provider.contains(&pod_id("default", "web")));
}

#[test]
fn delete_of_unknown_pod_succeeds_and_changes_nothing() {
    let mut provider = Provider::new();
    provider.add(pod_id("default", "web"), finished_entry(&["app"]));
    // Deleting a pod that was never added (or already deleted) is a no-op.
    assert!(!provider.delete(&pod("default", "gone", &[], None)));
    assert!(provider.contains(&pod_id("default", "web")));
    assert!(provider.delete(&pod("default", "web", &["app"], None)));
    assert!(!provider.delete(&pod("default", "web", &["app"], None)));
}

#[test]
fn plan_covers_every_container() {
    let p = pod("default", "web", &["app", "sidecar"], None);
    let mut modules: AssocMap<String, Vec<u8>> = AssocMap::new();
    modules.insert("app".to_string(), vec![1, 2, 3]);
    modules.insert("sidecar".to_string(), vec![4, 5]);
    let planned = plan_containers(&p, &modules).unwrap();
    assert_eq!(planned.len(), 2);
    assert_eq!(planned[0].0, "app");
    assert_eq!(planned[0].1, vec![1, 2, 3]);
    assert_eq!(planned[1].0, "sidecar");
    assert_eq!(planned[1].1, vec![4, 5]);
}

#[test]
fn missing_module_fails_fast_and_registers_nothing() {
    let mut provider = Provider::new();
    let p = pod("default", "web", &["app", "sidecar"], None);
    let mut modules: AssocMap<String, Vec<u8>> = AssocMap::new();
    modules.insert("app".to_string(), vec![1, 2, 3]);
    match plan_containers(&p, &modules) {
        Err(ProviderError::ModuleNotFound { container_name }) => {
            assert_eq!(container_name, "sidecar");
        }
        other => panic!("expected the internal-consistency error, got {:?}", other.is_ok()),
    }
    // The add never reaches registration, so no handle is tracked.
    assert!(!provider.contains(&p.id));
    assert!(provider.delete(&p) == false);
}

#[test]
fn modify_without_deletion_timestamp_is_ignored() {
    let mut provider = Provider::new();
    provider.add(pod_id("default", "web"), finished_entry(&["app"]));
    let action = provider.modify(&pod("default", "web", &["app"], None));
    assert!(matches!(action, Ok(ModifyAction::Ignore)));
    assert!(provider.contains(&pod_id("default", "web")));
}

#[test]
fn modify_of_unknown_pod_is_tolerated() {
    let provider = Provider::new();
    let action = provider.modify(&pod("default", "gone", &["app"], Some(1_700_000_000_000)));
    assert!(matches!(action, Ok(ModifyAction::Ignore)));
}

#[test]
fn modify_with_deletion_timestamp_requests_zero_grace_delete() {
    let mut provider = Provider::new();
    provider.add(pod_id("default", "web"), finished_entry(&["app", "sidecar"]));
    let action = provider.modify(&pod("default", "web", &["app", "sidecar"], Some(1_700_000_000_000)));
    match action {
        Ok(ModifyAction::DeletePod { namespace, name, grace_period_seconds }) => {
            assert_eq!(namespace, "default");
            assert_eq!(name, "web");
            assert_eq!(grace_period_seconds, 0);
        }
        other => panic!("expected a control-plane delete request, got err={}", other.is_err()),
    }
    // Stopping is advisory: the registry still tracks the pod until `delete`.
    assert!(provider.contains(&pod_id("default", "web")));
}

#[test]
fn modify_propagates_a_failed_containers_error() {
    let mut provider = Provider::new();
    let mut entry = PodEntry::new();
    // One container finished cleanly ...
    let mut ok_cx = ExecutionContext::new();
    for _ in 0..7 {
        ok_cx.step_succeeded();
    }
    entry.add_container("app".to_string(), ok_cx.into_handle());
    // ... and one failed while parsing its module.
    let mut bad_cx = ExecutionContext::new();
    bad_cx.step_succeeded();
    bad_cx.step_succeeded();
    bad_cx.step_failed("magic number mismatch".to_string());
    entry.add_container("sidecar".to_string(), bad_cx.into_handle());
    provider.add(pod_id("default", "web"), entry);

    let action = provider.modify(&pod(
        "default",
        "web",
        &["app", "sidecar"],
        Some(1_700_000_000_000),
    ));
    match action {
        Err(e) => {
            assert!(matches!(e.step, Step::ParseModule));
            assert_eq!(e.detail, "magic number mismatch");
        }
        Ok(_) => panic!("the failed run must be reported, not swallowed"),
    }
    // Nothing was removed: teardown stopped at the reported failure.
    assert!(provider.contains(&pod_id("default", "web")));
}

#[test]
fn latest_status_reports_the_terminal_transition() {
    let mut provider = Provider::new();
    provider.add(pod_id("default", "web"), finished_entry(&["app"]));
    let s = provider
        .latest_status(&"default".to_string(), &"web".to_string(), &"app".to_string())
        .unwrap();
    assert!(matches!(
        s,
        ContainerStatus::Terminated { failed: false, message, .. }
            if message == "Module run completed"
    ));
}

#[test]
fn latest_status_not_found_errors() {
    let mut provider = Provider::new();
    provider.add(pod_id("default", "web"), finished_entry(&["app"]));
    let r = provider.latest_status(&"default".to_string(), &"gone".to_string(), &"app".to_string());
    assert!(matches!(r, Err(ProviderError::PodNotFound { pod_name }) if pod_name == "gone"));
    let r = provider.latest_status(&"default".to_string(), &"web".to_string(), &"nope".to_string());
    assert!(matches!(
        r,
        Err(ProviderError::ContainerNotFound { container_name }) if container_name == "nope"
    ));
}

#[test]
fn logs_of_unknown_pod_is_pod_not_found() {
    let provider = Provider::new();
    let r = provider.logs(&"default".to_string(), &"web".to_string(), &"app".to_string());
    assert!(matches!(r, Err(ProviderError::PodNotFound { pod_name }) if pod_name == "web"));
}

#[test]
fn logs_of_unknown_container_is_container_not_found() {
    let mut provider = Provider::new();
    provider.add(pod_id("default", "web"), finished_entry(&["app"]));
    let r = provider.logs(&"default".to_string(), &"web".to_string(), &"nope".to_string());
    assert!(matches!(
        r,
        Err(ProviderError::ContainerNotFound { container_name }) if container_name == "nope"
    ));
}

#[test]
fn logs_stream_the_captured_output() {
    let mut provider = Provider::new();
    let mut entry = PodEntry::new();
    let mut cx = ExecutionContext::new();
    for _ in 0..6 {
        cx.step_succeeded();
    }
    cx.write_output(b"line one\n");
    cx.write_output(b"line two\n");
    cx.step_succeeded();
    entry.add_container("app".to_string(), cx.into_handle());
    provider.add(pod_id("default", "web"), entry);
    let bytes = provider
        .logs(&"default".to_string(), &"web".to_string(), &"app".to_string())
        .unwrap();
    assert_eq!(bytes, b"line one\nline two\n".to_vec());
}

#[test]
fn assoc_map_insert_get_remove() {
    let mut m: AssocMap<String, Vec<u8>> = AssocMap::new();
    assert!(m.get(&"k".to_string()).is_none());
    m.insert("k".to_string(), vec![1]);
    m.insert("l".to_string(), vec![2]);
    assert_eq!(m.get(&"k".to_string()), Some(&vec![1]));
    m.insert("k".to_string(), vec![9]);
    assert_eq!(m.get(&"k".to_string()), Some(&vec![9]));
    assert_eq!(m.len(), 2);
    assert_eq!(m.remove(&"k".to_string()), Some(vec![9]));
    assert!(m.remove(&"k".to_string()).is_none());
    assert!(m.contains_key(&"l".to_string()));
}
