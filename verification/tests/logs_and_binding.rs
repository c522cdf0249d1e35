use wasm3_provider::binding::ModuleSpec;
use wasm3_provider::kvmap::AssocMap;
use wasm3_provider::logsink::LogSink;
use wasm3_provider::status::{ContainerStatus, StatusChannel};

#[test]
fn log_round_trip_sees_all_bytes_once() {
    let mut sink = LogSink::new();
    sink.write(b"written before the handle, ");
    let mut early = sink.new_handle();
    sink.write(b"and after it");
    // A handle opened after writing completes observes everything from
    // offset zero: no truncation, no duplication.
    let mut late = sink.new_handle();
    assert_eq!(
        sink.read_to_end(&mut late),
        b"written before the handle, and after it".to_vec()
    );
    // The earlier, independently positioned handle sees the same bytes.
    assert_eq!(
        sink.read_to_end(&mut early),
        b"written before the handle, and after it".to_vec()
    );
    // A drained handle has nothing left.
    assert_eq!(sink.read_to_end(&mut late), Vec::<u8>::new());
    assert_eq!(sink.len(), 39);
}

#[test]
fn empty_sink_reads_empty() {
    let sink = LogSink::new();
    let mut h = sink.new_handle();
    assert_eq!(sink.read_to_end(&mut h), Vec::<u8>::new());
}

#[test]
fn status_channel_keeps_publication_order() {
    let mut chan = StatusChannel::new(7, "starting".to_string());
    chan.publish(ContainerStatus::Running { timestamp: 8 });
    chan.publish(ContainerStatus::Terminated {
        failed: false,
        message: "done".to_string(),
        timestamp: 9,
    });
    assert_eq!(chan.len(), 3);
    assert!(matches!(
        chan.status_at(0),
        ContainerStatus::Waiting { timestamp: 7, message } if message == "starting"
    ));
    assert!(matches!(chan.status_at(1), ContainerStatus::Running { timestamp: 8 }));
    assert!(matches!(
        chan.latest(),
        ContainerStatus::Terminated { failed: false, timestamp: 9, .. }
    ));
    assert!(chan.terminated());
}

#[test]
fn status_channel_latest_is_what_a_late_subscriber_sees() {
    let mut chan = StatusChannel::new(1, "waiting".to_string());
    assert!(!chan.terminated());
    chan.publish(ContainerStatus::Running { timestamp: 2 });
    assert!(matches!(chan.latest(), ContainerStatus::Running { timestamp: 2 }));
}

#[test]
fn late_subscriber_observes_latest_value_and_future_updates() {
    let mut chan = StatusChannel::new(1, "waiting".to_string());
    chan.publish(ContainerStatus::Running { timestamp: 2 });
    // Attaching now yields the most recent status, not the full history.
    let mut sub = chan.subscribe();
    assert!(matches!(
        chan.next_status(&mut sub),
        Some(ContainerStatus::Running { timestamp: 2 })
    ));
    assert!(chan.next_status(&mut sub).is_none());
    chan.publish(ContainerStatus::Terminated {
        failed: false,
        message: "done".to_string(),
        timestamp: 3,
    });
    assert!(matches!(
        chan.next_status(&mut sub),
        Some(ContainerStatus::Terminated { failed: false, .. })
    ));
    assert!(chan.next_status(&mut sub).is_none());
}

#[test]
fn guest_path_resolution() {
    let mut dirs: AssocMap<String, Option<String>> = AssocMap::new();
    dirs.insert("/tmp/data".to_string(), Some("/app/config".to_string()));
    dirs.insert("/tmp/cache".to_string(), None);
    let spec = ModuleSpec::new(vec![0x00], 1, AssocMap::new(), Vec::new(), dirs);
    // An alias maps the host path to the guest-visible one.
    assert_eq!(spec.guest_path(&"/tmp/data".to_string()), Some(&"/app/config".to_string()));
    // No alias: the same path is exposed verbatim.
    assert_eq!(spec.guest_path(&"/tmp/cache".to_string()), Some(&"/tmp/cache".to_string()));
    // An ungranted path resolves to nothing.
    assert_eq!(spec.guest_path(&"/etc".to_string()), None);
}

#[test]
fn environment_binding_keeps_keys_unique() {
    let mut env: AssocMap<String, String> = AssocMap::new();
    env.insert("PATH".to_string(), "/bin".to_string());
    env.insert("HOME".to_string(), "/root".to_string());
    env.insert("PATH".to_string(), "/usr/bin".to_string());
    assert_eq!(env.len(), 2);
    assert_eq!(env.get(&"PATH".to_string()), Some(&"/usr/bin".to_string()));
}
