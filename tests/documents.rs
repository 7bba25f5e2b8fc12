use core_dump_composer::config::{Compression, CoreConfig, CoreParams};
use core_dump_composer::events::CoreEvent;
use core_dump_composer::json::{json_object, json_string};

fn params() -> CoreParams {
    CoreParams {
        exe: "sleep".to_string(),
        pid: "42".to_string(),
        signal: "11".to_string(),
        timestamp: "1700000000".to_string(),
        hostname: "node-a".to_string(),
    }
}

fn config() -> CoreConfig {
    CoreConfig {
        log_level: "info".to_string(),
        ignore_crio: true,
        image_command: "img".to_string(),
        use_crio_config: false,
        crictl_config_path: "/etc/crictl.yaml".to_string(),
        bin_path: "/usr/bin".to_string(),
        compression: true,
        timeout: 600,
        core_events: false,
        event_location: "/var/events".to_string(),
        base_path: "/var/cores".to_string(),
        namespace: String::new(),
        params: params(),
    }
}

#[test]
fn json_string_quotes_and_escapes() {
    assert_eq!(json_string("abc"), "\"abc\"");
    assert_eq!(json_string("a\"b\\c\n"), "\"a\\\"b\\\\c\\n\"");
    assert_eq!(json_string(""), "\"\"");
    assert_eq!(json_string("\u{1}\u{1f}\u{8}\u{c}\r\t/\u{e9}"), "\"\\u0001\\u001f\\b\\f\\r\\t/\u{e9}\"");
}

#[test]
fn json_object_keeps_member_order() {
    let fields = vec![
        ("b".to_string(), "1".to_string()),
        ("a".to_string(), "x\"y".to_string()),
    ];
    assert_eq!(json_object(&fields), "{\"b\":\"1\",\"a\":\"x\\\"y\"}");
    assert_eq!(json_object(&vec![]), "{}");
}

#[test]
fn names_derive_from_the_template() {
    let c = config();
    assert_eq!(c.get_templated_name(), "1700000000-dump-node-a-sleep-42-11");
    assert_eq!(c.get_zip_name(), "1700000000-dump-node-a-sleep-42-11.zip");
    assert_eq!(c.get_zip_full_path(), "/var/cores/1700000000-dump-node-a-sleep-42-11.zip");
    assert_eq!(c.get_core_filename(), "1700000000-dump-node-a-sleep-42-11.core");
    assert_eq!(c.get_dump_info_filename(), "1700000000-dump-node-a-sleep-42-11-dump-info.json");
}

#[test]
fn dump_info_document() {
    let mut c = config();
    c.set_namespace("default".to_string());
    assert_eq!(c.namespace, "default");
    assert_eq!(
        c.get_dump_info(),
        "{\"dump_file\":\"1700000000-dump-node-a-sleep-42-11.core\",\"exe\":\"sleep\",\
         \"pid\":\"42\",\"signal\":\"11\",\"timestamp\":\"1700000000\",\
         \"hostname\":\"node-a\",\"namespace\":\"default\",\"image_command\":\"img\",\
         \"ignore_crio\":\"true\"}"
    );
}

#[test]
fn runtime_config_path_only_when_used() {
    let mut c = config();
    assert_eq!(c.runtime_config_path(), None);
    c.use_crio_config = true;
    assert_eq!(c.runtime_config_path(), Some("/etc/crictl.yaml".to_string()));
}

#[test]
fn compression_follows_the_flag() {
    let mut c = config();
    assert_eq!(c.compression_method(), Compression::Deflated);
    c.compression = false;
    assert_eq!(c.compression_method(), Compression::Stored);
}

#[test]
fn no_runtime_event_names_the_archive() {
    let c = config();
    let e = c.no_runtime_event();
    assert_eq!(e.zip_name, "1700000000-dump-node-a-sleep-42-11.zip");
    assert_eq!(e.params.pid, "42");
    assert_eq!(e.file_name(), "1700000000-dump-node-a-sleep-42-11.zip-event.json");
    assert_eq!(
        e.event_path("/var/events"),
        "/var/events/1700000000-dump-node-a-sleep-42-11.zip-event.json"
    );
}

#[test]
fn event_record_document() {
    let e = CoreEvent::new_no_crio(params(), "n.zip".to_string());
    assert_eq!(
        e.to_json(),
        "{\"exe\":\"sleep\",\"pid\":\"42\",\"signal\":\"11\",\"timestamp\":\"1700000000\",\
         \"hostname\":\"node-a\",\"zip_name\":\"n.zip\"}"
    );
}

#[test]
fn duplicate_params_are_equal() {
    let p = params();
    let d = p.duplicate();
    assert_eq!(d.exe, p.exe);
    assert_eq!(d.hostname, p.hostname);
}
