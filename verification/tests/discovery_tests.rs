use multipeerconnectivity::discovery::discovery_info_from_json;
use multipeerconnectivity::{discovery_info_cstring, DiscoveryInfo};

#[test]
fn a_stored_value_reads_back() {
    let mut info = DiscoveryInfo::new();
    assert_eq!(info.len(), 0);
    assert_eq!(info.insert("role".into(), "host".into()), None);
    assert_eq!(info.insert("mode".into(), "fast".into()), None);
    assert_eq!(info.get(&"role".to_string()), Some(&"host".to_string()));
    assert_eq!(info.insert("role".into(), "guest".into()), Some("host".to_string()));
    assert_eq!(info.get(&"role".to_string()), Some(&"guest".to_string()));
    assert_eq!(info.get(&"mode".to_string()), Some(&"fast".to_string()));
    assert_eq!(info.get(&"other".to_string()), None);
    assert_eq!(info.len(), 2);
    assert_eq!(
        info.entries(),
        &vec![
            ("role".to_string(), "guest".to_string()),
            ("mode".to_string(), "fast".to_string())
        ]
    );
}


#[test]
fn discovery_info_reads_back_from_json() {
    let info = discovery_info_from_json("{\"role\":\"host\",\"a b\":\"\"}").expect("object");
    assert_eq!(info.len(), 2);
    assert_eq!(info.get(&"role".to_string()), Some(&"host".to_string()));
    assert_eq!(info.get(&"a b".to_string()), Some(&String::new()));
    assert!(discovery_info_from_json("not json").is_none());
    assert!(discovery_info_from_json("[1]").is_none());
    assert!(discovery_info_from_json("{\"k\":1}").is_none());
    let empty = discovery_info_from_json("{}").expect("empty object");
    assert_eq!(empty.len(), 0);
}

#[test]
fn written_discovery_info_reads_back() {
    let mut info = DiscoveryInfo::new();
    info.insert("role".into(), "host=1 caf\u{e9}".into());
    info.insert("k".into(), "\"quoted\" \\ text".into());
    let json = discovery_info_cstring(Some(&info)).expect("valid").expect("present");
    let text = std::str::from_utf8(&json[..json.len() - 1]).expect("utf-8");
    let back = discovery_info_from_json(text).expect("object");
    assert_eq!(back.len(), 2);
    assert_eq!(back.get(&"role".to_string()), Some(&"host=1 caf\u{e9}".to_string()));
    assert_eq!(back.get(&"k".to_string()), Some(&"\"quoted\" \\ text".to_string()));
}
