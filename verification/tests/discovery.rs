use camera_bot::device::{
    add_discovered_camera, merge_cameras, add_local_camera, camera_url, capture_next, capture_source,
    ensure_local_camera, rtsp_url, CameraInfo, CaptureAction, CaptureEvent, CaptureSource,
    Ipv4Address,
};
use camera_bot::discovery::{
    apply_discovery_reply, bind_address, discovery_address, discovery_probe, probe_message,
    process_discovery_reply, reply_announces_camera, DiscoverySearch, SearchStep, XmlItem,
};

const REPLY: &str = r#"<?xml version="1.0" encoding="UTF-8"?>
<e:Envelope xmlns:e="http://www.w3.org/2003/05/soap-envelope" xmlns:d="http://schemas.xmlsoap.org/ws/2005/04/discovery" xmlns:dn="http://www.onvif.org/ver10/network/wsdl">
<e:Body><d:ProbeMatches><d:ProbeMatch><d:Types>dn:NetworkVideoTransmitter</d:Types></d:ProbeMatch></d:ProbeMatches></e:Body>
</e:Envelope>"#;

const OTHER_REPLY: &str = r#"<?xml version="1.0"?><a><b>Printer</b></a>"#;

#[test]
fn rtsp_url_of_camera() {
    assert_eq!(
        rtsp_url(Ipv4Address(192, 168, 0, 7)),
        "rtsp://192.168.0.7:554/user=admin&password=&channel=1&stream=0.sdp"
    );
}

#[test]
fn reply_naming_transmitter_adds_camera_once() {
    let mut cams: Vec<CameraInfo> = Vec::new();
    let ip = Ipv4Address(10, 1, 2, 3);
    process_discovery_reply(&mut cams, REPLY.as_bytes(), ip, 3702);
    assert_eq!(cams.len(), 1);
    assert_eq!(cams[0].ip_addres, ip);
    assert_eq!(cams[0].port, 3702);
    assert_eq!(cams[0].url, "rtsp://10.1.2.3:554/user=admin&password=&channel=1&stream=0.sdp");
    assert_eq!(cams[0].id.len(), 36);
    process_discovery_reply(&mut cams, REPLY.as_bytes(), ip, 4000);
    assert_eq!(cams.len(), 1);
    process_discovery_reply(&mut cams, REPLY.as_bytes(), Ipv4Address(10, 1, 2, 4), 1);
    assert_eq!(cams.len(), 2);
    assert_ne!(cams[0].id, cams[1].id);
}

#[test]
fn reply_without_transmitter_adds_nothing() {
    let mut cams: Vec<CameraInfo> = Vec::new();
    process_discovery_reply(&mut cams, OTHER_REPLY.as_bytes(), Ipv4Address(1, 1, 1, 1), 1);
    assert!(cams.is_empty());
    process_discovery_reply(&mut cams, b"NetworkVideoTransmitter <<<", Ipv4Address(1, 1, 1, 1), 1);
    assert!(cams.is_empty());
}

#[test]
fn announcing_items() {
    assert!(reply_announces_camera(&vec![
        XmlItem::Other,
        XmlItem::Characters("dn:NetworkVideoTransmitter tds:Device".to_string()),
    ]));
    assert!(!reply_announces_camera(&vec![XmlItem::Characters("Network".to_string()), XmlItem::Failed]));
}

#[test]
fn apply_reply_uses_given_id() {
    let mut cams = Vec::new();
    let items = vec![XmlItem::Characters("NetworkVideoTransmitter".to_string())];
    apply_discovery_reply(&mut cams, &items, Ipv4Address(8, 8, 8, 8), 9, "cam-1".to_string());
    assert_eq!(cams[0].id, "cam-1");
    apply_discovery_reply(&mut cams, &vec![XmlItem::Other], Ipv4Address(9, 9, 9, 9), 9, "x".to_string());
    assert_eq!(cams.len(), 1);
}

#[test]
fn add_discovered_camera_skips_known_address() {
    let mut cams = vec![CameraInfo::new("u".to_string(), Ipv4Address(1, 2, 3, 4), 1, "a".to_string())];
    add_discovered_camera(&mut cams, Ipv4Address(1, 2, 3, 4), 2, "b".to_string());
    assert_eq!(cams.len(), 1);
    assert_eq!(cams[0].id, "a");
}

#[test]
fn probe_message_carries_id() {
    let m = probe_message("1234");
    assert!(m.starts_with("<?xml version=\"1.0\" encoding=\"UTF-8\"?>\n"));
    assert!(m.contains("uuid:1234</w:MessageID>"));
    assert!(m.contains("<d:Types>dn:NetworkVideoTransmitter</d:Types>"));
    assert!(m.ends_with("</e:Envelope>"));
    let p = discovery_probe();
    assert_eq!(p.len(), m.len() + 32);
}

#[test]
fn discovery_addresses() {
    assert_eq!(discovery_address(), "239.255.255.250:3702");
    assert_eq!(bind_address(), "0.0.0.0:0");
}

#[test]
fn local_camera_is_added_only_to_empty_list() {
    let mut cams = Vec::new();
    add_local_camera(&mut cams, "id".to_string());
    assert_eq!(cams.len(), 1);
    assert_eq!(cams[0].url, "");
    assert_eq!(cams[0].ip_addres, Ipv4Address(127, 0, 0, 1));
    assert_eq!(cams[0].port, 1);
    add_local_camera(&mut cams, "other".to_string());
    assert_eq!(cams.len(), 1);
    let mut empty = Vec::new();
    ensure_local_camera(&mut empty);
    assert_eq!(empty.len(), 1);
    assert_eq!(empty[0].id.len(), 36);
    let id: Vec<char> = empty[0].id.chars().collect();
    for (i, c) in id.iter().enumerate() {
        if [8, 13, 18, 23].contains(&i) {
            assert_eq!(*c, '-');
        } else {
            assert!(c.is_ascii_hexdigit() && !c.is_ascii_uppercase());
        }
    }
    assert_eq!(id[14], '4');
}

#[test]
fn camera_url_by_index() {
    let cams = vec![CameraInfo::new("rtsp://x".to_string(), Ipv4Address(1, 1, 1, 1), 1, "a".to_string())];
    assert_eq!(camera_url(&cams, 0), "rtsp://x");
    assert_eq!(camera_url(&cams, 1), "");
}

#[test]
fn capture_source_by_url() {
    assert!(matches!(capture_source(""), CaptureSource::DefaultDevice));
    match capture_source("rtsp://h") {
        CaptureSource::Stream(u) => assert_eq!(u, "rtsp://h"),
        _ => panic!(),
    }
}

#[test]
fn capture_loop_decisions() {
    assert_eq!(capture_next(CaptureEvent::StopRequested), CaptureAction::Finish);
    assert_eq!(capture_next(CaptureEvent::Running), CaptureAction::ReadFrame);
    assert_eq!(capture_next(CaptureEvent::FrameRead), CaptureAction::SendFrame);
    assert_eq!(capture_next(CaptureEvent::ReadFailed), CaptureAction::Fail);
    assert_eq!(capture_next(CaptureEvent::FrameSent), CaptureAction::CheckStop);
    assert_eq!(capture_next(CaptureEvent::SendFailed), CaptureAction::Finish);
}

#[test]
fn search_schedule_probes_twice_and_waits_five_times_each() {
    let mut search = DiscoverySearch::new();
    let mut steps = Vec::new();
    loop {
        let step = search.next_step();
        steps.push(step);
        match step {
            SearchStep::SendProbe => search.probe_sent(),
            SearchStep::AwaitReply => search.no_reply(),
            SearchStep::Finish => break,
        }
    }
    let probes = steps.iter().filter(|s| **s == SearchStep::SendProbe).count();
    let waits = steps.iter().filter(|s| **s == SearchStep::AwaitReply).count();
    assert_eq!((probes, waits), (2, 10));
    assert_eq!(steps[0], SearchStep::SendProbe);
    assert_eq!(steps[6], SearchStep::SendProbe);
    assert_eq!(*steps.last().unwrap(), SearchStep::Finish);
    assert!(search.into_found().is_empty());
}

#[test]
fn search_collects_cameras_at_distinct_addresses() {
    let mut search = DiscoverySearch::new();
    search.probe_sent();
    search.reply_received(REPLY.as_bytes(), Ipv4Address(10, 0, 0, 1), 1);
    search.reply_received(REPLY.as_bytes(), Ipv4Address(10, 0, 0, 1), 2);
    search.reply_received(OTHER_REPLY.as_bytes(), Ipv4Address(10, 0, 0, 2), 3);
    search.no_reply();
    search.reply_received(REPLY.as_bytes(), Ipv4Address(10, 0, 0, 3), 4);
    assert_eq!(search.next_step(), SearchStep::SendProbe);
    let found = search.into_found();
    assert_eq!(found.len(), 2);
    assert_eq!(found[0].port, 1);
    assert_eq!(found[1].ip_addres, Ipv4Address(10, 0, 0, 3));
}

#[test]
fn merge_skips_known_addresses() {
    let mut known = vec![CameraInfo::new("k".to_string(), Ipv4Address(1, 1, 1, 1), 1, "k".to_string())];
    let found = vec![
        CameraInfo::new("a".to_string(), Ipv4Address(1, 1, 1, 1), 2, "a".to_string()),
        CameraInfo::new("b".to_string(), Ipv4Address(2, 2, 2, 2), 3, "b".to_string()),
        CameraInfo::new("c".to_string(), Ipv4Address(2, 2, 2, 2), 4, "c".to_string()),
    ];
    merge_cameras(&mut known, found);
    assert_eq!(known.len(), 2);
    assert_eq!(known[0].id, "k");
    assert_eq!(known[1].id, "b");
}
