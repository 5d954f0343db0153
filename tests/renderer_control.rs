use ktv_casting::monitor::{remaining_secs, PositionMonitor};
use ktv_casting::renderer::{
    parse_u32, select_renderers, ActionRequest, ControlError, DlnaController, DlnaDevice, AV_TRANSPORT,
    RENDERING_CONTROL,
};
use ktv_casting::soap::{
    build_didl_lite_metadata, build_soap_envelope, extract_xml_tag_value, soap_action_header,
};
use ktv_casting::transport::{
    candidate_control_paths, extract_control_endpoint_from_debug, extract_host_proxy_path,
    normalize_control_path, parse_known_fields, BaseLocation, CompatRun,
};

fn base() -> BaseLocation {
    BaseLocation { scheme: "http".to_string(), host: "192.168.1.5".to_string(), port: Some(49152) }
}

fn device(services: &[&str]) -> DlnaDevice {
    DlnaDevice {
        friendly_name: "Living Room TV".to_string(),
        location: "http://192.168.1.5:49152/description.xml".to_string(),
        base: Some(base()),
        services: services.iter().map(|s| s.to_string()).collect(),
    }
}

fn fields(pairs: &[(&str, &str)]) -> Vec<(String, String)> {
    pairs.iter().map(|(k, v)| (k.to_string(), v.to_string())).collect()
}

#[test]
fn escapes_xml_special_characters() {
    let m = build_didl_lite_metadata("a<b>&'\"\r", "plain", None);
    assert!(m.contains("&lt;dc:title&gt;a&amp;lt;b&amp;gt;&amp;amp;&amp;apos;&amp;quot;&amp;#13;&lt;/dc:title&gt;"));
    assert!(m.contains("&gt;plain&lt;/res&gt;"));
}

#[test]
fn didl_metadata_is_escaped_once_more() {
    let m = build_didl_lite_metadata("t", "http://h/v?a=1&b=2", None);
    assert!(m.starts_with("&lt;DIDL-Lite"));
    assert!(m.contains("http-get:*:video/mp4:*"));
    assert!(m.contains("http://h/v?a=1&amp;amp;b=2"));
    assert!(!m.contains('<'));
    let custom = build_didl_lite_metadata("t", "u", Some("http-get:*:video/x-flv:*"));
    assert!(custom.contains("video/x-flv"));
}

#[test]
fn envelope_and_header_shape() {
    let e = build_soap_envelope("Play", "<InstanceID>0</InstanceID>");
    assert!(e.contains(
        "<u:Play xmlns:u=\"urn:schemas-upnp-org:service:AVTransport:1\"><InstanceID>0</InstanceID></u:Play>"
    ));
    assert!(e.starts_with("<?xml version=\"1.0\" encoding=\"UTF-8\"?>"));
    assert_eq!(
        soap_action_header("AVTransport", "Play"),
        "\"urn:schemas-upnp-org:service:AVTransport:1#Play\""
    );
}

#[test]
fn tag_scan_reads_malformed_replies() {
    let body = "<s:Body><RelTime>00:00:10</RelTime><Track>1</Track><TrackURI/><junk";
    assert_eq!(extract_xml_tag_value(body, "RelTime"), Some("00:00:10".to_string()));
    assert_eq!(extract_xml_tag_value(body, "Track"), Some("1".to_string()));
    assert_eq!(extract_xml_tag_value(body, "TrackURI"), Some(String::new()));
    assert_eq!(extract_xml_tag_value(body, "AbsTime"), None);
    assert_eq!(extract_xml_tag_value("<A>open only", "A"), None);
}

#[test]
fn known_fields_in_fixed_order() {
    let body = "<RelTime>00:00:10</RelTime><Track>3</Track><Other>x</Other>";
    assert_eq!(
        parse_known_fields(body),
        fields(&[("Track", "3"), ("RelTime", "00:00:10")])
    );
}

#[test]
fn normalizes_control_paths() {
    assert_eq!(normalize_control_path("AVTransport/control"), "/AVTransport/control");
    assert_eq!(normalize_control_path(" /ctl "), "/ctl");
    assert_eq!(normalize_control_path("http://h:1/x"), "http://h:1/x");
    assert_eq!(normalize_control_path("https://h/x"), "https://h/x");
}

#[test]
fn control_endpoint_from_description() {
    let d = "Service { service_type: URN, service_id: \"x\", control_endpoint: _urn:schemas-upnp-org:service:AVTransport_control , event_sub_endpoint: /ev }";
    assert_eq!(
        extract_control_endpoint_from_debug(d),
        Some("_urn:schemas-upnp-org:service:AVTransport_control".to_string())
    );
    assert_eq!(extract_control_endpoint_from_debug("no endpoint here"), None);
    let w = "control_endpoint: /upnphost/udhisapi.dll?control=uuid:1+urn:upnp-org:serviceId:AVTransport, event_sub_endpoint: /e";
    assert_eq!(
        extract_host_proxy_path(w),
        Some("/upnphost/udhisapi.dll?control=uuid:1+urn:upnp-org:serviceId:AVTransport".to_string())
    );
}

#[test]
fn candidates_are_ordered_and_unique() {
    let d = "control_endpoint: AVTransport/control, event_sub_endpoint: /ev";
    assert_eq!(
        candidate_control_paths(d),
        vec![
            "/AVTransport/control".to_string(),
            "/_urn:schemas-upnp-org:service:AVTransport_control".to_string(),
            "/upnp/control/AVTransport".to_string(),
            "/control/AVTransport".to_string(),
        ]
    );
    assert_eq!(candidate_control_paths("").len(), 4);
}

#[test]
fn fallback_stops_at_first_success() {
    let mut run = CompatRun::new(&base(), "", "GetPositionInfo", "<InstanceID>0</InstanceID>");
    assert_eq!(run.soap_action, "\"urn:schemas-upnp-org:service:AVTransport:1#GetPositionInfo\"");
    assert_eq!(
        run.next_url(),
        Some("http://192.168.1.5:49152/_urn:schemas-upnp-org:service:AVTransport_control".to_string())
    );
    // the standard invocation already failed; the first candidate answers 404
    assert_eq!(run.on_reply(Some(404), "not found"), None);
    assert_eq!(run.next_url(), Some("http://192.168.1.5:49152/AVTransport/control".to_string()));
    let got = run.on_reply(Some(200), "<RelTime>00:00:10</RelTime>");
    assert_eq!(got, Some(fields(&[("RelTime", "00:00:10")])));
    assert_eq!(run.next_url(), None);
    assert!(!run.is_exhausted());
}

#[test]
fn fallback_exhausts() {
    let b = BaseLocation { scheme: "https".to_string(), host: "tv".to_string(), port: None };
    let mut run = CompatRun::new(&b, "", "Stop", "<InstanceID>0</InstanceID>");
    assert_eq!(run.next_url(), Some("https://tv:443/_urn:schemas-upnp-org:service:AVTransport_control".to_string()));
    while run.next_url().is_some() {
        assert_eq!(run.on_reply(None, ""), None);
    }
    assert!(run.is_exhausted());
}

#[test]
fn requests_need_the_service() {
    let c = DlnaController::new();
    let tv = device(&[AV_TRANSPORT]);
    let stop: ActionRequest = c.stop(&tv).unwrap();
    assert_eq!(stop.action, "Stop");
    assert_eq!(stop.args_xml, "<InstanceID>0</InstanceID>");
    assert_eq!(stop.service_type, AV_TRANSPORT);
    assert_eq!(c.play(&tv).unwrap().args_xml, "<InstanceID>0</InstanceID><Speed>1</Speed>");
    assert_eq!(
        c.set_volume(&tv, 30).unwrap_err(),
        ControlError::ServiceNotSupported(RENDERING_CONTROL.to_string())
    );
    let both = device(&[AV_TRANSPORT, RENDERING_CONTROL]);
    assert_eq!(
        c.set_volume(&both, 30).unwrap().args_xml,
        "<InstanceID>0</InstanceID><Channel>Master</Channel><DesiredVolume>30</DesiredVolume>"
    );
    let mut lost = device(&[AV_TRANSPORT]);
    lost.base = None;
    assert_eq!(c.pause(&lost).unwrap_err(), ControlError::BadLocation);
}

#[test]
fn set_uri_builds_metadata_when_blank() {
    let c = DlnaController::new();
    let tv = device(&[AV_TRANSPORT]);
    let r = c.set_avtransport_uri(&tv, "http://x/a&b", "  ").unwrap();
    assert_eq!(r.action, "SetAVTransportURI");
    assert!(r.args_xml.starts_with("<InstanceID>0</InstanceID><CurrentURI>http://x/a&amp;b</CurrentURI><CurrentURIMetaData>&lt;DIDL-Lite"));
    let given = c.set_next_avtransport_uri(&tv, "u", "META").unwrap();
    assert_eq!(
        given.args_xml,
        "<InstanceID>0</InstanceID><NextURI>u</NextURI><NextURIMetaData>META</NextURIMetaData>"
    );
}

#[test]
fn progress_from_position_info() {
    let c = DlnaController::new();
    let f = fields(&[("RelTime", "00:00:59"), ("TrackDuration", "00:01:00")]);
    assert_eq!(c.get_secs(&f), Ok((59, 60)));
    let abs = fields(&[("RelTime", "0:00:30"), ("AbsTime", "0:01:30")]);
    assert_eq!(c.get_secs(&abs), Ok((30, 90)));
    let unknown = fields(&[("RelTime", "NOT_IMPLEMENTED"), ("TrackDuration", "00:03:00")]);
    assert_eq!(c.get_secs(&unknown), Ok((0, 0)));
    assert_eq!(c.get_secs(&Vec::new()), Ok((0, 0)));
    let bad = fields(&[("RelTime", "garbage"), ("TrackDuration", "00:03:00")]);
    assert!(c.get_secs(&bad).is_err());
}

#[test]
fn state_and_volume_defaults() {
    let c = DlnaController::new();
    assert_eq!(c.playback_state_from_response(&Vec::new()), "UNKNOWN");
    assert_eq!(
        c.playback_state_from_response(&fields(&[("CurrentTransportState", "PLAYING")])),
        "PLAYING"
    );
    assert_eq!(c.volume_from_response(&fields(&[("CurrentVolume", "35")])), 35);
    assert_eq!(c.volume_from_response(&fields(&[("CurrentVolume", "loud")])), 0);
    assert_eq!(c.volume_from_response(&Vec::new()), 0);
}

#[test]
fn reads_u32_like_std() {
    assert_eq!(parse_u32("0"), Some(0));
    assert_eq!(parse_u32("+7"), Some(7));
    assert_eq!(parse_u32("4294967295"), Some(4294967295));
    assert_eq!(parse_u32("4294967296"), None);
    assert_eq!(parse_u32(""), None);
    assert_eq!(parse_u32("+"), None);
    assert_eq!(parse_u32("-1"), None);
    assert_eq!(parse_u32("12a"), None);
}

#[test]
fn picks_each_renderer_once() {
    let mut same_place = device(&[AV_TRANSPORT]);
    same_place.friendly_name = "Duplicate".to_string();
    let mut other_place = device(&[AV_TRANSPORT]);
    other_place.location = "http://192.168.1.6:1400/xml/device_description.xml".to_string();
    let kinds: Vec<String> = [
        "urn:schemas-upnp-org:device:MediaServer:1",
        "urn:schemas-upnp-org:device:MediaRenderer:1",
        "urn:schemas-upnp-org:device:MediaRenderer:1",
        "urn:schemas-upnp-org:device:MediaRenderer:1",
        "urn:schemas-upnp-org:device:MediaRenderer:1",
    ]
    .iter()
    .map(|s| s.to_string())
    .collect();
    let devices = vec![
        device(&[AV_TRANSPORT]),
        device(&[RENDERING_CONTROL]),
        device(&[AV_TRANSPORT]),
        same_place,
        other_place,
    ];
    assert_eq!(select_renderers(&kinds, &devices), vec![2, 4]);
}

#[test]
fn near_end_progress_requests_next_once() {
    let c = DlnaController::new();
    let f = fields(&[("RelTime", "00:00:59"), ("TrackDuration", "00:01:00")]);
    let (current, total) = c.get_secs(&f).unwrap();
    assert_eq!((current, total), (59, 60));
    assert_eq!(remaining_secs(current, total), 1);
    let mut monitor = PositionMonitor::new();
    let mut requests = 0;
    for tick in 0..5u64 {
        if monitor.on_tick(10_000 + tick * 1000, current, total, None) {
            requests += 1;
        }
    }
    assert_eq!(requests, 1);
    assert!(monitor.on_tick(15_000, current, total, None) == false);
    monitor.on_next_confirmed(15_000);
    assert!(!monitor.on_tick(19_999, current, total, None));
    assert!(monitor.on_tick(20_000, current, total, None));
}
