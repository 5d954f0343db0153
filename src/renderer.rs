use vstd::prelude::*;
use crate::soap::{build_didl_lite_metadata, didl_text, xml_escape, xml_escaped, DEFAULT_PROTOCOL_INFO};
use crate::text::{chars_equal, find_chars, find_from, chars_of, digit_value, is_digit, push_decimal, decimal, string_of, trim_chars, trimmed};
use crate::timefmt::{is_unknown_time, parse_time_str, time_seconds, unknown_time, TimeParseError};
use crate::transport::{fields_view, strings_view, BaseLocation};

verus! {

pub const AV_TRANSPORT: &'static str = "urn:schemas-upnp-org:service:AVTransport:1";

pub const RENDERING_CONTROL: &'static str = "urn:schemas-upnp-org:service:RenderingControl:1";

/// A media renderer found on the network: its name, where its description lives, that
/// location's scheme, host and port (`None` where it could not be read), and the service
/// types it advertises. Fixed once discovered.
#[derive(Debug, Clone)]
pub struct DlnaDevice {
    pub friendly_name: String,
    pub location: String,
    pub base: Option<BaseLocation>,
    pub services: Vec<String>,
}

/// Why a renderer operation could not be carried out.
#[derive(Debug, Clone, PartialEq, Eq)]
pub enum ControlError {
    /// The device does not advertise the service type the operation needs.
    ServiceNotSupported(String),
    /// The device's description location has no scheme or host.
    BadLocation,
    /// The standard invocation and every fallback endpoint failed for this action.
    ProtocolExhausted(String),
    /// A transport failure, with its message.
    Transport(String),
}

/// One control action to deliver: the service type it goes to, its name, its argument XML,
/// and the base location of the device.
#[derive(Debug, Clone)]
pub struct ActionRequest {
    pub service_type: String,
    pub action: String,
    pub args_xml: String,
    pub base: BaseLocation,
}

pub open spec fn has_service(d: DlnaDevice, service: Seq<char>) -> bool {
    strings_view(d.services@).contains(service)
}

/// `r` is the request for `action` with `args` on `service` of `d`, or why there is none:
/// a missing service (named in the error) is reported before a missing location.
pub open spec fn request_matches(
    r: Result<ActionRequest, ControlError>,
    d: DlnaDevice,
    service: Seq<char>,
    action: Seq<char>,
    args: Seq<char>,
) -> bool {
    match r {
        Ok(q) => has_service(d, service) && d.base == Some(q.base) && q.service_type@ == service
            && q.action@ == action && q.args_xml@ == args,
        Err(ControlError::ServiceNotSupported(s)) => !has_service(d, service) && s@ == service,
        Err(ControlError::BadLocation) => has_service(d, service) && d.base is None,
        Err(_) => false,
    }
}

pub open spec fn instance_args() -> Seq<char> {
    "<InstanceID>0</InstanceID>"@
}

/// The metadata sent with a URI: the caller's, or generated DIDL-Lite when it is blank.
pub open spec fn metadata_for(uri: Seq<char>, metadata: Seq<char>) -> Seq<char> {
    if trimmed(metadata).len() == 0 {
        xml_escaped(didl_text(uri, DEFAULT_PROTOCOL_INFO@, uri))
    } else {
        metadata
    }
}

pub open spec fn set_uri_args(uri: Seq<char>, metadata: Seq<char>) -> Seq<char> {
    "<InstanceID>0</InstanceID><CurrentURI>"@ + xml_escaped(uri) + "</CurrentURI><CurrentURIMetaData>"@
        + metadata_for(uri, metadata) + "</CurrentURIMetaData>"@
}

pub open spec fn set_next_uri_args(uri: Seq<char>, metadata: Seq<char>) -> Seq<char> {
    "<InstanceID>0</InstanceID><NextURI>"@ + xml_escaped(uri) + "</NextURI><NextURIMetaData>"@
        + metadata_for(uri, metadata) + "</NextURIMetaData>"@
}

pub open spec fn set_volume_args(volume: nat) -> Seq<char> {
    "<InstanceID>0</InstanceID><Channel>Master</Channel><DesiredVolume>"@ + decimal(volume)
        + "</DesiredVolume>"@
}

/// The value of the first field named `key`, searching from index `i`.
pub open spec fn lookup_from(f: Seq<(Seq<char>, Seq<char>)>, key: Seq<char>, i: int) -> Option<Seq<char>>
    decreases f.len() - i,
{
    if i < 0 || i >= f.len() {
        None
    } else if f[i].0 == key {
        Some(f[i].1)
    } else {
        lookup_from(f, key, i + 1)
    }
}

pub open spec fn lookup(f: Seq<(Seq<char>, Seq<char>)>, key: Seq<char>) -> Option<Seq<char>> {
    lookup_from(f, key, 0)
}

pub open spec fn or_default(o: Option<Seq<char>>, d: Seq<char>) -> Seq<char> {
    match o {
        Some(v) => v,
        None => d,
    }
}

/// Playback progress from GetPositionInfo fields, as (current, total) seconds: `RelTime`
/// against `TrackDuration` (or `AbsTime` where that is missing), a missing field counting as
/// `00:00:00`; (0, 0) when either is an unknown-time value; an error when either cannot be
/// read as a time.
pub open spec fn progress_of(f: Seq<(Seq<char>, Seq<char>)>) -> Option<(nat, nat)> {
    let zero = "00:00:00"@;
    let rel = or_default(lookup(f, "RelTime"@), zero);
    let dur = match lookup(f, "TrackDuration"@) {
        Some(d) => d,
        None => or_default(lookup(f, "AbsTime"@), zero),
    };
    if unknown_time(rel) || unknown_time(dur) {
        Some((0, 0))
    } else {
        match (time_seconds(dur), time_seconds(rel)) {
            (Some(t), Some(c)) => Some((c, t)),
            _ => None,
        }
    }
}

pub open spec fn all_digits(s: Seq<char>) -> bool {
    forall|i: int| 0 <= i < s.len() ==> is_digit(s[i])
}

pub open spec fn digits_value(s: Seq<char>) -> nat
    decreases s.len(),
{
    if s.len() == 0 {
        0
    } else {
        digits_value(s.drop_last()) * 10 + digit_value(s.last())
    }
}

/// What `str::parse::<u32>` reads: decimal digits after an optional `+`, within range.
pub open spec fn u32_text_value(s: Seq<char>) -> Option<nat> {
    let d = if s.len() > 0 && s[0] == '+' {
        s.drop_first()
    } else {
        s
    };
    if d.len() > 0 && all_digits(d) && digits_value(d) <= u32::MAX {
        Some(digits_value(d))
    } else {
        None
    }
}

/// Reads a decimal `u32` as `str::parse` does.
pub fn parse_u32(s: &str) -> (r: Option<u32>)
    ensures
        match r {
            Some(n) => u32_text_value(s@) == Some(n as nat),
            None => u32_text_value(s@) is None,
        },
{
    let v = chars_of(s);
    let start: usize = if v.len() > 0 && v[0] == '+' { 1 } else { 0 };
    let ghost d = if s@.len() > 0 && s@[0] == '+' { s@.drop_first() } else { s@ };
    assert(d =~= v@.subrange(start as int, v@.len() as int));
    if start >= v.len() {
        return None;
    }
    let big: u64 = 0x1_0000_0000;
    let mut acc: u64 = 0;
    let mut i: usize = start;
    while i < v.len()
        invariant
            start <= i <= v@.len(),
            v@ == s@,
            big == 0x1_0000_0000u64,
            d == (if s@.len() > 0 && s@[0] == '+' { s@.drop_first() } else { s@ }),
            d == v@.subrange(start as int, v@.len() as int),
            all_digits(v@.subrange(start as int, i as int)),
            acc <= big,
            acc == (if digits_value(v@.subrange(start as int, i as int)) < big {
                digits_value(v@.subrange(start as int, i as int))
            } else {
                big as nat
            }),
        decreases v@.len() - i,
    {
        let c = v[i];
        if !('0' <= c && c <= '9') {
            assert(d[i - start] == c);
            assert(!is_digit(d[i - start]));
            assert(!all_digits(d));
            return None;
        }
        let dv = (c as u32 - '0' as u32) as u64;
        assert(dv < 10);
        let ghost p = v@.subrange(start as int, i as int);
        let ghost q = v@.subrange(start as int, i + 1);
        assert(q.drop_last() =~= p);
        assert(digits_value(q) == digits_value(p) * 10 + dv);
        if acc >= big {
            acc = big;
        } else {
            assert(acc * 10 + dv < 0x10_0000_0000u64) by (nonlinear_arith)
                requires acc < 0x1_0000_0000u64, dv < 10;
            let n = acc * 10 + dv;
            acc = if n >= big { big } else { n };
        }
        proof {
            if digits_value(p) >= big {
                assert(digits_value(q) >= big) by (nonlinear_arith)
                    requires digits_value(q) == digits_value(p) * 10 + dv, digits_value(p) >= big;
            }
        }
        i += 1;
        assert(all_digits(v@.subrange(start as int, i as int)));
    }
    if acc >= big {
        None
    } else {
        Some(acc as u32)
    }
}

/// The value of the first field named `key`.
pub fn field_value(fields: &Vec<(String, String)>, key: &str) -> (r: Option<String>)
    ensures
        match r {
            Some(v) => lookup(fields_view(fields@), key@) == Some(v@),
            None => lookup(fields_view(fields@), key@) is None,
        },
{
    let k = String::from_str(key);
    let mut i: usize = 0;
    while i < fields.len()
        invariant
            i <= fields@.len(),
            k@ == key@,
            lookup(fields_view(fields@), key@) == lookup_from(fields_view(fields@), key@, i as int),
        decreases fields@.len() - i,
    {
        assert(fields_view(fields@)[i as int] == (fields@[i as int].0@, fields@[i as int].1@));
        if fields[i].0 == k {
            return Some(fields[i].1.clone());
        }
        i += 1;
    }
    None
}

fn field_or(fields: &Vec<(String, String)>, key: &str, default: &str) -> (r: String)
    ensures
        r@ == or_default(lookup(fields_view(fields@), key@), default@),
{
    match field_value(fields, key) {
        Some(v) => v,
        None => String::from_str(default),
    }
}

/// A discovered device is a renderer worth offering: its device type names a
/// `MediaRenderer` and it advertises the AVTransport service.
pub open spec fn is_renderer(kind: Seq<char>, d: DlnaDevice) -> bool {
    find_from(kind, "MediaRenderer"@, 0) is Some && has_service(d, AV_TRANSPORT@)
}

pub open spec fn location_taken(devices: Seq<DlnaDevice>, kept: Seq<usize>, loc: Seq<char>) -> bool {
    exists|j: int| 0 <= j < kept.len() && devices[kept[j] as int].location@ == loc
}

/// Indices, among the first `n` discovered devices, of the renderers to offer: each renderer
/// once per description location, the first one found at that location kept.
pub open spec fn renderers_kept(kinds: Seq<Seq<char>>, devices: Seq<DlnaDevice>, n: int) -> Seq<usize>
    decreases n,
{
    if n <= 0 {
        seq![]
    } else {
        let before = renderers_kept(kinds, devices, n - 1);
        let i = n - 1;
        if is_renderer(kinds[i], devices[i]) && !location_taken(devices, before, devices[i].location@) {
            before.push(i as usize)
        } else {
            before
        }
    }
}

proof fn lemma_kept_below(kinds: Seq<Seq<char>>, devices: Seq<DlnaDevice>, n: int)
    requires
        0 <= n <= usize::MAX,
    ensures
        forall|j: int| 0 <= j < renderers_kept(kinds, devices, n).len() ==> renderers_kept(kinds, devices, n)[j] < n,
    decreases n,
{
    if n > 0 {
        lemma_kept_below(kinds, devices, n - 1);
        let before = renderers_kept(kinds, devices, n - 1);
        let now = renderers_kept(kinds, devices, n);
        assert forall|j: int| 0 <= j < now.len() implies now[j] < n by {
            if j < before.len() {
                assert(now[j] == before[j]);
            } else {
                assert(now[j] == (n - 1) as usize);
            }
        }
    }
}

fn has_service_type(d: &DlnaDevice, service: &str) -> (r: bool)
    ensures
        r == has_service(*d, service@),
{
    let wanted = String::from_str(service);
    let mut i: usize = 0;
    while i < d.services.len()
        invariant
            i <= d.services@.len(),
            wanted@ == service@,
            forall|j: int| 0 <= j < i ==> d.services@[j]@ != service@,
        decreases d.services@.len() - i,
    {
        if d.services[i] == wanted {
            assert(strings_view(d.services@)[i as int] == service@);
            return true;
        }
        i += 1;
    }
    proof {
        if has_service(*d, service@) {
            let j = choose|j: int| 0 <= j < strings_view(d.services@).len() && strings_view(d.services@)[j] == service@;
            assert(d.services@[j]@ == service@);
        }
    }
    false
}

/// Picks, from what discovery found (each device with its device type), the renderers to
/// offer, one per description location.
pub fn select_renderers(kinds: &Vec<String>, devices: &Vec<DlnaDevice>) -> (r: Vec<usize>)
    requires
        kinds@.len() == devices@.len(),
    ensures
        r@ == renderers_kept(strings_view(kinds@), devices@, devices@.len() as int),
{
    let marker = chars_of("MediaRenderer");
    let mut kept: Vec<usize> = Vec::new();
    let mut i: usize = 0;
    while i < devices.len()
        invariant
            i <= devices@.len(),
            kinds@.len() == devices@.len(),
            marker@ == "MediaRenderer"@,
            kept@ == renderers_kept(strings_view(kinds@), devices@, i as int),
        decreases devices@.len() - i,
    {
        proof {
            lemma_kept_below(strings_view(kinds@), devices@, i as int);
        }
        let kind = chars_of(kinds[i].as_str());
        assert(strings_view(kinds@)[i as int] == kinds@[i as int]@);
        let wanted = find_chars(&kind, &marker, 0).is_some() && has_service_type(&devices[i], AV_TRANSPORT);
        let mut taken = false;
        if wanted {
            let loc = chars_of(devices[i].location.as_str());
            let mut k: usize = 0;
            while k < kept.len() && !taken
                invariant
                    k <= kept@.len(),
                    i < devices@.len(),
                    loc@ == devices@[i as int].location@,
                    forall|j: int| 0 <= j < kept@.len() ==> kept@[j] < i,
                    taken ==> location_taken(devices@, kept@, loc@),
                    !taken ==> forall|j: int| 0 <= j < k ==> devices@[kept@[j] as int].location@ != loc@,
                decreases kept@.len() - k + (if taken { 0int } else { 1 }),
            {
                let other = chars_of(devices[kept[k]].location.as_str());
                if chars_equal(&other, &loc) {
                    taken = true;
                } else {
                    k += 1;
                }
            }
            proof {
                if !taken {
                    assert(!location_taken(devices@, kept@, loc@));
                }
            }
        }
        if wanted && !taken {
            kept.push(i);
        }
        i += 1;
    }
    kept
}

/// Controls renderers: builds each typed action for a device and reads the replies.
#[derive(Debug, Clone, Copy)]
pub struct DlnaController;

impl DlnaController {
    pub fn new() -> (r: DlnaController) {
        DlnaController
    }

    fn request(&self, device: &DlnaDevice, service: &str, action: &str, args: String) -> (r: Result<
        ActionRequest,
        ControlError,
    >)
        ensures
            request_matches(r, *device, service@, action@, args@),
    {
        let wanted = String::from_str(service);
        let mut i: usize = 0;
        let mut found = false;
        while i < device.services.len() && !found
            invariant
                i <= device.services@.len(),
                wanted@ == service@,
                found ==> has_service(*device, service@),
                !found ==> forall|j: int| 0 <= j < i ==> device.services@[j]@ != service@,
            decreases device.services@.len() - i + (if found { 0int } else { 1 }),
        {
            if device.services[i] == wanted {
                assert(strings_view(device.services@)[i as int] == service@);
                found = true;
            } else {
                i += 1;
            }
        }
        if !found {
            proof {
                if has_service(*device, service@) {
                    let j = choose|j: int| 0 <= j < strings_view(device.services@).len()
                        && strings_view(device.services@)[j] == service@;
                    assert(device.services@[j]@ == service@);
                }
            }
            return Err(ControlError::ServiceNotSupported(wanted));
        }
        match &device.base {
            Some(b) => Ok(
                ActionRequest {
                    service_type: wanted,
                    action: String::from_str(action),
                    args_xml: args,
                    base: BaseLocation { scheme: b.scheme.clone(), host: b.host.clone(), port: b.port },
                },
            ),
            None => Err(ControlError::BadLocation),
        }
    }

    fn uri_metadata(uri: &str, metadata: &str) -> (r: String)
        ensures
            r@ == metadata_for(uri@, metadata@),
    {
        let m = chars_of(metadata);
        let t = trim_chars(&m);
        if t.len() == 0 {
            build_didl_lite_metadata(uri, uri, None)
        } else {
            String::from_str(metadata)
        }
    }

    /// SetAVTransportURI for `media_url`; blank metadata is replaced by generated DIDL-Lite.
    pub fn set_avtransport_uri(&self, device: &DlnaDevice, media_url: &str, current_uri_metadata: &str) -> (r:
        Result<ActionRequest, ControlError>)
        ensures
            request_matches(r, *device, AV_TRANSPORT@, "SetAVTransportURI"@, set_uri_args(media_url@, current_uri_metadata@)),
    {
        let mut a = String::from_str("<InstanceID>0</InstanceID><CurrentURI>");
        a.append(xml_escape(media_url).as_str());
        a.append("</CurrentURI><CurrentURIMetaData>");
        a.append(Self::uri_metadata(media_url, current_uri_metadata).as_str());
        a.append("</CurrentURIMetaData>");
        assert(a@ =~= set_uri_args(media_url@, current_uri_metadata@));
        self.request(device, AV_TRANSPORT, "SetAVTransportURI", a)
    }

    /// SetNextAVTransportURI for `next_uri`; blank metadata is replaced by generated DIDL-Lite.
    pub fn set_next_avtransport_uri(&self, device: &DlnaDevice, next_uri: &str, next_uri_metadata: &str) -> (r:
        Result<ActionRequest, ControlError>)
        ensures
            request_matches(r, *device, AV_TRANSPORT@, "SetNextAVTransportURI"@, set_next_uri_args(next_uri@, next_uri_metadata@)),
    {
        let mut a = String::from_str("<InstanceID>0</InstanceID><NextURI>");
        a.append(xml_escape(next_uri).as_str());
        a.append("</NextURI><NextURIMetaData>");
        a.append(Self::uri_metadata(next_uri, next_uri_metadata).as_str());
        a.append("</NextURIMetaData>");
        assert(a@ =~= set_next_uri_args(next_uri@, next_uri_metadata@));
        self.request(device, AV_TRANSPORT, "SetNextAVTransportURI", a)
    }

    /// Play at normal speed.
    pub fn play(&self, device: &DlnaDevice) -> (r: Result<ActionRequest, ControlError>)
        ensures
            request_matches(r, *device, AV_TRANSPORT@, "Play"@, "<InstanceID>0</InstanceID><Speed>1</Speed>"@),
    {
        self.request(device, AV_TRANSPORT, "Play", String::from_str("<InstanceID>0</InstanceID><Speed>1</Speed>"))
    }

    pub fn pause(&self, device: &DlnaDevice) -> (r: Result<ActionRequest, ControlError>)
        ensures
            request_matches(r, *device, AV_TRANSPORT@, "Pause"@, instance_args()),
    {
        self.request(device, AV_TRANSPORT, "Pause", String::from_str("<InstanceID>0</InstanceID>"))
    }

    pub fn stop(&self, device: &DlnaDevice) -> (r: Result<ActionRequest, ControlError>)
        ensures
            request_matches(r, *device, AV_TRANSPORT@, "Stop"@, instance_args()),
    {
        self.request(device, AV_TRANSPORT, "Stop", String::from_str("<InstanceID>0</InstanceID>"))
    }

    pub fn next(&self, device: &DlnaDevice) -> (r: Result<ActionRequest, ControlError>)
        ensures
            request_matches(r, *device, AV_TRANSPORT@, "Next"@, instance_args()),
    {
        self.request(device, AV_TRANSPORT, "Next", String::from_str("<InstanceID>0</InstanceID>"))
    }

    pub fn get_transport_info(&self, device: &DlnaDevice) -> (r: Result<ActionRequest, ControlError>)
        ensures
            request_matches(r, *device, AV_TRANSPORT@, "GetTransportInfo"@, instance_args()),
    {
        self.request(device, AV_TRANSPORT, "GetTransportInfo", String::from_str("<InstanceID>0</InstanceID>"))
    }

    pub fn get_position_info(&self, device: &DlnaDevice) -> (r: Result<ActionRequest, ControlError>)
        ensures
            request_matches(r, *device, AV_TRANSPORT@, "GetPositionInfo"@, instance_args()),
    {
        self.request(device, AV_TRANSPORT, "GetPositionInfo", String::from_str("<InstanceID>0</InstanceID>"))
    }

    pub fn get_media_info(&self, device: &DlnaDevice) -> (r: Result<ActionRequest, ControlError>)
        ensures
            request_matches(r, *device, AV_TRANSPORT@, "GetMediaInfo"@, instance_args()),
    {
        self.request(device, AV_TRANSPORT, "GetMediaInfo", String::from_str("<InstanceID>0</InstanceID>"))
    }

    /// The GetTransportInfo request whose reply `playback_state_from_response` reads.
    pub fn get_playback_state(&self, device: &DlnaDevice) -> (r: Result<ActionRequest, ControlError>)
        ensures
            request_matches(r, *device, AV_TRANSPORT@, "GetTransportInfo"@, instance_args()),
    {
        self.get_transport_info(device)
    }

    /// SetVolume on the master channel, through the RenderingControl service.
    pub fn set_volume(&self, device: &DlnaDevice, volume: u32) -> (r: Result<ActionRequest, ControlError>)
        ensures
            request_matches(r, *device, RENDERING_CONTROL@, "SetVolume"@, set_volume_args(volume as nat)),
    {
        let mut out: Vec<char> = Vec::new();
        crate::text::append_chars(&mut out, "<InstanceID>0</InstanceID><Channel>Master</Channel><DesiredVolume>");
        push_decimal(&mut out, volume as u64);
        crate::text::append_chars(&mut out, "</DesiredVolume>");
        assert(out@ =~= set_volume_args(volume as nat));
        let a = string_of(&out, 0, out.len());
        assert(out@.subrange(0, out@.len() as int) =~= out@);
        self.request(device, RENDERING_CONTROL, "SetVolume", a)
    }

    /// GetVolume of the master channel, through the RenderingControl service; its reply is
    /// read by `volume_from_response`.
    pub fn get_volume(&self, device: &DlnaDevice) -> (r: Result<ActionRequest, ControlError>)
        ensures
            request_matches(r, *device, RENDERING_CONTROL@, "GetVolume"@, "<InstanceID>0</InstanceID><Channel>Master</Channel>"@),
    {
        self.request(device, RENDERING_CONTROL, "GetVolume", String::from_str("<InstanceID>0</InstanceID><Channel>Master</Channel>"))
    }

    /// Playback progress, as (current, total) seconds, from the fields of a GetPositionInfo
    /// reply.
    pub fn get_secs(&self, position_info: &Vec<(String, String)>) -> (r: Result<(u32, u32), TimeParseError>)
        ensures
            match r {
                Ok((c, t)) => progress_of(fields_view(position_info@)) == Some((c as nat, t as nat)),
                Err(_) => progress_of(fields_view(position_info@)) is None,
            },
    {
        let rel = field_or(position_info, "RelTime", "00:00:00");
        let dur = match field_value(position_info, "TrackDuration") {
            Some(d) => d,
            None => field_or(position_info, "AbsTime", "00:00:00"),
        };
        if is_unknown_time(rel.as_str()) || is_unknown_time(dur.as_str()) {
            return Ok((0, 0));
        }
        let total = match parse_time_str(dur.as_str()) {
            Ok(t) => t,
            Err(e) => return Err(e),
        };
        let current = match parse_time_str(rel.as_str()) {
            Ok(c) => c,
            Err(e) => return Err(e),
        };
        Ok((current, total))
    }

    /// The `CurrentTransportState` field of a GetTransportInfo reply, `UNKNOWN` when absent.
    pub fn playback_state_from_response(&self, transport_info: &Vec<(String, String)>) -> (r: String)
        ensures
            r@ == or_default(lookup(fields_view(transport_info@), "CurrentTransportState"@), "UNKNOWN"@),
    {
        field_or(transport_info, "CurrentTransportState", "UNKNOWN")
    }

    /// The `CurrentVolume` field of a GetVolume reply, 0 when absent or not a number.
    pub fn volume_from_response(&self, volume_info: &Vec<(String, String)>) -> (r: u32)
        ensures
            r as nat == match lookup(fields_view(volume_info@), "CurrentVolume"@) {
                Some(v) => match u32_text_value(v) {
                    Some(n) => n,
                    None => 0,
                },
                None => 0,
            },
    {
        match field_value(volume_info, "CurrentVolume") {
            Some(v) => match parse_u32(v.as_str()) {
                Some(n) => n,
                None => 0,
            },
            None => 0,
        }
    }
}

} // verus!
