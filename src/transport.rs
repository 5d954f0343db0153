use vstd::prelude::*;
use crate::soap::{build_soap_envelope, envelope_text, extract_xml_tag_value, soap_action_header, soap_action_text, tag_text};
use crate::text::{
    append_chars, append_vec, chars_of, chars_start_with, decimal, find_chars, find_from,
    push_decimal, starts_with, string_of, trim_chars, trimmed,
};

verus! {

/// Scheme, host and port of a renderer's description URL: the parts of it that the
/// fallback endpoints are built from.
#[derive(Debug, Clone, PartialEq, Eq)]
pub struct BaseLocation {
    pub scheme: String,
    pub host: String,
    pub port: Option<u16>,
}

pub open spec fn fields_view(f: Seq<(String, String)>) -> Seq<(Seq<char>, Seq<char>)> {
    f.map_values(|p: (String, String)| (p.0@, p.1@))
}

pub open spec fn strings_view(v: Seq<String>) -> Seq<Seq<char>> {
    v.map_values(|s: String| s@)
}

/// `p` trimmed, with a leading `/` added unless it is already absolute or a full URL.
pub open spec fn normalized_path(p: Seq<char>) -> Seq<char> {
    let t = trimmed(p);
    if starts_with(t, "http://"@) || starts_with(t, "https://"@) || starts_with(t, "/"@) {
        t
    } else {
        seq!['/'] + t
    }
}

pub const ENDPOINT_LABEL: &'static str = "control_endpoint: ";

pub const ENDPOINT_END: &'static str = ", event_sub_endpoint";

pub const HOST_PROXY_HINT: &'static str = "/upnphost/udhisapi.dll?control=";

/// The control path that a service description names after `control_endpoint: `.
pub open spec fn described_endpoint(d: Seq<char>) -> Option<Seq<char>> {
    match find_from(d, ENDPOINT_LABEL@, 0) {
        Some(i) => {
            let s = i + ENDPOINT_LABEL@.len();
            match find_from(d, ENDPOINT_END@, s) {
                Some(j) => Some(trimmed(d.subrange(s, j))),
                None => None,
            }
        },
        None => None,
    }
}

/// The Windows UPnP host proxy path that a service description holds, if any.
pub open spec fn host_proxy_path(d: Seq<char>) -> Option<Seq<char>> {
    match find_from(d, HOST_PROXY_HINT@, 0) {
        Some(s) => match find_from(d, ENDPOINT_END@, s) {
            Some(j) => Some(d.subrange(s, j)),
            None => None,
        },
        None => None,
    }
}

pub open spec fn generic_paths() -> Seq<Seq<char>> {
    seq![
        "_urn:schemas-upnp-org:service:AVTransport_control"@,
        "AVTransport/control"@,
        "upnp/control/AVTransport"@,
        "control/AVTransport"@,
    ]
}

pub open spec fn option_seq(o: Option<Seq<char>>) -> Seq<Seq<char>> {
    match o {
        Some(p) => seq![p],
        None => seq![],
    }
}

/// `s` without repeats, each item kept where it first occurs.
pub open spec fn dedup(s: Seq<Seq<char>>) -> Seq<Seq<char>>
    decreases s.len(),
{
    if s.len() == 0 {
        seq![]
    } else {
        let r = dedup(s.drop_last());
        if r.contains(s.last()) {
            r
        } else {
            r.push(s.last())
        }
    }
}

/// The control paths to try, in order, when the standard invocation fails.
pub open spec fn candidate_paths(d: Seq<char>) -> Seq<Seq<char>> {
    dedup(normalized_all(option_seq(described_endpoint(d)) + option_seq(host_proxy_path(d)) + generic_paths()))
}

pub open spec fn normalized_all(s: Seq<Seq<char>>) -> Seq<Seq<char>> {
    s.map_values(|p: Seq<char>| normalized_path(p))
}

pub open spec fn default_port(scheme: Seq<char>) -> nat {
    if scheme == "https"@ {
        443
    } else {
        80
    }
}

/// The URL a control path is sent to: the path itself when it is a full URL, otherwise
/// `scheme://host:port` of the base location followed by the path.
pub open spec fn endpoint_url(base: BaseLocation, path: Seq<char>) -> Seq<char> {
    if starts_with(path, "http://"@) || starts_with(path, "https://"@) {
        path
    } else {
        let port = match base.port {
            Some(p) => p as nat,
            None => default_port(base.scheme@),
        };
        base.scheme@ + "://"@ + base.host@ + ":"@ + decimal(port) + path
    }
}

/// Trims a control path and makes it absolute: full URLs and paths that start with `/` are
/// kept, any other path gets a leading `/`.
pub fn normalize_control_path(path: &str) -> (r: String)
    ensures
        r@ == normalized_path(path@),
{
    let v = chars_of(path);
    let t = trim_chars(&v);
    if chars_start_with(&t, "http://") || chars_start_with(&t, "https://") || chars_start_with(
        &t,
        "/",
    ) {
        string_of(&t, 0, t.len())
    } else {
        let mut r = String::new();
        r.append("/");
        proof {
            reveal_strlit("/");
        }
        let rest = string_of(&t, 0, t.len());
        r.append(rest.as_str());
        assert(t@.subrange(0, t@.len() as int) =~= t@);
        assert(r@ =~= seq!['/'] + t@);
        r
    }
}

/// The control path that a service's description text gives after `control_endpoint: `
/// (up to `, event_sub_endpoint`), trimmed.
pub fn extract_control_endpoint_from_debug(service_debug: &str) -> (r: Option<String>)
    ensures
        match r {
            Some(p) => described_endpoint(service_debug@) == Some(p@),
            None => described_endpoint(service_debug@) is None,
        },
{
    let d = chars_of(service_debug);
    let label = chars_of(ENDPOINT_LABEL);
    let end = chars_of(ENDPOINT_END);
    let dl = d.len();
    match find_chars(&d, &label, 0) {
        Some(i) => {
            assert(i + label@.len() <= dl);
            let s = i + label.len();
            match find_chars(&d, &end, s) {
                Some(j) => {
                    let mut part: Vec<char> = Vec::new();
                    let mut k: usize = s;
                    while k < j
                        invariant
                            s <= k <= j <= d@.len(),
                            part@ == d@.subrange(s as int, k as int),
                        decreases j - k,
                    {
                        part.push(d[k]);
                        k += 1;
                        assert(part@ =~= d@.subrange(s as int, k as int));
                    }
                    let t = trim_chars(&part);
                    Some(string_of(&t, 0, t.len()))
                },
                None => None,
            }
        },
        None => None,
    }
}

/// The Windows UPnP host proxy path in a service's description text, if it has one.
pub fn extract_host_proxy_path(service_debug: &str) -> (r: Option<String>)
    ensures
        match r {
            Some(p) => host_proxy_path(service_debug@) == Some(p@),
            None => host_proxy_path(service_debug@) is None,
        },
{
    let d = chars_of(service_debug);
    let hint = chars_of(HOST_PROXY_HINT);
    let end = chars_of(ENDPOINT_END);
    match find_chars(&d, &hint, 0) {
        Some(s) => match find_chars(&d, &end, s) {
            Some(j) => Some(string_of(&d, s, j)),
            None => None,
        },
        None => None,
    }
}

/// Appends `p` to `out` unless `out` already holds it.
fn push_unique(out: &mut Vec<String>, p: String)
    ensures
        strings_view(final(out)@) == dedup_step(strings_view(old(out)@), p@),
{
    let mut k: usize = 0;
    while k < out.len()
        invariant
            k <= out@.len(),
            forall|j: int| 0 <= j < k ==> out@[j]@ != p@,
        decreases out@.len() - k,
    {
        if out[k] == p {
            proof {
                assert(strings_view(out@)[k as int] == p@);
            }
            return;
        }
        k += 1;
    }
    proof {
        assert(!strings_view(out@).contains(p@)) by {
            if strings_view(out@).contains(p@) {
                let j = choose|j: int| 0 <= j < strings_view(out@).len() && strings_view(out@)[j] == p@;
                assert(out@[j]@ == p@);
            }
        }
    }
    out.push(p);
    assert(strings_view(final(out)@) =~= strings_view(old(out)@).push(p@));
}

pub open spec fn dedup_step(r: Seq<Seq<char>>, p: Seq<char>) -> Seq<Seq<char>> {
    if r.contains(p) {
        r
    } else {
        r.push(p)
    }
}

proof fn lemma_dedup_push(s: Seq<Seq<char>>, p: Seq<char>)
    ensures
        dedup(s.push(p)) == dedup_step(dedup(s), p),
{
    assert(s.push(p).drop_last() =~= s);
}

/// The control paths to try after the standard invocation failed, in order and without
/// repeats: the one the service description names, the Windows UPnP host proxy path, then
/// the usual AVTransport control paths, each normalized.
pub fn candidate_control_paths(service_debug: &str) -> (r: Vec<String>)
    ensures
        strings_view(r@) == candidate_paths(service_debug@),
{
    proof {
        reveal_strlit("_urn:schemas-upnp-org:service:AVTransport_control");
        reveal_strlit("AVTransport/control");
        reveal_strlit("upnp/control/AVTransport");
        reveal_strlit("control/AVTransport");
    }
    let ghost d = service_debug@;
    let mut found: Vec<String> = Vec::new();
    if let Some(p) = extract_control_endpoint_from_debug(service_debug) {
        found.push(p);
    }
    if let Some(p) = extract_host_proxy_path(service_debug) {
        found.push(p);
    }
    found.push(String::from_str("_urn:schemas-upnp-org:service:AVTransport_control"));
    found.push(String::from_str("AVTransport/control"));
    found.push(String::from_str("upnp/control/AVTransport"));
    found.push(String::from_str("control/AVTransport"));
    let ghost raw = option_seq(described_endpoint(d)) + option_seq(host_proxy_path(d))
        + generic_paths();
    assert(strings_view(found@) =~= raw);
    let mut out: Vec<String> = Vec::new();
    let mut i: usize = 0;
    assert(strings_view(out@) =~= dedup(normalized_all(raw).subrange(0, 0)));
    while i < found.len()
        invariant
            i <= found@.len(),
            strings_view(found@) == raw,
            strings_view(out@) == dedup(normalized_all(raw).subrange(0, i as int)),
        decreases found@.len() - i,
    {
        let p = normalize_control_path(found[i].as_str());
        assert(found@[i as int]@ == raw[i as int]);
        proof {
            lemma_dedup_push(normalized_all(raw).subrange(0, i as int), p@);
            assert(normalized_all(raw).subrange(0, i + 1) =~= normalized_all(raw).subrange(
                0,
                i as int,
            ).push(p@));
        }
        push_unique(&mut out, p);
        i += 1;
    }
    assert(normalized_all(raw).subrange(0, i as int) =~= normalized_all(raw));
    out
}

/// `acc` with `(key, text)` added where `body` holds element `key`.
pub open spec fn with_field(acc: Seq<(Seq<char>, Seq<char>)>, body: Seq<char>, key: Seq<char>) -> Seq<
    (Seq<char>, Seq<char>),
> {
    match tag_text(body, key) {
        Some(v) => acc.push((key, v)),
        None => acc,
    }
}

/// The response fields read from a raw reply body, in this fixed order: `Track`,
/// `TrackDuration`, `TrackMetaData`, `TrackURI`, `RelTime`, `AbsTime`, `RelCount`, `AbsCount`;
/// a field whose element the body lacks is left out.
pub open spec fn known_fields(body: Seq<char>) -> Seq<(Seq<char>, Seq<char>)> {
    with_field(
        with_field(
            with_field(
                with_field(
                    with_field(
                        with_field(
                            with_field(with_field(seq![], body, "Track"@), body, "TrackDuration"@),
                            body,
                            "TrackMetaData"@,
                        ),
                        body,
                        "TrackURI"@,
                    ),
                    body,
                    "RelTime"@,
                ),
                body,
                "AbsTime"@,
            ),
            body,
            "RelCount"@,
        ),
        body,
        "AbsCount"@,
    )
}

fn add_field(out: &mut Vec<(String, String)>, body: &str, key: &str)
    ensures
        fields_view(final(out)@) == with_field(fields_view(old(out)@), body@, key@),
{
    match extract_xml_tag_value(body, key) {
        Some(v) => {
            let k = String::from_str(key);
            out.push((k, v));
            assert(fields_view(final(out)@) =~= fields_view(old(out)@).push((key@, v@)));
        },
        None => {},
    }
}

/// Reads the known response fields out of a raw reply body by a literal tag scan.
pub fn parse_known_fields(body: &str) -> (r: Vec<(String, String)>)
    ensures
        fields_view(r@) == known_fields(body@),
{
    let mut out: Vec<(String, String)> = Vec::new();
    assert(fields_view(out@) =~= seq![]);
    add_field(&mut out, body, "Track");
    add_field(&mut out, body, "TrackDuration");
    add_field(&mut out, body, "TrackMetaData");
    add_field(&mut out, body, "TrackURI");
    add_field(&mut out, body, "RelTime");
    add_field(&mut out, body, "AbsTime");
    add_field(&mut out, body, "RelCount");
    add_field(&mut out, body, "AbsCount");
    out
}

/// The URL that a control path is sent to from `base`.
pub fn endpoint_url_of(base: &BaseLocation, path: &str) -> (r: String)
    ensures
        r@ == endpoint_url(*base, path@),
{
    let p = chars_of(path);
    if chars_start_with(&p, "http://") || chars_start_with(&p, "https://") {
        return String::from_str(path);
    }
    let https = chars_of("https");
    let scheme = chars_of(base.scheme.as_str());
    let port: u16 = match base.port {
        Some(p) => p,
        None => if crate::text::chars_equal(&scheme, &https) {
            443
        } else {
            80
        },
    };
    let mut out: Vec<char> = Vec::new();
    append_chars(&mut out, base.scheme.as_str());
    append_chars(&mut out, "://");
    append_chars(&mut out, base.host.as_str());
    append_chars(&mut out, ":");
    push_decimal(&mut out, port as u64);
    append_vec(&mut out, &p);
    assert(out@ =~= endpoint_url(*base, path@));
    string_of(&out, 0, out.len())
}

pub open spec fn endpoint_urls(base: BaseLocation, paths: Seq<Seq<char>>) -> Seq<Seq<char>> {
    paths.map_values(|p: Seq<char>| endpoint_url(base, p))
}

/// One run of the fallback path for an action: the endpoints to try in order, the header and
/// envelope sent to each, and how far the run has got. The run stops at the first endpoint
/// that answers with status 200.
pub struct CompatRun {
    pub urls: Vec<String>,
    pub soap_action: String,
    pub body: String,
    pub next: usize,
    pub finished: bool,
}

impl CompatRun {
    pub open spec fn wf(&self) -> bool {
        self.next <= self.urls@.len()
    }

    /// Prepares the fallback run of `action` for a device at `base`, whose AVTransport
    /// service is described by `service_debug`.
    pub fn new(base: &BaseLocation, service_debug: &str, action: &str, args_xml: &str) -> (r:
        CompatRun)
        ensures
            r.wf(),
            strings_view(r.urls@) == endpoint_urls(*base, candidate_paths(service_debug@)),
            r.soap_action@ == soap_action_text("AVTransport"@, action@),
            r.body@ == envelope_text(action@, args_xml@),
            r.next == 0,
            !r.finished,
    {
        let paths = candidate_control_paths(service_debug);
        let mut urls: Vec<String> = Vec::new();
        let mut i: usize = 0;
        while i < paths.len()
            invariant
                i <= paths@.len(),
                strings_view(paths@) == candidate_paths(service_debug@),
                strings_view(urls@) == endpoint_urls(*base, strings_view(paths@).subrange(0, i as int)),
            decreases paths@.len() - i,
        {
            let u = endpoint_url_of(base, paths[i].as_str());
            assert(strings_view(paths@)[i as int] == paths@[i as int]@);
            let ghost old_urls = strings_view(urls@);
            urls.push(u);
            assert(strings_view(urls@) =~= old_urls.push(u@));
            assert(endpoint_urls(*base, strings_view(paths@).subrange(0, i + 1)) =~= endpoint_urls(
                *base,
                strings_view(paths@).subrange(0, i as int),
            ).push(endpoint_url(*base, strings_view(paths@)[i as int])));
            i += 1;
            assert(strings_view(urls@) =~= endpoint_urls(*base, strings_view(paths@).subrange(0, i as int)));
        }
        assert(strings_view(paths@).subrange(0, i as int) =~= strings_view(paths@));
        CompatRun {
            urls,
            soap_action: soap_action_header("AVTransport", action),
            body: build_soap_envelope(action, args_xml),
            next: 0,
            finished: false,
        }
    }

    /// The endpoint to try now; none once an endpoint has answered or all have failed.
    pub fn next_url(&self) -> (r: Option<String>)
        requires
            self.wf(),
        ensures
            match r {
                Some(u) => !self.finished && self.next < self.urls@.len() && u@ == self.urls@[self.next as int]@,
                None => self.finished || self.next >= self.urls@.len(),
            },
    {
        if self.finished || self.next >= self.urls.len() {
            None
        } else {
            Some(self.urls[self.next].clone())
        }
    }

    /// No endpoint answered with status 200.
    pub fn is_exhausted(&self) -> (r: bool)
        ensures
            r == (!self.finished && self.next >= self.urls@.len()),
    {
        !self.finished && self.next >= self.urls.len()
    }

    /// Records the reply of the endpoint just tried (`None` where the request itself failed).
    /// Status 200 ends the run with the fields read from `body`; anything else moves on to
    /// the next endpoint.
    pub fn on_reply(&mut self, status: Option<u16>, body: &str) -> (r: Option<Vec<(String, String)>>)
        requires
            old(self).wf(),
            !old(self).finished,
            old(self).next < old(self).urls@.len(),
        ensures
            final(self).wf(),
            final(self).urls == old(self).urls,
            final(self).soap_action == old(self).soap_action,
            final(self).body == old(self).body,
            status == Some(200u16) ==> {
                &&& r is Some
                &&& fields_view(r->0@) == known_fields(body@)
                &&& final(self).finished
                &&& final(self).next == old(self).next
            },
            status != Some(200u16) ==> {
                &&& r is None
                &&& !final(self).finished
                &&& final(self).next == old(self).next + 1
            },
    {
        if status == Some(200u16) {
            self.finished = true;
            Some(parse_known_fields(body))
        } else {
            let n = self.urls.len();
            assert(self.next < n);
            self.next = self.next + 1;
            None
        }
    }
}

} // verus!
