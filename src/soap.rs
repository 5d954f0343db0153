use vstd::prelude::*;
use crate::text::{append_chars, chars_of, find_chars, find_from, string_of};

verus! {

/// What XML escaping puts in place of one character.
pub open spec fn escape_of(c: char) -> Seq<char> {
    if c == '<' {
        seq!['&', 'l', 't', ';']
    } else if c == '>' {
        seq!['&', 'g', 't', ';']
    } else if c == '&' {
        seq!['&', 'a', 'm', 'p', ';']
    } else if c == '\'' {
        seq!['&', 'a', 'p', 'o', 's', ';']
    } else if c == '"' {
        seq!['&', 'q', 'u', 'o', 't', ';']
    } else if c == '\r' {
        seq!['&', '#', '1', '3', ';']
    } else {
        seq![c]
    }
}

/// `s` with each of `<`, `>`, `&`, `'`, `"` and carriage return replaced by its entity.
pub open spec fn xml_escaped(s: Seq<char>) -> Seq<char>
    decreases s.len(),
{
    if s.len() == 0 {
        seq![]
    } else {
        xml_escaped(s.drop_last()) + escape_of(s.last())
    }
}

/// Relies on quick_xml's `escape::escape`, which replaces `<`, `>`, `&`, `'`, `"` and `\r`
/// by `&lt;`, `&gt;`, `&amp;`, `&apos;`, `&quot;` and `&#13;` and keeps every other character.
#[verifier::external_body]
pub(crate) fn xml_escape(s: &str) -> (r: String)
    ensures
        r@ == xml_escaped(s@),
{
    quick_xml::escape::escape(s).into_owned()
}

pub const DEFAULT_PROTOCOL_INFO: &'static str = "http-get:*:video/mp4:*";

pub const DIDL_HEAD: &'static str = "<DIDL-Lite xmlns=\"urn:schemas-upnp-org:metadata-1-0/DIDL-Lite/\" xmlns:dc=\"http://purl.org/dc/elements/1.1/\" xmlns:upnp=\"urn:schemas-upnp-org:metadata-1-0/upnp/\"><item id=\"0\" parentID=\"-1\" restricted=\"1\"><dc:title>";

pub const DIDL_AFTER_TITLE: &'static str = "</dc:title><upnp:storageMedium>UNKNOWN</upnp:storageMedium><upnp:writeStatus>UNKNOWN</upnp:writeStatus><res protocolInfo=\"";

pub const DIDL_AFTER_PROTOCOL: &'static str = "\">";

pub const DIDL_TAIL: &'static str = "</res><upnp:class>object.item.videoItem</upnp:class></item></DIDL-Lite>";

/// The DIDL-Lite document describing one video item, before it is escaped for embedding.
pub open spec fn didl_text(title: Seq<char>, protocol: Seq<char>, url: Seq<char>) -> Seq<char> {
    DIDL_HEAD@ + xml_escaped(title) + DIDL_AFTER_TITLE@ + protocol + DIDL_AFTER_PROTOCOL@
        + xml_escaped(url) + DIDL_TAIL@
}

pub open spec fn protocol_or_default(protocol_info: Option<&str>) -> Seq<char> {
    match protocol_info {
        Some(p) => p@,
        None => DEFAULT_PROTOCOL_INFO@,
    }
}

/// Minimal DIDL-Lite metadata for a playable video (title, protocol info, one resource),
/// XML-escaped so that it can stand as the text of a `CurrentURIMetaData` argument. The
/// protocol info defaults to the permissive `http-get:*:video/mp4:*`.
pub fn build_didl_lite_metadata(title: &str, media_url: &str, protocol_info: Option<&str>) -> (r:
    String)
    ensures
        r@ == xml_escaped(didl_text(title@, protocol_or_default(protocol_info), media_url@)),
{
    let protocol = match protocol_info {
        Some(p) => p,
        None => DEFAULT_PROTOCOL_INFO,
    };
    let mut d = String::new();
    d.append(DIDL_HEAD);
    d.append(xml_escape(title).as_str());
    d.append(DIDL_AFTER_TITLE);
    d.append(protocol);
    d.append(DIDL_AFTER_PROTOCOL);
    d.append(xml_escape(media_url).as_str());
    d.append(DIDL_TAIL);
    assert(d@ =~= didl_text(title@, protocol_or_default(protocol_info), media_url@));
    xml_escape(d.as_str())
}

pub const ENVELOPE_HEAD: &'static str = "<?xml version=\"1.0\" encoding=\"UTF-8\"?>\n<s:Envelope s:encodingStyle=\"http://schemas.xmlsoap.org/soap/encoding/\" xmlns:s=\"http://schemas.xmlsoap.org/soap/envelope/\">\n<s:Body>\n<u:";

pub const ENVELOPE_NAMESPACE: &'static str = " xmlns:u=\"urn:schemas-upnp-org:service:AVTransport:1\">";

pub const ENVELOPE_CLOSE_ACTION: &'static str = "</u:";

pub const ENVELOPE_TAIL: &'static str = ">\n</s:Body>\n</s:Envelope>";

/// The SOAP envelope of an AVTransport action: a body element named after the action in the
/// AVTransport namespace, holding the argument XML.
pub open spec fn envelope_text(action: Seq<char>, args_xml: Seq<char>) -> Seq<char> {
    ENVELOPE_HEAD@ + action + ENVELOPE_NAMESPACE@ + args_xml + ENVELOPE_CLOSE_ACTION@ + action
        + ENVELOPE_TAIL@
}

pub fn build_soap_envelope(action: &str, args_xml: &str) -> (r: String)
    ensures
        r@ == envelope_text(action@, args_xml@),
{
    let mut e = String::new();
    e.append(ENVELOPE_HEAD);
    e.append(action);
    e.append(ENVELOPE_NAMESPACE);
    e.append(args_xml);
    e.append(ENVELOPE_CLOSE_ACTION);
    e.append(action);
    e.append(ENVELOPE_TAIL);
    assert(e@ =~= envelope_text(action@, args_xml@));
    e
}

pub const SOAP_ACTION_HEAD: &'static str = "\"urn:schemas-upnp-org:service:";

pub const SOAP_ACTION_VERSION: &'static str = ":1#";

/// The value of the `SOAPAction` header, quotes included:
/// `"urn:schemas-upnp-org:service:<service>:1#<action>"`.
pub open spec fn soap_action_text(service: Seq<char>, action: Seq<char>) -> Seq<char> {
    SOAP_ACTION_HEAD@ + service + SOAP_ACTION_VERSION@ + action + seq!['"']
}

pub fn soap_action_header(service: &str, action: &str) -> (r: String)
    ensures
        r@ == soap_action_text(service@, action@),
{
    let mut h = String::new();
    h.append(SOAP_ACTION_HEAD);
    h.append(service);
    h.append(SOAP_ACTION_VERSION);
    h.append(action);
    h.append("\"");
    proof {
        reveal_strlit("\"");
    }
    assert(h@ =~= soap_action_text(service@, action@));
    h
}

pub open spec fn open_tag(tag: Seq<char>) -> Seq<char> {
    seq!['<'] + tag + seq!['>']
}

pub open spec fn close_tag(tag: Seq<char>) -> Seq<char> {
    seq!['<', '/'] + tag + seq!['>']
}

pub open spec fn empty_tag(tag: Seq<char>) -> Seq<char> {
    seq!['<'] + tag + seq!['/', '>']
}

/// Best-effort scan for the text of element `tag`: the text between the first `<tag>` and the
/// first `</tag>` after it; the empty text where there is no `<tag>` but an `<tag/>`. The
/// scan reads tags literally and so also works on responses that are not well-formed XML.
pub open spec fn tag_text(xml: Seq<char>, tag: Seq<char>) -> Option<Seq<char>> {
    match find_from(xml, open_tag(tag), 0) {
        Some(i) => {
            let start = i + open_tag(tag).len();
            match find_from(xml, close_tag(tag), start) {
                Some(j) => Some(xml.subrange(start, j)),
                None => None,
            }
        },
        None => if find_from(xml, empty_tag(tag), 0) is Some {
            Some(seq![])
        } else {
            None
        },
    }
}

fn wrapped(pre: &str, tag: &str, post: &str) -> (r: Vec<char>)
    ensures
        r@ == pre@ + tag@ + post@,
{
    let mut v: Vec<char> = Vec::new();
    append_chars(&mut v, pre);
    append_chars(&mut v, tag);
    append_chars(&mut v, post);
    assert(v@ =~= pre@ + tag@ + post@);
    v
}

/// The text of element `tag` in `xml`, found by a literal scan for its tags.
pub fn extract_xml_tag_value(xml: &str, tag: &str) -> (r: Option<String>)
    ensures
        match r {
            Some(v) => tag_text(xml@, tag@) == Some(v@),
            None => tag_text(xml@, tag@) is None,
        },
{
    proof {
        reveal_strlit("<");
        reveal_strlit(">");
        reveal_strlit("</");
        reveal_strlit("/>");
    }
    let x = chars_of(xml);
    let open = wrapped("<", tag, ">");
    let close = wrapped("</", tag, ">");
    assert(open@ =~= open_tag(tag@));
    assert(close@ =~= close_tag(tag@));
    let xl = x.len();
    match find_chars(&x, &open, 0) {
        Some(i) => {
            assert(i + open@.len() <= xl);
            let start = i + open.len();
            match find_chars(&x, &close, start) {
                Some(j) => Some(string_of(&x, start, j)),
                None => None,
            }
        },
        None => {
            let empty = wrapped("<", tag, "/>");
            assert(empty@ =~= empty_tag(tag@));
            if find_chars(&x, &empty, 0).is_some() {
                Some(String::new())
            } else {
                None
            }
        },
    }
}

} // verus!
