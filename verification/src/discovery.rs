//! Finding cameras on the local network with WS-Discovery: the probe that is
//! multicast, and what a reply adds to the list of cameras.

use vstd::prelude::*;
use crate::device::{CameraInfo, Ipv4Address, add_discovered_camera, addresses_unique, camera_at,
    has_camera_at, lemma_discovery_keeps_addresses_unique,
    discovered_camera, is_v4_uuid_text, new_uuid_text};
use crate::text::{contains_text, occurs_in};

verus! {

/// How many probes are sent.
pub const PROBE_ROUNDS: u32 = 2;

/// How many replies are awaited after each probe.
pub const REPLIES_PER_PROBE: u32 = 5;

/// How long one reply is awaited, in milliseconds.
pub const REPLY_TIMEOUT_MS: u64 = 2000;

/// The multicast group and port of WS-Discovery.
pub open spec fn discovery_address_text() -> Seq<char> {
    "239.255.255.250:3702"@
}

/// The local address the discovery socket binds to.
pub open spec fn bind_address_text() -> Seq<char> {
    "0.0.0.0:0"@
}

pub fn discovery_address() -> (s: &'static str)
    ensures
        s@ == discovery_address_text(),
{
    "239.255.255.250:3702"
}

pub fn bind_address() -> (s: &'static str)
    ensures
        s@ == bind_address_text(),
{
    "0.0.0.0:0"
}

/// The SOAP probe for network video transmitters, carrying `message_id`.
pub open spec fn probe_text(message_id: Seq<char>) -> Seq<char> {
    "<?xml version=\"1.0\" encoding=\"UTF-8\"?>\n            <e:Envelope xmlns:e=\"http://www.w3.org/2003/05/soap-envelope\"\n                xmlns:w=\"http://schemas.xmlsoap.org/ws/2004/08/addressing\"\n                xmlns:d=\"http://schemas.xmlsoap.org/ws/2005/04/discovery\"\n                xmlns:dn=\"http://www.onvif.org/ver10/network/wsdl\">\n                <e:Header>\n                    <w:MessageID>\n                        uuid:"@ + message_id + "</w:MessageID>\n                    <w:To>\n                        urn:schemas-xmlsoap-org:ws:2005:04:discovery</w:To>\n                    <w:Action>\n                        http://schemas.xmlsoap.org/ws/2005/04/discovery/Probe</w:Action>\n                </e:Header>\n                <e:Body>\n                    <d:Probe>\n                        <d:Types>dn:NetworkVideoTransmitter</d:Types>\n                    </d:Probe>\n                </e:Body>\n            </e:Envelope>"@
}

/// Builds the probe carrying `message_id`.
pub fn probe_message(message_id: &str) -> (m: String)
    ensures
        m@ == probe_text(message_id@),
{
    let mut m = String::from_str("<?xml version=\"1.0\" encoding=\"UTF-8\"?>\n            <e:Envelope xmlns:e=\"http://www.w3.org/2003/05/soap-envelope\"\n                xmlns:w=\"http://schemas.xmlsoap.org/ws/2004/08/addressing\"\n                xmlns:d=\"http://schemas.xmlsoap.org/ws/2005/04/discovery\"\n                xmlns:dn=\"http://www.onvif.org/ver10/network/wsdl\">\n                <e:Header>\n                    <w:MessageID>\n                        uuid:");
    m.append(message_id);
    m.append("</w:MessageID>\n                    <w:To>\n                        urn:schemas-xmlsoap-org:ws:2005:04:discovery</w:To>\n                    <w:Action>\n                        http://schemas.xmlsoap.org/ws/2005/04/discovery/Probe</w:Action>\n                </e:Header>\n                <e:Body>\n                    <d:Probe>\n                        <d:Types>dn:NetworkVideoTransmitter</d:Types>\n                    </d:Probe>\n                </e:Body>\n            </e:Envelope>");
    m
}

/// Builds a probe under a fresh random message identifier.
pub fn discovery_probe() -> (m: String)
    ensures
        exists|id: Seq<char>| is_v4_uuid_text(id) && m@ == #[trigger] probe_text(id),
{
    let id = new_uuid_text();
    probe_message(id.as_str())
}

/// One event read from an XML document.
#[derive(Debug, Clone)]
pub enum XmlItem {
    /// Character data.
    Characters(String),
    /// Any other event.
    Other,
    /// The reader stopped on malformed input.
    Failed,
}

/// An XML event as a value.
pub enum XmlItemView {
    Characters(Seq<char>),
    Other,
    Failed,
}

impl View for XmlItem {
    type V = XmlItemView;

    open spec fn view(&self) -> XmlItemView {
        match self {
            XmlItem::Characters(s) => XmlItemView::Characters(s@),
            XmlItem::Other => XmlItemView::Other,
            XmlItem::Failed => XmlItemView::Failed,
        }
    }
}

pub open spec fn items_view(items: Seq<XmlItem>) -> Seq<XmlItemView> {
    items.map_values(|e: XmlItem| e@)
}

/// The events `xml::reader::EventReader` yields for a document, up to and
/// including the end of the document or the first error.
pub uninterp spec fn xml_events(document: Seq<u8>) -> Seq<XmlItemView>;

/// Reads the events of an XML document.
///
/// Iterates `xml::reader::EventReader::new` over `document` and keeps, for
/// each event, its character data or only whether it was another event or an
/// error. The result is named `xml_events` of the bytes; nothing more is
/// claimed of it.
#[verifier::external_body]
fn read_xml_events(document: &[u8]) -> (items: Vec<XmlItem>)
    ensures
        items_view(items@) == xml_events(document@),
{
    xml::reader::EventReader::new(document).into_iter().map(|e| match e {
        Ok(xml::reader::XmlEvent::Characters(c)) => XmlItem::Characters(c),
        Ok(_) => XmlItem::Other,
        Err(_) => XmlItem::Failed,
    }).collect()
}

/// The word by which a device says it is a camera.
pub open spec fn camera_marker() -> Seq<char> {
    "NetworkVideoTransmitter"@
}

/// Some character data of the reply names a network video transmitter.
pub open spec fn announces_camera(events: Seq<XmlItemView>) -> bool {
    exists|i: int|
        0 <= i < events.len() && (#[trigger] events[i] matches XmlItemView::Characters(c)
            && occurs_in(c, camera_marker()))
}

/// Whether the events of a reply announce a camera.
pub fn reply_announces_camera(items: &Vec<XmlItem>) -> (b: bool)
    ensures
        b == announces_camera(items_view(items@)),
{
    let ghost ev = items_view(items@);
    let mut i: usize = 0;
    while i < items.len()
        invariant
            i <= items@.len(),
            ev == items_view(items@),
            forall|j: int|
                0 <= j < i ==> !(#[trigger] ev[j] matches XmlItemView::Characters(c) && occurs_in(
                    c,
                    camera_marker(),
                )),
        decreases items@.len() - i,
    {
        match &items[i] {
            XmlItem::Characters(c) => {
                if contains_text(c.as_str(), "NetworkVideoTransmitter") {
                    assert(ev[i as int] == items@[i as int]@);
                    return true;
                }
            },
            _ => {},
        }
        assert(ev[i as int] == items@[i as int]@);
        i = i + 1;
    }
    false
}

/// What one reply does to the list of cameras, given its events: a reply that
/// announces a camera from an address not yet listed adds that camera under
/// the identifier `id`; anything else leaves the list as it was.
pub fn apply_discovery_reply(
    cameras: &mut Vec<CameraInfo>,
    items: &Vec<XmlItem>,
    ip: Ipv4Address,
    port: u16,
    id: String,
)
    ensures
        (announces_camera(items_view(items@)) && !has_camera_at(old(cameras)@, ip)) ==> {
            &&& final(cameras)@.len() == old(cameras)@.len() + 1
            &&& final(cameras)@.drop_last() == old(cameras)@
            &&& discovered_camera(ip, port, id@, final(cameras)@.last())
        },
        !(announces_camera(items_view(items@)) && !has_camera_at(old(cameras)@, ip))
            ==> final(cameras)@ == old(cameras)@,
        addresses_unique(old(cameras)@) ==> addresses_unique(final(cameras)@),
{
    if reply_announces_camera(items) {
        add_discovered_camera(cameras, ip, port, id);
        proof {
            if addresses_unique(old(cameras)@) {
                lemma_discovery_keeps_addresses_unique(old(cameras)@, cameras@, ip, port, id@);
            }
        }
    }
}

/// Reads a discovery reply that came from `ip:port` and records the camera
/// it announces, under a fresh random identifier.
pub fn process_discovery_reply(cameras: &mut Vec<CameraInfo>, reply: &[u8], ip: Ipv4Address, port: u16)
    ensures
        (announces_camera(xml_events(reply@)) && !has_camera_at(old(cameras)@, ip)) ==> {
            &&& final(cameras)@.len() == old(cameras)@.len() + 1
            &&& final(cameras)@.drop_last() == old(cameras)@
            &&& exists|id: Seq<char>|
                is_v4_uuid_text(id) && discovered_camera(ip, port, id, #[trigger] final(cameras)@.last())
        },
        !(announces_camera(xml_events(reply@)) && !has_camera_at(old(cameras)@, ip))
            ==> final(cameras)@ == old(cameras)@,
        addresses_unique(old(cameras)@) ==> addresses_unique(final(cameras)@),
{
    let items = read_xml_events(reply);
    if reply_announces_camera(&items) && !camera_at(cameras, ip) {
        let id = new_uuid_text();
        let ghost new_id = id@;
        add_discovered_camera(cameras, ip, port, id);
        proof {
            if addresses_unique(old(cameras)@) {
                lemma_discovery_keeps_addresses_unique(old(cameras)@, cameras@, ip, port, new_id);
            }
        }
    }
}

/// What the search does next.
#[derive(Debug, Clone, Copy, PartialEq, Eq, Structural)]
pub enum SearchStep {
    /// Multicast the probe.
    SendProbe,
    /// Wait up to `REPLY_TIMEOUT_MS` for one reply.
    AwaitReply,
    /// The search is over.
    Finish,
}

/// The step that follows `probes` probes sent and `awaited` replies waited
/// for since the last probe: probe first; after a probe, wait for up to
/// `REPLIES_PER_PROBE` replies; then probe again until `PROBE_ROUNDS` probes
/// were sent.
pub open spec fn search_step(probes: nat, awaited: nat) -> SearchStep {
    if probes == 0 {
        SearchStep::SendProbe
    } else if awaited < REPLIES_PER_PROBE {
        SearchStep::AwaitReply
    } else if probes < PROBE_ROUNDS {
        SearchStep::SendProbe
    } else {
        SearchStep::Finish
    }
}

/// How many probes and waits are still to come.
pub open spec fn steps_left(probes: nat, awaited: nat) -> int {
    if probes == 0 {
        PROBE_ROUNDS * (REPLIES_PER_PROBE + 1)
    } else {
        (PROBE_ROUNDS - probes) * (REPLIES_PER_PROBE + 1) + (REPLIES_PER_PROBE - awaited)
    }
}

/// A search of the network for cameras: the probes sent, the replies waited
/// for, and the cameras found so far, at distinct addresses.
pub struct DiscoverySearch {
    found: Vec<CameraInfo>,
    probes: u32,
    awaited: u32,
}

impl DiscoverySearch {
    #[verifier::type_invariant]
    spec fn well_formed(self) -> bool {
        &&& addresses_unique(self.found@)
        &&& self.probes <= PROBE_ROUNDS
        &&& self.awaited <= REPLIES_PER_PROBE
        &&& self.probes == 0 ==> self.awaited == 0
    }

    /// The cameras found so far.
    pub closed spec fn found(self) -> Seq<CameraInfo> {
        self.found@
    }

    /// The probes sent so far.
    pub closed spec fn probes(self) -> nat {
        self.probes as nat
    }

    /// The replies waited for since the last probe.
    pub closed spec fn awaited(self) -> nat {
        self.awaited as nat
    }

    /// A search that has done nothing yet.
    pub fn new() -> (s: Self)
        ensures
            s.found().len() == 0,
            s.probes() == 0,
            s.awaited() == 0,
    {
        DiscoverySearch { found: Vec::new(), probes: 0, awaited: 0 }
    }

    /// What to do next; the search finishes exactly when no step is left.
    pub fn next_step(&self) -> (step: SearchStep)
        ensures
            step == search_step(self.probes(), self.awaited()),
            step == SearchStep::Finish <==> steps_left(self.probes(), self.awaited()) == 0,
            steps_left(self.probes(), self.awaited()) >= 0,
    {
        proof { use_type_invariant(self); }
        if self.probes == 0 {
            SearchStep::SendProbe
        } else if self.awaited < REPLIES_PER_PROBE {
            SearchStep::AwaitReply
        } else if self.probes < PROBE_ROUNDS {
            SearchStep::SendProbe
        } else {
            SearchStep::Finish
        }
    }

    /// Records that a probe went out.
    pub fn probe_sent(&mut self)
        requires
            search_step(old(self).probes(), old(self).awaited()) == SearchStep::SendProbe,
        ensures
            final(self).probes() == old(self).probes() + 1,
            final(self).awaited() == 0,
            final(self).found() == old(self).found(),
            steps_left(final(self).probes(), final(self).awaited()) == steps_left(
                old(self).probes(),
                old(self).awaited(),
            ) - 1,
    {
        proof { use_type_invariant(&*self); }
        self.probes = self.probes + 1;
        self.awaited = 0;
    }

    /// Records a reply that came from `ip:port`, adding the camera it
    /// announces when its address is new.
    pub fn reply_received(&mut self, reply: &[u8], ip: Ipv4Address, port: u16)
        requires
            search_step(old(self).probes(), old(self).awaited()) == SearchStep::AwaitReply,
        ensures
            final(self).probes() == old(self).probes(),
            final(self).awaited() == old(self).awaited() + 1,
            steps_left(final(self).probes(), final(self).awaited()) == steps_left(
                old(self).probes(),
                old(self).awaited(),
            ) - 1,
            (announces_camera(xml_events(reply@)) && !has_camera_at(old(self).found(), ip)) ==> {
                &&& final(self).found().len() == old(self).found().len() + 1
                &&& final(self).found().drop_last() == old(self).found()
                &&& exists|id: Seq<char>|
                    is_v4_uuid_text(id) && discovered_camera(ip, port, id, #[trigger] final(self).found().last())
            },
            !(announces_camera(xml_events(reply@)) && !has_camera_at(old(self).found(), ip))
                ==> final(self).found() == old(self).found(),
    {
        proof { use_type_invariant(&*self); }
        let mut found = Vec::new();
        std::mem::swap(&mut found, &mut self.found);
        process_discovery_reply(&mut found, reply, ip, port);
        self.found = found;
        self.awaited = self.awaited + 1;
    }

    /// Records a wait that ended without a usable reply (a timeout or a
    /// receive error).
    pub fn no_reply(&mut self)
        requires
            search_step(old(self).probes(), old(self).awaited()) == SearchStep::AwaitReply,
        ensures
            final(self).probes() == old(self).probes(),
            final(self).awaited() == old(self).awaited() + 1,
            final(self).found() == old(self).found(),
            steps_left(final(self).probes(), final(self).awaited()) == steps_left(
                old(self).probes(),
                old(self).awaited(),
            ) - 1,
    {
        proof { use_type_invariant(&*self); }
        self.awaited = self.awaited + 1;
    }

    /// The cameras found, no two at one address.
    pub fn into_found(self) -> (cameras: Vec<CameraInfo>)
        ensures
            cameras@ == self.found(),
            addresses_unique(cameras@),
    {
        proof { use_type_invariant(&self); }
        self.found
    }
}


/// A reply announces a camera as soon as any of its character data, at any
/// position, contains "NetworkVideoTransmitter".
pub proof fn lemma_marker_anywhere(events: Seq<XmlItemView>, i: int, c: Seq<char>)
    requires
        0 <= i < events.len(),
        events[i] == XmlItemView::Characters(c),
        occurs_in(c, "NetworkVideoTransmitter"@),
    ensures
        announces_camera(events),
{
}

/// Events before or after a reply's events never take away its announcement.
pub proof fn lemma_announcement_kept(before: Seq<XmlItemView>, events: Seq<XmlItemView>, after: Seq<XmlItemView>)
    requires
        announces_camera(events),
    ensures
        announces_camera(before + events + after),
{
    let i: int = choose|i: int|
        0 <= i < events.len() && (#[trigger] events[i] matches XmlItemView::Characters(c)
            && occurs_in(c, camera_marker()));
    let all = before + events + after;
    assert(all[before.len() + i] == events[i]);
}

/// A reply without character data containing "NetworkVideoTransmitter" does
/// not announce a camera.
pub proof fn lemma_no_marker_no_camera(events: Seq<XmlItemView>)
    requires
        forall|i: int|
            0 <= i < events.len() ==> !(#[trigger] events[i] matches XmlItemView::Characters(c)
                && occurs_in(c, "NetworkVideoTransmitter"@)),
    ensures
        !announces_camera(events),
{
}

} // verus!
