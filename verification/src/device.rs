//! Cameras: their addresses, the list of known cameras, and the choices made
//! when a capture task starts and runs.

use vstd::prelude::*;
use crate::text::{decimal, push_decimal};

verus! {

/// An IPv4 address, as four octets.
#[derive(Debug, Clone, Copy, PartialEq, Eq, Structural)]
pub struct Ipv4Address(pub u8, pub u8, pub u8, pub u8);

/// Dotted-quad form of an address, as `Ipv4Addr` displays it.
pub open spec fn ip_text(ip: Ipv4Address) -> Seq<char> {
    decimal(ip.0 as nat) + seq!['.'] + decimal(ip.1 as nat) + seq!['.'] + decimal(ip.2 as nat)
        + seq!['.'] + decimal(ip.3 as nat)
}

/// `address:port`, as the status reply lists a camera.
pub open spec fn endpoint_text(ip: Ipv4Address, port: u16) -> Seq<char> {
    ip_text(ip) + seq![':'] + decimal(port as nat)
}

/// Appends the dotted-quad form of `ip`.
pub fn push_ip(out: &mut String, ip: Ipv4Address)
    ensures
        final(out)@ == old(out)@ + ip_text(ip),
{
    let ghost before = out@;
    proof { reveal_strlit("."); }
    push_decimal(out, ip.0 as u64);
    out.append(".");
    push_decimal(out, ip.1 as u64);
    out.append(".");
    push_decimal(out, ip.2 as u64);
    out.append(".");
    push_decimal(out, ip.3 as u64);
    assert(out@ =~= before + ip_text(ip));
}

/// Appends `address:port`.
pub fn push_endpoint(out: &mut String, ip: Ipv4Address, port: u16)
    ensures
        final(out)@ == old(out)@ + endpoint_text(ip, port),
{
    let ghost before = out@;
    proof { reveal_strlit(":"); }
    push_ip(out, ip);
    out.append(":");
    push_decimal(out, port as u64);
    assert(out@ =~= before + endpoint_text(ip, port));
}

/// A camera the bot knows of.
#[derive(Debug, Clone)]
pub struct CameraInfo {
    pub url: String,
    pub ip_addres: Ipv4Address,
    pub port: u16,
    pub id: String,
}

impl CameraInfo {
    pub fn new(url: String, ip_addres: Ipv4Address, port: u16, id: String) -> (c: Self)
        ensures
            c.url == url,
            c.ip_addres == ip_addres,
            c.port == port,
            c.id == id,
    {
        CameraInfo { url, ip_addres, port, id }
    }
}

/// Whether some camera of the list has address `ip`.
pub open spec fn has_camera_at(cameras: Seq<CameraInfo>, ip: Ipv4Address) -> bool {
    exists|i: int| 0 <= i < cameras.len() && #[trigger] cameras[i].ip_addres == ip
}

/// No two cameras of the list share an address.
pub open spec fn addresses_unique(cameras: Seq<CameraInfo>) -> bool {
    forall|i: int, j: int|
        0 <= i < cameras.len() && 0 <= j < cameras.len() && i != j
            ==> #[trigger] cameras[i].ip_addres != #[trigger] cameras[j].ip_addres
}

/// Looks for a camera with address `ip`.
pub fn camera_at(cameras: &Vec<CameraInfo>, ip: Ipv4Address) -> (b: bool)
    ensures
        b == has_camera_at(cameras@, ip),
{
    let mut i: usize = 0;
    while i < cameras.len()
        invariant
            i <= cameras@.len(),
            forall|j: int| 0 <= j < i ==> #[trigger] cameras@[j].ip_addres != ip,
        decreases cameras@.len() - i,
    {
        if cameras[i].ip_addres == ip {
            return true;
        }
        i = i + 1;
    }
    false
}

/// Stream address of a discovered camera.
pub open spec fn rtsp_url_text(ip: Ipv4Address) -> Seq<char> {
    "rtsp://"@ + ip_text(ip) + ":554/user=admin&password=&channel=1&stream=0.sdp"@
}

/// Builds the stream address under which a discovered camera is opened.
pub fn rtsp_url(ip: Ipv4Address) -> (url: String)
    ensures
        url@ == rtsp_url_text(ip),
{
    let mut url = String::from_str("rtsp://");
    push_ip(&mut url, ip);
    url.append(":554/user=admin&password=&channel=1&stream=0.sdp");
    url
}

/// The camera a discovery reply from `ip:port` announces.
pub open spec fn discovered_camera(ip: Ipv4Address, port: u16, id: Seq<char>, c: CameraInfo) -> bool {
    &&& c.url@ == rtsp_url_text(ip)
    &&& c.ip_addres == ip
    &&& c.port == port
    &&& c.id@ == id
}

/// Records a camera announced from `ip:port` under the identifier `id`,
/// unless a camera with that address is already known.
pub fn add_discovered_camera(cameras: &mut Vec<CameraInfo>, ip: Ipv4Address, port: u16, id: String)
    ensures
        has_camera_at(old(cameras)@, ip) ==> final(cameras)@ == old(cameras)@,
        !has_camera_at(old(cameras)@, ip) ==> {
            &&& final(cameras)@.len() == old(cameras)@.len() + 1
            &&& final(cameras)@.drop_last() == old(cameras)@
            &&& discovered_camera(ip, port, id@, final(cameras)@.last())
        },
{
    if !camera_at(cameras, ip) {
        let url = rtsp_url(ip);
        cameras.push(CameraInfo { url, ip_addres: ip, port, id });
        assert(cameras@.drop_last() =~= old(cameras)@);
    }
}

/// Adding a discovered camera never puts two cameras at one address.
pub proof fn lemma_discovery_keeps_addresses_unique(
    before: Seq<CameraInfo>,
    after: Seq<CameraInfo>,
    ip: Ipv4Address,
    port: u16,
    id: Seq<char>,
)
    requires
        addresses_unique(before),
        has_camera_at(before, ip) ==> after == before,
        !has_camera_at(before, ip) ==> {
            &&& after.len() == before.len() + 1
            &&& after.drop_last() == before
            &&& discovered_camera(ip, port, id, after.last())
        },
    ensures
        addresses_unique(after),
        has_camera_at(after, ip),
{
    if !has_camera_at(before, ip) {
        assert forall|i: int, j: int|
            0 <= i < after.len() && 0 <= j < after.len() && i != j
            implies #[trigger] after[i].ip_addres != #[trigger] after[j].ip_addres by {
            if i < before.len() && j < before.len() {
                assert(after[i] == before[i]);
                assert(after[j] == before[j]);
            } else if i < before.len() {
                assert(after[i] == before[i]);
            } else {
                assert(after[j] == before[j]);
            }
        }
        assert(after[after.len() - 1].ip_addres == ip);
    }
}

/// The known cameras followed by the found ones whose address is not listed
/// yet, in the order they were found.
pub open spec fn merged(known: Seq<CameraInfo>, found: Seq<CameraInfo>) -> Seq<CameraInfo>
    decreases found.len(),
{
    if found.len() == 0 {
        known
    } else {
        let m = merged(known, found.drop_last());
        if has_camera_at(m, found.last().ip_addres) {
            m
        } else {
            m.push(found.last())
        }
    }
}

/// Adds the cameras a search found to the known ones, skipping addresses
/// already listed.
pub fn merge_cameras(known: &mut Vec<CameraInfo>, found: Vec<CameraInfo>)
    ensures
        final(known)@ == merged(old(known)@, found@),
{
    let ghost orig = found@;
    let ghost start = known@;
    let mut rest = found;
    let n: usize = rest.len();
    let mut k: usize = 0;
    assert(orig.subrange(0, 0) =~= Seq::<CameraInfo>::empty());
    while k < n
        invariant
            n == orig.len(),
            k <= n,
            rest@ == orig.subrange(k as int, n as int),
            known@ == merged(start, orig.subrange(0, k as int)),
        decreases n - k,
    {
        let c = rest.remove(0);
        let ghost prefix = orig.subrange(0, k + 1);
        assert(prefix.drop_last() =~= orig.subrange(0, k as int));
        assert(prefix.last() == c);
        if !camera_at(known, c.ip_addres) {
            known.push(c);
        }
        k = k + 1;
        assert(rest@ =~= orig.subrange(k as int, n as int));
    }
    assert(orig.subrange(0, n as int) =~= orig);
}

/// Merging keeps addresses distinct, keeps every known camera in place, and
/// lists every found address afterwards.
pub proof fn lemma_merge(known: Seq<CameraInfo>, found: Seq<CameraInfo>)
    ensures
        addresses_unique(known) ==> addresses_unique(merged(known, found)),
        merged(known, found).len() >= known.len(),
        merged(known, found).subrange(0, known.len() as int) == known,
        forall|i: int| 0 <= i < found.len() ==> has_camera_at(merged(known, found), #[trigger] found[i].ip_addres),
        forall|ip: Ipv4Address| has_camera_at(known, ip) ==> has_camera_at(merged(known, found), ip),
    decreases found.len(),
{
    if found.len() > 0 {
        let f = found.drop_last();
        let x = found.last();
        lemma_merge(known, f);
        let m = merged(known, f);
        if !has_camera_at(m, x.ip_addres) {
            let w = m.push(x);
            if addresses_unique(known) {
                assert forall|i: int, j: int|
                    0 <= i < w.len() && 0 <= j < w.len() && i != j
                    implies #[trigger] w[i].ip_addres != #[trigger] w[j].ip_addres by {
                    if i < m.len() && j < m.len() {
                        assert(w[i] == m[i]);
                        assert(w[j] == m[j]);
                    } else if i < m.len() {
                        assert(w[i] == m[i]);
                    } else {
                        assert(w[j] == m[j]);
                    }
                }
            }
            assert(w.subrange(0, known.len() as int) =~= m.subrange(0, known.len() as int));
            assert(w[m.len() as int] == x);
            assert forall|ip: Ipv4Address| has_camera_at(m, ip) implies has_camera_at(w, ip) by {
                let i: int = choose|i: int| 0 <= i < m.len() && #[trigger] m[i].ip_addres == ip;
                assert(w[i] == m[i]);
            }
        }
        assert forall|i: int| 0 <= i < found.len() implies has_camera_at(
            merged(known, found),
            #[trigger] found[i].ip_addres,
        ) by {
            if i < f.len() {
                assert(found[i] == f[i]);
            }
        }
    }
}

/// The stream address of the camera at `index`, or the empty text when there
/// is no such camera.
pub fn camera_url(cameras: &Vec<CameraInfo>, index: usize) -> (url: String)
    ensures
        index < cameras@.len() ==> url@ == cameras@[index as int].url@,
        index >= cameras@.len() ==> url@ == Seq::<char>::empty(),
{
    if index < cameras.len() {
        cameras[index].url.clone()
    } else {
        String::new()
    }
}

/// The camera used when none was discovered: the local device, listed under
/// 127.0.0.1 and port 1 with an empty stream address.
pub open spec fn is_local_camera(c: CameraInfo, id: Seq<char>) -> bool {
    &&& c.url@ == Seq::<char>::empty()
    &&& c.ip_addres == Ipv4Address(127, 0, 0, 1)
    &&& c.port == 1
    &&& c.id@ == id
}

/// Adds the local camera under `id` when the list is empty.
pub fn add_local_camera(cameras: &mut Vec<CameraInfo>, id: String)
    ensures
        old(cameras)@.len() > 0 ==> final(cameras)@ == old(cameras)@,
        old(cameras)@.len() == 0 ==> final(cameras)@.len() == 1 && is_local_camera(
            final(cameras)@[0],
            id@,
        ),
{
    if cameras.len() == 0 {
        cameras.push(
            CameraInfo { url: String::new(), ip_addres: Ipv4Address(127, 0, 0, 1), port: 1, id },
        );
    }
}

/// A lowercase hexadecimal digit.
pub open spec fn is_lower_hex(c: char) -> bool {
    ('0' <= c && c <= '9') || ('a' <= c && c <= 'f')
}

/// The hyphenated text of a version 4 UUID: 36 chars, hyphens at positions
/// 8, 13, 18 and 23, lowercase hexadecimal digits elsewhere, and the version
/// digit `4` at position 14.
pub open spec fn is_v4_uuid_text(s: Seq<char>) -> bool {
    &&& s.len() == 36
    &&& forall|i: int|
        0 <= i < 36 ==> if i == 8 || i == 13 || i == 18 || i == 23 {
            #[trigger] s[i] == '-'
        } else {
            is_lower_hex(s[i])
        }
    &&& s[14] == '4'
}

/// A fresh random identifier in the hyphenated form of `uuid::Uuid`.
///
/// Calls `uuid::Uuid::new_v4` and renders it with `to_string`, which writes
/// the hyphenated lowercase form. The value is random: only its shape is
/// stated.
#[verifier::external_body]
pub(crate) fn new_uuid_text() -> (s: String)
    ensures
        is_v4_uuid_text(s@),
{
    uuid::Uuid::new_v4().to_string()
}

/// Makes sure there is a camera to capture from: when the list is empty, the
/// local camera is added under a fresh random identifier.
pub fn ensure_local_camera(cameras: &mut Vec<CameraInfo>)
    ensures
        old(cameras)@.len() > 0 ==> final(cameras)@ == old(cameras)@,
        old(cameras)@.len() == 0 ==> final(cameras)@.len() == 1 && exists|id: Seq<char>|
            is_v4_uuid_text(id) && is_local_camera(#[trigger] final(cameras)@[0], id),
{
    if cameras.len() == 0 {
        let id = new_uuid_text();
        add_local_camera(cameras, id);
    }
}

/// Where frames are read from.
#[derive(Debug)]
pub enum CaptureSource {
    /// The default capture device (index 0, any backend).
    DefaultDevice,
    /// A stream or file opened through FFmpeg.
    Stream(String),
}

/// A camera with an empty stream address is the default device; any other
/// address is opened as a stream.
pub fn capture_source(url: &str) -> (s: CaptureSource)
    ensures
        url@.len() == 0 ==> s is DefaultDevice,
        url@.len() > 0 ==> (s matches CaptureSource::Stream(u) && u@ == url@),
{
    if url.is_empty() {
        CaptureSource::DefaultDevice
    } else {
        CaptureSource::Stream(String::from_str(url))
    }
}

/// What the capture task for one camera observed last.
#[derive(Debug, Clone, Copy, PartialEq, Eq, Structural)]
pub enum CaptureEvent {
    /// A stop was broadcast.
    StopRequested,
    /// No stop is pending.
    Running,
    /// A frame was read.
    FrameRead,
    /// Reading a frame failed.
    ReadFailed,
    /// The frame went to the processing channel.
    FrameSent,
    /// The processing channel is gone.
    SendFailed,
}

/// What the capture task does next.
#[derive(Debug, Clone, Copy, PartialEq, Eq, Structural)]
pub enum CaptureAction {
    /// Look whether a stop was broadcast.
    CheckStop,
    /// Read a frame from the camera.
    ReadFrame,
    /// Hand the frame to the processing channel.
    SendFrame,
    /// End the task normally.
    Finish,
    /// End the task with the read error.
    Fail,
}

/// The capture loop: check for a stop, read a frame, send it, yield, repeat;
/// a stop or a closed channel ends the task normally, a read error ends it
/// with that error.
pub fn capture_next(event: CaptureEvent) -> (a: CaptureAction)
    ensures
        a == match event {
            CaptureEvent::StopRequested => CaptureAction::Finish,
            CaptureEvent::Running => CaptureAction::ReadFrame,
            CaptureEvent::FrameRead => CaptureAction::SendFrame,
            CaptureEvent::ReadFailed => CaptureAction::Fail,
            CaptureEvent::FrameSent => CaptureAction::CheckStop,
            CaptureEvent::SendFailed => CaptureAction::Finish,
        },
{
    match event {
        CaptureEvent::StopRequested => CaptureAction::Finish,
        CaptureEvent::Running => CaptureAction::ReadFrame,
        CaptureEvent::FrameRead => CaptureAction::SendFrame,
        CaptureEvent::ReadFailed => CaptureAction::Fail,
        CaptureEvent::FrameSent => CaptureAction::CheckStop,
        CaptureEvent::SendFailed => CaptureAction::Finish,
    }
}

} // verus!
