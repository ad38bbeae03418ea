//! Where captured images go, and which of them is shown.

use vstd::prelude::*;
use crate::text::{contains_text, occurs_in};
use crate::time::{Timestamp, epoch, later, is_later};

verus! {

/// A known face: the image it was taken from and whose it is.
#[derive(Debug, Clone)]
pub struct Face {
    pub file: String,
    pub name: String,
}

/// What could be read of an entry's modification time.
#[derive(Debug, Clone, Copy, PartialEq, Eq, Structural)]
pub enum Modified {
    /// The entry's metadata could not be read.
    Unreadable,
    /// The metadata was read, but the platform gives no modification time.
    Unsupported,
    /// The modification time.
    At(Timestamp),
}

/// What is known of one directory entry when the latest image is looked for.
#[derive(Debug, Clone)]
pub struct DirEntryInfo {
    /// The file name, when it is valid UTF-8.
    pub name: Option<String>,
    /// Whether the entry is a regular file.
    pub is_file: bool,
    /// Its modification time, as far as it could be read.
    pub modified: Modified,
}

/// A regular file whose name (when readable) holds both the prefix and the
/// camera identifier: the entries whose modification time is looked at.
pub open spec fn is_named_image(e: DirEntryInfo, prefix: Seq<char>, camera_id: Seq<char>) -> bool {
    &&& e.is_file
    &&& (e.name matches Some(n) ==> occurs_in(n@, prefix) && occurs_in(n@, camera_id))
}

/// An entry that may be shown: a named image modified after the Unix epoch.
pub open spec fn is_candidate(e: DirEntryInfo, prefix: Seq<char>, camera_id: Seq<char>) -> bool {
    &&& is_named_image(e, prefix, camera_id)
    &&& e.modified matches Modified::At(t)
    &&& later(t, epoch())
}

/// A named image whose metadata was read but has no modification time: the
/// search cannot rank it.
pub open spec fn lacks_time(e: DirEntryInfo, prefix: Seq<char>, camera_id: Seq<char>) -> bool {
    is_named_image(e, prefix, camera_id) && e.modified is Unsupported
}

pub open spec fn modified_of(e: DirEntryInfo) -> Timestamp {
    e.modified->At_0
}

fn named_image(e: &DirEntryInfo, prefix: &str, camera_id: &str) -> (b: bool)
    ensures
        b == is_named_image(*e, prefix@, camera_id@),
{
    if !e.is_file {
        return false;
    }
    match &e.name {
        Some(n) => contains_text(n.as_str(), prefix) && contains_text(n.as_str(), camera_id),
        None => true,
    }
}

/// The first named image that has no modification time, if any. Looking for
/// the latest image stops there.
pub fn entry_without_time(prefix: &str, camera_id: &str, entries: &Vec<DirEntryInfo>) -> (r: Option<
    usize,
>)
    ensures
        r is None <==> forall|j: int|
            0 <= j < entries@.len() ==> !lacks_time(#[trigger] entries@[j], prefix@, camera_id@),
        r matches Some(i) ==> i < entries@.len() && lacks_time(entries@[i as int], prefix@, camera_id@)
            && forall|j: int| 0 <= j < i ==> !lacks_time(#[trigger] entries@[j], prefix@, camera_id@),
{
    let mut i: usize = 0;
    while i < entries.len()
        invariant
            i <= entries@.len(),
            forall|j: int| 0 <= j < i ==> !lacks_time(#[trigger] entries@[j], prefix@, camera_id@),
        decreases entries@.len() - i,
    {
        if named_image(&entries[i], prefix, camera_id) && entries[i].modified == Modified::Unsupported {
            return Some(i);
        }
        i = i + 1;
    }
    None
}

/// The index of the most recently modified candidate entry; of several
/// modified at the same latest time, the first. `None` when no entry is a
/// candidate.
pub fn get_last_image(prefix: &str, camera_id: &str, entries: &Vec<DirEntryInfo>) -> (r: Option<
    usize,
>)
    requires
        forall|j: int| 0 <= j < entries@.len() ==> !lacks_time(#[trigger] entries@[j], prefix@, camera_id@),
    ensures
        r is None <==> forall|j: int|
            0 <= j < entries@.len() ==> !is_candidate(#[trigger] entries@[j], prefix@, camera_id@),
        r matches Some(i) ==> {
            &&& i < entries@.len()
            &&& is_candidate(entries@[i as int], prefix@, camera_id@)
            &&& forall|j: int|
                0 <= j < entries@.len() && is_candidate(#[trigger] entries@[j], prefix@, camera_id@)
                    ==> !later(modified_of(entries@[j]), modified_of(entries@[i as int]))
            &&& forall|j: int|
                0 <= j < i && is_candidate(#[trigger] entries@[j], prefix@, camera_id@) ==> later(
                    modified_of(entries@[i as int]),
                    modified_of(entries@[j]),
                )
        },
{
    let mut latest = Timestamp { secs: 0, nanos: 0 };
    let mut best: Option<usize> = None;
    let mut i: usize = 0;
    while i < entries.len()
        invariant
            i <= entries@.len(),
            best is None ==> latest == epoch() && forall|j: int|
                0 <= j < i ==> !is_candidate(#[trigger] entries@[j], prefix@, camera_id@),
            best matches Some(b) ==> {
                &&& b < i
                &&& is_candidate(entries@[b as int], prefix@, camera_id@)
                &&& latest == modified_of(entries@[b as int])
                &&& forall|j: int|
                    0 <= j < i && is_candidate(#[trigger] entries@[j], prefix@, camera_id@) ==> !later(
                        modified_of(entries@[j]),
                        latest,
                    )
                &&& forall|j: int|
                    0 <= j < b && is_candidate(#[trigger] entries@[j], prefix@, camera_id@) ==> later(
                        latest,
                        modified_of(entries@[j]),
                    )
            },
        decreases entries@.len() - i,
    {
        let e = &entries[i];
        if named_image(e, prefix, camera_id) {
            match e.modified {
                Modified::At(t) => {
                    if is_later(t, latest) {
                        latest = t;
                        best = Some(i);
                    }
                },
                _ => {},
            }
        }
        i = i + 1;
    }
    best
}

/// File name under which a frame with motion is kept.
pub open spec fn motion_image_name_text(stamp: Seq<char>, camera_id: Seq<char>) -> Seq<char> {
    "motion_"@ + stamp + "_"@ + camera_id + ".jpg"@
}

/// File name under which a frame with faces is kept.
pub open spec fn face_image_name_text(stamp: Seq<char>, camera_id: Seq<char>) -> Seq<char> {
    "face_"@ + stamp + "_"@ + camera_id + ".jpg"@
}

/// Names the image kept for a frame of camera `camera_id` in which objects
/// were found, taken at the local time `stamp`.
pub fn motion_image_name(stamp: &str, camera_id: &str) -> (name: String)
    ensures
        name@ == motion_image_name_text(stamp@, camera_id@),
{
    let mut name = String::from_str("motion_");
    name.append(stamp);
    name.append("_");
    name.append(camera_id);
    name.append(".jpg");
    name
}

/// Names the image kept for a frame of camera `camera_id` in which faces
/// were found, taken at the local time `stamp`.
pub fn face_image_name(stamp: &str, camera_id: &str) -> (name: String)
    ensures
        name@ == face_image_name_text(stamp@, camera_id@),
{
    let mut name = String::from_str("face_");
    name.append(stamp);
    name.append("_");
    name.append(camera_id);
    name.append(".jpg");
    name
}

/// Name of the folder that holds captured images: the configured one, or
/// `motion` when none is configured.
pub fn motion_folder_name(configured: Option<String>) -> (name: String)
    ensures
        configured matches Some(c) ==> name@ == c@,
        configured is None ==> name@ == "motion"@,
{
    match configured {
        Some(c) => c,
        None => String::from_str("motion"),
    }
}


/// How many frames may wait for processing.
pub const FRAME_QUEUE_CAPACITY: usize = 100;

/// How long one capture session runs before every task is told to stop, in
/// seconds.
pub const CAPTURE_SESSION_SECS: u64 = 360;

/// What the frame-processing task observed.
#[derive(Debug, Clone, Copy, PartialEq, Eq, Structural)]
pub enum FrameEvent {
    /// A stop was broadcast.
    StopRequested,
    /// A frame arrived.
    FrameReceived,
    /// Every capture task is gone and the channel is closed.
    ChannelClosed,
}

/// What the frame-processing task does next.
#[derive(Debug, Clone, Copy, PartialEq, Eq, Structural)]
pub enum FrameAction {
    /// Look for motion, objects and faces in the frame, then wait for the next one.
    Process,
    /// End the task.
    Finish,
}

/// The processing loop works on every frame until a stop is broadcast or the
/// channel closes.
pub fn frame_next(event: FrameEvent) -> (a: FrameAction)
    ensures
        a == (if event == FrameEvent::FrameReceived {
            FrameAction::Process
        } else {
            FrameAction::Finish
        }),
{
    match event {
        FrameEvent::FrameReceived => FrameAction::Process,
        _ => FrameAction::Finish,
    }
}

/// An image is kept only when something was found in it.
pub fn should_keep_image(found: usize) -> (b: bool)
    ensures
        b == (found > 0),
{
    found > 0
}

/// A captured frame is usable when it has both a width and a height.
pub fn frame_has_pixels(width: i32, height: i32) -> (b: bool)
    ensures
        b == (width != 0 && height != 0),
{
    width != 0 && height != 0
}

/// Bytes of an RGB image of the given size, three per pixel.
pub fn rgb_buffer_len(width: i32, height: i32) -> (n: usize)
    requires
        0 <= width,
        0 <= height,
        width * height * 3 <= i32::MAX,
    ensures
        n == width * height * 3,
{
    assert(0 <= width * height) by (nonlinear_arith)
        requires 0 <= width, 0 <= height;
    let area: i32 = width * height;
    (area * 3) as usize
}

} // verus!
