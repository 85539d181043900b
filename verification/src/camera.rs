//! The camera-facing decisions: resolving a backend's camera index to
//! a numeric id, looking a camera up by id, and naming capture files.

use vstd::prelude::*;

verus! {

/// One available camera, as shown to the frontend.
#[derive(Debug)]
pub struct CameraListItem {
    pub id: u32,
    pub name: String,
}

/// Whether `c` is a decimal digit.
pub open spec fn is_digit(c: char) -> bool {
    48 <= c as int && c as int <= 57
}

/// The value of a decimal digit.
pub open spec fn digit_val(c: char) -> int {
    c as int - 48
}

/// Whether every character of `s` is a decimal digit.
pub open spec fn all_digits(s: Seq<char>) -> bool {
    forall|i: int| 0 <= i < s.len() ==> is_digit(s[i])
}

/// The number the digit string `s` denotes.
pub open spec fn digits_value(s: Seq<char>) -> int
    decreases s.len(),
{
    if s.len() == 0 {
        0
    } else {
        digits_value(s.drop_last()) * 10 + digit_val(s.last())
    }
}

/// A digit string denotes a nonnegative number.
pub proof fn lemma_digits_value_nonneg(s: Seq<char>)
    requires
        all_digits(s),
    ensures
        digits_value(s) >= 0,
    decreases s.len(),
{
    if s.len() > 0 {
        assert(all_digits(s.drop_last())) by {
            assert(forall|i: int|
                0 <= i < s.drop_last().len() ==> s.drop_last()[i] == s[i] && is_digit(s[i]));
        }
        lemma_digits_value_nonneg(s.drop_last());
    }
}

/// A prefix of a digit string never denotes more than the whole.
pub proof fn lemma_digits_prefix_le(s: Seq<char>, j: int)
    requires
        all_digits(s),
        0 <= j <= s.len(),
    ensures
        digits_value(s.take(j)) <= digits_value(s),
    decreases s.len(),
{
    if j == s.len() {
        assert(s.take(j) =~= s);
    } else {
        assert(all_digits(s.drop_last())) by {
            assert(forall|i: int|
                0 <= i < s.drop_last().len() ==> s.drop_last()[i] == s[i] && is_digit(s[i]));
        }
        assert(s.take(j) =~= s.drop_last().take(j));
        lemma_digits_prefix_le(s.drop_last(), j);
        lemma_digits_value_nonneg(s.drop_last());
    }
}

/// Parses a nonempty all-digit decimal string into a `u32`; anything
/// else, including a value over the type's range, is refused.
pub fn parse_u32_digits(s: &str) -> (r: Option<u32>)
    ensures
        r is Some <==> (s@.len() > 0 && all_digits(s@) && digits_value(s@) <= u32::MAX),
        r is Some ==> r.unwrap() == digits_value(s@),
{
    let n = s.unicode_len();
    if n == 0 {
        return None;
    }
    let mut val: u64 = 0;
    let mut i: usize = 0;
    while i < n
        invariant
            0 <= i <= n,
            n == s@.len(),
            all_digits(s@.take(i as int)),
            val == digits_value(s@.take(i as int)),
            val <= u32::MAX,
        decreases n - i,
    {
        let c = s.get_char(i);
        let cv = c as u32;
        if cv < 48 || cv > 57 {
            proof {
                assert(!is_digit(s@[i as int]));
            }
            return None;
        }
        let d: u64 = (cv - 48) as u64;
        proof {
            assert(s@.take(i as int + 1).drop_last() =~= s@.take(i as int));
            assert(s@.take(i as int + 1).last() == s@[i as int]);
            assert forall|k: int| 0 <= k < i as int + 1 implies #[trigger] is_digit(
                s@.take(i as int + 1)[k],
            ) by {
                if k < i as int {
                    assert(is_digit(s@.take(i as int)[k]));
                }
            }
        }
        let new_val: u64 = val * 10 + d;
        if new_val > 0xFFFF_FFFF {
            proof {
                if all_digits(s@) {
                    lemma_digits_prefix_le(s@, i as int + 1);
                }
            }
            return None;
        }
        val = new_val;
        i += 1;
    }
    proof {
        assert(s@.take(n as int) =~= s@);
    }
    Some(val as u32)
}

/// A camera backend's index for a device: already numeric, or a name
/// that may spell a number.
#[derive(Debug)]
pub enum CameraIndexKind {
    Numeric(u32),
    Named(String),
}

/// The id a backend index resolves to, given the device's position in
/// the enumeration as fallback: a numeric index is itself, a name is
/// parsed as a number where possible and otherwise gives the fallback.
pub open spec fn resolved_camera_id_spec(index: CameraIndexKind, fallback: u32) -> u32 {
    match index {
        CameraIndexKind::Numeric(id) => id,
        CameraIndexKind::Named(s) => if s@.len() > 0 && all_digits(s@) && digits_value(s@)
            <= u32::MAX {
            digits_value(s@) as u32
        } else {
            fallback
        },
    }
}

/// Resolves a backend index to the numeric camera id.
pub fn resolve_camera_id(index: &CameraIndexKind, fallback: u32) -> (r: u32)
    ensures
        r == resolved_camera_id_spec(*index, fallback),
{
    match index {
        CameraIndexKind::Numeric(id) => *id,
        CameraIndexKind::Named(s) => {
            match parse_u32_digits(s.as_str()) {
                Some(v) => v,
                None => fallback,
            }
        },
    }
}

/// Builds the camera list shown to the frontend from an enumeration of
/// devices: each backend index is resolved to a numeric id, with the
/// device's position in the enumeration as fallback.
pub fn camera_list_from_enumeration(devices: &Vec<(CameraIndexKind, String)>) -> (r: Vec<
    CameraListItem,
>)
    requires
        devices@.len() <= u32::MAX,
    ensures
        r@.len() == devices@.len(),
        forall|i: int|
            0 <= i < r@.len() ==> #[trigger] r@[i].id == resolved_camera_id_spec(
                devices@[i].0,
                i as u32,
            ) && r@[i].name == devices@[i].1,
{
    let mut r: Vec<CameraListItem> = Vec::new();
    let mut i: usize = 0;
    while i < devices.len()
        invariant
            devices@.len() <= u32::MAX,
            0 <= i <= devices@.len(),
            r@.len() == i,
            forall|k: int|
                0 <= k < i ==> #[trigger] r@[k].id == resolved_camera_id_spec(
                    devices@[k].0,
                    k as u32,
                ) && r@[k].name == devices@[k].1,
        decreases devices@.len() - i,
    {
        let id = resolve_camera_id(&devices[i].0, i as u32);
        r.push(CameraListItem { id, name: devices[i].1.clone() });
        i += 1;
    }
    r
}

/// Why a camera id could not be validated.
#[derive(Debug, Clone, Copy, PartialEq, Eq, Structural)]
pub enum CameraError {
    /// The system reports no camera at all.
    NoCameras,
    /// Cameras exist, but none carries the requested id.
    NotFound,
}

/// Validates a camera id against the enumerated devices: the position
/// of the first device with that id, or the error that says why there
/// is none.
pub fn find_camera(cameras: &Vec<CameraListItem>, camera_id: u32) -> (r: Result<
    usize,
    CameraError,
>)
    ensures
        r is Ok ==> 0 <= r.unwrap() < cameras@.len() && cameras@[r.unwrap() as int].id
            == camera_id && (forall|k: int|
            0 <= k < r.unwrap() ==> cameras@[k].id != camera_id),
        r == Err::<usize, CameraError>(CameraError::NoCameras) <==> cameras@.len() == 0,
        r == Err::<usize, CameraError>(CameraError::NotFound) <==> (cameras@.len() > 0 && (
        forall|k: int| 0 <= k < cameras@.len() ==> cameras@[k].id != camera_id)),
{
    if cameras.len() == 0 {
        return Err(CameraError::NoCameras);
    }
    let mut i: usize = 0;
    while i < cameras.len()
        invariant
            0 <= i <= cameras@.len(),
            forall|k: int| 0 <= k < i ==> cameras@[k].id != camera_id,
        decreases cameras@.len() - i,
    {
        if cameras[i].id == camera_id {
            return Ok(i);
        }
        i += 1;
    }
    Err(CameraError::NotFound)
}

/// The file name of a photo capture taken at `timestamp`.
pub fn capture_filename(timestamp: &str) -> (r: String)
    ensures
        r@ == "snaplock_capture_"@ + timestamp@ + ".jpg"@,
{
    let mut r = String::from_str("snaplock_capture_");
    r.append(timestamp);
    r.append(".jpg");
    proof {
        assert(r@ =~= "snaplock_capture_"@ + timestamp@ + ".jpg"@);
    }
    r
}

/// The file name of a camera video recording started at `timestamp`.
pub fn video_filename(timestamp: &str) -> (r: String)
    ensures
        r@ == "snaplock_video_"@ + timestamp@ + ".mkv"@,
{
    let mut r = String::from_str("snaplock_video_");
    r.append(timestamp);
    r.append(".mkv");
    proof {
        assert(r@ =~= "snaplock_video_"@ + timestamp@ + ".mkv"@);
    }
    r
}

/// The file name of a screen recording started at `timestamp`.
pub fn screen_recording_filename(timestamp: &str) -> (r: String)
    ensures
        r@ == timestamp@ + ".mkv"@,
{
    let mut r = String::new();
    r.append(timestamp);
    r.append(".mkv");
    proof {
        assert(r@ =~= timestamp@ + ".mkv"@);
    }
    r
}

} // verus!
