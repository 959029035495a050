//! Device identities: which capture device a session addresses, parsed
//! from a user-supplied name.
//!
//! A device is named by a string such as `My Microphone (input)`: the
//! trailing `(input)` or `(output)` marker (matched without regard to
//! ASCII case) selects the device's role, and the marker — in its exact
//! spelling, repeated if it occurs several times at the end — together
//! with surrounding ASCII whitespace is stripped from the stored name.
//! Resolving such an identity to a real device handle is platform work
//! that happens outside the library.

use vstd::prelude::*;

verus! {

use vstd::string::StrSliceExecFns;
use vstd::string::StringExecFns;

/// Which side of the system a device captures: a microphone-class input,
/// or a loopback/monitor view of an output.
#[derive(Clone, Eq, PartialEq, Hash, Debug)]
pub enum DeviceType {
    Input,
    Output,
}

/// A device identity: its cleaned display name and its role.
#[derive(Clone, Eq, PartialEq, Hash, Debug)]
pub struct AudioDevice {
    pub name: String,
    pub device_type: DeviceType,
}

/// What can go wrong while resolving a capture device.
#[derive(Debug)]
pub enum AudioRecorderError {
    /// No device of the wanted kind could be resolved.
    FailedToGetDevice(&'static str),
    /// A second `start` while a recording is active.
    RecordingInProgress,
}

impl AudioRecorderError {
    /// A readable description of the error.
    pub fn message(&self) -> (m: String)
        ensures
            self matches AudioRecorderError::FailedToGetDevice(s) ==> m@ == "Failed to get device: "@
                + s@,
            self is RecordingInProgress ==> m@ == "Recording is already in progress"@,
    {
        match self {
            AudioRecorderError::FailedToGetDevice(s) => String::from_str(
                "Failed to get device: ",
            ).concat(s),
            AudioRecorderError::RecordingInProgress => String::from_str(
                "Recording is already in progress",
            ),
        }
    }
}

/// The ASCII whitespace characters trimmed from device names.
pub open spec fn is_ascii_space(c: char) -> bool {
    c == ' ' || c == '\t' || c == '\n' || c == '\r'
}

/// Whether a name holds nothing but whitespace.
pub open spec fn is_blank(s: Seq<char>) -> bool {
    forall|i: int| 0 <= i < s.len() ==> is_ascii_space(#[trigger] s[i])
}

/// Whether `c` equals `lower` — an ASCII lowercase pattern character — up
/// to ASCII case.
pub open spec fn eq_ignore_ascii_case(c: char, lower: char) -> bool {
    c == lower || (97 <= lower as u32 <= 122 && c as u32 + 32 == lower as u32)
}

/// Whether `s` ends with `pat`, matching ASCII letters of `pat` (all
/// lowercase) without regard to case.
pub open spec fn ends_with_ignore_case(s: Seq<char>, pat: Seq<char>) -> bool {
    s.len() >= pat.len() && forall|j: int|
        0 <= j < pat.len() ==> eq_ignore_ascii_case(
            s[s.len() - pat.len() + j],
            #[trigger] pat[j],
        )
}

/// `s` with every trailing repetition of `pat` (in its exact spelling)
/// removed.
pub open spec fn strip_suffix_repeated(s: Seq<char>, pat: Seq<char>) -> Seq<char>
    recommends
        pat.len() > 0,
    decreases s.len(),
{
    if pat.len() > 0 && s.len() >= pat.len() && s.skip(s.len() - pat.len()) == pat {
        strip_suffix_repeated(s.take(s.len() - pat.len()), pat)
    } else {
        s
    }
}

/// `s` without leading ASCII whitespace.
pub open spec fn spec_trim_front(s: Seq<char>) -> Seq<char>
    decreases s.len(),
{
    if s.len() > 0 && is_ascii_space(s[0]) {
        spec_trim_front(s.drop_first())
    } else {
        s
    }
}

/// `s` without trailing ASCII whitespace.
pub open spec fn spec_trim_back(s: Seq<char>) -> Seq<char>
    decreases s.len(),
{
    if s.len() > 0 && is_ascii_space(s.last()) {
        spec_trim_back(s.drop_last())
    } else {
        s
    }
}

/// `s` without leading and trailing ASCII whitespace.
pub open spec fn spec_trim(s: Seq<char>) -> Seq<char> {
    spec_trim_back(spec_trim_front(s))
}

/// Whether `c` is one of the ASCII whitespace characters.
fn is_space_char(c: char) -> (b: bool)
    ensures
        b == is_ascii_space(c),
{
    c == ' ' || c == '\t' || c == '\n' || c == '\r'
}

/// Whether `c` equals the lowercase pattern character up to ASCII case.
fn eq_ignore_case_char(c: char, lower: char) -> (b: bool)
    ensures
        b == eq_ignore_ascii_case(c, lower),
{
    if c == lower {
        true
    } else {
        let cu = c as u64;
        let lu = lower as u64;
        97 <= lu && lu <= 122 && cu + 32 == lu
    }
}

/// Whether the whole name is whitespace.
fn all_blank(name: &str) -> (b: bool)
    ensures
        b == is_blank(name@),
{
    let n = name.unicode_len();
    let mut i: usize = 0;
    while i < n
        invariant
            i <= n,
            n == name@.len(),
            forall|j: int| 0 <= j < i ==> is_ascii_space(#[trigger] name@[j]),
        decreases n - i,
    {
        if !is_space_char(name.get_char(i)) {
            return false;
        }
        i = i + 1;
    }
    true
}

/// Whether `name` ends with `pat`, without regard to ASCII case.
fn ends_with_lower(name: &str, pat: &str) -> (b: bool)
    ensures
        b == ends_with_ignore_case(name@, pat@),
{
    let n = name.unicode_len();
    let m = pat.unicode_len();
    if n < m {
        return false;
    }
    let mut j: usize = 0;
    while j < m
        invariant
            j <= m,
            m <= n,
            n == name@.len(),
            m == pat@.len(),
            forall|i: int|
                0 <= i < j ==> eq_ignore_ascii_case(name@[n - m + i], #[trigger] pat@[i]),
        decreases m - j,
    {
        if !eq_ignore_case_char(name.get_char(n - m + j), pat.get_char(j)) {
            return false;
        }
        j = j + 1;
    }
    true
}

/// Whether the `pat.len()` characters of `name` before position `end`
/// spell `pat` exactly.
fn window_matches(name: &str, end: usize, pat: &str) -> (b: bool)
    requires
        end <= name@.len(),
    ensures
        b == (end >= pat@.len() && name@.subrange(end - pat@.len(), end as int) == pat@),
{
    let m = pat.unicode_len();
    if end < m {
        return false;
    }
    let mut j: usize = 0;
    while j < m
        invariant
            j <= m,
            m <= end <= name@.len(),
            m == pat@.len(),
            forall|i: int| 0 <= i < j ==> name@[end - m + i] == #[trigger] pat@[i],
        decreases m - j,
    {
        if name.get_char(end - m + j) != pat.get_char(j) {
            return false;
        }
        j = j + 1;
    }
    proof {
        assert(name@.subrange(end - pat@.len(), end as int) =~= pat@);
    }
    true
}

/// Strips every trailing repetition of `pat` from `name`, then trims
/// ASCII whitespace from both ends of what is left.
fn strip_and_trim(name: &str, pat: &str) -> (r: String)
    requires
        pat@.len() > 0,
    ensures
        r@ == spec_trim(strip_suffix_repeated(name@, pat@)),
{
    let n = name.unicode_len();
    let m = pat.unicode_len();
    let mut end: usize = n;
    proof {
        assert(name@.take(n as int) =~= name@);
    }
    while window_matches(name, end, pat)
        invariant
            end <= n,
            n == name@.len(),
            m == pat@.len(),
            m > 0,
            strip_suffix_repeated(name@, pat@) == strip_suffix_repeated(
                name@.take(end as int),
                pat@,
            ),
        decreases end,
    {
        proof {
            assert(name@.take(end as int).skip(end - m) =~= name@.subrange(
                end - m,
                end as int,
            ));
            assert(name@.take(end as int).take(end - m) =~= name@.take(end - m));
        }
        end = end - m;
    }
    proof {
        // The loop left no full copy of the pattern before `end`, so the
        // stripping is complete.
        if end >= m {
            assert(name@.take(end as int).skip(end - m) =~= name@.subrange(end - m, end as int));
        }
        assert(strip_suffix_repeated(name@.take(end as int), pat@) == name@.take(end as int));
    }
    let ghost stripped = name@.take(end as int);
    let mut lo: usize = 0;
    while lo < end && is_space_char(name.get_char(lo))
        invariant
            lo <= end,
            end <= name@.len(),
            spec_trim_front(stripped) == spec_trim_front(name@.subrange(lo as int, end as int)),
            stripped == name@.take(end as int),
        decreases end - lo,
    {
        proof {
            assert(name@.subrange(lo as int, end as int).drop_first() =~= name@.subrange(
                lo + 1,
                end as int,
            ));
        }
        lo = lo + 1;
    }
    proof {
        assert(spec_trim_front(stripped) == name@.subrange(lo as int, end as int));
    }
    let mut hi: usize = end;
    while hi > lo && is_space_char(name.get_char(hi - 1))
        invariant
            lo <= hi <= end,
            end <= name@.len(),
            spec_trim_front(stripped) == name@.subrange(lo as int, end as int),
            spec_trim_back(name@.subrange(lo as int, end as int)) == spec_trim_back(
                name@.subrange(lo as int, hi as int),
            ),
        decreases hi,
    {
        proof {
            assert(name@.subrange(lo as int, hi as int).drop_last() =~= name@.subrange(
                lo as int,
                hi - 1,
            ));
        }
        hi = hi - 1;
    }
    proof {
        assert(spec_trim_back(name@.subrange(lo as int, hi as int)) == name@.subrange(
            lo as int,
            hi as int,
        ));
    }
    let cleaned = name.substring_char(lo, hi);
    cleaned.to_owned()
}

/// Whether the `pat.len()` characters of `s` starting at `k` spell `pat`
/// (an all-lowercase marker) up to ASCII case.
pub open spec fn contains_ignore_case_at(s: Seq<char>, pat: Seq<char>, k: int) -> bool {
    forall|i: int| 0 <= i < pat.len() ==> eq_ignore_ascii_case(s[k + i], #[trigger] pat[i])
}

/// Whether `s` contains `pat` (an all-lowercase marker) anywhere, up to
/// ASCII case.
pub open spec fn contains_ignore_case(s: Seq<char>, pat: Seq<char>) -> bool {
    exists|k: int| 0 <= k <= s.len() - pat.len() && contains_ignore_case_at(s, pat, k)
}

/// Whether the `pat.len()` characters of `name` at position `k` match the
/// all-lowercase `pat` up to ASCII case.
fn matches_at(name: &str, k: usize, pat: &str) -> (b: bool)
    requires
        k + pat@.len() <= name@.len(),
    ensures
        b == contains_ignore_case_at(name@, pat@, k as int),
{
    let n = name.unicode_len();
    let m = pat.unicode_len();
    let mut j: usize = 0;
    while j < m
        invariant
            j <= m,
            m == pat@.len(),
            n == name@.len(),
            k + m <= n,
            forall|i: int| 0 <= i < j ==> eq_ignore_ascii_case(name@[k + i], #[trigger] pat@[i]),
        decreases m - j,
    {
        if !eq_ignore_case_char(name.get_char(k + j), pat.get_char(j)) {
            return false;
        }
        j = j + 1;
    }
    true
}

/// Whether a device name identifies the loopback/monitor source the
/// dual-stream paths capture system audio from: it contains the marker
/// `blackhole` in any ASCII case.
pub fn name_matches_monitor(name: &str) -> (b: bool)
    ensures
        b == contains_ignore_case(name@, "blackhole"@),
{
    let pat = "blackhole";
    let n = name.unicode_len();
    let m = pat.unicode_len();
    if n < m {
        return false;
    }
    let mut k: usize = 0;
    while k <= n - m
        invariant
            n == name@.len(),
            m == pat@.len(),
            pat@ == "blackhole"@,
            m <= n,
            k <= n - m + 1,
            forall|kk: int| 0 <= kk < k ==> !contains_ignore_case_at(name@, pat@, kk),
        decreases n - k,
    {
        if matches_at(name, k, pat) {
            proof {
                assert(pat@ == "blackhole"@);
                assert(0 <= k as int <= name@.len() - "blackhole"@.len());
                assert(contains_ignore_case_at(name@, "blackhole"@, k as int));
                assert(contains_ignore_case(name@, "blackhole"@));
            }
            return true;
        }
        k = k + 1;
    }
    false
}

impl AudioDevice {
    /// A device identity from its parts.
    pub fn new(name: String, device_type: DeviceType) -> (d: AudioDevice)
        ensures
            d.name == name,
            d.device_type == device_type,
    {
        AudioDevice { name, device_type }
    }

    /// Parses a device identity from a user-supplied name: a blank name is
    /// rejected; a name ending (in any ASCII case) with `(input)` or
    /// `(output)` selects that role, and the marker's exact spelling plus
    /// surrounding whitespace is stripped from the stored name; any other
    /// name is rejected for naming no role.
    pub fn from_name(name: &str) -> (r: Result<AudioDevice, AudioRecorderError>)
        ensures
            is_blank(name@) ==> (r matches Err(e) && e matches
                AudioRecorderError::FailedToGetDevice(m) && m@ == "Device name cannot be empty"@),
            !is_blank(name@) && ends_with_ignore_case(name@, "(input)"@) ==> (r matches Ok(d)
                && d.device_type is Input && d.name@ == spec_trim(
                strip_suffix_repeated(name@, "(input)"@),
            )),
            !is_blank(name@) && !ends_with_ignore_case(name@, "(input)"@)
                && ends_with_ignore_case(name@, "(output)"@) ==> (r matches Ok(d)
                && d.device_type is Output && d.name@ == spec_trim(
                strip_suffix_repeated(name@, "(output)"@),
            )),
            !is_blank(name@) && !ends_with_ignore_case(name@, "(input)"@)
                && !ends_with_ignore_case(name@, "(output)"@) ==> (r matches Err(e) && e matches
                AudioRecorderError::FailedToGetDevice(m) && m@
                == "Device type (input/output) not specified in the name"@),
    {
        if all_blank(name) {
            return Err(AudioRecorderError::FailedToGetDevice("Device name cannot be empty"));
        }
        if ends_with_lower(name, "(input)") {
            proof {
                reveal_strlit("(input)");
            }
            let device_name = strip_and_trim(name, "(input)");
            Ok(AudioDevice::new(device_name, DeviceType::Input))
        } else if ends_with_lower(name, "(output)") {
            proof {
                reveal_strlit("(output)");
            }
            let device_name = strip_and_trim(name, "(output)");
            Ok(AudioDevice::new(device_name, DeviceType::Output))
        } else {
            Err(
                AudioRecorderError::FailedToGetDevice(
                    "Device type (input/output) not specified in the name",
                ),
            )
        }
    }
}

} // verus!
