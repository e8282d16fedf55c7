//! Time helpers and startup warnings.
use vstd::prelude::*;
use vstd::string::StrSliceExecFns;
use core::time::Duration;
use std::time::SystemTime;

verus! {

#[verifier::external_type_specification]
#[verifier::external_body]
pub struct ExSystemTime(std::time::SystemTime);

/// How long one send to the message bus may take, in whole minutes.
pub const SEND_TIMEOUT_MINUTES: u64 = 1;

/// The warning printed when the audio downloader is not installed.
pub const YT_DLP_MISSING: &'static str = "yt-dlp is not installed! This Lantern instance will not be able to play tracks from YouTube until it is installed!";

/// The duration of exactly `secs` seconds.
pub uninterp spec fn duration_of_secs(secs: u64) -> Duration;

/// Relies on `Duration::from_secs`: the duration of the given whole seconds.
#[verifier::external_body]
fn duration_from_secs(secs: u64) -> (r: Duration)
    ensures
        r == duration_of_secs(secs),
{
    Duration::from_secs(secs)
}

/// Relies on `Duration::as_secs`: the whole seconds of a duration, which
/// for one built from whole seconds are those seconds.
#[verifier::external_body]
fn duration_as_secs(d: &Duration) -> (r: u64)
    ensures
        forall|s: u64| *d == #[trigger] duration_of_secs(s) ==> r == s,
{
    d.as_secs()
}

/// Relies on `SystemTime::now`: the current time of the system clock.
#[verifier::external_body]
fn clock_now() -> (r: SystemTime) {
    SystemTime::now()
}

/// Relies on `SystemTime::duration_since`: the time elapsed since the Unix
/// epoch, or none where the clock reads earlier than the epoch.
#[verifier::external_body]
fn since_unix_epoch(t: &SystemTime) -> (r: Option<Duration>) {
    t.duration_since(std::time::UNIX_EPOCH).ok()
}

/// The duration of `minutes` whole minutes.
pub fn minutes_to_duration(minutes: u64) -> (r: Duration)
    requires
        minutes <= u64::MAX / 60,
    ensures
        r == duration_of_secs((minutes * 60) as u64),
{
    duration_from_secs(minutes * 60)
}

/// The time since the Unix epoch, or none where the clock reads earlier
/// than the epoch. What the clock reads is not stated: it is whatever the
/// system reports at the call.
pub fn get_unix_timestamp() -> (r: Option<Duration>) {
    since_unix_epoch(&clock_now())
}

/// The current Unix time in whole seconds, or none where the clock reads
/// earlier than the epoch.
pub fn get_timestamp() -> (r: Option<u64>) {
    match get_unix_timestamp() {
        Some(d) => Some(duration_as_secs(&d)),
        None => None,
    }
}

/// The entries of a search path: the pieces between its colons, in order.
/// An empty path, and an empty piece between two colons, count as one empty
/// entry.
pub open spec fn path_entries(s: Seq<char>) -> Seq<Seq<char>>
    decreases s.len(),
{
    if s.len() == 0 {
        seq![Seq::<char>::empty()]
    } else {
        let prev = path_entries(s.drop_last());
        if s.last() == ':' {
            prev.push(Seq::<char>::empty())
        } else {
            prev.update(prev.len() - 1, prev.last().push(s.last()))
        }
    }
}

proof fn lemma_path_entries_nonempty(s: Seq<char>)
    ensures
        path_entries(s).len() >= 1,
    decreases s.len(),
{
    if s.len() > 0 {
        lemma_path_entries_nonempty(s.drop_last());
    }
}

/// The file `program` would be at in `dir`.
pub open spec fn candidate(dir: Seq<char>, program: Seq<char>) -> Seq<char> {
    dir + "/"@ + program
}

fn candidate_string(dir: &str, program: &str) -> (r: String)
    ensures
        r@ == candidate(dir@, program@),
{
    let mut c = String::from_str(dir);
    c.append("/");
    c.append(program);
    c
}

/// Where to look for `program` along the search path `path`: one file per
/// path entry, in order.
pub fn program_candidates(path: &str, program: &str) -> (r: Vec<String>)
    ensures
        r@.len() == path_entries(path@).len(),
        forall|j: int|
            0 <= j < r@.len() ==> #[trigger] r@[j]@ == candidate(path_entries(path@)[j], program@),
{
    let n = path.unicode_len();
    let mut found: Vec<String> = Vec::new();
    let mut start: usize = 0;
    let mut i: usize = 0;
    proof {
        assert(path@.take(0) =~= Seq::<char>::empty());
    }
    while i < n
        invariant
            n == path@.len(),
            start <= i <= n,
            path_entries(path@.take(i as int)).len() == found@.len() + 1,
            path_entries(path@.take(i as int)).last() == path@.subrange(start as int, i as int),
            forall|j: int|
                0 <= j < found@.len() ==> #[trigger] found@[j]@ == candidate(
                    path_entries(path@.take(i as int))[j],
                    program@,
                ),
        decreases n - i,
    {
        let c = path.get_char(i);
        let ghost prev = path_entries(path@.take(i as int));
        proof {
            assert(path@.take(i + 1).drop_last() =~= path@.take(i as int));
            lemma_path_entries_nonempty(path@.take(i as int));
        }
        if c == ':' {
            let entry = path.substring_char(start, i);
            found.push(candidate_string(entry, program));
            start = i + 1;
            proof {
                assert(path@.subrange(start as int, (i + 1) as int) =~= Seq::<char>::empty());
            }
        } else {
            proof {
                assert(path@.subrange(start as int, (i + 1) as int) =~= path@.subrange(
                    start as int,
                    i as int,
                ).push(c));
            }
        }
        i = i + 1;
    }
    proof {
        assert(path@.take(n as int) =~= path@);
    }
    let last = path.substring_char(start, n);
    found.push(candidate_string(last, program));
    found
}

/// The warnings to print at startup, given whether the audio downloader
/// was found on the search path.
pub fn print_warnings(yt_dlp_in_path: bool) -> (r: Vec<String>)
    ensures
        yt_dlp_in_path ==> r@.len() == 0,
        !yt_dlp_in_path ==> r@.len() == 1 && r@[0]@ == YT_DLP_MISSING@,
{
    let mut warnings: Vec<String> = Vec::new();
    if !yt_dlp_in_path {
        warnings.push(String::from_str(YT_DLP_MISSING));
    }
    warnings
}

} // verus!
