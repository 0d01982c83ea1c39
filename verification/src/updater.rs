//! Deciding whether a newer release exists, presenting its notes, and
//! following a download with its progress.

use crate::text::{
    chars_of, decimal, digit_char, has_prefix, lines, push_all, push_decimal, push_str, slice,
    split, split_lines, split_on, starts_with, string_of, trim_end, trimmed_end, views,
};
use vstd::prelude::*;

verus! {

/// A point in time: seconds since the Unix epoch, not counting leap
/// seconds, and the nanoseconds since that second began.
#[derive(Clone, Copy, Debug, PartialEq, Eq, Structural)]
pub struct Instant {
    pub secs: i64,
    pub nanos: u32,
}

/// Nanoseconds in one second.
pub const NANOS_PER_SEC: i128 = 1_000_000_000;

/// How far a release must lie after the build before it counts as newer:
/// five minutes, in nanoseconds. The margin absorbs the time that passes
/// between building a release and publishing it.
pub const SKEW_NANOS: i128 = 300_000_000_000;

/// The point in time that an RFC 3339 date-and-time text denotes, as
/// seconds and nanoseconds; `None` where the text is not such a
/// date-and-time.
pub uninterp spec fn rfc3339_time(text: Seq<char>) -> Option<(i64, u32)>;

/// The point in time that an RFC 3339 date-and-time text denotes.
pub open spec fn rfc3339_instant(text: Seq<char>) -> Option<Instant> {
    match rfc3339_time(text) {
        Some(t) => Some(Instant { secs: t.0, nanos: t.1 }),
        None => None,
    }
}

/// Calls `chrono::DateTime::parse_from_rfc3339` and, where it succeeds,
/// reads the result's `timestamp()` and `timestamp_subsec_nanos()`. Parsing
/// depends on the text alone, so the contract names the result.
#[verifier::external_body]
fn parse_rfc3339(text: &str) -> (out: Option<(i64, u32)>)
    ensures
        out == rfc3339_time(text@),
{
    match chrono::DateTime::parse_from_rfc3339(text) {
        Ok(t) => Some((t.timestamp(), t.timestamp_subsec_nanos())),
        Err(_) => None,
    }
}

impl Instant {
    /// Nanoseconds since the epoch.
    pub open spec fn nanos_since_epoch(self) -> int {
        self.secs * 1_000_000_000 + self.nanos
    }

    /// Reads an RFC 3339 date-and-time.
    pub fn parse(text: &str) -> (out: Option<Instant>)
        ensures
            out == rfc3339_instant(text@),
    {
        match parse_rfc3339(text) {
            Some(t) => Some(Instant { secs: t.0, nanos: t.1 }),
            None => None,
        }
    }
}

/// Whether a release published at `published` is newer than a build made
/// at `built`: it is when it lies more than the skew threshold after it.
pub open spec fn newer(published: Instant, built: Instant) -> bool {
    published.nanos_since_epoch() - built.nanos_since_epoch() > SKEW_NANOS
}

/// Decides whether a release is newer than the running build.
pub fn is_newer(published: Instant, built: Instant) -> (out: bool)
    ensures
        out == newer(published, built),
{
    let p: i128 = (published.secs as i128) * NANOS_PER_SEC + (published.nanos as i128);
    let b: i128 = (built.secs as i128) * NANOS_PER_SEC + (built.nanos as i128);
    p - b > SKEW_NANOS
}

/// A release at or before the build time, or within the threshold after
/// it, is no update; one nanosecond past the threshold is.
pub proof fn lemma_newer_boundary(published: Instant, built: Instant)
    ensures
        published.nanos_since_epoch() <= built.nanos_since_epoch() ==> !newer(published, built),
        published.nanos_since_epoch() == built.nanos_since_epoch() + SKEW_NANOS ==> !newer(
            published,
            built,
        ),
        published.nanos_since_epoch() >= built.nanos_since_epoch() + SKEW_NANOS + 1 ==> newer(
            published,
            built,
        ),
{
}

/// Why a check for updates could not be decided.
#[derive(Clone, Copy, Debug, PartialEq, Eq, Structural)]
pub enum CheckError {
    /// The publish time of the release is no RFC 3339 date-and-time.
    BadReleaseTime,
    /// The build time is no RFC 3339 date-and-time.
    BadBuildTime,
}

/// What a check for updates decides from the two times it parsed.
pub open spec fn decision(published: Option<Instant>, built: Option<Instant>) -> Result<
    bool,
    CheckError,
> {
    match published {
        None => Err(CheckError::BadReleaseTime),
        Some(p) => match built {
            None => Err(CheckError::BadBuildTime),
            Some(b) => Ok(newer(p, b)),
        },
    }
}

/// Decides from the parsed times whether an update is available.
pub fn decide_update(published: Option<Instant>, built: Option<Instant>) -> (out: Result<
    bool,
    CheckError,
>)
    ensures
        out == decision(published, built),
{
    match published {
        None => Err(CheckError::BadReleaseTime),
        Some(p) => match built {
            None => Err(CheckError::BadBuildTime),
            Some(b) => Ok(is_newer(p, b)),
        },
    }
}

/// Whether the release published at `published_at` is newer than the build
/// made at `compile_time`, both given as RFC 3339 texts.
pub fn check_update(published_at: &str, compile_time: &str) -> (out: Result<bool, CheckError>)
    ensures
        out == decision(rfc3339_instant(published_at@), rfc3339_instant(compile_time@)),
{
    let p = Instant::parse(published_at);
    let b = Instant::parse(compile_time);
    decide_update(p, b)
}

/// The marker that opens and closes an inline code span.
pub open spec fn code_mark() -> Seq<char> {
    "``"@
}

/// The pieces of a line joined again, every second one, that is every
/// piece that stood between an opening and a closing marker, set in
/// monospace.
pub open spec fn marked(pieces: Seq<Seq<char>>) -> Seq<char>
    decreases pieces.len(),
{
    if pieces.len() == 0 {
        Seq::empty()
    } else {
        let head = marked(pieces.drop_last());
        if (pieces.len() - 1) % 2 == 1 {
            head + "<tt>"@ + pieces.last() + "</tt>"@
        } else {
            head + pieces.last()
        }
    }
}

/// A line with its inline code spans set in monospace.
pub open spec fn inline_code(s: Seq<char>) -> Seq<char> {
    marked(split(s, code_mark()))
}

fn inline_code_chars(s: &Vec<char>) -> (out: Vec<char>)
    ensures
        out@ == inline_code(s@),
{
    let mark = chars_of("``");
    proof {
        reveal_strlit("``");
    }
    let pieces = split_on(s, &mark);
    let ghost all = views(pieces@);
    let mut out: Vec<char> = Vec::new();
    let mut i: usize = 0;
    assert(all.take(0) =~= Seq::<Seq<char>>::empty());
    while i < pieces.len()
        invariant
            i <= pieces.len(),
            all == views(pieces@),
            out@ == marked(all.take(i as int)),
        decreases pieces.len() - i,
    {
        proof {
            assert(all.take(i + 1).drop_last() =~= all.take(i as int));
            assert(all.take(i + 1).last() == pieces@[i as int]@);
        }
        if i % 2 == 1 {
            push_str(&mut out, "<tt>");
            push_all(&mut out, &pieces[i]);
            push_str(&mut out, "</tt>");
        } else {
            push_all(&mut out, &pieces[i]);
        }
        i += 1;
    }
    assert(all.take(i as int) =~= all);
    out
}

/// Sets the inline code spans of a line in monospace.
///
/// The line is cut at every double backtick; the text between the first
/// and the second marker, the third and the fourth, and so on, is put
/// between `<tt>` and `</tt>`, and the markers are dropped.
pub fn process_inline_code(s: &str) -> (out: String)
    ensures
        out@ == inline_code(s@),
{
    let chars = chars_of(s);
    let out = inline_code_chars(&chars);
    string_of(&out)
}

/// What one line of release notes becomes in the changelog.
///
/// Trailing white space is dropped first. A heading line becomes a bold
/// header followed by an empty line, a list item a bullet point, an empty
/// line stays an empty line, and any other line is passed through; inline
/// code is set in monospace in list items and other lines.
pub open spec fn changelog_line(line: Seq<char>) -> Seq<char> {
    let l = trim_end(line);
    if has_prefix(l, "## "@) {
        "<b>"@ + l.skip("## "@.len() as int) + "</b>\n\n"@
    } else if has_prefix(l, "- "@) {
        "\u{2022} "@ + inline_code(l.skip("- "@.len() as int)) + "\n"@
    } else if l.len() == 0 {
        "\n"@
    } else {
        inline_code(l) + "\n"@
    }
}

/// The changelog text for a run of lines.
pub open spec fn changelog_lines(ls: Seq<Seq<char>>) -> Seq<char>
    decreases ls.len(),
{
    if ls.len() == 0 {
        Seq::empty()
    } else {
        changelog_lines(ls.drop_last()) + changelog_line(ls.last())
    }
}

/// The changelog for the notes of a release: every line but the first,
/// which is the title.
pub open spec fn changelog(body: Seq<char>) -> Seq<char> {
    if lines(body).len() == 0 {
        Seq::empty()
    } else {
        changelog_lines(lines(body).skip(1))
    }
}

fn push_changelog_line(out: &mut Vec<char>, line: &Vec<char>)
    ensures
        final(out)@ == old(out)@ + changelog_line(line@),
{
    let l = trimmed_end(line);
    let heading = chars_of("## ");
    let item = chars_of("- ");
    let ghost start = out@;
    if starts_with(&l, &heading) {
        let rest = slice(&l, heading.len(), l.len());
        assert(rest@ =~= l@.skip("## "@.len() as int));
        push_str(out, "<b>");
        push_all(out, &rest);
        push_str(out, "</b>\n\n");
        assert(out@ =~= start + changelog_line(line@));
    } else if starts_with(&l, &item) {
        let rest = slice(&l, item.len(), l.len());
        assert(rest@ =~= l@.skip("- "@.len() as int));
        let text = inline_code_chars(&rest);
        push_str(out, "\u{2022} ");
        push_all(out, &text);
        push_str(out, "\n");
        assert(out@ =~= start + changelog_line(line@));
    } else if l.len() == 0 {
        push_str(out, "\n");
    } else {
        let text = inline_code_chars(&l);
        push_all(out, &text);
        push_str(out, "\n");
    }
}

/// Turns the notes of a release into the changelog shown to the user.
pub fn format_changelog(body: &str) -> (out: String)
    ensures
        out@ == changelog(body@),
{
    let text = chars_of(body);
    let ls = split_lines(&text);
    let ghost all = views(ls@);
    let mut out: Vec<char> = Vec::new();
    if ls.len() == 0 {
        return string_of(&out);
    }
    let mut i: usize = 1;
    assert(all.skip(1).take(0) =~= Seq::<Seq<char>>::empty());
    while i < ls.len()
        invariant
            1 <= i <= ls.len(),
            all == views(ls@),
            out@ == changelog_lines(all.skip(1).take(i - 1)),
        decreases ls.len() - i,
    {
        proof {
            assert(all.skip(1).take(i - 1 + 1).drop_last() =~= all.skip(1).take(i - 1));
            assert(all.skip(1).take(i - 1 + 1).last() == ls@[i as int]@);
        }
        push_changelog_line(&mut out, &ls[i]);
        i += 1;
    }
    assert(all.skip(1).take(i - 1) =~= all.skip(1));
    string_of(&out)
}

/// How far a download has come.
#[derive(Clone, Copy, Debug, PartialEq, Eq, Structural)]
pub struct DownloadProgress {
    /// Bytes written so far.
    pub downloaded: u64,
    /// Size of the asset in bytes.
    pub total: u64,
}

/// The value that stands for a finished download: one million parts per
/// million.
pub const FULL: u64 = 1_000_000;

impl DownloadProgress {
    /// The fraction of the asset that has been written, in parts per
    /// million, rounded down; zero where the size of the asset is not
    /// known. It is capped at the largest 64-bit number.
    pub open spec fn fraction_ppm(self) -> nat {
        if self.total > 0 {
            let f = (self.downloaded as nat * 1_000_000) / (self.total as nat);
            if f > u64::MAX {
                u64::MAX as nat
            } else {
                f
            }
        } else {
            0
        }
    }

    /// The progress after `chunk` more bytes were written. The count
    /// saturates at the largest 64-bit number.
    pub open spec fn after(self, chunk: nat) -> DownloadProgress {
        DownloadProgress {
            downloaded: if self.downloaded + chunk > u64::MAX {
                u64::MAX
            } else {
                (self.downloaded + chunk) as u64
            },
            total: self.total,
        }
    }

    /// The progress at the start of a download of `total` bytes: nothing
    /// written yet.
    pub fn start(total: u64) -> (out: DownloadProgress)
        ensures
            out.downloaded == 0,
            out.total == total,
            out.fraction_ppm() == 0,
    {
        let out = DownloadProgress { downloaded: 0, total };
        assert(out.fraction_ppm() == 0) by {
            if total > 0 {
                assert((0nat * 1_000_000) / (total as nat) == 0) by (nonlinear_arith)
                    requires
                        total > 0,
                ;
            }
        }
        out
    }

    /// Records that `chunk` more bytes were written. The fraction never
    /// goes down.
    pub fn advance(&mut self, chunk: u64)
        ensures
            *final(self) == old(self).after(chunk as nat),
            final(self).downloaded >= old(self).downloaded,
            final(self).fraction_ppm() >= old(self).fraction_ppm(),
    {
        let ghost before = *self;
        self.downloaded = self.downloaded.saturating_add(chunk);
        proof {
            lemma_fraction_monotone(before, *self);
        }
    }

    /// Executable form of [`DownloadProgress::fraction_ppm`].
    pub fn ppm(&self) -> (out: u64)
        ensures
            out == self.fraction_ppm(),
    {
        if self.total == 0 {
            return 0;
        }
        let f: u128 = (self.downloaded as u128) * 1_000_000 / (self.total as u128);
        if f > 0xffff_ffff_ffff_ffff {
            0xffff_ffff_ffff_ffff
        } else {
            f as u64
        }
    }

    /// Whether every byte of the asset has been written.
    pub fn is_complete(&self) -> (out: bool)
        ensures
            out == (self.downloaded >= self.total),
    {
        self.downloaded >= self.total
    }
}

/// Of two states of one download, the one with more bytes written has the
/// fraction that is at least as large.
pub proof fn lemma_fraction_monotone(a: DownloadProgress, b: DownloadProgress)
    requires
        a.total == b.total,
        a.downloaded <= b.downloaded,
    ensures
        a.fraction_ppm() <= b.fraction_ppm(),
{
    if a.total > 0 {
        let t = a.total as int;
        let x = a.downloaded as int * 1_000_000;
        let y = b.downloaded as int * 1_000_000;
        assert(x / t <= y / t) by (nonlinear_arith)
            requires
                0 <= x <= y,
                t > 0,
        ;
    }
}

/// The fraction is below one as long as bytes are missing, and exactly one
/// when exactly the size of the asset has been written: it reaches one only
/// once all bytes are there.
pub proof fn lemma_fraction_full(p: DownloadProgress)
    ensures
        p.downloaded < p.total ==> p.fraction_ppm() < FULL,
        p.downloaded == p.total && p.total > 0 ==> p.fraction_ppm() == FULL,
        p.fraction_ppm() >= FULL ==> p.downloaded >= p.total,
{
    let t = p.total as int;
    let d = p.downloaded as int;
    if t == 0 {
    } else if d < t {
        assert((d * 1_000_000) / t < 1_000_000) by (nonlinear_arith)
            requires
                0 <= d < t,
        ;
    }
    if d == t && t > 0 {
        assert((d * 1_000_000) / t == 1_000_000) by (nonlinear_arith)
            requires
                d == t,
                t > 0,
        ;
    }
}

/// Bytes in one mebibyte.
pub const BYTES_PER_MB: u64 = 1_048_576;

/// A size in hundredths of a mebibyte, rounded to the nearest, halves up.
pub open spec fn hundredths_of_mb(bytes: nat) -> nat {
    ((bytes * 100 + BYTES_PER_MB / 2) / (BYTES_PER_MB as int)) as nat
}

/// A number of hundredths written with two decimal places.
pub open spec fn two_places(h: nat) -> Seq<char> {
    decimal(h / 100) + seq!['.', digit_char(h % 100 / 10), digit_char(h % 10)]
}

/// A size in mebibytes, with two decimal places.
pub open spec fn mb_text(bytes: nat) -> Seq<char> {
    two_places(hundredths_of_mb(bytes))
}

/// The label that goes with a progress bar: bytes written and size of the
/// asset, both in mebibytes.
pub open spec fn progress_text(p: DownloadProgress) -> Seq<char> {
    mb_text(p.downloaded as nat) + seq!['/'] + mb_text(p.total as nat) + " MB"@
}

fn push_mb(out: &mut Vec<char>, bytes: u64)
    ensures
        final(out)@ == old(out)@ + mb_text(bytes as nat),
{
    let h: u64 = (((bytes as u128) * 100 + (BYTES_PER_MB / 2) as u128) / (BYTES_PER_MB as u128)) as u64;
    assert(h == hundredths_of_mb(bytes as nat));
    let ghost start = out@;
    push_decimal(out, h / 100);
    out.push('.');
    let tens: u8 = (h % 100 / 10) as u8;
    let ones: u8 = (h % 10) as u8;
    out.push((tens + 48) as char);
    out.push((ones + 48) as char);
    assert(out@ =~= start + mb_text(bytes as nat));
}

/// Writes the label for a state of the download.
pub fn progress_label(p: &DownloadProgress) -> (out: String)
    ensures
        out@ == progress_text(*p),
{
    let mut buf: Vec<char> = Vec::new();
    push_mb(&mut buf, p.downloaded);
    buf.push('/');
    push_mb(&mut buf, p.total);
    push_str(&mut buf, " MB");
    assert(buf@ =~= progress_text(*p));
    string_of(&buf)
}

/// A downloadable file of a release.
#[derive(Debug)]
pub struct Asset {
    pub url: String,
    pub size: u64,
}

/// The latest release, as the registry describes it.
#[derive(Debug)]
pub struct UpdateRelease {
    /// When the release was published, as an RFC 3339 date-and-time.
    pub published_at: String,
    /// The notes of the release, as free text.
    pub notes: String,
    /// The first file attached to the release, if it has one.
    pub asset: Option<Asset>,
}

/// Decides whether `release` is newer than the build made at
/// `compile_time`, and prepares its changelog.
pub fn check(release: &UpdateRelease, compile_time: &str) -> (out: Result<
    (bool, String),
    CheckError,
>)
    ensures
        match decision(rfc3339_instant(release.published_at@), rfc3339_instant(compile_time@)) {
            Ok(is_newer) => out is Ok && out->Ok_0.0 == is_newer && out->Ok_0.1@ == changelog(
                release.notes@,
            ),
            Err(e) => out == Err::<(bool, String), CheckError>(e),
        },
{
    match check_update(release.published_at.as_str(), compile_time) {
        Ok(is_newer) => Ok((is_newer, format_changelog(release.notes.as_str()))),
        Err(e) => Err(e),
    }
}

/// The ways in which a request to the registry can fail.
#[derive(Clone, Copy, Debug, PartialEq, Eq, Structural)]
pub enum FetchFailure {
    /// The request ran out of time.
    Timeout,
    /// The server answered with a status that is no success.
    Status,
    /// Any other failure of the network.
    Other,
}

/// What the user is told when a request to the registry failed in the way
/// `kind`: words for that way, a colon, and the error's own words. A failed
/// request is never taken for "no update".
pub open spec fn fetch_failure_text(kind: FetchFailure, message: Seq<char>) -> Seq<char> {
    (match kind {
        FetchFailure::Timeout => "request timed out"@,
        FetchFailure::Status => "the server refused"@,
        FetchFailure::Other => "request failed"@,
    }) + ": "@ + message
}

/// Words the failure of a request to the registry for the user.
pub fn fetch_failure(kind: FetchFailure, message: &str) -> (out: String)
    ensures
        out@ == fetch_failure_text(kind, message@),
{
    let mut buf: Vec<char> = Vec::new();
    match kind {
        FetchFailure::Timeout => push_str(&mut buf, "request timed out"),
        FetchFailure::Status => push_str(&mut buf, "the server refused"),
        FetchFailure::Other => push_str(&mut buf, "request failed"),
    }
    push_str(&mut buf, ": ");
    push_str(&mut buf, message);
    string_of(&buf)
}

} // verus!
