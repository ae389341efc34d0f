//! Ensuring that a blob is present in a destination registry: the decision
//! tree (already there, cross-repository mount, upload from the local build,
//! download from the source registry then upload), and the tally of what was done.
use crate::container_specs::blob_reference::BlobReference;
use crate::text::{push_str_chars, string_from_chars};
use vstd::prelude::*;

verus! {

pub const BYTES_IN_MB: u64 = 1048576;

pub const BYTES_IN_GB: u64 = 1073741824;

/// What was done to make blobs present, as counts and byte totals per way.
#[derive(Clone, Copy, Debug, PartialEq, Eq, Structural)]
pub struct ActionsTaken {
    pub already_present: u64,
    pub already_present_size: u64,
    pub copied_from_source_repository: u64,
    pub copied_from_source_repository_size: u64,
    pub uploaded_from_local: u64,
    pub uploaded_from_local_size: u64,
    pub downloaded_from_source_repository: u64,
    pub downloaded_from_source_repository_size: u64,
    pub uploaded_data_from_source_repository: u64,
    pub uploaded_data_from_source_repository_size: u64,
}

/// `a + b`, held at the largest `u64`.
pub open spec fn sat_add(a: u64, b: u64) -> u64 {
    if a + b > u64::MAX {
        u64::MAX
    } else {
        (a + b) as u64
    }
}

/// Two tallies added field by field.
pub open spec fn merged(a: ActionsTaken, b: ActionsTaken) -> ActionsTaken {
    ActionsTaken {
        already_present: sat_add(a.already_present, b.already_present),
        already_present_size: sat_add(a.already_present_size, b.already_present_size),
        copied_from_source_repository: sat_add(a.copied_from_source_repository, b.copied_from_source_repository),
        copied_from_source_repository_size: sat_add(a.copied_from_source_repository_size, b.copied_from_source_repository_size),
        uploaded_from_local: sat_add(a.uploaded_from_local, b.uploaded_from_local),
        uploaded_from_local_size: sat_add(a.uploaded_from_local_size, b.uploaded_from_local_size),
        downloaded_from_source_repository: sat_add(a.downloaded_from_source_repository, b.downloaded_from_source_repository),
        downloaded_from_source_repository_size: sat_add(a.downloaded_from_source_repository_size, b.downloaded_from_source_repository_size),
        uploaded_data_from_source_repository: sat_add(a.uploaded_data_from_source_repository, b.uploaded_data_from_source_repository),
        uploaded_data_from_source_repository_size: sat_add(a.uploaded_data_from_source_repository_size, b.uploaded_data_from_source_repository_size),
    }
}

/// The tally with nothing done.
pub open spec fn no_actions() -> ActionsTaken {
    ActionsTaken {
        already_present: 0,
        already_present_size: 0,
        copied_from_source_repository: 0,
        copied_from_source_repository_size: 0,
        uploaded_from_local: 0,
        uploaded_from_local_size: 0,
        downloaded_from_source_repository: 0,
        downloaded_from_source_repository_size: 0,
        uploaded_data_from_source_repository: 0,
        uploaded_data_from_source_repository_size: 0,
    }
}

/// One blob found already present.
pub open spec fn present_tally(size: u64) -> ActionsTaken {
    ActionsTaken { already_present: 1, already_present_size: size, ..no_actions() }
}

/// One blob mounted from the source repository.
pub open spec fn copied_tally(size: u64) -> ActionsTaken {
    ActionsTaken { copied_from_source_repository: 1, copied_from_source_repository_size: size, ..no_actions() }
}

/// One blob uploaded from the local build.
pub open spec fn local_tally(size: u64) -> ActionsTaken {
    ActionsTaken { uploaded_from_local: 1, uploaded_from_local_size: size, ..no_actions() }
}

/// One blob uploaded from the cache of the source's blobs, downloaded first or not.
pub open spec fn source_tally(size: u64, downloaded: bool) -> ActionsTaken {
    ActionsTaken {
        uploaded_data_from_source_repository: 1,
        uploaded_data_from_source_repository_size: size,
        downloaded_from_source_repository: if downloaded { 1 } else { 0 },
        downloaded_from_source_repository_size: if downloaded { size } else { 0 },
        ..no_actions()
    }
}

impl Default for ActionsTaken {
    fn default() -> (r: ActionsTaken)
        ensures
            r == no_actions(),
    {
        ActionsTaken {
            already_present: 0,
            already_present_size: 0,
            copied_from_source_repository: 0,
            copied_from_source_repository_size: 0,
            uploaded_from_local: 0,
            uploaded_from_local_size: 0,
            downloaded_from_source_repository: 0,
            downloaded_from_source_repository_size: 0,
            uploaded_data_from_source_repository: 0,
            uploaded_data_from_source_repository_size: 0,
        }
    }
}

impl ActionsTaken {
    /// Adds `other` into this tally, field by field.
    pub fn merge(&mut self, other: &ActionsTaken)
        ensures
            *final(self) == merged(*old(self), *other),
    {
        self.already_present = self.already_present.saturating_add(other.already_present);
        self.already_present_size = self.already_present_size.saturating_add(other.already_present_size);
        self.copied_from_source_repository =
            self.copied_from_source_repository.saturating_add(other.copied_from_source_repository);
        self.copied_from_source_repository_size =
            self.copied_from_source_repository_size.saturating_add(other.copied_from_source_repository_size);
        self.uploaded_from_local = self.uploaded_from_local.saturating_add(other.uploaded_from_local);
        self.uploaded_from_local_size = self.uploaded_from_local_size.saturating_add(other.uploaded_from_local_size);
        self.downloaded_from_source_repository =
            self.downloaded_from_source_repository.saturating_add(other.downloaded_from_source_repository);
        self.downloaded_from_source_repository_size =
            self.downloaded_from_source_repository_size.saturating_add(other.downloaded_from_source_repository_size);
        self.uploaded_data_from_source_repository =
            self.uploaded_data_from_source_repository.saturating_add(other.uploaded_data_from_source_repository);
        self.uploaded_data_from_source_repository_size =
            self.uploaded_data_from_source_repository_size.saturating_add(other.uploaded_data_from_source_repository_size);
    }

    /// The tally of one blob found already present.
    pub fn already_present(blob: &BlobReference) -> (r: ActionsTaken)
        ensures
            r == present_tally(blob.size),
    {
        ActionsTaken { already_present: 1, already_present_size: blob.size, ..ActionsTaken::default() }
    }

    /// The tally of one blob mounted from the source repository.
    pub fn copied_from_source_repository(blob: &BlobReference) -> (r: ActionsTaken)
        ensures
            r == copied_tally(blob.size),
    {
        ActionsTaken {
            copied_from_source_repository: 1,
            copied_from_source_repository_size: blob.size,
            ..ActionsTaken::default()
        }
    }

    /// The tally of one blob uploaded from the local build.
    pub fn uploaded_from_local(blob: &BlobReference) -> (r: ActionsTaken)
        ensures
            r == local_tally(blob.size),
    {
        ActionsTaken { uploaded_from_local: 1, uploaded_from_local_size: blob.size, ..ActionsTaken::default() }
    }

    /// The tally of one blob uploaded from the source cache; a download counts too.
    pub fn uploaded_data_from_source_repository(blob: &BlobReference, downloaded: bool) -> (r: ActionsTaken)
        ensures
            r == source_tally(blob.size, downloaded),
    {
        let (n, size) = if downloaded {
            (1u64, blob.size)
        } else {
            (0u64, 0u64)
        };
        ActionsTaken {
            uploaded_data_from_source_repository: 1,
            uploaded_data_from_source_repository_size: blob.size,
            downloaded_from_source_repository: n,
            downloaded_from_source_repository_size: size,
            ..ActionsTaken::default()
        }
    }
}

/// Merging tallies does not depend on how they are grouped.
pub proof fn lemma_merge_associative(a: ActionsTaken, b: ActionsTaken, c: ActionsTaken)
    ensures
        merged(merged(a, b), c) == merged(a, merged(b, c)),
{
}

/// Where the decision tree for one blob stands: which answer it waits for.
#[derive(Clone, Copy, Debug, PartialEq, Eq, Structural)]
pub enum EnsurePhase {
    Start,
    /// Is the blob in the destination?
    AwaitDestination,
    /// Is the blob in the source repository (before a mount)?
    AwaitSource,
    /// The mount request has been answered (its result is not used).
    AwaitMount,
    /// Is the blob in the destination now that a mount was tried?
    AwaitDestinationAfterMount,
    /// The upload of the local file is done.
    AwaitLocalUpload,
    /// Is the blob in the source repository (before a download)?
    AwaitSourceForDownload,
    /// Is the blob already in the local cache?
    AwaitCache,
    /// The download into the cache is done.
    AwaitDownload,
    /// The upload from the cache is done; whether the data was downloaded.
    AwaitCacheUpload(bool),
    Done,
    Failed,
}

/// What the caller does next for the blob.
#[derive(Clone, Copy, Debug, PartialEq, Eq, Structural)]
pub enum EnsureAction {
    CheckDestination,
    CheckSource,
    /// Ask the destination to mount the blob from the source repository.
    TryMount,
    UploadLocal,
    /// Look for the blob in the local cache.
    CheckCache,
    /// Download the blob into a temporary file of the cache, then rename it.
    Download,
    UploadFromCache,
    /// The blob is present; this is what was done.
    Finish(ActionsTaken),
    /// No source holds the blob.
    BlobUnavailable,
    /// The answer does not fit the question asked.
    Unexpected,
}

/// The answer to the last action.
#[derive(Clone, Copy, Debug, PartialEq, Eq, Structural)]
pub enum EnsureEvent {
    /// Begin.
    Begin,
    /// The answer to a presence check.
    Present(bool),
    /// The requested operation has finished.
    Completed,
}

/// What is known of the blob and the run before the tree starts.
#[derive(Clone, Copy, Debug, PartialEq, Eq, Structural)]
pub struct EnsureContext {
    pub size: u64,
    pub has_source: bool,
    pub has_local: bool,
}

/// After the mount path was not taken or failed: the local file, else the
/// source download, else nothing.
pub open spec fn after_mount_step(ctx: EnsureContext) -> (EnsurePhase, EnsureAction) {
    if ctx.has_local {
        (EnsurePhase::AwaitLocalUpload, EnsureAction::UploadLocal)
    } else if ctx.has_source {
        (EnsurePhase::AwaitSourceForDownload, EnsureAction::CheckSource)
    } else {
        (EnsurePhase::Failed, EnsureAction::BlobUnavailable)
    }
}

/// The decision tree, one answer at a time.
pub open spec fn ensure_step(ctx: EnsureContext, phase: EnsurePhase, event: EnsureEvent) -> (EnsurePhase, EnsureAction) {
    match (phase, event) {
        (EnsurePhase::Start, EnsureEvent::Begin) => (EnsurePhase::AwaitDestination, EnsureAction::CheckDestination),
        (EnsurePhase::AwaitDestination, EnsureEvent::Present(true)) => (
            EnsurePhase::Done,
            EnsureAction::Finish(present_tally(ctx.size)),
        ),
        (EnsurePhase::AwaitDestination, EnsureEvent::Present(false)) => if ctx.has_source {
            (EnsurePhase::AwaitSource, EnsureAction::CheckSource)
        } else {
            after_mount_step(ctx)
        },
        (EnsurePhase::AwaitSource, EnsureEvent::Present(true)) => (EnsurePhase::AwaitMount, EnsureAction::TryMount),
        (EnsurePhase::AwaitSource, EnsureEvent::Present(false)) => after_mount_step(ctx),
        (EnsurePhase::AwaitMount, EnsureEvent::Completed) => (
            EnsurePhase::AwaitDestinationAfterMount,
            EnsureAction::CheckDestination,
        ),
        (EnsurePhase::AwaitDestinationAfterMount, EnsureEvent::Present(true)) => (
            EnsurePhase::Done,
            EnsureAction::Finish(copied_tally(ctx.size)),
        ),
        (EnsurePhase::AwaitDestinationAfterMount, EnsureEvent::Present(false)) => after_mount_step(ctx),
        (EnsurePhase::AwaitLocalUpload, EnsureEvent::Completed) => (
            EnsurePhase::Done,
            EnsureAction::Finish(local_tally(ctx.size)),
        ),
        (EnsurePhase::AwaitSourceForDownload, EnsureEvent::Present(true)) => (EnsurePhase::AwaitCache, EnsureAction::CheckCache),
        (EnsurePhase::AwaitSourceForDownload, EnsureEvent::Present(false)) => (
            EnsurePhase::Failed,
            EnsureAction::BlobUnavailable,
        ),
        (EnsurePhase::AwaitCache, EnsureEvent::Present(true)) => (
            EnsurePhase::AwaitCacheUpload(false),
            EnsureAction::UploadFromCache,
        ),
        (EnsurePhase::AwaitCache, EnsureEvent::Present(false)) => (EnsurePhase::AwaitDownload, EnsureAction::Download),
        (EnsurePhase::AwaitDownload, EnsureEvent::Completed) => (
            EnsurePhase::AwaitCacheUpload(true),
            EnsureAction::UploadFromCache,
        ),
        (EnsurePhase::AwaitCacheUpload(downloaded), EnsureEvent::Completed) => (
            EnsurePhase::Done,
            EnsureAction::Finish(source_tally(ctx.size, downloaded)),
        ),
        _ => (EnsurePhase::Failed, EnsureAction::Unexpected),
    }
}

/// The decision tree that makes one blob present in one destination.
#[derive(Clone, Copy, Debug, PartialEq, Eq, Structural)]
pub struct EnsurePresent {
    pub ctx: EnsureContext,
    pub phase: EnsurePhase,
}

impl EnsurePresent {
    /// The tree for a blob of this size, with or without a source repository
    /// and a local copy.
    pub fn new(blob: &BlobReference, has_source: bool, has_local: bool) -> (r: EnsurePresent)
        ensures
            r.ctx == (EnsureContext { size: blob.size, has_source, has_local }),
            r.phase == EnsurePhase::Start,
    {
        EnsurePresent { ctx: EnsureContext { size: blob.size, has_source, has_local }, phase: EnsurePhase::Start }
    }

    /// Takes the answer to the last action and says what to do next.
    pub fn step(&mut self, event: EnsureEvent) -> (r: EnsureAction)
        ensures
            final(self).ctx == old(self).ctx,
            (final(self).phase, r) == ensure_step(old(self).ctx, old(self).phase, event),
    {
        let ctx = self.ctx;
        let after_mount = if ctx.has_local {
            (EnsurePhase::AwaitLocalUpload, EnsureAction::UploadLocal)
        } else if ctx.has_source {
            (EnsurePhase::AwaitSourceForDownload, EnsureAction::CheckSource)
        } else {
            (EnsurePhase::Failed, EnsureAction::BlobUnavailable)
        };
        let (phase, action) = match (self.phase, event) {
            (EnsurePhase::Start, EnsureEvent::Begin) => (EnsurePhase::AwaitDestination, EnsureAction::CheckDestination),
            (EnsurePhase::AwaitDestination, EnsureEvent::Present(true)) => (
                EnsurePhase::Done,
                EnsureAction::Finish(ActionsTaken { already_present: 1, already_present_size: ctx.size, ..ActionsTaken::default() }),
            ),
            (EnsurePhase::AwaitDestination, EnsureEvent::Present(false)) => if ctx.has_source {
                (EnsurePhase::AwaitSource, EnsureAction::CheckSource)
            } else {
                after_mount
            },
            (EnsurePhase::AwaitSource, EnsureEvent::Present(true)) => (EnsurePhase::AwaitMount, EnsureAction::TryMount),
            (EnsurePhase::AwaitSource, EnsureEvent::Present(false)) => after_mount,
            (EnsurePhase::AwaitMount, EnsureEvent::Completed) => (
                EnsurePhase::AwaitDestinationAfterMount,
                EnsureAction::CheckDestination,
            ),
            (EnsurePhase::AwaitDestinationAfterMount, EnsureEvent::Present(true)) => (
                EnsurePhase::Done,
                EnsureAction::Finish(
                    ActionsTaken {
                        copied_from_source_repository: 1,
                        copied_from_source_repository_size: ctx.size,
                        ..ActionsTaken::default()
                    },
                ),
            ),
            (EnsurePhase::AwaitDestinationAfterMount, EnsureEvent::Present(false)) => after_mount,
            (EnsurePhase::AwaitLocalUpload, EnsureEvent::Completed) => (
                EnsurePhase::Done,
                EnsureAction::Finish(
                    ActionsTaken { uploaded_from_local: 1, uploaded_from_local_size: ctx.size, ..ActionsTaken::default() },
                ),
            ),
            (EnsurePhase::AwaitSourceForDownload, EnsureEvent::Present(true)) => (
                EnsurePhase::AwaitCache,
                EnsureAction::CheckCache,
            ),
            (EnsurePhase::AwaitSourceForDownload, EnsureEvent::Present(false)) => (
                EnsurePhase::Failed,
                EnsureAction::BlobUnavailable,
            ),
            (EnsurePhase::AwaitCache, EnsureEvent::Present(true)) => (
                EnsurePhase::AwaitCacheUpload(false),
                EnsureAction::UploadFromCache,
            ),
            (EnsurePhase::AwaitCache, EnsureEvent::Present(false)) => (EnsurePhase::AwaitDownload, EnsureAction::Download),
            (EnsurePhase::AwaitDownload, EnsureEvent::Completed) => (
                EnsurePhase::AwaitCacheUpload(true),
                EnsureAction::UploadFromCache,
            ),
            (EnsurePhase::AwaitCacheUpload(downloaded), EnsureEvent::Completed) => {
                let (n, s) = if downloaded {
                    (1u64, ctx.size)
                } else {
                    (0u64, 0u64)
                };
                (
                    EnsurePhase::Done,
                    EnsureAction::Finish(
                        ActionsTaken {
                            uploaded_data_from_source_repository: 1,
                            uploaded_data_from_source_repository_size: ctx.size,
                            downloaded_from_source_repository: n,
                            downloaded_from_source_repository_size: s,
                            ..ActionsTaken::default()
                        },
                    ),
                )
            },
            _ => (EnsurePhase::Failed, EnsureAction::Unexpected),
        };
        self.phase = phase;
        action
    }
}

/// The decimal digits of `n`.
pub open spec fn dec(n: nat) -> Seq<char>
    decreases n,
{
    if n < 10 {
        seq![digit_char((n % 10) as u8)]
    } else {
        dec(n / 10) + seq![digit_char((n % 10) as u8)]
    }
}

/// The decimal digit of `d`.
pub open spec fn digit_char(d: u8) -> char {
    if d == 0 { '0' } else if d == 1 { '1' } else if d == 2 { '2' } else if d == 3 { '3' }
    else if d == 4 { '4' } else if d == 5 { '5' } else if d == 6 { '6' } else if d == 7 { '7' }
    else if d == 8 { '8' } else { '9' }
}

fn digit(d: u64) -> (c: char)
    requires
        d < 10,
    ensures
        c == digit_char(d as u8),
{
    if d == 0 { '0' } else if d == 1 { '1' } else if d == 2 { '2' } else if d == 3 { '3' }
    else if d == 4 { '4' } else if d == 5 { '5' } else if d == 6 { '6' } else if d == 7 { '7' }
    else if d == 8 { '8' } else { '9' }
}

fn push_dec(out: &mut Vec<char>, n: u64)
    ensures
        final(out)@ == old(out)@ + dec(n as nat),
    decreases n,
{
    if n >= 10 {
        push_dec(out, n / 10);
    }
    out.push(digit(n % 10));
    assert(final(out)@ =~= old(out)@ + dec(n as nat));
}

/// The digits of `f`, written with `w` places and zeros in front.
pub open spec fn padded(f: nat, w: nat) -> Seq<char>
    decreases w,
{
    if w == 0 {
        Seq::empty()
    } else {
        padded(f / 10, (w - 1) as nat) + seq![digit_char((f % 10) as u8)]
    }
}

/// `s` without its trailing zeros.
pub open spec fn trim_zeros(s: Seq<char>) -> Seq<char>
    decreases s.len(),
{
    if s.len() > 0 && s.last() == '0' {
        trim_zeros(s.drop_last())
    } else {
        s
    }
}

/// The decimal fraction `m / 1024`: its ten exact places, trailing zeros removed.
pub open spec fn fraction_1024(m: nat) -> Seq<char> {
    trim_zeros(padded(m * 9765625, 10))
}

/// A size in whole megabytes, or in gigabytes with the exact fraction of the
/// leftover megabytes (`1.5 GB`).
pub open spec fn size_text(size: u64) -> Seq<char> {
    let gb = size / BYTES_IN_GB;
    let mb = size / BYTES_IN_MB;
    if gb > 0 {
        if mb % 1024 == 0 {
            dec(gb as nat) + " GB"@
        } else {
            dec(gb as nat) + "."@ + fraction_1024((mb % 1024) as nat) + " GB"@
        }
    } else {
        dec(mb as nat) + " MB"@
    }
}

fn push_padded(out: &mut Vec<char>, f: u64, w: u64)
    ensures
        final(out)@ == old(out)@ + padded(f as nat, w as nat),
    decreases w,
{
    if w > 0 {
        push_padded(out, f / 10, w - 1);
        out.push(digit(f % 10));
        assert(final(out)@ =~= old(out)@ + padded(f as nat, w as nat));
    } else {
        assert(final(out)@ =~= old(out)@ + padded(f as nat, w as nat));
    }
}

fn trim_zeros_vec(v: &mut Vec<char>)
    ensures
        final(v)@ == trim_zeros(old(v)@),
    decreases old(v)@.len(),
{
    if v.len() > 0 && v[v.len() - 1] == '0' {
        let ghost before = v@;
        v.pop();
        assert(v@ =~= before.drop_last());
        trim_zeros_vec(v);
    }
}

/// A human-readable size: whole megabytes below a gigabyte, else gigabytes
/// with the exact fraction of the leftover megabytes.
pub fn size_to_string(size: u64) -> (r: String)
    ensures
        r@ == size_text(size),
{
    let gb = size / BYTES_IN_GB;
    let mb = size / BYTES_IN_MB;
    let mut out: Vec<char> = Vec::new();
    if gb > 0 {
        push_dec(&mut out, gb);
        let m = mb % 1024;
        if m != 0 {
            push_str_chars(&mut out, ".");
            let mut frac: Vec<char> = Vec::new();
            push_padded(&mut frac, m * 9765625, 10);
            trim_zeros_vec(&mut frac);
            assert(frac@ =~= fraction_1024(m as nat));
            out.append(&mut frac);
        }
        push_str_chars(&mut out, " GB");
    } else {
        push_dec(&mut out, mb);
        push_str_chars(&mut out, " MB");
    }
    assert(out@ =~= size_text(size));
    string_from_chars(&out)
}

/// One line of the tally report: the label, the count, and the size.
pub open spec fn summary_line(label: Seq<char>, n: u64, size: u64) -> Seq<char> {
    label + dec(n as nat) + " entries, "@ + size_text(size)
}

/// The tally report, one line per way a blob was made present.
pub open spec fn summary_text(a: ActionsTaken) -> Seq<char> {
    summary_line("Already present on remote:                 "@, a.already_present, a.already_present_size)
        + "\n"@ + summary_line(
        "Copied remotely from source repository:    "@,
        a.copied_from_source_repository,
        a.copied_from_source_repository_size,
    ) + "\n"@ + summary_line(
        "Uploaded from local output state:          "@,
        a.uploaded_from_local,
        a.uploaded_from_local_size,
    ) + "\n"@ + summary_line(
        "Downloaded from source repository:         "@,
        a.downloaded_from_source_repository,
        a.downloaded_from_source_repository_size,
    ) + "\n"@ + summary_line(
        "Uploaded data originally from source repo: "@,
        a.uploaded_data_from_source_repository,
        a.uploaded_data_from_source_repository_size,
    )
}

fn push_summary_line(out: &mut Vec<char>, label: &str, n: u64, size: u64)
    ensures
        final(out)@ == old(out)@ + summary_line(label@, n, size),
{
    push_str_chars(out, label);
    push_dec(out, n);
    push_str_chars(out, " entries, ");
    let s = size_to_string(size);
    push_str_chars(out, s.as_str());
    assert(final(out)@ =~= old(out)@ + summary_line(label@, n, size));
}

impl ActionsTaken {
    /// The tally as a report, one line per way a blob was made present.
    pub fn summary(&self) -> (r: String)
        ensures
            r@ == summary_text(*self),
    {
        let mut out: Vec<char> = Vec::new();
        push_summary_line(&mut out, "Already present on remote:                 ", self.already_present, self.already_present_size);
        push_str_chars(&mut out, "\n");
        push_summary_line(
            &mut out,
            "Copied remotely from source repository:    ",
            self.copied_from_source_repository,
            self.copied_from_source_repository_size,
        );
        push_str_chars(&mut out, "\n");
        push_summary_line(
            &mut out,
            "Uploaded from local output state:          ",
            self.uploaded_from_local,
            self.uploaded_from_local_size,
        );
        push_str_chars(&mut out, "\n");
        push_summary_line(
            &mut out,
            "Downloaded from source repository:         ",
            self.downloaded_from_source_repository,
            self.downloaded_from_source_repository_size,
        );
        push_str_chars(&mut out, "\n");
        push_summary_line(
            &mut out,
            "Uploaded data originally from source repo: ",
            self.uploaded_data_from_source_repository,
            self.uploaded_data_from_source_repository_size,
        );
        assert(out@ =~= summary_text(*self));
        string_from_chars(&out)
    }
}

} // verus!
