//! Downloads: the browser offers one, the library picks where it lands, the host
//! watches and steers it.
//!
//! The browser asks where to put the file and cancels the download unless it is
//! told *during* the call. There is no time to ask the host and wait, so the
//! destination is policy, set once as the download directory, and the host
//! steers afterwards.
//!
//! Steering cannot act immediately either: it is possible only while the browser
//! reports on the download. A host's wish is therefore recorded and applied on
//! the next report, which arrives promptly while a download is running.
use vstd::prelude::*;
use vstd::string::*;
use std::collections::{HashMap, HashSet};
use crate::error::{is_unsupported, WeldError};
use crate::events::{CefSurfaceEvent, DownloadId, NavigationEvent, WebEventQueue};
use crate::paths::{has_drive, is_letter};
use crate::platform::Platform;
use crate::text::{
    after_last, chars_of, is_white_space, lemma_after_last, lemma_trimmed_back,
    lemma_trimmed_front, piece, push_signed, signed_decimal, string_of, tail_after, trim, trim_end,
    trim_start, trimmed, trimmed_end, CharClass,
};

verus! {

/// What the host asked to do with a running download.
#[derive(Clone, Copy, Debug, PartialEq, Eq, Structural)]
pub enum DownloadOp {
    Cancel,
    Pause,
    Resume,
}

/// Progress is reported at most this often per download, in nanoseconds, plus
/// once more when it finishes. The browser reports far more often than any
/// progress bar needs.
pub const PROGRESS_INTERVAL: u64 = 100_000_000;

// ── Where a download lands ────────────────────────────────────────────────────

/// `name` without the drives it starts with.
pub open spec fn without_drives(name: Seq<char>) -> Seq<char>
    decreases name.len(),
{
    if has_drive(name) {
        without_drives(name.skip(2))
    } else {
        name
    }
}

/// What is left of a suggested name: its final component, without white space
/// around it, without trailing dots and, on Windows, without a drive.
pub open spec fn usable_name(name: Seq<char>, platform: Platform) -> Seq<char> {
    let last = trim_end(
        trim(after_last(name, CharClass::Separator), CharClass::WhiteSpace),
        CharClass::Dot,
    );
    if platform == Platform::Windows {
        without_drives(last)
    } else {
        last
    }
}

/// The file name for a suggested name: what is usable of it, or `download`.
pub open spec fn file_name(name: Seq<char>, platform: Platform) -> Seq<char> {
    if usable_name(name, platform).len() == 0 {
        "download"@
    } else {
        usable_name(name, platform)
    }
}

/// The final component of `name`, with anything that would leave the download
/// directory removed. Falls back to `download` when nothing usable is left, so
/// any suggestion still produces a writable path.
///
/// Both separators count on every platform: a name in Windows style can arrive
/// on Linux.
pub fn safe_file_name(name: &str, platform: Platform) -> (file: String)
    ensures
        file@ == file_name(name@, platform),
{
    let chars: Vec<char> = chars_of(name);
    let tail: Vec<char> = tail_after(&chars, CharClass::Separator);
    let bare: Vec<char> = trimmed(&tail, CharClass::WhiteSpace);
    let mut last: Vec<char> = trimmed_end(&bare, CharClass::Dot);
    if platform == Platform::Windows {
        let ghost whole = last@;
        while last.len() >= 2 && is_letter(last[0]) && last[1] == ':'
            invariant
                without_drives(whole) == without_drives(last@),
            decreases last.len(),
        {
            assert(last@.skip(2) =~= last@.subrange(2, last@.len() as int));
            last = piece(&last, 2, last.len());
        }
    }
    if last.len() == 0 {
        "download".to_owned()
    } else {
        string_of(&last)
    }
}

/// Whether `c` separates the components of a path on `platform`.
pub open spec fn is_separator(c: char, platform: Platform) -> bool {
    c == '/' || (platform == Platform::Windows && c == '\\')
}

/// The separator of `platform`.
pub open spec fn separator(platform: Platform) -> char {
    if platform == Platform::Windows {
        '\\'
    } else {
        '/'
    }
}

/// Whether a separator has to stand between `dir` and a name. None does where
/// `dir` is empty, ends in one, or is a bare drive.
pub open spec fn needs_separator(dir: Seq<char>, platform: Platform) -> bool {
    &&& dir.len() > 0
    &&& !is_separator(dir.last(), platform)
    &&& !(platform == Platform::Windows && dir.len() == 2 && has_drive(dir))
}

/// `dir`, ready for a name to follow.
pub open spec fn open_dir(dir: Seq<char>, platform: Platform) -> Seq<char> {
    if needs_separator(dir, platform) {
        dir.push(separator(platform))
    } else {
        dir
    }
}

/// A path in the separators of `platform`.
pub open spec fn native(path: Seq<char>, platform: Platform) -> Seq<char> {
    if platform == Platform::Windows {
        path.map_values(
            |c: char|
                if c == '/' {
                    '\\'
                } else {
                    c
                },
        )
    } else {
        path
    }
}

/// Where a download with a suggested name lands in `dir`.
pub open spec fn destination(dir: Seq<char>, name: Seq<char>, platform: Platform) -> Seq<char> {
    native(open_dir(dir, platform) + file_name(name, platform), platform)
}

/// Gives a path the platform's own separators.
///
/// The browser on Windows silently discards a download whose destination holds
/// forward slashes, and a host may well configure `C:/downloads`.
pub fn native_path(path: String, platform: Platform) -> (converted: String)
    ensures
        converted@ == native(path@, platform),
{
    if platform != Platform::Windows {
        return path;
    }
    let chars: Vec<char> = chars_of(path.as_str());
    let mut converted = String::new();
    let mut i: usize = 0;
    while i < chars.len()
        invariant
            i <= chars.len(),
            chars@ == path@,
            platform == Platform::Windows,
            converted@ == native(path@.take(i as int), platform),
        decreases chars.len() - i,
    {
        let c: char = chars[i];
        converted.push(
            if c == '/' {
                '\\'
            } else {
                c
            },
        );
        assert(path@.take(i + 1) == path@.take(i as int).push(c));
        assert(converted@ =~= native(path@.take(i + 1), platform));
        i += 1;
    }
    assert(path@.take(i as int) == path@);
    converted
}

/// `name` inside `dir`.
pub fn join_path(dir: &str, name: &str, platform: Platform) -> (path: String)
    ensures
        path@ == open_dir(dir@, platform) + name@,
{
    let chars: Vec<char> = chars_of(dir);
    let n: usize = chars.len();
    let windows = platform == Platform::Windows;
    let mut path = dir.to_owned();
    if n > 0 {
        let last: char = chars[n - 1];
        let closed = last == '/' || (windows && last == '\\');
        let bare_drive = windows && n == 2 && is_letter(chars[0]) && last == ':';
        if !closed && !bare_drive {
            path.push(
                if windows {
                    '\\'
                } else {
                    '/'
                },
            );
        }
    }
    path.append(name);
    path
}

proof fn lemma_trim_keeps(s: Seq<char>, class: CharClass, kept: spec_fn(char) -> bool)
    requires
        forall|i: int| 0 <= i < s.len() ==> kept(#[trigger] s[i]),
    ensures
        forall|i: int|
            0 <= i < trim_start(s, class).len() ==> kept(#[trigger] trim_start(s, class)[i]),
    decreases s.len(),
{
    if s.len() > 0 && class.has(s.first()) {
        let rest = s.drop_first();
        assert forall|i: int| 0 <= i < rest.len() implies kept(#[trigger] rest[i]) by {
            assert(rest[i] == s[i + 1]);
        }
        lemma_trim_keeps(rest, class, kept);
        assert(trim_start(s, class) == trim_start(rest, class));
    } else {
        assert(trim_start(s, class) == s);
    }
}

proof fn lemma_trim_end_keeps(s: Seq<char>, class: CharClass, kept: spec_fn(char) -> bool)
    requires
        forall|i: int| 0 <= i < s.len() ==> kept(#[trigger] s[i]),
    ensures
        forall|i: int| 0 <= i < trim_end(s, class).len() ==> kept(#[trigger] trim_end(s, class)[i]),
        trim_end(s, class).len() > 0 ==> !class.has(trim_end(s, class).last()),
    decreases s.len(),
{
    if s.len() > 0 && class.has(s.last()) {
        let rest = s.drop_last();
        assert forall|i: int| 0 <= i < rest.len() implies kept(#[trigger] rest[i]) by {
            assert(rest[i] == s[i]);
        }
        lemma_trim_end_keeps(rest, class, kept);
    }
}

proof fn lemma_without_drives(s: Seq<char>, kept: spec_fn(char) -> bool)
    requires
        forall|i: int| 0 <= i < s.len() ==> kept(#[trigger] s[i]),
    ensures
        forall|i: int|
            0 <= i < without_drives(s).len() ==> kept(#[trigger] without_drives(s)[i]),
        without_drives(s).len() > 0 ==> s.len() > 0 && without_drives(s).last() == s.last(),
        !has_drive(without_drives(s)),
    decreases s.len(),
{
    if has_drive(s) {
        let rest = s.skip(2);
        assert forall|i: int| 0 <= i < rest.len() implies kept(#[trigger] rest[i]) by {
            assert(rest[i] == s[i + 2]);
        }
        lemma_without_drives(rest, kept);
    }
}

/// A suggested name cannot place a file outside the download directory: what
/// follows the directory is one file name, without a separator, that is not
/// `.` or `..` and on Windows names no drive.
pub proof fn law_a_download_stays_in_its_directory(
    dir: Seq<char>,
    name: Seq<char>,
    platform: Platform,
)
    ensures
        ({
            let file = file_name(name, platform);
            &&& destination(dir, name, platform) == native(open_dir(dir, platform), platform) + file
            &&& file.len() > 0
            &&& forall|i: int| 0 <= i < file.len() ==> file[i] != '/' && file[i] != '\\'
            &&& file != seq!['.']
            &&& file != seq!['.', '.']
            &&& platform == Platform::Windows ==> !has_drive(file)
        }),
{
    reveal_strlit("download");
    let kept = |c: char| c != '/' && c != '\\';
    let tail = after_last(name, CharClass::Separator);
    lemma_after_last(name, CharClass::Separator);
    assert forall|i: int| 0 <= i < tail.len() implies kept(#[trigger] tail[i]) by {
        assert(!CharClass::Separator.has(tail[i]));
    }
    lemma_trim_keeps(tail, CharClass::WhiteSpace, kept);
    let started = trim_start(tail, CharClass::WhiteSpace);
    lemma_trim_end_keeps(started, CharClass::WhiteSpace, kept);
    let bare = trim(tail, CharClass::WhiteSpace);
    lemma_trim_end_keeps(bare, CharClass::Dot, kept);
    let last = trim_end(bare, CharClass::Dot);
    lemma_without_drives(last, kept);
    let file = file_name(name, platform);
    assert forall|i: int| 0 <= i < file.len() implies file[i] != '/' && file[i] != '\\' by {
        if usable_name(name, platform).len() > 0 {
            assert(kept(file[i]));
        }
    }
    assert(file.last() != '.');
    assert(destination(dir, name, platform) =~= native(open_dir(dir, platform), platform) + file);
}

// ── What is remembered of downloads ───────────────────────────────────────────

/// Whether a download last reported at `last` may report progress at `now`. A
/// clock that runs backwards counts as no time at all.
pub open spec fn is_due(last: Option<u64>, now: u64) -> bool {
    match last {
        Some(last) => now - last >= PROGRESS_INTERVAL,
        None => true,
    }
}

/// What the library remembers of the downloads of one surface.
#[derive(Debug)]
pub struct Downloads {
    platform: Platform,
    dir: Option<String>,
    pending: HashMap<DownloadId, DownloadOp>,
    last_progress: HashMap<DownloadId, u64>,
    started: HashSet<DownloadId>,
}

/// The contents of [`Downloads`].
pub ghost struct DownloadsView {
    pub platform: Platform,
    pub dir: Option<Seq<char>>,
    pub pending: Map<DownloadId, DownloadOp>,
    pub last_progress: Map<DownloadId, u64>,
    pub started: Set<DownloadId>,
}

impl DownloadsView {
    /// When progress of `id` was last reported.
    pub open spec fn reported_at(self, id: DownloadId) -> Option<u64> {
        if self.last_progress.contains_key(id) {
            Some(self.last_progress[id])
        } else {
            None
        }
    }

    /// Nothing is remembered of `id`.
    pub open spec fn forgotten(self, id: DownloadId) -> DownloadsView {
        DownloadsView {
            pending: self.pending.remove(id),
            last_progress: self.last_progress.remove(id),
            started: self.started.remove(id),
            ..self
        }
    }
}

impl View for Downloads {
    type V = DownloadsView;

    closed spec fn view(&self) -> DownloadsView {
        DownloadsView {
            platform: self.platform,
            dir: match self.dir {
                Some(dir) => Some(dir@),
                None => None,
            },
            pending: self.pending@,
            last_progress: self.last_progress@,
            started: self.started@,
        }
    }
}

impl Default for Downloads {
    fn default() -> (downloads: Self)
        ensures
            downloads@ == no_downloads(Platform::Linux),
    {
        Downloads::new(Platform::Linux)
    }
}

/// No directory, and nothing remembered.
pub open spec fn no_downloads(platform: Platform) -> DownloadsView {
    DownloadsView {
        platform,
        dir: None,
        pending: Map::empty(),
        last_progress: Map::empty(),
        started: Set::empty(),
    }
}

impl Downloads {
    /// No directory, and nothing remembered.
    pub fn new(platform: Platform) -> (downloads: Self)
        ensures
            downloads@ == no_downloads(platform),
    {
        Downloads {
            platform,
            dir: None,
            pending: HashMap::new(),
            last_progress: HashMap::new(),
            started: HashSet::new(),
        }
    }

    /// Set where downloads are written. `None` refuses them.
    pub fn set_dir(&mut self, dir: Option<String>)
        ensures
            final(self)@ == (DownloadsView {
                dir: match dir {
                    Some(dir) => Some(dir@),
                    None => None,
                },
                ..old(self)@
            }),
    {
        self.dir = dir;
    }

    /// Where a download called `suggested_name` is written, or `None` where no
    /// directory is set and the download is refused.
    ///
    /// The name comes from the server or the address. Only its final component
    /// is used, so `../../.bashrc` or `C:\Windows\evil.dll` lands inside the
    /// directory as `.bashrc` or `evil.dll`.
    pub fn destination_for(&self, suggested_name: &str) -> (path: Option<String>)
        ensures
            match path {
                Some(path) => self@.dir matches Some(dir) && path@ == destination(
                    dir,
                    suggested_name@,
                    self@.platform,
                ),
                None => self@.dir is None,
            },
    {
        match &self.dir {
            Some(dir) => {
                let name: String = safe_file_name(suggested_name, self.platform);
                Some(native_path(join_path(dir.as_str(), name.as_str(), self.platform), self.platform))
            },
            None => None,
        }
    }

    /// Whether downloads are accepted at all.
    pub fn is_enabled(&self) -> (enabled: bool)
        ensures
            enabled == (self@.dir is Some),
    {
        self.dir.is_some()
    }

    /// Record a host's wish. Applied on the download's next report.
    pub fn request(&mut self, id: DownloadId, op: DownloadOp)
        ensures
            final(self)@ == (DownloadsView {
                pending: old(self)@.pending.insert(id, op),
                ..old(self)@
            }),
    {
        broadcast use vstd::std_specs::hash::group_hash_axioms;

        self.pending.insert(id, op);
    }

    /// Take a recorded wish, which is then no longer recorded.
    pub fn take_pending(&mut self, id: DownloadId) -> (op: Option<DownloadOp>)
        ensures
            op == (if old(self)@.pending.contains_key(id) {
                Some(old(self)@.pending[id])
            } else {
                None
            }),
            final(self)@ == (DownloadsView {
                pending: old(self)@.pending.remove(id),
                ..old(self)@
            }),
            !final(self)@.pending.contains_key(id),
    {
        broadcast use vstd::std_specs::hash::group_hash_axioms;

        let op = self.pending.remove(&id);
        assert(self@.pending =~= old(self)@.pending.remove(id));
        op
    }

    /// True the first time this id is seen, so that its start is reported once
    /// even though the browser keeps reporting on it.
    pub fn mark_started(&mut self, id: DownloadId) -> (first: bool)
        ensures
            first == !old(self)@.started.contains(id),
            final(self)@ == (DownloadsView {
                started: old(self)@.started.insert(id),
                ..old(self)@
            }),
    {
        broadcast use vstd::std_specs::hash::group_hash_axioms;

        self.started.insert(id)
    }

    /// Whether the start of this download was reported.
    ///
    /// The browser reports on a download before it asks where to put it. Without
    /// this, a host would hear of progress on a download it knows nothing of.
    pub fn has_started(&self, id: DownloadId) -> (started: bool)
        ensures
            started == self@.started.contains(id),
    {
        broadcast use vstd::std_specs::hash::group_hash_axioms;

        self.started.contains(&id)
    }

    /// True when this download is due another progress event at `now`, which is
    /// then counted as reported.
    pub fn due_for_progress(&mut self, id: DownloadId, now: u64) -> (due: bool)
        ensures
            due == is_due(old(self)@.reported_at(id), now),
            final(self)@ == (if due {
                DownloadsView {
                    last_progress: old(self)@.last_progress.insert(id, now),
                    ..old(self)@
                }
            } else {
                old(self)@
            }),
    {
        broadcast use vstd::std_specs::hash::group_hash_axioms;

        let due = match self.last_progress.get(&id) {
            Some(last) => *last <= now && now - *last >= PROGRESS_INTERVAL,
            None => true,
        };
        if due {
            self.last_progress.insert(id, now);
        }
        due
    }

    /// Drop everything remembered of a finished or cancelled download.
    pub fn forget(&mut self, id: DownloadId)
        ensures
            final(self)@ == old(self)@.forgotten(id),
    {
        broadcast use vstd::std_specs::hash::group_hash_axioms;

        self.pending.remove(&id);
        self.last_progress.remove(&id);
        self.started.remove(&id);
        assert(self@.pending =~= old(self)@.pending.remove(id));
        assert(self@.last_progress =~= old(self)@.last_progress.remove(id));
        assert(self@.started =~= old(self)@.started.remove(id));
    }
}

// ── Answering the browser ─────────────────────────────────────────────────────

/// What the browser says of a download.
#[derive(Debug)]
pub struct DownloadItem {
    pub id: DownloadId,
    /// How much there is. Not above zero where the server did not say.
    pub total_bytes: i64,
    pub received_bytes: i64,
    pub complete: bool,
    pub canceled: bool,
    pub interrupted: bool,
    /// Why the download was interrupted.
    pub interrupt_reason: i32,
    pub full_path: String,
}

/// What a server announced, when it announced anything.
pub open spec fn expected_bytes(total: i64) -> Option<u64> {
    if total > 0 {
        Some(total as u64)
    } else {
        None
    }
}

/// What a server announced, when it announced anything.
fn announced(total: i64) -> (expected: Option<u64>)
    ensures
        expected == expected_bytes(total),
{
    if total > 0 {
        Some(total as u64)
    } else {
        None
    }
}

impl DownloadItem {
    /// Whether the download is over.
    pub open spec fn is_over(self) -> bool {
        self.complete || self.canceled
    }

    /// The progress event of this report.
    pub open spec fn progress(self) -> CefSurfaceEvent {
        CefSurfaceEvent::Navigation(
            NavigationEvent::DownloadProgress {
                id: self.id,
                bytes_received: if self.received_bytes < 0 {
                    0
                } else {
                    self.received_bytes as u64
                },
                total_bytes_expected: expected_bytes(self.total_bytes),
            },
        )
    }

    /// Whether `event` is the last event of this download.
    pub open spec fn ends_with(self, event: CefSurfaceEvent) -> bool {
        if self.canceled {
            event == CefSurfaceEvent::Navigation(
                NavigationEvent::DownloadCancelled {
                    id: self.id,
                    destination_path: self.full_path,
                },
            )
        } else {
            event matches CefSurfaceEvent::Navigation(
                NavigationEvent::DownloadFinished { id, destination_path, error },
            ) && id == self.id && destination_path == self.full_path && match error {
                Some(error) => self.interrupted && error@ == "interrupted: "@ + signed_decimal(
                    self.interrupt_reason as int,
                ),
                None => !self.interrupted,
            }
        }
    }
}

/// Whether the start of an accepted download is what `event` says.
pub open spec fn announces_start(
    event: CefSurfaceEvent,
    id: DownloadId,
    url: String,
    suggested: String,
    total_bytes: i64,
    path: Seq<char>,
) -> bool {
    event matches CefSurfaceEvent::Navigation(
        NavigationEvent::DownloadStarted {
            id: started,
            url: from,
            suggested_filename,
            destination_path,
            total_bytes_expected,
        },
    ) && started == id && from == url && suggested_filename == suggested && destination_path@
        == path && total_bytes_expected == expected_bytes(total_bytes)
}

impl Downloads {
    /// The browser asks where to put a download. Returns the path to answer
    /// with, once the host's queue holds the start of the download, or `None`
    /// where the download is refused.
    pub fn on_before_download(
        &mut self,
        events: &mut WebEventQueue,
        id: DownloadId,
        url: String,
        total_bytes: i64,
        suggested: String,
    ) -> (path: Option<String>)
        ensures
            match path {
                Some(path) => {
                    &&& old(self)@.dir matches Some(dir) && path@ == destination(
                        dir,
                        suggested@,
                        old(self)@.platform,
                    )
                    &&& final(self)@ == (DownloadsView {
                        started: old(self)@.started.insert(id),
                        ..old(self)@
                    })
                    &&& final(events)@.len() == old(events)@.len() + 1
                    &&& final(events)@.drop_last() == old(events)@
                    &&& announces_start(
                        final(events)@.last(),
                        id,
                        url,
                        suggested,
                        total_bytes,
                        path@,
                    )
                },
                None => old(self)@.dir is None && final(self)@ == old(self)@ && final(events)@
                    == old(events)@,
            },
    {
        match self.destination_for(suggested.as_str()) {
            None => None,
            Some(path) => {
                let _ = self.mark_started(id);
                events.push_navigation(
                    NavigationEvent::DownloadStarted {
                        id,
                        url,
                        suggested_filename: suggested,
                        destination_path: path.clone(),
                        total_bytes_expected: announced(total_bytes),
                    },
                );
                assert(events@.drop_last() =~= old(events)@);
                Some(path)
            },
        }
    }

    /// The browser is about to report on a download. `None` where the download
    /// was never accepted and the report is to be ignored; otherwise the host's
    /// recorded wish, which is to be applied before the report is read.
    pub fn on_update(&mut self, id: DownloadId) -> (wish: Option<Option<DownloadOp>>)
        ensures
            wish is Some <==> old(self)@.started.contains(id),
            match wish {
                Some(op) => {
                    &&& op == (if old(self)@.pending.contains_key(id) {
                        Some(old(self)@.pending[id])
                    } else {
                        None
                    })
                    &&& final(self)@ == (DownloadsView {
                        pending: old(self)@.pending.remove(id),
                        ..old(self)@
                    })
                },
                None => final(self)@ == old(self)@,
            },
    {
        if !self.has_started(id) {
            return None;
        }
        Some(self.take_pending(id))
    }

    /// Report on a download: progress when it is due or the download is over,
    /// then its end. Nothing is remembered of one that is over, and nothing is
    /// reported of one that was never accepted.
    pub fn report_update(&mut self, events: &mut WebEventQueue, item: DownloadItem, now: u64)
        ensures
            ({
                let due = item.is_over() || is_due(old(self)@.reported_at(item.id), now);
                let before = old(events)@;
                let progressed = if due {
                    before.push(item.progress())
                } else {
                    before
                };
                &&& if !old(self)@.started.contains(item.id) {
                    &&& final(events)@ == before
                    &&& final(self)@ == old(self)@
                } else if item.is_over() {
                    &&& final(events)@.len() == progressed.len() + 1
                    &&& final(events)@.drop_last() == progressed
                    &&& item.ends_with(final(events)@.last())
                    &&& final(self)@ == old(self)@.forgotten(item.id)
                } else {
                    &&& final(events)@ == progressed
                    &&& final(self)@ == (if due {
                        DownloadsView {
                            last_progress: old(self)@.last_progress.insert(item.id, now),
                            ..old(self)@
                        }
                    } else {
                        old(self)@
                    })
                }
            }),
            old(self)@.started.contains(item.id) && item.complete && !item.canceled ==> (
            final(events)@.last() matches CefSurfaceEvent::Navigation(
                NavigationEvent::DownloadFinished { error, .. },
            ) && (error is Some <==> item.interrupted)),
    {
        let id: DownloadId = item.id;
        if !self.has_started(id) {
            return ;
        }
        let over = item.complete || item.canceled;
        if over || self.due_for_progress(id, now) {
            events.push_navigation(
                NavigationEvent::DownloadProgress {
                    id,
                    bytes_received: if item.received_bytes < 0 {
                        0
                    } else {
                        item.received_bytes as u64
                    },
                    total_bytes_expected: announced(item.total_bytes),
                },
            );
        }
        let ghost progressed = events@;
        if item.canceled {
            events.push_navigation(
                NavigationEvent::DownloadCancelled { id, destination_path: item.full_path },
            );
            assert(events@.drop_last() =~= progressed);
        } else if item.complete {
            let error: Option<String> = if item.interrupted {
                let mut text = "interrupted: ".to_owned();
                push_signed(&mut text, item.interrupt_reason as i64);
                Some(text)
            } else {
                None
            };
            events.push_navigation(
                NavigationEvent::DownloadFinished { id, destination_path: item.full_path, error },
            );
            assert(events@.drop_last() =~= progressed);
        }
        if over {
            self.forget(id);
        }
    }

    /// Record a host's wish for a download. There are no downloads to steer
    /// without a directory.
    pub fn request_download(&mut self, id: DownloadId, op: DownloadOp) -> (outcome: Result<
        (),
        WeldError,
    >)
        ensures
            match outcome {
                Ok(()) => old(self)@.dir is Some && final(self)@ == (DownloadsView {
                    pending: old(self)@.pending.insert(id, op),
                    ..old(self)@
                }),
                Err(error) => old(self)@.dir is None && final(self)@ == old(self)@
                    && is_unsupported(
                    error,
                    "no download_dir is configured, so there are no downloads to steer"@,
                ),
            },
    {
        if !self.is_enabled() {
            return Err(
                WeldError::PlatformUnsupported(
                    "no download_dir is configured, so there are no downloads to steer",
                ),
            );
        }
        self.request(id, op);
        Ok(())
    }
}

/// Progress of one download that is not over is reported at most once per
/// interval, whatever other downloads report, and the first report always
/// counts.
pub proof fn law_progress_is_throttled_per_download(
    downloads: DownloadsView,
    id: DownloadId,
    other: DownloadId,
    first: u64,
    second: u64,
    third: u64,
)
    requires
        other != id,
    ensures
        downloads.forgotten(id).reported_at(id) is None,
        is_due(downloads.forgotten(id).reported_at(id), first),
        ({
            let after = DownloadsView {
                last_progress: downloads.last_progress.insert(id, first).insert(other, third),
                ..downloads
            };
            is_due(after.reported_at(id), second) <==> second - first >= PROGRESS_INTERVAL
        }),
{
}

/// A download that is over is reported to its end. One that was cancelled says so.
/// One that is complete is finished, with an error exactly where it was
/// interrupted, which names the reason. Both name the file that was written.
pub proof fn law_a_download_ends_as_it_went(
    before: Downloads,
    after: Downloads,
    told_before: WebEventQueue,
    told: WebEventQueue,
    item: DownloadItem,
    now: u64,
)
    requires
        before@.started.contains(item.id),
        item.complete || item.canceled,
        exists|downloads: &mut Downloads, events: &mut WebEventQueue|
            *downloads == before && *final(downloads) == after && *events == told_before
                && *final(events) == told && #[trigger] call_ensures(
                Downloads::report_update,
                (downloads, events, item, now),
                (),
            ),
    ensures
        told@.len() == told_before@.len() + 2,
        told@.take(told_before@.len() as int) == told_before@,
        item.canceled ==> (told@.last() matches CefSurfaceEvent::Navigation(
            NavigationEvent::DownloadCancelled { id, destination_path },
        ) && id == item.id && destination_path == item.full_path),
        !item.canceled ==> (told@.last() matches CefSurfaceEvent::Navigation(
            NavigationEvent::DownloadFinished { id, destination_path, error },
        ) && id == item.id && destination_path == item.full_path && (error is Some
            <==> item.interrupted) && (error matches Some(text) ==> text@ == "interrupted: "@
            + signed_decimal(item.interrupt_reason as int))),
        !after@.started.contains(item.id),
        !after@.pending.contains_key(item.id),
        !after@.last_progress.contains_key(item.id),
{
    let n = told_before@.len() as int;
    assert(told@.take(n) =~= told@.drop_last().take(n));
    assert(told@.drop_last().take(n) =~= told_before@);
}

/// Progress says how much has arrived and how much there is, where the server said
/// so. The last progress of a download comes right before its end.
pub proof fn law_progress_says_how_far_it_is(
    before: Downloads,
    after: Downloads,
    told_before: WebEventQueue,
    told: WebEventQueue,
    item: DownloadItem,
    now: u64,
)
    requires
        before@.started.contains(item.id),
        exists|downloads: &mut Downloads, events: &mut WebEventQueue|
            *downloads == before && *final(downloads) == after && *events == told_before
                && *final(events) == told && #[trigger] call_ensures(
                Downloads::report_update,
                (downloads, events, item, now),
                (),
            ),
    ensures
        !item.complete && !item.canceled && before@.last_progress.contains_key(item.id) && now
            - before@.last_progress[item.id] < 100_000_000 ==> told@ == told_before@,
        item.complete || item.canceled || !before@.last_progress.contains_key(item.id) || now
            - before@.last_progress[item.id] >= 100_000_000 ==> {
            let n = told_before@.len() as int;
            &&& told@.len() > n
            &&& told@[n] matches CefSurfaceEvent::Navigation(
                NavigationEvent::DownloadProgress { id, bytes_received, total_bytes_expected },
            ) && id == item.id && (item.received_bytes >= 0 ==> bytes_received
                == item.received_bytes) && (item.received_bytes < 0 ==> bytes_received == 0) && (
            total_bytes_expected is Some <==> item.total_bytes > 0) && (
            total_bytes_expected matches Some(total) ==> total == item.total_bytes)
        },
        !item.complete && !item.canceled ==> told@.len() <= told_before@.len() + 1
            && after@.started.contains(item.id),
{
    let n = told_before@.len() as int;
    if item.complete || item.canceled {
        assert(told@[n] == told@.drop_last()[n]);
    }
}

/// Nothing is told of a download that was never accepted.
pub proof fn law_only_accepted_downloads_are_reported(
    before: Downloads,
    after: Downloads,
    told_before: WebEventQueue,
    told: WebEventQueue,
    item: DownloadItem,
    now: u64,
)
    requires
        !before@.started.contains(item.id),
        exists|downloads: &mut Downloads, events: &mut WebEventQueue|
            *downloads == before && *final(downloads) == after && *events == told_before
                && *final(events) == told && #[trigger] call_ensures(
                Downloads::report_update,
                (downloads, events, item, now),
                (),
            ),
    ensures
        told@ == told_before@,
        after@ == before@,
{
}

/// A download is accepted exactly where there is a directory for it. The host is
/// told its id, its address, its suggested name, its size where the server said
/// so, and the same path that the browser is given. Only then is it accepted.
pub proof fn law_an_accepted_download_is_announced(
    before: Downloads,
    after: Downloads,
    told_before: WebEventQueue,
    told: WebEventQueue,
    id: DownloadId,
    url: String,
    total_bytes: i64,
    suggested: String,
    path: Option<String>,
)
    requires
        exists|downloads: &mut Downloads, events: &mut WebEventQueue|
            *downloads == before && *final(downloads) == after && *events == told_before
                && *final(events) == told && #[trigger] call_ensures(
                Downloads::on_before_download,
                (downloads, events, id, url, total_bytes, suggested),
                path,
            ),
    ensures
        path is Some <==> before@.dir is Some,
        path is None ==> told@ == told_before@ && after@ == before@,
        path matches Some(path) ==> {
            &&& told@.len() == told_before@.len() + 1
            &&& told@.drop_last() == told_before@
            &&& told@.last() matches CefSurfaceEvent::Navigation(
                NavigationEvent::DownloadStarted {
                    id: started,
                    url: from,
                    suggested_filename,
                    destination_path,
                    total_bytes_expected,
                },
            ) && started == id && from == url && suggested_filename == suggested
                && destination_path@ == path@ && (total_bytes_expected is Some <==> total_bytes > 0)
                && (total_bytes_expected matches Some(total) ==> total == total_bytes)
            &&& after@.started.contains(id)
        },
{
}

/// A host's wish is handed out once, on the next report of that download, and to
/// no other.
pub proof fn law_a_wish_is_carried_out_once(
    before: Downloads,
    asked: Downloads,
    after: Downloads,
    id: DownloadId,
    op: DownloadOp,
    wish: Option<Option<DownloadOp>>,
)
    requires
        before@.dir is Some,
        before@.started.contains(id),
        exists|downloads: &mut Downloads, outcome: Result<(), WeldError>|
            *downloads == before && *final(downloads) == asked && #[trigger] call_ensures(
                Downloads::request_download,
                (downloads, id, op),
                outcome,
            ),
        exists|downloads: &mut Downloads|
            *downloads == asked && *final(downloads) == after && #[trigger] call_ensures(
                Downloads::on_update,
                (downloads, id),
                wish,
            ),
    ensures
        wish == Some(Some(op)),
        !after@.pending.contains_key(id),
        forall|other: DownloadId|
            other != id ==> (#[trigger] after@.pending.contains_key(other)
                <==> before@.pending.contains_key(other)) && (after@.pending.contains_key(other)
                ==> after@.pending[other] == before@.pending[other]),
{
}

/// Only what follows the last separator of a suggested name counts.
pub proof fn law_only_the_last_component_counts(
    head: Seq<char>,
    separator: char,
    whole: &str,
    name: &str,
    platform: Platform,
    file: String,
    same: String,
)
    requires
        separator == '/' || separator == '\\',
        forall|i: int| 0 <= i < name@.len() ==> name@[i] != '/' && name@[i] != '\\',
        whole@ == head.push(separator) + name@,
        call_ensures(safe_file_name, (whole, platform), file),
        call_ensures(safe_file_name, (name, platform), same),
    ensures
        file@ == same@,
{
    lemma_after_last_of_a_tail(head.push(separator), name@);
    lemma_after_last_of_a_tail(Seq::empty(), name@);
    assert(Seq::<char>::empty() + name@ =~= name@);
}

/// A name that holds no separator, starts and ends with a character that is
/// neither white space nor a dot, and does not start with a drive on Windows, is
/// left alone. White space round it and dots behind it are taken away.
pub proof fn law_an_ordinary_name_is_left_alone(
    front: Seq<char>,
    core: Seq<char>,
    dots: Seq<char>,
    back: Seq<char>,
    name: &str,
    platform: Platform,
    file: String,
)
    requires
        core.len() > 0,
        forall|i: int| 0 <= i < core.len() ==> core[i] != '/' && core[i] != '\\',
        !is_white_space(core.first()),
        !is_white_space(core.last()),
        core.last() != '.',
        platform == Platform::Windows ==> !has_drive(core),
        forall|i: int| 0 <= i < front.len() ==> is_white_space(#[trigger] front[i]),
        forall|i: int| 0 <= i < back.len() ==> is_white_space(#[trigger] back[i]),
        forall|i: int| 0 <= i < dots.len() ==> #[trigger] dots[i] == '.',
        name@ == front + (core + dots + back),
        call_ensures(safe_file_name, (name, platform), file),
    ensures
        file@ == core,
{
    let inner = core + dots;
    assert forall|i: int| 0 <= i < name@.len() implies name@[i] != '/' && name@[i] != '\\' by {
        if i < front.len() {
            assert(name@[i] == front[i]);
        } else if i < front.len() + core.len() {
            assert(name@[i] == core[i - front.len()]);
        } else if i < front.len() + inner.len() {
            assert(name@[i] == dots[i - front.len() - core.len()]);
        } else {
            assert(name@[i] == back[i - front.len() - inner.len()]);
        }
    }
    lemma_after_last_of_a_tail(Seq::empty(), name@);
    assert(Seq::<char>::empty() + name@ =~= name@);
    assert((inner + back).first() == core.first());
    lemma_trimmed_front(front, inner + back, CharClass::WhiteSpace);
    assert(inner.last() == (if dots.len() > 0 { dots[dots.len() - 1] } else { core.last() }));
    lemma_trimmed_back(inner, back, CharClass::WhiteSpace);
    lemma_trimmed_back(core, dots, CharClass::Dot);
}

/// A name with nothing but dots and white space is called a download, and so is one
/// that is empty or ends in a separator.
pub proof fn law_a_name_without_a_name_is_a_download(
    name: &str,
    platform: Platform,
    file: String,
)
    requires
        name@.len() == 0 || name@.last() == '/' || name@.last() == '\\' || forall|i: int|
            0 <= i < name@.len() ==> #[trigger] name@[i] == '.',
        call_ensures(safe_file_name, (name, platform), file),
    ensures
        file@ == "download"@,
{
    let none = Seq::<char>::empty();
    if name@.len() > 0 && name@.last() != '/' && name@.last() != '\\' {
        lemma_after_last_of_a_tail(none, name@);
        assert(none + name@ =~= name@);
        lemma_trimmed_front(none, name@, CharClass::WhiteSpace);
        assert(name@ + none =~= name@);
        lemma_trimmed_back(name@, none, CharClass::WhiteSpace);
        lemma_trimmed_back(none, name@, CharClass::Dot);
    }
}

/// On Windows a drive in front of a name is taken away, and elsewhere it is part of it.
pub proof fn law_a_drive_is_no_name(
    letter: char,
    core: Seq<char>,
    name: &str,
    platform: Platform,
    file: String,
)
    requires
        97 <= letter as int <= 122 || 65 <= letter as int <= 90,
        core.len() > 0,
        forall|i: int| 0 <= i < core.len() ==> core[i] != '/' && core[i] != '\\',
        !is_white_space(core.last()),
        core.last() != '.',
        !has_drive(core),
        name@ == seq![letter, ':'] + core,
        call_ensures(safe_file_name, (name, platform), file),
    ensures
        platform == Platform::Windows ==> file@ == core,
        platform != Platform::Windows ==> file@ == name@,
{
    let none = Seq::<char>::empty();
    assert(name@.last() == core.last());
    assert(name@.first() == letter);
    assert forall|i: int| 0 <= i < name@.len() implies name@[i] != '/' && name@[i] != '\\' by {
        if i >= 2 {
            assert(name@[i] == core[i - 2]);
        }
    }
    lemma_after_last_of_a_tail(none, name@);
    assert(none + name@ =~= name@);
    assert(name@ + none =~= name@);
    lemma_trimmed_front(none, name@, CharClass::WhiteSpace);
    lemma_trimmed_back(name@, none, CharClass::WhiteSpace);
    lemma_trimmed_back(name@, none, CharClass::Dot);
    assert(name@.skip(2) =~= core);
    reveal_with_fuel(without_drives, 2);
}

/// What follows the last separator of a text that ends in `name` is `name`.
proof fn lemma_after_last_of_a_tail(head: Seq<char>, name: Seq<char>)
    requires
        forall|i: int| 0 <= i < name.len() ==> name[i] != '/' && name[i] != '\\',
        head.len() == 0 || head.last() == '/' || head.last() == '\\',
    ensures
        after_last(head + name, CharClass::Separator) == name,
    decreases name.len(),
{
    let whole = head + name;
    if name.len() > 0 {
        lemma_after_last_of_a_tail(head, name.drop_last());
        assert(whole.drop_last() =~= head + name.drop_last());
        assert(name.drop_last().push(name.last()) =~= name);
    } else {
        assert(whole =~= head);
    }
}

/// A download is put below its directory under its safe name, in the separators of the
/// platform: away from Windows right behind the directory and one slash.
pub proof fn law_a_download_is_put_below_its_directory(
    downloads: Downloads,
    suggested: &str,
    dir: Seq<char>,
    file: String,
    path: Option<String>,
)
    requires
        dir.len() > 0,
        downloads@.dir == Some(dir),
        call_ensures(safe_file_name, (suggested, downloads@.platform), file),
        call_ensures(Downloads::destination_for, (&downloads, suggested), path),
    ensures
        path is Some,
        downloads@.platform != Platform::Windows && dir.last() != '/' ==> path->0@ == dir + seq!['/']
            + file@,
        downloads@.platform != Platform::Windows && dir.last() == '/' ==> path->0@ == dir + file@,
        downloads@.platform == Platform::Windows ==> forall|i: int|
            0 <= i < path->0@.len() ==> #[trigger] path->0@[i] != '/',
        downloads@.platform == Platform::Windows && dir.last() == '\\' ==> path->0@.len()
            == dir.len() + file@.len(),
{
    if dir.last() != '/' {
        assert(dir.push('/') =~= dir + seq!['/']);
    }
}

/// What the browser is told during the call is where the download is put.
pub proof fn law_the_browser_is_told_where(
    before: Downloads,
    after: Downloads,
    told_before: WebEventQueue,
    told: WebEventQueue,
    id: DownloadId,
    url: String,
    total_bytes: i64,
    suggested: String,
    name: &str,
    path: Option<String>,
    put: Option<String>,
)
    requires
        name@ == suggested@,
        call_ensures(Downloads::destination_for, (&before, name), put),
        exists|downloads: &mut Downloads, events: &mut WebEventQueue|
            *downloads == before && *final(downloads) == after && *events == told_before
                && *final(events) == told && #[trigger] call_ensures(
                Downloads::on_before_download,
                (downloads, events, id, url, total_bytes, suggested),
                path,
            ),
    ensures
        path is Some <==> put is Some,
        path matches Some(path) ==> path@ == put->0@,
{
}

/// Progress is due where none was told yet, or a tenth of a second ago or longer, and
/// is then remembered.
pub proof fn law_progress_is_due_after_a_tenth_of_a_second(
    before: Downloads,
    after: Downloads,
    id: DownloadId,
    now: u64,
    due: bool,
)
    requires
        exists|downloads: &mut Downloads|
            *downloads == before && *final(downloads) == after && #[trigger] call_ensures(
                Downloads::due_for_progress,
                (downloads, id, now),
                due,
            ),
    ensures
        !before@.last_progress.contains_key(id) ==> due,
        before@.last_progress.contains_key(id) ==> (due <==> now - before@.last_progress[id]
            >= 100_000_000),
        due ==> after@.last_progress == before@.last_progress.insert(id, now),
        !due ==> after@ == before@,
{
}

/// A download that is forgotten is forgotten altogether, and no other is.
pub proof fn law_only_that_download_is_forgotten(
    before: Downloads,
    after: Downloads,
    id: DownloadId,
    other: DownloadId,
)
    requires
        other != id,
        exists|downloads: &mut Downloads|
            *downloads == before && *final(downloads) == after && #[trigger] call_ensures(
                Downloads::forget,
                (downloads, id),
                (),
            ),
    ensures
        !after@.started.contains(id),
        !after@.pending.contains_key(id),
        !after@.last_progress.contains_key(id),
        after@.started.contains(other) <==> before@.started.contains(other),
        after@.pending.contains_key(other) <==> before@.pending.contains_key(other),
        after@.last_progress.contains_key(other) <==> before@.last_progress.contains_key(other),
        after@.dir == before@.dir,
{
}

/// Only where there is a directory are there downloads to steer, and only an accepted
/// download is asked about.
pub proof fn law_only_downloads_are_steered(id: DownloadId, op: DownloadOp)
    ensures
        forall|downloads: &mut Downloads, outcome: Result<(), WeldError>| #[trigger]
            call_ensures(Downloads::request_download, (downloads, id, op), outcome) ==> {
                &&& outcome is Ok <==> downloads@.dir is Some
                &&& outcome is Ok ==> final(downloads)@.pending == downloads@.pending.insert(id, op)
                &&& outcome matches Err(error) ==> error is PlatformUnsupported
                &&& outcome is Err ==> final(downloads)@ == downloads@
            },
        forall|downloads: &mut Downloads, wish: Option<Option<DownloadOp>>| #[trigger]
            call_ensures(Downloads::on_update, (downloads, id), wish) ==> {
                &&& wish is Some <==> downloads@.started.contains(id)
                &&& wish matches Some(Some(op)) ==> downloads@.pending.contains_key(id) && op
                    == downloads@.pending[id]
                &&& wish == Some(None::<DownloadOp>) ==> !downloads@.pending.contains_key(id)
            },
        forall|downloads: &mut Downloads, dir: String| #[trigger]
            call_ensures(Downloads::set_dir, (downloads, Some(dir)), ()) ==> final(downloads)@.dir
                == Some(dir@),
        forall|downloads: &mut Downloads| #[trigger]
            call_ensures(Downloads::set_dir, (downloads, None), ()) ==> final(downloads)@.dir is None,
{
}

} // verus!
