//! Which windows have been looked at, as window events arrive.
//!
//! For each window the cache holds two states: that of the job started when
//! the window appeared (or when all windows were enumerated), and that of the
//! jobs started when its title changes.
use vstd::prelude::*;
use crate::text::{chars_of, string_from_chars};

verus! {

/// Progress of the jobs of one kind on one window.
#[derive(Clone, Copy, Debug, PartialEq, Eq, Structural)]
pub enum State {
    /// No job has run.
    UnProcessed,
    /// A job is running: the creation job, or a title job that started on a
    /// window not tracked before, or one that reads a title changed while the
    /// previous one ran.
    Processing,
    /// A title job is running, and the title changed again after it started:
    /// the title must be looked at once more when it ends.
    Pending,
    /// The last job ended without hiding the window.
    Processed,
    /// A job hid the window.
    Completed,
}

/// The two states of a window: of its creation job, and of its title jobs.
pub type WindowState = (State, State);

/// The job to start on a window, in a thread of its own.
#[derive(Clone, Copy, Debug, PartialEq, Eq, Structural)]
pub enum Job {
    /// Look at the title and hide the window if it is configured; then
    /// `after_created_job`.
    Created,
    /// Look at the title and hide the window if it is configured; then
    /// `after_renamed_job`.
    Renamed,
}

/// A window event, as far as the tracker cares.
#[derive(Clone, Copy, Debug, PartialEq, Eq, Structural)]
pub enum WindowEvent {
    Created,
    Renamed,
    Other,
}

/// `EVENT_OBJECT_CREATE`.
pub const EVENT_OBJECT_CREATE: u32 = 0x8000;

/// `EVENT_OBJECT_NAMECHANGE`.
pub const EVENT_OBJECT_NAMECHANGE: u32 = 0x800C;

/// `OBJID_WINDOW`.
pub const OBJID_WINDOW: i32 = 0;

/// `CHILDID_SELF`.
pub const CHILDID_SELF: u32 = 0;

pub open spec fn spec_classify_event(event_id: u32, object_id: i32, child_id: i32) -> WindowEvent {
    if object_id == OBJID_WINDOW && child_id as u32 == CHILDID_SELF {
        if event_id == EVENT_OBJECT_CREATE {
            WindowEvent::Created
        } else if event_id == EVENT_OBJECT_NAMECHANGE {
            WindowEvent::Renamed
        } else {
            WindowEvent::Other
        }
    } else {
        WindowEvent::Other
    }
}

/// What a WinEvent hook call means: a window itself (not one of its parts)
/// was created, or its name changed, or something else happened.
pub fn classify_event(event_id: u32, object_id: i32, child_id: i32) -> (e: WindowEvent)
    ensures
        e == spec_classify_event(event_id, object_id, child_id),
{
    if object_id == OBJID_WINDOW && child_id as u32 == CHILDID_SELF {
        if event_id == EVENT_OBJECT_CREATE {
            WindowEvent::Created
        } else if event_id == EVENT_OBJECT_NAMECHANGE {
            WindowEvent::Renamed
        } else {
            WindowEvent::Other
        }
    } else {
        WindowEvent::Other
    }
}

/// A new root window: it is tracked from then on, and looked at once.
pub open spec fn spec_on_created(entry: Option<WindowState>) -> (WindowState, Option<Job>) {
    match entry {
        None => ((State::Processing, State::UnProcessed), Some(Job::Created)),
        Some(s) => (s, None),
    }
}

/// The entry and the job, when a root window is created, given its entry in
/// the cache.
pub fn on_created(entry: Option<WindowState>) -> (r: (WindowState, Option<Job>))
    ensures
        r == spec_on_created(entry),
{
    match entry {
        None => ((State::Processing, State::UnProcessed), Some(Job::Created)),
        Some(s) => (s, None),
    }
}

/// A root window's title changed. A window not yet tracked is tracked from
/// then on, marked as having its first title job running, and that job
/// starts. On a tracked window a title job starts, and its entry stays as it
/// was, unless the window is already hidden, or its first title job is still
/// running: then the change is recorded as pending.
pub open spec fn spec_on_renamed(entry: Option<WindowState>) -> (WindowState, Option<Job>) {
    match entry {
        None => ((State::UnProcessed, State::Processing), Some(Job::Renamed)),
        Some(s) => match s.1 {
            State::Processing => ((s.0, State::Pending), None),
            State::Pending => ((s.0, State::Pending), None),
            State::Completed => (s, None),
            _ => (s, Some(Job::Renamed)),
        },
    }
}

/// The entry and the job, when a root window's title changes, given its
/// entry in the cache.
pub fn on_renamed(entry: Option<WindowState>) -> (r: (WindowState, Option<Job>))
    ensures
        r == spec_on_renamed(entry),
{
    match entry {
        None => ((State::UnProcessed, State::Processing), Some(Job::Renamed)),
        Some(s) => match s.1 {
            State::Processing => ((s.0, State::Pending), None),
            State::Pending => ((s.0, State::Pending), None),
            State::Completed => (s, None),
            _ => (s, Some(Job::Renamed)),
        },
    }
}

/// A window found while enumerating all windows (the cache was just
/// cleared): it is tracked afresh and looked at.
pub fn on_enumerated() -> (r: (WindowState, Job))
    ensures
        r == ((State::Processing, State::UnProcessed), Job::Created),
{
    ((State::Processing, State::UnProcessed), Job::Created)
}

/// The entry once a creation job is over.
pub open spec fn spec_after_created_job(s: WindowState) -> WindowState {
    (State::Processed, s.1)
}

pub fn after_created_job(s: WindowState) -> (r: WindowState)
    ensures
        r == spec_after_created_job(s),
{
    (State::Processed, s.1)
}

/// The entry once a title job is over, and the job to start next;
/// `configured` tells whether the title it read was one of the configured
/// ones (and the window was hidden). Where the title changed while the job
/// ran, and the window is not hidden, a new title job starts.
pub open spec fn spec_after_renamed_job(s: WindowState, configured: bool) -> (WindowState, Option<Job>) {
    if configured {
        ((s.0, State::Completed), None)
    } else if s.1 == State::Pending {
        ((s.0, State::Processing), Some(Job::Renamed))
    } else {
        ((s.0, State::Processed), None)
    }
}

pub fn after_renamed_job(s: WindowState, configured: bool) -> (r: (WindowState, Option<Job>))
    ensures
        r == spec_after_renamed_job(s, configured),
{
    if configured {
        ((s.0, State::Completed), None)
    } else if s.1 == State::Pending {
        ((s.0, State::Processing), Some(Job::Renamed))
    } else {
        ((s.0, State::Processed), None)
    }
}

/// Whether a window title is one of the configured ones: the windows with
/// such a title are the ones to hide.
pub fn is_configured_title(titles: &Vec<String>, title: &String) -> (found: bool)
    ensures
        found == exists|i: int| 0 <= i < titles@.len() && (#[trigger] titles@[i])@ == title@,
{
    let mut i: usize = 0;
    while i < titles.len()
        invariant
            i <= titles@.len(),
            forall|j: int| 0 <= j < i ==> (#[trigger] titles@[j])@ != title@,
        decreases titles@.len() - i,
    {
        if titles[i] == *title {
            return true;
        }
        i = i + 1;
    }
    false
}

/// The message shown when a window has been hidden.
pub open spec fn hidden_prefix() -> Seq<char> {
    seq!['已', '经', '设', '置', '窗', '口', '防', '截', '屏', ':']
}

/// The message shown when hiding a window failed.
pub open spec fn failed_prefix() -> Seq<char> {
    seq!['设', '置', '窗', '口', '防', '截', '屏', '失', '败', ':']
}

/// The message that reports the outcome of hiding the window titled `title`.
pub fn job_message(title: &str, hidden: bool) -> (message: String)
    ensures
        message@ == (if hidden {
            hidden_prefix()
        } else {
            failed_prefix()
        }) + title@,
{
    let mut chars: Vec<char> = if hidden {
        vec!['已', '经', '设', '置', '窗', '口', '防', '截', '屏', ':']
    } else {
        vec!['设', '置', '窗', '口', '防', '截', '屏', '失', '败', ':']
    };
    let ghost prefix = chars@;
    assert(prefix =~= if hidden {
        hidden_prefix()
    } else {
        failed_prefix()
    });
    let tail = chars_of(title);
    let mut i: usize = 0;
    while i < tail.len()
        invariant
            i <= tail@.len(),
            tail@ == title@,
            chars@ == prefix + tail@.subrange(0, i as int),
        decreases tail@.len() - i,
    {
        chars.push(tail[i]);
        i = i + 1;
        assert(chars@ =~= prefix + tail@.subrange(0, i as int));
    }
    assert(tail@.subrange(0, tail@.len() as int) =~= tail@);
    string_from_chars(&chars)
}

/// `dashmap::DashMap`, an opaque type to Verus: what it holds is
/// `root_map_contents`.
#[verifier::external_type_specification]
#[verifier::external_body]
#[verifier::reject_recursive_types(K)]
#[verifier::reject_recursive_types(V)]
#[verifier::reject_recursive_types(S)]
pub struct ExDashMap<K, V, S>(dashmap::DashMap<K, V, S>);

/// The map behind the root window cache: window handle to whether the
/// window is a root window.
pub type RootMap = dashmap::DashMap<u64, bool>;

/// What a `DashMap` of window handles holds: for each handle in it, whether
/// the window is a root window.
pub uninterp spec fn root_map_contents(m: RootMap) -> Map<u64, bool>;

/// `DashMap::new`: a map that holds nothing.
#[verifier::external_body]
fn root_map_new() -> (map: RootMap)
    ensures
        root_map_contents(map) =~= Map::empty(),
{
    dashmap::DashMap::new()
}

/// `DashMap::get`, the value copied out of the guard it returns: the value
/// held under the key, `None` where the key is not in the map.
#[verifier::external_body]
fn root_map_get(m: &RootMap, hwnd: u64) -> (r: Option<bool>)
    ensures
        r == (if root_map_contents(*m).contains_key(hwnd) {
            Some(root_map_contents(*m)[hwnd])
        } else {
            None
        }),
{
    m.get(&hwnd).as_deref().copied()
}

/// `DashMap::insert`: afterwards the key holds the value, and every other
/// key what it held before (the old value it returns is dropped). The method
/// itself takes the map by shared reference; here it takes it by `&mut`, so
/// that every change to the map goes through this contract.
#[verifier::external_body]
fn root_map_insert(m: &mut RootMap, hwnd: u64, root: bool)
    ensures
        root_map_contents(*final(m)) == root_map_contents(*old(m)).insert(hwnd, root),
{
    m.insert(hwnd, root);
}

/// Which windows are root windows, as far as that has been found out.
pub struct RootWindowCache {
    roots: RootMap,
}

impl RootWindowCache {
    /// For each window looked up so far, whether it is a root window.
    pub closed spec fn view(&self) -> Map<u64, bool> {
        root_map_contents(self.roots)
    }

    /// An empty cache.
    pub fn new() -> (cache: RootWindowCache)
        ensures
            cache.view() == Map::<u64, bool>::empty(),
    {
        RootWindowCache { roots: root_map_new() }
    }

    /// What is known of the window: `None` where it has not been looked up.
    pub fn lookup(&self, hwnd: u64) -> (root: Option<bool>)
        ensures
            root == (if self.view().contains_key(hwnd) {
                Some(self.view()[hwnd])
            } else {
                None
            }),
    {
        root_map_get(&self.roots, hwnd)
    }

    /// Records whether the window is a root window.
    pub fn record(&mut self, hwnd: u64, root: bool)
        ensures
            final(self).view() == old(self).view().insert(hwnd, root),
    {
        root_map_insert(&mut self.roots, hwnd, root);
    }
}

/// A window is looked at once on its creation: while it stays in the cache,
/// further creation events start no job.
pub proof fn lemma_created_once(entry: Option<WindowState>)
    ensures
        spec_on_created(Some(spec_on_created(entry).0)) == (spec_on_created(entry).0, None::<Job>),
{
}

/// A title change is never lost: after it, either a title job starts that
/// reads the title afterwards, or the window is already hidden, or the first
/// title job is running and the change is recorded as pending, in which case
/// the end of that job starts a new title job unless the job hid the window.
/// Further changes while the change is pending keep it pending.
pub proof fn lemma_rename_is_acted_on(entry: Option<WindowState>)
    ensures
        ({
            let (s, job) = spec_on_renamed(entry);
            ||| job == Some(Job::Renamed) && s.1 != State::Completed && s.1 != State::Pending
            ||| job is None && s.1 == State::Completed
            ||| job is None && s.1 == State::Pending && spec_after_renamed_job(s, false) == (
                (s.0, State::Processing),
                Some(Job::Renamed),
            ) && spec_after_renamed_job(s, true).0.1 == State::Completed
                && spec_on_renamed(Some(s)) == (s, None::<Job>)
        }),
{
}

/// Once a title job has hidden a window, no title change starts another job
/// for it; after a title job that did not hide it, with no change pending,
/// the next title change starts one.
pub proof fn lemma_hidden_window_left_alone(s: WindowState)
    ensures
        spec_on_renamed(Some(spec_after_renamed_job(s, true).0)) == (spec_after_renamed_job(
            s,
            true,
        ).0, None::<Job>),
        s.1 != State::Pending ==> spec_on_renamed(Some(spec_after_renamed_job(s, false).0)).1
            == Some(Job::Renamed),
{
}

/// While the first title job on a window runs, or a change is pending, title
/// changes start no job; a title change that starts a job on a tracked window
/// leaves its entry as it was. The creation job's state is never touched by
/// title events, nor the title jobs' state by the creation job.
pub proof fn lemma_jobs_keep_apart(entry: Option<WindowState>, s: WindowState, configured: bool)
    ensures
        (s.1 == State::Processing || s.1 == State::Pending) ==> spec_on_renamed(Some(s)).1 is None,
        entry matches Some(o) ==> (spec_on_renamed(entry).1 is Some ==> spec_on_renamed(entry).0 == o),
        entry matches Some(o) ==> spec_on_renamed(entry).0.0 == o.0,
        spec_after_created_job(s).1 == s.1,
        spec_after_renamed_job(s, configured).0.0 == s.0,
{
}

/// Only a name change or a creation of the window object itself counts: an
/// event whose object is not the window (`OBJID_WINDOW`, 0) or whose child is
/// not the window itself (`CHILDID_SELF`, 0) is never a title change nor a
/// creation. On the window itself, `EVENT_OBJECT_CREATE` (0x8000) is a
/// creation, `EVENT_OBJECT_NAMECHANGE` (0x800C) a title change, and any
/// other event neither.
pub proof fn lemma_only_window_events_count(event_id: u32, object_id: i32, child_id: i32)
    ensures
        object_id != 0 ==> spec_classify_event(event_id, object_id, child_id) == WindowEvent::Other,
        child_id != 0 ==> spec_classify_event(event_id, object_id, child_id) == WindowEvent::Other,
        spec_classify_event(event_id, object_id, child_id) == WindowEvent::Renamed <==> (
            object_id == 0 && child_id == 0 && event_id == 0x800C),
        spec_classify_event(event_id, object_id, child_id) == WindowEvent::Created <==> (
            object_id == 0 && child_id == 0 && event_id == 0x8000),
{
    assert((child_id as u32 == 0) == (child_id == 0)) by (bit_vector);
}

/// A title change on a tracked window whose title jobs have not run, or
/// whose last title job ended without hiding it, starts a title job and
/// leaves its entry as it was, whatever the state of its creation job.
pub proof fn lemma_rename_of_unhidden_window_starts_job(c: State, t: State)
    requires
        t == State::UnProcessed || t == State::Processed,
    ensures
        spec_on_renamed(Some((c, t))) == ((c, t), Some(Job::Renamed)),
{
}

/// A window is marked hidden by its title jobs only once a title job found
/// a configured title: no title event marks it so, and a title job that did
/// not find one never does.
pub proof fn lemma_completed_only_by_configured_title(
    entry: Option<WindowState>,
    s: WindowState,
    configured: bool,
)
    ensures
        spec_on_renamed(entry).0.1 == State::Completed ==> entry == Some(spec_on_renamed(entry).0),
        spec_on_created(entry).0.1 == State::Completed ==> entry == Some(spec_on_created(entry).0),
        spec_after_renamed_job(s, configured).0.1 == State::Completed <==> configured,
        spec_after_created_job(s).1 == s.1,
{
}

/// A title job that ends without finding a configured title starts another
/// one exactly when the title changed while it ran (the change is pending);
/// otherwise nothing more runs until the title changes again. One that hid
/// the window starts none.
pub proof fn lemma_title_job_reruns_only_when_pending(s: WindowState, configured: bool)
    ensures
        configured ==> spec_after_renamed_job(s, configured) == ((s.0, State::Completed), None::<Job>),
        !configured && s.1 != State::Pending ==> spec_after_renamed_job(s, configured) == (
            (s.0, State::Processed),
            None::<Job>,
        ),
        !configured && s.1 == State::Pending ==> spec_after_renamed_job(s, configured) == (
            (s.0, State::Processing),
            Some(Job::Renamed),
        ),
{
}

/// A window not tracked before is looked at once when it is created: it is
/// tracked with its creation job running and no title job yet; a creation
/// event on a tracked window changes nothing and starts nothing. The end of
/// the creation job marks it done and leaves the title jobs' state alone.
pub proof fn lemma_creation_job_runs_once(s: WindowState)
    ensures
        spec_on_created(None) == ((State::Processing, State::UnProcessed), Some(Job::Created)),
        spec_on_created(Some(s)) == (s, None::<Job>),
        spec_after_created_job(s) == (State::Processed, s.1),
{
}

} // verus!
