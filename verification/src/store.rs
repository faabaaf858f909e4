//! The two-layer reminder store: job bodies keyed by their canonical
//! recurrence path, and a per-user index of numbered slots pointing at
//! those paths, so reminders can be listed and deleted without scanning
//! the canonical tree.

use vstd::prelude::*;

use crate::assoc::{distinct_keys, lemma_map_of_contains, lemma_map_of_index, lemma_map_of_push,
    lemma_map_of_remove, map_of};
use crate::calendar::{month_name, month_num, weekday_name};
use crate::recurrence::{decode_file_location, decode_spec, encode_spec, Schedule, ScheduleV};
use crate::strutil::{dec_digits, str_eq, u32_to_string};

verus! {

/// What a reminder sends: plain text, or a media reference tagged by kind.
pub enum Message {
    Message(String),
    Photo(String),
    Video(String),
    Audio(String),
    Document(String),
    Voice(String),
}

pub ghost enum MessageV {
    Message(Seq<char>),
    Photo(Seq<char>),
    Video(Seq<char>),
    Audio(Seq<char>),
    Document(Seq<char>),
    Voice(Seq<char>),
}

impl View for Message {
    type V = MessageV;

    open spec fn view(&self) -> MessageV {
        match self {
            Message::Message(s) => MessageV::Message(s@),
            Message::Photo(s) => MessageV::Photo(s@),
            Message::Video(s) => MessageV::Video(s@),
            Message::Audio(s) => MessageV::Audio(s@),
            Message::Document(s) => MessageV::Document(s@),
            Message::Voice(s) => MessageV::Voice(s@),
        }
    }
}

impl Clone for Message {
    fn clone(&self) -> (r: Self)
        ensures
            r@ == self@,
    {
        match self {
            Message::Message(s) => Message::Message(s.clone()),
            Message::Photo(s) => Message::Photo(s.clone()),
            Message::Video(s) => Message::Video(s.clone()),
            Message::Audio(s) => Message::Audio(s.clone()),
            Message::Document(s) => Message::Document(s.clone()),
            Message::Voice(s) => Message::Voice(s.clone()),
        }
    }
}

/// A finished reminder's body: where it goes and what it sends. The
/// recurrence parameters live only in the canonical path, never here.
pub struct Config {
    pub chat_id: String,
    pub message: Message,
}

pub ghost struct ConfigV {
    pub chat_id: Seq<char>,
    pub message: MessageV,
}

impl View for Config {
    type V = ConfigV;

    open spec fn view(&self) -> ConfigV {
        ConfigV { chat_id: self.chat_id@, message: self.message@ }
    }
}

impl Clone for Config {
    fn clone(&self) -> (r: Self)
        ensures
            r@ == self@,
    {
        Config { chat_id: self.chat_id.clone(), message: self.message.clone() }
    }
}

// ---------------------------------------------------------------------------
// The store
// ---------------------------------------------------------------------------

/// Job bodies at canonical paths, plus the per-user slot index.
pub struct JobStore {
    canonical: Vec<(String, Config)>,
    index: Vec<((String, u32), String)>,
}

pub ghost struct JobStoreV {
    pub canonical: Map<Seq<char>, ConfigV>,
    pub index: Map<(Seq<char>, u32), Seq<char>>,
}

impl View for JobStore {
    type V = JobStoreV;

    closed spec fn view(&self) -> JobStoreV {
        JobStoreV { canonical: map_of(self.canonical@), index: map_of(self.index@) }
    }
}

/// Whether the index holds slot `s` for user `u`.
pub open spec fn slot_used(index: Map<(Seq<char>, u32), Seq<char>>, u: Seq<char>, s: u32) -> bool {
    index.contains_key((u, s))
}

/// The smallest slot number not below `i` that user `u` does not use
/// (never going past the last representable slot).
pub open spec fn first_free_from(
    index: Map<(Seq<char>, u32), Seq<char>>,
    u: Seq<char>,
    i: u32,
) -> u32
    decreases u32::MAX - i,
{
    if i == u32::MAX {
        i
    } else if !slot_used(index, u, i) {
        i
    } else {
        first_free_from(index, u, (i + 1) as u32)
    }
}

/// The smallest unused slot number for user `u`, starting from 1: a
/// deleted slot is reused before a new maximum is picked.
pub open spec fn first_free(index: Map<(Seq<char>, u32), Seq<char>>, u: Seq<char>) -> u32 {
    first_free_from(index, u, 1)
}

/// Whether a free slot for `u` exists at all (it always does until the
/// slot numbers are exhausted).
pub open spec fn can_alloc(index: Map<(Seq<char>, u32), Seq<char>>, u: Seq<char>) -> bool {
    !slot_used(index, u, first_free(index, u))
}

/// The store after a successful create: the body at its canonical path,
/// and the smallest unused slot pointing at it.
pub open spec fn create_spec(j: JobStoreV, u: Seq<char>, c: ConfigV, s: ScheduleV) -> JobStoreV {
    let p = encode_spec(s, u);
    JobStoreV {
        canonical: j.canonical.insert(p, c),
        index: j.index.insert((u, first_free(j.index, u)), p),
    }
}

/// Whether some slot of the index still points at path `p`.
pub open spec fn path_referenced(index: Map<(Seq<char>, u32), Seq<char>>, p: Seq<char>) -> bool {
    exists|k: (Seq<char>, u32)| index.contains_key(k) && index[k] == p
}

/// The store after a slot deletion that spares a job body other slots
/// still reference: the slot's entry goes; the body goes only when no
/// remaining entry points at its path; a missing slot changes nothing.
pub open spec fn delete_reminder_spec(j: JobStoreV, u: Seq<char>, slot: u32) -> JobStoreV {
    if j.index.contains_key((u, slot)) {
        let p = j.index[(u, slot)];
        let idx = j.index.remove((u, slot));
        JobStoreV {
            canonical: if path_referenced(idx, p) {
                j.canonical
            } else {
                j.canonical.remove(p)
            },
            index: idx,
        }
    } else {
        j
    }
}

impl JobStore {
    /// Every canonical path and every (user, slot) pair occurs once, and
    /// slots count from 1.
    pub closed spec fn wf(&self) -> bool {
        &&& distinct_keys(self.canonical@)
        &&& distinct_keys(self.index@)
        &&& forall|i: int| 0 <= i < self.index@.len() ==> (#[trigger] self.index@[i]).0.1 >= 1
    }

    /// An empty store.
    pub fn new() -> (s: Self)
        ensures
            s.wf(),
            s@.canonical == Map::<Seq<char>, ConfigV>::empty(),
            s@.index == Map::<(Seq<char>, u32), Seq<char>>::empty(),
    {
        JobStore { canonical: Vec::new(), index: Vec::new() }
    }

    fn canonical_find(&self, path: &str) -> (r: Option<usize>)
        ensures
            (match r {
                Some(i) => i < self.canonical@.len() && self.canonical@[i as int].0@ == path@,
                None => forall|i: int|
                    0 <= i < self.canonical@.len() ==> (#[trigger] self.canonical@[i]).0@ != path@,
            }),
    {
        let n = self.canonical.len();
        let mut i: usize = 0;
        while i < n
            invariant
                i <= n == self.canonical@.len(),
                forall|j: int| 0 <= j < i ==> (#[trigger] self.canonical@[j]).0@ != path@,
            decreases n - i,
        {
            if str_eq(self.canonical[i].0.as_str(), path) {
                return Some(i);
            }
            i += 1;
        }
        None
    }

    fn index_find(&self, user: &String, slot: u32) -> (r: Option<usize>)
        ensures
            (match r {
                Some(i) => i < self.index@.len() && self.index@[i as int].0.0@ == user@
                    && self.index@[i as int].0.1 == slot,
                None => forall|i: int|
                    0 <= i < self.index@.len() ==> (#[trigger] self.index@[i]).0@ != (user@, slot),
            }),
    {
        let n = self.index.len();
        let mut i: usize = 0;
        while i < n
            invariant
                i <= n == self.index@.len(),
                forall|j: int| 0 <= j < i ==> (#[trigger] self.index@[j]).0@ != (user@, slot),
            decreases n - i,
        {
            if str_eq(self.index[i].0.0.as_str(), user.as_str()) && self.index[i].0.1 == slot {
                assert(self.index@[i as int].0@ == (user@, slot));
                return Some(i);
            }
            i += 1;
        }
        None
    }

    fn slot_used_exec(&self, user: &String, slot: u32) -> (r: bool)
        ensures
            r == slot_used(self@.index, user@, slot),
    {
        let f = self.index_find(user, slot);
        proof {
            lemma_map_of_contains(self.index@, (user@, slot));
            if let Some(i) = f {
                assert(self.index@[i as int].0@ == (user@, slot));
            }
        }
        f.is_some()
    }
}

// ---------------------------------------------------------------------------
// create / get / delete
// ---------------------------------------------------------------------------

/// Persists a finished reminder: writes the job body at the canonical path
/// of its schedule, then points the user's smallest unused slot at it.
/// Fails only when the user's slot numbers are exhausted, in which case the
/// body is written but no slot points at it.
pub fn create_schedule(
    jobs: &mut JobStore,
    user_id: &String,
    configuration: Config,
    schedule: Schedule,
) -> (r: bool)
    requires
        old(jobs).wf(),
    ensures
        final(jobs).wf(),
        r == can_alloc(old(jobs)@.index, user_id@),
        r ==> final(jobs)@ == create_spec(old(jobs)@, user_id@, configuration@, schedule@),
        !r ==> final(jobs)@.canonical == old(jobs)@.canonical.insert(
            encode_spec(schedule@, user_id@),
            configuration@,
        ) && final(jobs)@.index == old(jobs)@.index,
{
    let ghost j0 = jobs@;
    let ghost sched0 = schedule@;
    let path = schedule.get_file_location(user_id);

    // Write (or overwrite) the job body at its canonical path.
    match jobs.canonical_find(path.as_str()) {
        Some(i) => {
            proof {
                lemma_map_of_remove(jobs.canonical@, i as int);
            }
            jobs.canonical.remove(i);
        },
        None => {
            proof {
                lemma_map_of_contains(jobs.canonical@, path@);
                assert(map_of(jobs.canonical@).remove(path@) =~= map_of(jobs.canonical@));
            }
        },
    }
    assert(forall|i: int|
        0 <= i < jobs.canonical@.len() ==> (#[trigger] jobs.canonical@[i]).0@ != path@) by {
        lemma_map_of_contains(jobs.canonical@, path@);
    }
    let ghost can_prev = jobs.canonical@;
    jobs.canonical.push((path.clone(), configuration));
    proof {
        lemma_map_of_push(can_prev, jobs.canonical@.last());
        assert forall|a: int, b: int| 0 <= a < b < jobs.canonical@.len() implies jobs.canonical@[a].0@
            != jobs.canonical@[b].0@ by {
            if b < jobs.canonical@.len() - 1 {
                assert(can_prev[a].0@ != can_prev[b].0@);
            } else {
                assert(can_prev[a].0@ != path@);
            }
        }
        assert(map_of(jobs.canonical@) =~= j0.canonical.insert(path@, configuration@));
    }

    // Allocate the smallest unused slot.
    let mut slot: u32 = 1;
    while slot < u32::MAX && jobs.slot_used_exec(user_id, slot)
        invariant
            1 <= slot <= u32::MAX,
            jobs.wf(),
            jobs@.index == j0.index,
            map_of(jobs.canonical@) == j0.canonical.insert(path@, configuration@),
            path@ == encode_spec(sched0, user_id@),
            distinct_keys(jobs.canonical@),
            first_free(j0.index, user_id@) == first_free_from(j0.index, user_id@, slot),
        decreases u32::MAX - slot,
    {
        slot += 1;
    }
    if jobs.slot_used_exec(user_id, slot) {
        assert(slot == u32::MAX);
        assert(!can_alloc(j0.index, user_id@));
        return false;
    }
    assert(first_free(j0.index, user_id@) == slot);
    assert(can_alloc(j0.index, user_id@));
    assert(forall|i: int|
        0 <= i < jobs.index@.len() ==> (#[trigger] jobs.index@[i]).0@ != (user_id@, slot)) by {
        lemma_map_of_contains(jobs.index@, (user_id@, slot));
    }
    let ghost idx_prev = jobs.index@;
    jobs.index.push(((user_id.clone(), slot), path));
    proof {
        lemma_map_of_push(idx_prev, jobs.index@.last());
        assert forall|a: int, b: int| 0 <= a < b < jobs.index@.len() implies jobs.index@[a].0@
            != jobs.index@[b].0@ by {
            if b < jobs.index@.len() - 1 {
                assert(idx_prev[a].0@ != idx_prev[b].0@);
            } else {
                assert(idx_prev[a].0@ != (user_id@, slot));
            }
        }
        assert(map_of(jobs.index@) =~= j0.index.insert((user_id@, slot), encode_spec(
            sched0,
            user_id@,
        )));
    }
    true
}

/// Looks a reminder up by its slot: resolves the user's index entry and
/// reads the job body it points at. A missing slot and a dangling entry
/// both yield the not-found result.
pub fn get_config(jobs: &JobStore, user_id: &String, number: i32) -> (r: Result<Config, ()>)
    requires
        jobs.wf(),
    ensures
        (match r {
            Ok(c) => {
                &&& number >= 1
                &&& jobs@.index.contains_key((user_id@, number as u32))
                &&& jobs@.canonical.contains_key(jobs@.index[(user_id@, number as u32)])
                &&& c@ == jobs@.canonical[jobs@.index[(user_id@, number as u32)]]
            },
            Err(e) => !(number >= 1 && jobs@.index.contains_key((user_id@, number as u32))
                && jobs@.canonical.contains_key(jobs@.index[(user_id@, number as u32)])),
        }),
{
    if number < 1 {
        return Err(());
    }
    let slot = number as u32;
    match jobs.index_find(user_id, slot) {
        Some(i) => {
            proof {
                lemma_map_of_index(jobs.index@, i as int);
            }
            let path = &jobs.index[i].1;
            match jobs.canonical_find(path.as_str()) {
                Some(k) => {
                    proof {
                        lemma_map_of_index(jobs.canonical@, k as int);
                    }
                    Ok(jobs.canonical[k].1.clone())
                },
                None => {
                    proof {
                        lemma_map_of_contains(jobs.canonical@, path@);
                    }
                    Err(())
                },
            }
        },
        None => {
            proof {
                lemma_map_of_contains(jobs.index@, (user_id@, slot));
            }
            Err(())
        },
    }
}

/// Removes the slot's index entry and the job body it points at; a missing
/// slot, like a dangling entry, is a silent no-op.
pub fn delete_scheduled(jobs: &mut JobStore, user_id: &String, number: i32)
    requires
        old(jobs).wf(),
    ensures
        final(jobs).wf(),
        (number >= 1 && old(jobs)@.index.contains_key((user_id@, number as u32))) ==> {
            &&& final(jobs)@.index == old(jobs)@.index.remove((user_id@, number as u32))
            &&& final(jobs)@.canonical == old(jobs)@.canonical.remove(
                old(jobs)@.index[(user_id@, number as u32)],
            )
        },
        !(number >= 1 && old(jobs)@.index.contains_key((user_id@, number as u32))) ==> final(jobs)@ == old(jobs)@,
{
    if number < 1 {
        return;
    }
    let slot = number as u32;
    match jobs.index_find(user_id, slot) {
        Some(i) => {
            proof {
                lemma_map_of_index(jobs.index@, i as int);
                lemma_map_of_remove(jobs.index@, i as int);
            }
            let entry = jobs.index.remove(i);
            let path = entry.1;
            match jobs.canonical_find(path.as_str()) {
                Some(k) => {
                    proof {
                        lemma_map_of_remove(jobs.canonical@, k as int);
                    }
                    jobs.canonical.remove(k);
                },
                None => {
                    proof {
                        lemma_map_of_contains(jobs.canonical@, path@);
                        assert(map_of(jobs.canonical@).remove(path@) =~= map_of(
                            jobs.canonical@,
                        ));
                    }
                },
            }
        },
        None => {
            proof {
                lemma_map_of_contains(jobs.index@, (user_id@, slot));
            }
        },
    }
}

/// Removes the user's index entry for a slot, and the job body it points
/// at only when no other slot still references that path; a missing slot
/// is a no-op.
pub fn delete_reminder(jobs: &mut JobStore, user_id: &String, slot: u32)
    requires
        old(jobs).wf(),
    ensures
        final(jobs).wf(),
        final(jobs)@ == delete_reminder_spec(old(jobs)@, user_id@, slot),
{
    match jobs.index_find(user_id, slot) {
        Some(i) => {
            proof {
                lemma_map_of_index(jobs.index@, i as int);
                lemma_map_of_remove(jobs.index@, i as int);
            }
            let entry = jobs.index.remove(i);
            let path = entry.1;
            if !path_referenced_exec(jobs, path.as_str()) {
                match jobs.canonical_find(path.as_str()) {
                    Some(k) => {
                        proof {
                            lemma_map_of_remove(jobs.canonical@, k as int);
                        }
                        jobs.canonical.remove(k);
                    },
                    None => {
                        proof {
                            lemma_map_of_contains(jobs.canonical@, path@);
                            assert(map_of(jobs.canonical@).remove(path@) =~= map_of(
                                jobs.canonical@,
                            ));
                        }
                    },
                }
            }
        },
        None => {
            proof {
                lemma_map_of_contains(jobs.index@, (user_id@, slot));
            }
        },
    }
}

// ---------------------------------------------------------------------------
// Listing
// ---------------------------------------------------------------------------

/// The line shown for one stored reminder, read purely from its canonical
/// path; a path that is not a canonical recurrence path contributes
/// nothing.
pub open spec fn line_of(slot: u32, p: Seq<char>) -> Seq<char> {
    match decode_spec(p) {
        Some(d) => match d.0 {
            ScheduleV::Daily { time } => dec_digits(slot as nat) + ": Sent daily at "@ + time
                + "\n"@,
            ScheduleV::Weekly { weekday, time } => dec_digits(slot as nat) + ": Sent weekly on "@
                + weekday_name(weekday) + " at "@ + time + "\n"@,
            ScheduleV::BiWeekly { weekday, time, odd } => dec_digits(slot as nat)
                + ": Sent bi-weekly on "@ + weekday_name(weekday) + " at "@ + time + "\n"@,
            ScheduleV::Monthly { day, time } => dec_digits(slot as nat) + ": Sent monthly on day "@
                + dec_digits(day as nat) + " at "@ + time + "\n"@,
            ScheduleV::Yearly { day, time, month } => dec_digits(slot as nat)
                + ": Sent yearly on "@ + month_name(month_num(month)) + " on day "@ + dec_digits(
                day as nat,
            ) + " at "@ + time + "\n"@,
        },
        None => Seq::empty(),
    }
}

/// What slot `s` contributes to the user's listing.
pub open spec fn line_at(j: JobStoreV, u: Seq<char>, s: u32) -> Seq<char> {
    if j.index.contains_key((u, s)) {
        line_of(s, j.index[(u, s)])
    } else {
        Seq::empty()
    }
}

/// The listing of the user's slots 1 through `n`, in ascending slot order.
pub open spec fn list_upto(j: JobStoreV, u: Seq<char>, n: u32) -> Seq<char>
    decreases n,
{
    if n == 0 {
        Seq::empty()
    } else {
        list_upto(j, u, (n - 1) as u32) + line_at(j, u, n)
    }
}

/// The user's full listing: one line per live slot, ascending.
pub open spec fn list_info(j: JobStoreV, u: Seq<char>) -> Seq<char> {
    list_upto(j, u, u32::MAX)
}

proof fn lemma_list_upto_stable(j: JobStoreV, u: Seq<char>, m: u32, n: u32)
    requires
        m <= n,
        forall|k: u32| slot_used(j.index, u, k) ==> k <= m,
    ensures
        list_upto(j, u, n) == list_upto(j, u, m),
    decreases n - m,
{
    if n > m {
        lemma_list_upto_stable(j, u, m, (n - 1) as u32);
        assert(!slot_used(j.index, u, n));
        assert(list_upto(j, u, n) =~= list_upto(j, u, (n - 1) as u32));
    }
}

impl JobStore {
    fn max_user_slot(&self, user: &String) -> (m: u32)
        ensures
            forall|k: u32| slot_used(self@.index, user@, k) ==> k <= m,
    {
        let n = self.index.len();
        let mut m: u32 = 0;
        let mut i: usize = 0;
        while i < n
            invariant
                i <= n == self.index@.len(),
                forall|j: int|
                    0 <= j < i && (#[trigger] self.index@[j]).0.0@ == user@
                        ==> self.index@[j].0.1 <= m,
            decreases n - i,
        {
            if str_eq(self.index[i].0.0.as_str(), user.as_str()) && self.index[i].0.1 > m {
                m = self.index[i].0.1;
            }
            i += 1;
        }
        proof {
            assert forall|k: u32| slot_used(self@.index, user@, k) implies k <= m by {
                lemma_map_of_contains(self.index@, (user@, k));
                let j = choose|j: int|
                    0 <= j < self.index@.len() && self.index@[j].0@ == (user@, k);
                assert(self.index@[j].0.0@ == user@ && self.index@[j].0.1 == k);
            }
        }
        m
    }
}

/// Renders one line per live reminder of the user, ascending by slot,
/// decoding each reminder's recurrence purely from its canonical path.
pub fn list_user_reminders(jobs: &JobStore, user_id: &String) -> (r: String)
    requires
        jobs.wf(),
    ensures
        r@ == list_info(jobs@, user_id@),
{
    let max = jobs.max_user_slot(user_id);
    let mut out = String::new();
    let mut s: u32 = 0;
    while s < max
        invariant
            s <= max,
            jobs.wf(),
            forall|k: u32| slot_used(jobs@.index, user_id@, k) ==> k <= max,
            out@ == list_upto(jobs@, user_id@, s),
        decreases max - s,
    {
        s += 1;
        match jobs.index_find(user_id, s) {
            Some(i) => {
                proof {
                    lemma_map_of_index(jobs.index@, i as int);
                }
                let path = &jobs.index[i].1;
                match decode_file_location(path.as_str()) {
                    Some(decoded) => {
                        let (sched, _user) = decoded;
                        out.append(u32_to_string(s).as_str());
                        match sched {
                            Schedule::Daily { time } => {
                                out.append(": Sent daily at ");
                                out.append(time.as_str());
                                out.append("\n");
                            },
                            Schedule::Weekly { weekday, time } => {
                                out.append(": Sent weekly on ");
                                out.append(crate::calendar::get_weekday_display(weekday).as_str());
                                out.append(" at ");
                                out.append(time.as_str());
                                out.append("\n");
                            },
                            Schedule::BiWeekly { weekday, time, odd: _ } => {
                                out.append(": Sent bi-weekly on ");
                                out.append(crate::calendar::get_weekday_display(weekday).as_str());
                                out.append(" at ");
                                out.append(time.as_str());
                                out.append("\n");
                            },
                            Schedule::Monthly { day, time } => {
                                out.append(": Sent monthly on day ");
                                out.append(u32_to_string(day).as_str());
                                out.append(" at ");
                                out.append(time.as_str());
                                out.append("\n");
                            },
                            Schedule::Yearly { day, time, month } => {
                                out.append(": Sent yearly on ");
                                out.append(crate::calendar::string_from_month(month).as_str());
                                out.append(" on day ");
                                out.append(u32_to_string(day).as_str());
                                out.append(" at ");
                                out.append(time.as_str());
                                out.append("\n");
                            },
                        }
                        proof {
                            assert(out@ =~= list_upto(jobs@, user_id@, s));
                        }
                    },
                    None => {
                        proof {
                            assert(line_at(jobs@, user_id@, s) =~= Seq::<char>::empty());
                            assert(out@ =~= list_upto(jobs@, user_id@, s));
                        }
                    },
                }
            },
            None => {
                proof {
                    lemma_map_of_contains(jobs.index@, (user_id@, s));
                    assert(!slot_used(jobs@.index, user_id@, s));
                    assert(out@ =~= list_upto(jobs@, user_id@, s));
                }
            },
        }
    }
    proof {
        lemma_list_upto_stable(jobs@, user_id@, max, u32::MAX);
    }
    out
}

fn path_referenced_exec(jobs: &JobStore, path: &str) -> (r: bool)
    requires
        jobs.wf(),
    ensures
        r == path_referenced(jobs@.index, path@),
{
    let n = jobs.index.len();
    let mut i: usize = 0;
    while i < n
        invariant
            i <= n == jobs.index@.len(),
            jobs.wf(),
            forall|j: int| 0 <= j < i ==> (#[trigger] jobs.index@[j]).1@ != path@,
        decreases n - i,
    {
        if str_eq(jobs.index[i].1.as_str(), path) {
            proof {
                lemma_map_of_index(jobs.index@, i as int);
            }
            return true;
        }
        i += 1;
    }
    proof {
        if path_referenced(jobs@.index, path@) {
            let k = choose|k: (Seq<char>, u32)|
                jobs@.index.contains_key(k) && jobs@.index[k] == path@;
            lemma_map_of_contains(jobs.index@, k);
            let j = choose|j: int| 0 <= j < jobs.index@.len() && jobs.index@[j].0@ == k;
            lemma_map_of_index(jobs.index@, j);
            assert(jobs.index@[j].1@ == path@);
        }
    }
    false
}

} // verus!
