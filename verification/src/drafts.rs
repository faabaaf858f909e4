//! The draft store: at most one in-progress wizard record per user, keyed
//! by user id. The existence of a record is the sole signal that a user's
//! wizard is in progress.

use vstd::prelude::*;

use crate::assoc::{distinct_keys, lemma_map_of_contains, lemma_map_of_index, lemma_map_of_push,
    lemma_map_of_remove, map_of};
use crate::strutil::str_eq;
use crate::wizard::{wf_draft, ConfigInProgress, DraftV};

verus! {

/// All users' in-progress records.
pub struct DraftStore {
    drafts: Vec<(String, ConfigInProgress)>,
}

impl View for DraftStore {
    type V = Map<Seq<char>, DraftV>;

    closed spec fn view(&self) -> Map<Seq<char>, DraftV> {
        map_of(self.drafts@)
    }
}

impl DraftStore {
    /// Each user has at most one record, and every stored record is
    /// consistent with its step.
    pub closed spec fn wf(&self) -> bool {
        &&& distinct_keys(self.drafts@)
        &&& forall|i: int| 0 <= i < self.drafts@.len() ==> wf_draft((#[trigger] self.drafts@[i]).1@)
    }

    /// An empty store.
    pub fn new() -> (s: Self)
        ensures
            s.wf(),
            s@ == Map::<Seq<char>, DraftV>::empty(),
    {
        DraftStore { drafts: Vec::new() }
    }

    fn find(&self, u_id: &String) -> (r: Option<usize>)
        ensures
            (match r {
                Some(i) => i < self.drafts@.len() && self.drafts@[i as int].0@ == u_id@,
                None => forall|i: int|
                    0 <= i < self.drafts@.len() ==> (#[trigger] self.drafts@[i]).0@ != u_id@,
            }),
    {
        let n = self.drafts.len();
        let mut i: usize = 0;
        while i < n
            invariant
                i <= n == self.drafts@.len(),
                forall|j: int| 0 <= j < i ==> (#[trigger] self.drafts@[j]).0@ != u_id@,
            decreases n - i,
        {
            if str_eq(self.drafts[i].0.as_str(), u_id.as_str()) {
                return Some(i);
            }
            i += 1;
        }
        None
    }
}

/// Loads a user's in-progress record, if one exists.
pub fn get_state(drafts: &DraftStore, u_id: &String) -> (r: Option<ConfigInProgress>)
    requires
        drafts.wf(),
    ensures
        (match r {
            Some(c) => drafts@.contains_key(u_id@) && c@ == drafts@[u_id@] && wf_draft(c@),
            None => !drafts@.contains_key(u_id@),
        }),
{
    match drafts.find(u_id) {
        Some(i) => {
            proof {
                lemma_map_of_index(drafts.drafts@, i as int);
            }
            Some(drafts.drafts[i].1.clone())
        },
        None => {
            proof {
                lemma_map_of_contains(drafts.drafts@, u_id@);
            }
            None
        },
    }
}

/// Saves a user's record, replacing any earlier one.
pub fn save_state(drafts: &mut DraftStore, u_id: &String, config_in_progress: &ConfigInProgress)
    requires
        old(drafts).wf(),
        wf_draft(config_in_progress@),
    ensures
        final(drafts).wf(),
        final(drafts)@ == old(drafts)@.insert(u_id@, config_in_progress@),
{
    let ghost d0 = drafts@;
    match drafts.find(u_id) {
        Some(i) => {
            proof {
                lemma_map_of_remove(drafts.drafts@, i as int);
            }
            drafts.drafts.remove(i);
        },
        None => {
            proof {
                lemma_map_of_contains(drafts.drafts@, u_id@);
                assert(map_of(drafts.drafts@).remove(u_id@) =~= map_of(drafts.drafts@));
            }
        },
    }
    assert(forall|i: int|
        0 <= i < drafts.drafts@.len() ==> (#[trigger] drafts.drafts@[i]).0@ != u_id@) by {
        lemma_map_of_contains(drafts.drafts@, u_id@);
    }
    let ghost prev = drafts.drafts@;
    drafts.drafts.push((u_id.clone(), config_in_progress.clone()));
    proof {
        lemma_map_of_push(prev, drafts.drafts@.last());
        assert forall|a: int, b: int| 0 <= a < b < drafts.drafts@.len() implies drafts.drafts@[a].0@
            != drafts.drafts@[b].0@ by {
            if b < drafts.drafts@.len() - 1 {
                assert(prev[a].0@ != prev[b].0@);
            } else {
                assert(prev[a].0@ != u_id@);
            }
        }
        assert(map_of(drafts.drafts@) =~= d0.insert(u_id@, config_in_progress@));
    }
}

/// Deletes a user's record; a missing record is a no-op.
pub fn delete_state(drafts: &mut DraftStore, u_id: &String)
    requires
        old(drafts).wf(),
    ensures
        final(drafts).wf(),
        final(drafts)@ == old(drafts)@.remove(u_id@),
{
    match drafts.find(u_id) {
        Some(i) => {
            proof {
                lemma_map_of_remove(drafts.drafts@, i as int);
            }
            drafts.drafts.remove(i);
        },
        None => {
            proof {
                lemma_map_of_contains(drafts.drafts@, u_id@);
                assert(map_of(drafts.drafts@).remove(u_id@) =~= map_of(drafts.drafts@));
            }
        },
    }
}

} // verus!
