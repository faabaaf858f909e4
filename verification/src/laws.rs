//! The wizard's and store's cross-cutting guarantees, stated and proved
//! over the same specifications the executable contracts use.

use vstd::prelude::*;

use crate::engine::{
    closeable, command_rel, draft_of, finalizes, handle_rel, is_cmd_text, load_input_spec,
    sched_of_draft,
};
use crate::store::{
    can_alloc, create_spec, first_free, first_free_from, slot_used, ConfigV, JobStoreV,
};
use crate::recurrence::{decode_spec, encode_spec, lemma_decode_encode, wf_schedule, ScheduleV};
use crate::strutil::no_char;
use crate::wizard::{
    lemma_valid_time_no_slash, next_step, opt_or_empty, step_rank, wf_draft, CommandV,
    DesiredValue, DraftV, Schedule, StatusV,
};

verus! {

/// The wizard only moves forward: from any step but the terminal one, the
/// successor step lies strictly later in the step order, whatever has
/// been answered so far — so no run of the wizard ever revisits a step it
/// has passed.
pub proof fn lemma_step_progress(d: DraftV)
    ensures
        d.desired_value != DesiredValue::Finished ==> step_rank(next_step(d)) > step_rank(
            d.desired_value,
        ),
{
}

/// One turn on a live draft reports completion exactly when the answer
/// finalizes the wizard — providing the token, or declining a custom
/// credential — and completion deletes the draft, so a second completion
/// cannot happen without a fresh start command.
pub proof fn lemma_wizard_single_finalize(
    d0: Map<Seq<char>, DraftV>,
    j0: JobStoreV,
    u: Seq<char>,
    m: crate::store::MessageV,
    d1: Map<Seq<char>, DraftV>,
    j1: JobStoreV,
    r: StatusV,
)
    requires
        handle_rel(d0, j0, u, m, d1, j1, r),
        draft_of(d0, u) is Some,
        wf_draft(draft_of(d0, u)->0),
        !is_cmd_text(m),
        load_input_spec(draft_of(d0, u), m) is Ok,
    ensures
        r == StatusV::Done <==> finalizes(draft_of(d0, u)->0, load_input_spec(
            draft_of(d0, u),
            m,
        )->Ok_0),
        r == StatusV::Done ==> !d1.contains_key(u),
{
    let d = draft_of(d0, u)->0;
    let i = load_input_spec(draft_of(d0, u), m)->Ok_0;
    assert(1 <= step_rank(d.desired_value) <= 8);
    if !finalizes(d, i) {
        let dn = crate::engine::update_draft(d, i);
        assert(next_step(dn) != DesiredValue::Start);
        assert(next_step(dn) != DesiredValue::Finished);
    }
}

/// A turn that accepts an answer without completing the wizard moves the
/// draft to a strictly later step: together with the forward-only
/// successor rule, no step is ever revisited on the way to completion.
pub proof fn lemma_turn_moves_forward(
    d0: Map<Seq<char>, DraftV>,
    j0: JobStoreV,
    u: Seq<char>,
    m: crate::store::MessageV,
    d1: Map<Seq<char>, DraftV>,
    j1: JobStoreV,
    r: StatusV,
)
    requires
        handle_rel(d0, j0, u, m, d1, j1, r),
        draft_of(d0, u) is Some,
        wf_draft(draft_of(d0, u)->0),
        !is_cmd_text(m),
        load_input_spec(draft_of(d0, u), m) is Ok,
        r != StatusV::Done,
    ensures
        d1.contains_key(u),
        step_rank(d1[u].desired_value) > step_rank(draft_of(d0, u)->0.desired_value),
{
    let d = draft_of(d0, u)->0;
    let i = load_input_spec(draft_of(d0, u), m)->Ok_0;
    assert(1 <= step_rank(d.desired_value) <= 8);
    lemma_wizard_single_finalize(d0, j0, u, m, d1, j1, r);
    let dn = crate::engine::update_draft(d, i);
    lemma_step_progress(dn);
}

/// Cancelling with no existing draft succeeds without creating one: the
/// draft map and the job store are exactly what they were.
pub proof fn lemma_cancel_without_draft(
    d0: Map<Seq<char>, DraftV>,
    j0: JobStoreV,
    u: Seq<char>,
    d1: Map<Seq<char>, DraftV>,
    j1: JobStoreV,
    r: StatusV,
)
    requires
        !d0.contains_key(u),
        command_rel(d0, j0, u, CommandV::Cancel, d1, j1, r),
    ensures
        d1 == d0,
        j1 == j0,
        r == StatusV::Cancelled,
{
    assert(d0.remove(u) =~= d0);
}

/// The frequency answer decides the branch: a daily schedule goes
/// straight to the time step, skipping month and day; every other kind
/// goes to the month step first.
pub proof fn lemma_frequency_branching(d: DraftV)
    requires
        d.desired_value == DesiredValue::Frequency,
    ensures
        d.schedule == Some(Schedule::Daily) ==> next_step(d) == DesiredValue::StartTime,
        d.schedule == Some(Schedule::Weekly) ==> next_step(d) == DesiredValue::StartMonth,
        d.schedule == Some(Schedule::Biweekly) ==> next_step(d) == DesiredValue::StartMonth,
        d.schedule == Some(Schedule::Monthly) ==> next_step(d) == DesiredValue::StartMonth,
        d.schedule == Some(Schedule::Yearly) ==> next_step(d) == DesiredValue::StartMonth,
{
}

/// A reminder just created is immediately retrievable: the freshly
/// assigned slot's index entry points at the canonical path, and the
/// canonical layer holds exactly the stored body there.
pub proof fn lemma_create_then_get(j: JobStoreV, u: Seq<char>, c: ConfigV, s: ScheduleV)
    requires
        can_alloc(j.index, u),
    ensures
        ({
            let j1 = create_spec(j, u, c, s);
            let slot = first_free(j.index, u);
            &&& j1.index.contains_key((u, slot))
            &&& j1.canonical.contains_key(j1.index[(u, slot)])
            &&& j1.canonical[j1.index[(u, slot)]] == c
        }),
{
}

/// Listing can always read back what finalization wrote: the canonical
/// path of any schedule the wizard finalizes — its time validated, for
/// any user id free of path separators and any year — decodes to exactly
/// that schedule and user.
pub proof fn lemma_finalized_path_decodes(d: DraftV, u: Seq<char>, y: int)
    requires
        closeable(d),
        no_char(u, '/'),
    ensures
        decode_spec(encode_spec(sched_of_draft(d, y), u)) == Some((sched_of_draft(d, y), u)),
{
    lemma_valid_time_no_slash(opt_or_empty(d.first_execution_time));
    assert(wf_schedule(sched_of_draft(d, y)));
    lemma_decode_encode(sched_of_draft(d, y), u);
}

/// Slots are gap-filling: every slot below the one a create assigns is
/// already in use, so a deleted slot is reused before a new maximum is
/// picked.
pub proof fn lemma_first_free_smallest(
    index: Map<(Seq<char>, u32), Seq<char>>,
    u: Seq<char>,
    k: u32,
)
    requires
        1 <= k < first_free(index, u),
    ensures
        slot_used(index, u, k),
{
    lemma_first_free_from_smallest(index, u, 1, k);
}

proof fn lemma_first_free_from_smallest(
    index: Map<(Seq<char>, u32), Seq<char>>,
    u: Seq<char>,
    i: u32,
    k: u32,
)
    requires
        i <= k < first_free_from(index, u, i),
    ensures
        slot_used(index, u, k),
    decreases u32::MAX - i,
{
    if i < u32::MAX {
        if k > i {
            lemma_first_free_from_smallest(index, u, (i + 1) as u32, k);
        }
    }
}

} // verus!
