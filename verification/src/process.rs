//! Process samples and the two policies that rank them.
//!
//! CPU usage is carried as an unsigned integer in hundredths of a percent, so
//! that samples can be ordered exactly.

use std::collections::HashMap;
use vstd::multiset::Multiset;
use vstd::prelude::*;

verus! {

/// What the operating system reports for one process.
#[derive(Debug)]
pub struct ProcessReading {
    pub pid: u32,
    pub name: String,
    pub memory: u64,
    /// Hundredths of a percent.
    pub cpu_usage: u32,
}

/// One process as it appears in a snapshot.
#[derive(Debug)]
pub struct ProcessSample {
    pub memory: u64,
    pub is_focused: bool,
    /// Title of the first visible window of the process, or the executable
    /// name where it has none.
    pub window_title: String,
    pub executable_name: String,
    pub pid: u32,
    /// Hundredths of a percent.
    pub cpu_usage: u32,
}

impl Clone for ProcessSample {
    fn clone(&self) -> (copy: Self)
        ensures
            copy == *self,
    {
        ProcessSample {
            memory: self.memory,
            is_focused: self.is_focused,
            window_title: self.window_title.clone(),
            executable_name: self.executable_name.clone(),
            pid: self.pid,
            cpu_usage: self.cpu_usage,
        }
    }
}

/// The sample made from one reading: the window title is looked up by pid and
/// falls back to the executable name; the process is focused when its pid is
/// the focused one.
pub open spec fn sample_of(
    reading: ProcessReading,
    focused_pid: Option<u32>,
    titles: Map<u32, String>,
) -> ProcessSample {
    ProcessSample {
        memory: reading.memory,
        is_focused: focused_pid == Some(reading.pid),
        window_title: if titles.contains_key(reading.pid) {
            titles[reading.pid]
        } else {
            reading.name
        },
        executable_name: reading.name,
        pid: reading.pid,
        cpu_usage: reading.cpu_usage,
    }
}

/// The samples made from a list of readings, in the order of the readings.
pub open spec fn samples_of(
    readings: Seq<ProcessReading>,
    focused_pid: Option<u32>,
    titles: Map<u32, String>,
) -> Seq<ProcessSample> {
    Seq::new(readings.len(), |i: int| sample_of(readings[i], focused_pid, titles))
}

/// Turns readings into samples, one for one.
pub fn annotate(
    readings: &Vec<ProcessReading>,
    focused_pid: Option<u32>,
    window_titles: &HashMap<u32, String>,
) -> (samples: Vec<ProcessSample>)
    ensures
        samples@ == samples_of(readings@, focused_pid, window_titles@),
{
    broadcast use vstd::std_specs::hash::group_hash_axioms;

    let mut samples: Vec<ProcessSample> = Vec::new();
    let mut i: usize = 0;
    while i < readings.len()
        invariant
            i <= readings.len(),
            samples.len() == i,
            forall|k: int|
                0 <= k < i ==> samples[k] == sample_of(
                    #[trigger] readings[k],
                    focused_pid,
                    window_titles@,
                ),
        decreases readings.len() - i,
    {
        let reading = &readings[i];
        let is_focused = match focused_pid {
            Some(pid) => pid == reading.pid,
            None => false,
        };
        let window_title = match window_titles.get(&reading.pid) {
            Some(title) => title.clone(),
            None => reading.name.clone(),
        };
        samples.push(
            ProcessSample {
                memory: reading.memory,
                is_focused,
                window_title,
                executable_name: reading.name.clone(),
                pid: reading.pid,
                cpu_usage: reading.cpu_usage,
            },
        );
        i += 1;
    }
    assert(samples@ =~= samples_of(readings@, focused_pid, window_titles@));
    samples
}

/// The weight by which a policy orders a sample: its CPU usage, and above
/// every CPU usage when the policy puts the focused process first and the
/// sample is focused.
pub open spec fn rank_weight(sample: ProcessSample, focus_first: bool) -> int {
    if focus_first && sample.is_focused {
        0x1_0000_0000 + sample.cpu_usage
    } else {
        sample.cpu_usage as int
    }
}

/// No sample is followed by one of greater weight.
pub open spec fn by_weight_descending(samples: Seq<ProcessSample>, focus_first: bool) -> bool {
    forall|i: int, j: int|
        0 <= i < j < samples.len() ==> rank_weight(samples[i], focus_first) >= rank_weight(
            samples[j],
            focus_first,
        )
}

/// No sample is followed by one of greater CPU usage.
pub open spec fn by_cpu_descending(samples: Seq<ProcessSample>) -> bool {
    forall|i: int, j: int|
        0 <= i < j < samples.len() ==> samples[i].cpu_usage >= samples[j].cpu_usage
}

/// Focused samples come before the others, and within each of the two groups
/// no sample is followed by one of greater CPU usage.
pub open spec fn focused_then_cpu_descending(samples: Seq<ProcessSample>) -> bool {
    forall|i: int, j: int|
        0 <= i < j < samples.len() ==> {
            &&& samples[i].is_focused || !samples[j].is_focused
            &&& samples[i].is_focused == samples[j].is_focused ==> samples[i].cpu_usage
                >= samples[j].cpu_usage
        }
}

/// `sorted` holds the samples of `all`, each as often as `all` does.
pub open spec fn same_samples(all: Seq<ProcessSample>, sorted: Seq<ProcessSample>) -> bool {
    sorted.to_multiset() == all.to_multiset()
}

fn weight(sample: &ProcessSample, focus_first: bool) -> (w: u64)
    ensures
        w == rank_weight(*sample, focus_first),
{
    if focus_first && sample.is_focused {
        0x1_0000_0000u64 + sample.cpu_usage as u64
    } else {
        sample.cpu_usage as u64
    }
}

/// Orders samples by descending weight. The order among samples of equal
/// weight is left open.
fn sort_by_weight(samples: Vec<ProcessSample>, focus_first: bool) -> (sorted: Vec<ProcessSample>)
    ensures
        same_samples(samples@, sorted@),
        by_weight_descending(sorted@, focus_first),
{
    let ghost all = samples@;
    let mut rest = samples;
    let mut sorted: Vec<ProcessSample> = Vec::new();
    assert(rest@.to_multiset().add(sorted@.to_multiset()) =~= all.to_multiset()) by {
        sorted@.to_multiset_ensures();
    }
    while rest.len() > 0
        invariant
            by_weight_descending(sorted@, focus_first),
            rest@.to_multiset().add(sorted@.to_multiset()) == all.to_multiset(),
        decreases rest.len(),
    {
        let ghost before = rest@;
        let ghost placed = sorted@;
        let sample = rest.pop().unwrap();
        let w = weight(&sample, focus_first);
        let mut at: usize = 0;
        while at < sorted.len() && weight(&sorted[at], focus_first) > w
            invariant
                at <= sorted.len(),
                sorted@ == placed,
                forall|k: int| 0 <= k < at ==> rank_weight(#[trigger] sorted[k], focus_first) > w,
            decreases sorted.len() - at,
        {
            at += 1;
        }
        sorted.insert(at, sample);
        proof {
            assert(before =~= rest@.push(sample));
            vstd::seq_lib::to_multiset_build(rest@, sample);
            assert(before.to_multiset() =~= rest@.to_multiset().insert(sample));
            assert(sorted@ == placed.insert(at as int, sample));
            vstd::seq_lib::to_multiset_insert(placed, at as int, sample);
            assert(sorted@.to_multiset() =~= placed.to_multiset().insert(sample));
            assert(rest@.to_multiset().add(sorted@.to_multiset()) =~= before.to_multiset().add(
                placed.to_multiset(),
            ));
            assert forall|i: int, j: int| 0 <= i < j < sorted@.len() implies rank_weight(
                sorted@[i],
                focus_first,
            ) >= rank_weight(sorted@[j], focus_first) by {
                if i < at && j > at {
                    assert(sorted@[j] == placed[j - 1]);
                    assert(sorted@[i] == placed[i]);
                } else if i < at && j == at {
                    assert(sorted@[i] == placed[i]);
                } else if i < at {
                    assert(sorted@[i] == placed[i]);
                    assert(sorted@[j] == placed[j]);
                } else if i == at {
                    assert(sorted@[j] == placed[j - 1]);
                    assert(rank_weight(placed[at as int], focus_first) <= w);
                } else {
                    assert(sorted@[i] == placed[i - 1]);
                    assert(sorted@[j] == placed[j - 1]);
                }
            }
        }
    }
    assert(rest@.to_multiset() =~= Multiset::empty()) by {
        rest@.to_multiset_ensures();
    }
    assert(sorted@.to_multiset() =~= all.to_multiset());
    sorted
}

/// Orders samples by descending CPU usage. The order among samples of equal
/// usage is left open.
pub fn sort_by_cpu_descending(samples: Vec<ProcessSample>) -> (sorted: Vec<ProcessSample>)
    ensures
        same_samples(samples@, sorted@),
        by_cpu_descending(sorted@),
{
    let sorted = sort_by_weight(samples, false);
    assert forall|i: int, j: int| 0 <= i < j < sorted@.len() implies sorted@[i].cpu_usage
        >= sorted@[j].cpu_usage by {
        assert(rank_weight(sorted@[i], false) >= rank_weight(sorted@[j], false));
    }
    sorted
}

/// Orders samples with the focused ones first and by descending CPU usage
/// within the focused and within the others.
pub fn sort_focused_first(samples: Vec<ProcessSample>) -> (sorted: Vec<ProcessSample>)
    ensures
        same_samples(samples@, sorted@),
        focused_then_cpu_descending(sorted@),
{
    let sorted = sort_by_weight(samples, true);
    assert forall|i: int, j: int| 0 <= i < j < sorted@.len() implies {
        &&& sorted@[i].is_focused || !sorted@[j].is_focused
        &&& sorted@[i].is_focused == sorted@[j].is_focused ==> sorted@[i].cpu_usage
            >= sorted@[j].cpu_usage
    } by {
        assert(rank_weight(sorted@[i], true) >= rank_weight(sorted@[j], true));
    }
    sorted
}

/// How many samples a limit lets through.
pub open spec fn kept_count(total: nat, limit: nat) -> nat {
    if limit < total {
        limit
    } else {
        total
    }
}

/// The position of the first focused sample, or the length where none is
/// focused.
pub open spec fn focused_position(samples: Seq<ProcessSample>) -> nat
    decreases samples.len(),
{
    if samples.len() == 0 || samples[0].is_focused {
        0
    } else {
        1 + focused_position(samples.drop_first())
    }
}

/// Some sample of the list has this pid.
pub open spec fn has_pid(samples: Seq<ProcessSample>, pid: u32) -> bool {
    exists|i: int| 0 <= i < samples.len() && (#[trigger] samples[i]).pid == pid
}

/// The first `limit` samples of an ordered list, with the first focused
/// sample put in front where none of them has its pid.
pub open spec fn keep_focused(sorted: Seq<ProcessSample>, limit: nat) -> Seq<ProcessSample> {
    let top = sorted.take(kept_count(sorted.len(), limit) as int);
    let at = focused_position(sorted);
    if at < sorted.len() && !has_pid(top, sorted[at as int].pid) {
        seq![sorted[at as int]] + top
    } else {
        top
    }
}

/// `ranked` is what the snapshot policy makes of `all` under `limit`: the
/// samples ordered by descending CPU usage in some way, cut to the limit, and
/// the focused one kept.
pub open spec fn is_snapshot_ranking(
    all: Seq<ProcessSample>,
    limit: nat,
    ranked: Seq<ProcessSample>,
) -> bool {
    exists|sorted: Seq<ProcessSample>|
        same_samples(all, sorted) && by_cpu_descending(sorted) && ranked == keep_focused(
            sorted,
            limit,
        )
}

/// The number of samples that the dashboard shows at most.
pub const DASHBOARD_PROCESS_LIMIT: usize = 20;

/// `ranked` is what the dashboard policy makes of `all`: the samples ordered
/// focused first and then by descending CPU usage in some way, cut to the
/// dashboard's limit.
pub open spec fn is_dashboard_ranking(all: Seq<ProcessSample>, ranked: Seq<ProcessSample>) -> bool {
    exists|sorted: Seq<ProcessSample>|
        same_samples(all, sorted) && focused_then_cpu_descending(sorted) && ranked == sorted.take(
            kept_count(sorted.len(), DASHBOARD_PROCESS_LIMIT as nat) as int,
        )
}

/// `focused_position` is the one index before which nothing is focused and
/// which is focused itself or the end.
pub proof fn lemma_focused_position(samples: Seq<ProcessSample>, at: int)
    requires
        0 <= at <= samples.len(),
        forall|k: int| 0 <= k < at ==> !(#[trigger] samples[k]).is_focused,
        at < samples.len() ==> samples[at].is_focused,
    ensures
        focused_position(samples) == at,
    decreases samples.len(),
{
    if samples.len() == 0 || samples[0].is_focused {
        if at > 0 {
            assert(!samples[0].is_focused);
        }
    } else {
        let rest = samples.drop_first();
        assert forall|k: int| 0 <= k < at - 1 implies !(#[trigger] rest[k]).is_focused by {
            assert(rest[k] == samples[k + 1]);
        }
        if at < samples.len() {
            assert(rest[at - 1] == samples[at]);
        }
        lemma_focused_position(rest, at - 1);
    }
}

/// What `focused_position` returns: nothing before it is focused, and it is
/// focused itself unless it is the end.
pub proof fn lemma_focused_position_is_first(samples: Seq<ProcessSample>)
    ensures
        focused_position(samples) <= samples.len(),
        forall|k: int|
            0 <= k < focused_position(samples) ==> !(#[trigger] samples[k]).is_focused,
        focused_position(samples) < samples.len() ==> samples[focused_position(
            samples,
        ) as int].is_focused,
    decreases samples.len(),
{
    if samples.len() == 0 || samples[0].is_focused {
    } else {
        let rest = samples.drop_first();
        lemma_focused_position_is_first(rest);
        assert forall|k: int| 0 <= k < focused_position(samples) implies !(
        #[trigger] samples[k]).is_focused by {
            if k > 0 {
                assert(rest[k - 1] == samples[k]);
            }
        }
        if focused_position(samples) < samples.len() {
            assert(rest[focused_position(rest) as int] == samples[focused_position(
                samples,
            ) as int]);
        }
    }
}

/// Cuts an ordered list to `limit` samples and keeps the focused one: where a
/// sample is focused and none of the first `limit` has its pid, the first
/// focused sample is put in front.
pub fn truncate_keeping_focused(sorted: Vec<ProcessSample>, limit: u32) -> (ranked: Vec<
    ProcessSample,
>)
    ensures
        ranked@ == keep_focused(sorted@, limit as nat),
{
    let ghost all = sorted@;
    let mut ranked = sorted;
    let mut at: usize = 0;
    while at < ranked.len() && !ranked[at].is_focused
        invariant
            at <= ranked.len(),
            ranked@ == all,
            forall|k: int| 0 <= k < at ==> !(#[trigger] all[k]).is_focused,
        decreases ranked.len() - at,
    {
        at += 1;
    }
    proof {
        lemma_focused_position(all, at as int);
    }
    let focused: Option<ProcessSample> = if at < ranked.len() {
        Some(ranked[at].clone())
    } else {
        None
    };
    ranked.truncate(limit as usize);
    assert(ranked@ == all.take(kept_count(all.len(), limit as nat) as int));
    match focused {
        Some(sample) => {
            let mut i: usize = 0;
            while i < ranked.len() && ranked[i].pid != sample.pid
                invariant
                    i <= ranked.len(),
                    forall|k: int| 0 <= k < i ==> (#[trigger] ranked[k]).pid != sample.pid,
                decreases ranked.len() - i,
            {
                i += 1;
            }
            if i == ranked.len() {
                let ghost top = ranked@;
                ranked.insert(0, sample);
                assert(ranked@ =~= seq![sample] + top);
            }
        },
        None => {},
    }
    ranked
}

/// The snapshot's process list: every reading becomes a sample, the samples
/// are ordered by descending CPU usage and cut to `limit`, and the focused
/// process is kept in front where the cut would have dropped it.
pub fn rank_processes(
    readings: &Vec<ProcessReading>,
    focused_pid: Option<u32>,
    window_titles: &HashMap<u32, String>,
    limit: u32,
) -> (ranked: Vec<ProcessSample>)
    ensures
        is_snapshot_ranking(
            samples_of(readings@, focused_pid, window_titles@),
            limit as nat,
            ranked@,
        ),
{
    let samples = annotate(readings, focused_pid, window_titles);
    let sorted = sort_by_cpu_descending(samples);
    let ranked = truncate_keeping_focused(sorted, limit);
    assert(same_samples(samples@, sorted@) && by_cpu_descending(sorted@) && ranked@
        == keep_focused(sorted@, limit as nat));
    ranked
}

/// The dashboard's process list: every reading becomes a sample, the samples
/// are ordered focused first and then by descending CPU usage, and the list
/// is cut to the dashboard's limit.
pub fn rank_for_dashboard(
    readings: &Vec<ProcessReading>,
    focused_pid: Option<u32>,
    window_titles: &HashMap<u32, String>,
) -> (ranked: Vec<ProcessSample>)
    ensures
        is_dashboard_ranking(samples_of(readings@, focused_pid, window_titles@), ranked@),
{
    let samples = annotate(readings, focused_pid, window_titles);
    let sorted = sort_focused_first(samples);
    let ghost ordered = sorted@;
    let mut ranked = sorted;
    ranked.truncate(DASHBOARD_PROCESS_LIMIT);
    assert(same_samples(samples@, ordered) && focused_then_cpu_descending(ordered) && ranked@
        == ordered.take(kept_count(ordered.len(), DASHBOARD_PROCESS_LIMIT as nat) as int));
    ranked
}

/// Some sample of the list is focused.
pub open spec fn has_focused(samples: Seq<ProcessSample>) -> bool {
    exists|i: int| 0 <= i < samples.len() && (#[trigger] samples[i]).is_focused
}

/// Samples of one pid agree on whether they are focused. This holds of every
/// list that `samples_of` makes.
pub open spec fn focus_follows_pid(samples: Seq<ProcessSample>) -> bool {
    forall|i: int, j: int|
        0 <= i < samples.len() && 0 <= j < samples.len() && (#[trigger] samples[i]).pid == (
        #[trigger] samples[j]).pid ==> samples[i].is_focused == samples[j].is_focused
}

/// In the samples made from readings, focus follows the pid.
pub proof fn lemma_samples_focus_follows_pid(
    readings: Seq<ProcessReading>,
    focused_pid: Option<u32>,
    titles: Map<u32, String>,
)
    ensures
        focus_follows_pid(samples_of(readings, focused_pid, titles)),
{
}

/// A list has a focused sample exactly where `focused_position` lies inside
/// it.
pub proof fn lemma_has_focused(samples: Seq<ProcessSample>)
    ensures
        has_focused(samples) <==> focused_position(samples) < samples.len(),
{
    lemma_focused_position_is_first(samples);
    if focused_position(samples) < samples.len() {
        assert(samples[focused_position(samples) as int].is_focused);
    }
}

/// Two lists of the same samples agree on whether one is focused, and on
/// whether focus follows the pid.
pub proof fn lemma_same_samples_same_focus(all: Seq<ProcessSample>, sorted: Seq<ProcessSample>)
    requires
        same_samples(all, sorted),
    ensures
        has_focused(all) == has_focused(sorted),
        focus_follows_pid(all) == focus_follows_pid(sorted),
        all.len() == sorted.len(),
{
    broadcast use vstd::seq_lib::to_multiset_contains;

    vstd::seq_lib::to_multiset_len(all);
    vstd::seq_lib::to_multiset_len(sorted);
    assert forall|a: Seq<ProcessSample>, b: Seq<ProcessSample>|
        a.to_multiset() == b.to_multiset() && has_focused(a) implies has_focused(b) by {
        let i = choose|i: int| 0 <= i < a.len() && (#[trigger] a[i]).is_focused;
        assert(a.contains(a[i]));
        assert(b.to_multiset().count(a[i]) > 0);
        assert(b.contains(a[i]));
        let j = choose|j: int| 0 <= j < b.len() && b[j] == a[i];
        assert(b[j].is_focused);
    }
    assert forall|a: Seq<ProcessSample>, b: Seq<ProcessSample>|
        a.to_multiset() == b.to_multiset() && focus_follows_pid(a) implies focus_follows_pid(
        b,
    ) by {
        assert forall|i: int, j: int|
            0 <= i < b.len() && 0 <= j < b.len() && (#[trigger] b[i]).pid == (
            #[trigger] b[j]).pid implies b[i].is_focused == b[j].is_focused by {
            assert(b.contains(b[i]));
            assert(b.contains(b[j]));
            assert(a.to_multiset().count(b[i]) > 0);
            assert(a.to_multiset().count(b[j]) > 0);
            assert(a.contains(b[i]));
            assert(a.contains(b[j]));
            let x = choose|x: int| 0 <= x < a.len() && a[x] == b[i];
            let y = choose|y: int| 0 <= y < a.len() && a[y] == b[j];
            assert(a[x].pid == a[y].pid);
        }
    }
}

/// A ranking never has fewer samples than the limit lets through, and at
/// most one more.
pub proof fn law_ranking_length(all: Seq<ProcessSample>, limit: nat, ranked: Seq<ProcessSample>)
    requires
        is_snapshot_ranking(all, limit, ranked),
    ensures
        kept_count(all.len(), limit) <= ranked.len() <= kept_count(all.len(), limit) + 1,
{
    let sorted = choose|sorted: Seq<ProcessSample>|
        same_samples(all, sorted) && by_cpu_descending(sorted) && ranked == keep_focused(
            sorted,
            limit,
        );
    lemma_same_samples_same_focus(all, sorted);
}

/// The focused process is never dropped: where focus follows the pid and some
/// sample is focused, the ranking holds a focused sample.
pub proof fn law_focused_is_kept(all: Seq<ProcessSample>, limit: nat, ranked: Seq<ProcessSample>)
    requires
        is_snapshot_ranking(all, limit, ranked),
        focus_follows_pid(all),
        has_focused(all),
    ensures
        has_focused(ranked),
{
    let sorted = choose|sorted: Seq<ProcessSample>|
        same_samples(all, sorted) && by_cpu_descending(sorted) && ranked == keep_focused(
            sorted,
            limit,
        );
    lemma_same_samples_same_focus(all, sorted);
    lemma_has_focused(sorted);
    lemma_focused_position_is_first(sorted);
    let at = focused_position(sorted) as int;
    let top = sorted.take(kept_count(sorted.len(), limit) as int);
    if has_pid(top, sorted[at].pid) {
        let i = choose|i: int| 0 <= i < top.len() && (#[trigger] top[i]).pid == sorted[at].pid;
        assert(top[i] == sorted[i]);
        assert(sorted[i].is_focused == sorted[at].is_focused);
        assert(ranked[i].is_focused);
    } else {
        assert(ranked[0] == sorted[at]);
        assert(ranked[0].is_focused);
    }
}

/// With the focused sample outside the first `limit` of the order, the
/// ranking has `limit + 1` samples and starts with the focused one.
pub proof fn law_focused_outside_limit(sorted: Seq<ProcessSample>, limit: nat)
    requires
        has_focused(sorted),
        !has_pid(
            sorted.take(kept_count(sorted.len(), limit) as int),
            sorted[focused_position(sorted) as int].pid,
        ),
    ensures
        keep_focused(sorted, limit).len() == limit + 1,
        keep_focused(sorted, limit)[0] == sorted[focused_position(sorted) as int],
        keep_focused(sorted, limit)[0].is_focused,
        keep_focused(sorted, limit).skip(1) == sorted.take(limit as int),
{
    lemma_has_focused(sorted);
    lemma_focused_position_is_first(sorted);
    let at = focused_position(sorted) as int;
    let top = sorted.take(kept_count(sorted.len(), limit) as int);
    if limit >= sorted.len() {
        assert(top[at] == sorted[at]);
        assert(has_pid(top, sorted[at].pid));
    }
    assert(keep_focused(sorted, limit).skip(1) =~= sorted.take(limit as int));
}

/// With the focused sample among the first `limit` of the order, or with no
/// focused sample at all, the ranking is the first `limit` samples: exactly
/// `limit` of them where the list has that many.
pub proof fn law_focused_inside_limit(sorted: Seq<ProcessSample>, limit: nat)
    requires
        limit <= sorted.len(),
        !has_focused(sorted) || focused_position(sorted) < limit,
    ensures
        keep_focused(sorted, limit) == sorted.take(limit as int),
        keep_focused(sorted, limit).len() == limit,
{
    lemma_has_focused(sorted);
    let at = focused_position(sorted) as int;
    let top = sorted.take(limit as int);
    if at < sorted.len() {
        assert(top[at] == sorted[at]);
        assert(has_pid(top, sorted[at].pid));
    }
}

/// Under a limit of zero the ranking is empty where no sample is focused,
/// and holds the first focused sample alone where one is.
pub proof fn law_zero_limit(sorted: Seq<ProcessSample>)
    ensures
        !has_focused(sorted) ==> keep_focused(sorted, 0) == Seq::<ProcessSample>::empty(),
        has_focused(sorted) ==> keep_focused(sorted, 0) == seq![
            sorted[focused_position(sorted) as int],
        ],
{
    lemma_has_focused(sorted);
    let top = sorted.take(0);
    assert(top =~= Seq::<ProcessSample>::empty());
    if has_focused(sorted) {
        let at = focused_position(sorted) as int;
        assert(!has_pid(top, sorted[at].pid));
        assert(keep_focused(sorted, 0) =~= seq![sorted[at]]);
    }
}

/// Under a limit of zero, a ranking of `all` is empty where nothing in `all`
/// is focused, and is one focused sample of `all` where something is.
pub proof fn law_zero_limit_ranking(all: Seq<ProcessSample>, ranked: Seq<ProcessSample>)
    requires
        is_snapshot_ranking(all, 0, ranked),
    ensures
        !has_focused(all) ==> ranked.len() == 0,
        has_focused(all) ==> ranked.len() == 1 && ranked[0].is_focused && all.contains(ranked[0]),
{
    broadcast use vstd::seq_lib::to_multiset_contains;

    let sorted = choose|sorted: Seq<ProcessSample>|
        same_samples(all, sorted) && by_cpu_descending(sorted) && ranked == keep_focused(sorted, 0);
    lemma_same_samples_same_focus(all, sorted);
    lemma_has_focused(sorted);
    lemma_focused_position_is_first(sorted);
    law_zero_limit(sorted);
    if has_focused(all) {
        let at = focused_position(sorted) as int;
        assert(sorted.contains(sorted[at]));
        assert(all.to_multiset().count(sorted[at]) > 0);
    }
}


/// No two samples have the same pid.
pub open spec fn distinct_pids(samples: Seq<ProcessSample>) -> bool {
    forall|i: int, j: int|
        0 <= i < samples.len() && 0 <= j < samples.len() && i != j ==> (#[trigger] samples[i]).pid
            != (#[trigger] samples[j]).pid
}

/// The sample belongs to another process than `pid` and uses at least as
/// much CPU as `cpu_usage`.
pub open spec fn is_busier(sample: ProcessSample, pid: u32, cpu_usage: u32) -> bool {
    sample.pid != pid && sample.cpu_usage >= cpu_usage
}

/// How many samples of other processes than `pid` use at least as much CPU
/// as `cpu_usage`.
pub open spec fn busier_count(samples: Seq<ProcessSample>, pid: u32, cpu_usage: u32) -> nat
    decreases samples.len(),
{
    if samples.len() == 0 {
        0
    } else if is_busier(samples.last(), pid, cpu_usage) {
        busier_count(samples.drop_last(), pid, cpu_usage) + 1
    } else {
        busier_count(samples.drop_last(), pid, cpu_usage)
    }
}

/// Taking one sample out of a list lowers the count by one where the sample
/// counted, and leaves it where it did not.
pub proof fn lemma_busier_count_remove(
    samples: Seq<ProcessSample>,
    at: int,
    pid: u32,
    cpu_usage: u32,
)
    requires
        0 <= at < samples.len(),
    ensures
        busier_count(samples, pid, cpu_usage) == busier_count(
            samples.remove(at),
            pid,
            cpu_usage,
        ) + if is_busier(samples[at], pid, cpu_usage) {
            1nat
        } else {
            0nat
        },
    decreases samples.len(),
{
    if at == samples.len() - 1 {
        assert(samples.remove(at) =~= samples.drop_last());
    } else {
        let shorter = samples.remove(at);
        assert(shorter.last() == samples.last());
        assert(shorter.drop_last() =~= samples.drop_last().remove(at));
        lemma_busier_count_remove(samples.drop_last(), at, pid, cpu_usage);
    }
}

/// Two lists of the same samples have the same count.
pub proof fn lemma_busier_count_same_samples(
    all: Seq<ProcessSample>,
    sorted: Seq<ProcessSample>,
    pid: u32,
    cpu_usage: u32,
)
    requires
        same_samples(all, sorted),
    ensures
        busier_count(all, pid, cpu_usage) == busier_count(sorted, pid, cpu_usage),
    decreases all.len(),
{
    broadcast use vstd::seq_lib::to_multiset_contains;

    vstd::seq_lib::to_multiset_len(all);
    vstd::seq_lib::to_multiset_len(sorted);
    if all.len() > 0 {
        let last = all.last();
        assert(all.contains(last));
        assert(sorted.to_multiset().count(last) > 0);
        assert(sorted.contains(last));
        let at = choose|at: int| 0 <= at < sorted.len() && sorted[at] == last;
        vstd::seq_lib::to_multiset_remove(sorted, at);
        vstd::seq_lib::to_multiset_remove(all, all.len() - 1);
        assert(all.remove(all.len() - 1) =~= all.drop_last());
        lemma_busier_count_same_samples(all.drop_last(), sorted.remove(at), pid, cpu_usage);
        lemma_busier_count_remove(sorted, at, pid, cpu_usage);
    }
}

/// A list whose first `count` samples all count has a count of at least
/// `count`.
pub proof fn lemma_busier_count_of_prefix(
    samples: Seq<ProcessSample>,
    count: int,
    pid: u32,
    cpu_usage: u32,
)
    requires
        0 <= count <= samples.len(),
        forall|k: int| 0 <= k < count ==> is_busier(#[trigger] samples[k], pid, cpu_usage),
    ensures
        busier_count(samples, pid, cpu_usage) >= count,
    decreases samples.len(),
{
    if samples.len() > 0 {
        let shorter = samples.drop_last();
        if count == samples.len() {
            assert(is_busier(samples[count - 1], pid, cpu_usage));
            assert forall|k: int| 0 <= k < count - 1 implies is_busier(
                #[trigger] shorter[k],
                pid,
                cpu_usage,
            ) by {
                assert(shorter[k] == samples[k]);
            }
            lemma_busier_count_of_prefix(shorter, count - 1, pid, cpu_usage);
        } else {
            assert forall|k: int| 0 <= k < count implies is_busier(
                #[trigger] shorter[k],
                pid,
                cpu_usage,
            ) by {
                assert(shorter[k] == samples[k]);
            }
            lemma_busier_count_of_prefix(shorter, count, pid, cpu_usage);
        }
    }
}

/// With pairwise distinct pids, one focused sample, at least `limit`
/// samples, and fewer than `limit` samples of other processes that use as
/// much CPU as the focused one or more, the focused sample is among the
/// first `limit` however ties fall: the ranking has exactly `limit` samples,
/// the focused one is among them once, and no other of them is focused.
pub proof fn law_focused_among_busiest(
    all: Seq<ProcessSample>,
    limit: nat,
    ranked: Seq<ProcessSample>,
    at: int,
)
    requires
        is_snapshot_ranking(all, limit, ranked),
        distinct_pids(all),
        0 <= at < all.len(),
        all[at].is_focused,
        forall|i: int| 0 <= i < all.len() && i != at ==> !(#[trigger] all[i]).is_focused,
        limit <= all.len(),
        busier_count(all, all[at].pid, all[at].cpu_usage) < limit,
    ensures
        ranked.len() == limit,
        exists|k: int|
            0 <= k < ranked.len() && #[trigger] ranked[k] == all[at] && forall|j: int|
                0 <= j < ranked.len() && j != k ==> !(#[trigger] ranked[j]).is_focused,
{
    broadcast use vstd::seq_lib::to_multiset_contains;

    let sorted = choose|sorted: Seq<ProcessSample>|
        same_samples(all, sorted) && by_cpu_descending(sorted) && ranked == keep_focused(
            sorted,
            limit,
        );
    let pid = all[at].pid;
    let cpu_usage = all[at].cpu_usage;
    assert(has_focused(all));
    lemma_same_samples_same_focus(all, sorted);
    lemma_has_focused(sorted);
    lemma_focused_position_is_first(sorted);
    let first = focused_position(sorted) as int;

    // Every sample of the ordered list is a sample of the list as it came.
    assert forall|k: int| 0 <= k < sorted.len() implies exists|x: int|
        0 <= x < all.len() && all[x] == #[trigger] sorted[k] by {
        assert(sorted.contains(sorted[k]));
        assert(all.to_multiset().count(sorted[k]) > 0);
        assert(all.contains(sorted[k]));
    }
    // The first focused sample is the focused sample.
    let x = choose|x: int| 0 <= x < all.len() && all[x] == sorted[first];
    assert(all[x].is_focused);
    assert(x == at);
    assert(sorted[first] == all[at]);

    // The samples before it belong to other processes and are as busy.
    assert forall|k: int| 0 <= k < first implies is_busier(
        #[trigger] sorted[k],
        pid,
        cpu_usage,
    ) by {
        let y = choose|y: int| 0 <= y < all.len() && all[y] == sorted[k];
        assert(!all[y].is_focused);
        assert(y != at);
        assert(all[y].pid != all[at].pid);
    }
    lemma_busier_count_of_prefix(sorted, first, pid, cpu_usage);
    lemma_busier_count_same_samples(all, sorted, pid, cpu_usage);
    assert(first < limit);
    law_focused_inside_limit(sorted, limit);
    assert(ranked[first] == sorted[first]);

    // No sample stands in the list twice.
    assert(all.no_duplicates()) by {
        assert forall|i: int, j: int|
            0 <= i < all.len() && 0 <= j < all.len() && i != j implies all[i] != all[j] by {
            assert(all[i].pid != all[j].pid);
        }
    }
    all.lemma_multiset_has_no_duplicates();
    sorted.lemma_multiset_has_no_duplicates_conv();
    assert forall|j: int| 0 <= j < ranked.len() && j != first implies !(
    #[trigger] ranked[j]).is_focused by {
        assert(ranked[j] == sorted[j]);
        if sorted[j].is_focused {
            let y = choose|y: int| 0 <= y < all.len() && all[y] == sorted[j];
            assert(y == at);
            assert(sorted[j] == sorted[first]);
        }
    }
}

/// In the samples made from readings with pairwise distinct pids, the
/// reading with the focused pid gives the one focused sample.
pub proof fn lemma_one_focused_sample(
    readings: Seq<ProcessReading>,
    focused_pid: u32,
    titles: Map<u32, String>,
    at: int,
)
    requires
        0 <= at < readings.len(),
        readings[at].pid == focused_pid,
        forall|i: int, j: int|
            0 <= i < readings.len() && 0 <= j < readings.len() && i != j ==> (
            #[trigger] readings[i]).pid != (#[trigger] readings[j]).pid,
    ensures
        ({
            let all = samples_of(readings, Some(focused_pid), titles);
            &&& distinct_pids(all)
            &&& all[at].is_focused
            &&& forall|i: int| 0 <= i < all.len() && i != at ==> !(#[trigger] all[i]).is_focused
        }),
{
    let all = samples_of(readings, Some(focused_pid), titles);
    assert forall|i: int, j: int|
        0 <= i < all.len() && 0 <= j < all.len() && i != j implies (#[trigger] all[i]).pid != (
    #[trigger] all[j]).pid by {
        assert(readings[i].pid != readings[j].pid);
    }
    assert forall|i: int| 0 <= i < all.len() && i != at implies !(#[trigger] all[i]).is_focused by {
        assert(readings[i].pid != readings[at].pid);
    }
}

} // verus!
