//! The process list as the guard sees it, and the rules it applies to it:
//! which processes belong to an application of the kill list, which
//! application is the target, and which process names use the most memory.

use vstd::prelude::*;
use sysinfo::{Pid, System};
use crate::config::KillableApp;
use crate::text::{chars_of, contains_chars, is_substring, spec_lowercase, to_lowercase};

verus! {

/// sysinfo's `System` (a snapshot of the machine's memory and processes),
/// carried through opaque.
#[verifier::external_type_specification]
#[verifier::external_body]
pub struct ExSystem(System);

/// sysinfo's `Pid` (a process id), carried through opaque.
#[verifier::external_type_specification]
#[verifier::external_body]
pub struct ExPid(Pid);

/// One entry of a process list.
#[derive(Debug)]
pub struct ProcessInfo {
    /// The process id.
    pub pid: Pid,
    /// The process name.
    pub name: String,
    /// Resident memory of the process, in bytes.
    pub memory: u64,
    /// Whether the entry is a thread rather than a process (threads share
    /// their parent's memory).
    pub is_thread: bool,
}

/// The entries of a `System`'s process table, in the order in which the
/// table hands them out.
///
/// Trusted: calls `sysinfo::System::processes` and converts each `Process`
/// to a `ProcessInfo` through its `pid`, `name`, `memory` and `thread_kind`
/// getters. The table is a `HashMap` keyed by `Pid`, and each entry's pid is
/// its key, so no pid occurs twice; that is all that is stated. What the
/// entries are is what the last refresh read from the machine, in the order
/// of a `HashMap` walk.
#[verifier::external_body]
pub(crate) fn process_snapshot(sys: &System) -> (r: Vec<ProcessInfo>)
    ensures
        distinct_pids(r@),
{
    sys.processes()
        .iter()
        .map(|(pid, p)| ProcessInfo {
            pid: *pid,
            name: p.name().to_string_lossy().into_owned(),
            memory: p.memory(),
            is_thread: p.thread_kind().is_some(),
        })
        .collect()
}

/// No two entries of `procs` have the same pid.
pub open spec fn distinct_pids(procs: Seq<ProcessInfo>) -> bool {
    forall|i: int, j: int| 0 <= i < j < procs.len() ==> #[trigger] procs[i].pid != #[trigger] procs[j].pid
}

/// No pid occurs twice in `pids`.
pub open spec fn no_repeats(pids: Seq<Pid>) -> bool {
    forall|i: int, j: int| 0 <= i < j < pids.len() ==> #[trigger] pids[i] != #[trigger] pids[j]
}

/// A process name matches an application name when the lower-cased
/// application name occurs in the lower-cased process name.
pub open spec fn name_matches(app_name: Seq<char>, process_name: Seq<char>) -> bool {
    is_substring(spec_lowercase(app_name), spec_lowercase(process_name))
}

/// The ids of the processes in `procs` whose name matches `app_name`, in
/// list order.
pub open spec fn matching_pids(procs: Seq<ProcessInfo>, app_name: Seq<char>) -> Seq<Pid>
    decreases procs.len(),
{
    if procs.len() == 0 {
        Seq::empty()
    } else {
        let rest = matching_pids(procs.drop_last(), app_name);
        if name_matches(app_name, procs.last().name@) {
            rest.push(procs.last().pid)
        } else {
            rest
        }
    }
}

/// Some process in `procs` matches `app_name`.
pub open spec fn is_running(procs: Seq<ProcessInfo>, app_name: Seq<char>) -> bool {
    exists|i: int| 0 <= i < procs.len() && name_matches(app_name, #[trigger] procs[i].name@)
}

/// `app` can be targeted: it is enabled and one of its processes runs.
pub open spec fn is_candidate(app: KillableApp, procs: Seq<ProcessInfo>) -> bool {
    app.enabled && is_running(procs, app.name@)
}

/// Some process matches `app_name` exactly when the matching ids are not
/// empty.
pub proof fn lemma_matching_nonempty(procs: Seq<ProcessInfo>, app_name: Seq<char>)
    ensures
        matching_pids(procs, app_name).len() > 0 <==> is_running(procs, app_name),
    decreases procs.len(),
{
    if procs.len() > 0 {
        let init = procs.drop_last();
        lemma_matching_nonempty(init, app_name);
        if is_running(init, app_name) {
            let i = choose|i: int| 0 <= i < init.len() && name_matches(app_name, #[trigger] init[i].name@);
            assert(procs[i] == init[i]);
        }
        if is_running(procs, app_name) && !name_matches(app_name, procs.last().name@) {
            let i = choose|i: int| 0 <= i < procs.len() && name_matches(app_name, #[trigger] procs[i].name@);
            assert(i < procs.len() - 1);
            assert(init[i] == procs[i]);
        }
        if name_matches(app_name, procs.last().name@) {
            assert(name_matches(app_name, procs[procs.len() - 1].name@));
        }
    }
}

/// Every id that `matching_pids` gives is the id of an entry of `procs`.
proof fn lemma_matching_from(procs: Seq<ProcessInfo>, app_name: Seq<char>, k: int)
    requires
        0 <= k < matching_pids(procs, app_name).len(),
    ensures
        exists|j: int| 0 <= j < procs.len() && #[trigger] procs[j].pid == matching_pids(procs, app_name)[k],
    decreases procs.len(),
{
    let init = procs.drop_last();
    let rest = matching_pids(init, app_name);
    if k < rest.len() {
        lemma_matching_from(init, app_name, k);
        let j = choose|j: int| 0 <= j < init.len() && #[trigger] init[j].pid == rest[k];
        assert(procs[j] == init[j]);
    } else {
        assert(procs[procs.len() - 1].pid == matching_pids(procs, app_name)[k]);
    }
}

/// When the entries have distinct pids, so do the ids that match a name.
pub proof fn lemma_matching_no_repeats(procs: Seq<ProcessInfo>, app_name: Seq<char>)
    requires
        distinct_pids(procs),
    ensures
        no_repeats(matching_pids(procs, app_name)),
    decreases procs.len(),
{
    if procs.len() > 0 {
        let init = procs.drop_last();
        assert(distinct_pids(init)) by {
            assert forall|i: int, j: int| 0 <= i < j < init.len() implies #[trigger] init[i].pid
                != #[trigger] init[j].pid by {
                assert(init[i] == procs[i] && init[j] == procs[j]);
            }
        }
        lemma_matching_no_repeats(init, app_name);
        let rest = matching_pids(init, app_name);
        let m = matching_pids(procs, app_name);
        if name_matches(app_name, procs.last().name@) {
            assert forall|i: int, j: int| 0 <= i < j < m.len() implies #[trigger] m[i] != #[trigger] m[j] by {
                if j == m.len() - 1 {
                    lemma_matching_from(init, app_name, i);
                    let k = choose|k: int| 0 <= k < init.len() && #[trigger] init[k].pid == rest[i];
                    assert(procs[k] == init[k]);
                    assert(procs[k].pid != procs[procs.len() - 1].pid);
                } else {
                    assert(m[i] == rest[i] && m[j] == rest[j]);
                }
            }
        }
    }
}

/// The ids of the processes in `procs` whose name matches `app_name`
/// (case-insensitive substring match), in list order.
pub fn pids_matching(procs: &Vec<ProcessInfo>, app_name: &str) -> (r: Vec<Pid>)
    ensures
        r@ == matching_pids(procs@, app_name@),
{
    let lower = to_lowercase(app_name);
    let needle = chars_of(lower.as_str());
    let mut out: Vec<Pid> = Vec::new();
    let n = procs.len();
    let mut i: usize = 0;
    while i < n
        invariant
            n == procs@.len(),
            i <= n,
            needle@ == spec_lowercase(app_name@),
            out@ == matching_pids(procs@.take(i as int), app_name@),
        decreases n - i,
    {
        let p = &procs[i];
        let hay_s = to_lowercase(p.name.as_str());
        let hay = chars_of(hay_s.as_str());
        let hit = contains_chars(&hay, &needle);
        assert(procs@.take(i + 1).drop_last() =~= procs@.take(i as int));
        if hit {
            out.push(p.pid);
        }
        i = i + 1;
    }
    assert(procs@.take(n as int) =~= procs@);
    out
}

/// The target among `apps` given the process list `procs`: the first enabled
/// application, in priority order, with a running process, together with the
/// ids of all its processes and its position; `None` when no enabled
/// application runs.
pub fn select_target(procs: &Vec<ProcessInfo>, apps: &[KillableApp]) -> (r: Option<(Vec<Pid>, usize)>)
    ensures
        match r {
            Some((pids, i)) => {
                &&& i < apps@.len()
                &&& is_candidate(apps@[i as int], procs@)
                &&& forall|j: int| 0 <= j < i ==> !is_candidate(#[trigger] apps@[j], procs@)
                &&& pids@ == matching_pids(procs@, apps@[i as int].name@)
            },
            None => forall|j: int| 0 <= j < apps@.len() ==> !is_candidate(#[trigger] apps@[j], procs@),
        },
{
    let n = apps.len();
    let mut i: usize = 0;
    while i < n
        invariant
            n == apps@.len(),
            i <= n,
            forall|j: int| 0 <= j < i ==> !is_candidate(#[trigger] apps@[j], procs@),
        decreases n - i,
    {
        let app = &apps[i];
        if app.enabled {
            let pids = pids_matching(procs, app.name.as_str());
            proof {
                lemma_matching_nonempty(procs@, app.name@);
            }
            if pids.len() > 0 {
                return Some((pids, i));
            }
        }
        i = i + 1;
    }
    None
}


/// The memory of the entry, when it counts towards its name's total
/// (threads do not count: they share their parent's memory).
pub open spec fn counted_memory(p: ProcessInfo) -> nat {
    if p.is_thread {
        0
    } else {
        p.memory as nat
    }
}

/// The memory of all entries of `procs` named `name`, threads left out.
pub open spec fn name_total(procs: Seq<ProcessInfo>, name: Seq<char>) -> nat
    decreases procs.len(),
{
    if procs.len() == 0 {
        0
    } else {
        name_total(procs.drop_last(), name) + (if procs.last().name@ == name {
            counted_memory(procs.last())
        } else {
            0
        })
    }
}

/// The memory of all entries of `procs`, threads left out.
pub open spec fn memory_sum(procs: Seq<ProcessInfo>) -> nat
    decreases procs.len(),
{
    if procs.len() == 0 {
        0
    } else {
        memory_sum(procs.drop_last()) + counted_memory(procs.last())
    }
}

/// Some process (not a thread) in `procs` is named `name`.
pub open spec fn has_process_named(procs: Seq<ProcessInfo>, name: Seq<char>) -> bool {
    exists|i: int| 0 <= i < procs.len() && !procs[i].is_thread && #[trigger] procs[i].name@ == name
}

/// `name` is the name of one of the entries of `top`.
pub open spec fn listed(top: Seq<(String, u64)>, name: Seq<char>) -> bool {
    exists|t: int| 0 <= t < top.len() && #[trigger] top[t].0@ == name
}

/// `top` is a ranking of the process names of `procs` by their memory: at
/// most `n` entries, each a name of a process (not a thread) with the total
/// memory of the processes of that name, no name twice, largest first, and
/// every name left out uses no more memory than the last one listed (and is
/// left out only because `n` entries are listed already).
pub open spec fn is_ranking(top: Seq<(String, u64)>, procs: Seq<ProcessInfo>, n: nat) -> bool {
    &&& top.len() <= n
    &&& forall|t: int|
        0 <= t < top.len() ==> {
            &&& has_process_named(procs, #[trigger] top[t].0@)
            &&& top[t].1 == name_total(procs, top[t].0@)
        }
    &&& forall|t: int, u: int| 0 <= t < u < top.len() ==> #[trigger] top[t].0@ != #[trigger] top[u].0@
    &&& forall|t: int, u: int| 0 <= t < u < top.len() ==> #[trigger] top[t].1 >= #[trigger] top[u].1
    &&& forall|name: Seq<char>|
        #[trigger] has_process_named(procs, name) && !listed(top, name) ==> {
            &&& top.len() == n
            &&& n > 0 ==> name_total(procs, name) <= top[n - 1].1
        }
}

proof fn lemma_name_total_le_sum(procs: Seq<ProcessInfo>, name: Seq<char>)
    ensures
        name_total(procs, name) <= memory_sum(procs),
    decreases procs.len(),
{
    if procs.len() > 0 {
        lemma_name_total_le_sum(procs.drop_last(), name);
    }
}

proof fn lemma_sum_prefix(procs: Seq<ProcessInfo>, i: int)
    requires
        0 <= i <= procs.len(),
    ensures
        memory_sum(procs.take(i)) <= memory_sum(procs),
    decreases procs.len() - i,
{
    if i < procs.len() {
        lemma_sum_prefix(procs, i + 1);
        assert(procs.take(i + 1).drop_last() =~= procs.take(i));
    } else {
        assert(procs.take(i) =~= procs);
    }
}

proof fn lemma_has_named_step(procs: Seq<ProcessInfo>, i: int, name: Seq<char>)
    requires
        0 <= i < procs.len(),
    ensures
        has_process_named(procs.take(i + 1), name) <==> (has_process_named(procs.take(i), name)
            || (!procs[i].is_thread && procs[i].name@ == name)),
{
    let a = procs.take(i);
    let b = procs.take(i + 1);
    if has_process_named(b, name) {
        let k = choose|k: int| 0 <= k < b.len() && !b[k].is_thread && #[trigger] b[k].name@ == name;
        if k < i {
            assert(a[k] == b[k]);
        }
    }
    if has_process_named(a, name) {
        let k = choose|k: int| 0 <= k < a.len() && !a[k].is_thread && #[trigger] a[k].name@ == name;
        assert(a[k] == b[k]);
    }
    if !procs[i].is_thread && procs[i].name@ == name {
        assert(b[i] == procs[i]);
    }
}

/// The total memory of the entries of `procs` (threads left out), or `None`
/// when it does not fit in a `u64`.
pub fn memory_total(procs: &Vec<ProcessInfo>) -> (r: Option<u64>)
    ensures
        match r {
            Some(t) => t == memory_sum(procs@),
            None => memory_sum(procs@) > u64::MAX,
        },
{
    let n = procs.len();
    let mut total: u64 = 0;
    let mut i: usize = 0;
    while i < n
        invariant
            n == procs@.len(),
            i <= n,
            total == memory_sum(procs@.take(i as int)),
        decreases n - i,
    {
        assert(procs@.take(i + 1).drop_last() =~= procs@.take(i as int));
        if !procs[i].is_thread {
            match total.checked_add(procs[i].memory) {
                Some(t) => {
                    total = t;
                },
                None => {
                    proof {
                        lemma_sum_prefix(procs@, i + 1);
                    }
                    return None;
                },
            }
        }
        i = i + 1;
    }
    assert(procs@.take(n as int) =~= procs@);
    Some(total)
}

/// The process names of `procs` that use the most memory, with the memory
/// each uses (summed over all processes of that name; threads, which share
/// their parent's memory, are left out), largest first, at most `n` of them.
/// Names that tie may come in either order.
pub fn rank_processes(procs: &Vec<ProcessInfo>, n: usize) -> (top: Vec<(String, u64)>)
    requires
        memory_sum(procs@) <= u64::MAX,
    ensures
        is_ranking(top@, procs@, n as nat),
{
    let len = procs.len();
    let mut names: Vec<String> = Vec::new();
    let mut totals: Vec<u64> = Vec::new();
    let mut i: usize = 0;
    while i < len
        invariant
            len == procs@.len(),
            i <= len,
            memory_sum(procs@) <= u64::MAX,
            names@.len() == totals@.len(),
            forall|k: int|
                0 <= k < names@.len() ==> {
                    &&& has_process_named(procs@.take(i as int), #[trigger] names@[k]@)
                    &&& totals@[k] == name_total(procs@.take(i as int), names@[k]@)
                },
            forall|k: int, l: int| 0 <= k < l < names@.len() ==> #[trigger] names@[k]@ != #[trigger] names@[l]@,
            forall|name: Seq<char>|
                #[trigger] has_process_named(procs@.take(i as int), name) ==> exists|k: int|
                    0 <= k < names@.len() && #[trigger] names@[k]@ == name,
        decreases len - i,
    {
        let p = &procs[i];
        let ghost before = procs@.take(i as int);
        let ghost after = procs@.take(i + 1);
        proof {
            assert(after.drop_last() =~= before);
            assert forall|name: Seq<char>|
                has_process_named(after, name) <==> (has_process_named(before, name)
                    || (!p.is_thread && p.name@ == name)) by {
                lemma_has_named_step(procs@, i as int, name);
            }
            assert forall|name: Seq<char>| name != p.name@ implies name_total(after, name)
                == name_total(before, name) by {}
            lemma_name_total_le_sum(after, p.name@);
            lemma_sum_prefix(procs@, i + 1);
        }
        if !p.is_thread {
            let m = names.len();
            let found = find_name(&names, &p.name);
            if let Some(j) = found {
                let t = totals[j] + p.memory;
                totals.set(j, t);
                assert forall|k: int| 0 <= k < names@.len() implies {
                    &&& has_process_named(after, #[trigger] names@[k]@)
                    &&& totals@[k] == name_total(after, names@[k]@)
                } by {
                    if k != j {
                        assert(names@[k]@ != names@[j as int]@);
                    }
                }
            } else {
                let ghost old_names = names@;
                names.push(p.name.clone());
                totals.push(p.memory);
                assert forall|k: int| 0 <= k < names@.len() implies {
                    &&& has_process_named(after, #[trigger] names@[k]@)
                    &&& totals@[k] == name_total(after, names@[k]@)
                } by {
                    if k < m {
                        assert(names@[k] == old_names[k]);
                        assert(names@[k]@ != p.name@);
                    } else {
                        assert(!has_process_named(before, p.name@));
                        assert(name_total(before, p.name@) == 0) by {
                            lemma_no_name_zero_total(before, p.name@);
                        }
                    }
                }
                assert forall|name: Seq<char>| #[trigger]
                    has_process_named(after, name) implies exists|k: int|
                    0 <= k < names@.len() && #[trigger] names@[k]@ == name by {
                    if has_process_named(before, name) {
                        let k = choose|k: int| 0 <= k < old_names.len() && #[trigger] old_names[k]@ == name;
                        assert(names@[k] == old_names[k]);
                    } else {
                        assert(names@[m as int]@ == name);
                    }
                }
            }
        } else {
            assert forall|k: int| 0 <= k < names@.len() implies {
                &&& has_process_named(after, #[trigger] names@[k]@)
                &&& totals@[k] == name_total(after, names@[k]@)
            } by {}
        }
        i = i + 1;
    }
    assert(procs@.take(len as int) =~= procs@);
    select_top(&names, &totals, n, Ghost(procs@))
}

proof fn lemma_no_name_zero_total(procs: Seq<ProcessInfo>, name: Seq<char>)
    requires
        !has_process_named(procs, name),
    ensures
        name_total(procs, name) == 0,
    decreases procs.len(),
{
    if procs.len() > 0 {
        let init = procs.drop_last();
        assert(!has_process_named(init, name)) by {
            if has_process_named(init, name) {
                let k = choose|k: int| 0 <= k < init.len() && !init[k].is_thread && #[trigger] init[k].name@ == name;
                assert(procs[k] == init[k]);
            }
        }
        lemma_no_name_zero_total(init, name);
        if procs.last().name@ == name && !procs.last().is_thread {
            assert(procs[procs.len() - 1].name@ == name);
        }
    }
}

/// The position of `name` in `names`, if it is there.
fn find_name(names: &Vec<String>, name: &String) -> (r: Option<usize>)
    ensures
        match r {
            Some(j) => j < names@.len() && names@[j as int]@ == name@,
            None => forall|k: int| 0 <= k < names@.len() ==> names@[k]@ != name@,
        },
{
    let m = names.len();
    let mut j: usize = 0;
    while j < m
        invariant
            m == names@.len(),
            j <= m,
            forall|k: int| 0 <= k < j ==> names@[k]@ != name@,
        decreases m - j,
    {
        if names[j] == *name {
            return Some(j);
        }
        j = j + 1;
    }
    None
}

/// The first position not yet picked whose total is the largest among those
/// not picked; `None` when every position is picked.
fn find_best(picked: &Vec<bool>, totals: &Vec<u64>) -> (r: Option<usize>)
    requires
        picked@.len() == totals@.len(),
    ensures
        match r {
            Some(b) => {
                &&& b < picked@.len()
                &&& !picked@[b as int]
                &&& forall|y: int| 0 <= y < picked@.len() && !#[trigger] picked@[y] ==> totals@[y] <= totals@[b as int]
            },
            None => forall|y: int| 0 <= y < picked@.len() ==> #[trigger] picked@[y],
        },
{
    let m = picked.len();
    let mut best: Option<usize> = None;
    for x in 0..m
        invariant
            m == picked@.len(),
            picked@.len() == totals@.len(),
            match best {
                Some(b) => {
                    &&& b < x
                    &&& !picked@[b as int]
                    &&& forall|y: int| 0 <= y < x && !#[trigger] picked@[y] ==> totals@[y] <= totals@[b as int]
                },
                None => forall|y: int| 0 <= y < x ==> #[trigger] picked@[y],
            },
    {
        if !picked[x] {
            match best {
                None => {
                    best = Some(x);
                },
                Some(b) => {
                    if totals[x] > totals[b] {
                        best = Some(x);
                    }
                },
            }
        }
    }
    best
}

/// Picks the `n` largest totals (first occurrence first among ties).
fn select_top(names: &Vec<String>, totals: &Vec<u64>, n: usize, Ghost(procs): Ghost<Seq<ProcessInfo>>) -> (top: Vec<(String, u64)>)
    requires
        names@.len() == totals@.len(),
        forall|k: int|
            0 <= k < names@.len() ==> {
                &&& has_process_named(procs, #[trigger] names@[k]@)
                &&& totals@[k] == name_total(procs, names@[k]@)
            },
        forall|k: int, l: int| 0 <= k < l < names@.len() ==> #[trigger] names@[k]@ != #[trigger] names@[l]@,
        forall|name: Seq<char>|
            #[trigger] has_process_named(procs, name) ==> exists|k: int|
                0 <= k < names@.len() && #[trigger] names@[k]@ == name,
    ensures
        is_ranking(top@, procs, n as nat),
{
    let m = names.len();
    let mut picked: Vec<bool> = Vec::new();
    let mut z: usize = 0;
    while z < m
        invariant
            z <= m,
            picked@.len() == z,
            forall|x: int| 0 <= x < z ==> !picked@[x],
        decreases m - z,
    {
        picked.push(false);
        z = z + 1;
    }
    let mut top: Vec<(String, u64)> = Vec::new();
    let ghost mut order: Seq<int> = Seq::empty();
    while top.len() < n
        invariant
            m == names@.len(),
            names@.len() == totals@.len(),
            picked@.len() == m,
            top@.len() <= n,
            order.len() == top@.len(),
            forall|t: int| 0 <= t < order.len() ==> 0 <= #[trigger] order[t] < m,
            forall|t: int, u: int| 0 <= t < u < order.len() ==> #[trigger] order[t] != #[trigger] order[u],
            forall|x: int| 0 <= x < m ==> (#[trigger] picked@[x] <==> order.contains(x)),
            forall|t: int|
                #![trigger top@[t]]
                0 <= t < top@.len() ==> {
                    &&& top@[t].0@ == names@[order[t]]@
                    &&& top@[t].1 == totals@[order[t]]
                },
            forall|t: int, u: int| 0 <= t < u < top@.len() ==> #[trigger] top@[t].1 >= #[trigger] top@[u].1,
            top@.len() > 0 ==> forall|x: int|
                0 <= x < m && !#[trigger] picked@[x] ==> totals@[x] <= top@[top@.len() - 1].1,
        ensures
            top@.len() == n || forall|x: int| 0 <= x < m ==> #[trigger] picked@[x],
        decreases n - top@.len(),
    {
        let best = find_best(&picked, totals);
        match best {
            None => {
                break;
            },
            Some(b) => {
                let ghost old_top = top@;
                let ghost old_order = order;
                let ghost old_picked = picked@;
                top.push((names[b].clone(), totals[b]));
                picked.set(b, true);
                proof {
                    order = order.push(b as int);
                    assert forall|x: int| 0 <= x < m implies (#[trigger] picked@[x] <==> order.contains(x)) by {
                        if x == b {
                            assert(order[order.len() - 1] == x);
                        } else {
                            assert(old_picked[x] == picked@[x]);
                            if old_order.contains(x) {
                                let t = choose|t: int| 0 <= t < old_order.len() && old_order[t] == x;
                                assert(order[t] == x);
                            }
                            if order.contains(x) {
                                let t = choose|t: int| 0 <= t < order.len() && order[t] == x;
                                assert(t < old_order.len());
                                assert(old_order[t] == x);
                            }
                        }
                    }
                    assert forall|t: int, u: int| 0 <= t < u < order.len() implies #[trigger] order[t]
                        != #[trigger] order[u] by {
                        if u == order.len() - 1 {
                            assert(old_order.contains(order[t]));
                            assert(old_picked[order[t]]);
                        }
                    }
                    assert forall|t: int|
                        #![trigger top@[t]]
                        0 <= t < top@.len() implies {
                            &&& top@[t].0@ == names@[order[t]]@
                            &&& top@[t].1 == totals@[order[t]]
                        } by {
                        if t < old_top.len() {
                            assert(top@[t] == old_top[t]);
                            assert(order[t] == old_order[t]);
                        }
                    }
                    assert forall|t: int, u: int| 0 <= t < u < top@.len() implies #[trigger] top@[t].1
                        >= #[trigger] top@[u].1 by {
                        if u == top@.len() - 1 {
                            if t < old_top.len() {
                                assert(top@[t] == old_top[t]);
                                assert(old_top[old_top.len() - 1].1 >= totals@[b as int]);
                            }
                        } else {
                            assert(top@[t] == old_top[t]);
                            assert(top@[u] == old_top[u]);
                        }
                    }
                }
            },
        }
    }
    proof {
        assert forall|t: int, u: int| 0 <= t < u < top@.len() implies #[trigger] top@[t].0@
            != #[trigger] top@[u].0@ by {
            assert(order[t] != order[u]);
        }
        assert forall|name: Seq<char>|
            #[trigger] has_process_named(procs, name) && !listed(top@, name) implies {
                &&& top@.len() == n
                &&& n > 0 ==> name_total(procs, name) <= top@[n - 1].1
            } by {
            let k = choose|k: int| 0 <= k < names@.len() && #[trigger] names@[k]@ == name;
            if picked@[k] {
                let t = choose|t: int| 0 <= t < order.len() && order[t] == k;
                assert(top@[t].0@ == name);
            }
        }
    }
    top
}

} // verus!
