//! What holds of every lookup, whatever the system answers.
use vstd::prelude::*;
use crate::lookup::model::{Host, LookupModel, Target};
use crate::lookup::{Request, MAX_TURNS};
use crate::name::{
    decoded,
    lemma_name_is_never_truncated,
    lemma_reads_of_first_query,
    reads_left,
    resolved,
    NameQuery,
    NameStepModel,
    INITIAL_NAME_CAPACITY,
    MAX_NAME_CAPACITY,
};
use crate::process::{CloseRequest, OpenRequest, QUERY_ACCESS};

verus! {

/// Every answer brings a lookup nearer to its end, and none changes the
/// identifier that is looked up.
pub proof fn lemma_step_makes_progress(state: LookupModel, host: Host)
    requires
        state !is Done,
    ensures
        state.step(host).turns_left() < state.turns_left(),
        state.step(host).pid() == state.pid(),
{
}

/// A lookup is over once it has had as many answers as it had turns left,
/// whatever the answers were.
pub proof fn lemma_run_finishes(state: LookupModel, hosts: Seq<Host>)
    requires
        hosts.len() >= state.turns_left(),
    ensures
        state.run(hosts) matches LookupModel::Done { outcome } && outcome.pid() == state.pid(),
    decreases hosts.len(),
{
    if hosts.len() > 0 {
        if state !is Done {
            lemma_step_makes_progress(state, hosts[0]);
        }
        lemma_run_finishes(state.step(hosts[0]), hosts.drop_first());
    }
}

/// A lookup puts at most as many requests as it has turns left, and at
/// most one for each answer.
pub proof fn lemma_requests_are_bounded(state: LookupModel, hosts: Seq<Host>)
    ensures
        state.requests(hosts).len() <= state.turns_left(),
        state.requests(hosts).len() <= hosts.len(),
    decreases hosts.len(),
{
    if hosts.len() > 0 && state !is Done {
        lemma_step_makes_progress(state, hosts[0]);
        lemma_requests_are_bounded(state.step(hosts[0]), hosts.drop_first());
    }
}

/// Looking an identifier up never fails to give an outcome: whatever the
/// system answers, after at most thirteen requests the lookup is over with
/// exactly one outcome for that identifier, which is a failure to open
/// exactly when the system returned no handle.
pub proof fn lemma_lookup_finishes(pid: u32, hosts: Seq<Host>)
    requires
        hosts.len() >= MAX_TURNS,
    ensures
        LookupModel::start(pid).run(hosts) matches LookupModel::Done { outcome } && outcome.pid()
            == pid && (outcome is OpenFailed <==> hosts[0].open.handle == 0),
        LookupModel::start(pid).requests(hosts).len() <= MAX_TURNS,
{
    lemma_reads_of_first_query();
    let start = LookupModel::start(pid);
    lemma_run_finishes(start, hosts);
    lemma_requests_are_bounded(start, hosts);
    let next = start.step(hosts[0]);
    let rest = hosts.drop_first();
    if hosts[0].open.handle == 0 {
        lemma_done_stays(next, rest);
    } else {
        lemma_held_until_released(next, rest);
        lemma_run_finishes(next, rest);
    }
}

/// A lookup that is over stays as it is and asks for nothing.
proof fn lemma_done_stays(state: LookupModel, hosts: Seq<Host>)
    requires
        state is Done,
    ensures
        state.run(hosts) == state,
        state.requests(hosts) == Seq::<Request>::empty(),
    decreases hosts.len(),
{
    if hosts.len() > 0 {
        lemma_done_stays(state, hosts.drop_first());
    }
}

/// From a state that owns a handle: every request passes that handle, a
/// release is the last request, the lookup is over exactly when the release
/// has been asked for, and it then reports no failure to open.
proof fn lemma_held_until_released(state: LookupModel, hosts: Seq<Host>)
    requires
        state.held() is Some,
    ensures
        forall|i: int|
            0 <= i < state.requests(hosts).len() ==> (#[trigger] state.requests(hosts)[i]).handle()
                == state.held(),
        forall|i: int|
            0 <= i < state.requests(hosts).len() && #[trigger] state.requests(hosts)[i] is Close
                ==> i == state.requests(hosts).len() - 1,
        state.run(hosts) is Done <==> state.requests(hosts).len() > 0 && state.requests(
            hosts,
        ).last() is Close,
        state.run(hosts) is Done ==> !(state.run(hosts)->outcome is OpenFailed),
        state.run(hosts) !is Done ==> state.run(hosts).held() == state.held(),
    decreases hosts.len(),
{
    if hosts.len() > 0 {
        let next = state.step(hosts[0]);
        let rest = hosts.drop_first();
        let tail = next.requests(rest);
        assert(state.requests(hosts) =~= seq![state.request()->Some_0] + tail);
        if state is Closing {
            lemma_done_stays(next, rest);
        } else {
            lemma_held_until_released(next, rest);
            assert forall|i: int|
                0 <= i < state.requests(hosts).len() && #[trigger] state.requests(
                    hosts,
                )[i] is Close implies i == state.requests(hosts).len() - 1 by {
                if i > 0 {
                    assert(state.requests(hosts)[i] == tail[i - 1]);
                }
            }
            assert forall|i: int| 0 <= i < state.requests(hosts).len() implies (
            #[trigger] state.requests(hosts)[i]).handle() == state.held() by {
                if i > 0 {
                    assert(state.requests(hosts)[i] == tail[i - 1]);
                }
            }
        }
    }
}

/// The handle of an opened process is released exactly once, and nothing is
/// done with it afterwards.
///
/// Of the requests that a lookup puts, whatever the system answers: the
/// first asks to open the process, for reading only. If the system returns
/// no handle, nothing more is asked. If it returns one, every later request
/// passes that handle and no other; a release is asked for at most once,
/// and it is the last request; and a lookup that is over has asked for it.
pub proof fn lemma_released_exactly_once(pid: u32, hosts: Seq<Host>)
    requires
        hosts.len() > 0,
    ensures
        ({
            let requests = LookupModel::start(pid).requests(hosts);
            let handle = hosts[0].open.handle;
            &&& requests.len() >= 1
            &&& requests[0] == Request::Open(
                OpenRequest { pid, access: QUERY_ACCESS, inherit: false },
            )
            &&& handle == 0 ==> requests.len() == 1
            &&& forall|i: int|
                1 <= i < requests.len() ==> (#[trigger] requests[i]).handle() == Some(handle)
            &&& forall|i: int|
                0 <= i < requests.len() && #[trigger] requests[i] is Close ==> i == requests.len()
                    - 1
            &&& handle != 0 && LookupModel::start(pid).run(hosts) is Done ==> requests.last()
                == Request::Close(CloseRequest { handle })
        }),
{
    let start = LookupModel::start(pid);
    let next = start.step(hosts[0]);
    let rest = hosts.drop_first();
    let tail = next.requests(rest);
    let requests = start.requests(hosts);
    assert(requests =~= seq![start.request()->Some_0] + tail);
    if hosts[0].open.handle == 0 {
        lemma_done_stays(next, rest);
    } else {
        lemma_held_until_released(next, rest);
        assert forall|i: int| 1 <= i < requests.len() implies (#[trigger] requests[i]).handle()
            == Some(hosts[0].open.handle) by {
            assert(requests[i] == tail[i - 1]);
        }
        assert forall|i: int|
            0 <= i < requests.len() && #[trigger] requests[i] is Close implies i == requests.len()
                - 1 by {
            if i > 0 {
                assert(requests[i] == tail[i - 1]);
            }
        }
        if start.run(hosts) is Done {
            assert(requests.last() == tail.last());
        }
    }
}

/// Two lookups that hold different handles do not touch each other's: no
/// request of the one passes the handle of the other, so releasing the one
/// leaves the other as it was. This holds for two lookups of the same
/// identifier too.
pub proof fn lemma_lookups_are_independent(
    pid_a: u32,
    hosts_a: Seq<Host>,
    pid_b: u32,
    hosts_b: Seq<Host>,
)
    requires
        hosts_a.len() > 0,
        hosts_b.len() > 0,
        hosts_a[0].open.handle != hosts_b[0].open.handle,
    ensures
        ({
            let requests_a = LookupModel::start(pid_a).requests(hosts_a);
            let requests_b = LookupModel::start(pid_b).requests(hosts_b);
            forall|i: int, j: int|
                1 <= i < requests_a.len() && 1 <= j < requests_b.len() ==> (
                #[trigger] requests_a[i]).handle() != (#[trigger] requests_b[j]).handle()
        }),
{
    lemma_released_exactly_once(pid_a, hosts_a);
    lemma_released_exactly_once(pid_b, hosts_b);
}

/// From the first name query on, a lookup on a system that presents
/// `target` ends with what the resolution of the name gives.
proof fn lemma_reading_resolves(target: Target, pid: u32, query: NameQuery, turns: nat)
    requires
        turns > reads_left(query.capacity),
    ensures
        (LookupModel::Reading { pid, query }).run(
            target.answers(LookupModel::Reading { pid, query }, turns),
        ) == LookupModel::finished(pid, resolved(query, target.name, target.last_error)),
    decreases MAX_NAME_CAPACITY - query.capacity,
{
    let state = LookupModel::Reading { pid, query };
    let host = target.answer(state);
    let next = state.step(host);
    let hosts = target.answers(state, turns);
    let rest = target.answers(next, (turns - 1) as nat);
    assert(hosts[0] == host && hosts.drop_first() =~= rest);
    assert(state.run(hosts) == next.run(rest));
    match query.spec_advance(host.name) {
        NameStepModel::Retry(retry) => {
            lemma_reading_resolves(target, pid, retry, (turns - 1) as nat);
        },
        NameStepModel::Done(result) => {
            let last = next.step(target.answer(next));
            let after = target.answers(last, (turns - 2) as nat);
            assert(rest[0] == target.answer(next) && rest.drop_first() =~= after);
            assert(next.run(rest) == last.run(after));
            lemma_done_stays(last, after);
        },
    }
}

/// A lookup reports the name of the process that it was made for.
///
/// On a system that lets the process be opened and queried, the lookup of
/// `pid` ends, within the greatest number of requests, with the outcome of
/// resolving the name of the process from all of its bytes: the decoded
/// name where the bytes are text, and a failure to decode where they are
/// not. The outcome never holds a truncated name.
pub proof fn lemma_lookup_names_the_process(pid: u32, target: Target)
    requires
        target.handle != 0,
        0 < target.name.len() < MAX_NAME_CAPACITY,
    ensures
        LookupModel::start(pid).run(target.answers(LookupModel::start(pid), MAX_TURNS as nat))
            == LookupModel::finished(pid, decoded(target.name)),
{
    lemma_reads_of_first_query();
    let start = LookupModel::start(pid);
    let finding = start.step(target.answer(start));
    let reading = finding.step(target.answer(finding));
    let query = NameQuery {
        handle: target.handle,
        module: target.module,
        capacity: INITIAL_NAME_CAPACITY,
    };
    assert(reading == LookupModel::Reading { pid, query });
    let hosts = target.answers(start, MAX_TURNS as nat);
    let after_open = target.answers(finding, (MAX_TURNS - 1) as nat);
    let after_modules = target.answers(reading, (MAX_TURNS - 2) as nat);
    assert(hosts[0] == target.answer(start) && hosts.drop_first() =~= after_open);
    assert(after_open[0] == target.answer(finding) && after_open.drop_first() =~= after_modules);
    assert(start.run(hosts) == finding.run(after_open));
    assert(finding.run(after_open) == reading.run(after_modules));
    lemma_reading_resolves(target, pid, query, (MAX_TURNS - 2) as nat);
    lemma_name_is_never_truncated(query, target.name, target.last_error);
}

} // verus!
