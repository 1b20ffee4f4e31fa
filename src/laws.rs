//! Properties of the dispatcher over single lines and over whole runs of lines.
//!
//! A run is modelled by the two parts of the session that the dispatcher
//! reads: whether a client is there, and the request counter. The caller
//! installs a client exactly after a `start` action, so a client is there
//! after a run once any line of it started a program.
use vstd::prelude::*;
use crate::commands::request_method_of;
use crate::dispatch::{
    dispatched, line_kind, next_request_id, reply, sends_notification, sends_request,
    starts_program, Action, LineKind, Step,
};
use crate::response::{category_of, Category, Outcome};
use crate::session::Session;
use crate::text::debug_list;

verus! {

/// Whether a client is there and the counter after one line.
pub open spec fn after_line(has_client: bool, id: u64, t: Seq<Seq<char>>) -> (bool, u64) {
    (has_client || starts_program(t), next_request_id(has_client, id, t))
}

/// Whether a client is there and the counter after a run of lines.
pub open spec fn after_run(has_client: bool, id: u64, lines: Seq<Seq<Seq<char>>>) -> (bool, u64)
    decreases lines.len(),
{
    if lines.len() == 0 {
        (has_client, id)
    } else {
        let s = after_line(has_client, id, lines[0]);
        after_run(s.0, s.1, lines.drop_first())
    }
}

/// The ids given to the requests sent during a run, in order.
pub open spec fn issued_ids(has_client: bool, id: u64, lines: Seq<Seq<Seq<char>>>) -> Seq<u64>
    decreases lines.len(),
{
    if lines.len() == 0 {
        seq![]
    } else {
        let s = after_line(has_client, id, lines[0]);
        let rest = issued_ids(s.0, s.1, lines.drop_first());
        if sends_request(has_client, id, lines[0]) {
            seq![(id + 1) as u64] + rest
        } else {
            rest
        }
    }
}

/// One dispatched line moves the session as the model says: the counter
/// becomes the model's, and a client is there afterwards exactly when one was
/// there before or the line asks to start a program.
pub proof fn lemma_dispatch_follows_model<C>(
    before: Session<C>,
    after: Session<C>,
    t: Seq<Seq<char>>,
    r: Step,
)
    requires
        dispatched(before, after, t, r),
    ensures
        after_line(before.client is Some, before.request_id, t) == (
            after.client is Some || r.action is Start,
            after.request_id,
        ),
{
}

/// The requests sent during a run get the ids that follow the counter, one
/// after another with no gap, and the counter ends on the last of them.
pub proof fn lemma_ids_consecutive(has_client: bool, id: u64, lines: Seq<Seq<Seq<char>>>)
    ensures
        forall|i: int|
            0 <= i < issued_ids(has_client, id, lines).len() ==> #[trigger] issued_ids(
                has_client,
                id,
                lines,
            )[i] == id + 1 + i,
        after_run(has_client, id, lines).1 == id + issued_ids(has_client, id, lines).len(),
    decreases lines.len(),
{
    if lines.len() > 0 {
        let s = after_line(has_client, id, lines[0]);
        lemma_ids_consecutive(s.0, s.1, lines.drop_first());
        let rest = issued_ids(s.0, s.1, lines.drop_first());
        if sends_request(has_client, id, lines[0]) {
            let all = seq![(id + 1) as u64] + rest;
            assert forall|i: int| 0 <= i < all.len() implies #[trigger] all[i] == id + 1 + i by {
                if i > 0 {
                    assert(all[i] == rest[i - 1]);
                }
            }
        }
    }
}

/// The ids carried by the request actions of a sequence of steps, in order.
pub open spec fn sent_ids(steps: Seq<Step>) -> Seq<u64>
    decreases steps.len(),
{
    if steps.len() == 0 {
        seq![]
    } else {
        let rest = sent_ids(steps.drop_first());
        match steps[0].action {
            Action::Request { id, .. } => seq![id] + rest,
            _ => rest,
        }
    }
}

/// Line `i` of a run: `dispatch` took `states[i]` to `mids[i]` on `lines[i]`
/// and returned `steps[i]`; then the caller installed a client exactly when the
/// step asked to start one, which gives `states[i + 1]`.
pub open spec fn run_link<C>(
    states: Seq<Session<C>>,
    mids: Seq<Session<C>>,
    lines: Seq<Seq<Seq<char>>>,
    steps: Seq<Step>,
    i: int,
) -> bool {
    &&& dispatched(states[i], mids[i], lines[i], steps[i])
    &&& states[i + 1].request_id == mids[i].request_id
    &&& (states[i + 1].client is Some <==> (mids[i].client is Some || steps[i].action is Start))
}

/// Whether the sequences record a run of `dispatch` calls on `lines`.
pub open spec fn is_run<C>(
    states: Seq<Session<C>>,
    mids: Seq<Session<C>>,
    lines: Seq<Seq<Seq<char>>>,
    steps: Seq<Step>,
) -> bool {
    &&& states.len() == lines.len() + 1
    &&& mids.len() == lines.len()
    &&& steps.len() == lines.len()
    &&& forall|i: int| 0 <= i < lines.len() ==> #[trigger] run_link(states, mids, lines, steps, i)
}

/// Over a run of `dispatch` calls, the requests carry the ids that the model
/// issues, and the counter ends where the model's does.
pub proof fn lemma_run_matches_model<C>(
    states: Seq<Session<C>>,
    mids: Seq<Session<C>>,
    lines: Seq<Seq<Seq<char>>>,
    steps: Seq<Step>,
)
    requires
        is_run(states, mids, lines, steps),
    ensures
        sent_ids(steps) == issued_ids(states[0].client is Some, states[0].request_id, lines),
        states.last().request_id == after_run(
            states[0].client is Some,
            states[0].request_id,
            lines,
        ).1,
        states.last().client is Some == after_run(
            states[0].client is Some,
            states[0].request_id,
            lines,
        ).0,
    decreases lines.len(),
{
    if lines.len() > 0 {
        assert(run_link(states, mids, lines, steps, 0));
        lemma_dispatch_follows_model(states[0], mids[0], lines[0], steps[0]);
        let (s2, m2, l2, t2) = (
            states.drop_first(),
            mids.drop_first(),
            lines.drop_first(),
            steps.drop_first(),
        );
        assert forall|i: int| 0 <= i < l2.len() implies #[trigger] run_link(s2, m2, l2, t2, i) by {
            assert(run_link(states, mids, lines, steps, i + 1));
        }
        lemma_run_matches_model(s2, m2, l2, t2);
    } else {
        assert(states.last() == states[0]);
    }
}

/// Over a run of `dispatch` calls, the requests sent carry the ids that follow
/// the starting counter, one after another with no gap, and the counter ends
/// on the last of them.
pub proof fn lemma_run_ids_consecutive<C>(
    states: Seq<Session<C>>,
    mids: Seq<Session<C>>,
    lines: Seq<Seq<Seq<char>>>,
    steps: Seq<Step>,
)
    requires
        is_run(states, mids, lines, steps),
    ensures
        forall|i: int|
            0 <= i < sent_ids(steps).len() ==> #[trigger] sent_ids(steps)[i] == states[0].request_id
                + 1 + i,
        states.last().request_id == states[0].request_id + sent_ids(steps).len(),
{
    lemma_run_matches_model(states, mids, lines, steps);
    lemma_ids_consecutive(states[0].client is Some, states[0].request_id, lines);
}

/// Two runs of `dispatch` calls from the same session, on the same lines but
/// for one `notify` line that only the first has, send requests with the same
/// ids and end with the same counter.
pub proof fn lemma_run_notification_keeps_ids<C>(
    states: Seq<Session<C>>,
    mids: Seq<Session<C>>,
    steps: Seq<Step>,
    states2: Seq<Session<C>>,
    mids2: Seq<Session<C>>,
    steps2: Seq<Step>,
    a: Seq<Seq<Seq<char>>>,
    n: Seq<Seq<char>>,
    b: Seq<Seq<Seq<char>>>,
)
    requires
        line_kind(n) == LineKind::Notify,
        is_run(states, mids, a + seq![n] + b, steps),
        is_run(states2, mids2, a + b, steps2),
        states2[0].client is Some == states[0].client is Some,
        states2[0].request_id == states[0].request_id,
    ensures
        sent_ids(steps) == sent_ids(steps2),
        states.last().request_id == states2.last().request_id,
{
    lemma_run_matches_model(states, mids, a + seq![n] + b, steps);
    lemma_run_matches_model(states2, mids2, a + b, steps2);
    lemma_notification_keeps_ids(states[0].client is Some, states[0].request_id, a, n, b);
}

/// Running `a` then `b` gives the ids of `a`, then those of `b` from where `a` ended.
pub proof fn lemma_run_concat(
    has_client: bool,
    id: u64,
    a: Seq<Seq<Seq<char>>>,
    b: Seq<Seq<Seq<char>>>,
)
    ensures
        issued_ids(has_client, id, a + b) == issued_ids(has_client, id, a) + issued_ids(
            after_run(has_client, id, a).0,
            after_run(has_client, id, a).1,
            b,
        ),
        after_run(has_client, id, a + b) == after_run(
            after_run(has_client, id, a).0,
            after_run(has_client, id, a).1,
            b,
        ),
    decreases a.len(),
{
    if a.len() == 0 {
        assert(a + b =~= b);
    } else {
        let s = after_line(has_client, id, a[0]);
        assert((a + b).drop_first() =~= a.drop_first() + b);
        assert((a + b)[0] == a[0]);
        lemma_run_concat(s.0, s.1, a.drop_first(), b);
        let e = after_run(has_client, id, a);
        if sends_request(has_client, id, a[0]) {
            assert(seq![(id + 1) as u64] + (issued_ids(s.0, s.1, a.drop_first()) + issued_ids(
                e.0,
                e.1,
                b,
            )) =~= (seq![(id + 1) as u64] + issued_ids(s.0, s.1, a.drop_first())) + issued_ids(
                e.0,
                e.1,
                b,
            ));
        }
    }
}

/// A `notify` line, wherever it stands in a run, changes neither the ids the
/// requests get nor the counter at the end.
pub proof fn lemma_notification_keeps_ids(
    has_client: bool,
    id: u64,
    a: Seq<Seq<Seq<char>>>,
    n: Seq<Seq<char>>,
    b: Seq<Seq<Seq<char>>>,
)
    requires
        line_kind(n) == LineKind::Notify,
    ensures
        issued_ids(has_client, id, a + seq![n] + b) == issued_ids(has_client, id, a + b),
        after_run(has_client, id, a + seq![n] + b) == after_run(has_client, id, a + b),
{
    let e = after_run(has_client, id, a);
    assert(a + seq![n] + b =~= a + (seq![n] + b));
    lemma_run_concat(has_client, id, a, seq![n] + b);
    lemma_run_concat(has_client, id, a, b);
    assert((seq![n] + b).drop_first() =~= b);
    assert((seq![n] + b)[0] == n);
    assert(after_line(e.0, e.1, n) == e);
}

/// A line whose leading token names no command prints exactly
/// `unknown command: '<token>'` and changes nothing: no client is started, no
/// request or notification is sent, and the counter stays.
pub proof fn lemma_unknown_command(has_client: bool, id: u64, t: Seq<Seq<char>>)
    requires
        line_kind(t) == LineKind::Unknown,
    ensures
        reply(has_client, id, t) == seq!["unknown command: '"@ + t[0] + "'"@],
        after_line(has_client, id, t) == (has_client, id),
        !starts_program(t),
        !sends_request(has_client, id, t),
        !sends_notification(has_client, t),
{
}

/// A request naming an unknown method sends nothing and takes no id.
pub proof fn lemma_unknown_request_method(id: u64, t: Seq<Seq<char>>)
    requires
        line_kind(t) == LineKind::Request,
        t.len() >= 2,
        request_method_of(t[1]) is None,
    ensures
        reply(true, id, t) == seq![
            "got request: "@ + debug_list(t.subrange(1, t.len() as int)),
            "Unknown request type: '"@ + t[1] + "'"@,
        ],
        after_line(true, id, t) == (true, id),
        !sends_request(true, id, t),
{
}

/// Before any `start`, a `request` or `notify` line reports that the client
/// is not initialized, sends nothing, and takes no id.
pub proof fn lemma_client_gating(id: u64, t: Seq<Seq<char>>)
    requires
        line_kind(t) == LineKind::Request || line_kind(t) == LineKind::Notify,
    ensures
        line_kind(t) == LineKind::Request ==> reply(false, id, t) == seq![
            "LSP client is not initialized, can't send request."@,
        ],
        line_kind(t) == LineKind::Notify ==> reply(false, id, t) == seq![
            "got notification: "@ + debug_list(t.subrange(1, t.len() as int)),
            "LSP client is not initialized, can't send notification."@,
        ],
        !sends_request(false, id, t),
        !sends_notification(false, t),
        after_line(false, id, t) == (false, id),
{
}

/// Every outcome falls in exactly one category, chosen by its variant alone.
pub proof fn lemma_one_category(o: Outcome)
    ensures
        (o is TransportFailure) <==> category_of(o) == Category::TransportFailure,
        (o is Success) <==> category_of(o) == Category::Success,
        (o is ApplicationError) <==> category_of(o) == Category::ApplicationError,
        category_of(o) == Category::TransportFailure || category_of(o) == Category::Success
            || category_of(o) == Category::ApplicationError,
{
}

} // verus!
