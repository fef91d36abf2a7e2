use vstd::prelude::*;
use vstd::string::StringExecFns;
use crate::errors::ObservlibError;

verus! {

/// The three telemetry signals, in the fixed order in which the shutdown
/// coordinator attempts them.
#[derive(Clone, Copy, Debug, PartialEq, Eq, Structural)]
pub enum BackendKind {
    Trace,
    Metric,
    Log,
}

/// The position of a backend in the fixed attempt order.
pub open spec fn attempt_rank(k: BackendKind) -> int {
    match k {
        BackendKind::Trace => 0,
        BackendKind::Metric => 1,
        BackendKind::Log => 2,
    }
}

/// The label put before a failed backend's reason in the aggregate message.
pub open spec fn spec_label(k: BackendKind) -> Seq<char> {
    match k {
        BackendKind::Trace => "tracer provider: "@,
        BackendKind::Metric => "meter provider: "@,
        BackendKind::Log => "logger provider: "@,
    }
}

/// The failures of one coordinated attempt: each failed backend with its
/// reason, in attempt order, successes left out.
pub open spec fn failure_list(
    t: Result<(), Seq<char>>,
    m: Result<(), Seq<char>>,
    l: Result<(), Seq<char>>,
) -> Seq<(BackendKind, Seq<char>)> {
    let s0 = Seq::<(BackendKind, Seq<char>)>::empty();
    let s1 = if t is Err { s0.push((BackendKind::Trace, t->Err_0)) } else { s0 };
    let s2 = if m is Err { s1.push((BackendKind::Metric, m->Err_0)) } else { s1 };
    if l is Err { s2.push((BackendKind::Log, l->Err_0)) } else { s2 }
}

/// A newline between consecutive parts, nothing before or after.
pub open spec fn joined(parts: Seq<Seq<char>>) -> Seq<char>
    decreases parts.len(),
{
    if parts.len() == 0 {
        Seq::empty()
    } else if parts.len() == 1 {
        parts[0]
    } else {
        joined(parts.drop_last()) + "\n"@ + parts.last()
    }
}

/// Each failure rendered as its label followed by its reason.
pub open spec fn labeled_parts(list: Seq<(BackendKind, Seq<char>)>) -> Seq<Seq<char>> {
    list.map_values(|p: (BackendKind, Seq<char>)| spec_label(p.0) + p.1)
}

/// The aggregate message of one coordinated attempt.
pub open spec fn aggregate_message(
    t: Result<(), Seq<char>>,
    m: Result<(), Seq<char>>,
    l: Result<(), Seq<char>>,
) -> Seq<char> {
    joined(labeled_parts(failure_list(t, m, l)))
}

/// One backend's shutdown result, by content.
pub open spec fn res_view(r: Result<(), String>) -> Result<(), Seq<char>> {
    match r {
        Ok(()) => Ok(()),
        Err(s) => Err(s@),
    }
}

/// What one coordinated attempt returns, given the three backends' results:
/// success exactly when all three succeeded, otherwise the single aggregate
/// error carrying the aggregate message.
pub open spec fn aggregate_matches(
    r: Result<(), ObservlibError>,
    t: Result<(), Seq<char>>,
    m: Result<(), Seq<char>>,
    l: Result<(), Seq<char>>,
) -> bool {
    &&& (r is Ok <==> (t is Ok && m is Ok && l is Ok))
    &&& (r matches Err(e) ==> (e matches ObservlibError::MultipleShutdownFailures(msg)
            && msg@ == aggregate_message(t, m, l)))
}

/// Holds of every value the coordinator can return: it is the aggregate of
/// some triple of per-backend results.
pub open spec fn is_aggregate_outcome(r: Result<(), ObservlibError>) -> bool {
    exists|t: Result<(), Seq<char>>, m: Result<(), Seq<char>>, l: Result<(), Seq<char>>|
        aggregate_matches(r, t, m, l)
}

/// Joins the parts with a newline between consecutive parts.
pub fn join_lines(parts: &Vec<String>) -> (r: String)
    ensures
        r@ == joined(parts.deep_view()),
{
    let mut acc = String::new();
    let mut i: usize = 0;
    while i < parts.len()
        invariant
            i <= parts.len(),
            acc@ == joined(parts.deep_view().take(i as int)),
        decreases parts.len() - i,
    {
        if i > 0 {
            acc.append("\n");
        }
        acc.append(parts[i].as_str());
        proof {
            let dv = parts.deep_view();
            assert(dv.take(i + 1).drop_last() =~= dv.take(i as int));
            assert(dv.take(i + 1).last() == dv[i as int]);
            if i == 0 {
                assert(Seq::<char>::empty() + dv[0] =~= dv[0]);
            }
        }
        i += 1;
    }
    proof {
        assert(parts.deep_view().take(parts.len() as int) =~= parts.deep_view());
    }
    acc
}

/// Folds the three backends' shutdown results into the single outcome of one
/// coordinated attempt: success exactly when all three succeeded, otherwise
/// one aggregate error naming every failed backend in attempt order.
pub fn aggregate_shutdown_results(
    t: Result<(), String>,
    m: Result<(), String>,
    l: Result<(), String>,
) -> (r: Result<(), ObservlibError>)
    ensures
        aggregate_matches(r, res_view(t), res_view(m), res_view(l)),
{
    let ghost tv = res_view(t);
    let ghost mv = res_view(m);
    let ghost lv = res_view(l);
    let mut parts: Vec<String> = Vec::new();
    if let Err(e) = t {
        let mut p = "tracer provider: ".to_owned();
        p.append(e.as_str());
        parts.push(p);
    }
    if let Err(e) = m {
        let mut p = "meter provider: ".to_owned();
        p.append(e.as_str());
        parts.push(p);
    }
    if let Err(e) = l {
        let mut p = "logger provider: ".to_owned();
        p.append(e.as_str());
        parts.push(p);
    }
    proof {
        assert(parts.deep_view() =~= labeled_parts(failure_list(tv, mv, lv)));
    }
    if parts.len() == 0 {
        Ok(())
    } else {
        Err(ObservlibError::MultipleShutdownFailures(join_lines(&parts)))
    }
}

/// Aggregation correctness and order: one coordinated attempt fails exactly
/// when some backend failed; the failure list names every failed backend with
/// its reason and no successful one, in the fixed attempt order trace,
/// metric, log.
pub proof fn lemma_aggregation_correctness(
    t: Result<(), Seq<char>>,
    m: Result<(), Seq<char>>,
    l: Result<(), Seq<char>>,
)
    ensures
        failure_list(t, m, l).len() == 0 <==> (t is Ok && m is Ok && l is Ok),
        forall|e: Seq<char>|
            failure_list(t, m, l).contains((BackendKind::Trace, e)) <==> t == Err::<(), Seq<char>>(e),
        forall|e: Seq<char>|
            failure_list(t, m, l).contains((BackendKind::Metric, e)) <==> m == Err::<(), Seq<char>>(e),
        forall|e: Seq<char>|
            failure_list(t, m, l).contains((BackendKind::Log, e)) <==> l == Err::<(), Seq<char>>(e),
        forall|i: int, j: int|
            0 <= i < j < failure_list(t, m, l).len()
                ==> attempt_rank(failure_list(t, m, l)[i].0) < attempt_rank(failure_list(t, m, l)[j].0),
{
    let fl = failure_list(t, m, l);
    assert forall|e: Seq<char>| fl.contains((BackendKind::Trace, e)) implies t == Err::<(), Seq<char>>(e) by {
        let k = choose|k: int| 0 <= k < fl.len() && fl[k] == (BackendKind::Trace, e);
        assert(fl[k].0 == BackendKind::Trace);
    }
    assert forall|e: Seq<char>| fl.contains((BackendKind::Metric, e)) implies m == Err::<(), Seq<char>>(e) by {
        let k = choose|k: int| 0 <= k < fl.len() && fl[k] == (BackendKind::Metric, e);
        assert(fl[k].0 == BackendKind::Metric);
    }
    assert forall|e: Seq<char>| fl.contains((BackendKind::Log, e)) implies l == Err::<(), Seq<char>>(e) by {
        let k = choose|k: int| 0 <= k < fl.len() && fl[k] == (BackendKind::Log, e);
        assert(fl[k].0 == BackendKind::Log);
    }
    assert forall|e: Seq<char>| t == Err::<(), Seq<char>>(e) implies fl.contains((BackendKind::Trace, e)) by {
        assert(fl[0] == (BackendKind::Trace, e));
    }
    assert forall|e: Seq<char>| m == Err::<(), Seq<char>>(e) implies fl.contains((BackendKind::Metric, e)) by {
        let k: int = if t is Err { 1 } else { 0 };
        assert(fl[k] == (BackendKind::Metric, e));
    }
    assert forall|e: Seq<char>| l == Err::<(), Seq<char>>(e) implies fl.contains((BackendKind::Log, e)) by {
        assert(fl.last() == (BackendKind::Log, e));
        assert(fl[fl.len() - 1] == (BackendKind::Log, e));
    }
}

/// `part` occurs contiguously inside `msg`.
pub open spec fn contains_part(msg: Seq<char>, part: Seq<char>) -> bool {
    exists|i: int|
        0 <= i && i + part.len() <= msg.len() && #[trigger] msg.subrange(i, i + part.len())
            == part
}

/// Every part occurs contiguously in the newline-joined rendering.
pub proof fn lemma_joined_contains_each_part(parts: Seq<Seq<char>>, k: int)
    requires
        0 <= k < parts.len(),
    ensures
        contains_part(joined(parts), parts[k]),
    decreases parts.len(),
{
    reveal_strlit("\n");
    if parts.len() == 1 {
        assert(joined(parts) == parts[0]);
        assert(joined(parts).subrange(0, 0 + parts[k].len() as int) =~= parts[k]);
        assert(contains_part(joined(parts), parts[k]));
    } else if k == parts.len() - 1 {
        let head = joined(parts.drop_last());
        let msg = joined(parts);
        let start = head.len() as int + 1;
        assert(msg == head + "\n"@ + parts[k]);
        assert(msg.len() == head.len() + 1 + parts[k].len());
        assert(msg.subrange(start, start + parts[k].len()) =~= parts[k]);
        assert(contains_part(msg, parts[k]));
    } else {
        lemma_joined_contains_each_part(parts.drop_last(), k);
        let head = joined(parts.drop_last());
        let msg = joined(parts);
        let part = parts.drop_last()[k];
        let i = choose|i: int|
            0 <= i && i + part.len() <= head.len() && #[trigger] head.subrange(i, i + part.len())
                == part;
        assert(parts.drop_last()[k] == parts[k]);
        assert(msg == head + "\n"@ + parts.last());
        assert(msg.len() == head.len() + 1 + parts.last().len());
        assert(msg.subrange(i, i + parts[k].len()) =~= head.subrange(i, i + parts[k].len()));
        assert(contains_part(msg, parts[k]));
    }
}

/// The aggregate message names every failed backend: its labeled reason
/// stands contiguously in the message.
pub proof fn lemma_message_names_every_failure(
    t: Result<(), Seq<char>>,
    m: Result<(), Seq<char>>,
    l: Result<(), Seq<char>>,
)
    ensures
        t matches Err(e) ==> contains_part(
            aggregate_message(t, m, l),
            spec_label(BackendKind::Trace) + e,
        ),
        m matches Err(e) ==> contains_part(
            aggregate_message(t, m, l),
            spec_label(BackendKind::Metric) + e,
        ),
        l matches Err(e) ==> contains_part(
            aggregate_message(t, m, l),
            spec_label(BackendKind::Log) + e,
        ),
{
    let fl = failure_list(t, m, l);
    let parts = labeled_parts(fl);
    if t is Err {
        assert(parts[0] == spec_label(BackendKind::Trace) + t->Err_0);
        lemma_joined_contains_each_part(parts, 0);
    }
    if m is Err {
        let k: int = if t is Err { 1 } else { 0 };
        assert(parts[k] == spec_label(BackendKind::Metric) + m->Err_0);
        lemma_joined_contains_each_part(parts, k);
    }
    if l is Err {
        let k = parts.len() - 1;
        assert(parts[k] == spec_label(BackendKind::Log) + l->Err_0);
        lemma_joined_contains_each_part(parts, k);
    }
}

/// All three backends succeeding yields exactly success, with no error
/// payload.
pub proof fn lemma_single_success_path(r: Result<(), ObservlibError>)
    requires
        aggregate_matches(r, Ok(()), Ok(()), Ok(())),
    ensures
        r == Ok::<(), ObservlibError>(()),
{
    match r {
        Ok(u) => {
            assert(u == ());
        },
        Err(_) => {
            assert(false);
        },
    }
}

} // verus!
