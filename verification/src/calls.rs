//! The calls that a scan asks for, and what holds of them: which aliases are
//! looked up, which are deactivated, and how often.

use vstd::prelude::*;
use crate::email_alias::AliasModel;
use crate::scan::{
    active_before, compromised, expects, lemma_step_keeps_wf, scan_step, settled, start,
    ScanActionView, ScanEventView, ScanPhase, ScanResultView, ScanView,
};

verus! {

/// A call to one of the two services. The calls that concern an alias name
/// its place in the listing, and what the service is handed.
pub ghost enum Call {
    List,
    Check { index: nat, email: Seq<char> },
    Deactivate { index: nat, id: Seq<char> },
}

impl Call {
    /// Whether this is a lookup for the alias at place `i`.
    pub open spec fn is_lookup_of(self, i: nat) -> bool {
        self matches Call::Check { index, .. } && index == i
    }

    /// Whether this asks to deactivate the alias at place `i`.
    pub open spec fn is_deactivation_of(self, i: nat) -> bool {
        self matches Call::Deactivate { index, .. } && index == i
    }
}

/// The number of lookups for the alias at place `i` among the calls.
pub open spec fn lookups(calls: Seq<Call>, i: nat) -> nat
    decreases calls.len(),
{
    if calls.len() == 0 {
        0
    } else {
        lookups(calls.drop_last(), i) + if calls.last().is_lookup_of(i) {
            1nat
        } else {
            0nat
        }
    }
}

/// The number of requests to deactivate the alias at place `i` among the
/// calls.
pub open spec fn deactivations(calls: Seq<Call>, i: nat) -> nat
    decreases calls.len(),
{
    if calls.len() == 0 {
        0
    } else {
        deactivations(calls.drop_last(), i) + if calls.last().is_deactivation_of(i) {
            1nat
        } else {
            0nat
        }
    }
}

/// The call that an action asks for, if it asks for one.
pub open spec fn call_of(action: ScanActionView) -> Seq<Call> {
    match action {
        ScanActionView::Check { index, email } => seq![Call::Check { index, email }],
        ScanActionView::Deactivate { index, id } => seq![Call::Deactivate { index, id }],
        ScanActionView::Finish => seq![],
    }
}

/// The calls that were made for an alias that is settled.
pub open spec fn calls_for(r: ScanResultView) -> Seq<Call> {
    if r.deactivation_attempted() {
        seq![
            Call::Check { index: r.index, email: r.email },
            Call::Deactivate { index: r.index, id: r.id },
        ]
    } else {
        seq![Call::Check { index: r.index, email: r.email }]
    }
}

/// The calls that were made for the aliases that are settled.
pub open spec fn calls_of(results: Seq<ScanResultView>) -> Seq<Call>
    decreases results.len(),
{
    if results.len() == 0 {
        seq![]
    } else {
        calls_of(results.drop_last()) + calls_for(results.last())
    }
}

/// The calls that were made for the alias at the cursor, which is not
/// settled yet.
pub open spec fn calls_under_way(s: ScanView) -> Seq<Call> {
    match s.phase {
        ScanPhase::Checking => seq![
            Call::Check { index: s.cursor, email: s.aliases[s.cursor as int].email },
        ],
        ScanPhase::Deactivating => seq![
            Call::Check { index: s.cursor, email: s.aliases[s.cursor as int].email },
            Call::Deactivate { index: s.cursor, id: s.aliases[s.cursor as int].id },
        ],
        _ => seq![],
    }
}

/// Every call that a scan has asked for up to its present state, in order.
pub open spec fn issued(s: ScanView) -> Seq<Call> {
    seq![Call::List] + calls_of(s.results) + calls_under_way(s)
}

/// The state that a scan reaches on a run of events, and the calls that it
/// asks for on the way. The run ends at the first event that the scan cannot
/// take.
pub open spec fn run(s: ScanView, events: Seq<ScanEventView>) -> (ScanView, Seq<Call>)
    decreases events.len(),
{
    if events.len() == 0 || !expects(s.phase, events[0]) {
        (s, seq![])
    } else {
        let (next, action) = scan_step(s, events[0]);
        let (last, calls) = run(next, events.skip(1));
        (last, call_of(action) + calls)
    }
}

proof fn lemma_lookups_add(a: Seq<Call>, b: Seq<Call>, i: nat)
    ensures
        lookups(a + b, i) == lookups(a, i) + lookups(b, i),
    decreases b.len(),
{
    if b.len() > 0 {
        assert((a + b).drop_last() =~= a + b.drop_last());
        lemma_lookups_add(a, b.drop_last(), i);
    }
}

proof fn lemma_deactivations_add(a: Seq<Call>, b: Seq<Call>, i: nat)
    ensures
        deactivations(a + b, i) == deactivations(a, i) + deactivations(b, i),
    decreases b.len(),
{
    if b.len() > 0 {
        assert((a + b).drop_last() =~= a + b.drop_last());
        lemma_deactivations_add(a, b.drop_last(), i);
    }
}

/// The counts among one call, and among two.
proof fn lemma_count_few(a: Call, b: Call, i: nat)
    ensures
        lookups(seq![a], i) == if a.is_lookup_of(i) {
            1nat
        } else {
            0nat
        },
        deactivations(seq![a], i) == if a.is_deactivation_of(i) {
            1nat
        } else {
            0nat
        },
        lookups(seq![a, b], i) == lookups(seq![a], i) + if b.is_lookup_of(i) {
            1nat
        } else {
            0nat
        },
        deactivations(seq![a, b], i) == deactivations(seq![a], i) + if b.is_deactivation_of(i) {
            1nat
        } else {
            0nat
        },
        lookups(Seq::<Call>::empty(), i) == 0,
        deactivations(Seq::<Call>::empty(), i) == 0,
{
    assert(seq![a].drop_last() =~= Seq::<Call>::empty());
    assert(seq![b].drop_last() =~= Seq::<Call>::empty());
    assert(lookups(Seq::<Call>::empty(), i) == 0);
    assert(deactivations(Seq::<Call>::empty(), i) == 0);
    assert(seq![a, b] =~= seq![a] + seq![b]);
    lemma_lookups_add(seq![a], seq![b], i);
    lemma_deactivations_add(seq![a], seq![b], i);
}

/// The places before `upto` that hold an active alias are listed in rising
/// order, each below `upto`.
proof fn lemma_active_before_rises(aliases: Seq<AliasModel>, upto: nat, k: int)
    requires
        0 <= k < active_before(aliases, upto).len(),
    ensures
        active_before(aliases, upto)[k] < upto,
        active_before(aliases, upto)[k] < aliases.len(),
        aliases[active_before(aliases, upto)[k] as int].active,
        k > 0 ==> active_before(aliases, upto)[k - 1] < active_before(aliases, upto)[k],
    decreases upto,
{
    let rest = active_before(aliases, (upto - 1) as nat);
    if k < rest.len() {
        lemma_active_before_rises(aliases, (upto - 1) as nat, k);
    } else if k > 0 {
        lemma_active_before_rises(aliases, (upto - 1) as nat, k - 1);
    }
}

/// The place among the results of the active alias at place `i`, once the
/// scan has passed it.
pub open spec fn rank(aliases: Seq<AliasModel>, i: nat) -> int {
    active_before(aliases, i).len() as int
}

/// The places of the active aliases before `i` begin those before any later
/// place, and an active alias at `i` comes next.
proof fn lemma_active_before_grows(aliases: Seq<AliasModel>, i: nat, upto: nat)
    requires
        i <= upto <= aliases.len(),
    ensures
        active_before(aliases, i).len() <= active_before(aliases, upto).len(),
        forall|k: int|
            0 <= k < active_before(aliases, i).len() ==> active_before(aliases, upto)[k]
                == #[trigger] active_before(aliases, i)[k],
        i < upto && aliases[i as int].active ==> rank(aliases, i) < active_before(
            aliases,
            upto,
        ).len() && active_before(aliases, upto)[rank(aliases, i)] == i,
    decreases upto - i,
{
    if i < upto {
        lemma_active_before_grows(aliases, i, (upto - 1) as nat);
    }
}

/// Among the calls for settled aliases whose places rise, none concerns a
/// place that is beyond them all, nor one that is not theirs.
proof fn lemma_calls_elsewhere(results: Seq<ScanResultView>, i: nat)
    requires
        forall|k: int| 0 <= k < results.len() ==> (#[trigger] results[k]).index != i,
    ensures
        lookups(calls_of(results), i) == 0,
        deactivations(calls_of(results), i) == 0,
    decreases results.len(),
{
    if results.len() > 0 {
        let init = results.drop_last();
        let last = results.last();
        assert forall|k: int| 0 <= k < init.len() implies (#[trigger] init[k]).index != i by {}
        lemma_calls_elsewhere(init, i);
        lemma_lookups_add(calls_of(init), calls_for(last), i);
        lemma_deactivations_add(calls_of(init), calls_for(last), i);
        lemma_count_few(
            Call::Check { index: last.index, email: last.email },
            Call::Deactivate { index: last.index, id: last.id },
            i,
        );
    }
}

/// Among the calls for settled aliases whose places rise, each alias has one
/// lookup, and one request to deactivate it where that was attempted.
proof fn lemma_calls_here(results: Seq<ScanResultView>, k: int)
    requires
        0 <= k < results.len(),
        forall|a: int, b: int|
            0 <= a < b < results.len() ==> (#[trigger] results[a]).index < (
            #[trigger] results[b]).index,
    ensures
        lookups(calls_of(results), results[k].index) == 1,
        deactivations(calls_of(results), results[k].index) == if results[k].deactivation_attempted(
        ) {
            1nat
        } else {
            0nat
        },
    decreases results.len(),
{
    let i = results[k].index;
    let init = results.drop_last();
    let last = results.last();
    lemma_lookups_add(calls_of(init), calls_for(last), i);
    lemma_deactivations_add(calls_of(init), calls_for(last), i);
    lemma_count_few(
        Call::Check { index: last.index, email: last.email },
        Call::Deactivate { index: last.index, id: last.id },
        i,
    );
    assert forall|a: int, b: int| 0 <= a < b < init.len() implies (#[trigger] init[a]).index < (
    #[trigger] init[b]).index by {}
    if k == results.len() - 1 {
        assert forall|a: int| 0 <= a < init.len() implies (#[trigger] init[a]).index != i by {}
        lemma_calls_elsewhere(init, i);
    } else {
        lemma_calls_here(init, k);
    }
}

/// The results of a well-formed scan stand at rising places of the listing,
/// all before the cursor.
proof fn lemma_results_rise(s: ScanView)
    requires
        s.wf(),
    ensures
        forall|a: int, b: int|
            0 <= a < b < s.results.len() ==> (#[trigger] s.results[a]).index < (
            #[trigger] s.results[b]).index,
        forall|k: int| 0 <= k < s.results.len() ==> (#[trigger] s.results[k]).index < s.cursor,
{
    assert forall|k: int| 0 <= k < s.results.len() implies (#[trigger] s.results[k]).index
        < s.cursor by {
        lemma_active_before_rises(s.aliases, s.cursor, k);
    }
    assert forall|a: int, b: int| 0 <= a < b < s.results.len() implies (#[trigger] s.results[a]).index
        < (#[trigger] s.results[b]).index by {
        lemma_places_rise(s.aliases, s.cursor, a, b);
    }
}

proof fn lemma_places_rise(aliases: Seq<AliasModel>, upto: nat, a: int, b: int)
    requires
        0 <= a < b < active_before(aliases, upto).len(),
    ensures
        active_before(aliases, upto)[a] < active_before(aliases, upto)[b],
    decreases b - a,
{
    lemma_active_before_rises(aliases, upto, b);
    if a < b - 1 {
        lemma_places_rise(aliases, upto, a, b - 1);
    }
}

/// Each step adds to the calls that a scan has asked for the one call that
/// its action asks for, and nothing else.
pub proof fn lemma_step_issues(s: ScanView, event: ScanEventView)
    requires
        s.wf(),
        expects(s.phase, event),
    ensures
        issued(scan_step(s, event).0) == issued(s) + call_of(scan_step(s, event).1),
{
    let next = scan_step(s, event).0;
    if next.results.len() > s.results.len() {
        assert(next.results.drop_last() =~= s.results);
    }
}

/// On every run of events, the calls that a scan asks for are those that its
/// last state accounts for, and the scan stays well formed.
pub proof fn lemma_run_issues(s: ScanView, events: Seq<ScanEventView>)
    requires
        s.wf(),
    ensures
        run(s, events).0.wf(),
        issued(run(s, events).0) == issued(s) + run(s, events).1,
    decreases events.len(),
{
    if events.len() > 0 && expects(s.phase, events[0]) {
        lemma_step_keeps_wf(s, events[0]);
        lemma_step_issues(s, events[0]);
        lemma_run_issues(scan_step(s, events[0]).0, events.skip(1));
    }
}

/// An alias that is not active is never looked up and never asked to be
/// deactivated, whatever the state of the scan.
pub proof fn lemma_inactive_alias_is_left_alone(s: ScanView, i: nat)
    requires
        s.wf(),
        i < s.aliases.len(),
        !s.aliases[i as int].active,
    ensures
        lookups(issued(s), i) == 0,
        deactivations(issued(s), i) == 0,
{
    lemma_calls_elsewhere(s.results, i);
    lemma_count_under_way(s, i);
    lemma_count_issued(s, i);
}

/// The calls for the alias at the cursor concern that alias alone.
proof fn lemma_count_under_way(s: ScanView, i: nat)
    ensures
        lookups(calls_under_way(s), i) == if i == s.cursor && (s.phase == ScanPhase::Checking
            || s.phase == ScanPhase::Deactivating) {
            1nat
        } else {
            0nat
        },
        deactivations(calls_under_way(s), i) == if i == s.cursor && s.phase
            == ScanPhase::Deactivating {
            1nat
        } else {
            0nat
        },
{
    lemma_count_few(
        Call::Check { index: s.cursor, email: s.aliases[s.cursor as int].email },
        Call::Deactivate { index: s.cursor, id: s.aliases[s.cursor as int].id },
        i,
    );
}

/// The counts among all calls are those among the calls for settled aliases
/// and for the alias at the cursor.
proof fn lemma_count_issued(s: ScanView, i: nat)
    ensures
        lookups(issued(s), i) == lookups(calls_of(s.results), i) + lookups(calls_under_way(s), i),
        deactivations(issued(s), i) == deactivations(calls_of(s.results), i) + deactivations(
            calls_under_way(s),
            i,
        ),
{
    lemma_count_few(Call::List, Call::List, i);
    lemma_lookups_add(seq![Call::List], calls_of(s.results), i);
    lemma_deactivations_add(seq![Call::List], calls_of(s.results), i);
    lemma_lookups_add(seq![Call::List] + calls_of(s.results), calls_under_way(s), i);
    lemma_deactivations_add(seq![Call::List] + calls_of(s.results), calls_under_way(s), i);
}

/// An active alias that the scan has passed is settled: its result stands at
/// the place that `rank` gives, and tells of that alias.
pub proof fn lemma_passed_alias_is_settled(s: ScanView, i: nat)
    requires
        s.wf(),
        i < s.cursor,
        s.aliases[i as int].active,
    ensures
        0 <= rank(s.aliases, i) < s.results.len(),
        s.results[rank(s.aliases, i)].index == i,
        settled(s.aliases, s.results[rank(s.aliases, i)]),
{
    lemma_active_before_grows(s.aliases, i, s.cursor);
}

/// An active alias that the scan has passed was looked up exactly once. It
/// was asked to be deactivated exactly once where the lookup reported one
/// breach or more, and never where it reported none or failed.
pub proof fn lemma_passed_alias_is_called_once(s: ScanView, i: nat)
    requires
        s.wf(),
        i < s.cursor,
        s.aliases[i as int].active,
    ensures
        lookups(issued(s), i) == 1,
        deactivations(issued(s), i) == if compromised(s.results[rank(s.aliases, i)].lookup) {
            1nat
        } else {
            0nat
        },
{
    lemma_passed_alias_is_settled(s, i);
    lemma_results_rise(s);
    lemma_calls_here(s.results, rank(s.aliases, i));
    lemma_count_under_way(s, i);
    lemma_count_issued(s, i);
}

/// The alias at the cursor has been looked up once, and asked to be
/// deactivated once if and only if its deactivation is under way.
pub proof fn lemma_alias_under_way_is_called_once(s: ScanView)
    requires
        s.wf(),
        s.phase == ScanPhase::Checking || s.phase == ScanPhase::Deactivating,
    ensures
        lookups(issued(s), s.cursor) == 1,
        deactivations(issued(s), s.cursor) == if s.phase == ScanPhase::Deactivating {
            1nat
        } else {
            0nat
        },
{
    lemma_results_rise(s);
    lemma_calls_elsewhere(s.results, s.cursor);
    lemma_count_under_way(s, s.cursor);
    lemma_count_issued(s, s.cursor);
}

/// An alias that the scan has not reached yet has not been called for.
pub proof fn lemma_alias_ahead_is_not_called(s: ScanView, i: nat)
    requires
        s.wf(),
        s.cursor < i,
    ensures
        lookups(issued(s), i) == 0,
        deactivations(issued(s), i) == 0,
{
    lemma_results_rise(s);
    lemma_calls_elsewhere(s.results, i);
    lemma_count_under_way(s, i);
    lemma_count_issued(s, i);
}

/// A scan whose listing failed has asked for the listing and for nothing
/// else.
pub proof fn lemma_failed_listing_ends_the_scan(s: ScanView)
    requires
        s.wf(),
        s.error is Some,
    ensures
        s.phase == ScanPhase::Done,
        issued(s) == seq![Call::List],
{
}

/// Once the listing is there, no step changes it or asks for it again.
pub proof fn lemma_run_keeps_listing(s: ScanView, events: Seq<ScanEventView>)
    requires
        s.phase != ScanPhase::Listing,
    ensures
        run(s, events).0.aliases == s.aliases,
        run(s, events).0.phase != ScanPhase::Listing,
    decreases events.len(),
{
    if events.len() > 0 && expects(s.phase, events[0]) {
        lemma_run_keeps_listing(scan_step(s, events[0]).0, events.skip(1));
    }
}

/// A scan that is handed a listing works on that listing to its end.
pub proof fn lemma_scan_works_on_the_listing(events: Seq<ScanEventView>, aliases: Seq<AliasModel>)
    requires
        events.len() > 0,
        events[0] == ScanEventView::Listed(Ok(aliases)),
    ensures
        run(start(), events).0.aliases == aliases,
{
    lemma_run_keeps_listing(scan_step(start(), events[0]).0, events.skip(1));
}

/// The calls of a whole scan, from its beginning: they are the listing and
/// then what the last state accounts for.
proof fn lemma_scan_issues(events: Seq<ScanEventView>, i: nat)
    ensures
        run(start(), events).0.wf(),
        lookups(run(start(), events).1, i) == lookups(issued(run(start(), events).0), i),
        deactivations(run(start(), events).1, i) == deactivations(
            issued(run(start(), events).0),
            i,
        ),
{
    let calls = run(start(), events).1;
    lemma_run_issues(start(), events);
    lemma_count_few(Call::List, Call::List, i);
    lemma_lookups_add(seq![Call::List], calls, i);
    lemma_deactivations_add(seq![Call::List], calls, i);
}

/// Whatever the services answer, a scan asks for no lookup and for no
/// deactivation of an alias that is not active.
pub proof fn lemma_scan_leaves_inactive_aliases_alone(events: Seq<ScanEventView>, i: nat)
    requires
        i < run(start(), events).0.aliases.len(),
        !run(start(), events).0.aliases[i as int].active,
    ensures
        lookups(run(start(), events).1, i) == 0,
        deactivations(run(start(), events).1, i) == 0,
{
    lemma_scan_issues(events, i);
    lemma_inactive_alias_is_left_alone(run(start(), events).0, i);
}

/// Whatever the services answer, a scan looks up each active alias that it
/// has passed exactly once, and does not ask to deactivate it where the
/// lookup reported no breach or failed.
pub proof fn lemma_scan_spares_aliases_without_breach(events: Seq<ScanEventView>, i: nat)
    requires
        i < run(start(), events).0.cursor,
        run(start(), events).0.aliases[i as int].active,
        !compromised(
            run(start(), events).0.results[rank(run(start(), events).0.aliases, i)].lookup,
        ),
    ensures
        lookups(run(start(), events).1, i) == 1,
        deactivations(run(start(), events).1, i) == 0,
        run(start(), events).0.results[rank(
            run(start(), events).0.aliases,
            i,
        )].deactivation is NotAttempted,
{
    lemma_scan_issues(events, i);
    lemma_passed_alias_is_settled(run(start(), events).0, i);
    lemma_passed_alias_is_called_once(run(start(), events).0, i);
}

/// Whatever the services answer, a scan asks exactly once to deactivate each
/// alias that it has passed and whose lookup reported a breach, be it one
/// breach or many.
pub proof fn lemma_scan_deactivates_breached_aliases_once(events: Seq<ScanEventView>, i: nat)
    requires
        i < run(start(), events).0.cursor,
        run(start(), events).0.aliases[i as int].active,
        compromised(
            run(start(), events).0.results[rank(run(start(), events).0.aliases, i)].lookup,
        ),
    ensures
        lookups(run(start(), events).1, i) == 1,
        deactivations(run(start(), events).1, i) == 1,
        run(start(), events).0.results[rank(
            run(start(), events).0.aliases,
            i,
        )].deactivation_attempted(),
{
    lemma_scan_issues(events, i);
    lemma_passed_alias_is_settled(run(start(), events).0, i);
    lemma_passed_alias_is_called_once(run(start(), events).0, i);
}

/// A scan whose listing fails ends at once: it has asked for nothing but the
/// listing, and its outcome is that failure.
pub proof fn lemma_scan_ends_on_failed_listing(events: Seq<ScanEventView>)
    requires
        events.len() > 0,
        events[0] is Listed,
        events[0]->Listed_0 is Err,
    ensures
        run(start(), events).1 == Seq::<Call>::empty(),
        run(start(), events).0.outcome() == Some(
            Err::<Seq<ScanResultView>, _>(events[0]->Listed_0->Err_0),
        ),
{
    let next = scan_step(start(), events[0]).0;
    assert(run(next, events.skip(1)).1 =~= Seq::<Call>::empty());
}

} // verus!
