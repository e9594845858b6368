//! One pass over the aliases of an alias service: every active alias is
//! looked up once, and every alias that is found in a breach is asked to be
//! deactivated once.
//!
//! The orchestrator decides and does nothing else. It is handed what the
//! services answered, and says which call is due next.

use vstd::prelude::*;
use crate::email_alias::{string_view, Alias, AliasFailure, AliasFailureView, AliasModel};
use crate::hibp::{outcome_view, Breach, LookupFailure, LookupFailureView};

verus! {

/// Whether the alias service was asked to deactivate an alias, and how that
/// went.
#[derive(Debug, Clone, PartialEq, Eq)]
pub enum Deactivation {
    NotAttempted,
    Succeeded,
    Failed(AliasFailure),
}

/// The model of a [`Deactivation`].
pub ghost enum DeactivationView {
    NotAttempted,
    Succeeded,
    Failed(AliasFailureView),
}

impl View for Deactivation {
    type V = DeactivationView;

    open spec fn view(&self) -> DeactivationView {
        match *self {
            Deactivation::NotAttempted => DeactivationView::NotAttempted,
            Deactivation::Succeeded => DeactivationView::Succeeded,
            Deactivation::Failed(e) => DeactivationView::Failed(e@),
        }
    }
}

/// What a scan found out about, and did to, one active alias.
#[derive(Debug, PartialEq, Eq)]
pub struct ScanResult {
    /// The place of the alias in the listing.
    pub index: usize,
    pub id: String,
    pub email: String,
    pub description: Option<String>,
    /// The breaches that hold the alias's address, or why they are not known.
    pub lookup: Result<Vec<Breach>, LookupFailure>,
    pub deactivation: Deactivation,
}

/// The model of a [`ScanResult`].
pub ghost struct ScanResultView {
    pub index: nat,
    pub id: Seq<char>,
    pub email: Seq<char>,
    pub description: Option<Seq<char>>,
    pub lookup: Result<Seq<Breach>, LookupFailureView>,
    pub deactivation: DeactivationView,
}

impl View for ScanResult {
    type V = ScanResultView;

    open spec fn view(&self) -> ScanResultView {
        ScanResultView {
            index: self.index as nat,
            id: self.id@,
            email: self.email@,
            description: string_view(self.description),
            lookup: outcome_view(self.lookup),
            deactivation: self.deactivation@,
        }
    }
}

impl ScanResultView {
    /// The number of breaches that the lookup reported; none where it failed.
    pub open spec fn breach_count(self) -> nat {
        match self.lookup {
            Ok(breaches) => breaches.len(),
            Err(_) => 0,
        }
    }

    /// Whether the alias service was asked to deactivate the alias.
    pub open spec fn deactivation_attempted(self) -> bool {
        !(self.deactivation is NotAttempted)
    }
}

impl ScanResult {
    /// The number of breaches that the lookup reported; none where it failed.
    pub fn breach_count(&self) -> (count: usize)
        ensures
            count == self@.breach_count(),
    {
        match &self.lookup {
            Ok(breaches) => breaches.len(),
            Err(_) => 0,
        }
    }

    /// Whether the alias service was asked to deactivate the alias.
    pub fn deactivation_attempted(&self) -> (attempted: bool)
        ensures
            attempted == self@.deactivation_attempted(),
    {
        match &self.deactivation {
            Deactivation::NotAttempted => false,
            _ => true,
        }
    }
}

/// The failure of a scan as a whole: the aliases could not be listed.
#[derive(Debug, Clone, PartialEq, Eq)]
pub struct OrchestratorError {
    pub listing: AliasFailure,
}

/// How far a scan has come.
#[derive(Debug, Clone, Copy, PartialEq, Eq)]
pub enum ScanPhase {
    /// The alias service is being asked for its aliases.
    Listing,
    /// The address of the alias at the cursor is being looked up.
    Checking,
    /// The alias at the cursor is being deactivated.
    Deactivating,
    /// The scan is over.
    Done,
}

/// What a service answered to the call that the scan asked for last.
pub enum ScanEvent<A> {
    Listed(Result<Vec<A>, AliasFailure>),
    Checked(Result<Vec<Breach>, LookupFailure>),
    Deactivated(Result<(), AliasFailure>),
}

/// The model of a [`ScanEvent`].
pub ghost enum ScanEventView {
    Listed(Result<Seq<AliasModel>, AliasFailureView>),
    Checked(Result<Seq<Breach>, LookupFailureView>),
    Deactivated(Result<(), AliasFailureView>),
}

/// The models of the aliases of a listing, in its order.
pub open spec fn models<A: Alias>(aliases: Seq<A>) -> Seq<AliasModel> {
    aliases.map_values(|a: A| a.model())
}

impl<A: Alias> View for ScanEvent<A> {
    type V = ScanEventView;

    open spec fn view(&self) -> ScanEventView {
        match *self {
            ScanEvent::Listed(Ok(aliases)) => ScanEventView::Listed(Ok(models(aliases@))),
            ScanEvent::Listed(Err(e)) => ScanEventView::Listed(Err(e@)),
            ScanEvent::Checked(outcome) => ScanEventView::Checked(outcome_view(outcome)),
            ScanEvent::Deactivated(Ok(())) => ScanEventView::Deactivated(Ok(())),
            ScanEvent::Deactivated(Err(e)) => ScanEventView::Deactivated(Err(e@)),
        }
    }
}

/// What a scan asks to be done next.
#[derive(Debug, Clone, PartialEq, Eq)]
pub enum ScanAction {
    /// Look up the address of the alias at this place of the listing.
    Check { index: usize, email: String },
    /// Ask the alias service to deactivate the alias at this place of the
    /// listing.
    Deactivate { index: usize, id: String },
    /// Nothing: the scan is over.
    Finish,
}

/// The model of a [`ScanAction`].
pub ghost enum ScanActionView {
    Check { index: nat, email: Seq<char> },
    Deactivate { index: nat, id: Seq<char> },
    Finish,
}

impl View for ScanAction {
    type V = ScanActionView;

    open spec fn view(&self) -> ScanActionView {
        match *self {
            ScanAction::Check { index, email } => ScanActionView::Check {
                index: index as nat,
                email: email@,
            },
            ScanAction::Deactivate { index, id } => ScanActionView::Deactivate {
                index: index as nat,
                id: id@,
            },
            ScanAction::Finish => ScanActionView::Finish,
        }
    }
}

/// A scan in progress.
pub ghost struct ScanView {
    pub phase: ScanPhase,
    /// The listing, once the alias service has given it.
    pub aliases: Seq<AliasModel>,
    /// The place in the listing of the alias that is being dealt with; the
    /// length of the listing when none is left.
    pub cursor: nat,
    /// The breaches found for the alias that is being deactivated.
    pub pending: Seq<Breach>,
    /// What has been settled, in the order of the listing.
    pub results: Seq<ScanResultView>,
    /// Why the aliases could not be listed, where they could not.
    pub error: Option<AliasFailureView>,
}

/// A scan that has just asked for the listing.
pub open spec fn start() -> ScanView {
    ScanView {
        phase: ScanPhase::Listing,
        aliases: seq![],
        cursor: 0,
        pending: seq![],
        results: seq![],
        error: None,
    }
}

/// The events that a scan can take in a phase: the answer to the call that
/// is out.
pub open spec fn expects(phase: ScanPhase, event: ScanEventView) -> bool {
    match phase {
        ScanPhase::Listing => event is Listed,
        ScanPhase::Checking => event is Checked,
        ScanPhase::Deactivating => event is Deactivated,
        ScanPhase::Done => false,
    }
}

/// The place of the first active alias at or after `from`; the length of the
/// listing where there is none.
pub open spec fn next_active(aliases: Seq<AliasModel>, from: nat) -> nat
    decreases aliases.len() - from,
{
    if from >= aliases.len() {
        aliases.len()
    } else if aliases[from as int].active {
        from
    } else {
        next_active(aliases, from + 1)
    }
}

/// The scan moved on to the first active alias at or after `from`, with the
/// lookup that is then due, or to its end.
pub open spec fn seek(s: ScanView, from: nat) -> (ScanView, ScanActionView) {
    let next = next_active(s.aliases, from);
    if next < s.aliases.len() {
        (
            ScanView { phase: ScanPhase::Checking, cursor: next, ..s },
            ScanActionView::Check { index: next, email: s.aliases[next as int].email },
        )
    } else {
        (ScanView { phase: ScanPhase::Done, cursor: next, ..s }, ScanActionView::Finish)
    }
}

/// What is recorded for the alias at the cursor.
pub open spec fn record(
    s: ScanView,
    lookup: Result<Seq<Breach>, LookupFailureView>,
    deactivation: DeactivationView,
) -> ScanResultView {
    let alias = s.aliases[s.cursor as int];
    ScanResultView {
        index: s.cursor,
        id: alias.id,
        email: alias.email,
        description: alias.description,
        lookup,
        deactivation,
    }
}

/// The scan with the alias at the cursor settled, moved on to the next.
pub open spec fn settle(
    s: ScanView,
    lookup: Result<Seq<Breach>, LookupFailureView>,
    deactivation: DeactivationView,
) -> (ScanView, ScanActionView) {
    seek(
        ScanView { results: s.results.push(record(s, lookup, deactivation)), pending: seq![], ..s },
        s.cursor + 1,
    )
}

/// Whether a lookup's outcome calls for the alias to be deactivated: it does
/// as soon as one breach is reported, whatever the breach.
pub open spec fn compromised(lookup: Result<Seq<Breach>, LookupFailureView>) -> bool {
    lookup matches Ok(breaches) && breaches.len() >= 1
}

/// The scan after an event, and what it asks for next.
pub open spec fn scan_step(s: ScanView, event: ScanEventView) -> (ScanView, ScanActionView) {
    match event {
        ScanEventView::Listed(Ok(aliases)) => seek(ScanView { aliases, ..s }, 0),
        ScanEventView::Listed(Err(e)) => (
            ScanView { phase: ScanPhase::Done, error: Some(e), ..s },
            ScanActionView::Finish,
        ),
        ScanEventView::Checked(lookup) => if compromised(lookup) {
            (
                ScanView { phase: ScanPhase::Deactivating, pending: lookup->Ok_0, ..s },
                ScanActionView::Deactivate {
                    index: s.cursor,
                    id: s.aliases[s.cursor as int].id,
                },
            )
        } else {
            settle(s, lookup, DeactivationView::NotAttempted)
        },
        ScanEventView::Deactivated(Ok(_)) => settle(s, Ok(s.pending), DeactivationView::Succeeded),
        ScanEventView::Deactivated(Err(e)) => settle(s, Ok(s.pending), DeactivationView::Failed(e)),
    }
}

/// The places of the active aliases before `upto`, in the order of the
/// listing.
pub open spec fn active_before(aliases: Seq<AliasModel>, upto: nat) -> Seq<nat>
    decreases upto,
{
    if upto == 0 {
        seq![]
    } else {
        let rest = active_before(aliases, (upto - 1) as nat);
        if upto <= aliases.len() && aliases[upto - 1].active {
            rest.push((upto - 1) as nat)
        } else {
            rest
        }
    }
}

/// Whether a result is one that a scan of the listing can record: it names an
/// active alias of the listing, and a deactivation was attempted if and only
/// if the lookup reported a breach.
pub open spec fn settled(aliases: Seq<AliasModel>, r: ScanResultView) -> bool {
    &&& r.index < aliases.len()
    &&& aliases[r.index as int].active
    &&& r.id == aliases[r.index as int].id
    &&& r.email == aliases[r.index as int].email
    &&& r.description == aliases[r.index as int].description
    &&& r.deactivation_attempted() <==> compromised(r.lookup)
}

/// Whether the results are those of the active aliases before `upto`, one
/// each, in the order of the listing.
pub open spec fn covers(aliases: Seq<AliasModel>, results: Seq<ScanResultView>, upto: nat) -> bool {
    &&& results.len() == active_before(aliases, upto).len()
    &&& forall|k: int|
        0 <= k < results.len() ==> (#[trigger] results[k]).index == active_before(aliases, upto)[k]
            && settled(aliases, results[k])
}

impl ScanView {
    /// What holds of a scan at every moment.
    pub open spec fn wf(self) -> bool {
        &&& self.cursor <= self.aliases.len()
        &&& covers(self.aliases, self.results, self.cursor)
        &&& self.error is Some ==> self.phase == ScanPhase::Done && self.aliases.len() == 0
        &&& match self.phase {
            ScanPhase::Listing => self == start(),
            ScanPhase::Checking => self.cursor < self.aliases.len()
                && self.aliases[self.cursor as int].active && self.pending.len() == 0,
            ScanPhase::Deactivating => self.cursor < self.aliases.len()
                && self.aliases[self.cursor as int].active && self.pending.len() >= 1,
            ScanPhase::Done => self.cursor == self.aliases.len() && self.pending.len() == 0,
        }
    }

    /// What the scan has come to, once it is over: the results, or the
    /// failure to list the aliases.
    pub open spec fn outcome(self) -> Option<Result<Seq<ScanResultView>, AliasFailureView>> {
        if self.phase != ScanPhase::Done {
            None
        } else {
            match self.error {
                Some(e) => Some(Err(e)),
                None => Some(Ok(self.results)),
            }
        }
    }
}

/// No alias between `from` and the next active one is active.
proof fn lemma_next_active(aliases: Seq<AliasModel>, from: nat)
    requires
        from <= aliases.len(),
    ensures
        from <= next_active(aliases, from) <= aliases.len(),
        next_active(aliases, from) < aliases.len() ==> aliases[next_active(
            aliases,
            from,
        ) as int].active,
        active_before(aliases, next_active(aliases, from)) == active_before(aliases, from),
    decreases aliases.len() - from,
{
    if from < aliases.len() && !aliases[from as int].active {
        lemma_next_active(aliases, from + 1);
    }
}

/// Moving on from a scan whose results cover the aliases before `from`
/// leaves a scan that is well formed.
proof fn lemma_seek_keeps_wf(s: ScanView, from: nat)
    requires
        from <= s.aliases.len(),
        covers(s.aliases, s.results, from),
        s.error is None,
        s.pending.len() == 0,
    ensures
        seek(s, from).0.wf(),
{
    lemma_next_active(s.aliases, from);
}

/// A scan stays well formed, whatever the services answer.
pub proof fn lemma_step_keeps_wf(s: ScanView, event: ScanEventView)
    requires
        s.wf(),
        expects(s.phase, event),
    ensures
        scan_step(s, event).0.wf(),
{
    match event {
        ScanEventView::Listed(Ok(aliases)) => {
            lemma_seek_keeps_wf(ScanView { aliases, ..s }, 0);
        },
        ScanEventView::Listed(Err(e)) => {},
        ScanEventView::Checked(lookup) => {
            if !compromised(lookup) {
                lemma_settle_keeps_wf(s, lookup, DeactivationView::NotAttempted);
            }
        },
        ScanEventView::Deactivated(Ok(_)) => {
            lemma_settle_keeps_wf(s, Ok(s.pending), DeactivationView::Succeeded);
        },
        ScanEventView::Deactivated(Err(e)) => {
            lemma_settle_keeps_wf(s, Ok(s.pending), DeactivationView::Failed(e));
        },
    }
}

/// With the alias at the cursor recorded, the results cover the aliases up to
/// and with it.
proof fn lemma_settle_covers(
    s: ScanView,
    lookup: Result<Seq<Breach>, LookupFailureView>,
    deactivation: DeactivationView,
)
    requires
        s.wf(),
        s.phase == ScanPhase::Checking || s.phase == ScanPhase::Deactivating,
        !(deactivation is NotAttempted) <==> compromised(lookup),
    ensures
        covers(s.aliases, s.results.push(record(s, lookup, deactivation)), s.cursor + 1),
{
    let results = s.results.push(record(s, lookup, deactivation));
    assert forall|k: int| 0 <= k < results.len() implies (#[trigger] results[k]).index
        == active_before(s.aliases, s.cursor + 1)[k] && settled(s.aliases, results[k]) by {}
}

/// Settling the alias at the cursor leaves a scan that is well formed.
proof fn lemma_settle_keeps_wf(
    s: ScanView,
    lookup: Result<Seq<Breach>, LookupFailureView>,
    deactivation: DeactivationView,
)
    requires
        s.wf(),
        s.phase == ScanPhase::Checking || s.phase == ScanPhase::Deactivating,
        !(deactivation is NotAttempted) <==> compromised(lookup),
    ensures
        settle(s, lookup, deactivation).0.wf(),
{
    lemma_settle_covers(s, lookup, deactivation);
    lemma_seek_keeps_wf(
        ScanView {
            results: s.results.push(record(s, lookup, deactivation)),
            pending: seq![],
            ..s
        },
        s.cursor + 1,
    );
}

/// The most steps that a scan can still take once it has its listing: two
/// for each alias that is left, one of them taken where the alias at the
/// cursor is being deactivated.
pub open spec fn steps_left(s: ScanView) -> int {
    match s.phase {
        ScanPhase::Deactivating => 2 * (s.aliases.len() - s.cursor) - 1,
        ScanPhase::Done => 0,
        _ => 2 * (s.aliases.len() - s.cursor),
    }
}

/// A scan is one pass: a listing of `n` aliases leaves at most `2 * n` steps,
/// and every step after it leaves fewer than there were.
pub proof fn lemma_step_advances(s: ScanView, event: ScanEventView)
    requires
        s.wf(),
        expects(s.phase, event),
    ensures
        0 <= steps_left(scan_step(s, event).0),
        s.phase != ScanPhase::Listing ==> steps_left(scan_step(s, event).0) < steps_left(s),
        event matches ScanEventView::Listed(Ok(aliases)) ==> steps_left(scan_step(s, event).0) <= 2
            * aliases.len(),
{
    lemma_step_keeps_wf(s, event);
    match event {
        ScanEventView::Listed(Ok(aliases)) => {
            lemma_next_active(aliases, 0);
        },
        ScanEventView::Listed(Err(_)) => {},
        _ => {
            lemma_next_active(s.aliases, s.cursor + 1);
        },
    }
}

/// A scan that is about to look up the alias at the cursor.
spec fn checking(aliases: Seq<AliasModel>, cursor: nat, results: Seq<ScanResultView>)
    -> ScanView {
    ScanView { phase: ScanPhase::Checking, aliases, cursor, results, ..start() }
}

/// The orchestrator of one scan. A value of it is well formed at every
/// moment.
pub struct ScanOrchestrator<A: Alias> {
    phase: ScanPhase,
    aliases: Vec<A>,
    cursor: usize,
    pending: Vec<Breach>,
    results: Vec<ScanResult>,
    error: Option<AliasFailure>,
}

/// The models of what has been settled.
pub open spec fn result_views(results: Seq<ScanResult>) -> Seq<ScanResultView> {
    results.map_values(|r: ScanResult| r@)
}

/// The model of a failure that may be absent.
pub open spec fn failure_view(failure: Option<AliasFailure>) -> Option<AliasFailureView> {
    match failure {
        Some(e) => Some(e@),
        None => None,
    }
}

impl<A: Alias> View for ScanOrchestrator<A> {
    type V = ScanView;

    closed spec fn view(&self) -> ScanView {
        ScanView {
            phase: self.phase,
            aliases: models(self.aliases@),
            cursor: self.cursor as nat,
            pending: self.pending@,
            results: result_views(self.results@),
            error: failure_view(self.error),
        }
    }
}

impl<A: Alias> ScanOrchestrator<A> {
    #[verifier::type_invariant]
    closed spec fn well_formed(self) -> bool {
        self@.wf()
    }

    /// A scan at its beginning: the alias service is to be asked for its
    /// aliases, and the answer handed to [`ScanOrchestrator::step`].
    pub fn new() -> (scan: Self)
        ensures
            scan@ == start(),
            scan@.wf(),
    {
        let aliases: Vec<A> = Vec::new();
        let results: Vec<ScanResult> = Vec::new();
        assert(models(aliases@) =~= seq![]);
        assert(result_views(results@) =~= seq![]);
        ScanOrchestrator {
            phase: ScanPhase::Listing,
            aliases,
            cursor: 0,
            pending: Vec::new(),
            results,
            error: None,
        }
    }

    /// How far the scan has come. A scan of this type is well formed,
    /// wherever it comes from.
    pub fn phase(&self) -> (phase: ScanPhase)
        ensures
            phase == self@.phase,
            self@.wf(),
    {
        proof {
            use_type_invariant(self);
        }
        self.phase
    }

    /// Whether the scan is over.
    pub fn is_done(&self) -> (done: bool)
        ensures
            done == (self@.phase == ScanPhase::Done),
    {
        match self.phase {
            ScanPhase::Done => true,
            _ => false,
        }
    }

    /// Whether the scan can take the event in its present phase.
    pub fn expects(&self, event: &ScanEvent<A>) -> (b: bool)
        ensures
            b == expects(self@.phase, event@),
    {
        match self.phase {
            ScanPhase::Listing => match event {
                ScanEvent::Listed(_) => true,
                _ => false,
            },
            ScanPhase::Checking => match event {
                ScanEvent::Checked(_) => true,
                _ => false,
            },
            ScanPhase::Deactivating => match event {
                ScanEvent::Deactivated(_) => true,
                _ => false,
            },
            ScanPhase::Done => false,
        }
    }

    /// The listing, once the alias service has given it.
    pub fn aliases(&self) -> (aliases: &Vec<A>)
        ensures
            models(aliases@) == self@.aliases,
    {
        &self.aliases
    }

    /// What has been settled so far, in the order of the listing.
    pub fn results(&self) -> (results: &Vec<ScanResult>)
        ensures
            result_views(results@) == self@.results,
    {
        &self.results
    }

    /// What the scan has come to: nothing yet while it is under way, then
    /// its results, or the failure to list the aliases.
    pub fn into_outcome(self) -> (outcome: Option<Result<Vec<ScanResult>, OrchestratorError>>)
        ensures
            match outcome {
                None => self@.outcome() is None,
                Some(Ok(results)) => self@.outcome() == Some(
                    Ok::<Seq<ScanResultView>, AliasFailureView>(result_views(results@)),
                ),
                Some(Err(e)) => self@.outcome() == Some(
                    Err::<Seq<ScanResultView>, AliasFailureView>(e.listing@),
                ),
            },
    {
        match self.phase {
            ScanPhase::Done => match self.error {
                Some(e) => Some(Err(OrchestratorError { listing: e })),
                None => Some(Ok(self.results)),
            },
            _ => None,
        }
    }

    /// The scan on a listing whose results cover the aliases before `from`,
    /// moved on to the first active alias at or after `from`.
    fn seek(aliases: Vec<A>, results: Vec<ScanResult>, from: usize) -> (next: (Self, ScanAction))
        requires
            from <= aliases.len(),
            covers(models(aliases@), result_views(results@), from as nat),
        ensures
            (next.0@, next.1@) == seek(
                ScanView {
                    aliases: models(aliases@),
                    results: result_views(results@),
                    ..start()
                },
                from as nat,
            ),
    {
        let n = aliases.len();
        let mut next: usize = from;
        while next < n && !aliases[next].is_active()
            invariant
                from <= next <= n,
                n == aliases.len(),
                next_active(models(aliases@), next as nat) == next_active(
                    models(aliases@),
                    from as nat,
                ),
            decreases n - next,
        {
            next += 1;
        }
        proof {
            lemma_seek_keeps_wf(
                ScanView {
                    aliases: models(aliases@),
                    results: result_views(results@),
                    ..start()
                },
                from as nat,
            );
        }
        if next < n {
            let email = String::from_str(aliases[next].get_email());
            (
                ScanOrchestrator {
                    phase: ScanPhase::Checking,
                    aliases,
                    cursor: next,
                    pending: Vec::new(),
                    results,
                    error: None,
                },
                ScanAction::Check { index: next, email },
            )
        } else {
            (
                ScanOrchestrator {
                    phase: ScanPhase::Done,
                    aliases,
                    cursor: next,
                    pending: Vec::new(),
                    results,
                    error: None,
                },
                ScanAction::Finish,
            )
        }
    }

    /// The scan with the alias at the cursor recorded, moved on to the next.
    fn settle(
        aliases: Vec<A>,
        cursor: usize,
        results: Vec<ScanResult>,
        lookup: Result<Vec<Breach>, LookupFailure>,
        deactivation: Deactivation,
    ) -> (next: (Self, ScanAction))
        requires
            checking(models(aliases@), cursor as nat, result_views(results@)).wf(),
            deactivation@ is NotAttempted <==> !compromised(outcome_view(lookup)),
        ensures
            (next.0@, next.1@) == settle(
                checking(models(aliases@), cursor as nat, result_views(results@)),
                outcome_view(lookup),
                deactivation@,
            ),
    {
        let ghost before = checking(models(aliases@), cursor as nat, result_views(results@));
        let mut results = results;
        let alias = &aliases[cursor];
        let description = match alias.get_description() {
            Some(d) => Some(String::from_str(d)),
            None => None,
        };
        let result = ScanResult {
            index: cursor,
            id: String::from_str(alias.get_id()),
            email: String::from_str(alias.get_email()),
            description,
            lookup,
            deactivation,
        };
        results.push(result);
        assert(result_views(results@) =~= before.results.push(result@));
        proof {
            lemma_settle_covers(before, outcome_view(lookup), deactivation@);
        }
        assert(cursor < aliases.len());
        Self::seek(aliases, results, cursor + 1)
    }

    /// Takes what a service answered to the last call, and gives the scan
    /// after it with the call that is due next.
    pub fn step(self, event: ScanEvent<A>) -> (next: (Self, ScanAction))
        requires
            expects(self@.phase, event@),
        ensures
            (next.0@, next.1@) == scan_step(self@, event@),
            next.0@.wf(),
    {
        proof {
            use_type_invariant(&self);
            lemma_step_keeps_wf(self@, event@);
        }
        match event {
            ScanEvent::Listed(Ok(aliases)) => {
                let results: Vec<ScanResult> = Vec::new();
                assert(result_views(results@) =~= seq![]);
                Self::seek(aliases, results, 0)
            },
            ScanEvent::Listed(Err(e)) => (
                ScanOrchestrator {
                    phase: ScanPhase::Done,
                    aliases: self.aliases,
                    cursor: self.cursor,
                    pending: self.pending,
                    results: self.results,
                    error: Some(e),
                },
                ScanAction::Finish,
            ),
            ScanEvent::Checked(Ok(breaches)) => {
                if breaches.len() >= 1 {
                    let id = String::from_str(self.aliases[self.cursor].get_id());
                    let index = self.cursor;
                    (
                        ScanOrchestrator {
                            phase: ScanPhase::Deactivating,
                            aliases: self.aliases,
                            cursor: self.cursor,
                            pending: breaches,
                            results: self.results,
                            error: self.error,
                        },
                        ScanAction::Deactivate { index, id },
                    )
                } else {
                    Self::settle(
                        self.aliases,
                        self.cursor,
                        self.results,
                        Ok(breaches),
                        Deactivation::NotAttempted,
                    )
                }
            },
            ScanEvent::Checked(Err(e)) => Self::settle(
                self.aliases,
                self.cursor,
                self.results,
                Err(e),
                Deactivation::NotAttempted,
            ),
            ScanEvent::Deactivated(outcome) => {
                let deactivation = match outcome {
                    Ok(_) => Deactivation::Succeeded,
                    Err(e) => Deactivation::Failed(e),
                };
                Self::settle(
                    self.aliases,
                    self.cursor,
                    self.results,
                    Ok(self.pending),
                    deactivation,
                )
            },
        }
    }

    /// Takes the event if the scan can take it in its present phase, as
    /// [`ScanOrchestrator::step`] does; otherwise hands both back as they
    /// came.
    pub fn try_step(self, event: ScanEvent<A>) -> (next: Result<
        (Self, ScanAction),
        (Self, ScanEvent<A>),
    >)
        ensures
            match next {
                Ok(taken) => expects(self@.phase, event@) && (taken.0@, taken.1@) == scan_step(
                    self@,
                    event@,
                ) && taken.0@.wf(),
                Err(back) => !expects(self@.phase, event@) && back.0 == self && back.1 == event,
            },
    {
        if self.expects(&event) {
            Ok(self.step(event))
        } else {
            Err((self, event))
        }
    }
}

} // verus!
