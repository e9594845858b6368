use has_my_alias_been_pwned::anonaddy::AnonAddyAlias;
use has_my_alias_been_pwned::email_alias::{Alias, AliasError, AliasFailure};
use has_my_alias_been_pwned::hibp::{Breach, HIBPError, LookupFailure};
use has_my_alias_been_pwned::http::TransportError;
use has_my_alias_been_pwned::scan::{
    Deactivation, OrchestratorError, ScanAction, ScanEvent, ScanOrchestrator, ScanPhase, ScanResult,
};

fn alias(id: &str, email: &str, active: bool) -> AnonAddyAlias {
    AnonAddyAlias {
        id: id.to_string(),
        user_id: "ca0a4e09-c266-4f6f-845c-958db5090f09".to_string(),
        aliasable_id: None,
        aliasable_type: None,
        local_part: "first".to_string(),
        extension: None,
        domain: "x".to_string(),
        email: email.to_string(),
        active,
        description: Some(format!("label of {}", id)),
        emails_forwarded: 0,
        emails_blocked: 0,
        emails_replied: 0,
        emails_sent: 0,
        recipients: vec![],
        created_at: "2019-10-01 09:00:00".to_string(),
        updated_at: "2019-10-01 09:00:00".to_string(),
    }
}

fn breach(name: &str) -> Breach {
    Breach {
        name: name.to_string(),
        title: name.to_string(),
        domain: "example.com".to_string(),
        breach_date: "2013-10-04".to_string(),
        added_date: "2013-12-04T00:00:00Z".to_string(),
        modified_date: "2022-05-15T23:52:49Z".to_string(),
        pwn_count: 7,
        description: "".to_string(),
        data_classes: vec![],
        is_verified: true,
        is_fabricated: false,
        is_sensitive: false,
        is_retired: false,
        is_spam_list: false,
        logo_path: "".to_string(),
    }
}

fn check(index: usize, email: &str) -> ScanAction {
    ScanAction::Check { index, email: email.to_string() }
}

fn deactivate(index: usize, id: &str) -> ScanAction {
    ScanAction::Deactivate { index, id: id.to_string() }
}

fn no_response() -> TransportError {
    TransportError::Request("error sending request".to_string())
}

/// Hands a new scan each event in turn and gathers what it asks for.
fn drive<A: Alias>(events: Vec<ScanEvent<A>>) -> (ScanOrchestrator<A>, Vec<ScanAction>) {
    let mut scan = ScanOrchestrator::new();
    let mut actions = vec![];
    for event in events {
        assert!(scan.expects(&event));
        let (next, action) = scan.step(event);
        scan = next;
        actions.push(action);
    }
    (scan, actions)
}

fn listed(aliases: Vec<AnonAddyAlias>) -> ScanEvent<AnonAddyAlias> {
    ScanEvent::Listed(Ok(aliases))
}

fn found(names: Vec<&str>) -> ScanEvent<AnonAddyAlias> {
    ScanEvent::Checked(Ok(names.into_iter().map(breach).collect()))
}

#[test]
fn scan_begins_by_listing() {
    let scan: ScanOrchestrator<AnonAddyAlias> = ScanOrchestrator::new();

    assert_eq!(scan.phase(), ScanPhase::Listing);
    assert!(!scan.is_done());
    assert!(scan.expects(&ScanEvent::Listed(Ok(vec![]))));
    assert!(scan.expects(&ScanEvent::Listed(Err(AliasFailure::Transport(no_response())))));
    assert!(!scan.expects(&ScanEvent::Checked(Ok(vec![]))));
    assert!(!scan.expects(&ScanEvent::Deactivated(Ok(()))));
    assert_eq!(scan.results().len(), 0);
    assert!(scan.into_outcome().is_none());
}

#[test]
fn empty_listing_ends_the_scan() {
    let (scan, actions) = drive(vec![listed(vec![])]);

    assert_eq!(actions, vec![ScanAction::Finish]);
    assert!(scan.is_done());
    assert_eq!(scan.into_outcome(), Some(Ok(vec![])));
}

#[test]
fn inactive_aliases_are_never_called_for() {
    let (scan, actions) = drive(vec![
        listed(vec![
            alias("A", "a@x", false),
            alias("B", "b@x", true),
            alias("C", "c@x", false),
            alias("D", "d@x", false),
            alias("E", "e@x", true),
            alias("F", "f@x", false),
        ]),
        found(vec!["Adobe"]),
        ScanEvent::Deactivated(Ok(())),
        found(vec![]),
    ]);

    assert_eq!(
        actions,
        vec![check(1, "b@x"), deactivate(1, "B"), check(4, "e@x"), ScanAction::Finish]
    );
    let results = scan.into_outcome().unwrap().unwrap();
    let places: Vec<usize> = results.iter().map(|r| r.index).collect();
    assert_eq!(places, vec![1, 4]);
}

#[test]
fn listing_without_active_aliases_calls_nothing() {
    let (scan, actions) =
        drive(vec![listed(vec![alias("A", "a@x", false), alias("B", "b@x", false)])]);

    assert_eq!(actions, vec![ScanAction::Finish]);
    assert_eq!(scan.aliases().len(), 2);
    assert_eq!(scan.into_outcome(), Some(Ok(vec![])));
}

#[test]
fn alias_without_breaches_is_not_deactivated() {
    let (scan, actions) = drive(vec![listed(vec![alias("A", "a@x", true)]), found(vec![])]);

    assert_eq!(actions, vec![check(0, "a@x"), ScanAction::Finish]);
    let results = scan.into_outcome().unwrap().unwrap();
    assert_eq!(results.len(), 1);
    assert_eq!(results[0].breach_count(), 0);
    assert!(!results[0].deactivation_attempted());
    assert_eq!(results[0].deactivation, Deactivation::NotAttempted);
}

#[test]
fn alias_with_one_breach_is_deactivated_once() {
    let (scan, actions) = drive(vec![
        listed(vec![alias("A", "a@x", true), alias("B", "b@x", true)]),
        found(vec!["Adobe"]),
    ]);
    assert_eq!(actions, vec![check(0, "a@x"), deactivate(0, "A")]);
    assert_eq!(scan.phase(), ScanPhase::Deactivating);
    assert!(!scan.expects(&found(vec![])));

    let (scan, action) = scan.step(ScanEvent::Deactivated(Ok(())));

    assert_eq!(action, check(1, "b@x"));
    assert_eq!(scan.results().len(), 1);
    assert_eq!(scan.results()[0].breach_count(), 1);
    assert_eq!(scan.results()[0].deactivation, Deactivation::Succeeded);
}

#[test]
fn alias_with_many_breaches_is_deactivated_once() {
    let (scan, actions) = drive(vec![
        listed(vec![alias("A", "a@x", true), alias("B", "b@x", true)]),
        found(vec!["Adobe", "Gawker", "Stratfor"]),
        ScanEvent::Deactivated(Ok(())),
    ]);

    assert_eq!(actions, vec![check(0, "a@x"), deactivate(0, "A"), check(1, "b@x")]);
    assert_eq!(scan.results()[0].breach_count(), 3);
    assert_eq!(
        scan.results()[0].lookup,
        Ok(vec![breach("Adobe"), breach("Gawker"), breach("Stratfor")])
    );
    assert!(scan.results()[0].deactivation_attempted());
}

#[test]
fn breach_flags_do_not_matter() {
    let mut quiet = breach("Old");
    quiet.is_verified = false;
    quiet.is_fabricated = true;
    quiet.is_retired = true;
    quiet.is_spam_list = true;

    let (_, actions) =
        drive(vec![listed(vec![alias("A", "a@x", true)]), ScanEvent::Checked(Ok(vec![quiet]))]);

    assert_eq!(actions, vec![check(0, "a@x"), deactivate(0, "A")]);
}

#[test]
fn failed_listing_ends_the_scan_before_any_lookup() {
    let (scan, actions) = drive::<AnonAddyAlias>(vec![ScanEvent::Listed(Err(
        AliasFailure::Transport(no_response()),
    ))]);

    assert_eq!(actions, vec![ScanAction::Finish]);
    assert!(scan.is_done());
    assert!(!scan.expects(&found(vec![])));
    assert_eq!(scan.results().len(), 0);
    assert_eq!(
        scan.into_outcome(),
        Some(Err(OrchestratorError { listing: AliasFailure::Transport(no_response()) }))
    );
}

#[test]
fn refused_listing_ends_the_scan() {
    let refusal = AliasFailure::Provider(AliasError::new("Failed to get aliases.".to_string()));

    let (scan, actions) = drive::<AnonAddyAlias>(vec![ScanEvent::Listed(Err(refusal.clone()))]);

    assert_eq!(actions, vec![ScanAction::Finish]);
    assert_eq!(scan.into_outcome(), Some(Err(OrchestratorError { listing: refusal })));
}

#[test]
fn failed_lookup_does_not_end_the_scan() {
    let failure = LookupFailure::Lookup(HIBPError::new("Failed to get breaches.".to_string(), 500));

    let (scan, actions) = drive(vec![
        listed(vec![alias("A", "a@x", true), alias("B", "b@x", true)]),
        ScanEvent::Checked(Err(failure.clone())),
        found(vec![]),
    ]);

    assert_eq!(actions, vec![check(0, "a@x"), check(1, "b@x"), ScanAction::Finish]);
    let results = scan.into_outcome().unwrap().unwrap();
    assert_eq!(results.len(), 2);
    assert_eq!(results[0].lookup, Err(failure));
    assert_eq!(results[0].breach_count(), 0);
    assert_eq!(results[0].deactivation, Deactivation::NotAttempted);
    assert_eq!(results[1].lookup, Ok(vec![]));
}

#[test]
fn deactivate_alias_returns_error_for_no_response() {
    let (scan, actions) = drive(vec![
        listed(vec![alias("test-id", "a@x", true), alias("B", "b@x", true)]),
        found(vec!["Adobe"]),
        ScanEvent::Deactivated(Err(AliasFailure::Transport(no_response()))),
    ]);

    assert_eq!(actions, vec![check(0, "a@x"), deactivate(0, "test-id"), check(1, "b@x")]);
    match &scan.results()[0].deactivation {
        Deactivation::Failed(AliasFailure::Transport(actual_error)) => {
            assert!(actual_error.is_request());
        },
        _ => panic!("Error recorded was not a transport error!"),
    }
}

#[test]
fn refused_deactivation_is_recorded_and_not_retried() {
    let refusal =
        AliasFailure::Provider(AliasError::new("Failed to deactivate alias A.".to_string()));

    let (scan, actions) = drive(vec![
        listed(vec![alias("A", "a@x", true), alias("B", "b@x", true)]),
        found(vec!["Adobe"]),
        ScanEvent::Deactivated(Err(refusal.clone())),
        found(vec![]),
    ]);

    assert_eq!(
        actions,
        vec![check(0, "a@x"), deactivate(0, "A"), check(1, "b@x"), ScanAction::Finish]
    );
    let results = scan.into_outcome().unwrap().unwrap();
    assert_eq!(results[0].deactivation, Deactivation::Failed(refusal));
    assert!(results[0].deactivation_attempted());
    assert_eq!(results[1].deactivation, Deactivation::NotAttempted);
}

#[test]
fn end_to_end_only_the_breached_alias_is_deactivated() {
    let (scan, actions) = drive(vec![
        listed(vec![alias("A", "a@x", true), alias("B", "b@x", true)]),
        found(vec![]),
        found(vec!["Adobe", "Gawker"]),
        ScanEvent::Deactivated(Ok(())),
    ]);

    assert_eq!(
        actions,
        vec![check(0, "a@x"), check(1, "b@x"), deactivate(1, "B"), ScanAction::Finish]
    );
    assert!(scan.is_done());
    assert!(scan.aliases()[0].is_active());
    assert_eq!(
        scan.into_outcome(),
        Some(Ok(vec![
            ScanResult {
                index: 0,
                id: "A".to_string(),
                email: "a@x".to_string(),
                description: Some("label of A".to_string()),
                lookup: Ok(vec![]),
                deactivation: Deactivation::NotAttempted,
            },
            ScanResult {
                index: 1,
                id: "B".to_string(),
                email: "b@x".to_string(),
                description: Some("label of B".to_string()),
                lookup: Ok(vec![breach("Adobe"), breach("Gawker")]),
                deactivation: Deactivation::Succeeded,
            },
        ]))
    );
}

#[test]
fn finished_scan_takes_no_more_events() {
    let (scan, _) = drive(vec![listed(vec![])]);

    assert!(!scan.expects(&listed(vec![])));
    assert!(!scan.expects(&found(vec![])));
    assert!(!scan.expects(&ScanEvent::Deactivated(Ok(()))));
}

#[test]
fn try_step_hands_back_what_the_scan_cannot_take() {
    let scan: ScanOrchestrator<AnonAddyAlias> = ScanOrchestrator::new();

    let (scan, event) = match scan.try_step(found(vec!["Adobe"])) {
        Err(back) => back,
        Ok(_) => panic!("a scan that is listing took a lookup's answer"),
    };
    assert_eq!(scan.phase(), ScanPhase::Listing);
    assert!(matches!(event, ScanEvent::Checked(Ok(breaches)) if breaches == vec![breach("Adobe")]));

    let (scan, action) = match scan.try_step(listed(vec![alias("A", "a@x", true)])) {
        Ok(taken) => taken,
        Err(_) => panic!("a scan that is listing did not take the listing"),
    };
    assert_eq!(action, check(0, "a@x"));
    assert!(scan.try_step(ScanEvent::Deactivated(Ok(()))).is_err());
}
