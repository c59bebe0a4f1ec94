use lz4tool::guard::{is_affirmative, AskOverwrite, GuardDecision};

#[test]
fn new_keeps_force_flag() {
    assert!(AskOverwrite::new(true).force);
    assert!(!AskOverwrite::new(false).force);
}

#[test]
fn affirmative_answers() {
    assert!(is_affirmative("y"));
    assert!(is_affirmative("yes\n"));
    assert!(is_affirmative("Y\n"));
    assert!(is_affirmative("  y"));
    assert!(is_affirmative("\ty es"));
}

#[test]
fn negative_answers() {
    assert!(!is_affirmative("n"));
    assert!(!is_affirmative("no\n"));
    assert!(!is_affirmative(""));
    assert!(!is_affirmative("   \n"));
    assert!(!is_affirmative("maybe"));
}

#[test]
fn absent_destination_needs_no_prompt() {
    let guard = AskOverwrite::new(false);
    assert!(!guard.needs_prompt(false));
    assert_eq!(
        guard.decide(false, &None),
        GuardDecision::Proceed { remove_existing: false }
    );
}

#[test]
fn force_overwrites_without_prompt() {
    let guard = AskOverwrite::new(true);
    assert!(!guard.needs_prompt(true));
    assert_eq!(
        guard.decide(true, &Some(String::from("n\n"))),
        GuardDecision::Proceed { remove_existing: true }
    );
    assert_eq!(
        guard.decide(true, &None),
        GuardDecision::Proceed { remove_existing: true }
    );
}

#[test]
fn refusal_declines() {
    let guard = AskOverwrite::new(false);
    assert!(guard.needs_prompt(true));
    assert_eq!(guard.decide(true, &Some(String::from("n\n"))), GuardDecision::Decline);
    assert_eq!(guard.decide(true, &Some(String::from(""))), GuardDecision::Decline);
    assert_eq!(guard.decide(true, &None), GuardDecision::Decline);
}

#[test]
fn consent_authorizes_removal() {
    let guard = AskOverwrite::new(false);
    assert_eq!(
        guard.decide(true, &Some(String::from("y\n"))),
        GuardDecision::Proceed { remove_existing: true }
    );
    assert_eq!(
        guard.decide(true, &Some(String::from("  Yes please\n"))),
        GuardDecision::Proceed { remove_existing: true }
    );
}
