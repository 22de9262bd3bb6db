use ledger_auth::errors::AuthError;
use ledger_auth::web_auth::{
    Arg, AuthVerdict, DataKey, VerifyAction, VerifyPhase, WebAuthContract, WebAuthError,
};

const ACCOUNT: &str = "GBZXN7PIRZGNMHGA7MUUUF4GWPY5AYPV6LY4UV2GL6VJGIQRXFDNMADI";
const HOME: &str = "CCQM5CJ73GBCFZ7XLCLCIAML6R5W2GBA4TNYKY5WPVVQ6ICXDXZKAAAA";
const CLIENT: &str = "GA7QYNF7SOWQ3GLR2BGMZEHXAVIRZA4KVWLTJJFC7MGXUA74P7UJVAAA";
const ADMIN: &str = "GDNSSYSCSSJ76FER5WEEXME5G4MTCUBKDRQSKOYP36KUKVDB2VCBCHGN";

fn arg(name: &str, value: &str) -> Arg {
    Arg {
        name: name.to_string(),
        value: value.to_string(),
    }
}

fn grants(ids: &[&str]) -> Vec<String> {
    ids.iter().map(|id| id.to_string()).collect()
}

fn constructed_verifier() -> WebAuthContract {
    let mut verifier = WebAuthContract::new();
    verifier.__constructor(ADMIN.to_string());
    verifier
}

#[test]
fn both_mandatory_authorized_granted() {
    let verifier = constructed_verifier();
    let args = vec![arg("account", ACCOUNT), arg("home_domain_address", HOME)];
    let granted = grants(&[ACCOUNT, HOME]);
    assert_eq!(verifier.web_auth_verify(&args, &granted), AuthVerdict::Granted);
}

#[test]
fn missing_account_rejected() {
    let verifier = constructed_verifier();
    let args = vec![arg("home_domain_address", HOME)];
    let granted = grants(&[ACCOUNT, HOME]);
    assert_eq!(
        verifier.web_auth_verify(&args, &granted),
        AuthVerdict::Rejected(WebAuthError::MissingArgument)
    );
}

#[test]
fn missing_home_domain_rejected_even_with_account_authorized() {
    let verifier = constructed_verifier();
    let args = vec![arg("account", ACCOUNT)];
    let granted = grants(&[ACCOUNT]);
    assert_eq!(
        verifier.web_auth_verify(&args, &granted),
        AuthVerdict::Rejected(WebAuthError::MissingArgument)
    );
}

#[test]
fn all_three_authorized_granted() {
    let verifier = constructed_verifier();
    let args = vec![
        arg("account", ACCOUNT),
        arg("home_domain_address", HOME),
        arg("client_domain_address", CLIENT),
    ];
    let granted = grants(&[ACCOUNT, HOME, CLIENT]);
    assert_eq!(verifier.web_auth_verify(&args, &granted), AuthVerdict::Granted);
}

#[test]
fn client_domain_present_but_unauthorized_denied() {
    let verifier = constructed_verifier();
    let args = vec![
        arg("account", ACCOUNT),
        arg("home_domain_address", HOME),
        arg("client_domain_address", CLIENT),
    ];
    let granted = grants(&[ACCOUNT, HOME]);
    assert_eq!(verifier.web_auth_verify(&args, &granted), AuthVerdict::Denied);
}

#[test]
fn client_domain_absent_is_skipped() {
    let verifier = constructed_verifier();
    let args = vec![arg("account", ACCOUNT), arg("home_domain_address", HOME)];
    let granted = grants(&[ACCOUNT, HOME]);
    assert_eq!(verifier.web_auth_verify(&args, &granted), AuthVerdict::Granted);
}

#[test]
fn unauthorized_account_denied() {
    let verifier = constructed_verifier();
    let args = vec![arg("account", ACCOUNT), arg("home_domain_address", HOME)];
    let granted = grants(&[HOME]);
    assert_eq!(verifier.web_auth_verify(&args, &granted), AuthVerdict::Denied);
}

#[test]
fn unauthorized_home_domain_denied() {
    let verifier = constructed_verifier();
    let args = vec![arg("account", ACCOUNT), arg("home_domain_address", HOME)];
    let granted = grants(&[ACCOUNT]);
    assert_eq!(verifier.web_auth_verify(&args, &granted), AuthVerdict::Denied);
}

#[test]
fn account_check_precedes_home_domain_lookup() {
    // The account identity is asked before home_domain_address is even looked
    // up, so an unauthorized account is a denial, not a missing argument.
    let verifier = constructed_verifier();
    let args = vec![arg("account", ACCOUNT)];
    let granted = grants(&[]);
    assert_eq!(verifier.web_auth_verify(&args, &granted), AuthVerdict::Denied);
}

#[test]
fn unrelated_arguments_are_ignored() {
    let verifier = constructed_verifier();
    let args = vec![
        arg("nonce", "12345"),
        arg("account", ACCOUNT),
        arg("home_domain", "example.com"),
        arg("home_domain_address", HOME),
    ];
    let granted = grants(&[ACCOUNT, HOME]);
    assert_eq!(verifier.web_auth_verify(&args, &granted), AuthVerdict::Granted);
}

#[test]
fn verify_is_idempotent() {
    let verifier = constructed_verifier();
    let args = vec![
        arg("account", ACCOUNT),
        arg("home_domain_address", HOME),
        arg("client_domain_address", CLIENT),
    ];
    for granted in [grants(&[ACCOUNT, HOME, CLIENT]), grants(&[ACCOUNT]), grants(&[])] {
        assert_eq!(
            verifier.web_auth_verify(&args, &granted),
            verifier.web_auth_verify(&args, &granted)
        );
    }
}

#[test]
fn verify_steps_walk_the_fixed_order() {
    let args = vec![
        arg("account", ACCOUNT),
        arg("home_domain_address", HOME),
        arg("client_domain_address", CLIENT),
    ];
    let step = WebAuthContract::verify_step(&VerifyPhase::Start, &args);
    match step {
        VerifyAction::RequireAuth { identity, next } => {
            assert_eq!(identity, ACCOUNT.to_string());
            assert_eq!(next, VerifyPhase::AccountAuthorized);
        }
        other => panic!("expected an authorization request, got {:?}", other),
    }
    let step = WebAuthContract::verify_step(&VerifyPhase::AccountAuthorized, &args);
    match step {
        VerifyAction::RequireAuth { identity, next } => {
            assert_eq!(identity, HOME.to_string());
            assert_eq!(next, VerifyPhase::HomeDomainAuthorized);
        }
        other => panic!("expected an authorization request, got {:?}", other),
    }
    let step = WebAuthContract::verify_step(&VerifyPhase::HomeDomainAuthorized, &args);
    match step {
        VerifyAction::RequireAuth { identity, next } => {
            assert_eq!(identity, CLIENT.to_string());
            assert_eq!(next, VerifyPhase::ClientDomainAuthorized);
        }
        other => panic!("expected an authorization request, got {:?}", other),
    }
    let step = WebAuthContract::verify_step(&VerifyPhase::ClientDomainAuthorized, &args);
    assert!(matches!(step, VerifyAction::Finish(Ok(()))));
}

#[test]
fn verify_step_reports_missing_mandatory_arguments() {
    let args = vec![arg("home_domain_address", HOME)];
    let step = WebAuthContract::verify_step(&VerifyPhase::Start, &args);
    assert!(matches!(
        step,
        VerifyAction::Finish(Err(WebAuthError::MissingArgument))
    ));
    let args = vec![arg("account", ACCOUNT)];
    let step = WebAuthContract::verify_step(&VerifyPhase::AccountAuthorized, &args);
    assert!(matches!(
        step,
        VerifyAction::Finish(Err(WebAuthError::MissingArgument))
    ));
    let step = WebAuthContract::verify_step(&VerifyPhase::HomeDomainAuthorized, &args);
    assert!(matches!(step, VerifyAction::Finish(Ok(()))));
}

#[test]
fn verifier_reads_before_construction_are_misconfiguration() {
    let verifier = WebAuthContract::new();
    assert_eq!(verifier.get(&DataKey::Admin), Err(AuthError::Misconfiguration));
    assert_eq!(verifier.admin(), Err(AuthError::Misconfiguration));
    assert_eq!(verifier.upgrade_authorizer(), Err(AuthError::Misconfiguration));
}

#[test]
fn verifier_reads_after_construction_return_stored_state() {
    let verifier = constructed_verifier();
    assert_eq!(verifier.admin(), Ok(&ADMIN.to_string()));
    assert_eq!(verifier.get(&DataKey::Admin), Ok(&ADMIN.to_string()));
    assert_eq!(verifier.upgrade_authorizer(), Ok(&ADMIN.to_string()));
}

#[test]
fn verifier_upgrade_with_admin_authorization_succeeds() {
    let verifier = constructed_verifier();
    let hash = vec![0xcdu8; 32];
    assert_eq!(verifier.upgrade(hash.clone(), true), Ok(hash));
}

#[test]
fn verifier_upgrade_without_admin_authorization_is_denied() {
    let verifier = constructed_verifier();
    assert_eq!(
        verifier.upgrade(vec![0xcdu8; 32], false),
        Err(AuthError::AuthDenied)
    );
}

#[test]
fn verifier_upgrade_before_construction_is_misconfiguration() {
    let verifier = WebAuthContract::new();
    assert_eq!(
        verifier.upgrade(vec![0xcdu8; 32], true),
        Err(AuthError::Misconfiguration)
    );
}
