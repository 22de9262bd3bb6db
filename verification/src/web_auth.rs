//! The domain-authentication verifier: inspects a set of named arguments and
//! requires that the identities named `account` and `home_domain_address`
//! each authorize the current call, and that `client_domain_address`, if
//! present, does too. Its administrator identity gates upgrades only and
//! plays no role in the authentication decision.
//!
//! The host's identity-authorization primitive is the external collaborator
//! here: the verifier decides, in a fixed order, which identity must
//! authorize next (`verify_step`), and the host escalates to its own
//! recursive authorization evaluation for that identity. Within one
//! invocation the host's answers are fixed, which `web_auth_verify` models as
//! a set of granted identities.

use vstd::prelude::*;

use crate::errors::AuthError;

verus! {

/// The closed set of keys under which this component persists state.
#[derive(Clone, Copy, Debug, PartialEq, Eq, Structural)]
pub enum DataKey {
    /// The upgrade authority.
    Admin,
}

/// The structured, caller-correctable error of a verification request,
/// distinct from an authorization denial: it means the caller omitted a
/// required field, not that an addressed party refused.
#[derive(Clone, Copy, Debug, PartialEq, Eq, Structural)]
pub enum WebAuthError {
    /// A mandatory argument (`account` or `home_domain_address`) was absent.
    MissingArgument,
}

/// One named argument of a verification request.
#[derive(Debug)]
pub struct Arg {
    /// The argument's name.
    pub name: String,
    /// The argument's value: the textual form of a ledger address.
    pub value: String,
}

/// The name of the mandatory argument holding the account holder's address.
pub open spec fn account_arg() -> Seq<char> {
    "account"@
}

/// The name of the mandatory argument holding the home domain's address.
pub open spec fn home_domain_arg() -> Seq<char> {
    "home_domain_address"@
}

/// The name of the optional argument holding the client domain's address.
pub open spec fn client_domain_arg() -> Seq<char> {
    "client_domain_address"@
}

/// The value of the first argument named `name`, if any.
pub open spec fn spec_lookup(args: Seq<Arg>, name: Seq<char>) -> Option<Seq<char>>
    decreases args.len(),
{
    if args.len() == 0 {
        None
    } else if args[0].name@ == name {
        Some(args[0].value@)
    } else {
        spec_lookup(args.drop_first(), name)
    }
}

/// Looks `name` up among the request's arguments.
pub fn lookup<'a>(args: &'a Vec<Arg>, name: &String) -> (r: Option<&'a String>)
    ensures
        match r {
            Some(v) => spec_lookup(args@, name@) == Some(v@),
            None => spec_lookup(args@, name@) is None,
        },
{
    let n = args.len();
    assert(args@.skip(0) =~= args@);
    for i in 0..n
        invariant
            n == args@.len(),
            spec_lookup(args@, name@) == spec_lookup(args@.skip(i as int), name@),
    {
        assert(args@.skip(i as int).drop_first() =~= args@.skip(i + 1));
        if args[i].name == *name {
            assert(args@.skip(i as int)[0] == args@[i as int]);
            return Some(&args[i].value);
        }
    }
    None
}

/// The set of identities that the host, in the current invocation, answers
/// authorization requests for in the affirmative.
pub open spec fn granted_set(granted: Seq<String>) -> Set<Seq<char>> {
    Set::new(|id: Seq<char>| exists|i: int| 0 <= i < granted.len() && granted[i]@ == id)
}

/// Whether `identity` is among the granted identities.
pub fn is_granted(granted: &Vec<String>, identity: &String) -> (r: bool)
    ensures
        r == granted_set(granted@).contains(identity@),
{
    let n = granted.len();
    for i in 0..n
        invariant
            n == granted@.len(),
            forall|k: int| 0 <= k < i ==> granted@[k]@ != identity@,
    {
        if granted[i] == *identity {
            assert(granted@[i as int]@ == identity@);
            return true;
        }
    }
    false
}

/// How far a verification attempt has progressed through the fixed check
/// order: the account holder first, then the home domain, then the optional
/// client domain.
#[derive(Clone, Copy, Debug, PartialEq, Eq, Structural)]
pub enum VerifyPhase {
    /// Nothing has been checked yet.
    Start,
    /// The account holder's identity authorized the call.
    AccountAuthorized,
    /// The home domain's identity authorized the call too.
    HomeDomainAuthorized,
    /// The client domain's identity, which was present, authorized the call
    /// too.
    ClientDomainAuthorized,
}

/// The number of identity checks that may still lie ahead of a phase.
pub open spec fn phase_rank(phase: VerifyPhase) -> nat {
    match phase {
        VerifyPhase::Start => 3,
        VerifyPhase::AccountAuthorized => 2,
        VerifyPhase::HomeDomainAuthorized => 1,
        VerifyPhase::ClientDomainAuthorized => 0,
    }
}

/// What the host must do next to advance a verification attempt: either ask
/// the named identity to authorize the current call (and resume from `next`
/// once it has; a refusal ends the attempt as a host-level authorization
/// failure), or finish with the attempt's result.
#[derive(Debug)]
pub enum VerifyAction {
    /// Escalate to the host's identity-authorization primitive for
    /// `identity`, then resume from phase `next`.
    RequireAuth { identity: String, next: VerifyPhase },
    /// The attempt is complete: success, or a structured error for a
    /// malformed request.
    Finish(Result<(), WebAuthError>),
}

/// The outcome of one whole verification attempt.
#[derive(Clone, Copy, Debug, PartialEq, Eq, Structural)]
pub enum AuthVerdict {
    /// Both mandatory identities, and the client domain's if it was named,
    /// authorized the call.
    Granted,
    /// The request was malformed: a mandatory argument was absent. A
    /// caller-correctable error, reported before any later check.
    Rejected(WebAuthError),
    /// An addressed identity did not authorize the call: a host-level
    /// denial, never collapsed into `Rejected`.
    Denied,
}

/// The outcome of a verification attempt resumed from `phase`, when the host
/// grants authorization exactly to the identities in `granted`. Each phase
/// either fails on a missing mandatory argument, or asks the next named
/// identity and continues iff that identity is granted.
pub open spec fn resume_verdict(phase: VerifyPhase, args: Seq<Arg>, granted: Set<Seq<char>>) -> AuthVerdict
    decreases phase_rank(phase),
{
    match phase {
        VerifyPhase::Start => match spec_lookup(args, account_arg()) {
            None => AuthVerdict::Rejected(WebAuthError::MissingArgument),
            Some(account) => if granted.contains(account) {
                resume_verdict(VerifyPhase::AccountAuthorized, args, granted)
            } else {
                AuthVerdict::Denied
            },
        },
        VerifyPhase::AccountAuthorized => match spec_lookup(args, home_domain_arg()) {
            None => AuthVerdict::Rejected(WebAuthError::MissingArgument),
            Some(home) => if granted.contains(home) {
                resume_verdict(VerifyPhase::HomeDomainAuthorized, args, granted)
            } else {
                AuthVerdict::Denied
            },
        },
        VerifyPhase::HomeDomainAuthorized => match spec_lookup(args, client_domain_arg()) {
            None => AuthVerdict::Granted,
            Some(client) => if granted.contains(client) {
                resume_verdict(VerifyPhase::ClientDomainAuthorized, args, granted)
            } else {
                AuthVerdict::Denied
            },
        },
        VerifyPhase::ClientDomainAuthorized => AuthVerdict::Granted,
    }
}

/// The verdict of one whole verification attempt: the run of the check order
/// from its start.
pub open spec fn verify_verdict(args: Seq<Arg>, granted: Set<Seq<char>>) -> AuthVerdict {
    resume_verdict(VerifyPhase::Start, args, granted)
}

/// Instance storage of one deployed verifier: the upgrade authority, set
/// exactly once by the constructor.
pub struct WebAuthContract {
    admin: Option<String>,
}

impl WebAuthContract {
    /// Whether the one-time constructor has run.
    pub closed spec fn constructed(self) -> bool {
        self.admin is Some
    }

    /// The stored administrator identity.
    pub closed spec fn spec_admin(self) -> Seq<char> {
        self.admin->0@
    }

    /// A freshly deployed instance, before its constructor has run.
    pub fn new() -> (r: WebAuthContract)
        ensures
            !r.constructed(),
    {
        WebAuthContract { admin: None }
    }

    /// One-time initializer: persists the upgrade authority. The host
    /// guarantees it runs exactly once, before any other operation.
    pub fn __constructor(&mut self, admin: String)
        requires
            !old(self).constructed(),
        ensures
            final(self).constructed(),
            final(self).spec_admin() == admin@,
    {
        self.admin = Some(admin);
    }

    /// The durable-storage read, keyed by the closed key enumeration. A read
    /// before construction never returns a default: it signals
    /// `Misconfiguration`.
    pub fn get(&self, key: &DataKey) -> (r: Result<&String, AuthError>)
        ensures
            self.constructed() ==> (r matches Ok(v) && v@ == self.spec_admin()),
            !self.constructed() ==> r == Err::<&String, AuthError>(AuthError::Misconfiguration),
    {
        match key {
            DataKey::Admin => match &self.admin {
                Some(admin) => Ok(admin),
                None => Err(AuthError::Misconfiguration),
            },
        }
    }

    /// The stored administrator identity; `Misconfiguration` before
    /// construction.
    pub fn admin(&self) -> (r: Result<&String, AuthError>)
        ensures
            self.constructed() ==> (r matches Ok(v) && v@ == self.spec_admin()),
            !self.constructed() ==> r == Err::<&String, AuthError>(AuthError::Misconfiguration),
    {
        self.get(&DataKey::Admin)
    }

    /// One step of the fixed check order: from `phase`, either the next
    /// identity the host must ask, or the attempt's final result. The
    /// decision reads only the arguments, so the host performs all outside
    /// work between steps.
    pub fn verify_step(phase: &VerifyPhase, args: &Vec<Arg>) -> (a: VerifyAction)
        ensures
            phase is Start ==> match spec_lookup(args@, account_arg()) {
                None => a == VerifyAction::Finish(Err::<(), WebAuthError>(WebAuthError::MissingArgument)),
                Some(v) => a matches VerifyAction::RequireAuth { identity, next }
                    && identity@ == v && next == VerifyPhase::AccountAuthorized,
            },
            phase is AccountAuthorized ==> match spec_lookup(args@, home_domain_arg()) {
                None => a == VerifyAction::Finish(Err::<(), WebAuthError>(WebAuthError::MissingArgument)),
                Some(v) => a matches VerifyAction::RequireAuth { identity, next }
                    && identity@ == v && next == VerifyPhase::HomeDomainAuthorized,
            },
            phase is HomeDomainAuthorized ==> match spec_lookup(args@, client_domain_arg()) {
                None => a == VerifyAction::Finish(Ok::<(), WebAuthError>(())),
                Some(v) => a matches VerifyAction::RequireAuth { identity, next }
                    && identity@ == v && next == VerifyPhase::ClientDomainAuthorized,
            },
            phase is ClientDomainAuthorized ==> a == VerifyAction::Finish(Ok::<(), WebAuthError>(())),
    {
        match phase {
            VerifyPhase::Start => match lookup(args, &String::from_str("account")) {
                None => VerifyAction::Finish(Err(WebAuthError::MissingArgument)),
                Some(v) => VerifyAction::RequireAuth {
                    identity: v.clone(),
                    next: VerifyPhase::AccountAuthorized,
                },
            },
            VerifyPhase::AccountAuthorized => match lookup(args, &String::from_str("home_domain_address")) {
                None => VerifyAction::Finish(Err(WebAuthError::MissingArgument)),
                Some(v) => VerifyAction::RequireAuth {
                    identity: v.clone(),
                    next: VerifyPhase::HomeDomainAuthorized,
                },
            },
            VerifyPhase::HomeDomainAuthorized => match lookup(args, &String::from_str("client_domain_address")) {
                None => VerifyAction::Finish(Ok(())),
                Some(v) => VerifyAction::RequireAuth {
                    identity: v.clone(),
                    next: VerifyPhase::ClientDomainAuthorized,
                },
            },
            VerifyPhase::ClientDomainAuthorized => VerifyAction::Finish(Ok(())),
        }
    }

    /// One whole verification attempt, with the host's authorization answers
    /// modeled as the set of granted identities: runs the fixed check order
    /// to completion. The verdict is a pure function of the arguments and the
    /// granted identities, so the host may re-evaluate the call freely.
    pub fn web_auth_verify(&self, args: &Vec<Arg>, granted: &Vec<String>) -> (r: AuthVerdict)
        ensures
            r == verify_verdict(args@, granted_set(granted@)),
    {
        let mut phase = VerifyPhase::Start;
        loop
            invariant
                resume_verdict(phase, args@, granted_set(granted@))
                    == verify_verdict(args@, granted_set(granted@)),
            decreases phase_rank(phase),
        {
            match Self::verify_step(&phase, args) {
                VerifyAction::RequireAuth { identity, next } => {
                    if is_granted(granted, &identity) {
                        phase = next;
                    } else {
                        return AuthVerdict::Denied;
                    }
                },
                VerifyAction::Finish(result) => match result {
                    Ok(()) => return AuthVerdict::Granted,
                    Err(e) => return AuthVerdict::Rejected(e),
                },
            }
        }
    }

    /// The identity whose authorization gates `upgrade`: the host must
    /// escalate to its own authorization evaluation for this identity before
    /// the upgrade may proceed. `Misconfiguration` before construction.
    pub fn upgrade_authorizer(&self) -> (r: Result<&String, AuthError>)
        ensures
            self.constructed() ==> (r matches Ok(v) && v@ == self.spec_admin()),
            !self.constructed() ==> r == Err::<&String, AuthError>(AuthError::Misconfiguration),
    {
        self.get(&DataKey::Admin)
    }

    /// The upgrade decision, identical in contract to the signer
    /// authenticator's and gated on this component's own administrator:
    /// `admin_authorized` is the host's answer to "does the administrator
    /// authorize this exact call?"; on success the returned hash is the code
    /// the host must install.
    pub fn upgrade(&self, new_wasm_hash: Vec<u8>, admin_authorized: bool) -> (r: Result<Vec<u8>, AuthError>)
        ensures
            r is Ok <==> (self.constructed() && admin_authorized),
            r matches Ok(h) ==> h == new_wasm_hash,
            !self.constructed() ==> r == Err::<Vec<u8>, AuthError>(AuthError::Misconfiguration),
            self.constructed() && !admin_authorized ==> r == Err::<Vec<u8>, AuthError>(AuthError::AuthDenied),
    {
        match &self.admin {
            None => Err(AuthError::Misconfiguration),
            Some(_) => {
                if admin_authorized {
                    Ok(new_wasm_hash)
                } else {
                    Err(AuthError::AuthDenied)
                }
            },
        }
    }
}

/// Two results that each meet `web_auth_verify`'s contract on the same
/// arguments and the same granted identities are equal: the verdict is a pure
/// function of the request and of the host's (fixed, per-invocation)
/// authorization answers.
pub proof fn lemma_verify_deterministic(
    args: Seq<Arg>,
    granted: Set<Seq<char>>,
    r1: AuthVerdict,
    r2: AuthVerdict,
)
    requires
        r1 == verify_verdict(args, granted),
        r2 == verify_verdict(args, granted),
    ensures
        r1 == r2,
{
}

/// Exactly when authorization is granted, rejected, or denied:
/// - granted iff both mandatory identities are present and granted and the
///   client domain's, if present, is granted too;
/// - rejected as a malformed request iff the `account` argument is absent, or
///   is present and granted while `home_domain_address` is absent (the
///   mandatory arguments are checked in that fixed order, each behind the
///   previous identity's authorization);
/// - denied otherwise: some addressed identity refused.
pub proof fn lemma_verdict_cases(args: Seq<Arg>, granted: Set<Seq<char>>)
    ensures
        verify_verdict(args, granted) is Granted <==> {
            &&& spec_lookup(args, account_arg()) matches Some(account) && granted.contains(account)
            &&& spec_lookup(args, home_domain_arg()) matches Some(home) && granted.contains(home)
            &&& (spec_lookup(args, client_domain_arg()) matches Some(client)
                ==> granted.contains(client))
        },
        verify_verdict(args, granted) == AuthVerdict::Rejected(WebAuthError::MissingArgument) <==> {
            ||| spec_lookup(args, account_arg()) is None
            ||| {
                &&& spec_lookup(args, account_arg()) matches Some(account) && granted.contains(account)
                &&& spec_lookup(args, home_domain_arg()) is None
            }
        },
        verify_verdict(args, granted) is Denied <==> {
            ||| spec_lookup(args, account_arg()) matches Some(account) && !granted.contains(account)
            ||| {
                &&& spec_lookup(args, account_arg()) matches Some(account) && granted.contains(account)
                &&& spec_lookup(args, home_domain_arg()) matches Some(home) && !granted.contains(home)
            }
            ||| {
                &&& spec_lookup(args, account_arg()) matches Some(account) && granted.contains(account)
                &&& spec_lookup(args, home_domain_arg()) matches Some(home) && granted.contains(home)
                &&& spec_lookup(args, client_domain_arg()) matches Some(client) && !granted.contains(client)
            }
        },
{
    reveal_with_fuel(resume_verdict, 4);
}

} // verus!
