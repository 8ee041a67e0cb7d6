//! Authentication orchestrator: the strict linear pipeline of one external
//! authentication attempt, as a state machine.
//!
//! The caller performs every outside effect (HTTP fetches, database reads
//! and writes), feeding each outcome back as an event; the machine decides,
//! verified, what happens next.  No stage is re-entered, every failure goes
//! straight to `Failed` with its kind, and — the central policy — no write
//! to the user store is ever requested for an identity whose e-mail domain
//! the allowlist rejects.

use vstd::prelude::*;
use vstd::string::*;
use crate::config::{AuthContext, DomainClass};
use crate::errors::AuthError;
use crate::google::{google_jwks_url, google_token_url, google_token_request_params,
    parse_token_response, validate_google_id_token};
use crate::jwks::{ms_token_issuer, ms_jwks_url};
use crate::microsoft::validate_microsoft_token;
use crate::models::{AuthResponsePayload, ExternalIdentity, LoggedInUser, NewUsuario, Provider,
    UserDbRecord};
use crate::outside::hs256_jwt_of;
use crate::permissions::{get_permissions_by_app, spec_app_permissions};
use crate::session::{generate_jwt, session_lifetime, spec_claims_json, lemma_perms_array_views};
use crate::textutil::{domain_of, email_domain, str_eq, to_lowercase};
use crate::user_repository::{ReconcileDecision, find_or_create_user, create_new_user,
    user_from_record};

verus! {

/// The state of one authentication attempt.
pub enum FlowState {
    /// Waiting for Google's token endpoint to answer the code exchange.
    AwaitExchange,
    /// Waiting for the provider's JWKS document.
    AwaitJwks { provider: Provider, token: String },
    /// Waiting for the user lookup by (lower-cased) e-mail.
    AwaitLookup { identity: ExternalIdentity, class: DomainClass },
    /// Waiting for the row to be inserted for a new consumer user.
    AwaitInsert { identity: ExternalIdentity, new_user: NewUsuario },
    /// Waiting for the second lookup after an insert hit a uniqueness
    /// violation: a concurrent first login won the race, so the row is
    /// re-fetched and treated as found.
    AwaitRefetch { identity: ExternalIdentity },
    /// Waiting for the link update of an existing user to be acknowledged.
    AwaitRelink { user: LoggedInUser },
    /// Terminal: the attempt succeeded.
    Done { response: AuthResponsePayload },
    /// Terminal: the attempt failed at some stage.
    Failed { error: AuthError },
}

/// An outside outcome fed back into the machine.
pub enum FlowEvent {
    /// An HTTP fetch returned this body.
    HttpOk { body: String },
    /// An HTTP fetch failed or timed out: the upstream is unavailable.
    HttpFailed,
    /// The user lookup returned (a row, or none).
    Row { user: Option<UserDbRecord> },
    /// The insert succeeded and assigned this id.
    InsertOk { id: i32 },
    /// The insert hit the e-mail uniqueness constraint.
    InsertDuplicate,
    /// The link update was applied.
    LinkUpdated,
    /// The database failed.
    DbFailed,
}

/// What the caller must do next.
pub enum FlowAction {
    /// POST this form to this URL and feed back the body.
    HttpPostForm { url: String, params: Vec<(String, String)> },
    /// GET this URL and feed back the body.
    HttpGet { url: String },
    /// Select the user row with this (lower-cased) e-mail.
    QueryUserByEmail { email: String },
    /// Insert this row and feed back the new id.
    InsertUser { new_user: NewUsuario },
    /// Refresh the stored external link of this user to the latest
    /// validated identity.
    UpdateLink { usuario_id: i32, provider: String, external_id: String },
    /// Nothing remains to be done: the state is terminal.
    Finish,
}

/// A write to the user store.
pub open spec fn write_action(a: FlowAction) -> bool {
    (a matches FlowAction::InsertUser { .. }) || (a matches FlowAction::UpdateLink { .. })
}

/// The identity's e-mail has a domain and the policy admits it.
pub open spec fn gate_passed(ctx: AuthContext, identity: ExternalIdentity) -> bool {
    identity.email@.len() > 0 && identity.unique_id@.len() > 0 && (domain_of(identity.email@)
        matches Some(d) && ctx.policy.spec_allows(d))
}

/// Invariant of the machine: every state that carries an identity carries
/// one that already passed the domain gate, and the pending insert row was
/// derived from such an identity.
pub open spec fn flow_inv(ctx: AuthContext, s: FlowState) -> bool {
    match s {
        FlowState::AwaitLookup { identity, class } => gate_passed(ctx, identity) && class
            != DomainClass::NotAllowed,
        FlowState::AwaitRefetch { identity } => gate_passed(ctx, identity),
        FlowState::AwaitInsert { identity, new_user } => gate_passed(ctx, identity)
            && new_user.correo@ == crate::textutil::spec_lower(identity.email@),
        _ => true,
    }
}

/// The machine is well formed when the clock value leaves room for the
/// 24-hour expiry.
pub open spec fn ctx_wf(ctx: AuthContext) -> bool {
    ctx.now + session_lifetime() <= u64::MAX
}

/// A terminal state: the attempt is decided.
pub open spec fn terminal(s: FlowState) -> bool {
    (s matches FlowState::Done { .. }) || (s matches FlowState::Failed { .. })
}

/// Position of a state in the strict linear pipeline.  Every transition of
/// a non-terminal state moves strictly forward, so no stage is re-entered
/// and nothing runs after a failure.
pub open spec fn stage_index(s: FlowState) -> int {
    match s {
        FlowState::AwaitExchange => 0,
        FlowState::AwaitJwks { .. } => 1,
        FlowState::AwaitLookup { .. } => 2,
        FlowState::AwaitInsert { .. } => 3,
        FlowState::AwaitRefetch { .. } => 4,
        FlowState::AwaitRelink { .. } => 5,
        FlowState::Done { .. } => 6,
        FlowState::Failed { .. } => 6,
    }
}

/// The provider names that take the Microsoft path.
pub open spec fn is_ms_provider(p: Seq<char>) -> bool {
    p == "microsoft"@ || p == "msal-corp"@ || p == "msal-personal"@
}

/// The events a state expects; anything else is a programming-invariant
/// violation and fails the attempt as a persistence error.
pub open spec fn expected_event(s: FlowState, e: FlowEvent) -> bool {
    match s {
        FlowState::AwaitExchange => (e matches FlowEvent::HttpOk { .. }) || (e matches
            FlowEvent::HttpFailed),
        FlowState::AwaitJwks { .. } => (e matches FlowEvent::HttpOk { .. }) || (e matches
            FlowEvent::HttpFailed),
        FlowState::AwaitLookup { .. } => (e matches FlowEvent::Row { .. }) || (e matches
            FlowEvent::DbFailed),
        FlowState::AwaitInsert { .. } => (e matches FlowEvent::InsertOk { .. }) || (e matches
            FlowEvent::InsertDuplicate) || (e matches FlowEvent::DbFailed),
        FlowState::AwaitRefetch { .. } => (e matches FlowEvent::Row { .. }) || (e matches
            FlowEvent::DbFailed),
        FlowState::AwaitRelink { .. } => (e matches FlowEvent::LinkUpdated) || (e matches
            FlowEvent::DbFailed),
        _ => true,
    }
}

/// A completed response: it echoes the logged-in user, carries exactly the
/// permission set owed to that user and application, and its token signs
/// exactly the claims document of that subject, those permissions and the
/// 24-hour expiry.
pub open spec fn session_issued(ctx: AuthContext, response: AuthResponsePayload) -> bool {
    &&& response.user.usuario_id matches Some(uid) && spec_app_permissions(
        uid as int,
        ctx.aplicativo_id as int,
        response.permissions@,
    )
    &&& response.user.usuario matches Some(u) && u@.len() > 0 && hs256_jwt_of(
        spec_claims_json(u@, response.permissions@, ctx.now + session_lifetime()),
        ctx.jwt_secret@,
    ) == Some(response.app_jwt@)
}

/// A session can be issued for this subject and user id: the signer
/// accepts the claims document of the owed permission list.
pub open spec fn issuable(ctx: AuthContext, uid: i32, sub: Seq<char>) -> bool {
    exists|perms: Seq<String>|
        #[trigger] spec_app_permissions(uid as int, ctx.aplicativo_id as int, perms)
            && hs256_jwt_of(
            spec_claims_json(sub, perms, ctx.now + session_lifetime()),
            ctx.jwt_secret@,
        ) is Some
}

/// Exact outcome of the completion stage for `user`: `Done` with an issued
/// session — exactly when one can be issued — else
/// `Failed { TokenIssuanceFailure }`, and nothing else.
pub open spec fn completes(ctx: AuthContext, user: LoggedInUser, s2: FlowState) -> bool {
    &&& match s2 {
        FlowState::Done { response } => response.user == user && session_issued(ctx, response),
        FlowState::Failed { error } => error == AuthError::TokenIssuanceFailure,
        _ => false,
    }
    &&& user.usuario_id matches Some(uid) ==> (user.usuario matches Some(u) ==> (u@.len() > 0
        ==> ((s2 matches FlowState::Done { .. }) <==> issuable(ctx, uid, u@))))
    &&& (user.usuario_id is None || user.usuario is None || (user.usuario matches Some(u)
        && u@.len() == 0)) ==> (s2 matches FlowState::Failed { .. })
}

/// The transition for a found (or re-fetched) row: the next state logs the
/// stored user in, and the one requested write refreshes the stored link
/// to the latest validated identity.
pub open spec fn relink_transition(
    s2: FlowState,
    a2: FlowAction,
    rec: UserDbRecord,
    identity: ExternalIdentity,
) -> bool {
    &&& s2 matches FlowState::AwaitRelink { user } && user.usuario_id == Some(rec.usuario_id) && (
    user.usuario matches Some(u) && u@ == rec.usuario@) && (user.nombre matches Some(n) && n@
        == rec.nombre@) && (user.correo matches Some(c) && c@ == rec.correo@)
    &&& a2 matches FlowAction::UpdateLink { usuario_id, provider, external_id } && usuario_id
        == rec.usuario_id && provider@ == crate::user_repository::spec_provider_name(
        identity.provider,
    ) && external_id@ == identity.unique_id@
}

/// The transition for an unknown consumer user: the next state holds the
/// auto-provisioning row of the gated identity, and that exact row is the
/// one requested for insertion.
pub open spec fn create_transition(
    s2: FlowState,
    a2: FlowAction,
    identity: ExternalIdentity,
    fecha_creacion: Seq<char>,
) -> bool {
    &&& s2 matches FlowState::AwaitInsert { identity: id2, new_user }
    &&& id2 == identity
    &&& crate::user_repository::create_decision(
        ReconcileDecision::Create { new_user },
        identity,
        fecha_creacion,
    )
    &&& a2 matches FlowAction::InsertUser { new_user: nu } && nu == new_user
}

/// Exact outcome of completing a freshly inserted user: the response (or
/// issuance failure) is for the user built from the inserted row and its
/// new id, with no roles.
pub open spec fn inserted_completion(
    ctx: AuthContext,
    new_user: NewUsuario,
    id: i32,
    s2: FlowState,
) -> bool {
    &&& match s2 {
        FlowState::Done { response } => response.user.usuario_id == Some(id) && (
        response.user.usuario matches Some(u) && u == new_user.usuario) && (response.user.nombre
            matches Some(n) && n == new_user.nombre) && (response.user.correo matches Some(c) && c
            == new_user.correo) && response.user.roles@.len() == 0 && session_issued(ctx, response),
        FlowState::Failed { error } => error == AuthError::TokenIssuanceFailure,
        _ => false,
    }
    &&& new_user.usuario@.len() > 0 ==> ((s2 matches FlowState::Done { .. }) <==> issuable(
        ctx,
        id,
        new_user.usuario@,
    ))
}

/// Completes a successful attempt: resolves permissions for the user and
/// application, then issues the session token.
fn complete(ctx: &AuthContext, user: LoggedInUser) -> (r: FlowState)
    requires
        ctx_wf(*ctx),
    ensures
        completes(*ctx, user, r),
{
    let user_id = match &user.usuario_id {
        Some(id) => *id,
        None => {
            return FlowState::Failed { error: AuthError::TokenIssuanceFailure };
        },
    };
    let permissions = get_permissions_by_app(user_id, ctx.aplicativo_id);
    let perms_copy = clone_permissions(&permissions);
    match generate_jwt(&user, permissions, ctx.jwt_secret.as_str(), ctx.now) {
        Ok(app_jwt) => {
            proof {
                match &user.usuario {
                    Some(u) => {
                        assert(spec_app_permissions(
                            user_id as int,
                            ctx.aplicativo_id as int,
                            permissions@,
                        ) && hs256_jwt_of(
                            spec_claims_json(u@, permissions@, ctx.now + session_lifetime()),
                            ctx.jwt_secret@,
                        ) is Some);
                    },
                    None => {},
                }
            }
            FlowState::Done {
                response: AuthResponsePayload { app_jwt, user, permissions: perms_copy },
            }
        },
        Err(e) => {
            proof {
                lemma_no_issuable_on_failure(*ctx, user_id, &user, permissions@);
            }
            FlowState::Failed { error: e }
        },
    }
}

/// When signing the owed permission list fails, no permission list with
/// the same texts can be signed either: issuance fails outright.
proof fn lemma_no_issuable_on_failure(
    ctx: AuthContext,
    user_id: i32,
    user: &LoggedInUser,
    permissions: Seq<String>,
)
    requires
        spec_app_permissions(user_id as int, ctx.aplicativo_id as int, permissions),
        user.usuario matches Some(u) ==> (u@.len() > 0 ==> hs256_jwt_of(
            spec_claims_json(u@, permissions, ctx.now + session_lifetime()),
            ctx.jwt_secret@,
        ) is None),
    ensures
        user.usuario matches Some(u) ==> (u@.len() > 0 ==> !issuable(ctx, user_id, u@)),
{
    match user.usuario {
        Some(u) => {
            if u@.len() > 0 && issuable(ctx, user_id, u@) {
                let perms = choose|perms: Seq<String>|
                    #[trigger] spec_app_permissions(
                        user_id as int,
                        ctx.aplicativo_id as int,
                        perms,
                    ) && hs256_jwt_of(
                        spec_claims_json(u@, perms, ctx.now + session_lifetime()),
                        ctx.jwt_secret@,
                    ) is Some;
                assert(perms.len() == permissions.len());
                assert(forall|i: int|
                    #![trigger perms[i], permissions[i]]
                    0 <= i < perms.len() ==> perms[i]@ == permissions[i]@);
                lemma_perms_array_views(perms, permissions);
                assert(spec_claims_json(u@, perms, ctx.now + session_lifetime())
                    == spec_claims_json(u@, permissions, ctx.now + session_lifetime()));
                assert(false);
            }
        },
        None => {},
    }
}

/// Clone of a permission list, preserving the values.
fn clone_permissions(v: &Vec<String>) -> (r: Vec<String>)
    ensures
        r@ == v@,
{
    let mut out: Vec<String> = Vec::new();
    let n = v.len();
    let mut i: usize = 0;
    while i < n
        invariant
            n == v@.len(),
            i <= n,
            out@.len() == i,
            forall|k: int| 0 <= k < i ==> #[trigger] out@[k] == v@[k],
        decreases n - i,
    {
        out.push(v[i].clone());
        i = i + 1;
    }
    proof {
        assert(out@ =~= v@);
    }
    out
}

/// Begins an external authentication attempt.  Dispatches on the provider
/// name: Google posts the auth-code exchange form to the fixed token
/// endpoint; the Microsoft names read the token's unverified issuer and
/// fetch that tenant's JWKS discovery document; anything else is refused.
/// No write is ever requested here.
pub fn start_external_auth(
    ctx: &AuthContext,
    provider: &str,
    proof_of_identity: &str,
    redirect_uri: &str,
) -> (r: (FlowState, FlowAction))
    ensures
        !write_action(r.1),
        flow_inv(*ctx, r.0),
        provider@ == "google"@ ==> ((r.0 matches FlowState::AwaitExchange) && (r.1 matches
            FlowAction::HttpPostForm { url, params } && url@ == "https://oauth2.googleapis.com/token"@
            && crate::google::spec_exchange_params(
            params@,
            proof_of_identity@,
            redirect_uri@,
            ctx.google_client_id@,
            ctx.google_client_secret@,
        ))),
        is_ms_provider(provider@) ==> (((r.0 matches FlowState::AwaitJwks { provider: pv, token }
            && pv == Provider::Microsoft && token@ == proof_of_identity@) && (r.1 matches
            FlowAction::HttpGet { url } && (exists|iss_part: Seq<char>|
            url@ == #[trigger] (iss_part + "/discovery/v2.0/keys"@)))) || ((r.0 matches
            FlowState::Failed { error } && error == AuthError::MalformedToken) && r.1 matches
            FlowAction::Finish)),
        is_ms_provider(provider@) && !crate::textutil::two_sep_decomp(proof_of_identity@, '.')
            ==> (r.0 matches FlowState::Failed { .. }),
        !(provider@ == "google"@ || is_ms_provider(provider@)) ==> ((r.0 matches FlowState::Failed {
            error,
        } && error == AuthError::MalformedToken) && r.1 matches FlowAction::Finish),
{
    proof {
        // the provider names are pairwise distinct, so exactly one branch
        // below can accept a given name
        reveal_strlit("google");
        reveal_strlit("microsoft");
        reveal_strlit("msal-corp");
        reveal_strlit("msal-personal");
        assert("google"@.len() == 6);
        assert("microsoft"@.len() == 9);
        assert("msal-corp"@.len() == 9);
        assert("msal-personal"@.len() == 13);
    }
    if str_eq(provider, "google") {
        let params = google_token_request_params(
            proof_of_identity,
            redirect_uri,
            ctx.google_client_id.as_str(),
            ctx.google_client_secret.as_str(),
        );
        (
            FlowState::AwaitExchange,
            FlowAction::HttpPostForm { url: google_token_url().to_owned(), params },
        )
    } else if str_eq(provider, "microsoft") || str_eq(provider, "msal-corp") || str_eq(
        provider,
        "msal-personal",
    ) {
        match ms_token_issuer(proof_of_identity) {
            Ok(iss) => {
                let url = ms_jwks_url(iss.as_str());
                proof {
                    assert(exists|iss_part: Seq<char>|
                        url@ == #[trigger] (iss_part + "/discovery/v2.0/keys"@)) by {
                        assert(url@ == iss@ + "/discovery/v2.0/keys"@);
                    }
                }
                (
                    FlowState::AwaitJwks {
                        provider: Provider::Microsoft,
                        token: proof_of_identity.to_owned(),
                    },
                    FlowAction::HttpGet { url },
                )
            },
            Err(e) => (FlowState::Failed { error: e }, FlowAction::Finish),
        }
    } else {
        (FlowState::Failed { error: AuthError::MalformedToken }, FlowAction::Finish)
    }
}

/// Turns a validated identity pair into the lookup stage: classifies the
/// domain — rejecting an unwhitelisted one before any database work — and
/// asks for the user row by lower-cased e-mail.
fn gate_and_lookup(ctx: &AuthContext, email: String, unique_id: String, provider: Provider) -> (r:
    (FlowState, FlowAction))
    requires
        email@.len() > 0,
        unique_id@.len() > 0,
    ensures
        flow_inv(*ctx, r.0),
        !write_action(r.1),
        domain_of(email@) is None ==> ((r.0 matches FlowState::Failed { error } && error
            == AuthError::MalformedToken) && r.1 matches FlowAction::Finish),
        domain_of(email@) matches Some(d) ==> (!ctx.policy.spec_allows(d) ==> ((r.0 matches
            FlowState::Failed { error } && error == AuthError::DomainNotAuthorized) && r.1 matches
            FlowAction::Finish)),
        domain_of(email@) matches Some(d) ==> (ctx.policy.spec_allows(d) ==> ((r.0 matches
            FlowState::AwaitLookup { identity, .. } && identity.email@ == email@
            && identity.unique_id@ == unique_id@ && identity.provider == provider) && (r.1 matches
            FlowAction::QueryUserByEmail { email: em } && em@ == crate::textutil::spec_lower(
            email@,
        )))),
{
    let domain = match email_domain(email.as_str()) {
        Some(d) => d,
        None => {
            return (FlowState::Failed { error: AuthError::MalformedToken }, FlowAction::Finish);
        },
    };
    let class = ctx.policy.classify(domain.as_str());
    if matches!(class, DomainClass::NotAllowed) {
        return (FlowState::Failed { error: AuthError::DomainNotAuthorized }, FlowAction::Finish);
    }
    let email_lower = to_lowercase(email.as_str());
    let identity = ExternalIdentity { email, unique_id, provider };
    (
        FlowState::AwaitLookup { identity, class },
        FlowAction::QueryUserByEmail { email: email_lower },
    )
}

/// One transition of the pipeline.
///
/// For every state satisfying the invariant: the invariant is preserved,
/// and every non-terminal transition moves strictly forward — no stage is
/// re-entered and nothing follows a failure, so no state is persisted and
/// no session is issued once any stage has failed.  A write to the user
/// store is requested only from the lookup stages, whose identity already
/// passed the domain gate, and the lookup itself always carries the
/// lower-cased validated e-mail.  Transport failures classify as
/// `UpstreamUnavailable`, database failures and mismatched events as
/// `PersistenceError`.  Validation outcomes land either in the lookup
/// stage or in `Failed` with one of that validator's kinds (the validator
/// result itself rests on clock-dependent signature checking, so the leaf
/// contracts of `ms_accept` and `google_accept` pin which kind comes
/// when); reconciliation, the duplicate-insert re-fetch, and completion
/// (permissions, echo of the user, the signed session) are pinned exactly
/// per event.
pub fn process_external_auth_step(ctx: &AuthContext, state: FlowState, event: FlowEvent) -> (r: (
    FlowState,
    FlowAction,
))
    requires
        ctx_wf(*ctx),
        flow_inv(*ctx, state),
    ensures
        flow_inv(*ctx, r.0),
        write_action(r.1) ==> ((state matches FlowState::AwaitLookup { identity, .. } && gate_passed(
            *ctx,
            identity,
        )) || (state matches FlowState::AwaitRefetch { identity } && gate_passed(*ctx, identity))),
        ((state matches FlowState::AwaitExchange) || (state matches FlowState::AwaitJwks { .. }))
            && (event matches FlowEvent::HttpFailed) ==> (r.0 matches FlowState::Failed { error }
            && error == AuthError::UpstreamUnavailable && r.1 matches FlowAction::Finish),
        terminal(state) ==> r.0 == state && (r.1 matches FlowAction::Finish),
        !terminal(state) ==> stage_index(r.0) > stage_index(state),
        !terminal(state) && ((event matches FlowEvent::DbFailed) || !expected_event(state, event))
            ==> ((r.0 matches FlowState::Failed { error } && error == AuthError::PersistenceError)
            && r.1 matches FlowAction::Finish),
        r.1 matches FlowAction::QueryUserByEmail { email } ==> ((r.0 matches FlowState::AwaitLookup {
            identity,
            ..
        } && email@ == crate::textutil::spec_lower(identity.email@)) || (r.0 matches
            FlowState::AwaitRefetch { identity } && email@ == crate::textutil::spec_lower(
            identity.email@,
        ))),
        (state matches FlowState::AwaitExchange) && (event matches FlowEvent::HttpOk { .. }) ==> (((
        r.0 matches FlowState::AwaitJwks { provider: pv, token } && pv == Provider::Google
            && crate::textutil::two_sep_decomp(token@, '.')) && (r.1 matches FlowAction::HttpGet {
            url,
        } && url@ == "https://www.googleapis.com/oauth2/v3/certs"@)) || ((r.0 matches
            FlowState::Failed { error } && error == AuthError::MalformedToken) && r.1 matches
            FlowAction::Finish)),
        (state matches FlowState::AwaitJwks { provider: pv, .. } && pv == Provider::Microsoft) && (
        event matches FlowEvent::HttpOk { .. }) ==> ((r.0 matches FlowState::AwaitLookup { .. }) || (
        (r.0 matches FlowState::Failed { error } && (error == AuthError::MalformedToken || error
            == AuthError::KeyResolutionFailure || error == AuthError::SignatureInvalid || error
            == AuthError::AudienceOrIssuerMismatch || error == AuthError::DomainNotAuthorized))
            && r.1 matches FlowAction::Finish)),
        (state matches FlowState::AwaitJwks { provider: pv, .. } && pv == Provider::Google) && (
        event matches FlowEvent::HttpOk { .. }) ==> ((r.0 matches FlowState::AwaitLookup { .. }) || (
        (r.0 matches FlowState::Failed { error } && (error == AuthError::MalformedToken || error
            == AuthError::KeyResolutionFailure || error == AuthError::SignatureInvalid || error
            == AuthError::AudienceOrIssuerMismatch || error == AuthError::EmailNotVerified || error
            == AuthError::DomainNotAuthorized)) && r.1 matches FlowAction::Finish)),
        state matches FlowState::AwaitLookup { identity, class } ==> (event matches FlowEvent::Row {
            user,
        } ==> ((user matches Some(rec) ==> relink_transition(r.0, r.1, rec, identity)) && (user
            is None ==> ((class == DomainClass::StrictB2b ==> ((r.0 matches FlowState::Failed {
            error,
        } && error == AuthError::UserProvisioningDenied) && r.1 matches FlowAction::Finish)) && (
        class == DomainClass::Consumer ==> create_transition(
            r.0,
            r.1,
            identity,
            ctx.fecha_creacion@,
        )))))),
        state matches FlowState::AwaitInsert { identity, new_user } ==> ((event matches
            FlowEvent::InsertOk { id } ==> ((r.1 matches FlowAction::Finish) && inserted_completion(
            *ctx,
            new_user,
            id,
            r.0,
        ))) && (event matches FlowEvent::InsertDuplicate ==> ((r.0 matches FlowState::AwaitRefetch {
            identity: id2,
        } && id2 == identity) && (r.1 matches FlowAction::QueryUserByEmail { email } && email@
            == new_user.correo@)))),
        state matches FlowState::AwaitRefetch { identity } ==> (event matches FlowEvent::Row {
            user,
        } ==> ((user matches Some(rec) ==> relink_transition(r.0, r.1, rec, identity)) && (user
            is None ==> ((r.0 matches FlowState::Failed { error } && error
            == AuthError::PersistenceError) && r.1 matches FlowAction::Finish)))),
        state matches FlowState::AwaitRelink { user } ==> (event matches FlowEvent::LinkUpdated
            ==> ((r.1 matches FlowAction::Finish) && completes(*ctx, user, r.0))),
{
    match state {
        FlowState::AwaitExchange => match event {
            FlowEvent::HttpOk { body } => match parse_token_response(body.as_str()) {
                Ok(id_token) => {
                    // an ID token must at least have the three-part shape
                    // before any key fetch is requested for it
                    if crate::textutil::split3(id_token.as_str(), '.').is_some() {
                        (
                            FlowState::AwaitJwks { provider: Provider::Google, token: id_token },
                            FlowAction::HttpGet { url: google_jwks_url().to_owned() },
                        )
                    } else {
                        (FlowState::Failed { error: AuthError::MalformedToken }, FlowAction::Finish)
                    }
                },
                Err(e) => (FlowState::Failed { error: e }, FlowAction::Finish),
            },
            FlowEvent::HttpFailed => (
                FlowState::Failed { error: AuthError::UpstreamUnavailable },
                FlowAction::Finish,
            ),
            _ => (FlowState::Failed { error: AuthError::PersistenceError }, FlowAction::Finish),
        },
        FlowState::AwaitJwks { provider, token } => match event {
            FlowEvent::HttpOk { body } => match provider {
                Provider::Microsoft => {
                    match validate_microsoft_token(
                        token.as_str(),
                        body.as_str(),
                        ctx.msal_client_id.as_str(),
                        &ctx.policy,
                    ) {
                        Ok(pair) => gate_and_lookup(ctx, pair.0, pair.1, Provider::Microsoft),
                        Err(e) => (FlowState::Failed { error: e }, FlowAction::Finish),
                    }
                },
                Provider::Google => {
                    match validate_google_id_token(
                        token.as_str(),
                        body.as_str(),
                        ctx.google_client_id.as_str(),
                    ) {
                        Ok(pair) => gate_and_lookup(ctx, pair.0, pair.1, Provider::Google),
                        Err(e) => (FlowState::Failed { error: e }, FlowAction::Finish),
                    }
                },
            },
            FlowEvent::HttpFailed => (
                FlowState::Failed { error: AuthError::UpstreamUnavailable },
                FlowAction::Finish,
            ),
            _ => (FlowState::Failed { error: AuthError::PersistenceError }, FlowAction::Finish),
        },
        FlowState::AwaitLookup { identity, class } => match event {
            FlowEvent::Row { user } => {
                proof {
                    crate::textutil::lemma_spec_find(identity.email@, '@', 0);
                }
                match find_or_create_user(&user, &identity, class, ctx.fecha_creacion.as_str()) {
                    Ok(ReconcileDecision::Relink { user, provider, external_id }) => {
                        let usuario_id = match &user.usuario_id {
                            Some(id) => *id,
                            None => {
                                // unreachable: a relink decision carries the row's id
                                proof {
                                    assert(false);
                                }
                                return (
                                    FlowState::Failed { error: AuthError::PersistenceError },
                                    FlowAction::Finish,
                                );
                            },
                        };
                        (
                            FlowState::AwaitRelink { user },
                            FlowAction::UpdateLink { usuario_id, provider, external_id },
                        )
                    },
                    Ok(ReconcileDecision::Create { new_user }) => {
                        let action_row = clone_new_usuario(&new_user);
                        (
                            FlowState::AwaitInsert { identity, new_user },
                            FlowAction::InsertUser { new_user: action_row },
                        )
                    },
                    Err(e) => (FlowState::Failed { error: e }, FlowAction::Finish),
                }
            },
            FlowEvent::DbFailed => (
                FlowState::Failed { error: AuthError::PersistenceError },
                FlowAction::Finish,
            ),
            _ => (FlowState::Failed { error: AuthError::PersistenceError }, FlowAction::Finish),
        },
        FlowState::AwaitInsert { identity, new_user } => match event {
            FlowEvent::InsertOk { id } => {
                let row = create_new_user(new_user, id);
                let roles: Vec<String> = Vec::new();
                let user = LoggedInUser {
                    usuario_id: Some(id),
                    usuario: Some(row.usuario),
                    nombre: Some(row.nombre),
                    correo: Some(row.correo),
                    roles,
                };
                let ghost guser = user;
                let next = complete(ctx, user);
                proof {
                    assert(completes(*ctx, guser, next));
                }
                (next, FlowAction::Finish)
            },
            FlowEvent::InsertDuplicate => {
                // A concurrent first login inserted the row first: re-fetch
                // and treat as found.
                (
                    FlowState::AwaitRefetch { identity },
                    FlowAction::QueryUserByEmail { email: new_user.correo },
                )
            },
            FlowEvent::DbFailed => (
                FlowState::Failed { error: AuthError::PersistenceError },
                FlowAction::Finish,
            ),
            _ => (FlowState::Failed { error: AuthError::PersistenceError }, FlowAction::Finish),
        },
        FlowState::AwaitRefetch { identity } => match event {
            FlowEvent::Row { user } => match user {
                Some(rec) => {
                    let u = user_from_record(&rec);
                    let usuario_id = rec.usuario_id;
                    let provider_name = crate::user_repository::provider_name(
                        identity.provider,
                    ).to_owned();
                    let external_id = identity.unique_id.clone();
                    (
                        FlowState::AwaitRelink { user: u },
                        FlowAction::UpdateLink { usuario_id, provider: provider_name, external_id },
                    )
                },
                None => (
                    FlowState::Failed { error: AuthError::PersistenceError },
                    FlowAction::Finish,
                ),
            },
            _ => (FlowState::Failed { error: AuthError::PersistenceError }, FlowAction::Finish),
        },
        FlowState::AwaitRelink { user } => match event {
            FlowEvent::LinkUpdated => (complete(ctx, user), FlowAction::Finish),
            _ => (FlowState::Failed { error: AuthError::PersistenceError }, FlowAction::Finish),
        },
        FlowState::Done { response } => (FlowState::Done { response }, FlowAction::Finish),
        FlowState::Failed { error } => (FlowState::Failed { error }, FlowAction::Finish),
    }
}

/// Clone of a row to insert, preserving the values.
fn clone_new_usuario(u: &NewUsuario) -> (r: NewUsuario)
    ensures
        r == *u,
{
    NewUsuario {
        usuario: u.usuario.clone(),
        nombre: u.nombre.clone(),
        correo: u.correo.clone(),
        estado: u.estado.clone(),
        autor: u.autor.clone(),
        fecha_creacion: u.fecha_creacion.clone(),
    }
}

} // verus!
