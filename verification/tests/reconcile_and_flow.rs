use authgate::config::{AuthContext, DomainClass, DomainPolicy};
use authgate::errors::AuthError;
use authgate::flow::{process_external_auth_step, start_external_auth, FlowAction, FlowEvent,
    FlowState};
use authgate::models::{ExternalIdentity, Provider, UserDbRecord};
use authgate::user_repository::{create_new_user, find_or_create_user, provider_name,
    user_from_record, ReconcileDecision};
use base64::Engine;
use rand::SeedableRng;
use rsa::pkcs1::EncodeRsaPrivateKey;
use rsa::traits::PublicKeyParts;

const NOW: u64 = 4102444800;
const MS_ISS: &str = "https://login.microsoftonline.com/tenant-1/v2.0";

fn ctx() -> AuthContext {
    AuthContext {
        aplicativo_id: 1,
        policy: DomainPolicy::new(
            &vec!["riycorp.com".to_string(), "gmail.com".to_string()],
            &vec!["riycorp.com".to_string()],
        ),
        msal_client_id: "client-123".to_string(),
        google_client_id: "gcid".to_string(),
        google_client_secret: "gsecret".to_string(),
        jwt_secret: "flow-secret".to_string(),
        sql_collate_clause: "SQL_Latin1_General_CP1_CI_AS".to_string(),
        now: NOW,
        fecha_creacion: "2024-01-01 00:00:00".to_string(),
    }
}

fn some_record() -> UserDbRecord {
    UserDbRecord {
        usuario_id: 9,
        usuario: "alice".to_string(),
        nombre: "Alice".to_string(),
        correo: "alice@riycorp.com".to_string(),
        estado: "Activo".to_string(),
    }
}

fn ms_identity() -> ExternalIdentity {
    ExternalIdentity {
        email: "alice@riycorp.com".to_string(),
        unique_id: "oid-1".to_string(),
        provider: Provider::Microsoft,
    }
}

#[test]
fn relink_is_idempotent() {
    // two reconciliations of an existing user never create a row and
    // both carry the latest identity's link fields
    let lookup = Some(some_record());
    let id = ms_identity();
    let d1 = find_or_create_user(&lookup, &id, DomainClass::StrictB2b, "2024-01-01").unwrap();
    let d2 = find_or_create_user(&lookup, &id, DomainClass::StrictB2b, "2024-01-01").unwrap();
    for d in [&d1, &d2] {
        match d {
            ReconcileDecision::Relink { user, provider, external_id } => {
                assert_eq!(user.usuario_id, Some(9));
                assert_eq!(user.usuario.as_deref(), Some("alice"));
                assert_eq!(provider, "microsoft");
                assert_eq!(external_id, "oid-1");
            },
            ReconcileDecision::Create { .. } => panic!("an existing user must never be re-created"),
        }
    }
}

#[test]
fn unknown_b2b_user_is_denied() {
    let r = find_or_create_user(&None, &ms_identity(), DomainClass::StrictB2b, "2024-01-01");
    assert!(matches!(r, Err(AuthError::UserProvisioningDenied)));
}

#[test]
fn unknown_consumer_user_is_created_from_local_part() {
    let id = ExternalIdentity {
        email: "Bob.Smith@Gmail.com".to_string(),
        unique_id: "g-sub-9".to_string(),
        provider: Provider::Google,
    };
    let d = find_or_create_user(&None, &id, DomainClass::Consumer, "2024-02-02 03:04:05").unwrap();
    match d {
        ReconcileDecision::Create { new_user } => {
            assert_eq!(new_user.usuario, "bob.smith");
            assert_eq!(new_user.nombre, "bob.smith@gmail.com");
            assert_eq!(new_user.correo, "bob.smith@gmail.com");
            assert_eq!(new_user.estado, "Activo");
            assert_eq!(new_user.autor, "System");
            assert_eq!(new_user.fecha_creacion, "2024-02-02 03:04:05");
        },
        ReconcileDecision::Relink { .. } => panic!("nothing to relink for a new user"),
    }
}

#[test]
fn created_row_gets_fresh_id_and_empty_audit_fields() {
    let d = find_or_create_user(
        &None,
        &ExternalIdentity {
            email: "bob@gmail.com".to_string(),
            unique_id: "g-1".to_string(),
            provider: Provider::Google,
        },
        DomainClass::Consumer,
        "2024-01-01",
    )
    .unwrap();
    let new_user = match d {
        ReconcileDecision::Create { new_user } => new_user,
        _ => panic!("expected a creation"),
    };
    let row = create_new_user(new_user, 55);
    assert_eq!(row.usuario_id, 55);
    assert_eq!(row.usuario, "bob");
    assert!(row.modificado_por.is_none());
    assert!(row.codigo_verificacion.is_none());
}

#[test]
fn record_view_keeps_fields() {
    let rec = some_record();
    let u = user_from_record(&rec);
    assert_eq!(u.usuario_id, Some(9));
    assert_eq!(u.correo.as_deref(), Some("alice@riycorp.com"));
    assert_eq!(u.roles, vec!["Temporal".to_string()]);
    assert_eq!(provider_name(Provider::Google), "google");
}

// --- full pipeline scenarios, with real crypto material ---

struct TestKey {
    enc: jsonwebtoken::EncodingKey,
    n_b64: String,
    e_b64: String,
}

fn flow_key(seed: u64) -> TestKey {
    let mut rng = rand::rngs::StdRng::seed_from_u64(seed);
    let key = rsa::RsaPrivateKey::new(&mut rng, 2048).expect("keygen");
    let der = key.to_pkcs1_der().expect("der");
    let url = base64::engine::general_purpose::URL_SAFE_NO_PAD;
    TestKey {
        enc: jsonwebtoken::EncodingKey::from_rsa_der(der.as_bytes()),
        n_b64: url.encode(key.n().to_bytes_be()),
        e_b64: url.encode(key.e().to_bytes_be()),
    }
}

fn flow_sign(key: &TestKey, kid: &str, claims_json: &str) -> String {
    let mut header = jsonwebtoken::Header::new(jsonwebtoken::Algorithm::RS256);
    header.kid = Some(kid.to_string());
    let claims: serde_json::Value = serde_json::from_str(claims_json).unwrap();
    jsonwebtoken::encode(&header, &claims, &key.enc).unwrap()
}

fn flow_jwks(kid: &str, key: &TestKey) -> String {
    format!(
        "{{\"keys\":[{{\"kty\":\"RSA\",\"kid\":\"{}\",\"n\":\"{}\",\"e\":\"{}\"}}]}}",
        kid, key.n_b64, key.e_b64
    )
}

fn session_sub(token: &str, secret: &str) -> String {
    let key = jsonwebtoken::DecodingKey::from_secret(secret.as_bytes());
    let validation = jsonwebtoken::Validation::new(jsonwebtoken::Algorithm::HS256);
    let claims = jsonwebtoken::decode::<serde_json::Value>(token, &key, &validation)
        .unwrap()
        .claims;
    claims["sub"].as_str().unwrap().to_string()
}

#[test]
fn scenario_microsoft_existing_user_logs_in() {
    // Scenario A: a valid corporate token finds the provisioned user and
    // ends in a signed session whose subject is the local username
    let c = ctx();
    let key = flow_key(20);
    let token = flow_sign(
        &key,
        "k1",
        &format!(
            "{{\"iss\":\"{}\",\"aud\":\"api://client-123\",\"exp\":9999999999,\"upn\":\"alice@riycorp.com\",\"oid\":\"oid-1\"}}",
            MS_ISS
        ),
    );
    let (state, action) = start_external_auth(&c, "microsoft", &token, "");
    let url = match action {
        FlowAction::HttpGet { url } => url,
        _ => panic!("the tenant JWKS must be fetched first"),
    };
    assert_eq!(url, format!("{}/discovery/v2.0/keys", MS_ISS));
    let (state, action) = process_external_auth_step(
        &c,
        state,
        FlowEvent::HttpOk { body: flow_jwks("k1", &key) },
    );
    match &action {
        FlowAction::QueryUserByEmail { email } => assert_eq!(email, "alice@riycorp.com"),
        _ => panic!("a validated identity must be looked up"),
    }
    let (state, action) = process_external_auth_step(
        &c,
        state,
        FlowEvent::Row { user: Some(some_record()) },
    );
    match &action {
        FlowAction::UpdateLink { usuario_id, provider, external_id } => {
            assert_eq!(*usuario_id, 9);
            assert_eq!(provider, "microsoft");
            assert_eq!(external_id, "oid-1");
        },
        _ => panic!("an existing user must be relinked"),
    }
    let (state, _) = process_external_auth_step(&c, state, FlowEvent::LinkUpdated);
    match state {
        FlowState::Done { response } => {
            assert_eq!(response.user.usuario.as_deref(), Some("alice"));
            assert_eq!(session_sub(&response.app_jwt, "flow-secret"), "alice");
        },
        _ => panic!("the pipeline must complete"),
    }
}

#[test]
fn scenario_google_unverified_email_touches_nothing() {
    // Scenario B: the exchanged ID token carries email_verified = false
    let c = ctx();
    let key = flow_key(21);
    let id_token = flow_sign(
        &key,
        "g1",
        "{\"iss\":\"https://accounts.google.com\",\"aud\":\"gcid\",\"exp\":9999999999,\"sub\":\"g-1\",\"email\":\"bob@gmail.com\",\"email_verified\":false}",
    );
    let (state, action) = start_external_auth(&c, "google", "auth-code", "http://cb");
    assert!(matches!(action, FlowAction::HttpPostForm { .. }));
    let (state, _) = process_external_auth_step(
        &c,
        state,
        FlowEvent::HttpOk { body: format!("{{\"id_token\":\"{}\"}}", id_token) },
    );
    let (state, action) = process_external_auth_step(
        &c,
        state,
        FlowEvent::HttpOk { body: flow_jwks("g1", &key) },
    );
    assert!(matches!(state, FlowState::Failed { error: AuthError::EmailNotVerified }));
    assert!(matches!(action, FlowAction::Finish));
}

#[test]
fn scenario_jwks_timeout_is_upstream_unavailable() {
    // Scenario C: the JWKS fetch times out; nothing was persisted
    let c = ctx();
    let (state, _) = start_external_auth(&c, "google", "auth-code", "http://cb");
    let (state, _) = process_external_auth_step(
        &c,
        state,
        FlowEvent::HttpOk { body: "{\"id_token\":\"a.b.c\"}".to_string() },
    );
    let (state, action) = process_external_auth_step(&c, state, FlowEvent::HttpFailed);
    assert!(matches!(state, FlowState::Failed { error: AuthError::UpstreamUnavailable }));
    assert!(matches!(action, FlowAction::Finish));
}

#[test]
fn scenario_unknown_consumer_is_autocreated() {
    // Scenario D: an unknown gmail user self-registers with the e-mail's
    // local part as username and the minimal permission set
    let c = ctx();
    let key = flow_key(22);
    let id_token = flow_sign(
        &key,
        "g1",
        "{\"iss\":\"https://accounts.google.com\",\"aud\":\"gcid\",\"exp\":9999999999,\"sub\":\"g-9\",\"email\":\"Carol@gmail.com\",\"email_verified\":true}",
    );
    let (state, _) = start_external_auth(&c, "google", "auth-code", "http://cb");
    let (state, _) = process_external_auth_step(
        &c,
        state,
        FlowEvent::HttpOk { body: format!("{{\"id_token\":\"{}\"}}", id_token) },
    );
    let (state, action) = process_external_auth_step(
        &c,
        state,
        FlowEvent::HttpOk { body: flow_jwks("g1", &key) },
    );
    match &action {
        FlowAction::QueryUserByEmail { email } => assert_eq!(email, "carol@gmail.com"),
        _ => panic!("a validated identity must be looked up"),
    }
    let (state, action) = process_external_auth_step(&c, state, FlowEvent::Row { user: None });
    let new_user = match action {
        FlowAction::InsertUser { new_user } => new_user,
        _ => panic!("an unknown consumer user must be inserted"),
    };
    assert_eq!(new_user.usuario, "carol");
    assert_eq!(new_user.correo, "carol@gmail.com");
    let (state, _) = process_external_auth_step(&c, state, FlowEvent::InsertOk { id: 31 });
    match state {
        FlowState::Done { response } => {
            assert_eq!(response.user.usuario_id, Some(31));
            assert_eq!(response.user.usuario.as_deref(), Some("carol"));
            assert_eq!(response.permissions, vec!["inicio".to_string()]);
            assert_eq!(session_sub(&response.app_jwt, "flow-secret"), "carol");
        },
        _ => panic!("the pipeline must complete"),
    }
}

#[test]
fn unwhitelisted_domain_fails_before_any_lookup() {
    // a foreign-domain identity never reaches the store: the attempt
    // fails with no lookup and no write
    let c = ctx();
    let key = flow_key(23);
    let id_token = flow_sign(
        &key,
        "g1",
        "{\"iss\":\"https://accounts.google.com\",\"aud\":\"gcid\",\"exp\":9999999999,\"sub\":\"g-2\",\"email\":\"eve@evil.example\",\"email_verified\":true}",
    );
    let (state, _) = start_external_auth(&c, "google", "auth-code", "http://cb");
    let (state, _) = process_external_auth_step(
        &c,
        state,
        FlowEvent::HttpOk { body: format!("{{\"id_token\":\"{}\"}}", id_token) },
    );
    let (state, action) = process_external_auth_step(
        &c,
        state,
        FlowEvent::HttpOk { body: flow_jwks("g1", &key) },
    );
    assert!(matches!(state, FlowState::Failed { error: AuthError::DomainNotAuthorized }));
    assert!(matches!(action, FlowAction::Finish));
}

#[test]
fn duplicate_insert_refetches_and_relinks() {
    // the uniqueness race: the insert loses, the row is re-fetched and
    // treated as found
    let c = ctx();
    let key = flow_key(24);
    let id_token = flow_sign(
        &key,
        "g1",
        "{\"iss\":\"https://accounts.google.com\",\"aud\":\"gcid\",\"exp\":9999999999,\"sub\":\"g-9\",\"email\":\"carol@gmail.com\",\"email_verified\":true}",
    );
    let (state, _) = start_external_auth(&c, "google", "auth-code", "http://cb");
    let (state, _) = process_external_auth_step(
        &c,
        state,
        FlowEvent::HttpOk { body: format!("{{\"id_token\":\"{}\"}}", id_token) },
    );
    let (state, _) = process_external_auth_step(
        &c,
        state,
        FlowEvent::HttpOk { body: flow_jwks("g1", &key) },
    );
    let (state, _) = process_external_auth_step(&c, state, FlowEvent::Row { user: None });
    let (state, action) = process_external_auth_step(&c, state, FlowEvent::InsertDuplicate);
    match &action {
        FlowAction::QueryUserByEmail { email } => assert_eq!(email, "carol@gmail.com"),
        _ => panic!("a duplicate insert must re-fetch"),
    }
    let winner = UserDbRecord {
        usuario_id: 77,
        usuario: "carol".to_string(),
        nombre: "carol@gmail.com".to_string(),
        correo: "carol@gmail.com".to_string(),
        estado: "Activo".to_string(),
    };
    let (state, action) = process_external_auth_step(
        &c,
        state,
        FlowEvent::Row { user: Some(winner) },
    );
    match &action {
        FlowAction::UpdateLink { usuario_id, external_id, .. } => {
            assert_eq!(*usuario_id, 77);
            assert_eq!(external_id, "g-9");
        },
        _ => panic!("the re-fetched row must be treated as found"),
    }
    let (state, _) = process_external_auth_step(&c, state, FlowEvent::LinkUpdated);
    assert!(matches!(state, FlowState::Done { .. }));
}

#[test]
fn msal_provider_aliases_take_the_microsoft_path() {
    let c = ctx();
    let key = flow_key(25);
    let token = flow_sign(
        &key,
        "k1",
        &format!(
            "{{\"iss\":\"{}\",\"aud\":\"api://client-123\",\"exp\":9999999999,\"upn\":\"alice@riycorp.com\",\"oid\":\"oid-1\"}}",
            MS_ISS
        ),
    );
    for alias in ["msal-corp", "msal-personal"] {
        let (_, action) = start_external_auth(&c, alias, &token, "");
        match action {
            FlowAction::HttpGet { url } => {
                assert_eq!(url, format!("{}/discovery/v2.0/keys", MS_ISS))
            },
            _ => panic!("the alias must fetch the tenant JWKS"),
        }
    }
}

#[test]
fn exchange_body_with_shapeless_id_token_is_malformed() {
    // the id_token must have the three-part token shape before any JWKS
    // fetch is requested for it
    let c = ctx();
    let (state, _) = start_external_auth(&c, "google", "auth-code", "http://cb");
    let (state, action) = process_external_auth_step(
        &c,
        state,
        FlowEvent::HttpOk { body: "{\"id_token\":\"no-dots-here\"}".to_string() },
    );
    assert!(matches!(state, FlowState::Failed { error: AuthError::MalformedToken }));
    assert!(matches!(action, FlowAction::Finish));
}

#[test]
fn exchange_body_without_id_token_is_malformed() {
    let c = ctx();
    let (state, _) = start_external_auth(&c, "google", "auth-code", "http://cb");
    let (state, action) = process_external_auth_step(
        &c,
        state,
        FlowEvent::HttpOk { body: "{\"access_token\":\"only\"}".to_string() },
    );
    assert!(matches!(state, FlowState::Failed { error: AuthError::MalformedToken }));
    assert!(matches!(action, FlowAction::Finish));
}

#[test]
fn database_failure_is_a_persistence_error() {
    let c = ctx();
    let state = FlowState::AwaitLookup {
        identity: ms_identity(),
        class: DomainClass::StrictB2b,
    };
    let (state, action) = process_external_auth_step(&c, state, FlowEvent::DbFailed);
    assert!(matches!(state, FlowState::Failed { error: AuthError::PersistenceError }));
    assert!(matches!(action, FlowAction::Finish));
}

#[test]
fn unknown_provider_is_rejected() {
    let c = ctx();
    let (state, action) = start_external_auth(&c, "github", "tok", "");
    assert!(matches!(state, FlowState::Failed { error: AuthError::MalformedToken }));
    assert!(matches!(action, FlowAction::Finish));
}
