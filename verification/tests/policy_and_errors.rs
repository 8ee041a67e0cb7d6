use authgate::auth::{authenticate_erp_user, authenticate_user, authenticate_user_local_db,
    encrypt_password_simple_displacement};
use authgate::config::{AppConfig, DomainClass, DomainPolicy};
use authgate::errors::{AuthError, CustomError, SqlxError, UserError};
use authgate::models::{LocalCredentialRecord, Usuario};
use authgate::permissions::{get_permissions_by_app, get_user_permissions};

#[test]
fn domain_classification_is_total_and_case_insensitive() {
    let policy = DomainPolicy::new(
        &vec!["RiyCorp.com".to_string(), "gmail.com".to_string()],
        &vec!["riycorp.COM".to_string()],
    );
    assert_eq!(policy.classify("riycorp.com"), DomainClass::StrictB2b);
    assert_eq!(policy.classify("RIYCORP.COM"), DomainClass::StrictB2b);
    assert_eq!(policy.classify("Gmail.Com"), DomainClass::Consumer);
    assert_eq!(policy.classify("outlook.com"), DomainClass::NotAllowed);
}

#[test]
fn permission_sets() {
    assert_eq!(
        get_user_permissions("admin"),
        vec![
            "inicio",
            "administracion",
            "lista_usuarios",
            "agregar_usuario",
            "editar_usuario",
            "lista_roles",
            "vistas",
            "ayuda"
        ]
    );
    assert_eq!(get_user_permissions("guest"), vec!["inicio"]);
    assert_eq!(
        get_permissions_by_app(1, 1),
        vec!["inicio", "administracion", "lista_usuarios", "agregar_usuario"]
    );
    assert_eq!(get_permissions_by_app(1, 2), vec!["inicio"]);
    assert_eq!(get_permissions_by_app(2, 1), vec!["inicio"]);
}

#[test]
fn transport_error_mapping() {
    let e = CustomError::new(403, "denied");
    assert_eq!(e.status_code(), 403);
    assert_eq!(e.message(), "denied");
    assert_eq!(CustomError::new(42, "odd").status_code(), 500);
    assert_eq!(CustomError::AuthError("x".to_string()).status_code(), 401);
    assert_eq!(CustomError::Unauthorized("y".to_string()).status_code(), 401);
    assert_eq!(CustomError::from("boom".to_string()).status_code(), 500);
}

#[test]
fn auth_error_kinds_map_to_stable_statuses() {
    assert_eq!(AuthError::MalformedToken.http_status(), 401);
    assert_eq!(AuthError::SignatureInvalid.http_status(), 401);
    assert_eq!(AuthError::AudienceOrIssuerMismatch.http_status(), 401);
    assert_eq!(AuthError::EmailNotVerified.http_status(), 401);
    assert_eq!(AuthError::DomainNotAuthorized.http_status(), 403);
    assert_eq!(AuthError::UserProvisioningDenied.http_status(), 403);
    assert_eq!(AuthError::KeyResolutionFailure.http_status(), 500);
    assert_eq!(AuthError::PersistenceError.http_status(), 500);
    assert_eq!(AuthError::TokenIssuanceFailure.http_status(), 500);
    assert_eq!(AuthError::UpstreamUnavailable.http_status(), 503);
    let c = AuthError::DomainNotAuthorized.to_custom();
    assert_eq!(c.status_code(), 403);
}

#[test]
fn repository_error_wrapping() {
    let e = UserError::from(SqlxError);
    assert!(matches!(e, UserError::DatabaseError(_)));
    assert_eq!(SqlxError.message(), "database driver error");
}

#[test]
fn default_config_values() {
    let c = AppConfig::new_default();
    assert_eq!(c.msal_client_id, "client-id-msal-ejemplo");
    assert_eq!(c.sql_collate_clause, "COLLATE SQL_Latin1_General_CP1_CI_AS");
}

#[test]
fn development_login_stub() {
    let u = authenticate_user("admin", "password").unwrap().unwrap();
    assert_eq!(u.usuario, "admin");
    assert_eq!(u.nombre, "Administrador Dummy");
    assert!(authenticate_user("admin", "wrong").unwrap().is_none());
    assert!(authenticate_user("root", "password").unwrap().is_none());
}

fn riy_user() -> Usuario {
    Usuario {
        usuario_id: 3,
        usuario: "carla".to_string(),
        nombre: "Carla".to_string(),
        correo: "carla@riycorp.com".to_string(),
        estado: "Activo".to_string(),
        autor: "System".to_string(),
        fecha_creacion: "2024-01-01".to_string(),
        modificado_por: None,
        fecha_modificacion: None,
        codigo_verificacion: None,
        fecha_codigo_verificacion: None,
    }
}

#[test]
fn erp_authentication_paths() {
    let stored = encrypt_password_simple_displacement("s3cret", true);
    let info = authenticate_erp_user(&Some(riy_user()), &Some(stored.clone()), "s3cret").unwrap();
    assert_eq!(info.username, "carla");
    assert_eq!(info.email, "carla@riycorp.com");
    assert_eq!(info.name.as_deref(), Some("Carla"));
    assert!(authenticate_erp_user(&None, &Some(stored.clone()), "s3cret").is_err());
    assert!(authenticate_erp_user(&Some(riy_user()), &None, "s3cret").is_err());
    assert!(authenticate_erp_user(&Some(riy_user()), &Some(stored), "other").is_err());
}

fn local_record(clave: Option<&str>) -> LocalCredentialRecord {
    LocalCredentialRecord {
        usuario: "dora".to_string(),
        nombre: "Dora".to_string(),
        correo: "dora@riycorp.com".to_string(),
        clave: clave.map(|s| s.to_string()),
    }
}

#[test]
fn local_authentication_paths() {
    // legacy rows compare plainly
    let info = authenticate_user_local_db(&Some(local_record(Some("plainpw"))), "plainpw").unwrap();
    assert_eq!(info.username, "dora");
    assert!(authenticate_user_local_db(&Some(local_record(Some("plainpw"))), "nope").is_err());
    assert!(authenticate_user_local_db(&None, "plainpw").is_err());
    assert!(authenticate_user_local_db(&Some(local_record(None)), "plainpw").is_err());
}

#[test]
fn local_authentication_bcrypt_path() {
    let hash = bcrypt::hash_with_result("hunter2", 4).unwrap().to_string();
    let hash = format!("$2y${}", &hash[4..]);
    assert!(hash.starts_with("$2y$"));
    let info = authenticate_user_local_db(&Some(local_record(Some(&hash))), "hunter2").unwrap();
    assert_eq!(info.email, "dora@riycorp.com");
    assert!(authenticate_user_local_db(&Some(local_record(Some(&hash))), "wrong").is_err());
}
