//! Identity reconciliation: mapping a verified external identity to a local
//! user row.
//!
//! The database lookup and insert are performed by the caller; this module
//! decides, from the lookup outcome and the domain class, whether to relink
//! an existing user, auto-create a consumer user, or deny provisioning for
//! a strict corporate domain.

use vstd::prelude::*;
use vstd::string::*;
use crate::config::DomainClass;
use crate::errors::AuthError;
use crate::models::{ExternalIdentity, LoggedInUser, NewUsuario, Provider, UserDbRecord, Usuario};
use crate::textutil::{email_local_part, local_of, spec_lower, to_lowercase};

verus! {

/// The wire name of a provider, as stored in the user row.
pub open spec fn spec_provider_name(p: Provider) -> Seq<char> {
    match p {
        Provider::Google => "google"@,
        Provider::Microsoft => "microsoft"@,
    }
}

pub fn provider_name(p: Provider) -> (r: &'static str)
    ensures
        r@ == spec_provider_name(p),
{
    match p {
        Provider::Google => "google",
        Provider::Microsoft => "microsoft",
    }
}

/// What the caller must do with the user store after reconciliation.
pub enum ReconcileDecision {
    /// The user exists: refresh the stored link to the latest validated
    /// identity and log the user in.
    Relink { user: LoggedInUser, provider: String, external_id: String },
    /// The user is new and the domain self-registers: insert this row.
    Create { new_user: NewUsuario },
}

/// The `Relink` decision matches the looked-up row and carries the latest
/// identity's link fields.
pub open spec fn relink_decision(
    d: ReconcileDecision,
    rec: UserDbRecord,
    identity: ExternalIdentity,
) -> bool {
    &&& d matches ReconcileDecision::Relink { user, provider, external_id }
    &&& user.usuario_id == Some(rec.usuario_id)
    &&& user.usuario matches Some(u) && u@ == rec.usuario@
    &&& user.nombre matches Some(n) && n@ == rec.nombre@
    &&& user.correo matches Some(c) && c@ == rec.correo@
    &&& user.roles@.len() == 1 && user.roles@[0]@ == "Temporal"@
    &&& provider@ == spec_provider_name(identity.provider)
    &&& external_id@ == identity.unique_id@
}

/// The `Create` decision builds the row spec'd for consumer
/// self-registration: username from the e-mail's local part, display name
/// and e-mail the lower-cased e-mail itself, active by default.
pub open spec fn create_decision(
    d: ReconcileDecision,
    identity: ExternalIdentity,
    fecha_creacion: Seq<char>,
) -> bool {
    &&& d matches ReconcileDecision::Create { new_user }
    &&& local_of(spec_lower(identity.email@)) matches Some(lp) && new_user.usuario@ == lp
    &&& new_user.nombre@ == spec_lower(identity.email@)
    &&& new_user.correo@ == spec_lower(identity.email@)
    &&& new_user.estado@ == "Activo"@
    &&& new_user.autor@ == "System"@
    &&& new_user.fecha_creacion@ == fecha_creacion
}

/// The login view of an existing user row.  The role list mirrors the
/// stored behaviour: a single placeholder role.
pub fn user_from_record(rec: &UserDbRecord) -> (r: LoggedInUser)
    ensures
        r.usuario_id == Some(rec.usuario_id),
        r.usuario matches Some(u) && u@ == rec.usuario@,
        r.nombre matches Some(n) && n@ == rec.nombre@,
        r.correo matches Some(c) && c@ == rec.correo@,
        r.roles@.len() == 1 && r.roles@[0]@ == "Temporal"@,
{
    let mut roles: Vec<String> = Vec::new();
    roles.push("Temporal".to_owned());
    LoggedInUser {
        usuario_id: Some(rec.usuario_id),
        usuario: Some(rec.usuario.clone()),
        nombre: Some(rec.nombre.clone()),
        correo: Some(rec.correo.clone()),
        roles,
    }
}

/// Reconciles a verified identity with the result of the lookup by
/// (lower-cased) e-mail.  The domain gate has already run: the class is
/// never `NotAllowed` here, and the e-mail carries a domain.
///
/// A found user is relinked — never re-created — to the latest identity; an
/// unknown user of a strict corporate domain is denied; an unknown consumer
/// user is auto-created.
pub fn find_or_create_user(
    lookup: &Option<UserDbRecord>,
    identity: &ExternalIdentity,
    class: DomainClass,
    fecha_creacion: &str,
) -> (r: Result<ReconcileDecision, AuthError>)
    requires
        class != DomainClass::NotAllowed,
        local_of(identity.email@) is Some,
    ensures
        (*lookup) matches Some(rec) ==> (r matches Ok(d) && relink_decision(d, rec, *identity)),
        (*lookup) is None && class == DomainClass::StrictB2b ==> r == Err::<
            ReconcileDecision,
            AuthError,
        >(AuthError::UserProvisioningDenied),
        (*lookup) is None && class == DomainClass::Consumer ==> (r matches Ok(d) && create_decision(
            d,
            *identity,
            fecha_creacion@,
        )),
{
    match lookup {
        Some(rec) => {
            let user = user_from_record(rec);
            Ok(
                ReconcileDecision::Relink {
                    user,
                    provider: provider_name(identity.provider).to_owned(),
                    external_id: identity.unique_id.clone(),
                },
            )
        },
        None => {
            if matches!(class, DomainClass::StrictB2b) {
                return Err(AuthError::UserProvisioningDenied);
            }
            let email_lower = to_lowercase(identity.email.as_str());
            proof {
                lemma_lower_preserves_at(identity.email@);
            }
            let usuario = match email_local_part(email_lower.as_str()) {
                Some(lp) => lp,
                None => {
                    // unreachable: case folding keeps the e-mail's at sign
                    proof {
                        assert(false);
                    }
                    return Err(AuthError::PersistenceError);
                },
            };
            Ok(
                ReconcileDecision::Create {
                    new_user: NewUsuario {
                        usuario,
                        nombre: email_lower.clone(),
                        correo: email_lower,
                        estado: "Activo".to_owned(),
                        autor: "System".to_owned(),
                        fecha_creacion: fecha_creacion.to_owned(),
                    },
                },
            )
        },
    }
}

/// Lower-casing does not add or remove `@` characters, so an e-mail keeps
/// its local part and domain under case folding.
proof fn lemma_lower_preserves_at(s: Seq<char>)
    ensures
        local_of(s) is Some ==> local_of(spec_lower(s)) is Some,
{
    if local_of(s) is Some {
        crate::textutil::lemma_spec_find(s, '@', 0);
        let i = crate::textutil::spec_find(s, '@', 0).unwrap();
        assert(spec_lower(s)[i] == '@');
        crate::textutil::lemma_spec_find(spec_lower(s), '@', 0);
        if crate::textutil::spec_find(spec_lower(s), '@', 0) is None {
            assert(spec_lower(s)[i] != '@');
        }
    }
}

/// Idempotent relink: reconciling an existing user twice with the same
/// external identity yields the same decision both times — a relink, never
/// a creation — and the stored link fields reflect the identity of the
/// latest call.
pub proof fn lemma_idempotent_relink(
    d1: ReconcileDecision,
    d2: ReconcileDecision,
    rec: UserDbRecord,
    identity: ExternalIdentity,
)
    requires
        relink_decision(d1, rec, identity),
        relink_decision(d2, rec, identity),
    ensures
        !(d1 matches ReconcileDecision::Create { .. }),
        !(d2 matches ReconcileDecision::Create { .. }),
        (d1 matches ReconcileDecision::Relink { external_id: e1, provider: p1, .. } && d2 matches
            ReconcileDecision::Relink { external_id: e2, provider: p2, .. } && e1@ == e2@ && p1@
            == p2@ && e1@ == identity.unique_id@),
{
}

/// The full row of a user created with a fresh id: the new fields are
/// exactly those inserted, the audit fields start empty.
pub fn create_new_user(user: NewUsuario, new_id: i32) -> (r: Usuario)
    ensures
        r.usuario_id == new_id,
        r.usuario == user.usuario,
        r.nombre == user.nombre,
        r.correo == user.correo,
        r.estado == user.estado,
        r.autor == user.autor,
        r.fecha_creacion == user.fecha_creacion,
        r.modificado_por is None,
        r.fecha_modificacion is None,
        r.codigo_verificacion is None,
        r.fecha_codigo_verificacion is None,
{
    Usuario {
        usuario_id: new_id,
        usuario: user.usuario,
        nombre: user.nombre,
        correo: user.correo,
        estado: user.estado,
        autor: user.autor,
        fecha_creacion: user.fecha_creacion,
        modificado_por: None,
        fecha_modificacion: None,
        codigo_verificacion: None,
        fecha_codigo_verificacion: None,
    }
}

} // verus!
