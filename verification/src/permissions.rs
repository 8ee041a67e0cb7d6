//! Permission resolution for an authenticated user.
//!
//! Authorization emptiness is never an error: a user without explicit
//! grants receives the minimal base set, so authentication cannot fail for
//! want of authorization data.

use vstd::prelude::*;
use crate::textutil::str_eq;

verus! {

/// Permissions of a user by username.  The administrator account receives
/// the full set; everyone else the minimal base set.
pub fn get_user_permissions(usuario: &str) -> (r: Vec<String>)
    ensures
        r@.len() >= 1,
        usuario@ == "admin"@ ==> (r@.len() == 8 && r@[0]@ == "inicio"@ && r@[1]@
            == "administracion"@ && r@[2]@ == "lista_usuarios"@ && r@[3]@ == "agregar_usuario"@
            && r@[4]@ == "editar_usuario"@ && r@[5]@ == "lista_roles"@ && r@[6]@ == "vistas"@
            && r@[7]@ == "ayuda"@),
        usuario@ != "admin"@ ==> (r@.len() == 1 && r@[0]@ == "inicio"@),
{
    let mut perms: Vec<String> = Vec::new();
    if str_eq(usuario, "admin") {
        perms.push("inicio".to_owned());
        perms.push("administracion".to_owned());
        perms.push("lista_usuarios".to_owned());
        perms.push("agregar_usuario".to_owned());
        perms.push("editar_usuario".to_owned());
        perms.push("lista_roles".to_owned());
        perms.push("vistas".to_owned());
        perms.push("ayuda".to_owned());
    } else {
        perms.push("inicio".to_owned());
    }
    perms
}

/// The permission list owed to a user of one application: the
/// administrative set for the first user of the first application, the
/// minimal base set for everyone else.
pub open spec fn spec_app_permissions(usuario_id: int, aplicativo_id: int, perms: Seq<String>) -> bool {
    if usuario_id == 1 && aplicativo_id == 1 {
        perms.len() == 4 && perms[0]@ == "inicio"@ && perms[1]@ == "administracion"@ && perms[2]@
            == "lista_usuarios"@ && perms[3]@ == "agregar_usuario"@
    } else {
        perms.len() == 1 && perms[0]@ == "inicio"@
    }
}

/// Permissions of a user scoped to one application.  Only the first user
/// of the first application holds the administrative set; everyone else
/// receives the minimal base set, never an error.
pub fn get_permissions_by_app(usuario_id: i32, aplicativo_id: i32) -> (r: Vec<String>)
    ensures
        spec_app_permissions(usuario_id as int, aplicativo_id as int, r@),
        r@.len() >= 1,
        usuario_id == 1 && aplicativo_id == 1 ==> (r@.len() == 4 && r@[0]@ == "inicio"@ && r@[1]@
            == "administracion"@ && r@[2]@ == "lista_usuarios"@ && r@[3]@ == "agregar_usuario"@),
        !(usuario_id == 1 && aplicativo_id == 1) ==> (r@.len() == 1 && r@[0]@ == "inicio"@),
{
    let mut perms: Vec<String> = Vec::new();
    if usuario_id == 1 && aplicativo_id == 1 {
        perms.push("inicio".to_owned());
        perms.push("administracion".to_owned());
        perms.push("lista_usuarios".to_owned());
        perms.push("agregar_usuario".to_owned());
    } else {
        perms.push("inicio".to_owned());
    }
    perms
}

} // verus!
