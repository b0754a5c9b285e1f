//! Users of the system and the roles they can apply for.

use vstd::prelude::*;
use crate::cuenta::AccountId;

verus! {

/// The role a user applies for in an election.
#[derive(Clone, Copy, Debug, PartialEq, Eq)]
pub enum Rol {
    Votante,
    Candidato,
}

/// A user: personal data, whether the administrator approved it, and its
/// account.
#[derive(Debug)]
pub struct Usuario {
    pub nombre: String,
    pub apellido: String,
    pub edad: i32,
    pub dni: i128,
    pub verificado: bool,
    pub rol: Option<Rol>,
    pub acc_id: AccountId,
}

impl Usuario {
    /// A user with the given data.
    pub fn new(
        nombre: String,
        apellido: String,
        dni: i128,
        edad: i32,
        verificado: bool,
        rol: Option<Rol>,
        acc_id: AccountId,
    ) -> (u: Self)
        ensures
            u.nombre == nombre,
            u.apellido == apellido,
            u.dni == dni,
            u.edad == edad,
            u.verificado == verificado,
            u.rol == rol,
            u.acc_id == acc_id,
    {
        Self { nombre, apellido, dni, edad, verificado, rol, acc_id }
    }

    /// A copy of the user.
    pub fn copia(&self) -> (u: Self)
        ensures
            u == *self,
    {
        Usuario {
            nombre: self.nombre.clone(),
            apellido: self.apellido.clone(),
            edad: self.edad,
            dni: self.dni,
            verificado: self.verificado,
            rol: self.rol,
            acc_id: self.acc_id,
        }
    }
}

impl Clone for Usuario {
    /// A copy of the user.
    fn clone(&self) -> (u: Self)
        ensures
            u == *self,
    {
        self.copia()
    }
}

/// A copy of a list of users.
pub fn copiar_usuarios(v: &Vec<Usuario>) -> (r: Vec<Usuario>)
    ensures
        r@ == v@,
{
    let mut r: Vec<Usuario> = Vec::new();
    let mut i: usize = 0;
    while i < v.len()
        invariant
            i <= v@.len(),
            r@ == v@.take(i as int),
        decreases v@.len() - i,
    {
        r.push(v[i].copia());
        assert(v@.take(i + 1) =~= v@.take(i as int).push(v@[i as int]));
        i = i + 1;
    }
    assert(v@.take(v@.len() as int) =~= v@);
    r
}

} // verus!
