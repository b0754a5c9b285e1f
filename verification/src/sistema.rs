//! The voting system: user registration and approval, elections, applications
//! as candidate or voter, and voting.

use vstd::prelude::*;
use crate::cuenta::{AccountId, Timestamp};
use crate::fecha::{Fecha, fecha_valida, fecha_mayor, timestamp_de};
use crate::usuario::{Rol, Usuario, copiar_usuarios};
use crate::votacion::{
    Votacion,
    VotacionV,
    contiene_cuenta,
    votacion_nueva,
    con_candidato,
    con_votante,
    con_votador,
    con_voto,
};
use crate::resultados::{tiene_usuario, nombres_disponibles};
use crate::invariante::sistema_valido;

verus! {

/// The abstract state of the system.
#[verifier::ext_equal]
pub struct SistemaV {
    pub nombre_administrador: Seq<char>,
    /// Users waiting for the administrator's approval, oldest first.
    pub espera_usuarios: Seq<Usuario>,
    /// Approved users.
    pub usuarios_reg: Seq<Usuario>,
    /// Applications as candidate: account and election, oldest first.
    pub espera_candidatos: Seq<(AccountId, i32)>,
    /// Applications as voter: account and election, oldest first.
    pub espera_votantes: Seq<(AccountId, i32)>,
    pub votaciones: Seq<VotacionV>,
    pub admin: AccountId,
}

/// Why the system refuses a request.
#[derive(Clone, Copy, Debug, PartialEq, Eq)]
pub enum ErrorSistema {
    /// The account or document is already waiting for approval.
    EsperaValidacion,
    /// The account or document already belongs to an approved user.
    CuentaODniRegistrado,
    /// Users must be 18 or older.
    EdadInsuficiente,
    SoloAdminValidaUsuarios,
    /// A date is not a real date from 1970 on, or the end is not after the start.
    FechaInvalida,
    /// The account is not an approved user.
    NoRegistradoOValidado,
    /// No election has this identifier.
    VotacionInexistente(i32),
    VotacionYaInicio,
    /// The account is already a candidate or a voter of the election.
    YaPostulado,
    /// The account already applied to the election.
    EnColaDeEspera,
    SoloAdminValidaCandidatos,
    SoloAdminValidaVotantes,
    AdminNoPuedeVotar,
    /// The voter is not an approved user.
    UsuarioNoRegistrado,
    VotacionNoInicio,
    VotacionFinalizo,
    /// The account is not an approved voter of the election.
    NoEsVotante,
    YaVoto,
    SinCandidatos,
    OpcionInvalida,
}

/// The answer to a request: the new state and the outcome.
pub type Paso = (SistemaV, Result<(), ErrorSistema>);

/// A refused request: the state stays as it was.
pub open spec fn rechazo(s: SistemaV, e: ErrorSistema) -> Paso {
    (s, Err(e))
}

/// An accepted request leading to state `t`.
pub open spec fn acepta(t: SistemaV) -> Paso {
    (t, Ok(()))
}

/// Some user of `us` has document `dni` or account `acc`.
pub open spec fn choca_con(us: Seq<Usuario>, dni: i128, acc: AccountId) -> bool {
    exists|i: int| 0 <= i < us.len() && ((#[trigger] us[i]).dni == dni || us[i].acc_id == acc)
}

/// `i` is the position of the first election of `vs` with identifier `id`.
pub open spec fn es_primera_votacion(vs: Seq<VotacionV>, id: i32, i: int) -> bool {
    &&& 0 <= i < vs.len()
    &&& vs[i].id == id
    &&& forall|k: int| 0 <= k < i ==> (#[trigger] vs[k]).id != id
}

/// Some election of `vs` has identifier `id`.
pub open spec fn existe_votacion(vs: Seq<VotacionV>, id: i32) -> bool {
    exists|i: int| 0 <= i < vs.len() && (#[trigger] vs[i]).id == id
}

/// The position of the first election of `vs` with identifier `id`.
pub open spec fn indice_votacion(vs: Seq<VotacionV>, id: i32) -> int {
    choose|i: int| es_primera_votacion(vs, id, i)
}

/// Where some election has identifier `id`, the first one is found.
pub proof fn lemma_primera_votacion(vs: Seq<VotacionV>, id: i32)
    requires
        existe_votacion(vs, id),
    ensures
        es_primera_votacion(vs, id, indice_votacion(vs, id)),
    decreases vs.len(),
{
    if vs[0].id == id {
        assert(es_primera_votacion(vs, id, 0));
    } else {
        let t = vs.drop_first();
        let i = choose|i: int| 0 <= i < vs.len() && (#[trigger] vs[i]).id == id;
        assert(t[i - 1].id == id);
        lemma_primera_votacion(t, id);
        let j = indice_votacion(t, id);
        assert forall|k: int| 0 <= k < j + 1 implies (#[trigger] vs[k]).id != id by {
            if k > 0 {
                assert(vs[k] == t[k - 1]);
            }
        }
        assert(es_primera_votacion(vs, id, j + 1));
    }
}

/// Two lists of elections with the same identifiers at the same positions
/// find an identifier at the same position.
pub proof fn lemma_mismos_ids_votacion(vs: Seq<VotacionV>, ws: Seq<VotacionV>, id: i32)
    requires
        vs.len() == ws.len(),
        forall|k: int| 0 <= k < vs.len() ==> (#[trigger] vs[k]).id == ws[k].id,
        existe_votacion(vs, id),
    ensures
        existe_votacion(ws, id),
        indice_votacion(ws, id) == indice_votacion(vs, id),
{
    lemma_primera_votacion(vs, id);
    let i = indice_votacion(vs, id);
    assert forall|m: int| 0 <= m < i implies (#[trigger] ws[m]).id != id by {
        assert(vs[m].id != id);
    }
    assert(es_primera_votacion(ws, id, i));
    lemma_primera_votacion(ws, id);
    let j = indice_votacion(ws, id);
    if j < i {
        assert(ws[j].id != id);
    }
    if i < j {
        assert(ws[i].id != id);
    }
}

/// A user waiting for approval, as a registration creates it.
pub open spec fn usuario_pendiente(
    nom: String,
    apellido: String,
    edad: i32,
    dni: i128,
    acc: AccountId,
) -> Usuario {
    Usuario { nombre: nom, apellido, edad, dni, verificado: false, rol: None, acc_id: acc }
}

/// Registration request of account `caller`.
pub open spec fn registrar(
    s: SistemaV,
    nom: String,
    apellido: String,
    edad: i32,
    dni: i128,
    caller: AccountId,
) -> Paso {
    if caller == s.admin {
        acepta(s)
    } else if edad < 18 {
        rechazo(s, ErrorSistema::EdadInsuficiente)
    } else if choca_con(s.usuarios_reg, dni, caller) {
        rechazo(s, ErrorSistema::CuentaODniRegistrado)
    } else if choca_con(s.espera_usuarios, dni, caller) {
        rechazo(s, ErrorSistema::EsperaValidacion)
    } else {
        acepta(
            SistemaV {
                espera_usuarios: s.espera_usuarios.push(
                    usuario_pendiente(nom, apellido, edad, dni, caller),
                ),
                ..s
            },
        )
    }
}

/// The administrator accepts or rejects the oldest pending user.
pub open spec fn validar_usuario(s: SistemaV, aceptar: bool, caller: AccountId) -> Paso {
    if caller != s.admin {
        rechazo(s, ErrorSistema::SoloAdminValidaUsuarios)
    } else if s.espera_usuarios.len() == 0 {
        acepta(s)
    } else {
        let u = s.espera_usuarios[0];
        acepta(
            SistemaV {
                usuarios_reg: if aceptar {
                    s.usuarios_reg.push(Usuario { verificado: true, ..u })
                } else {
                    s.usuarios_reg
                },
                espera_usuarios: s.espera_usuarios.drop_first(),
                ..s
            },
        )
    }
}

/// Request to create election `id` from `inicio` to `fin`.
pub open spec fn crear_votacion(
    s: SistemaV,
    id: i32,
    puesto: Seq<char>,
    inicio: Fecha,
    fin: Fecha,
    caller: AccountId,
) -> Paso {
    if !fecha_valida(inicio) || !fecha_valida(fin) || !fecha_mayor(fin, inicio) {
        rechazo(s, ErrorSistema::FechaInvalida)
    } else if caller != s.admin || existe_votacion(s.votaciones, id) {
        acepta(s)
    } else {
        acepta(
            SistemaV {
                votaciones: s.votaciones.push(
                    votacion_nueva(id, puesto, timestamp_de(inicio), timestamp_de(fin)),
                ),
                ..s
            },
        )
    }
}

/// Application of account `caller` to election `id` with role `rol`.
pub open spec fn postularse(
    s: SistemaV,
    rol: Rol,
    id: i32,
    caller: AccountId,
    momento: Timestamp,
) -> Paso {
    if !tiene_usuario(s.usuarios_reg, caller) {
        rechazo(s, ErrorSistema::NoRegistradoOValidado)
    } else if !existe_votacion(s.votaciones, id) {
        rechazo(s, ErrorSistema::VotacionInexistente(id))
    } else {
        let v = s.votaciones[indice_votacion(s.votaciones, id)];
        if momento >= v.fecha_inicio {
            rechazo(s, ErrorSistema::VotacionYaInicio)
        } else if v.votantes.contains(caller) || v.candidatos.contains(caller) {
            rechazo(s, ErrorSistema::YaPostulado)
        } else if s.espera_candidatos.contains((caller, id)) || s.espera_votantes.contains(
            (caller, id),
        ) {
            rechazo(s, ErrorSistema::EnColaDeEspera)
        } else {
            match rol {
                Rol::Candidato => acepta(
                    SistemaV { espera_candidatos: s.espera_candidatos.push((caller, id)), ..s },
                ),
                Rol::Votante => acepta(
                    SistemaV { espera_votantes: s.espera_votantes.push((caller, id)), ..s },
                ),
            }
        }
    }
}

/// The administrator decides on the oldest application as candidate.
pub open spec fn validar_candidato(
    s: SistemaV,
    aceptar: bool,
    caller: AccountId,
    momento: Timestamp,
) -> Paso {
    if caller != s.admin {
        rechazo(s, ErrorSistema::SoloAdminValidaCandidatos)
    } else if s.espera_candidatos.len() == 0 {
        acepta(s)
    } else {
        let (acc, vid) = s.espera_candidatos[0];
        if tiene_usuario(s.usuarios_reg, acc) && existe_votacion(s.votaciones, vid) {
            let i = indice_votacion(s.votaciones, vid);
            let v = s.votaciones[i];
            acepta(
                SistemaV {
                    espera_candidatos: s.espera_candidatos.drop_first(),
                    votaciones: if momento < v.fecha_inicio && aceptar {
                        s.votaciones.update(i, con_candidato(v, acc))
                    } else {
                        s.votaciones
                    },
                    ..s
                },
            )
        } else {
            acepta(s)
        }
    }
}

/// The administrator decides on the oldest application as voter.
pub open spec fn validar_votante(
    s: SistemaV,
    aceptar: bool,
    caller: AccountId,
    momento: Timestamp,
) -> Paso {
    if caller != s.admin {
        rechazo(s, ErrorSistema::SoloAdminValidaVotantes)
    } else if s.espera_votantes.len() == 0 {
        acepta(s)
    } else {
        let (acc, vid) = s.espera_votantes[0];
        if tiene_usuario(s.usuarios_reg, acc) && existe_votacion(s.votaciones, vid) {
            let i = indice_votacion(s.votaciones, vid);
            let v = s.votaciones[i];
            acepta(
                SistemaV {
                    espera_votantes: s.espera_votantes.drop_first(),
                    votaciones: if momento < v.fecha_inicio && aceptar {
                        s.votaciones.update(i, con_votante(v, acc))
                    } else {
                        s.votaciones
                    },
                    ..s
                },
            )
        } else {
            acepta(s)
        }
    }
}

/// Account `caller` votes in election `id` for the candidate numbered
/// `opcion` (1 for the first approved candidate).
pub open spec fn votar(
    s: SistemaV,
    id: i32,
    opcion: i32,
    caller: AccountId,
    momento: Timestamp,
) -> Paso {
    if caller == s.admin {
        rechazo(s, ErrorSistema::AdminNoPuedeVotar)
    } else if !tiene_usuario(s.usuarios_reg, caller) {
        rechazo(s, ErrorSistema::UsuarioNoRegistrado)
    } else if !existe_votacion(s.votaciones, id) {
        rechazo(s, ErrorSistema::VotacionInexistente(id))
    } else {
        let i = indice_votacion(s.votaciones, id);
        let v = s.votaciones[i];
        if momento < v.fecha_inicio {
            rechazo(s, ErrorSistema::VotacionNoInicio)
        } else if momento >= v.fecha_fin {
            rechazo(s, ErrorSistema::VotacionFinalizo)
        } else if !v.votantes.contains(caller) {
            rechazo(s, ErrorSistema::NoEsVotante)
        } else if v.votaron.contains(caller) {
            rechazo(s, ErrorSistema::YaVoto)
        } else if v.candidatos.len() == 0 {
            rechazo(s, ErrorSistema::SinCandidatos)
        } else if opcion == i32::MIN {
            // the option has no predecessor: nothing happens
            acepta(s)
        } else if opcion < 1 || ((opcion - 1) as usize) >= v.candidatos.len() {
            rechazo(s, ErrorSistema::OpcionInvalida)
        } else {
            let pos = ((opcion - 1) as usize) as int;
            acepta(
                SistemaV {
                    votaciones: s.votaciones.update(i, con_votador(con_voto(v, pos), caller)),
                    ..s
                },
            )
        }
    }
}

/// The data of the system, consistent between requests.
#[derive(Debug)]
struct Estado {
    nombre_administrador: String,
    espera_usuarios: Vec<Usuario>,
    usuarios_reg: Vec<Usuario>,
    espera_candidatos: Vec<(AccountId, i32)>,
    espera_votantes: Vec<(AccountId, i32)>,
    votaciones: Vec<Votacion>,
    admin: AccountId,
}

impl View for Estado {
    type V = SistemaV;

    closed spec fn view(&self) -> SistemaV {
        SistemaV {
            nombre_administrador: self.nombre_administrador@,
            espera_usuarios: self.espera_usuarios@,
            usuarios_reg: self.usuarios_reg@,
            espera_candidatos: self.espera_candidatos@,
            espera_votantes: self.espera_votantes@,
            votaciones: self.votaciones@.map_values(|v: Votacion| v@),
            admin: self.admin,
        }
    }
}

/// Whether some user of `us` has document `dni` or account `acc`.
fn choca(us: &Vec<Usuario>, dni: i128, acc: &AccountId) -> (r: bool)
    ensures
        r == choca_con(us@, dni, *acc),
{
    let mut i: usize = 0;
    while i < us.len()
        invariant
            i <= us@.len(),
            forall|k: int|
                0 <= k < i ==> (#[trigger] us@[k]).dni != dni && us@[k].acc_id != *acc,
        decreases us@.len() - i,
    {
        if us[i].dni == dni || us[i].acc_id.igual(acc) {
            return true;
        }
        i = i + 1;
    }
    false
}

/// Whether some user of `us` has account `acc`.
fn hay_usuario(us: &Vec<Usuario>, acc: &AccountId) -> (r: bool)
    ensures
        r == tiene_usuario(us@, *acc),
{
    let mut i: usize = 0;
    while i < us.len()
        invariant
            i <= us@.len(),
            forall|k: int| 0 <= k < i ==> (#[trigger] us@[k]).acc_id != *acc,
        decreases us@.len() - i,
    {
        if us[i].acc_id.igual(acc) {
            return true;
        }
        i = i + 1;
    }
    false
}

/// Whether `v` holds the application of `acc` to election `id`.
fn contiene_solicitud(v: &Vec<(AccountId, i32)>, acc: &AccountId, id: i32) -> (r: bool)
    ensures
        r == v@.contains((*acc, id)),
{
    let mut i: usize = 0;
    while i < v.len()
        invariant
            i <= v@.len(),
            forall|k: int| 0 <= k < i ==> v@[k] != (*acc, id),
        decreases v@.len() - i,
    {
        if v[i].1 == id && v[i].0.igual(acc) {
            return true;
        }
        i = i + 1;
    }
    false
}

impl Estado {
    /// The data's consistency.
    spec fn wf(&self) -> bool {
        sistema_valido(self@)
    }

    proof fn lemma_vista_votacion(&self, i: int)
        requires
            0 <= i < self.votaciones@.len(),
        ensures
            self@.votaciones[i] == self.votaciones@[i]@,
            self@.votaciones.len() == self.votaciones@.len(),
    {
    }

    /// A system with no users and no elections, run by `admin`.
    fn new(nombre_administrador: String, admin: AccountId) -> (s: Self)
        ensures
            s@ == (SistemaV {
                nombre_administrador: nombre_administrador@,
                espera_usuarios: Seq::empty(),
                usuarios_reg: Seq::empty(),
                espera_candidatos: Seq::empty(),
                espera_votantes: Seq::empty(),
                votaciones: Seq::empty(),
                admin,
            }),
            s.wf(),
    {
        let s = Self {
            nombre_administrador,
            espera_usuarios: Vec::new(),
            espera_candidatos: Vec::new(),
            espera_votantes: Vec::new(),
            usuarios_reg: Vec::new(),
            votaciones: Vec::new(),
            admin,
        };
        assert(s@.votaciones =~= Seq::<VotacionV>::empty());
        proof {
            crate::invariante::lemma_sistema_vacio_valido(s@);
        }
        s
    }

    /// The position of the first election with identifier `id`.
    fn buscar_votacion(&self, id: i32) -> (r: Option<usize>)
        ensures
            match r {
                Some(i) => {
                    &&& i < self.votaciones@.len()
                    &&& existe_votacion(self@.votaciones, id)
                    &&& indice_votacion(self@.votaciones, id) == i
                },
                None => !existe_votacion(self@.votaciones, id),
            },
    {
        let mut i: usize = 0;
        while i < self.votaciones.len()
            invariant
                i <= self.votaciones@.len(),
                forall|k: int| 0 <= k < i ==> (#[trigger] self@.votaciones[k]).id != id,
            decreases self.votaciones@.len() - i,
        {
            proof {
                self.lemma_vista_votacion(i as int);
            }
            if self.votaciones[i].id() == id {
                proof {
                    let vs = self@.votaciones;
                    assert(es_primera_votacion(vs, id, i as int));
                    let j = indice_votacion(vs, id);
                    assert(es_primera_votacion(vs, id, j));
                    if j < i {
                        assert(vs[j].id != id);
                    }
                    if j > i {
                        assert(vs[i as int].id != id);
                    }
                }
                return Some(i);
            }
            i = i + 1;
        }
        proof {
            if existe_votacion(self@.votaciones, id) {
                let k = choose|k: int|
                    0 <= k < self@.votaciones.len() && (#[trigger] self@.votaciones[k]).id == id;
                self.lemma_vista_votacion(k);
            }
        }
        None
    }

    /// Registration request of account `caller`: the user waits for the
    /// administrator's approval. The administrator's own request is ignored.
    fn registrar_usuario_impl(
        &mut self,
        nom: String,
        apellido: String,
        edad: i32,
        dni: i128,
        caller: AccountId,
    ) -> (r: Result<(), ErrorSistema>)
        requires
            old(self).wf(),
        ensures
            (final(self)@, r) == registrar(old(self)@, nom, apellido, edad, dni, caller),
            final(self).wf(),
    {
        if caller.igual(&self.admin) {
            return Ok(());
        }
        let aux: Usuario = Usuario::new(nom, apellido, dni, edad, false, None, caller);
        if edad < 18 {
            return Err(ErrorSistema::EdadInsuficiente);
        }
        if choca(&self.usuarios_reg, dni, &caller) {
            return Err(ErrorSistema::CuentaODniRegistrado);
        }
        if choca(&self.espera_usuarios, dni, &caller) {
            return Err(ErrorSistema::EsperaValidacion);
        }
        self.espera_usuarios.push(aux);
        proof {
            assert(self@ =~= registrar(old(self)@, nom, apellido, edad, dni, caller).0);
            crate::invariante::lemma_registrar_valido(old(self)@, nom, apellido, edad, dni, caller);
        }
        Ok(())
    }

    /// The administrator accepts (approving it) or rejects the oldest
    /// pending user; nothing happens when nobody is waiting.
    fn validar_usuario_impl(&mut self, aceptar: bool, caller: AccountId) -> (r: Result<
        (),
        ErrorSistema,
    >)
        requires
            old(self).wf(),
        ensures
            (final(self)@, r) == validar_usuario(old(self)@, aceptar, caller),
            final(self).wf(),
    {
        if !caller.igual(&self.admin) {
            return Err(ErrorSistema::SoloAdminValidaUsuarios);
        }
        if self.espera_usuarios.len() > 0 {
            let mut us = self.espera_usuarios[0].copia();
            if aceptar {
                us.verificado = true;
                self.usuarios_reg.push(us);
            }
            self.espera_usuarios.remove(0);
        }
        proof {
            assert(self@ =~= validar_usuario(old(self)@, aceptar, caller).0);
            crate::invariante::lemma_validar_usuario_valido(old(self)@, aceptar, caller);
        }
        Ok(())
    }

    /// Request to create election `id` for the office `puesto`, from the
    /// start of `fecha_inicio`'s timestamp to that of `fecha_fin`. Only the
    /// administrator creates elections, and an existing identifier is kept.
    fn crear_votacion_impl(
        &mut self,
        id: i32,
        puesto: String,
        fecha_inicio: Fecha,
        fecha_fin: Fecha,
        caller: AccountId,
    ) -> (r: Result<(), ErrorSistema>)
        requires
            old(self).wf(),
        ensures
            (final(self)@, r) == crear_votacion(
                old(self)@,
                id,
                puesto@,
                fecha_inicio,
                fecha_fin,
                caller,
            ),
            final(self).wf(),
    {
        if !fecha_inicio.es_fecha_valida() || !fecha_fin.es_fecha_valida() || !fecha_fin.es_mayor(
            &fecha_inicio,
        ) {
            return Err(ErrorSistema::FechaInvalida);
        }
        if caller.igual(&self.admin) {
            if self.buscar_votacion(id).is_none() {
                let v = Votacion::new(
                    id,
                    puesto,
                    fecha_inicio.to_timestamp(),
                    fecha_fin.to_timestamp(),
                );
                self.votaciones.push(v);
            }
        }
        proof {
            assert(self@ =~= crear_votacion(
                old(self)@,
                id,
                puesto@,
                fecha_inicio,
                fecha_fin,
                caller,
            ).0);
            crate::invariante::lemma_crear_votacion_valido(
                old(self)@,
                id,
                puesto@,
                fecha_inicio,
                fecha_fin,
                caller,
            );
        }
        Ok(())
    }

    /// Application of the approved user `caller` to election `id` as
    /// candidate or voter, before the election starts.
    fn postularse_a_votacion_impl(
        &mut self,
        rol: Rol,
        id_de_votacion: i32,
        caller: AccountId,
        momento: Timestamp,
    ) -> (r: Result<(), ErrorSistema>)
        requires
            old(self).wf(),
        ensures
            (final(self)@, r) == postularse(old(self)@, rol, id_de_votacion, caller, momento),
            final(self).wf(),
    {
        if !hay_usuario(&self.usuarios_reg, &caller) {
            return Err(ErrorSistema::NoRegistradoOValidado);
        }
        let i = match self.buscar_votacion(id_de_votacion) {
            Some(i) => i,
            None => {
                return Err(ErrorSistema::VotacionInexistente(id_de_votacion));
            },
        };
        proof {
            self.lemma_vista_votacion(i as int);
        }
        let v = &self.votaciones[i];
        if v.inicio(momento) {
            return Err(ErrorSistema::VotacionYaInicio);
        }
        if v.es_votante(caller) || v.es_candidato(caller) {
            return Err(ErrorSistema::YaPostulado);
        }
        if contiene_solicitud(&self.espera_candidatos, &caller, id_de_votacion)
            || contiene_solicitud(&self.espera_votantes, &caller, id_de_votacion) {
            return Err(ErrorSistema::EnColaDeEspera);
        }
        match rol {
            Rol::Candidato => {
                self.espera_candidatos.push((caller, id_de_votacion));
            },
            Rol::Votante => {
                self.espera_votantes.push((caller, id_de_votacion));
            },
        }
        proof {
            assert(self@ =~= postularse(old(self)@, rol, id_de_votacion, caller, momento).0);
            crate::invariante::lemma_postularse_valido(
                old(self)@,
                rol,
                id_de_votacion,
                caller,
                momento,
            );
        }
        Ok(())
    }

    /// The administrator decides on the oldest application as candidate: it
    /// leaves the queue, and joins the candidates when accepted before the
    /// election starts.
    fn validar_candidato_impl(&mut self, aceptar: bool, caller: AccountId, momento: Timestamp) -> (r:
        Result<(), ErrorSistema>)
        requires
            old(self).wf(),
        ensures
            (final(self)@, r) == validar_candidato(old(self)@, aceptar, caller, momento),
            final(self).wf(),
    {
        if !caller.igual(&self.admin) {
            return Err(ErrorSistema::SoloAdminValidaCandidatos);
        }
        if self.espera_candidatos.len() > 0 {
            let acc_id = self.espera_candidatos[0].0;
            let vot_id = self.espera_candidatos[0].1;
            if hay_usuario(&self.usuarios_reg, &acc_id) {
                if let Some(i) = self.buscar_votacion(vot_id) {
                    proof {
                        self.lemma_vista_votacion(i as int);
                    }
                    if !self.votaciones[i].inicio(momento) && aceptar {
                        self.votaciones[i].sumar_candidato(acc_id);
                    }
                    self.espera_candidatos.remove(0);
                }
            }
        }
        proof {
            assert(self@ =~= validar_candidato(old(self)@, aceptar, caller, momento).0);
            crate::invariante::lemma_validar_candidato_valido(old(self)@, aceptar, caller, momento);
        }
        Ok(())
    }

    /// The administrator decides on the oldest application as voter: it
    /// leaves the queue, and joins the voters when accepted before the
    /// election starts.
    fn validar_votante_impl(&mut self, aceptar: bool, caller: AccountId, momento: Timestamp) -> (r:
        Result<(), ErrorSistema>)
        requires
            old(self).wf(),
        ensures
            (final(self)@, r) == validar_votante(old(self)@, aceptar, caller, momento),
            final(self).wf(),
    {
        if !caller.igual(&self.admin) {
            return Err(ErrorSistema::SoloAdminValidaVotantes);
        }
        if self.espera_votantes.len() > 0 {
            let acc_id = self.espera_votantes[0].0;
            let vot_id = self.espera_votantes[0].1;
            if hay_usuario(&self.usuarios_reg, &acc_id) {
                if let Some(i) = self.buscar_votacion(vot_id) {
                    proof {
                        self.lemma_vista_votacion(i as int);
                    }
                    if !self.votaciones[i].inicio(momento) && aceptar {
                        self.votaciones[i].sumar_votante(acc_id);
                    }
                    self.espera_votantes.remove(0);
                }
            }
        }
        proof {
            assert(self@ =~= validar_votante(old(self)@, aceptar, caller, momento).0);
            crate::invariante::lemma_validar_votante_valido(old(self)@, aceptar, caller, momento);
        }
        Ok(())
    }

    /// The approved voter `caller` votes, once, in the open election `id`
    /// for the candidate numbered `opcion` (1 for the first candidate).
    fn votar_impl(
        &mut self,
        id_de_votacion: i32,
        opcion: i32,
        caller: AccountId,
        momento: Timestamp,
    ) -> (r: Result<(), ErrorSistema>)
        requires
            old(self).wf(),
        ensures
            (final(self)@, r) == votar(old(self)@, id_de_votacion, opcion, caller, momento),
            final(self).wf(),
    {
        if caller.igual(&self.admin) {
            return Err(ErrorSistema::AdminNoPuedeVotar);
        }
        if !hay_usuario(&self.usuarios_reg, &caller) {
            return Err(ErrorSistema::UsuarioNoRegistrado);
        }
        let i = match self.buscar_votacion(id_de_votacion) {
            Some(i) => i,
            None => {
                return Err(ErrorSistema::VotacionInexistente(id_de_votacion));
            },
        };
        proof {
            self.lemma_vista_votacion(i as int);
        }
        let v = &self.votaciones[i];
        if !v.inicio(momento) {
            return Err(ErrorSistema::VotacionNoInicio);
        }
        if v.finalizo(momento) {
            return Err(ErrorSistema::VotacionFinalizo);
        }
        if !v.es_votante(caller) {
            return Err(ErrorSistema::NoEsVotante);
        }
        if v.ya_voto(caller) {
            return Err(ErrorSistema::YaVoto);
        }
        if v.candidatos().len() == 0 {
            return Err(ErrorSistema::SinCandidatos);
        }
        if let Some(op) = opcion.checked_sub(1) {
            if op >= 0 && (op as usize) < self.votaciones[i].candidatos().len() {
                self.votaciones[i].sumar_voto(op as usize);
                self.votaciones[i].sumar_votador(caller);
            } else {
                return Err(ErrorSistema::OpcionInvalida);
            }
        }
        proof {
            assert(self@ =~= votar(old(self)@, id_de_votacion, opcion, caller, momento).0);
            crate::invariante::lemma_votar_valido(
                old(self)@,
                id_de_votacion,
                opcion,
                caller,
                momento,
            );
        }
        Ok(())
    }

    /// A copy of the first election with identifier `id_de_votacion`.
    fn get_votacion(&self, id_de_votacion: i32) -> (r: Option<Votacion>)
        requires
            self.wf(),
        ensures
            match r {
                Some(v) => {
                    &&& existe_votacion(self@.votaciones, id_de_votacion)
                    &&& v@ == self@.votaciones[indice_votacion(self@.votaciones, id_de_votacion)]
                    &&& nombres_disponibles(v@, self@.usuarios_reg)
                },
                None => !existe_votacion(self@.votaciones, id_de_votacion),
            },
    {
        match self.buscar_votacion(id_de_votacion) {
            Some(i) => {
                proof {
                    self.lemma_vista_votacion(i as int);
                    crate::invariante::lemma_nombres_disponibles(self@, i as int);
                }
                Some(self.votaciones[i].copia())
            },
            None => None,
        }
    }

    /// A copy of the approved users.
    fn get_usuarios(&self) -> (r: Vec<Usuario>)
        ensures
            r@ == self@.usuarios_reg,
    {
        copiar_usuarios(&self.usuarios_reg)
    }

    /// The administrator's name.
    fn nombre_administrador(&self) -> (r: &String)
        ensures
            r@ == self@.nombre_administrador,
    {
        &self.nombre_administrador
    }

    /// The administrator's account.
    fn admin(&self) -> (r: AccountId)
        ensures
            r == self@.admin,
    {
        self.admin
    }

    /// Users waiting for approval, oldest first.
    fn espera_usuarios(&self) -> (r: &Vec<Usuario>)
        ensures
            r@ == self@.espera_usuarios,
    {
        &self.espera_usuarios
    }

    /// Approved users.
    fn usuarios_reg(&self) -> (r: &Vec<Usuario>)
        ensures
            r@ == self@.usuarios_reg,
    {
        &self.usuarios_reg
    }

    /// Pending applications as candidate, oldest first.
    fn espera_candidatos(&self) -> (r: &Vec<(AccountId, i32)>)
        ensures
            r@ == self@.espera_candidatos,
    {
        &self.espera_candidatos
    }

    /// Pending applications as voter, oldest first.
    fn espera_votantes(&self) -> (r: &Vec<(AccountId, i32)>)
        ensures
            r@ == self@.espera_votantes,
    {
        &self.espera_votantes
    }

    /// The elections, in order of creation.
    fn votaciones(&self) -> (r: &Vec<Votacion>)
        ensures
            r@.map_values(|v: Votacion| v@) == self@.votaciones,
    {
        &self.votaciones
    }
}

/// The voting system. Its state is consistent at all times: every request
/// keeps it so.
#[derive(Debug)]
pub struct Sistema {
    estado: Estado,
}

impl View for Sistema {
    type V = SistemaV;

    closed spec fn view(&self) -> SistemaV {
        self.estado@
    }
}

impl Sistema {
    /// The state of every system is consistent.
    #[verifier::type_invariant]
    spec fn consistente(self) -> bool {
        self.estado.wf()
    }

    /// A system with no users and no elections, run by `admin`.
    pub fn new(nombre_administrador: String, admin: AccountId) -> (s: Self)
        ensures
            s@ == (SistemaV {
                nombre_administrador: nombre_administrador@,
                espera_usuarios: Seq::empty(),
                usuarios_reg: Seq::empty(),
                espera_candidatos: Seq::empty(),
                espera_votantes: Seq::empty(),
                votaciones: Seq::empty(),
                admin,
            }),
    {
        Sistema { estado: Estado::new(nombre_administrador, admin) }
    }

    /// Takes the data out for a request, leaving an empty system run by the
    /// same administrator in its place.
    fn tomar_estado(&mut self) -> (e: Estado)
        ensures
            e@ == old(self)@,
            e.wf(),
    {
        proof {
            use_type_invariant(&*self);
        }
        let mut e = Estado::new(String::new(), self.estado.admin);
        std::mem::swap(&mut self.estado, &mut e);
        e
    }

    /// Registration request of account `caller`: the user waits for the
    /// administrator's approval. The administrator's own request is ignored.
    pub fn registrar_usuario_impl(
        &mut self,
        nom: String,
        apellido: String,
        edad: i32,
        dni: i128,
        caller: AccountId,
    ) -> (r: Result<(), ErrorSistema>)
        ensures
            (final(self)@, r) == registrar(old(self)@, nom, apellido, edad, dni, caller),
    {
        let mut e = self.tomar_estado();
        let r = e.registrar_usuario_impl(nom, apellido, edad, dni, caller);
        self.estado = e;
        r
    }

    /// The administrator accepts (approving it) or rejects the oldest
    /// pending user; nothing happens when nobody is waiting.
    pub fn validar_usuario_impl(&mut self, aceptar: bool, caller: AccountId) -> (r: Result<
        (),
        ErrorSistema,
    >)
        ensures
            (final(self)@, r) == validar_usuario(old(self)@, aceptar, caller),
    {
        let mut e = self.tomar_estado();
        let r = e.validar_usuario_impl(aceptar, caller);
        self.estado = e;
        r
    }

    /// Request to create election `id` for the office `puesto`, from the
    /// timestamp of `fecha_inicio` to that of `fecha_fin`. Only the
    /// administrator creates elections, and an existing identifier is kept.
    pub fn crear_votacion_impl(
        &mut self,
        id: i32,
        puesto: String,
        fecha_inicio: Fecha,
        fecha_fin: Fecha,
        caller: AccountId,
    ) -> (r: Result<(), ErrorSistema>)
        ensures
            (final(self)@, r) == crear_votacion(
                old(self)@,
                id,
                puesto@,
                fecha_inicio,
                fecha_fin,
                caller,
            ),
    {
        let mut e = self.tomar_estado();
        let r = e.crear_votacion_impl(id, puesto, fecha_inicio, fecha_fin, caller);
        self.estado = e;
        r
    }

    /// Application of the approved user `caller` to election `id` as
    /// candidate or voter, before the election starts.
    pub fn postularse_a_votacion_impl(
        &mut self,
        rol: Rol,
        id_de_votacion: i32,
        caller: AccountId,
        momento: Timestamp,
    ) -> (r: Result<(), ErrorSistema>)
        ensures
            (final(self)@, r) == postularse(old(self)@, rol, id_de_votacion, caller, momento),
    {
        let mut e = self.tomar_estado();
        let r = e.postularse_a_votacion_impl(rol, id_de_votacion, caller, momento);
        self.estado = e;
        r
    }

    /// The administrator decides on the oldest application as candidate: it
    /// leaves the queue, and joins the candidates when accepted before the
    /// election starts.
    pub fn validar_candidato_impl(&mut self, aceptar: bool, caller: AccountId, momento: Timestamp) -> (r:
        Result<(), ErrorSistema>)
        ensures
            (final(self)@, r) == validar_candidato(old(self)@, aceptar, caller, momento),
    {
        let mut e = self.tomar_estado();
        let r = e.validar_candidato_impl(aceptar, caller, momento);
        self.estado = e;
        r
    }

    /// The administrator decides on the oldest application as voter: it
    /// leaves the queue, and joins the voters when accepted before the
    /// election starts.
    pub fn validar_votante_impl(&mut self, aceptar: bool, caller: AccountId, momento: Timestamp) -> (r:
        Result<(), ErrorSistema>)
        ensures
            (final(self)@, r) == validar_votante(old(self)@, aceptar, caller, momento),
    {
        let mut e = self.tomar_estado();
        let r = e.validar_votante_impl(aceptar, caller, momento);
        self.estado = e;
        r
    }

    /// The approved voter `caller` votes, once, in the open election `id`
    /// for the candidate numbered `opcion` (1 for the first candidate).
    pub fn votar_impl(
        &mut self,
        id_de_votacion: i32,
        opcion: i32,
        caller: AccountId,
        momento: Timestamp,
    ) -> (r: Result<(), ErrorSistema>)
        ensures
            (final(self)@, r) == votar(old(self)@, id_de_votacion, opcion, caller, momento),
    {
        let mut e = self.tomar_estado();
        let r = e.votar_impl(id_de_votacion, opcion, caller, momento);
        self.estado = e;
        r
    }

    /// A copy of the first election with identifier `id_de_votacion`; all
    /// of its candidates are approved users.
    pub fn get_votacion(&self, id_de_votacion: i32) -> (r: Option<Votacion>)
        ensures
            match r {
                Some(v) => {
                    &&& existe_votacion(self@.votaciones, id_de_votacion)
                    &&& v@ == self@.votaciones[indice_votacion(self@.votaciones, id_de_votacion)]
                    &&& nombres_disponibles(v@, self@.usuarios_reg)
                },
                None => !existe_votacion(self@.votaciones, id_de_votacion),
            },
    {
        proof {
            use_type_invariant(self);
        }
        self.estado.get_votacion(id_de_votacion)
    }

    /// A copy of the approved users.
    pub fn get_usuarios(&self) -> (r: Vec<Usuario>)
        ensures
            r@ == self@.usuarios_reg,
    {
        self.estado.get_usuarios()
    }

    /// The administrator's name.
    pub fn nombre_administrador(&self) -> (r: &String)
        ensures
            r@ == self@.nombre_administrador,
    {
        self.estado.nombre_administrador()
    }

    /// The administrator's account.
    pub fn admin(&self) -> (r: AccountId)
        ensures
            r == self@.admin,
    {
        self.estado.admin()
    }

    /// Users waiting for approval, oldest first.
    pub fn espera_usuarios(&self) -> (r: &Vec<Usuario>)
        ensures
            r@ == self@.espera_usuarios,
    {
        self.estado.espera_usuarios()
    }

    /// Approved users.
    pub fn usuarios_reg(&self) -> (r: &Vec<Usuario>)
        ensures
            r@ == self@.usuarios_reg,
    {
        self.estado.usuarios_reg()
    }

    /// Pending applications as candidate, oldest first.
    pub fn espera_candidatos(&self) -> (r: &Vec<(AccountId, i32)>)
        ensures
            r@ == self@.espera_candidatos,
    {
        self.estado.espera_candidatos()
    }

    /// Pending applications as voter, oldest first.
    pub fn espera_votantes(&self) -> (r: &Vec<(AccountId, i32)>)
        ensures
            r@ == self@.espera_votantes,
    {
        self.estado.espera_votantes()
    }

    /// The elections, in order of creation.
    pub fn votaciones(&self) -> (r: &Vec<Votacion>)
        ensures
            r@.map_values(|v: Votacion| v@) == self@.votaciones,
    {
        self.estado.votaciones()
    }
}

} // verus!
