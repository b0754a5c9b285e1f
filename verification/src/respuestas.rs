//! How each request of the voting system is answered, stated over the
//! request's inputs: which requests are refused and with which error, and
//! what an accepted request changes.

use vstd::prelude::*;
use crate::cuenta::{AccountId, Timestamp};
use crate::fecha::{modulo_u32, Fecha, fecha_valida, fecha_mayor, timestamp_de};
use crate::usuario::{Rol, Usuario};
use crate::votacion::{VotacionV, tiene_clave, indice_clave, suma_votos};
use crate::sistema::{
    SistemaV,
    ErrorSistema,
    registrar,
    validar_usuario,
    crear_votacion,
    postularse,
    validar_candidato,
    validar_votante,
    votar,
    existe_votacion,
    indice_votacion,
    lemma_primera_votacion,
};
use crate::invariante::{sistema_valido, ids_distintos, solicitud_valida, votacion_valida};
use crate::resultados::{InformeVotacion, ErrorReporte, Posicion, entrada_de};
use crate::reporte::resultados_correctos;

verus! {

/// Where identifiers are distinct, the election at `k` is the one every
/// lookup of its identifier finds.
proof fn lemma_encontrada_en(vs: Seq<VotacionV>, k: int)
    requires
        ids_distintos(vs),
        0 <= k < vs.len(),
    ensures
        existe_votacion(vs, vs[k].id),
        indice_votacion(vs, vs[k].id) == k,
{
    let id = vs[k].id;
    assert(existe_votacion(vs, id));
    lemma_primera_votacion(vs, id);
    let i = indice_votacion(vs, id);
    if i != k {
        assert(vs[i].id != vs[k].id);
    }
}

/// A vote is refused, and changes nothing, when the administrator casts it,
/// when the account is not an approved user, or when no election has the
/// identifier. A vote that changes the system comes from an approved user
/// other than the administrator, in an existing election.
pub proof fn lemma_votar_quien(
    s: SistemaV,
    id: i32,
    opcion: i32,
    caller: AccountId,
    momento: Timestamp,
)
    ensures
        caller == s.admin ==> votar(s, id, opcion, caller, momento) == (
        s,
        Err::<(), ErrorSistema>(ErrorSistema::AdminNoPuedeVotar),
        ),
        caller != s.admin && (forall|j: int|
            0 <= j < s.usuarios_reg.len() ==> (#[trigger] s.usuarios_reg[j]).acc_id != caller)
            ==> votar(s, id, opcion, caller, momento) == (
        s,
        Err::<(), ErrorSistema>(ErrorSistema::UsuarioNoRegistrado),
        ),
        caller != s.admin && (exists|j: int|
            0 <= j < s.usuarios_reg.len() && (#[trigger] s.usuarios_reg[j]).acc_id == caller)
            && (forall|k: int| 0 <= k < s.votaciones.len() ==> (#[trigger] s.votaciones[k]).id != id)
            ==> votar(s, id, opcion, caller, momento) == (
        s,
        Err::<(), ErrorSistema>(ErrorSistema::VotacionInexistente(id)),
        ),
        votar(s, id, opcion, caller, momento).0 != s ==> {
            &&& caller != s.admin
            &&& exists|j: int|
                0 <= j < s.usuarios_reg.len() && (#[trigger] s.usuarios_reg[j]).acc_id == caller
            &&& exists|k: int| 0 <= k < s.votaciones.len() && (#[trigger] s.votaciones[k]).id == id
        },
{
}

/// Within the election `k` with identifier `id`, an approved user other than
/// the administrator is answered in this order: before the start the vote is
/// refused as not started; from the end on, as finished; then the account
/// must be one of the election's voters, must not have voted yet, and the
/// election must have candidates; an option below 1 or beyond the number of
/// candidates is refused, except `i32::MIN`, which has no predecessor and
/// changes nothing. Every refusal leaves the system as it was. A vote that
/// changes the system was cast inside the election's time window by one of
/// its voters who had not voted.
pub proof fn lemma_votar_en_votacion(
    s: SistemaV,
    id: i32,
    opcion: i32,
    caller: AccountId,
    momento: Timestamp,
    k: int,
)
    requires
        ids_distintos(s.votaciones),
        0 <= k < s.votaciones.len(),
        s.votaciones[k].id == id,
        caller != s.admin,
        exists|j: int| 0 <= j < s.usuarios_reg.len() && (#[trigger] s.usuarios_reg[j]).acc_id == caller,
    ensures
        ({
            let v = s.votaciones[k];
            let p = votar(s, id, opcion, caller, momento);
            let abierta = v.fecha_inicio <= momento && momento < v.fecha_fin;
            let habilitado = abierta && v.votantes.contains(caller) && !v.votaron.contains(caller);
            &&& momento < v.fecha_inicio ==> p == (s, Err::<(), ErrorSistema>(ErrorSistema::VotacionNoInicio))
            &&& v.fecha_inicio <= momento && momento >= v.fecha_fin ==> p == (
                s,
                Err::<(), ErrorSistema>(ErrorSistema::VotacionFinalizo),
            )
            &&& abierta && !v.votantes.contains(caller) ==> p == (
                s,
                Err::<(), ErrorSistema>(ErrorSistema::NoEsVotante),
            )
            &&& abierta && v.votantes.contains(caller) && v.votaron.contains(caller) ==> p == (
                s,
                Err::<(), ErrorSistema>(ErrorSistema::YaVoto),
            )
            &&& habilitado && v.candidatos.len() == 0 ==> p == (
                s,
                Err::<(), ErrorSistema>(ErrorSistema::SinCandidatos),
            )
            &&& habilitado && v.candidatos.len() > 0 && opcion == i32::MIN ==> p == (
                s,
                Ok::<(), ErrorSistema>(()),
            )
            &&& habilitado && v.candidatos.len() > 0 && opcion > v.candidatos.len() ==> p == (
                s,
                Err::<(), ErrorSistema>(ErrorSistema::OpcionInvalida),
            )
            &&& habilitado && v.candidatos.len() > 0 && i32::MIN < opcion && opcion < 1 ==> p == (
                s,
                Err::<(), ErrorSistema>(ErrorSistema::OpcionInvalida),
            )
            &&& p.0 != s ==> habilitado && p.1 is Ok
        }),
{
    lemma_encontrada_en(s.votaciones, k);
    let v = s.votaciones[k];
    assert(crate::resultados::tiene_usuario(s.usuarios_reg, caller));
    if opcion > v.candidatos.len() {
        assert(((opcion - 1) as usize) as int == opcion - 1);
    }
}

/// A vote of one of the voters of election `k` who has not voted yet, cast
/// inside the election's time window for an option between 1 and the number
/// of candidates, is accepted: the account is recorded as having voted, the
/// candidate numbered `opcion` gets one more vote (wrapping), nobody else's
/// count changes, and nothing else in the system changes.
pub proof fn lemma_votar_acepta(
    s: SistemaV,
    id: i32,
    opcion: i32,
    caller: AccountId,
    momento: Timestamp,
    k: int,
)
    requires
        sistema_valido(s),
        0 <= k < s.votaciones.len(),
        s.votaciones[k].id == id,
        caller != s.admin,
        exists|j: int| 0 <= j < s.usuarios_reg.len() && (#[trigger] s.usuarios_reg[j]).acc_id == caller,
        s.votaciones[k].fecha_inicio <= momento < s.votaciones[k].fecha_fin,
        s.votaciones[k].votantes.contains(caller),
        !s.votaciones[k].votaron.contains(caller),
        1 <= opcion <= s.votaciones[k].candidatos.len(),
    ensures
        ({
            let v = s.votaciones[k];
            let p = votar(s, id, opcion, caller, momento);
            let t = p.0;
            let w = t.votaciones[k];
            let c = v.candidatos[opcion - 1];
            &&& p.1 is Ok
            &&& t.votaciones.len() == s.votaciones.len()
            &&& w.votaron == v.votaron.push(caller)
            &&& w.id == v.id && w.puesto == v.puesto
            &&& w.fecha_inicio == v.fecha_inicio && w.fecha_fin == v.fecha_fin
            &&& w.candidatos == v.candidatos
            &&& w.votantes == v.votantes
            &&& w.votos.len() == v.votos.len()
            &&& exists|j: int| 0 <= j < v.votos.len() && (#[trigger] v.votos[j]).0 == c
            &&& forall|j: int|
                0 <= j < v.votos.len() ==> {
                    &&& (#[trigger] w.votos[j]).0 == v.votos[j].0
                    &&& v.votos[j].0 != c ==> w.votos[j].1 == v.votos[j].1
                    &&& v.votos[j].0 == c ==> w.votos[j].1
                        == vstd::wrapping::u32_specs::wrapping_add(v.votos[j].1, 1u32)
                }
            &&& forall|m: int|
                0 <= m < s.votaciones.len() && m != k ==> #[trigger] t.votaciones[m]
                    == s.votaciones[m]
            &&& t.usuarios_reg == s.usuarios_reg
            &&& t.espera_usuarios == s.espera_usuarios
            &&& t.espera_candidatos == s.espera_candidatos
            &&& t.espera_votantes == s.espera_votantes
            &&& t.admin == s.admin
            &&& t.nombre_administrador == s.nombre_administrador
        }),
{
    lemma_encontrada_en(s.votaciones, k);
    let v = s.votaciones[k];
    assert(crate::resultados::tiene_usuario(s.usuarios_reg, caller));
    assert(((opcion - 1) as usize) as int == opcion - 1);
    let c = v.candidatos[opcion - 1];
    assert(crate::invariante::votacion_valida(v, s.usuarios_reg));
    assert(tiene_clave(v.votos, c));
    let t = votar(s, id, opcion, caller, momento).0;
    assert(t.votaciones[k].votaron.len() == v.votaron.len() + 1);
    assert(t != s);
    crate::leyes::lemma_voto_exitoso(s, id, opcion, caller, momento);
}

/// The administrator decides on the oldest pending user: only the
/// administrator may, and with nobody waiting nothing changes. Otherwise the
/// first user waiting leaves the queue, the rest keep their order, and it
/// joins the approved users, marked as verified, exactly when accepted.
pub proof fn lemma_validar_usuario_primero(s: SistemaV, aceptar: bool, caller: AccountId)
    ensures
        ({
            let p = validar_usuario(s, aceptar, caller);
            let t = p.0;
            &&& caller != s.admin ==> p == (
                s,
                Err::<(), ErrorSistema>(ErrorSistema::SoloAdminValidaUsuarios),
            )
            &&& caller == s.admin && s.espera_usuarios.len() == 0 ==> p == (
                s,
                Ok::<(), ErrorSistema>(()),
            )
            &&& caller == s.admin && s.espera_usuarios.len() > 0 ==> {
                let u = s.espera_usuarios[0];
                &&& p.1 is Ok
                &&& t.espera_usuarios == s.espera_usuarios.subrange(1, s.espera_usuarios.len() as int)
                &&& aceptar ==> t.usuarios_reg == s.usuarios_reg.push(
                    (Usuario {
                        nombre: u.nombre,
                        apellido: u.apellido,
                        edad: u.edad,
                        dni: u.dni,
                        verificado: true,
                        rol: u.rol,
                        acc_id: u.acc_id,
                    }),
                )
                &&& !aceptar ==> t.usuarios_reg == s.usuarios_reg
                &&& t.espera_candidatos == s.espera_candidatos
                &&& t.espera_votantes == s.espera_votantes
                &&& t.votaciones == s.votaciones
                &&& t.admin == s.admin
                &&& t.nombre_administrador == s.nombre_administrador
            }
        }),
{
}

/// The administrator decides on the oldest pending application as voter:
/// only the administrator may, and with no application nothing changes.
/// Otherwise the application at the head of the queue, of account `acc` to
/// election `vid`, leaves it and the rest keep their order. Its election gets
/// `acc` as its last voter exactly when the application is accepted before
/// the election starts; from the start on it is discarded. No other election
/// and nothing else changes.
pub proof fn lemma_validar_votante_primero(
    s: SistemaV,
    aceptar: bool,
    caller: AccountId,
    momento: Timestamp,
)
    requires
        sistema_valido(s),
    ensures
        ({
            let p = validar_votante(s, aceptar, caller, momento);
            let t = p.0;
            &&& caller != s.admin ==> p == (
                s,
                Err::<(), ErrorSistema>(ErrorSistema::SoloAdminValidaVotantes),
            )
            &&& caller == s.admin && s.espera_votantes.len() == 0 ==> p == (
                s,
                Ok::<(), ErrorSistema>(()),
            )
            &&& caller == s.admin && s.espera_votantes.len() > 0 ==> {
                let acc = s.espera_votantes[0].0;
                let vid = s.espera_votantes[0].1;
                &&& p.1 is Ok
                &&& t.espera_votantes == s.espera_votantes.subrange(1, s.espera_votantes.len() as int)
                &&& t.espera_candidatos == s.espera_candidatos
                &&& t.usuarios_reg == s.usuarios_reg
                &&& t.espera_usuarios == s.espera_usuarios
                &&& t.admin == s.admin
                &&& t.nombre_administrador == s.nombre_administrador
                &&& t.votaciones.len() == s.votaciones.len()
                &&& exists|m: int| 0 <= m < s.votaciones.len() && (#[trigger] s.votaciones[m]).id == vid
                &&& forall|m: int|
                    0 <= m < s.votaciones.len() ==> {
                        let v = #[trigger] s.votaciones[m];
                        &&& v.id == vid && aceptar && momento < v.fecha_inicio ==> t.votaciones[m] == (
                        VotacionV { votantes: v.votantes.push(acc), ..v })
                        &&& !(v.id == vid && aceptar && momento < v.fecha_inicio) ==> t.votaciones[m]
                            == v
                    }
            }
        }),
{
    if caller == s.admin && s.espera_votantes.len() > 0 {
        let (acc, vid) = s.espera_votantes[0];
        assert(solicitud_valida(s, s.espera_votantes[0]));
        lemma_primera_votacion(s.votaciones, vid);
        let i = indice_votacion(s.votaciones, vid);
        lemma_encontrada_en(s.votaciones, i);
        assert forall|m: int| 0 <= m < s.votaciones.len() && m != i implies (
            #[trigger] s.votaciones[m]).id != vid by {
            assert(s.votaciones[m].id != s.votaciones[i].id);
        }
    }
}

/// The administrator decides on the oldest pending application as
/// candidate: only the administrator may, and with no application nothing
/// changes. Otherwise the application at the head of the queue, of account
/// `acc` to election `vid`, leaves it and the rest keep their order. Its
/// election gets `acc` as its last candidate, with a vote count of zero,
/// exactly when the application is accepted before the election starts; from
/// the start on it is discarded. No other election and nothing else changes.
pub proof fn lemma_validar_candidato_primero(
    s: SistemaV,
    aceptar: bool,
    caller: AccountId,
    momento: Timestamp,
)
    requires
        sistema_valido(s),
    ensures
        ({
            let p = validar_candidato(s, aceptar, caller, momento);
            let t = p.0;
            &&& caller != s.admin ==> p == (
                s,
                Err::<(), ErrorSistema>(ErrorSistema::SoloAdminValidaCandidatos),
            )
            &&& caller == s.admin && s.espera_candidatos.len() == 0 ==> p == (
                s,
                Ok::<(), ErrorSistema>(()),
            )
            &&& caller == s.admin && s.espera_candidatos.len() > 0 ==> {
                let acc = s.espera_candidatos[0].0;
                let vid = s.espera_candidatos[0].1;
                &&& p.1 is Ok
                &&& t.espera_candidatos == s.espera_candidatos.subrange(
                    1,
                    s.espera_candidatos.len() as int,
                )
                &&& t.espera_votantes == s.espera_votantes
                &&& t.usuarios_reg == s.usuarios_reg
                &&& t.espera_usuarios == s.espera_usuarios
                &&& t.admin == s.admin
                &&& t.nombre_administrador == s.nombre_administrador
                &&& t.votaciones.len() == s.votaciones.len()
                &&& exists|m: int| 0 <= m < s.votaciones.len() && (#[trigger] s.votaciones[m]).id == vid
                &&& forall|m: int|
                    0 <= m < s.votaciones.len() ==> {
                        let v = #[trigger] s.votaciones[m];
                        let w = t.votaciones[m];
                        &&& v.id == vid && aceptar && momento < v.fecha_inicio ==> {
                            &&& w.candidatos == v.candidatos.push(acc)
                            &&& w.votantes == v.votantes
                            &&& w.votaron == v.votaron
                            &&& w.id == v.id && w.puesto == v.puesto
                            &&& w.fecha_inicio == v.fecha_inicio && w.fecha_fin == v.fecha_fin
                            &&& w.votos == v.votos.push((acc, 0u32))
                        }
                        &&& !(v.id == vid && aceptar && momento < v.fecha_inicio) ==> w == v
                    }
            }
        }),
{
    if caller == s.admin && s.espera_candidatos.len() > 0 {
        let (acc, vid) = s.espera_candidatos[0];
        assert(solicitud_valida(s, s.espera_candidatos[0]));
        lemma_primera_votacion(s.votaciones, vid);
        let i = indice_votacion(s.votaciones, vid);
        lemma_encontrada_en(s.votaciones, i);
        assert forall|m: int| 0 <= m < s.votaciones.len() && m != i implies (
            #[trigger] s.votaciones[m]).id != vid by {
            assert(s.votaciones[m].id != s.votaciones[i].id);
        }
        let v = s.votaciones[i];
        assert(crate::invariante::votacion_valida(v, s.usuarios_reg));
        if tiene_clave(v.votos, acc) {
            let j = indice_clave(v.votos, acc);
            assert(v.candidatos.contains(v.votos[j].0));
        }
    }
}

/// Creating an election is refused exactly when a date is not a real date
/// or the end is not later than the start, and then nothing changes. With
/// valid dates, a request of anyone but the administrator, or for an
/// identifier that some election already has, is accepted and changes
/// nothing: an existing election is never replaced. Otherwise the elections
/// keep their order and a new one, with the given identifier, position and
/// dates and no participants, is added after them; nothing else changes.
pub proof fn lemma_crear_votacion_respuesta(
    s: SistemaV,
    id: i32,
    puesto: Seq<char>,
    inicio: Fecha,
    fin: Fecha,
    caller: AccountId,
)
    ensures
        ({
            let p = crear_votacion(s, id, puesto, inicio, fin, caller);
            let t = p.0;
            let fechas = fecha_valida(inicio) && fecha_valida(fin) && fecha_mayor(fin, inicio);
            &&& p.1 is Err <==> !fechas
            &&& !fechas ==> p == (s, Err::<(), ErrorSistema>(ErrorSistema::FechaInvalida))
            &&& fechas && caller != s.admin ==> p == (s, Ok::<(), ErrorSistema>(()))
            &&& (exists|k: int| 0 <= k < s.votaciones.len() && (#[trigger] s.votaciones[k]).id == id)
                ==> t == s
            &&& fechas && caller == s.admin && (forall|k: int|
                0 <= k < s.votaciones.len() ==> (#[trigger] s.votaciones[k]).id != id) ==> {
                &&& t.votaciones.len() == s.votaciones.len() + 1
                &&& forall|k: int|
                    0 <= k < s.votaciones.len() ==> #[trigger] t.votaciones[k] == s.votaciones[k]
                &&& t.votaciones[s.votaciones.len() as int] == (VotacionV {
                    id,
                    puesto,
                    candidatos: Seq::empty(),
                    votantes: Seq::empty(),
                    votos: Seq::empty(),
                    votaron: Seq::empty(),
                    fecha_inicio: timestamp_de(inicio),
                    fecha_fin: timestamp_de(fin),
                })
                &&& t.usuarios_reg == s.usuarios_reg
                &&& t.espera_usuarios == s.espera_usuarios
                &&& t.espera_candidatos == s.espera_candidatos
                &&& t.espera_votantes == s.espera_votantes
                &&& t.admin == s.admin
                &&& t.nombre_administrador == s.nombre_administrador
            }
        }),
{
}

/// An application is refused, and changes nothing, when the account is not
/// an approved user, or, for an approved user, when no election has the
/// identifier.
pub proof fn lemma_postularse_quien(
    s: SistemaV,
    rol: Rol,
    id: i32,
    caller: AccountId,
    momento: Timestamp,
)
    ensures
        (forall|j: int|
            0 <= j < s.usuarios_reg.len() ==> (#[trigger] s.usuarios_reg[j]).acc_id != caller)
            ==> postularse(s, rol, id, caller, momento) == (
        s,
        Err::<(), ErrorSistema>(ErrorSistema::NoRegistradoOValidado),
        ),
        (exists|j: int|
            0 <= j < s.usuarios_reg.len() && (#[trigger] s.usuarios_reg[j]).acc_id == caller)
            && (forall|k: int| 0 <= k < s.votaciones.len() ==> (#[trigger] s.votaciones[k]).id != id)
            ==> postularse(s, rol, id, caller, momento) == (
        s,
        Err::<(), ErrorSistema>(ErrorSistema::VotacionInexistente(id)),
        ),
{
}

/// An approved user's application to election `k` is accepted exactly when
/// the election has not started, the account is neither a candidate nor a
/// voter of it, and the account has no pending application to this same
/// election in either queue; applications to other elections do not matter.
/// An accepted application is appended to the queue of its role and nothing
/// else changes; a refused one changes nothing, with the error of the first
/// condition that fails.
pub proof fn lemma_postularse_respuesta(
    s: SistemaV,
    rol: Rol,
    id: i32,
    caller: AccountId,
    momento: Timestamp,
    k: int,
)
    requires
        ids_distintos(s.votaciones),
        0 <= k < s.votaciones.len(),
        s.votaciones[k].id == id,
        exists|j: int| 0 <= j < s.usuarios_reg.len() && (#[trigger] s.usuarios_reg[j]).acc_id == caller,
    ensures
        ({
            let v = s.votaciones[k];
            let p = postularse(s, rol, id, caller, momento);
            let t = p.0;
            let participa = v.votantes.contains(caller) || v.candidatos.contains(caller);
            let pendiente = s.espera_candidatos.contains((caller, id))
                || s.espera_votantes.contains((caller, id));
            let admitida = momento < v.fecha_inicio && !participa && !pendiente;
            &&& p.1 is Ok <==> admitida
            &&& momento >= v.fecha_inicio ==> p == (
                s,
                Err::<(), ErrorSistema>(ErrorSistema::VotacionYaInicio),
            )
            &&& momento < v.fecha_inicio && participa ==> p == (
                s,
                Err::<(), ErrorSistema>(ErrorSistema::YaPostulado),
            )
            &&& momento < v.fecha_inicio && !participa && pendiente ==> p == (
                s,
                Err::<(), ErrorSistema>(ErrorSistema::EnColaDeEspera),
            )
            &&& admitida && rol == Rol::Candidato ==> {
                &&& t.espera_candidatos == s.espera_candidatos.push((caller, id))
                &&& t.espera_votantes == s.espera_votantes
            }
            &&& admitida && rol == Rol::Votante ==> {
                &&& t.espera_votantes == s.espera_votantes.push((caller, id))
                &&& t.espera_candidatos == s.espera_candidatos
            }
            &&& t.votaciones == s.votaciones
            &&& t.usuarios_reg == s.usuarios_reg
            &&& t.espera_usuarios == s.espera_usuarios
            &&& t.admin == s.admin
            &&& t.nombre_administrador == s.nombre_administrador
        }),
{
    lemma_encontrada_en(s.votaciones, k);
    assert(crate::resultados::tiene_usuario(s.usuarios_reg, caller));
}

/// Registration: the administrator's request is accepted and changes
/// nothing. Anyone else under 18 is refused; so is an account or document
/// that an approved user has, and then one that a waiting user has. Every
/// refusal changes nothing. Otherwise the request is accepted and a user
/// with the given data, not verified and with no role, joins the end of the
/// waiting queue; nothing else changes.
pub proof fn lemma_registrar_respuesta(
    s: SistemaV,
    nom: String,
    apellido: String,
    edad: i32,
    dni: i128,
    caller: AccountId,
)
    ensures
        ({
            let p = registrar(s, nom, apellido, edad, dni, caller);
            let t = p.0;
            let en_reg = exists|j: int|
                0 <= j < s.usuarios_reg.len() && ((#[trigger] s.usuarios_reg[j]).dni == dni
                    || s.usuarios_reg[j].acc_id == caller);
            let en_espera = exists|j: int|
                0 <= j < s.espera_usuarios.len() && ((#[trigger] s.espera_usuarios[j]).dni == dni
                    || s.espera_usuarios[j].acc_id == caller);
            &&& caller == s.admin ==> p == (s, Ok::<(), ErrorSistema>(()))
            &&& caller != s.admin && edad < 18 ==> p == (
                s,
                Err::<(), ErrorSistema>(ErrorSistema::EdadInsuficiente),
            )
            &&& caller != s.admin && edad >= 18 && en_reg ==> p == (
                s,
                Err::<(), ErrorSistema>(ErrorSistema::CuentaODniRegistrado),
            )
            &&& caller != s.admin && edad >= 18 && !en_reg && en_espera ==> p == (
                s,
                Err::<(), ErrorSistema>(ErrorSistema::EsperaValidacion),
            )
            &&& caller != s.admin && edad >= 18 && !en_reg && !en_espera ==> {
                &&& p.1 is Ok
                &&& t.espera_usuarios == s.espera_usuarios.push(
                    (Usuario {
                        nombre: nom,
                        apellido,
                        edad,
                        dni,
                        verificado: false,
                        rol: None,
                        acc_id: caller,
                    }),
                )
                &&& t.usuarios_reg == s.usuarios_reg
                &&& t.espera_candidatos == s.espera_candidatos
                &&& t.espera_votantes == s.espera_votantes
                &&& t.votaciones == s.votaciones
                &&& t.admin == s.admin
                &&& t.nombre_administrador == s.nombre_administrador
            }
        }),
{
}

/// The results of an election are asked for in vain where no election has
/// the identifier.
pub proof fn lemma_resultados_sin_votacion(
    s: SistemaV,
    id: i32,
    momento: Timestamp,
    r: Result<InformeVotacion, ErrorReporte>,
)
    requires
        resultados_correctos(r, s, id, momento),
        forall|k: int| 0 <= k < s.votaciones.len() ==> (#[trigger] s.votaciones[k]).id != id,
    ensures
        r == Err::<InformeVotacion, ErrorReporte>(ErrorReporte::VotacionInexistente(id)),
{
}

/// The results of election `k` of a consistent system: refused before the
/// election's end; from the end on, refused when it has no voters or no
/// candidates, and then when nobody voted. Otherwise (with fewer than 2^32
/// votes) the report counts the approved voters and the votes cast, and
/// ranks every entry of the vote table, each of a candidate, from most to
/// fewest votes, with places numbered from 1; every candidate has a place.
pub proof fn lemma_resultados_respuesta(
    s: SistemaV,
    id: i32,
    momento: Timestamp,
    r: Result<InformeVotacion, ErrorReporte>,
    k: int,
)
    requires
        sistema_valido(s),
        0 <= k < s.votaciones.len(),
        s.votaciones[k].id == id,
        resultados_correctos(r, s, id, momento),
    ensures
        ({
            let v = s.votaciones[k];
            let terminada = momento >= v.fecha_fin;
            let participantes = v.votantes.len() > 0 && v.candidatos.len() > 0;
            &&& !terminada ==> r == Err::<InformeVotacion, ErrorReporte>(
                ErrorReporte::NoTermino(id),
            )
            &&& terminada && !participantes ==> r == Err::<InformeVotacion, ErrorReporte>(
                ErrorReporte::SinUsuariosOCandidatos,
            )
            &&& terminada && participantes && v.votaron.len() == 0 ==> r == Err::<
                InformeVotacion,
                ErrorReporte,
            >(ErrorReporte::SinVotos)
            &&& terminada && participantes && 0 < v.votaron.len() < modulo_u32() ==> {
                &&& r is Ok
                &&& r.unwrap().total_votantes == v.votantes.len()
                &&& r.unwrap().votos_emitidos == v.votaron.len()
                &&& r.unwrap().posiciones@.len() == v.votos.len()
                &&& forall|i: int|
                    0 <= i < r.unwrap().posiciones@.len() ==> {
                        let p = #[trigger] r.unwrap().posiciones@[i];
                        &&& p.lugar == i + 1
                        &&& v.votos.contains((p.cuenta, p.votos))
                        &&& v.candidatos.contains(p.cuenta)
                    }
                &&& forall|i: int, j: int|
                    0 <= i < j < r.unwrap().posiciones@.len() ==> (#[trigger] r.unwrap().posiciones@[i]).votos
                        >= (#[trigger] r.unwrap().posiciones@[j]).votos
                &&& forall|c: AccountId|
                    v.candidatos.contains(c) ==> exists|i: int|
                        0 <= i < r.unwrap().posiciones@.len() && (#[trigger] r.unwrap().posiciones@[i]).cuenta
                            == c
            }
        }),
{
    lemma_encontrada_en(s.votaciones, k);
    let v = s.votaciones[k];
    assert(votacion_valida(v, s.usuarios_reg));
    if v.votaron.len() < modulo_u32() {
        assert(suma_votos(v.votos) == v.votaron.len());
        vstd::arithmetic::div_mod::lemma_small_mod(v.votaron.len(), modulo_u32() as nat);
    }
    if momento >= v.fecha_fin && v.votantes.len() > 0 && v.candidatos.len() > 0 && 0
        < v.votaron.len() < modulo_u32() {
        let inf = r.unwrap();
        let rs = inf.posiciones@.map_values(|p: Posicion| entrada_de(p));
        assert forall|i: int| 0 <= i < inf.posiciones@.len() implies {
            let p = #[trigger] inf.posiciones@[i];
            &&& v.votos.contains((p.cuenta, p.votos))
            &&& v.candidatos.contains(p.cuenta)
        } by {
            let p = inf.posiciones@[i];
            assert(rs[i] == (p.cuenta, p.votos));
            assert(rs.contains(rs[i]));
            assert(v.votos.contains((p.cuenta, p.votos)));
            let j = choose|j: int| 0 <= j < v.votos.len() && v.votos[j] == (p.cuenta, p.votos);
            assert(v.candidatos.contains(v.votos[j].0));
        }
        assert forall|i: int, j: int| 0 <= i < j < inf.posiciones@.len() implies (
        #[trigger] inf.posiciones@[i]).votos >= (#[trigger] inf.posiciones@[j]).votos by {
            assert(crate::resultados::precede(rs[i], rs[j]));
        }
        assert forall|c: AccountId| v.candidatos.contains(c) implies exists|i: int|
            0 <= i < inf.posiciones@.len() && (#[trigger] inf.posiciones@[i]).cuenta == c by {
            let m = choose|m: int| 0 <= m < v.candidatos.len() && v.candidatos[m] == c;
            assert(tiene_clave(v.votos, v.candidatos[m]));
            let j = choose|j: int| 0 <= j < v.votos.len() && #[trigger] v.votos[j].0 == c;
            assert(v.votos.contains(v.votos[j]));
            assert(rs.contains(v.votos[j]));
            let i = choose|i: int| 0 <= i < rs.len() && rs[i] == v.votos[j];
            assert(inf.posiciones@[i].cuenta == c);
        }
    }
}

/// Voting and results never overlap: while a vote in an election can still
/// change the system, its results are refused as not ended; once its results
/// are given, no vote in it changes anything, and an approved user's vote is
/// refused as finished where the election starts no later than it ends.
pub proof fn lemma_votos_antes_de_resultados(
    s: SistemaV,
    id: i32,
    opcion: i32,
    caller: AccountId,
    momento: Timestamp,
    r: Result<InformeVotacion, ErrorReporte>,
)
    requires
        resultados_correctos(r, s, id, momento),
    ensures
        votar(s, id, opcion, caller, momento).0 != s ==> r == Err::<InformeVotacion, ErrorReporte>(
            ErrorReporte::NoTermino(id),
        ),
        r is Ok ==> votar(s, id, opcion, caller, momento).0 == s,
        r is Ok && caller != s.admin && (exists|j: int|
            0 <= j < s.usuarios_reg.len() && (#[trigger] s.usuarios_reg[j]).acc_id == caller)
            && s.votaciones[indice_votacion(s.votaciones, id)].fecha_inicio <= s.votaciones[indice_votacion(
            s.votaciones,
            id,
        )].fecha_fin ==> votar(s, id, opcion, caller, momento) == (
            s,
            Err::<(), ErrorSistema>(ErrorSistema::VotacionFinalizo),
        ),
{
    if r is Ok {
        lemma_primera_votacion(s.votaciones, id);
    }
}

} // verus!
