//! Properties of the voting system that span requests or hold in every
//! reachable state.

use vstd::prelude::*;
use crate::cuenta::{AccountId, Timestamp};
use crate::fecha::{Fecha, modulo_u32, dias_totales, timestamp_de, lemma_timestamp_creciente};
use crate::usuario::Rol;
use crate::votacion::{suma_votos, tiene_clave, indice_clave};
use crate::resultados::{es_ranking, precede, lemma_orden_ranking, tiene_usuario};
use crate::votacion::VotacionV;
use crate::sistema::{
    SistemaV,
    registrar,
    validar_usuario,
    crear_votacion,
    postularse,
    validar_candidato,
    validar_votante,
    votar,
    existe_votacion,
    indice_votacion,
    lemma_primera_votacion,
};
use crate::invariante::{sistema_valido, votacion_valida, usuario_admisible};

verus! {

/// In every consistent state, the votes cast in an election add up, modulo
/// 2^32, to the number of voters who voted; with fewer than 2^32 of them the
/// sum is exactly that number, and the report finds no votes exactly when
/// nobody voted.
pub proof fn lemma_votos_emitidos_cuentan_votantes(s: SistemaV, k: int)
    requires
        sistema_valido(s),
        0 <= k < s.votaciones.len(),
    ensures
        suma_votos(s.votaciones[k].votos) % modulo_u32() == (s.votaciones[k].votaron.len() as int)
            % modulo_u32(),
        s.votaciones[k].votaron.len() < modulo_u32() ==> suma_votos(s.votaciones[k].votos)
            == s.votaciones[k].votaron.len(),
        s.votaciones[k].votaron.len() < modulo_u32() ==> (suma_votos(s.votaciones[k].votos)
            % modulo_u32() == 0 <==> s.votaciones[k].votaron.len() == 0),
{
    let v = s.votaciones[k];
    assert(votacion_valida(v, s.usuarios_reg));
    if v.votaron.len() < modulo_u32() {
        vstd::arithmetic::div_mod::lemma_small_mod(v.votaron.len(), modulo_u32() as nat);
    }
}

/// In every consistent state, in each election: nobody voted twice, only
/// approved voters voted, no candidate is a voter, and candidates and voters
/// are approved users other than the administrator.
pub proof fn lemma_participacion(s: SistemaV, k: int, a: AccountId)
    requires
        sistema_valido(s),
        0 <= k < s.votaciones.len(),
    ensures
        s.votaciones[k].votaron.no_duplicates(),
        s.votaciones[k].votaron.contains(a) ==> s.votaciones[k].votantes.contains(a),
        s.votaciones[k].candidatos.contains(a) ==> !s.votaciones[k].votantes.contains(a)
            && !s.votaciones[k].votaron.contains(a),
        s.votaciones[k].candidatos.contains(a) || s.votaciones[k].votantes.contains(a)
            ==> tiene_usuario(s.usuarios_reg, a) && a != s.admin,
{
    let v = s.votaciones[k];
    assert(votacion_valida(v, s.usuarios_reg));
    if v.candidatos.contains(a) || v.votantes.contains(a) {
        assert(tiene_usuario(s.usuarios_reg, a));
        let j = choose|j: int|
            0 <= j < s.usuarios_reg.len() && (#[trigger] s.usuarios_reg[j]).acc_id == a;
        assert(usuario_admisible(s.usuarios_reg[j], s.admin));
    }
}

/// A refused request leaves the system as it was.
pub proof fn lemma_rechazos_conservan_estado(
    s: SistemaV,
    nom: String,
    apellido: String,
    edad: i32,
    dni: i128,
    caller: AccountId,
    aceptar: bool,
    id: i32,
    puesto: Seq<char>,
    inicio: Fecha,
    fin: Fecha,
    rol: Rol,
    opcion: i32,
    momento: Timestamp,
)
    ensures
        registrar(s, nom, apellido, edad, dni, caller).1 is Err ==> registrar(
            s,
            nom,
            apellido,
            edad,
            dni,
            caller,
        ).0 == s,
        validar_usuario(s, aceptar, caller).1 is Err ==> validar_usuario(s, aceptar, caller).0
            == s,
        crear_votacion(s, id, puesto, inicio, fin, caller).1 is Err ==> crear_votacion(
            s,
            id,
            puesto,
            inicio,
            fin,
            caller,
        ).0 == s,
        postularse(s, rol, id, caller, momento).1 is Err ==> postularse(
            s,
            rol,
            id,
            caller,
            momento,
        ).0 == s,
        validar_candidato(s, aceptar, caller, momento).1 is Err ==> validar_candidato(
            s,
            aceptar,
            caller,
            momento,
        ).0 == s,
        validar_votante(s, aceptar, caller, momento).1 is Err ==> validar_votante(
            s,
            aceptar,
            caller,
            momento,
        ).0 == s,
        votar(s, id, opcion, caller, momento).1 is Err ==> votar(s, id, opcion, caller, momento).0
            == s,
{
}

/// After a vote that changed the system, every further vote of the same
/// account in the same election is refused and changes nothing.
pub proof fn lemma_no_vota_dos_veces(
    s: SistemaV,
    id: i32,
    opcion: i32,
    caller: AccountId,
    momento: Timestamp,
    otra_opcion: i32,
    otro_momento: Timestamp,
)
    requires
        votar(s, id, opcion, caller, momento).1 is Ok,
        votar(s, id, opcion, caller, momento).0 != s,
    ensures
        ({
            let t = votar(s, id, opcion, caller, momento).0;
            &&& votar(t, id, otra_opcion, caller, otro_momento).1 is Err
            &&& votar(t, id, otra_opcion, caller, otro_momento).0 == t
        }),
{
    let t = votar(s, id, opcion, caller, momento).0;
    lemma_primera_votacion(s.votaciones, id);
    let i = indice_votacion(s.votaciones, id);
    assert forall|k: int| 0 <= k < s.votaciones.len() implies (#[trigger] t.votaciones[k]).id
        == s.votaciones[k].id by {
    }
    crate::sistema::lemma_mismos_ids_votacion(s.votaciones, t.votaciones, id);
    let w = t.votaciones[i];
    assert(w.votaron[w.votaron.len() - 1] == caller);
    assert(w.votaron.contains(caller));
}

/// A successful vote for option `opcion` records the voter and adds one vote
/// (wrapping) to the candidate numbered `opcion`, and to nobody else; the
/// votes cast grow by one modulo 2^32, and the other elections stay as they
/// were.
pub proof fn lemma_voto_exitoso(
    s: SistemaV,
    id: i32,
    opcion: i32,
    caller: AccountId,
    momento: Timestamp,
)
    requires
        sistema_valido(s),
        votar(s, id, opcion, caller, momento).1 is Ok,
        votar(s, id, opcion, caller, momento).0 != s,
    ensures
        ({
            let t = votar(s, id, opcion, caller, momento).0;
            let i = indice_votacion(s.votaciones, id);
            let v = s.votaciones[i];
            let w = t.votaciones[i];
            let pos = ((opcion - 1) as usize) as int;
            let c = v.candidatos[pos];
            &&& 0 <= pos < v.candidatos.len()
            &&& w.votaron == v.votaron.push(caller)
            &&& w.candidatos == v.candidatos
            &&& w.votantes == v.votantes
            &&& w.votos.len() == v.votos.len()
            &&& forall|j: int|
                0 <= j < v.votos.len() ==> {
                    &&& (#[trigger] w.votos[j]).0 == v.votos[j].0
                    &&& w.votos[j].0 != c ==> w.votos[j].1 == v.votos[j].1
                    &&& w.votos[j].0 == c ==> w.votos[j].1 == vstd::wrapping::u32_specs::wrapping_add(
                        v.votos[j].1,
                        1u32,
                    )
                }
            &&& suma_votos(w.votos) % modulo_u32() == (suma_votos(v.votos) + 1) % modulo_u32()
            &&& forall|k: int|
                0 <= k < s.votaciones.len() && k != i ==> #[trigger] t.votaciones[k]
                    == s.votaciones[k]
        }),
{
    let t = votar(s, id, opcion, caller, momento).0;
    lemma_primera_votacion(s.votaciones, id);
    let i = indice_votacion(s.votaciones, id);
    let v = s.votaciones[i];
    let pos = ((opcion - 1) as usize) as int;
    let c = v.candidatos[pos];
    assert(votacion_valida(v, s.usuarios_reg));
    assert(tiene_clave(v.votos, c));
    let q = indice_clave(v.votos, c);
    crate::invariante::lemma_voto_valido(v, s.usuarios_reg, pos, caller);
    let w = t.votaciones[i];
    assert(votacion_valida(w, s.usuarios_reg));
    vstd::arithmetic::div_mod::lemma_add_mod_noop(suma_votos(v.votos), 1, modulo_u32());
    vstd::arithmetic::div_mod::lemma_add_mod_noop(v.votaron.len() as int, 1, modulo_u32());
    assert forall|j: int| 0 <= j < v.votos.len() && j != q implies (#[trigger] v.votos[j]).0
        != c by {
        assert(v.votos[q].0 == c);
    }
}

/// The vote count of an election is exact: nobody voted twice, only its
/// voters voted, every candidate has a vote entry, and the votes add up to
/// the number of voters who voted.
pub open spec fn conteo_exacto(v: VotacionV) -> bool {
    &&& v.votaron.no_duplicates()
    &&& forall|a: AccountId| v.votaron.contains(a) ==> v.votantes.contains(a)
    &&& forall|k: int|
        0 <= k < v.candidatos.len() ==> tiene_clave(v.votos, #[trigger] v.candidatos[k])
    &&& suma_votos(v.votos) == v.votaron.len()
}

/// A vote keeps every election's count exact, as long as fewer than
/// 2^32 - 1 voters had voted in each (so that no count can wrap): every
/// approved voter is counted at most once.
pub proof fn lemma_voto_conserva_conteo(
    s: SistemaV,
    id: i32,
    opcion: i32,
    caller: AccountId,
    momento: Timestamp,
)
    requires
        forall|k: int|
            0 <= k < s.votaciones.len() ==> conteo_exacto(#[trigger] s.votaciones[k])
                && s.votaciones[k].votaron.len() + 1 < modulo_u32(),
    ensures
        forall|k: int|
            0 <= k < votar(s, id, opcion, caller, momento).0.votaciones.len() ==> conteo_exacto(
                #[trigger] votar(s, id, opcion, caller, momento).0.votaciones[k],
            ),
{
    let t = votar(s, id, opcion, caller, momento).0;
    if t != s {
        lemma_primera_votacion(s.votaciones, id);
        let i = indice_votacion(s.votaciones, id);
        let v = s.votaciones[i];
        let pos = ((opcion - 1) as usize) as int;
        let c = v.candidatos[pos];
        assert(conteo_exacto(v));
        assert(tiene_clave(v.votos, c));
        let q = indice_clave(v.votos, c);
        let n = v.votos[q].1;
        crate::invariante::lemma_entrada_acotada(v.votos, q);
        let nuevo = vstd::wrapping::u32_specs::wrapping_add(n, 1u32);
        assert(nuevo == n + 1);
        crate::invariante::lemma_suma_reemplazo(v.votos, q, (c, nuevo));
        let w = t.votaciones[i];
        assert(w.votos == v.votos.update(q, (c, nuevo)));
        assert forall|a: AccountId| w.votaron.contains(a) implies w.votantes.contains(a) by {
            let m = choose|m: int| 0 <= m < w.votaron.len() && w.votaron[m] == a;
            if m < v.votaron.len() {
                assert(v.votaron[m] == a);
            }
        }
        assert forall|k: int| 0 <= k < w.candidatos.len() implies tiene_clave(
            w.votos,
            #[trigger] w.candidatos[k],
        ) by {
            assert(tiene_clave(v.votos, v.candidatos[k]));
            let m = choose|m: int| 0 <= m < v.votos.len() && #[trigger] v.votos[m].0 == v.candidatos[k];
            assert(w.votos[m].0 == w.candidatos[k]);
        }
        assert(conteo_exacto(w));
        assert forall|k: int| 0 <= k < t.votaciones.len() implies conteo_exacto(
            #[trigger] t.votaciones[k],
        ) by {
            if k != i {
                assert(t.votaciones[k] == s.votaciones[k]);
            }
        }
    }
}

/// An election is only created with real dates whose end is later than the
/// start; when the end's day count does not wrap a `u32`, it ends after it
/// starts.
pub proof fn lemma_votacion_creada_en_orden(
    s: SistemaV,
    id: i32,
    puesto: Seq<char>,
    inicio: Fecha,
    fin: Fecha,
    caller: AccountId,
)
    requires
        crear_votacion(s, id, puesto, inicio, fin, caller).1 is Ok,
        dias_totales(fin) < modulo_u32(),
    ensures
        timestamp_de(inicio) < timestamp_de(fin),
        ({
            let t = crear_votacion(s, id, puesto, inicio, fin, caller).0;
            t.votaciones.len() == s.votaciones.len() + 1 ==> t.votaciones.last().fecha_inicio
                < t.votaciones.last().fecha_fin && t.votaciones.last().id == id
        }),
{
    lemma_timestamp_creciente(inicio, fin);
}

/// Two lists in ranking order with the same entries are the same list.
proof fn lemma_ordenadas_iguales(r1: Seq<(AccountId, u32)>, r2: Seq<(AccountId, u32)>)
    requires
        forall|x: (AccountId, u32)| r1.contains(x) <==> r2.contains(x),
        forall|i: int, j: int| 0 <= i < j < r1.len() ==> precede(#[trigger] r1[i], #[trigger] r1[j]),
        forall|i: int, j: int| 0 <= i < j < r2.len() ==> precede(#[trigger] r2[i], #[trigger] r2[j]),
    ensures
        r1 == r2,
    decreases r1.len(),
{
    if r1.len() == 0 {
        if r2.len() > 0 {
            assert(r2.contains(r2[0]));
        }
        assert(r1 =~= r2);
    } else {
        assert(r1.contains(r1[0]));
        assert(r2.len() > 0);
        let j = choose|j: int| 0 <= j < r2.len() && r2[j] == r1[0];
        assert(r2.contains(r2[0]));
        let m = choose|m: int| 0 <= m < r1.len() && r1[m] == r2[0];
        if j > 0 && m > 0 {
            assert(precede(r2[0], r1[0]));
            assert(precede(r1[0], r2[0]));
            lemma_orden_ranking(r1[0], r2[0], r1[0]);
        } else if j > 0 {
            lemma_orden_ranking(r1[0], r1[0], r1[0]);
            assert(precede(r2[0], r2[j]));
        } else if m > 0 {
            lemma_orden_ranking(r1[0], r1[0], r1[0]);
            assert(precede(r1[0], r1[m]));
        }
        assert(r1[0] == r2[0]);
        let t1 = r1.drop_first();
        let t2 = r2.drop_first();
        assert forall|x: (AccountId, u32)| t1.contains(x) implies t2.contains(x) by {
            let a = choose|a: int| 0 <= a < t1.len() && t1[a] == x;
            assert(r1.contains(x));
            let b = choose|b: int| 0 <= b < r2.len() && r2[b] == x;
            if b == 0 {
                assert(precede(r1[0], r1[a + 1]));
                lemma_orden_ranking(x, x, x);
            } else {
                assert(t2[b - 1] == x);
            }
        }
        assert forall|x: (AccountId, u32)| t2.contains(x) implies t1.contains(x) by {
            let a = choose|a: int| 0 <= a < t2.len() && t2[a] == x;
            assert(r2.contains(x));
            let b = choose|b: int| 0 <= b < r1.len() && r1[b] == x;
            if b == 0 {
                assert(precede(r2[0], r2[a + 1]));
                lemma_orden_ranking(x, x, x);
            } else {
                assert(t1[b - 1] == x);
            }
        }
        assert forall|i: int, j: int| 0 <= i < j < t1.len() implies precede(
            #[trigger] t1[i],
            #[trigger] t1[j],
        ) by {
            assert(precede(r1[i + 1], r1[j + 1]));
        }
        assert forall|i: int, j: int| 0 <= i < j < t2.len() implies precede(
            #[trigger] t2[i],
            #[trigger] t2[j],
        ) by {
            assert(precede(r2[i + 1], r2[j + 1]));
        }
        lemma_ordenadas_iguales(t1, t2);
        assert(r1.len() == r2.len());
        assert forall|i: int| 0 <= i < r1.len() implies r1[i] == r2[i] by {
            if i > 0 {
                assert(r1[i] == t1[i - 1]);
                assert(r2[i] == t2[i - 1]);
            }
        }
        assert(r1 =~= r2);
    }
}

/// The ranking of a vote table is unique: the ranking order fixes where
/// every candidate stands.
pub proof fn lemma_ranking_unico(
    r1: Seq<(AccountId, u32)>,
    r2: Seq<(AccountId, u32)>,
    s: Seq<(AccountId, u32)>,
)
    requires
        es_ranking(r1, s),
        es_ranking(r2, s),
    ensures
        r1 == r2,
{
    lemma_ordenadas_iguales(r1, r2);
}

} // verus!
