//! What every reachable state of the system satisfies, and the proofs that
//! each request keeps it.

use vstd::prelude::*;
use crate::cuenta::{AccountId, Timestamp};
use crate::fecha::{Fecha, modulo_u32, timestamp_de};
use crate::usuario::{Rol, Usuario};
use crate::votacion::{
    VotacionV,
    claves_unicas,
    tiene_clave,
    indice_clave,
    suma_votos,
    votacion_nueva,
    con_candidato,
    con_votante,
    con_votador,
    con_voto,
};
use crate::resultados::{tiene_usuario, nombres_disponibles};
use crate::sistema::{
    SistemaV,
    existe_votacion,
    indice_votacion,
    es_primera_votacion,
    lemma_primera_votacion,
    lemma_mismos_ids_votacion,
    registrar,
    usuario_pendiente,
    validar_usuario,
    crear_votacion,
    postularse,
    validar_candidato,
    validar_votante,
    votar,
};

verus! {

/// Elections have pairwise different identifiers.
pub open spec fn ids_distintos(vs: Seq<VotacionV>) -> bool {
    forall|i: int, j: int|
        0 <= i < vs.len() && 0 <= j < vs.len() && i != j ==> (#[trigger] vs[i]).id != (
        #[trigger] vs[j]).id
}

/// Users have pairwise different accounts and documents.
pub open spec fn usuarios_distintos(us: Seq<Usuario>) -> bool {
    forall|i: int, j: int|
        0 <= i < us.len() && 0 <= j < us.len() && i != j ==> (#[trigger] us[i]).acc_id != (
        #[trigger] us[j]).acc_id && us[i].dni != us[j].dni
}

/// A user the system can hold: of age and not the administrator.
pub open spec fn usuario_admisible(u: Usuario, admin: AccountId) -> bool {
    u.acc_id != admin && u.edad >= 18
}

/// The consistency of an election whose users are `reg`:
/// - one vote entry per candidate, and only for candidates;
/// - nobody is twice a candidate, twice a voter or has voted twice;
/// - only voters have voted, and no candidate is a voter;
/// - the votes cast add up to the number of voters who voted: exactly while
///   fewer than 2^32 have voted, and modulo 2^32 always;
/// - candidates and voters are approved users.
pub open spec fn votacion_valida(v: VotacionV, reg: Seq<Usuario>) -> bool {
    &&& claves_unicas(v.votos)
    &&& forall|j: int| 0 <= j < v.votos.len() ==> v.candidatos.contains(#[trigger] v.votos[j].0)
    &&& forall|k: int|
        0 <= k < v.candidatos.len() ==> tiene_clave(v.votos, #[trigger] v.candidatos[k])
    &&& v.candidatos.no_duplicates()
    &&& v.votantes.no_duplicates()
    &&& v.votaron.no_duplicates()
    &&& forall|a: AccountId| v.votaron.contains(a) ==> v.votantes.contains(a)
    &&& forall|a: AccountId| v.candidatos.contains(a) ==> !v.votantes.contains(a)
    &&& suma_votos(v.votos) % modulo_u32() == (v.votaron.len() as int) % modulo_u32()
    &&& v.votaron.len() < modulo_u32() ==> suma_votos(v.votos) == v.votaron.len()
    &&& forall|a: AccountId| v.candidatos.contains(a) ==> tiene_usuario(reg, a)
    &&& forall|a: AccountId| v.votantes.contains(a) ==> tiene_usuario(reg, a)
}

/// A pending application of account `x.0` to election `x.1`: the account is
/// an approved user, the election exists, and the account is neither a
/// candidate nor a voter of it yet.
pub open spec fn solicitud_valida(s: SistemaV, x: (AccountId, i32)) -> bool {
    &&& tiene_usuario(s.usuarios_reg, x.0)
    &&& existe_votacion(s.votaciones, x.1)
    &&& !s.votaciones[indice_votacion(s.votaciones, x.1)].candidatos.contains(x.0)
    &&& !s.votaciones[indice_votacion(s.votaciones, x.1)].votantes.contains(x.0)
}

/// The consistency of a state of the system.
pub open spec fn sistema_valido(s: SistemaV) -> bool {
    &&& usuarios_distintos(s.usuarios_reg + s.espera_usuarios)
    &&& forall|i: int|
        0 <= i < s.usuarios_reg.len() ==> usuario_admisible(#[trigger] s.usuarios_reg[i], s.admin)
            && s.usuarios_reg[i].verificado
    &&& forall|i: int|
        0 <= i < s.espera_usuarios.len() ==> usuario_admisible(
            #[trigger] s.espera_usuarios[i],
            s.admin,
        ) && !s.espera_usuarios[i].verificado
    &&& ids_distintos(s.votaciones)
    &&& forall|i: int|
        0 <= i < s.votaciones.len() ==> votacion_valida(#[trigger] s.votaciones[i], s.usuarios_reg)
    &&& s.espera_candidatos.no_duplicates()
    &&& s.espera_votantes.no_duplicates()
    &&& forall|x: (AccountId, i32)| s.espera_candidatos.contains(x) ==> !s.espera_votantes.contains(x)
    &&& forall|k: int|
        0 <= k < s.espera_candidatos.len() ==> solicitud_valida(s, #[trigger] s.espera_candidatos[k])
    &&& forall|k: int|
        0 <= k < s.espera_votantes.len() ==> solicitud_valida(s, #[trigger] s.espera_votantes[k])
}

/// The first election with a given identifier is unique.
proof fn lemma_primera_unica(vs: Seq<VotacionV>, id: i32, i: int, j: int)
    requires
        es_primera_votacion(vs, id, i),
        es_primera_votacion(vs, id, j),
    ensures
        i == j,
{
    if i < j {
        assert(vs[i].id != id);
    } else if j < i {
        assert(vs[j].id != id);
    }
}

/// Where the first election with identifier `id` is at `i`, lookups of `id`
/// find it there.
proof fn lemma_indice_es(vs: Seq<VotacionV>, id: i32, i: int)
    requires
        es_primera_votacion(vs, id, i),
    ensures
        existe_votacion(vs, id),
        indice_votacion(vs, id) == i,
{
    assert(vs[i].id == id);
    lemma_primera_votacion(vs, id);
    lemma_primera_unica(vs, id, i, indice_votacion(vs, id));
}

/// Adding an election at the end keeps where existing identifiers are found.
proof fn lemma_indice_tras_agregar(vs: Seq<VotacionV>, n: VotacionV, id: i32)
    requires
        existe_votacion(vs, id),
    ensures
        existe_votacion(vs.push(n), id),
        indice_votacion(vs.push(n), id) == indice_votacion(vs, id),
{
    lemma_primera_votacion(vs, id);
    let i = indice_votacion(vs, id);
    let ws = vs.push(n);
    assert forall|m: int| 0 <= m < i implies (#[trigger] ws[m]).id != id by {
        assert(vs[m].id != id);
    }
    lemma_indice_es(ws, id, i);
}

/// Adding a new candidate, who is an approved user and takes no part in the
/// election yet, keeps the election consistent.
proof fn lemma_con_candidato_valida(v: VotacionV, reg: Seq<Usuario>, acc: AccountId)
    requires
        votacion_valida(v, reg),
        !v.candidatos.contains(acc),
        !v.votantes.contains(acc),
        tiene_usuario(reg, acc),
    ensures
        votacion_valida(con_candidato(v, acc), reg),
{
    let w = con_candidato(v, acc);
    assert(!tiene_clave(v.votos, acc)) by {
        if tiene_clave(v.votos, acc) {
            let j = choose|j: int| 0 <= j < v.votos.len() && #[trigger] v.votos[j].0 == acc;
            assert(v.candidatos.contains(v.votos[j].0));
        }
    }
    assert(w.votos == v.votos.push((acc, 0u32)));
    assert(w.votos.drop_last() =~= v.votos);
    assert forall|j: int| 0 <= j < w.votos.len() implies w.candidatos.contains(
        #[trigger] w.votos[j].0,
    ) by {
        if j < v.votos.len() {
            assert(v.candidatos.contains(v.votos[j].0));
            let m = choose|m: int| 0 <= m < v.candidatos.len() && v.candidatos[m] == v.votos[j].0;
            assert(w.candidatos[m] == v.votos[j].0);
        } else {
            assert(w.candidatos[v.candidatos.len() as int] == acc);
        }
    }
    assert forall|k: int| 0 <= k < w.candidatos.len() implies tiene_clave(
        w.votos,
        #[trigger] w.candidatos[k],
    ) by {
        if k < v.candidatos.len() {
            assert(tiene_clave(v.votos, v.candidatos[k]));
            let m = choose|m: int| 0 <= m < v.votos.len() && #[trigger] v.votos[m].0 == v.candidatos[k];
            assert(w.votos[m].0 == w.candidatos[k]);
        } else {
            assert(w.votos[v.votos.len() as int].0 == acc);
        }
    }
    assert forall|a: AccountId| w.candidatos.contains(a) implies !w.votantes.contains(a)
        && tiene_usuario(reg, a) by {
        let m = choose|m: int| 0 <= m < w.candidatos.len() && w.candidatos[m] == a;
        if m < v.candidatos.len() {
            assert(v.candidatos[m] == a);
            assert(v.candidatos.contains(a));
        }
    }
}

/// Adding a new voter, who is an approved user and takes no part in the
/// election yet, keeps the election consistent.
proof fn lemma_con_votante_valida(v: VotacionV, reg: Seq<Usuario>, acc: AccountId)
    requires
        votacion_valida(v, reg),
        !v.candidatos.contains(acc),
        !v.votantes.contains(acc),
        tiene_usuario(reg, acc),
    ensures
        votacion_valida(con_votante(v, acc), reg),
{
    let w = con_votante(v, acc);
    assert forall|a: AccountId| w.votantes.contains(a) implies a == acc || v.votantes.contains(
        a,
    ) by {
        let m = choose|m: int| 0 <= m < w.votantes.len() && w.votantes[m] == a;
        if m < v.votantes.len() {
            assert(v.votantes[m] == a);
        }
    }
    assert forall|a: AccountId| v.votantes.contains(a) implies w.votantes.contains(a) by {
        let m = choose|m: int| 0 <= m < v.votantes.len() && v.votantes[m] == a;
        assert(w.votantes[m] == a);
    }
}

/// Where elections keep their identifiers, approved users stay the same, and
/// only the election at `i` (with identifier `vid`) changes by gaining `acc`
/// at most, any other pending application stays consistent.
proof fn lemma_solicitud_tras_decidir(
    s: SistemaV,
    t: SistemaV,
    i: int,
    acc: AccountId,
    vid: i32,
    x: (AccountId, i32),
)
    requires
        solicitud_valida(s, x),
        x != (acc, vid),
        t.usuarios_reg == s.usuarios_reg,
        t.votaciones.len() == s.votaciones.len(),
        0 <= i < s.votaciones.len(),
        s.votaciones[i].id == vid,
        forall|k: int| 0 <= k < s.votaciones.len() ==> (#[trigger] t.votaciones[k]).id == s.votaciones[k].id,
        forall|k: int| 0 <= k < s.votaciones.len() && k != i ==> #[trigger] t.votaciones[k] == s.votaciones[k],
        forall|a: AccountId|
            t.votaciones[i].candidatos.contains(a) ==> a == acc || s.votaciones[i].candidatos.contains(a),
        forall|a: AccountId|
            t.votaciones[i].votantes.contains(a) ==> a == acc || s.votaciones[i].votantes.contains(a),
    ensures
        solicitud_valida(t, x),
{
    lemma_mismos_ids_votacion(s.votaciones, t.votaciones, x.1);
    lemma_primera_votacion(s.votaciones, x.1);
}

/// Replacing one entry of the vote table changes the sum by the difference.
pub proof fn lemma_suma_reemplazo(s: Seq<(AccountId, u32)>, i: int, x: (AccountId, u32))
    requires
        0 <= i < s.len(),
    ensures
        suma_votos(s.update(i, x)) == suma_votos(s) - s[i].1 + x.1,
    decreases s.len(),
{
    let t = s.update(i, x);
    if i == s.len() - 1 {
        assert(t.drop_last() =~= s.drop_last());
    } else {
        assert(t.drop_last() =~= s.drop_last().update(i, x));
        lemma_suma_reemplazo(s.drop_last(), i, x);
    }
}

/// Every vote count is at most the sum of all counts, which is never negative.
pub proof fn lemma_entrada_acotada(s: Seq<(AccountId, u32)>, i: int)
    requires
        0 <= i < s.len(),
    ensures
        0 <= s[i].1 <= suma_votos(s),
    decreases s.len(),
{
    if i < s.len() - 1 {
        lemma_entrada_acotada(s.drop_last(), i);
        assert(s.drop_last()[i] == s[i]);
    } else {
        lemma_suma_no_negativa(s.drop_last());
    }
}

/// The sum of the vote counts is never negative.
proof fn lemma_suma_no_negativa(s: Seq<(AccountId, u32)>)
    ensures
        suma_votos(s) >= 0,
    decreases s.len(),
{
    if s.len() > 0 {
        lemma_suma_no_negativa(s.drop_last());
    }
}

/// A vote by a voter who had not voted, for an existing candidate, keeps the
/// election consistent: one more vote cast and one more voter who voted.
pub proof fn lemma_voto_valido(v: VotacionV, reg: Seq<Usuario>, pos: int, caller: AccountId)
    requires
        votacion_valida(v, reg),
        0 <= pos < v.candidatos.len(),
        v.votantes.contains(caller),
        !v.votaron.contains(caller),
    ensures
        votacion_valida(con_votador(con_voto(v, pos), caller), reg),
{
    let c = v.candidatos[pos];
    assert(tiene_clave(v.votos, c));
    let i = indice_clave(v.votos, c);
    let n = v.votos[i].1;
    let nuevo = vstd::wrapping::u32_specs::wrapping_add(n, 1u32);
    let w = con_votador(con_voto(v, pos), caller);
    assert(w.votos == v.votos.update(i, (c, nuevo)));
    lemma_suma_reemplazo(v.votos, i, (c, nuevo));
    let m = modulo_u32();
    let a = suma_votos(v.votos);
    let b = v.votaron.len() as int;
    // the sum grows by one, or drops by 2^32 - 1 when the count wraps
    assert(suma_votos(w.votos) == a + 1 || suma_votos(w.votos) == a + 1 - m);
    vstd::arithmetic::div_mod::lemma_add_mod_noop(a, 1, m);
    vstd::arithmetic::div_mod::lemma_add_mod_noop(b, 1, m);
    vstd::arithmetic::div_mod::lemma_mod_sub_multiples_vanish(a + 1, m);
    assert(suma_votos(w.votos) % m == (b + 1) % m);
    if b + 1 < m {
        // below 2^32 voters no count can wrap: the sum grows by exactly one
        lemma_entrada_acotada(v.votos, i);
        assert(nuevo == n + 1);
        assert(suma_votos(w.votos) == b + 1);
    }
    assert forall|j: int| 0 <= j < w.votos.len() implies w.candidatos.contains(
        #[trigger] w.votos[j].0,
    ) by {
        assert(v.candidatos.contains(v.votos[j].0));
    }
    assert forall|k: int| 0 <= k < w.candidatos.len() implies tiene_clave(
        w.votos,
        #[trigger] w.candidatos[k],
    ) by {
        assert(tiene_clave(v.votos, v.candidatos[k]));
        let q = choose|q: int| 0 <= q < v.votos.len() && #[trigger] v.votos[q].0 == v.candidatos[k];
        assert(w.votos[q].0 == w.candidatos[k]);
    }
    assert forall|a: AccountId| w.votaron.contains(a) implies w.votantes.contains(a) by {
        let q = choose|q: int| 0 <= q < w.votaron.len() && w.votaron[q] == a;
        if q < v.votaron.len() {
            assert(v.votaron[q] == a);
        }
    }
}

/// A system with no users and no elections is consistent.
pub proof fn lemma_sistema_vacio_valido(s: SistemaV)
    requires
        s.espera_usuarios.len() == 0,
        s.usuarios_reg.len() == 0,
        s.espera_candidatos.len() == 0,
        s.espera_votantes.len() == 0,
        s.votaciones.len() == 0,
    ensures
        sistema_valido(s),
{
}

/// A registration request keeps the system consistent.
pub proof fn lemma_registrar_valido(
    s: SistemaV,
    nom: String,
    apellido: String,
    edad: i32,
    dni: i128,
    caller: AccountId,
)
    requires
        sistema_valido(s),
    ensures
        sistema_valido(registrar(s, nom, apellido, edad, dni, caller).0),
{
    let t = registrar(s, nom, apellido, edad, dni, caller).0;
    if t != s {
        let p = usuario_pendiente(nom, apellido, edad, dni, caller);
        let viejos = s.usuarios_reg + s.espera_usuarios;
        assert(t.usuarios_reg + t.espera_usuarios =~= viejos.push(p));
        assert forall|i: int| 0 <= i < viejos.len() implies (#[trigger] viejos[i]).acc_id != caller
            && viejos[i].dni != dni by {
            if i < s.usuarios_reg.len() {
                assert(viejos[i] == s.usuarios_reg[i]);
            } else {
                assert(viejos[i] == s.espera_usuarios[i - s.usuarios_reg.len()]);
            }
        }
        assert forall|k: int|
            0 <= k < t.espera_candidatos.len() implies solicitud_valida(
            t,
            #[trigger] t.espera_candidatos[k],
        ) by {
            assert(solicitud_valida(s, s.espera_candidatos[k]));
        }
        assert forall|k: int|
            0 <= k < t.espera_votantes.len() implies solicitud_valida(
            t,
            #[trigger] t.espera_votantes[k],
        ) by {
            assert(solicitud_valida(s, s.espera_votantes[k]));
        }
    }
}

/// Deciding on a pending user keeps the system consistent.
pub proof fn lemma_validar_usuario_valido(s: SistemaV, aceptar: bool, caller: AccountId)
    requires
        sistema_valido(s),
    ensures
        sistema_valido(validar_usuario(s, aceptar, caller).0),
{
    let t = validar_usuario(s, aceptar, caller).0;
    if caller == s.admin && s.espera_usuarios.len() > 0 {
        let viejos = s.usuarios_reg + s.espera_usuarios;
        let nuevos = t.usuarios_reg + t.espera_usuarios;
        let n = s.usuarios_reg.len() as int;
        if aceptar {
            // every user keeps its position, the first pending one now approved
            assert(nuevos.len() == viejos.len());
            assert forall|i: int| 0 <= i < nuevos.len() implies (#[trigger] nuevos[i]).acc_id
                == viejos[i].acc_id && nuevos[i].dni == viejos[i].dni by {
                if i < n {
                    assert(nuevos[i] == s.usuarios_reg[i]);
                    assert(viejos[i] == s.usuarios_reg[i]);
                } else if i == n {
                    assert(viejos[i] == s.espera_usuarios[0]);
                } else {
                    assert(nuevos[i] == s.espera_usuarios[i - n]);
                    assert(viejos[i] == s.espera_usuarios[i - n]);
                }
            }
            assert forall|i: int, j: int|
                0 <= i < nuevos.len() && 0 <= j < nuevos.len() && i != j implies (
                #[trigger] nuevos[i]).acc_id != (#[trigger] nuevos[j]).acc_id && nuevos[i].dni
                != nuevos[j].dni by {
                assert(viejos[i].acc_id != viejos[j].acc_id && viejos[i].dni != viejos[j].dni);
            }
            assert forall|i: int| 0 <= i < t.usuarios_reg.len() implies usuario_admisible(
                #[trigger] t.usuarios_reg[i],
                t.admin,
            ) && t.usuarios_reg[i].verificado by {
                if i == n {
                    assert(usuario_admisible(s.espera_usuarios[0], s.admin));
                }
            }
        } else {
            // the users after the first pending one move one place forward
            assert(nuevos.len() == viejos.len() - 1);
            assert forall|i: int| 0 <= i < nuevos.len() implies #[trigger] nuevos[i] == viejos[if i
                < n {
                i
            } else {
                i + 1
            }] by {
                if i < n {
                    assert(nuevos[i] == s.usuarios_reg[i]);
                } else {
                    assert(nuevos[i] == s.espera_usuarios[i - n + 1]);
                }
            }
            assert forall|i: int, j: int|
                0 <= i < nuevos.len() && 0 <= j < nuevos.len() && i != j implies (
                #[trigger] nuevos[i]).acc_id != (#[trigger] nuevos[j]).acc_id && nuevos[i].dni
                != nuevos[j].dni by {
                let a = if i < n {
                    i
                } else {
                    i + 1
                };
                let b = if j < n {
                    j
                } else {
                    j + 1
                };
                assert(nuevos[i] == viejos[a]);
                assert(nuevos[j] == viejos[b]);
            }
        }
        assert forall|i: int| 0 <= i < t.espera_usuarios.len() implies usuario_admisible(
            #[trigger] t.espera_usuarios[i],
            t.admin,
        ) && !t.espera_usuarios[i].verificado by {
            assert(t.espera_usuarios[i] == s.espera_usuarios[i + 1]);
        }
        assert forall|a: AccountId| tiene_usuario(s.usuarios_reg, a) implies tiene_usuario(
            t.usuarios_reg,
            a,
        ) by {
            let j = choose|j: int|
                0 <= j < s.usuarios_reg.len() && (#[trigger] s.usuarios_reg[j]).acc_id == a;
            assert(t.usuarios_reg[j] == s.usuarios_reg[j]);
        }
        assert forall|i: int| 0 <= i < t.votaciones.len() implies votacion_valida(
            #[trigger] t.votaciones[i],
            t.usuarios_reg,
        ) by {
            assert(votacion_valida(s.votaciones[i], s.usuarios_reg));
        }
        assert forall|k: int|
            0 <= k < t.espera_candidatos.len() implies solicitud_valida(
            t,
            #[trigger] t.espera_candidatos[k],
        ) by {
            assert(solicitud_valida(s, s.espera_candidatos[k]));
        }
        assert forall|k: int|
            0 <= k < t.espera_votantes.len() implies solicitud_valida(
            t,
            #[trigger] t.espera_votantes[k],
        ) by {
            assert(solicitud_valida(s, s.espera_votantes[k]));
        }
    }
}

/// A request to create an election keeps the system consistent.
pub proof fn lemma_crear_votacion_valido(
    s: SistemaV,
    id: i32,
    puesto: Seq<char>,
    inicio: Fecha,
    fin: Fecha,
    caller: AccountId,
)
    requires
        sistema_valido(s),
    ensures
        sistema_valido(crear_votacion(s, id, puesto, inicio, fin, caller).0),
{
    let t = crear_votacion(s, id, puesto, inicio, fin, caller).0;
    if t != s {
        let n = votacion_nueva(id, puesto, timestamp_de(inicio), timestamp_de(fin));
        assert(t.votaciones == s.votaciones.push(n));
        assert(suma_votos(n.votos) == 0);
        assert(votacion_valida(n, t.usuarios_reg));
        assert forall|i: int| 0 <= i < t.votaciones.len() implies votacion_valida(
            #[trigger] t.votaciones[i],
            t.usuarios_reg,
        ) by {
            if i < s.votaciones.len() {
                assert(votacion_valida(s.votaciones[i], s.usuarios_reg));
            }
        }
        assert forall|i: int, j: int|
            0 <= i < t.votaciones.len() && 0 <= j < t.votaciones.len() && i != j implies (
            #[trigger] t.votaciones[i]).id != (#[trigger] t.votaciones[j]).id by {
            if i < s.votaciones.len() && j < s.votaciones.len() {
                assert(s.votaciones[i].id != s.votaciones[j].id);
            } else if i < s.votaciones.len() {
                assert(s.votaciones[i].id != id);
            } else {
                assert(s.votaciones[j].id != id);
            }
        }
        assert forall|k: int|
            0 <= k < t.espera_candidatos.len() implies solicitud_valida(
            t,
            #[trigger] t.espera_candidatos[k],
        ) by {
            assert(solicitud_valida(s, s.espera_candidatos[k]));
            lemma_indice_tras_agregar(s.votaciones, n, s.espera_candidatos[k].1);
            lemma_primera_votacion(s.votaciones, s.espera_candidatos[k].1);
        }
        assert forall|k: int|
            0 <= k < t.espera_votantes.len() implies solicitud_valida(
            t,
            #[trigger] t.espera_votantes[k],
        ) by {
            assert(solicitud_valida(s, s.espera_votantes[k]));
            lemma_indice_tras_agregar(s.votaciones, n, s.espera_votantes[k].1);
            lemma_primera_votacion(s.votaciones, s.espera_votantes[k].1);
        }
    }
}

/// An application to an election keeps the system consistent.
pub proof fn lemma_postularse_valido(
    s: SistemaV,
    rol: Rol,
    id: i32,
    caller: AccountId,
    momento: Timestamp,
)
    requires
        sistema_valido(s),
    ensures
        sistema_valido(postularse(s, rol, id, caller, momento).0),
{
}

/// Deciding on an application as candidate keeps the system consistent.
pub proof fn lemma_validar_candidato_valido(
    s: SistemaV,
    aceptar: bool,
    caller: AccountId,
    momento: Timestamp,
)
    requires
        sistema_valido(s),
    ensures
        sistema_valido(validar_candidato(s, aceptar, caller, momento).0),
{
    let t = validar_candidato(s, aceptar, caller, momento).0;
    if caller == s.admin && s.espera_candidatos.len() > 0 {
        let (acc, vid) = s.espera_candidatos[0];
        assert(solicitud_valida(s, s.espera_candidatos[0]));
        lemma_primera_votacion(s.votaciones, vid);
        let i = indice_votacion(s.votaciones, vid);
        let v = s.votaciones[i];
        assert(votacion_valida(v, s.usuarios_reg));
        if momento < v.fecha_inicio && aceptar {
            lemma_con_candidato_valida(v, s.usuarios_reg, acc);
        }
        assert forall|k: int| 0 <= k < t.votaciones.len() implies votacion_valida(
            #[trigger] t.votaciones[k],
            t.usuarios_reg,
        ) by {
            assert(votacion_valida(s.votaciones[k], s.usuarios_reg));
        }
        assert forall|k: int, j: int|
            0 <= k < t.votaciones.len() && 0 <= j < t.votaciones.len() && k != j implies (
            #[trigger] t.votaciones[k]).id != (#[trigger] t.votaciones[j]).id by {
            assert(s.votaciones[k].id != s.votaciones[j].id);
        }
        assert forall|a: AccountId|
            t.votaciones[i].candidatos.contains(a) implies a == acc
            || s.votaciones[i].candidatos.contains(a) by {
            if momento < v.fecha_inicio && aceptar {
                let m = choose|m: int|
                    0 <= m < t.votaciones[i].candidatos.len() && t.votaciones[i].candidatos[m] == a;
                if m < v.candidatos.len() {
                    assert(v.candidatos[m] == a);
                }
            }
        }
        assert forall|k: int|
            0 <= k < t.espera_candidatos.len() implies solicitud_valida(
            t,
            #[trigger] t.espera_candidatos[k],
        ) by {
            assert(t.espera_candidatos[k] == s.espera_candidatos[k + 1]);
            assert(solicitud_valida(s, s.espera_candidatos[k + 1]));
            lemma_solicitud_tras_decidir(s, t, i, acc, vid, s.espera_candidatos[k + 1]);
        }
        assert forall|k: int|
            0 <= k < t.espera_votantes.len() implies solicitud_valida(
            t,
            #[trigger] t.espera_votantes[k],
        ) by {
            assert(s.espera_candidatos.contains((acc, vid)));
            assert(solicitud_valida(s, s.espera_votantes[k]));
            lemma_solicitud_tras_decidir(s, t, i, acc, vid, s.espera_votantes[k]);
        }
        assert forall|x: (AccountId, i32)| t.espera_candidatos.contains(x) implies !t.espera_votantes.contains(x) by {
            let m = choose|m: int| 0 <= m < t.espera_candidatos.len() && t.espera_candidatos[m] == x;
            assert(s.espera_candidatos[m + 1] == x);
        }
    }
}

/// Deciding on an application as voter keeps the system consistent.
pub proof fn lemma_validar_votante_valido(
    s: SistemaV,
    aceptar: bool,
    caller: AccountId,
    momento: Timestamp,
)
    requires
        sistema_valido(s),
    ensures
        sistema_valido(validar_votante(s, aceptar, caller, momento).0),
{
    let t = validar_votante(s, aceptar, caller, momento).0;
    if caller == s.admin && s.espera_votantes.len() > 0 {
        let (acc, vid) = s.espera_votantes[0];
        assert(solicitud_valida(s, s.espera_votantes[0]));
        lemma_primera_votacion(s.votaciones, vid);
        let i = indice_votacion(s.votaciones, vid);
        let v = s.votaciones[i];
        assert(votacion_valida(v, s.usuarios_reg));
        if momento < v.fecha_inicio && aceptar {
            lemma_con_votante_valida(v, s.usuarios_reg, acc);
        }
        assert forall|k: int| 0 <= k < t.votaciones.len() implies votacion_valida(
            #[trigger] t.votaciones[k],
            t.usuarios_reg,
        ) by {
            assert(votacion_valida(s.votaciones[k], s.usuarios_reg));
        }
        assert forall|k: int, j: int|
            0 <= k < t.votaciones.len() && 0 <= j < t.votaciones.len() && k != j implies (
            #[trigger] t.votaciones[k]).id != (#[trigger] t.votaciones[j]).id by {
            assert(s.votaciones[k].id != s.votaciones[j].id);
        }
        assert forall|a: AccountId|
            t.votaciones[i].votantes.contains(a) implies a == acc
            || s.votaciones[i].votantes.contains(a) by {
            if momento < v.fecha_inicio && aceptar {
                let m = choose|m: int|
                    0 <= m < t.votaciones[i].votantes.len() && t.votaciones[i].votantes[m] == a;
                if m < v.votantes.len() {
                    assert(v.votantes[m] == a);
                }
            }
        }
        assert forall|k: int|
            0 <= k < t.espera_votantes.len() implies solicitud_valida(
            t,
            #[trigger] t.espera_votantes[k],
        ) by {
            assert(t.espera_votantes[k] == s.espera_votantes[k + 1]);
            assert(solicitud_valida(s, s.espera_votantes[k + 1]));
            lemma_solicitud_tras_decidir(s, t, i, acc, vid, s.espera_votantes[k + 1]);
        }
        assert forall|k: int|
            0 <= k < t.espera_candidatos.len() implies solicitud_valida(
            t,
            #[trigger] t.espera_candidatos[k],
        ) by {
            assert(s.espera_votantes.contains((acc, vid)));
            assert(solicitud_valida(s, s.espera_candidatos[k]));
            lemma_solicitud_tras_decidir(s, t, i, acc, vid, s.espera_candidatos[k]);
        }
        assert forall|x: (AccountId, i32)| t.espera_votantes.contains(x) implies !t.espera_candidatos.contains(x) by {
            let m = choose|m: int| 0 <= m < t.espera_votantes.len() && t.espera_votantes[m] == x;
            assert(s.espera_votantes[m + 1] == x);
        }
    }
}

/// A vote keeps the system consistent.
pub proof fn lemma_votar_valido(
    s: SistemaV,
    id: i32,
    opcion: i32,
    caller: AccountId,
    momento: Timestamp,
)
    requires
        sistema_valido(s),
    ensures
        sistema_valido(votar(s, id, opcion, caller, momento).0),
{
    let t = votar(s, id, opcion, caller, momento).0;
    if t != s {
        lemma_primera_votacion(s.votaciones, id);
        let i = indice_votacion(s.votaciones, id);
        let v = s.votaciones[i];
        let pos = ((opcion - 1) as usize) as int;
        assert(votacion_valida(v, s.usuarios_reg));
        lemma_voto_valido(v, s.usuarios_reg, pos, caller);
        assert forall|k: int| 0 <= k < s.votaciones.len() implies (#[trigger] t.votaciones[k]).id
            == s.votaciones[k].id && t.votaciones[k].candidatos == s.votaciones[k].candidatos
            && t.votaciones[k].votantes == s.votaciones[k].votantes by {
        }
        assert forall|k: int| 0 <= k < t.votaciones.len() implies votacion_valida(
            #[trigger] t.votaciones[k],
            t.usuarios_reg,
        ) by {
            assert(votacion_valida(s.votaciones[k], s.usuarios_reg));
        }
        assert forall|k: int, j: int|
            0 <= k < t.votaciones.len() && 0 <= j < t.votaciones.len() && k != j implies (
            #[trigger] t.votaciones[k]).id != (#[trigger] t.votaciones[j]).id by {
            assert(s.votaciones[k].id != s.votaciones[j].id);
        }
        assert forall|k: int|
            0 <= k < t.espera_candidatos.len() implies solicitud_valida(
            t,
            #[trigger] t.espera_candidatos[k],
        ) by {
            let x = s.espera_candidatos[k];
            assert(solicitud_valida(s, x));
            lemma_mismos_ids_votacion(s.votaciones, t.votaciones, x.1);
            lemma_primera_votacion(s.votaciones, x.1);
            let j = indice_votacion(s.votaciones, x.1);
            assert(t.votaciones[j].id == s.votaciones[j].id);
        }
        assert forall|k: int|
            0 <= k < t.espera_votantes.len() implies solicitud_valida(
            t,
            #[trigger] t.espera_votantes[k],
        ) by {
            let x = s.espera_votantes[k];
            assert(solicitud_valida(s, x));
            lemma_mismos_ids_votacion(s.votaciones, t.votaciones, x.1);
            lemma_primera_votacion(s.votaciones, x.1);
            let j = indice_votacion(s.votaciones, x.1);
            assert(t.votaciones[j].id == s.votaciones[j].id);
        }
    }
}

/// In a consistent system, every candidate in the vote table of an election
/// is an approved user, so the election's report can name them all.
pub proof fn lemma_nombres_disponibles(s: SistemaV, k: int)
    requires
        sistema_valido(s),
        0 <= k < s.votaciones.len(),
    ensures
        nombres_disponibles(s.votaciones[k], s.usuarios_reg),
{
    let v = s.votaciones[k];
    assert(votacion_valida(v, s.usuarios_reg));
    assert forall|i: int| 0 <= i < v.votos.len() implies tiene_usuario(
        s.usuarios_reg,
        #[trigger] v.votos[i].0,
    ) by {
        assert(v.candidatos.contains(v.votos[i].0));
    }
}

} // verus!
