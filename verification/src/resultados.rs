//! The results of an election: the ranking of its candidates and the report
//! that names them.

use vstd::prelude::*;
use crate::cuenta::{AccountId, cuenta_menor, lemma_orden_cuentas};
use crate::fecha::modulo_u32;
use crate::usuario::Usuario;
use crate::votacion::{Votacion, VotacionV, claves_unicas, suma_votos};

verus! {

/// Ranking order: more votes first; among equal votes, the smaller account
/// first.
pub open spec fn precede(x: (AccountId, u32), y: (AccountId, u32)) -> bool {
    x.1 > y.1 || (x.1 == y.1 && cuenta_menor(x.0, y.0))
}

/// `r` holds exactly the entries of the vote table `s`, in ranking order.
pub open spec fn es_ranking(r: Seq<(AccountId, u32)>, s: Seq<(AccountId, u32)>) -> bool {
    &&& r.len() == s.len()
    &&& forall|x: (AccountId, u32)| r.contains(x) <==> s.contains(x)
    &&& forall|i: int, j: int| 0 <= i < j < r.len() ==> precede(#[trigger] r[i], #[trigger] r[j])
}

/// The ranking order is a strict order, total on entries of different
/// accounts.
pub proof fn lemma_orden_ranking(x: (AccountId, u32), y: (AccountId, u32), z: (AccountId, u32))
    ensures
        !precede(x, x),
        precede(x, y) && precede(y, z) ==> precede(x, z),
        precede(x, y) ==> !precede(y, x),
        x.0 != y.0 ==> precede(x, y) || precede(y, x),
{
    lemma_orden_cuentas(x.0, y.0, z.0);
    lemma_orden_cuentas(y.0, x.0, z.0);
}

/// Whether `x` comes before `y` in the ranking.
fn precede_en_ranking(x: &(AccountId, u32), y: &(AccountId, u32)) -> (r: bool)
    ensures
        r == precede(*x, *y),
{
    x.1 > y.1 || (x.1 == y.1 && x.0.menor(&y.0))
}

/// `j` is the position of the first user of `us` with account `a`.
pub open spec fn es_primer_usuario(us: Seq<Usuario>, a: AccountId, j: int) -> bool {
    &&& 0 <= j < us.len()
    &&& us[j].acc_id == a
    &&& forall|k: int| 0 <= k < j ==> (#[trigger] us[k]).acc_id != a
}

/// Some user of `us` has account `a`.
pub open spec fn tiene_usuario(us: Seq<Usuario>, a: AccountId) -> bool {
    exists|j: int| 0 <= j < us.len() && (#[trigger] us[j]).acc_id == a
}

/// A place in the ranking of an election.
#[derive(Debug)]
pub struct Posicion {
    /// 1 for the first place.
    pub lugar: usize,
    pub cuenta: AccountId,
    pub votos: u32,
    pub nombre: String,
    pub apellido: String,
}

/// The report of an ended election.
#[derive(Debug)]
pub struct InformeVotacion {
    /// Number of approved voters.
    pub total_votantes: usize,
    /// Total of the votes cast (wrapping `u32` sum).
    pub votos_emitidos: u32,
    /// The candidates from most to fewest votes.
    pub posiciones: Vec<Posicion>,
}

/// Why an election has no report.
#[derive(Clone, Copy, Debug, PartialEq, Eq)]
pub enum ErrorReporte {
    /// No election has this identifier.
    VotacionInexistente(i32),
    /// The election with this identifier has not ended.
    NoTermino(i32),
    /// The election has no approved voters or no candidates.
    SinUsuariosOCandidatos,
    /// Nobody voted.
    SinVotos,
}

/// The election has approved voters and candidates.
pub open spec fn hay_participantes(v: VotacionV) -> bool {
    v.votantes.len() != 0 && v.candidatos.len() != 0
}

/// Ranking entry and place of a position.
pub open spec fn entrada_de(p: Posicion) -> (AccountId, u32) {
    (p.cuenta, p.votos)
}

/// `inf` is the report of the election `v`, with names taken from `us`.
pub open spec fn informe_de(inf: InformeVotacion, v: VotacionV, us: Seq<Usuario>) -> bool {
    &&& inf.total_votantes == v.votantes.len()
    &&& inf.votos_emitidos == suma_votos(v.votos) % modulo_u32()
    &&& es_ranking(inf.posiciones@.map_values(|p: Posicion| entrada_de(p)), v.votos)
    &&& forall|i: int|
        0 <= i < inf.posiciones@.len() ==> {
            let p = #[trigger] inf.posiciones@[i];
            &&& p.lugar == i + 1
            &&& exists|j: int|
                es_primer_usuario(us, p.cuenta, j) && p.nombre == us[j].nombre && p.apellido
                    == us[j].apellido
        }
}

/// What the report request answers for election `v` and users `us`.
pub open spec fn reporte_correcto(
    r: Result<InformeVotacion, ErrorReporte>,
    v: VotacionV,
    us: Seq<Usuario>,
) -> bool {
    if !hay_participantes(v) {
        r == Err::<InformeVotacion, ErrorReporte>(ErrorReporte::SinUsuariosOCandidatos)
    } else if suma_votos(v.votos) % modulo_u32() == 0 {
        r == Err::<InformeVotacion, ErrorReporte>(ErrorReporte::SinVotos)
    } else {
        r matches Ok(inf) && informe_de(inf, v, us)
    }
}

/// Every candidate of the vote table has a user in `us`, where the report
/// will name them.
pub open spec fn nombres_disponibles(v: VotacionV, us: Seq<Usuario>) -> bool {
    (hay_participantes(v) && suma_votos(v.votos) % modulo_u32() != 0) ==> forall|i: int|
        0 <= i < v.votos.len() ==> tiene_usuario(us, #[trigger] v.votos[i].0)
}

/// The position of the first user of `us` with account `a`.
fn buscar_usuario(us: &Vec<Usuario>, a: &AccountId) -> (r: usize)
    requires
        tiene_usuario(us@, *a),
    ensures
        es_primer_usuario(us@, *a, r as int),
{
    let mut i: usize = 0;
    while i < us.len()
        invariant
            i <= us@.len(),
            tiene_usuario(us@, *a),
            forall|k: int| 0 <= k < i ==> (#[trigger] us@[k]).acc_id != *a,
        decreases us@.len() - i,
    {
        if us[i].acc_id.igual(a) {
            return i;
        }
        i = i + 1;
    }
    proof {
        let j = choose|j: int| 0 <= j < us@.len() && (#[trigger] us@[j]).acc_id == *a;
        assert(us@[j].acc_id != *a);
    }
    0
}

impl Votacion {
    /// The vote table in ranking order: most votes first, ties by account.
    pub fn reporte3(&self) -> (r: Vec<(AccountId, u32)>)
        ensures
            es_ranking(r@, self@.votos),
    {
        let s = self.votos();
        let n = s.len();
        let mut r: Vec<(AccountId, u32)> = Vec::new();
        let mut i: usize = 0;
        while i < n
            invariant
                n == s@.len(),
                s@ == self@.votos,
                claves_unicas(s@),
                i <= n,
                r@.len() == i,
                forall|x: (AccountId, u32)| r@.contains(x) <==> s@.take(i as int).contains(x),
                forall|a: int, b: int|
                    0 <= a < b < r@.len() ==> precede(#[trigger] r@[a], #[trigger] r@[b]),
            decreases n - i,
        {
            let x = s[i];
            assert forall|j: int| 0 <= j < r@.len() implies (#[trigger] r@[j]).0 != x.0 by {
                assert(r@.contains(r@[j]));
                let m = choose|m: int| 0 <= m < i && s@.take(i as int)[m] == r@[j];
                assert(s@[m] == r@[j]);
            }
            let mut k: usize = 0;
            while k < r.len() && !precede_en_ranking(&x, &r[k])
                invariant
                    k <= r@.len(),
                    forall|j: int| 0 <= j < r@.len() ==> (#[trigger] r@[j]).0 != x.0,
                    forall|j: int| 0 <= j < k ==> precede(#[trigger] r@[j], x),
                decreases r@.len() - k,
            {
                proof {
                    lemma_orden_ranking(x, r@[k as int], x);
                }
                k = k + 1;
            }
            let ghost viejo = r@;
            let ghost t1 = s@.take(i as int);
            assert(forall|y: (AccountId, u32)| viejo.contains(y) <==> t1.contains(y));
            r.insert(k, x);
            proof {
                let t2 = s@.take(i + 1);
                assert(t2 =~= t1.push(x));
                assert forall|y: (AccountId, u32)| r@.contains(y) <==> t2.contains(y) by {
                    if r@.contains(y) {
                        let m = choose|m: int| 0 <= m < r@.len() && r@[m] == y;
                        if m < k {
                            assert(viejo[m] == y);
                            assert(viejo.contains(y));
                            let q = choose|q: int| 0 <= q < t1.len() && t1[q] == y;
                            assert(t2[q] == y);
                        } else if m > k {
                            assert(viejo[m - 1] == y);
                            assert(viejo.contains(y));
                            let q = choose|q: int| 0 <= q < t1.len() && t1[q] == y;
                            assert(t2[q] == y);
                        } else {
                            assert(t2[i as int] == y);
                        }
                    }
                    if t2.contains(y) {
                        let q = choose|q: int| 0 <= q < t2.len() && t2[q] == y;
                        if q < i {
                            assert(t1[q] == y);
                            assert(t1.contains(y));
                            assert(viejo.contains(y));
                            let m = choose|m: int| 0 <= m < viejo.len() && viejo[m] == y;
                            if m < k {
                                assert(r@[m] == y);
                            } else {
                                assert(r@[m + 1] == y);
                            }
                        } else {
                            assert(r@[k as int] == y);
                        }
                    }
                }
                assert forall|a: int, b: int| 0 <= a < b < r@.len() implies precede(
                    #[trigger] r@[a],
                    #[trigger] r@[b],
                ) by {
                    if b < k {
                        assert(precede(viejo[a], viejo[b]));
                    } else if a > k {
                        assert(precede(viejo[a - 1], viejo[b - 1]));
                    } else if b == k {
                        assert(precede(viejo[a], x));
                    } else if a == k {
                        // x precedes the old entry at k, which precedes the rest
                        assert(precede(x, viejo[k as int]));
                        if b - 1 > k {
                            assert(precede(viejo[k as int], viejo[b - 1]));
                            lemma_orden_ranking(x, viejo[k as int], viejo[b - 1]);
                        }
                    } else {
                        assert(precede(viejo[a], x));
                        assert(precede(x, viejo[k as int]));
                        lemma_orden_ranking(viejo[a], x, viejo[k as int]);
                        if b - 1 > k {
                            assert(precede(viejo[k as int], viejo[b - 1]));
                            lemma_orden_ranking(viejo[a], viejo[k as int], viejo[b - 1]);
                        }
                    }
                }
            }
            i = i + 1;
        }
        assert(s@.take(n as int) =~= s@);
        r
    }
    /// The report of the election: its number of voters, the votes cast and
    /// the ranking of the candidates with their names, taken from `users`.
    /// Refused when there are no voters or no candidates, or when nobody
    /// voted.
    pub fn get_reporte(&self, users: Vec<Usuario>) -> (r: Result<InformeVotacion, ErrorReporte>)
        requires
            nombres_disponibles(self@, users@),
        ensures
            reporte_correcto(r, self@, users@),
    {
        let total = self.reporte1();
        if total == 0 || self.candidatos().len() == 0 {
            return Err(ErrorReporte::SinUsuariosOCandidatos);
        }
        let emitidos = self.votos_emitidos();
        if emitidos == 0 {
            return Err(ErrorReporte::SinVotos);
        }
        let ordenado = self.reporte3();
        let mut posiciones: Vec<Posicion> = Vec::new();
        let mut i: usize = 0;
        while i < ordenado.len()
            invariant
                i <= ordenado@.len(),
                es_ranking(ordenado@, self@.votos),
                nombres_disponibles(self@, users@),
                hay_participantes(self@),
                suma_votos(self@.votos) % modulo_u32() != 0,
                posiciones@.len() == i,
                forall|q: int|
                    0 <= q < i ==> {
                        let p = #[trigger] posiciones@[q];
                        &&& entrada_de(p) == ordenado@[q]
                        &&& p.lugar == q + 1
                        &&& exists|j: int|
                            es_primer_usuario(users@, p.cuenta, j) && p.nombre == users@[j].nombre
                                && p.apellido == users@[j].apellido
                    },
            decreases ordenado@.len() - i,
        {
            let entrada = ordenado[i];
            proof {
                assert(ordenado@.contains(entrada));
                assert(self@.votos.contains(entrada));
                let m = choose|m: int| 0 <= m < self@.votos.len() && self@.votos[m] == entrada;
                assert(tiene_usuario(users@, self@.votos[m].0));
            }
            let j = buscar_usuario(&users, &entrada.0);
            let p = Posicion {
                lugar: i + 1,
                cuenta: entrada.0,
                votos: entrada.1,
                nombre: users[j].nombre.clone(),
                apellido: users[j].apellido.clone(),
            };
            posiciones.push(p);
            proof {
                let pq = posiciones@[i as int];
                assert(es_primer_usuario(users@, pq.cuenta, j as int) && pq.nombre == users@[j as int].nombre
                    && pq.apellido == users@[j as int].apellido);
            }
            i = i + 1;
        }
        proof {
            assert(posiciones@.map_values(|p: Posicion| entrada_de(p)) =~= ordenado@);
        }
        let inf = InformeVotacion { total_votantes: total, votos_emitidos: emitidos, posiciones };
        assert(es_ranking(inf.posiciones@.map_values(|p: Posicion| entrada_de(p)), self@.votos));
        assert(informe_de(inf, self@, users@));
        Ok(inf)
    }
}

} // verus!
