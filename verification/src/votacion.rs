//! Elections: who runs, who may vote, who voted and the votes of each
//! candidate.

use vstd::prelude::*;
use crate::cuenta::{AccountId, Timestamp};
use crate::fecha::{modulo_u32, lemma_suma_modular};

verus! {

/// The abstract state of an election.
#[verifier::ext_equal]
pub struct VotacionV {
    pub id: i32,
    pub puesto: Seq<char>,
    pub candidatos: Seq<AccountId>,
    pub votantes: Seq<AccountId>,
    /// Votes per candidate, one entry per candidate account.
    pub votos: Seq<(AccountId, u32)>,
    pub votaron: Seq<AccountId>,
    pub fecha_inicio: Timestamp,
    pub fecha_fin: Timestamp,
}

/// No account has two entries in the vote table.
pub open spec fn claves_unicas(s: Seq<(AccountId, u32)>) -> bool {
    forall|i: int, j: int|
        0 <= i < s.len() && 0 <= j < s.len() && i != j ==> #[trigger] s[i].0 != #[trigger] s[j].0
}

/// The vote table has an entry for account `a`.
pub open spec fn tiene_clave(s: Seq<(AccountId, u32)>, a: AccountId) -> bool {
    exists|i: int| 0 <= i < s.len() && #[trigger] s[i].0 == a
}

/// The position of the entry of account `a` in the vote table.
pub open spec fn indice_clave(s: Seq<(AccountId, u32)>, a: AccountId) -> int {
    choose|i: int| 0 <= i < s.len() && #[trigger] s[i].0 == a
}

/// The sum of all votes of the table, without wrapping.
pub open spec fn suma_votos(s: Seq<(AccountId, u32)>) -> int
    decreases s.len(),
{
    if s.len() == 0 {
        0
    } else {
        suma_votos(s.drop_last()) + s.last().1
    }
}

/// A new election with the given data and no participants.
pub open spec fn votacion_nueva(
    id: i32,
    puesto: Seq<char>,
    fecha_inicio: Timestamp,
    fecha_fin: Timestamp,
) -> VotacionV {
    VotacionV {
        id,
        puesto,
        candidatos: Seq::empty(),
        votantes: Seq::empty(),
        votos: Seq::empty(),
        votaron: Seq::empty(),
        fecha_inicio,
        fecha_fin,
    }
}

/// `a` joins the candidates, with its vote count set to zero.
pub open spec fn con_candidato(v: VotacionV, a: AccountId) -> VotacionV {
    VotacionV {
        candidatos: v.candidatos.push(a),
        votos: if tiene_clave(v.votos, a) {
            v.votos.update(indice_clave(v.votos, a), (a, 0u32))
        } else {
            v.votos.push((a, 0u32))
        },
        ..v
    }
}

/// `a` joins the voters.
pub open spec fn con_votante(v: VotacionV, a: AccountId) -> VotacionV {
    VotacionV { votantes: v.votantes.push(a), ..v }
}

/// `a` is recorded as having voted.
pub open spec fn con_votador(v: VotacionV, a: AccountId) -> VotacionV {
    VotacionV { votaron: v.votaron.push(a), ..v }
}

/// One more vote (wrapping) for the candidate at position `pos`, where that
/// candidate has an entry in the vote table.
pub open spec fn con_voto(v: VotacionV, pos: int) -> VotacionV {
    let c = v.candidatos[pos];
    if tiene_clave(v.votos, c) {
        let i = indice_clave(v.votos, c);
        VotacionV {
            votos: v.votos.update(
                i,
                (c, vstd::wrapping::u32_specs::wrapping_add(v.votos[i].1, 1u32)),
            ),
            ..v
        }
    } else {
        v
    }
}

/// An election.
#[derive(Debug)]
pub struct Votacion {
    id: i32,
    puesto: String,
    candidatos: Vec<AccountId>,
    votantes: Vec<AccountId>,
    votos: Vec<(AccountId, u32)>,
    votaron: Vec<AccountId>,
    fecha_inicio: Timestamp,
    fecha_fin: Timestamp,
}

impl Clone for Votacion {
    /// A copy of the election.
    fn clone(&self) -> (v: Self)
        ensures
            v@ == self@,
    {
        self.copia()
    }
}

impl View for Votacion {
    type V = VotacionV;

    closed spec fn view(&self) -> VotacionV {
        VotacionV {
            id: self.id,
            puesto: self.puesto@,
            candidatos: self.candidatos@,
            votantes: self.votantes@,
            votos: self.votos@,
            votaron: self.votaron@,
            fecha_inicio: self.fecha_inicio,
            fecha_fin: self.fecha_fin,
        }
    }
}

/// Whether `v` holds `a`.
pub fn contiene_cuenta(v: &Vec<AccountId>, a: &AccountId) -> (r: bool)
    ensures
        r == v@.contains(*a),
{
    let mut i: usize = 0;
    while i < v.len()
        invariant
            i <= v@.len(),
            forall|j: int| 0 <= j < i ==> v@[j] != *a,
        decreases v@.len() - i,
    {
        if v[i].igual(a) {
            return true;
        }
        i = i + 1;
    }
    false
}

/// A copy of a list of accounts.
fn copiar_cuentas(v: &Vec<AccountId>) -> (r: Vec<AccountId>)
    ensures
        r@ == v@,
{
    let mut r: Vec<AccountId> = Vec::new();
    let mut i: usize = 0;
    while i < v.len()
        invariant
            i <= v@.len(),
            r@ == v@.take(i as int),
        decreases v@.len() - i,
    {
        r.push(v[i]);
        assert(v@.take(i + 1) =~= v@.take(i as int).push(v@[i as int]));
        i = i + 1;
    }
    assert(v@.take(v@.len() as int) =~= v@);
    r
}

/// A copy of a vote table.
fn copiar_votos(v: &Vec<(AccountId, u32)>) -> (r: Vec<(AccountId, u32)>)
    ensures
        r@ == v@,
{
    let mut r: Vec<(AccountId, u32)> = Vec::new();
    let mut i: usize = 0;
    while i < v.len()
        invariant
            i <= v@.len(),
            r@ == v@.take(i as int),
        decreases v@.len() - i,
    {
        r.push(v[i]);
        assert(v@.take(i + 1) =~= v@.take(i as int).push(v@[i as int]));
        i = i + 1;
    }
    assert(v@.take(v@.len() as int) =~= v@);
    r
}

impl Votacion {
    /// Every election's vote table has one entry per account.
    #[verifier::type_invariant]
    spec fn claves_distintas(self) -> bool {
        claves_unicas(self.votos@)
    }

    /// A new election with no candidates, voters or votes.
    pub fn new(id: i32, puesto: String, fecha_inicio: Timestamp, fecha_fin: Timestamp) -> (v:
        Votacion)
        ensures
            v@ == votacion_nueva(id, puesto@, fecha_inicio, fecha_fin),
    {
        Votacion {
            id,
            puesto,
            candidatos: Vec::new(),
            votantes: Vec::new(),
            votos: Vec::new(),
            votaron: Vec::new(),
            fecha_inicio,
            fecha_fin,
        }
    }

    /// A copy of the election.
    pub fn copia(&self) -> (v: Votacion)
        ensures
            v@ == self@,
    {
        proof {
            use_type_invariant(self);
        }
        Votacion {
            id: self.id,
            puesto: self.puesto.clone(),
            candidatos: copiar_cuentas(&self.candidatos),
            votantes: copiar_cuentas(&self.votantes),
            votos: copiar_votos(&self.votos),
            votaron: copiar_cuentas(&self.votaron),
            fecha_inicio: self.fecha_inicio,
            fecha_fin: self.fecha_fin,
        }
    }

    /// Whether the election has started at `momento`.
    pub fn inicio(&self, momento: Timestamp) -> (r: bool)
        ensures
            r == (momento >= self@.fecha_inicio),
    {
        momento >= self.fecha_inicio
    }

    /// Whether the election has ended at `momento`.
    pub fn finalizo(&self, momento: Timestamp) -> (r: bool)
        ensures
            r == (momento >= self@.fecha_fin),
    {
        momento >= self.fecha_fin
    }

    /// Whether `acc_id` is an approved voter of the election.
    pub fn es_votante(&self, acc_id: AccountId) -> (r: bool)
        ensures
            r == self@.votantes.contains(acc_id),
    {
        contiene_cuenta(&self.votantes, &acc_id)
    }

    /// Whether `acc_id` is an approved candidate of the election.
    pub fn es_candidato(&self, acc_id: AccountId) -> (r: bool)
        ensures
            r == self@.candidatos.contains(acc_id),
    {
        contiene_cuenta(&self.candidatos, &acc_id)
    }

    /// Whether `acc_id` has already voted in the election.
    pub fn ya_voto(&self, acc_id: AccountId) -> (r: bool)
        ensures
            r == self@.votaron.contains(acc_id),
    {
        contiene_cuenta(&self.votaron, &acc_id)
    }

    /// The position of the vote entry of `a`, if it has one.
    fn buscar_clave(&self, a: &AccountId) -> (r: Option<usize>)
        ensures
            match r {
                Some(i) => {
                    &&& i < self@.votos.len()
                    &&& self@.votos[i as int].0 == *a
                    &&& tiene_clave(self@.votos, *a)
                    &&& indice_clave(self@.votos, *a) == i
                },
                None => !tiene_clave(self@.votos, *a),
            },
    {
        proof {
            use_type_invariant(self);
        }
        let mut i: usize = 0;
        while i < self.votos.len()
            invariant
                i <= self.votos@.len(),
                forall|j: int| 0 <= j < i ==> self.votos@[j].0 != *a,
                claves_unicas(self@.votos),
            decreases self.votos@.len() - i,
        {
            if self.votos[i].0.igual(a) {
                let ghost s = self@.votos;
                assert(tiene_clave(s, *a)) by {
                    assert(s[i as int].0 == *a);
                }
                let ghost k = indice_clave(s, *a);
                assert(s[k].0 == *a);
                assert(k == i);
                return Some(i);
            }
            i = i + 1;
        }
        None
    }

    /// Adds `accid` to the candidates, with no votes.
    pub fn sumar_candidato(&mut self, accid: AccountId)
        ensures
            final(self)@ == con_candidato(old(self)@, accid),
            final(self)@.candidatos == old(self)@.candidatos.push(accid),
            final(self)@.votantes == old(self)@.votantes,
            final(self)@.votaron == old(self)@.votaron,
            !tiene_clave(old(self)@.votos, accid) ==> final(self)@.votos == old(self)@.votos.push(
                (accid, 0u32),
            ),
            tiene_clave(old(self)@.votos, accid) ==> final(self)@.votos.len()
                == old(self)@.votos.len(),
            forall|j: int|
                0 <= j < old(self)@.votos.len() ==> (#[trigger] final(self)@.votos[j]) == if old(
                    self,
                )@.votos[j].0 == accid {
                    (accid, 0u32)
                } else {
                    old(self)@.votos[j]
                },
    {
        proof {
            use_type_invariant(&*self);
        }
        let pos = self.buscar_clave(&accid);
        let mut lista: Vec<AccountId> = Vec::new();
        std::mem::swap(&mut self.candidatos, &mut lista);
        lista.push(accid);
        self.candidatos = lista;
        let mut tabla: Vec<(AccountId, u32)> = Vec::new();
        std::mem::swap(&mut self.votos, &mut tabla);
        match pos {
            Some(i) => {
                tabla.set(i, (accid, 0));
            },
            None => {
                tabla.push((accid, 0));
            },
        }
        proof {
            let t = old(self)@.votos;
            assert forall|j: int, k: int|
                0 <= j < tabla@.len() && 0 <= k < tabla@.len() && j != k implies #[trigger] tabla@[j].0
                != #[trigger] tabla@[k].0 by {
                if j < t.len() && k < t.len() {
                    assert(tabla@[j].0 == t[j].0);
                    assert(tabla@[k].0 == t[k].0);
                } else if j < t.len() {
                    assert(tabla@[j].0 == t[j].0);
                } else {
                    assert(tabla@[k].0 == t[k].0);
                }
            }
        }
        self.votos = tabla;
        assert(self@ =~= con_candidato(old(self)@, accid));
    }

    /// Adds `accid` to the voters.
    pub fn sumar_votante(&mut self, accid: AccountId)
        ensures
            final(self)@ == con_votante(old(self)@, accid),
            final(self)@.votantes == old(self)@.votantes.push(accid),
            final(self)@.candidatos == old(self)@.candidatos,
            final(self)@.votaron == old(self)@.votaron,
            final(self)@.votos == old(self)@.votos,
    {
        proof {
            use_type_invariant(&*self);
        }
        let mut lista: Vec<AccountId> = Vec::new();
        std::mem::swap(&mut self.votantes, &mut lista);
        lista.push(accid);
        self.votantes = lista;
        assert(self@ =~= con_votante(old(self)@, accid));
    }

    /// Records that `accid` has voted.
    pub fn sumar_votador(&mut self, accid: AccountId)
        ensures
            final(self)@ == con_votador(old(self)@, accid),
            final(self)@.votaron == old(self)@.votaron.push(accid),
            final(self)@.candidatos == old(self)@.candidatos,
            final(self)@.votantes == old(self)@.votantes,
            final(self)@.votos == old(self)@.votos,
    {
        proof {
            use_type_invariant(&*self);
        }
        let mut lista: Vec<AccountId> = Vec::new();
        std::mem::swap(&mut self.votaron, &mut lista);
        lista.push(accid);
        self.votaron = lista;
        assert(self@ =~= con_votador(old(self)@, accid));
    }

    /// One more vote, wrapping, for the candidate at position `pos`.
    pub fn sumar_voto(&mut self, pos: usize)
        requires
            pos < old(self)@.candidatos.len(),
        ensures
            final(self)@ == con_voto(old(self)@, pos as int),
            final(self)@.candidatos == old(self)@.candidatos,
            final(self)@.votantes == old(self)@.votantes,
            final(self)@.votaron == old(self)@.votaron,
            final(self)@.votos.len() == old(self)@.votos.len(),
            forall|j: int|
                0 <= j < old(self)@.votos.len() ==> (#[trigger] final(self)@.votos[j]) == if old(
                    self,
                )@.votos[j].0 == old(self)@.candidatos[pos as int] {
                    (
                        old(self)@.votos[j].0,
                        vstd::wrapping::u32_specs::wrapping_add(old(self)@.votos[j].1, 1u32),
                    )
                } else {
                    old(self)@.votos[j]
                },
    {
        proof {
            use_type_invariant(&*self);
        }
        let c = self.candidatos[pos];
        match self.buscar_clave(&c) {
            Some(i) => {
                let n = self.votos[i].1;
                let mut tabla: Vec<(AccountId, u32)> = Vec::new();
                std::mem::swap(&mut self.votos, &mut tabla);
                tabla.set(i, (c, n.wrapping_add(1)));
                proof {
                    let t = old(self)@.votos;
                    assert forall|j: int, k: int|
                        0 <= j < tabla@.len() && 0 <= k < tabla@.len() && j != k implies
                        #[trigger] tabla@[j].0 != #[trigger] tabla@[k].0 by {
                        assert(tabla@[j].0 == t[j].0);
                        assert(tabla@[k].0 == t[k].0);
                    }
                }
                self.votos = tabla;
            },
            None => {},
        }
        assert(self@ =~= con_voto(old(self)@, pos as int));
    }

    /// The election's identifier.
    pub fn id(&self) -> (r: i32)
        ensures
            r == self@.id,
    {
        self.id
    }

    /// The office the election is for.
    pub fn puesto(&self) -> (r: &String)
        ensures
            r@ == self@.puesto,
    {
        &self.puesto
    }

    /// The approved candidates, in order of approval.
    pub fn candidatos(&self) -> (r: &Vec<AccountId>)
        ensures
            r@ == self@.candidatos,
    {
        &self.candidatos
    }

    /// The approved voters, in order of approval.
    pub fn votantes(&self) -> (r: &Vec<AccountId>)
        ensures
            r@ == self@.votantes,
    {
        &self.votantes
    }

    /// The voters who have voted, in order of voting.
    pub fn votaron(&self) -> (r: &Vec<AccountId>)
        ensures
            r@ == self@.votaron,
    {
        &self.votaron
    }

    /// The vote table: each candidate account with its votes.
    pub fn votos(&self) -> (r: &Vec<(AccountId, u32)>)
        ensures
            r@ == self@.votos,
            claves_unicas(r@),
    {
        proof {
            use_type_invariant(self);
        }
        &self.votos
    }

    /// When the election starts.
    pub fn fecha_inicio(&self) -> (r: Timestamp)
        ensures
            r == self@.fecha_inicio,
    {
        self.fecha_inicio
    }

    /// When the election ends.
    pub fn fecha_fin(&self) -> (r: Timestamp)
        ensures
            r == self@.fecha_fin,
    {
        self.fecha_fin
    }

    /// Number of approved voters of the election.
    pub fn reporte1(&self) -> (r: usize)
        ensures
            r == self@.votantes.len(),
    {
        self.votantes.len()
    }

    /// Total of the votes cast, added with wrapping as a `u32`.
    pub fn votos_emitidos(&self) -> (r: u32)
        ensures
            r == suma_votos(self@.votos) % modulo_u32(),
    {
        let mut total: u32 = 0;
        let mut i: usize = 0;
        while i < self.votos.len()
            invariant
                i <= self.votos@.len(),
                total == suma_votos(self.votos@.take(i as int)) % modulo_u32(),
            decreases self.votos@.len() - i,
        {
            let n = self.votos[i].1;
            proof {
                lemma_suma_modular(suma_votos(self.votos@.take(i as int)), n as int);
                assert(self.votos@.take(i + 1).drop_last() =~= self.votos@.take(i as int));
            }
            total = total.wrapping_add(n);
            i = i + 1;
        }
        assert(self.votos@.take(self.votos@.len() as int) =~= self.votos@);
        total
    }
}

} // verus!
