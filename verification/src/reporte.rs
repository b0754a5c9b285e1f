//! The results service: the report of an ended election of a system.

use vstd::prelude::*;
use crate::cuenta::Timestamp;
use crate::sistema::{Sistema, SistemaV, existe_votacion, indice_votacion};
use crate::resultados::{InformeVotacion, ErrorReporte, reporte_correcto};

verus! {

/// What a results request for election `id` at `momento` answers, given the
/// system's state `s`.
pub open spec fn resultados_correctos(
    r: Result<InformeVotacion, ErrorReporte>,
    s: SistemaV,
    id: i32,
    momento: Timestamp,
) -> bool {
    if !existe_votacion(s.votaciones, id) {
        r == Err::<InformeVotacion, ErrorReporte>(ErrorReporte::VotacionInexistente(id))
    } else {
        let v = s.votaciones[indice_votacion(s.votaciones, id)];
        if momento < v.fecha_fin {
            r == Err::<InformeVotacion, ErrorReporte>(ErrorReporte::NoTermino(id))
        } else {
            reporte_correcto(r, v, s.usuarios_reg)
        }
    }
}

/// The report of election `id_de_votacion` of the system `s`, once it has
/// ended at `momento`; `s` stays as it was and can take further requests.
pub fn resultados(s: &Sistema, id_de_votacion: i32, momento: Timestamp) -> (r: Result<
    InformeVotacion,
    ErrorReporte,
>)
    ensures
        resultados_correctos(r, s@, id_de_votacion, momento),
{
    match s.get_votacion(id_de_votacion) {
        Some(v) => {
            if v.finalizo(momento) {
                v.get_reporte(s.get_usuarios())
            } else {
                Err(ErrorReporte::NoTermino(id_de_votacion))
            }
        },
        None => Err(ErrorReporte::VotacionInexistente(id_de_votacion)),
    }
}

/// Reports the results of the elections of a voting system.
#[derive(Debug)]
pub struct Reporte {
    sistema: Sistema,
}

impl Reporte {
    /// The system whose elections are reported.
    pub closed spec fn estado(&self) -> SistemaV {
        self.sistema@
    }

    /// A results service for the system `s`.
    pub fn new(s: Sistema) -> (r: Reporte)
        ensures
            r.estado() == s@,
    {
        Reporte { sistema: s }
    }

    /// The reported system.
    pub fn sistema(&self) -> (r: &Sistema)
        ensures
            r@ == self.estado(),
    {
        &self.sistema
    }

    /// The reported system, handed back so that it can take further requests.
    pub fn into_sistema(self) -> (r: Sistema)
        ensures
            r@ == self.estado(),
    {
        self.sistema
    }

    /// The report of election `id_de_votacion`, once it has ended at
    /// `momento`.
    pub fn ver_resultados_impl(&self, id_de_votacion: i32, momento: Timestamp) -> (r: Result<
        InformeVotacion,
        ErrorReporte,
    >)
        ensures
            resultados_correctos(r, self.estado(), id_de_votacion, momento),
    {
        resultados(&self.sistema, id_de_votacion, momento)
    }
}

} // verus!
