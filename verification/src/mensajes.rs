//! The text of each refusal, as the system reports it.

use vstd::prelude::*;
use crate::sistema::ErrorSistema;
use crate::resultados::ErrorReporte;

verus! {

/// The character of the decimal digit `d`.
pub open spec fn caracter_digito(d: nat) -> char {
    if d == 0 {
        '0'
    } else if d == 1 {
        '1'
    } else if d == 2 {
        '2'
    } else if d == 3 {
        '3'
    } else if d == 4 {
        '4'
    } else if d == 5 {
        '5'
    } else if d == 6 {
        '6'
    } else if d == 7 {
        '7'
    } else if d == 8 {
        '8'
    } else {
        '9'
    }
}

/// The decimal digits of `n`, most significant first, without leading zeros.
pub open spec fn digitos(n: nat) -> Seq<char>
    decreases n,
{
    if n < 10 {
        seq![caracter_digito(n)]
    } else {
        digitos(n / 10).push(caracter_digito(n % 10))
    }
}

/// The decimal text of `x`, with a minus sign when negative.
pub open spec fn decimal(x: int) -> Seq<char> {
    if x < 0 {
        seq!['-'] + digitos((-x) as nat)
    } else {
        digitos(x as nat)
    }
}

/// The text of the decimal digit `d`.
fn texto_digito(d: u32) -> (r: &'static str)
    requires
        d < 10,
    ensures
        r@ == seq![caracter_digito(d as nat)],
{
    proof {
        reveal_strlit("0");
        reveal_strlit("1");
        reveal_strlit("2");
        reveal_strlit("3");
        reveal_strlit("4");
        reveal_strlit("5");
        reveal_strlit("6");
        reveal_strlit("7");
        reveal_strlit("8");
        reveal_strlit("9");
    }
    if d == 0 {
        "0"
    } else if d == 1 {
        "1"
    } else if d == 2 {
        "2"
    } else if d == 3 {
        "3"
    } else if d == 4 {
        "4"
    } else if d == 5 {
        "5"
    } else if d == 6 {
        "6"
    } else if d == 7 {
        "7"
    } else if d == 8 {
        "8"
    } else {
        "9"
    }
}

/// Appends the decimal digits of `n` to `r`.
fn escribir_digitos(n: u32, r: &mut String)
    ensures
        final(r)@ == old(r)@ + digitos(n as nat),
    decreases n,
{
    if n >= 10 {
        escribir_digitos(n / 10, r);
    }
    r.append(texto_digito(n % 10));
    proof {
        if n >= 10 {
            assert(digitos(n as nat) == digitos((n / 10) as nat).push(caracter_digito((n % 10) as nat)));
        }
    }
    assert(r@ =~= old(r)@ + digitos(n as nat));
}

/// The decimal text of `x`.
pub fn texto_decimal(x: i32) -> (r: String)
    ensures
        r@ == decimal(x as int),
{
    let mut r: String;
    let n: u32;
    if x < 0 {
        r = String::from_str("-");
        proof {
            reveal_strlit("-");
        }
        n = (0i64 - (x as i64)) as u32;
    } else {
        r = String::new();
        n = x as u32;
    }
    escribir_digitos(n, &mut r);
    r
}

/// The text reporting refusal `e` of the system.
pub open spec fn texto_error_sistema(e: ErrorSistema) -> Seq<char> {
    match e {
        ErrorSistema::EsperaValidacion => "ESTE USUARIO YA ESTA EN ESPERA DE VALIDACION"@,
        ErrorSistema::CuentaODniRegistrado => "CUENTA O DNI YA REGISTRADO"@,
        ErrorSistema::EdadInsuficiente => "NO TIENE LA EDAD SUFICIENTE PARA REGISTRARTE"@,
        ErrorSistema::SoloAdminValidaUsuarios => "SOLO EL ADMINISTRADOR PUEDE VALIDAR USUARIOS"@,
        ErrorSistema::FechaInvalida => "FECHA INVALIDA"@,
        ErrorSistema::NoRegistradoOValidado => "NO ESTAS REGISTRADO O VALIDADO EN EL SISTEMA"@,
        ErrorSistema::VotacionInexistente(id) => "NO EXISTE VOTACION DE ID: "@ + decimal(id as int),
        ErrorSistema::VotacionYaInicio => "LA VOTACION YA INICIO"@,
        ErrorSistema::YaPostulado => "YA TE POSTULASTE A ESTA VOTACION"@,
        ErrorSistema::EnColaDeEspera => "ESTAS EN LA COLA DE ESPERA"@,
        ErrorSistema::SoloAdminValidaCandidatos => "SOLO EL ADMINISTRADOR PUEDE VALIDAR CANDIDATOS"@,
        ErrorSistema::SoloAdminValidaVotantes => "SOLO EL ADMINISTRADOR PUEDE VALIDAR VOTANTES"@,
        ErrorSistema::AdminNoPuedeVotar => "EL ADMINISTRADOR NO PUEDE VOTAR"@,
        ErrorSistema::UsuarioNoRegistrado => "USUARIO NO REGISTRADO/APROBADO"@,
        ErrorSistema::VotacionNoInicio => "LA VOTACION TODAVIA NO INICIO"@,
        ErrorSistema::VotacionFinalizo => "LA VOTACION FINALIZO"@,
        ErrorSistema::NoEsVotante => "USUARIO NO POSTULADO/APROBADO COMO VOTANTE EN ESTA VOTACION"@,
        ErrorSistema::YaVoto => "USUARIO YA REALIZO SU VOTO"@,
        ErrorSistema::SinCandidatos => "NO HAY CANDIDATOS POSTULADOS"@,
        ErrorSistema::OpcionInvalida => "OPCION INVALIDA"@,
    }
}

/// The text reporting why an election has no report.
pub open spec fn texto_error_reporte(e: ErrorReporte) -> Seq<char> {
    match e {
        ErrorReporte::VotacionInexistente(id) => "NO EXISTE VOTACION DE ID: "@ + decimal(id as int),
        ErrorReporte::NoTermino(id) => "LA VOTACION: "@ + decimal(id as int) + " NO TERMINO "@,
        ErrorReporte::SinUsuariosOCandidatos => "NO HUBO USUARIOS/CANDIDATOS ACEPTADOS PARA VOTAR"@,
        ErrorReporte::SinVotos => "NO HUBIERON VOTOS"@,
    }
}

impl ErrorSistema {
    /// The text reporting this refusal.
    pub fn mensaje(&self) -> (r: String)
        ensures
            r@ == texto_error_sistema(*self),
    {
        match self {
            ErrorSistema::EsperaValidacion => String::from_str(
                "ESTE USUARIO YA ESTA EN ESPERA DE VALIDACION",
            ),
            ErrorSistema::CuentaODniRegistrado => String::from_str("CUENTA O DNI YA REGISTRADO"),
            ErrorSistema::EdadInsuficiente => String::from_str(
                "NO TIENE LA EDAD SUFICIENTE PARA REGISTRARTE",
            ),
            ErrorSistema::SoloAdminValidaUsuarios => String::from_str(
                "SOLO EL ADMINISTRADOR PUEDE VALIDAR USUARIOS",
            ),
            ErrorSistema::FechaInvalida => String::from_str("FECHA INVALIDA"),
            ErrorSistema::NoRegistradoOValidado => String::from_str(
                "NO ESTAS REGISTRADO O VALIDADO EN EL SISTEMA",
            ),
            ErrorSistema::VotacionInexistente(id) => {
                let mut r = String::from_str("NO EXISTE VOTACION DE ID: ");
                let n = texto_decimal(*id);
                r.append(n.as_str());
                r
            },
            ErrorSistema::VotacionYaInicio => String::from_str("LA VOTACION YA INICIO"),
            ErrorSistema::YaPostulado => String::from_str("YA TE POSTULASTE A ESTA VOTACION"),
            ErrorSistema::EnColaDeEspera => String::from_str("ESTAS EN LA COLA DE ESPERA"),
            ErrorSistema::SoloAdminValidaCandidatos => String::from_str(
                "SOLO EL ADMINISTRADOR PUEDE VALIDAR CANDIDATOS",
            ),
            ErrorSistema::SoloAdminValidaVotantes => String::from_str(
                "SOLO EL ADMINISTRADOR PUEDE VALIDAR VOTANTES",
            ),
            ErrorSistema::AdminNoPuedeVotar => String::from_str("EL ADMINISTRADOR NO PUEDE VOTAR"),
            ErrorSistema::UsuarioNoRegistrado => String::from_str("USUARIO NO REGISTRADO/APROBADO"),
            ErrorSistema::VotacionNoInicio => String::from_str("LA VOTACION TODAVIA NO INICIO"),
            ErrorSistema::VotacionFinalizo => String::from_str("LA VOTACION FINALIZO"),
            ErrorSistema::NoEsVotante => String::from_str(
                "USUARIO NO POSTULADO/APROBADO COMO VOTANTE EN ESTA VOTACION",
            ),
            ErrorSistema::YaVoto => String::from_str("USUARIO YA REALIZO SU VOTO"),
            ErrorSistema::SinCandidatos => String::from_str("NO HAY CANDIDATOS POSTULADOS"),
            ErrorSistema::OpcionInvalida => String::from_str("OPCION INVALIDA"),
        }
    }
}

impl ErrorReporte {
    /// The text reporting why the election has no report.
    pub fn mensaje(&self) -> (r: String)
        ensures
            r@ == texto_error_reporte(*self),
    {
        match self {
            ErrorReporte::VotacionInexistente(id) => {
                let mut r = String::from_str("NO EXISTE VOTACION DE ID: ");
                let n = texto_decimal(*id);
                r.append(n.as_str());
                r
            },
            ErrorReporte::NoTermino(id) => {
                let mut r = String::from_str("LA VOTACION: ");
                let n = texto_decimal(*id);
                r.append(n.as_str());
                r.append(" NO TERMINO ");
                r
            },
            ErrorReporte::SinUsuariosOCandidatos => String::from_str(
                "NO HUBO USUARIOS/CANDIDATOS ACEPTADOS PARA VOTAR",
            ),
            ErrorReporte::SinVotos => String::from_str("NO HUBIERON VOTOS"),
        }
    }
}

} // verus!
