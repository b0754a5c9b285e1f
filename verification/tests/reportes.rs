use sistema::{
    AccountId, ErrorReporte, ErrorSistema, Fecha, InformeVotacion, Reporte, Rol, Sistema, Usuario,
    Votacion,
};

fn alice() -> AccountId {
    AccountId([1; 32])
}
fn bob() -> AccountId {
    AccountId([2; 32])
}
fn charlie() -> AccountId {
    AccountId([3; 32])
}
fn django() -> AccountId {
    AccountId([4; 32])
}
fn frank() -> AccountId {
    AccountId([6; 32])
}

fn ok(r: Result<(), ErrorSistema>) {
    if let Err(e) = r {
        panic!("{}", e.mensaje());
    }
}

/// Panics with the report's text when there is no report.
fn informe(r: Result<InformeVotacion, ErrorReporte>) -> InformeVotacion {
    match r {
        Ok(i) => i,
        Err(e) => panic!("{}", e.mensaje()),
    }
}

/// The share of the voters who voted, in percent.
fn porcentaje(v: &Votacion, total: usize) -> f64 {
    let votos = v.votos_emitidos();
    if votos != 0 {
        (votos as f64 / total as f64) * 100.0
    } else {
        0.0
    }
}

fn ts(d: u32, m: u32, a: i32) -> u64 {
    Fecha::new(d, m, a).to_timestamp()
}

/// Election 1 (5-7-2024 to 1-1-2025) run by alice, with bob and django as
/// voters and charlie and frank as candidates; `votos` of the voters vote for
/// the first candidate.
fn sistema_electoral(con_participantes: bool, votos: usize) -> Sistema {
    let mut sist = Sistema::new(String::from("admin"), alice());
    ok(sist.crear_votacion_impl(1, "Presidente".to_string(), Fecha::new(5, 7, 2024), Fecha::new(1, 1, 2025), alice()));
    let datos = [
        ("agus", "zap", 1111, bob(), Rol::Votante),
        ("dan", "colli", 2222, django(), Rol::Votante),
        ("valen", "simo", 333, charlie(), Rol::Candidato),
        ("feli", "ino", 444, frank(), Rol::Candidato),
    ];
    for (nombre, apellido, dni, cuenta, rol) in datos.iter() {
        ok(sist.registrar_usuario_impl(nombre.to_string(), apellido.to_string(), 20, *dni, *cuenta));
        ok(sist.validar_usuario_impl(true, alice()));
        if con_participantes {
            ok(sist.postularse_a_votacion_impl(*rol, 1, *cuenta, ts(1, 7, 2024)));
            match rol {
                Rol::Votante => ok(sist.validar_votante_impl(true, alice(), ts(1, 7, 2024))),
                Rol::Candidato => ok(sist.validar_candidato_impl(true, alice(), ts(1, 7, 2024))),
            }
        }
    }
    let votantes = [bob(), django()];
    for i in 0..votos {
        ok(sist.votar_impl(1, 1, votantes[i], ts(6, 7, 2024)));
    }
    sist
}

#[test]
fn test_ver_resultados() {
    let r = Reporte::new(sistema_electoral(true, 2));
    let m = Fecha::new(2, 1, 2025);
    let inf = informe(r.ver_resultados_impl(1, m.to_timestamp()));
    assert_eq!(inf.total_votantes, 2);
    assert_eq!(inf.votos_emitidos, 2);
    assert_eq!(inf.posiciones.len(), 2);
    assert_eq!(inf.posiciones[0].lugar, 1);
    assert_eq!(inf.posiciones[0].cuenta, charlie());
    assert_eq!(inf.posiciones[0].votos, 2);
    assert_eq!(inf.posiciones[0].nombre, "valen");
    assert_eq!(inf.posiciones[0].apellido, "simo");
    assert_eq!(inf.posiciones[1].lugar, 2);
    assert_eq!(inf.posiciones[1].cuenta, frank());
    assert_eq!(inf.posiciones[1].nombre, "feli");
}

#[test]
#[should_panic(expected = "LA VOTACION: 1 NO TERMINO")]
fn test_ver_resultados_no_termino() {
    let r = Reporte::new(sistema_electoral(true, 2));
    let m = Fecha::new(31, 12, 2024);
    informe(r.ver_resultados_impl(1, m.to_timestamp()));
}

#[test]
#[should_panic]
fn test_ver_resultados_no_existente() {
    let sist = Sistema::new(String::from("admin"), alice());
    let r = Reporte::new(sist);
    let m = Fecha::new(1, 1, 2025);
    informe(r.ver_resultados_impl(1, m.to_timestamp()));
}

#[test]
#[should_panic(expected = "NO HUBIERON VOTOS")]
fn test_ver_resultados_sin_votos() {
    let r = Reporte::new(sistema_electoral(true, 0));
    let m = Fecha::new(1, 1, 2025);
    informe(r.ver_resultados_impl(1, m.to_timestamp()));
}

#[test]
#[should_panic(expected = "NO HUBO USUARIOS/CANDIDATOS ACEPTADOS PARA VOTAR")]
fn test_ver_resultados_sin_votantes() {
    let r = Reporte::new(sistema_electoral(false, 0));
    let m = Fecha::new(1, 1, 2025);
    informe(r.ver_resultados_impl(1, m.to_timestamp()));
}

#[test]
fn ver_resultados_de_votacion_inexistente() {
    let r = Reporte::new(Sistema::new(String::from("admin"), alice()));
    let e = r.ver_resultados_impl(3, 0).unwrap_err();
    assert_eq!(e, ErrorReporte::VotacionInexistente(3));
    assert_eq!(e.mensaje(), "NO EXISTE VOTACION DE ID: 3");
    assert_eq!(ErrorReporte::NoTermino(12).mensaje(), "LA VOTACION: 12 NO TERMINO ");
}

#[test]
fn ver_resultados_al_terminar_exacto() {
    let r = Reporte::new(sistema_electoral(true, 1));
    let fin = Fecha::new(1, 1, 2025).to_timestamp();
    assert_eq!(r.ver_resultados_impl(1, fin - 1).unwrap_err(), ErrorReporte::NoTermino(1));
    let inf = informe(r.ver_resultados_impl(1, fin));
    assert_eq!(inf.votos_emitidos, 1);
    assert_eq!(r.sistema().votaciones().len(), 1);
}

/// Election 1 with the users agus and dan as voters and two candidates,
/// built field by field.
fn votacion_de_prueba() -> (Votacion, Vec<Usuario>) {
    let user1 = Usuario::new("agus".to_string(), "agus".to_string(), 1111, 20, true, Some(Rol::Votante), bob());
    let user2 = Usuario::new("agus".to_string(), "agus".to_string(), 2222, 20, true, Some(Rol::Votante), django());
    let user3 = Usuario::new("agus".to_string(), "agus".to_string(), 333, 20, true, Some(Rol::Candidato), charlie());
    let user4 = Usuario::new("agus".to_string(), "agus".to_string(), 444, 20, true, Some(Rol::Candidato), frank());
    let mut v = Votacion::new(1, "Presidente".to_string(), ts(5, 7, 2024), ts(1, 1, 2025));
    v.sumar_votante(user1.acc_id);
    v.sumar_votante(user2.acc_id);
    v.sumar_candidato(user3.acc_id);
    v.sumar_candidato(user4.acc_id);
    (v, vec![user1, user2, user3, user4])
}

#[test]
#[should_panic(expected = "NO HUBO USUARIOS/CANDIDATOS ACEPTADOS PARA VOTAR")]
fn test_get_reporte_sin_usuarios() {
    let mut contract = Sistema::new(String::from("admin"), alice());
    ok(contract.crear_votacion_impl(1, "Presidente".to_string(), Fecha::new(5, 7, 2024), Fecha::new(1, 1, 2025), alice()));

    if let Some(v) = contract.get_votacion(1) {
        informe(v.get_reporte(vec![]));
    }
}

#[test]
#[should_panic(expected = "NO HUBO USUARIOS/CANDIDATOS ACEPTADOS PARA VOTAR")]
fn test_get_reporte_sin_candidatos_aceptados() {
    let mut v = Votacion::new(1, "Presidente".to_string(), ts(5, 7, 2024), ts(1, 1, 2025));
    let user1 = Usuario::new("agus".to_string(), "agus".to_string(), 1111, 20, true, Some(Rol::Votante), bob());
    v.sumar_votante(user1.acc_id);
    informe(v.get_reporte(vec![user1]));
}

#[test]
#[should_panic(expected = "NO HUBIERON VOTOS")]
fn test_get_reporte_sin_votos() {
    let user1 = Usuario::new("agus".to_string(), "agus".to_string(), 1111, 20, true, Some(Rol::Votante), bob());
    let user2 = Usuario::new("agus".to_string(), "agus".to_string(), 2222, 20, true, Some(Rol::Candidato), django());
    let mut v = Votacion::new(1, "Presidente".to_string(), ts(5, 7, 2024), ts(1, 1, 2025));
    v.sumar_votante(user1.acc_id);
    v.sumar_candidato(user2.acc_id);
    informe(v.get_reporte(vec![user1, user2]));
}

#[test]
fn test_get_reporte_algunos_votos() {
    let (mut v, usuarios) = votacion_de_prueba();
    v.sumar_voto(0);
    informe(v.get_reporte(usuarios));

    assert_eq!(v.reporte1(), 2);
    assert_eq!(porcentaje(&v, 2), 50.0);
    assert_eq!(v.reporte3(), vec![(charlie(), 1), (frank(), 0)]);
}

#[test]
fn test_get_reporte_todos_votaron() {
    let (mut v, usuarios) = votacion_de_prueba();
    v.sumar_voto(0);
    v.sumar_voto(0);
    informe(v.get_reporte(usuarios));

    assert_eq!(v.reporte1(), 2);
    assert_eq!(porcentaje(&v, 2), 100.0);
    assert_eq!(v.reporte3(), vec![(charlie(), 2), (frank(), 0)]);
}

#[test]
fn ranking_empates_por_cuenta() {
    let mut v = Votacion::new(1, "P".to_string(), 0, 10);
    v.sumar_candidato(frank());
    v.sumar_candidato(charlie());
    v.sumar_candidato(django());
    v.sumar_voto(2);
    // django leads; charlie and frank tie and keep the account order
    assert_eq!(v.reporte3(), vec![(django(), 1), (charlie(), 0), (frank(), 0)]);
}

#[test]
fn ranking_ordena_de_mayor_a_menor() {
    let mut v = Votacion::new(1, "P".to_string(), 0, 10);
    v.sumar_candidato(bob());
    v.sumar_candidato(charlie());
    v.sumar_candidato(django());
    v.sumar_voto(1);
    v.sumar_voto(1);
    v.sumar_voto(2);
    v.sumar_voto(1);
    assert_eq!(v.reporte3(), vec![(charlie(), 3), (django(), 1), (bob(), 0)]);
}

#[test]
fn sumar_candidato_repetido_reinicia_sus_votos() {
    let mut v = Votacion::new(1, "P".to_string(), 0, 10);
    v.sumar_candidato(bob());
    v.sumar_voto(0);
    assert_eq!(v.votos(), &vec![(bob(), 1)]);
    v.sumar_candidato(bob());
    assert_eq!(v.votos(), &vec![(bob(), 0)]);
    assert_eq!(v.candidatos(), &vec![bob(), bob()]);
}

#[test]
fn informe_nombra_al_primer_usuario_de_la_cuenta() {
    let mut v = Votacion::new(1, "P".to_string(), 0, 10);
    v.sumar_votante(bob());
    v.sumar_candidato(charlie());
    v.sumar_voto(0);
    let a = Usuario::new("Ana".to_string(), "Uno".to_string(), 1, 30, true, None, charlie());
    let b = Usuario::new("Beto".to_string(), "Dos".to_string(), 2, 30, true, None, charlie());
    let inf = informe(v.get_reporte(vec![a, b]));
    assert_eq!(inf.posiciones[0].nombre, "Ana");
    assert_eq!(inf.posiciones[0].apellido, "Uno");
}

#[test]
fn votos_emitidos_suma_con_desborde() {
    let mut v = Votacion::new(1, "P".to_string(), 0, 10);
    v.sumar_candidato(bob());
    v.sumar_candidato(charlie());
    v.sumar_voto(0);
    v.sumar_voto(1);
    v.sumar_voto(1);
    assert_eq!(v.votos_emitidos(), 3);
    assert!(v.inicio(0));
    assert!(!v.finalizo(9));
    assert!(v.finalizo(10));
}

#[test]
fn copia_de_votacion_es_igual() {
    let (mut v, _) = votacion_de_prueba();
    v.sumar_voto(1);
    let c = v.copia();
    assert_eq!(c.votos(), v.votos());
    assert_eq!(c.candidatos(), v.candidatos());
    assert_eq!(c.votantes(), v.votantes());
    assert_eq!(c.puesto(), v.puesto());
}

#[test]
fn cuentas_iguales_y_ordenadas() {
    assert!(bob().igual(&AccountId([2; 32])));
    assert!(!bob().igual(&charlie()));
    assert!(bob().menor(&charlie()));
    assert!(!charlie().menor(&bob()));
    assert!(!bob().menor(&bob()));
    let mut a = [0u8; 32];
    a[31] = 9;
    let mut b = [0u8; 32];
    b[0] = 1;
    assert!(AccountId(a).menor(&AccountId(b)));
}

#[test]
fn resultados_sobre_un_sistema_vivo() {
    let mut sist = sistema_electoral(true, 1);
    let fin = Fecha::new(1, 1, 2025).to_timestamp();
    assert_eq!(sistema::resultados(&sist, 1, fin - 1).unwrap_err(), ErrorReporte::NoTermino(1));
    // the system keeps taking requests while it is being reported on
    ok(sist.votar_impl(1, 1, django(), ts(6, 7, 2024)));
    let inf = informe(sistema::resultados(&sist, 1, fin));
    assert_eq!(inf.votos_emitidos, 2);
}

#[test]
fn reporte_devuelve_el_sistema() {
    let r = Reporte::new(sistema_electoral(true, 1));
    let mut sist = r.into_sistema();
    ok(sist.votar_impl(1, 1, django(), ts(6, 7, 2024)));
    let r = Reporte::new(sist);
    let inf = informe(r.ver_resultados_impl(1, Fecha::new(1, 1, 2025).to_timestamp()));
    assert_eq!(inf.votos_emitidos, 2);
    assert_eq!(inf.posiciones[0].votos, 2);
}

#[test]
fn copias_derivadas() {
    let (v, usuarios) = votacion_de_prueba();
    let w = v.clone();
    assert_eq!(w.votos(), v.votos());
    let u = usuarios[0].clone();
    assert_eq!(u.acc_id, usuarios[0].acc_id);
}
