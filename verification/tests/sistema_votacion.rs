use sistema::{AccountId, ErrorSistema, Fecha, Rol, Sistema};

fn alice() -> AccountId {
    AccountId([1; 32])
}
fn bob() -> AccountId {
    AccountId([2; 32])
}
fn charlie() -> AccountId {
    AccountId([3; 32])
}
fn django() -> AccountId {
    AccountId([4; 32])
}
fn eve() -> AccountId {
    AccountId([5; 32])
}
fn frank() -> AccountId {
    AccountId([6; 32])
}

/// Panics with the system's text when the request is refused.
fn ok(r: Result<(), ErrorSistema>) {
    if let Err(e) = r {
        panic!("{}", e.mensaje());
    }
}

#[test]
fn test_registrar_usuario() {
    let mut contract = Sistema::new(String::from("admin"), bob());
    let nombre = String::from("John");
    let apellido = String::from("Doe");
    let edad = 25;
    let dni = 12345678;

    ok(contract.registrar_usuario_impl(nombre, apellido, edad, dni, alice()));

    assert_eq!(contract.usuarios_reg().len(), 0);
    assert_eq!(contract.espera_usuarios().len(), 1);
    assert_eq!(contract.espera_usuarios()[0].dni, 12345678);
}

#[test]
#[should_panic(expected = "ESTE USUARIO YA ESTA EN ESPERA DE VALIDACION")]
fn test_intento_registrar_usuario_mismo_dni() {
    let mut contract = Sistema::new(String::from("admin"), bob());
    let nombre = String::from("John");
    let apellido = String::from("Doe");
    let edad = 25;
    let dni = 12345678;

    ok(contract.registrar_usuario_impl(nombre, apellido, edad, dni, alice()));
    ok(contract.registrar_usuario_impl("agus".to_string(), "zap".to_string(), 20, 12345678, django()));

    assert_eq!(contract.espera_usuarios().len(), 1);
}

#[test]
#[should_panic(expected = "ESTE USUARIO YA ESTA EN ESPERA DE VALIDACION")]
fn test_intento_registrar_usuario_mismo_account_id() {
    let mut contract = Sistema::new(String::from("admin"), bob());
    let nombre = String::from("John");
    let apellido = String::from("Doe");
    let edad = 25;
    let dni = 12345678;

    ok(contract.registrar_usuario_impl(nombre, apellido, edad, dni, alice()));
    ok(contract.registrar_usuario_impl("agus".to_string(), "zap".to_string(), 20, 123, alice()));

    assert_eq!(contract.espera_usuarios().len(), 1);
}

#[test]
#[should_panic(expected = "CUENTA O DNI YA REGISTRADO")]
fn test_registrar_usuario_dni_duplicado() {
    let mut contract = Sistema::new(String::from("admin"), bob());
    let nombre = String::from("John");
    let apellido = String::from("Doe");
    let edad = 25;
    let dni = 12345678;

    ok(contract.registrar_usuario_impl(nombre.clone(), apellido.clone(), edad, dni, alice()));
    ok(contract.validar_usuario_impl(true, bob()));

    ok(contract.registrar_usuario_impl(nombre.clone(), apellido.clone(), edad, dni, eve()));
}

#[test]
#[should_panic(expected = "CUENTA O DNI YA REGISTRADO")]
fn test_registrar_usuario_acc_id_duplicado() {
    let mut contract = Sistema::new(String::from("admin"), bob());
    let nombre = String::from("John");
    let apellido = String::from("Doe");
    let edad = 25;
    let dni = 12345678;

    ok(contract.registrar_usuario_impl(nombre.clone(), apellido.clone(), edad, dni, alice()));
    ok(contract.validar_usuario_impl(true, bob()));

    ok(contract.registrar_usuario_impl(nombre.clone(), apellido.clone(), edad, 87654321, alice()));
}

#[test]
fn test_registrar_usuario_admin() {
    let mut contract = Sistema::new(String::from("admin"), bob());
    let nombre = String::from("John");
    let apellido = String::from("Doe");
    let edad = 25;
    let dni = 12345678;
    ok(contract.registrar_usuario_impl(nombre, apellido, edad, dni, bob()));

    assert_eq!(contract.espera_usuarios().len(), 0);
}

#[test]
#[should_panic(expected = "NO TIENE LA EDAD SUFICIENTE PARA REGISTRARTE")]
fn test_registrar_usuario_menor_de_edad() {
    let mut contract = Sistema::new(String::from("admin"), bob());
    let nombre = String::from("John");
    let apellido = String::from("Doe");
    let edad = 17;
    let dni = 12345678;
    ok(contract.registrar_usuario_impl(nombre, apellido, edad, dni, alice()));

    assert_eq!(contract.espera_usuarios().len(), 0);
}

#[test]
fn test_validar_usuario() {
    let mut contract = Sistema::new(String::from("admin"), bob());
    let nombre = String::from("John");
    let apellido = String::from("Doe");
    let edad = 25;
    let dni = 12345678;

    ok(contract.registrar_usuario_impl(nombre.clone(), apellido.clone(), edad, dni, alice()));
    ok(contract.validar_usuario_impl(true, bob()));

    assert_eq!(contract.usuarios_reg().len(), 1);
}

#[test]
fn test_validar_usuario_no_aceptar() {
    let mut contract = Sistema::new(String::from("admin"), bob());
    let nombre = String::from("John");
    let apellido = String::from("Doe");
    let edad = 25;
    let dni = 12345678;

    ok(contract.registrar_usuario_impl(nombre.clone(), apellido.clone(), edad, dni, alice()));
    ok(contract.validar_usuario_impl(false, bob()));

    assert_eq!(contract.usuarios_reg().len(), 0);
}

#[test]
fn test_validar_usuario_ninguno() {
    let mut contract = Sistema::new(String::from("admin"), bob());

    ok(contract.validar_usuario_impl(true, bob()));
    assert_eq!(contract.usuarios_reg().len(), 0);
}

#[test]
fn test_validar_multiples_usuarios() {
    let mut contract = Sistema::new(String::from("admin"), alice());
    let nombres = vec!["John", "Jane"];
    let apellidos = vec!["Doe", "Smith"];
    let edad = 25;
    let dnis = vec![12345678, 87654321];

    ok(contract.registrar_usuario_impl(nombres[0].to_string(), apellidos[0].to_string(), edad, dnis[0], bob()));
    ok(contract.registrar_usuario_impl(nombres[1].to_string(), apellidos[1].to_string(), edad, dnis[1], django()));

    ok(contract.validar_usuario_impl(true, alice()));
    ok(contract.validar_usuario_impl(true, alice()));

    assert_eq!(contract.usuarios_reg().len(), 2);
    assert_eq!(contract.usuarios_reg()[0].dni, dnis[0]);
    assert_eq!(contract.usuarios_reg()[1].dni, dnis[1]);
    assert_eq!(contract.espera_usuarios().len(), 0);
}

#[test]
#[should_panic(expected = "SOLO EL ADMINISTRADOR PUEDE VALIDAR USUARIOS")]
fn test_validar_usuario_no_admin() {
    let mut contract = Sistema::new(String::from("admin"), bob());
    let nombre = String::from("John");
    let apellido = String::from("Doe");
    let edad = 25;
    let dni = 12345678;

    ok(contract.registrar_usuario_impl(nombre.clone(), apellido.clone(), edad, dni, frank()));
    ok(contract.validar_usuario_impl(true, alice()));
}

#[test]
fn test_crear_votacion() {
    let mut contract = Sistema::new(String::from("admin"), bob());
    let inicio: Fecha = Fecha::new(2, 7, 2024);
    let fin: Fecha = Fecha::new(15, 10, 2024);

    ok(contract.crear_votacion_impl(1, "Presidente".to_string(), inicio, fin, bob()));

    assert_eq!(contract.votaciones().len(), 1);
    assert_eq!(contract.votaciones()[0].puesto(), &"Presidente".to_string());
}

#[test]
fn test_crear_votacion_no_admin() {
    let mut contract = Sistema::new(String::from("admin"), bob());
    let inicio: Fecha = Fecha::new(10, 10, 2024);
    let fin: Fecha = Fecha::new(15, 10, 2024);
    ok(contract.crear_votacion_impl(1, "Presidente".to_string(), inicio, fin, alice()));

    assert_eq!(contract.votaciones().len(), 0);
}

#[test]
fn test_crear_votacion_id_duplicado() {
    let mut contract = Sistema::new(String::from("admin"), alice());
    let id = 1;
    let puesto = String::from("Presidente");
    let inicio = Fecha::new(1, 1, 2024);
    let fin = Fecha::new(31, 12, 2024);

    ok(contract.crear_votacion_impl(id, puesto.clone(), inicio.clone(), fin.clone(), alice()));
    ok(contract.crear_votacion_impl(id, puesto.clone(), inicio, fin, alice()));
    assert_eq!(contract.votaciones().len(), 1);
}

#[test]
#[should_panic(expected = "FECHA INVALIDA")]
fn test_crear_votacion_fechas_invalidas() {
    let mut contract = Sistema::new(String::from("admin"), alice());
    let id = 1;
    let puesto = String::from("Presidente");
    let inicio = Fecha::new(32, 1, 2024);
    let fin = Fecha::new(31, 12, 2024);

    ok(contract.crear_votacion_impl(id, puesto.clone(), inicio, fin, alice()));
}

#[test]
#[should_panic(expected = "FECHA INVALIDA")]
fn test_crear_votacion_fecha_fin_anterior() {
    let mut contract = Sistema::new(String::from("admin"), alice());
    let id = 1;
    let puesto = String::from("Presidente");
    let inicio = Fecha::new(31, 12, 2024);
    let fin = Fecha::new(1, 1, 2024);

    ok(contract.crear_votacion_impl(id, puesto.clone(), inicio, fin, alice()));
}

#[test]
fn test_postularse_a_votacion_exitoso() {
    let mut contract = Sistema::new(String::from("admin"), alice());
    let id = 1;
    let puesto = String::from("Presidente");
    let inicio = Fecha::new(1, 1, 2025);
    let fin = Fecha::new(31, 12, 2025);

    ok(contract.crear_votacion_impl(id, puesto.clone(), inicio, fin, alice()));

    ok(contract.registrar_usuario_impl(String::from("Bob"), String::from("stuart"), 30, 12345678, bob()));
    ok(contract.validar_usuario_impl(true, alice()));

    ok(contract.postularse_a_votacion_impl(Rol::Candidato, id, bob(), Fecha::new(1, 12, 2024).to_timestamp()));

    assert_eq!(contract.espera_candidatos().len(), 1);
    assert_eq!(contract.espera_candidatos()[0], (bob(), id));

    ok(contract.validar_candidato_impl(true, alice(), Fecha::new(1, 12, 2024).to_timestamp()));
    assert_eq!(contract.espera_candidatos().len(), 0);
    assert_eq!(contract.votaciones()[0].candidatos()[0], bob());
}

#[test]
#[should_panic(expected = "LA VOTACION YA INICIO")]
fn test_postularse_a_votacion_ya_iniciada() {
    let mut contract = Sistema::new(String::from("admin"), alice());
    let id = 1;
    let puesto = String::from("Presidente");
    let inicio = Fecha::new(1, 1, 2020);
    let fin = Fecha::new(31, 12, 2025);

    ok(contract.crear_votacion_impl(id, puesto.clone(), inicio, fin, alice()));

    ok(contract.registrar_usuario_impl(String::from("Bob"), String::from("stuart"), 30, 12345678, bob()));
    ok(contract.validar_usuario_impl(true, alice()));
    assert_eq!(contract.usuarios_reg().len(), 1);

    ok(contract.postularse_a_votacion_impl(Rol::Candidato, id, bob(), Fecha::new(1, 1, 2020).to_timestamp()));
}

#[test]
#[should_panic(expected = "NO ESTAS REGISTRADO O VALIDADO EN EL SISTEMA")]
fn test_postularse_no_registrado() {
    let mut contract = Sistema::new(String::from("admin"), bob());
    let id = 1;
    let puesto = String::from("Presidente");
    let inicio = Fecha::new(1, 1, 2025);
    let fin = Fecha::new(31, 12, 2025);

    ok(contract.crear_votacion_impl(id, puesto.clone(), inicio, fin, bob()));
    ok(contract.postularse_a_votacion_impl(Rol::Candidato, id, bob(), 0));
}

#[test]
#[should_panic(expected = "NO EXISTE VOTACION DE ID: 1")]
fn test_postularse_votacion_no_existente() {
    let mut contract = Sistema::new(String::from("admin"), alice());

    ok(contract.registrar_usuario_impl(String::from("Bob"), String::from("stuart"), 30, 12345678, bob()));
    ok(contract.validar_usuario_impl(true, alice()));

    ok(contract.postularse_a_votacion_impl(Rol::Candidato, 1, bob(), Fecha::new(1, 12, 2024).to_timestamp()));
}

#[test]
#[should_panic(expected = "YA TE POSTULASTE A ESTA VOTACION")]
fn test_postularse_ya_postulado() {
    let mut contract = Sistema::new(String::from("admin"), alice());
    let id = 1;
    let puesto = String::from("Presidente");
    let inicio = Fecha::new(1, 1, 2025);
    let fin = Fecha::new(31, 12, 2025);

    ok(contract.crear_votacion_impl(id, puesto.clone(), inicio, fin, alice()));

    ok(contract.registrar_usuario_impl(String::from("Bob"), String::from("Builder"), 30, 12345678, bob()));
    ok(contract.validar_usuario_impl(true, alice()));

    ok(contract.postularse_a_votacion_impl(Rol::Candidato, id, bob(), Fecha::new(1, 12, 2024).to_timestamp()));
    ok(contract.validar_candidato_impl(true, alice(), Fecha::new(1, 12, 2024).to_timestamp()));
    assert_eq!(contract.usuarios_reg().len(), 1);

    ok(contract.postularse_a_votacion_impl(Rol::Candidato, id, bob(), Fecha::new(1, 12, 2024).to_timestamp()));
}

#[test]
#[should_panic(expected = "ESTAS EN LA COLA DE ESPERA")]
fn test_postularse_en_la_cola_de_espera() {
    let mut contract = Sistema::new(String::from("admin"), alice());
    let id = 1;
    let puesto = String::from("Presidente");
    let inicio = Fecha::new(1, 1, 2022);
    let fin = Fecha::new(30, 12, 2022);

    ok(contract.crear_votacion_impl(id, puesto.clone(), inicio, fin, alice()));

    ok(contract.registrar_usuario_impl(String::from("Bob"), String::from("Builder"), 30, 12345678, bob()));
    ok(contract.validar_usuario_impl(true, alice()));

    ok(contract.postularse_a_votacion_impl(Rol::Candidato, id, bob(), Fecha::new(1, 12, 2021).to_timestamp()));
    ok(contract.postularse_a_votacion_impl(Rol::Candidato, id, bob(), Fecha::new(1, 12, 2021).to_timestamp()));
}

#[test]
fn test_validar_candidato_exitoso() {
    let mut contract = Sistema::new(String::from("admin"), alice());

    ok(contract.registrar_usuario_impl(String::from("John"), String::from("Doe"), 25, 12345678, bob()));
    ok(contract.validar_usuario_impl(true, alice()));

    let inicio = Fecha::new(1, 1, 2024);
    let fin = Fecha::new(10, 1, 2024);
    ok(contract.crear_votacion_impl(1, String::from("Presidente"), inicio, fin, alice()));

    ok(contract.postularse_a_votacion_impl(Rol::Candidato, 1, bob(), Fecha::new(1, 12, 2023).to_timestamp()));

    ok(contract.validar_candidato_impl(true, alice(), Fecha::new(1, 12, 2023).to_timestamp()));

    assert!(contract.votaciones()[0].es_candidato(bob()));
}

#[test]
#[should_panic(expected = "SOLO EL ADMINISTRADOR PUEDE VALIDAR CANDIDATOS")]
fn test_validar_candidato_no_admin() {
    let mut contract = Sistema::new(String::from("admin"), alice());

    ok(contract.registrar_usuario_impl(String::from("John"), String::from("Doe"), 25, 12345678, bob()));
    ok(contract.validar_usuario_impl(true, alice()));

    let inicio = Fecha::new(1, 1, 2024);
    let fin = Fecha::new(10, 1, 2024);
    ok(contract.crear_votacion_impl(1, String::from("Presidente"), inicio, fin, alice()));

    ok(contract.postularse_a_votacion_impl(Rol::Candidato, 1, bob(), Fecha::new(1, 12, 2023).to_timestamp()));

    ok(contract.validar_candidato_impl(true, bob(), Fecha::new(1, 12, 2023).to_timestamp()));
}

#[test]
fn validar_candidato_en_votacion_iniciada() {
    let mut contract = Sistema::new(String::from("admin"), alice());

    ok(contract.registrar_usuario_impl(String::from("John"), String::from("Doe"), 25, 12345678, bob()));
    ok(contract.validar_usuario_impl(true, alice()));

    ok(contract.crear_votacion_impl(1, "Presidente".to_string(), Fecha::new(5, 7, 2024), Fecha::new(1, 1, 2025), alice()));
    ok(contract.postularse_a_votacion_impl(Rol::Candidato, 1, bob(), Fecha::new(1, 12, 2023).to_timestamp()));

    let futuro = Fecha::new(10, 7, 2024).to_timestamp();

    ok(contract.validar_candidato_impl(true, alice(), futuro));

    assert!(contract.espera_candidatos().is_empty());
    assert!(contract.votaciones()[0].candidatos().is_empty());
}

#[test]
#[should_panic(expected = "YA TE POSTULASTE A ESTA VOTACION")]
fn test_postularse_ya_postulado_votante() {
    let mut contract = Sistema::new(String::from("admin"), alice());
    let id = 1;
    let puesto = String::from("Presidente");
    let inicio = Fecha::new(1, 1, 2025);
    let fin = Fecha::new(31, 12, 2025);

    ok(contract.crear_votacion_impl(id, puesto.clone(), inicio, fin, alice()));

    ok(contract.registrar_usuario_impl(String::from("Bob"), String::from("Builder"), 30, 12345678, bob()));
    ok(contract.validar_usuario_impl(true, alice()));

    ok(contract.postularse_a_votacion_impl(Rol::Votante, id, bob(), Fecha::new(1, 12, 2024).to_timestamp()));
    ok(contract.validar_votante_impl(true, alice(), Fecha::new(1, 12, 2024).to_timestamp()));
    assert_eq!(contract.usuarios_reg().len(), 1);

    ok(contract.postularse_a_votacion_impl(Rol::Votante, id, bob(), Fecha::new(1, 12, 2024).to_timestamp()));
}

#[test]
#[should_panic(expected = "ESTAS EN LA COLA DE ESPERA")]
fn test_postularse_en_la_cola_de_espera_votante() {
    let mut contract = Sistema::new(String::from("admin"), alice());
    let id = 1;
    let puesto = String::from("Presidente");
    let inicio = Fecha::new(1, 1, 2022);
    let fin = Fecha::new(30, 12, 2022);

    ok(contract.crear_votacion_impl(id, puesto.clone(), inicio, fin, alice()));

    ok(contract.registrar_usuario_impl(String::from("Bob"), String::from("Builder"), 30, 12345678, bob()));
    ok(contract.validar_usuario_impl(true, alice()));

    ok(contract.postularse_a_votacion_impl(Rol::Votante, id, bob(), Fecha::new(1, 12, 2021).to_timestamp()));
    ok(contract.postularse_a_votacion_impl(Rol::Votante, id, bob(), Fecha::new(1, 12, 2021).to_timestamp()));
}

#[test]
fn test_validar_votante_exitoso() {
    let mut contract = Sistema::new(String::from("admin"), alice());

    ok(contract.registrar_usuario_impl(String::from("John"), String::from("Doe"), 25, 12345678, bob()));
    ok(contract.validar_usuario_impl(true, alice()));

    let inicio = Fecha::new(1, 1, 2024);
    let fin = Fecha::new(10, 1, 2024);
    ok(contract.crear_votacion_impl(1, String::from("Presidente"), inicio, fin, alice()));

    ok(contract.postularse_a_votacion_impl(Rol::Votante, 1, bob(), Fecha::new(1, 12, 2023).to_timestamp()));

    ok(contract.validar_votante_impl(true, alice(), Fecha::new(1, 12, 2023).to_timestamp()));

    assert!(contract.votaciones()[0].es_votante(bob()));
}

#[test]
#[should_panic(expected = "SOLO EL ADMINISTRADOR PUEDE VALIDAR VOTANTES")]
fn test_validar_votante_no_admin() {
    let mut contract = Sistema::new(String::from("admin"), alice());

    ok(contract.registrar_usuario_impl(String::from("John"), String::from("Doe"), 25, 12345678, bob()));
    ok(contract.validar_usuario_impl(true, alice()));

    let inicio = Fecha::new(1, 1, 2024);
    let fin = Fecha::new(10, 1, 2024);
    ok(contract.crear_votacion_impl(1, String::from("Presidente"), inicio, fin, alice()));

    ok(contract.postularse_a_votacion_impl(Rol::Votante, 1, bob(), Fecha::new(1, 12, 2023).to_timestamp()));

    ok(contract.validar_votante_impl(true, bob(), Fecha::new(1, 12, 2023).to_timestamp()));
}

#[test]
fn validar_votante_en_votacion_iniciada() {
    let mut contract = Sistema::new(String::from("admin"), alice());

    ok(contract.registrar_usuario_impl(String::from("John"), String::from("Doe"), 25, 12345678, bob()));
    ok(contract.validar_usuario_impl(true, alice()));

    ok(contract.crear_votacion_impl(1, "Presidente".to_string(), Fecha::new(5, 7, 2024), Fecha::new(1, 1, 2025), alice()));
    ok(contract.postularse_a_votacion_impl(Rol::Votante, 1, bob(), Fecha::new(1, 12, 2023).to_timestamp()));

    let futuro = Fecha::new(10, 7, 2024).to_timestamp();

    ok(contract.validar_votante_impl(true, alice(), futuro));

    assert!(contract.espera_candidatos().is_empty());
    assert!(contract.votaciones()[0].candidatos().is_empty());
}

/// A system run by alice with election 1 (5-7-2024 to 1-1-2025) and bob as an
/// approved user.
fn sistema_con_eleccion() -> Sistema {
    let mut contract = Sistema::new(String::from("admin"), alice());
    ok(contract.crear_votacion_impl(1, "Presidente".to_string(), Fecha::new(5, 7, 2024), Fecha::new(1, 1, 2025), alice()));
    contract
}

#[test]
#[should_panic(expected = "EL ADMINISTRADOR NO PUEDE VOTAR")]
fn votar_admin() {
    let mut contract = sistema_con_eleccion();
    ok(contract.votar_impl(1, 0, alice(), Fecha::new(6, 7, 2024).to_timestamp()));
}

#[test]
#[should_panic(expected = "USUARIO NO REGISTRADO/APROBADO")]
fn votar_usuario_no_registrado() {
    let mut contract = sistema_con_eleccion();
    ok(contract.votar_impl(1, 0, bob(), Fecha::new(6, 7, 2024).to_timestamp()));
}

#[test]
#[should_panic(expected = "NO EXISTE VOTACION DE ID: 0")]
fn votar_votacion_no_existente() {
    let mut contract = sistema_con_eleccion();
    ok(contract.registrar_usuario_impl(String::from("John"), String::from("Doe"), 25, 12345678, bob()));
    ok(contract.validar_usuario_impl(true, alice()));
    ok(contract.votar_impl(0, 0, bob(), Fecha::new(6, 7, 2024).to_timestamp()));
}

#[test]
#[should_panic(expected = "LA VOTACION TODAVIA NO INICIO")]
fn votar_votacion_no_comenzo() {
    let mut contract = sistema_con_eleccion();
    ok(contract.registrar_usuario_impl(String::from("John"), String::from("Doe"), 25, 12345678, bob()));
    ok(contract.validar_usuario_impl(true, alice()));
    ok(contract.votar_impl(1, 0, bob(), Fecha::new(4, 7, 2024).to_timestamp()));
}

#[test]
#[should_panic(expected = "LA VOTACION FINALIZO")]
fn votar_votacion_finalizo() {
    let mut contract = sistema_con_eleccion();
    ok(contract.registrar_usuario_impl(String::from("John"), String::from("Doe"), 25, 12345678, bob()));
    ok(contract.validar_usuario_impl(true, alice()));
    ok(contract.votar_impl(1, 0, bob(), Fecha::new(2, 1, 2025).to_timestamp()));
}

#[test]
#[should_panic(expected = "USUARIO NO POSTULADO/APROBADO COMO VOTANTE EN ESTA VOTACION")]
fn votar_sin_postularse() {
    let mut contract = sistema_con_eleccion();
    ok(contract.registrar_usuario_impl(String::from("John"), String::from("Doe"), 25, 12345678, bob()));
    ok(contract.validar_usuario_impl(true, alice()));
    ok(contract.votar_impl(1, 0, bob(), Fecha::new(6, 7, 2024).to_timestamp()));
}

#[test]
#[should_panic(expected = "USUARIO NO POSTULADO/APROBADO COMO VOTANTE EN ESTA VOTACION")]
fn votar_como_candidato() {
    let mut contract = sistema_con_eleccion();
    ok(contract.registrar_usuario_impl(String::from("John"), String::from("Doe"), 25, 12345678, bob()));
    ok(contract.validar_usuario_impl(true, alice()));
    ok(contract.postularse_a_votacion_impl(Rol::Candidato, 1, bob(), Fecha::new(4, 7, 2024).to_timestamp()));
    ok(contract.validar_candidato_impl(true, alice(), Fecha::new(4, 7, 2024).to_timestamp()));
    ok(contract.votar_impl(1, 0, bob(), Fecha::new(6, 7, 2024).to_timestamp()));
}

#[test]
#[should_panic(expected = "NO HAY CANDIDATOS POSTULADOS")]
fn votar_sin_candidatos() {
    let mut contract = sistema_con_eleccion();
    ok(contract.registrar_usuario_impl(String::from("John"), String::from("Doe"), 25, 12345678, bob()));
    ok(contract.validar_usuario_impl(true, alice()));
    ok(contract.postularse_a_votacion_impl(Rol::Votante, 1, bob(), Fecha::new(4, 7, 2024).to_timestamp()));
    ok(contract.validar_votante_impl(true, alice(), Fecha::new(4, 7, 2024).to_timestamp()));
    ok(contract.votar_impl(1, 1, bob(), Fecha::new(6, 7, 2024).to_timestamp()));
}

/// Election 1 with bob as voter and charlie as its only candidate.
fn sistema_con_candidato() -> Sistema {
    let mut contract = sistema_con_eleccion();
    ok(contract.registrar_usuario_impl(String::from("John"), String::from("Doe"), 25, 12345678, bob()));
    ok(contract.validar_usuario_impl(true, alice()));
    ok(contract.postularse_a_votacion_impl(Rol::Votante, 1, bob(), Fecha::new(4, 7, 2024).to_timestamp()));
    ok(contract.validar_votante_impl(true, alice(), Fecha::new(4, 7, 2024).to_timestamp()));

    ok(contract.registrar_usuario_impl(String::from("Juan"), String::from("Perez"), 23, 123455, charlie()));
    ok(contract.validar_usuario_impl(true, alice()));
    ok(contract.postularse_a_votacion_impl(Rol::Candidato, 1, charlie(), Fecha::new(4, 7, 2024).to_timestamp()));
    ok(contract.validar_candidato_impl(true, alice(), Fecha::new(4, 7, 2024).to_timestamp()));
    contract
}

#[test]
#[should_panic(expected = "OPCION INVALIDA")]
fn votar_candidato_invalido() {
    let mut contract = sistema_con_candidato();
    ok(contract.votar_impl(1, 2, bob(), Fecha::new(6, 7, 2024).to_timestamp()));
}

#[test]
fn votar_exitoso() {
    let mut contract = sistema_con_candidato();
    ok(contract.votar_impl(1, 1, bob(), Fecha::new(6, 7, 2024).to_timestamp()));

    assert_eq!(contract.votaciones()[0].votos(), &vec![(charlie(), 1)]);
}

#[test]
#[should_panic(expected = "USUARIO YA REALIZO SU VOTO")]
fn votar_dos_veces() {
    let mut contract = sistema_con_candidato();
    ok(contract.votar_impl(1, 1, bob(), Fecha::new(6, 7, 2024).to_timestamp()));
    ok(contract.votar_impl(1, 1, bob(), Fecha::new(6, 7, 2024).to_timestamp()));
}

// Edge cases of the requests and the laws on concrete values.

#[test]
fn votar_opcion_cero_es_invalida() {
    let mut contract = sistema_con_candidato();
    let r = contract.votar_impl(1, 0, bob(), Fecha::new(6, 7, 2024).to_timestamp());
    assert_eq!(r, Err(ErrorSistema::OpcionInvalida));
    assert!(contract.votaciones()[0].votaron().is_empty());
}

#[test]
fn votar_opcion_minima_no_hace_nada() {
    let mut contract = sistema_con_candidato();
    let r = contract.votar_impl(1, i32::MIN, bob(), Fecha::new(6, 7, 2024).to_timestamp());
    assert_eq!(r, Ok(()));
    assert!(contract.votaciones()[0].votaron().is_empty());
    assert_eq!(contract.votaciones()[0].votos(), &vec![(charlie(), 0)]);
}

#[test]
fn votar_registra_al_votante() {
    let mut contract = sistema_con_candidato();
    ok(contract.votar_impl(1, 1, bob(), Fecha::new(6, 7, 2024).to_timestamp()));
    assert_eq!(contract.votaciones()[0].votaron(), &vec![bob()]);
    assert!(contract.votaciones()[0].ya_voto(bob()));
    assert_eq!(contract.votaciones()[0].votos_emitidos(), 1);
}

#[test]
fn votar_en_el_ultimo_instante_antes_del_fin() {
    let mut contract = sistema_con_candidato();
    let fin = Fecha::new(1, 1, 2025).to_timestamp();
    ok(contract.votar_impl(1, 1, bob(), fin - 1));
    let mut otro = sistema_con_candidato();
    assert_eq!(otro.votar_impl(1, 1, bob(), fin), Err(ErrorSistema::VotacionFinalizo));
}

#[test]
fn rechazo_no_modifica_el_estado() {
    let mut contract = sistema_con_candidato();
    let antes_votos = contract.votaciones()[0].votos().clone();
    let r = contract.votar_impl(1, 5, bob(), Fecha::new(6, 7, 2024).to_timestamp());
    assert_eq!(r, Err(ErrorSistema::OpcionInvalida));
    assert_eq!(contract.votaciones()[0].votos(), &antes_votos);
    assert_eq!(contract.usuarios_reg().len(), 2);
}

#[test]
fn usuario_aprobado_queda_verificado() {
    let mut contract = Sistema::new(String::from("admin"), alice());
    ok(contract.registrar_usuario_impl(String::from("John"), String::from("Doe"), 25, 1, bob()));
    assert!(!contract.espera_usuarios()[0].verificado);
    ok(contract.validar_usuario_impl(true, alice()));
    assert!(contract.usuarios_reg()[0].verificado);
    assert_eq!(contract.usuarios_reg()[0].nombre, "John");
    assert_eq!(contract.usuarios_reg()[0].rol, None);
}

#[test]
fn validacion_atiende_al_mas_antiguo() {
    let mut contract = Sistema::new(String::from("admin"), alice());
    ok(contract.registrar_usuario_impl(String::from("A"), String::from("A"), 30, 1, bob()));
    ok(contract.registrar_usuario_impl(String::from("B"), String::from("B"), 30, 2, charlie()));
    ok(contract.validar_usuario_impl(false, alice()));
    assert_eq!(contract.espera_usuarios().len(), 1);
    assert_eq!(contract.espera_usuarios()[0].acc_id, charlie());
    assert_eq!(contract.usuarios_reg().len(), 0);
}

#[test]
fn crear_votacion_guarda_los_timestamps() {
    let mut contract = Sistema::new(String::from("admin"), alice());
    ok(contract.crear_votacion_impl(7, "Gobernador".to_string(), Fecha::new(5, 7, 2024), Fecha::new(1, 1, 2025), alice()));
    let v = contract.get_votacion(7).unwrap();
    assert_eq!(v.id(), 7);
    assert_eq!(v.fecha_inicio(), Fecha::new(5, 7, 2024).to_timestamp());
    assert_eq!(v.fecha_fin(), Fecha::new(1, 1, 2025).to_timestamp());
    assert!(contract.get_votacion(8).is_none());
}

#[test]
fn fecha_invalida_aun_para_no_admin() {
    let mut contract = Sistema::new(String::from("admin"), alice());
    let r = contract.crear_votacion_impl(1, "P".to_string(), Fecha::new(1, 1, 2024), Fecha::new(1, 1, 2024), bob());
    assert_eq!(r, Err(ErrorSistema::FechaInvalida));
}

#[test]
fn validar_sin_solicitudes_no_hace_nada() {
    let mut contract = sistema_con_eleccion();
    assert_eq!(contract.validar_candidato_impl(true, alice(), 0), Ok(()));
    assert_eq!(contract.validar_votante_impl(true, alice(), 0), Ok(()));
}

#[test]
fn rechazar_candidato_lo_quita_de_la_cola() {
    let mut contract = sistema_con_eleccion();
    ok(contract.registrar_usuario_impl(String::from("John"), String::from("Doe"), 25, 1, bob()));
    ok(contract.validar_usuario_impl(true, alice()));
    ok(contract.postularse_a_votacion_impl(Rol::Candidato, 1, bob(), 0));
    ok(contract.validar_candidato_impl(false, alice(), 0));
    assert!(contract.espera_candidatos().is_empty());
    assert!(contract.votaciones()[0].candidatos().is_empty());
    // rejected, the user may apply again
    ok(contract.postularse_a_votacion_impl(Rol::Votante, 1, bob(), 0));
    assert_eq!(contract.espera_votantes(), &vec![(bob(), 1)]);
}

#[test]
fn get_usuarios_copia_los_aprobados() {
    let mut contract = Sistema::new(String::from("admin"), alice());
    ok(contract.registrar_usuario_impl(String::from("John"), String::from("Doe"), 25, 1, bob()));
    ok(contract.validar_usuario_impl(true, alice()));
    let us = contract.get_usuarios();
    assert_eq!(us.len(), 1);
    assert_eq!(us[0].acc_id, bob());
    assert_eq!(contract.admin(), alice());
    assert_eq!(contract.nombre_administrador(), "admin");
}

#[test]
fn mensaje_con_identificador_negativo() {
    assert_eq!(ErrorSistema::VotacionInexistente(-42).mensaje(), "NO EXISTE VOTACION DE ID: -42");
    assert_eq!(ErrorSistema::VotacionInexistente(i32::MIN).mensaje(), "NO EXISTE VOTACION DE ID: -2147483648");
    assert_eq!(ErrorSistema::VotacionInexistente(1234567).mensaje(), "NO EXISTE VOTACION DE ID: 1234567");
    assert_eq!(ErrorSistema::YaVoto.mensaje(), "USUARIO YA REALIZO SU VOTO");
}
