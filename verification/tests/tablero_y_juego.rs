use ecosistema::juego::{bajar_probabilidad, subir_probabilidad, Accion, Juego, Pulsacion};
use ecosistema::modelo::{tablero_vacio, Entidad, EstadoJuego, Tablero, COLUMNAS, FILAS};
use ecosistema::recuento::{contar_totales, evaluar_final};
use ecosistema::tablero::{inicializar, inicializar_con_tiradas, paso, paso_con_tiradas, Tiradas};
use ecosistema::vecindad::contar_vecinos_especie;

fn tiradas(v: u32) -> Tiradas {
    [[v; COLUMNAS]; FILAS]
}

fn tablero_lleno(e: Entidad) -> Tablero {
    [[e; COLUMNAS]; FILAS]
}

fn celdas(t: &Tablero) -> Vec<Entidad> {
    t.iter().flat_map(|fila| fila.iter().copied()).collect()
}

#[test]
fn paso_tablero_vacio_sin_mutacion() {
    let t = tablero_vacio();
    let n = paso_con_tiradas(&t, &tiradas(99), 5);
    assert_eq!(n, tablero_vacio());
}

#[test]
fn paso_tablero_vacio_con_mutacion() {
    let t = tablero_vacio();
    let n = paso_con_tiradas(&t, &tiradas(4), 5);
    assert_eq!(n, tablero_lleno(Entidad::Misterio));
}

#[test]
fn paso_usa_el_tablero_anterior() {
    // Three rabbits in a row: the middle one has two rabbit neighbours and
    // survives; the ends have one and die; the cells beside the middle are born
    // from the old board, not from the cells already updated.
    let mut t = tablero_vacio();
    t[5][4] = Entidad::Conejo;
    t[5][5] = Entidad::Conejo;
    t[5][6] = Entidad::Conejo;
    let n = paso_con_tiradas(&t, &tiradas(99), 0);
    let mut esperado = tablero_vacio();
    esperado[4][4] = Entidad::Conejo;
    esperado[4][5] = Entidad::Conejo;
    esperado[4][6] = Entidad::Conejo;
    esperado[5][5] = Entidad::Conejo;
    esperado[6][4] = Entidad::Conejo;
    esperado[6][5] = Entidad::Conejo;
    esperado[6][6] = Entidad::Conejo;
    assert_eq!(n, esperado);
}

#[test]
fn paso_zorros_y_conejos() {
    let mut t = tablero_vacio();
    t[0][0] = Entidad::Zorro;
    t[0][1] = Entidad::Conejo;
    let n = paso_con_tiradas(&t, &tiradas(0), 0);
    // the fox has food and stays; the rabbit is eaten
    assert_eq!(n[0][0], Entidad::Zorro);
    assert_eq!(n[0][1], Entidad::Vacio);
}

#[test]
fn paso_misterios_duran_un_turno() {
    let t = tablero_lleno(Entidad::Misterio);
    let n = paso_con_tiradas(&t, &tiradas(0), 50);
    assert_eq!(n, tablero_lleno(Entidad::Zorro));
    let n = paso_con_tiradas(&t, &tiradas(9), 50);
    assert_eq!(n, tablero_vacio());
    let mut g = rand::rng();
    let n = paso(&t, &mut g, 50);
    assert!(celdas(&n).iter().all(|e| *e != Entidad::Misterio));
}

#[test]
fn paso_sin_probabilidad_de_mutacion() {
    let mut g = rand::rng();
    let t = tablero_vacio();
    for _ in 0..20 {
        let n = paso(&t, &mut g, 0);
        assert_eq!(n, tablero_vacio());
    }
}

#[test]
fn paso_localidad() {
    let mut t1 = tablero_vacio();
    t1[3][3] = Entidad::Conejo;
    t1[3][4] = Entidad::Conejo;
    let mut t2 = t1;
    t2[10][10] = Entidad::Zorro;
    let n1 = paso_con_tiradas(&t1, &tiradas(7), 5);
    let n2 = paso_con_tiradas(&t2, &tiradas(7), 5);
    assert_eq!(n1[3][3], n2[3][3]);
    assert_eq!(n1[2][4], n2[2][4]);
}

#[test]
fn inicio_por_umbrales() {
    let mut r = tiradas(0);
    r[0][0] = 14;
    r[0][1] = 15;
    r[0][2] = 29;
    r[0][3] = 30;
    r[0][4] = 99;
    let t = inicializar_con_tiradas(&r, 15, 15);
    assert_eq!(t[0][0], Entidad::Zorro);
    assert_eq!(t[0][1], Entidad::Conejo);
    assert_eq!(t[0][2], Entidad::Conejo);
    assert_eq!(t[0][3], Entidad::Vacio);
    assert_eq!(t[0][4], Entidad::Vacio);
    assert_eq!(t[1][0], Entidad::Zorro);
}

#[test]
fn inicio_al_azar_extremos() {
    let mut g = rand::rng();
    assert_eq!(inicializar(&mut g, 100, 0), tablero_lleno(Entidad::Zorro));
    assert_eq!(inicializar(&mut g, 0, 100), tablero_lleno(Entidad::Conejo));
    assert_eq!(inicializar(&mut g, 0, 0), tablero_vacio());
    let t = inicializar(&mut g, 50, 50);
    assert!(celdas(&t).iter().all(|e| *e == Entidad::Zorro || *e == Entidad::Conejo));
}

#[test]
fn inicio_sin_misterios() {
    let mut g = rand::rng();
    let t = inicializar(&mut g, 30, 40);
    assert!(celdas(&t).iter().all(|e| *e != Entidad::Misterio));
}

#[test]
fn totales_del_tablero() {
    let mut t = tablero_vacio();
    t[0][0] = Entidad::Zorro;
    t[15][19] = Entidad::Zorro;
    t[7][7] = Entidad::Conejo;
    t[8][8] = Entidad::Misterio;
    assert_eq!(contar_totales(&t), (2, 1, 1));
    assert_eq!(contar_totales(&tablero_lleno(Entidad::Conejo)), (0, 320, 0));
}

#[test]
fn totales_suman_las_celdas() {
    let mut g = rand::rng();
    let t = paso(&inicializar(&mut g, 20, 30), &mut g, 10);
    let (z, c, m) = contar_totales(&t);
    let vacias = celdas(&t).iter().filter(|e| **e == Entidad::Vacio).count() as i32;
    assert_eq!(z + c + m + vacias, 320);
}

#[test]
fn vecinos_nunca_pasan_de_ocho() {
    let mut g = rand::rng();
    let t = inicializar(&mut g, 50, 50);
    for f in 0..FILAS {
        for c in 0..COLUMNAS {
            let (z, k) = contar_vecinos_especie(&t, f, c);
            assert_eq!(z + k, 8);
        }
    }
}

#[test]
fn final_de_partida() {
    assert_eq!(evaluar_final(0, 3), EstadoJuego::VictoriaConejos);
    assert_eq!(evaluar_final(4, 0), EstadoJuego::VictoriaZorros);
    assert_eq!(evaluar_final(0, 0), EstadoJuego::ExtincionMutua);
    assert_eq!(evaluar_final(1, 1), EstadoJuego::Simulando);
}

#[test]
fn controles_de_densidad() {
    assert_eq!(subir_probabilidad(15), 20);
    assert_eq!(subir_probabilidad(45), 50);
    assert_eq!(subir_probabilidad(48), 50);
    assert_eq!(subir_probabilidad(50), 50);
    assert_eq!(bajar_probabilidad(15), 10);
    assert_eq!(bajar_probabilidad(3), 0);
    assert_eq!(bajar_probabilidad(0), 0);
    assert_eq!(bajar_probabilidad(subir_probabilidad(30)), 30);
    assert_eq!(subir_probabilidad(bajar_probabilidad(30)), 30);
}

#[test]
fn juego_nuevo() {
    let j = Juego::nuevo();
    assert_eq!(j.estado(), EstadoJuego::Menu);
    assert_eq!(j.densidades(), (15, 15, 5));
    assert_eq!(j.tablero(), tablero_vacio());
    assert_eq!(j.totales(), (0, 0, 0));
}

#[test]
fn juego_controles_del_menu() {
    let mut j = Juego::nuevo();
    let r = tiradas(0);
    assert_eq!(j.pulsar_con_tiradas(Pulsacion::MasZorros, &r), Accion::Ninguna);
    assert_eq!(j.pulsar_con_tiradas(Pulsacion::MenosConejos, &r), Accion::Ninguna);
    assert_eq!(j.pulsar_con_tiradas(Pulsacion::MenosMutacion, &r), Accion::Ninguna);
    assert_eq!(j.pulsar_con_tiradas(Pulsacion::MenosMutacion, &r), Accion::Ninguna);
    assert_eq!(j.densidades(), (20, 10, 0));
    for _ in 0..20 {
        j.pulsar_con_tiradas(Pulsacion::MasMutacion, &r);
    }
    assert_eq!(j.densidades(), (20, 10, 50));
    // buttons of other screens do nothing on the menu
    assert_eq!(j.pulsar_con_tiradas(Pulsacion::Salir, &r), Accion::Ninguna);
    assert_eq!(j.pulsar_con_tiradas(Pulsacion::SeguirSimulando, &r), Accion::Ninguna);
    assert_eq!(j.estado(), EstadoJuego::Menu);
}

#[test]
fn juego_partida_completa() {
    let mut j = Juego::nuevo();
    // roll 0 < 15: every cell starts as a fox
    assert_eq!(j.pulsar_con_tiradas(Pulsacion::Iniciar, &tiradas(0)), Accion::Ninguna);
    assert_eq!(j.estado(), EstadoJuego::Simulando);
    assert_eq!(j.tablero(), tablero_lleno(Entidad::Zorro));
    // the menu controls do nothing while simulating
    j.pulsar_con_tiradas(Pulsacion::MasZorros, &tiradas(0));
    assert_eq!(j.densidades(), (15, 15, 5));
    // every fox has eight fox neighbours and dies of overcrowding
    assert_eq!(j.turno_con_tiradas(&tiradas(99)), Accion::SonarVictoria);
    assert_eq!(j.estado(), EstadoJuego::ExtincionMutua);
    assert_eq!(j.totales(), (0, 0, 0));
    // a finished game ignores turns
    assert_eq!(j.turno_con_tiradas(&tiradas(0)), Accion::Ninguna);
    assert_eq!(j.estado(), EstadoJuego::ExtincionMutua);
    assert_eq!(j.pulsar_con_tiradas(Pulsacion::Salir, &tiradas(0)), Accion::Salir);
    assert_eq!(j.estado(), EstadoJuego::ExtincionMutua);
    assert_eq!(
        j.pulsar_con_tiradas(Pulsacion::SeguirSimulando, &tiradas(0)),
        Accion::VolverAMusicaIntro
    );
    assert_eq!(j.estado(), EstadoJuego::Menu);
}

#[test]
fn juego_victoria_de_los_conejos() {
    let mut j = Juego::nuevo();
    // 15 <= roll 20 < 30: every cell starts as a rabbit
    j.pulsar_con_tiradas(Pulsacion::Iniciar, &tiradas(20));
    assert_eq!(j.tablero(), tablero_lleno(Entidad::Conejo));
    // eight rabbit neighbours: every rabbit dies, no fox is left
    assert_eq!(j.turno_con_tiradas(&tiradas(99)), Accion::SonarVictoria);
    assert_eq!(j.estado(), EstadoJuego::ExtincionMutua);

    let mut j = Juego::nuevo();
    let mut r = tiradas(99);
    r[0][0] = 20;
    r[0][1] = 20;
    r[1][0] = 20;
    r[1][1] = 20;
    j.pulsar_con_tiradas(Pulsacion::Iniciar, &r);
    // each rabbit of a 2x2 block has three rabbit neighbours and lives; the
    // eight cells along its sides have two and a rabbit is born there
    assert_eq!(j.turno_con_tiradas(&tiradas(99)), Accion::SonarVictoria);
    assert_eq!(j.estado(), EstadoJuego::VictoriaConejos);
    assert_eq!(j.totales(), (0, 12, 0));
}

#[test]
fn juego_sigue_mientras_hay_dos_especies() {
    let mut j = Juego::nuevo();
    let mut r = tiradas(99);
    r[0][0] = 0; // fox
    r[0][1] = 20; // rabbit, will be eaten
    r[5][5] = 20;
    r[5][6] = 20;
    r[6][5] = 20;
    r[6][6] = 20; // a block of rabbits that grows
    j.pulsar_con_tiradas(Pulsacion::Iniciar, &r);
    assert_eq!(j.turno_con_tiradas(&tiradas(99)), Accion::Ninguna);
    assert_eq!(j.estado(), EstadoJuego::Simulando);
    assert_eq!(j.totales(), (1, 12, 0));
    assert_eq!(j.pulsar_con_tiradas(Pulsacion::VolverAlMenu, &r), Accion::VolverAMusicaIntro);
    assert_eq!(j.estado(), EstadoJuego::Menu);
}

#[test]
fn juego_al_azar() {
    let mut g = rand::rng();
    let mut j = Juego::nuevo();
    assert_eq!(j.pulsar(Pulsacion::MasZorros, &mut g), Accion::Ninguna);
    assert_eq!(j.pulsar(Pulsacion::Iniciar, &mut g), Accion::Ninguna);
    assert_eq!(j.estado(), EstadoJuego::Simulando);
    assert!(celdas(&j.tablero()).iter().all(|e| *e != Entidad::Misterio));
    let mut turnos = 0;
    while j.estado() == EstadoJuego::Simulando && turnos < 200 {
        let a = j.turno(&mut g);
        let (z, c, _) = j.totales();
        if j.estado() == EstadoJuego::Simulando {
            assert_eq!(a, Accion::Ninguna);
            assert!(z > 0 && c > 0);
        } else {
            assert_eq!(a, Accion::SonarVictoria);
        }
        turnos += 1;
    }
}

#[test]
fn doble_conteo_de_vecinos() {
    let mut g = rand::rng();
    for _ in 0..5 {
        let t = paso(&inicializar(&mut g, 20, 30), &mut g, 10);
        let (mut suma_z, mut suma_c) = (0, 0);
        for f in 0..FILAS {
            for c in 0..COLUMNAS {
                let (z, k) = contar_vecinos_especie(&t, f, c);
                suma_z += z;
                suma_c += k;
            }
        }
        let (z, c, _) = contar_totales(&t);
        assert_eq!(suma_z, 8 * z);
        assert_eq!(suma_c, 8 * c);
    }
    let mut t = tablero_vacio();
    t[0][0] = Entidad::Zorro;
    t[15][19] = Entidad::Conejo;
    let mut suma_z = 0;
    for f in 0..FILAS {
        for c in 0..COLUMNAS {
            suma_z += contar_vecinos_especie(&t, f, c).0;
        }
    }
    assert_eq!(suma_z, 8);
}
