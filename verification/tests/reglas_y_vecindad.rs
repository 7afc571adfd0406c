use ecosistema::modelo::{tablero_vacio, Entidad, Tablero, COLUMNAS, FILAS};
use ecosistema::reglas::{cota_tirada, siguiente_celda};
use ecosistema::vecindad::contar_vecinos_especie;

fn tablero_lleno(e: Entidad) -> Tablero {
    [[e; COLUMNAS]; FILAS]
}

#[test]
fn vecinos_en_tablero_vacio() {
    let t = tablero_vacio();
    assert_eq!(contar_vecinos_especie(&t, 5, 5), (0, 0));
}

#[test]
fn vecinos_cruzan_los_bordes() {
    let mut t = tablero_vacio();
    t[FILAS - 1][COLUMNAS - 1] = Entidad::Zorro;
    t[1][0] = Entidad::Conejo;
    t[0][1] = Entidad::Conejo;
    t[0][0] = Entidad::Zorro; // the cell itself is not counted
    assert_eq!(contar_vecinos_especie(&t, 0, 0), (1, 2));
    // from the opposite corner, (0, 0) is a neighbour again
    assert_eq!(contar_vecinos_especie(&t, FILAS - 1, COLUMNAS - 1), (1, 0));
}

#[test]
fn vecinos_en_tablero_lleno_son_ocho() {
    let t = tablero_lleno(Entidad::Zorro);
    assert_eq!(contar_vecinos_especie(&t, 7, 3), (8, 0));
    let t = tablero_lleno(Entidad::Conejo);
    assert_eq!(contar_vecinos_especie(&t, 0, 19), (0, 8));
    let t = tablero_lleno(Entidad::Misterio);
    assert_eq!(contar_vecinos_especie(&t, 0, 19), (0, 0));
}

#[test]
fn vecinos_cuentan_solo_el_bloque() {
    let mut t = tablero_vacio();
    t[2][2] = Entidad::Zorro; // two rows away from row 4
    t[3][3] = Entidad::Zorro;
    t[5][5] = Entidad::Conejo;
    assert_eq!(contar_vecinos_especie(&t, 4, 4), (1, 1));
}

#[test]
fn zorro_aislado_o_hacinado_muere() {
    assert_eq!(siguiente_celda(Entidad::Zorro, 0, 0, 99, 0), Entidad::Vacio);
    assert_eq!(siguiente_celda(Entidad::Zorro, 3, 2, 99, 0), Entidad::Vacio);
    assert_eq!(siguiente_celda(Entidad::Zorro, 8, 0, 99, 0), Entidad::Vacio);
}

#[test]
fn zorro_sin_comida_puede_morir_de_hambre() {
    assert_eq!(siguiente_celda(Entidad::Zorro, 1, 0, 49, 0), Entidad::Vacio);
    assert_eq!(siguiente_celda(Entidad::Zorro, 1, 0, 50, 0), Entidad::Zorro);
    assert_eq!(siguiente_celda(Entidad::Zorro, 2, 0, 0, 0), Entidad::Vacio);
    assert_eq!(cota_tirada(Entidad::Zorro, 1, 0), 100);
}

#[test]
fn zorro_con_comida_sobrevive() {
    assert_eq!(siguiente_celda(Entidad::Zorro, 0, 1, 0, 0), Entidad::Zorro);
    assert_eq!(siguiente_celda(Entidad::Zorro, 2, 5, 0, 0), Entidad::Zorro);
    assert_eq!(cota_tirada(Entidad::Zorro, 2, 5), 0);
}

#[test]
fn conejo_devorado_o_sobrevive() {
    assert_eq!(siguiente_celda(Entidad::Conejo, 1, 3, 0, 0), Entidad::Vacio);
    assert_eq!(siguiente_celda(Entidad::Conejo, 0, 2, 0, 0), Entidad::Conejo);
    assert_eq!(siguiente_celda(Entidad::Conejo, 0, 3, 0, 0), Entidad::Conejo);
    assert_eq!(siguiente_celda(Entidad::Conejo, 0, 1, 0, 0), Entidad::Vacio);
    assert_eq!(siguiente_celda(Entidad::Conejo, 0, 4, 0, 0), Entidad::Vacio);
    assert_eq!(cota_tirada(Entidad::Conejo, 0, 4), 0);
}

#[test]
fn nacimientos_en_celdas_vacias() {
    assert_eq!(siguiente_celda(Entidad::Vacio, 2, 1, 0, 50), Entidad::Zorro);
    assert_eq!(siguiente_celda(Entidad::Vacio, 0, 2, 0, 50), Entidad::Conejo);
    assert_eq!(cota_tirada(Entidad::Vacio, 2, 1), 0);
    assert_eq!(cota_tirada(Entidad::Vacio, 0, 2), 0);
}

#[test]
fn mutacion_en_celdas_vacias() {
    assert_eq!(siguiente_celda(Entidad::Vacio, 1, 1, 4, 5), Entidad::Misterio);
    assert_eq!(siguiente_celda(Entidad::Vacio, 1, 1, 5, 5), Entidad::Vacio);
    assert_eq!(siguiente_celda(Entidad::Vacio, 0, 0, 0, 0), Entidad::Vacio);
    assert_eq!(cota_tirada(Entidad::Vacio, 1, 1), 100);
}

#[test]
fn misterio_se_resuelve() {
    assert_eq!(siguiente_celda(Entidad::Misterio, 0, 0, 2, 0), Entidad::Zorro);
    assert_eq!(siguiente_celda(Entidad::Misterio, 0, 0, 3, 0), Entidad::Conejo);
    assert_eq!(siguiente_celda(Entidad::Misterio, 0, 0, 5, 0), Entidad::Conejo);
    assert_eq!(siguiente_celda(Entidad::Misterio, 0, 0, 6, 0), Entidad::Vacio);
    assert_eq!(cota_tirada(Entidad::Misterio, 4, 4), 10);
}
