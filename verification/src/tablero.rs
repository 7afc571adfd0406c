use vstd::prelude::*;
use rand::rngs::ThreadRng;
use crate::azar::tirar;
use crate::modelo::{celda, columna_envuelta, fila_envuelta, Entidad, Tablero, COLUMNAS, FILAS};
use crate::reglas::{cota_de_tirada, cota_tirada, regla_celda, siguiente_celda};
use crate::vecindad::{contar_vecinos_especie, ley_vecinos_locales, mismo_entorno, vecinos};

verus! {

broadcast use vstd::array::group_array_axioms;

/// One number per cell of the board: the rolls that decide a turn or a start.
pub type Tiradas = [[u32; COLUMNAS]; FILAS];

/// The roll stored for row `f`, column `c`.
pub open spec fn tirada_en(t: Tiradas, f: int, c: int) -> u32 {
    t[f][c]
}

/// What cell `(f, c)` becomes in the next turn when the roll drawn for it is
/// `tirada`: the rules applied to the cell and to its neighbours in the current
/// board (every cell is updated from the same board).
pub open spec fn sucesor_celda(t: Tablero, f: int, c: int, tirada: int, prob_mutacion: int) -> Entidad {
    regla_celda(
        celda(t, f, c),
        vecinos(t, f, c, Entidad::Zorro) as int,
        vecinos(t, f, c, Entidad::Conejo) as int,
        tirada,
        prob_mutacion,
    )
}

/// The number of outcomes of the roll that cell `(f, c)` needs this turn.
pub open spec fn cota_celda(t: Tablero, f: int, c: int) -> int {
    cota_de_tirada(
        celda(t, f, c),
        vecinos(t, f, c, Entidad::Zorro) as int,
        vecinos(t, f, c, Entidad::Conejo) as int,
    )
}

/// A roll that the cell may have drawn: below its bound, and 0 where none is drawn.
pub open spec fn tirada_admisible(t: Tablero, f: int, c: int, x: int) -> bool {
    &&& 0 <= x
    &&& (x < cota_celda(t, f, c) || x == 0)
}

/// Cell `(f, c)` of `nuevo` is one of the outcomes that the rules allow for it.
pub open spec fn celda_posible(t: Tablero, nuevo: Tablero, f: int, c: int, prob_mutacion: int) -> bool {
    exists|x: int|
        tirada_admisible(t, f, c, x) && celda(nuevo, f, c) == #[trigger] sucesor_celda(
            t,
            f,
            c,
            x,
            prob_mutacion,
        )
}

/// `nuevo` is a board that one turn can produce from `t`.
pub open spec fn sucesor_posible(t: Tablero, nuevo: Tablero, prob_mutacion: int) -> bool {
    forall|f: int, c: int|
        0 <= f < FILAS && 0 <= c < COLUMNAS ==> #[trigger] celda_posible(
            t,
            nuevo,
            f,
            c,
            prob_mutacion,
        )
}

/// Computes the next board from the current one and one roll per cell.
pub fn paso_con_tiradas(tablero: &Tablero, tiradas: &Tiradas, prob_mutacion: u32) -> (r: Tablero)
    ensures
        forall|f: int, c: int|
            0 <= f < FILAS && 0 <= c < COLUMNAS ==> #[trigger] celda(r, f, c) == sucesor_celda(
                *tablero,
                f,
                c,
                tirada_en(*tiradas, f, c) as int,
                prob_mutacion as int,
            ),
{
    let mut siguiente = *tablero;
    let mut f: usize = 0;
    while f < FILAS
        invariant
            f <= FILAS,
            forall|f2: int, c: int|
                0 <= f2 < f && 0 <= c < COLUMNAS ==> #[trigger] celda(siguiente, f2, c)
                    == sucesor_celda(
                    *tablero,
                    f2,
                    c,
                    tirada_en(*tiradas, f2, c) as int,
                    prob_mutacion as int,
                ),
        decreases FILAS - f,
    {
        let mut c: usize = 0;
        while c < COLUMNAS
            invariant
                f < FILAS,
                c <= COLUMNAS,
                forall|f2: int, c2: int|
                    (0 <= f2 < f && 0 <= c2 < COLUMNAS) || (f2 == f && 0 <= c2 < c)
                        ==> #[trigger] celda(siguiente, f2, c2) == sucesor_celda(
                        *tablero,
                        f2,
                        c2,
                        tirada_en(*tiradas, f2, c2) as int,
                        prob_mutacion as int,
                    ),
            decreases COLUMNAS - c,
        {
            let (vz, vc) = contar_vecinos_especie(tablero, f, c);
            let nueva = siguiente_celda(tablero[f][c], vz, vc, tiradas[f][c], prob_mutacion);
            let ghost antes = siguiente;
            siguiente[f][c] = nueva;
            assert(forall|f2: int, c2: int|
                0 <= f2 < FILAS && 0 <= c2 < COLUMNAS && !(f2 == f && c2 == c) ==> #[trigger] celda(siguiente, f2, c2) == celda(antes, f2, c2));
            assert(celda(siguiente, f as int, c as int) == nueva);
            c += 1;
        }
        f += 1;
    }
    siguiente
}

/// Draws, cell by cell in row-major order, the roll that each cell of `tablero`
/// needs this turn; a cell whose fate is certain gets 0 and draws nothing.
fn tiradas_de_turno(tablero: &Tablero, generador: &mut ThreadRng) -> (r: Tiradas)
    ensures
        forall|f: int, c: int|
            0 <= f < FILAS && 0 <= c < COLUMNAS ==> tirada_admisible(
                *tablero,
                f,
                c,
                #[trigger] tirada_en(r, f, c) as int,
            ),
{
    let mut tiradas: Tiradas = [[0u32; COLUMNAS]; FILAS];
    let mut f: usize = 0;
    while f < FILAS
        invariant
            f <= FILAS,
            forall|f2: int, c: int|
                0 <= f2 < f && 0 <= c < COLUMNAS ==> tirada_admisible(
                    *tablero,
                    f2,
                    c,
                    #[trigger] tirada_en(tiradas, f2, c) as int,
                ),
        decreases FILAS - f,
    {
        let mut c: usize = 0;
        while c < COLUMNAS
            invariant
                f < FILAS,
                c <= COLUMNAS,
                forall|f2: int, c2: int|
                    (0 <= f2 < f && 0 <= c2 < COLUMNAS) || (f2 == f && 0 <= c2 < c)
                        ==> tirada_admisible(
                        *tablero,
                        f2,
                        c2,
                        #[trigger] tirada_en(tiradas, f2, c2) as int,
                    ),
            decreases COLUMNAS - c,
        {
            let (vz, vc) = contar_vecinos_especie(tablero, f, c);
            let cota = cota_tirada(tablero[f][c], vz, vc);
            let tirada = if cota > 0 {
                tirar(generador, cota)
            } else {
                0
            };
            let ghost antes = tiradas;
            tiradas[f][c] = tirada;
            assert(forall|f2: int, c2: int|
                0 <= f2 < FILAS && 0 <= c2 < COLUMNAS && !(f2 == f && c2 == c)
                    ==> #[trigger] tirada_en(tiradas, f2, c2) == tirada_en(antes, f2, c2));
            c += 1;
        }
        f += 1;
    }
    tiradas
}

/// Computes the next board, drawing from `generador` the rolls that the rules
/// need. Whatever the rolls, every cell of the result is an outcome that the
/// rules allow for it.
pub fn paso(tablero: &Tablero, generador: &mut ThreadRng, prob_mutacion: u32) -> (r: Tablero)
    ensures
        sucesor_posible(*tablero, r, prob_mutacion as int),
{
    let tiradas = tiradas_de_turno(tablero, generador);
    let r = paso_con_tiradas(tablero, &tiradas, prob_mutacion);
    assert forall|f: int, c: int| 0 <= f < FILAS && 0 <= c < COLUMNAS implies #[trigger] celda_posible(
        *tablero,
        r,
        f,
        c,
        prob_mutacion as int,
    ) by {
        let x = tirada_en(tiradas, f, c) as int;
        assert(tirada_admisible(*tablero, f, c, x));
        assert(celda(r, f, c) == sucesor_celda(*tablero, f, c, x, prob_mutacion as int));
    }
    r
}

/// What a cell holds at the start when its roll (out of 100) is `valor`: a fox
/// below `prob_zorros`, a rabbit below `prob_zorros + prob_conejos`, else nothing.
pub open spec fn celda_inicial(valor: int, prob_zorros: int, prob_conejos: int) -> Entidad {
    if valor < prob_zorros {
        Entidad::Zorro
    } else if valor < prob_zorros + prob_conejos {
        Entidad::Conejo
    } else {
        Entidad::Vacio
    }
}

/// `t` is a board that a start with these densities (in percent) can produce.
pub open spec fn inicial_posible(t: Tablero, prob_zorros: int, prob_conejos: int) -> bool {
    forall|f: int, c: int|
        0 <= f < FILAS && 0 <= c < COLUMNAS ==> exists|x: int|
            0 <= x < 100 && #[trigger] celda(t, f, c) == celda_inicial(x, prob_zorros, prob_conejos)
}

/// Fills a board from one roll (out of 100) per cell.
pub fn inicializar_con_tiradas(tiradas: &Tiradas, prob_zorros: u32, prob_conejos: u32) -> (r: Tablero)
    requires
        prob_zorros + prob_conejos <= u32::MAX,
    ensures
        forall|f: int, c: int|
            0 <= f < FILAS && 0 <= c < COLUMNAS ==> #[trigger] celda(r, f, c) == celda_inicial(
                tirada_en(*tiradas, f, c) as int,
                prob_zorros as int,
                prob_conejos as int,
            ),
{
    let mut tablero: Tablero = [[Entidad::Vacio; COLUMNAS]; FILAS];
    let mut f: usize = 0;
    while f < FILAS
        invariant
            f <= FILAS,
            prob_zorros + prob_conejos <= u32::MAX,
            forall|f2: int, c: int|
                0 <= f2 < f && 0 <= c < COLUMNAS ==> #[trigger] celda(tablero, f2, c)
                    == celda_inicial(tirada_en(*tiradas, f2, c) as int, prob_zorros as int, prob_conejos as int),
        decreases FILAS - f,
    {
        let mut c: usize = 0;
        while c < COLUMNAS
            invariant
                f < FILAS,
                c <= COLUMNAS,
                prob_zorros + prob_conejos <= u32::MAX,
                forall|f2: int, c2: int|
                    (0 <= f2 < f && 0 <= c2 < COLUMNAS) || (f2 == f && 0 <= c2 < c)
                        ==> #[trigger] celda(tablero, f2, c2) == celda_inicial(
                        tirada_en(*tiradas, f2, c2) as int,
                        prob_zorros as int,
                        prob_conejos as int,
                    ),
            decreases COLUMNAS - c,
        {
            let valor = tiradas[f][c];
            let ghost antes = tablero;
            if valor < prob_zorros {
                tablero[f][c] = Entidad::Zorro;
            } else if valor < prob_zorros + prob_conejos {
                tablero[f][c] = Entidad::Conejo;
            } else {
                tablero[f][c] = Entidad::Vacio;
            }
            assert(forall|f2: int, c2: int|
                0 <= f2 < FILAS && 0 <= c2 < COLUMNAS && !(f2 == f && c2 == c)
                    ==> #[trigger] celda(tablero, f2, c2) == celda(antes, f2, c2));
            c += 1;
        }
        f += 1;
    }
    tablero
}

/// Draws one roll out of 100 per cell, in row-major order.
fn tiradas_de_inicio(generador: &mut ThreadRng) -> (r: Tiradas)
    ensures
        forall|f: int, c: int|
            0 <= f < FILAS && 0 <= c < COLUMNAS ==> #[trigger] tirada_en(r, f, c) < 100,
{
    let mut tiradas: Tiradas = [[0u32; COLUMNAS]; FILAS];
    let mut f: usize = 0;
    while f < FILAS
        invariant
            f <= FILAS,
            forall|f2: int, c: int|
                0 <= f2 < f && 0 <= c < COLUMNAS ==> #[trigger] tirada_en(tiradas, f2, c) < 100,
        decreases FILAS - f,
    {
        let mut c: usize = 0;
        while c < COLUMNAS
            invariant
                f < FILAS,
                c <= COLUMNAS,
                forall|f2: int, c2: int|
                    (0 <= f2 < f && 0 <= c2 < COLUMNAS) || (f2 == f && 0 <= c2 < c)
                        ==> #[trigger] tirada_en(tiradas, f2, c2) < 100,
            decreases COLUMNAS - c,
        {
            let valor = tirar(generador, 100);
            let ghost antes = tiradas;
            tiradas[f][c] = valor;
            assert(forall|f2: int, c2: int|
                0 <= f2 < FILAS && 0 <= c2 < COLUMNAS && !(f2 == f && c2 == c)
                    ==> #[trigger] tirada_en(tiradas, f2, c2) == tirada_en(antes, f2, c2));
            c += 1;
        }
        f += 1;
    }
    tiradas
}

/// Fills a board at random with the given densities (in percent), drawing one
/// roll out of 100 per cell from `generador`.
pub fn inicializar(generador: &mut ThreadRng, prob_zorros: u32, prob_conejos: u32) -> (r: Tablero)
    requires
        prob_zorros + prob_conejos <= u32::MAX,
    ensures
        inicial_posible(r, prob_zorros as int, prob_conejos as int),
{
    let tiradas = tiradas_de_inicio(generador);
    let r = inicializar_con_tiradas(&tiradas, prob_zorros, prob_conejos);
    assert forall|f: int, c: int| 0 <= f < FILAS && 0 <= c < COLUMNAS implies exists|x: int|
        0 <= x < 100 && #[trigger] celda(r, f, c) == celda_inicial(x, prob_zorros as int, prob_conejos as int) by {
        let x = tirada_en(tiradas, f, c) as int;
        assert(0 <= x < 100 && celda(r, f, c) == celda_inicial(x, prob_zorros as int, prob_conejos as int));
    }
    r
}

/// A fresh board holds no mutation; with a zero density a species is absent.
pub proof fn ley_inicio(t: Tablero, prob_zorros: int, prob_conejos: int, f: int, c: int)
    requires
        inicial_posible(t, prob_zorros, prob_conejos),
        0 <= f < FILAS,
        0 <= c < COLUMNAS,
        prob_zorros >= 0,
        prob_conejos >= 0,
    ensures
        celda(t, f, c) != Entidad::Misterio,
        prob_zorros == 0 ==> celda(t, f, c) != Entidad::Zorro,
        prob_conejos == 0 ==> celda(t, f, c) != Entidad::Conejo,
        prob_zorros >= 100 ==> celda(t, f, c) == Entidad::Zorro,
{
    let x = choose|x: int| 0 <= x < 100 && celda(t, f, c) == celda_inicial(x, prob_zorros, prob_conejos);
}

/// After a turn, no cell that held a mutation still holds one, and a new mutation
/// appears only on a cell that was empty.
pub proof fn ley_misterios_de_un_turno(t: Tablero, nuevo: Tablero, prob_mutacion: int, f: int, c: int)
    requires
        sucesor_posible(t, nuevo, prob_mutacion),
        0 <= f < FILAS,
        0 <= c < COLUMNAS,
    ensures
        celda(t, f, c) == Entidad::Misterio ==> celda(nuevo, f, c) != Entidad::Misterio,
        celda(nuevo, f, c) == Entidad::Misterio ==> celda(t, f, c) == Entidad::Vacio,
{
    assert(celda_posible(t, nuevo, f, c, prob_mutacion));
}

/// With the mutation chance at zero, a turn leaves no mutation on the board.
pub proof fn ley_sin_mutaciones(t: Tablero, nuevo: Tablero, f: int, c: int)
    requires
        sucesor_posible(t, nuevo, 0),
        0 <= f < FILAS,
        0 <= c < COLUMNAS,
    ensures
        celda(nuevo, f, c) != Entidad::Misterio,
{
    assert(celda_posible(t, nuevo, f, c, 0));
}

/// A cell's next state depends only on its 3×3 block of the current board and
/// on its roll: two boards that agree there give it the same next state.
pub proof fn ley_localidad(t1: Tablero, t2: Tablero, f: int, c: int, tirada: int, prob_mutacion: int)
    requires
        mismo_entorno(t1, t2, f, c),
        0 <= f < FILAS,
        0 <= c < COLUMNAS,
    ensures
        sucesor_celda(t1, f, c, tirada, prob_mutacion) == sucesor_celda(t2, f, c, tirada, prob_mutacion),
{
    ley_vecinos_locales(t1, t2, f, c, Entidad::Zorro);
    ley_vecinos_locales(t1, t2, f, c, Entidad::Conejo);
    assert(celda(t1, fila_envuelta(f + 4int / 3 - 1), columna_envuelta(c + 4int % 3 - 1))
        == celda(t2, fila_envuelta(f + 4int / 3 - 1), columna_envuelta(c + 4int % 3 - 1)));
}

/// A start cell is a fox exactly when its roll is below the fox density, a rabbit
/// exactly when its roll falls in the band of width `prob_conejos` just above
/// that, and empty exactly when its roll is at or above the two densities
/// together; so of the rolls `0..100`, `prob_zorros` give foxes and, within the
/// rest, `prob_conejos` give rabbits.
pub proof fn ley_celda_inicial(x: int, prob_zorros: int, prob_conejos: int)
    requires
        prob_zorros >= 0,
        prob_conejos >= 0,
    ensures
        celda_inicial(x, prob_zorros, prob_conejos) == Entidad::Zorro <==> x < prob_zorros,
        celda_inicial(x, prob_zorros, prob_conejos) == Entidad::Conejo <==> (prob_zorros <= x
            < prob_zorros + prob_conejos),
        celda_inicial(x, prob_zorros, prob_conejos) == Entidad::Vacio <==> x >= prob_zorros
            + prob_conejos,
{
}

/// On a random start board, a fox stands only where the fox density is above
/// zero, a rabbit only where the rabbit density is above zero and the fox density
/// below 100, and an empty cell only where the two densities stay below 100.
pub proof fn ley_inicio_por_especie(t: Tablero, prob_zorros: int, prob_conejos: int, f: int, c: int)
    requires
        inicial_posible(t, prob_zorros, prob_conejos),
        0 <= f < FILAS,
        0 <= c < COLUMNAS,
        prob_zorros >= 0,
        prob_conejos >= 0,
    ensures
        celda(t, f, c) == Entidad::Zorro ==> prob_zorros > 0,
        celda(t, f, c) == Entidad::Conejo ==> prob_conejos > 0 && prob_zorros < 100,
        celda(t, f, c) == Entidad::Vacio ==> prob_zorros + prob_conejos < 100,
{
    let x = choose|x: int| 0 <= x < 100 && celda(t, f, c) == celda_inicial(x, prob_zorros, prob_conejos);
}

} // verus!
