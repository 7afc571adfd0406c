use vstd::prelude::*;
use crate::modelo::{celda, columna_envuelta, fila_envuelta, Entidad, Tablero, COLUMNAS, FILAS};

verus! {

/// Offset `o` (0 to 8) walks the 3×3 block around a cell row by row:
/// row offset `o / 3 - 1`, column offset `o % 3 - 1`; `o == 4` is the cell itself.
/// Holds when that offset is a neighbour (not the centre) occupied by `k`.
pub open spec fn vecino_es(t: Tablero, f: int, c: int, k: Entidad, o: int) -> bool {
    &&& o != 4
    &&& celda(t, fila_envuelta(f + o / 3 - 1), columna_envuelta(c + o % 3 - 1)) == k
}

/// How many of the first `n` offsets of the 3×3 block around `(f, c)` hold `k`.
pub open spec fn vecinos_hasta(t: Tablero, f: int, c: int, k: Entidad, n: nat) -> nat
    decreases n,
{
    if n == 0 {
        0
    } else {
        vecinos_hasta(t, f, c, k, (n - 1) as nat) + if vecino_es(t, f, c, k, n - 1) {
            1nat
        } else {
            0nat
        }
    }
}

/// How many of the eight cells around `(f, c)` on the torus hold `k`.
pub open spec fn vecinos(t: Tablero, f: int, c: int, k: Entidad) -> nat {
    vecinos_hasta(t, f, c, k, 9)
}

/// Offset `3 * (i + 1) + j + 1` of the 3×3 block is the neighbour at row offset `i`
/// and column offset `j`.
proof fn lema_desplazamiento(i: int, j: int)
    by (nonlinear_arith)
    requires
        -1 <= i <= 1,
        -1 <= j <= 1,
    ensures
        (3 * (i + 1) + j + 1) / 3 - 1 == i,
        (3 * (i + 1) + j + 1) % 3 - 1 == j,
{
}

/// Adding the modulus once does not change the remainder.
proof fn lema_envolver(x: int, n: int)
    requires
        n > 0,
        x >= -1,
    ensures
        (x + n) % n == x % n,
        0 <= (x + n) % n < n,
{
    vstd::arithmetic::div_mod::lemma_mod_add_multiples_vanish(x, n);
    vstd::arithmetic::div_mod::lemma_mod_bound(x + n, n);
}

/// Counts the foxes and the rabbits among the eight cells around `(fila, col)`,
/// wrapping around the edges of the board.
pub fn contar_vecinos_especie(tablero: &Tablero, fila: usize, col: usize) -> (r: (i32, i32))
    requires
        fila <= i32::MAX - 17,
        col <= i32::MAX - 21,
    ensures
        r.0 == vecinos(*tablero, fila as int, col as int, Entidad::Zorro),
        r.1 == vecinos(*tablero, fila as int, col as int, Entidad::Conejo),
{
    let mut zorros: i32 = 0;
    let mut conejos: i32 = 0;
    let mut i: i32 = -1;
    while i <= 1
        invariant
            -1 <= i <= 2,
            fila <= i32::MAX - 17,
            col <= i32::MAX - 21,
            zorros == vecinos_hasta(*tablero, fila as int, col as int, Entidad::Zorro, (3 * (i + 1)) as nat),
            conejos == vecinos_hasta(*tablero, fila as int, col as int, Entidad::Conejo, (3 * (i + 1)) as nat),
            zorros + conejos <= 3 * (i + 1),
        decreases 2 - i,
    {
        let mut j: i32 = -1;
        while j <= 1
            invariant
                -1 <= i <= 1,
                -1 <= j <= 2,
                fila <= i32::MAX - 17,
                col <= i32::MAX - 21,
                zorros == vecinos_hasta(*tablero, fila as int, col as int, Entidad::Zorro, (3 * (i + 1) + j + 1) as nat),
                conejos == vecinos_hasta(*tablero, fila as int, col as int, Entidad::Conejo, (3 * (i + 1) + j + 1) as nat),
                zorros + conejos <= 3 * (i + 1) + j + 1,
            decreases 2 - j,
        {
            proof {
                lema_desplazamiento(i as int, j as int);
            }
            if i == 0 && j == 0 {
                j += 1;
                continue;
            }
            let nueva_f = ((fila as i32 + i + FILAS as i32) % FILAS as i32) as usize;
            let nueva_c = ((col as i32 + j + COLUMNAS as i32) % COLUMNAS as i32) as usize;
            proof {
                lema_envolver(fila + i, FILAS as int);
                lema_envolver(col + j, COLUMNAS as int);
            }
            match tablero[nueva_f][nueva_c] {
                Entidad::Zorro => zorros += 1,
                Entidad::Conejo => conejos += 1,
                _ => {},
            }
            j += 1;
        }
        i += 1;
    }
    (zorros, conejos)
}

/// The 3×3 blocks around `(f, c)` in `t1` and in `t2` hold the same cells.
pub open spec fn mismo_entorno(t1: Tablero, t2: Tablero, f: int, c: int) -> bool {
    forall|o: int|
        0 <= o < 9 ==> #[trigger] celda(t1, fila_envuelta(f + o / 3 - 1), columna_envuelta(c + o % 3 - 1))
            == celda(t2, fila_envuelta(f + o / 3 - 1), columna_envuelta(c + o % 3 - 1))
}

proof fn lema_suma_hasta(t: Tablero, f: int, c: int, n: nat)
    requires
        n <= 9,
    ensures
        vecinos_hasta(t, f, c, Entidad::Vacio, n) + vecinos_hasta(t, f, c, Entidad::Zorro, n)
            + vecinos_hasta(t, f, c, Entidad::Conejo, n) + vecinos_hasta(t, f, c, Entidad::Misterio, n)
            == if n > 4 { n - 1 } else { n as int },
    decreases n,
{
    if n > 0 {
        lema_suma_hasta(t, f, c, (n - 1) as nat);
    }
}

proof fn lema_entorno_hasta(t1: Tablero, t2: Tablero, f: int, c: int, k: Entidad, n: nat)
    requires
        n <= 9,
        mismo_entorno(t1, t2, f, c),
    ensures
        vecinos_hasta(t1, f, c, k, n) == vecinos_hasta(t2, f, c, k, n),
    decreases n,
{
    if n > 0 {
        lema_entorno_hasta(t1, t2, f, c, k, (n - 1) as nat);
        let o = n - 1;
        assert(celda(t1, fila_envuelta(f + o / 3 - 1), columna_envuelta(c + o % 3 - 1))
            == celda(t2, fila_envuelta(f + o / 3 - 1), columna_envuelta(c + o % 3 - 1)));
    }
}

/// Every one of the eight cells around a cell holds exactly one kind, so the
/// neighbour counts of the four kinds add up to eight; in particular there are
/// at most eight foxes and rabbits around a cell.
pub proof fn ley_ocho_vecinos(t: Tablero, f: int, c: int)
    ensures
        vecinos(t, f, c, Entidad::Vacio) + vecinos(t, f, c, Entidad::Zorro) + vecinos(
            t,
            f,
            c,
            Entidad::Conejo,
        ) + vecinos(t, f, c, Entidad::Misterio) == 8,
        vecinos(t, f, c, Entidad::Zorro) + vecinos(t, f, c, Entidad::Conejo) <= 8,
{
    lema_suma_hasta(t, f, c, 9);
}

/// The neighbour counts of a cell depend only on its 3×3 block.
pub proof fn ley_vecinos_locales(t1: Tablero, t2: Tablero, f: int, c: int, k: Entidad)
    requires
        mismo_entorno(t1, t2, f, c),
    ensures
        vecinos(t1, f, c, k) == vecinos(t2, f, c, k),
{
    lema_entorno_hasta(t1, t2, f, c, k, 9);
}

} // verus!
