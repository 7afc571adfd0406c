use vstd::prelude::*;
use crate::modelo::{celda, Entidad, Tablero, COLUMNAS, FILAS};
use crate::recuento::{cuenta_en_fila, cuenta_hasta_fila, total};
use crate::vecindad::{vecino_es, vecinos, vecinos_hasta};

verus! {

/// `g(0) + g(1) + ... + g(n - 1)`.
spec fn suma(g: spec_fn(int) -> int, n: nat) -> int
    decreases n,
{
    if n == 0 {
        0
    } else {
        suma(g, (n - 1) as nat) + g(n - 1)
    }
}

proof fn lema_suma_ext(g1: spec_fn(int) -> int, g2: spec_fn(int) -> int, n: nat)
    requires
        forall|i: int| 0 <= i < n ==> #[trigger] g1(i) == g2(i),
    ensures
        suma(g1, n) == suma(g2, n),
    decreases n,
{
    if n > 0 {
        lema_suma_ext(g1, g2, (n - 1) as nat);
    }
}

spec fn mas(g1: spec_fn(int) -> int, g2: spec_fn(int) -> int) -> spec_fn(int) -> int {
    |i: int| g1(i) + g2(i)
}

proof fn lema_suma_aditiva(g1: spec_fn(int) -> int, g2: spec_fn(int) -> int, n: nat)
    ensures
        suma(mas(g1, g2), n) == suma(g1, n) + suma(g2, n),
    decreases n,
{
    if n > 0 {
        lema_suma_aditiva(g1, g2, (n - 1) as nat);
    }
}

spec fn corrida(g: spec_fn(int) -> int) -> spec_fn(int) -> int {
    |i: int| g(i + 1)
}

proof fn lema_suma_primero(g: spec_fn(int) -> int, n: nat)
    ensures
        suma(g, n + 1) == g(0) + suma(corrida(g), n),
    decreases n,
{
    if n > 0 {
        lema_suma_primero(g, (n - 1) as nat);
        assert(suma(g, n + 1) == suma(g, n) + g(n as int));
        assert(suma(corrida(g), n) == suma(corrida(g), (n - 1) as nat) + corrida(g)(n - 1));
    } else {
        assert(suma(g, 1) == suma(g, 0) + g(0));
    }
}

spec fn rotada(g: spec_fn(int) -> int, n: nat, d: int) -> spec_fn(int) -> int {
    |i: int| g((i + d) % (n as int))
}

/// Summing a function over `0..n` with its argument shifted by `d` around the
/// cycle of length `n` gives the same sum.
proof fn lema_suma_rotada(g: spec_fn(int) -> int, n: nat, d: int)
    requires
        n > 0,
        -1 <= d <= 1,
    ensures
        suma(rotada(g, n, d), n) == suma(g, n),
{
    let m = (n - 1) as nat;
    let r = rotada(g, n, d);
    if d == 0 {
        assert forall|i: int| 0 <= i < n implies #[trigger] r(i) == g(i) by {
            vstd::arithmetic::div_mod::lemma_small_mod(i as nat, n);
        }
        lema_suma_ext(r, g, n);
    } else if d == 1 {
        assert forall|i: int| 0 <= i < m implies #[trigger] r(i) == corrida(g)(i) by {
            vstd::arithmetic::div_mod::lemma_small_mod((i + 1) as nat, n);
        }
        lema_suma_ext(r, corrida(g), m);
        vstd::arithmetic::div_mod::lemma_mod_self_0(n as int);
        assert(r(m as int) == g(0));
        lema_suma_primero(g, m);
    } else {
        lema_suma_primero(r, m);
        assert forall|i: int| 0 <= i < m implies #[trigger] corrida(r)(i) == g(i) by {
            vstd::arithmetic::div_mod::lemma_small_mod(i as nat, n);
        }
        lema_suma_ext(corrida(r), g, m);
        vstd::arithmetic::div_mod::lemma_mod_add_multiples_vanish(-1, n as int);
        vstd::arithmetic::div_mod::lemma_small_mod(m, n);
        assert(r(0) == g(m as int));
    }
}

proof fn lema_suma_cero(g: spec_fn(int) -> int, n: nat)
    requires
        forall|i: int| 0 <= i < n ==> #[trigger] g(i) == 0,
    ensures
        suma(g, n) == 0,
    decreases n,
{
    if n > 0 {
        lema_suma_cero(g, (n - 1) as nat);
    }
}

spec fn fila_de(h: spec_fn(int, int) -> int, i: int) -> spec_fn(int) -> int {
    |j: int| h(i, j)
}

spec fn columna_de(h: spec_fn(int, int) -> int, j: int) -> spec_fn(int) -> int {
    |i: int| h(i, j)
}

spec fn por_filas(h: spec_fn(int, int) -> int, m: nat) -> spec_fn(int) -> int {
    |i: int| suma(fila_de(h, i), m)
}

spec fn por_columnas(h: spec_fn(int, int) -> int, n: nat) -> spec_fn(int) -> int {
    |j: int| suma(columna_de(h, j), n)
}

/// A double sum can be taken in either order.
proof fn lema_fubini(h: spec_fn(int, int) -> int, n: nat, m: nat)
    ensures
        suma(por_filas(h, m), n) == suma(por_columnas(h, n), m),
    decreases n,
{
    if n == 0 {
        lema_suma_cero(por_columnas(h, 0), m);
    } else {
        let k = (n - 1) as nat;
        lema_fubini(h, k, m);
        lema_suma_aditiva(por_columnas(h, k), fila_de(h, n - 1), m);
        assert forall|j: int| 0 <= j < m implies #[trigger] por_columnas(h, n)(j) == mas(
            por_columnas(h, k),
            fila_de(h, n - 1),
        )(j) by {
            assert(suma(columna_de(h, j), n) == suma(columna_de(h, j), k) + columna_de(h, j)(n - 1));
        }
        lema_suma_ext(por_columnas(h, n), mas(por_columnas(h, k), fila_de(h, n - 1)), m);
        assert(suma(por_filas(h, m), n) == suma(por_filas(h, m), k) + por_filas(h, m)(n - 1));
    }
}

/// How many foxes (or rabbits, ...) the first `n` cells of row `f` see around
/// them, added up.
pub open spec fn vecinos_en_fila(t: Tablero, f: int, k: Entidad, n: nat) -> nat
    decreases n,
{
    if n == 0 {
        0
    } else {
        vecinos_en_fila(t, f, k, (n - 1) as nat) + vecinos(t, f, n - 1, k)
    }
}

/// The neighbour counts of `k` of every cell of the first `m` rows, added up.
pub open spec fn vecinos_hasta_fila(t: Tablero, k: Entidad, m: nat) -> nat
    decreases m,
{
    if m == 0 {
        0
    } else {
        vecinos_hasta_fila(t, k, (m - 1) as nat) + vecinos_en_fila(t, m - 1, k, COLUMNAS as nat)
    }
}

/// The neighbour counts of `k` of every cell of the board, added up.
pub open spec fn vecinos_en_tablero(t: Tablero, k: Entidad) -> nat {
    vecinos_hasta_fila(t, k, FILAS as nat)
}

spec fn indicador(b: bool) -> int {
    if b {
        1
    } else {
        0
    }
}

spec fn en_fila(t: Tablero, k: Entidad, r: int) -> spec_fn(int) -> int {
    |c: int| indicador(celda(t, r, c) == k)
}

spec fn filas(t: Tablero, k: Entidad) -> spec_fn(int) -> int {
    |r: int| cuenta_en_fila(t, r, k, COLUMNAS as nat) as int
}

spec fn alrededor(t: Tablero, f: int, c: int, k: Entidad) -> spec_fn(int) -> int {
    |o: int| indicador(vecino_es(t, f, c, k, o))
}

spec fn impactos(t: Tablero, k: Entidad, f: int) -> spec_fn(int, int) -> int {
    |c: int, o: int| indicador(vecino_es(t, f, c, k, o))
}

spec fn bloque(t: Tablero, k: Entidad) -> spec_fn(int, int) -> int {
    |f: int, o: int| suma(columna_de(impactos(t, k, f), o), COLUMNAS as nat)
}

spec fn vec_fila(t: Tablero, k: Entidad, f: int) -> spec_fn(int) -> int {
    |c: int| vecinos(t, f, c, k) as int
}

spec fn vec_filas(t: Tablero, k: Entidad) -> spec_fn(int) -> int {
    |f: int| vecinos_en_fila(t, f, k, COLUMNAS as nat) as int
}

proof fn lema_cuenta_en_fila(t: Tablero, k: Entidad, r: int, n: nat)
    ensures
        cuenta_en_fila(t, r, k, n) == suma(en_fila(t, k, r), n),
    decreases n,
{
    if n > 0 {
        lema_cuenta_en_fila(t, k, r, (n - 1) as nat);
    }
}

proof fn lema_cuenta_hasta_fila(t: Tablero, k: Entidad, m: nat)
    ensures
        cuenta_hasta_fila(t, k, m) == suma(filas(t, k), m),
    decreases m,
{
    if m > 0 {
        lema_cuenta_hasta_fila(t, k, (m - 1) as nat);
    }
}

proof fn lema_vecinos_hasta(t: Tablero, f: int, c: int, k: Entidad, n: nat)
    ensures
        vecinos_hasta(t, f, c, k, n) == suma(alrededor(t, f, c, k), n),
    decreases n,
{
    if n > 0 {
        lema_vecinos_hasta(t, f, c, k, (n - 1) as nat);
    }
}

proof fn lema_vecinos_en_fila(t: Tablero, k: Entidad, f: int, n: nat)
    ensures
        vecinos_en_fila(t, f, k, n) == suma(vec_fila(t, k, f), n),
    decreases n,
{
    if n > 0 {
        lema_vecinos_en_fila(t, k, f, (n - 1) as nat);
    }
}

proof fn lema_vecinos_hasta_fila(t: Tablero, k: Entidad, m: nat)
    ensures
        vecinos_hasta_fila(t, k, m) == suma(vec_filas(t, k), m),
    decreases m,
{
    if m > 0 {
        lema_vecinos_hasta_fila(t, k, (m - 1) as nat);
    }
}

/// The neighbour counts of a row, added up, regrouped offset by offset.
proof fn lema_fila_por_desplazamientos(t: Tablero, k: Entidad, f: int)
    ensures
        vec_filas(t, k)(f) == por_filas(bloque(t, k), 9)(f),
{
    let h = impactos(t, k, f);
    lema_vecinos_en_fila(t, k, f, COLUMNAS as nat);
    assert forall|c: int| 0 <= c < COLUMNAS implies #[trigger] vec_fila(t, k, f)(c) == por_filas(
        h,
        9,
    )(c) by {
        lema_vecinos_hasta(t, f, c, k, 9);
        assert forall|o: int| 0 <= o < 9 implies #[trigger] alrededor(t, f, c, k)(o) == fila_de(h, c)(
            o,
        ) by {}
        lema_suma_ext(alrededor(t, f, c, k), fila_de(h, c), 9);
    }
    lema_suma_ext(vec_fila(t, k, f), por_filas(h, 9), COLUMNAS as nat);
    lema_fubini(h, COLUMNAS as nat, 9);
    assert forall|o: int| 0 <= o < 9 implies #[trigger] por_columnas(h, COLUMNAS as nat)(o) == fila_de(
        bloque(t, k),
        f,
    )(o) by {}
    lema_suma_ext(por_columnas(h, COLUMNAS as nat), fila_de(bloque(t, k), f), 9);
}

/// For one neighbour offset, the cells that see a `k` there, over the whole
/// board, are as many as the cells holding `k`: shifting the board around the
/// torus moves every cell to another one.
proof fn lema_un_desplazamiento(t: Tablero, k: Entidad, o: int)
    requires
        0 <= o < 9,
    ensures
        por_columnas(bloque(t, k), FILAS as nat)(o) == if o == 4 {
            0
        } else {
            total(t, k) as int
        },
{
    let b = columna_de(bloque(t, k), o);
    if o == 4 {
        assert forall|f: int| 0 <= f < FILAS implies #[trigger] b(f) == 0 by {
            assert forall|c: int| 0 <= c < COLUMNAS implies #[trigger] columna_de(impactos(t, k, f), o)(
                c,
            ) == 0 by {}
            lema_suma_cero(columna_de(impactos(t, k, f), o), COLUMNAS as nat);
        }
        lema_suma_cero(b, FILAS as nat);
    } else {
        let di = o / 3 - 1;
        let dj = o % 3 - 1;
        assert(-1 <= di <= 1 && -1 <= dj <= 1);
        assert forall|f: int| 0 <= f < FILAS implies #[trigger] b(f) == rotada(
            filas(t, k),
            FILAS as nat,
            di,
        )(f) by {
            let r = (f + di) % (FILAS as int);
            let g = columna_de(impactos(t, k, f), o);
            assert forall|c: int| 0 <= c < COLUMNAS implies #[trigger] g(c) == rotada(
                en_fila(t, k, r),
                COLUMNAS as nat,
                dj,
            )(c) by {}
            lema_suma_ext(g, rotada(en_fila(t, k, r), COLUMNAS as nat, dj), COLUMNAS as nat);
            lema_suma_rotada(en_fila(t, k, r), COLUMNAS as nat, dj);
            lema_cuenta_en_fila(t, k, r, COLUMNAS as nat);
        }
        lema_suma_ext(b, rotada(filas(t, k), FILAS as nat, di), FILAS as nat);
        lema_suma_rotada(filas(t, k), FILAS as nat, di);
        lema_cuenta_hasta_fila(t, k, FILAS as nat);
    }
}

spec fn salvo_el_centro(x: int) -> spec_fn(int) -> int {
    |o: int| if o == 4 { 0 } else { x }
}

/// Every cell is a neighbour of exactly eight cells (the board wraps around),
/// so adding up, over all cells, how many `k` each cell has around it gives
/// eight times the number of cells holding `k`.
pub proof fn ley_doble_conteo(t: Tablero, k: Entidad)
    ensures
        vecinos_en_tablero(t, k) == 8 * total(t, k),
{
    let b = bloque(t, k);
    lema_vecinos_hasta_fila(t, k, FILAS as nat);
    assert forall|f: int| 0 <= f < FILAS implies #[trigger] vec_filas(t, k)(f) == por_filas(b, 9)(f) by {
        lema_fila_por_desplazamientos(t, k, f);
    }
    lema_suma_ext(vec_filas(t, k), por_filas(b, 9), FILAS as nat);
    lema_fubini(b, FILAS as nat, 9);
    let x = total(t, k) as int;
    assert forall|o: int| 0 <= o < 9 implies #[trigger] por_columnas(b, FILAS as nat)(o)
        == salvo_el_centro(x)(o) by {
        lema_un_desplazamiento(t, k, o);
    }
    lema_suma_ext(por_columnas(b, FILAS as nat), salvo_el_centro(x), 9);
    assert(suma(salvo_el_centro(x), 9) == 8 * x) by {
        reveal_with_fuel(suma, 10);
    }
}

} // verus!
