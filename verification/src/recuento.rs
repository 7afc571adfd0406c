use vstd::prelude::*;
use crate::modelo::{celda, Entidad, EstadoJuego, Tablero, COLUMNAS, FILAS};

verus! {

/// How many of the first `n` cells of row `f` hold `k`.
pub open spec fn cuenta_en_fila(t: Tablero, f: int, k: Entidad, n: nat) -> nat
    decreases n,
{
    if n == 0 {
        0
    } else {
        cuenta_en_fila(t, f, k, (n - 1) as nat) + if celda(t, f, n - 1) == k {
            1nat
        } else {
            0nat
        }
    }
}

/// How many cells of the first `m` rows hold `k`.
pub open spec fn cuenta_hasta_fila(t: Tablero, k: Entidad, m: nat) -> nat
    decreases m,
{
    if m == 0 {
        0
    } else {
        cuenta_hasta_fila(t, k, (m - 1) as nat) + cuenta_en_fila(t, m - 1, k, COLUMNAS as nat)
    }
}

/// How many cells of the board hold `k`.
pub open spec fn total(t: Tablero, k: Entidad) -> nat {
    cuenta_hasta_fila(t, k, FILAS as nat)
}

proof fn lema_fila(t: Tablero, f: int, n: nat)
    ensures
        cuenta_en_fila(t, f, Entidad::Vacio, n) + cuenta_en_fila(t, f, Entidad::Zorro, n)
            + cuenta_en_fila(t, f, Entidad::Conejo, n) + cuenta_en_fila(t, f, Entidad::Misterio, n)
            == n,
    decreases n,
{
    if n > 0 {
        lema_fila(t, f, (n - 1) as nat);
    }
}

proof fn lema_filas(t: Tablero, m: nat)
    ensures
        cuenta_hasta_fila(t, Entidad::Vacio, m) + cuenta_hasta_fila(t, Entidad::Zorro, m)
            + cuenta_hasta_fila(t, Entidad::Conejo, m) + cuenta_hasta_fila(t, Entidad::Misterio, m)
            == m * COLUMNAS,
    decreases m,
{
    if m > 0 {
        lema_filas(t, (m - 1) as nat);
        lema_fila(t, m - 1, COLUMNAS as nat);
    }
}

/// Every cell holds exactly one kind: the totals of the four kinds add up to the
/// number of cells.
pub proof fn ley_totales(t: Tablero)
    ensures
        total(t, Entidad::Vacio) + total(t, Entidad::Zorro) + total(t, Entidad::Conejo) + total(
            t,
            Entidad::Misterio,
        ) == FILAS * COLUMNAS,
{
    lema_filas(t, FILAS as nat);
}

/// Counts the foxes, the rabbits and the mutations on the board.
pub fn contar_totales(tablero: &Tablero) -> (r: (i32, i32, i32))
    ensures
        r.0 == total(*tablero, Entidad::Zorro),
        r.1 == total(*tablero, Entidad::Conejo),
        r.2 == total(*tablero, Entidad::Misterio),
{
    let mut zorros: i32 = 0;
    let mut conejos: i32 = 0;
    let mut misterios: i32 = 0;
    let mut f: usize = 0;
    while f < FILAS
        invariant
            f <= FILAS,
            zorros == cuenta_hasta_fila(*tablero, Entidad::Zorro, f as nat),
            conejos == cuenta_hasta_fila(*tablero, Entidad::Conejo, f as nat),
            misterios == cuenta_hasta_fila(*tablero, Entidad::Misterio, f as nat),
            zorros + conejos + misterios <= f * COLUMNAS,
        decreases FILAS - f,
    {
        let mut c: usize = 0;
        let ghost z0 = zorros as int;
        let ghost c0 = conejos as int;
        let ghost m0 = misterios as int;
        while c < COLUMNAS
            invariant
                f < FILAS,
                c <= COLUMNAS,
                zorros == z0 + cuenta_en_fila(*tablero, f as int, Entidad::Zorro, c as nat),
                conejos == c0 + cuenta_en_fila(*tablero, f as int, Entidad::Conejo, c as nat),
                misterios == m0 + cuenta_en_fila(*tablero, f as int, Entidad::Misterio, c as nat),
                z0 + c0 + m0 <= f * COLUMNAS,
                0 <= z0 && 0 <= c0 && 0 <= m0,
                zorros + conejos + misterios <= f * COLUMNAS + c,
            decreases COLUMNAS - c,
        {
            match tablero[f][c] {
                Entidad::Zorro => zorros += 1,
                Entidad::Conejo => conejos += 1,
                Entidad::Misterio => misterios += 1,
                _ => {},
            }
            c += 1;
        }
        f += 1;
    }
    (zorros, conejos, misterios)
}

/// The screen that follows a turn with these totals: the rabbits win when only
/// the foxes are gone, the foxes win when only the rabbits are gone, both
/// species lose when neither is left, and otherwise the simulation goes on.
pub open spec fn estado_tras_recuento(total_zorros: int, total_conejos: int) -> EstadoJuego {
    if total_zorros == 0 && total_conejos > 0 {
        EstadoJuego::VictoriaConejos
    } else if total_conejos == 0 && total_zorros > 0 {
        EstadoJuego::VictoriaZorros
    } else if total_zorros == 0 && total_conejos == 0 {
        EstadoJuego::ExtincionMutua
    } else {
        EstadoJuego::Simulando
    }
}

/// Decides how the game stands after a turn, from the species totals.
pub fn evaluar_final(total_zorros: i32, total_conejos: i32) -> (r: EstadoJuego)
    ensures
        r == estado_tras_recuento(total_zorros as int, total_conejos as int),
{
    if total_zorros == 0 && total_conejos > 0 {
        EstadoJuego::VictoriaConejos
    } else if total_conejos == 0 && total_zorros > 0 {
        EstadoJuego::VictoriaZorros
    } else if total_zorros == 0 && total_conejos == 0 {
        EstadoJuego::ExtincionMutua
    } else {
        EstadoJuego::Simulando
    }
}

/// With counts that cannot be negative, the simulation goes on exactly when both
/// species are still on the board, and it never goes back to the menu by itself.
pub proof fn ley_final(total_zorros: int, total_conejos: int)
    requires
        total_zorros >= 0,
        total_conejos >= 0,
    ensures
        (estado_tras_recuento(total_zorros, total_conejos) == EstadoJuego::Simulando) <==> (
        total_zorros > 0 && total_conejos > 0),
        estado_tras_recuento(total_zorros, total_conejos) != EstadoJuego::Menu,
{
}

/// Which screen ends a game: when only the foxes are gone the rabbits win, when
/// only the rabbits are gone the foxes win (however few remain), and both
/// species lose exactly when neither is left.
pub proof fn ley_quien_gana(total_zorros: int, total_conejos: int)
    requires
        total_zorros >= 0,
        total_conejos >= 0,
    ensures
        estado_tras_recuento(total_zorros, total_conejos) == EstadoJuego::VictoriaConejos <==> (
        total_zorros == 0 && total_conejos > 0),
        estado_tras_recuento(total_zorros, total_conejos) == EstadoJuego::VictoriaZorros <==> (
        total_conejos == 0 && total_zorros > 0),
        estado_tras_recuento(total_zorros, total_conejos) == EstadoJuego::ExtincionMutua <==> (
        total_zorros == 0 && total_conejos == 0),
{
}

} // verus!
