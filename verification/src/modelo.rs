use vstd::prelude::*;

verus! {

/// Number of rows of the board.
pub const FILAS: usize = 16;

/// Number of columns of the board.
pub const COLUMNAS: usize = 20;

/// What occupies one cell of the board.
#[derive(PartialEq, Eq, Structural, Clone, Copy, Debug)]
pub enum Entidad {
    Vacio,
    Zorro,
    Conejo,
    Misterio,
}

/// The screens of the game.
#[derive(PartialEq, Eq, Structural, Clone, Copy, Debug)]
pub enum EstadoJuego {
    Menu,
    Simulando,
    VictoriaZorros,
    VictoriaConejos,
    ExtincionMutua,
}

/// The board: `FILAS` rows of `COLUMNAS` cells; its edges wrap around.
pub type Tablero = [[Entidad; COLUMNAS]; FILAS];

/// The cell in row `f`, column `c`.
pub open spec fn celda(t: Tablero, f: int, c: int) -> Entidad {
    t[f][c]
}

/// Row `f` taken modulo the number of rows (the board is a torus).
pub open spec fn fila_envuelta(f: int) -> int {
    f % (FILAS as int)
}

/// Column `c` taken modulo the number of columns.
pub open spec fn columna_envuelta(c: int) -> int {
    c % (COLUMNAS as int)
}

/// A board with every cell empty.
pub fn tablero_vacio() -> (t: Tablero)
    ensures
        forall|f: int, c: int|
            0 <= f < FILAS && 0 <= c < COLUMNAS ==> #[trigger] celda(t, f, c) == Entidad::Vacio,
{
    let fila = [Entidad::Vacio; COLUMNAS];
    let t = [fila; FILAS];
    t
}

} // verus!
