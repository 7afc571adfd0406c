use vstd::prelude::*;
use crate::modelo::Entidad;

verus! {

/// How many outcomes the roll that decides a cell's fate has: 100 for a fox with
/// no rabbit nearby (it may starve) and for an empty cell where nothing is born
/// (it may mutate), 10 for a mutation (it turns into a fox, a rabbit or nothing),
/// and 0 where the cell's fate involves no chance.
pub open spec fn cota_de_tirada(actual: Entidad, vz: int, vc: int) -> int {
    match actual {
        Entidad::Zorro => if vz == 0 && vc == 0 {
            0
        } else if vz >= 3 {
            0
        } else if vc == 0 {
            100
        } else {
            0
        },
        Entidad::Conejo => 0,
        Entidad::Vacio => if vz == 2 && vc >= 1 {
            0
        } else if vc >= 2 && vz == 0 {
            0
        } else {
            100
        },
        Entidad::Misterio => 10,
    }
}

/// What a cell becomes in the next turn, given what it holds now, the foxes `vz`
/// and rabbits `vc` among its eight neighbours, the roll drawn for it (see
/// `cota_de_tirada`) and the mutation chance in percent.
pub open spec fn regla_celda(
    actual: Entidad,
    vz: int,
    vc: int,
    tirada: int,
    prob_mutacion: int,
) -> Entidad {
    match actual {
        Entidad::Zorro => if vz == 0 && vc == 0 {
            Entidad::Vacio
        } else if vz >= 3 {
            Entidad::Vacio
        } else if vc == 0 {
            if tirada < 50 {
                Entidad::Vacio
            } else {
                Entidad::Zorro
            }
        } else {
            Entidad::Zorro
        },
        Entidad::Conejo => if vz >= 1 {
            Entidad::Vacio
        } else if (vc == 2 || vc == 3) && vz == 0 {
            Entidad::Conejo
        } else {
            Entidad::Vacio
        },
        Entidad::Vacio => if vz == 2 && vc >= 1 {
            Entidad::Zorro
        } else if vc >= 2 && vz == 0 {
            Entidad::Conejo
        } else if tirada < prob_mutacion {
            Entidad::Misterio
        } else {
            Entidad::Vacio
        },
        Entidad::Misterio => if tirada < 3 {
            Entidad::Zorro
        } else if tirada < 6 {
            Entidad::Conejo
        } else {
            Entidad::Vacio
        },
    }
}

/// The number of outcomes of the roll that a cell needs this turn, or 0 if its
/// fate is certain.
pub fn cota_tirada(actual: Entidad, vz: i32, vc: i32) -> (r: u32)
    ensures
        r == cota_de_tirada(actual, vz as int, vc as int),
{
    match actual {
        Entidad::Zorro => {
            if vz == 0 && vc == 0 {
                0
            } else if vz >= 3 {
                0
            } else if vc == 0 {
                100
            } else {
                0
            }
        },
        Entidad::Conejo => 0,
        Entidad::Vacio => {
            if vz == 2 && vc >= 1 {
                0
            } else if vc >= 2 && vz == 0 {
                0
            } else {
                100
            }
        },
        Entidad::Misterio => 10,
    }
}

/// Applies the rules of the ecosystem to one cell.
pub fn siguiente_celda(actual: Entidad, vz: i32, vc: i32, tirada: u32, prob_mutacion: u32) -> (r:
    Entidad)
    ensures
        r == regla_celda(actual, vz as int, vc as int, tirada as int, prob_mutacion as int),
{
    match actual {
        Entidad::Zorro => {
            if vz == 0 && vc == 0 {
                Entidad::Vacio  // total isolation
            } else if vz >= 3 {
                Entidad::Vacio  // too many foxes
            } else if vc == 0 {
                // no food nearby: it may starve
                if tirada < 50 {
                    Entidad::Vacio
                } else {
                    Entidad::Zorro
                }
            } else {
                Entidad::Zorro
            }
        },
        Entidad::Conejo => {
            if vz >= 1 {
                Entidad::Vacio  // eaten
            } else if (vc == 2 || vc == 3) && vz == 0 {
                Entidad::Conejo
            } else {
                Entidad::Vacio  // isolation or crowding
            }
        },
        Entidad::Vacio => {
            if vz == 2 && vc >= 1 {
                Entidad::Zorro  // a pair of foxes with food breeds
            } else if vc >= 2 && vz == 0 {
                Entidad::Conejo  // rabbits breed
            } else if tirada < prob_mutacion {
                Entidad::Misterio
            } else {
                Entidad::Vacio
            }
        },
        Entidad::Misterio => {
            if tirada < 3 {
                Entidad::Zorro
            } else if tirada < 6 {
                Entidad::Conejo
            } else {
                Entidad::Vacio
            }
        },
    }
}

/// A fox dies of total isolation (no neighbour of either kind) or of overcrowding
/// (three or more fox neighbours).
pub proof fn ley_zorro_aislado_o_hacinado(vz: int, vc: int, tirada: int, prob_mutacion: int)
    requires
        (vz == 0 && vc == 0) || vz >= 3,
    ensures
        regla_celda(Entidad::Zorro, vz, vc, tirada, prob_mutacion) == Entidad::Vacio,
{
}

/// A fox with fox company below three but no rabbit nearby starves on a roll
/// below 50 of 100, and survives otherwise; with a rabbit nearby it survives.
pub proof fn ley_zorro_hambre(vz: int, vc: int, tirada: int, prob_mutacion: int)
    requires
        0 < vz < 3 || (vz == 0 && vc > 0),
    ensures
        vc == 0 ==> (regla_celda(Entidad::Zorro, vz, vc, tirada, prob_mutacion) == Entidad::Vacio
            <==> tirada < 50),
        vc == 0 ==> cota_de_tirada(Entidad::Zorro, vz, vc) == 100,
        vc != 0 ==> regla_celda(Entidad::Zorro, vz, vc, tirada, prob_mutacion) == Entidad::Zorro,
{
}

/// A rabbit with a fox among its neighbours is eaten; without foxes it lives on
/// exactly when two or three rabbits surround it.
pub proof fn ley_conejo(vz: int, vc: int, tirada: int, prob_mutacion: int)
    ensures
        vz >= 1 ==> regla_celda(Entidad::Conejo, vz, vc, tirada, prob_mutacion) == Entidad::Vacio,
        vz == 0 ==> (regla_celda(Entidad::Conejo, vz, vc, tirada, prob_mutacion) == Entidad::Conejo
            <==> (vc == 2 || vc == 3)),
{
}

/// An empty cell turns into a mutation only when no birth happens there and its
/// roll falls below the mutation chance.
pub proof fn ley_mutacion(vz: int, vc: int, tirada: int, prob_mutacion: int)
    ensures
        regla_celda(Entidad::Vacio, vz, vc, tirada, prob_mutacion) == Entidad::Misterio <==> (
        !(vz == 2 && vc >= 1) && !(vc >= 2 && vz == 0) && tirada < prob_mutacion),
{
}

/// A mutation lasts a single turn, and only an empty cell can become one.
pub proof fn ley_misterio_efimero(
    actual: Entidad,
    vz: int,
    vc: int,
    tirada: int,
    prob_mutacion: int,
)
    ensures
        actual == Entidad::Misterio ==> regla_celda(actual, vz, vc, tirada, prob_mutacion)
            != Entidad::Misterio,
        regla_celda(actual, vz, vc, tirada, prob_mutacion) == Entidad::Misterio ==> actual
            == Entidad::Vacio,
{
}

/// Where no roll is needed, the roll does not matter.
pub proof fn ley_sin_azar(
    actual: Entidad,
    vz: int,
    vc: int,
    t1: int,
    t2: int,
    prob_mutacion: int,
)
    requires
        cota_de_tirada(actual, vz, vc) == 0,
    ensures
        regla_celda(actual, vz, vc, t1, prob_mutacion) == regla_celda(
            actual,
            vz,
            vc,
            t2,
            prob_mutacion,
        ),
{
}

/// A fox either stays or leaves its cell empty: it stays exactly when fewer than
/// three foxes surround it and either a rabbit is nearby, or some fox is nearby
/// and its roll out of 100 is at least 50.
pub proof fn ley_destino_zorro(vz: int, vc: int, tirada: int, prob_mutacion: int)
    requires
        vz >= 0,
        vc >= 0,
    ensures
        regla_celda(Entidad::Zorro, vz, vc, tirada, prob_mutacion) == Entidad::Zorro
            || regla_celda(Entidad::Zorro, vz, vc, tirada, prob_mutacion) == Entidad::Vacio,
        regla_celda(Entidad::Zorro, vz, vc, tirada, prob_mutacion) == Entidad::Zorro <==> (vz < 3
            && (vc >= 1 || (vz >= 1 && tirada >= 50))),
{
}

/// A rabbit either stays or leaves its cell empty: it stays exactly when no fox
/// and two or three rabbits surround it.
pub proof fn ley_destino_conejo(vz: int, vc: int, tirada: int, prob_mutacion: int)
    ensures
        regla_celda(Entidad::Conejo, vz, vc, tirada, prob_mutacion) == Entidad::Conejo
            || regla_celda(Entidad::Conejo, vz, vc, tirada, prob_mutacion) == Entidad::Vacio,
        regla_celda(Entidad::Conejo, vz, vc, tirada, prob_mutacion) == Entidad::Conejo <==> (vz
            == 0 && 2 <= vc <= 3),
{
}

/// Births on an empty cell: a fox is born exactly when two foxes and at least one
/// rabbit surround it; a rabbit is born exactly when no fox and at least two
/// rabbits surround it, however many; otherwise it mutates exactly when its roll
/// is below the mutation chance, and else stays empty.
pub proof fn ley_destino_vacio(vz: int, vc: int, tirada: int, prob_mutacion: int)
    ensures
        regla_celda(Entidad::Vacio, vz, vc, tirada, prob_mutacion) == Entidad::Zorro <==> (vz == 2
            && vc >= 1),
        regla_celda(Entidad::Vacio, vz, vc, tirada, prob_mutacion) == Entidad::Conejo <==> (vz == 0
            && vc >= 2),
        regla_celda(Entidad::Vacio, vz, vc, tirada, prob_mutacion) == Entidad::Vacio <==> (!(vz == 2
            && vc >= 1) && !(vz == 0 && vc >= 2) && tirada >= prob_mutacion),
{
}

/// A mutation becomes a fox on a roll out of 10 below 3, a rabbit on a roll from
/// 3 to 5, and an empty cell on a roll of 6 or more: three, three and four chances
/// in ten.
pub proof fn ley_destino_misterio(vz: int, vc: int, tirada: int, prob_mutacion: int)
    ensures
        regla_celda(Entidad::Misterio, vz, vc, tirada, prob_mutacion) == Entidad::Zorro <==> tirada
            < 3,
        regla_celda(Entidad::Misterio, vz, vc, tirada, prob_mutacion) == Entidad::Conejo <==> (3
            <= tirada < 6),
        regla_celda(Entidad::Misterio, vz, vc, tirada, prob_mutacion) == Entidad::Vacio <==> tirada
            >= 6,
        cota_de_tirada(Entidad::Misterio, vz, vc) == 10,
{
}

/// The roll out of 100 is needed exactly for a fox that may starve (fewer than
/// three foxes and no rabbit around it, but some fox) and for an empty cell where
/// nothing is born; a mutation needs a roll out of 10; any other cell needs none.
pub proof fn ley_cotas(actual: Entidad, vz: int, vc: int)
    requires
        vz >= 0,
        vc >= 0,
    ensures
        cota_de_tirada(actual, vz, vc) == 0 || cota_de_tirada(actual, vz, vc) == 10
            || cota_de_tirada(actual, vz, vc) == 100,
        cota_de_tirada(actual, vz, vc) == 10 <==> actual == Entidad::Misterio,
        actual == Entidad::Zorro ==> (cota_de_tirada(actual, vz, vc) == 100 <==> (1 <= vz < 3 && vc
            == 0)),
        actual == Entidad::Conejo ==> cota_de_tirada(actual, vz, vc) == 0,
        actual == Entidad::Vacio ==> (cota_de_tirada(actual, vz, vc) == 100 <==> (!(vz == 2 && vc
            >= 1) && !(vz == 0 && vc >= 2))),
{
}

} // verus!
