use vstd::prelude::*;
use rand::rngs::ThreadRng;
use crate::modelo::{celda, tablero_vacio, Entidad, EstadoJuego, Tablero, COLUMNAS, FILAS};
use crate::recuento::{contar_totales, estado_tras_recuento, evaluar_final, total};
use crate::tablero::{
    celda_inicial, inicial_posible, inicializar, inicializar_con_tiradas, paso, paso_con_tiradas,
    sucesor_celda, sucesor_posible, tirada_en, Tiradas,
};

verus! {

/// The largest density, in percent, that a control of the menu can reach.
pub const PROBABILIDAD_MAXIMA: u32 = 50;

/// The step, in percentage points, of a control of the menu.
pub const PASO_PROBABILIDAD: u32 = 5;

/// A control or button that the player pressed; the application finds it from
/// where the click fell on the current screen.
#[derive(PartialEq, Eq, Structural, Clone, Copy, Debug)]
pub enum Pulsacion {
    MasZorros,
    MenosZorros,
    MasConejos,
    MenosConejos,
    MasMutacion,
    MenosMutacion,
    Iniciar,
    SeguirSimulando,
    Salir,
    VolverAlMenu,
}

/// What the application has to do after an event, beyond drawing.
#[derive(PartialEq, Eq, Structural, Clone, Copy, Debug)]
pub enum Accion {
    /// Nothing.
    Ninguna,
    /// Stop the victory music and play the intro music again from the start.
    VolverAMusicaIntro,
    /// Stop the intro music and play the victory music once.
    SonarVictoria,
    /// Close the game.
    Salir,
}

/// A density raised by one step, never above the maximum.
pub open spec fn subida(p: int) -> int {
    if p + PASO_PROBABILIDAD <= PROBABILIDAD_MAXIMA {
        p + PASO_PROBABILIDAD
    } else {
        PROBABILIDAD_MAXIMA as int
    }
}

/// A density lowered by one step, never below zero.
pub open spec fn bajada(p: int) -> int {
    if p >= PASO_PROBABILIDAD {
        p - PASO_PROBABILIDAD
    } else {
        0
    }
}

/// Raises a density control by one step, never above the maximum.
pub fn subir_probabilidad(p: u32) -> (r: u32)
    requires
        p <= u32::MAX - PASO_PROBABILIDAD,
    ensures
        r == subida(p as int),
{
    let s = p + PASO_PROBABILIDAD;
    if s <= PROBABILIDAD_MAXIMA {
        s
    } else {
        PROBABILIDAD_MAXIMA
    }
}

/// Lowers a density control by one step, never below zero.
pub fn bajar_probabilidad(p: u32) -> (r: u32)
    ensures
        r == bajada(p as int),
{
    p.saturating_sub(PASO_PROBABILIDAD)
}

/// The state of a game as the contracts see it.
pub struct JuegoVista {
    pub estado: EstadoJuego,
    pub prob_zorros: u32,
    pub prob_conejos: u32,
    pub prob_mutacion: u32,
    pub tablero: Tablero,
    pub total_zorros: i32,
    pub total_conejos: i32,
    pub total_misterios: i32,
}

/// A game: the current screen, the three densities of the menu (in percent),
/// the board and the totals shown under it.
pub struct Juego {
    estado: EstadoJuego,
    prob_zorros: u32,
    prob_conejos: u32,
    prob_mutacion: u32,
    tablero: Tablero,
    total_zorros: i32,
    total_conejos: i32,
    total_misterios: i32,
}

impl View for Juego {
    type V = JuegoVista;

    closed spec fn view(&self) -> JuegoVista {
        JuegoVista {
            estado: self.estado,
            prob_zorros: self.prob_zorros,
            prob_conejos: self.prob_conejos,
            prob_mutacion: self.prob_mutacion,
            tablero: self.tablero,
            total_zorros: self.total_zorros,
            total_conejos: self.total_conejos,
            total_misterios: self.total_misterios,
        }
    }
}

/// The densities of the menu stay within `0..=PROBABILIDAD_MAXIMA`.
pub open spec fn densidades_validas(v: JuegoVista) -> bool {
    &&& v.prob_zorros <= PROBABILIDAD_MAXIMA
    &&& v.prob_conejos <= PROBABILIDAD_MAXIMA
    &&& v.prob_mutacion <= PROBABILIDAD_MAXIMA
}

/// Whether the screen is one of the three that end a game.
pub open spec fn es_final(e: EstadoJuego) -> bool {
    ||| e == EstadoJuego::VictoriaZorros
    ||| e == EstadoJuego::VictoriaConejos
    ||| e == EstadoJuego::ExtincionMutua
}

/// What a press does to the game, apart from the board that a start fills:
/// on the menu the six controls move their density and the start button opens
/// the simulation; during the simulation the menu button goes back to the menu;
/// on a final screen one button goes back to the menu and the other closes the
/// game. Any other press changes nothing.
pub open spec fn tras_pulsar(antes: JuegoVista, p: Pulsacion, despues: JuegoVista, a: Accion) -> bool {
    match antes.estado {
        EstadoJuego::Menu => match p {
            Pulsacion::MasZorros => a == Accion::Ninguna && despues == (JuegoVista {
                prob_zorros: subida(antes.prob_zorros as int) as u32,
                ..antes
            }),
            Pulsacion::MenosZorros => a == Accion::Ninguna && despues == (JuegoVista {
                prob_zorros: bajada(antes.prob_zorros as int) as u32,
                ..antes
            }),
            Pulsacion::MasConejos => a == Accion::Ninguna && despues == (JuegoVista {
                prob_conejos: subida(antes.prob_conejos as int) as u32,
                ..antes
            }),
            Pulsacion::MenosConejos => a == Accion::Ninguna && despues == (JuegoVista {
                prob_conejos: bajada(antes.prob_conejos as int) as u32,
                ..antes
            }),
            Pulsacion::MasMutacion => a == Accion::Ninguna && despues == (JuegoVista {
                prob_mutacion: subida(antes.prob_mutacion as int) as u32,
                ..antes
            }),
            Pulsacion::MenosMutacion => a == Accion::Ninguna && despues == (JuegoVista {
                prob_mutacion: bajada(antes.prob_mutacion as int) as u32,
                ..antes
            }),
            Pulsacion::Iniciar => a == Accion::Ninguna && despues == (JuegoVista {
                estado: EstadoJuego::Simulando,
                tablero: despues.tablero,
                ..antes
            }),
            _ => a == Accion::Ninguna && despues == antes,
        },
        EstadoJuego::Simulando => match p {
            Pulsacion::VolverAlMenu => a == Accion::VolverAMusicaIntro && despues == (JuegoVista {
                estado: EstadoJuego::Menu,
                ..antes
            }),
            _ => a == Accion::Ninguna && despues == antes,
        },
        _ => match p {
            Pulsacion::SeguirSimulando => a == Accion::VolverAMusicaIntro && despues == (
            JuegoVista { estado: EstadoJuego::Menu, ..antes }),
            Pulsacion::Salir => a == Accion::Salir && despues == antes,
            _ => a == Accion::Ninguna && despues == antes,
        },
    }
}

/// Whether the press starts a game: the start button on the menu.
pub open spec fn inicia(antes: JuegoVista, p: Pulsacion) -> bool {
    antes.estado == EstadoJuego::Menu && p == Pulsacion::Iniciar
}

/// What a turn does to the game, apart from the board: during the simulation the
/// totals are those of the new board, the screen follows from them and the
/// victory music sounds when the game ends; on any other screen a turn does
/// nothing.
pub open spec fn tras_turno(antes: JuegoVista, despues: JuegoVista, a: Accion) -> bool {
    if antes.estado == EstadoJuego::Simulando {
        &&& despues.prob_zorros == antes.prob_zorros
        &&& despues.prob_conejos == antes.prob_conejos
        &&& despues.prob_mutacion == antes.prob_mutacion
        &&& despues.total_zorros == total(despues.tablero, Entidad::Zorro)
        &&& despues.total_conejos == total(despues.tablero, Entidad::Conejo)
        &&& despues.total_misterios == total(despues.tablero, Entidad::Misterio)
        &&& despues.estado == estado_tras_recuento(
            despues.total_zorros as int,
            despues.total_conejos as int,
        )
        &&& a == if despues.estado == EstadoJuego::Simulando {
            Accion::Ninguna
        } else {
            Accion::SonarVictoria
        }
    } else {
        a == Accion::Ninguna && despues == antes
    }
}

impl Juego {
    #[verifier::type_invariant]
    spec fn bien_formado(self) -> bool {
        &&& self.prob_zorros <= PROBABILIDAD_MAXIMA
        &&& self.prob_conejos <= PROBABILIDAD_MAXIMA
        &&& self.prob_mutacion <= PROBABILIDAD_MAXIMA
    }

    /// A new game: on the menu, with densities of 15 % foxes, 15 % rabbits and
    /// 5 % mutation, an empty board and zero totals.
    pub fn nuevo() -> (j: Juego)
        ensures
            j@.estado == EstadoJuego::Menu,
            j@.prob_zorros == 15,
            j@.prob_conejos == 15,
            j@.prob_mutacion == 5,
            forall|f: int, c: int|
                0 <= f < FILAS && 0 <= c < COLUMNAS ==> #[trigger] celda(j@.tablero, f, c)
                    == Entidad::Vacio,
            j@.total_zorros == 0,
            j@.total_conejos == 0,
            j@.total_misterios == 0,
            densidades_validas(j@),
    {
        Juego {
            estado: EstadoJuego::Menu,
            prob_zorros: 15,
            prob_conejos: 15,
            prob_mutacion: 5,
            tablero: tablero_vacio(),
            total_zorros: 0,
            total_conejos: 0,
            total_misterios: 0,
        }
    }

    /// The densities of a game always lie within the range of the controls.
    pub fn densidades(&self) -> (r: (u32, u32, u32))
        ensures
            r == (self@.prob_zorros, self@.prob_conejos, self@.prob_mutacion),
            densidades_validas(self@),
    {
        proof {
            use_type_invariant(self);
        }
        (self.prob_zorros, self.prob_conejos, self.prob_mutacion)
    }

    /// The current screen.
    pub fn estado(&self) -> (r: EstadoJuego)
        ensures
            r == self@.estado,
    {
        self.estado
    }

    /// The current board.
    pub fn tablero(&self) -> (r: Tablero)
        ensures
            r == self@.tablero,
    {
        self.tablero
    }

    /// The totals of foxes, rabbits and mutations counted at the last turn.
    pub fn totales(&self) -> (r: (i32, i32, i32))
        ensures
            r == (self@.total_zorros, self@.total_conejos, self@.total_misterios),
    {
        (self.total_zorros, self.total_conejos, self.total_misterios)
    }

    /// Handles a press, filling the board from the given rolls (out of 100) if
    /// the press starts a game.
    pub fn pulsar_con_tiradas(&mut self, p: Pulsacion, tiradas: &Tiradas) -> (a: Accion)
        ensures
            tras_pulsar(old(self)@, p, final(self)@, a),
            inicia(old(self)@, p) ==> forall|f: int, c: int|
                0 <= f < FILAS && 0 <= c < COLUMNAS ==> #[trigger] celda(final(self)@.tablero, f, c)
                    == celda_inicial(
                    tirada_en(*tiradas, f, c) as int,
                    old(self)@.prob_zorros as int,
                    old(self)@.prob_conejos as int,
                ),
            densidades_validas(final(self)@),
    {
        proof {
            use_type_invariant(&*self);
        }
        let a = match self.estado {
            EstadoJuego::Menu => {
                match p {
                    Pulsacion::MasZorros => {
                        self.prob_zorros = subir_probabilidad(self.prob_zorros);
                    },
                    Pulsacion::MenosZorros => {
                        self.prob_zorros = bajar_probabilidad(self.prob_zorros);
                    },
                    Pulsacion::MasConejos => {
                        self.prob_conejos = subir_probabilidad(self.prob_conejos);
                    },
                    Pulsacion::MenosConejos => {
                        self.prob_conejos = bajar_probabilidad(self.prob_conejos);
                    },
                    Pulsacion::MasMutacion => {
                        self.prob_mutacion = subir_probabilidad(self.prob_mutacion);
                    },
                    Pulsacion::MenosMutacion => {
                        self.prob_mutacion = bajar_probabilidad(self.prob_mutacion);
                    },
                    Pulsacion::Iniciar => {
                        self.tablero = inicializar_con_tiradas(
                            tiradas,
                            self.prob_zorros,
                            self.prob_conejos,
                        );
                        self.estado = EstadoJuego::Simulando;
                    },
                    _ => {},
                }
                Accion::Ninguna
            },
            EstadoJuego::Simulando => {
                match p {
                    Pulsacion::VolverAlMenu => {
                        self.estado = EstadoJuego::Menu;
                        Accion::VolverAMusicaIntro
                    },
                    _ => Accion::Ninguna,
                }
            },
            _ => {
                match p {
                    Pulsacion::SeguirSimulando => {
                        self.estado = EstadoJuego::Menu;
                        Accion::VolverAMusicaIntro
                    },
                    Pulsacion::Salir => Accion::Salir,
                    _ => Accion::Ninguna,
                }
            },
        };
        proof {
            use_type_invariant(&*self);
        }
        a
    }

    /// Handles a press; a press that starts a game fills the board at random
    /// from `generador` with the densities of the menu.
    pub fn pulsar(&mut self, p: Pulsacion, generador: &mut ThreadRng) -> (a: Accion)
        ensures
            tras_pulsar(old(self)@, p, final(self)@, a),
            inicia(old(self)@, p) ==> inicial_posible(
                final(self)@.tablero,
                old(self)@.prob_zorros as int,
                old(self)@.prob_conejos as int,
            ),
            densidades_validas(final(self)@),
    {
        proof {
            use_type_invariant(&*self);
        }
        if self.estado == EstadoJuego::Menu && p == Pulsacion::Iniciar {
            self.tablero = inicializar(generador, self.prob_zorros, self.prob_conejos);
            self.estado = EstadoJuego::Simulando;
            Accion::Ninguna
        } else {
            let sin_tiradas: Tiradas = [[0u32; COLUMNAS]; FILAS];
            self.pulsar_con_tiradas(p, &sin_tiradas)
        }
    }

    /// Plays one turn with the given rolls (see `cota_de_tirada`), if the
    /// simulation is running.
    pub fn turno_con_tiradas(&mut self, tiradas: &Tiradas) -> (a: Accion)
        ensures
            tras_turno(old(self)@, final(self)@, a),
            old(self)@.estado == EstadoJuego::Simulando ==> forall|f: int, c: int|
                0 <= f < FILAS && 0 <= c < COLUMNAS ==> #[trigger] celda(final(self)@.tablero, f, c)
                    == sucesor_celda(
                    old(self)@.tablero,
                    f,
                    c,
                    tirada_en(*tiradas, f, c) as int,
                    old(self)@.prob_mutacion as int,
                ),
            densidades_validas(final(self)@),
    {
        proof {
            use_type_invariant(&*self);
        }
        if self.estado == EstadoJuego::Simulando {
            self.tablero = paso_con_tiradas(&self.tablero, tiradas, self.prob_mutacion);
            self.registrar_turno()
        } else {
            Accion::Ninguna
        }
    }

    /// Plays one turn, if the simulation is running, drawing from `generador` the
    /// rolls that the rules need.
    pub fn turno(&mut self, generador: &mut ThreadRng) -> (a: Accion)
        ensures
            tras_turno(old(self)@, final(self)@, a),
            old(self)@.estado == EstadoJuego::Simulando ==> sucesor_posible(
                old(self)@.tablero,
                final(self)@.tablero,
                old(self)@.prob_mutacion as int,
            ),
            densidades_validas(final(self)@),
    {
        proof {
            use_type_invariant(&*self);
        }
        if self.estado == EstadoJuego::Simulando {
            self.tablero = paso(&self.tablero, generador, self.prob_mutacion);
            self.registrar_turno()
        } else {
            Accion::Ninguna
        }
    }

    /// Counts the new board and decides whether the game goes on.
    fn registrar_turno(&mut self) -> (a: Accion)
        ensures
            final(self)@.tablero == old(self)@.tablero,
            final(self)@.prob_zorros == old(self)@.prob_zorros,
            final(self)@.prob_conejos == old(self)@.prob_conejos,
            final(self)@.prob_mutacion == old(self)@.prob_mutacion,
            final(self)@.total_zorros == total(final(self)@.tablero, Entidad::Zorro),
            final(self)@.total_conejos == total(final(self)@.tablero, Entidad::Conejo),
            final(self)@.total_misterios == total(final(self)@.tablero, Entidad::Misterio),
            final(self)@.estado == estado_tras_recuento(
                final(self)@.total_zorros as int,
                final(self)@.total_conejos as int,
            ),
            a == if final(self)@.estado == EstadoJuego::Simulando {
                Accion::Ninguna
            } else {
                Accion::SonarVictoria
            },
    {
        proof {
            use_type_invariant(&*self);
        }
        let (zorros, conejos, misterios) = contar_totales(&self.tablero);
        self.total_zorros = zorros;
        self.total_conejos = conejos;
        self.total_misterios = misterios;
        let e = evaluar_final(zorros, conejos);
        self.estado = e;
        if e == EstadoJuego::Simulando {
            Accion::Ninguna
        } else {
            Accion::SonarVictoria
        }
    }
}

/// One step down undoes one step up that stayed below the maximum, and one step
/// up undoes one step down that stayed above zero; both stay within the range of
/// the controls.
pub proof fn ley_pasos_de_control(p: int)
    requires
        0 <= p <= PROBABILIDAD_MAXIMA,
    ensures
        0 <= subida(p) <= PROBABILIDAD_MAXIMA,
        0 <= bajada(p) <= PROBABILIDAD_MAXIMA,
        p + PASO_PROBABILIDAD <= PROBABILIDAD_MAXIMA ==> bajada(subida(p)) == p,
        p >= PASO_PROBABILIDAD ==> subida(bajada(p)) == p,
{
}

/// A press enters the simulation exactly when it is the start button on the
/// menu, and only such a press replaces the board.
pub proof fn ley_inicio_de_partida(antes: JuegoVista, p: Pulsacion, despues: JuegoVista, a: Accion)
    requires
        tras_pulsar(antes, p, despues, a),
    ensures
        (antes.estado != EstadoJuego::Simulando && despues.estado == EstadoJuego::Simulando)
            <==> inicia(antes, p),
        !inicia(antes, p) ==> despues.tablero == antes.tablero,
{
}

/// On a final screen, the game goes back to the menu exactly on the button that
/// asks for it, and closes exactly on the exit button; nothing else changes.
pub proof fn ley_pantallas_finales(antes: JuegoVista, p: Pulsacion, despues: JuegoVista, a: Accion)
    requires
        tras_pulsar(antes, p, despues, a),
        es_final(antes.estado),
    ensures
        (despues.estado == EstadoJuego::Menu) <==> (p == Pulsacion::SeguirSimulando),
        (a == Accion::Salir) <==> (p == Pulsacion::Salir),
        p != Pulsacion::SeguirSimulando ==> despues == antes,
{
}

/// A turn of the simulation keeps it running exactly while both species are on
/// the board; otherwise it shows a final screen and sounds the victory music:
/// the foxes' victory when only rabbits are gone, the rabbits' victory when only
/// foxes are gone, and mutual extinction when both are.
pub proof fn ley_fin_de_partida(antes: JuegoVista, despues: JuegoVista, a: Accion)
    requires
        tras_turno(antes, despues, a),
        antes.estado == EstadoJuego::Simulando,
    ensures
        (despues.estado == EstadoJuego::Simulando) <==> (total(despues.tablero, Entidad::Zorro) > 0
            && total(despues.tablero, Entidad::Conejo) > 0),
        es_final(despues.estado) <==> (a == Accion::SonarVictoria),
        despues.estado == EstadoJuego::VictoriaZorros <==> (total(despues.tablero, Entidad::Zorro)
            > 0 && total(despues.tablero, Entidad::Conejo) == 0),
        despues.estado == EstadoJuego::VictoriaConejos <==> (total(despues.tablero, Entidad::Zorro)
            == 0 && total(despues.tablero, Entidad::Conejo) > 0),
        despues.estado == EstadoJuego::ExtincionMutua <==> (total(despues.tablero, Entidad::Zorro)
            == 0 && total(despues.tablero, Entidad::Conejo) == 0),
{
}

} // verus!
