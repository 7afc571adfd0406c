//! A predator-prey cellular automaton on a toroidal grid: foxes, rabbits and
//! short-lived mutations, with the rules, the board step and the game's state
//! machine proved against their contracts.

pub mod modelo;
pub mod vecindad;
pub mod reglas;
pub mod azar;
pub mod tablero;
pub mod recuento;
pub mod juego;
pub mod doble_conteo;
