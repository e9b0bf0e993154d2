//! The logic of six small interactive programs: a counter, a temperature
//! converter, a flight booker, a timer, a list editor and a circle drawer.
//! Each program's window code lives outside this crate; what it decides is here.
pub mod canvas;
pub mod circle_drawer;
pub mod circle_map;
pub mod counter;
pub mod crud;
pub mod flight;
pub mod geometry;
pub mod history;
pub mod numeral;
pub mod temperature;
pub mod text;
pub mod timer;
