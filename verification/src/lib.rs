//! Track, race and menu logic of a small ray-cast kart racer.
pub mod tiles;
pub mod track;
pub mod palette;
pub mod race;
pub mod game;
pub mod text;
pub mod scenery;
