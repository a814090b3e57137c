//! A toroidal snake game: grid model, tick transition, fruit placement,
//! key decoding and differential rendering, each with a verified contract.

pub mod point;
pub mod grid;
pub mod fruit;
pub mod game;
pub mod render;
pub mod input;
pub mod session;
