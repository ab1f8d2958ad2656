//! The decision logic of an egui front end for the Nintendo 3DS: how touch
//! input becomes egui events, how the software-keyboard text is replayed into
//! egui, which texture-combiner set-up a texture needs, and the bookkeeping of
//! the textures that egui hands out and frees.
pub mod input;
pub mod ime;
pub mod texture;
pub mod texmap;
