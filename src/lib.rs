//! Decision logic of a pan-orbit camera: which input a frame consumes, how a
//! viewport and a projection select the pan scaling rule, and the order in
//! which a camera update is carried out.

pub mod controls;
pub mod projection;
pub mod resolve;
