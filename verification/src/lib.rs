//! Core logic of a Shadertoy-style full-screen fragment-shader player.
//!
//! The crate verifies the parts of the player that make decisions:
//! the field-wise merge of externally supplied player state, the
//! preparation of user shader text into a complete fragment-shader
//! unit, and the per-frame state machine that reacts to device loss,
//! shader-reload requests and the pause flag. The host glue that owns
//! the GPU context, the locks and the event listeners drives these
//! functions and performs the actions they return.

pub mod frame;
pub mod player;
pub mod shader;
