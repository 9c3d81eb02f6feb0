//! The rules of Grapple Arena, a 2D platformer, kept apart from the engine that
//! draws it and simulates its physics.
//!
//! Every function here takes plain values (flags, counters, entity ids, the
//! collision events of a frame) and answers with the next state and with what
//! the caller has to do to the game world. Distances, speeds and durations are
//! whole numbers in the units of the world (pixels, pixels per second,
//! milliseconds); the caller turns them into whatever its engine wants.
//!
//! Two things of the engine are used as they are: the keyboard input it
//! collects ([`keyboard`]) and its timers ([`timer`]). What they do is not
//! proved here; each call into them stands in a small function of its own
//! whose contract gives the answer a name, and the rules are proved over
//! those names.

pub mod animation;
pub mod collectibles;
pub mod game_menu;
pub mod grapple;
pub mod keyboard;
pub mod lava;
pub mod levels;
pub mod physics;
pub mod player;
pub mod progression_ui;
pub mod startup;
pub mod timer;
pub mod wall_climb;
