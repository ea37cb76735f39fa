//! Verified core of SyndicatFX: the Bullfrog library layer (screen, input,
//! audio bookkeeping), the DOS compatibility helpers and the game rules.
#![allow(non_snake_case)]
#![allow(non_upper_case_globals)]

pub mod util;
pub mod angles;
pub mod mem;
pub mod audio;
pub mod sound;
pub mod state;
pub mod level;
pub mod motion;
pub mod persons;
pub mod types;
pub mod keyboard;
pub mod keybuf;
pub mod screen;
pub mod sprite;
pub mod memory;
pub mod display;
pub mod dos;
pub mod game;
pub mod view;
pub mod sprite_table;
pub mod players;
pub mod x86;
pub mod options;
pub mod chains;
pub mod vehicles;
pub mod weapons;
pub mod walking;
pub mod laws;
pub mod mapwho;
pub mod collide;
