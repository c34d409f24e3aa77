//! Touhou 4 ~ Lotus Land Story (PC-98, 1998): file formats and the
//! deterministic gameplay model, with contracts checked by Verus.

pub mod audio;
pub mod bft;
pub mod boss;
pub mod bullet;
pub mod cdg;
pub mod effects;
pub mod enemy;
pub mod enemy_vm;
pub mod game;
pub mod map;
pub mod math;
pub mod menu;
pub mod mpn;
pub mod par;
pub mod pi;
pub mod sim;
pub mod simple_boss;
pub mod player;
pub mod stage;
