//! The channel page of a terminal YouTube client: its three views (main,
//! videos, playlists), cursor handling, pagination through prefetched
//! continuation pages, and the decisions that the page takes on keys, mouse
//! clicks and framework messages.

pub mod item;
pub mod prefetch;
pub mod listcursor;
pub mod layout;
pub mod effects;
pub mod config;
pub mod envs;
pub mod listpage;
pub mod mainpage;
pub mod display;
