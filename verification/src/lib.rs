//! Client-side HUD models: the decisions and state machines behind the
//! game client's windows, kept apart from rendering.

pub mod cooldown;
pub mod cos;
pub mod death;
pub mod exchange;
pub mod focus;
pub mod flipbook;
pub mod free_pvp;
pub mod game_guide;
pub mod guild;
pub mod guild_storage;
pub mod inventory;
pub mod magic_state_board;
pub mod main_popup;
pub mod minimap;
pub mod npc_dialog;
pub mod party;
pub mod teleport;
pub mod text;
pub mod ui_strings;
