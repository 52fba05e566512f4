//! Small game-domain designs, each with its behaviour proved: players that
//! score, heal and compete; matchmaking slots and marketplace trades as state
//! machines, flat, nested and typestate; and parsers for spawn commands and
//! configuration text with errors at the right level.
pub mod bad_getters;
pub mod broken_matching;
pub mod cleaner_matching;
pub mod clock;
pub mod composition;
pub mod config_content;
pub mod config_file;
pub mod decimal;
pub mod diagram;
pub mod flat_marketplace;
pub mod hybrid;
pub mod methods_vs_free;
pub mod nested_marketplace;
pub mod open_party;
pub mod pure_enum;
pub mod rogue_plugin;
pub mod spawn;
pub mod tdd_ownership;
pub mod text;
pub mod typestate_marketplace;
pub mod typestate_matchmaking;
