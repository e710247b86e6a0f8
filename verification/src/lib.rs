//! The rules of a chat game: commands, documents, content packages, media
//! delivery and the checks around them.
pub mod alias;
pub mod argument_meaning;
pub mod asset_meaning;
pub mod assets;
pub mod battle_documents;
pub mod battle_meaning;
pub mod catalog;
pub mod catalog_laws;
pub mod checkin;
pub mod cli;
pub mod command_meaning;
pub mod config;
pub mod config_meaning;
pub mod content;
pub mod content_acceptance;
pub mod content_faults;
pub mod content_laws;
pub mod content_package;
pub mod content_rules;
pub mod context;
pub mod direct_asset_upload;
pub mod economy_documents;
pub mod economy_meaning;
pub mod entry_order;
pub mod event;
pub mod game;
pub mod game_args;
pub mod game_replies;
pub mod host;
pub mod identity;
pub mod identity_meaning;
pub mod keyed;
pub mod label_meaning;
pub mod labels;
pub mod media;
pub mod media_catalog;
pub mod media_http;
pub mod media_laws;
pub mod media_meaning;
pub mod menu;
pub mod message;
pub mod operation_meaning;
pub mod outside;
pub mod owner_documents;
pub mod owner_meaning;
pub mod player_documents;
pub mod player_meaning;
pub mod player_stage_confirmation;
pub mod player_stage_laws;
pub mod player_stage_meaning;
pub mod player_staging;
pub mod plugin;
pub mod public_seed;
pub mod qq_media;
pub mod quest_documents;
pub mod quest_meaning;
pub mod records;
pub mod refusal_meaning;
pub mod request_meaning;
pub mod seen;
pub mod signature;
pub mod startup;
pub mod text;
pub mod tool_meaning;
pub mod world_documents;
pub mod world_meaning;
