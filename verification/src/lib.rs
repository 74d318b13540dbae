//! Core logic of a terminal anime browser: episode selection, watch history,
//! stream ranking, provider response decoding, AniList helpers, player
//! command construction and the interface's navigation rules.

pub mod text;
pub mod quality;
pub mod media;
pub mod seqs;
pub mod episode;
pub mod history;
pub mod provider;
pub mod links;
pub mod json;
pub mod pattern;

pub mod sources;
pub mod responses;
pub mod crypto;
pub mod allanime;
pub mod web;
pub mod schedule;
pub mod config;
pub mod skip;
pub mod player;
pub mod tui;
pub mod ui;
pub mod keys;
pub mod events;
pub mod tasks;
pub mod anilist;
pub mod aniskip;
pub mod screens;
pub mod lists;
