//! Verified core of the omega terminal UI and its tool registry.
pub mod chars;
pub mod outside;
pub mod tools;
pub mod order;
pub mod dispatcher;
pub mod text;
pub mod app;
pub mod overlay;
pub mod delivery;
pub mod sorted;
pub mod turn_delivery;
pub mod report;
pub mod input;
pub mod selection;
pub mod overlays;
pub mod todo;
pub mod supervision;
pub mod config;
pub mod clipboard;
pub mod navigation;
pub mod delivery_app;
pub mod transcript;
pub mod turns;
pub mod skills;
pub mod reducer;
pub mod context_supervision;
pub mod diagnostics;
pub mod response_text;
pub mod keys;
pub mod knowledge;
pub mod lanes;
pub mod subflows;
pub mod timeline;
pub mod rail;
pub mod picker;
pub mod overlay_keys;
pub mod picker_actions;
pub mod navigator;
pub mod cards;
pub mod sidebar_focus;
pub mod restore;
