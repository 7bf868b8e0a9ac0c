//! A double-buffered terminal rendering engine with a verified core.
//!
//! The heart of the crate is a grid of styled character cells ([`buffer::Buffer`]),
//! a diff engine that computes the minimal ordered set of per-cell changes
//! between two frames ([`diff`]), and a style tracker that turns those changes
//! into a minimal sequence of terminal control operations ([`emit`]).
//! [`terminal::CustomTerminal`] owns two buffers and a [`backend::Backend`] and
//! drives the full per-frame lifecycle: autoresize, render, diff, flush,
//! cursor update, swap.
//!
//! Around that core live the application's supporting pieces: the menu
//! pages and their state machines, the input line editor, configuration
//! and output shaping, the blueprint fragments with their validators and
//! assembler, and the file-name matcher.

pub mod api;
pub mod app_events;
pub mod backend;
pub mod buffer;
pub mod cell;
pub mod chat;
pub mod cli_commands;
pub mod config;
pub mod config_menu;
pub mod diff;
pub mod emit;
pub mod find_files;
pub mod fragments;
pub mod frame;
pub mod geom;
pub mod init_system;
pub mod input_handler;
pub mod main_menu;
pub mod menu_common;
pub mod notifications;
pub mod output;
pub mod overlay;
pub mod pipeline;
pub mod provider_menu;
pub mod reedline_menu;
pub mod sbp_assembler;
pub mod strutil;
pub mod style;
pub mod terminal;
pub mod tui;
pub mod zai;
