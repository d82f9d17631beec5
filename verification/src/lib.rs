//! Verified core of the Grim wallet user interface: navigation, modal and
//! keyboard state machines, text input editing, settings entered at modals, value
//! parsing, QR code classification and pictures, and animated QR code parts.

pub mod text;
pub mod number;
pub mod keyboard;
pub mod edit;
pub mod modal;
pub mod screens;
pub mod navigator;
pub mod colors;
pub mod config;
pub mod network;
pub mod qr;
pub mod qr_image;
pub mod picture;
pub mod uniform;
pub mod scan;
pub mod content;
pub mod file_pick;
pub mod setup;
pub mod connections;
pub mod info;
pub mod views;
pub mod accounts;
pub mod settings;
pub mod network_tabs;
pub mod mining;
pub mod network_panel;
