//! The configuration core of a decompiler, verified.
//!
//! An [`architecture::Architecture`] holds the configuration of one program: the settings
//! that options write, and what compiler and processor specifications say. Its parts:
//!
//! - named options and modes: [`option_table`], [`settings`], with their laws in
//!   [`option_order`], [`option_laws`] and [`setting_laws`], and with what is known of each
//!   switch in [`switch_table`];
//! - options in lists: [`options`], [`option_database`], [`option_list`], acting on the
//!   state described in [`context`], with laws in [`option_effect_laws`],
//!   [`command_laws`], [`option_list_laws`] and [`list_step_laws`];
//! - address spaces and what a specification says of them: [`space`], [`cspec`],
//!   [`types`], with laws in [`layout_laws`];
//! - calling conventions: [`proto`], [`proto_decode`], [`proto_models`],
//!   [`proto_registry`], with laws in [`resource_laws`] and [`model_laws`];
//! - processors: [`pspec`], [`pspec_symbols`], with laws in [`processor_laws`];
//! - symbols, warnings, actions, the printer: [`symbols`], [`comments`], [`actions`],
//!   [`printer`];
//! - bringing it up and handing it on: [`init`], [`accessors`], [`handle`], with laws in
//!   [`context_laws`];
//! - texts and numbers: [`text`], [`int_parse`], with laws in [`text_laws`].
//!
//! Work that only other parts of the decompiler can do is not done here. A function that
//! needs it takes the outcome as an argument, or says what to ask next.

pub mod accessors;
pub mod actions;
pub mod architecture;
pub mod command_laws;
pub mod comments;
pub mod context;
pub mod context_laws;
pub mod cspec;
pub mod error;
pub mod handle;
pub mod init;
pub mod int_parse;
pub mod layout_laws;
pub mod list_step_laws;
pub mod model_laws;
pub mod name_map;
pub mod option_database;
pub mod option_effect_laws;
pub mod option_laws;
pub mod option_list;
pub mod option_list_laws;
pub mod option_order;
pub mod option_table;
pub mod options;
pub mod printer;
pub mod processor_laws;
pub mod proto;
pub mod proto_decode;
pub mod proto_models;
pub mod proto_registry;
pub mod pspec;
pub mod pspec_symbols;
pub mod resource_laws;
pub mod setting_laws;
pub mod settings;
pub mod space;
pub mod switch_table;
pub mod symbols;
pub mod text;
pub mod text_laws;
pub mod toggle;
pub mod types;
pub mod xml;
