//! Planning and sequencing of a one-shot provisioning run that turns a raw
//! disk into an optionally encrypted ZFS root for NixOS, laid out so that
//! the root dataset can be rolled back to a blank snapshot while `/nix`,
//! `/home` and `/per` persist.
//!
//! The library touches nothing. It decides what is to be done, in which
//! order, and what follows from each result; the program around it carries
//! the actions out. [`pipeline::Pipeline`] is the whole run as a machine
//! that hands out one [`command::Action`] at a time and is told by an
//! [`command::Event`] what became of it.
//!
//! The stages of the run, each in a module of its own:
//!
//! - [`profile`]: the host profile and the user, where none is named;
//! - [`identity`]: the pool name, from the host's name and the disk's
//!   serial number;
//! - [`cleanup`]: the lenient teardown of what an earlier run left;
//! - [`geometry`] and [`layout`]: the disk's size and the boundaries of its
//!   partitions;
//! - [`partition`], [`encryption`], [`pool`], [`mount`]: the steps that
//!   write the partition table, wrap partitions in LUKS, create the pool
//!   and its datasets, and mount them under the staging root;
//! - [`config`]: the hardware description and the bootstrap script;
//! - [`stages`]: the scripts that join these, with the confirmation before
//!   and the installer after them.
//!
//! [`laws`] holds what is proved of every run, however its actions are
//! answered: nothing is changed before the user consents, the root dataset
//! is mounted before anything is made under the staging root, the first
//! failure ends the run, and cleanup never fails. Other laws stand beside
//! what they are about: [`layout::layout_law`],
//! [`identity::pool_name_is_deterministic`],
//! [`cleanup::cleanup_never_fails`], [`config::hardware_sections_law`].

pub mod cleanup;
pub mod command;
pub mod config;
pub mod decimal;
pub mod encryption;
pub mod geometry;
pub mod identity;
pub mod laws;
pub mod layout;
pub mod mount;
pub mod partition;
pub mod pipeline;
pub mod pool;
pub mod profile;
pub mod scaffold;
pub mod settings;
pub mod stages;
pub mod text;
