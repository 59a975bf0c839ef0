//! A binding to a native graphics driver that is loaded at run time, for
//! asking the driver what it offers: layers, extensions, physical devices and
//! their features, limits and queue families.
//!
//! The binding decides; a [`driver::Driver`] calls. [`library::Library`] holds
//! the loaded image and resolves entry points through the resolver found in
//! it. [`entry::Entry`] holds the entry points that need no context and makes
//! contexts; [`instance::Instance`] is one context, with the entry points
//! resolved under it. Every plural query runs the two-call protocol of
//! [`enumeration`], whose decisions are those of [`protocol`]. The records
//! and numbers of the driver are in [`vk`], [`records`] and [`flags`].

pub mod driver;
pub mod entry;
pub mod enumeration;
pub mod error;
pub mod flags;
pub mod function;
pub mod instance;
pub mod library;
pub mod protocol;
pub mod records;
pub mod symbol;
pub mod text;
pub mod vk;
