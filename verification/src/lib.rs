//! Core of a polyhedron evolution engine: solids of a fixed family collide,
//! and a pair that shares its origin is replaced by the successor solid of an
//! evolution graph. Everything here works on plain values, so that a frame
//! loop can hand in what it observed and carry out what is decided.
//!
//! - `kind`: the family of solids.
//! - `key`: names of instances, and the origin that a name carries.
//! - `evolution`: which solid follows which origin.
//! - `geometry`: mesh descriptors in exact arithmetic, and their rules.
//! - `solids`, `platonic`, `dodecahedron`, `fullerene`: tables of the solids
//!   with flat faces; `generator`: from a solid and a scale to its mesh.
//! - `cache`: the mesh slots.
//! - `tracker`: from a candidate pair of the near phase to a record.
//! - `space`, `action`, `command`: places, requests to the frame loop, keys.
//! - `sim`: the engine itself.

pub mod action;
pub mod cache;
pub mod command;
pub mod dodecahedron;
pub mod evolution;
pub mod fullerene;
pub mod generator;
pub mod geometry;
pub mod key;
pub mod kind;
mod outside;
pub mod platonic;
pub mod sim;
pub mod solids;
pub mod space;
pub mod tracker;
