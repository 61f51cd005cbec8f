//! Compiles the operators of a neural-network graph into GPU compute programs.
//!
//! For one operator node and the shapes of its operands, the compiler chooses a
//! shader template, works out how many workgroups to dispatch within the limits
//! of the device, binds the variables that the template reads, and renders the
//! shader source. Every rule of that choice is stated as a specification and
//! proved of the code that implements it.
//!
//! The compiler computes with integers only. A real-valued attribute is held
//! as the decimal literal that is written into the shader source, and is
//! handed on as it is, but for the scale factors of a resize, which are
//! rounded to two decimals.
//!
//! Templates are kept and rendered by the `tera` crate. What is assumed of that
//! crate is said where it is called, in [`templates`]; nothing else is
//! assumed. The verified compiler renders with registries of plain templates
//! ([`plain`]): variables, conditions and loops over lists, on which the
//! renderer is known to return.

pub mod attributes;
pub mod bounds;
pub mod compiler;
pub mod decimal;
pub mod environment;
pub mod error;
pub mod named;
pub mod ops;
pub mod plain;
pub mod resource;
pub mod selection;
pub mod templates;
pub mod text;
pub mod types;
pub mod workgroup;
