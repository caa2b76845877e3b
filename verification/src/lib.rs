//! Compiles a container-assembly manifest into the argument list of one
//! `podman create` invocation.
//!
//! The manifest types live in [`manifest`], the flag fragments built from the
//! `share` section in [`share_args`], and the full invocation in [`command`].
//! [`theorems`] and [`counts`] state what holds of every invocation: where
//! each token stands, and how often.
//!
//! Reading the path of the running executable and the numeric ids of the
//! process is left to the caller, who hands them to
//! [`Container::create_command`].

pub mod command;
pub mod counts;
pub mod host;
pub mod json;
pub mod manifest;
pub mod share_args;
pub mod text;
pub mod theorems;

pub use command::{CreateError, InitPayload};
pub use host::HostUser;
pub use manifest::{Container, ContainerInit, ContainerMount, ContainerShare};
