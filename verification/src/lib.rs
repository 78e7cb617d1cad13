//! Typed client for the Turso platform REST API.
//!
//! The library builds the HTTP request (URL, bearer token, JSON body) for
//! each API operation and decodes the untagged success-or-error response
//! bodies. Sending the requests over the network is the caller's part: every
//! operation is one round trip, built here and decoded here.

pub mod client;
pub mod databases;
pub mod groups;
pub mod json;
pub mod locations;
pub mod organizations;

pub use client::{
    Authorization, BasePlatform, DatabaseInstancesPlatform, DatabasesPlatform, GroupsPlatform,
    HttpRequest, LocationsPlatform, MembersPlatform, Method, OrganizationsPlatform, ResponseError,
    TursoClient, TursoError,
};
