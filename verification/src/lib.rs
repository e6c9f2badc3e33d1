//! Verified core of the CapeOS services: the gateway's routing table and
//! proxy decisions, token extraction and issuing, error and response models,
//! service discovery, the message bus registry, the user service's login and
//! registration, and the main service's system endpoints.

pub mod auth;
pub mod bus;
pub mod cli;
pub mod clock;
pub mod discovery;
pub mod error;
pub mod gateway;
pub mod json;
pub mod jwt;
pub mod models;
pub mod paths;
pub mod response;
pub mod route_table;
pub mod system;
pub mod text;
pub mod users;
pub mod web;
