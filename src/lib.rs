//! Multi-tenant payroll record keeping: a bitmask permission model, tenant-scoped
//! authorization, a unit-of-work transaction protocol, and the document ingestion
//! and retrieval workflows that span the database and the object store.

pub mod error;
pub mod permission;
pub mod authorization;
pub mod company;
pub mod text;
pub mod user;
pub mod payroll;
pub mod ingestion;
pub mod retrieval;
pub mod unit_of_work;
pub mod user_creation;
pub mod config;
pub mod auth;
