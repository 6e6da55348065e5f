//! Backend command layer of a patient / user registration application.
//!
//! The library validates plain input records, derives salted credential
//! hashes, and performs single-row inserts, updates, deletes and selects
//! against an in-memory model of the relational store, returning a result
//! payload or an error drawn from a small closed taxonomy.

use vstd::prelude::*;

pub mod banco;
pub mod comandos;
pub mod credenciais;
pub mod erros;
pub mod texto;
pub mod validacao;

verus! {

/// Default connection string for the local database file, used by the host
/// when no override is configured.
pub fn default_db_url() -> (r: String)
    ensures
        r@ == "sqlite://./src-tauri/data/upa.db"@,
{
    String::from_str("sqlite://./src-tauri/data/upa.db")
}

} // verus!
