//! The settings read from the configuration file.

use vstd::prelude::*;

verus! {

/// Paths of the files the streaming tool reads and writes.
#[derive(Debug, Clone)]
pub struct AppConfig {
    pub in_file: String,
    pub out_file: String,
    pub init_enc_pwd_file: String,
    pub re_enc_pwd_file: String,
    pub init_random_seed_file: String,
    pub re_enc_random_seed_file: String,
}

} // verus!
