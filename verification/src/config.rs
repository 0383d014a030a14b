//! The service's process-lifetime settings: supplied at startup, read-only
//! afterwards, shared by every concurrently handled request.

use vstd::prelude::*;

verus! {

/// Everything the service is configured with. `auth_key` is the optional
/// secret of the credential validator; `max_batch_size`,
/// `max_input_length` and `max_request_size_mb` bound what one request may
/// submit; the rest addresses the listener, the model and the CORS layer.
pub struct Config {
    pub host: String,
    pub port: u16,
    pub model_path: String,
    pub auth_key: Option<String>,
    pub cors_origins: Option<String>,
    pub cors_allow_credentials: bool,
    pub max_batch_size: usize,
    pub max_input_length: usize,
    pub max_request_size_mb: usize,
    pub normalize_embeddings: bool,
}

impl Default for Config {
    /// The stock settings: a local listener, the stock model, no
    /// authentication, and unrestricted cross-origin access.
    fn default() -> (c: Config)
        ensures
            c.host@ == "127.0.0.1"@,
            c.port == 8080,
            c.model_path@ == "minishlab/potion-base-8M"@,
            c.auth_key is None,
            c.cors_origins is None,
            !c.cors_allow_credentials,
            c.max_batch_size == 100,
            c.max_input_length == 8192,
            c.max_request_size_mb == 8,
            !c.normalize_embeddings,
    {
        Config {
            host: "127.0.0.1".to_owned(),
            port: 8080,
            model_path: "minishlab/potion-base-8M".to_owned(),
            auth_key: None,
            cors_origins: None,
            cors_allow_credentials: false,
            max_batch_size: 100,
            max_input_length: 8192,
            max_request_size_mb: 8,
            normalize_embeddings: false,
        }
    }
}

} // verus!
