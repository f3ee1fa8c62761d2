//! A runtime-configurable HTTP mock server: an ordered endpoint registry, a
//! first-match request router, a single-listener lifecycle manager, TLS
//! material bookkeeping, and project snapshots for save and load.

mod model;
mod registry;
mod router;
mod text;
mod lifecycle;
mod tls;
mod project;
mod interfaces;

pub use model::{
    duplicate_tls, Endpoint, NetworkInterface, ProjectData, SaveProjectParams, ServerSettings,
    SetTlsConfigParams, StartServerParams, TlsConfig,
};
pub use registry::{
    added, apply_edit, apply_edits, deleted_in, lemma_adds_minus_deletes,
    no_id_added_after_its_delete, lemma_delete_unknown_is_noop,
    lemma_edits_keep_insertion_order, same_text, surviving_adds, untouched, without_id,
    EndpointRegistry, RegistryEdit,
};
pub use router::{
    entry_matches, find_endpoint, first_match, has_match, is_first_match, is_supported_method,
    lemma_first_inserted_wins, lemma_first_match_exists, lemma_first_match_is,
    lemma_first_match_unique, method_matches, method_matches_spec, method_matches_upper,
    not_found_body, route, upper_of, RouteResponse,
};
pub use text::{decimal, decimal_text, digit_char};
pub use lifecycle::{
    bind_error, bind_error_text, error_text, lemma_stop_then_status, listen_address,
    listen_address_spec, started_text, tls_load_error, tls_load_error_text, ListenerPlan,
    ServerError, ServerHandle, ServerManager, ServerStatus, StartPlan,
};
pub use tls::{
    cert_pem_header, generate_localhost_pems, generation_failure_prefix, key_pem_header,
    localhost_subjects,
    starts_with, CertificatePems, TlsStore,
};
pub use project::{export, import, lemma_import_export_round_trip, snapshot_of};
pub use interfaces::{
    fixed_choices, interface_label, interface_views, is_offered_address, network_interfaces,
    offered, text_starts_with,
};
