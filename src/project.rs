use vstd::prelude::*;

use crate::model::{duplicate_tls, ProjectData, ServerSettings, TlsConfig};
use crate::registry::EndpointRegistry;
use crate::tls::TlsStore;

verus! {

/// `d` is a snapshot of the given endpoints, TLS configuration and settings.
pub open spec fn snapshot_of(
    d: ProjectData,
    entries: Seq<crate::model::Endpoint>,
    tls: Option<TlsConfig>,
    settings: ServerSettings,
) -> bool {
    &&& d.endpoints@ == entries
    &&& d.tls_config == tls
    &&& d.settings == settings
}

/// Takes a snapshot of the live state, under a project name and the time
/// of saving.
pub fn export(
    registry: &EndpointRegistry,
    tls: &TlsStore,
    settings: &ServerSettings,
    name: String,
    last_saved: String,
) -> (r: ProjectData)
    ensures
        snapshot_of(r, registry@, tls.config, *settings),
        r.name == name,
        r.last_saved == last_saved,
{
    ProjectData {
        name,
        last_saved,
        endpoints: registry.list(),
        settings: settings.duplicate(),
        tls_config: duplicate_tls(&tls.config),
    }
}

/// Replaces the endpoints, the TLS configuration and the settings with
/// those of a snapshot, each field wholesale. Owned certificate files stay
/// recorded.
pub fn import(
    data: ProjectData,
    registry: &mut EndpointRegistry,
    tls: &mut TlsStore,
    settings: &mut ServerSettings,
)
    ensures
        snapshot_of(data, final(registry)@, final(tls).config, *final(settings)),
        final(tls).temp_files == old(tls).temp_files,
{
    let ProjectData { name: _, last_saved: _, endpoints, settings: s, tls_config } = data;
    registry.replace_all(endpoints);
    tls.config = tls_config;
    *settings = s;
}

/// Loading a snapshot restores exactly the endpoints, TLS configuration and
/// settings it was taken from.
pub proof fn lemma_import_export_round_trip(
    d: ProjectData,
    entries: Seq<crate::model::Endpoint>,
    tls: Option<TlsConfig>,
    settings: ServerSettings,
    entries2: Seq<crate::model::Endpoint>,
    tls2: Option<TlsConfig>,
    settings2: ServerSettings,
)
    requires
        snapshot_of(d, entries, tls, settings),
        snapshot_of(d, entries2, tls2, settings2),
    ensures
        entries2 == entries,
        tls2 == tls,
        settings2 == settings,
{
}

} // verus!
