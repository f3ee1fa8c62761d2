use mock_server::{export, import, EndpointRegistry, ServerSettings, TlsStore};

#[test]
fn import_of_export_restores_state() {
    let mut reg = EndpointRegistry::new();
    reg.add_with_id("1".to_string(), "GET".to_string(), "/a".to_string(), "A".to_string(), 200, 5);
    reg.add_with_id("2".to_string(), "PUT".to_string(), "/b".to_string(), "B".to_string(), 204, 0);
    let mut tls = TlsStore::new();
    tls.set("cert".to_string(), "key".to_string());
    let settings = ServerSettings { port: 9443, bind_addr: "0.0.0.0".to_string(), enable_tls: true };
    let snap = export(&reg, &tls, &settings, "demo".to_string(), "2024-01-01T00:00:00Z".to_string());
    assert_eq!(snap.name, "demo");
    assert_eq!(snap.last_saved, "2024-01-01T00:00:00Z");

    let mut reg2 = EndpointRegistry::new();
    let mut tls2 = TlsStore::new();
    let mut settings2 = ServerSettings::initial();
    import(snap, &mut reg2, &mut tls2, &mut settings2);
    let a = reg.list();
    let b = reg2.list();
    assert_eq!(a.len(), b.len());
    for (x, y) in a.iter().zip(b.iter()) {
        assert_eq!((&x.id, &x.method, &x.path, x.status, x.delay, &x.response), (&y.id, &y.method, &y.path, y.status, y.delay, &y.response));
    }
    let t = tls2.get().unwrap();
    assert_eq!((t.cert_path.as_str(), t.key_path.as_str()), ("cert", "key"));
    assert_eq!((settings2.port, settings2.bind_addr.as_str(), settings2.enable_tls), (9443, "0.0.0.0", true));
}

#[test]
fn import_without_tls_clears_config() {
    let reg = EndpointRegistry::new();
    let tls = TlsStore::new();
    let snap = export(&reg, &tls, &ServerSettings::initial(), "p".to_string(), "t".to_string());
    let mut reg2 = EndpointRegistry::new();
    reg2.add("GET".to_string(), "/".to_string(), "".to_string(), 200, 0);
    let mut tls2 = TlsStore::new();
    tls2.set("c".to_string(), "k".to_string());
    let mut settings2 = ServerSettings { port: 1, bind_addr: "x".to_string(), enable_tls: true };
    import(snap, &mut reg2, &mut tls2, &mut settings2);
    assert_eq!(reg2.len(), 0);
    assert!(tls2.get().is_none());
    assert_eq!(settings2.port, 3000);
    assert_eq!(settings2.bind_addr, "127.0.0.1");
    assert!(!settings2.enable_tls);
}
