use arcz::plugins::{
    validate_manifest, Capability, NetworkPolicy, PermissionGrant, PluginContractError, PluginHostError,
    PluginManifest, PluginRegistry, RuntimeKind, PLUGIN_API_VERSION,
};
use serde_json::Value;

fn manifest(id: &str, caps: &[&str], network: NetworkPolicy) -> PluginManifest {
    PluginManifest {
        id: id.into(),
        name: "X".into(),
        version: "0.1.0".into(),
        api_version: PLUGIN_API_VERSION,
        runtime: RuntimeKind::LocalProcess,
        entrypoint: "x".into(),
        capabilities: caps.iter().map(|c| Capability(c.to_string())).collect(),
        reads: vec![],
        writes: vec![],
        network,
        deterministic: false,
        gpu_optional: true,
        metadata: Value::Null,
    }
}

#[test]
fn rejects_implicit_remote_network() {
    let m = manifest("x", &[], NetworkPolicy::ExplicitRemote);
    assert_eq!(validate_manifest(&m), Err(PluginContractError::RemoteNetworkWithoutCapability));
    let ok = manifest("x", &["network.remote"], NetworkPolicy::ExplicitRemote);
    assert_eq!(validate_manifest(&ok), Ok(()));
}

#[test]
fn valida_identidade_api_entrada_e_capacidades() {
    let mut m = manifest("  ", &[], NetworkPolicy::Disabled);
    assert_eq!(validate_manifest(&m), Err(PluginContractError::MissingIdentity));
    m.id = "ok".into();
    m.api_version = 2;
    assert_eq!(validate_manifest(&m), Err(PluginContractError::UnsupportedApi(2)));
    m.api_version = PLUGIN_API_VERSION;
    m.entrypoint = " \t".into();
    assert_eq!(validate_manifest(&m), Err(PluginContractError::MissingEntrypoint));
    let vazia = manifest("a", &["road", " "], NetworkPolicy::Disabled);
    assert_eq!(validate_manifest(&vazia), Err(PluginContractError::EmptyCapability));
    let repetida = manifest("a", &["road", " road "], NetworkPolicy::Disabled);
    assert_eq!(validate_manifest(&repetida), Err(PluginContractError::DuplicateCapability("road".to_string())));
}

#[test]
fn indexes_and_authorizes_declared_capability() {
    let mut registry = PluginRegistry::new();
    registry.register(manifest("roads", &["road.generate"], NetworkPolicy::Disabled)).unwrap();
    let mut grant = PermissionGrant::default();
    grant.conceder("road.generate");
    assert_eq!(registry.providers_for("road.generate").len(), 1);
    assert!(registry.authorize("roads", "road.generate", &grant).is_ok());
}

#[test]
fn registro_recusa_duplicado_e_ordena_por_id() {
    let mut r = PluginRegistry::new();
    r.register(manifest("zeta", &["a"], NetworkPolicy::Disabled)).unwrap();
    r.register(manifest("alfa", &["a", "b"], NetworkPolicy::Disabled)).unwrap();
    r.register(manifest("meio", &["b"], NetworkPolicy::Disabled)).unwrap();
    assert_eq!(
        r.register(manifest("alfa", &["c"], NetworkPolicy::Disabled)).unwrap_err(),
        PluginHostError::DuplicatePlugin("alfa".to_string())
    );
    assert!(matches!(
        r.register(manifest("", &[], NetworkPolicy::Disabled)),
        Err(PluginHostError::InvalidManifest(PluginContractError::MissingIdentity))
    ));
    assert_eq!(r.len(), 3);
    let a: Vec<&str> = r.providers_for("a").iter().map(|m| m.id.as_str()).collect();
    assert_eq!(a, vec!["alfa", "zeta"]);
    assert!(r.get("meio").is_some());
    assert!(r.get("nada").is_none());
}

#[test]
fn autorizacao_exige_declaracao_e_concessao() {
    let mut r = PluginRegistry::new();
    r.register(manifest("roads", &["road.generate"], NetworkPolicy::Disabled)).unwrap();
    let vazio = PermissionGrant::default();
    assert_eq!(
        r.authorize("nada", "road.generate", &vazio),
        Err(PluginHostError::UnknownPlugin("nada".to_string()))
    );
    assert_eq!(
        r.authorize("roads", "terrain.edit", &vazio),
        Err(PluginHostError::CapabilityNotDeclared {
            plugin: "roads".to_string(),
            capability: "terrain.edit".to_string()
        })
    );
    assert_eq!(
        r.authorize("roads", "road.generate", &vazio),
        Err(PluginHostError::CapabilityNotGranted {
            plugin: "roads".to_string(),
            capability: "road.generate".to_string()
        })
    );
    let mut g = PermissionGrant::default();
    assert!(g.conceder("road.generate"));
    assert!(!g.conceder("road.generate"));
    assert_eq!(g.capabilities.len(), 1);
}
