use netgene::kernel::marketplace::{default_manifests, manifest_file_name, Marketplace, MarketplaceError};

#[test]
fn install_finds_listed_agents_by_id() {
    let market = Marketplace::with_registry("/tmp/registry".to_string());
    assert_eq!(market.registry_path(), "/tmp/registry");
    let listed: Vec<_> = default_manifests().into_iter().map(|(_, m)| m).collect();
    let agent = market.install_agent("sentinel-guard-v2", listed.clone()).unwrap();
    assert_eq!(agent.name, "Sentinel Guard");
    assert_eq!(agent.version, "2.1.0");
    assert_eq!(agent.capabilities, vec!["anomaly-detection", "self-healing"]);
    let missing = market.install_agent("nope", listed).unwrap_err();
    assert_eq!(missing, MarketplaceError::NotFound { id: "nope".to_string() });
    assert_eq!(missing.message(), "Agent nope not found in marketplace");
}

#[test]
fn install_takes_the_first_manifest_with_the_id() {
    let market = Marketplace::with_registry(".".to_string());
    let mut listed: Vec<_> = default_manifests().into_iter().map(|(_, m)| m).collect();
    let mut twin = listed[0].clone();
    twin.version = "9.9.9".to_string();
    listed.push(twin);
    assert_eq!(market.install_agent("deepseek-coder-bdi", listed).unwrap().version, "1.0.0");
    assert!(market.install_agent("x", Vec::new()).is_err());
}

#[test]
fn the_default_catalogue() {
    let catalogue = default_manifests();
    let files: Vec<&str> = catalogue.iter().map(|(f, _)| f.as_str()).collect();
    assert_eq!(
        files,
        vec!["deepseek-coder.json", "sentinel-guard.json", "swarm-coordinator.json", "crypto-trader-bot.json"]
    );
    let ids: Vec<&str> = catalogue.iter().map(|(_, m)| m.id.as_str()).collect();
    assert_eq!(ids, vec!["deepseek-coder-bdi", "sentinel-guard-v2", "swarm-coordinator", "crypto-trader-bot"]);
    assert_eq!(catalogue[3].1.author, "DeFi NetGene");
    assert_eq!(manifest_file_name("abc"), "abc.json");
}
