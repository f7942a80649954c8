use protocol_engine::{BitcoinProtocolEngine, NetworkParameters, ProtocolVersion};

#[test]
fn test_protocol_engine_creation() {
    let engine = BitcoinProtocolEngine::new(ProtocolVersion::BitcoinV1).unwrap();
    assert_eq!(engine.get_protocol_version(), ProtocolVersion::BitcoinV1);
    assert_eq!(engine.get_network_params().network_name, "mainnet");
}

#[test]
fn test_protocol_engine_creation_all_variants() {
    // Test mainnet
    let mainnet = BitcoinProtocolEngine::new(ProtocolVersion::BitcoinV1).unwrap();
    assert_eq!(mainnet.get_protocol_version(), ProtocolVersion::BitcoinV1);
    assert_eq!(mainnet.get_network_params().network_name, "mainnet");
    assert!(!mainnet.get_network_params().is_testnet);
    
    // Test testnet
    let testnet = BitcoinProtocolEngine::new(ProtocolVersion::Testnet3).unwrap();
    assert_eq!(testnet.get_protocol_version(), ProtocolVersion::Testnet3);
    assert_eq!(testnet.get_network_params().network_name, "testnet");
    assert!(testnet.get_network_params().is_testnet);
    
    // Test regtest
    let regtest = BitcoinProtocolEngine::new(ProtocolVersion::Regtest).unwrap();
    assert_eq!(regtest.get_protocol_version(), ProtocolVersion::Regtest);
    assert_eq!(regtest.get_network_params().network_name, "regtest");
    assert!(regtest.get_network_params().is_testnet);
}

#[test]
fn test_network_parameters() {
    let mainnet = NetworkParameters::mainnet().unwrap();
    assert_eq!(mainnet.magic_bytes, [0xf9, 0xbe, 0xb4, 0xd9]);
    assert_eq!(mainnet.default_port, 8333);
    assert!(!mainnet.is_testnet);
    
    let testnet = NetworkParameters::testnet().unwrap();
    assert_eq!(testnet.magic_bytes, [0x0b, 0x11, 0x09, 0x07]);
    assert_eq!(testnet.default_port, 18333);
    assert!(testnet.is_testnet);
    
    let regtest = NetworkParameters::regtest().unwrap();
    assert_eq!(regtest.magic_bytes, [0xfa, 0xbf, 0xb5, 0xda]);
    assert_eq!(regtest.default_port, 18444);
    assert!(regtest.is_testnet);
}

#[test]
fn lib_test_network_parameters_consistency() {
    let mainnet = NetworkParameters::mainnet().unwrap();
    assert_eq!(mainnet.max_target, 0x1d00ffff);
    assert_eq!(mainnet.halving_interval, 210000);
    
    let testnet = NetworkParameters::testnet().unwrap();
    assert_eq!(testnet.max_target, 0x1d00ffff);
    assert_eq!(testnet.halving_interval, 210000);
    
    let regtest = NetworkParameters::regtest().unwrap();
    assert_eq!(regtest.max_target, 0x207fffff); // Easier difficulty
    assert_eq!(regtest.halving_interval, 150); // Faster halving
}

#[test]
fn test_feature_support() {
    let mainnet = BitcoinProtocolEngine::new(ProtocolVersion::BitcoinV1).unwrap();
    assert!(mainnet.supports_feature("segwit"));
    assert!(mainnet.supports_feature("taproot"));
    assert!(mainnet.supports_feature("rbf"));
    assert!(mainnet.supports_feature("ctv"));
    assert!(!mainnet.supports_feature("fast_mining"));
    assert!(!mainnet.supports_feature("nonexistent"));
    
    let testnet = BitcoinProtocolEngine::new(ProtocolVersion::Testnet3).unwrap();
    assert!(testnet.supports_feature("segwit"));
    assert!(testnet.supports_feature("taproot"));
    assert!(testnet.supports_feature("rbf"));
    assert!(testnet.supports_feature("ctv"));
    assert!(!testnet.supports_feature("fast_mining"));
    
    let regtest = BitcoinProtocolEngine::new(ProtocolVersion::Regtest).unwrap();
    assert!(regtest.supports_feature("segwit"));
    assert!(regtest.supports_feature("taproot"));
    assert!(regtest.supports_feature("rbf"));
    assert!(regtest.supports_feature("ctv"));
    assert!(regtest.supports_feature("fast_mining"));
}

#[test]
fn test_cross_protocol_validation() {
    let mainnet_engine = BitcoinProtocolEngine::new(ProtocolVersion::BitcoinV1).unwrap();
    let testnet_engine = BitcoinProtocolEngine::new(ProtocolVersion::Testnet3).unwrap();
    
    // Both engines should support the same features
    assert_eq!(
        mainnet_engine.supports_feature("segwit"),
        testnet_engine.supports_feature("segwit")
    );
    assert_eq!(
        mainnet_engine.supports_feature("taproot"),
        testnet_engine.supports_feature("taproot")
    );
    
    // But they should have different network parameters
    assert_ne!(
        mainnet_engine.get_network_params().magic_bytes,
        testnet_engine.get_network_params().magic_bytes
    );
    assert_ne!(
        mainnet_engine.get_network_params().default_port,
        testnet_engine.get_network_params().default_port
    );
}

#[test]
fn test_protocol_version_switching() {
    // Test that we can create engines for different protocol versions
    let versions = vec![
        ProtocolVersion::BitcoinV1,
        ProtocolVersion::Testnet3,
        ProtocolVersion::Regtest,
    ];
    
    for version in versions {
        let engine = BitcoinProtocolEngine::new(version).unwrap();
        assert_eq!(engine.get_protocol_version(), version);
    }
}

#[test]
fn test_network_parameters_equality() {
    let mainnet1 = NetworkParameters::mainnet().unwrap();
    let mainnet2 = NetworkParameters::mainnet().unwrap();
    let testnet = NetworkParameters::testnet().unwrap();
    
    assert_eq!(mainnet1, mainnet2);
    assert_ne!(mainnet1, testnet);
}

#[test]
fn test_protocol_version_equality() {
    assert_eq!(ProtocolVersion::BitcoinV1, ProtocolVersion::BitcoinV1);
    assert_ne!(ProtocolVersion::BitcoinV1, ProtocolVersion::Testnet3);
    assert_ne!(ProtocolVersion::Testnet3, ProtocolVersion::Regtest);
}

#[test]
fn test_feature_activation_by_height() {
    let engine = BitcoinProtocolEngine::new(ProtocolVersion::BitcoinV1).unwrap();
    
    // SegWit activates at block 481,824
    assert!(!engine.is_feature_active("segwit", 481_823, 1503539000));
    assert!(engine.is_feature_active("segwit", 481_824, 1503539857));
    assert!(engine.is_feature_active("segwit", 500_000, 1504000000));
    
    // Taproot activates at block 709,632
    assert!(!engine.is_feature_active("taproot", 709_631, 1636934000));
    assert!(engine.is_feature_active("taproot", 709_632, 1636934400));
    assert!(engine.is_feature_active("taproot", 800_000, 1640000000));
}

#[test]
fn test_economic_parameters_access() {
    let engine = BitcoinProtocolEngine::new(ProtocolVersion::BitcoinV1).unwrap();
    let params = engine.get_economic_parameters();
    
    assert_eq!(params.initial_subsidy, 50_0000_0000);
    assert_eq!(params.halving_interval, 210_000);
    assert_eq!(params.coinbase_maturity, 100);
    
    // Test block subsidy calculation
    assert_eq!(params.get_block_subsidy(0), 50_0000_0000);
    assert_eq!(params.get_block_subsidy(210_000), 25_0000_0000);
}

#[test]
fn test_feature_registry_access() {
    let engine = BitcoinProtocolEngine::new(ProtocolVersion::BitcoinV1).unwrap();
    let registry = engine.get_feature_registry();
    
    assert!(registry.get_feature("segwit").is_some());
    assert!(registry.get_feature("taproot").is_some());
    assert!(registry.get_feature("nonexistent").is_none());
    
    let features = registry.list_features();
    assert!(features.contains(&"segwit".to_string()));
    assert!(features.contains(&"taproot".to_string()));
}

#[test]
fn test_end_to_end_protocol_engine_initialization() {
    // Test that we can create engines for all protocol versions
    let mainnet = BitcoinProtocolEngine::new(ProtocolVersion::BitcoinV1).unwrap();
    let testnet = BitcoinProtocolEngine::new(ProtocolVersion::Testnet3).unwrap();
    let regtest = BitcoinProtocolEngine::new(ProtocolVersion::Regtest).unwrap();

    // Verify they have correct network parameters
    assert_eq!(mainnet.get_network_params().network_name, "mainnet");
    assert_eq!(testnet.get_network_params().network_name, "testnet");
    assert_eq!(regtest.get_network_params().network_name, "regtest");

    // Verify they support the same features
    assert!(mainnet.supports_feature("segwit"));
    assert!(testnet.supports_feature("segwit"));
    assert!(regtest.supports_feature("segwit"));
}

#[test]
fn test_protocol_switching_scenarios() {
    // Test that we can create engines for different protocols
    let mainnet_engine = BitcoinProtocolEngine::new(ProtocolVersion::BitcoinV1).unwrap();
    let testnet_engine = BitcoinProtocolEngine::new(ProtocolVersion::Testnet3).unwrap();
    let regtest_engine = BitcoinProtocolEngine::new(ProtocolVersion::Regtest).unwrap();

    // All engines should support the same basic features
    assert!(mainnet_engine.supports_feature("segwit"));
    assert!(testnet_engine.supports_feature("segwit"));
    assert!(regtest_engine.supports_feature("segwit"));

    // But they should have different network parameters
    assert_ne!(
        mainnet_engine.get_network_params().magic_bytes,
        testnet_engine.get_network_params().magic_bytes
    );
    assert_ne!(
        testnet_engine.get_network_params().magic_bytes,
        regtest_engine.get_network_params().magic_bytes
    );
}
