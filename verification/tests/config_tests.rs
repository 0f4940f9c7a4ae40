use allude_sim::isa::{InstrSignature, IsaConfig, IsaExtension};

#[test]
fn test_basic_config() {
    let config = IsaConfig::new();
    assert!(config.is_valid());
    assert_eq!(config.isa_string(), "RV32");
}

#[test]
fn test_with_m_extension() {
    let config = IsaConfig::new().with_m_extension();
    assert!(config.is_valid());
    assert_eq!(config.isa_string(), "RV32M");

    let registry = config.build().unwrap();
    assert_eq!(registry.decoder_count(), 2);
}

#[test]
fn test_no_conflict_between_rv32i_and_m() {
    let config = IsaConfig::new().with_m_extension();
    let conflicts = config.detect_conflicts();
    assert!(conflicts.is_empty());
}

#[test]
fn config_test_conflict_detection() {
    let sig1 = InstrSignature::new(
        IsaExtension::Custom("test1"),
        "CONFLICT1",
        0x707F,
        0x0033,
    );

    let sig2 = InstrSignature::new(
        IsaExtension::Custom("test2"),
        "CONFLICT2",
        0x707F,
        0x0033,
    );

    assert!(sig1.conflicts_with(&sig2));
}

#[test]
fn test_no_conflict_different_funct7() {
    let add_sig = InstrSignature::new(
        IsaExtension::RV32I,
        "ADD",
        0xFE00707F,
        0x0033,
    );

    let mul_sig = InstrSignature::new(
        IsaExtension::RV32M,
        "MUL",
        0xFE00707F,
        0x02000033,
    );

    assert!(!add_sig.conflicts_with(&mul_sig));
}

#[test]
fn test_summary() {
    let config = IsaConfig::new().with_m_extension();
    let summary = config.summary();
    assert!(summary.contains("RV32M"));
    assert!(summary.contains("无冲突"));
}
