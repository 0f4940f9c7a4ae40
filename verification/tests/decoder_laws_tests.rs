use allude_sim::isa::config::{BuildError, CustomDecoder};
use allude_sim::isa::decoder::RegisterError;
use allude_sim::isa::instr_def::{i_match, r_match, shift_match, EXACT_MASK, R_TYPE_MASK};
use allude_sim::isa::priv_instr::{priv_decoder, priv_instrs};
use allude_sim::isa::rv32f::{fmt, fp_r_match, r4_match, rm, rs3, rv32f_decoder, rv32f_instrs};
use allude_sim::isa::rv32i::{rv32i_decoder, rv32i_instrs, rv32i_opcodes};
use allude_sim::isa::rv32m::{rv32m_decoder, rv32m_instrs};
use allude_sim::isa::zicsr::{zicsr_decoder, zicsr_instrs};
use allude_sim::isa::{
    fields, ConflictInfo, DecodedInstr, DecoderRegistry, InstrDecoder, InstrDef, InstrKind,
    InstrSignature, IsaConfig, IsaExtension, RvInstr, TableDrivenDecoder,
};

fn all_tables() -> Vec<Vec<InstrDef>> {
    vec![rv32i_instrs(), rv32m_instrs(), rv32f_instrs(), zicsr_instrs(), priv_instrs()]
}

fn full_registry() -> DecoderRegistry {
    IsaConfig::new()
        .with_m_extension()
        .with_f_extension()
        .with_zicsr_extension()
        .with_priv_extension()
        .build()
        .expect("the built-in extensions are free of conflicts")
}

#[test]
fn field_extractors_cut_the_documented_bits() {
    let raw = 0xFEDC_BA98u32;
    assert_eq!(fields::opcode(raw), 0x18);
    assert_eq!(fields::rd(raw), 0x15);
    assert_eq!(fields::funct3(raw), 0x3);
    assert_eq!(fields::rs1(raw), 0x19);
    assert_eq!(fields::rs2(raw), 0x0D);
    assert_eq!(fields::funct7(raw), 0x7F);
    assert_eq!(fields::shamt(raw), 0x0D);
    assert_eq!(fields::csr_addr(raw), 0xFED);
    assert_eq!(fields::csr_zimm(raw), 0x19);
    assert_eq!(rs3(raw), 0x1F);
    assert_eq!(rm(raw), 0x3);
    assert_eq!(fmt(raw), 0x3);
    assert_eq!(fields::imm_i(raw), -19);
    assert_eq!(fields::imm_s(raw), -11);
    assert_eq!(fields::imm_b(raw), -12);
    assert_eq!(fields::imm_u(raw), 0xFEDC_B000u32 as i32);
    assert_eq!(fields::imm_j(raw), -213_012);
}

#[test]
fn immediates_reach_their_extremes() {
    assert_eq!(fields::imm_i(0x7FF0_0000), 2047);
    assert_eq!(fields::imm_i(0x8000_0000), -2048);
    assert_eq!(fields::imm_s(0x7E00_0F80), 2047);
    assert_eq!(fields::imm_s(0x8000_0000), -2048);
    assert_eq!(fields::imm_b(0x7E00_0F80), 4094);
    assert_eq!(fields::imm_b(0x8000_0000), -4096);
    assert_eq!(fields::imm_j(0x7FFF_F000), 1_048_574);
    assert_eq!(fields::imm_j(0x8000_0000), -1_048_576);
    assert_eq!(fields::imm_u(0xFFFF_FFFF), -4096);
    assert_eq!(fields::imm_u(0x0000_0FFF), 0);
}

#[test]
fn match_values_are_assembled_from_their_fields() {
    assert_eq!(r_match(0x20, 5, 0x33), 0x4000_5033);
    assert_eq!(i_match(7, 0x13), 0x7013);
    assert_eq!(shift_match(0x10, 5, 0x13), 0x4000_5013);
    assert_eq!(fp_r_match(0x50, 0x53), 0xA000_0053);
    assert_eq!(r4_match(1, 0x43), 0x0200_0043);
}

#[test]
fn every_table_entry_keeps_its_match_inside_its_mask() {
    let sizes: Vec<usize> = all_tables().iter().map(|t| t.len()).collect();
    assert_eq!(sizes, vec![41, 8, 26, 6, 3]);
    for table in all_tables() {
        for def in table {
            assert_eq!(def.match_val & def.mask, def.match_val, "{}", def.name);
            assert!(def.matches(def.match_val));
        }
    }
}

#[test]
fn no_two_extensions_conflict() {
    let config = IsaConfig::new()
        .with_m_extension()
        .with_f_extension()
        .with_zicsr_extension()
        .with_priv_extension();
    assert!(config.detect_conflicts().is_empty());
    assert!(config.is_valid());
    assert_eq!(config.enabled_extensions().len(), 5);
    let tables = all_tables();
    for (i, first) in tables.iter().enumerate() {
        for second in tables.iter().skip(i + 1) {
            for a in first {
                for b in second {
                    assert!(!a.conflicts_with(b), "{} and {}", a.name, b.name);
                }
            }
        }
    }
}

#[test]
fn a_word_of_exactly_one_entry_is_decoded_by_it() {
    let registry = full_registry();
    assert_eq!(registry.decoder_count(), 5);
    assert_eq!(registry.decoder_names(), vec!["RV32I", "RV32M", "RV32F", "Zicsr", "Priv"]);
    for table in all_tables() {
        for def in &table {
            for filler in [0u32, 0xFFFF_FFFF, 0x5A5A_5A5A, 0x0138_8A80] {
                let word = def.match_val | (filler & !def.mask);
                let claimed: Vec<&InstrDef> =
                    all_tables_flat().into_iter().filter(|d| d.matches(word)).collect();
                if claimed.len() == 1 {
                    let decoded = registry.decode(word);
                    assert_eq!(decoded.raw, word);
                    assert_eq!(decoded.instr, def.kind.build(word), "{}", def.name);
                    assert_eq!(decoded.instr, def.decode_instr(word).instr);
                }
            }
        }
    }
}

fn all_tables_flat() -> Vec<&'static InstrDef> {
    let mut flat = Vec::new();
    for table in all_tables() {
        for def in table {
            flat.push(&*Box::leak(Box::new(def)));
        }
    }
    flat
}

#[test]
fn an_unimplemented_word_is_illegal() {
    let registry = full_registry();
    for word in [0u32, 0xFFFF_FFFF, 0x0000_007F, 0x0000_302F, 0x0000_0057, 0x3020_0173] {
        assert!(all_tables().iter().flatten().all(|d| !d.matches(word)));
        let DecodedInstr { raw, instr } = registry.decode(word);
        assert_eq!(raw, word);
        assert_eq!(instr, RvInstr::Illegal { raw: word });
    }
    // a word of an extension that is not enabled is illegal too
    let base = DecoderRegistry::with_rv32i();
    assert_eq!(base.decode(0x0220_80B3).instr, RvInstr::Illegal { raw: 0x0220_80B3 });
    assert_eq!(base.decode(0x3020_0073).instr, RvInstr::Illegal { raw: 0x3020_0073 });
}

#[test]
fn decoders_report_what_they_were_built_with() {
    let base = rv32i_decoder();
    assert_eq!(base.name(), "RV32I");
    assert_eq!(base.handled_opcodes(), Some(&rv32i_opcodes()[..]));
    assert!(base.allow_opcode_overlap());
    assert_eq!(base.instrs().len(), 41);
    assert!(!rv32f_decoder().allow_opcode_overlap());
    assert_eq!(rv32m_decoder().handled_opcodes(), Some(&[0x33u32][..]));
    assert_eq!(zicsr_decoder().name(), "Zicsr");
    assert_eq!(priv_decoder().decode(0x1050_0073).map(|d| d.instr), Some(RvInstr::Wfi));
    assert!(priv_decoder().decode(0x1050_0074).is_none());
    let copy = base.clone();
    assert_eq!(copy.name(), "RV32I");
    assert_eq!(copy.instrs().len(), 41);
    assert_eq!(copy.handled_opcodes(), base.handled_opcodes());
}

fn decoder(name: &'static str, opcodes: Option<Vec<u32>>, allow: bool) -> TableDrivenDecoder {
    let table = vec![InstrDef::new(
        "ANY",
        0x7F,
        0x0B,
        InstrKind::Custom { extension: "x", opcode: 0x0B },
    )];
    TableDrivenDecoder::new(name, table, opcodes, allow)
}

#[test]
fn registration_names_the_first_opcode_in_conflict() {
    let mut registry: DecoderRegistry = DecoderRegistry::new();
    assert_eq!(registry.decoder_count(), 0);
    assert_eq!(registry.register(decoder("a", Some(vec![0x0B, 0x2B]), false)), Ok(()));
    assert_eq!(registry.register(decoder("b", Some(vec![0x5B]), true)), Ok(()));
    assert_eq!(
        registry.register(decoder("c", Some(vec![0x7B, 0x2B, 0x0B]), true)),
        Err(RegisterError::OpcodeTaken { opcode: 0x2B })
    );
    assert_eq!(
        registry.register(decoder("d", Some(vec![0x5B]), false)),
        Err(RegisterError::OpcodeTaken { opcode: 0x5B })
    );
    assert_eq!(registry.decoder_count(), 2);
    assert_eq!(registry.register(decoder("e", Some(vec![0x5B, 0x80, 0x1000]), true)), Ok(()));
    assert_eq!(registry.register(decoder("f", Some(vec![]), false)), Ok(()));
    assert_eq!(registry.decoder_names(), vec!["a", "b", "e", "f"]);
}

#[test]
fn a_wildcard_registers_on_an_empty_or_a_sharing_registry() {
    let mut empty: DecoderRegistry = DecoderRegistry::new();
    assert_eq!(empty.register(decoder("w", None, false)), Ok(()));
    assert_eq!(
        empty.register(decoder("v", None, true)),
        Err(RegisterError::WildcardOverlap)
    );
    assert_eq!(empty.decode(0x0000_000B).raw, 0x0000_000B);
    assert!(matches!(empty.decode(0x0000_000B).instr, RvInstr::Custom { extension: "x", .. }));

    let mut sharing = DecoderRegistry::with_rv32i();
    assert_eq!(
        sharing.register(decoder("w", None, false)),
        Err(RegisterError::WildcardOverlap)
    );
    assert_eq!(sharing.register(decoder("w", None, true)), Ok(()));
    assert!(matches!(sharing.decode(0x0000_000B).instr, RvInstr::Custom { .. }));
    assert_eq!(sharing.decode(0x02A0_0093).instr, RvInstr::Addi { rd: 1, rs1: 0, imm: 42 });

    let mut blocked: DecoderRegistry = DecoderRegistry::new();
    assert_eq!(blocked.register(rv32f_decoder()), Ok(()));
    assert_eq!(
        blocked.register(decoder("w", None, true)),
        Err(RegisterError::WildcardOverlap)
    );
}

#[test]
fn the_first_registered_decoder_decides() {
    let first = TableDrivenDecoder::new(
        "first",
        vec![InstrDef::new("A", 0x7F, 0x0B, InstrKind::Ecall)],
        Some(vec![0x0B]),
        true,
    );
    let second = TableDrivenDecoder::new(
        "second",
        vec![InstrDef::new("B", 0x7F, 0x0B, InstrKind::Ebreak)],
        Some(vec![0x0B]),
        true,
    );
    let mut registry: DecoderRegistry = DecoderRegistry::new();
    registry.register(first).unwrap();
    registry.register(second).unwrap();
    assert_eq!(registry.decode(0x0000_000B).instr, RvInstr::Ecall);
    // an entry outside the decoder's opcode list is never consulted
    let stray = TableDrivenDecoder::new(
        "stray",
        vec![InstrDef::new("C", 0x7F, 0x2B, InstrKind::Wfi)],
        Some(vec![0x5B]),
        true,
    );
    registry.register(stray).unwrap();
    assert_eq!(registry.decode(0x0000_002B).instr, RvInstr::Illegal { raw: 0x2B });
}

#[test]
fn custom_instructions_take_the_register_fields() {
    let kind = InstrKind::Custom { extension: "gpu", opcode: 0x5B };
    let word = 0x00C5_82DB;
    match kind.build(word) {
        RvInstr::Custom { extension, opcode, raw, fields } => {
            assert_eq!((extension, opcode, raw), ("gpu", 0x5B, word));
            assert_eq!(fields.rd, Some(5));
            assert_eq!(fields.rs1, Some(11));
            assert_eq!(fields.rs2, Some(12));
            assert_eq!((fields.rs3, fields.imm, fields.extra), (None, None, 0));
        }
        other => panic!("unexpected instruction {:?}", other),
    }
    assert_eq!(InstrKind::Fence.build(0x0FF0_000F), RvInstr::Fence { pred: 15, succ: 15, fm: 0 });
    assert_eq!(InstrKind::Fence.build(0x8330_000F), RvInstr::Fence { pred: 3, succ: 3, fm: 8 });
}

fn conflicting_config() -> IsaConfig {
    let signature = InstrSignature::new(IsaExtension::Custom("dsp"), "DADD", R_TYPE_MASK, 0x33);
    let exact = InstrSignature::new(IsaExtension::Custom("dsp"), "DCALL", EXACT_MASK, 0x73);
    IsaConfig::new().with_m_extension().with_custom_decoder(
        IsaExtension::Custom("dsp"),
        decoder("dsp", Some(vec![0x0B]), false),
        vec![signature, exact],
    )
}

#[test]
fn conflicts_are_listed_in_order_with_an_example() {
    let conflicts = conflicting_config().detect_conflicts();
    let names: Vec<(&str, &str, u32)> =
        conflicts.iter().map(|c| (c.instr1.name, c.instr2.name, c.example_raw)).collect();
    assert_eq!(names, vec![("ADD", "DADD", 0x33), ("ECALL", "DCALL", 0x73)]);
    assert_eq!(conflicts[0].to_string(), "冲突: RV32I:ADD 与 Xdsp:DADD (示例: 0x00000033)");
    let ConflictInfo { instr1, instr2, .. } = conflicts[1];
    assert!(instr1.conflicts_with(&instr2));
    assert!(matches!(instr1.extension, IsaExtension::RV32I));
    assert!(!conflicting_config().is_valid());
}

#[test]
fn a_configuration_with_conflicts_does_not_build() {
    match conflicting_config().build() {
        Err(BuildError::Conflicts(conflicts)) => assert_eq!(conflicts.len(), 2),
        other => panic!("unexpected result {:?}", other.map(|r| r.decoder_count())),
    }
    let unchecked = conflicting_config().build_unchecked();
    assert_eq!(unchecked.decoder_names(), vec!["RV32I", "RV32M", "dsp"]);
}

#[test]
fn a_refused_custom_decoder_fails_the_build() {
    let clash = IsaConfig::new().with_custom_decoder(
        IsaExtension::Custom("late"),
        decoder("late", Some(vec![0x33]), false),
        Vec::new(),
    );
    match clash.build() {
        Err(BuildError::Registration(RegisterError::OpcodeTaken { opcode })) => {
            assert_eq!(opcode, 0x33)
        }
        other => panic!("unexpected result {:?}", other.map(|r| r.decoder_count())),
    }
    let skipped = IsaConfig::new()
        .with_priv_extension()
        .with_custom_decoder(
            IsaExtension::Custom("late"),
            decoder("late", Some(vec![0x33]), false),
            Vec::new(),
        )
        .with_custom_decoder(
            IsaExtension::Custom("fine"),
            decoder("fine", Some(vec![0x0B]), false),
            Vec::new(),
        )
        .build_unchecked();
    assert_eq!(skipped.decoder_names(), vec!["RV32I", "fine"]);
    let entry = CustomDecoder {
        extension: IsaExtension::Custom("fine"),
        decoder: decoder("fine", None, true),
        signatures: Vec::new(),
    };
    assert_eq!(entry.decoder.name(), "fine");
}

#[test]
fn the_isa_string_orders_custom_extensions_by_name() {
    let config = IsaConfig::new()
        .with_f_extension()
        .with_custom_decoder(IsaExtension::Custom("zeta"), decoder("z", Some(vec![0x0B]), false), vec![])
        .with_m_extension()
        .with_custom_decoder(IsaExtension::Custom("alpha"), decoder("a", Some(vec![0x2B]), false), vec![])
        .with_custom_decoder(IsaExtension::Custom("Beta"), decoder("b", Some(vec![0x5B]), false), vec![])
        .with_custom_decoder(IsaExtension::Custom("alpha"), decoder("c", Some(vec![0x7B]), false), vec![])
        .with_zicsr_extension();
    assert_eq!(config.isa_string(), "RV32MF_XBeta_Xalpha_Xzeta");
    assert_eq!(config.enabled_extensions().len(), 7);
    assert_eq!(IsaExtension::Zicsr.to_string(), "_Zicsr");
    assert_eq!(IsaExtension::Priv.to_string(), "_Priv");
    assert_eq!(IsaExtension::RV32I.to_string(), "RV32I");
    assert_eq!(IsaExtension::Custom("v").to_string(), "Xv");
    assert!(IsaExtension::Custom("same").same(&IsaExtension::Custom("same")));
    assert!(!IsaExtension::Custom("same").same(&IsaExtension::Custom("Same")));
    assert!(!IsaExtension::RV32A.same(&IsaExtension::RV32C));
}

#[test]
fn the_summary_spells_out_the_configuration() {
    let plain = IsaConfig::new().with_m_extension().summary();
    assert_eq!(
        plain,
        "ISA: RV32M\n扩展: {RV32I, RV32M}\n指令签名数: 49\n状态: ✓ 无冲突\n"
    );
    let summary = conflicting_config().summary();
    assert_eq!(
        summary,
        "ISA: RV32M_Xdsp\n扩展: {RV32I, RV32M, Custom(\"dsp\")}\n指令签名数: 51\n状态: ✗ 2 个冲突\n  \
         - 冲突: RV32I:ADD 与 Xdsp:DADD (示例: 0x00000033)\n  \
         - 冲突: RV32I:ECALL 与 Xdsp:DCALL (示例: 0x00000073)\n"
    );
}

#[test]
fn signatures_are_taken_from_table_entries() {
    let def = InstrDef::new("MUL", R_TYPE_MASK, 0x0200_0033, InstrKind::Mul);
    let signature = InstrSignature::from_def(&def, IsaExtension::RV32M);
    assert_eq!(signature.name, "MUL");
    assert_eq!((signature.mask, signature.match_val), (R_TYPE_MASK, 0x0200_0033));
    let wide = InstrSignature::new(IsaExtension::Custom("w"), "W", 0x7F, 0x33);
    assert!(signature.conflicts_with(&wide));
    assert!(wide.conflicts_with(&signature));
}

#[test]
fn names_are_compared_by_their_encoded_bytes() {
    let config = IsaConfig::new()
        .with_custom_decoder(IsaExtension::Custom("ab"), decoder("1", Some(vec![0x0B]), false), vec![])
        .with_custom_decoder(IsaExtension::Custom("é"), decoder("2", Some(vec![0x2B]), false), vec![])
        .with_custom_decoder(IsaExtension::Custom("a"), decoder("3", Some(vec![0x5B]), false), vec![])
        .with_custom_decoder(IsaExtension::Custom("z"), decoder("4", Some(vec![0x7B]), false), vec![])
        .with_custom_decoder(IsaExtension::Custom("abc"), decoder("5", Some(vec![0x0B]), true), vec![])
        .with_custom_decoder(IsaExtension::Custom(""), decoder("6", Some(vec![0x2B]), true), vec![]);
    assert_eq!(config.isa_string(), "RV32_X_Xa_Xab_Xabc_Xz_Xé");
    assert!(IsaExtension::Custom("é").same(&IsaExtension::Custom("é")));
    assert!(!IsaExtension::Custom("é").same(&IsaExtension::Custom("è")));
    assert!(!IsaExtension::Custom("ab").same(&IsaExtension::Custom("abc")));
    assert!(!IsaExtension::Custom("abc").same(&IsaExtension::Custom("ab")));
    assert!(!IsaExtension::Custom("").same(&IsaExtension::Custom("a")));
    assert!(IsaExtension::Custom("").same(&IsaExtension::Custom("")));
}
