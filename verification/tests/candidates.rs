use smart_contract_verifier::candidate::{
    apply_variant, build_candidates, Candidate, FileLibrary, Language,
};
use smart_contract_verifier::content::{
    Library, MultiFileContent, MultiPartFiles, RequestContent, SourceFile, VerificationRequest,
};
use smart_contract_verifier::evm::EvmVersion;
use smart_contract_verifier::metadata::MetadataVariant;
use smart_contract_verifier::version::Version;

fn sources(list: &[(&str, &str)]) -> Vec<SourceFile> {
    list.iter()
        .map(|(name, content)| SourceFile {
            path: name.to_string(),
            content: content.to_string(),
        })
        .collect()
}

fn expect_structured(c: &Candidate) -> &smart_contract_verifier::candidate::CompilerInput {
    match c {
        Candidate::Structured(ci) => ci,
        Candidate::Document(_) => panic!("expected a structured candidate"),
    }
}

#[test]
fn multi_part_to_input() {
    let multi_part = MultiFileContent {
        sources: sources(&[("source.sol", "pragma")]),
        evm_version: Some(EvmVersion::London),
        optimization_runs: Some(200),
        contract_libraries: Some(vec![Library {
            name: "some_library".to_string(),
            address: "some_address".to_string(),
        }]),
    };
    let inputs = build_candidates(&RequestContent::MultiFile(multi_part));
    assert_eq!(inputs.len(), 1, "invalid number of compiler inputs");
    let ci = expect_structured(&inputs[0]);
    assert_eq!(ci.language, Language::Solidity);
    assert_eq!(ci.sources, sources(&[("source.sol", "pragma")]));
    assert!(ci.settings.optimizer_enabled);
    assert_eq!(ci.settings.optimizer_runs, Some(200));
    assert_eq!(ci.settings.evm_version, Some(EvmVersion::London));
    assert_eq!(ci.settings.metadata, MetadataVariant::NoSelection);
    assert_eq!(
        ci.settings.libraries,
        vec![FileLibrary {
            file: "source.sol".to_string(),
            name: "some_library".to_string(),
            address: "some_address".to_string(),
        }]
    );
    assert_eq!(
        ci.settings.output_selection,
        vec![
            "abi".to_string(),
            "evm.bytecode".to_string(),
            "evm.deployedBytecode".to_string(),
            "evm.methodIdentifiers".to_string(),
        ]
    );

    let multi_part = MultiFileContent {
        sources: sources(&[("source.sol", "")]),
        evm_version: Some(EvmVersion::SpuriousDragon),
        optimization_runs: None,
        contract_libraries: None,
    };
    let inputs = build_candidates(&RequestContent::MultiFile(multi_part));
    assert_eq!(inputs.len(), 1, "invalid number of compiler inputs");
    let ci = expect_structured(&inputs[0]);
    assert_eq!(ci.language, Language::Solidity);
    assert_eq!(ci.sources, sources(&[("source.sol", "")]));
    assert!(!ci.settings.optimizer_enabled);
    assert_eq!(ci.settings.optimizer_runs, None);
    assert_eq!(ci.settings.evm_version, Some(EvmVersion::SpuriousDragon));
    assert_eq!(ci.settings.libraries, Vec::new());
}

#[test]
fn yul_and_solidity_to_inputs() {
    let multi_part = MultiFileContent {
        sources: sources(&[("source.sol", "pragma"), ("source2.yul", "object \"A\" {}")]),
        evm_version: Some(EvmVersion::London),
        optimization_runs: Some(200),
        contract_libraries: None,
    };
    let inputs = build_candidates(&RequestContent::MultiFile(multi_part));
    assert_eq!(inputs.len(), 2, "invalid number of compiler inputs");
    let solidity = expect_structured(&inputs[0]);
    assert_eq!(solidity.language, Language::Solidity);
    assert_eq!(solidity.sources, sources(&[("source.sol", "pragma")]));
    assert!(solidity.settings.optimizer_enabled);
    assert_eq!(solidity.settings.optimizer_runs, Some(200));
    assert_eq!(solidity.settings.evm_version, Some(EvmVersion::London));
    let yul = expect_structured(&inputs[1]);
    assert_eq!(yul.language, Language::Yul);
    assert_eq!(yul.sources, sources(&[("source2.yul", "object \"A\" {}")]));
    assert!(yul.settings.optimizer_enabled);
    assert_eq!(yul.settings.optimizer_runs, Some(200));
    assert_eq!(yul.settings.evm_version, Some(EvmVersion::London));
}

#[test]
// 'default' should result in None in MultiFileContent
fn default_evm_version() {
    let multi_part = MultiPartFiles {
        sources: Vec::new(),
        evm_version: "default".to_string(),
        optimization_runs: None,
        contract_libraries: None,
    };
    let content = MultiFileContent::from_multi_part(multi_part).expect("Structure is valid");
    assert_eq!(None, content.evm_version, "'default' should result in `None`");
}

#[test]
fn parse_multi_part() {
    let request = VerificationRequest::from_multi_part(
        "0x1234567890123456789012345678901234567890".to_string(),
        Some("0x6001".to_string()),
        "0.8.3".to_string(),
        MultiPartFiles {
            sources: sources(&[("source.sol", "pragma")]),
            evm_version: "london".to_string(),
            optimization_runs: Some(200),
            contract_libraries: None,
        },
    )
    .expect("request is valid");
    assert_eq!(request.creation_bytecode, Some(vec![0x60, 0x01]));
    assert_eq!(
        request.compiler_version,
        Version { major: 0, minor: 8, patch: 3, build: None }
    );
    match &request.content {
        RequestContent::MultiFile(c) => {
            assert_eq!(c.sources, sources(&[("source.sol", "pragma")]));
            assert_eq!(c.evm_version, Some(EvmVersion::London));
            assert_eq!(c.optimization_runs, Some(200));
            assert_eq!(c.contract_libraries, None);
        },
        RequestContent::StandardJson(_) => panic!("expected multi-file content"),
    }

    let request = VerificationRequest::from_multi_part(
        "0x1234567890123456789012345678901234567890".to_string(),
        Some("0x6001".to_string()),
        "0.8.3".to_string(),
        MultiPartFiles {
            sources: sources(&[
                ("source.sol", "source"),
                ("A.sol", "A"),
                ("B", "B"),
                ("metadata.json", "metadata"),
            ]),
            evm_version: "spuriousDragon".to_string(),
            optimization_runs: None,
            contract_libraries: Some(vec![Library {
                name: "Lib.sol".to_string(),
                address: "0x1234567890123456789012345678901234567890".to_string(),
            }]),
        },
    )
    .expect("request is valid");
    match &request.content {
        RequestContent::MultiFile(c) => {
            assert_eq!(c.evm_version, Some(EvmVersion::SpuriousDragon));
            assert_eq!(c.optimization_runs, None);
            assert_eq!(
                c.contract_libraries,
                Some(vec![Library {
                    name: "Lib.sol".to_string(),
                    address: "0x1234567890123456789012345678901234567890".to_string(),
                }])
            );
        },
        RequestContent::StandardJson(_) => panic!("expected multi-file content"),
    }
}

#[test]
fn library_map_attached_to_every_file() {
    // No file declares the library, so every file's table carries it.
    let multi_part = MultiFileContent {
        sources: sources(&[("source.sol", "..."), ("other.sol", "...")]),
        evm_version: None,
        optimization_runs: None,
        contract_libraries: Some(vec![Library {
            name: "Lib".to_string(),
            address: "0xAAAA".to_string(),
        }]),
    };
    let inputs = build_candidates(&RequestContent::MultiFile(multi_part));
    assert_eq!(inputs.len(), 1);
    let ci = expect_structured(&inputs[0]);
    assert_eq!(
        ci.settings.libraries,
        vec![
            FileLibrary {
                file: "source.sol".to_string(),
                name: "Lib".to_string(),
                address: "0xAAAA".to_string(),
            },
            FileLibrary {
                file: "other.sol".to_string(),
                name: "Lib".to_string(),
                address: "0xAAAA".to_string(),
            },
        ]
    );
}

#[test]
fn builder_is_deterministic() {
    let content = RequestContent::MultiFile(MultiFileContent {
        sources: sources(&[("a.sol", "A"), ("b.yul", "B"), ("c.sol", "C")]),
        evm_version: Some(EvmVersion::Berlin),
        optimization_runs: Some(1),
        contract_libraries: Some(vec![Library {
            name: "L".to_string(),
            address: "0x1".to_string(),
        }]),
    });
    let first = build_candidates(&content);
    let second = build_candidates(&content);
    assert_eq!(first, second);
}

#[test]
fn applying_a_variant_only_sets_the_metadata_slot() {
    let content = RequestContent::MultiFile(MultiFileContent {
        sources: sources(&[("source.sol", "pragma")]),
        evm_version: Some(EvmVersion::London),
        optimization_runs: Some(200),
        contract_libraries: None,
    });
    let candidates = build_candidates(&content);
    let applied = apply_variant(&candidates[0], MetadataVariant::Bzzr1);
    let before = expect_structured(&candidates[0]);
    let after = expect_structured(&applied);
    assert_eq!(after.settings.metadata, MetadataVariant::Bzzr1);
    assert_eq!(before.settings.metadata, MetadataVariant::NoSelection);
    assert_eq!(after.language, before.language);
    assert_eq!(after.sources, before.sources);
    assert_eq!(after.settings.optimizer_runs, before.settings.optimizer_runs);
    assert_eq!(after.settings.evm_version, before.settings.evm_version);
    assert_eq!(after.settings.libraries, before.settings.libraries);

    let document = Candidate::Document("{}".to_string());
    let applied = apply_variant(&document, MetadataVariant::Ipfs);
    assert_eq!(applied, document);
}
