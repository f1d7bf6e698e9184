use smart_contract_verifier::candidate::Candidate;
use smart_contract_verifier::content::{
    MultiFileContent, RequestContent, SourceFile, VerificationRequest,
};
use smart_contract_verifier::evm::EvmVersion;
use smart_contract_verifier::metadata::MetadataVariant;
use smart_contract_verifier::orchestrator::{verify, CandidateVerifier, Middleware};
use smart_contract_verifier::outcome::{VerificationError, VerificationSuccess};
use smart_contract_verifier::resolver::resolve_deployed_code;
use smart_contract_verifier::version::Version;

/// A deterministic synthetic verify-candidate capability: answers from a
/// fixed script and records every call it receives.
struct Scripted {
    script: Vec<Result<VerificationSuccess, VerificationError>>,
    calls: usize,
    seen_variants: Vec<MetadataVariant>,
}

impl Scripted {
    fn new(script: Vec<Result<VerificationSuccess, VerificationError>>) -> Scripted {
        Scripted { script, calls: 0, seen_variants: Vec::new() }
    }
}

impl CandidateVerifier for Scripted {
    fn verify_candidate(
        &mut self,
        _compiler_version: &Version,
        _creation_bytecode: Option<&Vec<u8>>,
        _deployed_bytecode: &Vec<u8>,
        _candidate: &Candidate,
        variant: MetadataVariant,
    ) -> Result<VerificationSuccess, VerificationError> {
        let idx = self.calls;
        self.calls += 1;
        self.seen_variants.push(variant);
        let out = if idx < self.script.len() {
            self.script[idx].clone()
        } else {
            Err(VerificationError::NoMatchingContracts)
        };
        match out {
            // The success reports the settings of the very call it answers.
            Ok(mut s) => {
                s.metadata_variant = variant;
                Ok(s)
            },
            e => e,
        }
    }
}

struct CountingHook {
    count: usize,
    last_contract: Option<String>,
}

impl Middleware for CountingHook {
    fn on_success(&mut self, success: &VerificationSuccess) {
        self.count += 1;
        self.last_contract = Some(success.contract_name.clone());
    }
}

fn sample_success() -> VerificationSuccess {
    VerificationSuccess {
        file_path: "source.sol".to_string(),
        contract_name: "Foo".to_string(),
        abi: "[]".to_string(),
        bytecode: vec![0x60, 0x01],
        metadata_variant: MetadataVariant::NoSelection,
    }
}

fn solidity_request() -> VerificationRequest {
    VerificationRequest {
        contract_address: "0x1234567890123456789012345678901234567890".to_string(),
        creation_bytecode: None,
        compiler_version: Version { major: 0, minor: 8, patch: 3, build: None },
        content: RequestContent::MultiFile(MultiFileContent {
            sources: vec![SourceFile {
                path: "source.sol".to_string(),
                content: "pragma".to_string(),
            }],
            evm_version: Some(EvmVersion::London),
            optimization_runs: Some(200),
            contract_libraries: None,
        }),
    }
}

fn two_dialect_request() -> VerificationRequest {
    VerificationRequest {
        contract_address: "0x1234567890123456789012345678901234567890".to_string(),
        creation_bytecode: None,
        compiler_version: Version { major: 0, minor: 8, patch: 3, build: None },
        content: RequestContent::MultiFile(MultiFileContent {
            sources: vec![
                SourceFile { path: "source.sol".to_string(), content: "pragma".to_string() },
                SourceFile {
                    path: "source2.yul".to_string(),
                    content: "object \"A\" {}".to_string(),
                },
            ],
            evm_version: Some(EvmVersion::London),
            optimization_runs: Some(200),
            contract_libraries: None,
        }),
    }
}

fn fetched_code() -> Result<Option<String>, String> {
    Ok(Some("0x6001".to_string()))
}

#[test]
fn short_circuit_on_third_attempt() {
    // Two misses, then a match: exactly three calls, the third call's
    // settings in the returned success, no further calls.
    let mut cap = Scripted::new(vec![
        Err(VerificationError::NoMatchingContracts),
        Err(VerificationError::NoMatchingContracts),
        Ok(sample_success()),
        Ok(sample_success()),
    ]);
    let mut hook = CountingHook { count: 0, last_contract: None };
    let request = solidity_request();
    let report = verify(&mut cap, &mut hook, &request, fetched_code());
    assert_eq!(cap.calls, 3);
    assert_eq!(report.attempts, 3);
    assert_eq!(
        cap.seen_variants,
        vec![MetadataVariant::Ipfs, MetadataVariant::NoHash, MetadataVariant::Bzzr1]
    );
    let success = report.result.expect("third attempt matched");
    assert_eq!(success.metadata_variant, MetadataVariant::Bzzr1);
    assert_eq!(success.contract_name, "Foo".to_string());
    assert_eq!(hook.count, 1);
    assert_eq!(hook.last_contract, Some("Foo".to_string()));
}

#[test]
fn hard_stop_on_first_error() {
    // A compilation error on the first call: one call total, the error
    // propagated unchanged, even though a later attempt would have matched.
    let mut cap = Scripted::new(vec![
        Err(VerificationError::Compilation(vec!["boom".to_string()])),
        Ok(sample_success()),
    ]);
    let mut hook = CountingHook { count: 0, last_contract: None };
    let request = solidity_request();
    let report = verify(&mut cap, &mut hook, &request, fetched_code());
    assert_eq!(cap.calls, 1);
    assert_eq!(report.attempts, 1);
    assert_eq!(
        report.result,
        Err(VerificationError::Compilation(vec!["boom".to_string()]))
    );
    assert_eq!(hook.count, 0);
}

#[test]
fn hard_stop_on_initialization_error() {
    let mut cap = Scripted::new(vec![
        Err(VerificationError::NoMatchingContracts),
        Err(VerificationError::Initialization("no toolchain".to_string())),
        Ok(sample_success()),
    ]);
    let mut hook = CountingHook { count: 0, last_contract: None };
    let request = solidity_request();
    let report = verify(&mut cap, &mut hook, &request, fetched_code());
    assert_eq!(cap.calls, 2);
    assert_eq!(
        report.result,
        Err(VerificationError::Initialization("no toolchain".to_string()))
    );
}

#[test]
fn exhaustion_tries_every_pair() {
    // Every pair misses: calls equal candidates times variants, and the
    // final result is NoMatchingContracts itself.
    let mut cap = Scripted::new(Vec::new());
    let mut hook = CountingHook { count: 0, last_contract: None };
    let request = two_dialect_request();
    let report = verify(&mut cap, &mut hook, &request, fetched_code());
    assert_eq!(cap.calls, 6, "two candidates times three variants");
    assert_eq!(report.attempts, 6);
    assert_eq!(report.result, Err(VerificationError::NoMatchingContracts));
    assert_eq!(hook.count, 0);
}

#[test]
fn single_variant_before_0_6_0() {
    // A pre-0.6.0 release has exactly one settings variant to try.
    let mut cap = Scripted::new(Vec::new());
    let mut hook = CountingHook { count: 0, last_contract: None };
    let mut request = solidity_request();
    request.compiler_version = Version { major: 0, minor: 5, patch: 17, build: None };
    let report = verify(&mut cap, &mut hook, &request, fetched_code());
    assert_eq!(cap.calls, 1);
    assert_eq!(cap.seen_variants, vec![MetadataVariant::NoSelection]);
    assert_eq!(report.result, Err(VerificationError::NoMatchingContracts));
}

#[test]
fn idempotent_over_identical_mocks() {
    // The same request against the same deterministic collaborators gives
    // identical reports, run after run.
    let script = vec![
        Err(VerificationError::NoMatchingContracts),
        Ok(sample_success()),
    ];
    let request = two_dialect_request();

    let mut cap1 = Scripted::new(script.clone());
    let mut hook1 = CountingHook { count: 0, last_contract: None };
    let report1 = verify(&mut cap1, &mut hook1, &request, fetched_code());

    let mut cap2 = Scripted::new(script);
    let mut hook2 = CountingHook { count: 0, last_contract: None };
    let report2 = verify(&mut cap2, &mut hook2, &request, fetched_code());

    assert_eq!(report1.result, report2.result);
    assert_eq!(report1.attempts, report2.attempts);
    assert_eq!(cap1.calls, cap2.calls);
    assert_eq!(cap1.seen_variants, cap2.seen_variants);
}

#[test]
fn resolver_empty_code_is_no_deployed_code() {
    assert_eq!(
        resolve_deployed_code(Ok(Some("".to_string()))),
        Err(VerificationError::NoDeployedCode)
    );
    assert_eq!(
        resolve_deployed_code(Ok(Some("0x".to_string()))),
        Err(VerificationError::NoDeployedCode)
    );
    assert_eq!(
        resolve_deployed_code(Ok(None)),
        Err(VerificationError::NoDeployedCode)
    );
}

#[test]
fn resolver_transport_failure_is_unavailable() {
    assert_eq!(
        resolve_deployed_code(Err("connection timed out".to_string())),
        Err(VerificationError::ResolverUnavailable("connection timed out".to_string()))
    );
    // A malformed answer is a resolver failure too, never a failed match.
    match resolve_deployed_code(Ok(Some("zz".to_string()))) {
        Err(VerificationError::ResolverUnavailable(_)) => {},
        other => panic!("expected ResolverUnavailable, got {:?}", other),
    }
}

#[test]
fn resolver_decodes_deployed_code() {
    assert_eq!(
        resolve_deployed_code(Ok(Some("0x6001".to_string()))),
        Ok(vec![0x60, 0x01])
    );
}

#[test]
fn resolver_failure_stops_search_before_any_attempt() {
    let mut cap = Scripted::new(vec![Ok(sample_success())]);
    let mut hook = CountingHook { count: 0, last_contract: None };
    let request = solidity_request();
    let report = verify(&mut cap, &mut hook, &request, Err("node down".to_string()));
    assert_eq!(cap.calls, 0);
    assert_eq!(report.attempts, 0);
    assert_eq!(
        report.result,
        Err(VerificationError::ResolverUnavailable("node down".to_string()))
    );
}
