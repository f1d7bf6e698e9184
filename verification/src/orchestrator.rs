use vstd::prelude::*;
use crate::candidate::{apply_variant, build_candidates, sol_files, yul_files, Candidate};
use crate::content::{RequestContent, VerificationRequest};
use crate::hex::{hex_bytes, is_hex_body, strip_0x};
use crate::metadata::{settings_metadata, settings_metadata_spec, MetadataVariant};
use crate::outcome::{continues, halts_search, non_fatal, VerificationError, VerificationSuccess};
use crate::resolver::resolve_deployed_code;
use crate::version::Version;

verus! {

/// The external compiler-and-matcher capability: compiles one candidate
/// under one metadata variant and compares the outcome against the
/// deployed bytecode. The candidate handed in already carries the
/// attempt's variant in its settings; the variant also rides along
/// explicitly for document candidates, whose settings live inside the
/// document. Implementations decide the outcome; the orchestrator only
/// classifies it, so nothing is assumed of them.
pub trait CandidateVerifier {
    fn verify_candidate(
        &mut self,
        compiler_version: &Version,
        creation_bytecode: Option<&Vec<u8>>,
        deployed_bytecode: &Vec<u8>,
        candidate: &Candidate,
        variant: MetadataVariant,
    ) -> Result<VerificationSuccess, VerificationError>;
}

/// The optional post-match hook, run once on the success path before the
/// result is returned. It sees the success read-only, so it can neither
/// alter nor veto it.
pub trait Middleware {
    fn on_success(&mut self, success: &VerificationSuccess);
}

/// The "no hook registered" middleware.
pub struct NoMiddleware;

impl Middleware for NoMiddleware {
    fn on_success(&mut self, _success: &VerificationSuccess) {
    }
}

/// What one search run reports: the final outcome, how many attempts were
/// made, and — for reasoning — every attempt's outcome in order.
pub struct SearchReport {
    pub result: Result<VerificationSuccess, VerificationError>,
    pub attempts: usize,
    pub trace: Ghost<Seq<Result<VerificationSuccess, VerificationError>>>,
}

/// The search discipline, stated over the outcomes the capability
/// returned, one per attempt in order, out of `total` possible attempts:
/// every attempt before the last one merely missed; the search stopped
/// short of `total` only on a decisive outcome, which is the result; and
/// a fully exhausted search reports `NoMatchingContracts`.
pub open spec fn search_ok(
    total: nat,
    trace: Seq<Result<VerificationSuccess, VerificationError>>,
    result: Result<VerificationSuccess, VerificationError>,
) -> bool {
    &&& trace.len() <= total
    &&& forall|k: int| 0 <= k < trace.len() - 1 ==> continues(#[trigger] trace[k])
    &&& if trace.len() < total {
        trace.len() > 0 && result == trace.last() && !continues(trace.last())
    } else if total == 0 {
        result == Err::<VerificationSuccess, VerificationError>(
            VerificationError::NoMatchingContracts,
        )
    } else if continues(trace.last()) {
        result == Err::<VerificationSuccess, VerificationError>(
            VerificationError::NoMatchingContracts,
        )
    } else {
        result == trace.last()
    }
}

/// Walks candidates in builder order and, inside each, the metadata
/// variants in likelihood order; classifies every outcome, continues past
/// a mere miss, stops on anything decisive, and runs the middleware on a
/// match before reporting it.
pub fn run_search<C: CandidateVerifier, M: Middleware>(
    verifier: &mut C,
    middleware: &mut M,
    compiler_version: &Version,
    creation_bytecode: Option<&Vec<u8>>,
    deployed_bytecode: &Vec<u8>,
    candidates: &Vec<Candidate>,
    variants: &Vec<MetadataVariant>,
) -> (r: SearchReport)
    requires
        candidates@.len() * variants@.len() <= usize::MAX,
    ensures
        search_ok(candidates@.len() * variants@.len(), r.trace@, r.result),
        r.attempts == r.trace@.len(),
{
    let nc = candidates.len();
    let nv = variants.len();
    let ghost total = nc as nat * nv as nat;
    let mut attempts: usize = 0;
    let ghost mut trace = Seq::<Result<VerificationSuccess, VerificationError>>::empty();
    let mut i: usize = 0;
    while i < nc
        invariant
            nc == candidates@.len(),
            nv == variants@.len(),
            total == nc * nv,
            total <= usize::MAX,
            0 <= i <= nc,
            attempts == trace.len(),
            trace.len() == i * nv,
            forall|k: int| 0 <= k < trace.len() ==> continues(#[trigger] trace[k]),
        decreases nc - i,
    {
        let mut j: usize = 0;
        while j < nv
            invariant
                nc == candidates@.len(),
                nv == variants@.len(),
                total == nc * nv,
                total <= usize::MAX,
                0 <= i < nc,
                0 <= j <= nv,
                attempts == trace.len(),
                trace.len() == i * nv + j,
                forall|k: int| 0 <= k < trace.len() ==> continues(#[trigger] trace[k]),
            decreases nv - j,
        {
            proof {
                assert((i as int) * (nv as int) + (j as int) < (nc as int) * (nv as int))
                    by (nonlinear_arith)
                    requires
                        0 <= i < nc as int,
                        0 <= j < nv as int,
                ;
            }
            let input = apply_variant(&candidates[i], variants[j]);
            let outcome = verifier.verify_candidate(
                compiler_version,
                creation_bytecode,
                deployed_bytecode,
                &input,
                variants[j],
            );
            proof {
                trace = trace.push(outcome);
            }
            attempts = attempts + 1;
            if halts_search(&outcome) {
                match outcome {
                    Ok(success) => {
                        middleware.on_success(&success);
                        return SearchReport {
                            result: Ok(success),
                            attempts,
                            trace: Ghost(trace),
                        };
                    },
                    Err(e) => {
                        return SearchReport { result: Err(e), attempts, trace: Ghost(trace) };
                    },
                }
            }
            j += 1;
        }
        proof {
            assert((i as int) * (nv as int) + (nv as int) == (i as int + 1) * (nv as int))
                by (nonlinear_arith);
        }
        i += 1;
    }
    SearchReport {
        result: Err(VerificationError::NoMatchingContracts),
        attempts,
        trace: Ghost(trace),
    }
}

/// How many candidates a request's content yields.
pub open spec fn candidate_count(content: RequestContent) -> nat {
    match content {
        RequestContent::StandardJson(_) => 1,
        RequestContent::MultiFile(c) => (if sol_files(c.sources@).len() > 0 {
            1nat
        } else {
            0nat
        }) + (if yul_files(c.sources@).len() > 0 {
            1nat
        } else {
            0nat
        }),
    }
}

/// The size of a request's full search space.
pub open spec fn total_attempts(req: VerificationRequest) -> nat {
    candidate_count(req.content) * settings_metadata_spec(req.compiler_version).len()
}

/// The Verification Orchestrator. Resolves the deployed bytecode from
/// what the network capability answered, builds the candidate list and
/// the variant list, and drives the search; resolver failures surface as
/// their own error kinds before any attempt is made.
pub fn verify<C: CandidateVerifier, M: Middleware>(
    verifier: &mut C,
    middleware: &mut M,
    request: &VerificationRequest,
    fetched_code: Result<Option<String>, String>,
) -> (r: SearchReport)
    ensures
        r.attempts == r.trace@.len(),
        match fetched_code {
            Err(t) => r.result == Err::<VerificationSuccess, _>(
                VerificationError::ResolverUnavailable(t),
            ) && r.trace@.len() == 0,
            Ok(None) => r.result == Err::<VerificationSuccess, _>(
                VerificationError::NoDeployedCode,
            ) && r.trace@.len() == 0,
            Ok(Some(s)) => {
                if !is_hex_body(strip_0x(s@)) {
                    (r.result matches Err(VerificationError::ResolverUnavailable(m)) && m@
                        == "malformed bytecode in node response"@) && r.trace@.len() == 0
                } else if hex_bytes(strip_0x(s@)).len() == 0 {
                    r.result == Err::<VerificationSuccess, _>(VerificationError::NoDeployedCode)
                        && r.trace@.len() == 0
                } else {
                    search_ok(total_attempts(*request), r.trace@, r.result)
                }
            },
        },
{
    let deployed = match resolve_deployed_code(fetched_code) {
        Err(e) => {
            return SearchReport {
                result: Err(e),
                attempts: 0,
                trace: Ghost(Seq::empty()),
            };
        },
        Ok(b) => b,
    };
    let candidates = build_candidates(&request.content);
    let variants = settings_metadata(&request.compiler_version);
    proof {
        assert(candidates@.len() == candidate_count(request.content));
        assert(variants@.len() <= 3);
        assert(candidates@.len() <= 2);
        assert(candidates@.len() * variants@.len() <= 6) by (nonlinear_arith)
            requires
                candidates@.len() <= 2,
                variants@.len() <= 3,
        ;
    }
    run_search(
        verifier,
        middleware,
        &request.compiler_version,
        request.creation_bytecode.as_ref(),
        &deployed,
        &candidates,
        &variants,
    )
}

/// Hard stop: when the first attempt fails for any reason other than "no
/// matching contracts", the search makes exactly that one attempt and
/// surfaces that error unchanged — whatever later attempts would have
/// said.
pub proof fn lemma_search_hard_stop(
    total: nat,
    trace: Seq<Result<VerificationSuccess, VerificationError>>,
    result: Result<VerificationSuccess, VerificationError>,
    e: VerificationError,
)
    requires
        search_ok(total, trace, result),
        trace.len() > 0,
        trace[0] == Err::<VerificationSuccess, VerificationError>(e),
        !non_fatal(e),
    ensures
        trace.len() == 1,
        result == Err::<VerificationSuccess, VerificationError>(e),
{
    if trace.len() > 1 {
        assert(continues(trace[0]));
    }
}

/// Short circuit: when the first two attempts miss and the third matches,
/// the search makes exactly three attempts, and the third attempt's
/// success — with the settings it carries — is the result; no further
/// attempt occurs.
pub proof fn lemma_search_short_circuit(
    total: nat,
    trace: Seq<Result<VerificationSuccess, VerificationError>>,
    result: Result<VerificationSuccess, VerificationError>,
    s: VerificationSuccess,
)
    requires
        search_ok(total, trace, result),
        trace.len() >= 3,
        continues(trace[0]),
        continues(trace[1]),
        trace[2] == Ok::<VerificationSuccess, VerificationError>(s),
    ensures
        trace.len() == 3,
        result == Ok::<VerificationSuccess, VerificationError>(s),
{
    if trace.len() > 3 {
        assert(continues(trace[2]));
    }
    assert(trace.last() == trace[2]);
}

/// Exhaustion: when every attempt made merely missed, the search ran the
/// whole space — attempts equal candidates times variants — and the final
/// result is `NoMatchingContracts` itself.
pub proof fn lemma_search_exhaustion(
    total: nat,
    trace: Seq<Result<VerificationSuccess, VerificationError>>,
    result: Result<VerificationSuccess, VerificationError>,
)
    requires
        search_ok(total, trace, result),
        forall|k: int| 0 <= k < trace.len() ==> continues(#[trigger] trace[k]),
    ensures
        trace.len() == total,
        result == Err::<VerificationSuccess, VerificationError>(
            VerificationError::NoMatchingContracts,
        ),
{
    if trace.len() < total {
        assert(!continues(trace.last()));
        assert(continues(trace[trace.len() - 1]));
    }
}

/// Determinism: the report is a function of the attempt outcomes alone —
/// two searches over the same space whose capabilities answered the same
/// way report the same result.
pub proof fn lemma_search_deterministic(
    total: nat,
    trace: Seq<Result<VerificationSuccess, VerificationError>>,
    r1: Result<VerificationSuccess, VerificationError>,
    r2: Result<VerificationSuccess, VerificationError>,
)
    requires
        search_ok(total, trace, r1),
        search_ok(total, trace, r2),
    ensures
        r1 == r2,
{
}

} // verus!
