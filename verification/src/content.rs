use vstd::prelude::*;
use crate::evm::{evm_of_name, parse_evm_version, EvmVersion};
use crate::hex::{decode_hex, hex_bytes, is_hex_body, strip_0x};
use crate::text::str_eq;
use crate::version::{spec_parse_version, version_of, Version};

verus! {

/// One submitted source file: a relative path and the text under it.
#[derive(Debug, Clone, PartialEq, Eq)]
pub struct SourceFile {
    pub path: String,
    pub content: String,
}

/// One library the deployment linked: its name and deployed address.
#[derive(Debug, Clone, PartialEq, Eq)]
pub struct Library {
    pub name: String,
    pub address: String,
}

/// A multi-file submission as it arrives: the EVM target still a plain
/// name, with `"default"` meaning "no explicit target".
#[derive(Debug, Clone, PartialEq, Eq)]
pub struct MultiPartFiles {
    pub sources: Vec<SourceFile>,
    pub evm_version: String,
    pub optimization_runs: Option<usize>,
    pub contract_libraries: Option<Vec<Library>>,
}

/// A pre-assembled compiler-input document as it arrives: one JSON string.
#[derive(Debug, Clone, PartialEq, Eq)]
pub struct StandardJson {
    pub input: String,
}

/// A typed multi-file submission. The sources are kept exactly as the
/// caller supplied them; paths are expected unique.
#[derive(Debug, Clone, PartialEq, Eq)]
pub struct MultiFileContent {
    pub sources: Vec<SourceFile>,
    pub evm_version: Option<EvmVersion>,
    pub optimization_runs: Option<usize>,
    pub contract_libraries: Option<Vec<Library>>,
}

/// A pre-assembled compiler-input document, checked to be well-formed JSON.
#[derive(Debug, Clone, PartialEq, Eq)]
pub struct StandardJsonContent {
    pub input: String,
}

/// What a request carries: exactly one of the two content forms.
#[derive(Debug, Clone, PartialEq, Eq)]
pub enum RequestContent {
    MultiFile(MultiFileContent),
    StandardJson(StandardJsonContent),
}

/// Why a raw request was rejected before any search began.
#[derive(Debug, Clone, PartialEq, Eq)]
pub enum ParseError {
    /// The submitted document is not valid standard JSON.
    InvalidContent(String),
    /// A field of the request could not be read.
    BadRequest(String),
}

/// A verification request with every field in its typed form.
#[derive(Debug, Clone, PartialEq, Eq)]
pub struct VerificationRequest {
    pub contract_address: String,
    pub creation_bytecode: Option<Vec<u8>>,
    pub compiler_version: Version,
    pub content: RequestContent,
}

/// Whether a string is a well-formed JSON document; decided by the
/// document's characters alone.
pub uninterp spec fn json_ok(s: Seq<char>) -> bool;

/// Relies on serde_json::from_str::<serde_json::Value>: parses a string as a
/// JSON document, accepting exactly the well-formed ones.
#[verifier::external_body]
fn check_json(s: &str) -> (r: Result<(), String>)
    ensures
        r is Ok <==> json_ok(s@),
{
    match serde_json::from_str::<serde_json::Value>(s) {
        Ok(_) => Ok(()),
        Err(e) => Err(e.to_string()),
    }
}

/// The raw multi-part form names an EVM target the catalogue knows, or
/// `"default"`.
pub open spec fn multi_part_valid(m: MultiPartFiles) -> bool {
    m.evm_version@ == "default"@ || evm_of_name(m.evm_version@) is Some
}

/// How a typed multi-file content relates to the raw form it was read
/// from: sources, optimizer runs and libraries carried over untouched,
/// `"default"` turned into no target at all.
pub open spec fn multi_file_of(c: MultiFileContent, m: MultiPartFiles) -> bool {
    &&& c.sources@ == m.sources@
    &&& c.optimization_runs == m.optimization_runs
    &&& c.contract_libraries == m.contract_libraries
    &&& if m.evm_version@ == "default"@ {
        c.evm_version is None
    } else {
        c.evm_version == evm_of_name(m.evm_version@)
    }
}

impl MultiFileContent {
    /// Types a raw multi-part submission; rejects exactly the unknown EVM
    /// target names.
    pub fn from_multi_part(value: MultiPartFiles) -> (r: Result<MultiFileContent, ParseError>)
        ensures
            match r {
                Ok(c) => multi_part_valid(value) && multi_file_of(c, value),
                Err(e) => !multi_part_valid(value) && e matches ParseError::BadRequest(_),
            },
    {
        let evm_version: Option<EvmVersion> = if str_eq(value.evm_version.as_str(), "default") {
            None
        } else {
            match parse_evm_version(value.evm_version.as_str()) {
                Some(v) => Some(v),
                None => {
                    return Err(ParseError::BadRequest("unknown evm version".to_owned()));
                },
            }
        };
        Ok(
            MultiFileContent {
                sources: value.sources,
                evm_version,
                optimization_runs: value.optimization_runs,
                contract_libraries: value.contract_libraries,
            },
        )
    }
}

impl StandardJsonContent {
    /// Accepts a pre-assembled document exactly when it is well-formed
    /// JSON; the document itself is never altered.
    pub fn from_standard_json(value: StandardJson) -> (r: Result<StandardJsonContent, ParseError>)
        ensures
            match r {
                Ok(c) => json_ok(value.input@) && c.input == value.input,
                Err(e) => !json_ok(value.input@) && e matches ParseError::InvalidContent(_),
            },
    {
        match check_json(value.input.as_str()) {
            Ok(_) => Ok(StandardJsonContent { input: value.input }),
            Err(m) => Err(ParseError::InvalidContent(m)),
        }
    }
}

/// The optional creation bytecode is absent or a hex string.
pub open spec fn creation_valid(cb: Option<String>) -> bool {
    match cb {
        None => true,
        Some(s) => is_hex_body(strip_0x(s@)),
    }
}

/// How decoded creation bytecode relates to the raw field.
pub open spec fn creation_of(rb: Option<Vec<u8>>, cb: Option<String>) -> bool {
    match cb {
        None => rb is None,
        Some(s) => rb matches Some(b) && b@ == hex_bytes(strip_0x(s@)),
    }
}

/// Decodes the optional creation-bytecode field.
fn decode_creation(cb: Option<String>) -> (r: Result<Option<Vec<u8>>, ParseError>)
    ensures
        match r {
            Ok(rb) => creation_valid(cb) && creation_of(rb, cb),
            Err(e) => !creation_valid(cb) && e matches ParseError::BadRequest(_),
        },
{
    match cb {
        None => Ok(None),
        Some(s) => match decode_hex(s.as_str()) {
            Some(b) => Ok(Some(b)),
            None => Err(ParseError::BadRequest("invalid creation bytecode".to_owned())),
        },
    }
}

/// Parses the compiler-version field.
fn parse_request_version(s: &String) -> (r: Result<Version, ParseError>)
    ensures
        match r {
            Ok(v) => version_of(s@, v),
            Err(e) => spec_parse_version(s@) is None && e matches ParseError::BadRequest(_),
        },
{
    match Version::parse(s.as_str()) {
        Some(v) => Ok(v),
        None => Err(ParseError::BadRequest("invalid compiler version".to_owned())),
    }
}

impl VerificationRequest {
    /// Types a raw multi-part request. Rejects, in this order, a malformed
    /// creation bytecode, an unreadable compiler version, and an unknown
    /// EVM target name; otherwise every field carries over typed.
    pub fn from_multi_part(
        contract_address: String,
        creation_bytecode: Option<String>,
        compiler_version: String,
        content: MultiPartFiles,
    ) -> (r: Result<VerificationRequest, ParseError>)
        ensures
            match r {
                Ok(req) => {
                    &&& creation_valid(creation_bytecode)
                    &&& spec_parse_version(compiler_version@) is Some
                    &&& multi_part_valid(content)
                    &&& req.contract_address == contract_address
                    &&& creation_of(req.creation_bytecode, creation_bytecode)
                    &&& version_of(compiler_version@, req.compiler_version)
                    &&& req.content matches RequestContent::MultiFile(c) && multi_file_of(
                        c,
                        content,
                    )
                },
                Err(e) => {
                    ||| !creation_valid(creation_bytecode) && e matches ParseError::BadRequest(_)
                    ||| creation_valid(creation_bytecode) && spec_parse_version(compiler_version@)
                        is None && e matches ParseError::BadRequest(_)
                    ||| creation_valid(creation_bytecode) && spec_parse_version(compiler_version@)
                        is Some && !multi_part_valid(content) && e matches ParseError::BadRequest(
                        _,
                    )
                },
            },
    {
        let creation = decode_creation(creation_bytecode)?;
        let version = parse_request_version(&compiler_version)?;
        let typed = MultiFileContent::from_multi_part(content)?;
        Ok(
            VerificationRequest {
                contract_address,
                creation_bytecode: creation,
                compiler_version: version,
                content: RequestContent::MultiFile(typed),
            },
        )
    }

    /// Types a raw standard-JSON request. Rejects, in this order, a
    /// malformed creation bytecode, an unreadable compiler version, and a
    /// document that is not well-formed JSON.
    pub fn from_standard_json(
        contract_address: String,
        creation_bytecode: Option<String>,
        compiler_version: String,
        content: StandardJson,
    ) -> (r: Result<VerificationRequest, ParseError>)
        ensures
            match r {
                Ok(req) => {
                    &&& creation_valid(creation_bytecode)
                    &&& spec_parse_version(compiler_version@) is Some
                    &&& json_ok(content.input@)
                    &&& req.contract_address == contract_address
                    &&& creation_of(req.creation_bytecode, creation_bytecode)
                    &&& version_of(compiler_version@, req.compiler_version)
                    &&& req.content matches RequestContent::StandardJson(c) && c.input
                        == content.input
                },
                Err(e) => {
                    ||| !creation_valid(creation_bytecode) && e matches ParseError::BadRequest(_)
                    ||| creation_valid(creation_bytecode) && spec_parse_version(compiler_version@)
                        is None && e matches ParseError::BadRequest(_)
                    ||| creation_valid(creation_bytecode) && spec_parse_version(compiler_version@)
                        is Some && !json_ok(content.input@) && e
                        matches ParseError::InvalidContent(_)
                },
            },
    {
        let creation = decode_creation(creation_bytecode)?;
        let version = parse_request_version(&compiler_version)?;
        let typed = StandardJsonContent::from_standard_json(content)?;
        Ok(
            VerificationRequest {
                contract_address,
                creation_bytecode: creation,
                compiler_version: version,
                content: RequestContent::StandardJson(typed),
            },
        )
    }
}

} // verus!
