//! Plain values that travel between the chain facade and the base client.

use vstd::prelude::*;

verus! {

/// A 32-byte hash, as the chain reports block and extrinsic hashes.
#[derive(Clone, Copy, Debug, PartialEq, Eq)]
pub struct H256(pub [u8; 32]);

/// Chain metadata as the base client handed it over.
///
/// The facade stores and returns it; it never looks inside.
#[derive(Clone, Debug, PartialEq, Eq)]
pub struct Metadata {
    pub bytes: Vec<u8>,
}

/// The runtime version descriptor of a chain.
#[derive(Clone, Debug, PartialEq, Eq)]
pub struct RuntimeVersion {
    pub spec_name: String,
    pub impl_name: String,
    pub authoring_version: u32,
    pub spec_version: u32,
    pub impl_version: u32,
    pub apis: Vec<([u8; 8], u32)>,
    pub transaction_version: u32,
    pub state_version: u8,
}

/// Why a chain call or the construction of the facade failed.
#[derive(Clone, Debug, PartialEq, Eq)]
pub enum ChainError {
    /// The base client answered the metadata query with no value.
    NoMetadata,
    /// The base client answered the genesis hash query with no value.
    NoGenesisHash,
    /// The base client answered the runtime version query with no value.
    NoRuntimeVersion,
    /// The base client itself failed; the text is its own report.
    Client(String),
}

/// The handle of the lower-level client: the node it is bound to.
///
/// Making one causes no network activity.
#[derive(Clone, Debug, PartialEq, Eq)]
pub struct BaseApi {
    pub url: String,
}

impl BaseApi {
    /// Binds a handle to `url`.
    pub fn new(url: &str) -> (base: BaseApi)
        ensures
            base.url@ == url@,
    {
        BaseApi { url: url.to_owned() }
    }
}

/// One of the three queries that a prefetch puts to the base client.
#[derive(Clone, Copy, Debug, PartialEq, Eq)]
pub enum Query {
    Metadata,
    GenesisHash,
    RuntimeVersion,
}

/// A call that the facade hands on to the base client.
#[derive(Clone, Debug, PartialEq, Eq)]
pub enum BaseCall {
    FetchFinalizedHead,
    /// Fetch the header of the block with this hash.
    FetchHeader(H256),
    /// Submit this hex-encoded extrinsic.
    AuthorSubmitExtrinsic(String),
}

/// What the base client found for one of the three queries.
#[derive(Clone, Debug, PartialEq, Eq)]
pub enum Fetched {
    Metadata(Option<Metadata>),
    GenesisHash(Option<H256>),
    RuntimeVersion(Option<RuntimeVersion>),
}

} // verus!
