//! The chain facade and the prefetch that builds it.
//!
//! A facade is never half made. [`Api::new`] opens a [`Prefetch`], which asks
//! for the metadata, the genesis hash and the runtime version, one after the
//! other. The caller puts each query that [`Prefetch::next_query`] names and
//! hands the answer to [`Prefetch::advance`]. The first answer that is an
//! error or holds no value ends the prefetch; only three values in a row
//! give an [`Api`].

use vstd::prelude::*;
use crate::chain::{
    BaseApi, BaseCall, ChainError, Fetched, H256, Metadata, Query, RuntimeVersion,
};

verus! {

/// A chain client whose metadata, genesis hash and runtime version are known.
#[derive(Clone, Debug, PartialEq, Eq)]
pub struct Api {
    base_api: BaseApi,
    /// The blockchain metadata
    pub metadata: Metadata,
    /// The genesis hash of the blockchain
    pub genesis_hash: H256,
    /// The runtime version of the blockchain
    pub runtime_version: RuntimeVersion,
}

/// What an [`Api`] holds: its base handle and the three prefetched values.
pub ghost struct ApiView {
    pub base_api: BaseApi,
    pub metadata: Metadata,
    pub genesis_hash: H256,
    pub runtime_version: RuntimeVersion,
}

impl View for Api {
    type V = ApiView;

    closed spec fn view(&self) -> ApiView {
        ApiView {
            base_api: self.base_api,
            metadata: self.metadata,
            genesis_hash: self.genesis_hash,
            runtime_version: self.runtime_version,
        }
    }
}

/// The construction of an [`Api`], between two calls of the base client.
#[derive(Clone, Debug, PartialEq, Eq)]
pub enum Prefetch {
    /// Nothing is known yet; the metadata is asked for.
    AwaitMetadata { base_api: BaseApi },
    /// The metadata is here; the genesis hash is asked for.
    AwaitGenesisHash { base_api: BaseApi, metadata: Metadata },
    /// Metadata and genesis hash are here; the runtime version is asked for.
    AwaitRuntimeVersion { base_api: BaseApi, metadata: Metadata, genesis_hash: H256 },
    /// All three came: the facade.
    Ready(Api),
    /// A query failed or found nothing: no facade.
    Failed(ChainError),
}

impl Prefetch {
    /// The query that the base client has to answer next, if any.
    pub open spec fn pending(self) -> Option<Query> {
        match self {
            Prefetch::AwaitMetadata { .. } => Some(Query::Metadata),
            Prefetch::AwaitGenesisHash { .. } => Some(Query::GenesisHash),
            Prefetch::AwaitRuntimeVersion { .. } => Some(Query::RuntimeVersion),
            Prefetch::Ready(_) => None,
            Prefetch::Failed(_) => None,
        }
    }

    /// The prefetch after `reply` has come in.
    ///
    /// A failure of the base client ends a prefetch that is waiting, with
    /// that failure. An answer to the pending query moves it on, or ends it
    /// with the error of that query where the answer holds no value. An
    /// answer to another query, and any reply to a prefetch that has ended,
    /// changes nothing.
    pub open spec fn after(self, reply: Result<Fetched, ChainError>) -> Prefetch {
        match (self, reply) {
            (Prefetch::Ready(_), _) => self,
            (Prefetch::Failed(_), _) => self,
            (_, Err(failure)) => Prefetch::Failed(failure),
            (Prefetch::AwaitMetadata { base_api }, Ok(Fetched::Metadata(found))) => match found {
                Some(metadata) => Prefetch::AwaitGenesisHash { base_api, metadata },
                None => Prefetch::Failed(ChainError::NoMetadata),
            },
            (Prefetch::AwaitGenesisHash { base_api, metadata }, Ok(Fetched::GenesisHash(found))) => match found {
                Some(genesis_hash) => Prefetch::AwaitRuntimeVersion { base_api, metadata, genesis_hash },
                None => Prefetch::Failed(ChainError::NoGenesisHash),
            },
            (
                Prefetch::AwaitRuntimeVersion { base_api, metadata, genesis_hash },
                Ok(Fetched::RuntimeVersion(found)),
            ) => match found {
                Some(runtime_version) => Prefetch::Ready(
                    Api::assembled(base_api, metadata, genesis_hash, runtime_version),
                ),
                None => Prefetch::Failed(ChainError::NoRuntimeVersion),
            },
            _ => self,
        }
    }

    /// What the construction came to, once nothing is pending.
    pub open spec fn outcome(self) -> Option<Result<Api, ChainError>> {
        match self {
            Prefetch::Ready(api) => Some(Ok(api)),
            Prefetch::Failed(error) => Some(Err(error)),
            _ => None,
        }
    }

    /// The query to put next: `None` once the prefetch has ended.
    pub fn next_query(&self) -> (query: Option<Query>)
        ensures
            query == self.pending(),
    {
        match self {
            Prefetch::AwaitMetadata { .. } => Some(Query::Metadata),
            Prefetch::AwaitGenesisHash { .. } => Some(Query::GenesisHash),
            Prefetch::AwaitRuntimeVersion { .. } => Some(Query::RuntimeVersion),
            Prefetch::Ready(_) => None,
            Prefetch::Failed(_) => None,
        }
    }

    /// Takes the base client's reply to the pending query.
    pub fn advance(self, reply: Result<Fetched, ChainError>) -> (next: Prefetch)
        ensures
            next == self.after(reply),
    {
        match self {
            Prefetch::Ready(api) => Prefetch::Ready(api),
            Prefetch::Failed(error) => Prefetch::Failed(error),
            Prefetch::AwaitMetadata { base_api } => match reply {
                Err(failure) => Prefetch::Failed(failure),
                Ok(Fetched::Metadata(Some(metadata))) => Prefetch::AwaitGenesisHash {
                    base_api,
                    metadata,
                },
                Ok(Fetched::Metadata(None)) => Prefetch::Failed(ChainError::NoMetadata),
                Ok(_) => Prefetch::AwaitMetadata { base_api },
            },
            Prefetch::AwaitGenesisHash { base_api, metadata } => match reply {
                Err(failure) => Prefetch::Failed(failure),
                Ok(Fetched::GenesisHash(Some(genesis_hash))) => Prefetch::AwaitRuntimeVersion {
                    base_api,
                    metadata,
                    genesis_hash,
                },
                Ok(Fetched::GenesisHash(None)) => Prefetch::Failed(ChainError::NoGenesisHash),
                Ok(_) => Prefetch::AwaitGenesisHash { base_api, metadata },
            },
            Prefetch::AwaitRuntimeVersion { base_api, metadata, genesis_hash } => match reply {
                Err(failure) => Prefetch::Failed(failure),
                Ok(Fetched::RuntimeVersion(Some(runtime_version))) => Prefetch::Ready(
                    Api { base_api, metadata, genesis_hash, runtime_version },
                ),
                Ok(Fetched::RuntimeVersion(None)) => Prefetch::Failed(ChainError::NoRuntimeVersion),
                Ok(_) => Prefetch::AwaitRuntimeVersion { base_api, metadata, genesis_hash },
            },
        }
    }

    /// The facade or the error, once the prefetch has ended; `None` while a
    /// query is pending.
    pub fn finish(self) -> (result: Option<Result<Api, ChainError>>)
        ensures
            result == self.outcome(),
            result is None <==> self.pending() is Some,
    {
        match self {
            Prefetch::Ready(api) => Some(Ok(api)),
            Prefetch::Failed(error) => Some(Err(error)),
            _ => None,
        }
    }
}

impl Api {
    /// The facade that holds exactly these four values.
    pub closed spec fn assembled(
        base_api: BaseApi,
        metadata: Metadata,
        genesis_hash: H256,
        runtime_version: RuntimeVersion,
    ) -> Api {
        Api { base_api, metadata, genesis_hash, runtime_version }
    }

    /// A facade holds what it was assembled from, unchanged, and nothing
    /// else: two facades with the same four values are the same facade.
    pub proof fn lemma_assembled(
        base_api: BaseApi,
        metadata: Metadata,
        genesis_hash: H256,
        runtime_version: RuntimeVersion,
    )
        ensures
            forall|api: Api|
                api == Api::assembled(base_api, metadata, genesis_hash, runtime_version) <==> api@
                    == (ApiView { base_api, metadata, genesis_hash, runtime_version }),
    {
    }

    /// Opens the construction of a facade for the node at `url`.
    ///
    /// No call has been made yet: the prefetch holds a fresh handle bound to
    /// `url` and asks for the metadata first.
    pub fn new(url: &str) -> (prefetch: Prefetch)
        ensures
            prefetch matches Prefetch::AwaitMetadata { base_api } && base_api.url@ == url@,
    {
        Prefetch::AwaitMetadata { base_api: BaseApi::new(url) }
    }

    /// The handle of the base client that this facade forwards to.
    pub fn base_api(&self) -> (base: &BaseApi)
        ensures
            *base == self@.base_api,
    {
        &self.base_api
    }

    /// The metadata that the prefetch brought.
    pub fn metadata(&self) -> (metadata: &Metadata)
        ensures
            *metadata == self@.metadata,
    {
        &self.metadata
    }

    /// The genesis hash that the prefetch brought.
    pub fn genesis_hash(&self) -> (genesis_hash: H256)
        ensures
            genesis_hash == self@.genesis_hash,
    {
        self.genesis_hash
    }

    /// The runtime version that the prefetch brought.
    pub fn runtime_version(&self) -> (runtime_version: &RuntimeVersion)
        ensures
            *runtime_version == self@.runtime_version,
    {
        &self.runtime_version
    }

    /// The base call behind "get finalized head".
    pub fn chain_get_finalized_head(&self) -> (call: BaseCall)
        ensures
            call == BaseCall::FetchFinalizedHead,
    {
        BaseCall::FetchFinalizedHead
    }

    /// The base call behind "get header": fetch the header of block `hash`.
    pub fn chain_get_header(&self, hash: H256) -> (call: BaseCall)
        ensures
            call == BaseCall::FetchHeader(hash),
    {
        BaseCall::FetchHeader(hash)
    }

    /// The base call behind "submit extrinsic", with the extrinsic as given.
    pub fn author_submit_extrinsic(&self, hex_extrinsic: String) -> (call: BaseCall)
        ensures
            call == BaseCall::AuthorSubmitExtrinsic(hex_extrinsic),
    {
        BaseCall::AuthorSubmitExtrinsic(hex_extrinsic)
    }

    /// What a delegated call returns for the base client's `reply`: the
    /// reply itself. A missing value stays a missing value and a failure
    /// stays that failure.
    pub fn delegated<T>(&self, reply: Result<Option<T>, ChainError>) -> (result: Result<
        Option<T>,
        ChainError,
    >)
        ensures
            result == reply,
    {
        reply
    }
}

} // verus!
