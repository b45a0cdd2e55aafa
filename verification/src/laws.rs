//! What holds of every prefetch, whatever the base client answers.
//!
//! The base client is modelled by its three answers ([`Replies`]); a run
//! puts the pending query, takes the answer and goes on until nothing is
//! pending. The lemmas relate such runs to the plain statement of what a
//! construction comes to ([`constructed`]) and of which queries it costs
//! ([`queries`]).

use vstd::prelude::*;
use crate::api::{Api, Prefetch};
use crate::chain::{BaseApi, ChainError, Fetched, H256, Metadata, Query, RuntimeVersion};

verus! {

/// The answers that a base client gives to the three queries.
pub ghost struct Replies {
    pub metadata: Result<Option<Metadata>, ChainError>,
    pub genesis_hash: Result<Option<H256>, ChainError>,
    pub runtime_version: Result<Option<RuntimeVersion>, ChainError>,
}

impl Replies {
    /// The reply to `query`.
    pub open spec fn answer(self, query: Query) -> Result<Fetched, ChainError> {
        match query {
            Query::Metadata => match self.metadata {
                Ok(found) => Ok(Fetched::Metadata(found)),
                Err(failure) => Err(failure),
            },
            Query::GenesisHash => match self.genesis_hash {
                Ok(found) => Ok(Fetched::GenesisHash(found)),
                Err(failure) => Err(failure),
            },
            Query::RuntimeVersion => match self.runtime_version {
                Ok(found) => Ok(Fetched::RuntimeVersion(found)),
                Err(failure) => Err(failure),
            },
        }
    }
}

/// The prefetch that `from` has become after at most `steps` queries, each
/// answered from `replies`.
pub open spec fn run(from: Prefetch, replies: Replies, steps: nat) -> Prefetch
    decreases steps,
{
    match from.pending() {
        Some(query) if steps > 0 => run(
            from.after(replies.answer(query)),
            replies,
            (steps - 1) as nat,
        ),
        _ => from,
    }
}

/// The queries that were put on the way from `from` to `run(from, ..)`, in
/// their order.
pub open spec fn asked(from: Prefetch, replies: Replies, steps: nat) -> Seq<Query>
    decreases steps,
{
    match from.pending() {
        Some(query) if steps > 0 => seq![query] + asked(
            from.after(replies.answer(query)),
            replies,
            (steps - 1) as nat,
        ),
        _ => Seq::empty(),
    }
}

/// What constructing a facade over `base_api` comes to: the first query
/// that fails gives its failure, the first that finds nothing gives its own
/// error, and three values give the facade that holds them.
pub open spec fn constructed(base_api: BaseApi, replies: Replies) -> Result<Api, ChainError> {
    match replies.metadata {
        Err(failure) => Err(failure),
        Ok(None) => Err(ChainError::NoMetadata),
        Ok(Some(metadata)) => match replies.genesis_hash {
            Err(failure) => Err(failure),
            Ok(None) => Err(ChainError::NoGenesisHash),
            Ok(Some(genesis_hash)) => match replies.runtime_version {
                Err(failure) => Err(failure),
                Ok(None) => Err(ChainError::NoRuntimeVersion),
                Ok(Some(runtime_version)) => Ok(
                    Api::assembled(base_api, metadata, genesis_hash, runtime_version),
                ),
            },
        },
    }
}

/// The queries that a construction costs: each one only if every one before
/// it brought a value.
pub open spec fn queries(replies: Replies) -> Seq<Query> {
    if !(replies.metadata matches Ok(Some(_))) {
        seq![Query::Metadata]
    } else if !(replies.genesis_hash matches Ok(Some(_))) {
        seq![Query::Metadata, Query::GenesisHash]
    } else {
        seq![Query::Metadata, Query::GenesisHash, Query::RuntimeVersion]
    }
}

/// Whether `found` is an answer to `query`.
pub open spec fn answers(found: Fetched, query: Query) -> bool {
    match (found, query) {
        (Fetched::Metadata(_), Query::Metadata) => true,
        (Fetched::GenesisHash(_), Query::GenesisHash) => true,
        (Fetched::RuntimeVersion(_), Query::RuntimeVersion) => true,
        _ => false,
    }
}

/// A prefetch that has ended stays as it is, whatever reply is handed to it,
/// and asks for nothing.
pub proof fn lemma_ended_is_final(ended: Prefetch, reply: Result<Fetched, ChainError>)
    requires
        ended.pending() is None,
    ensures
        ended.after(reply) == ended,
        ended.outcome() is Some,
{
}

/// A reply that does not answer the pending query changes nothing.
pub proof fn lemma_stray_reply_is_ignored(waiting: Prefetch, found: Fetched)
    requires
        waiting.pending() matches Some(query) && !answers(found, query),
    ensures
        waiting.after(Ok(found)) == waiting,
{
}

/// Run against any base client, a construction ends within three queries,
/// comes to exactly [`constructed`], and has put exactly [`queries`]: the
/// metadata first, then the genesis hash, then the runtime version, and none
/// after the first that failed or found nothing.
pub proof fn lemma_construction(base_api: BaseApi, replies: Replies, steps: nat)
    requires
        steps >= 3,
    ensures
        run(Prefetch::AwaitMetadata { base_api }, replies, steps).outcome() == Some(
            constructed(base_api, replies),
        ),
        asked(Prefetch::AwaitMetadata { base_api }, replies, steps) == queries(replies),
{
    reveal_with_fuel(run, 4);
    reveal_with_fuel(asked, 4);
    assert(asked(Prefetch::AwaitMetadata { base_api }, replies, steps) =~= queries(replies));
}

/// Where the metadata query finds nothing, the construction fails with
/// `NoMetadata`, and neither the genesis hash nor the runtime version was
/// ever asked for.
pub proof fn lemma_missing_metadata_stops(base_api: BaseApi, replies: Replies, steps: nat)
    requires
        replies.metadata == Ok::<Option<Metadata>, ChainError>(None),
        steps >= 1,
    ensures
        run(Prefetch::AwaitMetadata { base_api }, replies, steps) == Prefetch::Failed(
            ChainError::NoMetadata,
        ),
        asked(Prefetch::AwaitMetadata { base_api }, replies, steps) == seq![Query::Metadata],
{
    reveal_with_fuel(run, 3);
    reveal_with_fuel(asked, 3);
    assert(asked(Prefetch::AwaitMetadata { base_api }, replies, steps) =~= seq![Query::Metadata]);
}

/// Where all three queries bring a value, the construction gives a facade,
/// and what it holds are those three values and the base handle, unchanged.
pub proof fn lemma_all_found_gives_facade(
    base_api: BaseApi,
    metadata: Metadata,
    genesis_hash: H256,
    runtime_version: RuntimeVersion,
    steps: nat,
)
    requires
        steps >= 3,
    ensures
        ({
            let replies = Replies {
                metadata: Ok(Some(metadata)),
                genesis_hash: Ok(Some(genesis_hash)),
                runtime_version: Ok(Some(runtime_version)),
            };
            run(Prefetch::AwaitMetadata { base_api }, replies, steps).outcome() matches Some(
                Ok(api),
            ) && api@.base_api == base_api && api@.metadata == metadata && api@.genesis_hash
                == genesis_hash && api@.runtime_version == runtime_version
        }),
{
    let replies = Replies {
        metadata: Ok(Some(metadata)),
        genesis_hash: Ok(Some(genesis_hash)),
        runtime_version: Ok(Some(runtime_version)),
    };
    lemma_construction(base_api, replies, steps);
    Api::lemma_assembled(base_api, metadata, genesis_hash, runtime_version);
}

/// A facade comes into being in one way only: a prefetch that holds the
/// metadata and the genesis hash receives a runtime version.
pub proof fn lemma_facade_needs_all_three(before: Prefetch, reply: Result<Fetched, ChainError>)
    requires
        !(before is Ready),
        before.after(reply) is Ready,
    ensures
        before matches Prefetch::AwaitRuntimeVersion { base_api, metadata, genesis_hash }
            && reply matches Ok(Fetched::RuntimeVersion(Some(runtime_version)))
            && before.after(reply) == Prefetch::Ready(
            Api::assembled(base_api, metadata, genesis_hash, runtime_version),
        ),
{
}

} // verus!
