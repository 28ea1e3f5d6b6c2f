use vstd::prelude::*;

use std::convert::TryFrom;
use tendermint::block::Height as TmHeight;

use crate::height::Height;
use crate::ids::{ChainId, ClientId};

verus! {

/// The fields of a block header that light-client checks read.
#[derive(Clone, Debug)]
pub struct BlockHeader {
    pub chain_id: String,
    pub height: u64,
    /// Block time in nanoseconds since the Unix epoch.
    pub time: u64,
    pub last_block_id: Vec<u8>,
    pub validators_hash: Vec<u8>,
    pub next_validators_hash: Vec<u8>,
    pub app_hash: Vec<u8>,
}

/// The commit that signs a block: its height, round and block hash.
#[derive(Clone, Debug)]
pub struct Commit {
    pub height: u64,
    pub round: u32,
    pub block_id: Vec<u8>,
}

/// A block header together with the commit that signs it.
#[derive(Clone, Debug)]
pub struct SignedHeader {
    pub header: BlockHeader,
    pub commit: Commit,
}

/// A validator set, held by its hash and total voting power.
#[derive(Clone, Debug)]
pub struct ValidatorSet {
    pub hash: Vec<u8>,
    pub total_voting_power: u64,
}

/// A verified block: signed header, validator set and next validator set.
#[derive(Clone, Debug)]
pub struct LightBlock {
    pub signed_header: SignedHeader,
    pub validators: ValidatorSet,
    pub next_validators: ValidatorSet,
}

/// A Tendermint client header: a signed header with the validator sets that
/// sign it and that were trusted at `trusted_height`.
#[derive(Clone, Debug)]
pub struct Header {
    pub trusted_height: Height,
    pub signed_header: SignedHeader,
    pub validator_set: ValidatorSet,
    pub trusted_validator_set: ValidatorSet,
}

/// Header of a mock client, which carries only a height.
#[derive(Clone, Copy, Debug, PartialEq, Eq, Structural)]
pub struct MockHeader {
    pub height: Height,
}

/// A header of any supported consensus algorithm.
#[derive(Clone, Debug)]
pub enum AnyHeader {
    Tendermint(Header),
    Mock(MockHeader),
}

/// Event reporting that a client on a chain was updated with a header.
#[derive(Clone, Debug)]
pub struct UpdateClient {
    pub client_id: ClientId,
    pub consensus_height: Height,
    pub header: Option<AnyHeader>,
}

/// Evidence of two conflicting headers for one client.
#[derive(Clone, Debug)]
pub struct Misbehaviour {
    pub client_id: ClientId,
    pub header1: Header,
    pub header2: Header,
}

/// Why a light-client operation failed.
#[derive(Clone, Debug)]
pub enum LightClientError {
    /// The update event carries no header.
    MissingHeader(ChainId),
    /// The update event's header is not a Tendermint header.
    HeaderTypeMismatch(ChainId),
    MissingPrimaryConfig(ChainId),
    MissingWitnessesConfig(ChainId),
    /// A block height too large for a Tendermint height.
    InvalidHeight(u64),
}

pub open spec fn same_block_header(a: BlockHeader, b: BlockHeader) -> bool {
    &&& a.chain_id@ == b.chain_id@
    &&& a.height == b.height
    &&& a.time == b.time
    &&& a.last_block_id@ == b.last_block_id@
    &&& a.validators_hash@ == b.validators_hash@
    &&& a.next_validators_hash@ == b.next_validators_hash@
    &&& a.app_hash@ == b.app_hash@
}

pub open spec fn same_commit(a: Commit, b: Commit) -> bool {
    a.height == b.height && a.round == b.round && a.block_id@ == b.block_id@
}

pub open spec fn same_validator_set(a: ValidatorSet, b: ValidatorSet) -> bool {
    a.hash@ == b.hash@ && a.total_voting_power == b.total_voting_power
}

/// The two headers agree in every field.
pub open spec fn same_header(a: Header, b: Header) -> bool {
    &&& a.trusted_height == b.trusted_height
    &&& same_block_header(a.signed_header.header, b.signed_header.header)
    &&& same_commit(a.signed_header.commit, b.signed_header.commit)
    &&& same_validator_set(a.validator_set, b.validator_set)
    &&& same_validator_set(a.trusted_validator_set, b.trusted_validator_set)
}

/// The chain's header conflicts with the locally verified one: at the same
/// height they differ; at a greater height its time is not later.
pub open spec fn spec_incompatible(chain_header: Header, local_header: Header) -> bool {
    let chain_height = chain_header.signed_header.header.height;
    let local_height = local_header.signed_header.header.height;
    if chain_height == local_height {
        !same_header(chain_header, local_header)
    } else if chain_height > local_height {
        chain_header.signed_header.header.time <= local_header.signed_header.header.time
    } else {
        false
    }
}

/// The header rebuilt from two locally verified blocks.
pub open spec fn local_header(trusted_height: Height, trusted: LightBlock, target: LightBlock) -> Header {
    Header {
        trusted_height,
        signed_header: target.signed_header,
        validator_set: target.validators,
        trusted_validator_set: trusted.validators,
    }
}

/// The lower of the two heights.
pub open spec fn spec_target_height(consensus_height: Height, chain_height: Height) -> Height {
    if chain_height.spec_lt(consensus_height) {
        chain_height
    } else {
        consensus_height
    }
}

#[verifier::external_type_specification]
#[verifier::external_body]
pub struct ExTendermintHeight(TmHeight);

/// Relies on tendermint's `TryFrom<u64>` for `block::Height`: it accepts
/// exactly the values up to `i64::MAX`.
#[verifier::external_body]
fn checked_tendermint_height(value: u64) -> (r: Option<TmHeight>)
    ensures
        r is Some <==> value <= i64::MAX as u64,
{
    TmHeight::try_from(value).ok()
}

/// The Tendermint height of block height `value`, which must fit an `i64`.
pub fn tendermint_height(value: u64) -> (r: Result<TmHeight, LightClientError>)
    ensures
        r is Ok <==> value <= i64::MAX as u64,
        r matches Err(e) ==> e == LightClientError::InvalidHeight(value),
{
    match checked_tendermint_height(value) {
        Some(h) => Ok(h),
        None => Err(LightClientError::InvalidHeight(value)),
    }
}

fn bytes_eq(a: &Vec<u8>, b: &Vec<u8>) -> (r: bool)
    ensures
        r == (a@ == b@),
{
    if a.len() != b.len() {
        return false;
    }
    let mut i: usize = 0;
    while i < a.len()
        invariant
            i <= a@.len(),
            a@.len() == b@.len(),
            forall|j: int| 0 <= j < i ==> a@[j] == b@[j],
        decreases a@.len() - i,
    {
        if a[i] != b[i] {
            return false;
        }
        i = i + 1;
    }
    assert(a@ =~= b@);
    true
}

fn validator_sets_eq(a: &ValidatorSet, b: &ValidatorSet) -> (r: bool)
    ensures
        r == same_validator_set(*a, *b),
{
    a.total_voting_power == b.total_voting_power && bytes_eq(&a.hash, &b.hash)
}

/// The two headers agree in every field.
pub fn headers_eq(a: &Header, b: &Header) -> (r: bool)
    ensures
        r == same_header(*a, *b),
{
    let x = &a.signed_header.header;
    let y = &b.signed_header.header;
    let blocks = x.chain_id == y.chain_id && x.height == y.height && x.time == y.time && bytes_eq(
        &x.last_block_id,
        &y.last_block_id,
    ) && bytes_eq(&x.validators_hash, &y.validators_hash) && bytes_eq(
        &x.next_validators_hash,
        &y.next_validators_hash,
    ) && bytes_eq(&x.app_hash, &y.app_hash);
    let c = &a.signed_header.commit;
    let d = &b.signed_header.commit;
    let commits = c.height == d.height && c.round == d.round && bytes_eq(&c.block_id, &d.block_id);
    a.trusted_height == b.trusted_height && blocks && commits && validator_sets_eq(
        &a.validator_set,
        &b.validator_set,
    ) && validator_sets_eq(&a.trusted_validator_set, &b.trusted_validator_set)
}

/// The height to verify to when checking an update: the update's consensus
/// height, but no higher than the chain's height.
pub fn target_height(consensus_height: Height, chain_height: Height) -> (r: Height)
    ensures
        r == spec_target_height(consensus_height, chain_height),
{
    if chain_height.lt(&consensus_height) {
        chain_height
    } else {
        consensus_height
    }
}

/// The light client of one chain, as far as misbehaviour checks need it.
#[derive(Clone, Debug)]
pub struct LightClient {
    pub chain_id: ChainId,
}

impl LightClient {
    pub fn new(chain_id: ChainId) -> (r: LightClient)
        ensures
            r.chain_id == chain_id,
    {
        LightClient { chain_id }
    }

    /// The chain's header conflicts with the locally verified one.
    pub fn incompatible_headers(chain_header: &Header, local_header: &Header) -> (r: bool)
        ensures
            r == spec_incompatible(*chain_header, *local_header),
    {
        let chain_height = chain_header.signed_header.header.height;
        let local_height = local_header.signed_header.header.height;
        if chain_height == local_height {
            !headers_eq(chain_header, local_header)
        } else if chain_height > local_height {
            chain_header.signed_header.header.time <= local_header.signed_header.header.time
        } else {
            false
        }
    }

    /// Checks the header of an update event against the blocks verified
    /// locally at the trusted height and at the target height (see
    /// `target_height`), and returns evidence when the two conflict.
    pub fn build_misbehaviour(
        &self,
        update: UpdateClient,
        trusted_height: Height,
        trusted_block: LightBlock,
        target_block: LightBlock,
    ) -> (r: Result<Option<Misbehaviour>, LightClientError>)
        ensures
            match update.header {
                None => r == Err::<Option<Misbehaviour>, LightClientError>(
                    LightClientError::MissingHeader(self.chain_id),
                ),
                Some(AnyHeader::Mock(_)) => r == Err::<Option<Misbehaviour>, LightClientError>(
                    LightClientError::HeaderTypeMismatch(self.chain_id),
                ),
                Some(AnyHeader::Tendermint(chain_header)) => {
                    let local = local_header(trusted_height, trusted_block, target_block);
                    r == Ok::<Option<Misbehaviour>, LightClientError>(
                        if spec_incompatible(chain_header, local) {
                            Some(
                                Misbehaviour {
                                    client_id: update.client_id,
                                    header1: chain_header,
                                    header2: local,
                                },
                            )
                        } else {
                            None
                        },
                    )
                },
            },
    {
        let local = Header {
            trusted_height,
            signed_header: target_block.signed_header,
            validator_set: target_block.validators,
            trusted_validator_set: trusted_block.validators,
        };
        let chain_header = match update.header {
            None => {
                return Err(LightClientError::MissingHeader(self.chain_id.duplicate()));
            },
            Some(AnyHeader::Mock(_)) => {
                return Err(LightClientError::HeaderTypeMismatch(self.chain_id.duplicate()));
            },
            Some(AnyHeader::Tendermint(h)) => h,
        };
        if LightClient::incompatible_headers(&chain_header, &local) {
            Ok(
                Some(
                    Misbehaviour {
                        client_id: update.client_id,
                        header1: chain_header,
                        header2: local,
                    },
                ),
            )
        } else {
            Ok(None)
        }
    }
}

/// Two headers at one height are flagged exactly when they differ in some field.
pub proof fn lemma_equal_heights(chain_header: Header, local_header: Header)
    requires
        chain_header.signed_header.header.height == local_header.signed_header.header.height,
    ensures
        spec_incompatible(chain_header, local_header) == !same_header(chain_header, local_header),
        same_header(chain_header, local_header) ==> !spec_incompatible(chain_header, local_header),
{
}

/// A chain header above the local one is flagged exactly when its time is not
/// later than the local header's time; one below is never flagged.
pub proof fn lemma_unequal_heights(chain_header: Header, local_header: Header)
    ensures
        chain_header.signed_header.header.height > local_header.signed_header.header.height
            ==> spec_incompatible(chain_header, local_header) == (
        chain_header.signed_header.header.time <= local_header.signed_header.header.time),
        chain_header.signed_header.header.height < local_header.signed_header.header.height
            ==> !spec_incompatible(chain_header, local_header),
{
}

} // verus!
