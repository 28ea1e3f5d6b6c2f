use ibc_core::height::Height;
use ibc_core::ids::{ChainId, ClientId};
use ibc_core::light_client::{
    headers_eq, target_height, AnyHeader, BlockHeader, Commit, Header, LightBlock, LightClient,
    LightClientError, MockHeader, SignedHeader, UpdateClient, ValidatorSet,
};
use ibc_core::supervisor::{
    supervisor_plan, trust_start, ChainConfig, LightClientConfig, StoreConfig, TrustStart,
    TrustThreshold,
};

fn validators(tag: u8) -> ValidatorSet {
    ValidatorSet { hash: vec![tag; 4], total_voting_power: 100 }
}

fn light_block(height: u64, time: u64, commit_hash: u8) -> LightBlock {
    LightBlock {
        signed_header: SignedHeader {
            header: BlockHeader {
                chain_id: "ibc-0".to_string(),
                height,
                time,
                last_block_id: vec![1, 2, 3],
                validators_hash: vec![4; 4],
                next_validators_hash: vec![4; 4],
                app_hash: vec![9, 9],
            },
            commit: Commit { height, round: 0, block_id: vec![commit_hash; 4] },
        },
        validators: validators(4),
        next_validators: validators(4),
    }
}

fn header_of(trusted_height: Height, trusted: &LightBlock, target: &LightBlock) -> Header {
    Header {
        trusted_height,
        signed_header: target.signed_header.clone(),
        validator_set: target.validators.clone(),
        trusted_validator_set: trusted.validators.clone(),
    }
}

fn client() -> LightClient {
    LightClient::new(ChainId::new("ibc-0".to_string()))
}

#[test]
fn same_height_different_commit_is_incompatible() {
    let trusted = light_block(5, 50, 7);
    let a = header_of(Height::new(0, 5), &trusted, &light_block(10, 100, 1));
    let b = header_of(Height::new(0, 5), &trusted, &light_block(10, 100, 2));
    assert!(LightClient::incompatible_headers(&a, &b));
    let c = header_of(Height::new(0, 5), &trusted, &light_block(10, 100, 1));
    assert!(!LightClient::incompatible_headers(&a, &c));
    assert!(headers_eq(&a, &c));
}

#[test]
fn same_height_any_field_difference_is_incompatible() {
    let trusted = light_block(5, 50, 7);
    let base = header_of(Height::new(0, 5), &trusted, &light_block(10, 100, 1));
    let mut other = base.clone();
    other.signed_header.header.app_hash = vec![9, 8];
    assert!(LightClient::incompatible_headers(&base, &other));
    let mut other = base.clone();
    other.trusted_height = Height::new(0, 6);
    assert!(LightClient::incompatible_headers(&base, &other));
    let mut other = base.clone();
    other.trusted_validator_set.total_voting_power = 99;
    assert!(LightClient::incompatible_headers(&base, &other));
    let mut other = base.clone();
    other.signed_header.header.chain_id = "ibc-1".to_string();
    assert!(LightClient::incompatible_headers(&base, &other));
}

#[test]
fn higher_header_time_rule() {
    let trusted = light_block(5, 50, 7);
    let local = header_of(Height::new(0, 5), &trusted, &light_block(10, 100, 1));
    let earlier = header_of(Height::new(0, 5), &trusted, &light_block(11, 90, 1));
    let same_time = header_of(Height::new(0, 5), &trusted, &light_block(11, 100, 1));
    let later = header_of(Height::new(0, 5), &trusted, &light_block(11, 101, 1));
    assert!(LightClient::incompatible_headers(&earlier, &local));
    assert!(LightClient::incompatible_headers(&same_time, &local));
    assert!(!LightClient::incompatible_headers(&later, &local));
    // A lower chain header is never flagged here.
    let lower = header_of(Height::new(0, 5), &trusted, &light_block(9, 1, 3));
    assert!(!LightClient::incompatible_headers(&lower, &local));
}

#[test]
fn target_height_is_capped_by_chain_height() {
    assert_eq!(target_height(Height::new(1, 20), Height::new(1, 15)), Height::new(1, 15));
    assert_eq!(target_height(Height::new(1, 10), Height::new(1, 15)), Height::new(1, 10));
    assert_eq!(target_height(Height::new(1, 15), Height::new(1, 15)), Height::new(1, 15));
}

#[test]
fn misbehaviour_reported_for_conflicting_header() {
    let trusted = light_block(5, 50, 7);
    let target = light_block(10, 100, 1);
    let chain_header = header_of(Height::new(0, 5), &trusted, &light_block(10, 100, 2));
    let update = UpdateClient {
        client_id: ClientId::new("07-tendermint-0".to_string()),
        consensus_height: Height::new(0, 10),
        header: Some(AnyHeader::Tendermint(chain_header.clone())),
    };
    let evidence = client()
        .build_misbehaviour(update, Height::new(0, 5), trusted.clone(), target.clone())
        .unwrap()
        .unwrap();
    assert_eq!(evidence.client_id.name, "07-tendermint-0");
    assert!(headers_eq(&evidence.header1, &chain_header));
    assert!(headers_eq(&evidence.header2, &header_of(Height::new(0, 5), &trusted, &target)));
}

#[test]
fn no_misbehaviour_for_matching_header() {
    let trusted = light_block(5, 50, 7);
    let target = light_block(10, 100, 1);
    let update = UpdateClient {
        client_id: ClientId::new("07-tendermint-0".to_string()),
        consensus_height: Height::new(0, 10),
        header: Some(AnyHeader::Tendermint(header_of(Height::new(0, 5), &trusted, &target))),
    };
    let r = client().build_misbehaviour(update, Height::new(0, 5), trusted, target).unwrap();
    assert!(r.is_none());
}

#[test]
fn misbehaviour_needs_tendermint_header() {
    let trusted = light_block(5, 50, 7);
    let target = light_block(10, 100, 1);
    let update = UpdateClient {
        client_id: ClientId::new("07-tendermint-0".to_string()),
        consensus_height: Height::new(0, 10),
        header: Some(AnyHeader::Mock(MockHeader { height: Height::new(0, 10) })),
    };
    let err = client()
        .build_misbehaviour(update.clone(), Height::new(0, 5), trusted.clone(), target.clone())
        .unwrap_err();
    assert!(matches!(err, LightClientError::HeaderTypeMismatch(c) if c.name == "ibc-0"));
    let mut bare = update;
    bare.header = None;
    let err = client().build_misbehaviour(bare, Height::new(0, 5), trusted, target).unwrap_err();
    assert!(matches!(err, LightClientError::MissingHeader(_)));
}

fn peer(id: &str) -> LightClientConfig {
    LightClientConfig {
        peer_id: id.to_string(),
        address: "http://127.0.0.1:26657".to_string(),
        timeout_secs: 10,
        trusted_height: 3,
        trusted_header_hash: vec![0xab; 32],
        store: StoreConfig::Memory,
    }
}

fn chain_config(primary: Option<LightClientConfig>, witnesses: Option<Vec<LightClientConfig>>) -> ChainConfig {
    ChainConfig {
        id: ChainId::new("ibc-0".to_string()),
        trust_threshold: TrustThreshold { numerator: 1, denominator: 3 },
        trusting_period_secs: 1_209_600,
        clock_drift_secs: 5,
        primary,
        witnesses,
    }
}

#[test]
fn supervisor_plan_from_complete_config() {
    let config = chain_config(Some(peer("a")), Some(vec![peer("b"), peer("c")]));
    let plan = supervisor_plan(&config, true).unwrap();
    assert_eq!(plan.start, TrustStart::AtConfiguredHeight);
    assert_eq!(plan.witness_count, 2);
    assert_eq!(plan.options.trust_threshold, TrustThreshold { numerator: 1, denominator: 3 });
    assert_eq!(plan.options.trusting_period_secs, 1_209_600);
    assert_eq!(plan.options.clock_drift_secs, 5);
    let plan = supervisor_plan(&config, false).unwrap();
    assert_eq!(plan.start, TrustStart::FromStore);
    assert_eq!(trust_start(false), TrustStart::FromStore);
}

#[test]
fn supervisor_plan_needs_primary_and_witnesses() {
    let err = supervisor_plan(&chain_config(None, Some(vec![peer("b")])), false).unwrap_err();
    assert!(matches!(err, LightClientError::MissingPrimaryConfig(c) if c.name == "ibc-0"));
    let err = supervisor_plan(&chain_config(Some(peer("a")), None), false).unwrap_err();
    assert!(matches!(err, LightClientError::MissingWitnessesConfig(c) if c.name == "ibc-0"));
}

#[test]
fn tendermint_height_range() {
    let h = ibc_core::light_client::tendermint_height(5).unwrap();
    assert_eq!(u64::from(h), 5);
    let top = ibc_core::light_client::tendermint_height(i64::MAX as u64).unwrap();
    assert_eq!(u64::from(top), i64::MAX as u64);
    let err = ibc_core::light_client::tendermint_height(i64::MAX as u64 + 1).unwrap_err();
    assert!(matches!(err, LightClientError::InvalidHeight(v) if v == i64::MAX as u64 + 1));
}
