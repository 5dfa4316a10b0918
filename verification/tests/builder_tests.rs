use live_sync::builder::ComponentsBuilder;
use live_sync::builder::ComponentsBuilderError;
use live_sync::builder::NodeComponentsBuilder;

fn empty_builder() -> ComponentsBuilder<(), (), (), (), (), (), ()> {
    ComponentsBuilder::default()
}

#[test]
fn build_components_from_full_configuration() {
    let builder = empty_builder()
        .node_types::<u8>()
        .pool("pool")
        .payload("payload")
        .network("network")
        .executor("executor")
        .consensus("consensus")
        .engine_validator("validator");
    let components = builder.build_components().unwrap();
    assert_eq!(components.transaction_pool, "pool");
    assert_eq!(components.payload_builder, "payload");
    assert_eq!(components.network, "network");
    assert_eq!(components.executor, "executor");
    assert_eq!(components.consensus, "consensus");
    assert_eq!(components.engine_validator, "validator");
}

#[test]
fn build_components_reports_first_missing_slot() {
    assert_eq!(
        empty_builder().build_components().unwrap_err(),
        ComponentsBuilderError::MissingExecutorBuilder
    );
    assert_eq!(
        empty_builder().executor(1u64).build_components().unwrap_err(),
        ComponentsBuilderError::MissingPoolBuilder
    );
    assert_eq!(
        empty_builder().executor(1u64).pool(2u64).build_components().unwrap_err(),
        ComponentsBuilderError::MissingNetworkBuilder
    );
    assert_eq!(
        empty_builder().executor(1u64).pool(2u64).network(3u64).build_components().unwrap_err(),
        ComponentsBuilderError::MissingPayloadBuilder
    );
    assert_eq!(
        empty_builder()
            .executor(1u64)
            .pool(2u64)
            .network(3u64)
            .payload(4u64)
            .build_components()
            .unwrap_err(),
        ComponentsBuilderError::MissingConsensusBuilder
    );
    assert_eq!(
        empty_builder()
            .executor(1u64)
            .pool(2u64)
            .network(3u64)
            .payload(4u64)
            .consensus(5u64)
            .build_components()
            .unwrap_err(),
        ComponentsBuilderError::MissingEngineValidatorBuilder
    );
}

#[test]
fn map_functions_apply_to_configured_slots() {
    let builder = empty_builder()
        .pool(10u64)
        .payload(20u64)
        .network(30u64)
        .executor(40u64)
        .consensus(50u64)
        .engine_validator(60u64)
        .map_pool(|p| p + 1)
        .map_payload(|p| p + 1)
        .map_network(|n| n + 1)
        .map_executor(|e| e + 1)
        .map_consensus(|c| c + 1);
    assert_eq!(builder.pool_builder, Some(11));
    assert_eq!(builder.payload_builder, Some(21));
    assert_eq!(builder.network_builder, Some(31));
    assert_eq!(builder.executor_builder, Some(41));
    assert_eq!(builder.consensus_builder, Some(51));
    assert_eq!(builder.engine_validator_builder, Some(60));
}

#[test]
fn map_functions_keep_empty_slots_empty() {
    let builder = empty_builder().node_types::<u16>().pool(10u64).map_pool(|p| p * 2);
    assert_eq!(builder.pool_builder, Some(20));
    let still_empty = ComponentsBuilder::<(), u64, (), (), (), (), ()> {
        pool_builder: None,
        payload_builder: None,
        network_builder: None,
        executor_builder: None,
        consensus_builder: None,
        engine_validator_builder: None,
        _marker: std::marker::PhantomData,
    }
    .map_pool(|p| p * 2);
    assert_eq!(still_empty.pool_builder, None);
}

#[test]
fn reconfiguring_a_slot_replaces_it() {
    let builder = empty_builder().pool(1u64).pool(2u64);
    assert_eq!(builder.pool_builder, Some(2));
}
