use std::str::FromStr;

use live_sync::hardfork::ChainConfig;
use live_sync::hardfork::ConfigureHardforks;
use live_sync::hardfork::EthereumHardfork;
use live_sync::hardfork::ForkCondition;
use live_sync::hardfork::Hardfork;
use live_sync::hardfork::OptimismHardfork;

#[test]
fn check_hardfork_from_str() {
    let hardfork_str = [
        "frOntier",
        "homEstead",
        "dao",
        "tAngerIne",
        "spurIousdrAgon",
        "byzAntium",
        "constantinople",
        "petersburg",
        "istanbul",
        "muirglacier",
        "bErlin",
        "lonDon",
        "arrowglacier",
        "grayglacier",
        "PARIS",
        "ShAnGhAI",
        "CaNcUn",
        "PrAguE",
    ];
    let expected_hardforks = [
        EthereumHardfork::Frontier,
        EthereumHardfork::Homestead,
        EthereumHardfork::Dao,
        EthereumHardfork::Tangerine,
        EthereumHardfork::SpuriousDragon,
        EthereumHardfork::Byzantium,
        EthereumHardfork::Constantinople,
        EthereumHardfork::Petersburg,
        EthereumHardfork::Istanbul,
        EthereumHardfork::MuirGlacier,
        EthereumHardfork::Berlin,
        EthereumHardfork::London,
        EthereumHardfork::ArrowGlacier,
        EthereumHardfork::GrayGlacier,
        EthereumHardfork::Paris,
        EthereumHardfork::Shanghai,
        EthereumHardfork::Cancun,
        EthereumHardfork::Prague,
    ];

    let hardforks: Vec<EthereumHardfork> =
        hardfork_str.iter().map(|h| EthereumHardfork::from_str(h).unwrap()).collect();

    assert_eq!(hardforks, expected_hardforks);
}

#[test]
fn check_op_hardfork_from_str() {
    let hardfork_str = ["beDrOck", "rEgOlITH", "cAnYoN", "eCoToNe", "FJorD", "GRaNiTe"];
    let expected_hardforks = [
        OptimismHardfork::Bedrock,
        OptimismHardfork::Regolith,
        OptimismHardfork::Canyon,
        OptimismHardfork::Ecotone,
        OptimismHardfork::Fjord,
        OptimismHardfork::Granite,
    ];

    let hardforks: Vec<OptimismHardfork> =
        hardfork_str.iter().map(|h| OptimismHardfork::from_str(h).unwrap()).collect();

    assert_eq!(hardforks, expected_hardforks);
}

#[test]
fn check_nonexistent_hardfork_from_str() {
    assert!(EthereumHardfork::from_str("not a hardfork").is_err());
}

#[test]
fn hardfork_names_parse_back() {
    let forks = [
        EthereumHardfork::Frontier,
        EthereumHardfork::SpuriousDragon,
        EthereumHardfork::MuirGlacier,
        EthereumHardfork::Prague,
    ];
    for fork in forks {
        assert_eq!(EthereumHardfork::from_str(fork.name()).unwrap(), fork);
    }
    assert_eq!(EthereumHardfork::Paris.name(), "Paris");
    assert_eq!(OptimismHardfork::from_str(OptimismHardfork::Fjord.name()).unwrap(),
        OptimismHardfork::Fjord);
}

#[test]
fn empty_string_is_no_hardfork() {
    assert!(EthereumHardfork::from_str("").is_err());
    assert!(OptimismHardfork::from_str("").is_err());
}

fn sample_config() -> ChainConfig {
    ChainConfig {
        homestead_block: Some(1_150_000),
        dao_fork_block: Some(1_920_000),
        tangerine_block: Some(2_463_000),
        spurious_dragon_block: Some(2_675_000),
        byzantium_block: Some(4_370_000),
        constantinople_block: Some(7_280_000),
        petersburg_block: Some(7_280_000),
        istanbul_block: Some(9_069_000),
        muir_glacier_block: Some(9_200_000),
        berlin_block: Some(12_244_000),
        london_block: Some(12_965_000),
        arrow_glacier_block: Some(13_773_000),
        gray_glacier_block: Some(15_050_000),
        terminal_total_difficulty: Some(58_750_000_000_000_000_000_000),
        shanghai_time: Some(1_681_338_455),
        cancun_time: Some(1_710_338_135),
        prague_time: None,
    }
}

#[test]
fn mainnet_hardfork_schedule() {
    let forks = EthereumHardfork::super_chain_mainnet_hardforks();
    assert_eq!(forks.len(), 17);
    assert_eq!(forks[0], (EthereumHardfork::Frontier, ForkCondition::Block(0)));
    assert_eq!(
        forks[14],
        (
            EthereumHardfork::Paris,
            ForkCondition::TotalDifficulty(58_750_000_000_000_000_000_000)
        )
    );
    assert_eq!(forks[16], (EthereumHardfork::Cancun, ForkCondition::Timestamp(1_710_338_135)));
}

#[test]
fn init_hardforks_from_config() {
    let config = sample_config();
    let forks = EthereumHardfork::init(&config);
    assert_eq!(forks.len(), 17);
    assert_eq!(forks[0], (EthereumHardfork::Frontier, ForkCondition::Block(0)));
    assert_eq!(forks[1], (EthereumHardfork::Homestead, ForkCondition::Block(1_150_000)));
    assert_eq!(forks[13], (EthereumHardfork::GrayGlacier, ForkCondition::Block(15_050_000)));
    assert_eq!(
        forks[14],
        (EthereumHardfork::Paris, ForkCondition::TotalDifficulty(58_750_000_000_000_000_000_000))
    );
    assert_eq!(forks[15], (EthereumHardfork::Shanghai, ForkCondition::Timestamp(1_681_338_455)));
    assert_eq!(forks[16], (EthereumHardfork::Cancun, ForkCondition::Timestamp(1_710_338_135)));
}

#[test]
fn init_hardforks_skips_unconfigured() {
    let mut config = sample_config();
    config.dao_fork_block = None;
    config.terminal_total_difficulty = None;
    config.shanghai_time = None;
    config.cancun_time = None;
    let forks = EthereumHardfork::init(&config);
    assert_eq!(forks.len(), 13);
    assert!(!forks.iter().any(|(fork, _)| *fork == EthereumHardfork::Dao));
    assert!(!forks.iter().any(|(fork, _)| *fork == EthereumHardfork::Paris));
}
