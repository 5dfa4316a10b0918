//! Hard-fork vocabulary: one closed enumeration per protocol family, with
//! case-insensitive parsing from fork names, plus the initialization of fork
//! activation conditions from a chain configuration.

use vstd::prelude::*;

verus! {

/// The lowercase form of an ASCII uppercase letter; any other character is
/// unchanged.
pub open spec fn lower_char(c: char) -> char {
    if 65 <= c as u32 && c as u32 <= 90 {
        (((c as u8) + 32) as char)
    } else {
        c
    }
}

/// The character sequence with ASCII uppercase letters lowered.
pub open spec fn ascii_lower(s: Seq<char>) -> Seq<char> {
    s.map_values(|c: char| lower_char(c))
}

/// The lowercase form of an ASCII uppercase letter; any other character is
/// unchanged.
fn to_lower(c: char) -> (r: char)
    ensures
        r == lower_char(c),
{
    let code = c as u32;
    if 65 <= code && code <= 90 {
        ((c as u8) + 32) as char
    } else {
        c
    }
}

/// Whether the two strings are equal once ASCII uppercase letters are lowered.
#[verifier::loop_isolation(false)]
fn eq_ignore_case(s: &str, t: &str) -> (r: bool)
    ensures
        r == (ascii_lower(s@) == ascii_lower(t@)),
{
    let s_len = s.unicode_len();
    let t_len = t.unicode_len();
    if s_len != t_len {
        proof {
            assert(ascii_lower(s@).len() != ascii_lower(t@).len());
        }
        return false;
    }
    let mut i: usize = 0;
    while i < s_len
        invariant
            i <= s_len,
            forall|j: int| 0 <= j < i ==> ascii_lower(s@)[j] == ascii_lower(t@)[j],
        decreases s_len - i,
    {
        let a = to_lower(s.get_char(i));
        let b = to_lower(t.get_char(i));
        if a != b {
            proof {
                assert(ascii_lower(s@)[i as int] != ascii_lower(t@)[i as int]);
            }
            return false;
        }
        i += 1;
    }
    proof {
        assert(ascii_lower(s@) =~= ascii_lower(t@));
    }
    true
}

/// Generic hardfork trait: every fork of every protocol family has a
/// canonical name.
pub trait Hardfork: Sized {
    /// The canonical fork name as a sequence of characters.
    spec fn spec_name(&self) -> Seq<char>;

    /// Fork name.
    fn name(&self) -> (r: &'static str)
        ensures
            r@ == self.spec_name(),
    ;
}

/// The string named no hardfork of the family asked for.
#[derive(Clone, Copy, Debug, PartialEq, Eq, Structural)]
pub struct ParseHardforkError;

/// The hardforks of the Ethereum protocol family, in activation order.
#[derive(Clone, Copy, Debug, PartialEq, Eq, Hash, PartialOrd, Ord, Structural)]
pub enum EthereumHardfork {
    Frontier,
    Homestead,
    Dao,
    Tangerine,
    SpuriousDragon,
    Byzantium,
    Constantinople,
    Petersburg,
    Istanbul,
    MuirGlacier,
    Berlin,
    London,
    ArrowGlacier,
    GrayGlacier,
    Paris,
    Shanghai,
    Cancun,
    Prague,
}

impl Hardfork for EthereumHardfork {
    open spec fn spec_name(&self) -> Seq<char> {
        match self {
            EthereumHardfork::Frontier => "Frontier"@,
            EthereumHardfork::Homestead => "Homestead"@,
            EthereumHardfork::Dao => "Dao"@,
            EthereumHardfork::Tangerine => "Tangerine"@,
            EthereumHardfork::SpuriousDragon => "SpuriousDragon"@,
            EthereumHardfork::Byzantium => "Byzantium"@,
            EthereumHardfork::Constantinople => "Constantinople"@,
            EthereumHardfork::Petersburg => "Petersburg"@,
            EthereumHardfork::Istanbul => "Istanbul"@,
            EthereumHardfork::MuirGlacier => "MuirGlacier"@,
            EthereumHardfork::Berlin => "Berlin"@,
            EthereumHardfork::London => "London"@,
            EthereumHardfork::ArrowGlacier => "ArrowGlacier"@,
            EthereumHardfork::GrayGlacier => "GrayGlacier"@,
            EthereumHardfork::Paris => "Paris"@,
            EthereumHardfork::Shanghai => "Shanghai"@,
            EthereumHardfork::Cancun => "Cancun"@,
            EthereumHardfork::Prague => "Prague"@,
        }
    }

    fn name(&self) -> (r: &'static str)
        ensures
            r@ == self.spec_name(),
    {
        match self {
            EthereumHardfork::Frontier => "Frontier",
            EthereumHardfork::Homestead => "Homestead",
            EthereumHardfork::Dao => "Dao",
            EthereumHardfork::Tangerine => "Tangerine",
            EthereumHardfork::SpuriousDragon => "SpuriousDragon",
            EthereumHardfork::Byzantium => "Byzantium",
            EthereumHardfork::Constantinople => "Constantinople",
            EthereumHardfork::Petersburg => "Petersburg",
            EthereumHardfork::Istanbul => "Istanbul",
            EthereumHardfork::MuirGlacier => "MuirGlacier",
            EthereumHardfork::Berlin => "Berlin",
            EthereumHardfork::London => "London",
            EthereumHardfork::ArrowGlacier => "ArrowGlacier",
            EthereumHardfork::GrayGlacier => "GrayGlacier",
            EthereumHardfork::Paris => "Paris",
            EthereumHardfork::Shanghai => "Shanghai",
            EthereumHardfork::Cancun => "Cancun",
            EthereumHardfork::Prague => "Prague",
        }
    }
}

impl EthereumHardfork {
    /// The fork whose canonical name matches the string, ignoring ASCII case.
    pub open spec fn spec_from_name(s: Seq<char>) -> Option<EthereumHardfork> {
        let lowered = ascii_lower(s);
        if lowered == ascii_lower("Frontier"@) {
            Some(EthereumHardfork::Frontier)
        } else if lowered == ascii_lower("Homestead"@) {
            Some(EthereumHardfork::Homestead)
        } else if lowered == ascii_lower("Dao"@) {
            Some(EthereumHardfork::Dao)
        } else if lowered == ascii_lower("Tangerine"@) {
            Some(EthereumHardfork::Tangerine)
        } else if lowered == ascii_lower("SpuriousDragon"@) {
            Some(EthereumHardfork::SpuriousDragon)
        } else if lowered == ascii_lower("Byzantium"@) {
            Some(EthereumHardfork::Byzantium)
        } else if lowered == ascii_lower("Constantinople"@) {
            Some(EthereumHardfork::Constantinople)
        } else if lowered == ascii_lower("Petersburg"@) {
            Some(EthereumHardfork::Petersburg)
        } else if lowered == ascii_lower("Istanbul"@) {
            Some(EthereumHardfork::Istanbul)
        } else if lowered == ascii_lower("MuirGlacier"@) {
            Some(EthereumHardfork::MuirGlacier)
        } else if lowered == ascii_lower("Berlin"@) {
            Some(EthereumHardfork::Berlin)
        } else if lowered == ascii_lower("London"@) {
            Some(EthereumHardfork::London)
        } else if lowered == ascii_lower("ArrowGlacier"@) {
            Some(EthereumHardfork::ArrowGlacier)
        } else if lowered == ascii_lower("GrayGlacier"@) {
            Some(EthereumHardfork::GrayGlacier)
        } else if lowered == ascii_lower("Paris"@) {
            Some(EthereumHardfork::Paris)
        } else if lowered == ascii_lower("Shanghai"@) {
            Some(EthereumHardfork::Shanghai)
        } else if lowered == ascii_lower("Cancun"@) {
            Some(EthereumHardfork::Cancun)
        } else if lowered == ascii_lower("Prague"@) {
            Some(EthereumHardfork::Prague)
        } else {
            None
        }
    }

    /// Parses a fork from its canonical name, ignoring ASCII case.
    pub fn from_name(s: &str) -> (r: Option<EthereumHardfork>)
        ensures
            r == Self::spec_from_name(s@),
    {
        if eq_ignore_case(s, "Frontier") {
            Some(EthereumHardfork::Frontier)
        } else if eq_ignore_case(s, "Homestead") {
            Some(EthereumHardfork::Homestead)
        } else if eq_ignore_case(s, "Dao") {
            Some(EthereumHardfork::Dao)
        } else if eq_ignore_case(s, "Tangerine") {
            Some(EthereumHardfork::Tangerine)
        } else if eq_ignore_case(s, "SpuriousDragon") {
            Some(EthereumHardfork::SpuriousDragon)
        } else if eq_ignore_case(s, "Byzantium") {
            Some(EthereumHardfork::Byzantium)
        } else if eq_ignore_case(s, "Constantinople") {
            Some(EthereumHardfork::Constantinople)
        } else if eq_ignore_case(s, "Petersburg") {
            Some(EthereumHardfork::Petersburg)
        } else if eq_ignore_case(s, "Istanbul") {
            Some(EthereumHardfork::Istanbul)
        } else if eq_ignore_case(s, "MuirGlacier") {
            Some(EthereumHardfork::MuirGlacier)
        } else if eq_ignore_case(s, "Berlin") {
            Some(EthereumHardfork::Berlin)
        } else if eq_ignore_case(s, "London") {
            Some(EthereumHardfork::London)
        } else if eq_ignore_case(s, "ArrowGlacier") {
            Some(EthereumHardfork::ArrowGlacier)
        } else if eq_ignore_case(s, "GrayGlacier") {
            Some(EthereumHardfork::GrayGlacier)
        } else if eq_ignore_case(s, "Paris") {
            Some(EthereumHardfork::Paris)
        } else if eq_ignore_case(s, "Shanghai") {
            Some(EthereumHardfork::Shanghai)
        } else if eq_ignore_case(s, "Cancun") {
            Some(EthereumHardfork::Cancun)
        } else if eq_ignore_case(s, "Prague") {
            Some(EthereumHardfork::Prague)
        } else {
            None
        }
    }
}

impl core::str::FromStr for EthereumHardfork {
    type Err = ParseHardforkError;

    fn from_str(s: &str) -> Result<EthereumHardfork, ParseHardforkError> {
        match EthereumHardfork::from_name(s) {
            Some(fork) => Ok(fork),
            None => Err(ParseHardforkError),
        }
    }
}

/// The hardforks specific to the Optimism protocol family, in activation
/// order.
#[derive(Clone, Copy, Debug, PartialEq, Eq, Hash, PartialOrd, Ord, Structural)]
pub enum OptimismHardfork {
    Bedrock,
    Regolith,
    Canyon,
    Ecotone,
    Fjord,
    Granite,
}

impl Hardfork for OptimismHardfork {
    open spec fn spec_name(&self) -> Seq<char> {
        match self {
            OptimismHardfork::Bedrock => "Bedrock"@,
            OptimismHardfork::Regolith => "Regolith"@,
            OptimismHardfork::Canyon => "Canyon"@,
            OptimismHardfork::Ecotone => "Ecotone"@,
            OptimismHardfork::Fjord => "Fjord"@,
            OptimismHardfork::Granite => "Granite"@,
        }
    }

    fn name(&self) -> (r: &'static str)
        ensures
            r@ == self.spec_name(),
    {
        match self {
            OptimismHardfork::Bedrock => "Bedrock",
            OptimismHardfork::Regolith => "Regolith",
            OptimismHardfork::Canyon => "Canyon",
            OptimismHardfork::Ecotone => "Ecotone",
            OptimismHardfork::Fjord => "Fjord",
            OptimismHardfork::Granite => "Granite",
        }
    }
}

impl OptimismHardfork {
    /// The fork whose canonical name matches the string, ignoring ASCII case.
    pub open spec fn spec_from_name(s: Seq<char>) -> Option<OptimismHardfork> {
        let lowered = ascii_lower(s);
        if lowered == ascii_lower("Bedrock"@) {
            Some(OptimismHardfork::Bedrock)
        } else if lowered == ascii_lower("Regolith"@) {
            Some(OptimismHardfork::Regolith)
        } else if lowered == ascii_lower("Canyon"@) {
            Some(OptimismHardfork::Canyon)
        } else if lowered == ascii_lower("Ecotone"@) {
            Some(OptimismHardfork::Ecotone)
        } else if lowered == ascii_lower("Fjord"@) {
            Some(OptimismHardfork::Fjord)
        } else if lowered == ascii_lower("Granite"@) {
            Some(OptimismHardfork::Granite)
        } else {
            None
        }
    }

    /// Parses a fork from its canonical name, ignoring ASCII case.
    pub fn from_name(s: &str) -> (r: Option<OptimismHardfork>)
        ensures
            r == Self::spec_from_name(s@),
    {
        if eq_ignore_case(s, "Bedrock") {
            Some(OptimismHardfork::Bedrock)
        } else if eq_ignore_case(s, "Regolith") {
            Some(OptimismHardfork::Regolith)
        } else if eq_ignore_case(s, "Canyon") {
            Some(OptimismHardfork::Canyon)
        } else if eq_ignore_case(s, "Ecotone") {
            Some(OptimismHardfork::Ecotone)
        } else if eq_ignore_case(s, "Fjord") {
            Some(OptimismHardfork::Fjord)
        } else if eq_ignore_case(s, "Granite") {
            Some(OptimismHardfork::Granite)
        } else {
            None
        }
    }
}

impl core::str::FromStr for OptimismHardfork {
    type Err = ParseHardforkError;

    fn from_str(s: &str) -> Result<OptimismHardfork, ParseHardforkError> {
        match OptimismHardfork::from_name(s) {
            Some(fork) => Ok(fork),
            None => Err(ParseHardforkError),
        }
    }
}

/// The condition under which a hardfork activates.
#[derive(Clone, Copy, Debug, PartialEq, Eq, Structural)]
pub enum ForkCondition {
    /// Activates at the given block number.
    Block(u64),
    /// Activates when the total difficulty reaches the given value.
    TotalDifficulty(u128),
    /// Activates at the given block timestamp.
    Timestamp(u64),
    /// Never activates.
    Never,
}

/// The chain configuration read from genesis, modelled by the plain activation
/// values the fork initialization reads: an optional activation block per
/// block-based fork, the terminal total difficulty, and an optional activation
/// timestamp per time-based fork.
#[derive(Clone, Copy, Debug, PartialEq, Eq, Structural)]
pub struct ChainConfig {
    pub homestead_block: Option<u64>,
    pub dao_fork_block: Option<u64>,
    pub tangerine_block: Option<u64>,
    pub spurious_dragon_block: Option<u64>,
    pub byzantium_block: Option<u64>,
    pub constantinople_block: Option<u64>,
    pub petersburg_block: Option<u64>,
    pub istanbul_block: Option<u64>,
    pub muir_glacier_block: Option<u64>,
    pub berlin_block: Option<u64>,
    pub london_block: Option<u64>,
    pub arrow_glacier_block: Option<u64>,
    pub gray_glacier_block: Option<u64>,
    pub terminal_total_difficulty: Option<u128>,
    pub shanghai_time: Option<u64>,
    pub cancun_time: Option<u64>,
    pub prague_time: Option<u64>,
}

/// Configures hardforks from a genesis chain configuration.
pub trait ConfigureHardforks: Sized {
    /// The canonical mainnet hardfork schedule of the protocol family.
    spec fn spec_super_chain_mainnet_hardforks() -> Seq<(Self, ForkCondition)>;

    /// Returns super chain mainnet hardforks.
    fn super_chain_mainnet_hardforks() -> (r: Vec<(Self, ForkCondition)>)
        ensures
            r@ == Self::spec_super_chain_mainnet_hardforks(),
    ;

    /// The block-based hardforks the configuration activates, in fork order.
    spec fn spec_init_block_hardforks(config: ChainConfig) -> Seq<(Self, ForkCondition)>;

    /// The total-difficulty-based hardfork the configuration activates.
    spec fn spec_init_paris(config: ChainConfig) -> Option<(Self, ForkCondition)>;

    /// The time-based hardforks the configuration activates, in fork order.
    spec fn spec_init_time_hardforks(config: ChainConfig) -> Seq<(Self, ForkCondition)>;

    /// Initializes block based hardforks from the configuration.
    fn init_block_hardforks(config: &ChainConfig) -> (r: Vec<(Self, ForkCondition)>)
        ensures
            r@ == Self::spec_init_block_hardforks(*config),
    ;

    /// Initializes the total-difficulty based hardfork from the configuration.
    fn init_paris(config: &ChainConfig) -> (r: Option<(Self, ForkCondition)>)
        ensures
            r == Self::spec_init_paris(*config),
    ;

    /// Initializes time based hardforks from the configuration.
    fn init_time_hardforks(config: &ChainConfig) -> (r: Vec<(Self, ForkCondition)>)
        ensures
            r@ == Self::spec_init_time_hardforks(*config),
    ;

    /// Initializes all hardforks from the configuration: the block-based ones,
    /// then the total-difficulty one, then the time-based ones.
    fn init(config: &ChainConfig) -> (r: Vec<(Self, ForkCondition)>)
        ensures
            r@ == Self::spec_init_block_hardforks(*config) + match Self::spec_init_paris(
                *config,
            ) {
                Some(paris) => seq![paris],
                None => Seq::empty(),
            } + Self::spec_init_time_hardforks(*config),
    ;
}

/// The fork with its activation block, where the configuration gives one.
pub open spec fn block_fork(
    fork: EthereumHardfork,
    activation: Option<u64>,
) -> Seq<(EthereumHardfork, ForkCondition)> {
    match activation {
        Some(block) => seq![(fork, ForkCondition::Block(block))],
        None => Seq::empty(),
    }
}

/// The fork with its activation timestamp, where the configuration gives one.
pub open spec fn time_fork(
    fork: EthereumHardfork,
    activation: Option<u64>,
) -> Seq<(EthereumHardfork, ForkCondition)> {
    match activation {
        Some(time) => seq![(fork, ForkCondition::Timestamp(time))],
        None => Seq::empty(),
    }
}

/// Appends the fork with a block activation if the configuration gives one.
#[verifier::loop_isolation(false)]
fn push_block_fork(
    out: &mut Vec<(EthereumHardfork, ForkCondition)>,
    fork: EthereumHardfork,
    activation: Option<u64>,
)
    ensures
        final(out)@ == old(out)@ + block_fork(fork, activation),
{
    match activation {
        Some(block) => {
            out.push((fork, ForkCondition::Block(block)));
            proof {
                assert(out@ =~= old(out)@ + block_fork(fork, activation));
            }
        },
        None => {
            proof {
                assert(out@ =~= old(out)@ + block_fork(fork, activation));
            }
        },
    }
}

/// Appends the fork with a time activation if the configuration gives one.
#[verifier::loop_isolation(false)]
fn push_time_fork(
    out: &mut Vec<(EthereumHardfork, ForkCondition)>,
    fork: EthereumHardfork,
    activation: Option<u64>,
)
    ensures
        final(out)@ == old(out)@ + time_fork(fork, activation),
{
    match activation {
        Some(time) => {
            out.push((fork, ForkCondition::Timestamp(time)));
            proof {
                assert(out@ =~= old(out)@ + time_fork(fork, activation));
            }
        },
        None => {
            proof {
                assert(out@ =~= old(out)@ + time_fork(fork, activation));
            }
        },
    }
}

impl ConfigureHardforks for EthereumHardfork {
    open spec fn spec_super_chain_mainnet_hardforks() -> Seq<(EthereumHardfork, ForkCondition)> {
        seq![
            (EthereumHardfork::Frontier, ForkCondition::Block(0u64)),
            (EthereumHardfork::Homestead, ForkCondition::Block(1_150_000u64)),
            (EthereumHardfork::Dao, ForkCondition::Block(1_920_000u64)),
            (EthereumHardfork::Tangerine, ForkCondition::Block(2_463_000u64)),
            (EthereumHardfork::SpuriousDragon, ForkCondition::Block(2_675_000u64)),
            (EthereumHardfork::Byzantium, ForkCondition::Block(4_370_000u64)),
            (EthereumHardfork::Constantinople, ForkCondition::Block(7_280_000u64)),
            (EthereumHardfork::Petersburg, ForkCondition::Block(7_280_000u64)),
            (EthereumHardfork::Istanbul, ForkCondition::Block(9_069_000u64)),
            (EthereumHardfork::MuirGlacier, ForkCondition::Block(9_200_000u64)),
            (EthereumHardfork::Berlin, ForkCondition::Block(12_244_000u64)),
            (EthereumHardfork::London, ForkCondition::Block(12_965_000u64)),
            (EthereumHardfork::ArrowGlacier, ForkCondition::Block(13_773_000u64)),
            (EthereumHardfork::GrayGlacier, ForkCondition::Block(15_050_000u64)),
            (
                EthereumHardfork::Paris,
                ForkCondition::TotalDifficulty(58_750_000_000_000_000_000_000u128),
            ),
            (EthereumHardfork::Shanghai, ForkCondition::Timestamp(1_681_338_455u64)),
            (EthereumHardfork::Cancun, ForkCondition::Timestamp(1_710_338_135u64)),
        ]
    }

    fn super_chain_mainnet_hardforks() -> (r: Vec<(EthereumHardfork, ForkCondition)>)
        ensures
            r@ == Self::spec_super_chain_mainnet_hardforks(),
    {
        let mut out: Vec<(EthereumHardfork, ForkCondition)> = Vec::new();
        out.push((EthereumHardfork::Frontier, ForkCondition::Block(0)));
        out.push((EthereumHardfork::Homestead, ForkCondition::Block(1_150_000)));
        out.push((EthereumHardfork::Dao, ForkCondition::Block(1_920_000)));
        out.push((EthereumHardfork::Tangerine, ForkCondition::Block(2_463_000)));
        out.push((EthereumHardfork::SpuriousDragon, ForkCondition::Block(2_675_000)));
        out.push((EthereumHardfork::Byzantium, ForkCondition::Block(4_370_000)));
        out.push((EthereumHardfork::Constantinople, ForkCondition::Block(7_280_000)));
        out.push((EthereumHardfork::Petersburg, ForkCondition::Block(7_280_000)));
        out.push((EthereumHardfork::Istanbul, ForkCondition::Block(9_069_000)));
        out.push((EthereumHardfork::MuirGlacier, ForkCondition::Block(9_200_000)));
        out.push((EthereumHardfork::Berlin, ForkCondition::Block(12_244_000)));
        out.push((EthereumHardfork::London, ForkCondition::Block(12_965_000)));
        out.push((EthereumHardfork::ArrowGlacier, ForkCondition::Block(13_773_000)));
        out.push((EthereumHardfork::GrayGlacier, ForkCondition::Block(15_050_000)));
        out.push(
            (
                EthereumHardfork::Paris,
                ForkCondition::TotalDifficulty(58_750_000_000_000_000_000_000),
            ),
        );
        out.push((EthereumHardfork::Shanghai, ForkCondition::Timestamp(1_681_338_455)));
        out.push((EthereumHardfork::Cancun, ForkCondition::Timestamp(1_710_338_135)));
        proof {
            assert(out@ =~= Self::spec_super_chain_mainnet_hardforks());
        }
        out
    }

    open spec fn spec_init_block_hardforks(config: ChainConfig) -> Seq<
        (EthereumHardfork, ForkCondition),
    > {
        seq![(EthereumHardfork::Frontier, ForkCondition::Block(0u64))] + block_fork(
            EthereumHardfork::Homestead,
            config.homestead_block,
        ) + block_fork(EthereumHardfork::Dao, config.dao_fork_block) + block_fork(
            EthereumHardfork::Tangerine,
            config.tangerine_block,
        ) + block_fork(EthereumHardfork::SpuriousDragon, config.spurious_dragon_block)
            + block_fork(EthereumHardfork::Byzantium, config.byzantium_block) + block_fork(
            EthereumHardfork::Constantinople,
            config.constantinople_block,
        ) + block_fork(EthereumHardfork::Petersburg, config.petersburg_block) + block_fork(
            EthereumHardfork::Istanbul,
            config.istanbul_block,
        ) + block_fork(EthereumHardfork::MuirGlacier, config.muir_glacier_block) + block_fork(
            EthereumHardfork::Berlin,
            config.berlin_block,
        ) + block_fork(EthereumHardfork::London, config.london_block) + block_fork(
            EthereumHardfork::ArrowGlacier,
            config.arrow_glacier_block,
        ) + block_fork(EthereumHardfork::GrayGlacier, config.gray_glacier_block)
    }

    open spec fn spec_init_paris(config: ChainConfig) -> Option<
        (EthereumHardfork, ForkCondition),
    > {
        match config.terminal_total_difficulty {
            Some(ttd) => Some((EthereumHardfork::Paris, ForkCondition::TotalDifficulty(ttd))),
            None => None,
        }
    }

    open spec fn spec_init_time_hardforks(config: ChainConfig) -> Seq<
        (EthereumHardfork, ForkCondition),
    > {
        time_fork(EthereumHardfork::Shanghai, config.shanghai_time) + time_fork(
            EthereumHardfork::Cancun,
            config.cancun_time,
        ) + time_fork(EthereumHardfork::Prague, config.prague_time)
    }

    fn init_block_hardforks(config: &ChainConfig) -> (r: Vec<(EthereumHardfork, ForkCondition)>)
        ensures
            r@ == Self::spec_init_block_hardforks(*config),
    {
        let mut out: Vec<(EthereumHardfork, ForkCondition)> = Vec::new();
        out.push((EthereumHardfork::Frontier, ForkCondition::Block(0)));
        push_block_fork(&mut out, EthereumHardfork::Homestead, config.homestead_block);
        push_block_fork(&mut out, EthereumHardfork::Dao, config.dao_fork_block);
        push_block_fork(&mut out, EthereumHardfork::Tangerine, config.tangerine_block);
        push_block_fork(&mut out, EthereumHardfork::SpuriousDragon, config.spurious_dragon_block);
        push_block_fork(&mut out, EthereumHardfork::Byzantium, config.byzantium_block);
        push_block_fork(&mut out, EthereumHardfork::Constantinople, config.constantinople_block);
        push_block_fork(&mut out, EthereumHardfork::Petersburg, config.petersburg_block);
        push_block_fork(&mut out, EthereumHardfork::Istanbul, config.istanbul_block);
        push_block_fork(&mut out, EthereumHardfork::MuirGlacier, config.muir_glacier_block);
        push_block_fork(&mut out, EthereumHardfork::Berlin, config.berlin_block);
        push_block_fork(&mut out, EthereumHardfork::London, config.london_block);
        push_block_fork(&mut out, EthereumHardfork::ArrowGlacier, config.arrow_glacier_block);
        push_block_fork(&mut out, EthereumHardfork::GrayGlacier, config.gray_glacier_block);
        proof {
            assert(out@ =~= Self::spec_init_block_hardforks(*config));
        }
        out
    }

    fn init_paris(config: &ChainConfig) -> (r: Option<(EthereumHardfork, ForkCondition)>)
        ensures
            r == Self::spec_init_paris(*config),
    {
        match config.terminal_total_difficulty {
            Some(ttd) => Some((EthereumHardfork::Paris, ForkCondition::TotalDifficulty(ttd))),
            None => None,
        }
    }

    fn init_time_hardforks(config: &ChainConfig) -> (r: Vec<(EthereumHardfork, ForkCondition)>)
        ensures
            r@ == Self::spec_init_time_hardforks(*config),
    {
        let mut out: Vec<(EthereumHardfork, ForkCondition)> = Vec::new();
        push_time_fork(&mut out, EthereumHardfork::Shanghai, config.shanghai_time);
        push_time_fork(&mut out, EthereumHardfork::Cancun, config.cancun_time);
        push_time_fork(&mut out, EthereumHardfork::Prague, config.prague_time);
        proof {
            assert(Seq::<(EthereumHardfork, ForkCondition)>::empty() + time_fork(
                EthereumHardfork::Shanghai,
                config.shanghai_time,
            ) =~= time_fork(EthereumHardfork::Shanghai, config.shanghai_time));
            assert(out@ =~= Self::spec_init_time_hardforks(*config));
        }
        out
    }

    fn init(config: &ChainConfig) -> (r: Vec<(EthereumHardfork, ForkCondition)>)
        ensures
            r@ == Self::spec_init_block_hardforks(*config) + match Self::spec_init_paris(
                *config,
            ) {
                Some(paris) => seq![paris],
                None => Seq::empty(),
            } + Self::spec_init_time_hardforks(*config),
    {
        let mut out = Self::init_block_hardforks(config);
        match Self::init_paris(config) {
            Some(paris) => {
                out.push(paris);
            },
            None => {},
        }
        let mut time_forks = Self::init_time_hardforks(config);
        out.append(&mut time_forks);
        proof {
            assert(out@ =~= Self::spec_init_block_hardforks(*config) + match Self::spec_init_paris(
                *config,
            ) {
                Some(paris) => seq![paris],
                None => Seq::empty(),
            } + Self::spec_init_time_hardforks(*config));
        }
        out
    }
}

} // verus!
