//! Consensus logic and parameters: block heights, network upgrades, and
//! the mapping from a height to the active consensus branch.

use vstd::prelude::*;

verus! {

/// A wrapper type representing blockchain heights.
///
/// Heights form a total order; addition and subtraction by an unsigned
/// delta are provided, and subtraction below zero is a caller error
/// (excluded by precondition rather than reported at run time).
#[derive(Clone, Copy, Debug, PartialEq, Eq, Hash, PartialOrd, Ord, Structural)]
pub struct BlockHeight(pub u32);

/// The error returned when a wider or signed integer does not fit in the
/// unsigned 32-bit height domain.
#[derive(Clone, Copy, Debug, PartialEq, Eq, Structural)]
pub struct HeightOutOfRange;

impl BlockHeight {
    pub fn from_u32(v: u32) -> (r: BlockHeight)
        ensures
            r.0 == v,
    {
        BlockHeight(v)
    }

    /// The height as a plain unsigned integer.
    pub fn to_u32(self) -> (r: u32)
        ensures
            r == self.0,
    {
        self.0
    }

    pub fn to_u64(self) -> (r: u64)
        ensures
            r == self.0,
    {
        self.0 as u64
    }

    pub fn to_i64(self) -> (r: i64)
        ensures
            r == self.0,
    {
        self.0 as i64
    }

    /// Range-checked conversion from an unsigned 64-bit value.
    pub fn try_from_u64(value: u64) -> (r: Result<BlockHeight, HeightOutOfRange>)
        ensures
            value <= u32::MAX ==> r == Ok::<BlockHeight, HeightOutOfRange>(BlockHeight(value as u32)),
            value > u32::MAX ==> r == Err::<BlockHeight, HeightOutOfRange>(HeightOutOfRange),
    {
        if value <= u32::MAX as u64 {
            Ok(BlockHeight(value as u32))
        } else {
            Err(HeightOutOfRange)
        }
    }

    /// Range-checked conversion from a signed 32-bit value.
    pub fn try_from_i32(value: i32) -> (r: Result<BlockHeight, HeightOutOfRange>)
        ensures
            value >= 0 ==> r == Ok::<BlockHeight, HeightOutOfRange>(BlockHeight(value as u32)),
            value < 0 ==> r == Err::<BlockHeight, HeightOutOfRange>(HeightOutOfRange),
    {
        if value >= 0 {
            Ok(BlockHeight(value as u32))
        } else {
            Err(HeightOutOfRange)
        }
    }

    /// Range-checked conversion from a signed 64-bit value.
    pub fn try_from_i64(value: i64) -> (r: Result<BlockHeight, HeightOutOfRange>)
        ensures
            0 <= value <= u32::MAX ==> r == Ok::<BlockHeight, HeightOutOfRange>(BlockHeight(value as u32)),
            !(0 <= value <= u32::MAX) ==> r == Err::<BlockHeight, HeightOutOfRange>(HeightOutOfRange),
    {
        if 0 <= value && value <= u32::MAX as i64 {
            Ok(BlockHeight(value as u32))
        } else {
            Err(HeightOutOfRange)
        }
    }

    /// Addition of an unsigned delta; the sum must fit in the height domain.
    pub fn add(self, other: u32) -> (r: BlockHeight)
        requires
            self.0 + other <= u32::MAX,
        ensures
            r.0 == self.0 + other,
    {
        BlockHeight(self.0 + other)
    }

    /// Subtraction of an unsigned delta. Going below zero is a caller bug,
    /// excluded by precondition: heights are never negative.
    pub fn sub(self, other: u32) -> (r: BlockHeight)
        requires
            other <= self.0,
        ensures
            r.0 == self.0 - other,
    {
        BlockHeight(self.0 - other)
    }
}

/// An event that occurs at a specified height on the chain, at which point
/// the consensus rules enforced by the network are altered.
#[derive(Clone, Copy, Debug, PartialEq, Eq, Structural)]
pub enum NetworkUpgrade {
    /// The Overwinter network upgrade.
    Overwinter,
    /// The Sapling network upgrade.
    Sapling,
    /// The Ycash network upgrade.
    Ycash,
    /// The Blossom network upgrade.
    Blossom,
    /// The Heartwood network upgrade.
    Heartwood,
    /// The Canopy network upgrade.
    Canopy,
}

/// Whether an upgrade with the given activation height is active at `height`:
/// true iff an activation height is set and is at most `height`.
pub open spec fn spec_is_active(activation: Option<BlockHeight>, height: BlockHeight) -> bool {
    match activation {
        Some(h) => h.0 <= height.0,
        None => false,
    }
}

/// Consensus parameters of one network variant: the activation height table
/// plus the network-specific constants.
pub trait Parameters: Sized + Clone {
    /// The activation height table, as the contracts speak of it.
    spec fn spec_activation_height(&self, nu: NetworkUpgrade) -> Option<BlockHeight>;

    spec fn spec_coin_type(&self) -> u32;

    spec fn spec_hrp_sapling_extended_spending_key(&self) -> Seq<char>;

    spec fn spec_hrp_sapling_extended_full_viewing_key(&self) -> Seq<char>;

    spec fn spec_hrp_sapling_payment_address(&self) -> Seq<char>;

    spec fn spec_b58_pubkey_address_prefix(&self) -> Seq<u8>;

    spec fn spec_b58_script_address_prefix(&self) -> Seq<u8>;

    /// Returns the activation height for a particular network upgrade,
    /// if an activation height has been set.
    fn activation_height(&self, nu: NetworkUpgrade) -> (r: Option<BlockHeight>)
        ensures
            r == self.spec_activation_height(nu),
    ;

    /// Determines whether the specified network upgrade is active as of the
    /// provided block height on this network.
    fn is_nu_active(&self, nu: NetworkUpgrade, height: BlockHeight) -> (r: bool)
        ensures
            r == spec_is_active(self.spec_activation_height(nu), height),
    ;

    /// The registered coin type of the network's currency.
    fn coin_type(&self) -> (r: u32)
        ensures
            r == self.spec_coin_type(),
    ;

    /// The human-readable prefix for encoded extended spending keys.
    fn hrp_sapling_extended_spending_key(&self) -> (r: &'static str)
        ensures
            r@ == self.spec_hrp_sapling_extended_spending_key(),
    ;

    /// The human-readable prefix for encoded extended full viewing keys.
    fn hrp_sapling_extended_full_viewing_key(&self) -> (r: &'static str)
        ensures
            r@ == self.spec_hrp_sapling_extended_full_viewing_key(),
    ;

    /// The human-readable prefix for encoded shielded payment addresses.
    fn hrp_sapling_payment_address(&self) -> (r: &'static str)
        ensures
            r@ == self.spec_hrp_sapling_payment_address(),
    ;

    /// The prefix bytes of transparent pay-to-public-key-hash addresses.
    fn b58_pubkey_address_prefix(&self) -> (r: [u8; 2])
        ensures
            r@ == self.spec_b58_pubkey_address_prefix(),
    ;

    /// The prefix bytes of transparent pay-to-script-hash addresses.
    fn b58_script_address_prefix(&self) -> (r: [u8; 2])
        ensures
            r@ == self.spec_b58_script_address_prefix(),
    ;
}

/// Marker struct for the production network.
#[derive(PartialEq, Eq, Copy, Clone, Debug, Structural)]
pub struct MainNetwork;

impl Parameters for MainNetwork {
    open spec fn spec_activation_height(&self, nu: NetworkUpgrade) -> Option<BlockHeight> {
        match nu {
            NetworkUpgrade::Overwinter => Some(BlockHeight(347_500)),
            NetworkUpgrade::Sapling => Some(BlockHeight(419_200)),
            NetworkUpgrade::Ycash => Some(BlockHeight(570_000)),
            NetworkUpgrade::Blossom => Some(BlockHeight(10_000_000)),
            NetworkUpgrade::Heartwood => Some(BlockHeight(20_000_000)),
            NetworkUpgrade::Canopy => Some(BlockHeight(30_000_000)),
        }
    }

    open spec fn spec_coin_type(&self) -> u32 {
        133
    }

    open spec fn spec_hrp_sapling_extended_spending_key(&self) -> Seq<char> {
        "secret-extended-key-main"@
    }

    open spec fn spec_hrp_sapling_extended_full_viewing_key(&self) -> Seq<char> {
        "zxviews"@
    }

    open spec fn spec_hrp_sapling_payment_address(&self) -> Seq<char> {
        "zs"@
    }

    open spec fn spec_b58_pubkey_address_prefix(&self) -> Seq<u8> {
        seq![0x1cu8, 0xb8u8]
    }

    open spec fn spec_b58_script_address_prefix(&self) -> Seq<u8> {
        seq![0x1cu8, 0xbdu8]
    }

    fn activation_height(&self, nu: NetworkUpgrade) -> (r: Option<BlockHeight>) {
        match nu {
            NetworkUpgrade::Overwinter => Some(BlockHeight(347_500)),
            NetworkUpgrade::Sapling => Some(BlockHeight(419_200)),
            NetworkUpgrade::Ycash => Some(BlockHeight(570_000)),
            NetworkUpgrade::Blossom => Some(BlockHeight(10_000_000)),
            NetworkUpgrade::Heartwood => Some(BlockHeight(20_000_000)),
            NetworkUpgrade::Canopy => Some(BlockHeight(30_000_000)),
        }
    }

    fn is_nu_active(&self, nu: NetworkUpgrade, height: BlockHeight) -> (r: bool) {
        match self.activation_height(nu) {
            Some(h) => h.0 <= height.0,
            None => false,
        }
    }

    fn coin_type(&self) -> (r: u32) {
        133
    }

    fn hrp_sapling_extended_spending_key(&self) -> (r: &'static str) {
        "secret-extended-key-main"
    }

    fn hrp_sapling_extended_full_viewing_key(&self) -> (r: &'static str) {
        "zxviews"
    }

    fn hrp_sapling_payment_address(&self) -> (r: &'static str) {
        "zs"
    }

    fn b58_pubkey_address_prefix(&self) -> (r: [u8; 2]) {
        let r: [u8; 2] = [0x1c, 0xb8];
        proof {
            assert(r@ =~= seq![0x1cu8, 0xb8u8]);
        }
        r
    }

    fn b58_script_address_prefix(&self) -> (r: [u8; 2]) {
        let r: [u8; 2] = [0x1c, 0xbd];
        proof {
            assert(r@ =~= seq![0x1cu8, 0xbdu8]);
        }
        r
    }
}

/// Marker struct for the test network.
#[derive(PartialEq, Eq, Copy, Clone, Debug, Structural)]
pub struct TestNetwork;

impl Parameters for TestNetwork {
    open spec fn spec_activation_height(&self, nu: NetworkUpgrade) -> Option<BlockHeight> {
        match nu {
            NetworkUpgrade::Overwinter => Some(BlockHeight(207_500)),
            NetworkUpgrade::Sapling => Some(BlockHeight(280_000)),
            NetworkUpgrade::Ycash => Some(BlockHeight(510_248)),
            NetworkUpgrade::Blossom => Some(BlockHeight(10_000_000)),
            NetworkUpgrade::Heartwood => Some(BlockHeight(20_000_000)),
            NetworkUpgrade::Canopy => Some(BlockHeight(30_000_000)),
        }
    }

    open spec fn spec_coin_type(&self) -> u32 {
        1
    }

    open spec fn spec_hrp_sapling_extended_spending_key(&self) -> Seq<char> {
        "secret-extended-key-test"@
    }

    open spec fn spec_hrp_sapling_extended_full_viewing_key(&self) -> Seq<char> {
        "zxviewtestsapling"@
    }

    open spec fn spec_hrp_sapling_payment_address(&self) -> Seq<char> {
        "ztestsapling"@
    }

    open spec fn spec_b58_pubkey_address_prefix(&self) -> Seq<u8> {
        seq![0x1du8, 0x25u8]
    }

    open spec fn spec_b58_script_address_prefix(&self) -> Seq<u8> {
        seq![0x1cu8, 0xbau8]
    }

    fn activation_height(&self, nu: NetworkUpgrade) -> (r: Option<BlockHeight>) {
        match nu {
            NetworkUpgrade::Overwinter => Some(BlockHeight(207_500)),
            NetworkUpgrade::Sapling => Some(BlockHeight(280_000)),
            NetworkUpgrade::Ycash => Some(BlockHeight(510_248)),
            NetworkUpgrade::Blossom => Some(BlockHeight(10_000_000)),
            NetworkUpgrade::Heartwood => Some(BlockHeight(20_000_000)),
            NetworkUpgrade::Canopy => Some(BlockHeight(30_000_000)),
        }
    }

    fn is_nu_active(&self, nu: NetworkUpgrade, height: BlockHeight) -> (r: bool) {
        match self.activation_height(nu) {
            Some(h) => h.0 <= height.0,
            None => false,
        }
    }

    fn coin_type(&self) -> (r: u32) {
        1
    }

    fn hrp_sapling_extended_spending_key(&self) -> (r: &'static str) {
        "secret-extended-key-test"
    }

    fn hrp_sapling_extended_full_viewing_key(&self) -> (r: &'static str) {
        "zxviewtestsapling"
    }

    fn hrp_sapling_payment_address(&self) -> (r: &'static str) {
        "ztestsapling"
    }

    fn b58_pubkey_address_prefix(&self) -> (r: [u8; 2]) {
        let r: [u8; 2] = [0x1d, 0x25];
        proof {
            assert(r@ =~= seq![0x1du8, 0x25u8]);
        }
        r
    }

    fn b58_script_address_prefix(&self) -> (r: [u8; 2]) {
        let r: [u8; 2] = [0x1c, 0xba];
        proof {
            assert(r@ =~= seq![0x1cu8, 0xbau8]);
        }
        r
    }
}

/// The closed set of network variants, dispatching at run time between the
/// production and the test network.
#[derive(PartialEq, Eq, Copy, Clone, Debug, Structural)]
pub enum Network {
    MainNetwork,
    TestNetwork,
}

impl Parameters for Network {
    open spec fn spec_activation_height(&self, nu: NetworkUpgrade) -> Option<BlockHeight> {
        match self {
            Network::MainNetwork => MainNetwork.spec_activation_height(nu),
            Network::TestNetwork => TestNetwork.spec_activation_height(nu),
        }
    }

    open spec fn spec_coin_type(&self) -> u32 {
        match self {
            Network::MainNetwork => MainNetwork.spec_coin_type(),
            Network::TestNetwork => TestNetwork.spec_coin_type(),
        }
    }

    open spec fn spec_hrp_sapling_extended_spending_key(&self) -> Seq<char> {
        match self {
            Network::MainNetwork => MainNetwork.spec_hrp_sapling_extended_spending_key(),
            Network::TestNetwork => TestNetwork.spec_hrp_sapling_extended_spending_key(),
        }
    }

    open spec fn spec_hrp_sapling_extended_full_viewing_key(&self) -> Seq<char> {
        match self {
            Network::MainNetwork => MainNetwork.spec_hrp_sapling_extended_full_viewing_key(),
            Network::TestNetwork => TestNetwork.spec_hrp_sapling_extended_full_viewing_key(),
        }
    }

    open spec fn spec_hrp_sapling_payment_address(&self) -> Seq<char> {
        match self {
            Network::MainNetwork => MainNetwork.spec_hrp_sapling_payment_address(),
            Network::TestNetwork => TestNetwork.spec_hrp_sapling_payment_address(),
        }
    }

    open spec fn spec_b58_pubkey_address_prefix(&self) -> Seq<u8> {
        match self {
            Network::MainNetwork => MainNetwork.spec_b58_pubkey_address_prefix(),
            Network::TestNetwork => TestNetwork.spec_b58_pubkey_address_prefix(),
        }
    }

    open spec fn spec_b58_script_address_prefix(&self) -> Seq<u8> {
        match self {
            Network::MainNetwork => MainNetwork.spec_b58_script_address_prefix(),
            Network::TestNetwork => TestNetwork.spec_b58_script_address_prefix(),
        }
    }

    fn activation_height(&self, nu: NetworkUpgrade) -> (r: Option<BlockHeight>) {
        match self {
            Network::MainNetwork => MainNetwork.activation_height(nu),
            Network::TestNetwork => TestNetwork.activation_height(nu),
        }
    }

    fn is_nu_active(&self, nu: NetworkUpgrade, height: BlockHeight) -> (r: bool) {
        match self.activation_height(nu) {
            Some(h) => h.0 <= height.0,
            None => false,
        }
    }

    fn coin_type(&self) -> (r: u32) {
        match self {
            Network::MainNetwork => MainNetwork.coin_type(),
            Network::TestNetwork => TestNetwork.coin_type(),
        }
    }

    fn hrp_sapling_extended_spending_key(&self) -> (r: &'static str) {
        match self {
            Network::MainNetwork => MainNetwork.hrp_sapling_extended_spending_key(),
            Network::TestNetwork => TestNetwork.hrp_sapling_extended_spending_key(),
        }
    }

    fn hrp_sapling_extended_full_viewing_key(&self) -> (r: &'static str) {
        match self {
            Network::MainNetwork => MainNetwork.hrp_sapling_extended_full_viewing_key(),
            Network::TestNetwork => TestNetwork.hrp_sapling_extended_full_viewing_key(),
        }
    }

    fn hrp_sapling_payment_address(&self) -> (r: &'static str) {
        match self {
            Network::MainNetwork => MainNetwork.hrp_sapling_payment_address(),
            Network::TestNetwork => TestNetwork.hrp_sapling_payment_address(),
        }
    }

    fn b58_pubkey_address_prefix(&self) -> (r: [u8; 2]) {
        match self {
            Network::MainNetwork => MainNetwork.b58_pubkey_address_prefix(),
            Network::TestNetwork => TestNetwork.b58_pubkey_address_prefix(),
        }
    }

    fn b58_script_address_prefix(&self) -> (r: [u8; 2]) {
        match self {
            Network::MainNetwork => MainNetwork.b58_script_address_prefix(),
            Network::TestNetwork => TestNetwork.b58_script_address_prefix(),
        }
    }
}

impl NetworkUpgrade {
    /// The display name of the upgrade.
    pub open spec fn spec_name(self) -> Seq<char> {
        match self {
            NetworkUpgrade::Overwinter => "Overwinter"@,
            NetworkUpgrade::Sapling => "Sapling"@,
            NetworkUpgrade::Ycash => "Ycash"@,
            NetworkUpgrade::Blossom => "Blossom"@,
            NetworkUpgrade::Heartwood => "Heartwood"@,
            NetworkUpgrade::Canopy => "Canopy"@,
        }
    }

    /// The display name of the upgrade.
    pub fn name(self) -> (r: &'static str)
        ensures
            r@ == self.spec_name(),
    {
        match self {
            NetworkUpgrade::Overwinter => "Overwinter",
            NetworkUpgrade::Sapling => "Sapling",
            NetworkUpgrade::Ycash => "Ycash",
            NetworkUpgrade::Blossom => "Blossom",
            NetworkUpgrade::Heartwood => "Heartwood",
            NetworkUpgrade::Canopy => "Canopy",
        }
    }

    /// The consensus branch deployed by this upgrade.
    pub open spec fn spec_branch_id(self) -> BranchId {
        match self {
            NetworkUpgrade::Overwinter => BranchId::Overwinter,
            NetworkUpgrade::Sapling => BranchId::Sapling,
            NetworkUpgrade::Ycash => BranchId::Ycash,
            NetworkUpgrade::Blossom => BranchId::Blossom,
            NetworkUpgrade::Heartwood => BranchId::Heartwood,
            NetworkUpgrade::Canopy => BranchId::Canopy,
        }
    }

    /// The consensus branch deployed by this upgrade.
    pub fn branch_id(self) -> (r: BranchId)
        ensures
            r == self.spec_branch_id(),
    {
        match self {
            NetworkUpgrade::Overwinter => BranchId::Overwinter,
            NetworkUpgrade::Sapling => BranchId::Sapling,
            NetworkUpgrade::Ycash => BranchId::Ycash,
            NetworkUpgrade::Blossom => BranchId::Blossom,
            NetworkUpgrade::Heartwood => BranchId::Heartwood,
            NetworkUpgrade::Canopy => BranchId::Canopy,
        }
    }
}

/// The network upgrades on the chain in order of activation.
pub open spec fn upgrade_order() -> Seq<NetworkUpgrade> {
    seq![
        NetworkUpgrade::Overwinter,
        NetworkUpgrade::Sapling,
        NetworkUpgrade::Ycash,
        NetworkUpgrade::Blossom,
        NetworkUpgrade::Heartwood,
        NetworkUpgrade::Canopy,
    ]
}

/// The network upgrades on the chain in order of activation.
pub fn upgrades_in_order() -> (r: Vec<NetworkUpgrade>)
    ensures
        r@ == upgrade_order(),
{
    let mut r: Vec<NetworkUpgrade> = Vec::new();
    r.push(NetworkUpgrade::Overwinter);
    r.push(NetworkUpgrade::Sapling);
    r.push(NetworkUpgrade::Ycash);
    r.push(NetworkUpgrade::Blossom);
    r.push(NetworkUpgrade::Heartwood);
    r.push(NetworkUpgrade::Canopy);
    proof {
        assert(r@ =~= upgrade_order());
    }
    r
}

/// The number of blocks within which still-encrypted notes of the older
/// note-plaintext format remain spendable after the Canopy upgrade.
pub const ZIP212_GRACE_PERIOD: u32 = 32256;

/// The error returned when a 32-bit wire value does not encode any defined
/// consensus branch.
#[derive(Clone, Copy, Debug, PartialEq, Eq, Structural)]
pub struct UnknownBranchId;

/// A globally-unique identifier for a set of consensus rules within the
/// chain: one epoch per network upgrade, plus the baseline epoch that
/// precedes every upgrade.
#[derive(Clone, Copy, Debug, PartialEq, Eq, Structural)]
pub enum BranchId {
    /// The consensus rules at the launch of the chain.
    Sprout,
    /// The consensus rules deployed by `NetworkUpgrade::Overwinter`.
    Overwinter,
    /// The consensus rules deployed by `NetworkUpgrade::Sapling`.
    Sapling,
    /// The consensus rules deployed by `NetworkUpgrade::Ycash`.
    Ycash,
    /// The consensus rules deployed by `NetworkUpgrade::Blossom`.
    Blossom,
    /// The consensus rules deployed by `NetworkUpgrade::Heartwood`.
    Heartwood,
    /// The consensus rules deployed by `NetworkUpgrade::Canopy`.
    Canopy,
}

/// The stable 32-bit wire identifier of each consensus branch.
pub open spec fn spec_branch_to_u32(b: BranchId) -> u32 {
    match b {
        BranchId::Sprout => 0,
        BranchId::Overwinter => 0x5ba8_1b19,
        BranchId::Sapling => 0x76b8_09bb,
        BranchId::Ycash => 0x374d_694f,
        BranchId::Blossom => 0x2bb4_0e60,
        BranchId::Heartwood => 0xf5b9_230b,
        BranchId::Canopy => 0xe9ff_75a6,
    }
}

/// The branch, if any, whose wire identifier is `value`: the exact inverse
/// of `spec_branch_to_u32`.
pub open spec fn spec_branch_from_u32(value: u32) -> Option<BranchId> {
    if value == 0 {
        Some(BranchId::Sprout)
    } else if value == 0x5ba8_1b19 {
        Some(BranchId::Overwinter)
    } else if value == 0x76b8_09bb {
        Some(BranchId::Sapling)
    } else if value == 0x374d_694f {
        Some(BranchId::Ycash)
    } else if value == 0x2bb4_0e60 {
        Some(BranchId::Blossom)
    } else if value == 0xf5b9_230b {
        Some(BranchId::Heartwood)
    } else if value == 0xe9ff_75a6 {
        Some(BranchId::Canopy)
    } else {
        None
    }
}

/// The branch resolved by scanning the first `n` entries of the upgrade
/// order from the most recent to the earliest: the epoch of the first
/// upgrade found active at `height`, or the baseline epoch if none is.
pub open spec fn spec_branch_scan<P: Parameters>(
    parameters: &P,
    height: BlockHeight,
    n: int,
) -> BranchId
    decreases n,
{
    if n <= 0 {
        BranchId::Sprout
    } else if spec_is_active(
        parameters.spec_activation_height(upgrade_order()[n - 1]),
        height,
    ) {
        upgrade_order()[n - 1].spec_branch_id()
    } else {
        spec_branch_scan(parameters, height, n - 1)
    }
}

/// The branch active at `height` on the network described by `parameters`.
pub open spec fn spec_branch_for_height<P: Parameters>(
    parameters: &P,
    height: BlockHeight,
) -> BranchId {
    spec_branch_scan(parameters, height, upgrade_order().len() as int)
}

impl BranchId {
    /// The stable 32-bit wire identifier of this branch.
    pub fn to_u32(self) -> (r: u32)
        ensures
            r == spec_branch_to_u32(self),
    {
        match self {
            BranchId::Sprout => 0,
            BranchId::Overwinter => 0x5ba8_1b19,
            BranchId::Sapling => 0x76b8_09bb,
            BranchId::Ycash => 0x374d_694f,
            BranchId::Blossom => 0x2bb4_0e60,
            BranchId::Heartwood => 0xf5b9_230b,
            BranchId::Canopy => 0xe9ff_75a6,
        }
    }

    /// Decodes a 32-bit wire identifier: succeeds exactly on the seven
    /// defined table values and fails on every other value.
    pub fn try_from_u32(value: u32) -> (r: Result<BranchId, UnknownBranchId>)
        ensures
            r == (match spec_branch_from_u32(value) {
                Some(b) => Ok::<BranchId, UnknownBranchId>(b),
                None => Err::<BranchId, UnknownBranchId>(UnknownBranchId),
            }),
    {
        if value == 0 {
            Ok(BranchId::Sprout)
        } else if value == 0x5ba8_1b19 {
            Ok(BranchId::Overwinter)
        } else if value == 0x76b8_09bb {
            Ok(BranchId::Sapling)
        } else if value == 0x374d_694f {
            Ok(BranchId::Ycash)
        } else if value == 0x2bb4_0e60 {
            Ok(BranchId::Blossom)
        } else if value == 0xf5b9_230b {
            Ok(BranchId::Heartwood)
        } else if value == 0xe9ff_75a6 {
            Ok(BranchId::Canopy)
        } else {
            Err(UnknownBranchId)
        }
    }

    /// Returns the branch corresponding to the consensus rule set that is
    /// active at the given height: the fixed upgrade list is scanned from
    /// the most recent upgrade to the earliest, and the first upgrade found
    /// active decides the epoch; before any upgrade the baseline applies.
    pub fn for_height<P: Parameters>(parameters: &P, height: BlockHeight) -> (r: BranchId)
        ensures
            r == spec_branch_for_height(parameters, height),
    {
        let order = upgrades_in_order();
        let mut i: usize = order.len();
        while i > 0
            invariant
                i <= upgrade_order().len(),
                order@ == upgrade_order(),
                spec_branch_for_height(parameters, height) == spec_branch_scan(
                    parameters,
                    height,
                    i as int,
                ),
            decreases i,
        {
            let nu = order[i - 1];
            if parameters.is_nu_active(nu, height) {
                return nu.branch_id();
            }
            i = i - 1;
        }
        BranchId::Sprout
    }
}

/// Whether the activation heights that `parameters` assigns to the
/// neighbouring upgrades at positions `i` and `i + 1` of the upgrade order
/// strictly increase, whenever both are defined.
pub open spec fn spec_neighbour_heights_increase<P: Parameters>(parameters: &P, i: int) -> bool {
    match (
        parameters.spec_activation_height(upgrade_order()[i]),
        parameters.spec_activation_height(upgrade_order()[i + 1]),
    ) {
        (Some(a), Some(b)) => a.0 < b.0,
        _ => true,
    }
}

/// Law: on every network variant, activation heights strictly increase in
/// upgrade order wherever both neighbouring heights are defined.
pub proof fn lemma_activation_heights_increase(network: Network)
    ensures
        forall|i: int|
            0 <= i < upgrade_order().len() - 1 ==> spec_neighbour_heights_increase(&network, i),
{
    assert forall|i: int|
        0 <= i < upgrade_order().len() - 1 implies spec_neighbour_heights_increase(
        &network,
        i,
    ) by {
        match network {
            Network::MainNetwork => {
                assert(spec_neighbour_heights_increase(&network, i));
            },
            Network::TestNetwork => {
                assert(spec_neighbour_heights_increase(&network, i));
            },
        }
    }
}

/// Law: activity is monotone in the height. An upgrade that is active at
/// `h1` stays active at every height `h2` that is not below `h1`.
pub proof fn lemma_is_active_monotone(
    activation: Option<BlockHeight>,
    h1: BlockHeight,
    h2: BlockHeight,
)
    requires
        spec_is_active(activation, h1),
        h1.0 <= h2.0,
    ensures
        spec_is_active(activation, h2),
{
}

/// The position, counted one past its index, of the most recent upgrade
/// among the first `n` of the upgrade order that is active at `height`;
/// zero if none is active.
pub open spec fn spec_scan_position<P: Parameters>(
    parameters: &P,
    height: BlockHeight,
    n: int,
) -> int
    decreases n,
{
    if n <= 0 {
        0
    } else if spec_is_active(
        parameters.spec_activation_height(upgrade_order()[n - 1]),
        height,
    ) {
        n
    } else {
        spec_scan_position(parameters, height, n - 1)
    }
}

/// The scan result is the branch deployed at the scan position: the
/// baseline when no upgrade is active, else the branch of the most recent
/// active upgrade.
pub proof fn lemma_scan_is_branch_at_position<P: Parameters>(
    parameters: &P,
    height: BlockHeight,
    n: int,
)
    requires
        0 <= n <= upgrade_order().len(),
    ensures
        spec_scan_position(parameters, height, n) == 0 ==> spec_branch_scan(
            parameters,
            height,
            n,
        ) == BranchId::Sprout,
        spec_scan_position(parameters, height, n) > 0 ==> spec_branch_scan(
            parameters,
            height,
            n,
        ) == upgrade_order()[spec_scan_position(parameters, height, n) - 1].spec_branch_id(),
    decreases n,
{
    if n > 0 {
        if !spec_is_active(parameters.spec_activation_height(upgrade_order()[n - 1]), height) {
            lemma_scan_is_branch_at_position(parameters, height, n - 1);
        }
    }
}

/// Law: the resolved epoch is a right-continuous step function of the
/// height that matches the upgrade order. As the height grows, the
/// position of the resolved epoch in the upgrade order never moves
/// backwards, and each boundary height already belongs to the epoch it
/// activates.
pub proof fn lemma_branch_for_height_step<P: Parameters>(
    parameters: &P,
    h1: BlockHeight,
    h2: BlockHeight,
)
    requires
        h1.0 <= h2.0,
    ensures
        spec_scan_position(parameters, h1, upgrade_order().len() as int) <= spec_scan_position(
            parameters,
            h2,
            upgrade_order().len() as int,
        ),
        spec_scan_position(parameters, h1, upgrade_order().len() as int) == spec_scan_position(
            parameters,
            h2,
            upgrade_order().len() as int,
        ) ==> spec_branch_for_height(parameters, h1) == spec_branch_for_height(parameters, h2),
{
    let n = upgrade_order().len() as int;
    lemma_scan_position_monotone(parameters, h1, h2, n);
    lemma_scan_is_branch_at_position(parameters, h1, n);
    lemma_scan_is_branch_at_position(parameters, h2, n);
    let p1 = spec_scan_position(parameters, h1, n);
    let p2 = spec_scan_position(parameters, h2, n);
    if p1 == p2 {
        if p1 == 0 {
            assert(spec_branch_for_height(parameters, h1) == BranchId::Sprout);
            assert(spec_branch_for_height(parameters, h2) == BranchId::Sprout);
        } else {
            assert(spec_branch_for_height(parameters, h1)
                == upgrade_order()[p1 - 1].spec_branch_id());
            assert(spec_branch_for_height(parameters, h2)
                == upgrade_order()[p2 - 1].spec_branch_id());
        }
    }
}

proof fn lemma_scan_position_monotone<P: Parameters>(
    parameters: &P,
    h1: BlockHeight,
    h2: BlockHeight,
    n: int,
)
    requires
        h1.0 <= h2.0,
        0 <= n,
    ensures
        spec_scan_position(parameters, h1, n) <= spec_scan_position(parameters, h2, n),
        0 <= spec_scan_position(parameters, h1, n) <= n,
        0 <= spec_scan_position(parameters, h2, n) <= n,
    decreases n,
{
    if n > 0 {
        lemma_scan_position_monotone(parameters, h1, h2, n - 1);
    }
}

/// Law: the wire encoding of a branch decodes back to the same branch, for
/// every defined branch.
pub proof fn lemma_branch_id_roundtrip(b: BranchId)
    ensures
        spec_branch_from_u32(spec_branch_to_u32(b)) == Some(b),
{
}

} // verus!
