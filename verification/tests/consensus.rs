use zcash_consensus::consensus::{
    BlockHeight, BranchId, HeightOutOfRange, MainNetwork, Network, NetworkUpgrade, Parameters,
    TestNetwork, UnknownBranchId, ZIP212_GRACE_PERIOD, upgrades_in_order,
};

#[test]
fn nu_ordering() {
    let order = upgrades_in_order();
    for i in 1..order.len() {
        let nu_a = order[i - 1];
        let nu_b = order[i];
        match (
            MainNetwork.activation_height(nu_a),
            MainNetwork.activation_height(nu_b),
        ) {
            (a, b) if a < b => (),
            _ => panic!(
                "{} should not be before {} in UPGRADES_IN_ORDER",
                nu_a.name(),
                nu_b.name()
            ),
        }
    }
}

#[test]
fn nu_is_active() {
    assert!(!MainNetwork.is_nu_active(NetworkUpgrade::Overwinter, BlockHeight::from_u32(0)));
    assert!(!MainNetwork.is_nu_active(NetworkUpgrade::Overwinter, BlockHeight::from_u32(347_499)));
    assert!(MainNetwork.is_nu_active(NetworkUpgrade::Overwinter, BlockHeight::from_u32(347_500)));
}

#[test]
fn branch_id_from_u32() {
    assert_eq!(BranchId::try_from_u32(0), Ok(BranchId::Sprout));
    assert!(BranchId::try_from_u32(1).is_err());
}

#[test]
fn branch_id_for_height() {
    assert_eq!(
        BranchId::for_height(&MainNetwork, BlockHeight::from_u32(0)),
        BranchId::Sprout,
    );
    assert_eq!(
        BranchId::for_height(&MainNetwork, BlockHeight::from_u32(419_199)),
        BranchId::Overwinter,
    );
    assert_eq!(
        BranchId::for_height(&MainNetwork, BlockHeight::from_u32(419_200)),
        BranchId::Sapling,
    );
    assert_eq!(
        BranchId::for_height(&MainNetwork, BlockHeight::from_u32(570_000)),
        BranchId::Ycash,
    );
}

#[test]
fn branch_id_roundtrips_for_every_variant() {
    let all = [
        BranchId::Sprout,
        BranchId::Overwinter,
        BranchId::Sapling,
        BranchId::Ycash,
        BranchId::Blossom,
        BranchId::Heartwood,
        BranchId::Canopy,
    ];
    for b in all {
        assert_eq!(BranchId::try_from_u32(b.to_u32()), Ok(b));
    }
    assert_eq!(BranchId::try_from_u32(0x5ba8_1b19), Ok(BranchId::Overwinter));
    assert_eq!(BranchId::try_from_u32(0xdead_beef), Err(UnknownBranchId));
}

#[test]
fn branch_id_for_height_on_test_network() {
    assert_eq!(
        BranchId::for_height(&TestNetwork, BlockHeight::from_u32(0)),
        BranchId::Sprout,
    );
    assert_eq!(
        BranchId::for_height(&TestNetwork, BlockHeight::from_u32(280_000)),
        BranchId::Sapling,
    );
    assert_eq!(
        BranchId::for_height(&Network::TestNetwork, BlockHeight::from_u32(510_248)),
        BranchId::Ycash,
    );
    assert_eq!(
        BranchId::for_height(&Network::MainNetwork, BlockHeight::from_u32(30_000_000)),
        BranchId::Canopy,
    );
}

#[test]
fn test_network_activation_heights_increase() {
    let order = upgrades_in_order();
    for i in 1..order.len() {
        let a = TestNetwork.activation_height(order[i - 1]);
        let b = TestNetwork.activation_height(order[i]);
        assert!(a < b);
    }
}

#[test]
fn network_dispatches_between_variants() {
    assert_eq!(Network::MainNetwork.coin_type(), MainNetwork.coin_type());
    assert_eq!(Network::TestNetwork.coin_type(), TestNetwork.coin_type());
    assert_eq!(
        Network::MainNetwork.activation_height(NetworkUpgrade::Sapling),
        Some(BlockHeight::from_u32(419_200)),
    );
    assert_eq!(
        Network::TestNetwork.activation_height(NetworkUpgrade::Sapling),
        Some(BlockHeight::from_u32(280_000)),
    );
    assert_eq!(
        Network::MainNetwork.hrp_sapling_payment_address(),
        MainNetwork.hrp_sapling_payment_address(),
    );
    assert_eq!(
        Network::TestNetwork.b58_pubkey_address_prefix(),
        TestNetwork.b58_pubkey_address_prefix(),
    );
}

#[test]
fn height_conversions_range_check() {
    assert_eq!(
        BlockHeight::try_from_u64(12_345),
        Ok(BlockHeight::from_u32(12_345)),
    );
    assert_eq!(
        BlockHeight::try_from_u64(u64::from(u32::MAX) + 1),
        Err(HeightOutOfRange),
    );
    assert_eq!(BlockHeight::try_from_i32(-1), Err(HeightOutOfRange));
    assert_eq!(BlockHeight::try_from_i32(7), Ok(BlockHeight::from_u32(7)));
    assert_eq!(BlockHeight::try_from_i64(-1), Err(HeightOutOfRange));
    assert_eq!(
        BlockHeight::try_from_i64(i64::from(u32::MAX) + 1),
        Err(HeightOutOfRange),
    );
    assert_eq!(
        BlockHeight::try_from_i64(419_200),
        Ok(BlockHeight::from_u32(419_200)),
    );
    assert_eq!(BlockHeight::from_u32(570_000).to_u32(), 570_000);
    assert_eq!(BlockHeight::from_u32(570_000).to_u64(), 570_000);
    assert_eq!(BlockHeight::from_u32(570_000).to_i64(), 570_000);
}

#[test]
fn height_arithmetic() {
    let h = BlockHeight::from_u32(419_200);
    assert_eq!(h.add(ZIP212_GRACE_PERIOD), BlockHeight::from_u32(451_456));
    assert_eq!(h.sub(419_200), BlockHeight::from_u32(0));
    assert_eq!(h.add(1).sub(1), h);
}

#[test]
fn upgrade_names() {
    assert_eq!(NetworkUpgrade::Overwinter.name(), "Overwinter");
    assert_eq!(NetworkUpgrade::Canopy.name(), "Canopy");
}

#[test]
fn upgrade_branch_ids() {
    assert_eq!(NetworkUpgrade::Overwinter.branch_id(), BranchId::Overwinter);
    assert_eq!(NetworkUpgrade::Sapling.branch_id(), BranchId::Sapling);
    assert_eq!(NetworkUpgrade::Ycash.branch_id(), BranchId::Ycash);
    assert_eq!(NetworkUpgrade::Blossom.branch_id(), BranchId::Blossom);
    assert_eq!(NetworkUpgrade::Heartwood.branch_id(), BranchId::Heartwood);
    assert_eq!(NetworkUpgrade::Canopy.branch_id(), BranchId::Canopy);
}

#[test]
fn wire_identifiers_are_fixed() {
    assert_eq!(BranchId::Sprout.to_u32(), 0);
    assert_eq!(BranchId::Overwinter.to_u32(), 0x5ba8_1b19);
    assert_eq!(BranchId::Sapling.to_u32(), 0x76b8_09bb);
    assert_eq!(BranchId::Ycash.to_u32(), 0x374d_694f);
    assert_eq!(BranchId::Blossom.to_u32(), 0x2bb4_0e60);
    assert_eq!(BranchId::Heartwood.to_u32(), 0xf5b9_230b);
    assert_eq!(BranchId::Canopy.to_u32(), 0xe9ff_75a6);
}
