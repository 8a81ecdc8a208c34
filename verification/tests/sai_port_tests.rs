use countersyncd::sai::SaiPortStat;

#[test]
fn test_basic_conversion() {
    assert_eq!(SaiPortStat::IfInOctets.to_u32(), 0);
    assert_eq!(SaiPortStat::IfInUcastPkts.to_u32(), 1);
    assert_eq!(SaiPortStat::Pfc0RxPkts.to_u32(), 103);
    assert_eq!(SaiPortStat::End.to_u32(), 0x00002010);
}

#[test]
fn saiport_test_from_u32() {
    assert_eq!(SaiPortStat::from_u32(0), Some(SaiPortStat::IfInOctets));
    assert_eq!(SaiPortStat::from_u32(1), Some(SaiPortStat::IfInUcastPkts));
    assert_eq!(SaiPortStat::from_u32(103), Some(SaiPortStat::Pfc0RxPkts));
    assert_eq!(
        SaiPortStat::from_u32(0x00001000),
        Some(SaiPortStat::InConfiguredDropReasons0DroppedPkts)
    );
    assert_eq!(SaiPortStat::from_u32(0x00002010), Some(SaiPortStat::End));
    assert_eq!(SaiPortStat::from_u32(999999), None);
}

#[test]
fn saiport_test_string_conversion() {
    let stat = SaiPortStat::IfInOctets;
    assert_eq!(stat.to_c_name(), "SAI_PORT_STAT_IF_IN_OCTETS");
    assert_eq!(
        "SAI_PORT_STAT_IF_IN_OCTETS".parse::<SaiPortStat>().unwrap(),
        stat
    );

    let pfc_stat = SaiPortStat::Pfc0RxPkts;
    assert_eq!(pfc_stat.to_c_name(), "SAI_PORT_STAT_PFC_0_RX_PKTS");
    assert_eq!(
        "SAI_PORT_STAT_PFC_0_RX_PKTS"
            .parse::<SaiPortStat>()
            .unwrap(),
        pfc_stat
    );

    // Test that both START and IF_IN_OCTETS parse to the same enum value
    assert_eq!(
        "SAI_PORT_STAT_START".parse::<SaiPortStat>().unwrap(),
        SaiPortStat::IfInOctets
    );
}
