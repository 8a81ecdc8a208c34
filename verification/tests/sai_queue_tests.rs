use countersyncd::sai::SaiQueueStat;

#[test]
fn saiqueue_test_from_u32() {
    assert_eq!(
        SaiQueueStat::from_u32(0x00000000),
        Some(SaiQueueStat::Packets)
    );
    assert_eq!(
        SaiQueueStat::from_u32(0x00000001),
        Some(SaiQueueStat::Bytes)
    );
    assert_eq!(
        SaiQueueStat::from_u32(0x00000002),
        Some(SaiQueueStat::DroppedPackets)
    );
    assert_eq!(
        SaiQueueStat::from_u32(0x0000002e),
        Some(SaiQueueStat::TxTrimPackets)
    );
    assert_eq!(
        SaiQueueStat::from_u32(0x10000000),
        Some(SaiQueueStat::CustomRangeBase)
    );
    assert_eq!(SaiQueueStat::from_u32(0xFFFFFFFF), None);
}

#[test]
fn saiqueue_test_to_u32() {
    assert_eq!(SaiQueueStat::Packets.to_u32(), 0x00000000);
    assert_eq!(SaiQueueStat::Bytes.to_u32(), 0x00000001);
    assert_eq!(SaiQueueStat::DroppedPackets.to_u32(), 0x00000002);
    assert_eq!(SaiQueueStat::TxTrimPackets.to_u32(), 0x0000002e);
    assert_eq!(SaiQueueStat::CustomRangeBase.to_u32(), 0x10000000);
}

#[test]
fn saiqueue_test_string_conversion() {
    let stat = SaiQueueStat::CurrOccupancyBytes;
    let c_name = stat.to_c_name();
    assert_eq!(c_name, "SAI_QUEUE_STAT_CURR_OCCUPANCY_BYTES");

    let parsed: SaiQueueStat = c_name.parse().unwrap();
    assert_eq!(parsed, stat);

    assert_eq!(stat.to_c_name(), c_name);
}

#[test]
fn test_color_based_stats() {
    // Test green color stats
    assert_eq!(SaiQueueStat::GreenPackets.to_u32(), 0x00000004);
    assert_eq!(SaiQueueStat::GreenBytes.to_u32(), 0x00000005);
    assert_eq!(SaiQueueStat::GreenDroppedPackets.to_u32(), 0x00000006);

    // Test yellow color stats
    assert_eq!(SaiQueueStat::YellowPackets.to_u32(), 0x00000008);
    assert_eq!(SaiQueueStat::YellowDroppedBytes.to_u32(), 0x0000000b);

    // Test red color stats
    assert_eq!(SaiQueueStat::RedPackets.to_u32(), 0x0000000c);
    assert_eq!(SaiQueueStat::RedDroppedBytes.to_u32(), 0x0000000f);
}

#[test]
fn saiqueue_test_wred_stats() {
    // Test WRED drop stats
    assert_eq!(SaiQueueStat::GreenWredDroppedPackets.to_u32(), 0x00000010);
    assert_eq!(SaiQueueStat::YellowWredDroppedBytes.to_u32(), 0x00000013);
    assert_eq!(SaiQueueStat::RedWredDroppedPackets.to_u32(), 0x00000014);
    assert_eq!(SaiQueueStat::WredDroppedBytes.to_u32(), 0x00000017);

    // Test WRED ECN mark stats
    assert_eq!(SaiQueueStat::GreenWredEcnMarkedPackets.to_u32(), 0x0000001c);
    assert_eq!(SaiQueueStat::WredEcnMarkedBytes.to_u32(), 0x00000023);
}

#[test]
fn test_occupancy_stats() {
    // Test byte-based occupancy stats
    assert_eq!(SaiQueueStat::CurrOccupancyBytes.to_u32(), 0x00000018);
    assert_eq!(SaiQueueStat::WatermarkBytes.to_u32(), 0x00000019);
    assert_eq!(SaiQueueStat::SharedCurrOccupancyBytes.to_u32(), 0x0000001a);
    assert_eq!(SaiQueueStat::SharedWatermarkBytes.to_u32(), 0x0000001b);

    // Test cell-based occupancy stats
    assert_eq!(SaiQueueStat::CurrOccupancyCells.to_u32(), 0x00000029);
    assert_eq!(SaiQueueStat::WatermarkCells.to_u32(), 0x0000002a);
    assert_eq!(SaiQueueStat::SharedCurrOccupancyCells.to_u32(), 0x0000002b);
    assert_eq!(SaiQueueStat::SharedWatermarkCells.to_u32(), 0x0000002c);

    // Test occupancy level stats
    assert_eq!(SaiQueueStat::CurrOccupancyLevel.to_u32(), 0x00000024);
    assert_eq!(SaiQueueStat::WatermarkLevel.to_u32(), 0x00000025);
}

#[test]
fn test_special_stats() {
    // Test specialized queue statistics
    assert_eq!(SaiQueueStat::CreditWdDeletedPackets.to_u32(), 0x00000026);
    assert_eq!(SaiQueueStat::DelayWatermarkNs.to_u32(), 0x00000027);
    assert_eq!(SaiQueueStat::TrimPackets.to_u32(), 0x00000028);
    assert_eq!(SaiQueueStat::DroppedTrimPackets.to_u32(), 0x0000002d);
    assert_eq!(SaiQueueStat::TxTrimPackets.to_u32(), 0x0000002e);
}
