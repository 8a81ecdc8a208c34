use countersyncd::sai::{SaiBufferPoolStat, SaiIngressPriorityGroupStat};

#[test]
fn saibuffer_test_from_u32() {
    assert_eq!(
        SaiBufferPoolStat::from_u32(0x00000000),
        Some(SaiBufferPoolStat::CurrOccupancyBytes)
    );
    assert_eq!(
        SaiBufferPoolStat::from_u32(0x00000001),
        Some(SaiBufferPoolStat::WatermarkBytes)
    );
    assert_eq!(
        SaiBufferPoolStat::from_u32(0x00000018),
        Some(SaiBufferPoolStat::WatermarkCells)
    );
    assert_eq!(
        SaiBufferPoolStat::from_u32(0x10000000),
        Some(SaiBufferPoolStat::CustomRangeBase)
    );
    assert_eq!(SaiBufferPoolStat::from_u32(0xFFFFFFFF), None);
}

#[test]
fn saibuffer_test_to_u32() {
    assert_eq!(SaiBufferPoolStat::CurrOccupancyBytes.to_u32(), 0x00000000);
    assert_eq!(SaiBufferPoolStat::WatermarkBytes.to_u32(), 0x00000001);
    assert_eq!(SaiBufferPoolStat::WatermarkCells.to_u32(), 0x00000018);
    assert_eq!(SaiBufferPoolStat::CustomRangeBase.to_u32(), 0x10000000);
}

#[test]
fn saibuffer_test_string_conversion() {
    let stat = SaiBufferPoolStat::CurrOccupancyBytes;
    let c_name = stat.to_c_name();
    assert_eq!(c_name, "SAI_BUFFER_POOL_STAT_CURR_OCCUPANCY_BYTES");

    let parsed: SaiBufferPoolStat = c_name.parse().unwrap();
    assert_eq!(parsed, stat);

    assert_eq!(stat.to_c_name(), c_name);
}

#[test]
fn saibuffer_test_wred_stats() {
    // Test WRED drop stats
    assert_eq!(
        SaiBufferPoolStat::GreenWredDroppedPackets.to_u32(),
        0x00000003
    );
    assert_eq!(
        SaiBufferPoolStat::YellowWredDroppedBytes.to_u32(),
        0x00000006
    );
    assert_eq!(
        SaiBufferPoolStat::RedWredDroppedPackets.to_u32(),
        0x00000007
    );

    // Test WRED ECN mark stats
    assert_eq!(
        SaiBufferPoolStat::GreenWredEcnMarkedPackets.to_u32(),
        0x0000000b
    );
    assert_eq!(SaiBufferPoolStat::WredEcnMarkedBytes.to_u32(), 0x00000012);
}

#[test]
fn test_xoff_room_stats() {
    assert_eq!(
        SaiBufferPoolStat::XoffRoomCurrOccupancyBytes.to_u32(),
        0x00000013
    );
    assert_eq!(
        SaiBufferPoolStat::XoffRoomWatermarkCells.to_u32(),
        0x00000016
    );
}

#[test]
fn test_ipg_from_u32() {
    assert_eq!(
        SaiIngressPriorityGroupStat::from_u32(0x00000000),
        Some(SaiIngressPriorityGroupStat::Packets)
    );
    assert_eq!(
        SaiIngressPriorityGroupStat::from_u32(0x00000001),
        Some(SaiIngressPriorityGroupStat::Bytes)
    );
    assert_eq!(
        SaiIngressPriorityGroupStat::from_u32(0x00000008),
        Some(SaiIngressPriorityGroupStat::DroppedPackets)
    );
    assert_eq!(
        SaiIngressPriorityGroupStat::from_u32(0x0000000e),
        Some(SaiIngressPriorityGroupStat::XoffRoomWatermarkCells)
    );
    assert_eq!(
        SaiIngressPriorityGroupStat::from_u32(0x10000000),
        Some(SaiIngressPriorityGroupStat::CustomRangeBase)
    );
    assert_eq!(SaiIngressPriorityGroupStat::from_u32(0xFFFFFFFF), None);
}

#[test]
fn test_ipg_to_u32() {
    assert_eq!(SaiIngressPriorityGroupStat::Packets.to_u32(), 0x00000000);
    assert_eq!(SaiIngressPriorityGroupStat::Bytes.to_u32(), 0x00000001);
    assert_eq!(
        SaiIngressPriorityGroupStat::DroppedPackets.to_u32(),
        0x00000008
    );
    assert_eq!(
        SaiIngressPriorityGroupStat::XoffRoomWatermarkCells.to_u32(),
        0x0000000e
    );
    assert_eq!(
        SaiIngressPriorityGroupStat::CustomRangeBase.to_u32(),
        0x10000000
    );
}

#[test]
fn test_ipg_string_conversion() {
    let stat = SaiIngressPriorityGroupStat::CurrOccupancyBytes;
    let c_name = stat.to_c_name();
    assert_eq!(
        c_name,
        "SAI_INGRESS_PRIORITY_GROUP_STAT_CURR_OCCUPANCY_BYTES"
    );

    let parsed: SaiIngressPriorityGroupStat = c_name.parse().unwrap();
    assert_eq!(parsed, stat);

    assert_eq!(stat.to_c_name(), c_name);
}

#[test]
fn test_ipg_occupancy_stats() {
    // Test byte-based occupancy stats
    assert_eq!(
        SaiIngressPriorityGroupStat::CurrOccupancyBytes.to_u32(),
        0x00000002
    );
    assert_eq!(
        SaiIngressPriorityGroupStat::WatermarkBytes.to_u32(),
        0x00000003
    );
    assert_eq!(
        SaiIngressPriorityGroupStat::SharedCurrOccupancyBytes.to_u32(),
        0x00000004
    );
    assert_eq!(
        SaiIngressPriorityGroupStat::SharedWatermarkBytes.to_u32(),
        0x00000005
    );

    // Test cell-based occupancy stats
    assert_eq!(
        SaiIngressPriorityGroupStat::CurrOccupancyCells.to_u32(),
        0x00000009
    );
    assert_eq!(
        SaiIngressPriorityGroupStat::WatermarkCells.to_u32(),
        0x0000000a
    );
    assert_eq!(
        SaiIngressPriorityGroupStat::SharedCurrOccupancyCells.to_u32(),
        0x0000000b
    );
    assert_eq!(
        SaiIngressPriorityGroupStat::SharedWatermarkCells.to_u32(),
        0x0000000c
    );
}

#[test]
fn test_ipg_xoff_room_stats() {
    // Test XOFF room byte stats
    assert_eq!(
        SaiIngressPriorityGroupStat::XoffRoomCurrOccupancyBytes.to_u32(),
        0x00000006
    );
    assert_eq!(
        SaiIngressPriorityGroupStat::XoffRoomWatermarkBytes.to_u32(),
        0x00000007
    );

    // Test XOFF room cell stats
    assert_eq!(
        SaiIngressPriorityGroupStat::XoffRoomCurrOccupancyCells.to_u32(),
        0x0000000d
    );
    assert_eq!(
        SaiIngressPriorityGroupStat::XoffRoomWatermarkCells.to_u32(),
        0x0000000e
    );
}
