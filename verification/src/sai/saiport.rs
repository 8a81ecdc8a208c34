//! SAI port statistics.
use vstd::prelude::*;
use std::str::FromStr;
use crate::text::str_eq;

verus! {

/// SAI port statistics
/// (the statistics of `sai_port_stat_t`).
#[derive(Debug, Clone, Copy, PartialEq, Eq, Hash, Structural)]
pub enum SaiPortStat {
    IfInOctets,
    IfInUcastPkts,
    IfInNonUcastPkts,
    IfInDiscards,
    IfInErrors,
    IfInUnknownProtos,
    IfInBroadcastPkts,
    IfInMulticastPkts,
    IfInVlanDiscards,
    IfOutOctets,
    IfOutUcastPkts,
    IfOutNonUcastPkts,
    IfOutDiscards,
    IfOutErrors,
    IfOutQlen,
    IfOutBroadcastPkts,
    IfOutMulticastPkts,
    EtherStatsDropEvents,
    EtherStatsMulticastPkts,
    EtherStatsBroadcastPkts,
    EtherStatsUndersizePkts,
    EtherStatsFragments,
    EtherStatsPkts64Octets,
    EtherStatsPkts65To127Octets,
    EtherStatsPkts128To255Octets,
    EtherStatsPkts256To511Octets,
    EtherStatsPkts512To1023Octets,
    EtherStatsPkts1024To1518Octets,
    EtherStatsPkts1519To2047Octets,
    EtherStatsPkts2048To4095Octets,
    EtherStatsPkts4096To9216Octets,
    EtherStatsPkts9217To16383Octets,
    EtherStatsOversizePkts,
    EtherRxOversizePkts,
    EtherTxOversizePkts,
    EtherStatsJabbers,
    EtherStatsOctets,
    EtherStatsPkts,
    EtherStatsCollisions,
    EtherStatsCrcAlignErrors,
    EtherStatsTxNoErrors,
    EtherStatsRxNoErrors,
    IpInReceives,
    IpInOctets,
    IpInUcastPkts,
    IpInNonUcastPkts,
    IpInDiscards,
    IpOutOctets,
    IpOutUcastPkts,
    IpOutNonUcastPkts,
    IpOutDiscards,
    Ipv6InReceives,
    Ipv6InOctets,
    Ipv6InUcastPkts,
    Ipv6InNonUcastPkts,
    Ipv6InMcastPkts,
    Ipv6InDiscards,
    Ipv6OutOctets,
    Ipv6OutUcastPkts,
    Ipv6OutNonUcastPkts,
    Ipv6OutMcastPkts,
    Ipv6OutDiscards,
    GreenWredDroppedPackets,
    GreenWredDroppedBytes,
    YellowWredDroppedPackets,
    YellowWredDroppedBytes,
    RedWredDroppedPackets,
    RedWredDroppedBytes,
    WredDroppedPackets,
    WredDroppedBytes,
    EcnMarkedPackets,
    EtherInPkts64Octets,
    EtherInPkts65To127Octets,
    EtherInPkts128To255Octets,
    EtherInPkts256To511Octets,
    EtherInPkts512To1023Octets,
    EtherInPkts1024To1518Octets,
    EtherInPkts1519To2047Octets,
    EtherInPkts2048To4095Octets,
    EtherInPkts4096To9216Octets,
    EtherInPkts9217To16383Octets,
    EtherOutPkts64Octets,
    EtherOutPkts65To127Octets,
    EtherOutPkts128To255Octets,
    EtherOutPkts256To511Octets,
    EtherOutPkts512To1023Octets,
    EtherOutPkts1024To1518Octets,
    EtherOutPkts1519To2047Octets,
    EtherOutPkts2048To4095Octets,
    EtherOutPkts4096To9216Octets,
    EtherOutPkts9217To16383Octets,
    InCurrOccupancyBytes,
    InWatermarkBytes,
    InSharedCurrOccupancyBytes,
    InSharedWatermarkBytes,
    OutCurrOccupancyBytes,
    OutWatermarkBytes,
    OutSharedCurrOccupancyBytes,
    OutSharedWatermarkBytes,
    InDroppedPkts,
    OutDroppedPkts,
    PauseRxPkts,
    PauseTxPkts,
    Pfc0RxPkts,
    Pfc0TxPkts,
    Pfc1RxPkts,
    Pfc1TxPkts,
    Pfc2RxPkts,
    Pfc2TxPkts,
    Pfc3RxPkts,
    Pfc3TxPkts,
    Pfc4RxPkts,
    Pfc4TxPkts,
    Pfc5RxPkts,
    Pfc5TxPkts,
    Pfc6RxPkts,
    Pfc6TxPkts,
    Pfc7RxPkts,
    Pfc7TxPkts,
    Pfc0RxPauseDuration,
    Pfc0TxPauseDuration,
    Pfc1RxPauseDuration,
    Pfc1TxPauseDuration,
    Pfc2RxPauseDuration,
    Pfc2TxPauseDuration,
    Pfc3RxPauseDuration,
    Pfc3TxPauseDuration,
    Pfc4RxPauseDuration,
    Pfc4TxPauseDuration,
    Pfc5RxPauseDuration,
    Pfc5TxPauseDuration,
    Pfc6RxPauseDuration,
    Pfc6TxPauseDuration,
    Pfc7RxPauseDuration,
    Pfc7TxPauseDuration,
    Pfc0RxPauseDurationUs,
    Pfc0TxPauseDurationUs,
    Pfc1RxPauseDurationUs,
    Pfc1TxPauseDurationUs,
    Pfc2RxPauseDurationUs,
    Pfc2TxPauseDurationUs,
    Pfc3RxPauseDurationUs,
    Pfc3TxPauseDurationUs,
    Pfc4RxPauseDurationUs,
    Pfc4TxPauseDurationUs,
    Pfc5RxPauseDurationUs,
    Pfc5TxPauseDurationUs,
    Pfc6RxPauseDurationUs,
    Pfc6TxPauseDurationUs,
    Pfc7RxPauseDurationUs,
    Pfc7TxPauseDurationUs,
    Pfc0On2OffRxPkts,
    Pfc1On2OffRxPkts,
    Pfc2On2OffRxPkts,
    Pfc3On2OffRxPkts,
    Pfc4On2OffRxPkts,
    Pfc5On2OffRxPkts,
    Pfc6On2OffRxPkts,
    Pfc7On2OffRxPkts,
    Dot3StatsAlignmentErrors,
    Dot3StatsFcsErrors,
    Dot3StatsSingleCollisionFrames,
    Dot3StatsMultipleCollisionFrames,
    Dot3StatsSqeTestErrors,
    Dot3StatsDeferredTransmissions,
    Dot3StatsLateCollisions,
    Dot3StatsExcessiveCollisions,
    Dot3StatsInternalMacTransmitErrors,
    Dot3StatsCarrierSenseErrors,
    Dot3StatsFrameTooLongs,
    Dot3StatsInternalMacReceiveErrors,
    Dot3StatsSymbolErrors,
    Dot3ControlInUnknownOpcodes,
    EeeTxEventCount,
    EeeRxEventCount,
    EeeTxDuration,
    EeeRxDuration,
    PrbsErrorCount,
    IfInFecCorrectableFrames,
    IfInFecNotCorrectableFrames,
    IfInFecSymbolErrors,
    IfInFabricDataUnits,
    IfOutFabricDataUnits,
    IfInFecCodewordErrorsS0,
    IfInFecCodewordErrorsS1,
    IfInFecCodewordErrorsS2,
    IfInFecCodewordErrorsS3,
    IfInFecCodewordErrorsS4,
    IfInFecCodewordErrorsS5,
    IfInFecCodewordErrorsS6,
    IfInFecCodewordErrorsS7,
    IfInFecCodewordErrorsS8,
    IfInFecCodewordErrorsS9,
    IfInFecCodewordErrorsS10,
    IfInFecCodewordErrorsS11,
    IfInFecCodewordErrorsS12,
    IfInFecCodewordErrorsS13,
    IfInFecCodewordErrorsS14,
    IfInFecCodewordErrorsS15,
    IfInFecCodewordErrorsS16,
    IfInFecCorrectedBits,
    TrimPackets,
    DroppedTrimPackets,
    TxTrimPackets,
    InConfiguredDropReasons0DroppedPkts,
    InConfiguredDropReasons1DroppedPkts,
    InConfiguredDropReasons2DroppedPkts,
    InConfiguredDropReasons3DroppedPkts,
    InConfiguredDropReasons4DroppedPkts,
    InConfiguredDropReasons5DroppedPkts,
    InConfiguredDropReasons6DroppedPkts,
    InConfiguredDropReasons7DroppedPkts,
    InConfiguredDropReasons8DroppedPkts,
    InConfiguredDropReasons9DroppedPkts,
    InConfiguredDropReasons10DroppedPkts,
    InConfiguredDropReasons11DroppedPkts,
    InConfiguredDropReasons12DroppedPkts,
    InConfiguredDropReasons13DroppedPkts,
    InConfiguredDropReasons14DroppedPkts,
    InConfiguredDropReasons15DroppedPkts,
    OutConfiguredDropReasons0DroppedPkts,
    OutConfiguredDropReasons1DroppedPkts,
    OutConfiguredDropReasons2DroppedPkts,
    OutConfiguredDropReasons3DroppedPkts,
    OutConfiguredDropReasons4DroppedPkts,
    OutConfiguredDropReasons5DroppedPkts,
    OutConfiguredDropReasons6DroppedPkts,
    OutConfiguredDropReasons7DroppedPkts,
    IfInHwProtectionSwitchoverEvents,
    IfInHwProtectionSwitchoverDropPkts,
    EtherInPkts1519To2500Octets,
    EtherInPkts2501To9000Octets,
    EtherInPkts9001To16383Octets,
    EtherOutPkts1519To2500Octets,
    EtherOutPkts2501To9000Octets,
    EtherOutPkts9001To16383Octets,
    End,
}

impl SaiPortStat {
    /// Number of statistics in the table.
    pub const COUNT: usize = 237;

    /// Value of this statistic in the C enum.
    pub open spec fn spec_to_u32(self) -> u32 {
        match self {
            Self::IfInOctets => 0u32,
            Self::IfInUcastPkts => 1u32,
            Self::IfInNonUcastPkts => 2u32,
            Self::IfInDiscards => 3u32,
            Self::IfInErrors => 4u32,
            Self::IfInUnknownProtos => 5u32,
            Self::IfInBroadcastPkts => 6u32,
            Self::IfInMulticastPkts => 7u32,
            Self::IfInVlanDiscards => 8u32,
            Self::IfOutOctets => 9u32,
            Self::IfOutUcastPkts => 10u32,
            Self::IfOutNonUcastPkts => 11u32,
            Self::IfOutDiscards => 12u32,
            Self::IfOutErrors => 13u32,
            Self::IfOutQlen => 14u32,
            Self::IfOutBroadcastPkts => 15u32,
            Self::IfOutMulticastPkts => 16u32,
            Self::EtherStatsDropEvents => 17u32,
            Self::EtherStatsMulticastPkts => 18u32,
            Self::EtherStatsBroadcastPkts => 19u32,
            Self::EtherStatsUndersizePkts => 20u32,
            Self::EtherStatsFragments => 21u32,
            Self::EtherStatsPkts64Octets => 22u32,
            Self::EtherStatsPkts65To127Octets => 23u32,
            Self::EtherStatsPkts128To255Octets => 24u32,
            Self::EtherStatsPkts256To511Octets => 25u32,
            Self::EtherStatsPkts512To1023Octets => 26u32,
            Self::EtherStatsPkts1024To1518Octets => 27u32,
            Self::EtherStatsPkts1519To2047Octets => 28u32,
            Self::EtherStatsPkts2048To4095Octets => 29u32,
            Self::EtherStatsPkts4096To9216Octets => 30u32,
            Self::EtherStatsPkts9217To16383Octets => 31u32,
            Self::EtherStatsOversizePkts => 32u32,
            Self::EtherRxOversizePkts => 33u32,
            Self::EtherTxOversizePkts => 34u32,
            Self::EtherStatsJabbers => 35u32,
            Self::EtherStatsOctets => 36u32,
            Self::EtherStatsPkts => 37u32,
            Self::EtherStatsCollisions => 38u32,
            Self::EtherStatsCrcAlignErrors => 39u32,
            Self::EtherStatsTxNoErrors => 40u32,
            Self::EtherStatsRxNoErrors => 41u32,
            Self::IpInReceives => 42u32,
            Self::IpInOctets => 43u32,
            Self::IpInUcastPkts => 44u32,
            Self::IpInNonUcastPkts => 45u32,
            Self::IpInDiscards => 46u32,
            Self::IpOutOctets => 47u32,
            Self::IpOutUcastPkts => 48u32,
            Self::IpOutNonUcastPkts => 49u32,
            Self::IpOutDiscards => 50u32,
            Self::Ipv6InReceives => 51u32,
            Self::Ipv6InOctets => 52u32,
            Self::Ipv6InUcastPkts => 53u32,
            Self::Ipv6InNonUcastPkts => 54u32,
            Self::Ipv6InMcastPkts => 55u32,
            Self::Ipv6InDiscards => 56u32,
            Self::Ipv6OutOctets => 57u32,
            Self::Ipv6OutUcastPkts => 58u32,
            Self::Ipv6OutNonUcastPkts => 59u32,
            Self::Ipv6OutMcastPkts => 60u32,
            Self::Ipv6OutDiscards => 61u32,
            Self::GreenWredDroppedPackets => 62u32,
            Self::GreenWredDroppedBytes => 63u32,
            Self::YellowWredDroppedPackets => 64u32,
            Self::YellowWredDroppedBytes => 65u32,
            Self::RedWredDroppedPackets => 66u32,
            Self::RedWredDroppedBytes => 67u32,
            Self::WredDroppedPackets => 68u32,
            Self::WredDroppedBytes => 69u32,
            Self::EcnMarkedPackets => 70u32,
            Self::EtherInPkts64Octets => 71u32,
            Self::EtherInPkts65To127Octets => 72u32,
            Self::EtherInPkts128To255Octets => 73u32,
            Self::EtherInPkts256To511Octets => 74u32,
            Self::EtherInPkts512To1023Octets => 75u32,
            Self::EtherInPkts1024To1518Octets => 76u32,
            Self::EtherInPkts1519To2047Octets => 77u32,
            Self::EtherInPkts2048To4095Octets => 78u32,
            Self::EtherInPkts4096To9216Octets => 79u32,
            Self::EtherInPkts9217To16383Octets => 80u32,
            Self::EtherOutPkts64Octets => 81u32,
            Self::EtherOutPkts65To127Octets => 82u32,
            Self::EtherOutPkts128To255Octets => 83u32,
            Self::EtherOutPkts256To511Octets => 84u32,
            Self::EtherOutPkts512To1023Octets => 85u32,
            Self::EtherOutPkts1024To1518Octets => 86u32,
            Self::EtherOutPkts1519To2047Octets => 87u32,
            Self::EtherOutPkts2048To4095Octets => 88u32,
            Self::EtherOutPkts4096To9216Octets => 89u32,
            Self::EtherOutPkts9217To16383Octets => 90u32,
            Self::InCurrOccupancyBytes => 91u32,
            Self::InWatermarkBytes => 92u32,
            Self::InSharedCurrOccupancyBytes => 93u32,
            Self::InSharedWatermarkBytes => 94u32,
            Self::OutCurrOccupancyBytes => 95u32,
            Self::OutWatermarkBytes => 96u32,
            Self::OutSharedCurrOccupancyBytes => 97u32,
            Self::OutSharedWatermarkBytes => 98u32,
            Self::InDroppedPkts => 99u32,
            Self::OutDroppedPkts => 100u32,
            Self::PauseRxPkts => 101u32,
            Self::PauseTxPkts => 102u32,
            Self::Pfc0RxPkts => 103u32,
            Self::Pfc0TxPkts => 104u32,
            Self::Pfc1RxPkts => 105u32,
            Self::Pfc1TxPkts => 106u32,
            Self::Pfc2RxPkts => 107u32,
            Self::Pfc2TxPkts => 108u32,
            Self::Pfc3RxPkts => 109u32,
            Self::Pfc3TxPkts => 110u32,
            Self::Pfc4RxPkts => 111u32,
            Self::Pfc4TxPkts => 112u32,
            Self::Pfc5RxPkts => 113u32,
            Self::Pfc5TxPkts => 114u32,
            Self::Pfc6RxPkts => 115u32,
            Self::Pfc6TxPkts => 116u32,
            Self::Pfc7RxPkts => 117u32,
            Self::Pfc7TxPkts => 118u32,
            Self::Pfc0RxPauseDuration => 119u32,
            Self::Pfc0TxPauseDuration => 120u32,
            Self::Pfc1RxPauseDuration => 121u32,
            Self::Pfc1TxPauseDuration => 122u32,
            Self::Pfc2RxPauseDuration => 123u32,
            Self::Pfc2TxPauseDuration => 124u32,
            Self::Pfc3RxPauseDuration => 125u32,
            Self::Pfc3TxPauseDuration => 126u32,
            Self::Pfc4RxPauseDuration => 127u32,
            Self::Pfc4TxPauseDuration => 128u32,
            Self::Pfc5RxPauseDuration => 129u32,
            Self::Pfc5TxPauseDuration => 130u32,
            Self::Pfc6RxPauseDuration => 131u32,
            Self::Pfc6TxPauseDuration => 132u32,
            Self::Pfc7RxPauseDuration => 133u32,
            Self::Pfc7TxPauseDuration => 134u32,
            Self::Pfc0RxPauseDurationUs => 135u32,
            Self::Pfc0TxPauseDurationUs => 136u32,
            Self::Pfc1RxPauseDurationUs => 137u32,
            Self::Pfc1TxPauseDurationUs => 138u32,
            Self::Pfc2RxPauseDurationUs => 139u32,
            Self::Pfc2TxPauseDurationUs => 140u32,
            Self::Pfc3RxPauseDurationUs => 141u32,
            Self::Pfc3TxPauseDurationUs => 142u32,
            Self::Pfc4RxPauseDurationUs => 143u32,
            Self::Pfc4TxPauseDurationUs => 144u32,
            Self::Pfc5RxPauseDurationUs => 145u32,
            Self::Pfc5TxPauseDurationUs => 146u32,
            Self::Pfc6RxPauseDurationUs => 147u32,
            Self::Pfc6TxPauseDurationUs => 148u32,
            Self::Pfc7RxPauseDurationUs => 149u32,
            Self::Pfc7TxPauseDurationUs => 150u32,
            Self::Pfc0On2OffRxPkts => 151u32,
            Self::Pfc1On2OffRxPkts => 152u32,
            Self::Pfc2On2OffRxPkts => 153u32,
            Self::Pfc3On2OffRxPkts => 154u32,
            Self::Pfc4On2OffRxPkts => 155u32,
            Self::Pfc5On2OffRxPkts => 156u32,
            Self::Pfc6On2OffRxPkts => 157u32,
            Self::Pfc7On2OffRxPkts => 158u32,
            Self::Dot3StatsAlignmentErrors => 159u32,
            Self::Dot3StatsFcsErrors => 160u32,
            Self::Dot3StatsSingleCollisionFrames => 161u32,
            Self::Dot3StatsMultipleCollisionFrames => 162u32,
            Self::Dot3StatsSqeTestErrors => 163u32,
            Self::Dot3StatsDeferredTransmissions => 164u32,
            Self::Dot3StatsLateCollisions => 165u32,
            Self::Dot3StatsExcessiveCollisions => 166u32,
            Self::Dot3StatsInternalMacTransmitErrors => 167u32,
            Self::Dot3StatsCarrierSenseErrors => 168u32,
            Self::Dot3StatsFrameTooLongs => 169u32,
            Self::Dot3StatsInternalMacReceiveErrors => 170u32,
            Self::Dot3StatsSymbolErrors => 171u32,
            Self::Dot3ControlInUnknownOpcodes => 172u32,
            Self::EeeTxEventCount => 173u32,
            Self::EeeRxEventCount => 174u32,
            Self::EeeTxDuration => 175u32,
            Self::EeeRxDuration => 176u32,
            Self::PrbsErrorCount => 177u32,
            Self::IfInFecCorrectableFrames => 178u32,
            Self::IfInFecNotCorrectableFrames => 179u32,
            Self::IfInFecSymbolErrors => 180u32,
            Self::IfInFabricDataUnits => 181u32,
            Self::IfOutFabricDataUnits => 182u32,
            Self::IfInFecCodewordErrorsS0 => 183u32,
            Self::IfInFecCodewordErrorsS1 => 184u32,
            Self::IfInFecCodewordErrorsS2 => 185u32,
            Self::IfInFecCodewordErrorsS3 => 186u32,
            Self::IfInFecCodewordErrorsS4 => 187u32,
            Self::IfInFecCodewordErrorsS5 => 188u32,
            Self::IfInFecCodewordErrorsS6 => 189u32,
            Self::IfInFecCodewordErrorsS7 => 190u32,
            Self::IfInFecCodewordErrorsS8 => 191u32,
            Self::IfInFecCodewordErrorsS9 => 192u32,
            Self::IfInFecCodewordErrorsS10 => 193u32,
            Self::IfInFecCodewordErrorsS11 => 194u32,
            Self::IfInFecCodewordErrorsS12 => 195u32,
            Self::IfInFecCodewordErrorsS13 => 196u32,
            Self::IfInFecCodewordErrorsS14 => 197u32,
            Self::IfInFecCodewordErrorsS15 => 198u32,
            Self::IfInFecCodewordErrorsS16 => 199u32,
            Self::IfInFecCorrectedBits => 200u32,
            Self::TrimPackets => 201u32,
            Self::DroppedTrimPackets => 202u32,
            Self::TxTrimPackets => 203u32,
            Self::InConfiguredDropReasons0DroppedPkts => 0x00001000u32,
            Self::InConfiguredDropReasons1DroppedPkts => 0x00001001u32,
            Self::InConfiguredDropReasons2DroppedPkts => 0x00001002u32,
            Self::InConfiguredDropReasons3DroppedPkts => 0x00001003u32,
            Self::InConfiguredDropReasons4DroppedPkts => 0x00001004u32,
            Self::InConfiguredDropReasons5DroppedPkts => 0x00001005u32,
            Self::InConfiguredDropReasons6DroppedPkts => 0x00001006u32,
            Self::InConfiguredDropReasons7DroppedPkts => 0x00001007u32,
            Self::InConfiguredDropReasons8DroppedPkts => 0x00001008u32,
            Self::InConfiguredDropReasons9DroppedPkts => 0x00001009u32,
            Self::InConfiguredDropReasons10DroppedPkts => 0x0000100au32,
            Self::InConfiguredDropReasons11DroppedPkts => 0x0000100bu32,
            Self::InConfiguredDropReasons12DroppedPkts => 0x0000100cu32,
            Self::InConfiguredDropReasons13DroppedPkts => 0x0000100du32,
            Self::InConfiguredDropReasons14DroppedPkts => 0x0000100eu32,
            Self::InConfiguredDropReasons15DroppedPkts => 0x0000100fu32,
            Self::OutConfiguredDropReasons0DroppedPkts => 0x00002000u32,
            Self::OutConfiguredDropReasons1DroppedPkts => 0x00002001u32,
            Self::OutConfiguredDropReasons2DroppedPkts => 0x00002002u32,
            Self::OutConfiguredDropReasons3DroppedPkts => 0x00002003u32,
            Self::OutConfiguredDropReasons4DroppedPkts => 0x00002004u32,
            Self::OutConfiguredDropReasons5DroppedPkts => 0x00002005u32,
            Self::OutConfiguredDropReasons6DroppedPkts => 0x00002006u32,
            Self::OutConfiguredDropReasons7DroppedPkts => 0x00002007u32,
            Self::IfInHwProtectionSwitchoverEvents => 0x00002008u32,
            Self::IfInHwProtectionSwitchoverDropPkts => 0x00002009u32,
            Self::EtherInPkts1519To2500Octets => 0x0000200au32,
            Self::EtherInPkts2501To9000Octets => 0x0000200bu32,
            Self::EtherInPkts9001To16383Octets => 0x0000200cu32,
            Self::EtherOutPkts1519To2500Octets => 0x0000200du32,
            Self::EtherOutPkts2501To9000Octets => 0x0000200eu32,
            Self::EtherOutPkts9001To16383Octets => 0x0000200fu32,
            Self::End => 0x00002010u32,
        }
    }

    /// Statistic with value `value` in the C enum, if any.
    pub open spec fn spec_from_u32(value: u32) -> Option<Self> {
        match value {
            0u32 => Some(Self::IfInOctets),
            1u32 => Some(Self::IfInUcastPkts),
            2u32 => Some(Self::IfInNonUcastPkts),
            3u32 => Some(Self::IfInDiscards),
            4u32 => Some(Self::IfInErrors),
            5u32 => Some(Self::IfInUnknownProtos),
            6u32 => Some(Self::IfInBroadcastPkts),
            7u32 => Some(Self::IfInMulticastPkts),
            8u32 => Some(Self::IfInVlanDiscards),
            9u32 => Some(Self::IfOutOctets),
            10u32 => Some(Self::IfOutUcastPkts),
            11u32 => Some(Self::IfOutNonUcastPkts),
            12u32 => Some(Self::IfOutDiscards),
            13u32 => Some(Self::IfOutErrors),
            14u32 => Some(Self::IfOutQlen),
            15u32 => Some(Self::IfOutBroadcastPkts),
            16u32 => Some(Self::IfOutMulticastPkts),
            17u32 => Some(Self::EtherStatsDropEvents),
            18u32 => Some(Self::EtherStatsMulticastPkts),
            19u32 => Some(Self::EtherStatsBroadcastPkts),
            20u32 => Some(Self::EtherStatsUndersizePkts),
            21u32 => Some(Self::EtherStatsFragments),
            22u32 => Some(Self::EtherStatsPkts64Octets),
            23u32 => Some(Self::EtherStatsPkts65To127Octets),
            24u32 => Some(Self::EtherStatsPkts128To255Octets),
            25u32 => Some(Self::EtherStatsPkts256To511Octets),
            26u32 => Some(Self::EtherStatsPkts512To1023Octets),
            27u32 => Some(Self::EtherStatsPkts1024To1518Octets),
            28u32 => Some(Self::EtherStatsPkts1519To2047Octets),
            29u32 => Some(Self::EtherStatsPkts2048To4095Octets),
            30u32 => Some(Self::EtherStatsPkts4096To9216Octets),
            31u32 => Some(Self::EtherStatsPkts9217To16383Octets),
            32u32 => Some(Self::EtherStatsOversizePkts),
            33u32 => Some(Self::EtherRxOversizePkts),
            34u32 => Some(Self::EtherTxOversizePkts),
            35u32 => Some(Self::EtherStatsJabbers),
            36u32 => Some(Self::EtherStatsOctets),
            37u32 => Some(Self::EtherStatsPkts),
            38u32 => Some(Self::EtherStatsCollisions),
            39u32 => Some(Self::EtherStatsCrcAlignErrors),
            40u32 => Some(Self::EtherStatsTxNoErrors),
            41u32 => Some(Self::EtherStatsRxNoErrors),
            42u32 => Some(Self::IpInReceives),
            43u32 => Some(Self::IpInOctets),
            44u32 => Some(Self::IpInUcastPkts),
            45u32 => Some(Self::IpInNonUcastPkts),
            46u32 => Some(Self::IpInDiscards),
            47u32 => Some(Self::IpOutOctets),
            48u32 => Some(Self::IpOutUcastPkts),
            49u32 => Some(Self::IpOutNonUcastPkts),
            50u32 => Some(Self::IpOutDiscards),
            51u32 => Some(Self::Ipv6InReceives),
            52u32 => Some(Self::Ipv6InOctets),
            53u32 => Some(Self::Ipv6InUcastPkts),
            54u32 => Some(Self::Ipv6InNonUcastPkts),
            55u32 => Some(Self::Ipv6InMcastPkts),
            56u32 => Some(Self::Ipv6InDiscards),
            57u32 => Some(Self::Ipv6OutOctets),
            58u32 => Some(Self::Ipv6OutUcastPkts),
            59u32 => Some(Self::Ipv6OutNonUcastPkts),
            60u32 => Some(Self::Ipv6OutMcastPkts),
            61u32 => Some(Self::Ipv6OutDiscards),
            62u32 => Some(Self::GreenWredDroppedPackets),
            63u32 => Some(Self::GreenWredDroppedBytes),
            64u32 => Some(Self::YellowWredDroppedPackets),
            65u32 => Some(Self::YellowWredDroppedBytes),
            66u32 => Some(Self::RedWredDroppedPackets),
            67u32 => Some(Self::RedWredDroppedBytes),
            68u32 => Some(Self::WredDroppedPackets),
            69u32 => Some(Self::WredDroppedBytes),
            70u32 => Some(Self::EcnMarkedPackets),
            71u32 => Some(Self::EtherInPkts64Octets),
            72u32 => Some(Self::EtherInPkts65To127Octets),
            73u32 => Some(Self::EtherInPkts128To255Octets),
            74u32 => Some(Self::EtherInPkts256To511Octets),
            75u32 => Some(Self::EtherInPkts512To1023Octets),
            76u32 => Some(Self::EtherInPkts1024To1518Octets),
            77u32 => Some(Self::EtherInPkts1519To2047Octets),
            78u32 => Some(Self::EtherInPkts2048To4095Octets),
            79u32 => Some(Self::EtherInPkts4096To9216Octets),
            80u32 => Some(Self::EtherInPkts9217To16383Octets),
            81u32 => Some(Self::EtherOutPkts64Octets),
            82u32 => Some(Self::EtherOutPkts65To127Octets),
            83u32 => Some(Self::EtherOutPkts128To255Octets),
            84u32 => Some(Self::EtherOutPkts256To511Octets),
            85u32 => Some(Self::EtherOutPkts512To1023Octets),
            86u32 => Some(Self::EtherOutPkts1024To1518Octets),
            87u32 => Some(Self::EtherOutPkts1519To2047Octets),
            88u32 => Some(Self::EtherOutPkts2048To4095Octets),
            89u32 => Some(Self::EtherOutPkts4096To9216Octets),
            90u32 => Some(Self::EtherOutPkts9217To16383Octets),
            91u32 => Some(Self::InCurrOccupancyBytes),
            92u32 => Some(Self::InWatermarkBytes),
            93u32 => Some(Self::InSharedCurrOccupancyBytes),
            94u32 => Some(Self::InSharedWatermarkBytes),
            95u32 => Some(Self::OutCurrOccupancyBytes),
            96u32 => Some(Self::OutWatermarkBytes),
            97u32 => Some(Self::OutSharedCurrOccupancyBytes),
            98u32 => Some(Self::OutSharedWatermarkBytes),
            99u32 => Some(Self::InDroppedPkts),
            100u32 => Some(Self::OutDroppedPkts),
            101u32 => Some(Self::PauseRxPkts),
            102u32 => Some(Self::PauseTxPkts),
            103u32 => Some(Self::Pfc0RxPkts),
            104u32 => Some(Self::Pfc0TxPkts),
            105u32 => Some(Self::Pfc1RxPkts),
            106u32 => Some(Self::Pfc1TxPkts),
            107u32 => Some(Self::Pfc2RxPkts),
            108u32 => Some(Self::Pfc2TxPkts),
            109u32 => Some(Self::Pfc3RxPkts),
            110u32 => Some(Self::Pfc3TxPkts),
            111u32 => Some(Self::Pfc4RxPkts),
            112u32 => Some(Self::Pfc4TxPkts),
            113u32 => Some(Self::Pfc5RxPkts),
            114u32 => Some(Self::Pfc5TxPkts),
            115u32 => Some(Self::Pfc6RxPkts),
            116u32 => Some(Self::Pfc6TxPkts),
            117u32 => Some(Self::Pfc7RxPkts),
            118u32 => Some(Self::Pfc7TxPkts),
            119u32 => Some(Self::Pfc0RxPauseDuration),
            120u32 => Some(Self::Pfc0TxPauseDuration),
            121u32 => Some(Self::Pfc1RxPauseDuration),
            122u32 => Some(Self::Pfc1TxPauseDuration),
            123u32 => Some(Self::Pfc2RxPauseDuration),
            124u32 => Some(Self::Pfc2TxPauseDuration),
            125u32 => Some(Self::Pfc3RxPauseDuration),
            126u32 => Some(Self::Pfc3TxPauseDuration),
            127u32 => Some(Self::Pfc4RxPauseDuration),
            128u32 => Some(Self::Pfc4TxPauseDuration),
            129u32 => Some(Self::Pfc5RxPauseDuration),
            130u32 => Some(Self::Pfc5TxPauseDuration),
            131u32 => Some(Self::Pfc6RxPauseDuration),
            132u32 => Some(Self::Pfc6TxPauseDuration),
            133u32 => Some(Self::Pfc7RxPauseDuration),
            134u32 => Some(Self::Pfc7TxPauseDuration),
            135u32 => Some(Self::Pfc0RxPauseDurationUs),
            136u32 => Some(Self::Pfc0TxPauseDurationUs),
            137u32 => Some(Self::Pfc1RxPauseDurationUs),
            138u32 => Some(Self::Pfc1TxPauseDurationUs),
            139u32 => Some(Self::Pfc2RxPauseDurationUs),
            140u32 => Some(Self::Pfc2TxPauseDurationUs),
            141u32 => Some(Self::Pfc3RxPauseDurationUs),
            142u32 => Some(Self::Pfc3TxPauseDurationUs),
            143u32 => Some(Self::Pfc4RxPauseDurationUs),
            144u32 => Some(Self::Pfc4TxPauseDurationUs),
            145u32 => Some(Self::Pfc5RxPauseDurationUs),
            146u32 => Some(Self::Pfc5TxPauseDurationUs),
            147u32 => Some(Self::Pfc6RxPauseDurationUs),
            148u32 => Some(Self::Pfc6TxPauseDurationUs),
            149u32 => Some(Self::Pfc7RxPauseDurationUs),
            150u32 => Some(Self::Pfc7TxPauseDurationUs),
            151u32 => Some(Self::Pfc0On2OffRxPkts),
            152u32 => Some(Self::Pfc1On2OffRxPkts),
            153u32 => Some(Self::Pfc2On2OffRxPkts),
            154u32 => Some(Self::Pfc3On2OffRxPkts),
            155u32 => Some(Self::Pfc4On2OffRxPkts),
            156u32 => Some(Self::Pfc5On2OffRxPkts),
            157u32 => Some(Self::Pfc6On2OffRxPkts),
            158u32 => Some(Self::Pfc7On2OffRxPkts),
            159u32 => Some(Self::Dot3StatsAlignmentErrors),
            160u32 => Some(Self::Dot3StatsFcsErrors),
            161u32 => Some(Self::Dot3StatsSingleCollisionFrames),
            162u32 => Some(Self::Dot3StatsMultipleCollisionFrames),
            163u32 => Some(Self::Dot3StatsSqeTestErrors),
            164u32 => Some(Self::Dot3StatsDeferredTransmissions),
            165u32 => Some(Self::Dot3StatsLateCollisions),
            166u32 => Some(Self::Dot3StatsExcessiveCollisions),
            167u32 => Some(Self::Dot3StatsInternalMacTransmitErrors),
            168u32 => Some(Self::Dot3StatsCarrierSenseErrors),
            169u32 => Some(Self::Dot3StatsFrameTooLongs),
            170u32 => Some(Self::Dot3StatsInternalMacReceiveErrors),
            171u32 => Some(Self::Dot3StatsSymbolErrors),
            172u32 => Some(Self::Dot3ControlInUnknownOpcodes),
            173u32 => Some(Self::EeeTxEventCount),
            174u32 => Some(Self::EeeRxEventCount),
            175u32 => Some(Self::EeeTxDuration),
            176u32 => Some(Self::EeeRxDuration),
            177u32 => Some(Self::PrbsErrorCount),
            178u32 => Some(Self::IfInFecCorrectableFrames),
            179u32 => Some(Self::IfInFecNotCorrectableFrames),
            180u32 => Some(Self::IfInFecSymbolErrors),
            181u32 => Some(Self::IfInFabricDataUnits),
            182u32 => Some(Self::IfOutFabricDataUnits),
            183u32 => Some(Self::IfInFecCodewordErrorsS0),
            184u32 => Some(Self::IfInFecCodewordErrorsS1),
            185u32 => Some(Self::IfInFecCodewordErrorsS2),
            186u32 => Some(Self::IfInFecCodewordErrorsS3),
            187u32 => Some(Self::IfInFecCodewordErrorsS4),
            188u32 => Some(Self::IfInFecCodewordErrorsS5),
            189u32 => Some(Self::IfInFecCodewordErrorsS6),
            190u32 => Some(Self::IfInFecCodewordErrorsS7),
            191u32 => Some(Self::IfInFecCodewordErrorsS8),
            192u32 => Some(Self::IfInFecCodewordErrorsS9),
            193u32 => Some(Self::IfInFecCodewordErrorsS10),
            194u32 => Some(Self::IfInFecCodewordErrorsS11),
            195u32 => Some(Self::IfInFecCodewordErrorsS12),
            196u32 => Some(Self::IfInFecCodewordErrorsS13),
            197u32 => Some(Self::IfInFecCodewordErrorsS14),
            198u32 => Some(Self::IfInFecCodewordErrorsS15),
            199u32 => Some(Self::IfInFecCodewordErrorsS16),
            200u32 => Some(Self::IfInFecCorrectedBits),
            201u32 => Some(Self::TrimPackets),
            202u32 => Some(Self::DroppedTrimPackets),
            203u32 => Some(Self::TxTrimPackets),
            0x00001000u32 => Some(Self::InConfiguredDropReasons0DroppedPkts),
            0x00001001u32 => Some(Self::InConfiguredDropReasons1DroppedPkts),
            0x00001002u32 => Some(Self::InConfiguredDropReasons2DroppedPkts),
            0x00001003u32 => Some(Self::InConfiguredDropReasons3DroppedPkts),
            0x00001004u32 => Some(Self::InConfiguredDropReasons4DroppedPkts),
            0x00001005u32 => Some(Self::InConfiguredDropReasons5DroppedPkts),
            0x00001006u32 => Some(Self::InConfiguredDropReasons6DroppedPkts),
            0x00001007u32 => Some(Self::InConfiguredDropReasons7DroppedPkts),
            0x00001008u32 => Some(Self::InConfiguredDropReasons8DroppedPkts),
            0x00001009u32 => Some(Self::InConfiguredDropReasons9DroppedPkts),
            0x0000100au32 => Some(Self::InConfiguredDropReasons10DroppedPkts),
            0x0000100bu32 => Some(Self::InConfiguredDropReasons11DroppedPkts),
            0x0000100cu32 => Some(Self::InConfiguredDropReasons12DroppedPkts),
            0x0000100du32 => Some(Self::InConfiguredDropReasons13DroppedPkts),
            0x0000100eu32 => Some(Self::InConfiguredDropReasons14DroppedPkts),
            0x0000100fu32 => Some(Self::InConfiguredDropReasons15DroppedPkts),
            0x00002000u32 => Some(Self::OutConfiguredDropReasons0DroppedPkts),
            0x00002001u32 => Some(Self::OutConfiguredDropReasons1DroppedPkts),
            0x00002002u32 => Some(Self::OutConfiguredDropReasons2DroppedPkts),
            0x00002003u32 => Some(Self::OutConfiguredDropReasons3DroppedPkts),
            0x00002004u32 => Some(Self::OutConfiguredDropReasons4DroppedPkts),
            0x00002005u32 => Some(Self::OutConfiguredDropReasons5DroppedPkts),
            0x00002006u32 => Some(Self::OutConfiguredDropReasons6DroppedPkts),
            0x00002007u32 => Some(Self::OutConfiguredDropReasons7DroppedPkts),
            0x00002008u32 => Some(Self::IfInHwProtectionSwitchoverEvents),
            0x00002009u32 => Some(Self::IfInHwProtectionSwitchoverDropPkts),
            0x0000200au32 => Some(Self::EtherInPkts1519To2500Octets),
            0x0000200bu32 => Some(Self::EtherInPkts2501To9000Octets),
            0x0000200cu32 => Some(Self::EtherInPkts9001To16383Octets),
            0x0000200du32 => Some(Self::EtherOutPkts1519To2500Octets),
            0x0000200eu32 => Some(Self::EtherOutPkts2501To9000Octets),
            0x0000200fu32 => Some(Self::EtherOutPkts9001To16383Octets),
            0x00002010u32 => Some(Self::End),
            _ => None,
        }
    }

    /// Name of this statistic in the C enum.
    pub open spec fn spec_c_name(self) -> Seq<char> {
        match self {
            Self::IfInOctets => "SAI_PORT_STAT_IF_IN_OCTETS"@,
            Self::IfInUcastPkts => "SAI_PORT_STAT_IF_IN_UCAST_PKTS"@,
            Self::IfInNonUcastPkts => "SAI_PORT_STAT_IF_IN_NON_UCAST_PKTS"@,
            Self::IfInDiscards => "SAI_PORT_STAT_IF_IN_DISCARDS"@,
            Self::IfInErrors => "SAI_PORT_STAT_IF_IN_ERRORS"@,
            Self::IfInUnknownProtos => "SAI_PORT_STAT_IF_IN_UNKNOWN_PROTOS"@,
            Self::IfInBroadcastPkts => "SAI_PORT_STAT_IF_IN_BROADCAST_PKTS"@,
            Self::IfInMulticastPkts => "SAI_PORT_STAT_IF_IN_MULTICAST_PKTS"@,
            Self::IfInVlanDiscards => "SAI_PORT_STAT_IF_IN_VLAN_DISCARDS"@,
            Self::IfOutOctets => "SAI_PORT_STAT_IF_OUT_OCTETS"@,
            Self::IfOutUcastPkts => "SAI_PORT_STAT_IF_OUT_UCAST_PKTS"@,
            Self::IfOutNonUcastPkts => "SAI_PORT_STAT_IF_OUT_NON_UCAST_PKTS"@,
            Self::IfOutDiscards => "SAI_PORT_STAT_IF_OUT_DISCARDS"@,
            Self::IfOutErrors => "SAI_PORT_STAT_IF_OUT_ERRORS"@,
            Self::IfOutQlen => "SAI_PORT_STAT_IF_OUT_QLEN"@,
            Self::IfOutBroadcastPkts => "SAI_PORT_STAT_IF_OUT_BROADCAST_PKTS"@,
            Self::IfOutMulticastPkts => "SAI_PORT_STAT_IF_OUT_MULTICAST_PKTS"@,
            Self::EtherStatsDropEvents => "SAI_PORT_STAT_ETHER_STATS_DROP_EVENTS"@,
            Self::EtherStatsMulticastPkts => "SAI_PORT_STAT_ETHER_STATS_MULTICAST_PKTS"@,
            Self::EtherStatsBroadcastPkts => "SAI_PORT_STAT_ETHER_STATS_BROADCAST_PKTS"@,
            Self::EtherStatsUndersizePkts => "SAI_PORT_STAT_ETHER_STATS_UNDERSIZE_PKTS"@,
            Self::EtherStatsFragments => "SAI_PORT_STAT_ETHER_STATS_FRAGMENTS"@,
            Self::EtherStatsPkts64Octets => "SAI_PORT_STAT_ETHER_STATS_PKTS_64_OCTETS"@,
            Self::EtherStatsPkts65To127Octets => "SAI_PORT_STAT_ETHER_STATS_PKTS_65_TO_127_OCTETS"@,
            Self::EtherStatsPkts128To255Octets => "SAI_PORT_STAT_ETHER_STATS_PKTS_128_TO_255_OCTETS"@,
            Self::EtherStatsPkts256To511Octets => "SAI_PORT_STAT_ETHER_STATS_PKTS_256_TO_511_OCTETS"@,
            Self::EtherStatsPkts512To1023Octets => "SAI_PORT_STAT_ETHER_STATS_PKTS_512_TO_1023_OCTETS"@,
            Self::EtherStatsPkts1024To1518Octets => "SAI_PORT_STAT_ETHER_STATS_PKTS_1024_TO_1518_OCTETS"@,
            Self::EtherStatsPkts1519To2047Octets => "SAI_PORT_STAT_ETHER_STATS_PKTS_1519_TO_2047_OCTETS"@,
            Self::EtherStatsPkts2048To4095Octets => "SAI_PORT_STAT_ETHER_STATS_PKTS_2048_TO_4095_OCTETS"@,
            Self::EtherStatsPkts4096To9216Octets => "SAI_PORT_STAT_ETHER_STATS_PKTS_4096_TO_9216_OCTETS"@,
            Self::EtherStatsPkts9217To16383Octets => "SAI_PORT_STAT_ETHER_STATS_PKTS_9217_TO_16383_OCTETS"@,
            Self::EtherStatsOversizePkts => "SAI_PORT_STAT_ETHER_STATS_OVERSIZE_PKTS"@,
            Self::EtherRxOversizePkts => "SAI_PORT_STAT_ETHER_RX_OVERSIZE_PKTS"@,
            Self::EtherTxOversizePkts => "SAI_PORT_STAT_ETHER_TX_OVERSIZE_PKTS"@,
            Self::EtherStatsJabbers => "SAI_PORT_STAT_ETHER_STATS_JABBERS"@,
            Self::EtherStatsOctets => "SAI_PORT_STAT_ETHER_STATS_OCTETS"@,
            Self::EtherStatsPkts => "SAI_PORT_STAT_ETHER_STATS_PKTS"@,
            Self::EtherStatsCollisions => "SAI_PORT_STAT_ETHER_STATS_COLLISIONS"@,
            Self::EtherStatsCrcAlignErrors => "SAI_PORT_STAT_ETHER_STATS_CRC_ALIGN_ERRORS"@,
            Self::EtherStatsTxNoErrors => "SAI_PORT_STAT_ETHER_STATS_TX_NO_ERRORS"@,
            Self::EtherStatsRxNoErrors => "SAI_PORT_STAT_ETHER_STATS_RX_NO_ERRORS"@,
            Self::IpInReceives => "SAI_PORT_STAT_IP_IN_RECEIVES"@,
            Self::IpInOctets => "SAI_PORT_STAT_IP_IN_OCTETS"@,
            Self::IpInUcastPkts => "SAI_PORT_STAT_IP_IN_UCAST_PKTS"@,
            Self::IpInNonUcastPkts => "SAI_PORT_STAT_IP_IN_NON_UCAST_PKTS"@,
            Self::IpInDiscards => "SAI_PORT_STAT_IP_IN_DISCARDS"@,
            Self::IpOutOctets => "SAI_PORT_STAT_IP_OUT_OCTETS"@,
            Self::IpOutUcastPkts => "SAI_PORT_STAT_IP_OUT_UCAST_PKTS"@,
            Self::IpOutNonUcastPkts => "SAI_PORT_STAT_IP_OUT_NON_UCAST_PKTS"@,
            Self::IpOutDiscards => "SAI_PORT_STAT_IP_OUT_DISCARDS"@,
            Self::Ipv6InReceives => "SAI_PORT_STAT_IPV6_IN_RECEIVES"@,
            Self::Ipv6InOctets => "SAI_PORT_STAT_IPV6_IN_OCTETS"@,
            Self::Ipv6InUcastPkts => "SAI_PORT_STAT_IPV6_IN_UCAST_PKTS"@,
            Self::Ipv6InNonUcastPkts => "SAI_PORT_STAT_IPV6_IN_NON_UCAST_PKTS"@,
            Self::Ipv6InMcastPkts => "SAI_PORT_STAT_IPV6_IN_MCAST_PKTS"@,
            Self::Ipv6InDiscards => "SAI_PORT_STAT_IPV6_IN_DISCARDS"@,
            Self::Ipv6OutOctets => "SAI_PORT_STAT_IPV6_OUT_OCTETS"@,
            Self::Ipv6OutUcastPkts => "SAI_PORT_STAT_IPV6_OUT_UCAST_PKTS"@,
            Self::Ipv6OutNonUcastPkts => "SAI_PORT_STAT_IPV6_OUT_NON_UCAST_PKTS"@,
            Self::Ipv6OutMcastPkts => "SAI_PORT_STAT_IPV6_OUT_MCAST_PKTS"@,
            Self::Ipv6OutDiscards => "SAI_PORT_STAT_IPV6_OUT_DISCARDS"@,
            Self::GreenWredDroppedPackets => "SAI_PORT_STAT_GREEN_WRED_DROPPED_PACKETS"@,
            Self::GreenWredDroppedBytes => "SAI_PORT_STAT_GREEN_WRED_DROPPED_BYTES"@,
            Self::YellowWredDroppedPackets => "SAI_PORT_STAT_YELLOW_WRED_DROPPED_PACKETS"@,
            Self::YellowWredDroppedBytes => "SAI_PORT_STAT_YELLOW_WRED_DROPPED_BYTES"@,
            Self::RedWredDroppedPackets => "SAI_PORT_STAT_RED_WRED_DROPPED_PACKETS"@,
            Self::RedWredDroppedBytes => "SAI_PORT_STAT_RED_WRED_DROPPED_BYTES"@,
            Self::WredDroppedPackets => "SAI_PORT_STAT_WRED_DROPPED_PACKETS"@,
            Self::WredDroppedBytes => "SAI_PORT_STAT_WRED_DROPPED_BYTES"@,
            Self::EcnMarkedPackets => "SAI_PORT_STAT_ECN_MARKED_PACKETS"@,
            Self::EtherInPkts64Octets => "SAI_PORT_STAT_ETHER_IN_PKTS_64_OCTETS"@,
            Self::EtherInPkts65To127Octets => "SAI_PORT_STAT_ETHER_IN_PKTS_65_TO_127_OCTETS"@,
            Self::EtherInPkts128To255Octets => "SAI_PORT_STAT_ETHER_IN_PKTS_128_TO_255_OCTETS"@,
            Self::EtherInPkts256To511Octets => "SAI_PORT_STAT_ETHER_IN_PKTS_256_TO_511_OCTETS"@,
            Self::EtherInPkts512To1023Octets => "SAI_PORT_STAT_ETHER_IN_PKTS_512_TO_1023_OCTETS"@,
            Self::EtherInPkts1024To1518Octets => "SAI_PORT_STAT_ETHER_IN_PKTS_1024_TO_1518_OCTETS"@,
            Self::EtherInPkts1519To2047Octets => "SAI_PORT_STAT_ETHER_IN_PKTS_1519_TO_2047_OCTETS"@,
            Self::EtherInPkts2048To4095Octets => "SAI_PORT_STAT_ETHER_IN_PKTS_2048_TO_4095_OCTETS"@,
            Self::EtherInPkts4096To9216Octets => "SAI_PORT_STAT_ETHER_IN_PKTS_4096_TO_9216_OCTETS"@,
            Self::EtherInPkts9217To16383Octets => "SAI_PORT_STAT_ETHER_IN_PKTS_9217_TO_16383_OCTETS"@,
            Self::EtherOutPkts64Octets => "SAI_PORT_STAT_ETHER_OUT_PKTS_64_OCTETS"@,
            Self::EtherOutPkts65To127Octets => "SAI_PORT_STAT_ETHER_OUT_PKTS_65_TO_127_OCTETS"@,
            Self::EtherOutPkts128To255Octets => "SAI_PORT_STAT_ETHER_OUT_PKTS_128_TO_255_OCTETS"@,
            Self::EtherOutPkts256To511Octets => "SAI_PORT_STAT_ETHER_OUT_PKTS_256_TO_511_OCTETS"@,
            Self::EtherOutPkts512To1023Octets => "SAI_PORT_STAT_ETHER_OUT_PKTS_512_TO_1023_OCTETS"@,
            Self::EtherOutPkts1024To1518Octets => "SAI_PORT_STAT_ETHER_OUT_PKTS_1024_TO_1518_OCTETS"@,
            Self::EtherOutPkts1519To2047Octets => "SAI_PORT_STAT_ETHER_OUT_PKTS_1519_TO_2047_OCTETS"@,
            Self::EtherOutPkts2048To4095Octets => "SAI_PORT_STAT_ETHER_OUT_PKTS_2048_TO_4095_OCTETS"@,
            Self::EtherOutPkts4096To9216Octets => "SAI_PORT_STAT_ETHER_OUT_PKTS_4096_TO_9216_OCTETS"@,
            Self::EtherOutPkts9217To16383Octets => "SAI_PORT_STAT_ETHER_OUT_PKTS_9217_TO_16383_OCTETS"@,
            Self::InCurrOccupancyBytes => "SAI_PORT_STAT_IN_CURR_OCCUPANCY_BYTES"@,
            Self::InWatermarkBytes => "SAI_PORT_STAT_IN_WATERMARK_BYTES"@,
            Self::InSharedCurrOccupancyBytes => "SAI_PORT_STAT_IN_SHARED_CURR_OCCUPANCY_BYTES"@,
            Self::InSharedWatermarkBytes => "SAI_PORT_STAT_IN_SHARED_WATERMARK_BYTES"@,
            Self::OutCurrOccupancyBytes => "SAI_PORT_STAT_OUT_CURR_OCCUPANCY_BYTES"@,
            Self::OutWatermarkBytes => "SAI_PORT_STAT_OUT_WATERMARK_BYTES"@,
            Self::OutSharedCurrOccupancyBytes => "SAI_PORT_STAT_OUT_SHARED_CURR_OCCUPANCY_BYTES"@,
            Self::OutSharedWatermarkBytes => "SAI_PORT_STAT_OUT_SHARED_WATERMARK_BYTES"@,
            Self::InDroppedPkts => "SAI_PORT_STAT_IN_DROPPED_PKTS"@,
            Self::OutDroppedPkts => "SAI_PORT_STAT_OUT_DROPPED_PKTS"@,
            Self::PauseRxPkts => "SAI_PORT_STAT_PAUSE_RX_PKTS"@,
            Self::PauseTxPkts => "SAI_PORT_STAT_PAUSE_TX_PKTS"@,
            Self::Pfc0RxPkts => "SAI_PORT_STAT_PFC_0_RX_PKTS"@,
            Self::Pfc0TxPkts => "SAI_PORT_STAT_PFC_0_TX_PKTS"@,
            Self::Pfc1RxPkts => "SAI_PORT_STAT_PFC_1_RX_PKTS"@,
            Self::Pfc1TxPkts => "SAI_PORT_STAT_PFC_1_TX_PKTS"@,
            Self::Pfc2RxPkts => "SAI_PORT_STAT_PFC_2_RX_PKTS"@,
            Self::Pfc2TxPkts => "SAI_PORT_STAT_PFC_2_TX_PKTS"@,
            Self::Pfc3RxPkts => "SAI_PORT_STAT_PFC_3_RX_PKTS"@,
            Self::Pfc3TxPkts => "SAI_PORT_STAT_PFC_3_TX_PKTS"@,
            Self::Pfc4RxPkts => "SAI_PORT_STAT_PFC_4_RX_PKTS"@,
            Self::Pfc4TxPkts => "SAI_PORT_STAT_PFC_4_TX_PKTS"@,
            Self::Pfc5RxPkts => "SAI_PORT_STAT_PFC_5_RX_PKTS"@,
            Self::Pfc5TxPkts => "SAI_PORT_STAT_PFC_5_TX_PKTS"@,
            Self::Pfc6RxPkts => "SAI_PORT_STAT_PFC_6_RX_PKTS"@,
            Self::Pfc6TxPkts => "SAI_PORT_STAT_PFC_6_TX_PKTS"@,
            Self::Pfc7RxPkts => "SAI_PORT_STAT_PFC_7_RX_PKTS"@,
            Self::Pfc7TxPkts => "SAI_PORT_STAT_PFC_7_TX_PKTS"@,
            Self::Pfc0RxPauseDuration => "SAI_PORT_STAT_PFC_0_RX_PAUSE_DURATION"@,
            Self::Pfc0TxPauseDuration => "SAI_PORT_STAT_PFC_0_TX_PAUSE_DURATION"@,
            Self::Pfc1RxPauseDuration => "SAI_PORT_STAT_PFC_1_RX_PAUSE_DURATION"@,
            Self::Pfc1TxPauseDuration => "SAI_PORT_STAT_PFC_1_TX_PAUSE_DURATION"@,
            Self::Pfc2RxPauseDuration => "SAI_PORT_STAT_PFC_2_RX_PAUSE_DURATION"@,
            Self::Pfc2TxPauseDuration => "SAI_PORT_STAT_PFC_2_TX_PAUSE_DURATION"@,
            Self::Pfc3RxPauseDuration => "SAI_PORT_STAT_PFC_3_RX_PAUSE_DURATION"@,
            Self::Pfc3TxPauseDuration => "SAI_PORT_STAT_PFC_3_TX_PAUSE_DURATION"@,
            Self::Pfc4RxPauseDuration => "SAI_PORT_STAT_PFC_4_RX_PAUSE_DURATION"@,
            Self::Pfc4TxPauseDuration => "SAI_PORT_STAT_PFC_4_TX_PAUSE_DURATION"@,
            Self::Pfc5RxPauseDuration => "SAI_PORT_STAT_PFC_5_RX_PAUSE_DURATION"@,
            Self::Pfc5TxPauseDuration => "SAI_PORT_STAT_PFC_5_TX_PAUSE_DURATION"@,
            Self::Pfc6RxPauseDuration => "SAI_PORT_STAT_PFC_6_RX_PAUSE_DURATION"@,
            Self::Pfc6TxPauseDuration => "SAI_PORT_STAT_PFC_6_TX_PAUSE_DURATION"@,
            Self::Pfc7RxPauseDuration => "SAI_PORT_STAT_PFC_7_RX_PAUSE_DURATION"@,
            Self::Pfc7TxPauseDuration => "SAI_PORT_STAT_PFC_7_TX_PAUSE_DURATION"@,
            Self::Pfc0RxPauseDurationUs => "SAI_PORT_STAT_PFC_0_RX_PAUSE_DURATION_US"@,
            Self::Pfc0TxPauseDurationUs => "SAI_PORT_STAT_PFC_0_TX_PAUSE_DURATION_US"@,
            Self::Pfc1RxPauseDurationUs => "SAI_PORT_STAT_PFC_1_RX_PAUSE_DURATION_US"@,
            Self::Pfc1TxPauseDurationUs => "SAI_PORT_STAT_PFC_1_TX_PAUSE_DURATION_US"@,
            Self::Pfc2RxPauseDurationUs => "SAI_PORT_STAT_PFC_2_RX_PAUSE_DURATION_US"@,
            Self::Pfc2TxPauseDurationUs => "SAI_PORT_STAT_PFC_2_TX_PAUSE_DURATION_US"@,
            Self::Pfc3RxPauseDurationUs => "SAI_PORT_STAT_PFC_3_RX_PAUSE_DURATION_US"@,
            Self::Pfc3TxPauseDurationUs => "SAI_PORT_STAT_PFC_3_TX_PAUSE_DURATION_US"@,
            Self::Pfc4RxPauseDurationUs => "SAI_PORT_STAT_PFC_4_RX_PAUSE_DURATION_US"@,
            Self::Pfc4TxPauseDurationUs => "SAI_PORT_STAT_PFC_4_TX_PAUSE_DURATION_US"@,
            Self::Pfc5RxPauseDurationUs => "SAI_PORT_STAT_PFC_5_RX_PAUSE_DURATION_US"@,
            Self::Pfc5TxPauseDurationUs => "SAI_PORT_STAT_PFC_5_TX_PAUSE_DURATION_US"@,
            Self::Pfc6RxPauseDurationUs => "SAI_PORT_STAT_PFC_6_RX_PAUSE_DURATION_US"@,
            Self::Pfc6TxPauseDurationUs => "SAI_PORT_STAT_PFC_6_TX_PAUSE_DURATION_US"@,
            Self::Pfc7RxPauseDurationUs => "SAI_PORT_STAT_PFC_7_RX_PAUSE_DURATION_US"@,
            Self::Pfc7TxPauseDurationUs => "SAI_PORT_STAT_PFC_7_TX_PAUSE_DURATION_US"@,
            Self::Pfc0On2OffRxPkts => "SAI_PORT_STAT_PFC_0_ON2OFF_RX_PKTS"@,
            Self::Pfc1On2OffRxPkts => "SAI_PORT_STAT_PFC_1_ON2OFF_RX_PKTS"@,
            Self::Pfc2On2OffRxPkts => "SAI_PORT_STAT_PFC_2_ON2OFF_RX_PKTS"@,
            Self::Pfc3On2OffRxPkts => "SAI_PORT_STAT_PFC_3_ON2OFF_RX_PKTS"@,
            Self::Pfc4On2OffRxPkts => "SAI_PORT_STAT_PFC_4_ON2OFF_RX_PKTS"@,
            Self::Pfc5On2OffRxPkts => "SAI_PORT_STAT_PFC_5_ON2OFF_RX_PKTS"@,
            Self::Pfc6On2OffRxPkts => "SAI_PORT_STAT_PFC_6_ON2OFF_RX_PKTS"@,
            Self::Pfc7On2OffRxPkts => "SAI_PORT_STAT_PFC_7_ON2OFF_RX_PKTS"@,
            Self::Dot3StatsAlignmentErrors => "SAI_PORT_STAT_DOT3_STATS_ALIGNMENT_ERRORS"@,
            Self::Dot3StatsFcsErrors => "SAI_PORT_STAT_DOT3_STATS_FCS_ERRORS"@,
            Self::Dot3StatsSingleCollisionFrames => "SAI_PORT_STAT_DOT3_STATS_SINGLE_COLLISION_FRAMES"@,
            Self::Dot3StatsMultipleCollisionFrames => "SAI_PORT_STAT_DOT3_STATS_MULTIPLE_COLLISION_FRAMES"@,
            Self::Dot3StatsSqeTestErrors => "SAI_PORT_STAT_DOT3_STATS_SQE_TEST_ERRORS"@,
            Self::Dot3StatsDeferredTransmissions => "SAI_PORT_STAT_DOT3_STATS_DEFERRED_TRANSMISSIONS"@,
            Self::Dot3StatsLateCollisions => "SAI_PORT_STAT_DOT3_STATS_LATE_COLLISIONS"@,
            Self::Dot3StatsExcessiveCollisions => "SAI_PORT_STAT_DOT3_STATS_EXCESSIVE_COLLISIONS"@,
            Self::Dot3StatsInternalMacTransmitErrors => "SAI_PORT_STAT_DOT3_STATS_INTERNAL_MAC_TRANSMIT_ERRORS"@,
            Self::Dot3StatsCarrierSenseErrors => "SAI_PORT_STAT_DOT3_STATS_CARRIER_SENSE_ERRORS"@,
            Self::Dot3StatsFrameTooLongs => "SAI_PORT_STAT_DOT3_STATS_FRAME_TOO_LONGS"@,
            Self::Dot3StatsInternalMacReceiveErrors => "SAI_PORT_STAT_DOT3_STATS_INTERNAL_MAC_RECEIVE_ERRORS"@,
            Self::Dot3StatsSymbolErrors => "SAI_PORT_STAT_DOT3_STATS_SYMBOL_ERRORS"@,
            Self::Dot3ControlInUnknownOpcodes => "SAI_PORT_STAT_DOT3_CONTROL_IN_UNKNOWN_OPCODES"@,
            Self::EeeTxEventCount => "SAI_PORT_STAT_EEE_TX_EVENT_COUNT"@,
            Self::EeeRxEventCount => "SAI_PORT_STAT_EEE_RX_EVENT_COUNT"@,
            Self::EeeTxDuration => "SAI_PORT_STAT_EEE_TX_DURATION"@,
            Self::EeeRxDuration => "SAI_PORT_STAT_EEE_RX_DURATION"@,
            Self::PrbsErrorCount => "SAI_PORT_STAT_PRBS_ERROR_COUNT"@,
            Self::IfInFecCorrectableFrames => "SAI_PORT_STAT_IF_IN_FEC_CORRECTABLE_FRAMES"@,
            Self::IfInFecNotCorrectableFrames => "SAI_PORT_STAT_IF_IN_FEC_NOT_CORRECTABLE_FRAMES"@,
            Self::IfInFecSymbolErrors => "SAI_PORT_STAT_IF_IN_FEC_SYMBOL_ERRORS"@,
            Self::IfInFabricDataUnits => "SAI_PORT_STAT_IF_IN_FABRIC_DATA_UNITS"@,
            Self::IfOutFabricDataUnits => "SAI_PORT_STAT_IF_OUT_FABRIC_DATA_UNITS"@,
            Self::IfInFecCodewordErrorsS0 => "SAI_PORT_STAT_IF_IN_FEC_CODEWORD_ERRORS_S0"@,
            Self::IfInFecCodewordErrorsS1 => "SAI_PORT_STAT_IF_IN_FEC_CODEWORD_ERRORS_S1"@,
            Self::IfInFecCodewordErrorsS2 => "SAI_PORT_STAT_IF_IN_FEC_CODEWORD_ERRORS_S2"@,
            Self::IfInFecCodewordErrorsS3 => "SAI_PORT_STAT_IF_IN_FEC_CODEWORD_ERRORS_S3"@,
            Self::IfInFecCodewordErrorsS4 => "SAI_PORT_STAT_IF_IN_FEC_CODEWORD_ERRORS_S4"@,
            Self::IfInFecCodewordErrorsS5 => "SAI_PORT_STAT_IF_IN_FEC_CODEWORD_ERRORS_S5"@,
            Self::IfInFecCodewordErrorsS6 => "SAI_PORT_STAT_IF_IN_FEC_CODEWORD_ERRORS_S6"@,
            Self::IfInFecCodewordErrorsS7 => "SAI_PORT_STAT_IF_IN_FEC_CODEWORD_ERRORS_S7"@,
            Self::IfInFecCodewordErrorsS8 => "SAI_PORT_STAT_IF_IN_FEC_CODEWORD_ERRORS_S8"@,
            Self::IfInFecCodewordErrorsS9 => "SAI_PORT_STAT_IF_IN_FEC_CODEWORD_ERRORS_S9"@,
            Self::IfInFecCodewordErrorsS10 => "SAI_PORT_STAT_IF_IN_FEC_CODEWORD_ERRORS_S10"@,
            Self::IfInFecCodewordErrorsS11 => "SAI_PORT_STAT_IF_IN_FEC_CODEWORD_ERRORS_S11"@,
            Self::IfInFecCodewordErrorsS12 => "SAI_PORT_STAT_IF_IN_FEC_CODEWORD_ERRORS_S12"@,
            Self::IfInFecCodewordErrorsS13 => "SAI_PORT_STAT_IF_IN_FEC_CODEWORD_ERRORS_S13"@,
            Self::IfInFecCodewordErrorsS14 => "SAI_PORT_STAT_IF_IN_FEC_CODEWORD_ERRORS_S14"@,
            Self::IfInFecCodewordErrorsS15 => "SAI_PORT_STAT_IF_IN_FEC_CODEWORD_ERRORS_S15"@,
            Self::IfInFecCodewordErrorsS16 => "SAI_PORT_STAT_IF_IN_FEC_CODEWORD_ERRORS_S16"@,
            Self::IfInFecCorrectedBits => "SAI_PORT_STAT_IF_IN_FEC_CORRECTED_BITS"@,
            Self::TrimPackets => "SAI_PORT_STAT_TRIM_PACKETS"@,
            Self::DroppedTrimPackets => "SAI_PORT_STAT_DROPPED_TRIM_PACKETS"@,
            Self::TxTrimPackets => "SAI_PORT_STAT_TX_TRIM_PACKETS"@,
            Self::InConfiguredDropReasons0DroppedPkts => "SAI_PORT_STAT_IN_CONFIGURED_DROP_REASONS_0_DROPPED_PKTS"@,
            Self::InConfiguredDropReasons1DroppedPkts => "SAI_PORT_STAT_IN_CONFIGURED_DROP_REASONS_1_DROPPED_PKTS"@,
            Self::InConfiguredDropReasons2DroppedPkts => "SAI_PORT_STAT_IN_CONFIGURED_DROP_REASONS_2_DROPPED_PKTS"@,
            Self::InConfiguredDropReasons3DroppedPkts => "SAI_PORT_STAT_IN_CONFIGURED_DROP_REASONS_3_DROPPED_PKTS"@,
            Self::InConfiguredDropReasons4DroppedPkts => "SAI_PORT_STAT_IN_CONFIGURED_DROP_REASONS_4_DROPPED_PKTS"@,
            Self::InConfiguredDropReasons5DroppedPkts => "SAI_PORT_STAT_IN_CONFIGURED_DROP_REASONS_5_DROPPED_PKTS"@,
            Self::InConfiguredDropReasons6DroppedPkts => "SAI_PORT_STAT_IN_CONFIGURED_DROP_REASONS_6_DROPPED_PKTS"@,
            Self::InConfiguredDropReasons7DroppedPkts => "SAI_PORT_STAT_IN_CONFIGURED_DROP_REASONS_7_DROPPED_PKTS"@,
            Self::InConfiguredDropReasons8DroppedPkts => "SAI_PORT_STAT_IN_CONFIGURED_DROP_REASONS_8_DROPPED_PKTS"@,
            Self::InConfiguredDropReasons9DroppedPkts => "SAI_PORT_STAT_IN_CONFIGURED_DROP_REASONS_9_DROPPED_PKTS"@,
            Self::InConfiguredDropReasons10DroppedPkts => "SAI_PORT_STAT_IN_CONFIGURED_DROP_REASONS_10_DROPPED_PKTS"@,
            Self::InConfiguredDropReasons11DroppedPkts => "SAI_PORT_STAT_IN_CONFIGURED_DROP_REASONS_11_DROPPED_PKTS"@,
            Self::InConfiguredDropReasons12DroppedPkts => "SAI_PORT_STAT_IN_CONFIGURED_DROP_REASONS_12_DROPPED_PKTS"@,
            Self::InConfiguredDropReasons13DroppedPkts => "SAI_PORT_STAT_IN_CONFIGURED_DROP_REASONS_13_DROPPED_PKTS"@,
            Self::InConfiguredDropReasons14DroppedPkts => "SAI_PORT_STAT_IN_CONFIGURED_DROP_REASONS_14_DROPPED_PKTS"@,
            Self::InConfiguredDropReasons15DroppedPkts => "SAI_PORT_STAT_IN_CONFIGURED_DROP_REASONS_15_DROPPED_PKTS"@,
            Self::OutConfiguredDropReasons0DroppedPkts => "SAI_PORT_STAT_OUT_CONFIGURED_DROP_REASONS_0_DROPPED_PKTS"@,
            Self::OutConfiguredDropReasons1DroppedPkts => "SAI_PORT_STAT_OUT_CONFIGURED_DROP_REASONS_1_DROPPED_PKTS"@,
            Self::OutConfiguredDropReasons2DroppedPkts => "SAI_PORT_STAT_OUT_CONFIGURED_DROP_REASONS_2_DROPPED_PKTS"@,
            Self::OutConfiguredDropReasons3DroppedPkts => "SAI_PORT_STAT_OUT_CONFIGURED_DROP_REASONS_3_DROPPED_PKTS"@,
            Self::OutConfiguredDropReasons4DroppedPkts => "SAI_PORT_STAT_OUT_CONFIGURED_DROP_REASONS_4_DROPPED_PKTS"@,
            Self::OutConfiguredDropReasons5DroppedPkts => "SAI_PORT_STAT_OUT_CONFIGURED_DROP_REASONS_5_DROPPED_PKTS"@,
            Self::OutConfiguredDropReasons6DroppedPkts => "SAI_PORT_STAT_OUT_CONFIGURED_DROP_REASONS_6_DROPPED_PKTS"@,
            Self::OutConfiguredDropReasons7DroppedPkts => "SAI_PORT_STAT_OUT_CONFIGURED_DROP_REASONS_7_DROPPED_PKTS"@,
            Self::IfInHwProtectionSwitchoverEvents => "SAI_PORT_STAT_IF_IN_HW_PROTECTION_SWITCHOVER_EVENTS"@,
            Self::IfInHwProtectionSwitchoverDropPkts => "SAI_PORT_STAT_IF_IN_HW_PROTECTION_SWITCHOVER_DROP_PKTS"@,
            Self::EtherInPkts1519To2500Octets => "SAI_PORT_STAT_ETHER_IN_PKTS_1519_TO_2500_OCTETS"@,
            Self::EtherInPkts2501To9000Octets => "SAI_PORT_STAT_ETHER_IN_PKTS_2501_TO_9000_OCTETS"@,
            Self::EtherInPkts9001To16383Octets => "SAI_PORT_STAT_ETHER_IN_PKTS_9001_TO_16383_OCTETS"@,
            Self::EtherOutPkts1519To2500Octets => "SAI_PORT_STAT_ETHER_OUT_PKTS_1519_TO_2500_OCTETS"@,
            Self::EtherOutPkts2501To9000Octets => "SAI_PORT_STAT_ETHER_OUT_PKTS_2501_TO_9000_OCTETS"@,
            Self::EtherOutPkts9001To16383Octets => "SAI_PORT_STAT_ETHER_OUT_PKTS_9001_TO_16383_OCTETS"@,
            Self::End => "SAI_PORT_STAT_END"@,
        }
    }

    /// The statistic whose C name is `s`, if any.
    pub open spec fn spec_from_c_name(s: Seq<char>) -> Option<Self> {
        if s == "SAI_PORT_STAT_IF_IN_OCTETS"@ {
            Some(Self::IfInOctets)
        } else if s == "SAI_PORT_STAT_IF_IN_UCAST_PKTS"@ {
            Some(Self::IfInUcastPkts)
        } else if s == "SAI_PORT_STAT_IF_IN_NON_UCAST_PKTS"@ {
            Some(Self::IfInNonUcastPkts)
        } else if s == "SAI_PORT_STAT_IF_IN_DISCARDS"@ {
            Some(Self::IfInDiscards)
        } else if s == "SAI_PORT_STAT_IF_IN_ERRORS"@ {
            Some(Self::IfInErrors)
        } else if s == "SAI_PORT_STAT_IF_IN_UNKNOWN_PROTOS"@ {
            Some(Self::IfInUnknownProtos)
        } else if s == "SAI_PORT_STAT_IF_IN_BROADCAST_PKTS"@ {
            Some(Self::IfInBroadcastPkts)
        } else if s == "SAI_PORT_STAT_IF_IN_MULTICAST_PKTS"@ {
            Some(Self::IfInMulticastPkts)
        } else if s == "SAI_PORT_STAT_IF_IN_VLAN_DISCARDS"@ {
            Some(Self::IfInVlanDiscards)
        } else if s == "SAI_PORT_STAT_IF_OUT_OCTETS"@ {
            Some(Self::IfOutOctets)
        } else if s == "SAI_PORT_STAT_IF_OUT_UCAST_PKTS"@ {
            Some(Self::IfOutUcastPkts)
        } else if s == "SAI_PORT_STAT_IF_OUT_NON_UCAST_PKTS"@ {
            Some(Self::IfOutNonUcastPkts)
        } else if s == "SAI_PORT_STAT_IF_OUT_DISCARDS"@ {
            Some(Self::IfOutDiscards)
        } else if s == "SAI_PORT_STAT_IF_OUT_ERRORS"@ {
            Some(Self::IfOutErrors)
        } else if s == "SAI_PORT_STAT_IF_OUT_QLEN"@ {
            Some(Self::IfOutQlen)
        } else if s == "SAI_PORT_STAT_IF_OUT_BROADCAST_PKTS"@ {
            Some(Self::IfOutBroadcastPkts)
        } else if s == "SAI_PORT_STAT_IF_OUT_MULTICAST_PKTS"@ {
            Some(Self::IfOutMulticastPkts)
        } else if s == "SAI_PORT_STAT_ETHER_STATS_DROP_EVENTS"@ {
            Some(Self::EtherStatsDropEvents)
        } else if s == "SAI_PORT_STAT_ETHER_STATS_MULTICAST_PKTS"@ {
            Some(Self::EtherStatsMulticastPkts)
        } else if s == "SAI_PORT_STAT_ETHER_STATS_BROADCAST_PKTS"@ {
            Some(Self::EtherStatsBroadcastPkts)
        } else if s == "SAI_PORT_STAT_ETHER_STATS_UNDERSIZE_PKTS"@ {
            Some(Self::EtherStatsUndersizePkts)
        } else if s == "SAI_PORT_STAT_ETHER_STATS_FRAGMENTS"@ {
            Some(Self::EtherStatsFragments)
        } else if s == "SAI_PORT_STAT_ETHER_STATS_PKTS_64_OCTETS"@ {
            Some(Self::EtherStatsPkts64Octets)
        } else if s == "SAI_PORT_STAT_ETHER_STATS_PKTS_65_TO_127_OCTETS"@ {
            Some(Self::EtherStatsPkts65To127Octets)
        } else if s == "SAI_PORT_STAT_ETHER_STATS_PKTS_128_TO_255_OCTETS"@ {
            Some(Self::EtherStatsPkts128To255Octets)
        } else if s == "SAI_PORT_STAT_ETHER_STATS_PKTS_256_TO_511_OCTETS"@ {
            Some(Self::EtherStatsPkts256To511Octets)
        } else if s == "SAI_PORT_STAT_ETHER_STATS_PKTS_512_TO_1023_OCTETS"@ {
            Some(Self::EtherStatsPkts512To1023Octets)
        } else if s == "SAI_PORT_STAT_ETHER_STATS_PKTS_1024_TO_1518_OCTETS"@ {
            Some(Self::EtherStatsPkts1024To1518Octets)
        } else if s == "SAI_PORT_STAT_ETHER_STATS_PKTS_1519_TO_2047_OCTETS"@ {
            Some(Self::EtherStatsPkts1519To2047Octets)
        } else if s == "SAI_PORT_STAT_ETHER_STATS_PKTS_2048_TO_4095_OCTETS"@ {
            Some(Self::EtherStatsPkts2048To4095Octets)
        } else if s == "SAI_PORT_STAT_ETHER_STATS_PKTS_4096_TO_9216_OCTETS"@ {
            Some(Self::EtherStatsPkts4096To9216Octets)
        } else if s == "SAI_PORT_STAT_ETHER_STATS_PKTS_9217_TO_16383_OCTETS"@ {
            Some(Self::EtherStatsPkts9217To16383Octets)
        } else if s == "SAI_PORT_STAT_ETHER_STATS_OVERSIZE_PKTS"@ {
            Some(Self::EtherStatsOversizePkts)
        } else if s == "SAI_PORT_STAT_ETHER_RX_OVERSIZE_PKTS"@ {
            Some(Self::EtherRxOversizePkts)
        } else if s == "SAI_PORT_STAT_ETHER_TX_OVERSIZE_PKTS"@ {
            Some(Self::EtherTxOversizePkts)
        } else if s == "SAI_PORT_STAT_ETHER_STATS_JABBERS"@ {
            Some(Self::EtherStatsJabbers)
        } else if s == "SAI_PORT_STAT_ETHER_STATS_OCTETS"@ {
            Some(Self::EtherStatsOctets)
        } else if s == "SAI_PORT_STAT_ETHER_STATS_PKTS"@ {
            Some(Self::EtherStatsPkts)
        } else if s == "SAI_PORT_STAT_ETHER_STATS_COLLISIONS"@ {
            Some(Self::EtherStatsCollisions)
        } else if s == "SAI_PORT_STAT_ETHER_STATS_CRC_ALIGN_ERRORS"@ {
            Some(Self::EtherStatsCrcAlignErrors)
        } else if s == "SAI_PORT_STAT_ETHER_STATS_TX_NO_ERRORS"@ {
            Some(Self::EtherStatsTxNoErrors)
        } else if s == "SAI_PORT_STAT_ETHER_STATS_RX_NO_ERRORS"@ {
            Some(Self::EtherStatsRxNoErrors)
        } else if s == "SAI_PORT_STAT_IP_IN_RECEIVES"@ {
            Some(Self::IpInReceives)
        } else if s == "SAI_PORT_STAT_IP_IN_OCTETS"@ {
            Some(Self::IpInOctets)
        } else if s == "SAI_PORT_STAT_IP_IN_UCAST_PKTS"@ {
            Some(Self::IpInUcastPkts)
        } else if s == "SAI_PORT_STAT_IP_IN_NON_UCAST_PKTS"@ {
            Some(Self::IpInNonUcastPkts)
        } else if s == "SAI_PORT_STAT_IP_IN_DISCARDS"@ {
            Some(Self::IpInDiscards)
        } else if s == "SAI_PORT_STAT_IP_OUT_OCTETS"@ {
            Some(Self::IpOutOctets)
        } else if s == "SAI_PORT_STAT_IP_OUT_UCAST_PKTS"@ {
            Some(Self::IpOutUcastPkts)
        } else if s == "SAI_PORT_STAT_IP_OUT_NON_UCAST_PKTS"@ {
            Some(Self::IpOutNonUcastPkts)
        } else if s == "SAI_PORT_STAT_IP_OUT_DISCARDS"@ {
            Some(Self::IpOutDiscards)
        } else if s == "SAI_PORT_STAT_IPV6_IN_RECEIVES"@ {
            Some(Self::Ipv6InReceives)
        } else if s == "SAI_PORT_STAT_IPV6_IN_OCTETS"@ {
            Some(Self::Ipv6InOctets)
        } else if s == "SAI_PORT_STAT_IPV6_IN_UCAST_PKTS"@ {
            Some(Self::Ipv6InUcastPkts)
        } else if s == "SAI_PORT_STAT_IPV6_IN_NON_UCAST_PKTS"@ {
            Some(Self::Ipv6InNonUcastPkts)
        } else if s == "SAI_PORT_STAT_IPV6_IN_MCAST_PKTS"@ {
            Some(Self::Ipv6InMcastPkts)
        } else if s == "SAI_PORT_STAT_IPV6_IN_DISCARDS"@ {
            Some(Self::Ipv6InDiscards)
        } else if s == "SAI_PORT_STAT_IPV6_OUT_OCTETS"@ {
            Some(Self::Ipv6OutOctets)
        } else if s == "SAI_PORT_STAT_IPV6_OUT_UCAST_PKTS"@ {
            Some(Self::Ipv6OutUcastPkts)
        } else if s == "SAI_PORT_STAT_IPV6_OUT_NON_UCAST_PKTS"@ {
            Some(Self::Ipv6OutNonUcastPkts)
        } else if s == "SAI_PORT_STAT_IPV6_OUT_MCAST_PKTS"@ {
            Some(Self::Ipv6OutMcastPkts)
        } else if s == "SAI_PORT_STAT_IPV6_OUT_DISCARDS"@ {
            Some(Self::Ipv6OutDiscards)
        } else if s == "SAI_PORT_STAT_GREEN_WRED_DROPPED_PACKETS"@ {
            Some(Self::GreenWredDroppedPackets)
        } else if s == "SAI_PORT_STAT_GREEN_WRED_DROPPED_BYTES"@ {
            Some(Self::GreenWredDroppedBytes)
        } else if s == "SAI_PORT_STAT_YELLOW_WRED_DROPPED_PACKETS"@ {
            Some(Self::YellowWredDroppedPackets)
        } else if s == "SAI_PORT_STAT_YELLOW_WRED_DROPPED_BYTES"@ {
            Some(Self::YellowWredDroppedBytes)
        } else if s == "SAI_PORT_STAT_RED_WRED_DROPPED_PACKETS"@ {
            Some(Self::RedWredDroppedPackets)
        } else if s == "SAI_PORT_STAT_RED_WRED_DROPPED_BYTES"@ {
            Some(Self::RedWredDroppedBytes)
        } else if s == "SAI_PORT_STAT_WRED_DROPPED_PACKETS"@ {
            Some(Self::WredDroppedPackets)
        } else if s == "SAI_PORT_STAT_WRED_DROPPED_BYTES"@ {
            Some(Self::WredDroppedBytes)
        } else if s == "SAI_PORT_STAT_ECN_MARKED_PACKETS"@ {
            Some(Self::EcnMarkedPackets)
        } else if s == "SAI_PORT_STAT_ETHER_IN_PKTS_64_OCTETS"@ {
            Some(Self::EtherInPkts64Octets)
        } else if s == "SAI_PORT_STAT_ETHER_IN_PKTS_65_TO_127_OCTETS"@ {
            Some(Self::EtherInPkts65To127Octets)
        } else if s == "SAI_PORT_STAT_ETHER_IN_PKTS_128_TO_255_OCTETS"@ {
            Some(Self::EtherInPkts128To255Octets)
        } else if s == "SAI_PORT_STAT_ETHER_IN_PKTS_256_TO_511_OCTETS"@ {
            Some(Self::EtherInPkts256To511Octets)
        } else if s == "SAI_PORT_STAT_ETHER_IN_PKTS_512_TO_1023_OCTETS"@ {
            Some(Self::EtherInPkts512To1023Octets)
        } else if s == "SAI_PORT_STAT_ETHER_IN_PKTS_1024_TO_1518_OCTETS"@ {
            Some(Self::EtherInPkts1024To1518Octets)
        } else if s == "SAI_PORT_STAT_ETHER_IN_PKTS_1519_TO_2047_OCTETS"@ {
            Some(Self::EtherInPkts1519To2047Octets)
        } else if s == "SAI_PORT_STAT_ETHER_IN_PKTS_2048_TO_4095_OCTETS"@ {
            Some(Self::EtherInPkts2048To4095Octets)
        } else if s == "SAI_PORT_STAT_ETHER_IN_PKTS_4096_TO_9216_OCTETS"@ {
            Some(Self::EtherInPkts4096To9216Octets)
        } else if s == "SAI_PORT_STAT_ETHER_IN_PKTS_9217_TO_16383_OCTETS"@ {
            Some(Self::EtherInPkts9217To16383Octets)
        } else if s == "SAI_PORT_STAT_ETHER_OUT_PKTS_64_OCTETS"@ {
            Some(Self::EtherOutPkts64Octets)
        } else if s == "SAI_PORT_STAT_ETHER_OUT_PKTS_65_TO_127_OCTETS"@ {
            Some(Self::EtherOutPkts65To127Octets)
        } else if s == "SAI_PORT_STAT_ETHER_OUT_PKTS_128_TO_255_OCTETS"@ {
            Some(Self::EtherOutPkts128To255Octets)
        } else if s == "SAI_PORT_STAT_ETHER_OUT_PKTS_256_TO_511_OCTETS"@ {
            Some(Self::EtherOutPkts256To511Octets)
        } else if s == "SAI_PORT_STAT_ETHER_OUT_PKTS_512_TO_1023_OCTETS"@ {
            Some(Self::EtherOutPkts512To1023Octets)
        } else if s == "SAI_PORT_STAT_ETHER_OUT_PKTS_1024_TO_1518_OCTETS"@ {
            Some(Self::EtherOutPkts1024To1518Octets)
        } else if s == "SAI_PORT_STAT_ETHER_OUT_PKTS_1519_TO_2047_OCTETS"@ {
            Some(Self::EtherOutPkts1519To2047Octets)
        } else if s == "SAI_PORT_STAT_ETHER_OUT_PKTS_2048_TO_4095_OCTETS"@ {
            Some(Self::EtherOutPkts2048To4095Octets)
        } else if s == "SAI_PORT_STAT_ETHER_OUT_PKTS_4096_TO_9216_OCTETS"@ {
            Some(Self::EtherOutPkts4096To9216Octets)
        } else if s == "SAI_PORT_STAT_ETHER_OUT_PKTS_9217_TO_16383_OCTETS"@ {
            Some(Self::EtherOutPkts9217To16383Octets)
        } else if s == "SAI_PORT_STAT_IN_CURR_OCCUPANCY_BYTES"@ {
            Some(Self::InCurrOccupancyBytes)
        } else if s == "SAI_PORT_STAT_IN_WATERMARK_BYTES"@ {
            Some(Self::InWatermarkBytes)
        } else if s == "SAI_PORT_STAT_IN_SHARED_CURR_OCCUPANCY_BYTES"@ {
            Some(Self::InSharedCurrOccupancyBytes)
        } else if s == "SAI_PORT_STAT_IN_SHARED_WATERMARK_BYTES"@ {
            Some(Self::InSharedWatermarkBytes)
        } else if s == "SAI_PORT_STAT_OUT_CURR_OCCUPANCY_BYTES"@ {
            Some(Self::OutCurrOccupancyBytes)
        } else if s == "SAI_PORT_STAT_OUT_WATERMARK_BYTES"@ {
            Some(Self::OutWatermarkBytes)
        } else if s == "SAI_PORT_STAT_OUT_SHARED_CURR_OCCUPANCY_BYTES"@ {
            Some(Self::OutSharedCurrOccupancyBytes)
        } else if s == "SAI_PORT_STAT_OUT_SHARED_WATERMARK_BYTES"@ {
            Some(Self::OutSharedWatermarkBytes)
        } else if s == "SAI_PORT_STAT_IN_DROPPED_PKTS"@ {
            Some(Self::InDroppedPkts)
        } else if s == "SAI_PORT_STAT_OUT_DROPPED_PKTS"@ {
            Some(Self::OutDroppedPkts)
        } else if s == "SAI_PORT_STAT_PAUSE_RX_PKTS"@ {
            Some(Self::PauseRxPkts)
        } else if s == "SAI_PORT_STAT_PAUSE_TX_PKTS"@ {
            Some(Self::PauseTxPkts)
        } else if s == "SAI_PORT_STAT_PFC_0_RX_PKTS"@ {
            Some(Self::Pfc0RxPkts)
        } else if s == "SAI_PORT_STAT_PFC_0_TX_PKTS"@ {
            Some(Self::Pfc0TxPkts)
        } else if s == "SAI_PORT_STAT_PFC_1_RX_PKTS"@ {
            Some(Self::Pfc1RxPkts)
        } else if s == "SAI_PORT_STAT_PFC_1_TX_PKTS"@ {
            Some(Self::Pfc1TxPkts)
        } else if s == "SAI_PORT_STAT_PFC_2_RX_PKTS"@ {
            Some(Self::Pfc2RxPkts)
        } else if s == "SAI_PORT_STAT_PFC_2_TX_PKTS"@ {
            Some(Self::Pfc2TxPkts)
        } else if s == "SAI_PORT_STAT_PFC_3_RX_PKTS"@ {
            Some(Self::Pfc3RxPkts)
        } else if s == "SAI_PORT_STAT_PFC_3_TX_PKTS"@ {
            Some(Self::Pfc3TxPkts)
        } else if s == "SAI_PORT_STAT_PFC_4_RX_PKTS"@ {
            Some(Self::Pfc4RxPkts)
        } else if s == "SAI_PORT_STAT_PFC_4_TX_PKTS"@ {
            Some(Self::Pfc4TxPkts)
        } else if s == "SAI_PORT_STAT_PFC_5_RX_PKTS"@ {
            Some(Self::Pfc5RxPkts)
        } else if s == "SAI_PORT_STAT_PFC_5_TX_PKTS"@ {
            Some(Self::Pfc5TxPkts)
        } else if s == "SAI_PORT_STAT_PFC_6_RX_PKTS"@ {
            Some(Self::Pfc6RxPkts)
        } else if s == "SAI_PORT_STAT_PFC_6_TX_PKTS"@ {
            Some(Self::Pfc6TxPkts)
        } else if s == "SAI_PORT_STAT_PFC_7_RX_PKTS"@ {
            Some(Self::Pfc7RxPkts)
        } else if s == "SAI_PORT_STAT_PFC_7_TX_PKTS"@ {
            Some(Self::Pfc7TxPkts)
        } else if s == "SAI_PORT_STAT_PFC_0_RX_PAUSE_DURATION"@ {
            Some(Self::Pfc0RxPauseDuration)
        } else if s == "SAI_PORT_STAT_PFC_0_TX_PAUSE_DURATION"@ {
            Some(Self::Pfc0TxPauseDuration)
        } else if s == "SAI_PORT_STAT_PFC_1_RX_PAUSE_DURATION"@ {
            Some(Self::Pfc1RxPauseDuration)
        } else if s == "SAI_PORT_STAT_PFC_1_TX_PAUSE_DURATION"@ {
            Some(Self::Pfc1TxPauseDuration)
        } else if s == "SAI_PORT_STAT_PFC_2_RX_PAUSE_DURATION"@ {
            Some(Self::Pfc2RxPauseDuration)
        } else if s == "SAI_PORT_STAT_PFC_2_TX_PAUSE_DURATION"@ {
            Some(Self::Pfc2TxPauseDuration)
        } else if s == "SAI_PORT_STAT_PFC_3_RX_PAUSE_DURATION"@ {
            Some(Self::Pfc3RxPauseDuration)
        } else if s == "SAI_PORT_STAT_PFC_3_TX_PAUSE_DURATION"@ {
            Some(Self::Pfc3TxPauseDuration)
        } else if s == "SAI_PORT_STAT_PFC_4_RX_PAUSE_DURATION"@ {
            Some(Self::Pfc4RxPauseDuration)
        } else if s == "SAI_PORT_STAT_PFC_4_TX_PAUSE_DURATION"@ {
            Some(Self::Pfc4TxPauseDuration)
        } else if s == "SAI_PORT_STAT_PFC_5_RX_PAUSE_DURATION"@ {
            Some(Self::Pfc5RxPauseDuration)
        } else if s == "SAI_PORT_STAT_PFC_5_TX_PAUSE_DURATION"@ {
            Some(Self::Pfc5TxPauseDuration)
        } else if s == "SAI_PORT_STAT_PFC_6_RX_PAUSE_DURATION"@ {
            Some(Self::Pfc6RxPauseDuration)
        } else if s == "SAI_PORT_STAT_PFC_6_TX_PAUSE_DURATION"@ {
            Some(Self::Pfc6TxPauseDuration)
        } else if s == "SAI_PORT_STAT_PFC_7_RX_PAUSE_DURATION"@ {
            Some(Self::Pfc7RxPauseDuration)
        } else if s == "SAI_PORT_STAT_PFC_7_TX_PAUSE_DURATION"@ {
            Some(Self::Pfc7TxPauseDuration)
        } else if s == "SAI_PORT_STAT_PFC_0_RX_PAUSE_DURATION_US"@ {
            Some(Self::Pfc0RxPauseDurationUs)
        } else if s == "SAI_PORT_STAT_PFC_0_TX_PAUSE_DURATION_US"@ {
            Some(Self::Pfc0TxPauseDurationUs)
        } else if s == "SAI_PORT_STAT_PFC_1_RX_PAUSE_DURATION_US"@ {
            Some(Self::Pfc1RxPauseDurationUs)
        } else if s == "SAI_PORT_STAT_PFC_1_TX_PAUSE_DURATION_US"@ {
            Some(Self::Pfc1TxPauseDurationUs)
        } else if s == "SAI_PORT_STAT_PFC_2_RX_PAUSE_DURATION_US"@ {
            Some(Self::Pfc2RxPauseDurationUs)
        } else if s == "SAI_PORT_STAT_PFC_2_TX_PAUSE_DURATION_US"@ {
            Some(Self::Pfc2TxPauseDurationUs)
        } else if s == "SAI_PORT_STAT_PFC_3_RX_PAUSE_DURATION_US"@ {
            Some(Self::Pfc3RxPauseDurationUs)
        } else if s == "SAI_PORT_STAT_PFC_3_TX_PAUSE_DURATION_US"@ {
            Some(Self::Pfc3TxPauseDurationUs)
        } else if s == "SAI_PORT_STAT_PFC_4_RX_PAUSE_DURATION_US"@ {
            Some(Self::Pfc4RxPauseDurationUs)
        } else if s == "SAI_PORT_STAT_PFC_4_TX_PAUSE_DURATION_US"@ {
            Some(Self::Pfc4TxPauseDurationUs)
        } else if s == "SAI_PORT_STAT_PFC_5_RX_PAUSE_DURATION_US"@ {
            Some(Self::Pfc5RxPauseDurationUs)
        } else if s == "SAI_PORT_STAT_PFC_5_TX_PAUSE_DURATION_US"@ {
            Some(Self::Pfc5TxPauseDurationUs)
        } else if s == "SAI_PORT_STAT_PFC_6_RX_PAUSE_DURATION_US"@ {
            Some(Self::Pfc6RxPauseDurationUs)
        } else if s == "SAI_PORT_STAT_PFC_6_TX_PAUSE_DURATION_US"@ {
            Some(Self::Pfc6TxPauseDurationUs)
        } else if s == "SAI_PORT_STAT_PFC_7_RX_PAUSE_DURATION_US"@ {
            Some(Self::Pfc7RxPauseDurationUs)
        } else if s == "SAI_PORT_STAT_PFC_7_TX_PAUSE_DURATION_US"@ {
            Some(Self::Pfc7TxPauseDurationUs)
        } else if s == "SAI_PORT_STAT_PFC_0_ON2OFF_RX_PKTS"@ {
            Some(Self::Pfc0On2OffRxPkts)
        } else if s == "SAI_PORT_STAT_PFC_1_ON2OFF_RX_PKTS"@ {
            Some(Self::Pfc1On2OffRxPkts)
        } else if s == "SAI_PORT_STAT_PFC_2_ON2OFF_RX_PKTS"@ {
            Some(Self::Pfc2On2OffRxPkts)
        } else if s == "SAI_PORT_STAT_PFC_3_ON2OFF_RX_PKTS"@ {
            Some(Self::Pfc3On2OffRxPkts)
        } else if s == "SAI_PORT_STAT_PFC_4_ON2OFF_RX_PKTS"@ {
            Some(Self::Pfc4On2OffRxPkts)
        } else if s == "SAI_PORT_STAT_PFC_5_ON2OFF_RX_PKTS"@ {
            Some(Self::Pfc5On2OffRxPkts)
        } else if s == "SAI_PORT_STAT_PFC_6_ON2OFF_RX_PKTS"@ {
            Some(Self::Pfc6On2OffRxPkts)
        } else if s == "SAI_PORT_STAT_PFC_7_ON2OFF_RX_PKTS"@ {
            Some(Self::Pfc7On2OffRxPkts)
        } else if s == "SAI_PORT_STAT_DOT3_STATS_ALIGNMENT_ERRORS"@ {
            Some(Self::Dot3StatsAlignmentErrors)
        } else if s == "SAI_PORT_STAT_DOT3_STATS_FCS_ERRORS"@ {
            Some(Self::Dot3StatsFcsErrors)
        } else if s == "SAI_PORT_STAT_DOT3_STATS_SINGLE_COLLISION_FRAMES"@ {
            Some(Self::Dot3StatsSingleCollisionFrames)
        } else if s == "SAI_PORT_STAT_DOT3_STATS_MULTIPLE_COLLISION_FRAMES"@ {
            Some(Self::Dot3StatsMultipleCollisionFrames)
        } else if s == "SAI_PORT_STAT_DOT3_STATS_SQE_TEST_ERRORS"@ {
            Some(Self::Dot3StatsSqeTestErrors)
        } else if s == "SAI_PORT_STAT_DOT3_STATS_DEFERRED_TRANSMISSIONS"@ {
            Some(Self::Dot3StatsDeferredTransmissions)
        } else if s == "SAI_PORT_STAT_DOT3_STATS_LATE_COLLISIONS"@ {
            Some(Self::Dot3StatsLateCollisions)
        } else if s == "SAI_PORT_STAT_DOT3_STATS_EXCESSIVE_COLLISIONS"@ {
            Some(Self::Dot3StatsExcessiveCollisions)
        } else if s == "SAI_PORT_STAT_DOT3_STATS_INTERNAL_MAC_TRANSMIT_ERRORS"@ {
            Some(Self::Dot3StatsInternalMacTransmitErrors)
        } else if s == "SAI_PORT_STAT_DOT3_STATS_CARRIER_SENSE_ERRORS"@ {
            Some(Self::Dot3StatsCarrierSenseErrors)
        } else if s == "SAI_PORT_STAT_DOT3_STATS_FRAME_TOO_LONGS"@ {
            Some(Self::Dot3StatsFrameTooLongs)
        } else if s == "SAI_PORT_STAT_DOT3_STATS_INTERNAL_MAC_RECEIVE_ERRORS"@ {
            Some(Self::Dot3StatsInternalMacReceiveErrors)
        } else if s == "SAI_PORT_STAT_DOT3_STATS_SYMBOL_ERRORS"@ {
            Some(Self::Dot3StatsSymbolErrors)
        } else if s == "SAI_PORT_STAT_DOT3_CONTROL_IN_UNKNOWN_OPCODES"@ {
            Some(Self::Dot3ControlInUnknownOpcodes)
        } else if s == "SAI_PORT_STAT_EEE_TX_EVENT_COUNT"@ {
            Some(Self::EeeTxEventCount)
        } else if s == "SAI_PORT_STAT_EEE_RX_EVENT_COUNT"@ {
            Some(Self::EeeRxEventCount)
        } else if s == "SAI_PORT_STAT_EEE_TX_DURATION"@ {
            Some(Self::EeeTxDuration)
        } else if s == "SAI_PORT_STAT_EEE_RX_DURATION"@ {
            Some(Self::EeeRxDuration)
        } else if s == "SAI_PORT_STAT_PRBS_ERROR_COUNT"@ {
            Some(Self::PrbsErrorCount)
        } else if s == "SAI_PORT_STAT_IF_IN_FEC_CORRECTABLE_FRAMES"@ {
            Some(Self::IfInFecCorrectableFrames)
        } else if s == "SAI_PORT_STAT_IF_IN_FEC_NOT_CORRECTABLE_FRAMES"@ {
            Some(Self::IfInFecNotCorrectableFrames)
        } else if s == "SAI_PORT_STAT_IF_IN_FEC_SYMBOL_ERRORS"@ {
            Some(Self::IfInFecSymbolErrors)
        } else if s == "SAI_PORT_STAT_IF_IN_FABRIC_DATA_UNITS"@ {
            Some(Self::IfInFabricDataUnits)
        } else if s == "SAI_PORT_STAT_IF_OUT_FABRIC_DATA_UNITS"@ {
            Some(Self::IfOutFabricDataUnits)
        } else if s == "SAI_PORT_STAT_IF_IN_FEC_CODEWORD_ERRORS_S0"@ {
            Some(Self::IfInFecCodewordErrorsS0)
        } else if s == "SAI_PORT_STAT_IF_IN_FEC_CODEWORD_ERRORS_S1"@ {
            Some(Self::IfInFecCodewordErrorsS1)
        } else if s == "SAI_PORT_STAT_IF_IN_FEC_CODEWORD_ERRORS_S2"@ {
            Some(Self::IfInFecCodewordErrorsS2)
        } else if s == "SAI_PORT_STAT_IF_IN_FEC_CODEWORD_ERRORS_S3"@ {
            Some(Self::IfInFecCodewordErrorsS3)
        } else if s == "SAI_PORT_STAT_IF_IN_FEC_CODEWORD_ERRORS_S4"@ {
            Some(Self::IfInFecCodewordErrorsS4)
        } else if s == "SAI_PORT_STAT_IF_IN_FEC_CODEWORD_ERRORS_S5"@ {
            Some(Self::IfInFecCodewordErrorsS5)
        } else if s == "SAI_PORT_STAT_IF_IN_FEC_CODEWORD_ERRORS_S6"@ {
            Some(Self::IfInFecCodewordErrorsS6)
        } else if s == "SAI_PORT_STAT_IF_IN_FEC_CODEWORD_ERRORS_S7"@ {
            Some(Self::IfInFecCodewordErrorsS7)
        } else if s == "SAI_PORT_STAT_IF_IN_FEC_CODEWORD_ERRORS_S8"@ {
            Some(Self::IfInFecCodewordErrorsS8)
        } else if s == "SAI_PORT_STAT_IF_IN_FEC_CODEWORD_ERRORS_S9"@ {
            Some(Self::IfInFecCodewordErrorsS9)
        } else if s == "SAI_PORT_STAT_IF_IN_FEC_CODEWORD_ERRORS_S10"@ {
            Some(Self::IfInFecCodewordErrorsS10)
        } else if s == "SAI_PORT_STAT_IF_IN_FEC_CODEWORD_ERRORS_S11"@ {
            Some(Self::IfInFecCodewordErrorsS11)
        } else if s == "SAI_PORT_STAT_IF_IN_FEC_CODEWORD_ERRORS_S12"@ {
            Some(Self::IfInFecCodewordErrorsS12)
        } else if s == "SAI_PORT_STAT_IF_IN_FEC_CODEWORD_ERRORS_S13"@ {
            Some(Self::IfInFecCodewordErrorsS13)
        } else if s == "SAI_PORT_STAT_IF_IN_FEC_CODEWORD_ERRORS_S14"@ {
            Some(Self::IfInFecCodewordErrorsS14)
        } else if s == "SAI_PORT_STAT_IF_IN_FEC_CODEWORD_ERRORS_S15"@ {
            Some(Self::IfInFecCodewordErrorsS15)
        } else if s == "SAI_PORT_STAT_IF_IN_FEC_CODEWORD_ERRORS_S16"@ {
            Some(Self::IfInFecCodewordErrorsS16)
        } else if s == "SAI_PORT_STAT_IF_IN_FEC_CORRECTED_BITS"@ {
            Some(Self::IfInFecCorrectedBits)
        } else if s == "SAI_PORT_STAT_TRIM_PACKETS"@ {
            Some(Self::TrimPackets)
        } else if s == "SAI_PORT_STAT_DROPPED_TRIM_PACKETS"@ {
            Some(Self::DroppedTrimPackets)
        } else if s == "SAI_PORT_STAT_TX_TRIM_PACKETS"@ {
            Some(Self::TxTrimPackets)
        } else if s == "SAI_PORT_STAT_IN_CONFIGURED_DROP_REASONS_0_DROPPED_PKTS"@ {
            Some(Self::InConfiguredDropReasons0DroppedPkts)
        } else if s == "SAI_PORT_STAT_IN_CONFIGURED_DROP_REASONS_1_DROPPED_PKTS"@ {
            Some(Self::InConfiguredDropReasons1DroppedPkts)
        } else if s == "SAI_PORT_STAT_IN_CONFIGURED_DROP_REASONS_2_DROPPED_PKTS"@ {
            Some(Self::InConfiguredDropReasons2DroppedPkts)
        } else if s == "SAI_PORT_STAT_IN_CONFIGURED_DROP_REASONS_3_DROPPED_PKTS"@ {
            Some(Self::InConfiguredDropReasons3DroppedPkts)
        } else if s == "SAI_PORT_STAT_IN_CONFIGURED_DROP_REASONS_4_DROPPED_PKTS"@ {
            Some(Self::InConfiguredDropReasons4DroppedPkts)
        } else if s == "SAI_PORT_STAT_IN_CONFIGURED_DROP_REASONS_5_DROPPED_PKTS"@ {
            Some(Self::InConfiguredDropReasons5DroppedPkts)
        } else if s == "SAI_PORT_STAT_IN_CONFIGURED_DROP_REASONS_6_DROPPED_PKTS"@ {
            Some(Self::InConfiguredDropReasons6DroppedPkts)
        } else if s == "SAI_PORT_STAT_IN_CONFIGURED_DROP_REASONS_7_DROPPED_PKTS"@ {
            Some(Self::InConfiguredDropReasons7DroppedPkts)
        } else if s == "SAI_PORT_STAT_IN_CONFIGURED_DROP_REASONS_8_DROPPED_PKTS"@ {
            Some(Self::InConfiguredDropReasons8DroppedPkts)
        } else if s == "SAI_PORT_STAT_IN_CONFIGURED_DROP_REASONS_9_DROPPED_PKTS"@ {
            Some(Self::InConfiguredDropReasons9DroppedPkts)
        } else if s == "SAI_PORT_STAT_IN_CONFIGURED_DROP_REASONS_10_DROPPED_PKTS"@ {
            Some(Self::InConfiguredDropReasons10DroppedPkts)
        } else if s == "SAI_PORT_STAT_IN_CONFIGURED_DROP_REASONS_11_DROPPED_PKTS"@ {
            Some(Self::InConfiguredDropReasons11DroppedPkts)
        } else if s == "SAI_PORT_STAT_IN_CONFIGURED_DROP_REASONS_12_DROPPED_PKTS"@ {
            Some(Self::InConfiguredDropReasons12DroppedPkts)
        } else if s == "SAI_PORT_STAT_IN_CONFIGURED_DROP_REASONS_13_DROPPED_PKTS"@ {
            Some(Self::InConfiguredDropReasons13DroppedPkts)
        } else if s == "SAI_PORT_STAT_IN_CONFIGURED_DROP_REASONS_14_DROPPED_PKTS"@ {
            Some(Self::InConfiguredDropReasons14DroppedPkts)
        } else if s == "SAI_PORT_STAT_IN_CONFIGURED_DROP_REASONS_15_DROPPED_PKTS"@ {
            Some(Self::InConfiguredDropReasons15DroppedPkts)
        } else if s == "SAI_PORT_STAT_OUT_CONFIGURED_DROP_REASONS_0_DROPPED_PKTS"@ {
            Some(Self::OutConfiguredDropReasons0DroppedPkts)
        } else if s == "SAI_PORT_STAT_OUT_CONFIGURED_DROP_REASONS_1_DROPPED_PKTS"@ {
            Some(Self::OutConfiguredDropReasons1DroppedPkts)
        } else if s == "SAI_PORT_STAT_OUT_CONFIGURED_DROP_REASONS_2_DROPPED_PKTS"@ {
            Some(Self::OutConfiguredDropReasons2DroppedPkts)
        } else if s == "SAI_PORT_STAT_OUT_CONFIGURED_DROP_REASONS_3_DROPPED_PKTS"@ {
            Some(Self::OutConfiguredDropReasons3DroppedPkts)
        } else if s == "SAI_PORT_STAT_OUT_CONFIGURED_DROP_REASONS_4_DROPPED_PKTS"@ {
            Some(Self::OutConfiguredDropReasons4DroppedPkts)
        } else if s == "SAI_PORT_STAT_OUT_CONFIGURED_DROP_REASONS_5_DROPPED_PKTS"@ {
            Some(Self::OutConfiguredDropReasons5DroppedPkts)
        } else if s == "SAI_PORT_STAT_OUT_CONFIGURED_DROP_REASONS_6_DROPPED_PKTS"@ {
            Some(Self::OutConfiguredDropReasons6DroppedPkts)
        } else if s == "SAI_PORT_STAT_OUT_CONFIGURED_DROP_REASONS_7_DROPPED_PKTS"@ {
            Some(Self::OutConfiguredDropReasons7DroppedPkts)
        } else if s == "SAI_PORT_STAT_IF_IN_HW_PROTECTION_SWITCHOVER_EVENTS"@ {
            Some(Self::IfInHwProtectionSwitchoverEvents)
        } else if s == "SAI_PORT_STAT_IF_IN_HW_PROTECTION_SWITCHOVER_DROP_PKTS"@ {
            Some(Self::IfInHwProtectionSwitchoverDropPkts)
        } else if s == "SAI_PORT_STAT_ETHER_IN_PKTS_1519_TO_2500_OCTETS"@ {
            Some(Self::EtherInPkts1519To2500Octets)
        } else if s == "SAI_PORT_STAT_ETHER_IN_PKTS_2501_TO_9000_OCTETS"@ {
            Some(Self::EtherInPkts2501To9000Octets)
        } else if s == "SAI_PORT_STAT_ETHER_IN_PKTS_9001_TO_16383_OCTETS"@ {
            Some(Self::EtherInPkts9001To16383Octets)
        } else if s == "SAI_PORT_STAT_ETHER_OUT_PKTS_1519_TO_2500_OCTETS"@ {
            Some(Self::EtherOutPkts1519To2500Octets)
        } else if s == "SAI_PORT_STAT_ETHER_OUT_PKTS_2501_TO_9000_OCTETS"@ {
            Some(Self::EtherOutPkts2501To9000Octets)
        } else if s == "SAI_PORT_STAT_ETHER_OUT_PKTS_9001_TO_16383_OCTETS"@ {
            Some(Self::EtherOutPkts9001To16383Octets)
        } else if s == "SAI_PORT_STAT_END"@ {
            Some(Self::End)
        } else {
            None
        }
    }

    /// Each C name leads back to its own statistic: no two statistics share
    /// a name.
    #[verifier::rlimit(100)]
    pub proof fn lemma_c_name_lookup(v: Self)
        ensures
            Self::spec_from_c_name(v.spec_c_name()) == Some(v),
            Self::spec_from_c_name("SAI_PORT_STAT_START"@) is None,
    {
        reveal_strlit("SAI_PORT_STAT_IF_IN_OCTETS");
        assert("SAI_PORT_STAT_IF_IN_OCTETS"@.len() == 26);
        assert("SAI_PORT_STAT_IF_IN_OCTETS"@[14] == 'I');
        assert("SAI_PORT_STAT_IF_IN_OCTETS"@[15] == 'F');
        assert("SAI_PORT_STAT_IF_IN_OCTETS"@[20] == 'O');
        reveal_strlit("SAI_PORT_STAT_IF_IN_UCAST_PKTS");
        assert("SAI_PORT_STAT_IF_IN_UCAST_PKTS"@.len() == 30);
        assert("SAI_PORT_STAT_IF_IN_UCAST_PKTS"@[14] == 'I');
        assert("SAI_PORT_STAT_IF_IN_UCAST_PKTS"@[15] == 'F');
        reveal_strlit("SAI_PORT_STAT_IF_IN_NON_UCAST_PKTS");
        assert("SAI_PORT_STAT_IF_IN_NON_UCAST_PKTS"@.len() == 34);
        assert("SAI_PORT_STAT_IF_IN_NON_UCAST_PKTS"@[14] == 'I');
        assert("SAI_PORT_STAT_IF_IN_NON_UCAST_PKTS"@[15] == 'F');
        assert("SAI_PORT_STAT_IF_IN_NON_UCAST_PKTS"@[20] == 'N');
        reveal_strlit("SAI_PORT_STAT_IF_IN_DISCARDS");
        assert("SAI_PORT_STAT_IF_IN_DISCARDS"@.len() == 28);
        assert("SAI_PORT_STAT_IF_IN_DISCARDS"@[15] == 'F');
        reveal_strlit("SAI_PORT_STAT_IF_IN_ERRORS");
        assert("SAI_PORT_STAT_IF_IN_ERRORS"@.len() == 26);
        assert("SAI_PORT_STAT_IF_IN_ERRORS"@[14] == 'I');
        assert("SAI_PORT_STAT_IF_IN_ERRORS"@[15] == 'F');
        assert("SAI_PORT_STAT_IF_IN_ERRORS"@[20] == 'E');
        reveal_strlit("SAI_PORT_STAT_IF_IN_UNKNOWN_PROTOS");
        assert("SAI_PORT_STAT_IF_IN_UNKNOWN_PROTOS"@.len() == 34);
        assert("SAI_PORT_STAT_IF_IN_UNKNOWN_PROTOS"@[14] == 'I');
        assert("SAI_PORT_STAT_IF_IN_UNKNOWN_PROTOS"@[15] == 'F');
        assert("SAI_PORT_STAT_IF_IN_UNKNOWN_PROTOS"@[20] == 'U');
        reveal_strlit("SAI_PORT_STAT_IF_IN_BROADCAST_PKTS");
        assert("SAI_PORT_STAT_IF_IN_BROADCAST_PKTS"@.len() == 34);
        assert("SAI_PORT_STAT_IF_IN_BROADCAST_PKTS"@[14] == 'I');
        assert("SAI_PORT_STAT_IF_IN_BROADCAST_PKTS"@[15] == 'F');
        assert("SAI_PORT_STAT_IF_IN_BROADCAST_PKTS"@[20] == 'B');
        reveal_strlit("SAI_PORT_STAT_IF_IN_MULTICAST_PKTS");
        assert("SAI_PORT_STAT_IF_IN_MULTICAST_PKTS"@.len() == 34);
        assert("SAI_PORT_STAT_IF_IN_MULTICAST_PKTS"@[14] == 'I');
        assert("SAI_PORT_STAT_IF_IN_MULTICAST_PKTS"@[15] == 'F');
        assert("SAI_PORT_STAT_IF_IN_MULTICAST_PKTS"@[20] == 'M');
        reveal_strlit("SAI_PORT_STAT_IF_IN_VLAN_DISCARDS");
        assert("SAI_PORT_STAT_IF_IN_VLAN_DISCARDS"@.len() == 33);
        assert("SAI_PORT_STAT_IF_IN_VLAN_DISCARDS"@[14] == 'I');
        assert("SAI_PORT_STAT_IF_IN_VLAN_DISCARDS"@[15] == 'F');
        reveal_strlit("SAI_PORT_STAT_IF_OUT_OCTETS");
        assert("SAI_PORT_STAT_IF_OUT_OCTETS"@.len() == 27);
        assert("SAI_PORT_STAT_IF_OUT_OCTETS"@[14] == 'I');
        assert("SAI_PORT_STAT_IF_OUT_OCTETS"@[15] == 'F');
        assert("SAI_PORT_STAT_IF_OUT_OCTETS"@[21] == 'O');
        reveal_strlit("SAI_PORT_STAT_IF_OUT_UCAST_PKTS");
        assert("SAI_PORT_STAT_IF_OUT_UCAST_PKTS"@.len() == 31);
        assert("SAI_PORT_STAT_IF_OUT_UCAST_PKTS"@[15] == 'F');
        reveal_strlit("SAI_PORT_STAT_IF_OUT_NON_UCAST_PKTS");
        assert("SAI_PORT_STAT_IF_OUT_NON_UCAST_PKTS"@.len() == 35);
        assert("SAI_PORT_STAT_IF_OUT_NON_UCAST_PKTS"@[14] == 'I');
        assert("SAI_PORT_STAT_IF_OUT_NON_UCAST_PKTS"@[15] == 'F');
        assert("SAI_PORT_STAT_IF_OUT_NON_UCAST_PKTS"@[21] == 'N');
        reveal_strlit("SAI_PORT_STAT_IF_OUT_DISCARDS");
        assert("SAI_PORT_STAT_IF_OUT_DISCARDS"@.len() == 29);
        assert("SAI_PORT_STAT_IF_OUT_DISCARDS"@[14] == 'I');
        assert("SAI_PORT_STAT_IF_OUT_DISCARDS"@[15] == 'F');
        reveal_strlit("SAI_PORT_STAT_IF_OUT_ERRORS");
        assert("SAI_PORT_STAT_IF_OUT_ERRORS"@.len() == 27);
        assert("SAI_PORT_STAT_IF_OUT_ERRORS"@[14] == 'I');
        assert("SAI_PORT_STAT_IF_OUT_ERRORS"@[15] == 'F');
        assert("SAI_PORT_STAT_IF_OUT_ERRORS"@[21] == 'E');
        reveal_strlit("SAI_PORT_STAT_IF_OUT_QLEN");
        assert("SAI_PORT_STAT_IF_OUT_QLEN"@.len() == 25);
        reveal_strlit("SAI_PORT_STAT_IF_OUT_BROADCAST_PKTS");
        assert("SAI_PORT_STAT_IF_OUT_BROADCAST_PKTS"@.len() == 35);
        assert("SAI_PORT_STAT_IF_OUT_BROADCAST_PKTS"@[14] == 'I');
        assert("SAI_PORT_STAT_IF_OUT_BROADCAST_PKTS"@[15] == 'F');
        assert("SAI_PORT_STAT_IF_OUT_BROADCAST_PKTS"@[21] == 'B');
        reveal_strlit("SAI_PORT_STAT_IF_OUT_MULTICAST_PKTS");
        assert("SAI_PORT_STAT_IF_OUT_MULTICAST_PKTS"@.len() == 35);
        assert("SAI_PORT_STAT_IF_OUT_MULTICAST_PKTS"@[14] == 'I');
        assert("SAI_PORT_STAT_IF_OUT_MULTICAST_PKTS"@[15] == 'F');
        assert("SAI_PORT_STAT_IF_OUT_MULTICAST_PKTS"@[21] == 'M');
        reveal_strlit("SAI_PORT_STAT_ETHER_STATS_DROP_EVENTS");
        assert("SAI_PORT_STAT_ETHER_STATS_DROP_EVENTS"@.len() == 37);
        assert("SAI_PORT_STAT_ETHER_STATS_DROP_EVENTS"@[14] == 'E');
        assert("SAI_PORT_STAT_ETHER_STATS_DROP_EVENTS"@[20] == 'S');
        reveal_strlit("SAI_PORT_STAT_ETHER_STATS_MULTICAST_PKTS");
        assert("SAI_PORT_STAT_ETHER_STATS_MULTICAST_PKTS"@.len() == 40);
        assert("SAI_PORT_STAT_ETHER_STATS_MULTICAST_PKTS"@[14] == 'E');
        assert("SAI_PORT_STAT_ETHER_STATS_MULTICAST_PKTS"@[26] == 'M');
        reveal_strlit("SAI_PORT_STAT_ETHER_STATS_BROADCAST_PKTS");
        assert("SAI_PORT_STAT_ETHER_STATS_BROADCAST_PKTS"@.len() == 40);
        assert("SAI_PORT_STAT_ETHER_STATS_BROADCAST_PKTS"@[14] == 'E');
        assert("SAI_PORT_STAT_ETHER_STATS_BROADCAST_PKTS"@[26] == 'B');
        reveal_strlit("SAI_PORT_STAT_ETHER_STATS_UNDERSIZE_PKTS");
        assert("SAI_PORT_STAT_ETHER_STATS_UNDERSIZE_PKTS"@.len() == 40);
        assert("SAI_PORT_STAT_ETHER_STATS_UNDERSIZE_PKTS"@[14] == 'E');
        assert("SAI_PORT_STAT_ETHER_STATS_UNDERSIZE_PKTS"@[26] == 'U');
        reveal_strlit("SAI_PORT_STAT_ETHER_STATS_FRAGMENTS");
        assert("SAI_PORT_STAT_ETHER_STATS_FRAGMENTS"@.len() == 35);
        assert("SAI_PORT_STAT_ETHER_STATS_FRAGMENTS"@[14] == 'E');
        reveal_strlit("SAI_PORT_STAT_ETHER_STATS_PKTS_64_OCTETS");
        assert("SAI_PORT_STAT_ETHER_STATS_PKTS_64_OCTETS"@.len() == 40);
        assert("SAI_PORT_STAT_ETHER_STATS_PKTS_64_OCTETS"@[14] == 'E');
        assert("SAI_PORT_STAT_ETHER_STATS_PKTS_64_OCTETS"@[26] == 'P');
        reveal_strlit("SAI_PORT_STAT_ETHER_STATS_PKTS_65_TO_127_OCTETS");
        assert("SAI_PORT_STAT_ETHER_STATS_PKTS_65_TO_127_OCTETS"@.len() == 47);
        assert("SAI_PORT_STAT_ETHER_STATS_PKTS_65_TO_127_OCTETS"@[14] == 'E');
        assert("SAI_PORT_STAT_ETHER_STATS_PKTS_65_TO_127_OCTETS"@[20] == 'S');
        reveal_strlit("SAI_PORT_STAT_ETHER_STATS_PKTS_128_TO_255_OCTETS");
        assert("SAI_PORT_STAT_ETHER_STATS_PKTS_128_TO_255_OCTETS"@.len() == 48);
        assert("SAI_PORT_STAT_ETHER_STATS_PKTS_128_TO_255_OCTETS"@[14] == 'E');
        assert("SAI_PORT_STAT_ETHER_STATS_PKTS_128_TO_255_OCTETS"@[20] == 'S');
        assert("SAI_PORT_STAT_ETHER_STATS_PKTS_128_TO_255_OCTETS"@[31] == '1');
        reveal_strlit("SAI_PORT_STAT_ETHER_STATS_PKTS_256_TO_511_OCTETS");
        assert("SAI_PORT_STAT_ETHER_STATS_PKTS_256_TO_511_OCTETS"@.len() == 48);
        assert("SAI_PORT_STAT_ETHER_STATS_PKTS_256_TO_511_OCTETS"@[14] == 'E');
        assert("SAI_PORT_STAT_ETHER_STATS_PKTS_256_TO_511_OCTETS"@[20] == 'S');
        assert("SAI_PORT_STAT_ETHER_STATS_PKTS_256_TO_511_OCTETS"@[31] == '2');
        reveal_strlit("SAI_PORT_STAT_ETHER_STATS_PKTS_512_TO_1023_OCTETS");
        assert("SAI_PORT_STAT_ETHER_STATS_PKTS_512_TO_1023_OCTETS"@.len() == 49);
        assert("SAI_PORT_STAT_ETHER_STATS_PKTS_512_TO_1023_OCTETS"@[20] == 'S');
        reveal_strlit("SAI_PORT_STAT_ETHER_STATS_PKTS_1024_TO_1518_OCTETS");
        assert("SAI_PORT_STAT_ETHER_STATS_PKTS_1024_TO_1518_OCTETS"@.len() == 50);
        assert("SAI_PORT_STAT_ETHER_STATS_PKTS_1024_TO_1518_OCTETS"@[14] == 'E');
        assert("SAI_PORT_STAT_ETHER_STATS_PKTS_1024_TO_1518_OCTETS"@[31] == '1');
        assert("SAI_PORT_STAT_ETHER_STATS_PKTS_1024_TO_1518_OCTETS"@[32] == '0');
        reveal_strlit("SAI_PORT_STAT_ETHER_STATS_PKTS_1519_TO_2047_OCTETS");
        assert("SAI_PORT_STAT_ETHER_STATS_PKTS_1519_TO_2047_OCTETS"@.len() == 50);
        assert("SAI_PORT_STAT_ETHER_STATS_PKTS_1519_TO_2047_OCTETS"@[14] == 'E');
        assert("SAI_PORT_STAT_ETHER_STATS_PKTS_1519_TO_2047_OCTETS"@[31] == '1');
        assert("SAI_PORT_STAT_ETHER_STATS_PKTS_1519_TO_2047_OCTETS"@[32] == '5');
        reveal_strlit("SAI_PORT_STAT_ETHER_STATS_PKTS_2048_TO_4095_OCTETS");
        assert("SAI_PORT_STAT_ETHER_STATS_PKTS_2048_TO_4095_OCTETS"@.len() == 50);
        assert("SAI_PORT_STAT_ETHER_STATS_PKTS_2048_TO_4095_OCTETS"@[14] == 'E');
        assert("SAI_PORT_STAT_ETHER_STATS_PKTS_2048_TO_4095_OCTETS"@[31] == '2');
        reveal_strlit("SAI_PORT_STAT_ETHER_STATS_PKTS_4096_TO_9216_OCTETS");
        assert("SAI_PORT_STAT_ETHER_STATS_PKTS_4096_TO_9216_OCTETS"@.len() == 50);
        assert("SAI_PORT_STAT_ETHER_STATS_PKTS_4096_TO_9216_OCTETS"@[14] == 'E');
        assert("SAI_PORT_STAT_ETHER_STATS_PKTS_4096_TO_9216_OCTETS"@[31] == '4');
        reveal_strlit("SAI_PORT_STAT_ETHER_STATS_PKTS_9217_TO_16383_OCTETS");
        assert("SAI_PORT_STAT_ETHER_STATS_PKTS_9217_TO_16383_OCTETS"@.len() == 51);
        assert("SAI_PORT_STAT_ETHER_STATS_PKTS_9217_TO_16383_OCTETS"@[14] == 'E');
        reveal_strlit("SAI_PORT_STAT_ETHER_STATS_OVERSIZE_PKTS");
        assert("SAI_PORT_STAT_ETHER_STATS_OVERSIZE_PKTS"@.len() == 39);
        assert("SAI_PORT_STAT_ETHER_STATS_OVERSIZE_PKTS"@[14] == 'E');
        reveal_strlit("SAI_PORT_STAT_ETHER_RX_OVERSIZE_PKTS");
        assert("SAI_PORT_STAT_ETHER_RX_OVERSIZE_PKTS"@.len() == 36);
        assert("SAI_PORT_STAT_ETHER_RX_OVERSIZE_PKTS"@[14] == 'E');
        assert("SAI_PORT_STAT_ETHER_RX_OVERSIZE_PKTS"@[20] == 'R');
        reveal_strlit("SAI_PORT_STAT_ETHER_TX_OVERSIZE_PKTS");
        assert("SAI_PORT_STAT_ETHER_TX_OVERSIZE_PKTS"@.len() == 36);
        assert("SAI_PORT_STAT_ETHER_TX_OVERSIZE_PKTS"@[14] == 'E');
        assert("SAI_PORT_STAT_ETHER_TX_OVERSIZE_PKTS"@[20] == 'T');
        reveal_strlit("SAI_PORT_STAT_ETHER_STATS_JABBERS");
        assert("SAI_PORT_STAT_ETHER_STATS_JABBERS"@.len() == 33);
        assert("SAI_PORT_STAT_ETHER_STATS_JABBERS"@[14] == 'E');
        reveal_strlit("SAI_PORT_STAT_ETHER_STATS_OCTETS");
        assert("SAI_PORT_STAT_ETHER_STATS_OCTETS"@.len() == 32);
        assert("SAI_PORT_STAT_ETHER_STATS_OCTETS"@[14] == 'E');
        assert("SAI_PORT_STAT_ETHER_STATS_OCTETS"@[15] == 'T');
        reveal_strlit("SAI_PORT_STAT_ETHER_STATS_PKTS");
        assert("SAI_PORT_STAT_ETHER_STATS_PKTS"@.len() == 30);
        assert("SAI_PORT_STAT_ETHER_STATS_PKTS"@[14] == 'E');
        reveal_strlit("SAI_PORT_STAT_ETHER_STATS_COLLISIONS");
        assert("SAI_PORT_STAT_ETHER_STATS_COLLISIONS"@.len() == 36);
        assert("SAI_PORT_STAT_ETHER_STATS_COLLISIONS"@[14] == 'E');
        assert("SAI_PORT_STAT_ETHER_STATS_COLLISIONS"@[20] == 'S');
        reveal_strlit("SAI_PORT_STAT_ETHER_STATS_CRC_ALIGN_ERRORS");
        assert("SAI_PORT_STAT_ETHER_STATS_CRC_ALIGN_ERRORS"@.len() == 42);
        assert("SAI_PORT_STAT_ETHER_STATS_CRC_ALIGN_ERRORS"@[14] == 'E');
        reveal_strlit("SAI_PORT_STAT_ETHER_STATS_TX_NO_ERRORS");
        assert("SAI_PORT_STAT_ETHER_STATS_TX_NO_ERRORS"@.len() == 38);
        assert("SAI_PORT_STAT_ETHER_STATS_TX_NO_ERRORS"@[14] == 'E');
        assert("SAI_PORT_STAT_ETHER_STATS_TX_NO_ERRORS"@[20] == 'S');
        assert("SAI_PORT_STAT_ETHER_STATS_TX_NO_ERRORS"@[26] == 'T');
        reveal_strlit("SAI_PORT_STAT_ETHER_STATS_RX_NO_ERRORS");
        assert("SAI_PORT_STAT_ETHER_STATS_RX_NO_ERRORS"@.len() == 38);
        assert("SAI_PORT_STAT_ETHER_STATS_RX_NO_ERRORS"@[14] == 'E');
        assert("SAI_PORT_STAT_ETHER_STATS_RX_NO_ERRORS"@[20] == 'S');
        assert("SAI_PORT_STAT_ETHER_STATS_RX_NO_ERRORS"@[26] == 'R');
        reveal_strlit("SAI_PORT_STAT_IP_IN_RECEIVES");
        assert("SAI_PORT_STAT_IP_IN_RECEIVES"@.len() == 28);
        assert("SAI_PORT_STAT_IP_IN_RECEIVES"@[15] == 'P');
        assert("SAI_PORT_STAT_IP_IN_RECEIVES"@[16] == '_');
        assert("SAI_PORT_STAT_IP_IN_RECEIVES"@[20] == 'R');
        reveal_strlit("SAI_PORT_STAT_IP_IN_OCTETS");
        assert("SAI_PORT_STAT_IP_IN_OCTETS"@.len() == 26);
        assert("SAI_PORT_STAT_IP_IN_OCTETS"@[14] == 'I');
        assert("SAI_PORT_STAT_IP_IN_OCTETS"@[15] == 'P');
        reveal_strlit("SAI_PORT_STAT_IP_IN_UCAST_PKTS");
        assert("SAI_PORT_STAT_IP_IN_UCAST_PKTS"@.len() == 30);
        assert("SAI_PORT_STAT_IP_IN_UCAST_PKTS"@[14] == 'I');
        assert("SAI_PORT_STAT_IP_IN_UCAST_PKTS"@[15] == 'P');
        assert("SAI_PORT_STAT_IP_IN_UCAST_PKTS"@[16] == '_');
        reveal_strlit("SAI_PORT_STAT_IP_IN_NON_UCAST_PKTS");
        assert("SAI_PORT_STAT_IP_IN_NON_UCAST_PKTS"@.len() == 34);
        assert("SAI_PORT_STAT_IP_IN_NON_UCAST_PKTS"@[14] == 'I');
        assert("SAI_PORT_STAT_IP_IN_NON_UCAST_PKTS"@[15] == 'P');
        reveal_strlit("SAI_PORT_STAT_IP_IN_DISCARDS");
        assert("SAI_PORT_STAT_IP_IN_DISCARDS"@.len() == 28);
        assert("SAI_PORT_STAT_IP_IN_DISCARDS"@[15] == 'P');
        assert("SAI_PORT_STAT_IP_IN_DISCARDS"@[16] == '_');
        assert("SAI_PORT_STAT_IP_IN_DISCARDS"@[20] == 'D');
        reveal_strlit("SAI_PORT_STAT_IP_OUT_OCTETS");
        assert("SAI_PORT_STAT_IP_OUT_OCTETS"@.len() == 27);
        assert("SAI_PORT_STAT_IP_OUT_OCTETS"@[14] == 'I');
        assert("SAI_PORT_STAT_IP_OUT_OCTETS"@[15] == 'P');
        reveal_strlit("SAI_PORT_STAT_IP_OUT_UCAST_PKTS");
        assert("SAI_PORT_STAT_IP_OUT_UCAST_PKTS"@.len() == 31);
        assert("SAI_PORT_STAT_IP_OUT_UCAST_PKTS"@[15] == 'P');
        assert("SAI_PORT_STAT_IP_OUT_UCAST_PKTS"@[16] == '_');
        reveal_strlit("SAI_PORT_STAT_IP_OUT_NON_UCAST_PKTS");
        assert("SAI_PORT_STAT_IP_OUT_NON_UCAST_PKTS"@.len() == 35);
        assert("SAI_PORT_STAT_IP_OUT_NON_UCAST_PKTS"@[14] == 'I');
        assert("SAI_PORT_STAT_IP_OUT_NON_UCAST_PKTS"@[15] == 'P');
        reveal_strlit("SAI_PORT_STAT_IP_OUT_DISCARDS");
        assert("SAI_PORT_STAT_IP_OUT_DISCARDS"@.len() == 29);
        assert("SAI_PORT_STAT_IP_OUT_DISCARDS"@[14] == 'I');
        assert("SAI_PORT_STAT_IP_OUT_DISCARDS"@[15] == 'P');
        assert("SAI_PORT_STAT_IP_OUT_DISCARDS"@[16] == '_');
        reveal_strlit("SAI_PORT_STAT_IPV6_IN_RECEIVES");
        assert("SAI_PORT_STAT_IPV6_IN_RECEIVES"@.len() == 30);
        assert("SAI_PORT_STAT_IPV6_IN_RECEIVES"@[14] == 'I');
        assert("SAI_PORT_STAT_IPV6_IN_RECEIVES"@[15] == 'P');
        assert("SAI_PORT_STAT_IPV6_IN_RECEIVES"@[16] == 'V');
        assert("SAI_PORT_STAT_IPV6_IN_RECEIVES"@[22] == 'R');
        reveal_strlit("SAI_PORT_STAT_IPV6_IN_OCTETS");
        assert("SAI_PORT_STAT_IPV6_IN_OCTETS"@.len() == 28);
        assert("SAI_PORT_STAT_IPV6_IN_OCTETS"@[15] == 'P');
        assert("SAI_PORT_STAT_IPV6_IN_OCTETS"@[16] == 'V');
        reveal_strlit("SAI_PORT_STAT_IPV6_IN_UCAST_PKTS");
        assert("SAI_PORT_STAT_IPV6_IN_UCAST_PKTS"@.len() == 32);
        assert("SAI_PORT_STAT_IPV6_IN_UCAST_PKTS"@[14] == 'I');
        assert("SAI_PORT_STAT_IPV6_IN_UCAST_PKTS"@[15] == 'P');
        assert("SAI_PORT_STAT_IPV6_IN_UCAST_PKTS"@[22] == 'U');
        reveal_strlit("SAI_PORT_STAT_IPV6_IN_NON_UCAST_PKTS");
        assert("SAI_PORT_STAT_IPV6_IN_NON_UCAST_PKTS"@.len() == 36);
        assert("SAI_PORT_STAT_IPV6_IN_NON_UCAST_PKTS"@[14] == 'I');
        reveal_strlit("SAI_PORT_STAT_IPV6_IN_MCAST_PKTS");
        assert("SAI_PORT_STAT_IPV6_IN_MCAST_PKTS"@.len() == 32);
        assert("SAI_PORT_STAT_IPV6_IN_MCAST_PKTS"@[14] == 'I');
        assert("SAI_PORT_STAT_IPV6_IN_MCAST_PKTS"@[15] == 'P');
        assert("SAI_PORT_STAT_IPV6_IN_MCAST_PKTS"@[22] == 'M');
        reveal_strlit("SAI_PORT_STAT_IPV6_IN_DISCARDS");
        assert("SAI_PORT_STAT_IPV6_IN_DISCARDS"@.len() == 30);
        assert("SAI_PORT_STAT_IPV6_IN_DISCARDS"@[14] == 'I');
        assert("SAI_PORT_STAT_IPV6_IN_DISCARDS"@[15] == 'P');
        assert("SAI_PORT_STAT_IPV6_IN_DISCARDS"@[16] == 'V');
        assert("SAI_PORT_STAT_IPV6_IN_DISCARDS"@[22] == 'D');
        reveal_strlit("SAI_PORT_STAT_IPV6_OUT_OCTETS");
        assert("SAI_PORT_STAT_IPV6_OUT_OCTETS"@.len() == 29);
        assert("SAI_PORT_STAT_IPV6_OUT_OCTETS"@[14] == 'I');
        assert("SAI_PORT_STAT_IPV6_OUT_OCTETS"@[15] == 'P');
        assert("SAI_PORT_STAT_IPV6_OUT_OCTETS"@[16] == 'V');
        reveal_strlit("SAI_PORT_STAT_IPV6_OUT_UCAST_PKTS");
        assert("SAI_PORT_STAT_IPV6_OUT_UCAST_PKTS"@.len() == 33);
        assert("SAI_PORT_STAT_IPV6_OUT_UCAST_PKTS"@[14] == 'I');
        assert("SAI_PORT_STAT_IPV6_OUT_UCAST_PKTS"@[15] == 'P');
        assert("SAI_PORT_STAT_IPV6_OUT_UCAST_PKTS"@[23] == 'U');
        reveal_strlit("SAI_PORT_STAT_IPV6_OUT_NON_UCAST_PKTS");
        assert("SAI_PORT_STAT_IPV6_OUT_NON_UCAST_PKTS"@.len() == 37);
        assert("SAI_PORT_STAT_IPV6_OUT_NON_UCAST_PKTS"@[14] == 'I');
        assert("SAI_PORT_STAT_IPV6_OUT_NON_UCAST_PKTS"@[15] == 'P');
        reveal_strlit("SAI_PORT_STAT_IPV6_OUT_MCAST_PKTS");
        assert("SAI_PORT_STAT_IPV6_OUT_MCAST_PKTS"@.len() == 33);
        assert("SAI_PORT_STAT_IPV6_OUT_MCAST_PKTS"@[14] == 'I');
        assert("SAI_PORT_STAT_IPV6_OUT_MCAST_PKTS"@[15] == 'P');
        assert("SAI_PORT_STAT_IPV6_OUT_MCAST_PKTS"@[23] == 'M');
        reveal_strlit("SAI_PORT_STAT_IPV6_OUT_DISCARDS");
        assert("SAI_PORT_STAT_IPV6_OUT_DISCARDS"@.len() == 31);
        assert("SAI_PORT_STAT_IPV6_OUT_DISCARDS"@[15] == 'P');
        assert("SAI_PORT_STAT_IPV6_OUT_DISCARDS"@[16] == 'V');
        reveal_strlit("SAI_PORT_STAT_GREEN_WRED_DROPPED_PACKETS");
        assert("SAI_PORT_STAT_GREEN_WRED_DROPPED_PACKETS"@.len() == 40);
        assert("SAI_PORT_STAT_GREEN_WRED_DROPPED_PACKETS"@[14] == 'G');
        reveal_strlit("SAI_PORT_STAT_GREEN_WRED_DROPPED_BYTES");
        assert("SAI_PORT_STAT_GREEN_WRED_DROPPED_BYTES"@.len() == 38);
        assert("SAI_PORT_STAT_GREEN_WRED_DROPPED_BYTES"@[14] == 'G');
        reveal_strlit("SAI_PORT_STAT_YELLOW_WRED_DROPPED_PACKETS");
        assert("SAI_PORT_STAT_YELLOW_WRED_DROPPED_PACKETS"@.len() == 41);
        assert("SAI_PORT_STAT_YELLOW_WRED_DROPPED_PACKETS"@[14] == 'Y');
        reveal_strlit("SAI_PORT_STAT_YELLOW_WRED_DROPPED_BYTES");
        assert("SAI_PORT_STAT_YELLOW_WRED_DROPPED_BYTES"@.len() == 39);
        assert("SAI_PORT_STAT_YELLOW_WRED_DROPPED_BYTES"@[14] == 'Y');
        reveal_strlit("SAI_PORT_STAT_RED_WRED_DROPPED_PACKETS");
        assert("SAI_PORT_STAT_RED_WRED_DROPPED_PACKETS"@.len() == 38);
        assert("SAI_PORT_STAT_RED_WRED_DROPPED_PACKETS"@[14] == 'R');
        reveal_strlit("SAI_PORT_STAT_RED_WRED_DROPPED_BYTES");
        assert("SAI_PORT_STAT_RED_WRED_DROPPED_BYTES"@.len() == 36);
        assert("SAI_PORT_STAT_RED_WRED_DROPPED_BYTES"@[14] == 'R');
        reveal_strlit("SAI_PORT_STAT_WRED_DROPPED_PACKETS");
        assert("SAI_PORT_STAT_WRED_DROPPED_PACKETS"@.len() == 34);
        assert("SAI_PORT_STAT_WRED_DROPPED_PACKETS"@[14] == 'W');
        reveal_strlit("SAI_PORT_STAT_WRED_DROPPED_BYTES");
        assert("SAI_PORT_STAT_WRED_DROPPED_BYTES"@.len() == 32);
        assert("SAI_PORT_STAT_WRED_DROPPED_BYTES"@[14] == 'W');
        reveal_strlit("SAI_PORT_STAT_ECN_MARKED_PACKETS");
        assert("SAI_PORT_STAT_ECN_MARKED_PACKETS"@.len() == 32);
        assert("SAI_PORT_STAT_ECN_MARKED_PACKETS"@[14] == 'E');
        assert("SAI_PORT_STAT_ECN_MARKED_PACKETS"@[15] == 'C');
        reveal_strlit("SAI_PORT_STAT_ETHER_IN_PKTS_64_OCTETS");
        assert("SAI_PORT_STAT_ETHER_IN_PKTS_64_OCTETS"@.len() == 37);
        assert("SAI_PORT_STAT_ETHER_IN_PKTS_64_OCTETS"@[14] == 'E');
        assert("SAI_PORT_STAT_ETHER_IN_PKTS_64_OCTETS"@[20] == 'I');
        reveal_strlit("SAI_PORT_STAT_ETHER_IN_PKTS_65_TO_127_OCTETS");
        assert("SAI_PORT_STAT_ETHER_IN_PKTS_65_TO_127_OCTETS"@.len() == 44);
        assert("SAI_PORT_STAT_ETHER_IN_PKTS_65_TO_127_OCTETS"@[14] == 'E');
        reveal_strlit("SAI_PORT_STAT_ETHER_IN_PKTS_128_TO_255_OCTETS");
        assert("SAI_PORT_STAT_ETHER_IN_PKTS_128_TO_255_OCTETS"@.len() == 45);
        assert("SAI_PORT_STAT_ETHER_IN_PKTS_128_TO_255_OCTETS"@[14] == 'E');
        assert("SAI_PORT_STAT_ETHER_IN_PKTS_128_TO_255_OCTETS"@[20] == 'I');
        assert("SAI_PORT_STAT_ETHER_IN_PKTS_128_TO_255_OCTETS"@[28] == '1');
        reveal_strlit("SAI_PORT_STAT_ETHER_IN_PKTS_256_TO_511_OCTETS");
        assert("SAI_PORT_STAT_ETHER_IN_PKTS_256_TO_511_OCTETS"@.len() == 45);
        assert("SAI_PORT_STAT_ETHER_IN_PKTS_256_TO_511_OCTETS"@[14] == 'E');
        assert("SAI_PORT_STAT_ETHER_IN_PKTS_256_TO_511_OCTETS"@[20] == 'I');
        assert("SAI_PORT_STAT_ETHER_IN_PKTS_256_TO_511_OCTETS"@[28] == '2');
        reveal_strlit("SAI_PORT_STAT_ETHER_IN_PKTS_512_TO_1023_OCTETS");
        assert("SAI_PORT_STAT_ETHER_IN_PKTS_512_TO_1023_OCTETS"@.len() == 46);
        assert("SAI_PORT_STAT_ETHER_IN_PKTS_512_TO_1023_OCTETS"@[14] == 'E');
        assert("SAI_PORT_STAT_ETHER_IN_PKTS_512_TO_1023_OCTETS"@[20] == 'I');
        reveal_strlit("SAI_PORT_STAT_ETHER_IN_PKTS_1024_TO_1518_OCTETS");
        assert("SAI_PORT_STAT_ETHER_IN_PKTS_1024_TO_1518_OCTETS"@.len() == 47);
        assert("SAI_PORT_STAT_ETHER_IN_PKTS_1024_TO_1518_OCTETS"@[14] == 'E');
        assert("SAI_PORT_STAT_ETHER_IN_PKTS_1024_TO_1518_OCTETS"@[20] == 'I');
        assert("SAI_PORT_STAT_ETHER_IN_PKTS_1024_TO_1518_OCTETS"@[28] == '1');
        assert("SAI_PORT_STAT_ETHER_IN_PKTS_1024_TO_1518_OCTETS"@[29] == '0');
        reveal_strlit("SAI_PORT_STAT_ETHER_IN_PKTS_1519_TO_2047_OCTETS");
        assert("SAI_PORT_STAT_ETHER_IN_PKTS_1519_TO_2047_OCTETS"@.len() == 47);
        assert("SAI_PORT_STAT_ETHER_IN_PKTS_1519_TO_2047_OCTETS"@[14] == 'E');
        assert("SAI_PORT_STAT_ETHER_IN_PKTS_1519_TO_2047_OCTETS"@[20] == 'I');
        assert("SAI_PORT_STAT_ETHER_IN_PKTS_1519_TO_2047_OCTETS"@[28] == '1');
        assert("SAI_PORT_STAT_ETHER_IN_PKTS_1519_TO_2047_OCTETS"@[29] == '5');
        assert("SAI_PORT_STAT_ETHER_IN_PKTS_1519_TO_2047_OCTETS"@[37] == '0');
        reveal_strlit("SAI_PORT_STAT_ETHER_IN_PKTS_2048_TO_4095_OCTETS");
        assert("SAI_PORT_STAT_ETHER_IN_PKTS_2048_TO_4095_OCTETS"@.len() == 47);
        assert("SAI_PORT_STAT_ETHER_IN_PKTS_2048_TO_4095_OCTETS"@[14] == 'E');
        assert("SAI_PORT_STAT_ETHER_IN_PKTS_2048_TO_4095_OCTETS"@[20] == 'I');
        assert("SAI_PORT_STAT_ETHER_IN_PKTS_2048_TO_4095_OCTETS"@[28] == '2');
        assert("SAI_PORT_STAT_ETHER_IN_PKTS_2048_TO_4095_OCTETS"@[29] == '0');
        reveal_strlit("SAI_PORT_STAT_ETHER_IN_PKTS_4096_TO_9216_OCTETS");
        assert("SAI_PORT_STAT_ETHER_IN_PKTS_4096_TO_9216_OCTETS"@.len() == 47);
        assert("SAI_PORT_STAT_ETHER_IN_PKTS_4096_TO_9216_OCTETS"@[14] == 'E');
        assert("SAI_PORT_STAT_ETHER_IN_PKTS_4096_TO_9216_OCTETS"@[20] == 'I');
        assert("SAI_PORT_STAT_ETHER_IN_PKTS_4096_TO_9216_OCTETS"@[28] == '4');
        reveal_strlit("SAI_PORT_STAT_ETHER_IN_PKTS_9217_TO_16383_OCTETS");
        assert("SAI_PORT_STAT_ETHER_IN_PKTS_9217_TO_16383_OCTETS"@.len() == 48);
        assert("SAI_PORT_STAT_ETHER_IN_PKTS_9217_TO_16383_OCTETS"@[14] == 'E');
        assert("SAI_PORT_STAT_ETHER_IN_PKTS_9217_TO_16383_OCTETS"@[20] == 'I');
        assert("SAI_PORT_STAT_ETHER_IN_PKTS_9217_TO_16383_OCTETS"@[29] == '2');
        reveal_strlit("SAI_PORT_STAT_ETHER_OUT_PKTS_64_OCTETS");
        assert("SAI_PORT_STAT_ETHER_OUT_PKTS_64_OCTETS"@.len() == 38);
        assert("SAI_PORT_STAT_ETHER_OUT_PKTS_64_OCTETS"@[14] == 'E');
        assert("SAI_PORT_STAT_ETHER_OUT_PKTS_64_OCTETS"@[20] == 'O');
        reveal_strlit("SAI_PORT_STAT_ETHER_OUT_PKTS_65_TO_127_OCTETS");
        assert("SAI_PORT_STAT_ETHER_OUT_PKTS_65_TO_127_OCTETS"@.len() == 45);
        assert("SAI_PORT_STAT_ETHER_OUT_PKTS_65_TO_127_OCTETS"@[14] == 'E');
        assert("SAI_PORT_STAT_ETHER_OUT_PKTS_65_TO_127_OCTETS"@[20] == 'O');
        reveal_strlit("SAI_PORT_STAT_ETHER_OUT_PKTS_128_TO_255_OCTETS");
        assert("SAI_PORT_STAT_ETHER_OUT_PKTS_128_TO_255_OCTETS"@.len() == 46);
        assert("SAI_PORT_STAT_ETHER_OUT_PKTS_128_TO_255_OCTETS"@[14] == 'E');
        assert("SAI_PORT_STAT_ETHER_OUT_PKTS_128_TO_255_OCTETS"@[20] == 'O');
        assert("SAI_PORT_STAT_ETHER_OUT_PKTS_128_TO_255_OCTETS"@[29] == '1');
        reveal_strlit("SAI_PORT_STAT_ETHER_OUT_PKTS_256_TO_511_OCTETS");
        assert("SAI_PORT_STAT_ETHER_OUT_PKTS_256_TO_511_OCTETS"@.len() == 46);
        assert("SAI_PORT_STAT_ETHER_OUT_PKTS_256_TO_511_OCTETS"@[14] == 'E');
        assert("SAI_PORT_STAT_ETHER_OUT_PKTS_256_TO_511_OCTETS"@[20] == 'O');
        assert("SAI_PORT_STAT_ETHER_OUT_PKTS_256_TO_511_OCTETS"@[29] == '2');
        reveal_strlit("SAI_PORT_STAT_ETHER_OUT_PKTS_512_TO_1023_OCTETS");
        assert("SAI_PORT_STAT_ETHER_OUT_PKTS_512_TO_1023_OCTETS"@.len() == 47);
        assert("SAI_PORT_STAT_ETHER_OUT_PKTS_512_TO_1023_OCTETS"@[14] == 'E');
        assert("SAI_PORT_STAT_ETHER_OUT_PKTS_512_TO_1023_OCTETS"@[20] == 'O');
        reveal_strlit("SAI_PORT_STAT_ETHER_OUT_PKTS_1024_TO_1518_OCTETS");
        assert("SAI_PORT_STAT_ETHER_OUT_PKTS_1024_TO_1518_OCTETS"@.len() == 48);
        assert("SAI_PORT_STAT_ETHER_OUT_PKTS_1024_TO_1518_OCTETS"@[14] == 'E');
        assert("SAI_PORT_STAT_ETHER_OUT_PKTS_1024_TO_1518_OCTETS"@[20] == 'O');
        assert("SAI_PORT_STAT_ETHER_OUT_PKTS_1024_TO_1518_OCTETS"@[29] == '1');
        assert("SAI_PORT_STAT_ETHER_OUT_PKTS_1024_TO_1518_OCTETS"@[30] == '0');
        reveal_strlit("SAI_PORT_STAT_ETHER_OUT_PKTS_1519_TO_2047_OCTETS");
        assert("SAI_PORT_STAT_ETHER_OUT_PKTS_1519_TO_2047_OCTETS"@.len() == 48);
        assert("SAI_PORT_STAT_ETHER_OUT_PKTS_1519_TO_2047_OCTETS"@[14] == 'E');
        assert("SAI_PORT_STAT_ETHER_OUT_PKTS_1519_TO_2047_OCTETS"@[20] == 'O');
        assert("SAI_PORT_STAT_ETHER_OUT_PKTS_1519_TO_2047_OCTETS"@[29] == '1');
        assert("SAI_PORT_STAT_ETHER_OUT_PKTS_1519_TO_2047_OCTETS"@[30] == '5');
        assert("SAI_PORT_STAT_ETHER_OUT_PKTS_1519_TO_2047_OCTETS"@[38] == '0');
        reveal_strlit("SAI_PORT_STAT_ETHER_OUT_PKTS_2048_TO_4095_OCTETS");
        assert("SAI_PORT_STAT_ETHER_OUT_PKTS_2048_TO_4095_OCTETS"@.len() == 48);
        assert("SAI_PORT_STAT_ETHER_OUT_PKTS_2048_TO_4095_OCTETS"@[14] == 'E');
        assert("SAI_PORT_STAT_ETHER_OUT_PKTS_2048_TO_4095_OCTETS"@[20] == 'O');
        assert("SAI_PORT_STAT_ETHER_OUT_PKTS_2048_TO_4095_OCTETS"@[29] == '2');
        assert("SAI_PORT_STAT_ETHER_OUT_PKTS_2048_TO_4095_OCTETS"@[30] == '0');
        reveal_strlit("SAI_PORT_STAT_ETHER_OUT_PKTS_4096_TO_9216_OCTETS");
        assert("SAI_PORT_STAT_ETHER_OUT_PKTS_4096_TO_9216_OCTETS"@.len() == 48);
        assert("SAI_PORT_STAT_ETHER_OUT_PKTS_4096_TO_9216_OCTETS"@[14] == 'E');
        assert("SAI_PORT_STAT_ETHER_OUT_PKTS_4096_TO_9216_OCTETS"@[20] == 'O');
        assert("SAI_PORT_STAT_ETHER_OUT_PKTS_4096_TO_9216_OCTETS"@[29] == '4');
        reveal_strlit("SAI_PORT_STAT_ETHER_OUT_PKTS_9217_TO_16383_OCTETS");
        assert("SAI_PORT_STAT_ETHER_OUT_PKTS_9217_TO_16383_OCTETS"@.len() == 49);
        assert("SAI_PORT_STAT_ETHER_OUT_PKTS_9217_TO_16383_OCTETS"@[20] == 'O');
        assert("SAI_PORT_STAT_ETHER_OUT_PKTS_9217_TO_16383_OCTETS"@[30] == '2');
        reveal_strlit("SAI_PORT_STAT_IN_CURR_OCCUPANCY_BYTES");
        assert("SAI_PORT_STAT_IN_CURR_OCCUPANCY_BYTES"@.len() == 37);
        assert("SAI_PORT_STAT_IN_CURR_OCCUPANCY_BYTES"@[14] == 'I');
        assert("SAI_PORT_STAT_IN_CURR_OCCUPANCY_BYTES"@[15] == 'N');
        reveal_strlit("SAI_PORT_STAT_IN_WATERMARK_BYTES");
        assert("SAI_PORT_STAT_IN_WATERMARK_BYTES"@.len() == 32);
        assert("SAI_PORT_STAT_IN_WATERMARK_BYTES"@[14] == 'I');
        assert("SAI_PORT_STAT_IN_WATERMARK_BYTES"@[15] == 'N');
        reveal_strlit("SAI_PORT_STAT_IN_SHARED_CURR_OCCUPANCY_BYTES");
        assert("SAI_PORT_STAT_IN_SHARED_CURR_OCCUPANCY_BYTES"@.len() == 44);
        assert("SAI_PORT_STAT_IN_SHARED_CURR_OCCUPANCY_BYTES"@[14] == 'I');
        reveal_strlit("SAI_PORT_STAT_IN_SHARED_WATERMARK_BYTES");
        assert("SAI_PORT_STAT_IN_SHARED_WATERMARK_BYTES"@.len() == 39);
        assert("SAI_PORT_STAT_IN_SHARED_WATERMARK_BYTES"@[14] == 'I');
        reveal_strlit("SAI_PORT_STAT_OUT_CURR_OCCUPANCY_BYTES");
        assert("SAI_PORT_STAT_OUT_CURR_OCCUPANCY_BYTES"@.len() == 38);
        assert("SAI_PORT_STAT_OUT_CURR_OCCUPANCY_BYTES"@[14] == 'O');
        reveal_strlit("SAI_PORT_STAT_OUT_WATERMARK_BYTES");
        assert("SAI_PORT_STAT_OUT_WATERMARK_BYTES"@.len() == 33);
        assert("SAI_PORT_STAT_OUT_WATERMARK_BYTES"@[14] == 'O');
        reveal_strlit("SAI_PORT_STAT_OUT_SHARED_CURR_OCCUPANCY_BYTES");
        assert("SAI_PORT_STAT_OUT_SHARED_CURR_OCCUPANCY_BYTES"@.len() == 45);
        assert("SAI_PORT_STAT_OUT_SHARED_CURR_OCCUPANCY_BYTES"@[14] == 'O');
        reveal_strlit("SAI_PORT_STAT_OUT_SHARED_WATERMARK_BYTES");
        assert("SAI_PORT_STAT_OUT_SHARED_WATERMARK_BYTES"@.len() == 40);
        assert("SAI_PORT_STAT_OUT_SHARED_WATERMARK_BYTES"@[14] == 'O');
        reveal_strlit("SAI_PORT_STAT_IN_DROPPED_PKTS");
        assert("SAI_PORT_STAT_IN_DROPPED_PKTS"@.len() == 29);
        assert("SAI_PORT_STAT_IN_DROPPED_PKTS"@[14] == 'I');
        assert("SAI_PORT_STAT_IN_DROPPED_PKTS"@[15] == 'N');
        reveal_strlit("SAI_PORT_STAT_OUT_DROPPED_PKTS");
        assert("SAI_PORT_STAT_OUT_DROPPED_PKTS"@.len() == 30);
        assert("SAI_PORT_STAT_OUT_DROPPED_PKTS"@[14] == 'O');
        reveal_strlit("SAI_PORT_STAT_PAUSE_RX_PKTS");
        assert("SAI_PORT_STAT_PAUSE_RX_PKTS"@.len() == 27);
        assert("SAI_PORT_STAT_PAUSE_RX_PKTS"@[14] == 'P');
        assert("SAI_PORT_STAT_PAUSE_RX_PKTS"@[15] == 'A');
        assert("SAI_PORT_STAT_PAUSE_RX_PKTS"@[20] == 'R');
        reveal_strlit("SAI_PORT_STAT_PAUSE_TX_PKTS");
        assert("SAI_PORT_STAT_PAUSE_TX_PKTS"@.len() == 27);
        assert("SAI_PORT_STAT_PAUSE_TX_PKTS"@[14] == 'P');
        assert("SAI_PORT_STAT_PAUSE_TX_PKTS"@[15] == 'A');
        assert("SAI_PORT_STAT_PAUSE_TX_PKTS"@[20] == 'T');
        reveal_strlit("SAI_PORT_STAT_PFC_0_RX_PKTS");
        assert("SAI_PORT_STAT_PFC_0_RX_PKTS"@.len() == 27);
        assert("SAI_PORT_STAT_PFC_0_RX_PKTS"@[14] == 'P');
        assert("SAI_PORT_STAT_PFC_0_RX_PKTS"@[15] == 'F');
        assert("SAI_PORT_STAT_PFC_0_RX_PKTS"@[18] == '0');
        assert("SAI_PORT_STAT_PFC_0_RX_PKTS"@[20] == 'R');
        reveal_strlit("SAI_PORT_STAT_PFC_0_TX_PKTS");
        assert("SAI_PORT_STAT_PFC_0_TX_PKTS"@.len() == 27);
        assert("SAI_PORT_STAT_PFC_0_TX_PKTS"@[14] == 'P');
        assert("SAI_PORT_STAT_PFC_0_TX_PKTS"@[15] == 'F');
        assert("SAI_PORT_STAT_PFC_0_TX_PKTS"@[18] == '0');
        assert("SAI_PORT_STAT_PFC_0_TX_PKTS"@[20] == 'T');
        reveal_strlit("SAI_PORT_STAT_PFC_1_RX_PKTS");
        assert("SAI_PORT_STAT_PFC_1_RX_PKTS"@.len() == 27);
        assert("SAI_PORT_STAT_PFC_1_RX_PKTS"@[14] == 'P');
        assert("SAI_PORT_STAT_PFC_1_RX_PKTS"@[15] == 'F');
        assert("SAI_PORT_STAT_PFC_1_RX_PKTS"@[18] == '1');
        assert("SAI_PORT_STAT_PFC_1_RX_PKTS"@[20] == 'R');
        reveal_strlit("SAI_PORT_STAT_PFC_1_TX_PKTS");
        assert("SAI_PORT_STAT_PFC_1_TX_PKTS"@.len() == 27);
        assert("SAI_PORT_STAT_PFC_1_TX_PKTS"@[14] == 'P');
        assert("SAI_PORT_STAT_PFC_1_TX_PKTS"@[15] == 'F');
        assert("SAI_PORT_STAT_PFC_1_TX_PKTS"@[18] == '1');
        assert("SAI_PORT_STAT_PFC_1_TX_PKTS"@[20] == 'T');
        reveal_strlit("SAI_PORT_STAT_PFC_2_RX_PKTS");
        assert("SAI_PORT_STAT_PFC_2_RX_PKTS"@.len() == 27);
        assert("SAI_PORT_STAT_PFC_2_RX_PKTS"@[14] == 'P');
        assert("SAI_PORT_STAT_PFC_2_RX_PKTS"@[15] == 'F');
        assert("SAI_PORT_STAT_PFC_2_RX_PKTS"@[18] == '2');
        assert("SAI_PORT_STAT_PFC_2_RX_PKTS"@[20] == 'R');
        reveal_strlit("SAI_PORT_STAT_PFC_2_TX_PKTS");
        assert("SAI_PORT_STAT_PFC_2_TX_PKTS"@.len() == 27);
        assert("SAI_PORT_STAT_PFC_2_TX_PKTS"@[14] == 'P');
        assert("SAI_PORT_STAT_PFC_2_TX_PKTS"@[15] == 'F');
        assert("SAI_PORT_STAT_PFC_2_TX_PKTS"@[18] == '2');
        assert("SAI_PORT_STAT_PFC_2_TX_PKTS"@[20] == 'T');
        reveal_strlit("SAI_PORT_STAT_PFC_3_RX_PKTS");
        assert("SAI_PORT_STAT_PFC_3_RX_PKTS"@.len() == 27);
        assert("SAI_PORT_STAT_PFC_3_RX_PKTS"@[14] == 'P');
        assert("SAI_PORT_STAT_PFC_3_RX_PKTS"@[15] == 'F');
        assert("SAI_PORT_STAT_PFC_3_RX_PKTS"@[18] == '3');
        assert("SAI_PORT_STAT_PFC_3_RX_PKTS"@[20] == 'R');
        reveal_strlit("SAI_PORT_STAT_PFC_3_TX_PKTS");
        assert("SAI_PORT_STAT_PFC_3_TX_PKTS"@.len() == 27);
        assert("SAI_PORT_STAT_PFC_3_TX_PKTS"@[14] == 'P');
        assert("SAI_PORT_STAT_PFC_3_TX_PKTS"@[15] == 'F');
        assert("SAI_PORT_STAT_PFC_3_TX_PKTS"@[18] == '3');
        assert("SAI_PORT_STAT_PFC_3_TX_PKTS"@[20] == 'T');
        reveal_strlit("SAI_PORT_STAT_PFC_4_RX_PKTS");
        assert("SAI_PORT_STAT_PFC_4_RX_PKTS"@.len() == 27);
        assert("SAI_PORT_STAT_PFC_4_RX_PKTS"@[14] == 'P');
        assert("SAI_PORT_STAT_PFC_4_RX_PKTS"@[15] == 'F');
        assert("SAI_PORT_STAT_PFC_4_RX_PKTS"@[18] == '4');
        assert("SAI_PORT_STAT_PFC_4_RX_PKTS"@[20] == 'R');
        reveal_strlit("SAI_PORT_STAT_PFC_4_TX_PKTS");
        assert("SAI_PORT_STAT_PFC_4_TX_PKTS"@.len() == 27);
        assert("SAI_PORT_STAT_PFC_4_TX_PKTS"@[14] == 'P');
        assert("SAI_PORT_STAT_PFC_4_TX_PKTS"@[15] == 'F');
        assert("SAI_PORT_STAT_PFC_4_TX_PKTS"@[18] == '4');
        assert("SAI_PORT_STAT_PFC_4_TX_PKTS"@[20] == 'T');
        reveal_strlit("SAI_PORT_STAT_PFC_5_RX_PKTS");
        assert("SAI_PORT_STAT_PFC_5_RX_PKTS"@.len() == 27);
        assert("SAI_PORT_STAT_PFC_5_RX_PKTS"@[14] == 'P');
        assert("SAI_PORT_STAT_PFC_5_RX_PKTS"@[15] == 'F');
        assert("SAI_PORT_STAT_PFC_5_RX_PKTS"@[18] == '5');
        assert("SAI_PORT_STAT_PFC_5_RX_PKTS"@[20] == 'R');
        reveal_strlit("SAI_PORT_STAT_PFC_5_TX_PKTS");
        assert("SAI_PORT_STAT_PFC_5_TX_PKTS"@.len() == 27);
        assert("SAI_PORT_STAT_PFC_5_TX_PKTS"@[14] == 'P');
        assert("SAI_PORT_STAT_PFC_5_TX_PKTS"@[15] == 'F');
        assert("SAI_PORT_STAT_PFC_5_TX_PKTS"@[18] == '5');
        assert("SAI_PORT_STAT_PFC_5_TX_PKTS"@[20] == 'T');
        reveal_strlit("SAI_PORT_STAT_PFC_6_RX_PKTS");
        assert("SAI_PORT_STAT_PFC_6_RX_PKTS"@.len() == 27);
        assert("SAI_PORT_STAT_PFC_6_RX_PKTS"@[14] == 'P');
        assert("SAI_PORT_STAT_PFC_6_RX_PKTS"@[15] == 'F');
        assert("SAI_PORT_STAT_PFC_6_RX_PKTS"@[18] == '6');
        assert("SAI_PORT_STAT_PFC_6_RX_PKTS"@[20] == 'R');
        reveal_strlit("SAI_PORT_STAT_PFC_6_TX_PKTS");
        assert("SAI_PORT_STAT_PFC_6_TX_PKTS"@.len() == 27);
        assert("SAI_PORT_STAT_PFC_6_TX_PKTS"@[14] == 'P');
        assert("SAI_PORT_STAT_PFC_6_TX_PKTS"@[15] == 'F');
        assert("SAI_PORT_STAT_PFC_6_TX_PKTS"@[18] == '6');
        assert("SAI_PORT_STAT_PFC_6_TX_PKTS"@[20] == 'T');
        reveal_strlit("SAI_PORT_STAT_PFC_7_RX_PKTS");
        assert("SAI_PORT_STAT_PFC_7_RX_PKTS"@.len() == 27);
        assert("SAI_PORT_STAT_PFC_7_RX_PKTS"@[14] == 'P');
        assert("SAI_PORT_STAT_PFC_7_RX_PKTS"@[15] == 'F');
        assert("SAI_PORT_STAT_PFC_7_RX_PKTS"@[18] == '7');
        assert("SAI_PORT_STAT_PFC_7_RX_PKTS"@[20] == 'R');
        reveal_strlit("SAI_PORT_STAT_PFC_7_TX_PKTS");
        assert("SAI_PORT_STAT_PFC_7_TX_PKTS"@.len() == 27);
        assert("SAI_PORT_STAT_PFC_7_TX_PKTS"@[14] == 'P');
        assert("SAI_PORT_STAT_PFC_7_TX_PKTS"@[15] == 'F');
        assert("SAI_PORT_STAT_PFC_7_TX_PKTS"@[18] == '7');
        assert("SAI_PORT_STAT_PFC_7_TX_PKTS"@[20] == 'T');
        reveal_strlit("SAI_PORT_STAT_PFC_0_RX_PAUSE_DURATION");
        assert("SAI_PORT_STAT_PFC_0_RX_PAUSE_DURATION"@.len() == 37);
        assert("SAI_PORT_STAT_PFC_0_RX_PAUSE_DURATION"@[14] == 'P');
        assert("SAI_PORT_STAT_PFC_0_RX_PAUSE_DURATION"@[18] == '0');
        assert("SAI_PORT_STAT_PFC_0_RX_PAUSE_DURATION"@[20] == 'R');
        reveal_strlit("SAI_PORT_STAT_PFC_0_TX_PAUSE_DURATION");
        assert("SAI_PORT_STAT_PFC_0_TX_PAUSE_DURATION"@.len() == 37);
        assert("SAI_PORT_STAT_PFC_0_TX_PAUSE_DURATION"@[14] == 'P');
        assert("SAI_PORT_STAT_PFC_0_TX_PAUSE_DURATION"@[18] == '0');
        assert("SAI_PORT_STAT_PFC_0_TX_PAUSE_DURATION"@[20] == 'T');
        reveal_strlit("SAI_PORT_STAT_PFC_1_RX_PAUSE_DURATION");
        assert("SAI_PORT_STAT_PFC_1_RX_PAUSE_DURATION"@.len() == 37);
        assert("SAI_PORT_STAT_PFC_1_RX_PAUSE_DURATION"@[14] == 'P');
        assert("SAI_PORT_STAT_PFC_1_RX_PAUSE_DURATION"@[18] == '1');
        assert("SAI_PORT_STAT_PFC_1_RX_PAUSE_DURATION"@[20] == 'R');
        reveal_strlit("SAI_PORT_STAT_PFC_1_TX_PAUSE_DURATION");
        assert("SAI_PORT_STAT_PFC_1_TX_PAUSE_DURATION"@.len() == 37);
        assert("SAI_PORT_STAT_PFC_1_TX_PAUSE_DURATION"@[14] == 'P');
        assert("SAI_PORT_STAT_PFC_1_TX_PAUSE_DURATION"@[18] == '1');
        assert("SAI_PORT_STAT_PFC_1_TX_PAUSE_DURATION"@[20] == 'T');
        reveal_strlit("SAI_PORT_STAT_PFC_2_RX_PAUSE_DURATION");
        assert("SAI_PORT_STAT_PFC_2_RX_PAUSE_DURATION"@.len() == 37);
        assert("SAI_PORT_STAT_PFC_2_RX_PAUSE_DURATION"@[14] == 'P');
        assert("SAI_PORT_STAT_PFC_2_RX_PAUSE_DURATION"@[18] == '2');
        assert("SAI_PORT_STAT_PFC_2_RX_PAUSE_DURATION"@[20] == 'R');
        reveal_strlit("SAI_PORT_STAT_PFC_2_TX_PAUSE_DURATION");
        assert("SAI_PORT_STAT_PFC_2_TX_PAUSE_DURATION"@.len() == 37);
        assert("SAI_PORT_STAT_PFC_2_TX_PAUSE_DURATION"@[14] == 'P');
        assert("SAI_PORT_STAT_PFC_2_TX_PAUSE_DURATION"@[18] == '2');
        assert("SAI_PORT_STAT_PFC_2_TX_PAUSE_DURATION"@[20] == 'T');
        reveal_strlit("SAI_PORT_STAT_PFC_3_RX_PAUSE_DURATION");
        assert("SAI_PORT_STAT_PFC_3_RX_PAUSE_DURATION"@.len() == 37);
        assert("SAI_PORT_STAT_PFC_3_RX_PAUSE_DURATION"@[14] == 'P');
        assert("SAI_PORT_STAT_PFC_3_RX_PAUSE_DURATION"@[18] == '3');
        assert("SAI_PORT_STAT_PFC_3_RX_PAUSE_DURATION"@[20] == 'R');
        reveal_strlit("SAI_PORT_STAT_PFC_3_TX_PAUSE_DURATION");
        assert("SAI_PORT_STAT_PFC_3_TX_PAUSE_DURATION"@.len() == 37);
        assert("SAI_PORT_STAT_PFC_3_TX_PAUSE_DURATION"@[14] == 'P');
        assert("SAI_PORT_STAT_PFC_3_TX_PAUSE_DURATION"@[18] == '3');
        assert("SAI_PORT_STAT_PFC_3_TX_PAUSE_DURATION"@[20] == 'T');
        reveal_strlit("SAI_PORT_STAT_PFC_4_RX_PAUSE_DURATION");
        assert("SAI_PORT_STAT_PFC_4_RX_PAUSE_DURATION"@.len() == 37);
        assert("SAI_PORT_STAT_PFC_4_RX_PAUSE_DURATION"@[14] == 'P');
        assert("SAI_PORT_STAT_PFC_4_RX_PAUSE_DURATION"@[18] == '4');
        assert("SAI_PORT_STAT_PFC_4_RX_PAUSE_DURATION"@[20] == 'R');
        reveal_strlit("SAI_PORT_STAT_PFC_4_TX_PAUSE_DURATION");
        assert("SAI_PORT_STAT_PFC_4_TX_PAUSE_DURATION"@.len() == 37);
        assert("SAI_PORT_STAT_PFC_4_TX_PAUSE_DURATION"@[14] == 'P');
        assert("SAI_PORT_STAT_PFC_4_TX_PAUSE_DURATION"@[18] == '4');
        assert("SAI_PORT_STAT_PFC_4_TX_PAUSE_DURATION"@[20] == 'T');
        reveal_strlit("SAI_PORT_STAT_PFC_5_RX_PAUSE_DURATION");
        assert("SAI_PORT_STAT_PFC_5_RX_PAUSE_DURATION"@.len() == 37);
        assert("SAI_PORT_STAT_PFC_5_RX_PAUSE_DURATION"@[14] == 'P');
        assert("SAI_PORT_STAT_PFC_5_RX_PAUSE_DURATION"@[18] == '5');
        assert("SAI_PORT_STAT_PFC_5_RX_PAUSE_DURATION"@[20] == 'R');
        reveal_strlit("SAI_PORT_STAT_PFC_5_TX_PAUSE_DURATION");
        assert("SAI_PORT_STAT_PFC_5_TX_PAUSE_DURATION"@.len() == 37);
        assert("SAI_PORT_STAT_PFC_5_TX_PAUSE_DURATION"@[14] == 'P');
        assert("SAI_PORT_STAT_PFC_5_TX_PAUSE_DURATION"@[18] == '5');
        assert("SAI_PORT_STAT_PFC_5_TX_PAUSE_DURATION"@[20] == 'T');
        reveal_strlit("SAI_PORT_STAT_PFC_6_RX_PAUSE_DURATION");
        assert("SAI_PORT_STAT_PFC_6_RX_PAUSE_DURATION"@.len() == 37);
        assert("SAI_PORT_STAT_PFC_6_RX_PAUSE_DURATION"@[14] == 'P');
        assert("SAI_PORT_STAT_PFC_6_RX_PAUSE_DURATION"@[18] == '6');
        assert("SAI_PORT_STAT_PFC_6_RX_PAUSE_DURATION"@[20] == 'R');
        reveal_strlit("SAI_PORT_STAT_PFC_6_TX_PAUSE_DURATION");
        assert("SAI_PORT_STAT_PFC_6_TX_PAUSE_DURATION"@.len() == 37);
        assert("SAI_PORT_STAT_PFC_6_TX_PAUSE_DURATION"@[14] == 'P');
        assert("SAI_PORT_STAT_PFC_6_TX_PAUSE_DURATION"@[18] == '6');
        assert("SAI_PORT_STAT_PFC_6_TX_PAUSE_DURATION"@[20] == 'T');
        reveal_strlit("SAI_PORT_STAT_PFC_7_RX_PAUSE_DURATION");
        assert("SAI_PORT_STAT_PFC_7_RX_PAUSE_DURATION"@.len() == 37);
        assert("SAI_PORT_STAT_PFC_7_RX_PAUSE_DURATION"@[14] == 'P');
        assert("SAI_PORT_STAT_PFC_7_RX_PAUSE_DURATION"@[18] == '7');
        assert("SAI_PORT_STAT_PFC_7_RX_PAUSE_DURATION"@[20] == 'R');
        reveal_strlit("SAI_PORT_STAT_PFC_7_TX_PAUSE_DURATION");
        assert("SAI_PORT_STAT_PFC_7_TX_PAUSE_DURATION"@.len() == 37);
        assert("SAI_PORT_STAT_PFC_7_TX_PAUSE_DURATION"@[14] == 'P');
        assert("SAI_PORT_STAT_PFC_7_TX_PAUSE_DURATION"@[18] == '7');
        assert("SAI_PORT_STAT_PFC_7_TX_PAUSE_DURATION"@[20] == 'T');
        reveal_strlit("SAI_PORT_STAT_PFC_0_RX_PAUSE_DURATION_US");
        assert("SAI_PORT_STAT_PFC_0_RX_PAUSE_DURATION_US"@.len() == 40);
        assert("SAI_PORT_STAT_PFC_0_RX_PAUSE_DURATION_US"@[14] == 'P');
        assert("SAI_PORT_STAT_PFC_0_RX_PAUSE_DURATION_US"@[18] == '0');
        assert("SAI_PORT_STAT_PFC_0_RX_PAUSE_DURATION_US"@[20] == 'R');
        reveal_strlit("SAI_PORT_STAT_PFC_0_TX_PAUSE_DURATION_US");
        assert("SAI_PORT_STAT_PFC_0_TX_PAUSE_DURATION_US"@.len() == 40);
        assert("SAI_PORT_STAT_PFC_0_TX_PAUSE_DURATION_US"@[14] == 'P');
        assert("SAI_PORT_STAT_PFC_0_TX_PAUSE_DURATION_US"@[18] == '0');
        assert("SAI_PORT_STAT_PFC_0_TX_PAUSE_DURATION_US"@[20] == 'T');
        reveal_strlit("SAI_PORT_STAT_PFC_1_RX_PAUSE_DURATION_US");
        assert("SAI_PORT_STAT_PFC_1_RX_PAUSE_DURATION_US"@.len() == 40);
        assert("SAI_PORT_STAT_PFC_1_RX_PAUSE_DURATION_US"@[14] == 'P');
        assert("SAI_PORT_STAT_PFC_1_RX_PAUSE_DURATION_US"@[18] == '1');
        assert("SAI_PORT_STAT_PFC_1_RX_PAUSE_DURATION_US"@[20] == 'R');
        reveal_strlit("SAI_PORT_STAT_PFC_1_TX_PAUSE_DURATION_US");
        assert("SAI_PORT_STAT_PFC_1_TX_PAUSE_DURATION_US"@.len() == 40);
        assert("SAI_PORT_STAT_PFC_1_TX_PAUSE_DURATION_US"@[14] == 'P');
        assert("SAI_PORT_STAT_PFC_1_TX_PAUSE_DURATION_US"@[18] == '1');
        assert("SAI_PORT_STAT_PFC_1_TX_PAUSE_DURATION_US"@[20] == 'T');
        reveal_strlit("SAI_PORT_STAT_PFC_2_RX_PAUSE_DURATION_US");
        assert("SAI_PORT_STAT_PFC_2_RX_PAUSE_DURATION_US"@.len() == 40);
        assert("SAI_PORT_STAT_PFC_2_RX_PAUSE_DURATION_US"@[14] == 'P');
        assert("SAI_PORT_STAT_PFC_2_RX_PAUSE_DURATION_US"@[18] == '2');
        assert("SAI_PORT_STAT_PFC_2_RX_PAUSE_DURATION_US"@[20] == 'R');
        reveal_strlit("SAI_PORT_STAT_PFC_2_TX_PAUSE_DURATION_US");
        assert("SAI_PORT_STAT_PFC_2_TX_PAUSE_DURATION_US"@.len() == 40);
        assert("SAI_PORT_STAT_PFC_2_TX_PAUSE_DURATION_US"@[14] == 'P');
        assert("SAI_PORT_STAT_PFC_2_TX_PAUSE_DURATION_US"@[18] == '2');
        assert("SAI_PORT_STAT_PFC_2_TX_PAUSE_DURATION_US"@[20] == 'T');
        reveal_strlit("SAI_PORT_STAT_PFC_3_RX_PAUSE_DURATION_US");
        assert("SAI_PORT_STAT_PFC_3_RX_PAUSE_DURATION_US"@.len() == 40);
        assert("SAI_PORT_STAT_PFC_3_RX_PAUSE_DURATION_US"@[14] == 'P');
        assert("SAI_PORT_STAT_PFC_3_RX_PAUSE_DURATION_US"@[18] == '3');
        assert("SAI_PORT_STAT_PFC_3_RX_PAUSE_DURATION_US"@[20] == 'R');
        reveal_strlit("SAI_PORT_STAT_PFC_3_TX_PAUSE_DURATION_US");
        assert("SAI_PORT_STAT_PFC_3_TX_PAUSE_DURATION_US"@.len() == 40);
        assert("SAI_PORT_STAT_PFC_3_TX_PAUSE_DURATION_US"@[14] == 'P');
        assert("SAI_PORT_STAT_PFC_3_TX_PAUSE_DURATION_US"@[18] == '3');
        assert("SAI_PORT_STAT_PFC_3_TX_PAUSE_DURATION_US"@[20] == 'T');
        reveal_strlit("SAI_PORT_STAT_PFC_4_RX_PAUSE_DURATION_US");
        assert("SAI_PORT_STAT_PFC_4_RX_PAUSE_DURATION_US"@.len() == 40);
        assert("SAI_PORT_STAT_PFC_4_RX_PAUSE_DURATION_US"@[14] == 'P');
        assert("SAI_PORT_STAT_PFC_4_RX_PAUSE_DURATION_US"@[18] == '4');
        assert("SAI_PORT_STAT_PFC_4_RX_PAUSE_DURATION_US"@[20] == 'R');
        reveal_strlit("SAI_PORT_STAT_PFC_4_TX_PAUSE_DURATION_US");
        assert("SAI_PORT_STAT_PFC_4_TX_PAUSE_DURATION_US"@.len() == 40);
        assert("SAI_PORT_STAT_PFC_4_TX_PAUSE_DURATION_US"@[14] == 'P');
        assert("SAI_PORT_STAT_PFC_4_TX_PAUSE_DURATION_US"@[18] == '4');
        assert("SAI_PORT_STAT_PFC_4_TX_PAUSE_DURATION_US"@[20] == 'T');
        reveal_strlit("SAI_PORT_STAT_PFC_5_RX_PAUSE_DURATION_US");
        assert("SAI_PORT_STAT_PFC_5_RX_PAUSE_DURATION_US"@.len() == 40);
        assert("SAI_PORT_STAT_PFC_5_RX_PAUSE_DURATION_US"@[14] == 'P');
        assert("SAI_PORT_STAT_PFC_5_RX_PAUSE_DURATION_US"@[18] == '5');
        assert("SAI_PORT_STAT_PFC_5_RX_PAUSE_DURATION_US"@[20] == 'R');
        reveal_strlit("SAI_PORT_STAT_PFC_5_TX_PAUSE_DURATION_US");
        assert("SAI_PORT_STAT_PFC_5_TX_PAUSE_DURATION_US"@.len() == 40);
        assert("SAI_PORT_STAT_PFC_5_TX_PAUSE_DURATION_US"@[14] == 'P');
        assert("SAI_PORT_STAT_PFC_5_TX_PAUSE_DURATION_US"@[18] == '5');
        assert("SAI_PORT_STAT_PFC_5_TX_PAUSE_DURATION_US"@[20] == 'T');
        reveal_strlit("SAI_PORT_STAT_PFC_6_RX_PAUSE_DURATION_US");
        assert("SAI_PORT_STAT_PFC_6_RX_PAUSE_DURATION_US"@.len() == 40);
        assert("SAI_PORT_STAT_PFC_6_RX_PAUSE_DURATION_US"@[14] == 'P');
        assert("SAI_PORT_STAT_PFC_6_RX_PAUSE_DURATION_US"@[18] == '6');
        assert("SAI_PORT_STAT_PFC_6_RX_PAUSE_DURATION_US"@[20] == 'R');
        reveal_strlit("SAI_PORT_STAT_PFC_6_TX_PAUSE_DURATION_US");
        assert("SAI_PORT_STAT_PFC_6_TX_PAUSE_DURATION_US"@.len() == 40);
        assert("SAI_PORT_STAT_PFC_6_TX_PAUSE_DURATION_US"@[14] == 'P');
        assert("SAI_PORT_STAT_PFC_6_TX_PAUSE_DURATION_US"@[18] == '6');
        assert("SAI_PORT_STAT_PFC_6_TX_PAUSE_DURATION_US"@[20] == 'T');
        reveal_strlit("SAI_PORT_STAT_PFC_7_RX_PAUSE_DURATION_US");
        assert("SAI_PORT_STAT_PFC_7_RX_PAUSE_DURATION_US"@.len() == 40);
        assert("SAI_PORT_STAT_PFC_7_RX_PAUSE_DURATION_US"@[14] == 'P');
        assert("SAI_PORT_STAT_PFC_7_RX_PAUSE_DURATION_US"@[18] == '7');
        assert("SAI_PORT_STAT_PFC_7_RX_PAUSE_DURATION_US"@[20] == 'R');
        reveal_strlit("SAI_PORT_STAT_PFC_7_TX_PAUSE_DURATION_US");
        assert("SAI_PORT_STAT_PFC_7_TX_PAUSE_DURATION_US"@.len() == 40);
        assert("SAI_PORT_STAT_PFC_7_TX_PAUSE_DURATION_US"@[14] == 'P');
        assert("SAI_PORT_STAT_PFC_7_TX_PAUSE_DURATION_US"@[18] == '7');
        assert("SAI_PORT_STAT_PFC_7_TX_PAUSE_DURATION_US"@[20] == 'T');
        reveal_strlit("SAI_PORT_STAT_PFC_0_ON2OFF_RX_PKTS");
        assert("SAI_PORT_STAT_PFC_0_ON2OFF_RX_PKTS"@.len() == 34);
        assert("SAI_PORT_STAT_PFC_0_ON2OFF_RX_PKTS"@[14] == 'P');
        assert("SAI_PORT_STAT_PFC_0_ON2OFF_RX_PKTS"@[18] == '0');
        reveal_strlit("SAI_PORT_STAT_PFC_1_ON2OFF_RX_PKTS");
        assert("SAI_PORT_STAT_PFC_1_ON2OFF_RX_PKTS"@.len() == 34);
        assert("SAI_PORT_STAT_PFC_1_ON2OFF_RX_PKTS"@[14] == 'P');
        assert("SAI_PORT_STAT_PFC_1_ON2OFF_RX_PKTS"@[18] == '1');
        reveal_strlit("SAI_PORT_STAT_PFC_2_ON2OFF_RX_PKTS");
        assert("SAI_PORT_STAT_PFC_2_ON2OFF_RX_PKTS"@.len() == 34);
        assert("SAI_PORT_STAT_PFC_2_ON2OFF_RX_PKTS"@[14] == 'P');
        assert("SAI_PORT_STAT_PFC_2_ON2OFF_RX_PKTS"@[18] == '2');
        reveal_strlit("SAI_PORT_STAT_PFC_3_ON2OFF_RX_PKTS");
        assert("SAI_PORT_STAT_PFC_3_ON2OFF_RX_PKTS"@.len() == 34);
        assert("SAI_PORT_STAT_PFC_3_ON2OFF_RX_PKTS"@[14] == 'P');
        assert("SAI_PORT_STAT_PFC_3_ON2OFF_RX_PKTS"@[18] == '3');
        reveal_strlit("SAI_PORT_STAT_PFC_4_ON2OFF_RX_PKTS");
        assert("SAI_PORT_STAT_PFC_4_ON2OFF_RX_PKTS"@.len() == 34);
        assert("SAI_PORT_STAT_PFC_4_ON2OFF_RX_PKTS"@[14] == 'P');
        assert("SAI_PORT_STAT_PFC_4_ON2OFF_RX_PKTS"@[18] == '4');
        reveal_strlit("SAI_PORT_STAT_PFC_5_ON2OFF_RX_PKTS");
        assert("SAI_PORT_STAT_PFC_5_ON2OFF_RX_PKTS"@.len() == 34);
        assert("SAI_PORT_STAT_PFC_5_ON2OFF_RX_PKTS"@[14] == 'P');
        assert("SAI_PORT_STAT_PFC_5_ON2OFF_RX_PKTS"@[18] == '5');
        reveal_strlit("SAI_PORT_STAT_PFC_6_ON2OFF_RX_PKTS");
        assert("SAI_PORT_STAT_PFC_6_ON2OFF_RX_PKTS"@.len() == 34);
        assert("SAI_PORT_STAT_PFC_6_ON2OFF_RX_PKTS"@[14] == 'P');
        assert("SAI_PORT_STAT_PFC_6_ON2OFF_RX_PKTS"@[18] == '6');
        reveal_strlit("SAI_PORT_STAT_PFC_7_ON2OFF_RX_PKTS");
        assert("SAI_PORT_STAT_PFC_7_ON2OFF_RX_PKTS"@.len() == 34);
        assert("SAI_PORT_STAT_PFC_7_ON2OFF_RX_PKTS"@[14] == 'P');
        assert("SAI_PORT_STAT_PFC_7_ON2OFF_RX_PKTS"@[18] == '7');
        reveal_strlit("SAI_PORT_STAT_DOT3_STATS_ALIGNMENT_ERRORS");
        assert("SAI_PORT_STAT_DOT3_STATS_ALIGNMENT_ERRORS"@.len() == 41);
        assert("SAI_PORT_STAT_DOT3_STATS_ALIGNMENT_ERRORS"@[14] == 'D');
        reveal_strlit("SAI_PORT_STAT_DOT3_STATS_FCS_ERRORS");
        assert("SAI_PORT_STAT_DOT3_STATS_FCS_ERRORS"@.len() == 35);
        assert("SAI_PORT_STAT_DOT3_STATS_FCS_ERRORS"@[14] == 'D');
        reveal_strlit("SAI_PORT_STAT_DOT3_STATS_SINGLE_COLLISION_FRAMES");
        assert("SAI_PORT_STAT_DOT3_STATS_SINGLE_COLLISION_FRAMES"@.len() == 48);
        assert("SAI_PORT_STAT_DOT3_STATS_SINGLE_COLLISION_FRAMES"@[14] == 'D');
        reveal_strlit("SAI_PORT_STAT_DOT3_STATS_MULTIPLE_COLLISION_FRAMES");
        assert("SAI_PORT_STAT_DOT3_STATS_MULTIPLE_COLLISION_FRAMES"@.len() == 50);
        assert("SAI_PORT_STAT_DOT3_STATS_MULTIPLE_COLLISION_FRAMES"@[14] == 'D');
        reveal_strlit("SAI_PORT_STAT_DOT3_STATS_SQE_TEST_ERRORS");
        assert("SAI_PORT_STAT_DOT3_STATS_SQE_TEST_ERRORS"@.len() == 40);
        assert("SAI_PORT_STAT_DOT3_STATS_SQE_TEST_ERRORS"@[14] == 'D');
        assert("SAI_PORT_STAT_DOT3_STATS_SQE_TEST_ERRORS"@[25] == 'S');
        reveal_strlit("SAI_PORT_STAT_DOT3_STATS_DEFERRED_TRANSMISSIONS");
        assert("SAI_PORT_STAT_DOT3_STATS_DEFERRED_TRANSMISSIONS"@.len() == 47);
        assert("SAI_PORT_STAT_DOT3_STATS_DEFERRED_TRANSMISSIONS"@[14] == 'D');
        reveal_strlit("SAI_PORT_STAT_DOT3_STATS_LATE_COLLISIONS");
        assert("SAI_PORT_STAT_DOT3_STATS_LATE_COLLISIONS"@.len() == 40);
        assert("SAI_PORT_STAT_DOT3_STATS_LATE_COLLISIONS"@[14] == 'D');
        assert("SAI_PORT_STAT_DOT3_STATS_LATE_COLLISIONS"@[25] == 'L');
        reveal_strlit("SAI_PORT_STAT_DOT3_STATS_EXCESSIVE_COLLISIONS");
        assert("SAI_PORT_STAT_DOT3_STATS_EXCESSIVE_COLLISIONS"@.len() == 45);
        assert("SAI_PORT_STAT_DOT3_STATS_EXCESSIVE_COLLISIONS"@[14] == 'D');
        assert("SAI_PORT_STAT_DOT3_STATS_EXCESSIVE_COLLISIONS"@[19] == 'S');
        assert("SAI_PORT_STAT_DOT3_STATS_EXCESSIVE_COLLISIONS"@[25] == 'E');
        reveal_strlit("SAI_PORT_STAT_DOT3_STATS_INTERNAL_MAC_TRANSMIT_ERRORS");
        assert("SAI_PORT_STAT_DOT3_STATS_INTERNAL_MAC_TRANSMIT_ERRORS"@.len() == 53);
        reveal_strlit("SAI_PORT_STAT_DOT3_STATS_CARRIER_SENSE_ERRORS");
        assert("SAI_PORT_STAT_DOT3_STATS_CARRIER_SENSE_ERRORS"@.len() == 45);
        assert("SAI_PORT_STAT_DOT3_STATS_CARRIER_SENSE_ERRORS"@[14] == 'D');
        assert("SAI_PORT_STAT_DOT3_STATS_CARRIER_SENSE_ERRORS"@[19] == 'S');
        assert("SAI_PORT_STAT_DOT3_STATS_CARRIER_SENSE_ERRORS"@[25] == 'C');
        reveal_strlit("SAI_PORT_STAT_DOT3_STATS_FRAME_TOO_LONGS");
        assert("SAI_PORT_STAT_DOT3_STATS_FRAME_TOO_LONGS"@.len() == 40);
        assert("SAI_PORT_STAT_DOT3_STATS_FRAME_TOO_LONGS"@[14] == 'D');
        assert("SAI_PORT_STAT_DOT3_STATS_FRAME_TOO_LONGS"@[25] == 'F');
        reveal_strlit("SAI_PORT_STAT_DOT3_STATS_INTERNAL_MAC_RECEIVE_ERRORS");
        assert("SAI_PORT_STAT_DOT3_STATS_INTERNAL_MAC_RECEIVE_ERRORS"@.len() == 52);
        reveal_strlit("SAI_PORT_STAT_DOT3_STATS_SYMBOL_ERRORS");
        assert("SAI_PORT_STAT_DOT3_STATS_SYMBOL_ERRORS"@.len() == 38);
        assert("SAI_PORT_STAT_DOT3_STATS_SYMBOL_ERRORS"@[14] == 'D');
        reveal_strlit("SAI_PORT_STAT_DOT3_CONTROL_IN_UNKNOWN_OPCODES");
        assert("SAI_PORT_STAT_DOT3_CONTROL_IN_UNKNOWN_OPCODES"@.len() == 45);
        assert("SAI_PORT_STAT_DOT3_CONTROL_IN_UNKNOWN_OPCODES"@[14] == 'D');
        assert("SAI_PORT_STAT_DOT3_CONTROL_IN_UNKNOWN_OPCODES"@[19] == 'C');
        reveal_strlit("SAI_PORT_STAT_EEE_TX_EVENT_COUNT");
        assert("SAI_PORT_STAT_EEE_TX_EVENT_COUNT"@.len() == 32);
        assert("SAI_PORT_STAT_EEE_TX_EVENT_COUNT"@[14] == 'E');
        assert("SAI_PORT_STAT_EEE_TX_EVENT_COUNT"@[15] == 'E');
        assert("SAI_PORT_STAT_EEE_TX_EVENT_COUNT"@[18] == 'T');
        reveal_strlit("SAI_PORT_STAT_EEE_RX_EVENT_COUNT");
        assert("SAI_PORT_STAT_EEE_RX_EVENT_COUNT"@.len() == 32);
        assert("SAI_PORT_STAT_EEE_RX_EVENT_COUNT"@[14] == 'E');
        assert("SAI_PORT_STAT_EEE_RX_EVENT_COUNT"@[15] == 'E');
        assert("SAI_PORT_STAT_EEE_RX_EVENT_COUNT"@[18] == 'R');
        reveal_strlit("SAI_PORT_STAT_EEE_TX_DURATION");
        assert("SAI_PORT_STAT_EEE_TX_DURATION"@.len() == 29);
        assert("SAI_PORT_STAT_EEE_TX_DURATION"@[14] == 'E');
        assert("SAI_PORT_STAT_EEE_TX_DURATION"@[18] == 'T');
        reveal_strlit("SAI_PORT_STAT_EEE_RX_DURATION");
        assert("SAI_PORT_STAT_EEE_RX_DURATION"@.len() == 29);
        assert("SAI_PORT_STAT_EEE_RX_DURATION"@[14] == 'E');
        assert("SAI_PORT_STAT_EEE_RX_DURATION"@[18] == 'R');
        reveal_strlit("SAI_PORT_STAT_PRBS_ERROR_COUNT");
        assert("SAI_PORT_STAT_PRBS_ERROR_COUNT"@.len() == 30);
        assert("SAI_PORT_STAT_PRBS_ERROR_COUNT"@[14] == 'P');
        reveal_strlit("SAI_PORT_STAT_IF_IN_FEC_CORRECTABLE_FRAMES");
        assert("SAI_PORT_STAT_IF_IN_FEC_CORRECTABLE_FRAMES"@.len() == 42);
        assert("SAI_PORT_STAT_IF_IN_FEC_CORRECTABLE_FRAMES"@[14] == 'I');
        assert("SAI_PORT_STAT_IF_IN_FEC_CORRECTABLE_FRAMES"@[26] == 'R');
        reveal_strlit("SAI_PORT_STAT_IF_IN_FEC_NOT_CORRECTABLE_FRAMES");
        assert("SAI_PORT_STAT_IF_IN_FEC_NOT_CORRECTABLE_FRAMES"@.len() == 46);
        assert("SAI_PORT_STAT_IF_IN_FEC_NOT_CORRECTABLE_FRAMES"@[14] == 'I');
        reveal_strlit("SAI_PORT_STAT_IF_IN_FEC_SYMBOL_ERRORS");
        assert("SAI_PORT_STAT_IF_IN_FEC_SYMBOL_ERRORS"@.len() == 37);
        assert("SAI_PORT_STAT_IF_IN_FEC_SYMBOL_ERRORS"@[14] == 'I');
        assert("SAI_PORT_STAT_IF_IN_FEC_SYMBOL_ERRORS"@[15] == 'F');
        assert("SAI_PORT_STAT_IF_IN_FEC_SYMBOL_ERRORS"@[21] == 'E');
        reveal_strlit("SAI_PORT_STAT_IF_IN_FABRIC_DATA_UNITS");
        assert("SAI_PORT_STAT_IF_IN_FABRIC_DATA_UNITS"@.len() == 37);
        assert("SAI_PORT_STAT_IF_IN_FABRIC_DATA_UNITS"@[14] == 'I');
        assert("SAI_PORT_STAT_IF_IN_FABRIC_DATA_UNITS"@[15] == 'F');
        assert("SAI_PORT_STAT_IF_IN_FABRIC_DATA_UNITS"@[21] == 'A');
        reveal_strlit("SAI_PORT_STAT_IF_OUT_FABRIC_DATA_UNITS");
        assert("SAI_PORT_STAT_IF_OUT_FABRIC_DATA_UNITS"@.len() == 38);
        assert("SAI_PORT_STAT_IF_OUT_FABRIC_DATA_UNITS"@[14] == 'I');
        assert("SAI_PORT_STAT_IF_OUT_FABRIC_DATA_UNITS"@[17] == 'O');
        reveal_strlit("SAI_PORT_STAT_IF_IN_FEC_CODEWORD_ERRORS_S0");
        assert("SAI_PORT_STAT_IF_IN_FEC_CODEWORD_ERRORS_S0"@.len() == 42);
        assert("SAI_PORT_STAT_IF_IN_FEC_CODEWORD_ERRORS_S0"@[14] == 'I');
        assert("SAI_PORT_STAT_IF_IN_FEC_CODEWORD_ERRORS_S0"@[26] == 'D');
        assert("SAI_PORT_STAT_IF_IN_FEC_CODEWORD_ERRORS_S0"@[41] == '0');
        reveal_strlit("SAI_PORT_STAT_IF_IN_FEC_CODEWORD_ERRORS_S1");
        assert("SAI_PORT_STAT_IF_IN_FEC_CODEWORD_ERRORS_S1"@.len() == 42);
        assert("SAI_PORT_STAT_IF_IN_FEC_CODEWORD_ERRORS_S1"@[14] == 'I');
        assert("SAI_PORT_STAT_IF_IN_FEC_CODEWORD_ERRORS_S1"@[26] == 'D');
        assert("SAI_PORT_STAT_IF_IN_FEC_CODEWORD_ERRORS_S1"@[41] == '1');
        reveal_strlit("SAI_PORT_STAT_IF_IN_FEC_CODEWORD_ERRORS_S2");
        assert("SAI_PORT_STAT_IF_IN_FEC_CODEWORD_ERRORS_S2"@.len() == 42);
        assert("SAI_PORT_STAT_IF_IN_FEC_CODEWORD_ERRORS_S2"@[14] == 'I');
        assert("SAI_PORT_STAT_IF_IN_FEC_CODEWORD_ERRORS_S2"@[26] == 'D');
        assert("SAI_PORT_STAT_IF_IN_FEC_CODEWORD_ERRORS_S2"@[41] == '2');
        reveal_strlit("SAI_PORT_STAT_IF_IN_FEC_CODEWORD_ERRORS_S3");
        assert("SAI_PORT_STAT_IF_IN_FEC_CODEWORD_ERRORS_S3"@.len() == 42);
        assert("SAI_PORT_STAT_IF_IN_FEC_CODEWORD_ERRORS_S3"@[14] == 'I');
        assert("SAI_PORT_STAT_IF_IN_FEC_CODEWORD_ERRORS_S3"@[26] == 'D');
        assert("SAI_PORT_STAT_IF_IN_FEC_CODEWORD_ERRORS_S3"@[41] == '3');
        reveal_strlit("SAI_PORT_STAT_IF_IN_FEC_CODEWORD_ERRORS_S4");
        assert("SAI_PORT_STAT_IF_IN_FEC_CODEWORD_ERRORS_S4"@.len() == 42);
        assert("SAI_PORT_STAT_IF_IN_FEC_CODEWORD_ERRORS_S4"@[14] == 'I');
        assert("SAI_PORT_STAT_IF_IN_FEC_CODEWORD_ERRORS_S4"@[26] == 'D');
        assert("SAI_PORT_STAT_IF_IN_FEC_CODEWORD_ERRORS_S4"@[41] == '4');
        reveal_strlit("SAI_PORT_STAT_IF_IN_FEC_CODEWORD_ERRORS_S5");
        assert("SAI_PORT_STAT_IF_IN_FEC_CODEWORD_ERRORS_S5"@.len() == 42);
        assert("SAI_PORT_STAT_IF_IN_FEC_CODEWORD_ERRORS_S5"@[14] == 'I');
        assert("SAI_PORT_STAT_IF_IN_FEC_CODEWORD_ERRORS_S5"@[26] == 'D');
        assert("SAI_PORT_STAT_IF_IN_FEC_CODEWORD_ERRORS_S5"@[41] == '5');
        reveal_strlit("SAI_PORT_STAT_IF_IN_FEC_CODEWORD_ERRORS_S6");
        assert("SAI_PORT_STAT_IF_IN_FEC_CODEWORD_ERRORS_S6"@.len() == 42);
        assert("SAI_PORT_STAT_IF_IN_FEC_CODEWORD_ERRORS_S6"@[14] == 'I');
        assert("SAI_PORT_STAT_IF_IN_FEC_CODEWORD_ERRORS_S6"@[26] == 'D');
        assert("SAI_PORT_STAT_IF_IN_FEC_CODEWORD_ERRORS_S6"@[41] == '6');
        reveal_strlit("SAI_PORT_STAT_IF_IN_FEC_CODEWORD_ERRORS_S7");
        assert("SAI_PORT_STAT_IF_IN_FEC_CODEWORD_ERRORS_S7"@.len() == 42);
        assert("SAI_PORT_STAT_IF_IN_FEC_CODEWORD_ERRORS_S7"@[14] == 'I');
        assert("SAI_PORT_STAT_IF_IN_FEC_CODEWORD_ERRORS_S7"@[26] == 'D');
        assert("SAI_PORT_STAT_IF_IN_FEC_CODEWORD_ERRORS_S7"@[41] == '7');
        reveal_strlit("SAI_PORT_STAT_IF_IN_FEC_CODEWORD_ERRORS_S8");
        assert("SAI_PORT_STAT_IF_IN_FEC_CODEWORD_ERRORS_S8"@.len() == 42);
        assert("SAI_PORT_STAT_IF_IN_FEC_CODEWORD_ERRORS_S8"@[14] == 'I');
        assert("SAI_PORT_STAT_IF_IN_FEC_CODEWORD_ERRORS_S8"@[26] == 'D');
        assert("SAI_PORT_STAT_IF_IN_FEC_CODEWORD_ERRORS_S8"@[41] == '8');
        reveal_strlit("SAI_PORT_STAT_IF_IN_FEC_CODEWORD_ERRORS_S9");
        assert("SAI_PORT_STAT_IF_IN_FEC_CODEWORD_ERRORS_S9"@.len() == 42);
        assert("SAI_PORT_STAT_IF_IN_FEC_CODEWORD_ERRORS_S9"@[14] == 'I');
        assert("SAI_PORT_STAT_IF_IN_FEC_CODEWORD_ERRORS_S9"@[26] == 'D');
        assert("SAI_PORT_STAT_IF_IN_FEC_CODEWORD_ERRORS_S9"@[41] == '9');
        reveal_strlit("SAI_PORT_STAT_IF_IN_FEC_CODEWORD_ERRORS_S10");
        assert("SAI_PORT_STAT_IF_IN_FEC_CODEWORD_ERRORS_S10"@.len() == 43);
        assert("SAI_PORT_STAT_IF_IN_FEC_CODEWORD_ERRORS_S10"@[42] == '0');
        reveal_strlit("SAI_PORT_STAT_IF_IN_FEC_CODEWORD_ERRORS_S11");
        assert("SAI_PORT_STAT_IF_IN_FEC_CODEWORD_ERRORS_S11"@.len() == 43);
        assert("SAI_PORT_STAT_IF_IN_FEC_CODEWORD_ERRORS_S11"@[42] == '1');
        reveal_strlit("SAI_PORT_STAT_IF_IN_FEC_CODEWORD_ERRORS_S12");
        assert("SAI_PORT_STAT_IF_IN_FEC_CODEWORD_ERRORS_S12"@.len() == 43);
        assert("SAI_PORT_STAT_IF_IN_FEC_CODEWORD_ERRORS_S12"@[42] == '2');
        reveal_strlit("SAI_PORT_STAT_IF_IN_FEC_CODEWORD_ERRORS_S13");
        assert("SAI_PORT_STAT_IF_IN_FEC_CODEWORD_ERRORS_S13"@.len() == 43);
        assert("SAI_PORT_STAT_IF_IN_FEC_CODEWORD_ERRORS_S13"@[42] == '3');
        reveal_strlit("SAI_PORT_STAT_IF_IN_FEC_CODEWORD_ERRORS_S14");
        assert("SAI_PORT_STAT_IF_IN_FEC_CODEWORD_ERRORS_S14"@.len() == 43);
        assert("SAI_PORT_STAT_IF_IN_FEC_CODEWORD_ERRORS_S14"@[42] == '4');
        reveal_strlit("SAI_PORT_STAT_IF_IN_FEC_CODEWORD_ERRORS_S15");
        assert("SAI_PORT_STAT_IF_IN_FEC_CODEWORD_ERRORS_S15"@.len() == 43);
        assert("SAI_PORT_STAT_IF_IN_FEC_CODEWORD_ERRORS_S15"@[42] == '5');
        reveal_strlit("SAI_PORT_STAT_IF_IN_FEC_CODEWORD_ERRORS_S16");
        assert("SAI_PORT_STAT_IF_IN_FEC_CODEWORD_ERRORS_S16"@.len() == 43);
        assert("SAI_PORT_STAT_IF_IN_FEC_CODEWORD_ERRORS_S16"@[42] == '6');
        reveal_strlit("SAI_PORT_STAT_IF_IN_FEC_CORRECTED_BITS");
        assert("SAI_PORT_STAT_IF_IN_FEC_CORRECTED_BITS"@.len() == 38);
        assert("SAI_PORT_STAT_IF_IN_FEC_CORRECTED_BITS"@[14] == 'I');
        assert("SAI_PORT_STAT_IF_IN_FEC_CORRECTED_BITS"@[17] == 'I');
        reveal_strlit("SAI_PORT_STAT_TRIM_PACKETS");
        assert("SAI_PORT_STAT_TRIM_PACKETS"@.len() == 26);
        assert("SAI_PORT_STAT_TRIM_PACKETS"@[14] == 'T');
        reveal_strlit("SAI_PORT_STAT_DROPPED_TRIM_PACKETS");
        assert("SAI_PORT_STAT_DROPPED_TRIM_PACKETS"@.len() == 34);
        assert("SAI_PORT_STAT_DROPPED_TRIM_PACKETS"@[14] == 'D');
        reveal_strlit("SAI_PORT_STAT_TX_TRIM_PACKETS");
        assert("SAI_PORT_STAT_TX_TRIM_PACKETS"@.len() == 29);
        assert("SAI_PORT_STAT_TX_TRIM_PACKETS"@[14] == 'T');
        reveal_strlit("SAI_PORT_STAT_IN_CONFIGURED_DROP_REASONS_0_DROPPED_PKTS");
        assert("SAI_PORT_STAT_IN_CONFIGURED_DROP_REASONS_0_DROPPED_PKTS"@.len() == 55);
        assert("SAI_PORT_STAT_IN_CONFIGURED_DROP_REASONS_0_DROPPED_PKTS"@[41] == '0');
        reveal_strlit("SAI_PORT_STAT_IN_CONFIGURED_DROP_REASONS_1_DROPPED_PKTS");
        assert("SAI_PORT_STAT_IN_CONFIGURED_DROP_REASONS_1_DROPPED_PKTS"@.len() == 55);
        assert("SAI_PORT_STAT_IN_CONFIGURED_DROP_REASONS_1_DROPPED_PKTS"@[41] == '1');
        reveal_strlit("SAI_PORT_STAT_IN_CONFIGURED_DROP_REASONS_2_DROPPED_PKTS");
        assert("SAI_PORT_STAT_IN_CONFIGURED_DROP_REASONS_2_DROPPED_PKTS"@.len() == 55);
        assert("SAI_PORT_STAT_IN_CONFIGURED_DROP_REASONS_2_DROPPED_PKTS"@[41] == '2');
        reveal_strlit("SAI_PORT_STAT_IN_CONFIGURED_DROP_REASONS_3_DROPPED_PKTS");
        assert("SAI_PORT_STAT_IN_CONFIGURED_DROP_REASONS_3_DROPPED_PKTS"@.len() == 55);
        assert("SAI_PORT_STAT_IN_CONFIGURED_DROP_REASONS_3_DROPPED_PKTS"@[41] == '3');
        reveal_strlit("SAI_PORT_STAT_IN_CONFIGURED_DROP_REASONS_4_DROPPED_PKTS");
        assert("SAI_PORT_STAT_IN_CONFIGURED_DROP_REASONS_4_DROPPED_PKTS"@.len() == 55);
        assert("SAI_PORT_STAT_IN_CONFIGURED_DROP_REASONS_4_DROPPED_PKTS"@[41] == '4');
        reveal_strlit("SAI_PORT_STAT_IN_CONFIGURED_DROP_REASONS_5_DROPPED_PKTS");
        assert("SAI_PORT_STAT_IN_CONFIGURED_DROP_REASONS_5_DROPPED_PKTS"@.len() == 55);
        assert("SAI_PORT_STAT_IN_CONFIGURED_DROP_REASONS_5_DROPPED_PKTS"@[41] == '5');
        reveal_strlit("SAI_PORT_STAT_IN_CONFIGURED_DROP_REASONS_6_DROPPED_PKTS");
        assert("SAI_PORT_STAT_IN_CONFIGURED_DROP_REASONS_6_DROPPED_PKTS"@.len() == 55);
        assert("SAI_PORT_STAT_IN_CONFIGURED_DROP_REASONS_6_DROPPED_PKTS"@[41] == '6');
        reveal_strlit("SAI_PORT_STAT_IN_CONFIGURED_DROP_REASONS_7_DROPPED_PKTS");
        assert("SAI_PORT_STAT_IN_CONFIGURED_DROP_REASONS_7_DROPPED_PKTS"@.len() == 55);
        assert("SAI_PORT_STAT_IN_CONFIGURED_DROP_REASONS_7_DROPPED_PKTS"@[41] == '7');
        reveal_strlit("SAI_PORT_STAT_IN_CONFIGURED_DROP_REASONS_8_DROPPED_PKTS");
        assert("SAI_PORT_STAT_IN_CONFIGURED_DROP_REASONS_8_DROPPED_PKTS"@.len() == 55);
        assert("SAI_PORT_STAT_IN_CONFIGURED_DROP_REASONS_8_DROPPED_PKTS"@[41] == '8');
        reveal_strlit("SAI_PORT_STAT_IN_CONFIGURED_DROP_REASONS_9_DROPPED_PKTS");
        assert("SAI_PORT_STAT_IN_CONFIGURED_DROP_REASONS_9_DROPPED_PKTS"@.len() == 55);
        assert("SAI_PORT_STAT_IN_CONFIGURED_DROP_REASONS_9_DROPPED_PKTS"@[41] == '9');
        reveal_strlit("SAI_PORT_STAT_IN_CONFIGURED_DROP_REASONS_10_DROPPED_PKTS");
        assert("SAI_PORT_STAT_IN_CONFIGURED_DROP_REASONS_10_DROPPED_PKTS"@.len() == 56);
        assert("SAI_PORT_STAT_IN_CONFIGURED_DROP_REASONS_10_DROPPED_PKTS"@[14] == 'I');
        assert("SAI_PORT_STAT_IN_CONFIGURED_DROP_REASONS_10_DROPPED_PKTS"@[42] == '0');
        reveal_strlit("SAI_PORT_STAT_IN_CONFIGURED_DROP_REASONS_11_DROPPED_PKTS");
        assert("SAI_PORT_STAT_IN_CONFIGURED_DROP_REASONS_11_DROPPED_PKTS"@.len() == 56);
        assert("SAI_PORT_STAT_IN_CONFIGURED_DROP_REASONS_11_DROPPED_PKTS"@[14] == 'I');
        assert("SAI_PORT_STAT_IN_CONFIGURED_DROP_REASONS_11_DROPPED_PKTS"@[42] == '1');
        reveal_strlit("SAI_PORT_STAT_IN_CONFIGURED_DROP_REASONS_12_DROPPED_PKTS");
        assert("SAI_PORT_STAT_IN_CONFIGURED_DROP_REASONS_12_DROPPED_PKTS"@.len() == 56);
        assert("SAI_PORT_STAT_IN_CONFIGURED_DROP_REASONS_12_DROPPED_PKTS"@[14] == 'I');
        assert("SAI_PORT_STAT_IN_CONFIGURED_DROP_REASONS_12_DROPPED_PKTS"@[42] == '2');
        reveal_strlit("SAI_PORT_STAT_IN_CONFIGURED_DROP_REASONS_13_DROPPED_PKTS");
        assert("SAI_PORT_STAT_IN_CONFIGURED_DROP_REASONS_13_DROPPED_PKTS"@.len() == 56);
        assert("SAI_PORT_STAT_IN_CONFIGURED_DROP_REASONS_13_DROPPED_PKTS"@[14] == 'I');
        assert("SAI_PORT_STAT_IN_CONFIGURED_DROP_REASONS_13_DROPPED_PKTS"@[42] == '3');
        reveal_strlit("SAI_PORT_STAT_IN_CONFIGURED_DROP_REASONS_14_DROPPED_PKTS");
        assert("SAI_PORT_STAT_IN_CONFIGURED_DROP_REASONS_14_DROPPED_PKTS"@.len() == 56);
        assert("SAI_PORT_STAT_IN_CONFIGURED_DROP_REASONS_14_DROPPED_PKTS"@[14] == 'I');
        assert("SAI_PORT_STAT_IN_CONFIGURED_DROP_REASONS_14_DROPPED_PKTS"@[42] == '4');
        reveal_strlit("SAI_PORT_STAT_IN_CONFIGURED_DROP_REASONS_15_DROPPED_PKTS");
        assert("SAI_PORT_STAT_IN_CONFIGURED_DROP_REASONS_15_DROPPED_PKTS"@.len() == 56);
        assert("SAI_PORT_STAT_IN_CONFIGURED_DROP_REASONS_15_DROPPED_PKTS"@[14] == 'I');
        assert("SAI_PORT_STAT_IN_CONFIGURED_DROP_REASONS_15_DROPPED_PKTS"@[42] == '5');
        reveal_strlit("SAI_PORT_STAT_OUT_CONFIGURED_DROP_REASONS_0_DROPPED_PKTS");
        assert("SAI_PORT_STAT_OUT_CONFIGURED_DROP_REASONS_0_DROPPED_PKTS"@.len() == 56);
        assert("SAI_PORT_STAT_OUT_CONFIGURED_DROP_REASONS_0_DROPPED_PKTS"@[14] == 'O');
        assert("SAI_PORT_STAT_OUT_CONFIGURED_DROP_REASONS_0_DROPPED_PKTS"@[42] == '0');
        reveal_strlit("SAI_PORT_STAT_OUT_CONFIGURED_DROP_REASONS_1_DROPPED_PKTS");
        assert("SAI_PORT_STAT_OUT_CONFIGURED_DROP_REASONS_1_DROPPED_PKTS"@.len() == 56);
        assert("SAI_PORT_STAT_OUT_CONFIGURED_DROP_REASONS_1_DROPPED_PKTS"@[14] == 'O');
        assert("SAI_PORT_STAT_OUT_CONFIGURED_DROP_REASONS_1_DROPPED_PKTS"@[42] == '1');
        reveal_strlit("SAI_PORT_STAT_OUT_CONFIGURED_DROP_REASONS_2_DROPPED_PKTS");
        assert("SAI_PORT_STAT_OUT_CONFIGURED_DROP_REASONS_2_DROPPED_PKTS"@.len() == 56);
        assert("SAI_PORT_STAT_OUT_CONFIGURED_DROP_REASONS_2_DROPPED_PKTS"@[14] == 'O');
        assert("SAI_PORT_STAT_OUT_CONFIGURED_DROP_REASONS_2_DROPPED_PKTS"@[42] == '2');
        reveal_strlit("SAI_PORT_STAT_OUT_CONFIGURED_DROP_REASONS_3_DROPPED_PKTS");
        assert("SAI_PORT_STAT_OUT_CONFIGURED_DROP_REASONS_3_DROPPED_PKTS"@.len() == 56);
        assert("SAI_PORT_STAT_OUT_CONFIGURED_DROP_REASONS_3_DROPPED_PKTS"@[14] == 'O');
        assert("SAI_PORT_STAT_OUT_CONFIGURED_DROP_REASONS_3_DROPPED_PKTS"@[42] == '3');
        reveal_strlit("SAI_PORT_STAT_OUT_CONFIGURED_DROP_REASONS_4_DROPPED_PKTS");
        assert("SAI_PORT_STAT_OUT_CONFIGURED_DROP_REASONS_4_DROPPED_PKTS"@.len() == 56);
        assert("SAI_PORT_STAT_OUT_CONFIGURED_DROP_REASONS_4_DROPPED_PKTS"@[14] == 'O');
        assert("SAI_PORT_STAT_OUT_CONFIGURED_DROP_REASONS_4_DROPPED_PKTS"@[42] == '4');
        reveal_strlit("SAI_PORT_STAT_OUT_CONFIGURED_DROP_REASONS_5_DROPPED_PKTS");
        assert("SAI_PORT_STAT_OUT_CONFIGURED_DROP_REASONS_5_DROPPED_PKTS"@.len() == 56);
        assert("SAI_PORT_STAT_OUT_CONFIGURED_DROP_REASONS_5_DROPPED_PKTS"@[14] == 'O');
        assert("SAI_PORT_STAT_OUT_CONFIGURED_DROP_REASONS_5_DROPPED_PKTS"@[42] == '5');
        reveal_strlit("SAI_PORT_STAT_OUT_CONFIGURED_DROP_REASONS_6_DROPPED_PKTS");
        assert("SAI_PORT_STAT_OUT_CONFIGURED_DROP_REASONS_6_DROPPED_PKTS"@.len() == 56);
        assert("SAI_PORT_STAT_OUT_CONFIGURED_DROP_REASONS_6_DROPPED_PKTS"@[14] == 'O');
        assert("SAI_PORT_STAT_OUT_CONFIGURED_DROP_REASONS_6_DROPPED_PKTS"@[42] == '6');
        reveal_strlit("SAI_PORT_STAT_OUT_CONFIGURED_DROP_REASONS_7_DROPPED_PKTS");
        assert("SAI_PORT_STAT_OUT_CONFIGURED_DROP_REASONS_7_DROPPED_PKTS"@.len() == 56);
        assert("SAI_PORT_STAT_OUT_CONFIGURED_DROP_REASONS_7_DROPPED_PKTS"@[14] == 'O');
        assert("SAI_PORT_STAT_OUT_CONFIGURED_DROP_REASONS_7_DROPPED_PKTS"@[42] == '7');
        reveal_strlit("SAI_PORT_STAT_IF_IN_HW_PROTECTION_SWITCHOVER_EVENTS");
        assert("SAI_PORT_STAT_IF_IN_HW_PROTECTION_SWITCHOVER_EVENTS"@.len() == 51);
        assert("SAI_PORT_STAT_IF_IN_HW_PROTECTION_SWITCHOVER_EVENTS"@[14] == 'I');
        reveal_strlit("SAI_PORT_STAT_IF_IN_HW_PROTECTION_SWITCHOVER_DROP_PKTS");
        assert("SAI_PORT_STAT_IF_IN_HW_PROTECTION_SWITCHOVER_DROP_PKTS"@.len() == 54);
        reveal_strlit("SAI_PORT_STAT_ETHER_IN_PKTS_1519_TO_2500_OCTETS");
        assert("SAI_PORT_STAT_ETHER_IN_PKTS_1519_TO_2500_OCTETS"@.len() == 47);
        assert("SAI_PORT_STAT_ETHER_IN_PKTS_1519_TO_2500_OCTETS"@[14] == 'E');
        assert("SAI_PORT_STAT_ETHER_IN_PKTS_1519_TO_2500_OCTETS"@[20] == 'I');
        assert("SAI_PORT_STAT_ETHER_IN_PKTS_1519_TO_2500_OCTETS"@[28] == '1');
        assert("SAI_PORT_STAT_ETHER_IN_PKTS_1519_TO_2500_OCTETS"@[29] == '5');
        assert("SAI_PORT_STAT_ETHER_IN_PKTS_1519_TO_2500_OCTETS"@[37] == '5');
        reveal_strlit("SAI_PORT_STAT_ETHER_IN_PKTS_2501_TO_9000_OCTETS");
        assert("SAI_PORT_STAT_ETHER_IN_PKTS_2501_TO_9000_OCTETS"@.len() == 47);
        assert("SAI_PORT_STAT_ETHER_IN_PKTS_2501_TO_9000_OCTETS"@[14] == 'E');
        assert("SAI_PORT_STAT_ETHER_IN_PKTS_2501_TO_9000_OCTETS"@[20] == 'I');
        assert("SAI_PORT_STAT_ETHER_IN_PKTS_2501_TO_9000_OCTETS"@[28] == '2');
        assert("SAI_PORT_STAT_ETHER_IN_PKTS_2501_TO_9000_OCTETS"@[29] == '5');
        reveal_strlit("SAI_PORT_STAT_ETHER_IN_PKTS_9001_TO_16383_OCTETS");
        assert("SAI_PORT_STAT_ETHER_IN_PKTS_9001_TO_16383_OCTETS"@.len() == 48);
        assert("SAI_PORT_STAT_ETHER_IN_PKTS_9001_TO_16383_OCTETS"@[14] == 'E');
        assert("SAI_PORT_STAT_ETHER_IN_PKTS_9001_TO_16383_OCTETS"@[20] == 'I');
        assert("SAI_PORT_STAT_ETHER_IN_PKTS_9001_TO_16383_OCTETS"@[29] == '0');
        reveal_strlit("SAI_PORT_STAT_ETHER_OUT_PKTS_1519_TO_2500_OCTETS");
        assert("SAI_PORT_STAT_ETHER_OUT_PKTS_1519_TO_2500_OCTETS"@.len() == 48);
        assert("SAI_PORT_STAT_ETHER_OUT_PKTS_1519_TO_2500_OCTETS"@[14] == 'E');
        assert("SAI_PORT_STAT_ETHER_OUT_PKTS_1519_TO_2500_OCTETS"@[20] == 'O');
        assert("SAI_PORT_STAT_ETHER_OUT_PKTS_1519_TO_2500_OCTETS"@[29] == '1');
        assert("SAI_PORT_STAT_ETHER_OUT_PKTS_1519_TO_2500_OCTETS"@[30] == '5');
        assert("SAI_PORT_STAT_ETHER_OUT_PKTS_1519_TO_2500_OCTETS"@[38] == '5');
        reveal_strlit("SAI_PORT_STAT_ETHER_OUT_PKTS_2501_TO_9000_OCTETS");
        assert("SAI_PORT_STAT_ETHER_OUT_PKTS_2501_TO_9000_OCTETS"@.len() == 48);
        assert("SAI_PORT_STAT_ETHER_OUT_PKTS_2501_TO_9000_OCTETS"@[14] == 'E');
        assert("SAI_PORT_STAT_ETHER_OUT_PKTS_2501_TO_9000_OCTETS"@[20] == 'O');
        assert("SAI_PORT_STAT_ETHER_OUT_PKTS_2501_TO_9000_OCTETS"@[29] == '2');
        assert("SAI_PORT_STAT_ETHER_OUT_PKTS_2501_TO_9000_OCTETS"@[30] == '5');
        reveal_strlit("SAI_PORT_STAT_ETHER_OUT_PKTS_9001_TO_16383_OCTETS");
        assert("SAI_PORT_STAT_ETHER_OUT_PKTS_9001_TO_16383_OCTETS"@.len() == 49);
        assert("SAI_PORT_STAT_ETHER_OUT_PKTS_9001_TO_16383_OCTETS"@[20] == 'O');
        assert("SAI_PORT_STAT_ETHER_OUT_PKTS_9001_TO_16383_OCTETS"@[30] == '0');
        reveal_strlit("SAI_PORT_STAT_END");
        assert("SAI_PORT_STAT_END"@.len() == 17);
        reveal_strlit("SAI_PORT_STAT_START");
        assert("SAI_PORT_STAT_START"@.len() == 19);
    }

    /// Law: statistics with the same C name are the same statistic.
    pub proof fn lemma_c_name_injective(a: Self, b: Self)
        ensures
            a.spec_c_name() == b.spec_c_name() ==> a == b,
    {
        Self::lemma_c_name_lookup(a);
        Self::lemma_c_name_lookup(b);
    }

    /// The value the C enum `sai_port_stat_t` gives the statistic named `name`, if
    /// it names one.
    pub open spec fn spec_c_enum_value(name: Seq<char>) -> Option<u32> {
        if name == "SAI_PORT_STAT_IF_IN_OCTETS"@ {
            Some(0u32)
        } else if name == "SAI_PORT_STAT_IF_IN_UCAST_PKTS"@ {
            Some(1u32)
        } else if name == "SAI_PORT_STAT_IF_IN_NON_UCAST_PKTS"@ {
            Some(2u32)
        } else if name == "SAI_PORT_STAT_IF_IN_DISCARDS"@ {
            Some(3u32)
        } else if name == "SAI_PORT_STAT_IF_IN_ERRORS"@ {
            Some(4u32)
        } else if name == "SAI_PORT_STAT_IF_IN_UNKNOWN_PROTOS"@ {
            Some(5u32)
        } else if name == "SAI_PORT_STAT_IF_IN_BROADCAST_PKTS"@ {
            Some(6u32)
        } else if name == "SAI_PORT_STAT_IF_IN_MULTICAST_PKTS"@ {
            Some(7u32)
        } else if name == "SAI_PORT_STAT_IF_IN_VLAN_DISCARDS"@ {
            Some(8u32)
        } else if name == "SAI_PORT_STAT_IF_OUT_OCTETS"@ {
            Some(9u32)
        } else if name == "SAI_PORT_STAT_IF_OUT_UCAST_PKTS"@ {
            Some(10u32)
        } else if name == "SAI_PORT_STAT_IF_OUT_NON_UCAST_PKTS"@ {
            Some(11u32)
        } else if name == "SAI_PORT_STAT_IF_OUT_DISCARDS"@ {
            Some(12u32)
        } else if name == "SAI_PORT_STAT_IF_OUT_ERRORS"@ {
            Some(13u32)
        } else if name == "SAI_PORT_STAT_IF_OUT_QLEN"@ {
            Some(14u32)
        } else if name == "SAI_PORT_STAT_IF_OUT_BROADCAST_PKTS"@ {
            Some(15u32)
        } else if name == "SAI_PORT_STAT_IF_OUT_MULTICAST_PKTS"@ {
            Some(16u32)
        } else if name == "SAI_PORT_STAT_ETHER_STATS_DROP_EVENTS"@ {
            Some(17u32)
        } else if name == "SAI_PORT_STAT_ETHER_STATS_MULTICAST_PKTS"@ {
            Some(18u32)
        } else if name == "SAI_PORT_STAT_ETHER_STATS_BROADCAST_PKTS"@ {
            Some(19u32)
        } else if name == "SAI_PORT_STAT_ETHER_STATS_UNDERSIZE_PKTS"@ {
            Some(20u32)
        } else if name == "SAI_PORT_STAT_ETHER_STATS_FRAGMENTS"@ {
            Some(21u32)
        } else if name == "SAI_PORT_STAT_ETHER_STATS_PKTS_64_OCTETS"@ {
            Some(22u32)
        } else if name == "SAI_PORT_STAT_ETHER_STATS_PKTS_65_TO_127_OCTETS"@ {
            Some(23u32)
        } else if name == "SAI_PORT_STAT_ETHER_STATS_PKTS_128_TO_255_OCTETS"@ {
            Some(24u32)
        } else if name == "SAI_PORT_STAT_ETHER_STATS_PKTS_256_TO_511_OCTETS"@ {
            Some(25u32)
        } else if name == "SAI_PORT_STAT_ETHER_STATS_PKTS_512_TO_1023_OCTETS"@ {
            Some(26u32)
        } else if name == "SAI_PORT_STAT_ETHER_STATS_PKTS_1024_TO_1518_OCTETS"@ {
            Some(27u32)
        } else if name == "SAI_PORT_STAT_ETHER_STATS_PKTS_1519_TO_2047_OCTETS"@ {
            Some(28u32)
        } else if name == "SAI_PORT_STAT_ETHER_STATS_PKTS_2048_TO_4095_OCTETS"@ {
            Some(29u32)
        } else if name == "SAI_PORT_STAT_ETHER_STATS_PKTS_4096_TO_9216_OCTETS"@ {
            Some(30u32)
        } else if name == "SAI_PORT_STAT_ETHER_STATS_PKTS_9217_TO_16383_OCTETS"@ {
            Some(31u32)
        } else if name == "SAI_PORT_STAT_ETHER_STATS_OVERSIZE_PKTS"@ {
            Some(32u32)
        } else if name == "SAI_PORT_STAT_ETHER_RX_OVERSIZE_PKTS"@ {
            Some(33u32)
        } else if name == "SAI_PORT_STAT_ETHER_TX_OVERSIZE_PKTS"@ {
            Some(34u32)
        } else if name == "SAI_PORT_STAT_ETHER_STATS_JABBERS"@ {
            Some(35u32)
        } else if name == "SAI_PORT_STAT_ETHER_STATS_OCTETS"@ {
            Some(36u32)
        } else if name == "SAI_PORT_STAT_ETHER_STATS_PKTS"@ {
            Some(37u32)
        } else if name == "SAI_PORT_STAT_ETHER_STATS_COLLISIONS"@ {
            Some(38u32)
        } else if name == "SAI_PORT_STAT_ETHER_STATS_CRC_ALIGN_ERRORS"@ {
            Some(39u32)
        } else if name == "SAI_PORT_STAT_ETHER_STATS_TX_NO_ERRORS"@ {
            Some(40u32)
        } else if name == "SAI_PORT_STAT_ETHER_STATS_RX_NO_ERRORS"@ {
            Some(41u32)
        } else if name == "SAI_PORT_STAT_IP_IN_RECEIVES"@ {
            Some(42u32)
        } else if name == "SAI_PORT_STAT_IP_IN_OCTETS"@ {
            Some(43u32)
        } else if name == "SAI_PORT_STAT_IP_IN_UCAST_PKTS"@ {
            Some(44u32)
        } else if name == "SAI_PORT_STAT_IP_IN_NON_UCAST_PKTS"@ {
            Some(45u32)
        } else if name == "SAI_PORT_STAT_IP_IN_DISCARDS"@ {
            Some(46u32)
        } else if name == "SAI_PORT_STAT_IP_OUT_OCTETS"@ {
            Some(47u32)
        } else if name == "SAI_PORT_STAT_IP_OUT_UCAST_PKTS"@ {
            Some(48u32)
        } else if name == "SAI_PORT_STAT_IP_OUT_NON_UCAST_PKTS"@ {
            Some(49u32)
        } else if name == "SAI_PORT_STAT_IP_OUT_DISCARDS"@ {
            Some(50u32)
        } else if name == "SAI_PORT_STAT_IPV6_IN_RECEIVES"@ {
            Some(51u32)
        } else if name == "SAI_PORT_STAT_IPV6_IN_OCTETS"@ {
            Some(52u32)
        } else if name == "SAI_PORT_STAT_IPV6_IN_UCAST_PKTS"@ {
            Some(53u32)
        } else if name == "SAI_PORT_STAT_IPV6_IN_NON_UCAST_PKTS"@ {
            Some(54u32)
        } else if name == "SAI_PORT_STAT_IPV6_IN_MCAST_PKTS"@ {
            Some(55u32)
        } else if name == "SAI_PORT_STAT_IPV6_IN_DISCARDS"@ {
            Some(56u32)
        } else if name == "SAI_PORT_STAT_IPV6_OUT_OCTETS"@ {
            Some(57u32)
        } else if name == "SAI_PORT_STAT_IPV6_OUT_UCAST_PKTS"@ {
            Some(58u32)
        } else if name == "SAI_PORT_STAT_IPV6_OUT_NON_UCAST_PKTS"@ {
            Some(59u32)
        } else if name == "SAI_PORT_STAT_IPV6_OUT_MCAST_PKTS"@ {
            Some(60u32)
        } else if name == "SAI_PORT_STAT_IPV6_OUT_DISCARDS"@ {
            Some(61u32)
        } else if name == "SAI_PORT_STAT_GREEN_WRED_DROPPED_PACKETS"@ {
            Some(62u32)
        } else if name == "SAI_PORT_STAT_GREEN_WRED_DROPPED_BYTES"@ {
            Some(63u32)
        } else if name == "SAI_PORT_STAT_YELLOW_WRED_DROPPED_PACKETS"@ {
            Some(64u32)
        } else if name == "SAI_PORT_STAT_YELLOW_WRED_DROPPED_BYTES"@ {
            Some(65u32)
        } else if name == "SAI_PORT_STAT_RED_WRED_DROPPED_PACKETS"@ {
            Some(66u32)
        } else if name == "SAI_PORT_STAT_RED_WRED_DROPPED_BYTES"@ {
            Some(67u32)
        } else if name == "SAI_PORT_STAT_WRED_DROPPED_PACKETS"@ {
            Some(68u32)
        } else if name == "SAI_PORT_STAT_WRED_DROPPED_BYTES"@ {
            Some(69u32)
        } else if name == "SAI_PORT_STAT_ECN_MARKED_PACKETS"@ {
            Some(70u32)
        } else if name == "SAI_PORT_STAT_ETHER_IN_PKTS_64_OCTETS"@ {
            Some(71u32)
        } else if name == "SAI_PORT_STAT_ETHER_IN_PKTS_65_TO_127_OCTETS"@ {
            Some(72u32)
        } else if name == "SAI_PORT_STAT_ETHER_IN_PKTS_128_TO_255_OCTETS"@ {
            Some(73u32)
        } else if name == "SAI_PORT_STAT_ETHER_IN_PKTS_256_TO_511_OCTETS"@ {
            Some(74u32)
        } else if name == "SAI_PORT_STAT_ETHER_IN_PKTS_512_TO_1023_OCTETS"@ {
            Some(75u32)
        } else if name == "SAI_PORT_STAT_ETHER_IN_PKTS_1024_TO_1518_OCTETS"@ {
            Some(76u32)
        } else if name == "SAI_PORT_STAT_ETHER_IN_PKTS_1519_TO_2047_OCTETS"@ {
            Some(77u32)
        } else if name == "SAI_PORT_STAT_ETHER_IN_PKTS_2048_TO_4095_OCTETS"@ {
            Some(78u32)
        } else if name == "SAI_PORT_STAT_ETHER_IN_PKTS_4096_TO_9216_OCTETS"@ {
            Some(79u32)
        } else if name == "SAI_PORT_STAT_ETHER_IN_PKTS_9217_TO_16383_OCTETS"@ {
            Some(80u32)
        } else if name == "SAI_PORT_STAT_ETHER_OUT_PKTS_64_OCTETS"@ {
            Some(81u32)
        } else if name == "SAI_PORT_STAT_ETHER_OUT_PKTS_65_TO_127_OCTETS"@ {
            Some(82u32)
        } else if name == "SAI_PORT_STAT_ETHER_OUT_PKTS_128_TO_255_OCTETS"@ {
            Some(83u32)
        } else if name == "SAI_PORT_STAT_ETHER_OUT_PKTS_256_TO_511_OCTETS"@ {
            Some(84u32)
        } else if name == "SAI_PORT_STAT_ETHER_OUT_PKTS_512_TO_1023_OCTETS"@ {
            Some(85u32)
        } else if name == "SAI_PORT_STAT_ETHER_OUT_PKTS_1024_TO_1518_OCTETS"@ {
            Some(86u32)
        } else if name == "SAI_PORT_STAT_ETHER_OUT_PKTS_1519_TO_2047_OCTETS"@ {
            Some(87u32)
        } else if name == "SAI_PORT_STAT_ETHER_OUT_PKTS_2048_TO_4095_OCTETS"@ {
            Some(88u32)
        } else if name == "SAI_PORT_STAT_ETHER_OUT_PKTS_4096_TO_9216_OCTETS"@ {
            Some(89u32)
        } else if name == "SAI_PORT_STAT_ETHER_OUT_PKTS_9217_TO_16383_OCTETS"@ {
            Some(90u32)
        } else if name == "SAI_PORT_STAT_IN_CURR_OCCUPANCY_BYTES"@ {
            Some(91u32)
        } else if name == "SAI_PORT_STAT_IN_WATERMARK_BYTES"@ {
            Some(92u32)
        } else if name == "SAI_PORT_STAT_IN_SHARED_CURR_OCCUPANCY_BYTES"@ {
            Some(93u32)
        } else if name == "SAI_PORT_STAT_IN_SHARED_WATERMARK_BYTES"@ {
            Some(94u32)
        } else if name == "SAI_PORT_STAT_OUT_CURR_OCCUPANCY_BYTES"@ {
            Some(95u32)
        } else if name == "SAI_PORT_STAT_OUT_WATERMARK_BYTES"@ {
            Some(96u32)
        } else if name == "SAI_PORT_STAT_OUT_SHARED_CURR_OCCUPANCY_BYTES"@ {
            Some(97u32)
        } else if name == "SAI_PORT_STAT_OUT_SHARED_WATERMARK_BYTES"@ {
            Some(98u32)
        } else if name == "SAI_PORT_STAT_IN_DROPPED_PKTS"@ {
            Some(99u32)
        } else if name == "SAI_PORT_STAT_OUT_DROPPED_PKTS"@ {
            Some(100u32)
        } else if name == "SAI_PORT_STAT_PAUSE_RX_PKTS"@ {
            Some(101u32)
        } else if name == "SAI_PORT_STAT_PAUSE_TX_PKTS"@ {
            Some(102u32)
        } else if name == "SAI_PORT_STAT_PFC_0_RX_PKTS"@ {
            Some(103u32)
        } else if name == "SAI_PORT_STAT_PFC_0_TX_PKTS"@ {
            Some(104u32)
        } else if name == "SAI_PORT_STAT_PFC_1_RX_PKTS"@ {
            Some(105u32)
        } else if name == "SAI_PORT_STAT_PFC_1_TX_PKTS"@ {
            Some(106u32)
        } else if name == "SAI_PORT_STAT_PFC_2_RX_PKTS"@ {
            Some(107u32)
        } else if name == "SAI_PORT_STAT_PFC_2_TX_PKTS"@ {
            Some(108u32)
        } else if name == "SAI_PORT_STAT_PFC_3_RX_PKTS"@ {
            Some(109u32)
        } else if name == "SAI_PORT_STAT_PFC_3_TX_PKTS"@ {
            Some(110u32)
        } else if name == "SAI_PORT_STAT_PFC_4_RX_PKTS"@ {
            Some(111u32)
        } else if name == "SAI_PORT_STAT_PFC_4_TX_PKTS"@ {
            Some(112u32)
        } else if name == "SAI_PORT_STAT_PFC_5_RX_PKTS"@ {
            Some(113u32)
        } else if name == "SAI_PORT_STAT_PFC_5_TX_PKTS"@ {
            Some(114u32)
        } else if name == "SAI_PORT_STAT_PFC_6_RX_PKTS"@ {
            Some(115u32)
        } else if name == "SAI_PORT_STAT_PFC_6_TX_PKTS"@ {
            Some(116u32)
        } else if name == "SAI_PORT_STAT_PFC_7_RX_PKTS"@ {
            Some(117u32)
        } else if name == "SAI_PORT_STAT_PFC_7_TX_PKTS"@ {
            Some(118u32)
        } else if name == "SAI_PORT_STAT_PFC_0_RX_PAUSE_DURATION"@ {
            Some(119u32)
        } else if name == "SAI_PORT_STAT_PFC_0_TX_PAUSE_DURATION"@ {
            Some(120u32)
        } else if name == "SAI_PORT_STAT_PFC_1_RX_PAUSE_DURATION"@ {
            Some(121u32)
        } else if name == "SAI_PORT_STAT_PFC_1_TX_PAUSE_DURATION"@ {
            Some(122u32)
        } else if name == "SAI_PORT_STAT_PFC_2_RX_PAUSE_DURATION"@ {
            Some(123u32)
        } else if name == "SAI_PORT_STAT_PFC_2_TX_PAUSE_DURATION"@ {
            Some(124u32)
        } else if name == "SAI_PORT_STAT_PFC_3_RX_PAUSE_DURATION"@ {
            Some(125u32)
        } else if name == "SAI_PORT_STAT_PFC_3_TX_PAUSE_DURATION"@ {
            Some(126u32)
        } else if name == "SAI_PORT_STAT_PFC_4_RX_PAUSE_DURATION"@ {
            Some(127u32)
        } else if name == "SAI_PORT_STAT_PFC_4_TX_PAUSE_DURATION"@ {
            Some(128u32)
        } else if name == "SAI_PORT_STAT_PFC_5_RX_PAUSE_DURATION"@ {
            Some(129u32)
        } else if name == "SAI_PORT_STAT_PFC_5_TX_PAUSE_DURATION"@ {
            Some(130u32)
        } else if name == "SAI_PORT_STAT_PFC_6_RX_PAUSE_DURATION"@ {
            Some(131u32)
        } else if name == "SAI_PORT_STAT_PFC_6_TX_PAUSE_DURATION"@ {
            Some(132u32)
        } else if name == "SAI_PORT_STAT_PFC_7_RX_PAUSE_DURATION"@ {
            Some(133u32)
        } else if name == "SAI_PORT_STAT_PFC_7_TX_PAUSE_DURATION"@ {
            Some(134u32)
        } else if name == "SAI_PORT_STAT_PFC_0_RX_PAUSE_DURATION_US"@ {
            Some(135u32)
        } else if name == "SAI_PORT_STAT_PFC_0_TX_PAUSE_DURATION_US"@ {
            Some(136u32)
        } else if name == "SAI_PORT_STAT_PFC_1_RX_PAUSE_DURATION_US"@ {
            Some(137u32)
        } else if name == "SAI_PORT_STAT_PFC_1_TX_PAUSE_DURATION_US"@ {
            Some(138u32)
        } else if name == "SAI_PORT_STAT_PFC_2_RX_PAUSE_DURATION_US"@ {
            Some(139u32)
        } else if name == "SAI_PORT_STAT_PFC_2_TX_PAUSE_DURATION_US"@ {
            Some(140u32)
        } else if name == "SAI_PORT_STAT_PFC_3_RX_PAUSE_DURATION_US"@ {
            Some(141u32)
        } else if name == "SAI_PORT_STAT_PFC_3_TX_PAUSE_DURATION_US"@ {
            Some(142u32)
        } else if name == "SAI_PORT_STAT_PFC_4_RX_PAUSE_DURATION_US"@ {
            Some(143u32)
        } else if name == "SAI_PORT_STAT_PFC_4_TX_PAUSE_DURATION_US"@ {
            Some(144u32)
        } else if name == "SAI_PORT_STAT_PFC_5_RX_PAUSE_DURATION_US"@ {
            Some(145u32)
        } else if name == "SAI_PORT_STAT_PFC_5_TX_PAUSE_DURATION_US"@ {
            Some(146u32)
        } else if name == "SAI_PORT_STAT_PFC_6_RX_PAUSE_DURATION_US"@ {
            Some(147u32)
        } else if name == "SAI_PORT_STAT_PFC_6_TX_PAUSE_DURATION_US"@ {
            Some(148u32)
        } else if name == "SAI_PORT_STAT_PFC_7_RX_PAUSE_DURATION_US"@ {
            Some(149u32)
        } else if name == "SAI_PORT_STAT_PFC_7_TX_PAUSE_DURATION_US"@ {
            Some(150u32)
        } else if name == "SAI_PORT_STAT_PFC_0_ON2OFF_RX_PKTS"@ {
            Some(151u32)
        } else if name == "SAI_PORT_STAT_PFC_1_ON2OFF_RX_PKTS"@ {
            Some(152u32)
        } else if name == "SAI_PORT_STAT_PFC_2_ON2OFF_RX_PKTS"@ {
            Some(153u32)
        } else if name == "SAI_PORT_STAT_PFC_3_ON2OFF_RX_PKTS"@ {
            Some(154u32)
        } else if name == "SAI_PORT_STAT_PFC_4_ON2OFF_RX_PKTS"@ {
            Some(155u32)
        } else if name == "SAI_PORT_STAT_PFC_5_ON2OFF_RX_PKTS"@ {
            Some(156u32)
        } else if name == "SAI_PORT_STAT_PFC_6_ON2OFF_RX_PKTS"@ {
            Some(157u32)
        } else if name == "SAI_PORT_STAT_PFC_7_ON2OFF_RX_PKTS"@ {
            Some(158u32)
        } else if name == "SAI_PORT_STAT_DOT3_STATS_ALIGNMENT_ERRORS"@ {
            Some(159u32)
        } else if name == "SAI_PORT_STAT_DOT3_STATS_FCS_ERRORS"@ {
            Some(160u32)
        } else if name == "SAI_PORT_STAT_DOT3_STATS_SINGLE_COLLISION_FRAMES"@ {
            Some(161u32)
        } else if name == "SAI_PORT_STAT_DOT3_STATS_MULTIPLE_COLLISION_FRAMES"@ {
            Some(162u32)
        } else if name == "SAI_PORT_STAT_DOT3_STATS_SQE_TEST_ERRORS"@ {
            Some(163u32)
        } else if name == "SAI_PORT_STAT_DOT3_STATS_DEFERRED_TRANSMISSIONS"@ {
            Some(164u32)
        } else if name == "SAI_PORT_STAT_DOT3_STATS_LATE_COLLISIONS"@ {
            Some(165u32)
        } else if name == "SAI_PORT_STAT_DOT3_STATS_EXCESSIVE_COLLISIONS"@ {
            Some(166u32)
        } else if name == "SAI_PORT_STAT_DOT3_STATS_INTERNAL_MAC_TRANSMIT_ERRORS"@ {
            Some(167u32)
        } else if name == "SAI_PORT_STAT_DOT3_STATS_CARRIER_SENSE_ERRORS"@ {
            Some(168u32)
        } else if name == "SAI_PORT_STAT_DOT3_STATS_FRAME_TOO_LONGS"@ {
            Some(169u32)
        } else if name == "SAI_PORT_STAT_DOT3_STATS_INTERNAL_MAC_RECEIVE_ERRORS"@ {
            Some(170u32)
        } else if name == "SAI_PORT_STAT_DOT3_STATS_SYMBOL_ERRORS"@ {
            Some(171u32)
        } else if name == "SAI_PORT_STAT_DOT3_CONTROL_IN_UNKNOWN_OPCODES"@ {
            Some(172u32)
        } else if name == "SAI_PORT_STAT_EEE_TX_EVENT_COUNT"@ {
            Some(173u32)
        } else if name == "SAI_PORT_STAT_EEE_RX_EVENT_COUNT"@ {
            Some(174u32)
        } else if name == "SAI_PORT_STAT_EEE_TX_DURATION"@ {
            Some(175u32)
        } else if name == "SAI_PORT_STAT_EEE_RX_DURATION"@ {
            Some(176u32)
        } else if name == "SAI_PORT_STAT_PRBS_ERROR_COUNT"@ {
            Some(177u32)
        } else if name == "SAI_PORT_STAT_IF_IN_FEC_CORRECTABLE_FRAMES"@ {
            Some(178u32)
        } else if name == "SAI_PORT_STAT_IF_IN_FEC_NOT_CORRECTABLE_FRAMES"@ {
            Some(179u32)
        } else if name == "SAI_PORT_STAT_IF_IN_FEC_SYMBOL_ERRORS"@ {
            Some(180u32)
        } else if name == "SAI_PORT_STAT_IF_IN_FABRIC_DATA_UNITS"@ {
            Some(181u32)
        } else if name == "SAI_PORT_STAT_IF_OUT_FABRIC_DATA_UNITS"@ {
            Some(182u32)
        } else if name == "SAI_PORT_STAT_IF_IN_FEC_CODEWORD_ERRORS_S0"@ {
            Some(183u32)
        } else if name == "SAI_PORT_STAT_IF_IN_FEC_CODEWORD_ERRORS_S1"@ {
            Some(184u32)
        } else if name == "SAI_PORT_STAT_IF_IN_FEC_CODEWORD_ERRORS_S2"@ {
            Some(185u32)
        } else if name == "SAI_PORT_STAT_IF_IN_FEC_CODEWORD_ERRORS_S3"@ {
            Some(186u32)
        } else if name == "SAI_PORT_STAT_IF_IN_FEC_CODEWORD_ERRORS_S4"@ {
            Some(187u32)
        } else if name == "SAI_PORT_STAT_IF_IN_FEC_CODEWORD_ERRORS_S5"@ {
            Some(188u32)
        } else if name == "SAI_PORT_STAT_IF_IN_FEC_CODEWORD_ERRORS_S6"@ {
            Some(189u32)
        } else if name == "SAI_PORT_STAT_IF_IN_FEC_CODEWORD_ERRORS_S7"@ {
            Some(190u32)
        } else if name == "SAI_PORT_STAT_IF_IN_FEC_CODEWORD_ERRORS_S8"@ {
            Some(191u32)
        } else if name == "SAI_PORT_STAT_IF_IN_FEC_CODEWORD_ERRORS_S9"@ {
            Some(192u32)
        } else if name == "SAI_PORT_STAT_IF_IN_FEC_CODEWORD_ERRORS_S10"@ {
            Some(193u32)
        } else if name == "SAI_PORT_STAT_IF_IN_FEC_CODEWORD_ERRORS_S11"@ {
            Some(194u32)
        } else if name == "SAI_PORT_STAT_IF_IN_FEC_CODEWORD_ERRORS_S12"@ {
            Some(195u32)
        } else if name == "SAI_PORT_STAT_IF_IN_FEC_CODEWORD_ERRORS_S13"@ {
            Some(196u32)
        } else if name == "SAI_PORT_STAT_IF_IN_FEC_CODEWORD_ERRORS_S14"@ {
            Some(197u32)
        } else if name == "SAI_PORT_STAT_IF_IN_FEC_CODEWORD_ERRORS_S15"@ {
            Some(198u32)
        } else if name == "SAI_PORT_STAT_IF_IN_FEC_CODEWORD_ERRORS_S16"@ {
            Some(199u32)
        } else if name == "SAI_PORT_STAT_IF_IN_FEC_CORRECTED_BITS"@ {
            Some(200u32)
        } else if name == "SAI_PORT_STAT_TRIM_PACKETS"@ {
            Some(201u32)
        } else if name == "SAI_PORT_STAT_DROPPED_TRIM_PACKETS"@ {
            Some(202u32)
        } else if name == "SAI_PORT_STAT_TX_TRIM_PACKETS"@ {
            Some(203u32)
        } else if name == "SAI_PORT_STAT_IN_CONFIGURED_DROP_REASONS_0_DROPPED_PKTS"@ {
            Some(4096u32)
        } else if name == "SAI_PORT_STAT_IN_CONFIGURED_DROP_REASONS_1_DROPPED_PKTS"@ {
            Some(4097u32)
        } else if name == "SAI_PORT_STAT_IN_CONFIGURED_DROP_REASONS_2_DROPPED_PKTS"@ {
            Some(4098u32)
        } else if name == "SAI_PORT_STAT_IN_CONFIGURED_DROP_REASONS_3_DROPPED_PKTS"@ {
            Some(4099u32)
        } else if name == "SAI_PORT_STAT_IN_CONFIGURED_DROP_REASONS_4_DROPPED_PKTS"@ {
            Some(4100u32)
        } else if name == "SAI_PORT_STAT_IN_CONFIGURED_DROP_REASONS_5_DROPPED_PKTS"@ {
            Some(4101u32)
        } else if name == "SAI_PORT_STAT_IN_CONFIGURED_DROP_REASONS_6_DROPPED_PKTS"@ {
            Some(4102u32)
        } else if name == "SAI_PORT_STAT_IN_CONFIGURED_DROP_REASONS_7_DROPPED_PKTS"@ {
            Some(4103u32)
        } else if name == "SAI_PORT_STAT_IN_CONFIGURED_DROP_REASONS_8_DROPPED_PKTS"@ {
            Some(4104u32)
        } else if name == "SAI_PORT_STAT_IN_CONFIGURED_DROP_REASONS_9_DROPPED_PKTS"@ {
            Some(4105u32)
        } else if name == "SAI_PORT_STAT_IN_CONFIGURED_DROP_REASONS_10_DROPPED_PKTS"@ {
            Some(4106u32)
        } else if name == "SAI_PORT_STAT_IN_CONFIGURED_DROP_REASONS_11_DROPPED_PKTS"@ {
            Some(4107u32)
        } else if name == "SAI_PORT_STAT_IN_CONFIGURED_DROP_REASONS_12_DROPPED_PKTS"@ {
            Some(4108u32)
        } else if name == "SAI_PORT_STAT_IN_CONFIGURED_DROP_REASONS_13_DROPPED_PKTS"@ {
            Some(4109u32)
        } else if name == "SAI_PORT_STAT_IN_CONFIGURED_DROP_REASONS_14_DROPPED_PKTS"@ {
            Some(4110u32)
        } else if name == "SAI_PORT_STAT_IN_CONFIGURED_DROP_REASONS_15_DROPPED_PKTS"@ {
            Some(4111u32)
        } else if name == "SAI_PORT_STAT_OUT_CONFIGURED_DROP_REASONS_0_DROPPED_PKTS"@ {
            Some(8192u32)
        } else if name == "SAI_PORT_STAT_OUT_CONFIGURED_DROP_REASONS_1_DROPPED_PKTS"@ {
            Some(8193u32)
        } else if name == "SAI_PORT_STAT_OUT_CONFIGURED_DROP_REASONS_2_DROPPED_PKTS"@ {
            Some(8194u32)
        } else if name == "SAI_PORT_STAT_OUT_CONFIGURED_DROP_REASONS_3_DROPPED_PKTS"@ {
            Some(8195u32)
        } else if name == "SAI_PORT_STAT_OUT_CONFIGURED_DROP_REASONS_4_DROPPED_PKTS"@ {
            Some(8196u32)
        } else if name == "SAI_PORT_STAT_OUT_CONFIGURED_DROP_REASONS_5_DROPPED_PKTS"@ {
            Some(8197u32)
        } else if name == "SAI_PORT_STAT_OUT_CONFIGURED_DROP_REASONS_6_DROPPED_PKTS"@ {
            Some(8198u32)
        } else if name == "SAI_PORT_STAT_OUT_CONFIGURED_DROP_REASONS_7_DROPPED_PKTS"@ {
            Some(8199u32)
        } else if name == "SAI_PORT_STAT_IF_IN_HW_PROTECTION_SWITCHOVER_EVENTS"@ {
            Some(8200u32)
        } else if name == "SAI_PORT_STAT_IF_IN_HW_PROTECTION_SWITCHOVER_DROP_PKTS"@ {
            Some(8201u32)
        } else if name == "SAI_PORT_STAT_ETHER_IN_PKTS_1519_TO_2500_OCTETS"@ {
            Some(8202u32)
        } else if name == "SAI_PORT_STAT_ETHER_IN_PKTS_2501_TO_9000_OCTETS"@ {
            Some(8203u32)
        } else if name == "SAI_PORT_STAT_ETHER_IN_PKTS_9001_TO_16383_OCTETS"@ {
            Some(8204u32)
        } else if name == "SAI_PORT_STAT_ETHER_OUT_PKTS_1519_TO_2500_OCTETS"@ {
            Some(8205u32)
        } else if name == "SAI_PORT_STAT_ETHER_OUT_PKTS_2501_TO_9000_OCTETS"@ {
            Some(8206u32)
        } else if name == "SAI_PORT_STAT_ETHER_OUT_PKTS_9001_TO_16383_OCTETS"@ {
            Some(8207u32)
        } else if name == "SAI_PORT_STAT_END"@ {
            Some(8208u32)
        } else {
            None
        }
    }

    /// Law: every statistic has the value the C enum `sai_port_stat_t` gives its
    /// name.
    #[verifier::rlimit(100)]
    pub proof fn lemma_values_follow_c_enum(v: Self)
        ensures
            Self::spec_c_enum_value(v.spec_c_name()) == Some(v.spec_to_u32()),
    {
        reveal_strlit("SAI_PORT_STAT_IF_IN_OCTETS");
        assert("SAI_PORT_STAT_IF_IN_OCTETS"@.len() == 26);
        assert("SAI_PORT_STAT_IF_IN_OCTETS"@[14] == 'I');
        assert("SAI_PORT_STAT_IF_IN_OCTETS"@[15] == 'F');
        assert("SAI_PORT_STAT_IF_IN_OCTETS"@[20] == 'O');
        reveal_strlit("SAI_PORT_STAT_IF_IN_UCAST_PKTS");
        assert("SAI_PORT_STAT_IF_IN_UCAST_PKTS"@.len() == 30);
        assert("SAI_PORT_STAT_IF_IN_UCAST_PKTS"@[14] == 'I');
        assert("SAI_PORT_STAT_IF_IN_UCAST_PKTS"@[15] == 'F');
        reveal_strlit("SAI_PORT_STAT_IF_IN_NON_UCAST_PKTS");
        assert("SAI_PORT_STAT_IF_IN_NON_UCAST_PKTS"@.len() == 34);
        assert("SAI_PORT_STAT_IF_IN_NON_UCAST_PKTS"@[14] == 'I');
        assert("SAI_PORT_STAT_IF_IN_NON_UCAST_PKTS"@[15] == 'F');
        assert("SAI_PORT_STAT_IF_IN_NON_UCAST_PKTS"@[20] == 'N');
        reveal_strlit("SAI_PORT_STAT_IF_IN_DISCARDS");
        assert("SAI_PORT_STAT_IF_IN_DISCARDS"@.len() == 28);
        assert("SAI_PORT_STAT_IF_IN_DISCARDS"@[15] == 'F');
        reveal_strlit("SAI_PORT_STAT_IF_IN_ERRORS");
        assert("SAI_PORT_STAT_IF_IN_ERRORS"@.len() == 26);
        assert("SAI_PORT_STAT_IF_IN_ERRORS"@[14] == 'I');
        assert("SAI_PORT_STAT_IF_IN_ERRORS"@[15] == 'F');
        assert("SAI_PORT_STAT_IF_IN_ERRORS"@[20] == 'E');
        reveal_strlit("SAI_PORT_STAT_IF_IN_UNKNOWN_PROTOS");
        assert("SAI_PORT_STAT_IF_IN_UNKNOWN_PROTOS"@.len() == 34);
        assert("SAI_PORT_STAT_IF_IN_UNKNOWN_PROTOS"@[14] == 'I');
        assert("SAI_PORT_STAT_IF_IN_UNKNOWN_PROTOS"@[15] == 'F');
        assert("SAI_PORT_STAT_IF_IN_UNKNOWN_PROTOS"@[20] == 'U');
        reveal_strlit("SAI_PORT_STAT_IF_IN_BROADCAST_PKTS");
        assert("SAI_PORT_STAT_IF_IN_BROADCAST_PKTS"@.len() == 34);
        assert("SAI_PORT_STAT_IF_IN_BROADCAST_PKTS"@[14] == 'I');
        assert("SAI_PORT_STAT_IF_IN_BROADCAST_PKTS"@[15] == 'F');
        assert("SAI_PORT_STAT_IF_IN_BROADCAST_PKTS"@[20] == 'B');
        reveal_strlit("SAI_PORT_STAT_IF_IN_MULTICAST_PKTS");
        assert("SAI_PORT_STAT_IF_IN_MULTICAST_PKTS"@.len() == 34);
        assert("SAI_PORT_STAT_IF_IN_MULTICAST_PKTS"@[14] == 'I');
        assert("SAI_PORT_STAT_IF_IN_MULTICAST_PKTS"@[15] == 'F');
        assert("SAI_PORT_STAT_IF_IN_MULTICAST_PKTS"@[20] == 'M');
        reveal_strlit("SAI_PORT_STAT_IF_IN_VLAN_DISCARDS");
        assert("SAI_PORT_STAT_IF_IN_VLAN_DISCARDS"@.len() == 33);
        assert("SAI_PORT_STAT_IF_IN_VLAN_DISCARDS"@[14] == 'I');
        assert("SAI_PORT_STAT_IF_IN_VLAN_DISCARDS"@[15] == 'F');
        reveal_strlit("SAI_PORT_STAT_IF_OUT_OCTETS");
        assert("SAI_PORT_STAT_IF_OUT_OCTETS"@.len() == 27);
        assert("SAI_PORT_STAT_IF_OUT_OCTETS"@[14] == 'I');
        assert("SAI_PORT_STAT_IF_OUT_OCTETS"@[15] == 'F');
        assert("SAI_PORT_STAT_IF_OUT_OCTETS"@[21] == 'O');
        reveal_strlit("SAI_PORT_STAT_IF_OUT_UCAST_PKTS");
        assert("SAI_PORT_STAT_IF_OUT_UCAST_PKTS"@.len() == 31);
        assert("SAI_PORT_STAT_IF_OUT_UCAST_PKTS"@[15] == 'F');
        reveal_strlit("SAI_PORT_STAT_IF_OUT_NON_UCAST_PKTS");
        assert("SAI_PORT_STAT_IF_OUT_NON_UCAST_PKTS"@.len() == 35);
        assert("SAI_PORT_STAT_IF_OUT_NON_UCAST_PKTS"@[14] == 'I');
        assert("SAI_PORT_STAT_IF_OUT_NON_UCAST_PKTS"@[15] == 'F');
        assert("SAI_PORT_STAT_IF_OUT_NON_UCAST_PKTS"@[21] == 'N');
        reveal_strlit("SAI_PORT_STAT_IF_OUT_DISCARDS");
        assert("SAI_PORT_STAT_IF_OUT_DISCARDS"@.len() == 29);
        assert("SAI_PORT_STAT_IF_OUT_DISCARDS"@[14] == 'I');
        assert("SAI_PORT_STAT_IF_OUT_DISCARDS"@[15] == 'F');
        reveal_strlit("SAI_PORT_STAT_IF_OUT_ERRORS");
        assert("SAI_PORT_STAT_IF_OUT_ERRORS"@.len() == 27);
        assert("SAI_PORT_STAT_IF_OUT_ERRORS"@[14] == 'I');
        assert("SAI_PORT_STAT_IF_OUT_ERRORS"@[15] == 'F');
        assert("SAI_PORT_STAT_IF_OUT_ERRORS"@[21] == 'E');
        reveal_strlit("SAI_PORT_STAT_IF_OUT_QLEN");
        assert("SAI_PORT_STAT_IF_OUT_QLEN"@.len() == 25);
        reveal_strlit("SAI_PORT_STAT_IF_OUT_BROADCAST_PKTS");
        assert("SAI_PORT_STAT_IF_OUT_BROADCAST_PKTS"@.len() == 35);
        assert("SAI_PORT_STAT_IF_OUT_BROADCAST_PKTS"@[14] == 'I');
        assert("SAI_PORT_STAT_IF_OUT_BROADCAST_PKTS"@[15] == 'F');
        assert("SAI_PORT_STAT_IF_OUT_BROADCAST_PKTS"@[21] == 'B');
        reveal_strlit("SAI_PORT_STAT_IF_OUT_MULTICAST_PKTS");
        assert("SAI_PORT_STAT_IF_OUT_MULTICAST_PKTS"@.len() == 35);
        assert("SAI_PORT_STAT_IF_OUT_MULTICAST_PKTS"@[14] == 'I');
        assert("SAI_PORT_STAT_IF_OUT_MULTICAST_PKTS"@[15] == 'F');
        assert("SAI_PORT_STAT_IF_OUT_MULTICAST_PKTS"@[21] == 'M');
        reveal_strlit("SAI_PORT_STAT_ETHER_STATS_DROP_EVENTS");
        assert("SAI_PORT_STAT_ETHER_STATS_DROP_EVENTS"@.len() == 37);
        assert("SAI_PORT_STAT_ETHER_STATS_DROP_EVENTS"@[14] == 'E');
        assert("SAI_PORT_STAT_ETHER_STATS_DROP_EVENTS"@[20] == 'S');
        reveal_strlit("SAI_PORT_STAT_ETHER_STATS_MULTICAST_PKTS");
        assert("SAI_PORT_STAT_ETHER_STATS_MULTICAST_PKTS"@.len() == 40);
        assert("SAI_PORT_STAT_ETHER_STATS_MULTICAST_PKTS"@[14] == 'E');
        assert("SAI_PORT_STAT_ETHER_STATS_MULTICAST_PKTS"@[26] == 'M');
        reveal_strlit("SAI_PORT_STAT_ETHER_STATS_BROADCAST_PKTS");
        assert("SAI_PORT_STAT_ETHER_STATS_BROADCAST_PKTS"@.len() == 40);
        assert("SAI_PORT_STAT_ETHER_STATS_BROADCAST_PKTS"@[14] == 'E');
        assert("SAI_PORT_STAT_ETHER_STATS_BROADCAST_PKTS"@[26] == 'B');
        reveal_strlit("SAI_PORT_STAT_ETHER_STATS_UNDERSIZE_PKTS");
        assert("SAI_PORT_STAT_ETHER_STATS_UNDERSIZE_PKTS"@.len() == 40);
        assert("SAI_PORT_STAT_ETHER_STATS_UNDERSIZE_PKTS"@[14] == 'E');
        assert("SAI_PORT_STAT_ETHER_STATS_UNDERSIZE_PKTS"@[26] == 'U');
        reveal_strlit("SAI_PORT_STAT_ETHER_STATS_FRAGMENTS");
        assert("SAI_PORT_STAT_ETHER_STATS_FRAGMENTS"@.len() == 35);
        assert("SAI_PORT_STAT_ETHER_STATS_FRAGMENTS"@[14] == 'E');
        reveal_strlit("SAI_PORT_STAT_ETHER_STATS_PKTS_64_OCTETS");
        assert("SAI_PORT_STAT_ETHER_STATS_PKTS_64_OCTETS"@.len() == 40);
        assert("SAI_PORT_STAT_ETHER_STATS_PKTS_64_OCTETS"@[14] == 'E');
        assert("SAI_PORT_STAT_ETHER_STATS_PKTS_64_OCTETS"@[26] == 'P');
        reveal_strlit("SAI_PORT_STAT_ETHER_STATS_PKTS_65_TO_127_OCTETS");
        assert("SAI_PORT_STAT_ETHER_STATS_PKTS_65_TO_127_OCTETS"@.len() == 47);
        assert("SAI_PORT_STAT_ETHER_STATS_PKTS_65_TO_127_OCTETS"@[14] == 'E');
        assert("SAI_PORT_STAT_ETHER_STATS_PKTS_65_TO_127_OCTETS"@[20] == 'S');
        reveal_strlit("SAI_PORT_STAT_ETHER_STATS_PKTS_128_TO_255_OCTETS");
        assert("SAI_PORT_STAT_ETHER_STATS_PKTS_128_TO_255_OCTETS"@.len() == 48);
        assert("SAI_PORT_STAT_ETHER_STATS_PKTS_128_TO_255_OCTETS"@[14] == 'E');
        assert("SAI_PORT_STAT_ETHER_STATS_PKTS_128_TO_255_OCTETS"@[20] == 'S');
        assert("SAI_PORT_STAT_ETHER_STATS_PKTS_128_TO_255_OCTETS"@[31] == '1');
        reveal_strlit("SAI_PORT_STAT_ETHER_STATS_PKTS_256_TO_511_OCTETS");
        assert("SAI_PORT_STAT_ETHER_STATS_PKTS_256_TO_511_OCTETS"@.len() == 48);
        assert("SAI_PORT_STAT_ETHER_STATS_PKTS_256_TO_511_OCTETS"@[14] == 'E');
        assert("SAI_PORT_STAT_ETHER_STATS_PKTS_256_TO_511_OCTETS"@[20] == 'S');
        assert("SAI_PORT_STAT_ETHER_STATS_PKTS_256_TO_511_OCTETS"@[31] == '2');
        reveal_strlit("SAI_PORT_STAT_ETHER_STATS_PKTS_512_TO_1023_OCTETS");
        assert("SAI_PORT_STAT_ETHER_STATS_PKTS_512_TO_1023_OCTETS"@.len() == 49);
        assert("SAI_PORT_STAT_ETHER_STATS_PKTS_512_TO_1023_OCTETS"@[20] == 'S');
        reveal_strlit("SAI_PORT_STAT_ETHER_STATS_PKTS_1024_TO_1518_OCTETS");
        assert("SAI_PORT_STAT_ETHER_STATS_PKTS_1024_TO_1518_OCTETS"@.len() == 50);
        assert("SAI_PORT_STAT_ETHER_STATS_PKTS_1024_TO_1518_OCTETS"@[14] == 'E');
        assert("SAI_PORT_STAT_ETHER_STATS_PKTS_1024_TO_1518_OCTETS"@[31] == '1');
        assert("SAI_PORT_STAT_ETHER_STATS_PKTS_1024_TO_1518_OCTETS"@[32] == '0');
        reveal_strlit("SAI_PORT_STAT_ETHER_STATS_PKTS_1519_TO_2047_OCTETS");
        assert("SAI_PORT_STAT_ETHER_STATS_PKTS_1519_TO_2047_OCTETS"@.len() == 50);
        assert("SAI_PORT_STAT_ETHER_STATS_PKTS_1519_TO_2047_OCTETS"@[14] == 'E');
        assert("SAI_PORT_STAT_ETHER_STATS_PKTS_1519_TO_2047_OCTETS"@[31] == '1');
        assert("SAI_PORT_STAT_ETHER_STATS_PKTS_1519_TO_2047_OCTETS"@[32] == '5');
        reveal_strlit("SAI_PORT_STAT_ETHER_STATS_PKTS_2048_TO_4095_OCTETS");
        assert("SAI_PORT_STAT_ETHER_STATS_PKTS_2048_TO_4095_OCTETS"@.len() == 50);
        assert("SAI_PORT_STAT_ETHER_STATS_PKTS_2048_TO_4095_OCTETS"@[14] == 'E');
        assert("SAI_PORT_STAT_ETHER_STATS_PKTS_2048_TO_4095_OCTETS"@[31] == '2');
        reveal_strlit("SAI_PORT_STAT_ETHER_STATS_PKTS_4096_TO_9216_OCTETS");
        assert("SAI_PORT_STAT_ETHER_STATS_PKTS_4096_TO_9216_OCTETS"@.len() == 50);
        assert("SAI_PORT_STAT_ETHER_STATS_PKTS_4096_TO_9216_OCTETS"@[14] == 'E');
        assert("SAI_PORT_STAT_ETHER_STATS_PKTS_4096_TO_9216_OCTETS"@[31] == '4');
        reveal_strlit("SAI_PORT_STAT_ETHER_STATS_PKTS_9217_TO_16383_OCTETS");
        assert("SAI_PORT_STAT_ETHER_STATS_PKTS_9217_TO_16383_OCTETS"@.len() == 51);
        assert("SAI_PORT_STAT_ETHER_STATS_PKTS_9217_TO_16383_OCTETS"@[14] == 'E');
        reveal_strlit("SAI_PORT_STAT_ETHER_STATS_OVERSIZE_PKTS");
        assert("SAI_PORT_STAT_ETHER_STATS_OVERSIZE_PKTS"@.len() == 39);
        assert("SAI_PORT_STAT_ETHER_STATS_OVERSIZE_PKTS"@[14] == 'E');
        reveal_strlit("SAI_PORT_STAT_ETHER_RX_OVERSIZE_PKTS");
        assert("SAI_PORT_STAT_ETHER_RX_OVERSIZE_PKTS"@.len() == 36);
        assert("SAI_PORT_STAT_ETHER_RX_OVERSIZE_PKTS"@[14] == 'E');
        assert("SAI_PORT_STAT_ETHER_RX_OVERSIZE_PKTS"@[20] == 'R');
        reveal_strlit("SAI_PORT_STAT_ETHER_TX_OVERSIZE_PKTS");
        assert("SAI_PORT_STAT_ETHER_TX_OVERSIZE_PKTS"@.len() == 36);
        assert("SAI_PORT_STAT_ETHER_TX_OVERSIZE_PKTS"@[14] == 'E');
        assert("SAI_PORT_STAT_ETHER_TX_OVERSIZE_PKTS"@[20] == 'T');
        reveal_strlit("SAI_PORT_STAT_ETHER_STATS_JABBERS");
        assert("SAI_PORT_STAT_ETHER_STATS_JABBERS"@.len() == 33);
        assert("SAI_PORT_STAT_ETHER_STATS_JABBERS"@[14] == 'E');
        reveal_strlit("SAI_PORT_STAT_ETHER_STATS_OCTETS");
        assert("SAI_PORT_STAT_ETHER_STATS_OCTETS"@.len() == 32);
        assert("SAI_PORT_STAT_ETHER_STATS_OCTETS"@[14] == 'E');
        assert("SAI_PORT_STAT_ETHER_STATS_OCTETS"@[15] == 'T');
        reveal_strlit("SAI_PORT_STAT_ETHER_STATS_PKTS");
        assert("SAI_PORT_STAT_ETHER_STATS_PKTS"@.len() == 30);
        assert("SAI_PORT_STAT_ETHER_STATS_PKTS"@[14] == 'E');
        reveal_strlit("SAI_PORT_STAT_ETHER_STATS_COLLISIONS");
        assert("SAI_PORT_STAT_ETHER_STATS_COLLISIONS"@.len() == 36);
        assert("SAI_PORT_STAT_ETHER_STATS_COLLISIONS"@[14] == 'E');
        assert("SAI_PORT_STAT_ETHER_STATS_COLLISIONS"@[20] == 'S');
        reveal_strlit("SAI_PORT_STAT_ETHER_STATS_CRC_ALIGN_ERRORS");
        assert("SAI_PORT_STAT_ETHER_STATS_CRC_ALIGN_ERRORS"@.len() == 42);
        assert("SAI_PORT_STAT_ETHER_STATS_CRC_ALIGN_ERRORS"@[14] == 'E');
        reveal_strlit("SAI_PORT_STAT_ETHER_STATS_TX_NO_ERRORS");
        assert("SAI_PORT_STAT_ETHER_STATS_TX_NO_ERRORS"@.len() == 38);
        assert("SAI_PORT_STAT_ETHER_STATS_TX_NO_ERRORS"@[14] == 'E');
        assert("SAI_PORT_STAT_ETHER_STATS_TX_NO_ERRORS"@[20] == 'S');
        assert("SAI_PORT_STAT_ETHER_STATS_TX_NO_ERRORS"@[26] == 'T');
        reveal_strlit("SAI_PORT_STAT_ETHER_STATS_RX_NO_ERRORS");
        assert("SAI_PORT_STAT_ETHER_STATS_RX_NO_ERRORS"@.len() == 38);
        assert("SAI_PORT_STAT_ETHER_STATS_RX_NO_ERRORS"@[14] == 'E');
        assert("SAI_PORT_STAT_ETHER_STATS_RX_NO_ERRORS"@[20] == 'S');
        assert("SAI_PORT_STAT_ETHER_STATS_RX_NO_ERRORS"@[26] == 'R');
        reveal_strlit("SAI_PORT_STAT_IP_IN_RECEIVES");
        assert("SAI_PORT_STAT_IP_IN_RECEIVES"@.len() == 28);
        assert("SAI_PORT_STAT_IP_IN_RECEIVES"@[15] == 'P');
        assert("SAI_PORT_STAT_IP_IN_RECEIVES"@[16] == '_');
        assert("SAI_PORT_STAT_IP_IN_RECEIVES"@[20] == 'R');
        reveal_strlit("SAI_PORT_STAT_IP_IN_OCTETS");
        assert("SAI_PORT_STAT_IP_IN_OCTETS"@.len() == 26);
        assert("SAI_PORT_STAT_IP_IN_OCTETS"@[14] == 'I');
        assert("SAI_PORT_STAT_IP_IN_OCTETS"@[15] == 'P');
        reveal_strlit("SAI_PORT_STAT_IP_IN_UCAST_PKTS");
        assert("SAI_PORT_STAT_IP_IN_UCAST_PKTS"@.len() == 30);
        assert("SAI_PORT_STAT_IP_IN_UCAST_PKTS"@[14] == 'I');
        assert("SAI_PORT_STAT_IP_IN_UCAST_PKTS"@[15] == 'P');
        assert("SAI_PORT_STAT_IP_IN_UCAST_PKTS"@[16] == '_');
        reveal_strlit("SAI_PORT_STAT_IP_IN_NON_UCAST_PKTS");
        assert("SAI_PORT_STAT_IP_IN_NON_UCAST_PKTS"@.len() == 34);
        assert("SAI_PORT_STAT_IP_IN_NON_UCAST_PKTS"@[14] == 'I');
        assert("SAI_PORT_STAT_IP_IN_NON_UCAST_PKTS"@[15] == 'P');
        reveal_strlit("SAI_PORT_STAT_IP_IN_DISCARDS");
        assert("SAI_PORT_STAT_IP_IN_DISCARDS"@.len() == 28);
        assert("SAI_PORT_STAT_IP_IN_DISCARDS"@[15] == 'P');
        assert("SAI_PORT_STAT_IP_IN_DISCARDS"@[16] == '_');
        assert("SAI_PORT_STAT_IP_IN_DISCARDS"@[20] == 'D');
        reveal_strlit("SAI_PORT_STAT_IP_OUT_OCTETS");
        assert("SAI_PORT_STAT_IP_OUT_OCTETS"@.len() == 27);
        assert("SAI_PORT_STAT_IP_OUT_OCTETS"@[14] == 'I');
        assert("SAI_PORT_STAT_IP_OUT_OCTETS"@[15] == 'P');
        reveal_strlit("SAI_PORT_STAT_IP_OUT_UCAST_PKTS");
        assert("SAI_PORT_STAT_IP_OUT_UCAST_PKTS"@.len() == 31);
        assert("SAI_PORT_STAT_IP_OUT_UCAST_PKTS"@[15] == 'P');
        assert("SAI_PORT_STAT_IP_OUT_UCAST_PKTS"@[16] == '_');
        reveal_strlit("SAI_PORT_STAT_IP_OUT_NON_UCAST_PKTS");
        assert("SAI_PORT_STAT_IP_OUT_NON_UCAST_PKTS"@.len() == 35);
        assert("SAI_PORT_STAT_IP_OUT_NON_UCAST_PKTS"@[14] == 'I');
        assert("SAI_PORT_STAT_IP_OUT_NON_UCAST_PKTS"@[15] == 'P');
        reveal_strlit("SAI_PORT_STAT_IP_OUT_DISCARDS");
        assert("SAI_PORT_STAT_IP_OUT_DISCARDS"@.len() == 29);
        assert("SAI_PORT_STAT_IP_OUT_DISCARDS"@[14] == 'I');
        assert("SAI_PORT_STAT_IP_OUT_DISCARDS"@[15] == 'P');
        assert("SAI_PORT_STAT_IP_OUT_DISCARDS"@[16] == '_');
        reveal_strlit("SAI_PORT_STAT_IPV6_IN_RECEIVES");
        assert("SAI_PORT_STAT_IPV6_IN_RECEIVES"@.len() == 30);
        assert("SAI_PORT_STAT_IPV6_IN_RECEIVES"@[14] == 'I');
        assert("SAI_PORT_STAT_IPV6_IN_RECEIVES"@[15] == 'P');
        assert("SAI_PORT_STAT_IPV6_IN_RECEIVES"@[16] == 'V');
        assert("SAI_PORT_STAT_IPV6_IN_RECEIVES"@[22] == 'R');
        reveal_strlit("SAI_PORT_STAT_IPV6_IN_OCTETS");
        assert("SAI_PORT_STAT_IPV6_IN_OCTETS"@.len() == 28);
        assert("SAI_PORT_STAT_IPV6_IN_OCTETS"@[15] == 'P');
        assert("SAI_PORT_STAT_IPV6_IN_OCTETS"@[16] == 'V');
        reveal_strlit("SAI_PORT_STAT_IPV6_IN_UCAST_PKTS");
        assert("SAI_PORT_STAT_IPV6_IN_UCAST_PKTS"@.len() == 32);
        assert("SAI_PORT_STAT_IPV6_IN_UCAST_PKTS"@[14] == 'I');
        assert("SAI_PORT_STAT_IPV6_IN_UCAST_PKTS"@[15] == 'P');
        assert("SAI_PORT_STAT_IPV6_IN_UCAST_PKTS"@[22] == 'U');
        reveal_strlit("SAI_PORT_STAT_IPV6_IN_NON_UCAST_PKTS");
        assert("SAI_PORT_STAT_IPV6_IN_NON_UCAST_PKTS"@.len() == 36);
        assert("SAI_PORT_STAT_IPV6_IN_NON_UCAST_PKTS"@[14] == 'I');
        reveal_strlit("SAI_PORT_STAT_IPV6_IN_MCAST_PKTS");
        assert("SAI_PORT_STAT_IPV6_IN_MCAST_PKTS"@.len() == 32);
        assert("SAI_PORT_STAT_IPV6_IN_MCAST_PKTS"@[14] == 'I');
        assert("SAI_PORT_STAT_IPV6_IN_MCAST_PKTS"@[15] == 'P');
        assert("SAI_PORT_STAT_IPV6_IN_MCAST_PKTS"@[22] == 'M');
        reveal_strlit("SAI_PORT_STAT_IPV6_IN_DISCARDS");
        assert("SAI_PORT_STAT_IPV6_IN_DISCARDS"@.len() == 30);
        assert("SAI_PORT_STAT_IPV6_IN_DISCARDS"@[14] == 'I');
        assert("SAI_PORT_STAT_IPV6_IN_DISCARDS"@[15] == 'P');
        assert("SAI_PORT_STAT_IPV6_IN_DISCARDS"@[16] == 'V');
        assert("SAI_PORT_STAT_IPV6_IN_DISCARDS"@[22] == 'D');
        reveal_strlit("SAI_PORT_STAT_IPV6_OUT_OCTETS");
        assert("SAI_PORT_STAT_IPV6_OUT_OCTETS"@.len() == 29);
        assert("SAI_PORT_STAT_IPV6_OUT_OCTETS"@[14] == 'I');
        assert("SAI_PORT_STAT_IPV6_OUT_OCTETS"@[15] == 'P');
        assert("SAI_PORT_STAT_IPV6_OUT_OCTETS"@[16] == 'V');
        reveal_strlit("SAI_PORT_STAT_IPV6_OUT_UCAST_PKTS");
        assert("SAI_PORT_STAT_IPV6_OUT_UCAST_PKTS"@.len() == 33);
        assert("SAI_PORT_STAT_IPV6_OUT_UCAST_PKTS"@[14] == 'I');
        assert("SAI_PORT_STAT_IPV6_OUT_UCAST_PKTS"@[15] == 'P');
        assert("SAI_PORT_STAT_IPV6_OUT_UCAST_PKTS"@[23] == 'U');
        reveal_strlit("SAI_PORT_STAT_IPV6_OUT_NON_UCAST_PKTS");
        assert("SAI_PORT_STAT_IPV6_OUT_NON_UCAST_PKTS"@.len() == 37);
        assert("SAI_PORT_STAT_IPV6_OUT_NON_UCAST_PKTS"@[14] == 'I');
        assert("SAI_PORT_STAT_IPV6_OUT_NON_UCAST_PKTS"@[15] == 'P');
        reveal_strlit("SAI_PORT_STAT_IPV6_OUT_MCAST_PKTS");
        assert("SAI_PORT_STAT_IPV6_OUT_MCAST_PKTS"@.len() == 33);
        assert("SAI_PORT_STAT_IPV6_OUT_MCAST_PKTS"@[14] == 'I');
        assert("SAI_PORT_STAT_IPV6_OUT_MCAST_PKTS"@[15] == 'P');
        assert("SAI_PORT_STAT_IPV6_OUT_MCAST_PKTS"@[23] == 'M');
        reveal_strlit("SAI_PORT_STAT_IPV6_OUT_DISCARDS");
        assert("SAI_PORT_STAT_IPV6_OUT_DISCARDS"@.len() == 31);
        assert("SAI_PORT_STAT_IPV6_OUT_DISCARDS"@[15] == 'P');
        assert("SAI_PORT_STAT_IPV6_OUT_DISCARDS"@[16] == 'V');
        reveal_strlit("SAI_PORT_STAT_GREEN_WRED_DROPPED_PACKETS");
        assert("SAI_PORT_STAT_GREEN_WRED_DROPPED_PACKETS"@.len() == 40);
        assert("SAI_PORT_STAT_GREEN_WRED_DROPPED_PACKETS"@[14] == 'G');
        reveal_strlit("SAI_PORT_STAT_GREEN_WRED_DROPPED_BYTES");
        assert("SAI_PORT_STAT_GREEN_WRED_DROPPED_BYTES"@.len() == 38);
        assert("SAI_PORT_STAT_GREEN_WRED_DROPPED_BYTES"@[14] == 'G');
        reveal_strlit("SAI_PORT_STAT_YELLOW_WRED_DROPPED_PACKETS");
        assert("SAI_PORT_STAT_YELLOW_WRED_DROPPED_PACKETS"@.len() == 41);
        assert("SAI_PORT_STAT_YELLOW_WRED_DROPPED_PACKETS"@[14] == 'Y');
        reveal_strlit("SAI_PORT_STAT_YELLOW_WRED_DROPPED_BYTES");
        assert("SAI_PORT_STAT_YELLOW_WRED_DROPPED_BYTES"@.len() == 39);
        assert("SAI_PORT_STAT_YELLOW_WRED_DROPPED_BYTES"@[14] == 'Y');
        reveal_strlit("SAI_PORT_STAT_RED_WRED_DROPPED_PACKETS");
        assert("SAI_PORT_STAT_RED_WRED_DROPPED_PACKETS"@.len() == 38);
        assert("SAI_PORT_STAT_RED_WRED_DROPPED_PACKETS"@[14] == 'R');
        reveal_strlit("SAI_PORT_STAT_RED_WRED_DROPPED_BYTES");
        assert("SAI_PORT_STAT_RED_WRED_DROPPED_BYTES"@.len() == 36);
        assert("SAI_PORT_STAT_RED_WRED_DROPPED_BYTES"@[14] == 'R');
        reveal_strlit("SAI_PORT_STAT_WRED_DROPPED_PACKETS");
        assert("SAI_PORT_STAT_WRED_DROPPED_PACKETS"@.len() == 34);
        assert("SAI_PORT_STAT_WRED_DROPPED_PACKETS"@[14] == 'W');
        reveal_strlit("SAI_PORT_STAT_WRED_DROPPED_BYTES");
        assert("SAI_PORT_STAT_WRED_DROPPED_BYTES"@.len() == 32);
        assert("SAI_PORT_STAT_WRED_DROPPED_BYTES"@[14] == 'W');
        reveal_strlit("SAI_PORT_STAT_ECN_MARKED_PACKETS");
        assert("SAI_PORT_STAT_ECN_MARKED_PACKETS"@.len() == 32);
        assert("SAI_PORT_STAT_ECN_MARKED_PACKETS"@[14] == 'E');
        assert("SAI_PORT_STAT_ECN_MARKED_PACKETS"@[15] == 'C');
        reveal_strlit("SAI_PORT_STAT_ETHER_IN_PKTS_64_OCTETS");
        assert("SAI_PORT_STAT_ETHER_IN_PKTS_64_OCTETS"@.len() == 37);
        assert("SAI_PORT_STAT_ETHER_IN_PKTS_64_OCTETS"@[14] == 'E');
        assert("SAI_PORT_STAT_ETHER_IN_PKTS_64_OCTETS"@[20] == 'I');
        reveal_strlit("SAI_PORT_STAT_ETHER_IN_PKTS_65_TO_127_OCTETS");
        assert("SAI_PORT_STAT_ETHER_IN_PKTS_65_TO_127_OCTETS"@.len() == 44);
        assert("SAI_PORT_STAT_ETHER_IN_PKTS_65_TO_127_OCTETS"@[14] == 'E');
        reveal_strlit("SAI_PORT_STAT_ETHER_IN_PKTS_128_TO_255_OCTETS");
        assert("SAI_PORT_STAT_ETHER_IN_PKTS_128_TO_255_OCTETS"@.len() == 45);
        assert("SAI_PORT_STAT_ETHER_IN_PKTS_128_TO_255_OCTETS"@[14] == 'E');
        assert("SAI_PORT_STAT_ETHER_IN_PKTS_128_TO_255_OCTETS"@[20] == 'I');
        assert("SAI_PORT_STAT_ETHER_IN_PKTS_128_TO_255_OCTETS"@[28] == '1');
        reveal_strlit("SAI_PORT_STAT_ETHER_IN_PKTS_256_TO_511_OCTETS");
        assert("SAI_PORT_STAT_ETHER_IN_PKTS_256_TO_511_OCTETS"@.len() == 45);
        assert("SAI_PORT_STAT_ETHER_IN_PKTS_256_TO_511_OCTETS"@[14] == 'E');
        assert("SAI_PORT_STAT_ETHER_IN_PKTS_256_TO_511_OCTETS"@[20] == 'I');
        assert("SAI_PORT_STAT_ETHER_IN_PKTS_256_TO_511_OCTETS"@[28] == '2');
        reveal_strlit("SAI_PORT_STAT_ETHER_IN_PKTS_512_TO_1023_OCTETS");
        assert("SAI_PORT_STAT_ETHER_IN_PKTS_512_TO_1023_OCTETS"@.len() == 46);
        assert("SAI_PORT_STAT_ETHER_IN_PKTS_512_TO_1023_OCTETS"@[14] == 'E');
        assert("SAI_PORT_STAT_ETHER_IN_PKTS_512_TO_1023_OCTETS"@[20] == 'I');
        reveal_strlit("SAI_PORT_STAT_ETHER_IN_PKTS_1024_TO_1518_OCTETS");
        assert("SAI_PORT_STAT_ETHER_IN_PKTS_1024_TO_1518_OCTETS"@.len() == 47);
        assert("SAI_PORT_STAT_ETHER_IN_PKTS_1024_TO_1518_OCTETS"@[14] == 'E');
        assert("SAI_PORT_STAT_ETHER_IN_PKTS_1024_TO_1518_OCTETS"@[20] == 'I');
        assert("SAI_PORT_STAT_ETHER_IN_PKTS_1024_TO_1518_OCTETS"@[28] == '1');
        assert("SAI_PORT_STAT_ETHER_IN_PKTS_1024_TO_1518_OCTETS"@[29] == '0');
        reveal_strlit("SAI_PORT_STAT_ETHER_IN_PKTS_1519_TO_2047_OCTETS");
        assert("SAI_PORT_STAT_ETHER_IN_PKTS_1519_TO_2047_OCTETS"@.len() == 47);
        assert("SAI_PORT_STAT_ETHER_IN_PKTS_1519_TO_2047_OCTETS"@[14] == 'E');
        assert("SAI_PORT_STAT_ETHER_IN_PKTS_1519_TO_2047_OCTETS"@[20] == 'I');
        assert("SAI_PORT_STAT_ETHER_IN_PKTS_1519_TO_2047_OCTETS"@[28] == '1');
        assert("SAI_PORT_STAT_ETHER_IN_PKTS_1519_TO_2047_OCTETS"@[29] == '5');
        assert("SAI_PORT_STAT_ETHER_IN_PKTS_1519_TO_2047_OCTETS"@[37] == '0');
        reveal_strlit("SAI_PORT_STAT_ETHER_IN_PKTS_2048_TO_4095_OCTETS");
        assert("SAI_PORT_STAT_ETHER_IN_PKTS_2048_TO_4095_OCTETS"@.len() == 47);
        assert("SAI_PORT_STAT_ETHER_IN_PKTS_2048_TO_4095_OCTETS"@[14] == 'E');
        assert("SAI_PORT_STAT_ETHER_IN_PKTS_2048_TO_4095_OCTETS"@[20] == 'I');
        assert("SAI_PORT_STAT_ETHER_IN_PKTS_2048_TO_4095_OCTETS"@[28] == '2');
        assert("SAI_PORT_STAT_ETHER_IN_PKTS_2048_TO_4095_OCTETS"@[29] == '0');
        reveal_strlit("SAI_PORT_STAT_ETHER_IN_PKTS_4096_TO_9216_OCTETS");
        assert("SAI_PORT_STAT_ETHER_IN_PKTS_4096_TO_9216_OCTETS"@.len() == 47);
        assert("SAI_PORT_STAT_ETHER_IN_PKTS_4096_TO_9216_OCTETS"@[14] == 'E');
        assert("SAI_PORT_STAT_ETHER_IN_PKTS_4096_TO_9216_OCTETS"@[20] == 'I');
        assert("SAI_PORT_STAT_ETHER_IN_PKTS_4096_TO_9216_OCTETS"@[28] == '4');
        reveal_strlit("SAI_PORT_STAT_ETHER_IN_PKTS_9217_TO_16383_OCTETS");
        assert("SAI_PORT_STAT_ETHER_IN_PKTS_9217_TO_16383_OCTETS"@.len() == 48);
        assert("SAI_PORT_STAT_ETHER_IN_PKTS_9217_TO_16383_OCTETS"@[14] == 'E');
        assert("SAI_PORT_STAT_ETHER_IN_PKTS_9217_TO_16383_OCTETS"@[20] == 'I');
        assert("SAI_PORT_STAT_ETHER_IN_PKTS_9217_TO_16383_OCTETS"@[29] == '2');
        reveal_strlit("SAI_PORT_STAT_ETHER_OUT_PKTS_64_OCTETS");
        assert("SAI_PORT_STAT_ETHER_OUT_PKTS_64_OCTETS"@.len() == 38);
        assert("SAI_PORT_STAT_ETHER_OUT_PKTS_64_OCTETS"@[14] == 'E');
        assert("SAI_PORT_STAT_ETHER_OUT_PKTS_64_OCTETS"@[20] == 'O');
        reveal_strlit("SAI_PORT_STAT_ETHER_OUT_PKTS_65_TO_127_OCTETS");
        assert("SAI_PORT_STAT_ETHER_OUT_PKTS_65_TO_127_OCTETS"@.len() == 45);
        assert("SAI_PORT_STAT_ETHER_OUT_PKTS_65_TO_127_OCTETS"@[14] == 'E');
        assert("SAI_PORT_STAT_ETHER_OUT_PKTS_65_TO_127_OCTETS"@[20] == 'O');
        reveal_strlit("SAI_PORT_STAT_ETHER_OUT_PKTS_128_TO_255_OCTETS");
        assert("SAI_PORT_STAT_ETHER_OUT_PKTS_128_TO_255_OCTETS"@.len() == 46);
        assert("SAI_PORT_STAT_ETHER_OUT_PKTS_128_TO_255_OCTETS"@[14] == 'E');
        assert("SAI_PORT_STAT_ETHER_OUT_PKTS_128_TO_255_OCTETS"@[20] == 'O');
        assert("SAI_PORT_STAT_ETHER_OUT_PKTS_128_TO_255_OCTETS"@[29] == '1');
        reveal_strlit("SAI_PORT_STAT_ETHER_OUT_PKTS_256_TO_511_OCTETS");
        assert("SAI_PORT_STAT_ETHER_OUT_PKTS_256_TO_511_OCTETS"@.len() == 46);
        assert("SAI_PORT_STAT_ETHER_OUT_PKTS_256_TO_511_OCTETS"@[14] == 'E');
        assert("SAI_PORT_STAT_ETHER_OUT_PKTS_256_TO_511_OCTETS"@[20] == 'O');
        assert("SAI_PORT_STAT_ETHER_OUT_PKTS_256_TO_511_OCTETS"@[29] == '2');
        reveal_strlit("SAI_PORT_STAT_ETHER_OUT_PKTS_512_TO_1023_OCTETS");
        assert("SAI_PORT_STAT_ETHER_OUT_PKTS_512_TO_1023_OCTETS"@.len() == 47);
        assert("SAI_PORT_STAT_ETHER_OUT_PKTS_512_TO_1023_OCTETS"@[14] == 'E');
        assert("SAI_PORT_STAT_ETHER_OUT_PKTS_512_TO_1023_OCTETS"@[20] == 'O');
        reveal_strlit("SAI_PORT_STAT_ETHER_OUT_PKTS_1024_TO_1518_OCTETS");
        assert("SAI_PORT_STAT_ETHER_OUT_PKTS_1024_TO_1518_OCTETS"@.len() == 48);
        assert("SAI_PORT_STAT_ETHER_OUT_PKTS_1024_TO_1518_OCTETS"@[14] == 'E');
        assert("SAI_PORT_STAT_ETHER_OUT_PKTS_1024_TO_1518_OCTETS"@[20] == 'O');
        assert("SAI_PORT_STAT_ETHER_OUT_PKTS_1024_TO_1518_OCTETS"@[29] == '1');
        assert("SAI_PORT_STAT_ETHER_OUT_PKTS_1024_TO_1518_OCTETS"@[30] == '0');
        reveal_strlit("SAI_PORT_STAT_ETHER_OUT_PKTS_1519_TO_2047_OCTETS");
        assert("SAI_PORT_STAT_ETHER_OUT_PKTS_1519_TO_2047_OCTETS"@.len() == 48);
        assert("SAI_PORT_STAT_ETHER_OUT_PKTS_1519_TO_2047_OCTETS"@[14] == 'E');
        assert("SAI_PORT_STAT_ETHER_OUT_PKTS_1519_TO_2047_OCTETS"@[20] == 'O');
        assert("SAI_PORT_STAT_ETHER_OUT_PKTS_1519_TO_2047_OCTETS"@[29] == '1');
        assert("SAI_PORT_STAT_ETHER_OUT_PKTS_1519_TO_2047_OCTETS"@[30] == '5');
        assert("SAI_PORT_STAT_ETHER_OUT_PKTS_1519_TO_2047_OCTETS"@[38] == '0');
        reveal_strlit("SAI_PORT_STAT_ETHER_OUT_PKTS_2048_TO_4095_OCTETS");
        assert("SAI_PORT_STAT_ETHER_OUT_PKTS_2048_TO_4095_OCTETS"@.len() == 48);
        assert("SAI_PORT_STAT_ETHER_OUT_PKTS_2048_TO_4095_OCTETS"@[14] == 'E');
        assert("SAI_PORT_STAT_ETHER_OUT_PKTS_2048_TO_4095_OCTETS"@[20] == 'O');
        assert("SAI_PORT_STAT_ETHER_OUT_PKTS_2048_TO_4095_OCTETS"@[29] == '2');
        assert("SAI_PORT_STAT_ETHER_OUT_PKTS_2048_TO_4095_OCTETS"@[30] == '0');
        reveal_strlit("SAI_PORT_STAT_ETHER_OUT_PKTS_4096_TO_9216_OCTETS");
        assert("SAI_PORT_STAT_ETHER_OUT_PKTS_4096_TO_9216_OCTETS"@.len() == 48);
        assert("SAI_PORT_STAT_ETHER_OUT_PKTS_4096_TO_9216_OCTETS"@[14] == 'E');
        assert("SAI_PORT_STAT_ETHER_OUT_PKTS_4096_TO_9216_OCTETS"@[20] == 'O');
        assert("SAI_PORT_STAT_ETHER_OUT_PKTS_4096_TO_9216_OCTETS"@[29] == '4');
        reveal_strlit("SAI_PORT_STAT_ETHER_OUT_PKTS_9217_TO_16383_OCTETS");
        assert("SAI_PORT_STAT_ETHER_OUT_PKTS_9217_TO_16383_OCTETS"@.len() == 49);
        assert("SAI_PORT_STAT_ETHER_OUT_PKTS_9217_TO_16383_OCTETS"@[20] == 'O');
        assert("SAI_PORT_STAT_ETHER_OUT_PKTS_9217_TO_16383_OCTETS"@[30] == '2');
        reveal_strlit("SAI_PORT_STAT_IN_CURR_OCCUPANCY_BYTES");
        assert("SAI_PORT_STAT_IN_CURR_OCCUPANCY_BYTES"@.len() == 37);
        assert("SAI_PORT_STAT_IN_CURR_OCCUPANCY_BYTES"@[14] == 'I');
        assert("SAI_PORT_STAT_IN_CURR_OCCUPANCY_BYTES"@[15] == 'N');
        reveal_strlit("SAI_PORT_STAT_IN_WATERMARK_BYTES");
        assert("SAI_PORT_STAT_IN_WATERMARK_BYTES"@.len() == 32);
        assert("SAI_PORT_STAT_IN_WATERMARK_BYTES"@[14] == 'I');
        assert("SAI_PORT_STAT_IN_WATERMARK_BYTES"@[15] == 'N');
        reveal_strlit("SAI_PORT_STAT_IN_SHARED_CURR_OCCUPANCY_BYTES");
        assert("SAI_PORT_STAT_IN_SHARED_CURR_OCCUPANCY_BYTES"@.len() == 44);
        assert("SAI_PORT_STAT_IN_SHARED_CURR_OCCUPANCY_BYTES"@[14] == 'I');
        reveal_strlit("SAI_PORT_STAT_IN_SHARED_WATERMARK_BYTES");
        assert("SAI_PORT_STAT_IN_SHARED_WATERMARK_BYTES"@.len() == 39);
        assert("SAI_PORT_STAT_IN_SHARED_WATERMARK_BYTES"@[14] == 'I');
        reveal_strlit("SAI_PORT_STAT_OUT_CURR_OCCUPANCY_BYTES");
        assert("SAI_PORT_STAT_OUT_CURR_OCCUPANCY_BYTES"@.len() == 38);
        assert("SAI_PORT_STAT_OUT_CURR_OCCUPANCY_BYTES"@[14] == 'O');
        reveal_strlit("SAI_PORT_STAT_OUT_WATERMARK_BYTES");
        assert("SAI_PORT_STAT_OUT_WATERMARK_BYTES"@.len() == 33);
        assert("SAI_PORT_STAT_OUT_WATERMARK_BYTES"@[14] == 'O');
        reveal_strlit("SAI_PORT_STAT_OUT_SHARED_CURR_OCCUPANCY_BYTES");
        assert("SAI_PORT_STAT_OUT_SHARED_CURR_OCCUPANCY_BYTES"@.len() == 45);
        assert("SAI_PORT_STAT_OUT_SHARED_CURR_OCCUPANCY_BYTES"@[14] == 'O');
        reveal_strlit("SAI_PORT_STAT_OUT_SHARED_WATERMARK_BYTES");
        assert("SAI_PORT_STAT_OUT_SHARED_WATERMARK_BYTES"@.len() == 40);
        assert("SAI_PORT_STAT_OUT_SHARED_WATERMARK_BYTES"@[14] == 'O');
        reveal_strlit("SAI_PORT_STAT_IN_DROPPED_PKTS");
        assert("SAI_PORT_STAT_IN_DROPPED_PKTS"@.len() == 29);
        assert("SAI_PORT_STAT_IN_DROPPED_PKTS"@[14] == 'I');
        assert("SAI_PORT_STAT_IN_DROPPED_PKTS"@[15] == 'N');
        reveal_strlit("SAI_PORT_STAT_OUT_DROPPED_PKTS");
        assert("SAI_PORT_STAT_OUT_DROPPED_PKTS"@.len() == 30);
        assert("SAI_PORT_STAT_OUT_DROPPED_PKTS"@[14] == 'O');
        reveal_strlit("SAI_PORT_STAT_PAUSE_RX_PKTS");
        assert("SAI_PORT_STAT_PAUSE_RX_PKTS"@.len() == 27);
        assert("SAI_PORT_STAT_PAUSE_RX_PKTS"@[14] == 'P');
        assert("SAI_PORT_STAT_PAUSE_RX_PKTS"@[15] == 'A');
        assert("SAI_PORT_STAT_PAUSE_RX_PKTS"@[20] == 'R');
        reveal_strlit("SAI_PORT_STAT_PAUSE_TX_PKTS");
        assert("SAI_PORT_STAT_PAUSE_TX_PKTS"@.len() == 27);
        assert("SAI_PORT_STAT_PAUSE_TX_PKTS"@[14] == 'P');
        assert("SAI_PORT_STAT_PAUSE_TX_PKTS"@[15] == 'A');
        assert("SAI_PORT_STAT_PAUSE_TX_PKTS"@[20] == 'T');
        reveal_strlit("SAI_PORT_STAT_PFC_0_RX_PKTS");
        assert("SAI_PORT_STAT_PFC_0_RX_PKTS"@.len() == 27);
        assert("SAI_PORT_STAT_PFC_0_RX_PKTS"@[14] == 'P');
        assert("SAI_PORT_STAT_PFC_0_RX_PKTS"@[15] == 'F');
        assert("SAI_PORT_STAT_PFC_0_RX_PKTS"@[18] == '0');
        assert("SAI_PORT_STAT_PFC_0_RX_PKTS"@[20] == 'R');
        reveal_strlit("SAI_PORT_STAT_PFC_0_TX_PKTS");
        assert("SAI_PORT_STAT_PFC_0_TX_PKTS"@.len() == 27);
        assert("SAI_PORT_STAT_PFC_0_TX_PKTS"@[14] == 'P');
        assert("SAI_PORT_STAT_PFC_0_TX_PKTS"@[15] == 'F');
        assert("SAI_PORT_STAT_PFC_0_TX_PKTS"@[18] == '0');
        assert("SAI_PORT_STAT_PFC_0_TX_PKTS"@[20] == 'T');
        reveal_strlit("SAI_PORT_STAT_PFC_1_RX_PKTS");
        assert("SAI_PORT_STAT_PFC_1_RX_PKTS"@.len() == 27);
        assert("SAI_PORT_STAT_PFC_1_RX_PKTS"@[14] == 'P');
        assert("SAI_PORT_STAT_PFC_1_RX_PKTS"@[15] == 'F');
        assert("SAI_PORT_STAT_PFC_1_RX_PKTS"@[18] == '1');
        assert("SAI_PORT_STAT_PFC_1_RX_PKTS"@[20] == 'R');
        reveal_strlit("SAI_PORT_STAT_PFC_1_TX_PKTS");
        assert("SAI_PORT_STAT_PFC_1_TX_PKTS"@.len() == 27);
        assert("SAI_PORT_STAT_PFC_1_TX_PKTS"@[14] == 'P');
        assert("SAI_PORT_STAT_PFC_1_TX_PKTS"@[15] == 'F');
        assert("SAI_PORT_STAT_PFC_1_TX_PKTS"@[18] == '1');
        assert("SAI_PORT_STAT_PFC_1_TX_PKTS"@[20] == 'T');
        reveal_strlit("SAI_PORT_STAT_PFC_2_RX_PKTS");
        assert("SAI_PORT_STAT_PFC_2_RX_PKTS"@.len() == 27);
        assert("SAI_PORT_STAT_PFC_2_RX_PKTS"@[14] == 'P');
        assert("SAI_PORT_STAT_PFC_2_RX_PKTS"@[15] == 'F');
        assert("SAI_PORT_STAT_PFC_2_RX_PKTS"@[18] == '2');
        assert("SAI_PORT_STAT_PFC_2_RX_PKTS"@[20] == 'R');
        reveal_strlit("SAI_PORT_STAT_PFC_2_TX_PKTS");
        assert("SAI_PORT_STAT_PFC_2_TX_PKTS"@.len() == 27);
        assert("SAI_PORT_STAT_PFC_2_TX_PKTS"@[14] == 'P');
        assert("SAI_PORT_STAT_PFC_2_TX_PKTS"@[15] == 'F');
        assert("SAI_PORT_STAT_PFC_2_TX_PKTS"@[18] == '2');
        assert("SAI_PORT_STAT_PFC_2_TX_PKTS"@[20] == 'T');
        reveal_strlit("SAI_PORT_STAT_PFC_3_RX_PKTS");
        assert("SAI_PORT_STAT_PFC_3_RX_PKTS"@.len() == 27);
        assert("SAI_PORT_STAT_PFC_3_RX_PKTS"@[14] == 'P');
        assert("SAI_PORT_STAT_PFC_3_RX_PKTS"@[15] == 'F');
        assert("SAI_PORT_STAT_PFC_3_RX_PKTS"@[18] == '3');
        assert("SAI_PORT_STAT_PFC_3_RX_PKTS"@[20] == 'R');
        reveal_strlit("SAI_PORT_STAT_PFC_3_TX_PKTS");
        assert("SAI_PORT_STAT_PFC_3_TX_PKTS"@.len() == 27);
        assert("SAI_PORT_STAT_PFC_3_TX_PKTS"@[14] == 'P');
        assert("SAI_PORT_STAT_PFC_3_TX_PKTS"@[15] == 'F');
        assert("SAI_PORT_STAT_PFC_3_TX_PKTS"@[18] == '3');
        assert("SAI_PORT_STAT_PFC_3_TX_PKTS"@[20] == 'T');
        reveal_strlit("SAI_PORT_STAT_PFC_4_RX_PKTS");
        assert("SAI_PORT_STAT_PFC_4_RX_PKTS"@.len() == 27);
        assert("SAI_PORT_STAT_PFC_4_RX_PKTS"@[14] == 'P');
        assert("SAI_PORT_STAT_PFC_4_RX_PKTS"@[15] == 'F');
        assert("SAI_PORT_STAT_PFC_4_RX_PKTS"@[18] == '4');
        assert("SAI_PORT_STAT_PFC_4_RX_PKTS"@[20] == 'R');
        reveal_strlit("SAI_PORT_STAT_PFC_4_TX_PKTS");
        assert("SAI_PORT_STAT_PFC_4_TX_PKTS"@.len() == 27);
        assert("SAI_PORT_STAT_PFC_4_TX_PKTS"@[14] == 'P');
        assert("SAI_PORT_STAT_PFC_4_TX_PKTS"@[15] == 'F');
        assert("SAI_PORT_STAT_PFC_4_TX_PKTS"@[18] == '4');
        assert("SAI_PORT_STAT_PFC_4_TX_PKTS"@[20] == 'T');
        reveal_strlit("SAI_PORT_STAT_PFC_5_RX_PKTS");
        assert("SAI_PORT_STAT_PFC_5_RX_PKTS"@.len() == 27);
        assert("SAI_PORT_STAT_PFC_5_RX_PKTS"@[14] == 'P');
        assert("SAI_PORT_STAT_PFC_5_RX_PKTS"@[15] == 'F');
        assert("SAI_PORT_STAT_PFC_5_RX_PKTS"@[18] == '5');
        assert("SAI_PORT_STAT_PFC_5_RX_PKTS"@[20] == 'R');
        reveal_strlit("SAI_PORT_STAT_PFC_5_TX_PKTS");
        assert("SAI_PORT_STAT_PFC_5_TX_PKTS"@.len() == 27);
        assert("SAI_PORT_STAT_PFC_5_TX_PKTS"@[14] == 'P');
        assert("SAI_PORT_STAT_PFC_5_TX_PKTS"@[15] == 'F');
        assert("SAI_PORT_STAT_PFC_5_TX_PKTS"@[18] == '5');
        assert("SAI_PORT_STAT_PFC_5_TX_PKTS"@[20] == 'T');
        reveal_strlit("SAI_PORT_STAT_PFC_6_RX_PKTS");
        assert("SAI_PORT_STAT_PFC_6_RX_PKTS"@.len() == 27);
        assert("SAI_PORT_STAT_PFC_6_RX_PKTS"@[14] == 'P');
        assert("SAI_PORT_STAT_PFC_6_RX_PKTS"@[15] == 'F');
        assert("SAI_PORT_STAT_PFC_6_RX_PKTS"@[18] == '6');
        assert("SAI_PORT_STAT_PFC_6_RX_PKTS"@[20] == 'R');
        reveal_strlit("SAI_PORT_STAT_PFC_6_TX_PKTS");
        assert("SAI_PORT_STAT_PFC_6_TX_PKTS"@.len() == 27);
        assert("SAI_PORT_STAT_PFC_6_TX_PKTS"@[14] == 'P');
        assert("SAI_PORT_STAT_PFC_6_TX_PKTS"@[15] == 'F');
        assert("SAI_PORT_STAT_PFC_6_TX_PKTS"@[18] == '6');
        assert("SAI_PORT_STAT_PFC_6_TX_PKTS"@[20] == 'T');
        reveal_strlit("SAI_PORT_STAT_PFC_7_RX_PKTS");
        assert("SAI_PORT_STAT_PFC_7_RX_PKTS"@.len() == 27);
        assert("SAI_PORT_STAT_PFC_7_RX_PKTS"@[14] == 'P');
        assert("SAI_PORT_STAT_PFC_7_RX_PKTS"@[15] == 'F');
        assert("SAI_PORT_STAT_PFC_7_RX_PKTS"@[18] == '7');
        assert("SAI_PORT_STAT_PFC_7_RX_PKTS"@[20] == 'R');
        reveal_strlit("SAI_PORT_STAT_PFC_7_TX_PKTS");
        assert("SAI_PORT_STAT_PFC_7_TX_PKTS"@.len() == 27);
        assert("SAI_PORT_STAT_PFC_7_TX_PKTS"@[14] == 'P');
        assert("SAI_PORT_STAT_PFC_7_TX_PKTS"@[15] == 'F');
        assert("SAI_PORT_STAT_PFC_7_TX_PKTS"@[18] == '7');
        assert("SAI_PORT_STAT_PFC_7_TX_PKTS"@[20] == 'T');
        reveal_strlit("SAI_PORT_STAT_PFC_0_RX_PAUSE_DURATION");
        assert("SAI_PORT_STAT_PFC_0_RX_PAUSE_DURATION"@.len() == 37);
        assert("SAI_PORT_STAT_PFC_0_RX_PAUSE_DURATION"@[14] == 'P');
        assert("SAI_PORT_STAT_PFC_0_RX_PAUSE_DURATION"@[18] == '0');
        assert("SAI_PORT_STAT_PFC_0_RX_PAUSE_DURATION"@[20] == 'R');
        reveal_strlit("SAI_PORT_STAT_PFC_0_TX_PAUSE_DURATION");
        assert("SAI_PORT_STAT_PFC_0_TX_PAUSE_DURATION"@.len() == 37);
        assert("SAI_PORT_STAT_PFC_0_TX_PAUSE_DURATION"@[14] == 'P');
        assert("SAI_PORT_STAT_PFC_0_TX_PAUSE_DURATION"@[18] == '0');
        assert("SAI_PORT_STAT_PFC_0_TX_PAUSE_DURATION"@[20] == 'T');
        reveal_strlit("SAI_PORT_STAT_PFC_1_RX_PAUSE_DURATION");
        assert("SAI_PORT_STAT_PFC_1_RX_PAUSE_DURATION"@.len() == 37);
        assert("SAI_PORT_STAT_PFC_1_RX_PAUSE_DURATION"@[14] == 'P');
        assert("SAI_PORT_STAT_PFC_1_RX_PAUSE_DURATION"@[18] == '1');
        assert("SAI_PORT_STAT_PFC_1_RX_PAUSE_DURATION"@[20] == 'R');
        reveal_strlit("SAI_PORT_STAT_PFC_1_TX_PAUSE_DURATION");
        assert("SAI_PORT_STAT_PFC_1_TX_PAUSE_DURATION"@.len() == 37);
        assert("SAI_PORT_STAT_PFC_1_TX_PAUSE_DURATION"@[14] == 'P');
        assert("SAI_PORT_STAT_PFC_1_TX_PAUSE_DURATION"@[18] == '1');
        assert("SAI_PORT_STAT_PFC_1_TX_PAUSE_DURATION"@[20] == 'T');
        reveal_strlit("SAI_PORT_STAT_PFC_2_RX_PAUSE_DURATION");
        assert("SAI_PORT_STAT_PFC_2_RX_PAUSE_DURATION"@.len() == 37);
        assert("SAI_PORT_STAT_PFC_2_RX_PAUSE_DURATION"@[14] == 'P');
        assert("SAI_PORT_STAT_PFC_2_RX_PAUSE_DURATION"@[18] == '2');
        assert("SAI_PORT_STAT_PFC_2_RX_PAUSE_DURATION"@[20] == 'R');
        reveal_strlit("SAI_PORT_STAT_PFC_2_TX_PAUSE_DURATION");
        assert("SAI_PORT_STAT_PFC_2_TX_PAUSE_DURATION"@.len() == 37);
        assert("SAI_PORT_STAT_PFC_2_TX_PAUSE_DURATION"@[14] == 'P');
        assert("SAI_PORT_STAT_PFC_2_TX_PAUSE_DURATION"@[18] == '2');
        assert("SAI_PORT_STAT_PFC_2_TX_PAUSE_DURATION"@[20] == 'T');
        reveal_strlit("SAI_PORT_STAT_PFC_3_RX_PAUSE_DURATION");
        assert("SAI_PORT_STAT_PFC_3_RX_PAUSE_DURATION"@.len() == 37);
        assert("SAI_PORT_STAT_PFC_3_RX_PAUSE_DURATION"@[14] == 'P');
        assert("SAI_PORT_STAT_PFC_3_RX_PAUSE_DURATION"@[18] == '3');
        assert("SAI_PORT_STAT_PFC_3_RX_PAUSE_DURATION"@[20] == 'R');
        reveal_strlit("SAI_PORT_STAT_PFC_3_TX_PAUSE_DURATION");
        assert("SAI_PORT_STAT_PFC_3_TX_PAUSE_DURATION"@.len() == 37);
        assert("SAI_PORT_STAT_PFC_3_TX_PAUSE_DURATION"@[14] == 'P');
        assert("SAI_PORT_STAT_PFC_3_TX_PAUSE_DURATION"@[18] == '3');
        assert("SAI_PORT_STAT_PFC_3_TX_PAUSE_DURATION"@[20] == 'T');
        reveal_strlit("SAI_PORT_STAT_PFC_4_RX_PAUSE_DURATION");
        assert("SAI_PORT_STAT_PFC_4_RX_PAUSE_DURATION"@.len() == 37);
        assert("SAI_PORT_STAT_PFC_4_RX_PAUSE_DURATION"@[14] == 'P');
        assert("SAI_PORT_STAT_PFC_4_RX_PAUSE_DURATION"@[18] == '4');
        assert("SAI_PORT_STAT_PFC_4_RX_PAUSE_DURATION"@[20] == 'R');
        reveal_strlit("SAI_PORT_STAT_PFC_4_TX_PAUSE_DURATION");
        assert("SAI_PORT_STAT_PFC_4_TX_PAUSE_DURATION"@.len() == 37);
        assert("SAI_PORT_STAT_PFC_4_TX_PAUSE_DURATION"@[14] == 'P');
        assert("SAI_PORT_STAT_PFC_4_TX_PAUSE_DURATION"@[18] == '4');
        assert("SAI_PORT_STAT_PFC_4_TX_PAUSE_DURATION"@[20] == 'T');
        reveal_strlit("SAI_PORT_STAT_PFC_5_RX_PAUSE_DURATION");
        assert("SAI_PORT_STAT_PFC_5_RX_PAUSE_DURATION"@.len() == 37);
        assert("SAI_PORT_STAT_PFC_5_RX_PAUSE_DURATION"@[14] == 'P');
        assert("SAI_PORT_STAT_PFC_5_RX_PAUSE_DURATION"@[18] == '5');
        assert("SAI_PORT_STAT_PFC_5_RX_PAUSE_DURATION"@[20] == 'R');
        reveal_strlit("SAI_PORT_STAT_PFC_5_TX_PAUSE_DURATION");
        assert("SAI_PORT_STAT_PFC_5_TX_PAUSE_DURATION"@.len() == 37);
        assert("SAI_PORT_STAT_PFC_5_TX_PAUSE_DURATION"@[14] == 'P');
        assert("SAI_PORT_STAT_PFC_5_TX_PAUSE_DURATION"@[18] == '5');
        assert("SAI_PORT_STAT_PFC_5_TX_PAUSE_DURATION"@[20] == 'T');
        reveal_strlit("SAI_PORT_STAT_PFC_6_RX_PAUSE_DURATION");
        assert("SAI_PORT_STAT_PFC_6_RX_PAUSE_DURATION"@.len() == 37);
        assert("SAI_PORT_STAT_PFC_6_RX_PAUSE_DURATION"@[14] == 'P');
        assert("SAI_PORT_STAT_PFC_6_RX_PAUSE_DURATION"@[18] == '6');
        assert("SAI_PORT_STAT_PFC_6_RX_PAUSE_DURATION"@[20] == 'R');
        reveal_strlit("SAI_PORT_STAT_PFC_6_TX_PAUSE_DURATION");
        assert("SAI_PORT_STAT_PFC_6_TX_PAUSE_DURATION"@.len() == 37);
        assert("SAI_PORT_STAT_PFC_6_TX_PAUSE_DURATION"@[14] == 'P');
        assert("SAI_PORT_STAT_PFC_6_TX_PAUSE_DURATION"@[18] == '6');
        assert("SAI_PORT_STAT_PFC_6_TX_PAUSE_DURATION"@[20] == 'T');
        reveal_strlit("SAI_PORT_STAT_PFC_7_RX_PAUSE_DURATION");
        assert("SAI_PORT_STAT_PFC_7_RX_PAUSE_DURATION"@.len() == 37);
        assert("SAI_PORT_STAT_PFC_7_RX_PAUSE_DURATION"@[14] == 'P');
        assert("SAI_PORT_STAT_PFC_7_RX_PAUSE_DURATION"@[18] == '7');
        assert("SAI_PORT_STAT_PFC_7_RX_PAUSE_DURATION"@[20] == 'R');
        reveal_strlit("SAI_PORT_STAT_PFC_7_TX_PAUSE_DURATION");
        assert("SAI_PORT_STAT_PFC_7_TX_PAUSE_DURATION"@.len() == 37);
        assert("SAI_PORT_STAT_PFC_7_TX_PAUSE_DURATION"@[14] == 'P');
        assert("SAI_PORT_STAT_PFC_7_TX_PAUSE_DURATION"@[18] == '7');
        assert("SAI_PORT_STAT_PFC_7_TX_PAUSE_DURATION"@[20] == 'T');
        reveal_strlit("SAI_PORT_STAT_PFC_0_RX_PAUSE_DURATION_US");
        assert("SAI_PORT_STAT_PFC_0_RX_PAUSE_DURATION_US"@.len() == 40);
        assert("SAI_PORT_STAT_PFC_0_RX_PAUSE_DURATION_US"@[14] == 'P');
        assert("SAI_PORT_STAT_PFC_0_RX_PAUSE_DURATION_US"@[18] == '0');
        assert("SAI_PORT_STAT_PFC_0_RX_PAUSE_DURATION_US"@[20] == 'R');
        reveal_strlit("SAI_PORT_STAT_PFC_0_TX_PAUSE_DURATION_US");
        assert("SAI_PORT_STAT_PFC_0_TX_PAUSE_DURATION_US"@.len() == 40);
        assert("SAI_PORT_STAT_PFC_0_TX_PAUSE_DURATION_US"@[14] == 'P');
        assert("SAI_PORT_STAT_PFC_0_TX_PAUSE_DURATION_US"@[18] == '0');
        assert("SAI_PORT_STAT_PFC_0_TX_PAUSE_DURATION_US"@[20] == 'T');
        reveal_strlit("SAI_PORT_STAT_PFC_1_RX_PAUSE_DURATION_US");
        assert("SAI_PORT_STAT_PFC_1_RX_PAUSE_DURATION_US"@.len() == 40);
        assert("SAI_PORT_STAT_PFC_1_RX_PAUSE_DURATION_US"@[14] == 'P');
        assert("SAI_PORT_STAT_PFC_1_RX_PAUSE_DURATION_US"@[18] == '1');
        assert("SAI_PORT_STAT_PFC_1_RX_PAUSE_DURATION_US"@[20] == 'R');
        reveal_strlit("SAI_PORT_STAT_PFC_1_TX_PAUSE_DURATION_US");
        assert("SAI_PORT_STAT_PFC_1_TX_PAUSE_DURATION_US"@.len() == 40);
        assert("SAI_PORT_STAT_PFC_1_TX_PAUSE_DURATION_US"@[14] == 'P');
        assert("SAI_PORT_STAT_PFC_1_TX_PAUSE_DURATION_US"@[18] == '1');
        assert("SAI_PORT_STAT_PFC_1_TX_PAUSE_DURATION_US"@[20] == 'T');
        reveal_strlit("SAI_PORT_STAT_PFC_2_RX_PAUSE_DURATION_US");
        assert("SAI_PORT_STAT_PFC_2_RX_PAUSE_DURATION_US"@.len() == 40);
        assert("SAI_PORT_STAT_PFC_2_RX_PAUSE_DURATION_US"@[14] == 'P');
        assert("SAI_PORT_STAT_PFC_2_RX_PAUSE_DURATION_US"@[18] == '2');
        assert("SAI_PORT_STAT_PFC_2_RX_PAUSE_DURATION_US"@[20] == 'R');
        reveal_strlit("SAI_PORT_STAT_PFC_2_TX_PAUSE_DURATION_US");
        assert("SAI_PORT_STAT_PFC_2_TX_PAUSE_DURATION_US"@.len() == 40);
        assert("SAI_PORT_STAT_PFC_2_TX_PAUSE_DURATION_US"@[14] == 'P');
        assert("SAI_PORT_STAT_PFC_2_TX_PAUSE_DURATION_US"@[18] == '2');
        assert("SAI_PORT_STAT_PFC_2_TX_PAUSE_DURATION_US"@[20] == 'T');
        reveal_strlit("SAI_PORT_STAT_PFC_3_RX_PAUSE_DURATION_US");
        assert("SAI_PORT_STAT_PFC_3_RX_PAUSE_DURATION_US"@.len() == 40);
        assert("SAI_PORT_STAT_PFC_3_RX_PAUSE_DURATION_US"@[14] == 'P');
        assert("SAI_PORT_STAT_PFC_3_RX_PAUSE_DURATION_US"@[18] == '3');
        assert("SAI_PORT_STAT_PFC_3_RX_PAUSE_DURATION_US"@[20] == 'R');
        reveal_strlit("SAI_PORT_STAT_PFC_3_TX_PAUSE_DURATION_US");
        assert("SAI_PORT_STAT_PFC_3_TX_PAUSE_DURATION_US"@.len() == 40);
        assert("SAI_PORT_STAT_PFC_3_TX_PAUSE_DURATION_US"@[14] == 'P');
        assert("SAI_PORT_STAT_PFC_3_TX_PAUSE_DURATION_US"@[18] == '3');
        assert("SAI_PORT_STAT_PFC_3_TX_PAUSE_DURATION_US"@[20] == 'T');
        reveal_strlit("SAI_PORT_STAT_PFC_4_RX_PAUSE_DURATION_US");
        assert("SAI_PORT_STAT_PFC_4_RX_PAUSE_DURATION_US"@.len() == 40);
        assert("SAI_PORT_STAT_PFC_4_RX_PAUSE_DURATION_US"@[14] == 'P');
        assert("SAI_PORT_STAT_PFC_4_RX_PAUSE_DURATION_US"@[18] == '4');
        assert("SAI_PORT_STAT_PFC_4_RX_PAUSE_DURATION_US"@[20] == 'R');
        reveal_strlit("SAI_PORT_STAT_PFC_4_TX_PAUSE_DURATION_US");
        assert("SAI_PORT_STAT_PFC_4_TX_PAUSE_DURATION_US"@.len() == 40);
        assert("SAI_PORT_STAT_PFC_4_TX_PAUSE_DURATION_US"@[14] == 'P');
        assert("SAI_PORT_STAT_PFC_4_TX_PAUSE_DURATION_US"@[18] == '4');
        assert("SAI_PORT_STAT_PFC_4_TX_PAUSE_DURATION_US"@[20] == 'T');
        reveal_strlit("SAI_PORT_STAT_PFC_5_RX_PAUSE_DURATION_US");
        assert("SAI_PORT_STAT_PFC_5_RX_PAUSE_DURATION_US"@.len() == 40);
        assert("SAI_PORT_STAT_PFC_5_RX_PAUSE_DURATION_US"@[14] == 'P');
        assert("SAI_PORT_STAT_PFC_5_RX_PAUSE_DURATION_US"@[18] == '5');
        assert("SAI_PORT_STAT_PFC_5_RX_PAUSE_DURATION_US"@[20] == 'R');
        reveal_strlit("SAI_PORT_STAT_PFC_5_TX_PAUSE_DURATION_US");
        assert("SAI_PORT_STAT_PFC_5_TX_PAUSE_DURATION_US"@.len() == 40);
        assert("SAI_PORT_STAT_PFC_5_TX_PAUSE_DURATION_US"@[14] == 'P');
        assert("SAI_PORT_STAT_PFC_5_TX_PAUSE_DURATION_US"@[18] == '5');
        assert("SAI_PORT_STAT_PFC_5_TX_PAUSE_DURATION_US"@[20] == 'T');
        reveal_strlit("SAI_PORT_STAT_PFC_6_RX_PAUSE_DURATION_US");
        assert("SAI_PORT_STAT_PFC_6_RX_PAUSE_DURATION_US"@.len() == 40);
        assert("SAI_PORT_STAT_PFC_6_RX_PAUSE_DURATION_US"@[14] == 'P');
        assert("SAI_PORT_STAT_PFC_6_RX_PAUSE_DURATION_US"@[18] == '6');
        assert("SAI_PORT_STAT_PFC_6_RX_PAUSE_DURATION_US"@[20] == 'R');
        reveal_strlit("SAI_PORT_STAT_PFC_6_TX_PAUSE_DURATION_US");
        assert("SAI_PORT_STAT_PFC_6_TX_PAUSE_DURATION_US"@.len() == 40);
        assert("SAI_PORT_STAT_PFC_6_TX_PAUSE_DURATION_US"@[14] == 'P');
        assert("SAI_PORT_STAT_PFC_6_TX_PAUSE_DURATION_US"@[18] == '6');
        assert("SAI_PORT_STAT_PFC_6_TX_PAUSE_DURATION_US"@[20] == 'T');
        reveal_strlit("SAI_PORT_STAT_PFC_7_RX_PAUSE_DURATION_US");
        assert("SAI_PORT_STAT_PFC_7_RX_PAUSE_DURATION_US"@.len() == 40);
        assert("SAI_PORT_STAT_PFC_7_RX_PAUSE_DURATION_US"@[14] == 'P');
        assert("SAI_PORT_STAT_PFC_7_RX_PAUSE_DURATION_US"@[18] == '7');
        assert("SAI_PORT_STAT_PFC_7_RX_PAUSE_DURATION_US"@[20] == 'R');
        reveal_strlit("SAI_PORT_STAT_PFC_7_TX_PAUSE_DURATION_US");
        assert("SAI_PORT_STAT_PFC_7_TX_PAUSE_DURATION_US"@.len() == 40);
        assert("SAI_PORT_STAT_PFC_7_TX_PAUSE_DURATION_US"@[14] == 'P');
        assert("SAI_PORT_STAT_PFC_7_TX_PAUSE_DURATION_US"@[18] == '7');
        assert("SAI_PORT_STAT_PFC_7_TX_PAUSE_DURATION_US"@[20] == 'T');
        reveal_strlit("SAI_PORT_STAT_PFC_0_ON2OFF_RX_PKTS");
        assert("SAI_PORT_STAT_PFC_0_ON2OFF_RX_PKTS"@.len() == 34);
        assert("SAI_PORT_STAT_PFC_0_ON2OFF_RX_PKTS"@[14] == 'P');
        assert("SAI_PORT_STAT_PFC_0_ON2OFF_RX_PKTS"@[18] == '0');
        reveal_strlit("SAI_PORT_STAT_PFC_1_ON2OFF_RX_PKTS");
        assert("SAI_PORT_STAT_PFC_1_ON2OFF_RX_PKTS"@.len() == 34);
        assert("SAI_PORT_STAT_PFC_1_ON2OFF_RX_PKTS"@[14] == 'P');
        assert("SAI_PORT_STAT_PFC_1_ON2OFF_RX_PKTS"@[18] == '1');
        reveal_strlit("SAI_PORT_STAT_PFC_2_ON2OFF_RX_PKTS");
        assert("SAI_PORT_STAT_PFC_2_ON2OFF_RX_PKTS"@.len() == 34);
        assert("SAI_PORT_STAT_PFC_2_ON2OFF_RX_PKTS"@[14] == 'P');
        assert("SAI_PORT_STAT_PFC_2_ON2OFF_RX_PKTS"@[18] == '2');
        reveal_strlit("SAI_PORT_STAT_PFC_3_ON2OFF_RX_PKTS");
        assert("SAI_PORT_STAT_PFC_3_ON2OFF_RX_PKTS"@.len() == 34);
        assert("SAI_PORT_STAT_PFC_3_ON2OFF_RX_PKTS"@[14] == 'P');
        assert("SAI_PORT_STAT_PFC_3_ON2OFF_RX_PKTS"@[18] == '3');
        reveal_strlit("SAI_PORT_STAT_PFC_4_ON2OFF_RX_PKTS");
        assert("SAI_PORT_STAT_PFC_4_ON2OFF_RX_PKTS"@.len() == 34);
        assert("SAI_PORT_STAT_PFC_4_ON2OFF_RX_PKTS"@[14] == 'P');
        assert("SAI_PORT_STAT_PFC_4_ON2OFF_RX_PKTS"@[18] == '4');
        reveal_strlit("SAI_PORT_STAT_PFC_5_ON2OFF_RX_PKTS");
        assert("SAI_PORT_STAT_PFC_5_ON2OFF_RX_PKTS"@.len() == 34);
        assert("SAI_PORT_STAT_PFC_5_ON2OFF_RX_PKTS"@[14] == 'P');
        assert("SAI_PORT_STAT_PFC_5_ON2OFF_RX_PKTS"@[18] == '5');
        reveal_strlit("SAI_PORT_STAT_PFC_6_ON2OFF_RX_PKTS");
        assert("SAI_PORT_STAT_PFC_6_ON2OFF_RX_PKTS"@.len() == 34);
        assert("SAI_PORT_STAT_PFC_6_ON2OFF_RX_PKTS"@[14] == 'P');
        assert("SAI_PORT_STAT_PFC_6_ON2OFF_RX_PKTS"@[18] == '6');
        reveal_strlit("SAI_PORT_STAT_PFC_7_ON2OFF_RX_PKTS");
        assert("SAI_PORT_STAT_PFC_7_ON2OFF_RX_PKTS"@.len() == 34);
        assert("SAI_PORT_STAT_PFC_7_ON2OFF_RX_PKTS"@[14] == 'P');
        assert("SAI_PORT_STAT_PFC_7_ON2OFF_RX_PKTS"@[18] == '7');
        reveal_strlit("SAI_PORT_STAT_DOT3_STATS_ALIGNMENT_ERRORS");
        assert("SAI_PORT_STAT_DOT3_STATS_ALIGNMENT_ERRORS"@.len() == 41);
        assert("SAI_PORT_STAT_DOT3_STATS_ALIGNMENT_ERRORS"@[14] == 'D');
        reveal_strlit("SAI_PORT_STAT_DOT3_STATS_FCS_ERRORS");
        assert("SAI_PORT_STAT_DOT3_STATS_FCS_ERRORS"@.len() == 35);
        assert("SAI_PORT_STAT_DOT3_STATS_FCS_ERRORS"@[14] == 'D');
        reveal_strlit("SAI_PORT_STAT_DOT3_STATS_SINGLE_COLLISION_FRAMES");
        assert("SAI_PORT_STAT_DOT3_STATS_SINGLE_COLLISION_FRAMES"@.len() == 48);
        assert("SAI_PORT_STAT_DOT3_STATS_SINGLE_COLLISION_FRAMES"@[14] == 'D');
        reveal_strlit("SAI_PORT_STAT_DOT3_STATS_MULTIPLE_COLLISION_FRAMES");
        assert("SAI_PORT_STAT_DOT3_STATS_MULTIPLE_COLLISION_FRAMES"@.len() == 50);
        assert("SAI_PORT_STAT_DOT3_STATS_MULTIPLE_COLLISION_FRAMES"@[14] == 'D');
        reveal_strlit("SAI_PORT_STAT_DOT3_STATS_SQE_TEST_ERRORS");
        assert("SAI_PORT_STAT_DOT3_STATS_SQE_TEST_ERRORS"@.len() == 40);
        assert("SAI_PORT_STAT_DOT3_STATS_SQE_TEST_ERRORS"@[14] == 'D');
        assert("SAI_PORT_STAT_DOT3_STATS_SQE_TEST_ERRORS"@[25] == 'S');
        reveal_strlit("SAI_PORT_STAT_DOT3_STATS_DEFERRED_TRANSMISSIONS");
        assert("SAI_PORT_STAT_DOT3_STATS_DEFERRED_TRANSMISSIONS"@.len() == 47);
        assert("SAI_PORT_STAT_DOT3_STATS_DEFERRED_TRANSMISSIONS"@[14] == 'D');
        reveal_strlit("SAI_PORT_STAT_DOT3_STATS_LATE_COLLISIONS");
        assert("SAI_PORT_STAT_DOT3_STATS_LATE_COLLISIONS"@.len() == 40);
        assert("SAI_PORT_STAT_DOT3_STATS_LATE_COLLISIONS"@[14] == 'D');
        assert("SAI_PORT_STAT_DOT3_STATS_LATE_COLLISIONS"@[25] == 'L');
        reveal_strlit("SAI_PORT_STAT_DOT3_STATS_EXCESSIVE_COLLISIONS");
        assert("SAI_PORT_STAT_DOT3_STATS_EXCESSIVE_COLLISIONS"@.len() == 45);
        assert("SAI_PORT_STAT_DOT3_STATS_EXCESSIVE_COLLISIONS"@[14] == 'D');
        assert("SAI_PORT_STAT_DOT3_STATS_EXCESSIVE_COLLISIONS"@[19] == 'S');
        assert("SAI_PORT_STAT_DOT3_STATS_EXCESSIVE_COLLISIONS"@[25] == 'E');
        reveal_strlit("SAI_PORT_STAT_DOT3_STATS_INTERNAL_MAC_TRANSMIT_ERRORS");
        assert("SAI_PORT_STAT_DOT3_STATS_INTERNAL_MAC_TRANSMIT_ERRORS"@.len() == 53);
        reveal_strlit("SAI_PORT_STAT_DOT3_STATS_CARRIER_SENSE_ERRORS");
        assert("SAI_PORT_STAT_DOT3_STATS_CARRIER_SENSE_ERRORS"@.len() == 45);
        assert("SAI_PORT_STAT_DOT3_STATS_CARRIER_SENSE_ERRORS"@[14] == 'D');
        assert("SAI_PORT_STAT_DOT3_STATS_CARRIER_SENSE_ERRORS"@[19] == 'S');
        assert("SAI_PORT_STAT_DOT3_STATS_CARRIER_SENSE_ERRORS"@[25] == 'C');
        reveal_strlit("SAI_PORT_STAT_DOT3_STATS_FRAME_TOO_LONGS");
        assert("SAI_PORT_STAT_DOT3_STATS_FRAME_TOO_LONGS"@.len() == 40);
        assert("SAI_PORT_STAT_DOT3_STATS_FRAME_TOO_LONGS"@[14] == 'D');
        assert("SAI_PORT_STAT_DOT3_STATS_FRAME_TOO_LONGS"@[25] == 'F');
        reveal_strlit("SAI_PORT_STAT_DOT3_STATS_INTERNAL_MAC_RECEIVE_ERRORS");
        assert("SAI_PORT_STAT_DOT3_STATS_INTERNAL_MAC_RECEIVE_ERRORS"@.len() == 52);
        reveal_strlit("SAI_PORT_STAT_DOT3_STATS_SYMBOL_ERRORS");
        assert("SAI_PORT_STAT_DOT3_STATS_SYMBOL_ERRORS"@.len() == 38);
        assert("SAI_PORT_STAT_DOT3_STATS_SYMBOL_ERRORS"@[14] == 'D');
        reveal_strlit("SAI_PORT_STAT_DOT3_CONTROL_IN_UNKNOWN_OPCODES");
        assert("SAI_PORT_STAT_DOT3_CONTROL_IN_UNKNOWN_OPCODES"@.len() == 45);
        assert("SAI_PORT_STAT_DOT3_CONTROL_IN_UNKNOWN_OPCODES"@[14] == 'D');
        assert("SAI_PORT_STAT_DOT3_CONTROL_IN_UNKNOWN_OPCODES"@[19] == 'C');
        reveal_strlit("SAI_PORT_STAT_EEE_TX_EVENT_COUNT");
        assert("SAI_PORT_STAT_EEE_TX_EVENT_COUNT"@.len() == 32);
        assert("SAI_PORT_STAT_EEE_TX_EVENT_COUNT"@[14] == 'E');
        assert("SAI_PORT_STAT_EEE_TX_EVENT_COUNT"@[15] == 'E');
        assert("SAI_PORT_STAT_EEE_TX_EVENT_COUNT"@[18] == 'T');
        reveal_strlit("SAI_PORT_STAT_EEE_RX_EVENT_COUNT");
        assert("SAI_PORT_STAT_EEE_RX_EVENT_COUNT"@.len() == 32);
        assert("SAI_PORT_STAT_EEE_RX_EVENT_COUNT"@[14] == 'E');
        assert("SAI_PORT_STAT_EEE_RX_EVENT_COUNT"@[15] == 'E');
        assert("SAI_PORT_STAT_EEE_RX_EVENT_COUNT"@[18] == 'R');
        reveal_strlit("SAI_PORT_STAT_EEE_TX_DURATION");
        assert("SAI_PORT_STAT_EEE_TX_DURATION"@.len() == 29);
        assert("SAI_PORT_STAT_EEE_TX_DURATION"@[14] == 'E');
        assert("SAI_PORT_STAT_EEE_TX_DURATION"@[18] == 'T');
        reveal_strlit("SAI_PORT_STAT_EEE_RX_DURATION");
        assert("SAI_PORT_STAT_EEE_RX_DURATION"@.len() == 29);
        assert("SAI_PORT_STAT_EEE_RX_DURATION"@[14] == 'E');
        assert("SAI_PORT_STAT_EEE_RX_DURATION"@[18] == 'R');
        reveal_strlit("SAI_PORT_STAT_PRBS_ERROR_COUNT");
        assert("SAI_PORT_STAT_PRBS_ERROR_COUNT"@.len() == 30);
        assert("SAI_PORT_STAT_PRBS_ERROR_COUNT"@[14] == 'P');
        reveal_strlit("SAI_PORT_STAT_IF_IN_FEC_CORRECTABLE_FRAMES");
        assert("SAI_PORT_STAT_IF_IN_FEC_CORRECTABLE_FRAMES"@.len() == 42);
        assert("SAI_PORT_STAT_IF_IN_FEC_CORRECTABLE_FRAMES"@[14] == 'I');
        assert("SAI_PORT_STAT_IF_IN_FEC_CORRECTABLE_FRAMES"@[26] == 'R');
        reveal_strlit("SAI_PORT_STAT_IF_IN_FEC_NOT_CORRECTABLE_FRAMES");
        assert("SAI_PORT_STAT_IF_IN_FEC_NOT_CORRECTABLE_FRAMES"@.len() == 46);
        assert("SAI_PORT_STAT_IF_IN_FEC_NOT_CORRECTABLE_FRAMES"@[14] == 'I');
        reveal_strlit("SAI_PORT_STAT_IF_IN_FEC_SYMBOL_ERRORS");
        assert("SAI_PORT_STAT_IF_IN_FEC_SYMBOL_ERRORS"@.len() == 37);
        assert("SAI_PORT_STAT_IF_IN_FEC_SYMBOL_ERRORS"@[14] == 'I');
        assert("SAI_PORT_STAT_IF_IN_FEC_SYMBOL_ERRORS"@[15] == 'F');
        assert("SAI_PORT_STAT_IF_IN_FEC_SYMBOL_ERRORS"@[21] == 'E');
        reveal_strlit("SAI_PORT_STAT_IF_IN_FABRIC_DATA_UNITS");
        assert("SAI_PORT_STAT_IF_IN_FABRIC_DATA_UNITS"@.len() == 37);
        assert("SAI_PORT_STAT_IF_IN_FABRIC_DATA_UNITS"@[14] == 'I');
        assert("SAI_PORT_STAT_IF_IN_FABRIC_DATA_UNITS"@[15] == 'F');
        assert("SAI_PORT_STAT_IF_IN_FABRIC_DATA_UNITS"@[21] == 'A');
        reveal_strlit("SAI_PORT_STAT_IF_OUT_FABRIC_DATA_UNITS");
        assert("SAI_PORT_STAT_IF_OUT_FABRIC_DATA_UNITS"@.len() == 38);
        assert("SAI_PORT_STAT_IF_OUT_FABRIC_DATA_UNITS"@[14] == 'I');
        assert("SAI_PORT_STAT_IF_OUT_FABRIC_DATA_UNITS"@[17] == 'O');
        reveal_strlit("SAI_PORT_STAT_IF_IN_FEC_CODEWORD_ERRORS_S0");
        assert("SAI_PORT_STAT_IF_IN_FEC_CODEWORD_ERRORS_S0"@.len() == 42);
        assert("SAI_PORT_STAT_IF_IN_FEC_CODEWORD_ERRORS_S0"@[14] == 'I');
        assert("SAI_PORT_STAT_IF_IN_FEC_CODEWORD_ERRORS_S0"@[26] == 'D');
        assert("SAI_PORT_STAT_IF_IN_FEC_CODEWORD_ERRORS_S0"@[41] == '0');
        reveal_strlit("SAI_PORT_STAT_IF_IN_FEC_CODEWORD_ERRORS_S1");
        assert("SAI_PORT_STAT_IF_IN_FEC_CODEWORD_ERRORS_S1"@.len() == 42);
        assert("SAI_PORT_STAT_IF_IN_FEC_CODEWORD_ERRORS_S1"@[14] == 'I');
        assert("SAI_PORT_STAT_IF_IN_FEC_CODEWORD_ERRORS_S1"@[26] == 'D');
        assert("SAI_PORT_STAT_IF_IN_FEC_CODEWORD_ERRORS_S1"@[41] == '1');
        reveal_strlit("SAI_PORT_STAT_IF_IN_FEC_CODEWORD_ERRORS_S2");
        assert("SAI_PORT_STAT_IF_IN_FEC_CODEWORD_ERRORS_S2"@.len() == 42);
        assert("SAI_PORT_STAT_IF_IN_FEC_CODEWORD_ERRORS_S2"@[14] == 'I');
        assert("SAI_PORT_STAT_IF_IN_FEC_CODEWORD_ERRORS_S2"@[26] == 'D');
        assert("SAI_PORT_STAT_IF_IN_FEC_CODEWORD_ERRORS_S2"@[41] == '2');
        reveal_strlit("SAI_PORT_STAT_IF_IN_FEC_CODEWORD_ERRORS_S3");
        assert("SAI_PORT_STAT_IF_IN_FEC_CODEWORD_ERRORS_S3"@.len() == 42);
        assert("SAI_PORT_STAT_IF_IN_FEC_CODEWORD_ERRORS_S3"@[14] == 'I');
        assert("SAI_PORT_STAT_IF_IN_FEC_CODEWORD_ERRORS_S3"@[26] == 'D');
        assert("SAI_PORT_STAT_IF_IN_FEC_CODEWORD_ERRORS_S3"@[41] == '3');
        reveal_strlit("SAI_PORT_STAT_IF_IN_FEC_CODEWORD_ERRORS_S4");
        assert("SAI_PORT_STAT_IF_IN_FEC_CODEWORD_ERRORS_S4"@.len() == 42);
        assert("SAI_PORT_STAT_IF_IN_FEC_CODEWORD_ERRORS_S4"@[14] == 'I');
        assert("SAI_PORT_STAT_IF_IN_FEC_CODEWORD_ERRORS_S4"@[26] == 'D');
        assert("SAI_PORT_STAT_IF_IN_FEC_CODEWORD_ERRORS_S4"@[41] == '4');
        reveal_strlit("SAI_PORT_STAT_IF_IN_FEC_CODEWORD_ERRORS_S5");
        assert("SAI_PORT_STAT_IF_IN_FEC_CODEWORD_ERRORS_S5"@.len() == 42);
        assert("SAI_PORT_STAT_IF_IN_FEC_CODEWORD_ERRORS_S5"@[14] == 'I');
        assert("SAI_PORT_STAT_IF_IN_FEC_CODEWORD_ERRORS_S5"@[26] == 'D');
        assert("SAI_PORT_STAT_IF_IN_FEC_CODEWORD_ERRORS_S5"@[41] == '5');
        reveal_strlit("SAI_PORT_STAT_IF_IN_FEC_CODEWORD_ERRORS_S6");
        assert("SAI_PORT_STAT_IF_IN_FEC_CODEWORD_ERRORS_S6"@.len() == 42);
        assert("SAI_PORT_STAT_IF_IN_FEC_CODEWORD_ERRORS_S6"@[14] == 'I');
        assert("SAI_PORT_STAT_IF_IN_FEC_CODEWORD_ERRORS_S6"@[26] == 'D');
        assert("SAI_PORT_STAT_IF_IN_FEC_CODEWORD_ERRORS_S6"@[41] == '6');
        reveal_strlit("SAI_PORT_STAT_IF_IN_FEC_CODEWORD_ERRORS_S7");
        assert("SAI_PORT_STAT_IF_IN_FEC_CODEWORD_ERRORS_S7"@.len() == 42);
        assert("SAI_PORT_STAT_IF_IN_FEC_CODEWORD_ERRORS_S7"@[14] == 'I');
        assert("SAI_PORT_STAT_IF_IN_FEC_CODEWORD_ERRORS_S7"@[26] == 'D');
        assert("SAI_PORT_STAT_IF_IN_FEC_CODEWORD_ERRORS_S7"@[41] == '7');
        reveal_strlit("SAI_PORT_STAT_IF_IN_FEC_CODEWORD_ERRORS_S8");
        assert("SAI_PORT_STAT_IF_IN_FEC_CODEWORD_ERRORS_S8"@.len() == 42);
        assert("SAI_PORT_STAT_IF_IN_FEC_CODEWORD_ERRORS_S8"@[14] == 'I');
        assert("SAI_PORT_STAT_IF_IN_FEC_CODEWORD_ERRORS_S8"@[26] == 'D');
        assert("SAI_PORT_STAT_IF_IN_FEC_CODEWORD_ERRORS_S8"@[41] == '8');
        reveal_strlit("SAI_PORT_STAT_IF_IN_FEC_CODEWORD_ERRORS_S9");
        assert("SAI_PORT_STAT_IF_IN_FEC_CODEWORD_ERRORS_S9"@.len() == 42);
        assert("SAI_PORT_STAT_IF_IN_FEC_CODEWORD_ERRORS_S9"@[14] == 'I');
        assert("SAI_PORT_STAT_IF_IN_FEC_CODEWORD_ERRORS_S9"@[26] == 'D');
        assert("SAI_PORT_STAT_IF_IN_FEC_CODEWORD_ERRORS_S9"@[41] == '9');
        reveal_strlit("SAI_PORT_STAT_IF_IN_FEC_CODEWORD_ERRORS_S10");
        assert("SAI_PORT_STAT_IF_IN_FEC_CODEWORD_ERRORS_S10"@.len() == 43);
        assert("SAI_PORT_STAT_IF_IN_FEC_CODEWORD_ERRORS_S10"@[42] == '0');
        reveal_strlit("SAI_PORT_STAT_IF_IN_FEC_CODEWORD_ERRORS_S11");
        assert("SAI_PORT_STAT_IF_IN_FEC_CODEWORD_ERRORS_S11"@.len() == 43);
        assert("SAI_PORT_STAT_IF_IN_FEC_CODEWORD_ERRORS_S11"@[42] == '1');
        reveal_strlit("SAI_PORT_STAT_IF_IN_FEC_CODEWORD_ERRORS_S12");
        assert("SAI_PORT_STAT_IF_IN_FEC_CODEWORD_ERRORS_S12"@.len() == 43);
        assert("SAI_PORT_STAT_IF_IN_FEC_CODEWORD_ERRORS_S12"@[42] == '2');
        reveal_strlit("SAI_PORT_STAT_IF_IN_FEC_CODEWORD_ERRORS_S13");
        assert("SAI_PORT_STAT_IF_IN_FEC_CODEWORD_ERRORS_S13"@.len() == 43);
        assert("SAI_PORT_STAT_IF_IN_FEC_CODEWORD_ERRORS_S13"@[42] == '3');
        reveal_strlit("SAI_PORT_STAT_IF_IN_FEC_CODEWORD_ERRORS_S14");
        assert("SAI_PORT_STAT_IF_IN_FEC_CODEWORD_ERRORS_S14"@.len() == 43);
        assert("SAI_PORT_STAT_IF_IN_FEC_CODEWORD_ERRORS_S14"@[42] == '4');
        reveal_strlit("SAI_PORT_STAT_IF_IN_FEC_CODEWORD_ERRORS_S15");
        assert("SAI_PORT_STAT_IF_IN_FEC_CODEWORD_ERRORS_S15"@.len() == 43);
        assert("SAI_PORT_STAT_IF_IN_FEC_CODEWORD_ERRORS_S15"@[42] == '5');
        reveal_strlit("SAI_PORT_STAT_IF_IN_FEC_CODEWORD_ERRORS_S16");
        assert("SAI_PORT_STAT_IF_IN_FEC_CODEWORD_ERRORS_S16"@.len() == 43);
        assert("SAI_PORT_STAT_IF_IN_FEC_CODEWORD_ERRORS_S16"@[42] == '6');
        reveal_strlit("SAI_PORT_STAT_IF_IN_FEC_CORRECTED_BITS");
        assert("SAI_PORT_STAT_IF_IN_FEC_CORRECTED_BITS"@.len() == 38);
        assert("SAI_PORT_STAT_IF_IN_FEC_CORRECTED_BITS"@[14] == 'I');
        assert("SAI_PORT_STAT_IF_IN_FEC_CORRECTED_BITS"@[17] == 'I');
        reveal_strlit("SAI_PORT_STAT_TRIM_PACKETS");
        assert("SAI_PORT_STAT_TRIM_PACKETS"@.len() == 26);
        assert("SAI_PORT_STAT_TRIM_PACKETS"@[14] == 'T');
        reveal_strlit("SAI_PORT_STAT_DROPPED_TRIM_PACKETS");
        assert("SAI_PORT_STAT_DROPPED_TRIM_PACKETS"@.len() == 34);
        assert("SAI_PORT_STAT_DROPPED_TRIM_PACKETS"@[14] == 'D');
        reveal_strlit("SAI_PORT_STAT_TX_TRIM_PACKETS");
        assert("SAI_PORT_STAT_TX_TRIM_PACKETS"@.len() == 29);
        assert("SAI_PORT_STAT_TX_TRIM_PACKETS"@[14] == 'T');
        reveal_strlit("SAI_PORT_STAT_IN_CONFIGURED_DROP_REASONS_0_DROPPED_PKTS");
        assert("SAI_PORT_STAT_IN_CONFIGURED_DROP_REASONS_0_DROPPED_PKTS"@.len() == 55);
        assert("SAI_PORT_STAT_IN_CONFIGURED_DROP_REASONS_0_DROPPED_PKTS"@[41] == '0');
        reveal_strlit("SAI_PORT_STAT_IN_CONFIGURED_DROP_REASONS_1_DROPPED_PKTS");
        assert("SAI_PORT_STAT_IN_CONFIGURED_DROP_REASONS_1_DROPPED_PKTS"@.len() == 55);
        assert("SAI_PORT_STAT_IN_CONFIGURED_DROP_REASONS_1_DROPPED_PKTS"@[41] == '1');
        reveal_strlit("SAI_PORT_STAT_IN_CONFIGURED_DROP_REASONS_2_DROPPED_PKTS");
        assert("SAI_PORT_STAT_IN_CONFIGURED_DROP_REASONS_2_DROPPED_PKTS"@.len() == 55);
        assert("SAI_PORT_STAT_IN_CONFIGURED_DROP_REASONS_2_DROPPED_PKTS"@[41] == '2');
        reveal_strlit("SAI_PORT_STAT_IN_CONFIGURED_DROP_REASONS_3_DROPPED_PKTS");
        assert("SAI_PORT_STAT_IN_CONFIGURED_DROP_REASONS_3_DROPPED_PKTS"@.len() == 55);
        assert("SAI_PORT_STAT_IN_CONFIGURED_DROP_REASONS_3_DROPPED_PKTS"@[41] == '3');
        reveal_strlit("SAI_PORT_STAT_IN_CONFIGURED_DROP_REASONS_4_DROPPED_PKTS");
        assert("SAI_PORT_STAT_IN_CONFIGURED_DROP_REASONS_4_DROPPED_PKTS"@.len() == 55);
        assert("SAI_PORT_STAT_IN_CONFIGURED_DROP_REASONS_4_DROPPED_PKTS"@[41] == '4');
        reveal_strlit("SAI_PORT_STAT_IN_CONFIGURED_DROP_REASONS_5_DROPPED_PKTS");
        assert("SAI_PORT_STAT_IN_CONFIGURED_DROP_REASONS_5_DROPPED_PKTS"@.len() == 55);
        assert("SAI_PORT_STAT_IN_CONFIGURED_DROP_REASONS_5_DROPPED_PKTS"@[41] == '5');
        reveal_strlit("SAI_PORT_STAT_IN_CONFIGURED_DROP_REASONS_6_DROPPED_PKTS");
        assert("SAI_PORT_STAT_IN_CONFIGURED_DROP_REASONS_6_DROPPED_PKTS"@.len() == 55);
        assert("SAI_PORT_STAT_IN_CONFIGURED_DROP_REASONS_6_DROPPED_PKTS"@[41] == '6');
        reveal_strlit("SAI_PORT_STAT_IN_CONFIGURED_DROP_REASONS_7_DROPPED_PKTS");
        assert("SAI_PORT_STAT_IN_CONFIGURED_DROP_REASONS_7_DROPPED_PKTS"@.len() == 55);
        assert("SAI_PORT_STAT_IN_CONFIGURED_DROP_REASONS_7_DROPPED_PKTS"@[41] == '7');
        reveal_strlit("SAI_PORT_STAT_IN_CONFIGURED_DROP_REASONS_8_DROPPED_PKTS");
        assert("SAI_PORT_STAT_IN_CONFIGURED_DROP_REASONS_8_DROPPED_PKTS"@.len() == 55);
        assert("SAI_PORT_STAT_IN_CONFIGURED_DROP_REASONS_8_DROPPED_PKTS"@[41] == '8');
        reveal_strlit("SAI_PORT_STAT_IN_CONFIGURED_DROP_REASONS_9_DROPPED_PKTS");
        assert("SAI_PORT_STAT_IN_CONFIGURED_DROP_REASONS_9_DROPPED_PKTS"@.len() == 55);
        assert("SAI_PORT_STAT_IN_CONFIGURED_DROP_REASONS_9_DROPPED_PKTS"@[41] == '9');
        reveal_strlit("SAI_PORT_STAT_IN_CONFIGURED_DROP_REASONS_10_DROPPED_PKTS");
        assert("SAI_PORT_STAT_IN_CONFIGURED_DROP_REASONS_10_DROPPED_PKTS"@.len() == 56);
        assert("SAI_PORT_STAT_IN_CONFIGURED_DROP_REASONS_10_DROPPED_PKTS"@[14] == 'I');
        assert("SAI_PORT_STAT_IN_CONFIGURED_DROP_REASONS_10_DROPPED_PKTS"@[42] == '0');
        reveal_strlit("SAI_PORT_STAT_IN_CONFIGURED_DROP_REASONS_11_DROPPED_PKTS");
        assert("SAI_PORT_STAT_IN_CONFIGURED_DROP_REASONS_11_DROPPED_PKTS"@.len() == 56);
        assert("SAI_PORT_STAT_IN_CONFIGURED_DROP_REASONS_11_DROPPED_PKTS"@[14] == 'I');
        assert("SAI_PORT_STAT_IN_CONFIGURED_DROP_REASONS_11_DROPPED_PKTS"@[42] == '1');
        reveal_strlit("SAI_PORT_STAT_IN_CONFIGURED_DROP_REASONS_12_DROPPED_PKTS");
        assert("SAI_PORT_STAT_IN_CONFIGURED_DROP_REASONS_12_DROPPED_PKTS"@.len() == 56);
        assert("SAI_PORT_STAT_IN_CONFIGURED_DROP_REASONS_12_DROPPED_PKTS"@[14] == 'I');
        assert("SAI_PORT_STAT_IN_CONFIGURED_DROP_REASONS_12_DROPPED_PKTS"@[42] == '2');
        reveal_strlit("SAI_PORT_STAT_IN_CONFIGURED_DROP_REASONS_13_DROPPED_PKTS");
        assert("SAI_PORT_STAT_IN_CONFIGURED_DROP_REASONS_13_DROPPED_PKTS"@.len() == 56);
        assert("SAI_PORT_STAT_IN_CONFIGURED_DROP_REASONS_13_DROPPED_PKTS"@[14] == 'I');
        assert("SAI_PORT_STAT_IN_CONFIGURED_DROP_REASONS_13_DROPPED_PKTS"@[42] == '3');
        reveal_strlit("SAI_PORT_STAT_IN_CONFIGURED_DROP_REASONS_14_DROPPED_PKTS");
        assert("SAI_PORT_STAT_IN_CONFIGURED_DROP_REASONS_14_DROPPED_PKTS"@.len() == 56);
        assert("SAI_PORT_STAT_IN_CONFIGURED_DROP_REASONS_14_DROPPED_PKTS"@[14] == 'I');
        assert("SAI_PORT_STAT_IN_CONFIGURED_DROP_REASONS_14_DROPPED_PKTS"@[42] == '4');
        reveal_strlit("SAI_PORT_STAT_IN_CONFIGURED_DROP_REASONS_15_DROPPED_PKTS");
        assert("SAI_PORT_STAT_IN_CONFIGURED_DROP_REASONS_15_DROPPED_PKTS"@.len() == 56);
        assert("SAI_PORT_STAT_IN_CONFIGURED_DROP_REASONS_15_DROPPED_PKTS"@[14] == 'I');
        assert("SAI_PORT_STAT_IN_CONFIGURED_DROP_REASONS_15_DROPPED_PKTS"@[42] == '5');
        reveal_strlit("SAI_PORT_STAT_OUT_CONFIGURED_DROP_REASONS_0_DROPPED_PKTS");
        assert("SAI_PORT_STAT_OUT_CONFIGURED_DROP_REASONS_0_DROPPED_PKTS"@.len() == 56);
        assert("SAI_PORT_STAT_OUT_CONFIGURED_DROP_REASONS_0_DROPPED_PKTS"@[14] == 'O');
        assert("SAI_PORT_STAT_OUT_CONFIGURED_DROP_REASONS_0_DROPPED_PKTS"@[42] == '0');
        reveal_strlit("SAI_PORT_STAT_OUT_CONFIGURED_DROP_REASONS_1_DROPPED_PKTS");
        assert("SAI_PORT_STAT_OUT_CONFIGURED_DROP_REASONS_1_DROPPED_PKTS"@.len() == 56);
        assert("SAI_PORT_STAT_OUT_CONFIGURED_DROP_REASONS_1_DROPPED_PKTS"@[14] == 'O');
        assert("SAI_PORT_STAT_OUT_CONFIGURED_DROP_REASONS_1_DROPPED_PKTS"@[42] == '1');
        reveal_strlit("SAI_PORT_STAT_OUT_CONFIGURED_DROP_REASONS_2_DROPPED_PKTS");
        assert("SAI_PORT_STAT_OUT_CONFIGURED_DROP_REASONS_2_DROPPED_PKTS"@.len() == 56);
        assert("SAI_PORT_STAT_OUT_CONFIGURED_DROP_REASONS_2_DROPPED_PKTS"@[14] == 'O');
        assert("SAI_PORT_STAT_OUT_CONFIGURED_DROP_REASONS_2_DROPPED_PKTS"@[42] == '2');
        reveal_strlit("SAI_PORT_STAT_OUT_CONFIGURED_DROP_REASONS_3_DROPPED_PKTS");
        assert("SAI_PORT_STAT_OUT_CONFIGURED_DROP_REASONS_3_DROPPED_PKTS"@.len() == 56);
        assert("SAI_PORT_STAT_OUT_CONFIGURED_DROP_REASONS_3_DROPPED_PKTS"@[14] == 'O');
        assert("SAI_PORT_STAT_OUT_CONFIGURED_DROP_REASONS_3_DROPPED_PKTS"@[42] == '3');
        reveal_strlit("SAI_PORT_STAT_OUT_CONFIGURED_DROP_REASONS_4_DROPPED_PKTS");
        assert("SAI_PORT_STAT_OUT_CONFIGURED_DROP_REASONS_4_DROPPED_PKTS"@.len() == 56);
        assert("SAI_PORT_STAT_OUT_CONFIGURED_DROP_REASONS_4_DROPPED_PKTS"@[14] == 'O');
        assert("SAI_PORT_STAT_OUT_CONFIGURED_DROP_REASONS_4_DROPPED_PKTS"@[42] == '4');
        reveal_strlit("SAI_PORT_STAT_OUT_CONFIGURED_DROP_REASONS_5_DROPPED_PKTS");
        assert("SAI_PORT_STAT_OUT_CONFIGURED_DROP_REASONS_5_DROPPED_PKTS"@.len() == 56);
        assert("SAI_PORT_STAT_OUT_CONFIGURED_DROP_REASONS_5_DROPPED_PKTS"@[14] == 'O');
        assert("SAI_PORT_STAT_OUT_CONFIGURED_DROP_REASONS_5_DROPPED_PKTS"@[42] == '5');
        reveal_strlit("SAI_PORT_STAT_OUT_CONFIGURED_DROP_REASONS_6_DROPPED_PKTS");
        assert("SAI_PORT_STAT_OUT_CONFIGURED_DROP_REASONS_6_DROPPED_PKTS"@.len() == 56);
        assert("SAI_PORT_STAT_OUT_CONFIGURED_DROP_REASONS_6_DROPPED_PKTS"@[14] == 'O');
        assert("SAI_PORT_STAT_OUT_CONFIGURED_DROP_REASONS_6_DROPPED_PKTS"@[42] == '6');
        reveal_strlit("SAI_PORT_STAT_OUT_CONFIGURED_DROP_REASONS_7_DROPPED_PKTS");
        assert("SAI_PORT_STAT_OUT_CONFIGURED_DROP_REASONS_7_DROPPED_PKTS"@.len() == 56);
        assert("SAI_PORT_STAT_OUT_CONFIGURED_DROP_REASONS_7_DROPPED_PKTS"@[14] == 'O');
        assert("SAI_PORT_STAT_OUT_CONFIGURED_DROP_REASONS_7_DROPPED_PKTS"@[42] == '7');
        reveal_strlit("SAI_PORT_STAT_IF_IN_HW_PROTECTION_SWITCHOVER_EVENTS");
        assert("SAI_PORT_STAT_IF_IN_HW_PROTECTION_SWITCHOVER_EVENTS"@.len() == 51);
        assert("SAI_PORT_STAT_IF_IN_HW_PROTECTION_SWITCHOVER_EVENTS"@[14] == 'I');
        reveal_strlit("SAI_PORT_STAT_IF_IN_HW_PROTECTION_SWITCHOVER_DROP_PKTS");
        assert("SAI_PORT_STAT_IF_IN_HW_PROTECTION_SWITCHOVER_DROP_PKTS"@.len() == 54);
        reveal_strlit("SAI_PORT_STAT_ETHER_IN_PKTS_1519_TO_2500_OCTETS");
        assert("SAI_PORT_STAT_ETHER_IN_PKTS_1519_TO_2500_OCTETS"@.len() == 47);
        assert("SAI_PORT_STAT_ETHER_IN_PKTS_1519_TO_2500_OCTETS"@[14] == 'E');
        assert("SAI_PORT_STAT_ETHER_IN_PKTS_1519_TO_2500_OCTETS"@[20] == 'I');
        assert("SAI_PORT_STAT_ETHER_IN_PKTS_1519_TO_2500_OCTETS"@[28] == '1');
        assert("SAI_PORT_STAT_ETHER_IN_PKTS_1519_TO_2500_OCTETS"@[29] == '5');
        assert("SAI_PORT_STAT_ETHER_IN_PKTS_1519_TO_2500_OCTETS"@[37] == '5');
        reveal_strlit("SAI_PORT_STAT_ETHER_IN_PKTS_2501_TO_9000_OCTETS");
        assert("SAI_PORT_STAT_ETHER_IN_PKTS_2501_TO_9000_OCTETS"@.len() == 47);
        assert("SAI_PORT_STAT_ETHER_IN_PKTS_2501_TO_9000_OCTETS"@[14] == 'E');
        assert("SAI_PORT_STAT_ETHER_IN_PKTS_2501_TO_9000_OCTETS"@[20] == 'I');
        assert("SAI_PORT_STAT_ETHER_IN_PKTS_2501_TO_9000_OCTETS"@[28] == '2');
        assert("SAI_PORT_STAT_ETHER_IN_PKTS_2501_TO_9000_OCTETS"@[29] == '5');
        reveal_strlit("SAI_PORT_STAT_ETHER_IN_PKTS_9001_TO_16383_OCTETS");
        assert("SAI_PORT_STAT_ETHER_IN_PKTS_9001_TO_16383_OCTETS"@.len() == 48);
        assert("SAI_PORT_STAT_ETHER_IN_PKTS_9001_TO_16383_OCTETS"@[14] == 'E');
        assert("SAI_PORT_STAT_ETHER_IN_PKTS_9001_TO_16383_OCTETS"@[20] == 'I');
        assert("SAI_PORT_STAT_ETHER_IN_PKTS_9001_TO_16383_OCTETS"@[29] == '0');
        reveal_strlit("SAI_PORT_STAT_ETHER_OUT_PKTS_1519_TO_2500_OCTETS");
        assert("SAI_PORT_STAT_ETHER_OUT_PKTS_1519_TO_2500_OCTETS"@.len() == 48);
        assert("SAI_PORT_STAT_ETHER_OUT_PKTS_1519_TO_2500_OCTETS"@[14] == 'E');
        assert("SAI_PORT_STAT_ETHER_OUT_PKTS_1519_TO_2500_OCTETS"@[20] == 'O');
        assert("SAI_PORT_STAT_ETHER_OUT_PKTS_1519_TO_2500_OCTETS"@[29] == '1');
        assert("SAI_PORT_STAT_ETHER_OUT_PKTS_1519_TO_2500_OCTETS"@[30] == '5');
        assert("SAI_PORT_STAT_ETHER_OUT_PKTS_1519_TO_2500_OCTETS"@[38] == '5');
        reveal_strlit("SAI_PORT_STAT_ETHER_OUT_PKTS_2501_TO_9000_OCTETS");
        assert("SAI_PORT_STAT_ETHER_OUT_PKTS_2501_TO_9000_OCTETS"@.len() == 48);
        assert("SAI_PORT_STAT_ETHER_OUT_PKTS_2501_TO_9000_OCTETS"@[14] == 'E');
        assert("SAI_PORT_STAT_ETHER_OUT_PKTS_2501_TO_9000_OCTETS"@[20] == 'O');
        assert("SAI_PORT_STAT_ETHER_OUT_PKTS_2501_TO_9000_OCTETS"@[29] == '2');
        assert("SAI_PORT_STAT_ETHER_OUT_PKTS_2501_TO_9000_OCTETS"@[30] == '5');
        reveal_strlit("SAI_PORT_STAT_ETHER_OUT_PKTS_9001_TO_16383_OCTETS");
        assert("SAI_PORT_STAT_ETHER_OUT_PKTS_9001_TO_16383_OCTETS"@.len() == 49);
        assert("SAI_PORT_STAT_ETHER_OUT_PKTS_9001_TO_16383_OCTETS"@[20] == 'O');
        assert("SAI_PORT_STAT_ETHER_OUT_PKTS_9001_TO_16383_OCTETS"@[30] == '0');
        reveal_strlit("SAI_PORT_STAT_END");
        assert("SAI_PORT_STAT_END"@.len() == 17);
    }

    /// Law: a value converts to the statistic that the C enum `sai_port_stat_t`
    /// gives that value.
    pub proof fn lemma_from_u32_follows_c_enum(x: u32)
        ensures
            Self::spec_from_u32(x) matches Some(w) ==> Self::spec_c_enum_value(w.spec_c_name()) == Some(x),
    {
        Self::lemma_from_u32_inverse(x);
        if let Some(w) = Self::spec_from_u32(x) {
            Self::lemma_values_follow_c_enum(w);
        }
    }

    /// Statistic at position `i` of the C enum.
    pub open spec fn spec_at(i: int) -> Self {
        if i <= 0 {
            Self::IfInOctets
        } else if i == 1 {
            Self::IfInUcastPkts
        } else if i == 2 {
            Self::IfInNonUcastPkts
        } else if i == 3 {
            Self::IfInDiscards
        } else if i == 4 {
            Self::IfInErrors
        } else if i == 5 {
            Self::IfInUnknownProtos
        } else if i == 6 {
            Self::IfInBroadcastPkts
        } else if i == 7 {
            Self::IfInMulticastPkts
        } else if i == 8 {
            Self::IfInVlanDiscards
        } else if i == 9 {
            Self::IfOutOctets
        } else if i == 10 {
            Self::IfOutUcastPkts
        } else if i == 11 {
            Self::IfOutNonUcastPkts
        } else if i == 12 {
            Self::IfOutDiscards
        } else if i == 13 {
            Self::IfOutErrors
        } else if i == 14 {
            Self::IfOutQlen
        } else if i == 15 {
            Self::IfOutBroadcastPkts
        } else if i == 16 {
            Self::IfOutMulticastPkts
        } else if i == 17 {
            Self::EtherStatsDropEvents
        } else if i == 18 {
            Self::EtherStatsMulticastPkts
        } else if i == 19 {
            Self::EtherStatsBroadcastPkts
        } else if i == 20 {
            Self::EtherStatsUndersizePkts
        } else if i == 21 {
            Self::EtherStatsFragments
        } else if i == 22 {
            Self::EtherStatsPkts64Octets
        } else if i == 23 {
            Self::EtherStatsPkts65To127Octets
        } else if i == 24 {
            Self::EtherStatsPkts128To255Octets
        } else if i == 25 {
            Self::EtherStatsPkts256To511Octets
        } else if i == 26 {
            Self::EtherStatsPkts512To1023Octets
        } else if i == 27 {
            Self::EtherStatsPkts1024To1518Octets
        } else if i == 28 {
            Self::EtherStatsPkts1519To2047Octets
        } else if i == 29 {
            Self::EtherStatsPkts2048To4095Octets
        } else if i == 30 {
            Self::EtherStatsPkts4096To9216Octets
        } else if i == 31 {
            Self::EtherStatsPkts9217To16383Octets
        } else if i == 32 {
            Self::EtherStatsOversizePkts
        } else if i == 33 {
            Self::EtherRxOversizePkts
        } else if i == 34 {
            Self::EtherTxOversizePkts
        } else if i == 35 {
            Self::EtherStatsJabbers
        } else if i == 36 {
            Self::EtherStatsOctets
        } else if i == 37 {
            Self::EtherStatsPkts
        } else if i == 38 {
            Self::EtherStatsCollisions
        } else if i == 39 {
            Self::EtherStatsCrcAlignErrors
        } else if i == 40 {
            Self::EtherStatsTxNoErrors
        } else if i == 41 {
            Self::EtherStatsRxNoErrors
        } else if i == 42 {
            Self::IpInReceives
        } else if i == 43 {
            Self::IpInOctets
        } else if i == 44 {
            Self::IpInUcastPkts
        } else if i == 45 {
            Self::IpInNonUcastPkts
        } else if i == 46 {
            Self::IpInDiscards
        } else if i == 47 {
            Self::IpOutOctets
        } else if i == 48 {
            Self::IpOutUcastPkts
        } else if i == 49 {
            Self::IpOutNonUcastPkts
        } else if i == 50 {
            Self::IpOutDiscards
        } else if i == 51 {
            Self::Ipv6InReceives
        } else if i == 52 {
            Self::Ipv6InOctets
        } else if i == 53 {
            Self::Ipv6InUcastPkts
        } else if i == 54 {
            Self::Ipv6InNonUcastPkts
        } else if i == 55 {
            Self::Ipv6InMcastPkts
        } else if i == 56 {
            Self::Ipv6InDiscards
        } else if i == 57 {
            Self::Ipv6OutOctets
        } else if i == 58 {
            Self::Ipv6OutUcastPkts
        } else if i == 59 {
            Self::Ipv6OutNonUcastPkts
        } else if i == 60 {
            Self::Ipv6OutMcastPkts
        } else if i == 61 {
            Self::Ipv6OutDiscards
        } else if i == 62 {
            Self::GreenWredDroppedPackets
        } else if i == 63 {
            Self::GreenWredDroppedBytes
        } else if i == 64 {
            Self::YellowWredDroppedPackets
        } else if i == 65 {
            Self::YellowWredDroppedBytes
        } else if i == 66 {
            Self::RedWredDroppedPackets
        } else if i == 67 {
            Self::RedWredDroppedBytes
        } else if i == 68 {
            Self::WredDroppedPackets
        } else if i == 69 {
            Self::WredDroppedBytes
        } else if i == 70 {
            Self::EcnMarkedPackets
        } else if i == 71 {
            Self::EtherInPkts64Octets
        } else if i == 72 {
            Self::EtherInPkts65To127Octets
        } else if i == 73 {
            Self::EtherInPkts128To255Octets
        } else if i == 74 {
            Self::EtherInPkts256To511Octets
        } else if i == 75 {
            Self::EtherInPkts512To1023Octets
        } else if i == 76 {
            Self::EtherInPkts1024To1518Octets
        } else if i == 77 {
            Self::EtherInPkts1519To2047Octets
        } else if i == 78 {
            Self::EtherInPkts2048To4095Octets
        } else if i == 79 {
            Self::EtherInPkts4096To9216Octets
        } else if i == 80 {
            Self::EtherInPkts9217To16383Octets
        } else if i == 81 {
            Self::EtherOutPkts64Octets
        } else if i == 82 {
            Self::EtherOutPkts65To127Octets
        } else if i == 83 {
            Self::EtherOutPkts128To255Octets
        } else if i == 84 {
            Self::EtherOutPkts256To511Octets
        } else if i == 85 {
            Self::EtherOutPkts512To1023Octets
        } else if i == 86 {
            Self::EtherOutPkts1024To1518Octets
        } else if i == 87 {
            Self::EtherOutPkts1519To2047Octets
        } else if i == 88 {
            Self::EtherOutPkts2048To4095Octets
        } else if i == 89 {
            Self::EtherOutPkts4096To9216Octets
        } else if i == 90 {
            Self::EtherOutPkts9217To16383Octets
        } else if i == 91 {
            Self::InCurrOccupancyBytes
        } else if i == 92 {
            Self::InWatermarkBytes
        } else if i == 93 {
            Self::InSharedCurrOccupancyBytes
        } else if i == 94 {
            Self::InSharedWatermarkBytes
        } else if i == 95 {
            Self::OutCurrOccupancyBytes
        } else if i == 96 {
            Self::OutWatermarkBytes
        } else if i == 97 {
            Self::OutSharedCurrOccupancyBytes
        } else if i == 98 {
            Self::OutSharedWatermarkBytes
        } else if i == 99 {
            Self::InDroppedPkts
        } else if i == 100 {
            Self::OutDroppedPkts
        } else if i == 101 {
            Self::PauseRxPkts
        } else if i == 102 {
            Self::PauseTxPkts
        } else if i == 103 {
            Self::Pfc0RxPkts
        } else if i == 104 {
            Self::Pfc0TxPkts
        } else if i == 105 {
            Self::Pfc1RxPkts
        } else if i == 106 {
            Self::Pfc1TxPkts
        } else if i == 107 {
            Self::Pfc2RxPkts
        } else if i == 108 {
            Self::Pfc2TxPkts
        } else if i == 109 {
            Self::Pfc3RxPkts
        } else if i == 110 {
            Self::Pfc3TxPkts
        } else if i == 111 {
            Self::Pfc4RxPkts
        } else if i == 112 {
            Self::Pfc4TxPkts
        } else if i == 113 {
            Self::Pfc5RxPkts
        } else if i == 114 {
            Self::Pfc5TxPkts
        } else if i == 115 {
            Self::Pfc6RxPkts
        } else if i == 116 {
            Self::Pfc6TxPkts
        } else if i == 117 {
            Self::Pfc7RxPkts
        } else if i == 118 {
            Self::Pfc7TxPkts
        } else if i == 119 {
            Self::Pfc0RxPauseDuration
        } else if i == 120 {
            Self::Pfc0TxPauseDuration
        } else if i == 121 {
            Self::Pfc1RxPauseDuration
        } else if i == 122 {
            Self::Pfc1TxPauseDuration
        } else if i == 123 {
            Self::Pfc2RxPauseDuration
        } else if i == 124 {
            Self::Pfc2TxPauseDuration
        } else if i == 125 {
            Self::Pfc3RxPauseDuration
        } else if i == 126 {
            Self::Pfc3TxPauseDuration
        } else if i == 127 {
            Self::Pfc4RxPauseDuration
        } else if i == 128 {
            Self::Pfc4TxPauseDuration
        } else if i == 129 {
            Self::Pfc5RxPauseDuration
        } else if i == 130 {
            Self::Pfc5TxPauseDuration
        } else if i == 131 {
            Self::Pfc6RxPauseDuration
        } else if i == 132 {
            Self::Pfc6TxPauseDuration
        } else if i == 133 {
            Self::Pfc7RxPauseDuration
        } else if i == 134 {
            Self::Pfc7TxPauseDuration
        } else if i == 135 {
            Self::Pfc0RxPauseDurationUs
        } else if i == 136 {
            Self::Pfc0TxPauseDurationUs
        } else if i == 137 {
            Self::Pfc1RxPauseDurationUs
        } else if i == 138 {
            Self::Pfc1TxPauseDurationUs
        } else if i == 139 {
            Self::Pfc2RxPauseDurationUs
        } else if i == 140 {
            Self::Pfc2TxPauseDurationUs
        } else if i == 141 {
            Self::Pfc3RxPauseDurationUs
        } else if i == 142 {
            Self::Pfc3TxPauseDurationUs
        } else if i == 143 {
            Self::Pfc4RxPauseDurationUs
        } else if i == 144 {
            Self::Pfc4TxPauseDurationUs
        } else if i == 145 {
            Self::Pfc5RxPauseDurationUs
        } else if i == 146 {
            Self::Pfc5TxPauseDurationUs
        } else if i == 147 {
            Self::Pfc6RxPauseDurationUs
        } else if i == 148 {
            Self::Pfc6TxPauseDurationUs
        } else if i == 149 {
            Self::Pfc7RxPauseDurationUs
        } else if i == 150 {
            Self::Pfc7TxPauseDurationUs
        } else if i == 151 {
            Self::Pfc0On2OffRxPkts
        } else if i == 152 {
            Self::Pfc1On2OffRxPkts
        } else if i == 153 {
            Self::Pfc2On2OffRxPkts
        } else if i == 154 {
            Self::Pfc3On2OffRxPkts
        } else if i == 155 {
            Self::Pfc4On2OffRxPkts
        } else if i == 156 {
            Self::Pfc5On2OffRxPkts
        } else if i == 157 {
            Self::Pfc6On2OffRxPkts
        } else if i == 158 {
            Self::Pfc7On2OffRxPkts
        } else if i == 159 {
            Self::Dot3StatsAlignmentErrors
        } else if i == 160 {
            Self::Dot3StatsFcsErrors
        } else if i == 161 {
            Self::Dot3StatsSingleCollisionFrames
        } else if i == 162 {
            Self::Dot3StatsMultipleCollisionFrames
        } else if i == 163 {
            Self::Dot3StatsSqeTestErrors
        } else if i == 164 {
            Self::Dot3StatsDeferredTransmissions
        } else if i == 165 {
            Self::Dot3StatsLateCollisions
        } else if i == 166 {
            Self::Dot3StatsExcessiveCollisions
        } else if i == 167 {
            Self::Dot3StatsInternalMacTransmitErrors
        } else if i == 168 {
            Self::Dot3StatsCarrierSenseErrors
        } else if i == 169 {
            Self::Dot3StatsFrameTooLongs
        } else if i == 170 {
            Self::Dot3StatsInternalMacReceiveErrors
        } else if i == 171 {
            Self::Dot3StatsSymbolErrors
        } else if i == 172 {
            Self::Dot3ControlInUnknownOpcodes
        } else if i == 173 {
            Self::EeeTxEventCount
        } else if i == 174 {
            Self::EeeRxEventCount
        } else if i == 175 {
            Self::EeeTxDuration
        } else if i == 176 {
            Self::EeeRxDuration
        } else if i == 177 {
            Self::PrbsErrorCount
        } else if i == 178 {
            Self::IfInFecCorrectableFrames
        } else if i == 179 {
            Self::IfInFecNotCorrectableFrames
        } else if i == 180 {
            Self::IfInFecSymbolErrors
        } else if i == 181 {
            Self::IfInFabricDataUnits
        } else if i == 182 {
            Self::IfOutFabricDataUnits
        } else if i == 183 {
            Self::IfInFecCodewordErrorsS0
        } else if i == 184 {
            Self::IfInFecCodewordErrorsS1
        } else if i == 185 {
            Self::IfInFecCodewordErrorsS2
        } else if i == 186 {
            Self::IfInFecCodewordErrorsS3
        } else if i == 187 {
            Self::IfInFecCodewordErrorsS4
        } else if i == 188 {
            Self::IfInFecCodewordErrorsS5
        } else if i == 189 {
            Self::IfInFecCodewordErrorsS6
        } else if i == 190 {
            Self::IfInFecCodewordErrorsS7
        } else if i == 191 {
            Self::IfInFecCodewordErrorsS8
        } else if i == 192 {
            Self::IfInFecCodewordErrorsS9
        } else if i == 193 {
            Self::IfInFecCodewordErrorsS10
        } else if i == 194 {
            Self::IfInFecCodewordErrorsS11
        } else if i == 195 {
            Self::IfInFecCodewordErrorsS12
        } else if i == 196 {
            Self::IfInFecCodewordErrorsS13
        } else if i == 197 {
            Self::IfInFecCodewordErrorsS14
        } else if i == 198 {
            Self::IfInFecCodewordErrorsS15
        } else if i == 199 {
            Self::IfInFecCodewordErrorsS16
        } else if i == 200 {
            Self::IfInFecCorrectedBits
        } else if i == 201 {
            Self::TrimPackets
        } else if i == 202 {
            Self::DroppedTrimPackets
        } else if i == 203 {
            Self::TxTrimPackets
        } else if i == 204 {
            Self::InConfiguredDropReasons0DroppedPkts
        } else if i == 205 {
            Self::InConfiguredDropReasons1DroppedPkts
        } else if i == 206 {
            Self::InConfiguredDropReasons2DroppedPkts
        } else if i == 207 {
            Self::InConfiguredDropReasons3DroppedPkts
        } else if i == 208 {
            Self::InConfiguredDropReasons4DroppedPkts
        } else if i == 209 {
            Self::InConfiguredDropReasons5DroppedPkts
        } else if i == 210 {
            Self::InConfiguredDropReasons6DroppedPkts
        } else if i == 211 {
            Self::InConfiguredDropReasons7DroppedPkts
        } else if i == 212 {
            Self::InConfiguredDropReasons8DroppedPkts
        } else if i == 213 {
            Self::InConfiguredDropReasons9DroppedPkts
        } else if i == 214 {
            Self::InConfiguredDropReasons10DroppedPkts
        } else if i == 215 {
            Self::InConfiguredDropReasons11DroppedPkts
        } else if i == 216 {
            Self::InConfiguredDropReasons12DroppedPkts
        } else if i == 217 {
            Self::InConfiguredDropReasons13DroppedPkts
        } else if i == 218 {
            Self::InConfiguredDropReasons14DroppedPkts
        } else if i == 219 {
            Self::InConfiguredDropReasons15DroppedPkts
        } else if i == 220 {
            Self::OutConfiguredDropReasons0DroppedPkts
        } else if i == 221 {
            Self::OutConfiguredDropReasons1DroppedPkts
        } else if i == 222 {
            Self::OutConfiguredDropReasons2DroppedPkts
        } else if i == 223 {
            Self::OutConfiguredDropReasons3DroppedPkts
        } else if i == 224 {
            Self::OutConfiguredDropReasons4DroppedPkts
        } else if i == 225 {
            Self::OutConfiguredDropReasons5DroppedPkts
        } else if i == 226 {
            Self::OutConfiguredDropReasons6DroppedPkts
        } else if i == 227 {
            Self::OutConfiguredDropReasons7DroppedPkts
        } else if i == 228 {
            Self::IfInHwProtectionSwitchoverEvents
        } else if i == 229 {
            Self::IfInHwProtectionSwitchoverDropPkts
        } else if i == 230 {
            Self::EtherInPkts1519To2500Octets
        } else if i == 231 {
            Self::EtherInPkts2501To9000Octets
        } else if i == 232 {
            Self::EtherInPkts9001To16383Octets
        } else if i == 233 {
            Self::EtherOutPkts1519To2500Octets
        } else if i == 234 {
            Self::EtherOutPkts2501To9000Octets
        } else if i == 235 {
            Self::EtherOutPkts9001To16383Octets
        } else {
            Self::End
        }
    }

    /// Position of this statistic in the C enum.
    pub open spec fn spec_index(self) -> int {
        match self {
            Self::IfInOctets => 0,
            Self::IfInUcastPkts => 1,
            Self::IfInNonUcastPkts => 2,
            Self::IfInDiscards => 3,
            Self::IfInErrors => 4,
            Self::IfInUnknownProtos => 5,
            Self::IfInBroadcastPkts => 6,
            Self::IfInMulticastPkts => 7,
            Self::IfInVlanDiscards => 8,
            Self::IfOutOctets => 9,
            Self::IfOutUcastPkts => 10,
            Self::IfOutNonUcastPkts => 11,
            Self::IfOutDiscards => 12,
            Self::IfOutErrors => 13,
            Self::IfOutQlen => 14,
            Self::IfOutBroadcastPkts => 15,
            Self::IfOutMulticastPkts => 16,
            Self::EtherStatsDropEvents => 17,
            Self::EtherStatsMulticastPkts => 18,
            Self::EtherStatsBroadcastPkts => 19,
            Self::EtherStatsUndersizePkts => 20,
            Self::EtherStatsFragments => 21,
            Self::EtherStatsPkts64Octets => 22,
            Self::EtherStatsPkts65To127Octets => 23,
            Self::EtherStatsPkts128To255Octets => 24,
            Self::EtherStatsPkts256To511Octets => 25,
            Self::EtherStatsPkts512To1023Octets => 26,
            Self::EtherStatsPkts1024To1518Octets => 27,
            Self::EtherStatsPkts1519To2047Octets => 28,
            Self::EtherStatsPkts2048To4095Octets => 29,
            Self::EtherStatsPkts4096To9216Octets => 30,
            Self::EtherStatsPkts9217To16383Octets => 31,
            Self::EtherStatsOversizePkts => 32,
            Self::EtherRxOversizePkts => 33,
            Self::EtherTxOversizePkts => 34,
            Self::EtherStatsJabbers => 35,
            Self::EtherStatsOctets => 36,
            Self::EtherStatsPkts => 37,
            Self::EtherStatsCollisions => 38,
            Self::EtherStatsCrcAlignErrors => 39,
            Self::EtherStatsTxNoErrors => 40,
            Self::EtherStatsRxNoErrors => 41,
            Self::IpInReceives => 42,
            Self::IpInOctets => 43,
            Self::IpInUcastPkts => 44,
            Self::IpInNonUcastPkts => 45,
            Self::IpInDiscards => 46,
            Self::IpOutOctets => 47,
            Self::IpOutUcastPkts => 48,
            Self::IpOutNonUcastPkts => 49,
            Self::IpOutDiscards => 50,
            Self::Ipv6InReceives => 51,
            Self::Ipv6InOctets => 52,
            Self::Ipv6InUcastPkts => 53,
            Self::Ipv6InNonUcastPkts => 54,
            Self::Ipv6InMcastPkts => 55,
            Self::Ipv6InDiscards => 56,
            Self::Ipv6OutOctets => 57,
            Self::Ipv6OutUcastPkts => 58,
            Self::Ipv6OutNonUcastPkts => 59,
            Self::Ipv6OutMcastPkts => 60,
            Self::Ipv6OutDiscards => 61,
            Self::GreenWredDroppedPackets => 62,
            Self::GreenWredDroppedBytes => 63,
            Self::YellowWredDroppedPackets => 64,
            Self::YellowWredDroppedBytes => 65,
            Self::RedWredDroppedPackets => 66,
            Self::RedWredDroppedBytes => 67,
            Self::WredDroppedPackets => 68,
            Self::WredDroppedBytes => 69,
            Self::EcnMarkedPackets => 70,
            Self::EtherInPkts64Octets => 71,
            Self::EtherInPkts65To127Octets => 72,
            Self::EtherInPkts128To255Octets => 73,
            Self::EtherInPkts256To511Octets => 74,
            Self::EtherInPkts512To1023Octets => 75,
            Self::EtherInPkts1024To1518Octets => 76,
            Self::EtherInPkts1519To2047Octets => 77,
            Self::EtherInPkts2048To4095Octets => 78,
            Self::EtherInPkts4096To9216Octets => 79,
            Self::EtherInPkts9217To16383Octets => 80,
            Self::EtherOutPkts64Octets => 81,
            Self::EtherOutPkts65To127Octets => 82,
            Self::EtherOutPkts128To255Octets => 83,
            Self::EtherOutPkts256To511Octets => 84,
            Self::EtherOutPkts512To1023Octets => 85,
            Self::EtherOutPkts1024To1518Octets => 86,
            Self::EtherOutPkts1519To2047Octets => 87,
            Self::EtherOutPkts2048To4095Octets => 88,
            Self::EtherOutPkts4096To9216Octets => 89,
            Self::EtherOutPkts9217To16383Octets => 90,
            Self::InCurrOccupancyBytes => 91,
            Self::InWatermarkBytes => 92,
            Self::InSharedCurrOccupancyBytes => 93,
            Self::InSharedWatermarkBytes => 94,
            Self::OutCurrOccupancyBytes => 95,
            Self::OutWatermarkBytes => 96,
            Self::OutSharedCurrOccupancyBytes => 97,
            Self::OutSharedWatermarkBytes => 98,
            Self::InDroppedPkts => 99,
            Self::OutDroppedPkts => 100,
            Self::PauseRxPkts => 101,
            Self::PauseTxPkts => 102,
            Self::Pfc0RxPkts => 103,
            Self::Pfc0TxPkts => 104,
            Self::Pfc1RxPkts => 105,
            Self::Pfc1TxPkts => 106,
            Self::Pfc2RxPkts => 107,
            Self::Pfc2TxPkts => 108,
            Self::Pfc3RxPkts => 109,
            Self::Pfc3TxPkts => 110,
            Self::Pfc4RxPkts => 111,
            Self::Pfc4TxPkts => 112,
            Self::Pfc5RxPkts => 113,
            Self::Pfc5TxPkts => 114,
            Self::Pfc6RxPkts => 115,
            Self::Pfc6TxPkts => 116,
            Self::Pfc7RxPkts => 117,
            Self::Pfc7TxPkts => 118,
            Self::Pfc0RxPauseDuration => 119,
            Self::Pfc0TxPauseDuration => 120,
            Self::Pfc1RxPauseDuration => 121,
            Self::Pfc1TxPauseDuration => 122,
            Self::Pfc2RxPauseDuration => 123,
            Self::Pfc2TxPauseDuration => 124,
            Self::Pfc3RxPauseDuration => 125,
            Self::Pfc3TxPauseDuration => 126,
            Self::Pfc4RxPauseDuration => 127,
            Self::Pfc4TxPauseDuration => 128,
            Self::Pfc5RxPauseDuration => 129,
            Self::Pfc5TxPauseDuration => 130,
            Self::Pfc6RxPauseDuration => 131,
            Self::Pfc6TxPauseDuration => 132,
            Self::Pfc7RxPauseDuration => 133,
            Self::Pfc7TxPauseDuration => 134,
            Self::Pfc0RxPauseDurationUs => 135,
            Self::Pfc0TxPauseDurationUs => 136,
            Self::Pfc1RxPauseDurationUs => 137,
            Self::Pfc1TxPauseDurationUs => 138,
            Self::Pfc2RxPauseDurationUs => 139,
            Self::Pfc2TxPauseDurationUs => 140,
            Self::Pfc3RxPauseDurationUs => 141,
            Self::Pfc3TxPauseDurationUs => 142,
            Self::Pfc4RxPauseDurationUs => 143,
            Self::Pfc4TxPauseDurationUs => 144,
            Self::Pfc5RxPauseDurationUs => 145,
            Self::Pfc5TxPauseDurationUs => 146,
            Self::Pfc6RxPauseDurationUs => 147,
            Self::Pfc6TxPauseDurationUs => 148,
            Self::Pfc7RxPauseDurationUs => 149,
            Self::Pfc7TxPauseDurationUs => 150,
            Self::Pfc0On2OffRxPkts => 151,
            Self::Pfc1On2OffRxPkts => 152,
            Self::Pfc2On2OffRxPkts => 153,
            Self::Pfc3On2OffRxPkts => 154,
            Self::Pfc4On2OffRxPkts => 155,
            Self::Pfc5On2OffRxPkts => 156,
            Self::Pfc6On2OffRxPkts => 157,
            Self::Pfc7On2OffRxPkts => 158,
            Self::Dot3StatsAlignmentErrors => 159,
            Self::Dot3StatsFcsErrors => 160,
            Self::Dot3StatsSingleCollisionFrames => 161,
            Self::Dot3StatsMultipleCollisionFrames => 162,
            Self::Dot3StatsSqeTestErrors => 163,
            Self::Dot3StatsDeferredTransmissions => 164,
            Self::Dot3StatsLateCollisions => 165,
            Self::Dot3StatsExcessiveCollisions => 166,
            Self::Dot3StatsInternalMacTransmitErrors => 167,
            Self::Dot3StatsCarrierSenseErrors => 168,
            Self::Dot3StatsFrameTooLongs => 169,
            Self::Dot3StatsInternalMacReceiveErrors => 170,
            Self::Dot3StatsSymbolErrors => 171,
            Self::Dot3ControlInUnknownOpcodes => 172,
            Self::EeeTxEventCount => 173,
            Self::EeeRxEventCount => 174,
            Self::EeeTxDuration => 175,
            Self::EeeRxDuration => 176,
            Self::PrbsErrorCount => 177,
            Self::IfInFecCorrectableFrames => 178,
            Self::IfInFecNotCorrectableFrames => 179,
            Self::IfInFecSymbolErrors => 180,
            Self::IfInFabricDataUnits => 181,
            Self::IfOutFabricDataUnits => 182,
            Self::IfInFecCodewordErrorsS0 => 183,
            Self::IfInFecCodewordErrorsS1 => 184,
            Self::IfInFecCodewordErrorsS2 => 185,
            Self::IfInFecCodewordErrorsS3 => 186,
            Self::IfInFecCodewordErrorsS4 => 187,
            Self::IfInFecCodewordErrorsS5 => 188,
            Self::IfInFecCodewordErrorsS6 => 189,
            Self::IfInFecCodewordErrorsS7 => 190,
            Self::IfInFecCodewordErrorsS8 => 191,
            Self::IfInFecCodewordErrorsS9 => 192,
            Self::IfInFecCodewordErrorsS10 => 193,
            Self::IfInFecCodewordErrorsS11 => 194,
            Self::IfInFecCodewordErrorsS12 => 195,
            Self::IfInFecCodewordErrorsS13 => 196,
            Self::IfInFecCodewordErrorsS14 => 197,
            Self::IfInFecCodewordErrorsS15 => 198,
            Self::IfInFecCodewordErrorsS16 => 199,
            Self::IfInFecCorrectedBits => 200,
            Self::TrimPackets => 201,
            Self::DroppedTrimPackets => 202,
            Self::TxTrimPackets => 203,
            Self::InConfiguredDropReasons0DroppedPkts => 204,
            Self::InConfiguredDropReasons1DroppedPkts => 205,
            Self::InConfiguredDropReasons2DroppedPkts => 206,
            Self::InConfiguredDropReasons3DroppedPkts => 207,
            Self::InConfiguredDropReasons4DroppedPkts => 208,
            Self::InConfiguredDropReasons5DroppedPkts => 209,
            Self::InConfiguredDropReasons6DroppedPkts => 210,
            Self::InConfiguredDropReasons7DroppedPkts => 211,
            Self::InConfiguredDropReasons8DroppedPkts => 212,
            Self::InConfiguredDropReasons9DroppedPkts => 213,
            Self::InConfiguredDropReasons10DroppedPkts => 214,
            Self::InConfiguredDropReasons11DroppedPkts => 215,
            Self::InConfiguredDropReasons12DroppedPkts => 216,
            Self::InConfiguredDropReasons13DroppedPkts => 217,
            Self::InConfiguredDropReasons14DroppedPkts => 218,
            Self::InConfiguredDropReasons15DroppedPkts => 219,
            Self::OutConfiguredDropReasons0DroppedPkts => 220,
            Self::OutConfiguredDropReasons1DroppedPkts => 221,
            Self::OutConfiguredDropReasons2DroppedPkts => 222,
            Self::OutConfiguredDropReasons3DroppedPkts => 223,
            Self::OutConfiguredDropReasons4DroppedPkts => 224,
            Self::OutConfiguredDropReasons5DroppedPkts => 225,
            Self::OutConfiguredDropReasons6DroppedPkts => 226,
            Self::OutConfiguredDropReasons7DroppedPkts => 227,
            Self::IfInHwProtectionSwitchoverEvents => 228,
            Self::IfInHwProtectionSwitchoverDropPkts => 229,
            Self::EtherInPkts1519To2500Octets => 230,
            Self::EtherInPkts2501To9000Octets => 231,
            Self::EtherInPkts9001To16383Octets => 232,
            Self::EtherOutPkts1519To2500Octets => 233,
            Self::EtherOutPkts2501To9000Octets => 234,
            Self::EtherOutPkts9001To16383Octets => 235,
            Self::End => 236,
        }
    }

    /// Statistic with value `value` in the C enum, if any.
    pub fn from_u32(value: u32) -> (r: Option<Self>)
        ensures
            r == Self::spec_from_u32(value),
    {
        match value {
            0 => Some(Self::IfInOctets),
            1 => Some(Self::IfInUcastPkts),
            2 => Some(Self::IfInNonUcastPkts),
            3 => Some(Self::IfInDiscards),
            4 => Some(Self::IfInErrors),
            5 => Some(Self::IfInUnknownProtos),
            6 => Some(Self::IfInBroadcastPkts),
            7 => Some(Self::IfInMulticastPkts),
            8 => Some(Self::IfInVlanDiscards),
            9 => Some(Self::IfOutOctets),
            10 => Some(Self::IfOutUcastPkts),
            11 => Some(Self::IfOutNonUcastPkts),
            12 => Some(Self::IfOutDiscards),
            13 => Some(Self::IfOutErrors),
            14 => Some(Self::IfOutQlen),
            15 => Some(Self::IfOutBroadcastPkts),
            16 => Some(Self::IfOutMulticastPkts),
            17 => Some(Self::EtherStatsDropEvents),
            18 => Some(Self::EtherStatsMulticastPkts),
            19 => Some(Self::EtherStatsBroadcastPkts),
            20 => Some(Self::EtherStatsUndersizePkts),
            21 => Some(Self::EtherStatsFragments),
            22 => Some(Self::EtherStatsPkts64Octets),
            23 => Some(Self::EtherStatsPkts65To127Octets),
            24 => Some(Self::EtherStatsPkts128To255Octets),
            25 => Some(Self::EtherStatsPkts256To511Octets),
            26 => Some(Self::EtherStatsPkts512To1023Octets),
            27 => Some(Self::EtherStatsPkts1024To1518Octets),
            28 => Some(Self::EtherStatsPkts1519To2047Octets),
            29 => Some(Self::EtherStatsPkts2048To4095Octets),
            30 => Some(Self::EtherStatsPkts4096To9216Octets),
            31 => Some(Self::EtherStatsPkts9217To16383Octets),
            32 => Some(Self::EtherStatsOversizePkts),
            33 => Some(Self::EtherRxOversizePkts),
            34 => Some(Self::EtherTxOversizePkts),
            35 => Some(Self::EtherStatsJabbers),
            36 => Some(Self::EtherStatsOctets),
            37 => Some(Self::EtherStatsPkts),
            38 => Some(Self::EtherStatsCollisions),
            39 => Some(Self::EtherStatsCrcAlignErrors),
            40 => Some(Self::EtherStatsTxNoErrors),
            41 => Some(Self::EtherStatsRxNoErrors),
            42 => Some(Self::IpInReceives),
            43 => Some(Self::IpInOctets),
            44 => Some(Self::IpInUcastPkts),
            45 => Some(Self::IpInNonUcastPkts),
            46 => Some(Self::IpInDiscards),
            47 => Some(Self::IpOutOctets),
            48 => Some(Self::IpOutUcastPkts),
            49 => Some(Self::IpOutNonUcastPkts),
            50 => Some(Self::IpOutDiscards),
            51 => Some(Self::Ipv6InReceives),
            52 => Some(Self::Ipv6InOctets),
            53 => Some(Self::Ipv6InUcastPkts),
            54 => Some(Self::Ipv6InNonUcastPkts),
            55 => Some(Self::Ipv6InMcastPkts),
            56 => Some(Self::Ipv6InDiscards),
            57 => Some(Self::Ipv6OutOctets),
            58 => Some(Self::Ipv6OutUcastPkts),
            59 => Some(Self::Ipv6OutNonUcastPkts),
            60 => Some(Self::Ipv6OutMcastPkts),
            61 => Some(Self::Ipv6OutDiscards),
            62 => Some(Self::GreenWredDroppedPackets),
            63 => Some(Self::GreenWredDroppedBytes),
            64 => Some(Self::YellowWredDroppedPackets),
            65 => Some(Self::YellowWredDroppedBytes),
            66 => Some(Self::RedWredDroppedPackets),
            67 => Some(Self::RedWredDroppedBytes),
            68 => Some(Self::WredDroppedPackets),
            69 => Some(Self::WredDroppedBytes),
            70 => Some(Self::EcnMarkedPackets),
            71 => Some(Self::EtherInPkts64Octets),
            72 => Some(Self::EtherInPkts65To127Octets),
            73 => Some(Self::EtherInPkts128To255Octets),
            74 => Some(Self::EtherInPkts256To511Octets),
            75 => Some(Self::EtherInPkts512To1023Octets),
            76 => Some(Self::EtherInPkts1024To1518Octets),
            77 => Some(Self::EtherInPkts1519To2047Octets),
            78 => Some(Self::EtherInPkts2048To4095Octets),
            79 => Some(Self::EtherInPkts4096To9216Octets),
            80 => Some(Self::EtherInPkts9217To16383Octets),
            81 => Some(Self::EtherOutPkts64Octets),
            82 => Some(Self::EtherOutPkts65To127Octets),
            83 => Some(Self::EtherOutPkts128To255Octets),
            84 => Some(Self::EtherOutPkts256To511Octets),
            85 => Some(Self::EtherOutPkts512To1023Octets),
            86 => Some(Self::EtherOutPkts1024To1518Octets),
            87 => Some(Self::EtherOutPkts1519To2047Octets),
            88 => Some(Self::EtherOutPkts2048To4095Octets),
            89 => Some(Self::EtherOutPkts4096To9216Octets),
            90 => Some(Self::EtherOutPkts9217To16383Octets),
            91 => Some(Self::InCurrOccupancyBytes),
            92 => Some(Self::InWatermarkBytes),
            93 => Some(Self::InSharedCurrOccupancyBytes),
            94 => Some(Self::InSharedWatermarkBytes),
            95 => Some(Self::OutCurrOccupancyBytes),
            96 => Some(Self::OutWatermarkBytes),
            97 => Some(Self::OutSharedCurrOccupancyBytes),
            98 => Some(Self::OutSharedWatermarkBytes),
            99 => Some(Self::InDroppedPkts),
            100 => Some(Self::OutDroppedPkts),
            101 => Some(Self::PauseRxPkts),
            102 => Some(Self::PauseTxPkts),
            103 => Some(Self::Pfc0RxPkts),
            104 => Some(Self::Pfc0TxPkts),
            105 => Some(Self::Pfc1RxPkts),
            106 => Some(Self::Pfc1TxPkts),
            107 => Some(Self::Pfc2RxPkts),
            108 => Some(Self::Pfc2TxPkts),
            109 => Some(Self::Pfc3RxPkts),
            110 => Some(Self::Pfc3TxPkts),
            111 => Some(Self::Pfc4RxPkts),
            112 => Some(Self::Pfc4TxPkts),
            113 => Some(Self::Pfc5RxPkts),
            114 => Some(Self::Pfc5TxPkts),
            115 => Some(Self::Pfc6RxPkts),
            116 => Some(Self::Pfc6TxPkts),
            117 => Some(Self::Pfc7RxPkts),
            118 => Some(Self::Pfc7TxPkts),
            119 => Some(Self::Pfc0RxPauseDuration),
            120 => Some(Self::Pfc0TxPauseDuration),
            121 => Some(Self::Pfc1RxPauseDuration),
            122 => Some(Self::Pfc1TxPauseDuration),
            123 => Some(Self::Pfc2RxPauseDuration),
            124 => Some(Self::Pfc2TxPauseDuration),
            125 => Some(Self::Pfc3RxPauseDuration),
            126 => Some(Self::Pfc3TxPauseDuration),
            127 => Some(Self::Pfc4RxPauseDuration),
            128 => Some(Self::Pfc4TxPauseDuration),
            129 => Some(Self::Pfc5RxPauseDuration),
            130 => Some(Self::Pfc5TxPauseDuration),
            131 => Some(Self::Pfc6RxPauseDuration),
            132 => Some(Self::Pfc6TxPauseDuration),
            133 => Some(Self::Pfc7RxPauseDuration),
            134 => Some(Self::Pfc7TxPauseDuration),
            135 => Some(Self::Pfc0RxPauseDurationUs),
            136 => Some(Self::Pfc0TxPauseDurationUs),
            137 => Some(Self::Pfc1RxPauseDurationUs),
            138 => Some(Self::Pfc1TxPauseDurationUs),
            139 => Some(Self::Pfc2RxPauseDurationUs),
            140 => Some(Self::Pfc2TxPauseDurationUs),
            141 => Some(Self::Pfc3RxPauseDurationUs),
            142 => Some(Self::Pfc3TxPauseDurationUs),
            143 => Some(Self::Pfc4RxPauseDurationUs),
            144 => Some(Self::Pfc4TxPauseDurationUs),
            145 => Some(Self::Pfc5RxPauseDurationUs),
            146 => Some(Self::Pfc5TxPauseDurationUs),
            147 => Some(Self::Pfc6RxPauseDurationUs),
            148 => Some(Self::Pfc6TxPauseDurationUs),
            149 => Some(Self::Pfc7RxPauseDurationUs),
            150 => Some(Self::Pfc7TxPauseDurationUs),
            151 => Some(Self::Pfc0On2OffRxPkts),
            152 => Some(Self::Pfc1On2OffRxPkts),
            153 => Some(Self::Pfc2On2OffRxPkts),
            154 => Some(Self::Pfc3On2OffRxPkts),
            155 => Some(Self::Pfc4On2OffRxPkts),
            156 => Some(Self::Pfc5On2OffRxPkts),
            157 => Some(Self::Pfc6On2OffRxPkts),
            158 => Some(Self::Pfc7On2OffRxPkts),
            159 => Some(Self::Dot3StatsAlignmentErrors),
            160 => Some(Self::Dot3StatsFcsErrors),
            161 => Some(Self::Dot3StatsSingleCollisionFrames),
            162 => Some(Self::Dot3StatsMultipleCollisionFrames),
            163 => Some(Self::Dot3StatsSqeTestErrors),
            164 => Some(Self::Dot3StatsDeferredTransmissions),
            165 => Some(Self::Dot3StatsLateCollisions),
            166 => Some(Self::Dot3StatsExcessiveCollisions),
            167 => Some(Self::Dot3StatsInternalMacTransmitErrors),
            168 => Some(Self::Dot3StatsCarrierSenseErrors),
            169 => Some(Self::Dot3StatsFrameTooLongs),
            170 => Some(Self::Dot3StatsInternalMacReceiveErrors),
            171 => Some(Self::Dot3StatsSymbolErrors),
            172 => Some(Self::Dot3ControlInUnknownOpcodes),
            173 => Some(Self::EeeTxEventCount),
            174 => Some(Self::EeeRxEventCount),
            175 => Some(Self::EeeTxDuration),
            176 => Some(Self::EeeRxDuration),
            177 => Some(Self::PrbsErrorCount),
            178 => Some(Self::IfInFecCorrectableFrames),
            179 => Some(Self::IfInFecNotCorrectableFrames),
            180 => Some(Self::IfInFecSymbolErrors),
            181 => Some(Self::IfInFabricDataUnits),
            182 => Some(Self::IfOutFabricDataUnits),
            183 => Some(Self::IfInFecCodewordErrorsS0),
            184 => Some(Self::IfInFecCodewordErrorsS1),
            185 => Some(Self::IfInFecCodewordErrorsS2),
            186 => Some(Self::IfInFecCodewordErrorsS3),
            187 => Some(Self::IfInFecCodewordErrorsS4),
            188 => Some(Self::IfInFecCodewordErrorsS5),
            189 => Some(Self::IfInFecCodewordErrorsS6),
            190 => Some(Self::IfInFecCodewordErrorsS7),
            191 => Some(Self::IfInFecCodewordErrorsS8),
            192 => Some(Self::IfInFecCodewordErrorsS9),
            193 => Some(Self::IfInFecCodewordErrorsS10),
            194 => Some(Self::IfInFecCodewordErrorsS11),
            195 => Some(Self::IfInFecCodewordErrorsS12),
            196 => Some(Self::IfInFecCodewordErrorsS13),
            197 => Some(Self::IfInFecCodewordErrorsS14),
            198 => Some(Self::IfInFecCodewordErrorsS15),
            199 => Some(Self::IfInFecCodewordErrorsS16),
            200 => Some(Self::IfInFecCorrectedBits),
            201 => Some(Self::TrimPackets),
            202 => Some(Self::DroppedTrimPackets),
            203 => Some(Self::TxTrimPackets),
            0x00001000 => Some(Self::InConfiguredDropReasons0DroppedPkts),
            0x00001001 => Some(Self::InConfiguredDropReasons1DroppedPkts),
            0x00001002 => Some(Self::InConfiguredDropReasons2DroppedPkts),
            0x00001003 => Some(Self::InConfiguredDropReasons3DroppedPkts),
            0x00001004 => Some(Self::InConfiguredDropReasons4DroppedPkts),
            0x00001005 => Some(Self::InConfiguredDropReasons5DroppedPkts),
            0x00001006 => Some(Self::InConfiguredDropReasons6DroppedPkts),
            0x00001007 => Some(Self::InConfiguredDropReasons7DroppedPkts),
            0x00001008 => Some(Self::InConfiguredDropReasons8DroppedPkts),
            0x00001009 => Some(Self::InConfiguredDropReasons9DroppedPkts),
            0x0000100a => Some(Self::InConfiguredDropReasons10DroppedPkts),
            0x0000100b => Some(Self::InConfiguredDropReasons11DroppedPkts),
            0x0000100c => Some(Self::InConfiguredDropReasons12DroppedPkts),
            0x0000100d => Some(Self::InConfiguredDropReasons13DroppedPkts),
            0x0000100e => Some(Self::InConfiguredDropReasons14DroppedPkts),
            0x0000100f => Some(Self::InConfiguredDropReasons15DroppedPkts),
            0x00002000 => Some(Self::OutConfiguredDropReasons0DroppedPkts),
            0x00002001 => Some(Self::OutConfiguredDropReasons1DroppedPkts),
            0x00002002 => Some(Self::OutConfiguredDropReasons2DroppedPkts),
            0x00002003 => Some(Self::OutConfiguredDropReasons3DroppedPkts),
            0x00002004 => Some(Self::OutConfiguredDropReasons4DroppedPkts),
            0x00002005 => Some(Self::OutConfiguredDropReasons5DroppedPkts),
            0x00002006 => Some(Self::OutConfiguredDropReasons6DroppedPkts),
            0x00002007 => Some(Self::OutConfiguredDropReasons7DroppedPkts),
            0x00002008 => Some(Self::IfInHwProtectionSwitchoverEvents),
            0x00002009 => Some(Self::IfInHwProtectionSwitchoverDropPkts),
            0x0000200a => Some(Self::EtherInPkts1519To2500Octets),
            0x0000200b => Some(Self::EtherInPkts2501To9000Octets),
            0x0000200c => Some(Self::EtherInPkts9001To16383Octets),
            0x0000200d => Some(Self::EtherOutPkts1519To2500Octets),
            0x0000200e => Some(Self::EtherOutPkts2501To9000Octets),
            0x0000200f => Some(Self::EtherOutPkts9001To16383Octets),
            0x00002010 => Some(Self::End),
            _ => None,
        }
    }

    /// Value of this statistic in the C enum.
    pub fn to_u32(self) -> (r: u32)
        ensures
            r == self.spec_to_u32(),
    {
        match self {
            Self::IfInOctets => 0,
            Self::IfInUcastPkts => 1,
            Self::IfInNonUcastPkts => 2,
            Self::IfInDiscards => 3,
            Self::IfInErrors => 4,
            Self::IfInUnknownProtos => 5,
            Self::IfInBroadcastPkts => 6,
            Self::IfInMulticastPkts => 7,
            Self::IfInVlanDiscards => 8,
            Self::IfOutOctets => 9,
            Self::IfOutUcastPkts => 10,
            Self::IfOutNonUcastPkts => 11,
            Self::IfOutDiscards => 12,
            Self::IfOutErrors => 13,
            Self::IfOutQlen => 14,
            Self::IfOutBroadcastPkts => 15,
            Self::IfOutMulticastPkts => 16,
            Self::EtherStatsDropEvents => 17,
            Self::EtherStatsMulticastPkts => 18,
            Self::EtherStatsBroadcastPkts => 19,
            Self::EtherStatsUndersizePkts => 20,
            Self::EtherStatsFragments => 21,
            Self::EtherStatsPkts64Octets => 22,
            Self::EtherStatsPkts65To127Octets => 23,
            Self::EtherStatsPkts128To255Octets => 24,
            Self::EtherStatsPkts256To511Octets => 25,
            Self::EtherStatsPkts512To1023Octets => 26,
            Self::EtherStatsPkts1024To1518Octets => 27,
            Self::EtherStatsPkts1519To2047Octets => 28,
            Self::EtherStatsPkts2048To4095Octets => 29,
            Self::EtherStatsPkts4096To9216Octets => 30,
            Self::EtherStatsPkts9217To16383Octets => 31,
            Self::EtherStatsOversizePkts => 32,
            Self::EtherRxOversizePkts => 33,
            Self::EtherTxOversizePkts => 34,
            Self::EtherStatsJabbers => 35,
            Self::EtherStatsOctets => 36,
            Self::EtherStatsPkts => 37,
            Self::EtherStatsCollisions => 38,
            Self::EtherStatsCrcAlignErrors => 39,
            Self::EtherStatsTxNoErrors => 40,
            Self::EtherStatsRxNoErrors => 41,
            Self::IpInReceives => 42,
            Self::IpInOctets => 43,
            Self::IpInUcastPkts => 44,
            Self::IpInNonUcastPkts => 45,
            Self::IpInDiscards => 46,
            Self::IpOutOctets => 47,
            Self::IpOutUcastPkts => 48,
            Self::IpOutNonUcastPkts => 49,
            Self::IpOutDiscards => 50,
            Self::Ipv6InReceives => 51,
            Self::Ipv6InOctets => 52,
            Self::Ipv6InUcastPkts => 53,
            Self::Ipv6InNonUcastPkts => 54,
            Self::Ipv6InMcastPkts => 55,
            Self::Ipv6InDiscards => 56,
            Self::Ipv6OutOctets => 57,
            Self::Ipv6OutUcastPkts => 58,
            Self::Ipv6OutNonUcastPkts => 59,
            Self::Ipv6OutMcastPkts => 60,
            Self::Ipv6OutDiscards => 61,
            Self::GreenWredDroppedPackets => 62,
            Self::GreenWredDroppedBytes => 63,
            Self::YellowWredDroppedPackets => 64,
            Self::YellowWredDroppedBytes => 65,
            Self::RedWredDroppedPackets => 66,
            Self::RedWredDroppedBytes => 67,
            Self::WredDroppedPackets => 68,
            Self::WredDroppedBytes => 69,
            Self::EcnMarkedPackets => 70,
            Self::EtherInPkts64Octets => 71,
            Self::EtherInPkts65To127Octets => 72,
            Self::EtherInPkts128To255Octets => 73,
            Self::EtherInPkts256To511Octets => 74,
            Self::EtherInPkts512To1023Octets => 75,
            Self::EtherInPkts1024To1518Octets => 76,
            Self::EtherInPkts1519To2047Octets => 77,
            Self::EtherInPkts2048To4095Octets => 78,
            Self::EtherInPkts4096To9216Octets => 79,
            Self::EtherInPkts9217To16383Octets => 80,
            Self::EtherOutPkts64Octets => 81,
            Self::EtherOutPkts65To127Octets => 82,
            Self::EtherOutPkts128To255Octets => 83,
            Self::EtherOutPkts256To511Octets => 84,
            Self::EtherOutPkts512To1023Octets => 85,
            Self::EtherOutPkts1024To1518Octets => 86,
            Self::EtherOutPkts1519To2047Octets => 87,
            Self::EtherOutPkts2048To4095Octets => 88,
            Self::EtherOutPkts4096To9216Octets => 89,
            Self::EtherOutPkts9217To16383Octets => 90,
            Self::InCurrOccupancyBytes => 91,
            Self::InWatermarkBytes => 92,
            Self::InSharedCurrOccupancyBytes => 93,
            Self::InSharedWatermarkBytes => 94,
            Self::OutCurrOccupancyBytes => 95,
            Self::OutWatermarkBytes => 96,
            Self::OutSharedCurrOccupancyBytes => 97,
            Self::OutSharedWatermarkBytes => 98,
            Self::InDroppedPkts => 99,
            Self::OutDroppedPkts => 100,
            Self::PauseRxPkts => 101,
            Self::PauseTxPkts => 102,
            Self::Pfc0RxPkts => 103,
            Self::Pfc0TxPkts => 104,
            Self::Pfc1RxPkts => 105,
            Self::Pfc1TxPkts => 106,
            Self::Pfc2RxPkts => 107,
            Self::Pfc2TxPkts => 108,
            Self::Pfc3RxPkts => 109,
            Self::Pfc3TxPkts => 110,
            Self::Pfc4RxPkts => 111,
            Self::Pfc4TxPkts => 112,
            Self::Pfc5RxPkts => 113,
            Self::Pfc5TxPkts => 114,
            Self::Pfc6RxPkts => 115,
            Self::Pfc6TxPkts => 116,
            Self::Pfc7RxPkts => 117,
            Self::Pfc7TxPkts => 118,
            Self::Pfc0RxPauseDuration => 119,
            Self::Pfc0TxPauseDuration => 120,
            Self::Pfc1RxPauseDuration => 121,
            Self::Pfc1TxPauseDuration => 122,
            Self::Pfc2RxPauseDuration => 123,
            Self::Pfc2TxPauseDuration => 124,
            Self::Pfc3RxPauseDuration => 125,
            Self::Pfc3TxPauseDuration => 126,
            Self::Pfc4RxPauseDuration => 127,
            Self::Pfc4TxPauseDuration => 128,
            Self::Pfc5RxPauseDuration => 129,
            Self::Pfc5TxPauseDuration => 130,
            Self::Pfc6RxPauseDuration => 131,
            Self::Pfc6TxPauseDuration => 132,
            Self::Pfc7RxPauseDuration => 133,
            Self::Pfc7TxPauseDuration => 134,
            Self::Pfc0RxPauseDurationUs => 135,
            Self::Pfc0TxPauseDurationUs => 136,
            Self::Pfc1RxPauseDurationUs => 137,
            Self::Pfc1TxPauseDurationUs => 138,
            Self::Pfc2RxPauseDurationUs => 139,
            Self::Pfc2TxPauseDurationUs => 140,
            Self::Pfc3RxPauseDurationUs => 141,
            Self::Pfc3TxPauseDurationUs => 142,
            Self::Pfc4RxPauseDurationUs => 143,
            Self::Pfc4TxPauseDurationUs => 144,
            Self::Pfc5RxPauseDurationUs => 145,
            Self::Pfc5TxPauseDurationUs => 146,
            Self::Pfc6RxPauseDurationUs => 147,
            Self::Pfc6TxPauseDurationUs => 148,
            Self::Pfc7RxPauseDurationUs => 149,
            Self::Pfc7TxPauseDurationUs => 150,
            Self::Pfc0On2OffRxPkts => 151,
            Self::Pfc1On2OffRxPkts => 152,
            Self::Pfc2On2OffRxPkts => 153,
            Self::Pfc3On2OffRxPkts => 154,
            Self::Pfc4On2OffRxPkts => 155,
            Self::Pfc5On2OffRxPkts => 156,
            Self::Pfc6On2OffRxPkts => 157,
            Self::Pfc7On2OffRxPkts => 158,
            Self::Dot3StatsAlignmentErrors => 159,
            Self::Dot3StatsFcsErrors => 160,
            Self::Dot3StatsSingleCollisionFrames => 161,
            Self::Dot3StatsMultipleCollisionFrames => 162,
            Self::Dot3StatsSqeTestErrors => 163,
            Self::Dot3StatsDeferredTransmissions => 164,
            Self::Dot3StatsLateCollisions => 165,
            Self::Dot3StatsExcessiveCollisions => 166,
            Self::Dot3StatsInternalMacTransmitErrors => 167,
            Self::Dot3StatsCarrierSenseErrors => 168,
            Self::Dot3StatsFrameTooLongs => 169,
            Self::Dot3StatsInternalMacReceiveErrors => 170,
            Self::Dot3StatsSymbolErrors => 171,
            Self::Dot3ControlInUnknownOpcodes => 172,
            Self::EeeTxEventCount => 173,
            Self::EeeRxEventCount => 174,
            Self::EeeTxDuration => 175,
            Self::EeeRxDuration => 176,
            Self::PrbsErrorCount => 177,
            Self::IfInFecCorrectableFrames => 178,
            Self::IfInFecNotCorrectableFrames => 179,
            Self::IfInFecSymbolErrors => 180,
            Self::IfInFabricDataUnits => 181,
            Self::IfOutFabricDataUnits => 182,
            Self::IfInFecCodewordErrorsS0 => 183,
            Self::IfInFecCodewordErrorsS1 => 184,
            Self::IfInFecCodewordErrorsS2 => 185,
            Self::IfInFecCodewordErrorsS3 => 186,
            Self::IfInFecCodewordErrorsS4 => 187,
            Self::IfInFecCodewordErrorsS5 => 188,
            Self::IfInFecCodewordErrorsS6 => 189,
            Self::IfInFecCodewordErrorsS7 => 190,
            Self::IfInFecCodewordErrorsS8 => 191,
            Self::IfInFecCodewordErrorsS9 => 192,
            Self::IfInFecCodewordErrorsS10 => 193,
            Self::IfInFecCodewordErrorsS11 => 194,
            Self::IfInFecCodewordErrorsS12 => 195,
            Self::IfInFecCodewordErrorsS13 => 196,
            Self::IfInFecCodewordErrorsS14 => 197,
            Self::IfInFecCodewordErrorsS15 => 198,
            Self::IfInFecCodewordErrorsS16 => 199,
            Self::IfInFecCorrectedBits => 200,
            Self::TrimPackets => 201,
            Self::DroppedTrimPackets => 202,
            Self::TxTrimPackets => 203,
            Self::InConfiguredDropReasons0DroppedPkts => 0x00001000,
            Self::InConfiguredDropReasons1DroppedPkts => 0x00001001,
            Self::InConfiguredDropReasons2DroppedPkts => 0x00001002,
            Self::InConfiguredDropReasons3DroppedPkts => 0x00001003,
            Self::InConfiguredDropReasons4DroppedPkts => 0x00001004,
            Self::InConfiguredDropReasons5DroppedPkts => 0x00001005,
            Self::InConfiguredDropReasons6DroppedPkts => 0x00001006,
            Self::InConfiguredDropReasons7DroppedPkts => 0x00001007,
            Self::InConfiguredDropReasons8DroppedPkts => 0x00001008,
            Self::InConfiguredDropReasons9DroppedPkts => 0x00001009,
            Self::InConfiguredDropReasons10DroppedPkts => 0x0000100a,
            Self::InConfiguredDropReasons11DroppedPkts => 0x0000100b,
            Self::InConfiguredDropReasons12DroppedPkts => 0x0000100c,
            Self::InConfiguredDropReasons13DroppedPkts => 0x0000100d,
            Self::InConfiguredDropReasons14DroppedPkts => 0x0000100e,
            Self::InConfiguredDropReasons15DroppedPkts => 0x0000100f,
            Self::OutConfiguredDropReasons0DroppedPkts => 0x00002000,
            Self::OutConfiguredDropReasons1DroppedPkts => 0x00002001,
            Self::OutConfiguredDropReasons2DroppedPkts => 0x00002002,
            Self::OutConfiguredDropReasons3DroppedPkts => 0x00002003,
            Self::OutConfiguredDropReasons4DroppedPkts => 0x00002004,
            Self::OutConfiguredDropReasons5DroppedPkts => 0x00002005,
            Self::OutConfiguredDropReasons6DroppedPkts => 0x00002006,
            Self::OutConfiguredDropReasons7DroppedPkts => 0x00002007,
            Self::IfInHwProtectionSwitchoverEvents => 0x00002008,
            Self::IfInHwProtectionSwitchoverDropPkts => 0x00002009,
            Self::EtherInPkts1519To2500Octets => 0x0000200a,
            Self::EtherInPkts2501To9000Octets => 0x0000200b,
            Self::EtherInPkts9001To16383Octets => 0x0000200c,
            Self::EtherOutPkts1519To2500Octets => 0x0000200d,
            Self::EtherOutPkts2501To9000Octets => 0x0000200e,
            Self::EtherOutPkts9001To16383Octets => 0x0000200f,
            Self::End => 0x00002010,
        }
    }

    /// Name of this statistic in the C enum.
    pub fn to_c_name(self) -> (r: &'static str)
        ensures
            r@ == self.spec_c_name(),
    {
        match self {
            Self::IfInOctets => "SAI_PORT_STAT_IF_IN_OCTETS",
            Self::IfInUcastPkts => "SAI_PORT_STAT_IF_IN_UCAST_PKTS",
            Self::IfInNonUcastPkts => "SAI_PORT_STAT_IF_IN_NON_UCAST_PKTS",
            Self::IfInDiscards => "SAI_PORT_STAT_IF_IN_DISCARDS",
            Self::IfInErrors => "SAI_PORT_STAT_IF_IN_ERRORS",
            Self::IfInUnknownProtos => "SAI_PORT_STAT_IF_IN_UNKNOWN_PROTOS",
            Self::IfInBroadcastPkts => "SAI_PORT_STAT_IF_IN_BROADCAST_PKTS",
            Self::IfInMulticastPkts => "SAI_PORT_STAT_IF_IN_MULTICAST_PKTS",
            Self::IfInVlanDiscards => "SAI_PORT_STAT_IF_IN_VLAN_DISCARDS",
            Self::IfOutOctets => "SAI_PORT_STAT_IF_OUT_OCTETS",
            Self::IfOutUcastPkts => "SAI_PORT_STAT_IF_OUT_UCAST_PKTS",
            Self::IfOutNonUcastPkts => "SAI_PORT_STAT_IF_OUT_NON_UCAST_PKTS",
            Self::IfOutDiscards => "SAI_PORT_STAT_IF_OUT_DISCARDS",
            Self::IfOutErrors => "SAI_PORT_STAT_IF_OUT_ERRORS",
            Self::IfOutQlen => "SAI_PORT_STAT_IF_OUT_QLEN",
            Self::IfOutBroadcastPkts => "SAI_PORT_STAT_IF_OUT_BROADCAST_PKTS",
            Self::IfOutMulticastPkts => "SAI_PORT_STAT_IF_OUT_MULTICAST_PKTS",
            Self::EtherStatsDropEvents => "SAI_PORT_STAT_ETHER_STATS_DROP_EVENTS",
            Self::EtherStatsMulticastPkts => "SAI_PORT_STAT_ETHER_STATS_MULTICAST_PKTS",
            Self::EtherStatsBroadcastPkts => "SAI_PORT_STAT_ETHER_STATS_BROADCAST_PKTS",
            Self::EtherStatsUndersizePkts => "SAI_PORT_STAT_ETHER_STATS_UNDERSIZE_PKTS",
            Self::EtherStatsFragments => "SAI_PORT_STAT_ETHER_STATS_FRAGMENTS",
            Self::EtherStatsPkts64Octets => "SAI_PORT_STAT_ETHER_STATS_PKTS_64_OCTETS",
            Self::EtherStatsPkts65To127Octets => "SAI_PORT_STAT_ETHER_STATS_PKTS_65_TO_127_OCTETS",
            Self::EtherStatsPkts128To255Octets => "SAI_PORT_STAT_ETHER_STATS_PKTS_128_TO_255_OCTETS",
            Self::EtherStatsPkts256To511Octets => "SAI_PORT_STAT_ETHER_STATS_PKTS_256_TO_511_OCTETS",
            Self::EtherStatsPkts512To1023Octets => "SAI_PORT_STAT_ETHER_STATS_PKTS_512_TO_1023_OCTETS",
            Self::EtherStatsPkts1024To1518Octets => "SAI_PORT_STAT_ETHER_STATS_PKTS_1024_TO_1518_OCTETS",
            Self::EtherStatsPkts1519To2047Octets => "SAI_PORT_STAT_ETHER_STATS_PKTS_1519_TO_2047_OCTETS",
            Self::EtherStatsPkts2048To4095Octets => "SAI_PORT_STAT_ETHER_STATS_PKTS_2048_TO_4095_OCTETS",
            Self::EtherStatsPkts4096To9216Octets => "SAI_PORT_STAT_ETHER_STATS_PKTS_4096_TO_9216_OCTETS",
            Self::EtherStatsPkts9217To16383Octets => "SAI_PORT_STAT_ETHER_STATS_PKTS_9217_TO_16383_OCTETS",
            Self::EtherStatsOversizePkts => "SAI_PORT_STAT_ETHER_STATS_OVERSIZE_PKTS",
            Self::EtherRxOversizePkts => "SAI_PORT_STAT_ETHER_RX_OVERSIZE_PKTS",
            Self::EtherTxOversizePkts => "SAI_PORT_STAT_ETHER_TX_OVERSIZE_PKTS",
            Self::EtherStatsJabbers => "SAI_PORT_STAT_ETHER_STATS_JABBERS",
            Self::EtherStatsOctets => "SAI_PORT_STAT_ETHER_STATS_OCTETS",
            Self::EtherStatsPkts => "SAI_PORT_STAT_ETHER_STATS_PKTS",
            Self::EtherStatsCollisions => "SAI_PORT_STAT_ETHER_STATS_COLLISIONS",
            Self::EtherStatsCrcAlignErrors => "SAI_PORT_STAT_ETHER_STATS_CRC_ALIGN_ERRORS",
            Self::EtherStatsTxNoErrors => "SAI_PORT_STAT_ETHER_STATS_TX_NO_ERRORS",
            Self::EtherStatsRxNoErrors => "SAI_PORT_STAT_ETHER_STATS_RX_NO_ERRORS",
            Self::IpInReceives => "SAI_PORT_STAT_IP_IN_RECEIVES",
            Self::IpInOctets => "SAI_PORT_STAT_IP_IN_OCTETS",
            Self::IpInUcastPkts => "SAI_PORT_STAT_IP_IN_UCAST_PKTS",
            Self::IpInNonUcastPkts => "SAI_PORT_STAT_IP_IN_NON_UCAST_PKTS",
            Self::IpInDiscards => "SAI_PORT_STAT_IP_IN_DISCARDS",
            Self::IpOutOctets => "SAI_PORT_STAT_IP_OUT_OCTETS",
            Self::IpOutUcastPkts => "SAI_PORT_STAT_IP_OUT_UCAST_PKTS",
            Self::IpOutNonUcastPkts => "SAI_PORT_STAT_IP_OUT_NON_UCAST_PKTS",
            Self::IpOutDiscards => "SAI_PORT_STAT_IP_OUT_DISCARDS",
            Self::Ipv6InReceives => "SAI_PORT_STAT_IPV6_IN_RECEIVES",
            Self::Ipv6InOctets => "SAI_PORT_STAT_IPV6_IN_OCTETS",
            Self::Ipv6InUcastPkts => "SAI_PORT_STAT_IPV6_IN_UCAST_PKTS",
            Self::Ipv6InNonUcastPkts => "SAI_PORT_STAT_IPV6_IN_NON_UCAST_PKTS",
            Self::Ipv6InMcastPkts => "SAI_PORT_STAT_IPV6_IN_MCAST_PKTS",
            Self::Ipv6InDiscards => "SAI_PORT_STAT_IPV6_IN_DISCARDS",
            Self::Ipv6OutOctets => "SAI_PORT_STAT_IPV6_OUT_OCTETS",
            Self::Ipv6OutUcastPkts => "SAI_PORT_STAT_IPV6_OUT_UCAST_PKTS",
            Self::Ipv6OutNonUcastPkts => "SAI_PORT_STAT_IPV6_OUT_NON_UCAST_PKTS",
            Self::Ipv6OutMcastPkts => "SAI_PORT_STAT_IPV6_OUT_MCAST_PKTS",
            Self::Ipv6OutDiscards => "SAI_PORT_STAT_IPV6_OUT_DISCARDS",
            Self::GreenWredDroppedPackets => "SAI_PORT_STAT_GREEN_WRED_DROPPED_PACKETS",
            Self::GreenWredDroppedBytes => "SAI_PORT_STAT_GREEN_WRED_DROPPED_BYTES",
            Self::YellowWredDroppedPackets => "SAI_PORT_STAT_YELLOW_WRED_DROPPED_PACKETS",
            Self::YellowWredDroppedBytes => "SAI_PORT_STAT_YELLOW_WRED_DROPPED_BYTES",
            Self::RedWredDroppedPackets => "SAI_PORT_STAT_RED_WRED_DROPPED_PACKETS",
            Self::RedWredDroppedBytes => "SAI_PORT_STAT_RED_WRED_DROPPED_BYTES",
            Self::WredDroppedPackets => "SAI_PORT_STAT_WRED_DROPPED_PACKETS",
            Self::WredDroppedBytes => "SAI_PORT_STAT_WRED_DROPPED_BYTES",
            Self::EcnMarkedPackets => "SAI_PORT_STAT_ECN_MARKED_PACKETS",
            Self::EtherInPkts64Octets => "SAI_PORT_STAT_ETHER_IN_PKTS_64_OCTETS",
            Self::EtherInPkts65To127Octets => "SAI_PORT_STAT_ETHER_IN_PKTS_65_TO_127_OCTETS",
            Self::EtherInPkts128To255Octets => "SAI_PORT_STAT_ETHER_IN_PKTS_128_TO_255_OCTETS",
            Self::EtherInPkts256To511Octets => "SAI_PORT_STAT_ETHER_IN_PKTS_256_TO_511_OCTETS",
            Self::EtherInPkts512To1023Octets => "SAI_PORT_STAT_ETHER_IN_PKTS_512_TO_1023_OCTETS",
            Self::EtherInPkts1024To1518Octets => "SAI_PORT_STAT_ETHER_IN_PKTS_1024_TO_1518_OCTETS",
            Self::EtherInPkts1519To2047Octets => "SAI_PORT_STAT_ETHER_IN_PKTS_1519_TO_2047_OCTETS",
            Self::EtherInPkts2048To4095Octets => "SAI_PORT_STAT_ETHER_IN_PKTS_2048_TO_4095_OCTETS",
            Self::EtherInPkts4096To9216Octets => "SAI_PORT_STAT_ETHER_IN_PKTS_4096_TO_9216_OCTETS",
            Self::EtherInPkts9217To16383Octets => "SAI_PORT_STAT_ETHER_IN_PKTS_9217_TO_16383_OCTETS",
            Self::EtherOutPkts64Octets => "SAI_PORT_STAT_ETHER_OUT_PKTS_64_OCTETS",
            Self::EtherOutPkts65To127Octets => "SAI_PORT_STAT_ETHER_OUT_PKTS_65_TO_127_OCTETS",
            Self::EtherOutPkts128To255Octets => "SAI_PORT_STAT_ETHER_OUT_PKTS_128_TO_255_OCTETS",
            Self::EtherOutPkts256To511Octets => "SAI_PORT_STAT_ETHER_OUT_PKTS_256_TO_511_OCTETS",
            Self::EtherOutPkts512To1023Octets => "SAI_PORT_STAT_ETHER_OUT_PKTS_512_TO_1023_OCTETS",
            Self::EtherOutPkts1024To1518Octets => "SAI_PORT_STAT_ETHER_OUT_PKTS_1024_TO_1518_OCTETS",
            Self::EtherOutPkts1519To2047Octets => "SAI_PORT_STAT_ETHER_OUT_PKTS_1519_TO_2047_OCTETS",
            Self::EtherOutPkts2048To4095Octets => "SAI_PORT_STAT_ETHER_OUT_PKTS_2048_TO_4095_OCTETS",
            Self::EtherOutPkts4096To9216Octets => "SAI_PORT_STAT_ETHER_OUT_PKTS_4096_TO_9216_OCTETS",
            Self::EtherOutPkts9217To16383Octets => "SAI_PORT_STAT_ETHER_OUT_PKTS_9217_TO_16383_OCTETS",
            Self::InCurrOccupancyBytes => "SAI_PORT_STAT_IN_CURR_OCCUPANCY_BYTES",
            Self::InWatermarkBytes => "SAI_PORT_STAT_IN_WATERMARK_BYTES",
            Self::InSharedCurrOccupancyBytes => "SAI_PORT_STAT_IN_SHARED_CURR_OCCUPANCY_BYTES",
            Self::InSharedWatermarkBytes => "SAI_PORT_STAT_IN_SHARED_WATERMARK_BYTES",
            Self::OutCurrOccupancyBytes => "SAI_PORT_STAT_OUT_CURR_OCCUPANCY_BYTES",
            Self::OutWatermarkBytes => "SAI_PORT_STAT_OUT_WATERMARK_BYTES",
            Self::OutSharedCurrOccupancyBytes => "SAI_PORT_STAT_OUT_SHARED_CURR_OCCUPANCY_BYTES",
            Self::OutSharedWatermarkBytes => "SAI_PORT_STAT_OUT_SHARED_WATERMARK_BYTES",
            Self::InDroppedPkts => "SAI_PORT_STAT_IN_DROPPED_PKTS",
            Self::OutDroppedPkts => "SAI_PORT_STAT_OUT_DROPPED_PKTS",
            Self::PauseRxPkts => "SAI_PORT_STAT_PAUSE_RX_PKTS",
            Self::PauseTxPkts => "SAI_PORT_STAT_PAUSE_TX_PKTS",
            Self::Pfc0RxPkts => "SAI_PORT_STAT_PFC_0_RX_PKTS",
            Self::Pfc0TxPkts => "SAI_PORT_STAT_PFC_0_TX_PKTS",
            Self::Pfc1RxPkts => "SAI_PORT_STAT_PFC_1_RX_PKTS",
            Self::Pfc1TxPkts => "SAI_PORT_STAT_PFC_1_TX_PKTS",
            Self::Pfc2RxPkts => "SAI_PORT_STAT_PFC_2_RX_PKTS",
            Self::Pfc2TxPkts => "SAI_PORT_STAT_PFC_2_TX_PKTS",
            Self::Pfc3RxPkts => "SAI_PORT_STAT_PFC_3_RX_PKTS",
            Self::Pfc3TxPkts => "SAI_PORT_STAT_PFC_3_TX_PKTS",
            Self::Pfc4RxPkts => "SAI_PORT_STAT_PFC_4_RX_PKTS",
            Self::Pfc4TxPkts => "SAI_PORT_STAT_PFC_4_TX_PKTS",
            Self::Pfc5RxPkts => "SAI_PORT_STAT_PFC_5_RX_PKTS",
            Self::Pfc5TxPkts => "SAI_PORT_STAT_PFC_5_TX_PKTS",
            Self::Pfc6RxPkts => "SAI_PORT_STAT_PFC_6_RX_PKTS",
            Self::Pfc6TxPkts => "SAI_PORT_STAT_PFC_6_TX_PKTS",
            Self::Pfc7RxPkts => "SAI_PORT_STAT_PFC_7_RX_PKTS",
            Self::Pfc7TxPkts => "SAI_PORT_STAT_PFC_7_TX_PKTS",
            Self::Pfc0RxPauseDuration => "SAI_PORT_STAT_PFC_0_RX_PAUSE_DURATION",
            Self::Pfc0TxPauseDuration => "SAI_PORT_STAT_PFC_0_TX_PAUSE_DURATION",
            Self::Pfc1RxPauseDuration => "SAI_PORT_STAT_PFC_1_RX_PAUSE_DURATION",
            Self::Pfc1TxPauseDuration => "SAI_PORT_STAT_PFC_1_TX_PAUSE_DURATION",
            Self::Pfc2RxPauseDuration => "SAI_PORT_STAT_PFC_2_RX_PAUSE_DURATION",
            Self::Pfc2TxPauseDuration => "SAI_PORT_STAT_PFC_2_TX_PAUSE_DURATION",
            Self::Pfc3RxPauseDuration => "SAI_PORT_STAT_PFC_3_RX_PAUSE_DURATION",
            Self::Pfc3TxPauseDuration => "SAI_PORT_STAT_PFC_3_TX_PAUSE_DURATION",
            Self::Pfc4RxPauseDuration => "SAI_PORT_STAT_PFC_4_RX_PAUSE_DURATION",
            Self::Pfc4TxPauseDuration => "SAI_PORT_STAT_PFC_4_TX_PAUSE_DURATION",
            Self::Pfc5RxPauseDuration => "SAI_PORT_STAT_PFC_5_RX_PAUSE_DURATION",
            Self::Pfc5TxPauseDuration => "SAI_PORT_STAT_PFC_5_TX_PAUSE_DURATION",
            Self::Pfc6RxPauseDuration => "SAI_PORT_STAT_PFC_6_RX_PAUSE_DURATION",
            Self::Pfc6TxPauseDuration => "SAI_PORT_STAT_PFC_6_TX_PAUSE_DURATION",
            Self::Pfc7RxPauseDuration => "SAI_PORT_STAT_PFC_7_RX_PAUSE_DURATION",
            Self::Pfc7TxPauseDuration => "SAI_PORT_STAT_PFC_7_TX_PAUSE_DURATION",
            Self::Pfc0RxPauseDurationUs => "SAI_PORT_STAT_PFC_0_RX_PAUSE_DURATION_US",
            Self::Pfc0TxPauseDurationUs => "SAI_PORT_STAT_PFC_0_TX_PAUSE_DURATION_US",
            Self::Pfc1RxPauseDurationUs => "SAI_PORT_STAT_PFC_1_RX_PAUSE_DURATION_US",
            Self::Pfc1TxPauseDurationUs => "SAI_PORT_STAT_PFC_1_TX_PAUSE_DURATION_US",
            Self::Pfc2RxPauseDurationUs => "SAI_PORT_STAT_PFC_2_RX_PAUSE_DURATION_US",
            Self::Pfc2TxPauseDurationUs => "SAI_PORT_STAT_PFC_2_TX_PAUSE_DURATION_US",
            Self::Pfc3RxPauseDurationUs => "SAI_PORT_STAT_PFC_3_RX_PAUSE_DURATION_US",
            Self::Pfc3TxPauseDurationUs => "SAI_PORT_STAT_PFC_3_TX_PAUSE_DURATION_US",
            Self::Pfc4RxPauseDurationUs => "SAI_PORT_STAT_PFC_4_RX_PAUSE_DURATION_US",
            Self::Pfc4TxPauseDurationUs => "SAI_PORT_STAT_PFC_4_TX_PAUSE_DURATION_US",
            Self::Pfc5RxPauseDurationUs => "SAI_PORT_STAT_PFC_5_RX_PAUSE_DURATION_US",
            Self::Pfc5TxPauseDurationUs => "SAI_PORT_STAT_PFC_5_TX_PAUSE_DURATION_US",
            Self::Pfc6RxPauseDurationUs => "SAI_PORT_STAT_PFC_6_RX_PAUSE_DURATION_US",
            Self::Pfc6TxPauseDurationUs => "SAI_PORT_STAT_PFC_6_TX_PAUSE_DURATION_US",
            Self::Pfc7RxPauseDurationUs => "SAI_PORT_STAT_PFC_7_RX_PAUSE_DURATION_US",
            Self::Pfc7TxPauseDurationUs => "SAI_PORT_STAT_PFC_7_TX_PAUSE_DURATION_US",
            Self::Pfc0On2OffRxPkts => "SAI_PORT_STAT_PFC_0_ON2OFF_RX_PKTS",
            Self::Pfc1On2OffRxPkts => "SAI_PORT_STAT_PFC_1_ON2OFF_RX_PKTS",
            Self::Pfc2On2OffRxPkts => "SAI_PORT_STAT_PFC_2_ON2OFF_RX_PKTS",
            Self::Pfc3On2OffRxPkts => "SAI_PORT_STAT_PFC_3_ON2OFF_RX_PKTS",
            Self::Pfc4On2OffRxPkts => "SAI_PORT_STAT_PFC_4_ON2OFF_RX_PKTS",
            Self::Pfc5On2OffRxPkts => "SAI_PORT_STAT_PFC_5_ON2OFF_RX_PKTS",
            Self::Pfc6On2OffRxPkts => "SAI_PORT_STAT_PFC_6_ON2OFF_RX_PKTS",
            Self::Pfc7On2OffRxPkts => "SAI_PORT_STAT_PFC_7_ON2OFF_RX_PKTS",
            Self::Dot3StatsAlignmentErrors => "SAI_PORT_STAT_DOT3_STATS_ALIGNMENT_ERRORS",
            Self::Dot3StatsFcsErrors => "SAI_PORT_STAT_DOT3_STATS_FCS_ERRORS",
            Self::Dot3StatsSingleCollisionFrames => "SAI_PORT_STAT_DOT3_STATS_SINGLE_COLLISION_FRAMES",
            Self::Dot3StatsMultipleCollisionFrames => "SAI_PORT_STAT_DOT3_STATS_MULTIPLE_COLLISION_FRAMES",
            Self::Dot3StatsSqeTestErrors => "SAI_PORT_STAT_DOT3_STATS_SQE_TEST_ERRORS",
            Self::Dot3StatsDeferredTransmissions => "SAI_PORT_STAT_DOT3_STATS_DEFERRED_TRANSMISSIONS",
            Self::Dot3StatsLateCollisions => "SAI_PORT_STAT_DOT3_STATS_LATE_COLLISIONS",
            Self::Dot3StatsExcessiveCollisions => "SAI_PORT_STAT_DOT3_STATS_EXCESSIVE_COLLISIONS",
            Self::Dot3StatsInternalMacTransmitErrors => "SAI_PORT_STAT_DOT3_STATS_INTERNAL_MAC_TRANSMIT_ERRORS",
            Self::Dot3StatsCarrierSenseErrors => "SAI_PORT_STAT_DOT3_STATS_CARRIER_SENSE_ERRORS",
            Self::Dot3StatsFrameTooLongs => "SAI_PORT_STAT_DOT3_STATS_FRAME_TOO_LONGS",
            Self::Dot3StatsInternalMacReceiveErrors => "SAI_PORT_STAT_DOT3_STATS_INTERNAL_MAC_RECEIVE_ERRORS",
            Self::Dot3StatsSymbolErrors => "SAI_PORT_STAT_DOT3_STATS_SYMBOL_ERRORS",
            Self::Dot3ControlInUnknownOpcodes => "SAI_PORT_STAT_DOT3_CONTROL_IN_UNKNOWN_OPCODES",
            Self::EeeTxEventCount => "SAI_PORT_STAT_EEE_TX_EVENT_COUNT",
            Self::EeeRxEventCount => "SAI_PORT_STAT_EEE_RX_EVENT_COUNT",
            Self::EeeTxDuration => "SAI_PORT_STAT_EEE_TX_DURATION",
            Self::EeeRxDuration => "SAI_PORT_STAT_EEE_RX_DURATION",
            Self::PrbsErrorCount => "SAI_PORT_STAT_PRBS_ERROR_COUNT",
            Self::IfInFecCorrectableFrames => "SAI_PORT_STAT_IF_IN_FEC_CORRECTABLE_FRAMES",
            Self::IfInFecNotCorrectableFrames => "SAI_PORT_STAT_IF_IN_FEC_NOT_CORRECTABLE_FRAMES",
            Self::IfInFecSymbolErrors => "SAI_PORT_STAT_IF_IN_FEC_SYMBOL_ERRORS",
            Self::IfInFabricDataUnits => "SAI_PORT_STAT_IF_IN_FABRIC_DATA_UNITS",
            Self::IfOutFabricDataUnits => "SAI_PORT_STAT_IF_OUT_FABRIC_DATA_UNITS",
            Self::IfInFecCodewordErrorsS0 => "SAI_PORT_STAT_IF_IN_FEC_CODEWORD_ERRORS_S0",
            Self::IfInFecCodewordErrorsS1 => "SAI_PORT_STAT_IF_IN_FEC_CODEWORD_ERRORS_S1",
            Self::IfInFecCodewordErrorsS2 => "SAI_PORT_STAT_IF_IN_FEC_CODEWORD_ERRORS_S2",
            Self::IfInFecCodewordErrorsS3 => "SAI_PORT_STAT_IF_IN_FEC_CODEWORD_ERRORS_S3",
            Self::IfInFecCodewordErrorsS4 => "SAI_PORT_STAT_IF_IN_FEC_CODEWORD_ERRORS_S4",
            Self::IfInFecCodewordErrorsS5 => "SAI_PORT_STAT_IF_IN_FEC_CODEWORD_ERRORS_S5",
            Self::IfInFecCodewordErrorsS6 => "SAI_PORT_STAT_IF_IN_FEC_CODEWORD_ERRORS_S6",
            Self::IfInFecCodewordErrorsS7 => "SAI_PORT_STAT_IF_IN_FEC_CODEWORD_ERRORS_S7",
            Self::IfInFecCodewordErrorsS8 => "SAI_PORT_STAT_IF_IN_FEC_CODEWORD_ERRORS_S8",
            Self::IfInFecCodewordErrorsS9 => "SAI_PORT_STAT_IF_IN_FEC_CODEWORD_ERRORS_S9",
            Self::IfInFecCodewordErrorsS10 => "SAI_PORT_STAT_IF_IN_FEC_CODEWORD_ERRORS_S10",
            Self::IfInFecCodewordErrorsS11 => "SAI_PORT_STAT_IF_IN_FEC_CODEWORD_ERRORS_S11",
            Self::IfInFecCodewordErrorsS12 => "SAI_PORT_STAT_IF_IN_FEC_CODEWORD_ERRORS_S12",
            Self::IfInFecCodewordErrorsS13 => "SAI_PORT_STAT_IF_IN_FEC_CODEWORD_ERRORS_S13",
            Self::IfInFecCodewordErrorsS14 => "SAI_PORT_STAT_IF_IN_FEC_CODEWORD_ERRORS_S14",
            Self::IfInFecCodewordErrorsS15 => "SAI_PORT_STAT_IF_IN_FEC_CODEWORD_ERRORS_S15",
            Self::IfInFecCodewordErrorsS16 => "SAI_PORT_STAT_IF_IN_FEC_CODEWORD_ERRORS_S16",
            Self::IfInFecCorrectedBits => "SAI_PORT_STAT_IF_IN_FEC_CORRECTED_BITS",
            Self::TrimPackets => "SAI_PORT_STAT_TRIM_PACKETS",
            Self::DroppedTrimPackets => "SAI_PORT_STAT_DROPPED_TRIM_PACKETS",
            Self::TxTrimPackets => "SAI_PORT_STAT_TX_TRIM_PACKETS",
            Self::InConfiguredDropReasons0DroppedPkts => "SAI_PORT_STAT_IN_CONFIGURED_DROP_REASONS_0_DROPPED_PKTS",
            Self::InConfiguredDropReasons1DroppedPkts => "SAI_PORT_STAT_IN_CONFIGURED_DROP_REASONS_1_DROPPED_PKTS",
            Self::InConfiguredDropReasons2DroppedPkts => "SAI_PORT_STAT_IN_CONFIGURED_DROP_REASONS_2_DROPPED_PKTS",
            Self::InConfiguredDropReasons3DroppedPkts => "SAI_PORT_STAT_IN_CONFIGURED_DROP_REASONS_3_DROPPED_PKTS",
            Self::InConfiguredDropReasons4DroppedPkts => "SAI_PORT_STAT_IN_CONFIGURED_DROP_REASONS_4_DROPPED_PKTS",
            Self::InConfiguredDropReasons5DroppedPkts => "SAI_PORT_STAT_IN_CONFIGURED_DROP_REASONS_5_DROPPED_PKTS",
            Self::InConfiguredDropReasons6DroppedPkts => "SAI_PORT_STAT_IN_CONFIGURED_DROP_REASONS_6_DROPPED_PKTS",
            Self::InConfiguredDropReasons7DroppedPkts => "SAI_PORT_STAT_IN_CONFIGURED_DROP_REASONS_7_DROPPED_PKTS",
            Self::InConfiguredDropReasons8DroppedPkts => "SAI_PORT_STAT_IN_CONFIGURED_DROP_REASONS_8_DROPPED_PKTS",
            Self::InConfiguredDropReasons9DroppedPkts => "SAI_PORT_STAT_IN_CONFIGURED_DROP_REASONS_9_DROPPED_PKTS",
            Self::InConfiguredDropReasons10DroppedPkts => "SAI_PORT_STAT_IN_CONFIGURED_DROP_REASONS_10_DROPPED_PKTS",
            Self::InConfiguredDropReasons11DroppedPkts => "SAI_PORT_STAT_IN_CONFIGURED_DROP_REASONS_11_DROPPED_PKTS",
            Self::InConfiguredDropReasons12DroppedPkts => "SAI_PORT_STAT_IN_CONFIGURED_DROP_REASONS_12_DROPPED_PKTS",
            Self::InConfiguredDropReasons13DroppedPkts => "SAI_PORT_STAT_IN_CONFIGURED_DROP_REASONS_13_DROPPED_PKTS",
            Self::InConfiguredDropReasons14DroppedPkts => "SAI_PORT_STAT_IN_CONFIGURED_DROP_REASONS_14_DROPPED_PKTS",
            Self::InConfiguredDropReasons15DroppedPkts => "SAI_PORT_STAT_IN_CONFIGURED_DROP_REASONS_15_DROPPED_PKTS",
            Self::OutConfiguredDropReasons0DroppedPkts => "SAI_PORT_STAT_OUT_CONFIGURED_DROP_REASONS_0_DROPPED_PKTS",
            Self::OutConfiguredDropReasons1DroppedPkts => "SAI_PORT_STAT_OUT_CONFIGURED_DROP_REASONS_1_DROPPED_PKTS",
            Self::OutConfiguredDropReasons2DroppedPkts => "SAI_PORT_STAT_OUT_CONFIGURED_DROP_REASONS_2_DROPPED_PKTS",
            Self::OutConfiguredDropReasons3DroppedPkts => "SAI_PORT_STAT_OUT_CONFIGURED_DROP_REASONS_3_DROPPED_PKTS",
            Self::OutConfiguredDropReasons4DroppedPkts => "SAI_PORT_STAT_OUT_CONFIGURED_DROP_REASONS_4_DROPPED_PKTS",
            Self::OutConfiguredDropReasons5DroppedPkts => "SAI_PORT_STAT_OUT_CONFIGURED_DROP_REASONS_5_DROPPED_PKTS",
            Self::OutConfiguredDropReasons6DroppedPkts => "SAI_PORT_STAT_OUT_CONFIGURED_DROP_REASONS_6_DROPPED_PKTS",
            Self::OutConfiguredDropReasons7DroppedPkts => "SAI_PORT_STAT_OUT_CONFIGURED_DROP_REASONS_7_DROPPED_PKTS",
            Self::IfInHwProtectionSwitchoverEvents => "SAI_PORT_STAT_IF_IN_HW_PROTECTION_SWITCHOVER_EVENTS",
            Self::IfInHwProtectionSwitchoverDropPkts => "SAI_PORT_STAT_IF_IN_HW_PROTECTION_SWITCHOVER_DROP_PKTS",
            Self::EtherInPkts1519To2500Octets => "SAI_PORT_STAT_ETHER_IN_PKTS_1519_TO_2500_OCTETS",
            Self::EtherInPkts2501To9000Octets => "SAI_PORT_STAT_ETHER_IN_PKTS_2501_TO_9000_OCTETS",
            Self::EtherInPkts9001To16383Octets => "SAI_PORT_STAT_ETHER_IN_PKTS_9001_TO_16383_OCTETS",
            Self::EtherOutPkts1519To2500Octets => "SAI_PORT_STAT_ETHER_OUT_PKTS_1519_TO_2500_OCTETS",
            Self::EtherOutPkts2501To9000Octets => "SAI_PORT_STAT_ETHER_OUT_PKTS_2501_TO_9000_OCTETS",
            Self::EtherOutPkts9001To16383Octets => "SAI_PORT_STAT_ETHER_OUT_PKTS_9001_TO_16383_OCTETS",
            Self::End => "SAI_PORT_STAT_END",
        }
    }

    /// Statistic at position `i` of the C enum.
    fn at(i: usize) -> (r: Self)
        requires
            i < Self::COUNT,
        ensures
            r == Self::spec_at(i as int),
    {
        match i {
            0 => Self::IfInOctets,
            1 => Self::IfInUcastPkts,
            2 => Self::IfInNonUcastPkts,
            3 => Self::IfInDiscards,
            4 => Self::IfInErrors,
            5 => Self::IfInUnknownProtos,
            6 => Self::IfInBroadcastPkts,
            7 => Self::IfInMulticastPkts,
            8 => Self::IfInVlanDiscards,
            9 => Self::IfOutOctets,
            10 => Self::IfOutUcastPkts,
            11 => Self::IfOutNonUcastPkts,
            12 => Self::IfOutDiscards,
            13 => Self::IfOutErrors,
            14 => Self::IfOutQlen,
            15 => Self::IfOutBroadcastPkts,
            16 => Self::IfOutMulticastPkts,
            17 => Self::EtherStatsDropEvents,
            18 => Self::EtherStatsMulticastPkts,
            19 => Self::EtherStatsBroadcastPkts,
            20 => Self::EtherStatsUndersizePkts,
            21 => Self::EtherStatsFragments,
            22 => Self::EtherStatsPkts64Octets,
            23 => Self::EtherStatsPkts65To127Octets,
            24 => Self::EtherStatsPkts128To255Octets,
            25 => Self::EtherStatsPkts256To511Octets,
            26 => Self::EtherStatsPkts512To1023Octets,
            27 => Self::EtherStatsPkts1024To1518Octets,
            28 => Self::EtherStatsPkts1519To2047Octets,
            29 => Self::EtherStatsPkts2048To4095Octets,
            30 => Self::EtherStatsPkts4096To9216Octets,
            31 => Self::EtherStatsPkts9217To16383Octets,
            32 => Self::EtherStatsOversizePkts,
            33 => Self::EtherRxOversizePkts,
            34 => Self::EtherTxOversizePkts,
            35 => Self::EtherStatsJabbers,
            36 => Self::EtherStatsOctets,
            37 => Self::EtherStatsPkts,
            38 => Self::EtherStatsCollisions,
            39 => Self::EtherStatsCrcAlignErrors,
            40 => Self::EtherStatsTxNoErrors,
            41 => Self::EtherStatsRxNoErrors,
            42 => Self::IpInReceives,
            43 => Self::IpInOctets,
            44 => Self::IpInUcastPkts,
            45 => Self::IpInNonUcastPkts,
            46 => Self::IpInDiscards,
            47 => Self::IpOutOctets,
            48 => Self::IpOutUcastPkts,
            49 => Self::IpOutNonUcastPkts,
            50 => Self::IpOutDiscards,
            51 => Self::Ipv6InReceives,
            52 => Self::Ipv6InOctets,
            53 => Self::Ipv6InUcastPkts,
            54 => Self::Ipv6InNonUcastPkts,
            55 => Self::Ipv6InMcastPkts,
            56 => Self::Ipv6InDiscards,
            57 => Self::Ipv6OutOctets,
            58 => Self::Ipv6OutUcastPkts,
            59 => Self::Ipv6OutNonUcastPkts,
            60 => Self::Ipv6OutMcastPkts,
            61 => Self::Ipv6OutDiscards,
            62 => Self::GreenWredDroppedPackets,
            63 => Self::GreenWredDroppedBytes,
            64 => Self::YellowWredDroppedPackets,
            65 => Self::YellowWredDroppedBytes,
            66 => Self::RedWredDroppedPackets,
            67 => Self::RedWredDroppedBytes,
            68 => Self::WredDroppedPackets,
            69 => Self::WredDroppedBytes,
            70 => Self::EcnMarkedPackets,
            71 => Self::EtherInPkts64Octets,
            72 => Self::EtherInPkts65To127Octets,
            73 => Self::EtherInPkts128To255Octets,
            74 => Self::EtherInPkts256To511Octets,
            75 => Self::EtherInPkts512To1023Octets,
            76 => Self::EtherInPkts1024To1518Octets,
            77 => Self::EtherInPkts1519To2047Octets,
            78 => Self::EtherInPkts2048To4095Octets,
            79 => Self::EtherInPkts4096To9216Octets,
            80 => Self::EtherInPkts9217To16383Octets,
            81 => Self::EtherOutPkts64Octets,
            82 => Self::EtherOutPkts65To127Octets,
            83 => Self::EtherOutPkts128To255Octets,
            84 => Self::EtherOutPkts256To511Octets,
            85 => Self::EtherOutPkts512To1023Octets,
            86 => Self::EtherOutPkts1024To1518Octets,
            87 => Self::EtherOutPkts1519To2047Octets,
            88 => Self::EtherOutPkts2048To4095Octets,
            89 => Self::EtherOutPkts4096To9216Octets,
            90 => Self::EtherOutPkts9217To16383Octets,
            91 => Self::InCurrOccupancyBytes,
            92 => Self::InWatermarkBytes,
            93 => Self::InSharedCurrOccupancyBytes,
            94 => Self::InSharedWatermarkBytes,
            95 => Self::OutCurrOccupancyBytes,
            96 => Self::OutWatermarkBytes,
            97 => Self::OutSharedCurrOccupancyBytes,
            98 => Self::OutSharedWatermarkBytes,
            99 => Self::InDroppedPkts,
            100 => Self::OutDroppedPkts,
            101 => Self::PauseRxPkts,
            102 => Self::PauseTxPkts,
            103 => Self::Pfc0RxPkts,
            104 => Self::Pfc0TxPkts,
            105 => Self::Pfc1RxPkts,
            106 => Self::Pfc1TxPkts,
            107 => Self::Pfc2RxPkts,
            108 => Self::Pfc2TxPkts,
            109 => Self::Pfc3RxPkts,
            110 => Self::Pfc3TxPkts,
            111 => Self::Pfc4RxPkts,
            112 => Self::Pfc4TxPkts,
            113 => Self::Pfc5RxPkts,
            114 => Self::Pfc5TxPkts,
            115 => Self::Pfc6RxPkts,
            116 => Self::Pfc6TxPkts,
            117 => Self::Pfc7RxPkts,
            118 => Self::Pfc7TxPkts,
            119 => Self::Pfc0RxPauseDuration,
            120 => Self::Pfc0TxPauseDuration,
            121 => Self::Pfc1RxPauseDuration,
            122 => Self::Pfc1TxPauseDuration,
            123 => Self::Pfc2RxPauseDuration,
            124 => Self::Pfc2TxPauseDuration,
            125 => Self::Pfc3RxPauseDuration,
            126 => Self::Pfc3TxPauseDuration,
            127 => Self::Pfc4RxPauseDuration,
            128 => Self::Pfc4TxPauseDuration,
            129 => Self::Pfc5RxPauseDuration,
            130 => Self::Pfc5TxPauseDuration,
            131 => Self::Pfc6RxPauseDuration,
            132 => Self::Pfc6TxPauseDuration,
            133 => Self::Pfc7RxPauseDuration,
            134 => Self::Pfc7TxPauseDuration,
            135 => Self::Pfc0RxPauseDurationUs,
            136 => Self::Pfc0TxPauseDurationUs,
            137 => Self::Pfc1RxPauseDurationUs,
            138 => Self::Pfc1TxPauseDurationUs,
            139 => Self::Pfc2RxPauseDurationUs,
            140 => Self::Pfc2TxPauseDurationUs,
            141 => Self::Pfc3RxPauseDurationUs,
            142 => Self::Pfc3TxPauseDurationUs,
            143 => Self::Pfc4RxPauseDurationUs,
            144 => Self::Pfc4TxPauseDurationUs,
            145 => Self::Pfc5RxPauseDurationUs,
            146 => Self::Pfc5TxPauseDurationUs,
            147 => Self::Pfc6RxPauseDurationUs,
            148 => Self::Pfc6TxPauseDurationUs,
            149 => Self::Pfc7RxPauseDurationUs,
            150 => Self::Pfc7TxPauseDurationUs,
            151 => Self::Pfc0On2OffRxPkts,
            152 => Self::Pfc1On2OffRxPkts,
            153 => Self::Pfc2On2OffRxPkts,
            154 => Self::Pfc3On2OffRxPkts,
            155 => Self::Pfc4On2OffRxPkts,
            156 => Self::Pfc5On2OffRxPkts,
            157 => Self::Pfc6On2OffRxPkts,
            158 => Self::Pfc7On2OffRxPkts,
            159 => Self::Dot3StatsAlignmentErrors,
            160 => Self::Dot3StatsFcsErrors,
            161 => Self::Dot3StatsSingleCollisionFrames,
            162 => Self::Dot3StatsMultipleCollisionFrames,
            163 => Self::Dot3StatsSqeTestErrors,
            164 => Self::Dot3StatsDeferredTransmissions,
            165 => Self::Dot3StatsLateCollisions,
            166 => Self::Dot3StatsExcessiveCollisions,
            167 => Self::Dot3StatsInternalMacTransmitErrors,
            168 => Self::Dot3StatsCarrierSenseErrors,
            169 => Self::Dot3StatsFrameTooLongs,
            170 => Self::Dot3StatsInternalMacReceiveErrors,
            171 => Self::Dot3StatsSymbolErrors,
            172 => Self::Dot3ControlInUnknownOpcodes,
            173 => Self::EeeTxEventCount,
            174 => Self::EeeRxEventCount,
            175 => Self::EeeTxDuration,
            176 => Self::EeeRxDuration,
            177 => Self::PrbsErrorCount,
            178 => Self::IfInFecCorrectableFrames,
            179 => Self::IfInFecNotCorrectableFrames,
            180 => Self::IfInFecSymbolErrors,
            181 => Self::IfInFabricDataUnits,
            182 => Self::IfOutFabricDataUnits,
            183 => Self::IfInFecCodewordErrorsS0,
            184 => Self::IfInFecCodewordErrorsS1,
            185 => Self::IfInFecCodewordErrorsS2,
            186 => Self::IfInFecCodewordErrorsS3,
            187 => Self::IfInFecCodewordErrorsS4,
            188 => Self::IfInFecCodewordErrorsS5,
            189 => Self::IfInFecCodewordErrorsS6,
            190 => Self::IfInFecCodewordErrorsS7,
            191 => Self::IfInFecCodewordErrorsS8,
            192 => Self::IfInFecCodewordErrorsS9,
            193 => Self::IfInFecCodewordErrorsS10,
            194 => Self::IfInFecCodewordErrorsS11,
            195 => Self::IfInFecCodewordErrorsS12,
            196 => Self::IfInFecCodewordErrorsS13,
            197 => Self::IfInFecCodewordErrorsS14,
            198 => Self::IfInFecCodewordErrorsS15,
            199 => Self::IfInFecCodewordErrorsS16,
            200 => Self::IfInFecCorrectedBits,
            201 => Self::TrimPackets,
            202 => Self::DroppedTrimPackets,
            203 => Self::TxTrimPackets,
            204 => Self::InConfiguredDropReasons0DroppedPkts,
            205 => Self::InConfiguredDropReasons1DroppedPkts,
            206 => Self::InConfiguredDropReasons2DroppedPkts,
            207 => Self::InConfiguredDropReasons3DroppedPkts,
            208 => Self::InConfiguredDropReasons4DroppedPkts,
            209 => Self::InConfiguredDropReasons5DroppedPkts,
            210 => Self::InConfiguredDropReasons6DroppedPkts,
            211 => Self::InConfiguredDropReasons7DroppedPkts,
            212 => Self::InConfiguredDropReasons8DroppedPkts,
            213 => Self::InConfiguredDropReasons9DroppedPkts,
            214 => Self::InConfiguredDropReasons10DroppedPkts,
            215 => Self::InConfiguredDropReasons11DroppedPkts,
            216 => Self::InConfiguredDropReasons12DroppedPkts,
            217 => Self::InConfiguredDropReasons13DroppedPkts,
            218 => Self::InConfiguredDropReasons14DroppedPkts,
            219 => Self::InConfiguredDropReasons15DroppedPkts,
            220 => Self::OutConfiguredDropReasons0DroppedPkts,
            221 => Self::OutConfiguredDropReasons1DroppedPkts,
            222 => Self::OutConfiguredDropReasons2DroppedPkts,
            223 => Self::OutConfiguredDropReasons3DroppedPkts,
            224 => Self::OutConfiguredDropReasons4DroppedPkts,
            225 => Self::OutConfiguredDropReasons5DroppedPkts,
            226 => Self::OutConfiguredDropReasons6DroppedPkts,
            227 => Self::OutConfiguredDropReasons7DroppedPkts,
            228 => Self::IfInHwProtectionSwitchoverEvents,
            229 => Self::IfInHwProtectionSwitchoverDropPkts,
            230 => Self::EtherInPkts1519To2500Octets,
            231 => Self::EtherInPkts2501To9000Octets,
            232 => Self::EtherInPkts9001To16383Octets,
            233 => Self::EtherOutPkts1519To2500Octets,
            234 => Self::EtherOutPkts2501To9000Octets,
            235 => Self::EtherOutPkts9001To16383Octets,
            _ => Self::End,
        }
    }

    /// Every statistic sits at its position in the C enum.
    pub proof fn lemma_at_index(s: Self)
        ensures
            0 <= s.spec_index() < Self::COUNT,
            Self::spec_at(s.spec_index()) == s,
    {
    }

    /// Law: converting a statistic to its value and back gives the statistic.
    pub proof fn lemma_u32_roundtrip(s: Self)
        ensures
            Self::spec_from_u32(s.spec_to_u32()) == Some(s),
    {
    }

    /// Law: a value converts to a statistic only if that statistic has the value.
    pub proof fn lemma_from_u32_inverse(value: u32)
        ensures
            Self::spec_from_u32(value) matches Some(s) ==> s.spec_to_u32() == value,
    {
    }

    /// Statistic whose C name is `s` (`SAI_PORT_STAT_START` names the first one).
    pub fn from_c_name(s: &str) -> (r: Result<Self, String>)
        ensures
            match r {
                Ok(v) => (s@ == v.spec_c_name() || (s@ == "SAI_PORT_STAT_START"@ && v == Self::IfInOctets)),
                Err(e) => (forall|v: Self| s@ != #[trigger] v.spec_c_name()) && s@ != "SAI_PORT_STAT_START"@
                    && e@ == "Unknown SAI port stat: "@ + s@,
            },
    {
        if str_eq(s, "SAI_PORT_STAT_START") {
            return Ok(Self::IfInOctets);
        }
        let mut i: usize = 0;
        while i < Self::COUNT
            invariant
                i <= Self::COUNT,
                forall|j: int| 0 <= j < i ==> s@ != #[trigger] Self::spec_at(j).spec_c_name(),
                s@ != "SAI_PORT_STAT_START"@,
            decreases Self::COUNT - i,
        {
            let v = Self::at(i);
            if str_eq(s, v.to_c_name()) {
                return Ok(v);
            }
            i = i + 1;
        }
        assert forall|v: Self| s@ != #[trigger] v.spec_c_name() by {
            Self::lemma_at_index(v);
            assert(s@ != Self::spec_at(v.spec_index()).spec_c_name());
        }
        Err(crate::text::concat2("Unknown SAI port stat: ", s))
    }
}

impl FromStr for SaiPortStat {
    type Err = String;

    fn from_str(s: &str) -> (r: Result<Self, Self::Err>)
        ensures
            match r {
                Ok(v) => (s@ == v.spec_c_name() || (s@ == "SAI_PORT_STAT_START"@ && v == Self::IfInOctets)),
                Err(e) => (forall|v: Self| s@ != #[trigger] v.spec_c_name()) && s@ != "SAI_PORT_STAT_START"@
                    && e@ == "Unknown SAI port stat: "@ + s@,
            },
            forall|v: Self| s@ == #[trigger] v.spec_c_name() ==> (r matches Ok(w) && w == v),
    {
        let r = Self::from_c_name(s);
        proof {
            assert forall|v: Self| s@ == #[trigger] v.spec_c_name() implies (r matches Ok(w) && w == v) by {
                Self::lemma_c_name_lookup(v);
                if let Ok(w) = r {
                    Self::lemma_c_name_injective(v, w);
                }
            }
        }
        r
    }
}

} // verus!
