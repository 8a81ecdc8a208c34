//! SAI queue statistics.
use vstd::prelude::*;
use std::str::FromStr;
use crate::text::str_eq;

verus! {

/// SAI queue statistics
/// (the statistics of `sai_queue_stat_t`).
#[derive(Debug, Clone, Copy, PartialEq, Eq, Hash, Structural)]
pub enum SaiQueueStat {
    /// Get/set tx packets count [uint64_t]
    Packets,
    /// Get/set tx bytes count [uint64_t]
    Bytes,
    /// Get/set dropped packets count [uint64_t]
    DroppedPackets,
    /// Get/set dropped bytes count [uint64_t]
    DroppedBytes,
    /// Get/set green color tx packets count [uint64_t]
    GreenPackets,
    /// Get/set green color tx bytes count [uint64_t]
    GreenBytes,
    /// Get/set green color dropped packets count [uint64_t]
    GreenDroppedPackets,
    /// Get/set green color dropped bytes count [uint64_t]
    GreenDroppedBytes,
    /// Get/set yellow color tx packets count [uint64_t]
    YellowPackets,
    /// Get/set yellow color tx bytes count [uint64_t]
    YellowBytes,
    /// Get/set yellow color dropped packets count [uint64_t]
    YellowDroppedPackets,
    /// Get/set yellow color dropped bytes count [uint64_t]
    YellowDroppedBytes,
    /// Get/set red color tx packets count [uint64_t]
    RedPackets,
    /// Get/set red color tx bytes count [uint64_t]
    RedBytes,
    /// Get/set red color dropped packets count [uint64_t]
    RedDroppedPackets,
    /// Get/set red color dropped bytes count [uint64_t]
    RedDroppedBytes,
    /// Get/set WRED green color dropped packets count [uint64_t]
    GreenWredDroppedPackets,
    /// Get/set WRED green color dropped bytes count [uint64_t]
    GreenWredDroppedBytes,
    /// Get/set WRED yellow color dropped packets count [uint64_t]
    YellowWredDroppedPackets,
    /// Get/set WRED yellow color dropped bytes count [uint64_t]
    YellowWredDroppedBytes,
    /// Get/set WRED red color dropped packets count [uint64_t]
    RedWredDroppedPackets,
    /// Get/set WRED red color dropped bytes count [uint64_t]
    RedWredDroppedBytes,
    /// Get/set WRED dropped packets count [uint64_t]
    WredDroppedPackets,
    /// Get/set WRED dropped bytes count [uint64_t]
    WredDroppedBytes,
    /// Get current queue occupancy in bytes [uint64_t]
    CurrOccupancyBytes,
    /// Get watermark queue occupancy in bytes [uint64_t]
    WatermarkBytes,
    /// Get current queue shared occupancy in bytes [uint64_t]
    SharedCurrOccupancyBytes,
    /// Get watermark queue shared occupancy in bytes [uint64_t]
    SharedWatermarkBytes,
    /// Get/set WRED green color marked packets count [uint64_t]
    GreenWredEcnMarkedPackets,
    /// Get/set WRED green color marked bytes count [uint64_t]
    GreenWredEcnMarkedBytes,
    /// Get/set WRED yellow color marked packets count [uint64_t]
    YellowWredEcnMarkedPackets,
    /// Get/set WRED yellow color marked bytes count [uint64_t]
    YellowWredEcnMarkedBytes,
    /// Get/set WRED red color marked packets count [uint64_t]
    RedWredEcnMarkedPackets,
    /// Get/set WRED red color marked bytes count [uint64_t]
    RedWredEcnMarkedBytes,
    /// Get/set WRED marked packets count [uint64_t]
    WredEcnMarkedPackets,
    /// Get/set WRED marked bytes count [uint64_t]
    WredEcnMarkedBytes,
    /// Get current queue occupancy percentage [uint64_t]
    CurrOccupancyLevel,
    /// Get watermark queue occupancy percentage [uint64_t]
    WatermarkLevel,
    /// Get packets deleted when the credit watch dog expires for VOQ System [uint64_t]
    CreditWdDeletedPackets,
    /// Queue delay watermark in nanoseconds [uint64_t]
    DelayWatermarkNs,
    /// Packets trimmed due to failed admission [uint64_t]
    TrimPackets,
    /// Get current queue occupancy in cells [uint64_t]
    CurrOccupancyCells,
    /// Get watermark queue occupancy in cells [uint64_t]
    WatermarkCells,
    /// Get current queue shared occupancy in cells [uint64_t]
    SharedCurrOccupancyCells,
    /// Get watermark queue shared occupancy in cells [uint64_t]
    SharedWatermarkCells,
    /// Packets trimmed but failed to be admitted on a trim queue due to congestion [uint64_t]
    DroppedTrimPackets,
    /// Packets trimmed and successfully transmitted on a trim queue [uint64_t]
    TxTrimPackets,
    /// Custom range base value
    CustomRangeBase,
}

impl SaiQueueStat {
    /// Number of statistics in the table.
    pub const COUNT: usize = 48;

    /// Value of this statistic in the C enum.
    pub open spec fn spec_to_u32(self) -> u32 {
        match self {
            Self::Packets => 0x00000000u32,
            Self::Bytes => 0x00000001u32,
            Self::DroppedPackets => 0x00000002u32,
            Self::DroppedBytes => 0x00000003u32,
            Self::GreenPackets => 0x00000004u32,
            Self::GreenBytes => 0x00000005u32,
            Self::GreenDroppedPackets => 0x00000006u32,
            Self::GreenDroppedBytes => 0x00000007u32,
            Self::YellowPackets => 0x00000008u32,
            Self::YellowBytes => 0x00000009u32,
            Self::YellowDroppedPackets => 0x0000000au32,
            Self::YellowDroppedBytes => 0x0000000bu32,
            Self::RedPackets => 0x0000000cu32,
            Self::RedBytes => 0x0000000du32,
            Self::RedDroppedPackets => 0x0000000eu32,
            Self::RedDroppedBytes => 0x0000000fu32,
            Self::GreenWredDroppedPackets => 0x00000010u32,
            Self::GreenWredDroppedBytes => 0x00000011u32,
            Self::YellowWredDroppedPackets => 0x00000012u32,
            Self::YellowWredDroppedBytes => 0x00000013u32,
            Self::RedWredDroppedPackets => 0x00000014u32,
            Self::RedWredDroppedBytes => 0x00000015u32,
            Self::WredDroppedPackets => 0x00000016u32,
            Self::WredDroppedBytes => 0x00000017u32,
            Self::CurrOccupancyBytes => 0x00000018u32,
            Self::WatermarkBytes => 0x00000019u32,
            Self::SharedCurrOccupancyBytes => 0x0000001au32,
            Self::SharedWatermarkBytes => 0x0000001bu32,
            Self::GreenWredEcnMarkedPackets => 0x0000001cu32,
            Self::GreenWredEcnMarkedBytes => 0x0000001du32,
            Self::YellowWredEcnMarkedPackets => 0x0000001eu32,
            Self::YellowWredEcnMarkedBytes => 0x0000001fu32,
            Self::RedWredEcnMarkedPackets => 0x00000020u32,
            Self::RedWredEcnMarkedBytes => 0x00000021u32,
            Self::WredEcnMarkedPackets => 0x00000022u32,
            Self::WredEcnMarkedBytes => 0x00000023u32,
            Self::CurrOccupancyLevel => 0x00000024u32,
            Self::WatermarkLevel => 0x00000025u32,
            Self::CreditWdDeletedPackets => 0x00000026u32,
            Self::DelayWatermarkNs => 0x00000027u32,
            Self::TrimPackets => 0x00000028u32,
            Self::CurrOccupancyCells => 0x00000029u32,
            Self::WatermarkCells => 0x0000002au32,
            Self::SharedCurrOccupancyCells => 0x0000002bu32,
            Self::SharedWatermarkCells => 0x0000002cu32,
            Self::DroppedTrimPackets => 0x0000002du32,
            Self::TxTrimPackets => 0x0000002eu32,
            Self::CustomRangeBase => 0x10000000u32,
        }
    }

    /// Statistic with value `value` in the C enum, if any.
    pub open spec fn spec_from_u32(value: u32) -> Option<Self> {
        match value {
            0x00000000u32 => Some(Self::Packets),
            0x00000001u32 => Some(Self::Bytes),
            0x00000002u32 => Some(Self::DroppedPackets),
            0x00000003u32 => Some(Self::DroppedBytes),
            0x00000004u32 => Some(Self::GreenPackets),
            0x00000005u32 => Some(Self::GreenBytes),
            0x00000006u32 => Some(Self::GreenDroppedPackets),
            0x00000007u32 => Some(Self::GreenDroppedBytes),
            0x00000008u32 => Some(Self::YellowPackets),
            0x00000009u32 => Some(Self::YellowBytes),
            0x0000000au32 => Some(Self::YellowDroppedPackets),
            0x0000000bu32 => Some(Self::YellowDroppedBytes),
            0x0000000cu32 => Some(Self::RedPackets),
            0x0000000du32 => Some(Self::RedBytes),
            0x0000000eu32 => Some(Self::RedDroppedPackets),
            0x0000000fu32 => Some(Self::RedDroppedBytes),
            0x00000010u32 => Some(Self::GreenWredDroppedPackets),
            0x00000011u32 => Some(Self::GreenWredDroppedBytes),
            0x00000012u32 => Some(Self::YellowWredDroppedPackets),
            0x00000013u32 => Some(Self::YellowWredDroppedBytes),
            0x00000014u32 => Some(Self::RedWredDroppedPackets),
            0x00000015u32 => Some(Self::RedWredDroppedBytes),
            0x00000016u32 => Some(Self::WredDroppedPackets),
            0x00000017u32 => Some(Self::WredDroppedBytes),
            0x00000018u32 => Some(Self::CurrOccupancyBytes),
            0x00000019u32 => Some(Self::WatermarkBytes),
            0x0000001au32 => Some(Self::SharedCurrOccupancyBytes),
            0x0000001bu32 => Some(Self::SharedWatermarkBytes),
            0x0000001cu32 => Some(Self::GreenWredEcnMarkedPackets),
            0x0000001du32 => Some(Self::GreenWredEcnMarkedBytes),
            0x0000001eu32 => Some(Self::YellowWredEcnMarkedPackets),
            0x0000001fu32 => Some(Self::YellowWredEcnMarkedBytes),
            0x00000020u32 => Some(Self::RedWredEcnMarkedPackets),
            0x00000021u32 => Some(Self::RedWredEcnMarkedBytes),
            0x00000022u32 => Some(Self::WredEcnMarkedPackets),
            0x00000023u32 => Some(Self::WredEcnMarkedBytes),
            0x00000024u32 => Some(Self::CurrOccupancyLevel),
            0x00000025u32 => Some(Self::WatermarkLevel),
            0x00000026u32 => Some(Self::CreditWdDeletedPackets),
            0x00000027u32 => Some(Self::DelayWatermarkNs),
            0x00000028u32 => Some(Self::TrimPackets),
            0x00000029u32 => Some(Self::CurrOccupancyCells),
            0x0000002au32 => Some(Self::WatermarkCells),
            0x0000002bu32 => Some(Self::SharedCurrOccupancyCells),
            0x0000002cu32 => Some(Self::SharedWatermarkCells),
            0x0000002du32 => Some(Self::DroppedTrimPackets),
            0x0000002eu32 => Some(Self::TxTrimPackets),
            0x10000000u32 => Some(Self::CustomRangeBase),
            _ => None,
        }
    }

    /// Name of this statistic in the C enum.
    pub open spec fn spec_c_name(self) -> Seq<char> {
        match self {
            Self::Packets => "SAI_QUEUE_STAT_PACKETS"@,
            Self::Bytes => "SAI_QUEUE_STAT_BYTES"@,
            Self::DroppedPackets => "SAI_QUEUE_STAT_DROPPED_PACKETS"@,
            Self::DroppedBytes => "SAI_QUEUE_STAT_DROPPED_BYTES"@,
            Self::GreenPackets => "SAI_QUEUE_STAT_GREEN_PACKETS"@,
            Self::GreenBytes => "SAI_QUEUE_STAT_GREEN_BYTES"@,
            Self::GreenDroppedPackets => "SAI_QUEUE_STAT_GREEN_DROPPED_PACKETS"@,
            Self::GreenDroppedBytes => "SAI_QUEUE_STAT_GREEN_DROPPED_BYTES"@,
            Self::YellowPackets => "SAI_QUEUE_STAT_YELLOW_PACKETS"@,
            Self::YellowBytes => "SAI_QUEUE_STAT_YELLOW_BYTES"@,
            Self::YellowDroppedPackets => "SAI_QUEUE_STAT_YELLOW_DROPPED_PACKETS"@,
            Self::YellowDroppedBytes => "SAI_QUEUE_STAT_YELLOW_DROPPED_BYTES"@,
            Self::RedPackets => "SAI_QUEUE_STAT_RED_PACKETS"@,
            Self::RedBytes => "SAI_QUEUE_STAT_RED_BYTES"@,
            Self::RedDroppedPackets => "SAI_QUEUE_STAT_RED_DROPPED_PACKETS"@,
            Self::RedDroppedBytes => "SAI_QUEUE_STAT_RED_DROPPED_BYTES"@,
            Self::GreenWredDroppedPackets => "SAI_QUEUE_STAT_GREEN_WRED_DROPPED_PACKETS"@,
            Self::GreenWredDroppedBytes => "SAI_QUEUE_STAT_GREEN_WRED_DROPPED_BYTES"@,
            Self::YellowWredDroppedPackets => "SAI_QUEUE_STAT_YELLOW_WRED_DROPPED_PACKETS"@,
            Self::YellowWredDroppedBytes => "SAI_QUEUE_STAT_YELLOW_WRED_DROPPED_BYTES"@,
            Self::RedWredDroppedPackets => "SAI_QUEUE_STAT_RED_WRED_DROPPED_PACKETS"@,
            Self::RedWredDroppedBytes => "SAI_QUEUE_STAT_RED_WRED_DROPPED_BYTES"@,
            Self::WredDroppedPackets => "SAI_QUEUE_STAT_WRED_DROPPED_PACKETS"@,
            Self::WredDroppedBytes => "SAI_QUEUE_STAT_WRED_DROPPED_BYTES"@,
            Self::CurrOccupancyBytes => "SAI_QUEUE_STAT_CURR_OCCUPANCY_BYTES"@,
            Self::WatermarkBytes => "SAI_QUEUE_STAT_WATERMARK_BYTES"@,
            Self::SharedCurrOccupancyBytes => "SAI_QUEUE_STAT_SHARED_CURR_OCCUPANCY_BYTES"@,
            Self::SharedWatermarkBytes => "SAI_QUEUE_STAT_SHARED_WATERMARK_BYTES"@,
            Self::GreenWredEcnMarkedPackets => "SAI_QUEUE_STAT_GREEN_WRED_ECN_MARKED_PACKETS"@,
            Self::GreenWredEcnMarkedBytes => "SAI_QUEUE_STAT_GREEN_WRED_ECN_MARKED_BYTES"@,
            Self::YellowWredEcnMarkedPackets => "SAI_QUEUE_STAT_YELLOW_WRED_ECN_MARKED_PACKETS"@,
            Self::YellowWredEcnMarkedBytes => "SAI_QUEUE_STAT_YELLOW_WRED_ECN_MARKED_BYTES"@,
            Self::RedWredEcnMarkedPackets => "SAI_QUEUE_STAT_RED_WRED_ECN_MARKED_PACKETS"@,
            Self::RedWredEcnMarkedBytes => "SAI_QUEUE_STAT_RED_WRED_ECN_MARKED_BYTES"@,
            Self::WredEcnMarkedPackets => "SAI_QUEUE_STAT_WRED_ECN_MARKED_PACKETS"@,
            Self::WredEcnMarkedBytes => "SAI_QUEUE_STAT_WRED_ECN_MARKED_BYTES"@,
            Self::CurrOccupancyLevel => "SAI_QUEUE_STAT_CURR_OCCUPANCY_LEVEL"@,
            Self::WatermarkLevel => "SAI_QUEUE_STAT_WATERMARK_LEVEL"@,
            Self::CreditWdDeletedPackets => "SAI_QUEUE_STAT_CREDIT_WD_DELETED_PACKETS"@,
            Self::DelayWatermarkNs => "SAI_QUEUE_STAT_DELAY_WATERMARK_NS"@,
            Self::TrimPackets => "SAI_QUEUE_STAT_TRIM_PACKETS"@,
            Self::CurrOccupancyCells => "SAI_QUEUE_STAT_CURR_OCCUPANCY_CELLS"@,
            Self::WatermarkCells => "SAI_QUEUE_STAT_WATERMARK_CELLS"@,
            Self::SharedCurrOccupancyCells => "SAI_QUEUE_STAT_SHARED_CURR_OCCUPANCY_CELLS"@,
            Self::SharedWatermarkCells => "SAI_QUEUE_STAT_SHARED_WATERMARK_CELLS"@,
            Self::DroppedTrimPackets => "SAI_QUEUE_STAT_DROPPED_TRIM_PACKETS"@,
            Self::TxTrimPackets => "SAI_QUEUE_STAT_TX_TRIM_PACKETS"@,
            Self::CustomRangeBase => "SAI_QUEUE_STAT_CUSTOM_RANGE_BASE"@,
        }
    }

    /// The statistic whose C name is `s`, if any.
    pub open spec fn spec_from_c_name(s: Seq<char>) -> Option<Self> {
        if s == "SAI_QUEUE_STAT_PACKETS"@ {
            Some(Self::Packets)
        } else if s == "SAI_QUEUE_STAT_BYTES"@ {
            Some(Self::Bytes)
        } else if s == "SAI_QUEUE_STAT_DROPPED_PACKETS"@ {
            Some(Self::DroppedPackets)
        } else if s == "SAI_QUEUE_STAT_DROPPED_BYTES"@ {
            Some(Self::DroppedBytes)
        } else if s == "SAI_QUEUE_STAT_GREEN_PACKETS"@ {
            Some(Self::GreenPackets)
        } else if s == "SAI_QUEUE_STAT_GREEN_BYTES"@ {
            Some(Self::GreenBytes)
        } else if s == "SAI_QUEUE_STAT_GREEN_DROPPED_PACKETS"@ {
            Some(Self::GreenDroppedPackets)
        } else if s == "SAI_QUEUE_STAT_GREEN_DROPPED_BYTES"@ {
            Some(Self::GreenDroppedBytes)
        } else if s == "SAI_QUEUE_STAT_YELLOW_PACKETS"@ {
            Some(Self::YellowPackets)
        } else if s == "SAI_QUEUE_STAT_YELLOW_BYTES"@ {
            Some(Self::YellowBytes)
        } else if s == "SAI_QUEUE_STAT_YELLOW_DROPPED_PACKETS"@ {
            Some(Self::YellowDroppedPackets)
        } else if s == "SAI_QUEUE_STAT_YELLOW_DROPPED_BYTES"@ {
            Some(Self::YellowDroppedBytes)
        } else if s == "SAI_QUEUE_STAT_RED_PACKETS"@ {
            Some(Self::RedPackets)
        } else if s == "SAI_QUEUE_STAT_RED_BYTES"@ {
            Some(Self::RedBytes)
        } else if s == "SAI_QUEUE_STAT_RED_DROPPED_PACKETS"@ {
            Some(Self::RedDroppedPackets)
        } else if s == "SAI_QUEUE_STAT_RED_DROPPED_BYTES"@ {
            Some(Self::RedDroppedBytes)
        } else if s == "SAI_QUEUE_STAT_GREEN_WRED_DROPPED_PACKETS"@ {
            Some(Self::GreenWredDroppedPackets)
        } else if s == "SAI_QUEUE_STAT_GREEN_WRED_DROPPED_BYTES"@ {
            Some(Self::GreenWredDroppedBytes)
        } else if s == "SAI_QUEUE_STAT_YELLOW_WRED_DROPPED_PACKETS"@ {
            Some(Self::YellowWredDroppedPackets)
        } else if s == "SAI_QUEUE_STAT_YELLOW_WRED_DROPPED_BYTES"@ {
            Some(Self::YellowWredDroppedBytes)
        } else if s == "SAI_QUEUE_STAT_RED_WRED_DROPPED_PACKETS"@ {
            Some(Self::RedWredDroppedPackets)
        } else if s == "SAI_QUEUE_STAT_RED_WRED_DROPPED_BYTES"@ {
            Some(Self::RedWredDroppedBytes)
        } else if s == "SAI_QUEUE_STAT_WRED_DROPPED_PACKETS"@ {
            Some(Self::WredDroppedPackets)
        } else if s == "SAI_QUEUE_STAT_WRED_DROPPED_BYTES"@ {
            Some(Self::WredDroppedBytes)
        } else if s == "SAI_QUEUE_STAT_CURR_OCCUPANCY_BYTES"@ {
            Some(Self::CurrOccupancyBytes)
        } else if s == "SAI_QUEUE_STAT_WATERMARK_BYTES"@ {
            Some(Self::WatermarkBytes)
        } else if s == "SAI_QUEUE_STAT_SHARED_CURR_OCCUPANCY_BYTES"@ {
            Some(Self::SharedCurrOccupancyBytes)
        } else if s == "SAI_QUEUE_STAT_SHARED_WATERMARK_BYTES"@ {
            Some(Self::SharedWatermarkBytes)
        } else if s == "SAI_QUEUE_STAT_GREEN_WRED_ECN_MARKED_PACKETS"@ {
            Some(Self::GreenWredEcnMarkedPackets)
        } else if s == "SAI_QUEUE_STAT_GREEN_WRED_ECN_MARKED_BYTES"@ {
            Some(Self::GreenWredEcnMarkedBytes)
        } else if s == "SAI_QUEUE_STAT_YELLOW_WRED_ECN_MARKED_PACKETS"@ {
            Some(Self::YellowWredEcnMarkedPackets)
        } else if s == "SAI_QUEUE_STAT_YELLOW_WRED_ECN_MARKED_BYTES"@ {
            Some(Self::YellowWredEcnMarkedBytes)
        } else if s == "SAI_QUEUE_STAT_RED_WRED_ECN_MARKED_PACKETS"@ {
            Some(Self::RedWredEcnMarkedPackets)
        } else if s == "SAI_QUEUE_STAT_RED_WRED_ECN_MARKED_BYTES"@ {
            Some(Self::RedWredEcnMarkedBytes)
        } else if s == "SAI_QUEUE_STAT_WRED_ECN_MARKED_PACKETS"@ {
            Some(Self::WredEcnMarkedPackets)
        } else if s == "SAI_QUEUE_STAT_WRED_ECN_MARKED_BYTES"@ {
            Some(Self::WredEcnMarkedBytes)
        } else if s == "SAI_QUEUE_STAT_CURR_OCCUPANCY_LEVEL"@ {
            Some(Self::CurrOccupancyLevel)
        } else if s == "SAI_QUEUE_STAT_WATERMARK_LEVEL"@ {
            Some(Self::WatermarkLevel)
        } else if s == "SAI_QUEUE_STAT_CREDIT_WD_DELETED_PACKETS"@ {
            Some(Self::CreditWdDeletedPackets)
        } else if s == "SAI_QUEUE_STAT_DELAY_WATERMARK_NS"@ {
            Some(Self::DelayWatermarkNs)
        } else if s == "SAI_QUEUE_STAT_TRIM_PACKETS"@ {
            Some(Self::TrimPackets)
        } else if s == "SAI_QUEUE_STAT_CURR_OCCUPANCY_CELLS"@ {
            Some(Self::CurrOccupancyCells)
        } else if s == "SAI_QUEUE_STAT_WATERMARK_CELLS"@ {
            Some(Self::WatermarkCells)
        } else if s == "SAI_QUEUE_STAT_SHARED_CURR_OCCUPANCY_CELLS"@ {
            Some(Self::SharedCurrOccupancyCells)
        } else if s == "SAI_QUEUE_STAT_SHARED_WATERMARK_CELLS"@ {
            Some(Self::SharedWatermarkCells)
        } else if s == "SAI_QUEUE_STAT_DROPPED_TRIM_PACKETS"@ {
            Some(Self::DroppedTrimPackets)
        } else if s == "SAI_QUEUE_STAT_TX_TRIM_PACKETS"@ {
            Some(Self::TxTrimPackets)
        } else if s == "SAI_QUEUE_STAT_CUSTOM_RANGE_BASE"@ {
            Some(Self::CustomRangeBase)
        } else {
            None
        }
    }

    /// Each C name leads back to its own statistic: no two statistics share
    /// a name.
    #[verifier::rlimit(100)]
    pub proof fn lemma_c_name_lookup(v: Self)
        ensures
            Self::spec_from_c_name(v.spec_c_name()) == Some(v),
    {
        reveal_strlit("SAI_QUEUE_STAT_PACKETS");
        assert("SAI_QUEUE_STAT_PACKETS"@.len() == 22);
        reveal_strlit("SAI_QUEUE_STAT_BYTES");
        assert("SAI_QUEUE_STAT_BYTES"@.len() == 20);
        reveal_strlit("SAI_QUEUE_STAT_DROPPED_PACKETS");
        assert("SAI_QUEUE_STAT_DROPPED_PACKETS"@.len() == 30);
        assert("SAI_QUEUE_STAT_DROPPED_PACKETS"@[15] == 'D');
        reveal_strlit("SAI_QUEUE_STAT_DROPPED_BYTES");
        assert("SAI_QUEUE_STAT_DROPPED_BYTES"@.len() == 28);
        assert("SAI_QUEUE_STAT_DROPPED_BYTES"@[15] == 'D');
        reveal_strlit("SAI_QUEUE_STAT_GREEN_PACKETS");
        assert("SAI_QUEUE_STAT_GREEN_PACKETS"@.len() == 28);
        assert("SAI_QUEUE_STAT_GREEN_PACKETS"@[15] == 'G');
        reveal_strlit("SAI_QUEUE_STAT_GREEN_BYTES");
        assert("SAI_QUEUE_STAT_GREEN_BYTES"@.len() == 26);
        assert("SAI_QUEUE_STAT_GREEN_BYTES"@[15] == 'G');
        reveal_strlit("SAI_QUEUE_STAT_GREEN_DROPPED_PACKETS");
        assert("SAI_QUEUE_STAT_GREEN_DROPPED_PACKETS"@.len() == 36);
        assert("SAI_QUEUE_STAT_GREEN_DROPPED_PACKETS"@[15] == 'G');
        reveal_strlit("SAI_QUEUE_STAT_GREEN_DROPPED_BYTES");
        assert("SAI_QUEUE_STAT_GREEN_DROPPED_BYTES"@.len() == 34);
        assert("SAI_QUEUE_STAT_GREEN_DROPPED_BYTES"@[15] == 'G');
        reveal_strlit("SAI_QUEUE_STAT_YELLOW_PACKETS");
        assert("SAI_QUEUE_STAT_YELLOW_PACKETS"@.len() == 29);
        reveal_strlit("SAI_QUEUE_STAT_YELLOW_BYTES");
        assert("SAI_QUEUE_STAT_YELLOW_BYTES"@.len() == 27);
        assert("SAI_QUEUE_STAT_YELLOW_BYTES"@[15] == 'Y');
        reveal_strlit("SAI_QUEUE_STAT_YELLOW_DROPPED_PACKETS");
        assert("SAI_QUEUE_STAT_YELLOW_DROPPED_PACKETS"@.len() == 37);
        assert("SAI_QUEUE_STAT_YELLOW_DROPPED_PACKETS"@[15] == 'Y');
        reveal_strlit("SAI_QUEUE_STAT_YELLOW_DROPPED_BYTES");
        assert("SAI_QUEUE_STAT_YELLOW_DROPPED_BYTES"@.len() == 35);
        assert("SAI_QUEUE_STAT_YELLOW_DROPPED_BYTES"@[15] == 'Y');
        reveal_strlit("SAI_QUEUE_STAT_RED_PACKETS");
        assert("SAI_QUEUE_STAT_RED_PACKETS"@.len() == 26);
        assert("SAI_QUEUE_STAT_RED_PACKETS"@[15] == 'R');
        reveal_strlit("SAI_QUEUE_STAT_RED_BYTES");
        assert("SAI_QUEUE_STAT_RED_BYTES"@.len() == 24);
        reveal_strlit("SAI_QUEUE_STAT_RED_DROPPED_PACKETS");
        assert("SAI_QUEUE_STAT_RED_DROPPED_PACKETS"@.len() == 34);
        assert("SAI_QUEUE_STAT_RED_DROPPED_PACKETS"@[15] == 'R');
        reveal_strlit("SAI_QUEUE_STAT_RED_DROPPED_BYTES");
        assert("SAI_QUEUE_STAT_RED_DROPPED_BYTES"@.len() == 32);
        assert("SAI_QUEUE_STAT_RED_DROPPED_BYTES"@[15] == 'R');
        reveal_strlit("SAI_QUEUE_STAT_GREEN_WRED_DROPPED_PACKETS");
        assert("SAI_QUEUE_STAT_GREEN_WRED_DROPPED_PACKETS"@.len() == 41);
        reveal_strlit("SAI_QUEUE_STAT_GREEN_WRED_DROPPED_BYTES");
        assert("SAI_QUEUE_STAT_GREEN_WRED_DROPPED_BYTES"@.len() == 39);
        assert("SAI_QUEUE_STAT_GREEN_WRED_DROPPED_BYTES"@[15] == 'G');
        reveal_strlit("SAI_QUEUE_STAT_YELLOW_WRED_DROPPED_PACKETS");
        assert("SAI_QUEUE_STAT_YELLOW_WRED_DROPPED_PACKETS"@.len() == 42);
        assert("SAI_QUEUE_STAT_YELLOW_WRED_DROPPED_PACKETS"@[15] == 'Y');
        reveal_strlit("SAI_QUEUE_STAT_YELLOW_WRED_DROPPED_BYTES");
        assert("SAI_QUEUE_STAT_YELLOW_WRED_DROPPED_BYTES"@.len() == 40);
        assert("SAI_QUEUE_STAT_YELLOW_WRED_DROPPED_BYTES"@[15] == 'Y');
        reveal_strlit("SAI_QUEUE_STAT_RED_WRED_DROPPED_PACKETS");
        assert("SAI_QUEUE_STAT_RED_WRED_DROPPED_PACKETS"@.len() == 39);
        assert("SAI_QUEUE_STAT_RED_WRED_DROPPED_PACKETS"@[15] == 'R');
        reveal_strlit("SAI_QUEUE_STAT_RED_WRED_DROPPED_BYTES");
        assert("SAI_QUEUE_STAT_RED_WRED_DROPPED_BYTES"@.len() == 37);
        assert("SAI_QUEUE_STAT_RED_WRED_DROPPED_BYTES"@[15] == 'R');
        reveal_strlit("SAI_QUEUE_STAT_WRED_DROPPED_PACKETS");
        assert("SAI_QUEUE_STAT_WRED_DROPPED_PACKETS"@.len() == 35);
        assert("SAI_QUEUE_STAT_WRED_DROPPED_PACKETS"@[15] == 'W');
        reveal_strlit("SAI_QUEUE_STAT_WRED_DROPPED_BYTES");
        assert("SAI_QUEUE_STAT_WRED_DROPPED_BYTES"@.len() == 33);
        assert("SAI_QUEUE_STAT_WRED_DROPPED_BYTES"@[15] == 'W');
        reveal_strlit("SAI_QUEUE_STAT_CURR_OCCUPANCY_BYTES");
        assert("SAI_QUEUE_STAT_CURR_OCCUPANCY_BYTES"@.len() == 35);
        assert("SAI_QUEUE_STAT_CURR_OCCUPANCY_BYTES"@[15] == 'C');
        assert("SAI_QUEUE_STAT_CURR_OCCUPANCY_BYTES"@[30] == 'B');
        reveal_strlit("SAI_QUEUE_STAT_WATERMARK_BYTES");
        assert("SAI_QUEUE_STAT_WATERMARK_BYTES"@.len() == 30);
        assert("SAI_QUEUE_STAT_WATERMARK_BYTES"@[15] == 'W');
        assert("SAI_QUEUE_STAT_WATERMARK_BYTES"@[25] == 'B');
        reveal_strlit("SAI_QUEUE_STAT_SHARED_CURR_OCCUPANCY_BYTES");
        assert("SAI_QUEUE_STAT_SHARED_CURR_OCCUPANCY_BYTES"@.len() == 42);
        assert("SAI_QUEUE_STAT_SHARED_CURR_OCCUPANCY_BYTES"@[15] == 'S');
        assert("SAI_QUEUE_STAT_SHARED_CURR_OCCUPANCY_BYTES"@[37] == 'B');
        reveal_strlit("SAI_QUEUE_STAT_SHARED_WATERMARK_BYTES");
        assert("SAI_QUEUE_STAT_SHARED_WATERMARK_BYTES"@.len() == 37);
        assert("SAI_QUEUE_STAT_SHARED_WATERMARK_BYTES"@[15] == 'S');
        assert("SAI_QUEUE_STAT_SHARED_WATERMARK_BYTES"@[32] == 'B');
        reveal_strlit("SAI_QUEUE_STAT_GREEN_WRED_ECN_MARKED_PACKETS");
        assert("SAI_QUEUE_STAT_GREEN_WRED_ECN_MARKED_PACKETS"@.len() == 44);
        reveal_strlit("SAI_QUEUE_STAT_GREEN_WRED_ECN_MARKED_BYTES");
        assert("SAI_QUEUE_STAT_GREEN_WRED_ECN_MARKED_BYTES"@.len() == 42);
        assert("SAI_QUEUE_STAT_GREEN_WRED_ECN_MARKED_BYTES"@[15] == 'G');
        reveal_strlit("SAI_QUEUE_STAT_YELLOW_WRED_ECN_MARKED_PACKETS");
        assert("SAI_QUEUE_STAT_YELLOW_WRED_ECN_MARKED_PACKETS"@.len() == 45);
        reveal_strlit("SAI_QUEUE_STAT_YELLOW_WRED_ECN_MARKED_BYTES");
        assert("SAI_QUEUE_STAT_YELLOW_WRED_ECN_MARKED_BYTES"@.len() == 43);
        reveal_strlit("SAI_QUEUE_STAT_RED_WRED_ECN_MARKED_PACKETS");
        assert("SAI_QUEUE_STAT_RED_WRED_ECN_MARKED_PACKETS"@.len() == 42);
        assert("SAI_QUEUE_STAT_RED_WRED_ECN_MARKED_PACKETS"@[15] == 'R');
        reveal_strlit("SAI_QUEUE_STAT_RED_WRED_ECN_MARKED_BYTES");
        assert("SAI_QUEUE_STAT_RED_WRED_ECN_MARKED_BYTES"@.len() == 40);
        assert("SAI_QUEUE_STAT_RED_WRED_ECN_MARKED_BYTES"@[15] == 'R');
        reveal_strlit("SAI_QUEUE_STAT_WRED_ECN_MARKED_PACKETS");
        assert("SAI_QUEUE_STAT_WRED_ECN_MARKED_PACKETS"@.len() == 38);
        reveal_strlit("SAI_QUEUE_STAT_WRED_ECN_MARKED_BYTES");
        assert("SAI_QUEUE_STAT_WRED_ECN_MARKED_BYTES"@.len() == 36);
        assert("SAI_QUEUE_STAT_WRED_ECN_MARKED_BYTES"@[15] == 'W');
        reveal_strlit("SAI_QUEUE_STAT_CURR_OCCUPANCY_LEVEL");
        assert("SAI_QUEUE_STAT_CURR_OCCUPANCY_LEVEL"@.len() == 35);
        assert("SAI_QUEUE_STAT_CURR_OCCUPANCY_LEVEL"@[15] == 'C');
        assert("SAI_QUEUE_STAT_CURR_OCCUPANCY_LEVEL"@[30] == 'L');
        reveal_strlit("SAI_QUEUE_STAT_WATERMARK_LEVEL");
        assert("SAI_QUEUE_STAT_WATERMARK_LEVEL"@.len() == 30);
        assert("SAI_QUEUE_STAT_WATERMARK_LEVEL"@[15] == 'W');
        assert("SAI_QUEUE_STAT_WATERMARK_LEVEL"@[25] == 'L');
        reveal_strlit("SAI_QUEUE_STAT_CREDIT_WD_DELETED_PACKETS");
        assert("SAI_QUEUE_STAT_CREDIT_WD_DELETED_PACKETS"@.len() == 40);
        assert("SAI_QUEUE_STAT_CREDIT_WD_DELETED_PACKETS"@[15] == 'C');
        reveal_strlit("SAI_QUEUE_STAT_DELAY_WATERMARK_NS");
        assert("SAI_QUEUE_STAT_DELAY_WATERMARK_NS"@.len() == 33);
        assert("SAI_QUEUE_STAT_DELAY_WATERMARK_NS"@[15] == 'D');
        reveal_strlit("SAI_QUEUE_STAT_TRIM_PACKETS");
        assert("SAI_QUEUE_STAT_TRIM_PACKETS"@.len() == 27);
        assert("SAI_QUEUE_STAT_TRIM_PACKETS"@[15] == 'T');
        reveal_strlit("SAI_QUEUE_STAT_CURR_OCCUPANCY_CELLS");
        assert("SAI_QUEUE_STAT_CURR_OCCUPANCY_CELLS"@.len() == 35);
        assert("SAI_QUEUE_STAT_CURR_OCCUPANCY_CELLS"@[15] == 'C');
        assert("SAI_QUEUE_STAT_CURR_OCCUPANCY_CELLS"@[30] == 'C');
        reveal_strlit("SAI_QUEUE_STAT_WATERMARK_CELLS");
        assert("SAI_QUEUE_STAT_WATERMARK_CELLS"@.len() == 30);
        assert("SAI_QUEUE_STAT_WATERMARK_CELLS"@[15] == 'W');
        assert("SAI_QUEUE_STAT_WATERMARK_CELLS"@[25] == 'C');
        reveal_strlit("SAI_QUEUE_STAT_SHARED_CURR_OCCUPANCY_CELLS");
        assert("SAI_QUEUE_STAT_SHARED_CURR_OCCUPANCY_CELLS"@.len() == 42);
        assert("SAI_QUEUE_STAT_SHARED_CURR_OCCUPANCY_CELLS"@[15] == 'S');
        assert("SAI_QUEUE_STAT_SHARED_CURR_OCCUPANCY_CELLS"@[37] == 'C');
        reveal_strlit("SAI_QUEUE_STAT_SHARED_WATERMARK_CELLS");
        assert("SAI_QUEUE_STAT_SHARED_WATERMARK_CELLS"@.len() == 37);
        assert("SAI_QUEUE_STAT_SHARED_WATERMARK_CELLS"@[15] == 'S');
        assert("SAI_QUEUE_STAT_SHARED_WATERMARK_CELLS"@[32] == 'C');
        reveal_strlit("SAI_QUEUE_STAT_DROPPED_TRIM_PACKETS");
        assert("SAI_QUEUE_STAT_DROPPED_TRIM_PACKETS"@.len() == 35);
        assert("SAI_QUEUE_STAT_DROPPED_TRIM_PACKETS"@[15] == 'D');
        reveal_strlit("SAI_QUEUE_STAT_TX_TRIM_PACKETS");
        assert("SAI_QUEUE_STAT_TX_TRIM_PACKETS"@.len() == 30);
        assert("SAI_QUEUE_STAT_TX_TRIM_PACKETS"@[15] == 'T');
        reveal_strlit("SAI_QUEUE_STAT_CUSTOM_RANGE_BASE");
        assert("SAI_QUEUE_STAT_CUSTOM_RANGE_BASE"@.len() == 32);
        assert("SAI_QUEUE_STAT_CUSTOM_RANGE_BASE"@[15] == 'C');
    }

    /// Law: statistics with the same C name are the same statistic.
    pub proof fn lemma_c_name_injective(a: Self, b: Self)
        ensures
            a.spec_c_name() == b.spec_c_name() ==> a == b,
    {
        Self::lemma_c_name_lookup(a);
        Self::lemma_c_name_lookup(b);
    }

    /// The value the C enum `sai_queue_stat_t` gives the statistic named `name`, if
    /// it names one.
    pub open spec fn spec_c_enum_value(name: Seq<char>) -> Option<u32> {
        if name == "SAI_QUEUE_STAT_PACKETS"@ {
            Some(0u32)
        } else if name == "SAI_QUEUE_STAT_BYTES"@ {
            Some(1u32)
        } else if name == "SAI_QUEUE_STAT_DROPPED_PACKETS"@ {
            Some(2u32)
        } else if name == "SAI_QUEUE_STAT_DROPPED_BYTES"@ {
            Some(3u32)
        } else if name == "SAI_QUEUE_STAT_GREEN_PACKETS"@ {
            Some(4u32)
        } else if name == "SAI_QUEUE_STAT_GREEN_BYTES"@ {
            Some(5u32)
        } else if name == "SAI_QUEUE_STAT_GREEN_DROPPED_PACKETS"@ {
            Some(6u32)
        } else if name == "SAI_QUEUE_STAT_GREEN_DROPPED_BYTES"@ {
            Some(7u32)
        } else if name == "SAI_QUEUE_STAT_YELLOW_PACKETS"@ {
            Some(8u32)
        } else if name == "SAI_QUEUE_STAT_YELLOW_BYTES"@ {
            Some(9u32)
        } else if name == "SAI_QUEUE_STAT_YELLOW_DROPPED_PACKETS"@ {
            Some(10u32)
        } else if name == "SAI_QUEUE_STAT_YELLOW_DROPPED_BYTES"@ {
            Some(11u32)
        } else if name == "SAI_QUEUE_STAT_RED_PACKETS"@ {
            Some(12u32)
        } else if name == "SAI_QUEUE_STAT_RED_BYTES"@ {
            Some(13u32)
        } else if name == "SAI_QUEUE_STAT_RED_DROPPED_PACKETS"@ {
            Some(14u32)
        } else if name == "SAI_QUEUE_STAT_RED_DROPPED_BYTES"@ {
            Some(15u32)
        } else if name == "SAI_QUEUE_STAT_GREEN_WRED_DROPPED_PACKETS"@ {
            Some(16u32)
        } else if name == "SAI_QUEUE_STAT_GREEN_WRED_DROPPED_BYTES"@ {
            Some(17u32)
        } else if name == "SAI_QUEUE_STAT_YELLOW_WRED_DROPPED_PACKETS"@ {
            Some(18u32)
        } else if name == "SAI_QUEUE_STAT_YELLOW_WRED_DROPPED_BYTES"@ {
            Some(19u32)
        } else if name == "SAI_QUEUE_STAT_RED_WRED_DROPPED_PACKETS"@ {
            Some(20u32)
        } else if name == "SAI_QUEUE_STAT_RED_WRED_DROPPED_BYTES"@ {
            Some(21u32)
        } else if name == "SAI_QUEUE_STAT_WRED_DROPPED_PACKETS"@ {
            Some(22u32)
        } else if name == "SAI_QUEUE_STAT_WRED_DROPPED_BYTES"@ {
            Some(23u32)
        } else if name == "SAI_QUEUE_STAT_CURR_OCCUPANCY_BYTES"@ {
            Some(24u32)
        } else if name == "SAI_QUEUE_STAT_WATERMARK_BYTES"@ {
            Some(25u32)
        } else if name == "SAI_QUEUE_STAT_SHARED_CURR_OCCUPANCY_BYTES"@ {
            Some(26u32)
        } else if name == "SAI_QUEUE_STAT_SHARED_WATERMARK_BYTES"@ {
            Some(27u32)
        } else if name == "SAI_QUEUE_STAT_GREEN_WRED_ECN_MARKED_PACKETS"@ {
            Some(28u32)
        } else if name == "SAI_QUEUE_STAT_GREEN_WRED_ECN_MARKED_BYTES"@ {
            Some(29u32)
        } else if name == "SAI_QUEUE_STAT_YELLOW_WRED_ECN_MARKED_PACKETS"@ {
            Some(30u32)
        } else if name == "SAI_QUEUE_STAT_YELLOW_WRED_ECN_MARKED_BYTES"@ {
            Some(31u32)
        } else if name == "SAI_QUEUE_STAT_RED_WRED_ECN_MARKED_PACKETS"@ {
            Some(32u32)
        } else if name == "SAI_QUEUE_STAT_RED_WRED_ECN_MARKED_BYTES"@ {
            Some(33u32)
        } else if name == "SAI_QUEUE_STAT_WRED_ECN_MARKED_PACKETS"@ {
            Some(34u32)
        } else if name == "SAI_QUEUE_STAT_WRED_ECN_MARKED_BYTES"@ {
            Some(35u32)
        } else if name == "SAI_QUEUE_STAT_CURR_OCCUPANCY_LEVEL"@ {
            Some(36u32)
        } else if name == "SAI_QUEUE_STAT_WATERMARK_LEVEL"@ {
            Some(37u32)
        } else if name == "SAI_QUEUE_STAT_CREDIT_WD_DELETED_PACKETS"@ {
            Some(38u32)
        } else if name == "SAI_QUEUE_STAT_DELAY_WATERMARK_NS"@ {
            Some(39u32)
        } else if name == "SAI_QUEUE_STAT_TRIM_PACKETS"@ {
            Some(40u32)
        } else if name == "SAI_QUEUE_STAT_CURR_OCCUPANCY_CELLS"@ {
            Some(41u32)
        } else if name == "SAI_QUEUE_STAT_WATERMARK_CELLS"@ {
            Some(42u32)
        } else if name == "SAI_QUEUE_STAT_SHARED_CURR_OCCUPANCY_CELLS"@ {
            Some(43u32)
        } else if name == "SAI_QUEUE_STAT_SHARED_WATERMARK_CELLS"@ {
            Some(44u32)
        } else if name == "SAI_QUEUE_STAT_DROPPED_TRIM_PACKETS"@ {
            Some(45u32)
        } else if name == "SAI_QUEUE_STAT_TX_TRIM_PACKETS"@ {
            Some(46u32)
        } else if name == "SAI_QUEUE_STAT_CUSTOM_RANGE_BASE"@ {
            Some(268435456u32)
        } else {
            None
        }
    }

    /// Law: every statistic has the value the C enum `sai_queue_stat_t` gives its
    /// name.
    #[verifier::rlimit(100)]
    pub proof fn lemma_values_follow_c_enum(v: Self)
        ensures
            Self::spec_c_enum_value(v.spec_c_name()) == Some(v.spec_to_u32()),
    {
        reveal_strlit("SAI_QUEUE_STAT_PACKETS");
        assert("SAI_QUEUE_STAT_PACKETS"@.len() == 22);
        reveal_strlit("SAI_QUEUE_STAT_BYTES");
        assert("SAI_QUEUE_STAT_BYTES"@.len() == 20);
        reveal_strlit("SAI_QUEUE_STAT_DROPPED_PACKETS");
        assert("SAI_QUEUE_STAT_DROPPED_PACKETS"@.len() == 30);
        assert("SAI_QUEUE_STAT_DROPPED_PACKETS"@[15] == 'D');
        reveal_strlit("SAI_QUEUE_STAT_DROPPED_BYTES");
        assert("SAI_QUEUE_STAT_DROPPED_BYTES"@.len() == 28);
        assert("SAI_QUEUE_STAT_DROPPED_BYTES"@[15] == 'D');
        reveal_strlit("SAI_QUEUE_STAT_GREEN_PACKETS");
        assert("SAI_QUEUE_STAT_GREEN_PACKETS"@.len() == 28);
        assert("SAI_QUEUE_STAT_GREEN_PACKETS"@[15] == 'G');
        reveal_strlit("SAI_QUEUE_STAT_GREEN_BYTES");
        assert("SAI_QUEUE_STAT_GREEN_BYTES"@.len() == 26);
        assert("SAI_QUEUE_STAT_GREEN_BYTES"@[15] == 'G');
        reveal_strlit("SAI_QUEUE_STAT_GREEN_DROPPED_PACKETS");
        assert("SAI_QUEUE_STAT_GREEN_DROPPED_PACKETS"@.len() == 36);
        assert("SAI_QUEUE_STAT_GREEN_DROPPED_PACKETS"@[15] == 'G');
        reveal_strlit("SAI_QUEUE_STAT_GREEN_DROPPED_BYTES");
        assert("SAI_QUEUE_STAT_GREEN_DROPPED_BYTES"@.len() == 34);
        assert("SAI_QUEUE_STAT_GREEN_DROPPED_BYTES"@[15] == 'G');
        reveal_strlit("SAI_QUEUE_STAT_YELLOW_PACKETS");
        assert("SAI_QUEUE_STAT_YELLOW_PACKETS"@.len() == 29);
        reveal_strlit("SAI_QUEUE_STAT_YELLOW_BYTES");
        assert("SAI_QUEUE_STAT_YELLOW_BYTES"@.len() == 27);
        assert("SAI_QUEUE_STAT_YELLOW_BYTES"@[15] == 'Y');
        reveal_strlit("SAI_QUEUE_STAT_YELLOW_DROPPED_PACKETS");
        assert("SAI_QUEUE_STAT_YELLOW_DROPPED_PACKETS"@.len() == 37);
        assert("SAI_QUEUE_STAT_YELLOW_DROPPED_PACKETS"@[15] == 'Y');
        reveal_strlit("SAI_QUEUE_STAT_YELLOW_DROPPED_BYTES");
        assert("SAI_QUEUE_STAT_YELLOW_DROPPED_BYTES"@.len() == 35);
        assert("SAI_QUEUE_STAT_YELLOW_DROPPED_BYTES"@[15] == 'Y');
        reveal_strlit("SAI_QUEUE_STAT_RED_PACKETS");
        assert("SAI_QUEUE_STAT_RED_PACKETS"@.len() == 26);
        assert("SAI_QUEUE_STAT_RED_PACKETS"@[15] == 'R');
        reveal_strlit("SAI_QUEUE_STAT_RED_BYTES");
        assert("SAI_QUEUE_STAT_RED_BYTES"@.len() == 24);
        reveal_strlit("SAI_QUEUE_STAT_RED_DROPPED_PACKETS");
        assert("SAI_QUEUE_STAT_RED_DROPPED_PACKETS"@.len() == 34);
        assert("SAI_QUEUE_STAT_RED_DROPPED_PACKETS"@[15] == 'R');
        reveal_strlit("SAI_QUEUE_STAT_RED_DROPPED_BYTES");
        assert("SAI_QUEUE_STAT_RED_DROPPED_BYTES"@.len() == 32);
        assert("SAI_QUEUE_STAT_RED_DROPPED_BYTES"@[15] == 'R');
        reveal_strlit("SAI_QUEUE_STAT_GREEN_WRED_DROPPED_PACKETS");
        assert("SAI_QUEUE_STAT_GREEN_WRED_DROPPED_PACKETS"@.len() == 41);
        reveal_strlit("SAI_QUEUE_STAT_GREEN_WRED_DROPPED_BYTES");
        assert("SAI_QUEUE_STAT_GREEN_WRED_DROPPED_BYTES"@.len() == 39);
        assert("SAI_QUEUE_STAT_GREEN_WRED_DROPPED_BYTES"@[15] == 'G');
        reveal_strlit("SAI_QUEUE_STAT_YELLOW_WRED_DROPPED_PACKETS");
        assert("SAI_QUEUE_STAT_YELLOW_WRED_DROPPED_PACKETS"@.len() == 42);
        assert("SAI_QUEUE_STAT_YELLOW_WRED_DROPPED_PACKETS"@[15] == 'Y');
        reveal_strlit("SAI_QUEUE_STAT_YELLOW_WRED_DROPPED_BYTES");
        assert("SAI_QUEUE_STAT_YELLOW_WRED_DROPPED_BYTES"@.len() == 40);
        assert("SAI_QUEUE_STAT_YELLOW_WRED_DROPPED_BYTES"@[15] == 'Y');
        reveal_strlit("SAI_QUEUE_STAT_RED_WRED_DROPPED_PACKETS");
        assert("SAI_QUEUE_STAT_RED_WRED_DROPPED_PACKETS"@.len() == 39);
        assert("SAI_QUEUE_STAT_RED_WRED_DROPPED_PACKETS"@[15] == 'R');
        reveal_strlit("SAI_QUEUE_STAT_RED_WRED_DROPPED_BYTES");
        assert("SAI_QUEUE_STAT_RED_WRED_DROPPED_BYTES"@.len() == 37);
        assert("SAI_QUEUE_STAT_RED_WRED_DROPPED_BYTES"@[15] == 'R');
        reveal_strlit("SAI_QUEUE_STAT_WRED_DROPPED_PACKETS");
        assert("SAI_QUEUE_STAT_WRED_DROPPED_PACKETS"@.len() == 35);
        assert("SAI_QUEUE_STAT_WRED_DROPPED_PACKETS"@[15] == 'W');
        reveal_strlit("SAI_QUEUE_STAT_WRED_DROPPED_BYTES");
        assert("SAI_QUEUE_STAT_WRED_DROPPED_BYTES"@.len() == 33);
        assert("SAI_QUEUE_STAT_WRED_DROPPED_BYTES"@[15] == 'W');
        reveal_strlit("SAI_QUEUE_STAT_CURR_OCCUPANCY_BYTES");
        assert("SAI_QUEUE_STAT_CURR_OCCUPANCY_BYTES"@.len() == 35);
        assert("SAI_QUEUE_STAT_CURR_OCCUPANCY_BYTES"@[15] == 'C');
        assert("SAI_QUEUE_STAT_CURR_OCCUPANCY_BYTES"@[30] == 'B');
        reveal_strlit("SAI_QUEUE_STAT_WATERMARK_BYTES");
        assert("SAI_QUEUE_STAT_WATERMARK_BYTES"@.len() == 30);
        assert("SAI_QUEUE_STAT_WATERMARK_BYTES"@[15] == 'W');
        assert("SAI_QUEUE_STAT_WATERMARK_BYTES"@[25] == 'B');
        reveal_strlit("SAI_QUEUE_STAT_SHARED_CURR_OCCUPANCY_BYTES");
        assert("SAI_QUEUE_STAT_SHARED_CURR_OCCUPANCY_BYTES"@.len() == 42);
        assert("SAI_QUEUE_STAT_SHARED_CURR_OCCUPANCY_BYTES"@[15] == 'S');
        assert("SAI_QUEUE_STAT_SHARED_CURR_OCCUPANCY_BYTES"@[37] == 'B');
        reveal_strlit("SAI_QUEUE_STAT_SHARED_WATERMARK_BYTES");
        assert("SAI_QUEUE_STAT_SHARED_WATERMARK_BYTES"@.len() == 37);
        assert("SAI_QUEUE_STAT_SHARED_WATERMARK_BYTES"@[15] == 'S');
        assert("SAI_QUEUE_STAT_SHARED_WATERMARK_BYTES"@[32] == 'B');
        reveal_strlit("SAI_QUEUE_STAT_GREEN_WRED_ECN_MARKED_PACKETS");
        assert("SAI_QUEUE_STAT_GREEN_WRED_ECN_MARKED_PACKETS"@.len() == 44);
        reveal_strlit("SAI_QUEUE_STAT_GREEN_WRED_ECN_MARKED_BYTES");
        assert("SAI_QUEUE_STAT_GREEN_WRED_ECN_MARKED_BYTES"@.len() == 42);
        assert("SAI_QUEUE_STAT_GREEN_WRED_ECN_MARKED_BYTES"@[15] == 'G');
        reveal_strlit("SAI_QUEUE_STAT_YELLOW_WRED_ECN_MARKED_PACKETS");
        assert("SAI_QUEUE_STAT_YELLOW_WRED_ECN_MARKED_PACKETS"@.len() == 45);
        reveal_strlit("SAI_QUEUE_STAT_YELLOW_WRED_ECN_MARKED_BYTES");
        assert("SAI_QUEUE_STAT_YELLOW_WRED_ECN_MARKED_BYTES"@.len() == 43);
        reveal_strlit("SAI_QUEUE_STAT_RED_WRED_ECN_MARKED_PACKETS");
        assert("SAI_QUEUE_STAT_RED_WRED_ECN_MARKED_PACKETS"@.len() == 42);
        assert("SAI_QUEUE_STAT_RED_WRED_ECN_MARKED_PACKETS"@[15] == 'R');
        reveal_strlit("SAI_QUEUE_STAT_RED_WRED_ECN_MARKED_BYTES");
        assert("SAI_QUEUE_STAT_RED_WRED_ECN_MARKED_BYTES"@.len() == 40);
        assert("SAI_QUEUE_STAT_RED_WRED_ECN_MARKED_BYTES"@[15] == 'R');
        reveal_strlit("SAI_QUEUE_STAT_WRED_ECN_MARKED_PACKETS");
        assert("SAI_QUEUE_STAT_WRED_ECN_MARKED_PACKETS"@.len() == 38);
        reveal_strlit("SAI_QUEUE_STAT_WRED_ECN_MARKED_BYTES");
        assert("SAI_QUEUE_STAT_WRED_ECN_MARKED_BYTES"@.len() == 36);
        assert("SAI_QUEUE_STAT_WRED_ECN_MARKED_BYTES"@[15] == 'W');
        reveal_strlit("SAI_QUEUE_STAT_CURR_OCCUPANCY_LEVEL");
        assert("SAI_QUEUE_STAT_CURR_OCCUPANCY_LEVEL"@.len() == 35);
        assert("SAI_QUEUE_STAT_CURR_OCCUPANCY_LEVEL"@[15] == 'C');
        assert("SAI_QUEUE_STAT_CURR_OCCUPANCY_LEVEL"@[30] == 'L');
        reveal_strlit("SAI_QUEUE_STAT_WATERMARK_LEVEL");
        assert("SAI_QUEUE_STAT_WATERMARK_LEVEL"@.len() == 30);
        assert("SAI_QUEUE_STAT_WATERMARK_LEVEL"@[15] == 'W');
        assert("SAI_QUEUE_STAT_WATERMARK_LEVEL"@[25] == 'L');
        reveal_strlit("SAI_QUEUE_STAT_CREDIT_WD_DELETED_PACKETS");
        assert("SAI_QUEUE_STAT_CREDIT_WD_DELETED_PACKETS"@.len() == 40);
        assert("SAI_QUEUE_STAT_CREDIT_WD_DELETED_PACKETS"@[15] == 'C');
        reveal_strlit("SAI_QUEUE_STAT_DELAY_WATERMARK_NS");
        assert("SAI_QUEUE_STAT_DELAY_WATERMARK_NS"@.len() == 33);
        assert("SAI_QUEUE_STAT_DELAY_WATERMARK_NS"@[15] == 'D');
        reveal_strlit("SAI_QUEUE_STAT_TRIM_PACKETS");
        assert("SAI_QUEUE_STAT_TRIM_PACKETS"@.len() == 27);
        assert("SAI_QUEUE_STAT_TRIM_PACKETS"@[15] == 'T');
        reveal_strlit("SAI_QUEUE_STAT_CURR_OCCUPANCY_CELLS");
        assert("SAI_QUEUE_STAT_CURR_OCCUPANCY_CELLS"@.len() == 35);
        assert("SAI_QUEUE_STAT_CURR_OCCUPANCY_CELLS"@[15] == 'C');
        assert("SAI_QUEUE_STAT_CURR_OCCUPANCY_CELLS"@[30] == 'C');
        reveal_strlit("SAI_QUEUE_STAT_WATERMARK_CELLS");
        assert("SAI_QUEUE_STAT_WATERMARK_CELLS"@.len() == 30);
        assert("SAI_QUEUE_STAT_WATERMARK_CELLS"@[15] == 'W');
        assert("SAI_QUEUE_STAT_WATERMARK_CELLS"@[25] == 'C');
        reveal_strlit("SAI_QUEUE_STAT_SHARED_CURR_OCCUPANCY_CELLS");
        assert("SAI_QUEUE_STAT_SHARED_CURR_OCCUPANCY_CELLS"@.len() == 42);
        assert("SAI_QUEUE_STAT_SHARED_CURR_OCCUPANCY_CELLS"@[15] == 'S');
        assert("SAI_QUEUE_STAT_SHARED_CURR_OCCUPANCY_CELLS"@[37] == 'C');
        reveal_strlit("SAI_QUEUE_STAT_SHARED_WATERMARK_CELLS");
        assert("SAI_QUEUE_STAT_SHARED_WATERMARK_CELLS"@.len() == 37);
        assert("SAI_QUEUE_STAT_SHARED_WATERMARK_CELLS"@[15] == 'S');
        assert("SAI_QUEUE_STAT_SHARED_WATERMARK_CELLS"@[32] == 'C');
        reveal_strlit("SAI_QUEUE_STAT_DROPPED_TRIM_PACKETS");
        assert("SAI_QUEUE_STAT_DROPPED_TRIM_PACKETS"@.len() == 35);
        assert("SAI_QUEUE_STAT_DROPPED_TRIM_PACKETS"@[15] == 'D');
        reveal_strlit("SAI_QUEUE_STAT_TX_TRIM_PACKETS");
        assert("SAI_QUEUE_STAT_TX_TRIM_PACKETS"@.len() == 30);
        assert("SAI_QUEUE_STAT_TX_TRIM_PACKETS"@[15] == 'T');
        reveal_strlit("SAI_QUEUE_STAT_CUSTOM_RANGE_BASE");
        assert("SAI_QUEUE_STAT_CUSTOM_RANGE_BASE"@.len() == 32);
        assert("SAI_QUEUE_STAT_CUSTOM_RANGE_BASE"@[15] == 'C');
    }

    /// Law: a value converts to the statistic that the C enum `sai_queue_stat_t`
    /// gives that value.
    pub proof fn lemma_from_u32_follows_c_enum(x: u32)
        ensures
            Self::spec_from_u32(x) matches Some(w) ==> Self::spec_c_enum_value(w.spec_c_name()) == Some(x),
    {
        Self::lemma_from_u32_inverse(x);
        if let Some(w) = Self::spec_from_u32(x) {
            Self::lemma_values_follow_c_enum(w);
        }
    }

    /// Statistic at position `i` of the C enum.
    pub open spec fn spec_at(i: int) -> Self {
        if i <= 0 {
            Self::Packets
        } else if i == 1 {
            Self::Bytes
        } else if i == 2 {
            Self::DroppedPackets
        } else if i == 3 {
            Self::DroppedBytes
        } else if i == 4 {
            Self::GreenPackets
        } else if i == 5 {
            Self::GreenBytes
        } else if i == 6 {
            Self::GreenDroppedPackets
        } else if i == 7 {
            Self::GreenDroppedBytes
        } else if i == 8 {
            Self::YellowPackets
        } else if i == 9 {
            Self::YellowBytes
        } else if i == 10 {
            Self::YellowDroppedPackets
        } else if i == 11 {
            Self::YellowDroppedBytes
        } else if i == 12 {
            Self::RedPackets
        } else if i == 13 {
            Self::RedBytes
        } else if i == 14 {
            Self::RedDroppedPackets
        } else if i == 15 {
            Self::RedDroppedBytes
        } else if i == 16 {
            Self::GreenWredDroppedPackets
        } else if i == 17 {
            Self::GreenWredDroppedBytes
        } else if i == 18 {
            Self::YellowWredDroppedPackets
        } else if i == 19 {
            Self::YellowWredDroppedBytes
        } else if i == 20 {
            Self::RedWredDroppedPackets
        } else if i == 21 {
            Self::RedWredDroppedBytes
        } else if i == 22 {
            Self::WredDroppedPackets
        } else if i == 23 {
            Self::WredDroppedBytes
        } else if i == 24 {
            Self::CurrOccupancyBytes
        } else if i == 25 {
            Self::WatermarkBytes
        } else if i == 26 {
            Self::SharedCurrOccupancyBytes
        } else if i == 27 {
            Self::SharedWatermarkBytes
        } else if i == 28 {
            Self::GreenWredEcnMarkedPackets
        } else if i == 29 {
            Self::GreenWredEcnMarkedBytes
        } else if i == 30 {
            Self::YellowWredEcnMarkedPackets
        } else if i == 31 {
            Self::YellowWredEcnMarkedBytes
        } else if i == 32 {
            Self::RedWredEcnMarkedPackets
        } else if i == 33 {
            Self::RedWredEcnMarkedBytes
        } else if i == 34 {
            Self::WredEcnMarkedPackets
        } else if i == 35 {
            Self::WredEcnMarkedBytes
        } else if i == 36 {
            Self::CurrOccupancyLevel
        } else if i == 37 {
            Self::WatermarkLevel
        } else if i == 38 {
            Self::CreditWdDeletedPackets
        } else if i == 39 {
            Self::DelayWatermarkNs
        } else if i == 40 {
            Self::TrimPackets
        } else if i == 41 {
            Self::CurrOccupancyCells
        } else if i == 42 {
            Self::WatermarkCells
        } else if i == 43 {
            Self::SharedCurrOccupancyCells
        } else if i == 44 {
            Self::SharedWatermarkCells
        } else if i == 45 {
            Self::DroppedTrimPackets
        } else if i == 46 {
            Self::TxTrimPackets
        } else {
            Self::CustomRangeBase
        }
    }

    /// Position of this statistic in the C enum.
    pub open spec fn spec_index(self) -> int {
        match self {
            Self::Packets => 0,
            Self::Bytes => 1,
            Self::DroppedPackets => 2,
            Self::DroppedBytes => 3,
            Self::GreenPackets => 4,
            Self::GreenBytes => 5,
            Self::GreenDroppedPackets => 6,
            Self::GreenDroppedBytes => 7,
            Self::YellowPackets => 8,
            Self::YellowBytes => 9,
            Self::YellowDroppedPackets => 10,
            Self::YellowDroppedBytes => 11,
            Self::RedPackets => 12,
            Self::RedBytes => 13,
            Self::RedDroppedPackets => 14,
            Self::RedDroppedBytes => 15,
            Self::GreenWredDroppedPackets => 16,
            Self::GreenWredDroppedBytes => 17,
            Self::YellowWredDroppedPackets => 18,
            Self::YellowWredDroppedBytes => 19,
            Self::RedWredDroppedPackets => 20,
            Self::RedWredDroppedBytes => 21,
            Self::WredDroppedPackets => 22,
            Self::WredDroppedBytes => 23,
            Self::CurrOccupancyBytes => 24,
            Self::WatermarkBytes => 25,
            Self::SharedCurrOccupancyBytes => 26,
            Self::SharedWatermarkBytes => 27,
            Self::GreenWredEcnMarkedPackets => 28,
            Self::GreenWredEcnMarkedBytes => 29,
            Self::YellowWredEcnMarkedPackets => 30,
            Self::YellowWredEcnMarkedBytes => 31,
            Self::RedWredEcnMarkedPackets => 32,
            Self::RedWredEcnMarkedBytes => 33,
            Self::WredEcnMarkedPackets => 34,
            Self::WredEcnMarkedBytes => 35,
            Self::CurrOccupancyLevel => 36,
            Self::WatermarkLevel => 37,
            Self::CreditWdDeletedPackets => 38,
            Self::DelayWatermarkNs => 39,
            Self::TrimPackets => 40,
            Self::CurrOccupancyCells => 41,
            Self::WatermarkCells => 42,
            Self::SharedCurrOccupancyCells => 43,
            Self::SharedWatermarkCells => 44,
            Self::DroppedTrimPackets => 45,
            Self::TxTrimPackets => 46,
            Self::CustomRangeBase => 47,
        }
    }

    /// Statistic with value `value` in the C enum, if any.
    pub fn from_u32(value: u32) -> (r: Option<Self>)
        ensures
            r == Self::spec_from_u32(value),
    {
        match value {
            0x00000000 => Some(Self::Packets),
            0x00000001 => Some(Self::Bytes),
            0x00000002 => Some(Self::DroppedPackets),
            0x00000003 => Some(Self::DroppedBytes),
            0x00000004 => Some(Self::GreenPackets),
            0x00000005 => Some(Self::GreenBytes),
            0x00000006 => Some(Self::GreenDroppedPackets),
            0x00000007 => Some(Self::GreenDroppedBytes),
            0x00000008 => Some(Self::YellowPackets),
            0x00000009 => Some(Self::YellowBytes),
            0x0000000a => Some(Self::YellowDroppedPackets),
            0x0000000b => Some(Self::YellowDroppedBytes),
            0x0000000c => Some(Self::RedPackets),
            0x0000000d => Some(Self::RedBytes),
            0x0000000e => Some(Self::RedDroppedPackets),
            0x0000000f => Some(Self::RedDroppedBytes),
            0x00000010 => Some(Self::GreenWredDroppedPackets),
            0x00000011 => Some(Self::GreenWredDroppedBytes),
            0x00000012 => Some(Self::YellowWredDroppedPackets),
            0x00000013 => Some(Self::YellowWredDroppedBytes),
            0x00000014 => Some(Self::RedWredDroppedPackets),
            0x00000015 => Some(Self::RedWredDroppedBytes),
            0x00000016 => Some(Self::WredDroppedPackets),
            0x00000017 => Some(Self::WredDroppedBytes),
            0x00000018 => Some(Self::CurrOccupancyBytes),
            0x00000019 => Some(Self::WatermarkBytes),
            0x0000001a => Some(Self::SharedCurrOccupancyBytes),
            0x0000001b => Some(Self::SharedWatermarkBytes),
            0x0000001c => Some(Self::GreenWredEcnMarkedPackets),
            0x0000001d => Some(Self::GreenWredEcnMarkedBytes),
            0x0000001e => Some(Self::YellowWredEcnMarkedPackets),
            0x0000001f => Some(Self::YellowWredEcnMarkedBytes),
            0x00000020 => Some(Self::RedWredEcnMarkedPackets),
            0x00000021 => Some(Self::RedWredEcnMarkedBytes),
            0x00000022 => Some(Self::WredEcnMarkedPackets),
            0x00000023 => Some(Self::WredEcnMarkedBytes),
            0x00000024 => Some(Self::CurrOccupancyLevel),
            0x00000025 => Some(Self::WatermarkLevel),
            0x00000026 => Some(Self::CreditWdDeletedPackets),
            0x00000027 => Some(Self::DelayWatermarkNs),
            0x00000028 => Some(Self::TrimPackets),
            0x00000029 => Some(Self::CurrOccupancyCells),
            0x0000002a => Some(Self::WatermarkCells),
            0x0000002b => Some(Self::SharedCurrOccupancyCells),
            0x0000002c => Some(Self::SharedWatermarkCells),
            0x0000002d => Some(Self::DroppedTrimPackets),
            0x0000002e => Some(Self::TxTrimPackets),
            0x10000000 => Some(Self::CustomRangeBase),
            _ => None,
        }
    }

    /// Value of this statistic in the C enum.
    pub fn to_u32(self) -> (r: u32)
        ensures
            r == self.spec_to_u32(),
    {
        match self {
            Self::Packets => 0x00000000,
            Self::Bytes => 0x00000001,
            Self::DroppedPackets => 0x00000002,
            Self::DroppedBytes => 0x00000003,
            Self::GreenPackets => 0x00000004,
            Self::GreenBytes => 0x00000005,
            Self::GreenDroppedPackets => 0x00000006,
            Self::GreenDroppedBytes => 0x00000007,
            Self::YellowPackets => 0x00000008,
            Self::YellowBytes => 0x00000009,
            Self::YellowDroppedPackets => 0x0000000a,
            Self::YellowDroppedBytes => 0x0000000b,
            Self::RedPackets => 0x0000000c,
            Self::RedBytes => 0x0000000d,
            Self::RedDroppedPackets => 0x0000000e,
            Self::RedDroppedBytes => 0x0000000f,
            Self::GreenWredDroppedPackets => 0x00000010,
            Self::GreenWredDroppedBytes => 0x00000011,
            Self::YellowWredDroppedPackets => 0x00000012,
            Self::YellowWredDroppedBytes => 0x00000013,
            Self::RedWredDroppedPackets => 0x00000014,
            Self::RedWredDroppedBytes => 0x00000015,
            Self::WredDroppedPackets => 0x00000016,
            Self::WredDroppedBytes => 0x00000017,
            Self::CurrOccupancyBytes => 0x00000018,
            Self::WatermarkBytes => 0x00000019,
            Self::SharedCurrOccupancyBytes => 0x0000001a,
            Self::SharedWatermarkBytes => 0x0000001b,
            Self::GreenWredEcnMarkedPackets => 0x0000001c,
            Self::GreenWredEcnMarkedBytes => 0x0000001d,
            Self::YellowWredEcnMarkedPackets => 0x0000001e,
            Self::YellowWredEcnMarkedBytes => 0x0000001f,
            Self::RedWredEcnMarkedPackets => 0x00000020,
            Self::RedWredEcnMarkedBytes => 0x00000021,
            Self::WredEcnMarkedPackets => 0x00000022,
            Self::WredEcnMarkedBytes => 0x00000023,
            Self::CurrOccupancyLevel => 0x00000024,
            Self::WatermarkLevel => 0x00000025,
            Self::CreditWdDeletedPackets => 0x00000026,
            Self::DelayWatermarkNs => 0x00000027,
            Self::TrimPackets => 0x00000028,
            Self::CurrOccupancyCells => 0x00000029,
            Self::WatermarkCells => 0x0000002a,
            Self::SharedCurrOccupancyCells => 0x0000002b,
            Self::SharedWatermarkCells => 0x0000002c,
            Self::DroppedTrimPackets => 0x0000002d,
            Self::TxTrimPackets => 0x0000002e,
            Self::CustomRangeBase => 0x10000000,
        }
    }

    /// Name of this statistic in the C enum.
    pub fn to_c_name(self) -> (r: &'static str)
        ensures
            r@ == self.spec_c_name(),
    {
        match self {
            Self::Packets => "SAI_QUEUE_STAT_PACKETS",
            Self::Bytes => "SAI_QUEUE_STAT_BYTES",
            Self::DroppedPackets => "SAI_QUEUE_STAT_DROPPED_PACKETS",
            Self::DroppedBytes => "SAI_QUEUE_STAT_DROPPED_BYTES",
            Self::GreenPackets => "SAI_QUEUE_STAT_GREEN_PACKETS",
            Self::GreenBytes => "SAI_QUEUE_STAT_GREEN_BYTES",
            Self::GreenDroppedPackets => "SAI_QUEUE_STAT_GREEN_DROPPED_PACKETS",
            Self::GreenDroppedBytes => "SAI_QUEUE_STAT_GREEN_DROPPED_BYTES",
            Self::YellowPackets => "SAI_QUEUE_STAT_YELLOW_PACKETS",
            Self::YellowBytes => "SAI_QUEUE_STAT_YELLOW_BYTES",
            Self::YellowDroppedPackets => "SAI_QUEUE_STAT_YELLOW_DROPPED_PACKETS",
            Self::YellowDroppedBytes => "SAI_QUEUE_STAT_YELLOW_DROPPED_BYTES",
            Self::RedPackets => "SAI_QUEUE_STAT_RED_PACKETS",
            Self::RedBytes => "SAI_QUEUE_STAT_RED_BYTES",
            Self::RedDroppedPackets => "SAI_QUEUE_STAT_RED_DROPPED_PACKETS",
            Self::RedDroppedBytes => "SAI_QUEUE_STAT_RED_DROPPED_BYTES",
            Self::GreenWredDroppedPackets => "SAI_QUEUE_STAT_GREEN_WRED_DROPPED_PACKETS",
            Self::GreenWredDroppedBytes => "SAI_QUEUE_STAT_GREEN_WRED_DROPPED_BYTES",
            Self::YellowWredDroppedPackets => "SAI_QUEUE_STAT_YELLOW_WRED_DROPPED_PACKETS",
            Self::YellowWredDroppedBytes => "SAI_QUEUE_STAT_YELLOW_WRED_DROPPED_BYTES",
            Self::RedWredDroppedPackets => "SAI_QUEUE_STAT_RED_WRED_DROPPED_PACKETS",
            Self::RedWredDroppedBytes => "SAI_QUEUE_STAT_RED_WRED_DROPPED_BYTES",
            Self::WredDroppedPackets => "SAI_QUEUE_STAT_WRED_DROPPED_PACKETS",
            Self::WredDroppedBytes => "SAI_QUEUE_STAT_WRED_DROPPED_BYTES",
            Self::CurrOccupancyBytes => "SAI_QUEUE_STAT_CURR_OCCUPANCY_BYTES",
            Self::WatermarkBytes => "SAI_QUEUE_STAT_WATERMARK_BYTES",
            Self::SharedCurrOccupancyBytes => "SAI_QUEUE_STAT_SHARED_CURR_OCCUPANCY_BYTES",
            Self::SharedWatermarkBytes => "SAI_QUEUE_STAT_SHARED_WATERMARK_BYTES",
            Self::GreenWredEcnMarkedPackets => "SAI_QUEUE_STAT_GREEN_WRED_ECN_MARKED_PACKETS",
            Self::GreenWredEcnMarkedBytes => "SAI_QUEUE_STAT_GREEN_WRED_ECN_MARKED_BYTES",
            Self::YellowWredEcnMarkedPackets => "SAI_QUEUE_STAT_YELLOW_WRED_ECN_MARKED_PACKETS",
            Self::YellowWredEcnMarkedBytes => "SAI_QUEUE_STAT_YELLOW_WRED_ECN_MARKED_BYTES",
            Self::RedWredEcnMarkedPackets => "SAI_QUEUE_STAT_RED_WRED_ECN_MARKED_PACKETS",
            Self::RedWredEcnMarkedBytes => "SAI_QUEUE_STAT_RED_WRED_ECN_MARKED_BYTES",
            Self::WredEcnMarkedPackets => "SAI_QUEUE_STAT_WRED_ECN_MARKED_PACKETS",
            Self::WredEcnMarkedBytes => "SAI_QUEUE_STAT_WRED_ECN_MARKED_BYTES",
            Self::CurrOccupancyLevel => "SAI_QUEUE_STAT_CURR_OCCUPANCY_LEVEL",
            Self::WatermarkLevel => "SAI_QUEUE_STAT_WATERMARK_LEVEL",
            Self::CreditWdDeletedPackets => "SAI_QUEUE_STAT_CREDIT_WD_DELETED_PACKETS",
            Self::DelayWatermarkNs => "SAI_QUEUE_STAT_DELAY_WATERMARK_NS",
            Self::TrimPackets => "SAI_QUEUE_STAT_TRIM_PACKETS",
            Self::CurrOccupancyCells => "SAI_QUEUE_STAT_CURR_OCCUPANCY_CELLS",
            Self::WatermarkCells => "SAI_QUEUE_STAT_WATERMARK_CELLS",
            Self::SharedCurrOccupancyCells => "SAI_QUEUE_STAT_SHARED_CURR_OCCUPANCY_CELLS",
            Self::SharedWatermarkCells => "SAI_QUEUE_STAT_SHARED_WATERMARK_CELLS",
            Self::DroppedTrimPackets => "SAI_QUEUE_STAT_DROPPED_TRIM_PACKETS",
            Self::TxTrimPackets => "SAI_QUEUE_STAT_TX_TRIM_PACKETS",
            Self::CustomRangeBase => "SAI_QUEUE_STAT_CUSTOM_RANGE_BASE",
        }
    }

    /// Statistic at position `i` of the C enum.
    fn at(i: usize) -> (r: Self)
        requires
            i < Self::COUNT,
        ensures
            r == Self::spec_at(i as int),
    {
        match i {
            0 => Self::Packets,
            1 => Self::Bytes,
            2 => Self::DroppedPackets,
            3 => Self::DroppedBytes,
            4 => Self::GreenPackets,
            5 => Self::GreenBytes,
            6 => Self::GreenDroppedPackets,
            7 => Self::GreenDroppedBytes,
            8 => Self::YellowPackets,
            9 => Self::YellowBytes,
            10 => Self::YellowDroppedPackets,
            11 => Self::YellowDroppedBytes,
            12 => Self::RedPackets,
            13 => Self::RedBytes,
            14 => Self::RedDroppedPackets,
            15 => Self::RedDroppedBytes,
            16 => Self::GreenWredDroppedPackets,
            17 => Self::GreenWredDroppedBytes,
            18 => Self::YellowWredDroppedPackets,
            19 => Self::YellowWredDroppedBytes,
            20 => Self::RedWredDroppedPackets,
            21 => Self::RedWredDroppedBytes,
            22 => Self::WredDroppedPackets,
            23 => Self::WredDroppedBytes,
            24 => Self::CurrOccupancyBytes,
            25 => Self::WatermarkBytes,
            26 => Self::SharedCurrOccupancyBytes,
            27 => Self::SharedWatermarkBytes,
            28 => Self::GreenWredEcnMarkedPackets,
            29 => Self::GreenWredEcnMarkedBytes,
            30 => Self::YellowWredEcnMarkedPackets,
            31 => Self::YellowWredEcnMarkedBytes,
            32 => Self::RedWredEcnMarkedPackets,
            33 => Self::RedWredEcnMarkedBytes,
            34 => Self::WredEcnMarkedPackets,
            35 => Self::WredEcnMarkedBytes,
            36 => Self::CurrOccupancyLevel,
            37 => Self::WatermarkLevel,
            38 => Self::CreditWdDeletedPackets,
            39 => Self::DelayWatermarkNs,
            40 => Self::TrimPackets,
            41 => Self::CurrOccupancyCells,
            42 => Self::WatermarkCells,
            43 => Self::SharedCurrOccupancyCells,
            44 => Self::SharedWatermarkCells,
            45 => Self::DroppedTrimPackets,
            46 => Self::TxTrimPackets,
            _ => Self::CustomRangeBase,
        }
    }

    /// Every statistic sits at its position in the C enum.
    pub proof fn lemma_at_index(s: Self)
        ensures
            0 <= s.spec_index() < Self::COUNT,
            Self::spec_at(s.spec_index()) == s,
    {
    }

    /// Law: converting a statistic to its value and back gives the statistic.
    pub proof fn lemma_u32_roundtrip(s: Self)
        ensures
            Self::spec_from_u32(s.spec_to_u32()) == Some(s),
    {
    }

    /// Law: a value converts to a statistic only if that statistic has the value.
    pub proof fn lemma_from_u32_inverse(value: u32)
        ensures
            Self::spec_from_u32(value) matches Some(s) ==> s.spec_to_u32() == value,
    {
    }

    /// Statistic whose C name is `s`.
    pub fn from_c_name(s: &str) -> (r: Result<Self, ()>)
        ensures
            match r {
                Ok(v) => s@ == v.spec_c_name(),
                Err(_) => forall|v: Self| s@ != #[trigger] v.spec_c_name(),
            },
    {
        let mut i: usize = 0;
        while i < Self::COUNT
            invariant
                i <= Self::COUNT,
                forall|j: int| 0 <= j < i ==> s@ != #[trigger] Self::spec_at(j).spec_c_name(),
            decreases Self::COUNT - i,
        {
            let v = Self::at(i);
            if str_eq(s, v.to_c_name()) {
                return Ok(v);
            }
            i = i + 1;
        }
        assert forall|v: Self| s@ != #[trigger] v.spec_c_name() by {
            Self::lemma_at_index(v);
            assert(s@ != Self::spec_at(v.spec_index()).spec_c_name());
        }
        Err(())
    }
}

impl FromStr for SaiQueueStat {
    type Err = ();

    fn from_str(s: &str) -> (r: Result<Self, Self::Err>)
        ensures
            match r {
                Ok(v) => s@ == v.spec_c_name(),
                Err(_) => forall|v: Self| s@ != #[trigger] v.spec_c_name(),
            },
            forall|v: Self| s@ == #[trigger] v.spec_c_name() ==> (r matches Ok(w) && w == v),
    {
        let r = Self::from_c_name(s);
        proof {
            assert forall|v: Self| s@ == #[trigger] v.spec_c_name() implies (r matches Ok(w) && w == v) by {
                Self::lemma_c_name_lookup(v);
                if let Ok(w) = r {
                    Self::lemma_c_name_injective(v, w);
                }
            }
        }
        r
    }
}

} // verus!
