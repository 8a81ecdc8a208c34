//! SAI buffer pool and ingress priority group statistics.
use vstd::prelude::*;
use std::str::FromStr;
use crate::text::str_eq;

verus! {

/// SAI buffer pool statistics
/// (the statistics of `sai_buffer_pool_stat_t`).
#[derive(Debug, Clone, Copy, PartialEq, Eq, Hash, Structural)]
pub enum SaiBufferPoolStat {
    /// Get current pool occupancy in bytes [uint64_t]
    CurrOccupancyBytes,
    /// Get watermark pool occupancy in bytes [uint64_t]
    WatermarkBytes,
    /// Get count of packets dropped in this pool [uint64_t]
    DroppedPackets,
    /// Get/set WRED green dropped packet count [uint64_t]
    GreenWredDroppedPackets,
    /// Get/set WRED green dropped byte count [uint64_t]
    GreenWredDroppedBytes,
    /// Get/set WRED yellow dropped packet count [uint64_t]
    YellowWredDroppedPackets,
    /// Get/set WRED yellow dropped byte count [uint64_t]
    YellowWredDroppedBytes,
    /// Get/set WRED red dropped packet count [uint64_t]
    RedWredDroppedPackets,
    /// Get/set WRED red dropped byte count [uint64_t]
    RedWredDroppedBytes,
    /// Get/set WRED dropped packets count [uint64_t]
    WredDroppedPackets,
    /// Get/set WRED dropped bytes count [uint64_t]
    WredDroppedBytes,
    /// Get/set WRED green marked packet count [uint64_t]
    GreenWredEcnMarkedPackets,
    /// Get/set WRED green marked byte count [uint64_t]
    GreenWredEcnMarkedBytes,
    /// Get/set WRED yellow marked packet count [uint64_t]
    YellowWredEcnMarkedPackets,
    /// Get/set WRED yellow marked byte count [uint64_t]
    YellowWredEcnMarkedBytes,
    /// Get/set WRED red marked packet count [uint64_t]
    RedWredEcnMarkedPackets,
    /// Get/set WRED red marked byte count [uint64_t]
    RedWredEcnMarkedBytes,
    /// Get/set WRED marked packets count [uint64_t]
    WredEcnMarkedPackets,
    /// Get/set WRED marked bytes count [uint64_t]
    WredEcnMarkedBytes,
    /// Get current headroom pool occupancy in bytes [uint64_t]
    XoffRoomCurrOccupancyBytes,
    /// Get headroom pool occupancy in bytes [uint64_t]
    XoffRoomWatermarkBytes,
    /// Get current headroom pool occupancy in cells [uint64_t]
    XoffRoomCurrOccupancyCells,
    /// Get headroom pool occupancy in cells [uint64_t]
    XoffRoomWatermarkCells,
    /// Get current pool occupancy in cells [uint64_t]
    CurrOccupancyCells,
    /// Get watermark pool occupancy in cells [uint64_t]
    WatermarkCells,
    /// Custom range base value
    CustomRangeBase,
}

impl SaiBufferPoolStat {
    /// Number of statistics in the table.
    pub const COUNT: usize = 26;

    /// Value of this statistic in the C enum.
    pub open spec fn spec_to_u32(self) -> u32 {
        match self {
            Self::CurrOccupancyBytes => 0x00000000u32,
            Self::WatermarkBytes => 0x00000001u32,
            Self::DroppedPackets => 0x00000002u32,
            Self::GreenWredDroppedPackets => 0x00000003u32,
            Self::GreenWredDroppedBytes => 0x00000004u32,
            Self::YellowWredDroppedPackets => 0x00000005u32,
            Self::YellowWredDroppedBytes => 0x00000006u32,
            Self::RedWredDroppedPackets => 0x00000007u32,
            Self::RedWredDroppedBytes => 0x00000008u32,
            Self::WredDroppedPackets => 0x00000009u32,
            Self::WredDroppedBytes => 0x0000000au32,
            Self::GreenWredEcnMarkedPackets => 0x0000000bu32,
            Self::GreenWredEcnMarkedBytes => 0x0000000cu32,
            Self::YellowWredEcnMarkedPackets => 0x0000000du32,
            Self::YellowWredEcnMarkedBytes => 0x0000000eu32,
            Self::RedWredEcnMarkedPackets => 0x0000000fu32,
            Self::RedWredEcnMarkedBytes => 0x00000010u32,
            Self::WredEcnMarkedPackets => 0x00000011u32,
            Self::WredEcnMarkedBytes => 0x00000012u32,
            Self::XoffRoomCurrOccupancyBytes => 0x00000013u32,
            Self::XoffRoomWatermarkBytes => 0x00000014u32,
            Self::XoffRoomCurrOccupancyCells => 0x00000015u32,
            Self::XoffRoomWatermarkCells => 0x00000016u32,
            Self::CurrOccupancyCells => 0x00000017u32,
            Self::WatermarkCells => 0x00000018u32,
            Self::CustomRangeBase => 0x10000000u32,
        }
    }

    /// Statistic with value `value` in the C enum, if any.
    pub open spec fn spec_from_u32(value: u32) -> Option<Self> {
        match value {
            0x00000000u32 => Some(Self::CurrOccupancyBytes),
            0x00000001u32 => Some(Self::WatermarkBytes),
            0x00000002u32 => Some(Self::DroppedPackets),
            0x00000003u32 => Some(Self::GreenWredDroppedPackets),
            0x00000004u32 => Some(Self::GreenWredDroppedBytes),
            0x00000005u32 => Some(Self::YellowWredDroppedPackets),
            0x00000006u32 => Some(Self::YellowWredDroppedBytes),
            0x00000007u32 => Some(Self::RedWredDroppedPackets),
            0x00000008u32 => Some(Self::RedWredDroppedBytes),
            0x00000009u32 => Some(Self::WredDroppedPackets),
            0x0000000au32 => Some(Self::WredDroppedBytes),
            0x0000000bu32 => Some(Self::GreenWredEcnMarkedPackets),
            0x0000000cu32 => Some(Self::GreenWredEcnMarkedBytes),
            0x0000000du32 => Some(Self::YellowWredEcnMarkedPackets),
            0x0000000eu32 => Some(Self::YellowWredEcnMarkedBytes),
            0x0000000fu32 => Some(Self::RedWredEcnMarkedPackets),
            0x00000010u32 => Some(Self::RedWredEcnMarkedBytes),
            0x00000011u32 => Some(Self::WredEcnMarkedPackets),
            0x00000012u32 => Some(Self::WredEcnMarkedBytes),
            0x00000013u32 => Some(Self::XoffRoomCurrOccupancyBytes),
            0x00000014u32 => Some(Self::XoffRoomWatermarkBytes),
            0x00000015u32 => Some(Self::XoffRoomCurrOccupancyCells),
            0x00000016u32 => Some(Self::XoffRoomWatermarkCells),
            0x00000017u32 => Some(Self::CurrOccupancyCells),
            0x00000018u32 => Some(Self::WatermarkCells),
            0x10000000u32 => Some(Self::CustomRangeBase),
            _ => None,
        }
    }

    /// Name of this statistic in the C enum.
    pub open spec fn spec_c_name(self) -> Seq<char> {
        match self {
            Self::CurrOccupancyBytes => "SAI_BUFFER_POOL_STAT_CURR_OCCUPANCY_BYTES"@,
            Self::WatermarkBytes => "SAI_BUFFER_POOL_STAT_WATERMARK_BYTES"@,
            Self::DroppedPackets => "SAI_BUFFER_POOL_STAT_DROPPED_PACKETS"@,
            Self::GreenWredDroppedPackets => "SAI_BUFFER_POOL_STAT_GREEN_WRED_DROPPED_PACKETS"@,
            Self::GreenWredDroppedBytes => "SAI_BUFFER_POOL_STAT_GREEN_WRED_DROPPED_BYTES"@,
            Self::YellowWredDroppedPackets => "SAI_BUFFER_POOL_STAT_YELLOW_WRED_DROPPED_PACKETS"@,
            Self::YellowWredDroppedBytes => "SAI_BUFFER_POOL_STAT_YELLOW_WRED_DROPPED_BYTES"@,
            Self::RedWredDroppedPackets => "SAI_BUFFER_POOL_STAT_RED_WRED_DROPPED_PACKETS"@,
            Self::RedWredDroppedBytes => "SAI_BUFFER_POOL_STAT_RED_WRED_DROPPED_BYTES"@,
            Self::WredDroppedPackets => "SAI_BUFFER_POOL_STAT_WRED_DROPPED_PACKETS"@,
            Self::WredDroppedBytes => "SAI_BUFFER_POOL_STAT_WRED_DROPPED_BYTES"@,
            Self::GreenWredEcnMarkedPackets => "SAI_BUFFER_POOL_STAT_GREEN_WRED_ECN_MARKED_PACKETS"@,
            Self::GreenWredEcnMarkedBytes => "SAI_BUFFER_POOL_STAT_GREEN_WRED_ECN_MARKED_BYTES"@,
            Self::YellowWredEcnMarkedPackets => "SAI_BUFFER_POOL_STAT_YELLOW_WRED_ECN_MARKED_PACKETS"@,
            Self::YellowWredEcnMarkedBytes => "SAI_BUFFER_POOL_STAT_YELLOW_WRED_ECN_MARKED_BYTES"@,
            Self::RedWredEcnMarkedPackets => "SAI_BUFFER_POOL_STAT_RED_WRED_ECN_MARKED_PACKETS"@,
            Self::RedWredEcnMarkedBytes => "SAI_BUFFER_POOL_STAT_RED_WRED_ECN_MARKED_BYTES"@,
            Self::WredEcnMarkedPackets => "SAI_BUFFER_POOL_STAT_WRED_ECN_MARKED_PACKETS"@,
            Self::WredEcnMarkedBytes => "SAI_BUFFER_POOL_STAT_WRED_ECN_MARKED_BYTES"@,
            Self::XoffRoomCurrOccupancyBytes => "SAI_BUFFER_POOL_STAT_XOFF_ROOM_CURR_OCCUPANCY_BYTES"@,
            Self::XoffRoomWatermarkBytes => "SAI_BUFFER_POOL_STAT_XOFF_ROOM_WATERMARK_BYTES"@,
            Self::XoffRoomCurrOccupancyCells => "SAI_BUFFER_POOL_STAT_XOFF_ROOM_CURR_OCCUPANCY_CELLS"@,
            Self::XoffRoomWatermarkCells => "SAI_BUFFER_POOL_STAT_XOFF_ROOM_WATERMARK_CELLS"@,
            Self::CurrOccupancyCells => "SAI_BUFFER_POOL_STAT_CURR_OCCUPANCY_CELLS"@,
            Self::WatermarkCells => "SAI_BUFFER_POOL_STAT_WATERMARK_CELLS"@,
            Self::CustomRangeBase => "SAI_BUFFER_POOL_STAT_CUSTOM_RANGE_BASE"@,
        }
    }

    /// The statistic whose C name is `s`, if any.
    pub open spec fn spec_from_c_name(s: Seq<char>) -> Option<Self> {
        if s == "SAI_BUFFER_POOL_STAT_CURR_OCCUPANCY_BYTES"@ {
            Some(Self::CurrOccupancyBytes)
        } else if s == "SAI_BUFFER_POOL_STAT_WATERMARK_BYTES"@ {
            Some(Self::WatermarkBytes)
        } else if s == "SAI_BUFFER_POOL_STAT_DROPPED_PACKETS"@ {
            Some(Self::DroppedPackets)
        } else if s == "SAI_BUFFER_POOL_STAT_GREEN_WRED_DROPPED_PACKETS"@ {
            Some(Self::GreenWredDroppedPackets)
        } else if s == "SAI_BUFFER_POOL_STAT_GREEN_WRED_DROPPED_BYTES"@ {
            Some(Self::GreenWredDroppedBytes)
        } else if s == "SAI_BUFFER_POOL_STAT_YELLOW_WRED_DROPPED_PACKETS"@ {
            Some(Self::YellowWredDroppedPackets)
        } else if s == "SAI_BUFFER_POOL_STAT_YELLOW_WRED_DROPPED_BYTES"@ {
            Some(Self::YellowWredDroppedBytes)
        } else if s == "SAI_BUFFER_POOL_STAT_RED_WRED_DROPPED_PACKETS"@ {
            Some(Self::RedWredDroppedPackets)
        } else if s == "SAI_BUFFER_POOL_STAT_RED_WRED_DROPPED_BYTES"@ {
            Some(Self::RedWredDroppedBytes)
        } else if s == "SAI_BUFFER_POOL_STAT_WRED_DROPPED_PACKETS"@ {
            Some(Self::WredDroppedPackets)
        } else if s == "SAI_BUFFER_POOL_STAT_WRED_DROPPED_BYTES"@ {
            Some(Self::WredDroppedBytes)
        } else if s == "SAI_BUFFER_POOL_STAT_GREEN_WRED_ECN_MARKED_PACKETS"@ {
            Some(Self::GreenWredEcnMarkedPackets)
        } else if s == "SAI_BUFFER_POOL_STAT_GREEN_WRED_ECN_MARKED_BYTES"@ {
            Some(Self::GreenWredEcnMarkedBytes)
        } else if s == "SAI_BUFFER_POOL_STAT_YELLOW_WRED_ECN_MARKED_PACKETS"@ {
            Some(Self::YellowWredEcnMarkedPackets)
        } else if s == "SAI_BUFFER_POOL_STAT_YELLOW_WRED_ECN_MARKED_BYTES"@ {
            Some(Self::YellowWredEcnMarkedBytes)
        } else if s == "SAI_BUFFER_POOL_STAT_RED_WRED_ECN_MARKED_PACKETS"@ {
            Some(Self::RedWredEcnMarkedPackets)
        } else if s == "SAI_BUFFER_POOL_STAT_RED_WRED_ECN_MARKED_BYTES"@ {
            Some(Self::RedWredEcnMarkedBytes)
        } else if s == "SAI_BUFFER_POOL_STAT_WRED_ECN_MARKED_PACKETS"@ {
            Some(Self::WredEcnMarkedPackets)
        } else if s == "SAI_BUFFER_POOL_STAT_WRED_ECN_MARKED_BYTES"@ {
            Some(Self::WredEcnMarkedBytes)
        } else if s == "SAI_BUFFER_POOL_STAT_XOFF_ROOM_CURR_OCCUPANCY_BYTES"@ {
            Some(Self::XoffRoomCurrOccupancyBytes)
        } else if s == "SAI_BUFFER_POOL_STAT_XOFF_ROOM_WATERMARK_BYTES"@ {
            Some(Self::XoffRoomWatermarkBytes)
        } else if s == "SAI_BUFFER_POOL_STAT_XOFF_ROOM_CURR_OCCUPANCY_CELLS"@ {
            Some(Self::XoffRoomCurrOccupancyCells)
        } else if s == "SAI_BUFFER_POOL_STAT_XOFF_ROOM_WATERMARK_CELLS"@ {
            Some(Self::XoffRoomWatermarkCells)
        } else if s == "SAI_BUFFER_POOL_STAT_CURR_OCCUPANCY_CELLS"@ {
            Some(Self::CurrOccupancyCells)
        } else if s == "SAI_BUFFER_POOL_STAT_WATERMARK_CELLS"@ {
            Some(Self::WatermarkCells)
        } else if s == "SAI_BUFFER_POOL_STAT_CUSTOM_RANGE_BASE"@ {
            Some(Self::CustomRangeBase)
        } else {
            None
        }
    }

    /// Each C name leads back to its own statistic: no two statistics share
    /// a name.
    #[verifier::rlimit(100)]
    pub proof fn lemma_c_name_lookup(v: Self)
        ensures
            Self::spec_from_c_name(v.spec_c_name()) == Some(v),
    {
        reveal_strlit("SAI_BUFFER_POOL_STAT_CURR_OCCUPANCY_BYTES");
        assert("SAI_BUFFER_POOL_STAT_CURR_OCCUPANCY_BYTES"@.len() == 41);
        assert("SAI_BUFFER_POOL_STAT_CURR_OCCUPANCY_BYTES"@[21] == 'C');
        assert("SAI_BUFFER_POOL_STAT_CURR_OCCUPANCY_BYTES"@[36] == 'B');
        reveal_strlit("SAI_BUFFER_POOL_STAT_WATERMARK_BYTES");
        assert("SAI_BUFFER_POOL_STAT_WATERMARK_BYTES"@.len() == 36);
        assert("SAI_BUFFER_POOL_STAT_WATERMARK_BYTES"@[21] == 'W');
        assert("SAI_BUFFER_POOL_STAT_WATERMARK_BYTES"@[31] == 'B');
        reveal_strlit("SAI_BUFFER_POOL_STAT_DROPPED_PACKETS");
        assert("SAI_BUFFER_POOL_STAT_DROPPED_PACKETS"@.len() == 36);
        assert("SAI_BUFFER_POOL_STAT_DROPPED_PACKETS"@[21] == 'D');
        reveal_strlit("SAI_BUFFER_POOL_STAT_GREEN_WRED_DROPPED_PACKETS");
        assert("SAI_BUFFER_POOL_STAT_GREEN_WRED_DROPPED_PACKETS"@.len() == 47);
        reveal_strlit("SAI_BUFFER_POOL_STAT_GREEN_WRED_DROPPED_BYTES");
        assert("SAI_BUFFER_POOL_STAT_GREEN_WRED_DROPPED_BYTES"@.len() == 45);
        assert("SAI_BUFFER_POOL_STAT_GREEN_WRED_DROPPED_BYTES"@[21] == 'G');
        reveal_strlit("SAI_BUFFER_POOL_STAT_YELLOW_WRED_DROPPED_PACKETS");
        assert("SAI_BUFFER_POOL_STAT_YELLOW_WRED_DROPPED_PACKETS"@.len() == 48);
        assert("SAI_BUFFER_POOL_STAT_YELLOW_WRED_DROPPED_PACKETS"@[21] == 'Y');
        reveal_strlit("SAI_BUFFER_POOL_STAT_YELLOW_WRED_DROPPED_BYTES");
        assert("SAI_BUFFER_POOL_STAT_YELLOW_WRED_DROPPED_BYTES"@.len() == 46);
        assert("SAI_BUFFER_POOL_STAT_YELLOW_WRED_DROPPED_BYTES"@[21] == 'Y');
        reveal_strlit("SAI_BUFFER_POOL_STAT_RED_WRED_DROPPED_PACKETS");
        assert("SAI_BUFFER_POOL_STAT_RED_WRED_DROPPED_PACKETS"@.len() == 45);
        assert("SAI_BUFFER_POOL_STAT_RED_WRED_DROPPED_PACKETS"@[21] == 'R');
        reveal_strlit("SAI_BUFFER_POOL_STAT_RED_WRED_DROPPED_BYTES");
        assert("SAI_BUFFER_POOL_STAT_RED_WRED_DROPPED_BYTES"@.len() == 43);
        reveal_strlit("SAI_BUFFER_POOL_STAT_WRED_DROPPED_PACKETS");
        assert("SAI_BUFFER_POOL_STAT_WRED_DROPPED_PACKETS"@.len() == 41);
        assert("SAI_BUFFER_POOL_STAT_WRED_DROPPED_PACKETS"@[21] == 'W');
        reveal_strlit("SAI_BUFFER_POOL_STAT_WRED_DROPPED_BYTES");
        assert("SAI_BUFFER_POOL_STAT_WRED_DROPPED_BYTES"@.len() == 39);
        reveal_strlit("SAI_BUFFER_POOL_STAT_GREEN_WRED_ECN_MARKED_PACKETS");
        assert("SAI_BUFFER_POOL_STAT_GREEN_WRED_ECN_MARKED_PACKETS"@.len() == 50);
        reveal_strlit("SAI_BUFFER_POOL_STAT_GREEN_WRED_ECN_MARKED_BYTES");
        assert("SAI_BUFFER_POOL_STAT_GREEN_WRED_ECN_MARKED_BYTES"@.len() == 48);
        assert("SAI_BUFFER_POOL_STAT_GREEN_WRED_ECN_MARKED_BYTES"@[21] == 'G');
        reveal_strlit("SAI_BUFFER_POOL_STAT_YELLOW_WRED_ECN_MARKED_PACKETS");
        assert("SAI_BUFFER_POOL_STAT_YELLOW_WRED_ECN_MARKED_PACKETS"@.len() == 51);
        assert("SAI_BUFFER_POOL_STAT_YELLOW_WRED_ECN_MARKED_PACKETS"@[21] == 'Y');
        reveal_strlit("SAI_BUFFER_POOL_STAT_YELLOW_WRED_ECN_MARKED_BYTES");
        assert("SAI_BUFFER_POOL_STAT_YELLOW_WRED_ECN_MARKED_BYTES"@.len() == 49);
        reveal_strlit("SAI_BUFFER_POOL_STAT_RED_WRED_ECN_MARKED_PACKETS");
        assert("SAI_BUFFER_POOL_STAT_RED_WRED_ECN_MARKED_PACKETS"@.len() == 48);
        assert("SAI_BUFFER_POOL_STAT_RED_WRED_ECN_MARKED_PACKETS"@[21] == 'R');
        reveal_strlit("SAI_BUFFER_POOL_STAT_RED_WRED_ECN_MARKED_BYTES");
        assert("SAI_BUFFER_POOL_STAT_RED_WRED_ECN_MARKED_BYTES"@.len() == 46);
        assert("SAI_BUFFER_POOL_STAT_RED_WRED_ECN_MARKED_BYTES"@[21] == 'R');
        reveal_strlit("SAI_BUFFER_POOL_STAT_WRED_ECN_MARKED_PACKETS");
        assert("SAI_BUFFER_POOL_STAT_WRED_ECN_MARKED_PACKETS"@.len() == 44);
        reveal_strlit("SAI_BUFFER_POOL_STAT_WRED_ECN_MARKED_BYTES");
        assert("SAI_BUFFER_POOL_STAT_WRED_ECN_MARKED_BYTES"@.len() == 42);
        reveal_strlit("SAI_BUFFER_POOL_STAT_XOFF_ROOM_CURR_OCCUPANCY_BYTES");
        assert("SAI_BUFFER_POOL_STAT_XOFF_ROOM_CURR_OCCUPANCY_BYTES"@.len() == 51);
        assert("SAI_BUFFER_POOL_STAT_XOFF_ROOM_CURR_OCCUPANCY_BYTES"@[21] == 'X');
        assert("SAI_BUFFER_POOL_STAT_XOFF_ROOM_CURR_OCCUPANCY_BYTES"@[46] == 'B');
        reveal_strlit("SAI_BUFFER_POOL_STAT_XOFF_ROOM_WATERMARK_BYTES");
        assert("SAI_BUFFER_POOL_STAT_XOFF_ROOM_WATERMARK_BYTES"@.len() == 46);
        assert("SAI_BUFFER_POOL_STAT_XOFF_ROOM_WATERMARK_BYTES"@[21] == 'X');
        assert("SAI_BUFFER_POOL_STAT_XOFF_ROOM_WATERMARK_BYTES"@[41] == 'B');
        reveal_strlit("SAI_BUFFER_POOL_STAT_XOFF_ROOM_CURR_OCCUPANCY_CELLS");
        assert("SAI_BUFFER_POOL_STAT_XOFF_ROOM_CURR_OCCUPANCY_CELLS"@.len() == 51);
        assert("SAI_BUFFER_POOL_STAT_XOFF_ROOM_CURR_OCCUPANCY_CELLS"@[21] == 'X');
        assert("SAI_BUFFER_POOL_STAT_XOFF_ROOM_CURR_OCCUPANCY_CELLS"@[46] == 'C');
        reveal_strlit("SAI_BUFFER_POOL_STAT_XOFF_ROOM_WATERMARK_CELLS");
        assert("SAI_BUFFER_POOL_STAT_XOFF_ROOM_WATERMARK_CELLS"@.len() == 46);
        assert("SAI_BUFFER_POOL_STAT_XOFF_ROOM_WATERMARK_CELLS"@[21] == 'X');
        assert("SAI_BUFFER_POOL_STAT_XOFF_ROOM_WATERMARK_CELLS"@[41] == 'C');
        reveal_strlit("SAI_BUFFER_POOL_STAT_CURR_OCCUPANCY_CELLS");
        assert("SAI_BUFFER_POOL_STAT_CURR_OCCUPANCY_CELLS"@.len() == 41);
        assert("SAI_BUFFER_POOL_STAT_CURR_OCCUPANCY_CELLS"@[21] == 'C');
        assert("SAI_BUFFER_POOL_STAT_CURR_OCCUPANCY_CELLS"@[36] == 'C');
        reveal_strlit("SAI_BUFFER_POOL_STAT_WATERMARK_CELLS");
        assert("SAI_BUFFER_POOL_STAT_WATERMARK_CELLS"@.len() == 36);
        assert("SAI_BUFFER_POOL_STAT_WATERMARK_CELLS"@[21] == 'W');
        assert("SAI_BUFFER_POOL_STAT_WATERMARK_CELLS"@[31] == 'C');
        reveal_strlit("SAI_BUFFER_POOL_STAT_CUSTOM_RANGE_BASE");
        assert("SAI_BUFFER_POOL_STAT_CUSTOM_RANGE_BASE"@.len() == 38);
    }

    /// Law: statistics with the same C name are the same statistic.
    pub proof fn lemma_c_name_injective(a: Self, b: Self)
        ensures
            a.spec_c_name() == b.spec_c_name() ==> a == b,
    {
        Self::lemma_c_name_lookup(a);
        Self::lemma_c_name_lookup(b);
    }

    /// The value the C enum `sai_buffer_pool_stat_t` gives the statistic named `name`, if
    /// it names one.
    pub open spec fn spec_c_enum_value(name: Seq<char>) -> Option<u32> {
        if name == "SAI_BUFFER_POOL_STAT_CURR_OCCUPANCY_BYTES"@ {
            Some(0u32)
        } else if name == "SAI_BUFFER_POOL_STAT_WATERMARK_BYTES"@ {
            Some(1u32)
        } else if name == "SAI_BUFFER_POOL_STAT_DROPPED_PACKETS"@ {
            Some(2u32)
        } else if name == "SAI_BUFFER_POOL_STAT_GREEN_WRED_DROPPED_PACKETS"@ {
            Some(3u32)
        } else if name == "SAI_BUFFER_POOL_STAT_GREEN_WRED_DROPPED_BYTES"@ {
            Some(4u32)
        } else if name == "SAI_BUFFER_POOL_STAT_YELLOW_WRED_DROPPED_PACKETS"@ {
            Some(5u32)
        } else if name == "SAI_BUFFER_POOL_STAT_YELLOW_WRED_DROPPED_BYTES"@ {
            Some(6u32)
        } else if name == "SAI_BUFFER_POOL_STAT_RED_WRED_DROPPED_PACKETS"@ {
            Some(7u32)
        } else if name == "SAI_BUFFER_POOL_STAT_RED_WRED_DROPPED_BYTES"@ {
            Some(8u32)
        } else if name == "SAI_BUFFER_POOL_STAT_WRED_DROPPED_PACKETS"@ {
            Some(9u32)
        } else if name == "SAI_BUFFER_POOL_STAT_WRED_DROPPED_BYTES"@ {
            Some(10u32)
        } else if name == "SAI_BUFFER_POOL_STAT_GREEN_WRED_ECN_MARKED_PACKETS"@ {
            Some(11u32)
        } else if name == "SAI_BUFFER_POOL_STAT_GREEN_WRED_ECN_MARKED_BYTES"@ {
            Some(12u32)
        } else if name == "SAI_BUFFER_POOL_STAT_YELLOW_WRED_ECN_MARKED_PACKETS"@ {
            Some(13u32)
        } else if name == "SAI_BUFFER_POOL_STAT_YELLOW_WRED_ECN_MARKED_BYTES"@ {
            Some(14u32)
        } else if name == "SAI_BUFFER_POOL_STAT_RED_WRED_ECN_MARKED_PACKETS"@ {
            Some(15u32)
        } else if name == "SAI_BUFFER_POOL_STAT_RED_WRED_ECN_MARKED_BYTES"@ {
            Some(16u32)
        } else if name == "SAI_BUFFER_POOL_STAT_WRED_ECN_MARKED_PACKETS"@ {
            Some(17u32)
        } else if name == "SAI_BUFFER_POOL_STAT_WRED_ECN_MARKED_BYTES"@ {
            Some(18u32)
        } else if name == "SAI_BUFFER_POOL_STAT_XOFF_ROOM_CURR_OCCUPANCY_BYTES"@ {
            Some(19u32)
        } else if name == "SAI_BUFFER_POOL_STAT_XOFF_ROOM_WATERMARK_BYTES"@ {
            Some(20u32)
        } else if name == "SAI_BUFFER_POOL_STAT_XOFF_ROOM_CURR_OCCUPANCY_CELLS"@ {
            Some(21u32)
        } else if name == "SAI_BUFFER_POOL_STAT_XOFF_ROOM_WATERMARK_CELLS"@ {
            Some(22u32)
        } else if name == "SAI_BUFFER_POOL_STAT_CURR_OCCUPANCY_CELLS"@ {
            Some(23u32)
        } else if name == "SAI_BUFFER_POOL_STAT_WATERMARK_CELLS"@ {
            Some(24u32)
        } else if name == "SAI_BUFFER_POOL_STAT_CUSTOM_RANGE_BASE"@ {
            Some(268435456u32)
        } else {
            None
        }
    }

    /// Law: every statistic has the value the C enum `sai_buffer_pool_stat_t` gives its
    /// name.
    #[verifier::rlimit(100)]
    pub proof fn lemma_values_follow_c_enum(v: Self)
        ensures
            Self::spec_c_enum_value(v.spec_c_name()) == Some(v.spec_to_u32()),
    {
        reveal_strlit("SAI_BUFFER_POOL_STAT_CURR_OCCUPANCY_BYTES");
        assert("SAI_BUFFER_POOL_STAT_CURR_OCCUPANCY_BYTES"@.len() == 41);
        assert("SAI_BUFFER_POOL_STAT_CURR_OCCUPANCY_BYTES"@[21] == 'C');
        assert("SAI_BUFFER_POOL_STAT_CURR_OCCUPANCY_BYTES"@[36] == 'B');
        reveal_strlit("SAI_BUFFER_POOL_STAT_WATERMARK_BYTES");
        assert("SAI_BUFFER_POOL_STAT_WATERMARK_BYTES"@.len() == 36);
        assert("SAI_BUFFER_POOL_STAT_WATERMARK_BYTES"@[21] == 'W');
        assert("SAI_BUFFER_POOL_STAT_WATERMARK_BYTES"@[31] == 'B');
        reveal_strlit("SAI_BUFFER_POOL_STAT_DROPPED_PACKETS");
        assert("SAI_BUFFER_POOL_STAT_DROPPED_PACKETS"@.len() == 36);
        assert("SAI_BUFFER_POOL_STAT_DROPPED_PACKETS"@[21] == 'D');
        reveal_strlit("SAI_BUFFER_POOL_STAT_GREEN_WRED_DROPPED_PACKETS");
        assert("SAI_BUFFER_POOL_STAT_GREEN_WRED_DROPPED_PACKETS"@.len() == 47);
        reveal_strlit("SAI_BUFFER_POOL_STAT_GREEN_WRED_DROPPED_BYTES");
        assert("SAI_BUFFER_POOL_STAT_GREEN_WRED_DROPPED_BYTES"@.len() == 45);
        assert("SAI_BUFFER_POOL_STAT_GREEN_WRED_DROPPED_BYTES"@[21] == 'G');
        reveal_strlit("SAI_BUFFER_POOL_STAT_YELLOW_WRED_DROPPED_PACKETS");
        assert("SAI_BUFFER_POOL_STAT_YELLOW_WRED_DROPPED_PACKETS"@.len() == 48);
        assert("SAI_BUFFER_POOL_STAT_YELLOW_WRED_DROPPED_PACKETS"@[21] == 'Y');
        reveal_strlit("SAI_BUFFER_POOL_STAT_YELLOW_WRED_DROPPED_BYTES");
        assert("SAI_BUFFER_POOL_STAT_YELLOW_WRED_DROPPED_BYTES"@.len() == 46);
        assert("SAI_BUFFER_POOL_STAT_YELLOW_WRED_DROPPED_BYTES"@[21] == 'Y');
        reveal_strlit("SAI_BUFFER_POOL_STAT_RED_WRED_DROPPED_PACKETS");
        assert("SAI_BUFFER_POOL_STAT_RED_WRED_DROPPED_PACKETS"@.len() == 45);
        assert("SAI_BUFFER_POOL_STAT_RED_WRED_DROPPED_PACKETS"@[21] == 'R');
        reveal_strlit("SAI_BUFFER_POOL_STAT_RED_WRED_DROPPED_BYTES");
        assert("SAI_BUFFER_POOL_STAT_RED_WRED_DROPPED_BYTES"@.len() == 43);
        reveal_strlit("SAI_BUFFER_POOL_STAT_WRED_DROPPED_PACKETS");
        assert("SAI_BUFFER_POOL_STAT_WRED_DROPPED_PACKETS"@.len() == 41);
        assert("SAI_BUFFER_POOL_STAT_WRED_DROPPED_PACKETS"@[21] == 'W');
        reveal_strlit("SAI_BUFFER_POOL_STAT_WRED_DROPPED_BYTES");
        assert("SAI_BUFFER_POOL_STAT_WRED_DROPPED_BYTES"@.len() == 39);
        reveal_strlit("SAI_BUFFER_POOL_STAT_GREEN_WRED_ECN_MARKED_PACKETS");
        assert("SAI_BUFFER_POOL_STAT_GREEN_WRED_ECN_MARKED_PACKETS"@.len() == 50);
        reveal_strlit("SAI_BUFFER_POOL_STAT_GREEN_WRED_ECN_MARKED_BYTES");
        assert("SAI_BUFFER_POOL_STAT_GREEN_WRED_ECN_MARKED_BYTES"@.len() == 48);
        assert("SAI_BUFFER_POOL_STAT_GREEN_WRED_ECN_MARKED_BYTES"@[21] == 'G');
        reveal_strlit("SAI_BUFFER_POOL_STAT_YELLOW_WRED_ECN_MARKED_PACKETS");
        assert("SAI_BUFFER_POOL_STAT_YELLOW_WRED_ECN_MARKED_PACKETS"@.len() == 51);
        assert("SAI_BUFFER_POOL_STAT_YELLOW_WRED_ECN_MARKED_PACKETS"@[21] == 'Y');
        reveal_strlit("SAI_BUFFER_POOL_STAT_YELLOW_WRED_ECN_MARKED_BYTES");
        assert("SAI_BUFFER_POOL_STAT_YELLOW_WRED_ECN_MARKED_BYTES"@.len() == 49);
        reveal_strlit("SAI_BUFFER_POOL_STAT_RED_WRED_ECN_MARKED_PACKETS");
        assert("SAI_BUFFER_POOL_STAT_RED_WRED_ECN_MARKED_PACKETS"@.len() == 48);
        assert("SAI_BUFFER_POOL_STAT_RED_WRED_ECN_MARKED_PACKETS"@[21] == 'R');
        reveal_strlit("SAI_BUFFER_POOL_STAT_RED_WRED_ECN_MARKED_BYTES");
        assert("SAI_BUFFER_POOL_STAT_RED_WRED_ECN_MARKED_BYTES"@.len() == 46);
        assert("SAI_BUFFER_POOL_STAT_RED_WRED_ECN_MARKED_BYTES"@[21] == 'R');
        reveal_strlit("SAI_BUFFER_POOL_STAT_WRED_ECN_MARKED_PACKETS");
        assert("SAI_BUFFER_POOL_STAT_WRED_ECN_MARKED_PACKETS"@.len() == 44);
        reveal_strlit("SAI_BUFFER_POOL_STAT_WRED_ECN_MARKED_BYTES");
        assert("SAI_BUFFER_POOL_STAT_WRED_ECN_MARKED_BYTES"@.len() == 42);
        reveal_strlit("SAI_BUFFER_POOL_STAT_XOFF_ROOM_CURR_OCCUPANCY_BYTES");
        assert("SAI_BUFFER_POOL_STAT_XOFF_ROOM_CURR_OCCUPANCY_BYTES"@.len() == 51);
        assert("SAI_BUFFER_POOL_STAT_XOFF_ROOM_CURR_OCCUPANCY_BYTES"@[21] == 'X');
        assert("SAI_BUFFER_POOL_STAT_XOFF_ROOM_CURR_OCCUPANCY_BYTES"@[46] == 'B');
        reveal_strlit("SAI_BUFFER_POOL_STAT_XOFF_ROOM_WATERMARK_BYTES");
        assert("SAI_BUFFER_POOL_STAT_XOFF_ROOM_WATERMARK_BYTES"@.len() == 46);
        assert("SAI_BUFFER_POOL_STAT_XOFF_ROOM_WATERMARK_BYTES"@[21] == 'X');
        assert("SAI_BUFFER_POOL_STAT_XOFF_ROOM_WATERMARK_BYTES"@[41] == 'B');
        reveal_strlit("SAI_BUFFER_POOL_STAT_XOFF_ROOM_CURR_OCCUPANCY_CELLS");
        assert("SAI_BUFFER_POOL_STAT_XOFF_ROOM_CURR_OCCUPANCY_CELLS"@.len() == 51);
        assert("SAI_BUFFER_POOL_STAT_XOFF_ROOM_CURR_OCCUPANCY_CELLS"@[21] == 'X');
        assert("SAI_BUFFER_POOL_STAT_XOFF_ROOM_CURR_OCCUPANCY_CELLS"@[46] == 'C');
        reveal_strlit("SAI_BUFFER_POOL_STAT_XOFF_ROOM_WATERMARK_CELLS");
        assert("SAI_BUFFER_POOL_STAT_XOFF_ROOM_WATERMARK_CELLS"@.len() == 46);
        assert("SAI_BUFFER_POOL_STAT_XOFF_ROOM_WATERMARK_CELLS"@[21] == 'X');
        assert("SAI_BUFFER_POOL_STAT_XOFF_ROOM_WATERMARK_CELLS"@[41] == 'C');
        reveal_strlit("SAI_BUFFER_POOL_STAT_CURR_OCCUPANCY_CELLS");
        assert("SAI_BUFFER_POOL_STAT_CURR_OCCUPANCY_CELLS"@.len() == 41);
        assert("SAI_BUFFER_POOL_STAT_CURR_OCCUPANCY_CELLS"@[21] == 'C');
        assert("SAI_BUFFER_POOL_STAT_CURR_OCCUPANCY_CELLS"@[36] == 'C');
        reveal_strlit("SAI_BUFFER_POOL_STAT_WATERMARK_CELLS");
        assert("SAI_BUFFER_POOL_STAT_WATERMARK_CELLS"@.len() == 36);
        assert("SAI_BUFFER_POOL_STAT_WATERMARK_CELLS"@[21] == 'W');
        assert("SAI_BUFFER_POOL_STAT_WATERMARK_CELLS"@[31] == 'C');
        reveal_strlit("SAI_BUFFER_POOL_STAT_CUSTOM_RANGE_BASE");
        assert("SAI_BUFFER_POOL_STAT_CUSTOM_RANGE_BASE"@.len() == 38);
    }

    /// Law: a value converts to the statistic that the C enum `sai_buffer_pool_stat_t`
    /// gives that value.
    pub proof fn lemma_from_u32_follows_c_enum(x: u32)
        ensures
            Self::spec_from_u32(x) matches Some(w) ==> Self::spec_c_enum_value(w.spec_c_name()) == Some(x),
    {
        Self::lemma_from_u32_inverse(x);
        if let Some(w) = Self::spec_from_u32(x) {
            Self::lemma_values_follow_c_enum(w);
        }
    }

    /// Statistic at position `i` of the C enum.
    pub open spec fn spec_at(i: int) -> Self {
        if i <= 0 {
            Self::CurrOccupancyBytes
        } else if i == 1 {
            Self::WatermarkBytes
        } else if i == 2 {
            Self::DroppedPackets
        } else if i == 3 {
            Self::GreenWredDroppedPackets
        } else if i == 4 {
            Self::GreenWredDroppedBytes
        } else if i == 5 {
            Self::YellowWredDroppedPackets
        } else if i == 6 {
            Self::YellowWredDroppedBytes
        } else if i == 7 {
            Self::RedWredDroppedPackets
        } else if i == 8 {
            Self::RedWredDroppedBytes
        } else if i == 9 {
            Self::WredDroppedPackets
        } else if i == 10 {
            Self::WredDroppedBytes
        } else if i == 11 {
            Self::GreenWredEcnMarkedPackets
        } else if i == 12 {
            Self::GreenWredEcnMarkedBytes
        } else if i == 13 {
            Self::YellowWredEcnMarkedPackets
        } else if i == 14 {
            Self::YellowWredEcnMarkedBytes
        } else if i == 15 {
            Self::RedWredEcnMarkedPackets
        } else if i == 16 {
            Self::RedWredEcnMarkedBytes
        } else if i == 17 {
            Self::WredEcnMarkedPackets
        } else if i == 18 {
            Self::WredEcnMarkedBytes
        } else if i == 19 {
            Self::XoffRoomCurrOccupancyBytes
        } else if i == 20 {
            Self::XoffRoomWatermarkBytes
        } else if i == 21 {
            Self::XoffRoomCurrOccupancyCells
        } else if i == 22 {
            Self::XoffRoomWatermarkCells
        } else if i == 23 {
            Self::CurrOccupancyCells
        } else if i == 24 {
            Self::WatermarkCells
        } else {
            Self::CustomRangeBase
        }
    }

    /// Position of this statistic in the C enum.
    pub open spec fn spec_index(self) -> int {
        match self {
            Self::CurrOccupancyBytes => 0,
            Self::WatermarkBytes => 1,
            Self::DroppedPackets => 2,
            Self::GreenWredDroppedPackets => 3,
            Self::GreenWredDroppedBytes => 4,
            Self::YellowWredDroppedPackets => 5,
            Self::YellowWredDroppedBytes => 6,
            Self::RedWredDroppedPackets => 7,
            Self::RedWredDroppedBytes => 8,
            Self::WredDroppedPackets => 9,
            Self::WredDroppedBytes => 10,
            Self::GreenWredEcnMarkedPackets => 11,
            Self::GreenWredEcnMarkedBytes => 12,
            Self::YellowWredEcnMarkedPackets => 13,
            Self::YellowWredEcnMarkedBytes => 14,
            Self::RedWredEcnMarkedPackets => 15,
            Self::RedWredEcnMarkedBytes => 16,
            Self::WredEcnMarkedPackets => 17,
            Self::WredEcnMarkedBytes => 18,
            Self::XoffRoomCurrOccupancyBytes => 19,
            Self::XoffRoomWatermarkBytes => 20,
            Self::XoffRoomCurrOccupancyCells => 21,
            Self::XoffRoomWatermarkCells => 22,
            Self::CurrOccupancyCells => 23,
            Self::WatermarkCells => 24,
            Self::CustomRangeBase => 25,
        }
    }

    /// Statistic with value `value` in the C enum, if any.
    pub fn from_u32(value: u32) -> (r: Option<Self>)
        ensures
            r == Self::spec_from_u32(value),
    {
        match value {
            0x00000000 => Some(Self::CurrOccupancyBytes),
            0x00000001 => Some(Self::WatermarkBytes),
            0x00000002 => Some(Self::DroppedPackets),
            0x00000003 => Some(Self::GreenWredDroppedPackets),
            0x00000004 => Some(Self::GreenWredDroppedBytes),
            0x00000005 => Some(Self::YellowWredDroppedPackets),
            0x00000006 => Some(Self::YellowWredDroppedBytes),
            0x00000007 => Some(Self::RedWredDroppedPackets),
            0x00000008 => Some(Self::RedWredDroppedBytes),
            0x00000009 => Some(Self::WredDroppedPackets),
            0x0000000a => Some(Self::WredDroppedBytes),
            0x0000000b => Some(Self::GreenWredEcnMarkedPackets),
            0x0000000c => Some(Self::GreenWredEcnMarkedBytes),
            0x0000000d => Some(Self::YellowWredEcnMarkedPackets),
            0x0000000e => Some(Self::YellowWredEcnMarkedBytes),
            0x0000000f => Some(Self::RedWredEcnMarkedPackets),
            0x00000010 => Some(Self::RedWredEcnMarkedBytes),
            0x00000011 => Some(Self::WredEcnMarkedPackets),
            0x00000012 => Some(Self::WredEcnMarkedBytes),
            0x00000013 => Some(Self::XoffRoomCurrOccupancyBytes),
            0x00000014 => Some(Self::XoffRoomWatermarkBytes),
            0x00000015 => Some(Self::XoffRoomCurrOccupancyCells),
            0x00000016 => Some(Self::XoffRoomWatermarkCells),
            0x00000017 => Some(Self::CurrOccupancyCells),
            0x00000018 => Some(Self::WatermarkCells),
            0x10000000 => Some(Self::CustomRangeBase),
            _ => None,
        }
    }

    /// Value of this statistic in the C enum.
    pub fn to_u32(self) -> (r: u32)
        ensures
            r == self.spec_to_u32(),
    {
        match self {
            Self::CurrOccupancyBytes => 0x00000000,
            Self::WatermarkBytes => 0x00000001,
            Self::DroppedPackets => 0x00000002,
            Self::GreenWredDroppedPackets => 0x00000003,
            Self::GreenWredDroppedBytes => 0x00000004,
            Self::YellowWredDroppedPackets => 0x00000005,
            Self::YellowWredDroppedBytes => 0x00000006,
            Self::RedWredDroppedPackets => 0x00000007,
            Self::RedWredDroppedBytes => 0x00000008,
            Self::WredDroppedPackets => 0x00000009,
            Self::WredDroppedBytes => 0x0000000a,
            Self::GreenWredEcnMarkedPackets => 0x0000000b,
            Self::GreenWredEcnMarkedBytes => 0x0000000c,
            Self::YellowWredEcnMarkedPackets => 0x0000000d,
            Self::YellowWredEcnMarkedBytes => 0x0000000e,
            Self::RedWredEcnMarkedPackets => 0x0000000f,
            Self::RedWredEcnMarkedBytes => 0x00000010,
            Self::WredEcnMarkedPackets => 0x00000011,
            Self::WredEcnMarkedBytes => 0x00000012,
            Self::XoffRoomCurrOccupancyBytes => 0x00000013,
            Self::XoffRoomWatermarkBytes => 0x00000014,
            Self::XoffRoomCurrOccupancyCells => 0x00000015,
            Self::XoffRoomWatermarkCells => 0x00000016,
            Self::CurrOccupancyCells => 0x00000017,
            Self::WatermarkCells => 0x00000018,
            Self::CustomRangeBase => 0x10000000,
        }
    }

    /// Name of this statistic in the C enum.
    pub fn to_c_name(self) -> (r: &'static str)
        ensures
            r@ == self.spec_c_name(),
    {
        match self {
            Self::CurrOccupancyBytes => "SAI_BUFFER_POOL_STAT_CURR_OCCUPANCY_BYTES",
            Self::WatermarkBytes => "SAI_BUFFER_POOL_STAT_WATERMARK_BYTES",
            Self::DroppedPackets => "SAI_BUFFER_POOL_STAT_DROPPED_PACKETS",
            Self::GreenWredDroppedPackets => "SAI_BUFFER_POOL_STAT_GREEN_WRED_DROPPED_PACKETS",
            Self::GreenWredDroppedBytes => "SAI_BUFFER_POOL_STAT_GREEN_WRED_DROPPED_BYTES",
            Self::YellowWredDroppedPackets => "SAI_BUFFER_POOL_STAT_YELLOW_WRED_DROPPED_PACKETS",
            Self::YellowWredDroppedBytes => "SAI_BUFFER_POOL_STAT_YELLOW_WRED_DROPPED_BYTES",
            Self::RedWredDroppedPackets => "SAI_BUFFER_POOL_STAT_RED_WRED_DROPPED_PACKETS",
            Self::RedWredDroppedBytes => "SAI_BUFFER_POOL_STAT_RED_WRED_DROPPED_BYTES",
            Self::WredDroppedPackets => "SAI_BUFFER_POOL_STAT_WRED_DROPPED_PACKETS",
            Self::WredDroppedBytes => "SAI_BUFFER_POOL_STAT_WRED_DROPPED_BYTES",
            Self::GreenWredEcnMarkedPackets => "SAI_BUFFER_POOL_STAT_GREEN_WRED_ECN_MARKED_PACKETS",
            Self::GreenWredEcnMarkedBytes => "SAI_BUFFER_POOL_STAT_GREEN_WRED_ECN_MARKED_BYTES",
            Self::YellowWredEcnMarkedPackets => "SAI_BUFFER_POOL_STAT_YELLOW_WRED_ECN_MARKED_PACKETS",
            Self::YellowWredEcnMarkedBytes => "SAI_BUFFER_POOL_STAT_YELLOW_WRED_ECN_MARKED_BYTES",
            Self::RedWredEcnMarkedPackets => "SAI_BUFFER_POOL_STAT_RED_WRED_ECN_MARKED_PACKETS",
            Self::RedWredEcnMarkedBytes => "SAI_BUFFER_POOL_STAT_RED_WRED_ECN_MARKED_BYTES",
            Self::WredEcnMarkedPackets => "SAI_BUFFER_POOL_STAT_WRED_ECN_MARKED_PACKETS",
            Self::WredEcnMarkedBytes => "SAI_BUFFER_POOL_STAT_WRED_ECN_MARKED_BYTES",
            Self::XoffRoomCurrOccupancyBytes => "SAI_BUFFER_POOL_STAT_XOFF_ROOM_CURR_OCCUPANCY_BYTES",
            Self::XoffRoomWatermarkBytes => "SAI_BUFFER_POOL_STAT_XOFF_ROOM_WATERMARK_BYTES",
            Self::XoffRoomCurrOccupancyCells => "SAI_BUFFER_POOL_STAT_XOFF_ROOM_CURR_OCCUPANCY_CELLS",
            Self::XoffRoomWatermarkCells => "SAI_BUFFER_POOL_STAT_XOFF_ROOM_WATERMARK_CELLS",
            Self::CurrOccupancyCells => "SAI_BUFFER_POOL_STAT_CURR_OCCUPANCY_CELLS",
            Self::WatermarkCells => "SAI_BUFFER_POOL_STAT_WATERMARK_CELLS",
            Self::CustomRangeBase => "SAI_BUFFER_POOL_STAT_CUSTOM_RANGE_BASE",
        }
    }

    /// Statistic at position `i` of the C enum.
    fn at(i: usize) -> (r: Self)
        requires
            i < Self::COUNT,
        ensures
            r == Self::spec_at(i as int),
    {
        match i {
            0 => Self::CurrOccupancyBytes,
            1 => Self::WatermarkBytes,
            2 => Self::DroppedPackets,
            3 => Self::GreenWredDroppedPackets,
            4 => Self::GreenWredDroppedBytes,
            5 => Self::YellowWredDroppedPackets,
            6 => Self::YellowWredDroppedBytes,
            7 => Self::RedWredDroppedPackets,
            8 => Self::RedWredDroppedBytes,
            9 => Self::WredDroppedPackets,
            10 => Self::WredDroppedBytes,
            11 => Self::GreenWredEcnMarkedPackets,
            12 => Self::GreenWredEcnMarkedBytes,
            13 => Self::YellowWredEcnMarkedPackets,
            14 => Self::YellowWredEcnMarkedBytes,
            15 => Self::RedWredEcnMarkedPackets,
            16 => Self::RedWredEcnMarkedBytes,
            17 => Self::WredEcnMarkedPackets,
            18 => Self::WredEcnMarkedBytes,
            19 => Self::XoffRoomCurrOccupancyBytes,
            20 => Self::XoffRoomWatermarkBytes,
            21 => Self::XoffRoomCurrOccupancyCells,
            22 => Self::XoffRoomWatermarkCells,
            23 => Self::CurrOccupancyCells,
            24 => Self::WatermarkCells,
            _ => Self::CustomRangeBase,
        }
    }

    /// Every statistic sits at its position in the C enum.
    pub proof fn lemma_at_index(s: Self)
        ensures
            0 <= s.spec_index() < Self::COUNT,
            Self::spec_at(s.spec_index()) == s,
    {
    }

    /// Law: converting a statistic to its value and back gives the statistic.
    pub proof fn lemma_u32_roundtrip(s: Self)
        ensures
            Self::spec_from_u32(s.spec_to_u32()) == Some(s),
    {
    }

    /// Law: a value converts to a statistic only if that statistic has the value.
    pub proof fn lemma_from_u32_inverse(value: u32)
        ensures
            Self::spec_from_u32(value) matches Some(s) ==> s.spec_to_u32() == value,
    {
    }

    /// Statistic whose C name is `s`.
    pub fn from_c_name(s: &str) -> (r: Result<Self, String>)
        ensures
            match r {
                Ok(v) => s@ == v.spec_c_name(),
                Err(e) => (forall|v: Self| s@ != #[trigger] v.spec_c_name())
                    && e@ == "Unknown buffer pool stat: "@ + s@,
            },
    {
        let mut i: usize = 0;
        while i < Self::COUNT
            invariant
                i <= Self::COUNT,
                forall|j: int| 0 <= j < i ==> s@ != #[trigger] Self::spec_at(j).spec_c_name(),
            decreases Self::COUNT - i,
        {
            let v = Self::at(i);
            if str_eq(s, v.to_c_name()) {
                return Ok(v);
            }
            i = i + 1;
        }
        assert forall|v: Self| s@ != #[trigger] v.spec_c_name() by {
            Self::lemma_at_index(v);
            assert(s@ != Self::spec_at(v.spec_index()).spec_c_name());
        }
        Err(crate::text::concat2("Unknown buffer pool stat: ", s))
    }
}

impl FromStr for SaiBufferPoolStat {
    type Err = String;

    fn from_str(s: &str) -> (r: Result<Self, Self::Err>)
        ensures
            match r {
                Ok(v) => s@ == v.spec_c_name(),
                Err(e) => (forall|v: Self| s@ != #[trigger] v.spec_c_name())
                    && e@ == "Unknown buffer pool stat: "@ + s@,
            },
            forall|v: Self| s@ == #[trigger] v.spec_c_name() ==> (r matches Ok(w) && w == v),
    {
        let r = Self::from_c_name(s);
        proof {
            assert forall|v: Self| s@ == #[trigger] v.spec_c_name() implies (r matches Ok(w) && w == v) by {
                Self::lemma_c_name_lookup(v);
                if let Ok(w) = r {
                    Self::lemma_c_name_injective(v, w);
                }
            }
        }
        r
    }
}

/// SAI ingress priority group statistics
/// (the statistics of `sai_ingress_priority_group_stat_t`).
#[derive(Debug, Clone, Copy, PartialEq, Eq, Hash, Structural)]
pub enum SaiIngressPriorityGroupStat {
    /// Get rx packets count [uint64_t]
    Packets,
    /// Get rx bytes count [uint64_t]
    Bytes,
    /// Get current pg occupancy in bytes [uint64_t]
    CurrOccupancyBytes,
    /// Get watermark pg occupancy in bytes [uint64_t]
    WatermarkBytes,
    /// Get current pg shared occupancy in bytes [uint64_t]
    SharedCurrOccupancyBytes,
    /// Get watermark pg shared occupancy in bytes [uint64_t]
    SharedWatermarkBytes,
    /// Get current pg XOFF room occupancy in bytes [uint64_t]
    XoffRoomCurrOccupancyBytes,
    /// Get watermark pg XOFF room occupancy in bytes [uint64_t]
    XoffRoomWatermarkBytes,
    /// Get dropped packets count [uint64_t]
    DroppedPackets,
    /// Get current pg occupancy in cells [uint64_t]
    CurrOccupancyCells,
    /// Get watermark pg occupancy in cells [uint64_t]
    WatermarkCells,
    /// Get current pg shared occupancy in cells [uint64_t]
    SharedCurrOccupancyCells,
    /// Get watermark pg shared occupancy in cells [uint64_t]
    SharedWatermarkCells,
    /// Get current pg XOFF room occupancy in cells [uint64_t]
    XoffRoomCurrOccupancyCells,
    /// Get watermark pg XOFF room occupancy in cells [uint64_t]
    XoffRoomWatermarkCells,
    /// Custom range base value
    CustomRangeBase,
}

impl SaiIngressPriorityGroupStat {
    /// Number of statistics in the table.
    pub const COUNT: usize = 16;

    /// Value of this statistic in the C enum.
    pub open spec fn spec_to_u32(self) -> u32 {
        match self {
            Self::Packets => 0x00000000u32,
            Self::Bytes => 0x00000001u32,
            Self::CurrOccupancyBytes => 0x00000002u32,
            Self::WatermarkBytes => 0x00000003u32,
            Self::SharedCurrOccupancyBytes => 0x00000004u32,
            Self::SharedWatermarkBytes => 0x00000005u32,
            Self::XoffRoomCurrOccupancyBytes => 0x00000006u32,
            Self::XoffRoomWatermarkBytes => 0x00000007u32,
            Self::DroppedPackets => 0x00000008u32,
            Self::CurrOccupancyCells => 0x00000009u32,
            Self::WatermarkCells => 0x0000000au32,
            Self::SharedCurrOccupancyCells => 0x0000000bu32,
            Self::SharedWatermarkCells => 0x0000000cu32,
            Self::XoffRoomCurrOccupancyCells => 0x0000000du32,
            Self::XoffRoomWatermarkCells => 0x0000000eu32,
            Self::CustomRangeBase => 0x10000000u32,
        }
    }

    /// Statistic with value `value` in the C enum, if any.
    pub open spec fn spec_from_u32(value: u32) -> Option<Self> {
        match value {
            0x00000000u32 => Some(Self::Packets),
            0x00000001u32 => Some(Self::Bytes),
            0x00000002u32 => Some(Self::CurrOccupancyBytes),
            0x00000003u32 => Some(Self::WatermarkBytes),
            0x00000004u32 => Some(Self::SharedCurrOccupancyBytes),
            0x00000005u32 => Some(Self::SharedWatermarkBytes),
            0x00000006u32 => Some(Self::XoffRoomCurrOccupancyBytes),
            0x00000007u32 => Some(Self::XoffRoomWatermarkBytes),
            0x00000008u32 => Some(Self::DroppedPackets),
            0x00000009u32 => Some(Self::CurrOccupancyCells),
            0x0000000au32 => Some(Self::WatermarkCells),
            0x0000000bu32 => Some(Self::SharedCurrOccupancyCells),
            0x0000000cu32 => Some(Self::SharedWatermarkCells),
            0x0000000du32 => Some(Self::XoffRoomCurrOccupancyCells),
            0x0000000eu32 => Some(Self::XoffRoomWatermarkCells),
            0x10000000u32 => Some(Self::CustomRangeBase),
            _ => None,
        }
    }

    /// Name of this statistic in the C enum.
    pub open spec fn spec_c_name(self) -> Seq<char> {
        match self {
            Self::Packets => "SAI_INGRESS_PRIORITY_GROUP_STAT_PACKETS"@,
            Self::Bytes => "SAI_INGRESS_PRIORITY_GROUP_STAT_BYTES"@,
            Self::CurrOccupancyBytes => "SAI_INGRESS_PRIORITY_GROUP_STAT_CURR_OCCUPANCY_BYTES"@,
            Self::WatermarkBytes => "SAI_INGRESS_PRIORITY_GROUP_STAT_WATERMARK_BYTES"@,
            Self::SharedCurrOccupancyBytes => "SAI_INGRESS_PRIORITY_GROUP_STAT_SHARED_CURR_OCCUPANCY_BYTES"@,
            Self::SharedWatermarkBytes => "SAI_INGRESS_PRIORITY_GROUP_STAT_SHARED_WATERMARK_BYTES"@,
            Self::XoffRoomCurrOccupancyBytes => "SAI_INGRESS_PRIORITY_GROUP_STAT_XOFF_ROOM_CURR_OCCUPANCY_BYTES"@,
            Self::XoffRoomWatermarkBytes => "SAI_INGRESS_PRIORITY_GROUP_STAT_XOFF_ROOM_WATERMARK_BYTES"@,
            Self::DroppedPackets => "SAI_INGRESS_PRIORITY_GROUP_STAT_DROPPED_PACKETS"@,
            Self::CurrOccupancyCells => "SAI_INGRESS_PRIORITY_GROUP_STAT_CURR_OCCUPANCY_CELLS"@,
            Self::WatermarkCells => "SAI_INGRESS_PRIORITY_GROUP_STAT_WATERMARK_CELLS"@,
            Self::SharedCurrOccupancyCells => "SAI_INGRESS_PRIORITY_GROUP_STAT_SHARED_CURR_OCCUPANCY_CELLS"@,
            Self::SharedWatermarkCells => "SAI_INGRESS_PRIORITY_GROUP_STAT_SHARED_WATERMARK_CELLS"@,
            Self::XoffRoomCurrOccupancyCells => "SAI_INGRESS_PRIORITY_GROUP_STAT_XOFF_ROOM_CURR_OCCUPANCY_CELLS"@,
            Self::XoffRoomWatermarkCells => "SAI_INGRESS_PRIORITY_GROUP_STAT_XOFF_ROOM_WATERMARK_CELLS"@,
            Self::CustomRangeBase => "SAI_INGRESS_PRIORITY_GROUP_STAT_CUSTOM_RANGE_BASE"@,
        }
    }

    /// The statistic whose C name is `s`, if any.
    pub open spec fn spec_from_c_name(s: Seq<char>) -> Option<Self> {
        if s == "SAI_INGRESS_PRIORITY_GROUP_STAT_PACKETS"@ {
            Some(Self::Packets)
        } else if s == "SAI_INGRESS_PRIORITY_GROUP_STAT_BYTES"@ {
            Some(Self::Bytes)
        } else if s == "SAI_INGRESS_PRIORITY_GROUP_STAT_CURR_OCCUPANCY_BYTES"@ {
            Some(Self::CurrOccupancyBytes)
        } else if s == "SAI_INGRESS_PRIORITY_GROUP_STAT_WATERMARK_BYTES"@ {
            Some(Self::WatermarkBytes)
        } else if s == "SAI_INGRESS_PRIORITY_GROUP_STAT_SHARED_CURR_OCCUPANCY_BYTES"@ {
            Some(Self::SharedCurrOccupancyBytes)
        } else if s == "SAI_INGRESS_PRIORITY_GROUP_STAT_SHARED_WATERMARK_BYTES"@ {
            Some(Self::SharedWatermarkBytes)
        } else if s == "SAI_INGRESS_PRIORITY_GROUP_STAT_XOFF_ROOM_CURR_OCCUPANCY_BYTES"@ {
            Some(Self::XoffRoomCurrOccupancyBytes)
        } else if s == "SAI_INGRESS_PRIORITY_GROUP_STAT_XOFF_ROOM_WATERMARK_BYTES"@ {
            Some(Self::XoffRoomWatermarkBytes)
        } else if s == "SAI_INGRESS_PRIORITY_GROUP_STAT_DROPPED_PACKETS"@ {
            Some(Self::DroppedPackets)
        } else if s == "SAI_INGRESS_PRIORITY_GROUP_STAT_CURR_OCCUPANCY_CELLS"@ {
            Some(Self::CurrOccupancyCells)
        } else if s == "SAI_INGRESS_PRIORITY_GROUP_STAT_WATERMARK_CELLS"@ {
            Some(Self::WatermarkCells)
        } else if s == "SAI_INGRESS_PRIORITY_GROUP_STAT_SHARED_CURR_OCCUPANCY_CELLS"@ {
            Some(Self::SharedCurrOccupancyCells)
        } else if s == "SAI_INGRESS_PRIORITY_GROUP_STAT_SHARED_WATERMARK_CELLS"@ {
            Some(Self::SharedWatermarkCells)
        } else if s == "SAI_INGRESS_PRIORITY_GROUP_STAT_XOFF_ROOM_CURR_OCCUPANCY_CELLS"@ {
            Some(Self::XoffRoomCurrOccupancyCells)
        } else if s == "SAI_INGRESS_PRIORITY_GROUP_STAT_XOFF_ROOM_WATERMARK_CELLS"@ {
            Some(Self::XoffRoomWatermarkCells)
        } else if s == "SAI_INGRESS_PRIORITY_GROUP_STAT_CUSTOM_RANGE_BASE"@ {
            Some(Self::CustomRangeBase)
        } else {
            None
        }
    }

    /// Each C name leads back to its own statistic: no two statistics share
    /// a name.
    #[verifier::rlimit(100)]
    pub proof fn lemma_c_name_lookup(v: Self)
        ensures
            Self::spec_from_c_name(v.spec_c_name()) == Some(v),
    {
        reveal_strlit("SAI_INGRESS_PRIORITY_GROUP_STAT_PACKETS");
        assert("SAI_INGRESS_PRIORITY_GROUP_STAT_PACKETS"@.len() == 39);
        reveal_strlit("SAI_INGRESS_PRIORITY_GROUP_STAT_BYTES");
        assert("SAI_INGRESS_PRIORITY_GROUP_STAT_BYTES"@.len() == 37);
        reveal_strlit("SAI_INGRESS_PRIORITY_GROUP_STAT_CURR_OCCUPANCY_BYTES");
        assert("SAI_INGRESS_PRIORITY_GROUP_STAT_CURR_OCCUPANCY_BYTES"@.len() == 52);
        assert("SAI_INGRESS_PRIORITY_GROUP_STAT_CURR_OCCUPANCY_BYTES"@[47] == 'B');
        reveal_strlit("SAI_INGRESS_PRIORITY_GROUP_STAT_WATERMARK_BYTES");
        assert("SAI_INGRESS_PRIORITY_GROUP_STAT_WATERMARK_BYTES"@.len() == 47);
        assert("SAI_INGRESS_PRIORITY_GROUP_STAT_WATERMARK_BYTES"@[32] == 'W');
        assert("SAI_INGRESS_PRIORITY_GROUP_STAT_WATERMARK_BYTES"@[42] == 'B');
        reveal_strlit("SAI_INGRESS_PRIORITY_GROUP_STAT_SHARED_CURR_OCCUPANCY_BYTES");
        assert("SAI_INGRESS_PRIORITY_GROUP_STAT_SHARED_CURR_OCCUPANCY_BYTES"@.len() == 59);
        assert("SAI_INGRESS_PRIORITY_GROUP_STAT_SHARED_CURR_OCCUPANCY_BYTES"@[54] == 'B');
        reveal_strlit("SAI_INGRESS_PRIORITY_GROUP_STAT_SHARED_WATERMARK_BYTES");
        assert("SAI_INGRESS_PRIORITY_GROUP_STAT_SHARED_WATERMARK_BYTES"@.len() == 54);
        assert("SAI_INGRESS_PRIORITY_GROUP_STAT_SHARED_WATERMARK_BYTES"@[49] == 'B');
        reveal_strlit("SAI_INGRESS_PRIORITY_GROUP_STAT_XOFF_ROOM_CURR_OCCUPANCY_BYTES");
        assert("SAI_INGRESS_PRIORITY_GROUP_STAT_XOFF_ROOM_CURR_OCCUPANCY_BYTES"@.len() == 62);
        assert("SAI_INGRESS_PRIORITY_GROUP_STAT_XOFF_ROOM_CURR_OCCUPANCY_BYTES"@[57] == 'B');
        reveal_strlit("SAI_INGRESS_PRIORITY_GROUP_STAT_XOFF_ROOM_WATERMARK_BYTES");
        assert("SAI_INGRESS_PRIORITY_GROUP_STAT_XOFF_ROOM_WATERMARK_BYTES"@.len() == 57);
        assert("SAI_INGRESS_PRIORITY_GROUP_STAT_XOFF_ROOM_WATERMARK_BYTES"@[52] == 'B');
        reveal_strlit("SAI_INGRESS_PRIORITY_GROUP_STAT_DROPPED_PACKETS");
        assert("SAI_INGRESS_PRIORITY_GROUP_STAT_DROPPED_PACKETS"@.len() == 47);
        assert("SAI_INGRESS_PRIORITY_GROUP_STAT_DROPPED_PACKETS"@[32] == 'D');
        reveal_strlit("SAI_INGRESS_PRIORITY_GROUP_STAT_CURR_OCCUPANCY_CELLS");
        assert("SAI_INGRESS_PRIORITY_GROUP_STAT_CURR_OCCUPANCY_CELLS"@.len() == 52);
        assert("SAI_INGRESS_PRIORITY_GROUP_STAT_CURR_OCCUPANCY_CELLS"@[47] == 'C');
        reveal_strlit("SAI_INGRESS_PRIORITY_GROUP_STAT_WATERMARK_CELLS");
        assert("SAI_INGRESS_PRIORITY_GROUP_STAT_WATERMARK_CELLS"@.len() == 47);
        assert("SAI_INGRESS_PRIORITY_GROUP_STAT_WATERMARK_CELLS"@[32] == 'W');
        assert("SAI_INGRESS_PRIORITY_GROUP_STAT_WATERMARK_CELLS"@[42] == 'C');
        reveal_strlit("SAI_INGRESS_PRIORITY_GROUP_STAT_SHARED_CURR_OCCUPANCY_CELLS");
        assert("SAI_INGRESS_PRIORITY_GROUP_STAT_SHARED_CURR_OCCUPANCY_CELLS"@.len() == 59);
        assert("SAI_INGRESS_PRIORITY_GROUP_STAT_SHARED_CURR_OCCUPANCY_CELLS"@[54] == 'C');
        reveal_strlit("SAI_INGRESS_PRIORITY_GROUP_STAT_SHARED_WATERMARK_CELLS");
        assert("SAI_INGRESS_PRIORITY_GROUP_STAT_SHARED_WATERMARK_CELLS"@.len() == 54);
        assert("SAI_INGRESS_PRIORITY_GROUP_STAT_SHARED_WATERMARK_CELLS"@[49] == 'C');
        reveal_strlit("SAI_INGRESS_PRIORITY_GROUP_STAT_XOFF_ROOM_CURR_OCCUPANCY_CELLS");
        assert("SAI_INGRESS_PRIORITY_GROUP_STAT_XOFF_ROOM_CURR_OCCUPANCY_CELLS"@.len() == 62);
        assert("SAI_INGRESS_PRIORITY_GROUP_STAT_XOFF_ROOM_CURR_OCCUPANCY_CELLS"@[57] == 'C');
        reveal_strlit("SAI_INGRESS_PRIORITY_GROUP_STAT_XOFF_ROOM_WATERMARK_CELLS");
        assert("SAI_INGRESS_PRIORITY_GROUP_STAT_XOFF_ROOM_WATERMARK_CELLS"@.len() == 57);
        assert("SAI_INGRESS_PRIORITY_GROUP_STAT_XOFF_ROOM_WATERMARK_CELLS"@[52] == 'C');
        reveal_strlit("SAI_INGRESS_PRIORITY_GROUP_STAT_CUSTOM_RANGE_BASE");
        assert("SAI_INGRESS_PRIORITY_GROUP_STAT_CUSTOM_RANGE_BASE"@.len() == 49);
    }

    /// Law: statistics with the same C name are the same statistic.
    pub proof fn lemma_c_name_injective(a: Self, b: Self)
        ensures
            a.spec_c_name() == b.spec_c_name() ==> a == b,
    {
        Self::lemma_c_name_lookup(a);
        Self::lemma_c_name_lookup(b);
    }

    /// The value the C enum `sai_ingress_priority_group_stat_t` gives the statistic named `name`, if
    /// it names one.
    pub open spec fn spec_c_enum_value(name: Seq<char>) -> Option<u32> {
        if name == "SAI_INGRESS_PRIORITY_GROUP_STAT_PACKETS"@ {
            Some(0u32)
        } else if name == "SAI_INGRESS_PRIORITY_GROUP_STAT_BYTES"@ {
            Some(1u32)
        } else if name == "SAI_INGRESS_PRIORITY_GROUP_STAT_CURR_OCCUPANCY_BYTES"@ {
            Some(2u32)
        } else if name == "SAI_INGRESS_PRIORITY_GROUP_STAT_WATERMARK_BYTES"@ {
            Some(3u32)
        } else if name == "SAI_INGRESS_PRIORITY_GROUP_STAT_SHARED_CURR_OCCUPANCY_BYTES"@ {
            Some(4u32)
        } else if name == "SAI_INGRESS_PRIORITY_GROUP_STAT_SHARED_WATERMARK_BYTES"@ {
            Some(5u32)
        } else if name == "SAI_INGRESS_PRIORITY_GROUP_STAT_XOFF_ROOM_CURR_OCCUPANCY_BYTES"@ {
            Some(6u32)
        } else if name == "SAI_INGRESS_PRIORITY_GROUP_STAT_XOFF_ROOM_WATERMARK_BYTES"@ {
            Some(7u32)
        } else if name == "SAI_INGRESS_PRIORITY_GROUP_STAT_DROPPED_PACKETS"@ {
            Some(8u32)
        } else if name == "SAI_INGRESS_PRIORITY_GROUP_STAT_CURR_OCCUPANCY_CELLS"@ {
            Some(9u32)
        } else if name == "SAI_INGRESS_PRIORITY_GROUP_STAT_WATERMARK_CELLS"@ {
            Some(10u32)
        } else if name == "SAI_INGRESS_PRIORITY_GROUP_STAT_SHARED_CURR_OCCUPANCY_CELLS"@ {
            Some(11u32)
        } else if name == "SAI_INGRESS_PRIORITY_GROUP_STAT_SHARED_WATERMARK_CELLS"@ {
            Some(12u32)
        } else if name == "SAI_INGRESS_PRIORITY_GROUP_STAT_XOFF_ROOM_CURR_OCCUPANCY_CELLS"@ {
            Some(13u32)
        } else if name == "SAI_INGRESS_PRIORITY_GROUP_STAT_XOFF_ROOM_WATERMARK_CELLS"@ {
            Some(14u32)
        } else if name == "SAI_INGRESS_PRIORITY_GROUP_STAT_CUSTOM_RANGE_BASE"@ {
            Some(268435456u32)
        } else {
            None
        }
    }

    /// Law: every statistic has the value the C enum `sai_ingress_priority_group_stat_t` gives its
    /// name.
    #[verifier::rlimit(100)]
    pub proof fn lemma_values_follow_c_enum(v: Self)
        ensures
            Self::spec_c_enum_value(v.spec_c_name()) == Some(v.spec_to_u32()),
    {
        reveal_strlit("SAI_INGRESS_PRIORITY_GROUP_STAT_PACKETS");
        assert("SAI_INGRESS_PRIORITY_GROUP_STAT_PACKETS"@.len() == 39);
        reveal_strlit("SAI_INGRESS_PRIORITY_GROUP_STAT_BYTES");
        assert("SAI_INGRESS_PRIORITY_GROUP_STAT_BYTES"@.len() == 37);
        reveal_strlit("SAI_INGRESS_PRIORITY_GROUP_STAT_CURR_OCCUPANCY_BYTES");
        assert("SAI_INGRESS_PRIORITY_GROUP_STAT_CURR_OCCUPANCY_BYTES"@.len() == 52);
        assert("SAI_INGRESS_PRIORITY_GROUP_STAT_CURR_OCCUPANCY_BYTES"@[47] == 'B');
        reveal_strlit("SAI_INGRESS_PRIORITY_GROUP_STAT_WATERMARK_BYTES");
        assert("SAI_INGRESS_PRIORITY_GROUP_STAT_WATERMARK_BYTES"@.len() == 47);
        assert("SAI_INGRESS_PRIORITY_GROUP_STAT_WATERMARK_BYTES"@[32] == 'W');
        assert("SAI_INGRESS_PRIORITY_GROUP_STAT_WATERMARK_BYTES"@[42] == 'B');
        reveal_strlit("SAI_INGRESS_PRIORITY_GROUP_STAT_SHARED_CURR_OCCUPANCY_BYTES");
        assert("SAI_INGRESS_PRIORITY_GROUP_STAT_SHARED_CURR_OCCUPANCY_BYTES"@.len() == 59);
        assert("SAI_INGRESS_PRIORITY_GROUP_STAT_SHARED_CURR_OCCUPANCY_BYTES"@[54] == 'B');
        reveal_strlit("SAI_INGRESS_PRIORITY_GROUP_STAT_SHARED_WATERMARK_BYTES");
        assert("SAI_INGRESS_PRIORITY_GROUP_STAT_SHARED_WATERMARK_BYTES"@.len() == 54);
        assert("SAI_INGRESS_PRIORITY_GROUP_STAT_SHARED_WATERMARK_BYTES"@[49] == 'B');
        reveal_strlit("SAI_INGRESS_PRIORITY_GROUP_STAT_XOFF_ROOM_CURR_OCCUPANCY_BYTES");
        assert("SAI_INGRESS_PRIORITY_GROUP_STAT_XOFF_ROOM_CURR_OCCUPANCY_BYTES"@.len() == 62);
        assert("SAI_INGRESS_PRIORITY_GROUP_STAT_XOFF_ROOM_CURR_OCCUPANCY_BYTES"@[57] == 'B');
        reveal_strlit("SAI_INGRESS_PRIORITY_GROUP_STAT_XOFF_ROOM_WATERMARK_BYTES");
        assert("SAI_INGRESS_PRIORITY_GROUP_STAT_XOFF_ROOM_WATERMARK_BYTES"@.len() == 57);
        assert("SAI_INGRESS_PRIORITY_GROUP_STAT_XOFF_ROOM_WATERMARK_BYTES"@[52] == 'B');
        reveal_strlit("SAI_INGRESS_PRIORITY_GROUP_STAT_DROPPED_PACKETS");
        assert("SAI_INGRESS_PRIORITY_GROUP_STAT_DROPPED_PACKETS"@.len() == 47);
        assert("SAI_INGRESS_PRIORITY_GROUP_STAT_DROPPED_PACKETS"@[32] == 'D');
        reveal_strlit("SAI_INGRESS_PRIORITY_GROUP_STAT_CURR_OCCUPANCY_CELLS");
        assert("SAI_INGRESS_PRIORITY_GROUP_STAT_CURR_OCCUPANCY_CELLS"@.len() == 52);
        assert("SAI_INGRESS_PRIORITY_GROUP_STAT_CURR_OCCUPANCY_CELLS"@[47] == 'C');
        reveal_strlit("SAI_INGRESS_PRIORITY_GROUP_STAT_WATERMARK_CELLS");
        assert("SAI_INGRESS_PRIORITY_GROUP_STAT_WATERMARK_CELLS"@.len() == 47);
        assert("SAI_INGRESS_PRIORITY_GROUP_STAT_WATERMARK_CELLS"@[32] == 'W');
        assert("SAI_INGRESS_PRIORITY_GROUP_STAT_WATERMARK_CELLS"@[42] == 'C');
        reveal_strlit("SAI_INGRESS_PRIORITY_GROUP_STAT_SHARED_CURR_OCCUPANCY_CELLS");
        assert("SAI_INGRESS_PRIORITY_GROUP_STAT_SHARED_CURR_OCCUPANCY_CELLS"@.len() == 59);
        assert("SAI_INGRESS_PRIORITY_GROUP_STAT_SHARED_CURR_OCCUPANCY_CELLS"@[54] == 'C');
        reveal_strlit("SAI_INGRESS_PRIORITY_GROUP_STAT_SHARED_WATERMARK_CELLS");
        assert("SAI_INGRESS_PRIORITY_GROUP_STAT_SHARED_WATERMARK_CELLS"@.len() == 54);
        assert("SAI_INGRESS_PRIORITY_GROUP_STAT_SHARED_WATERMARK_CELLS"@[49] == 'C');
        reveal_strlit("SAI_INGRESS_PRIORITY_GROUP_STAT_XOFF_ROOM_CURR_OCCUPANCY_CELLS");
        assert("SAI_INGRESS_PRIORITY_GROUP_STAT_XOFF_ROOM_CURR_OCCUPANCY_CELLS"@.len() == 62);
        assert("SAI_INGRESS_PRIORITY_GROUP_STAT_XOFF_ROOM_CURR_OCCUPANCY_CELLS"@[57] == 'C');
        reveal_strlit("SAI_INGRESS_PRIORITY_GROUP_STAT_XOFF_ROOM_WATERMARK_CELLS");
        assert("SAI_INGRESS_PRIORITY_GROUP_STAT_XOFF_ROOM_WATERMARK_CELLS"@.len() == 57);
        assert("SAI_INGRESS_PRIORITY_GROUP_STAT_XOFF_ROOM_WATERMARK_CELLS"@[52] == 'C');
        reveal_strlit("SAI_INGRESS_PRIORITY_GROUP_STAT_CUSTOM_RANGE_BASE");
        assert("SAI_INGRESS_PRIORITY_GROUP_STAT_CUSTOM_RANGE_BASE"@.len() == 49);
    }

    /// Law: a value converts to the statistic that the C enum `sai_ingress_priority_group_stat_t`
    /// gives that value.
    pub proof fn lemma_from_u32_follows_c_enum(x: u32)
        ensures
            Self::spec_from_u32(x) matches Some(w) ==> Self::spec_c_enum_value(w.spec_c_name()) == Some(x),
    {
        Self::lemma_from_u32_inverse(x);
        if let Some(w) = Self::spec_from_u32(x) {
            Self::lemma_values_follow_c_enum(w);
        }
    }

    /// Statistic at position `i` of the C enum.
    pub open spec fn spec_at(i: int) -> Self {
        if i <= 0 {
            Self::Packets
        } else if i == 1 {
            Self::Bytes
        } else if i == 2 {
            Self::CurrOccupancyBytes
        } else if i == 3 {
            Self::WatermarkBytes
        } else if i == 4 {
            Self::SharedCurrOccupancyBytes
        } else if i == 5 {
            Self::SharedWatermarkBytes
        } else if i == 6 {
            Self::XoffRoomCurrOccupancyBytes
        } else if i == 7 {
            Self::XoffRoomWatermarkBytes
        } else if i == 8 {
            Self::DroppedPackets
        } else if i == 9 {
            Self::CurrOccupancyCells
        } else if i == 10 {
            Self::WatermarkCells
        } else if i == 11 {
            Self::SharedCurrOccupancyCells
        } else if i == 12 {
            Self::SharedWatermarkCells
        } else if i == 13 {
            Self::XoffRoomCurrOccupancyCells
        } else if i == 14 {
            Self::XoffRoomWatermarkCells
        } else {
            Self::CustomRangeBase
        }
    }

    /// Position of this statistic in the C enum.
    pub open spec fn spec_index(self) -> int {
        match self {
            Self::Packets => 0,
            Self::Bytes => 1,
            Self::CurrOccupancyBytes => 2,
            Self::WatermarkBytes => 3,
            Self::SharedCurrOccupancyBytes => 4,
            Self::SharedWatermarkBytes => 5,
            Self::XoffRoomCurrOccupancyBytes => 6,
            Self::XoffRoomWatermarkBytes => 7,
            Self::DroppedPackets => 8,
            Self::CurrOccupancyCells => 9,
            Self::WatermarkCells => 10,
            Self::SharedCurrOccupancyCells => 11,
            Self::SharedWatermarkCells => 12,
            Self::XoffRoomCurrOccupancyCells => 13,
            Self::XoffRoomWatermarkCells => 14,
            Self::CustomRangeBase => 15,
        }
    }

    /// Statistic with value `value` in the C enum, if any.
    pub fn from_u32(value: u32) -> (r: Option<Self>)
        ensures
            r == Self::spec_from_u32(value),
    {
        match value {
            0x00000000 => Some(Self::Packets),
            0x00000001 => Some(Self::Bytes),
            0x00000002 => Some(Self::CurrOccupancyBytes),
            0x00000003 => Some(Self::WatermarkBytes),
            0x00000004 => Some(Self::SharedCurrOccupancyBytes),
            0x00000005 => Some(Self::SharedWatermarkBytes),
            0x00000006 => Some(Self::XoffRoomCurrOccupancyBytes),
            0x00000007 => Some(Self::XoffRoomWatermarkBytes),
            0x00000008 => Some(Self::DroppedPackets),
            0x00000009 => Some(Self::CurrOccupancyCells),
            0x0000000a => Some(Self::WatermarkCells),
            0x0000000b => Some(Self::SharedCurrOccupancyCells),
            0x0000000c => Some(Self::SharedWatermarkCells),
            0x0000000d => Some(Self::XoffRoomCurrOccupancyCells),
            0x0000000e => Some(Self::XoffRoomWatermarkCells),
            0x10000000 => Some(Self::CustomRangeBase),
            _ => None,
        }
    }

    /// Value of this statistic in the C enum.
    pub fn to_u32(self) -> (r: u32)
        ensures
            r == self.spec_to_u32(),
    {
        match self {
            Self::Packets => 0x00000000,
            Self::Bytes => 0x00000001,
            Self::CurrOccupancyBytes => 0x00000002,
            Self::WatermarkBytes => 0x00000003,
            Self::SharedCurrOccupancyBytes => 0x00000004,
            Self::SharedWatermarkBytes => 0x00000005,
            Self::XoffRoomCurrOccupancyBytes => 0x00000006,
            Self::XoffRoomWatermarkBytes => 0x00000007,
            Self::DroppedPackets => 0x00000008,
            Self::CurrOccupancyCells => 0x00000009,
            Self::WatermarkCells => 0x0000000a,
            Self::SharedCurrOccupancyCells => 0x0000000b,
            Self::SharedWatermarkCells => 0x0000000c,
            Self::XoffRoomCurrOccupancyCells => 0x0000000d,
            Self::XoffRoomWatermarkCells => 0x0000000e,
            Self::CustomRangeBase => 0x10000000,
        }
    }

    /// Name of this statistic in the C enum.
    pub fn to_c_name(self) -> (r: &'static str)
        ensures
            r@ == self.spec_c_name(),
    {
        match self {
            Self::Packets => "SAI_INGRESS_PRIORITY_GROUP_STAT_PACKETS",
            Self::Bytes => "SAI_INGRESS_PRIORITY_GROUP_STAT_BYTES",
            Self::CurrOccupancyBytes => "SAI_INGRESS_PRIORITY_GROUP_STAT_CURR_OCCUPANCY_BYTES",
            Self::WatermarkBytes => "SAI_INGRESS_PRIORITY_GROUP_STAT_WATERMARK_BYTES",
            Self::SharedCurrOccupancyBytes => "SAI_INGRESS_PRIORITY_GROUP_STAT_SHARED_CURR_OCCUPANCY_BYTES",
            Self::SharedWatermarkBytes => "SAI_INGRESS_PRIORITY_GROUP_STAT_SHARED_WATERMARK_BYTES",
            Self::XoffRoomCurrOccupancyBytes => "SAI_INGRESS_PRIORITY_GROUP_STAT_XOFF_ROOM_CURR_OCCUPANCY_BYTES",
            Self::XoffRoomWatermarkBytes => "SAI_INGRESS_PRIORITY_GROUP_STAT_XOFF_ROOM_WATERMARK_BYTES",
            Self::DroppedPackets => "SAI_INGRESS_PRIORITY_GROUP_STAT_DROPPED_PACKETS",
            Self::CurrOccupancyCells => "SAI_INGRESS_PRIORITY_GROUP_STAT_CURR_OCCUPANCY_CELLS",
            Self::WatermarkCells => "SAI_INGRESS_PRIORITY_GROUP_STAT_WATERMARK_CELLS",
            Self::SharedCurrOccupancyCells => "SAI_INGRESS_PRIORITY_GROUP_STAT_SHARED_CURR_OCCUPANCY_CELLS",
            Self::SharedWatermarkCells => "SAI_INGRESS_PRIORITY_GROUP_STAT_SHARED_WATERMARK_CELLS",
            Self::XoffRoomCurrOccupancyCells => "SAI_INGRESS_PRIORITY_GROUP_STAT_XOFF_ROOM_CURR_OCCUPANCY_CELLS",
            Self::XoffRoomWatermarkCells => "SAI_INGRESS_PRIORITY_GROUP_STAT_XOFF_ROOM_WATERMARK_CELLS",
            Self::CustomRangeBase => "SAI_INGRESS_PRIORITY_GROUP_STAT_CUSTOM_RANGE_BASE",
        }
    }

    /// Statistic at position `i` of the C enum.
    fn at(i: usize) -> (r: Self)
        requires
            i < Self::COUNT,
        ensures
            r == Self::spec_at(i as int),
    {
        match i {
            0 => Self::Packets,
            1 => Self::Bytes,
            2 => Self::CurrOccupancyBytes,
            3 => Self::WatermarkBytes,
            4 => Self::SharedCurrOccupancyBytes,
            5 => Self::SharedWatermarkBytes,
            6 => Self::XoffRoomCurrOccupancyBytes,
            7 => Self::XoffRoomWatermarkBytes,
            8 => Self::DroppedPackets,
            9 => Self::CurrOccupancyCells,
            10 => Self::WatermarkCells,
            11 => Self::SharedCurrOccupancyCells,
            12 => Self::SharedWatermarkCells,
            13 => Self::XoffRoomCurrOccupancyCells,
            14 => Self::XoffRoomWatermarkCells,
            _ => Self::CustomRangeBase,
        }
    }

    /// Every statistic sits at its position in the C enum.
    pub proof fn lemma_at_index(s: Self)
        ensures
            0 <= s.spec_index() < Self::COUNT,
            Self::spec_at(s.spec_index()) == s,
    {
    }

    /// Law: converting a statistic to its value and back gives the statistic.
    pub proof fn lemma_u32_roundtrip(s: Self)
        ensures
            Self::spec_from_u32(s.spec_to_u32()) == Some(s),
    {
    }

    /// Law: a value converts to a statistic only if that statistic has the value.
    pub proof fn lemma_from_u32_inverse(value: u32)
        ensures
            Self::spec_from_u32(value) matches Some(s) ==> s.spec_to_u32() == value,
    {
    }

    /// Statistic whose C name is `s`.
    pub fn from_c_name(s: &str) -> (r: Result<Self, ()>)
        ensures
            match r {
                Ok(v) => s@ == v.spec_c_name(),
                Err(_) => forall|v: Self| s@ != #[trigger] v.spec_c_name(),
            },
    {
        let mut i: usize = 0;
        while i < Self::COUNT
            invariant
                i <= Self::COUNT,
                forall|j: int| 0 <= j < i ==> s@ != #[trigger] Self::spec_at(j).spec_c_name(),
            decreases Self::COUNT - i,
        {
            let v = Self::at(i);
            if str_eq(s, v.to_c_name()) {
                return Ok(v);
            }
            i = i + 1;
        }
        assert forall|v: Self| s@ != #[trigger] v.spec_c_name() by {
            Self::lemma_at_index(v);
            assert(s@ != Self::spec_at(v.spec_index()).spec_c_name());
        }
        Err(())
    }
}

impl FromStr for SaiIngressPriorityGroupStat {
    type Err = ();

    fn from_str(s: &str) -> (r: Result<Self, Self::Err>)
        ensures
            match r {
                Ok(v) => s@ == v.spec_c_name(),
                Err(_) => forall|v: Self| s@ != #[trigger] v.spec_c_name(),
            },
            forall|v: Self| s@ == #[trigger] v.spec_c_name() ==> (r matches Ok(w) && w == v),
    {
        let r = Self::from_c_name(s);
        proof {
            assert forall|v: Self| s@ == #[trigger] v.spec_c_name() implies (r matches Ok(w) && w == v) by {
                Self::lemma_c_name_lookup(v);
                if let Ok(w) = r {
                    Self::lemma_c_name_injective(v, w);
                }
            }
        }
        r
    }
}

} // verus!
