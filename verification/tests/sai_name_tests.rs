use countersyncd::sai::{SaiBufferPoolStat, SaiIngressPriorityGroupStat, SaiObjectType, SaiPortStat, SaiQueueStat};

fn values() -> impl Iterator<Item = u32> {
    (0u32..=0x3000).chain(0x1000_0000u32..=0x1000_0010)
}

#[test]
fn port_names_and_values_round_trip() {
    let mut seen = 0;
    for v in values() {
        if let Some(s) = SaiPortStat::from_u32(v) {
            seen += 1;
            assert_eq!(s.to_u32(), v);
            assert_eq!(s.to_c_name().parse::<SaiPortStat>(), Ok(s), "{}", s.to_c_name());
        }
    }
    assert!(seen > 200);
    assert_eq!(
        "SAI_PORT_STAT_NOPE".parse::<SaiPortStat>(),
        Err("Unknown SAI port stat: SAI_PORT_STAT_NOPE".to_string())
    );
}

#[test]
fn queue_names_and_values_round_trip() {
    let mut seen = 0;
    for v in values() {
        if let Some(s) = SaiQueueStat::from_u32(v) {
            seen += 1;
            assert_eq!(s.to_u32(), v);
            assert_eq!(s.to_c_name().parse::<SaiQueueStat>(), Ok(s));
        }
    }
    assert!(seen > 40);
    assert_eq!("SAI_QUEUE_STAT_NOPE".parse::<SaiQueueStat>(), Err(()));
}

#[test]
fn buffer_names_and_values_round_trip() {
    for v in values() {
        if let Some(s) = SaiBufferPoolStat::from_u32(v) {
            assert_eq!(s.to_u32(), v);
            assert_eq!(s.to_c_name().parse::<SaiBufferPoolStat>(), Ok(s));
        }
        if let Some(s) = SaiIngressPriorityGroupStat::from_u32(v) {
            assert_eq!(s.to_u32(), v);
            assert_eq!(s.to_c_name().parse::<SaiIngressPriorityGroupStat>(), Ok(s));
        }
    }
    assert_eq!(
        "SAI_BUFFER_POOL_STAT_NOPE".parse::<SaiBufferPoolStat>(),
        Err("Unknown buffer pool stat: SAI_BUFFER_POOL_STAT_NOPE".to_string())
    );
    assert_eq!("x".parse::<SaiIngressPriorityGroupStat>(), Err(()));
}

#[test]
fn object_types_round_trip() {
    for v in 0u32..100 {
        if let Some(t) = SaiObjectType::from_u32(v) {
            assert_eq!(t.to_u32(), v);
        }
    }
    assert_eq!(SaiObjectType::Port.to_c_name(), "SAI_OBJECT_TYPE_PORT");
    assert_eq!(SaiObjectType::from_u32(2), None);
}
