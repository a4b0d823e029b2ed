use std::collections::BTreeMap;

use iroh::rpc_protocol::{
    CounterStats, DocDelResponse, DownloadMode, NodeShutdownRequest, NodeStatsResponse,
    ShareMode, WrapOption,
};

#[test]
fn messages_hold_their_fields() {
    let w = WrapOption::Wrap { name: Some("dir".to_string()) };
    assert!(matches!(w, WrapOption::Wrap { name: Some(ref n) } if n == "dir"));
    assert_ne!(WrapOption::NoWrap, w);
    assert_ne!(DownloadMode::Direct, DownloadMode::Queued);
    assert_ne!(ShareMode::Read, ShareMode::Write);
    assert!(NodeShutdownRequest { force: true }.force);
    assert_eq!(DocDelResponse { removed: 3 }.removed, 3);
    let mut stats = BTreeMap::new();
    stats.insert(
        "downloads".to_string(),
        CounterStats { value: 7, description: "Total number of downloads".to_string() },
    );
    let resp = NodeStatsResponse { stats };
    assert_eq!(resp.stats["downloads"].value, 7);
}
