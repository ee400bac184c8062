//! Plain records that requests carry.

use vstd::prelude::*;

verus! {

/// Seconds in a day.
pub const SECS_PER_DAY: u64 = 86400;

/// A shard space of a database: which series it holds, how long it keeps
/// them and how it splits and replicates them. Durations are in seconds.
#[derive(Debug, Clone)]
pub struct ShardSpace {
    pub name: String,
    pub retention_policy: u64,
    pub shard_duration: u64,
    pub regex: String,
    pub replication_factor: u16,
    pub split: u16,
}

impl Default for ShardSpace {
    /// An unnamed shard space over every series (`.*`), kept for 60 days in
    /// shards of 14 days, with one replica and one split.
    fn default() -> (r: ShardSpace)
        ensures
            r.name@.len() == 0,
            r.retention_policy == 60 * SECS_PER_DAY,
            r.shard_duration == 14 * SECS_PER_DAY,
            r.regex@ == seq!['.', '*'],
            r.replication_factor == 1,
            r.split == 1,
    {
        let regex = String::from_str(".*");
        proof {
            reveal_strlit(".*");
        }
        assert(regex@ =~= seq!['.', '*']);
        ShardSpace {
            name: String::new(),
            retention_policy: 60 * SECS_PER_DAY,
            shard_duration: 14 * SECS_PER_DAY,
            regex,
            replication_factor: 1,
            split: 1,
        }
    }
}

/// A data point: serialized data and the time it was taken, as seconds and
/// nanoseconds since the Unix epoch.
#[derive(Debug, Clone, PartialEq)]
pub struct DataPoint {
    pub time_sec: i64,
    pub time_nsec: i32,
    pub data: String,
}

} // verus!
