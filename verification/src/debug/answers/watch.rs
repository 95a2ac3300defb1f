//! Answers about the access counts.

use std::collections::HashMap;

use vstd::prelude::*;

use crate::debug::counts;
use crate::debug::session::{watched, Probes, Reply};

verus! {

/// A watch is switched on, with nothing counted yet, or off.
#[verifier::opaque]
pub open spec fn switches_watch(was: Probes, is: Probes, reply: Reply, enable: bool, reads: bool) -> bool {
    let watch = if enable {
        Some(Map::<u32, u64>::empty())
    } else {
        None
    };
    &&& reply is Done
    &&& is.break_write_addr == was.break_write_addr
    &&& is.write_hit == was.write_hit
    &&& if reads {
        watched(is.read_watch) == watch && is.write_watch
            == was.write_watch
    } else {
        watched(is.write_watch) == watch && is.read_watch
            == was.read_watch
    }
}

/// The counts of a watch are told.
#[verifier::opaque]
pub open spec fn reports_watch(probes: Probes, reply: Reply, top: u64, reads: bool) -> bool {
    match watched(
        if reads {
            probes.read_watch
        } else {
            probes.write_watch
        },
    ) {
        Some(counts) => reply matches Reply::Counts(entries) && counts::is_top(
            entries@,
            counts,
            (top as usize) as nat,
        ),
        None => reply is NotWatching,
    }
}

/// `memory.watch`
pub fn watch(probes: &mut Probes, enable: bool, reads: bool) -> (reply: Reply)
    ensures
        switches_watch(*old(probes), *final(probes), reply, enable, reads),
{
    reveal(switches_watch);
    let watch = if enable {
        Some(HashMap::new())
    } else {
        None
    };
    if reads {
        probes.read_watch = watch;
    } else {
        probes.write_watch = watch;
    }
    Reply::Done
}

/// `memory.watchReport`
pub fn watch_report(probes: &Probes, top: u64, reads: bool) -> (reply: Reply)
    ensures
        reports_watch(*probes, reply, top, reads),
{
    reveal(reports_watch);
    let watch = if reads {
        &probes.read_watch
    } else {
        &probes.write_watch
    };
    match watch {
        Some(counts) => Reply::Counts(counts::top_entries(counts, top as usize)),
        None => Reply::NotWatching,
    }
}

} // verus!
