//! Publishing wgpu textures: what each publish does, and how long the
//! read-back of a copied frame is waited for.

use vstd::prelude::*;
use crate::directory::ServerInfo;

verus! {

/// What a publish call does.
#[derive(Debug, Clone, Copy, PartialEq, Eq)]
pub enum PublishPlan {
    /// No client is connected: the frame is skipped.
    NoClients,
    /// The previous frame is still being read back: this frame is skipped.
    Busy,
    /// Copy the texture into the staging buffer (making one of
    /// `staging_size` bytes first, when given), `bytes_per_row` bytes per
    /// row over `rows_per_image` rows, then read it back and publish it.
    Copy { staging_size: Option<u64>, bytes_per_row: u32, rows_per_image: u32 },
}

/// Whether a publish would copy a frame: some client is connected and no
/// read-back is in flight on an existing staging buffer.
pub open spec fn publish_copies(client_count: usize, pending: bool, has_staging: bool) -> bool {
    client_count > 0 && !(pending && has_staging)
}

/// Decides what publishing a `width` x `height` BGRA texture does, given
/// the number of connected clients, whether a read-back is pending and
/// whether a staging buffer exists.
pub fn publish_plan(client_count: usize, pending: bool, has_staging: bool, width: u32, height: u32) -> (plan: PublishPlan)
    requires
        publish_copies(client_count, pending, has_staging) ==> width * 4 <= u32::MAX,
        publish_copies(client_count, pending, has_staging) && !has_staging ==> width * height * 4 <= u32::MAX,
    ensures
        client_count == 0 ==> plan == PublishPlan::NoClients,
        client_count > 0 && pending && has_staging ==> plan == PublishPlan::Busy,
        publish_copies(client_count, pending, has_staging) ==> plan == (PublishPlan::Copy {
            staging_size: if has_staging { None } else { Some((width * height * 4) as u64) },
            bytes_per_row: (width * 4) as u32,
            rows_per_image: height,
        }),
{
    if client_count == 0 {
        return PublishPlan::NoClients;
    }
    if pending && has_staging {
        return PublishPlan::Busy;
    }
    let staging_size = if has_staging { None } else { Some((width * height * 4) as u64) };
    PublishPlan::Copy { staging_size, bytes_per_row: width * 4, rows_per_image: height }
}

/// How long a read-back is waited for, in microseconds.
pub const READBACK_TIMEOUT_US: u64 = 100_000;

/// How long to sleep between two polls of a pending read-back, in
/// microseconds.
pub const READBACK_SLEEP_US: u64 = 100;

/// The state of the mapping of the staging buffer after a device poll.
#[derive(Debug, Clone, Copy, PartialEq, Eq)]
pub enum MapStatus {
    /// The mapping has not completed yet.
    Pending,
    /// The buffer is mapped and can be read.
    Mapped,
    /// The mapping failed.
    Failed,
}

/// What to do next while reading back a copied frame.
#[derive(Debug, Clone, Copy, PartialEq, Eq)]
pub enum ReadbackStep {
    /// Poll the device and look at the mapping.
    Poll,
    /// Upload the mapped bytes to Metal, publish them, then unmap.
    Upload,
    /// Sleep `sleep_us` microseconds, then start over.
    Sleep { sleep_us: u64 },
    /// Stop waiting: unmap the buffer and drop the frame.
    GiveUp,
}

/// Decides, `elapsed_us` microseconds after the read-back started, whether
/// to keep waiting for it.
pub fn readback_check_time(elapsed_us: u64) -> (step: ReadbackStep)
    ensures
        elapsed_us < READBACK_TIMEOUT_US ==> step == ReadbackStep::Poll,
        elapsed_us >= READBACK_TIMEOUT_US ==> step == ReadbackStep::GiveUp,
{
    if elapsed_us < READBACK_TIMEOUT_US {
        ReadbackStep::Poll
    } else {
        ReadbackStep::GiveUp
    }
}

/// Decides what follows a device poll, from the state of the mapping.
pub fn readback_after_poll(status: MapStatus) -> (step: ReadbackStep)
    ensures
        status == MapStatus::Mapped ==> step == ReadbackStep::Upload,
        status == MapStatus::Failed ==> step == ReadbackStep::GiveUp,
        status == MapStatus::Pending ==> step == (ReadbackStep::Sleep { sleep_us: READBACK_SLEEP_US }),
{
    match status {
        MapStatus::Mapped => ReadbackStep::Upload,
        MapStatus::Failed => ReadbackStep::GiveUp,
        MapStatus::Pending => ReadbackStep::Sleep { sleep_us: READBACK_SLEEP_US },
    }
}

/// The names of the given servers, in order.
pub fn server_names(servers: Vec<ServerInfo>) -> (names: Vec<String>)
    ensures
        names@.len() == servers@.len(),
        forall|i: int| 0 <= i < servers@.len() ==> (#[trigger] names@[i])@ == servers@[i].name@,
{
    let mut names: Vec<String> = Vec::new();
    let mut i: usize = 0;
    while i < servers.len()
        invariant
            i <= servers@.len(),
            names@.len() == i,
            forall|j: int| 0 <= j < i ==> (#[trigger] names@[j])@ == servers@[j].name@,
        decreases servers@.len() - i,
    {
        names.push(servers[i].name.clone());
        i = i + 1;
    }
    names
}

} // verus!
