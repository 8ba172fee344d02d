//! Socket-report library: normalizes raw OS socket-table entries into unified
//! records, correlates them with a process-directory snapshot, orders them by
//! local port, and renders a two-section (TCP, then UDP) plain-text report.

use vstd::prelude::*;

pub mod collect;
pub mod directory;
pub mod order;
pub mod record;
pub mod render;
pub mod textfmt;

use crate::directory::ProcessDirectory;
use crate::record::RawEntry;

verus! {

/// One full report run over already-gathered raw entries: normalize the IPv4
/// pass and then the IPv6 pass against the process directory, sort the merged
/// collection stably by local port, and render the TCP and UDP sections.
pub fn socket_report(v4: Vec<RawEntry>, v6: Vec<RawEntry>, dir: &ProcessDirectory) -> (lines: Vec<
    String,
>)
    ensures
        lines.deep_view() == render::report_lines(
            collect::collect_spec(v4.deep_view(), v6.deep_view(), dir@),
        ),
{
    let records = collect::collect_records(v4, v6, dir);
    render::render_report(&records)
}

} // verus!
