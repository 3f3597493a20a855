//! Writing the pending positions of outputs into the document.

use vstd::prelude::*;
use crate::error::ConfigError;
use crate::model::config::{with_position, ConfigDocument};
use crate::model::output::{Position, PositionOverlay};
use crate::model::tree::NodeTree;

verus! {

/// The nodes of a document after the first `k` of the listed positions
/// were set, one after the other.
pub open spec fn written(nodes: Seq<NodeTree>, listed: Seq<(String, Position)>, k: int) -> Seq<
    NodeTree,
>
    decreases k,
{
    if k <= 0 || k > listed.len() {
        nodes
    } else {
        with_position(written(nodes, listed, k - 1), listed[k - 1].0@, listed[k - 1].1)
    }
}

/// Sets every pending position in the document, in the order in which the
/// overlay lists them. The document is changed in memory only.
pub fn write_positions(config: &mut ConfigDocument, positions: &PositionOverlay) -> (r: Result<
    (),
    ConfigError,
>)
    ensures
        r is Ok,
        final(config).path == old(config).path,
        final(config).tree() == written(
            old(config).tree(),
            positions.listed(),
            positions.listed().len() as int,
        ),
{
    let n = positions.len();
    let mut i: usize = 0;
    while i < n
        invariant
            i <= n,
            n == positions.listed().len(),
            config.path == old(config).path,
            config.tree() == written(old(config).tree(), positions.listed(), i as int),
        decreases n - i,
    {
        let (name, position) = positions.entry(i);
        let _ = config.set_output_position(name, position);
        i += 1;
    }
    Ok(())
}

} // verus!
