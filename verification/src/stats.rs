//! Draw-call cost records, accumulable across the draws of a pass and the
//! passes of a frame.

use vstd::prelude::*;

verus! {

/// Cost of one draw call.
#[derive(Clone, Copy, Debug, PartialEq, Eq, Structural)]
pub struct DrawCallStatistics {
    /// Triangles submitted by the call.
    pub triangles: u64,
}

/// Accumulated cost of one render pass over a frame.
#[derive(Clone, Copy, Debug, PartialEq, Eq, Structural)]
pub struct RenderPassStatistics {
    /// Draw calls issued.
    pub draw_calls: u64,
    /// Triangles submitted over all draw calls.
    pub triangles_rendered: u64,
}

impl Default for RenderPassStatistics {
    /// A fresh pass record: nothing drawn yet.
    fn default() -> (s: RenderPassStatistics)
        ensures
            s == (RenderPassStatistics { draw_calls: 0u64, triangles_rendered: 0u64 }),
    {
        RenderPassStatistics { draw_calls: 0, triangles_rendered: 0 }
    }
}

impl RenderPassStatistics {
    /// Folds one draw call into the pass record, saturating at the
    /// representable maximum.
    pub fn accumulate(&mut self, d: DrawCallStatistics)
        ensures
            final(self).draw_calls == if old(self).draw_calls < u64::MAX {
                old(self).draw_calls + 1
            } else {
                u64::MAX as int
            },
            final(self).triangles_rendered == if old(self).triangles_rendered + d.triangles
                <= u64::MAX {
                old(self).triangles_rendered + d.triangles
            } else {
                u64::MAX as int
            },
    {
        if self.draw_calls < u64::MAX {
            self.draw_calls = self.draw_calls + 1;
        }
        if self.triangles_rendered <= u64::MAX - d.triangles {
            self.triangles_rendered = self.triangles_rendered + d.triangles;
        } else {
            self.triangles_rendered = u64::MAX;
        }
    }
}

} // verus!
