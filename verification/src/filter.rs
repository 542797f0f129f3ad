//! Which windows count as visible.
//!
//! A window that the filter leaves out is treated as if it did not exist:
//! it joins no group and keeps no pinned application from showing its
//! placeholder.

use vstd::prelude::*;
use crate::config::ToplevelFilter;
use crate::context::{OutputContext, OutputContextView};
use crate::names::contains_name;
use crate::window::{Toplevel, ToplevelView, WindowTable, window_views};

verus! {

/// Whether window `w` is visible under `mode` with focus as in `ctx`.
///
/// By workspace, a window is visible when it is tied to no workspace or to
/// the active one. By output, a window is visible when the dock is bound to
/// an output and the window is on it; a window on no output is never visible.
pub open spec fn visible(mode: ToplevelFilter, ctx: OutputContextView, w: ToplevelView) -> bool {
    match mode {
        ToplevelFilter::ActiveWorkspace => w.workspace is None || w.workspace
            == ctx.active_workspace,
        ToplevelFilter::ConfiguredOutput => match ctx.bound_output {
            Some(output) => w.outputs.contains(output),
            None => false,
        },
    }
}

/// The test that `visible` applies under `mode` and `ctx`.
pub open spec fn shown(mode: ToplevelFilter, ctx: OutputContextView) -> spec_fn(
    ToplevelView,
) -> bool {
    |w: ToplevelView| visible(mode, ctx, w)
}

/// A window on no output is invisible when windows are filtered by output.
pub proof fn lemma_no_output_invisible(ctx: OutputContextView, w: ToplevelView)
    requires
        w.outputs == Set::<Seq<char>>::empty(),
    ensures
        !visible(ToplevelFilter::ConfiguredOutput, ctx, w),
{
}

/// A window tied to no workspace is visible when windows are filtered by workspace.
pub proof fn lemma_sticky_visible(ctx: OutputContextView, w: ToplevelView)
    requires
        w.workspace is None,
    ensures
        visible(ToplevelFilter::ActiveWorkspace, ctx, w),
{
}

/// Decides whether window `w` is visible.
pub fn is_visible(mode: ToplevelFilter, ctx: &OutputContext, w: &Toplevel) -> (res: bool)
    ensures
        res == visible(mode, ctx@, w@),
{
    match mode {
        ToplevelFilter::ActiveWorkspace => match w.workspace {
            None => true,
            Some(ws) => match ctx.active_workspace {
                Some(active) => ws == active,
                None => false,
            },
        },
        ToplevelFilter::ConfiguredOutput => match &ctx.bound_output {
            Some(output) => contains_name(&w.outputs, output),
            None => false,
        },
    }
}

/// The visible windows of `table`, in table order.
pub fn visible_windows(mode: ToplevelFilter, ctx: &OutputContext, table: &WindowTable) -> (res:
    Vec<Toplevel>)
    ensures
        window_views(res@) == table@.filter(shown(mode, ctx@)),
{
    let n: usize = table.len();
    let mut out: Vec<Toplevel> = Vec::new();
    let mut i: usize = 0;
    while i < n
        invariant
            n == table@.len(),
            i <= n,
            window_views(out@) == table@.take(i as int).filter(shown(mode, ctx@)),
        decreases n - i,
    {
        let w = table.at(i);
        proof {
            assert(table@.take(i as int + 1) =~= table@.take(i as int).push(table@[i as int]));
            table@.take(i as int).lemma_filter_push(table@[i as int], shown(mode, ctx@));
        }
        if is_visible(mode, ctx, w) {
            out.push(w.snapshot());
        }
        i = i + 1;
    }
    assert(table@.take(n as int) =~= table@);
    out
}

} // verus!
