//! Which output and workspace are current.

use vstd::prelude::*;

verus! {

/// The focus that window filtering goes by. The compositor's reports of focus
/// changes set the active output and workspace; the bound output is the one
/// this dock instance was configured for.
#[derive(Debug, Clone)]
pub struct OutputContext {
    /// The output that has focus, if one is known.
    pub active_output: Option<String>,
    /// The workspace that has focus, if one is known.
    pub active_workspace: Option<u64>,
    /// The output this dock shows windows of when it filters by output.
    pub bound_output: Option<String>,
}

/// An optional name as an optional character sequence.
pub open spec fn name_view(name: Option<String>) -> Option<Seq<char>> {
    match name {
        Some(s) => Some(s@),
        None => None,
    }
}

/// The focus, with names as character sequences.
pub struct OutputContextView {
    pub active_output: Option<Seq<char>>,
    pub active_workspace: Option<u64>,
    pub bound_output: Option<Seq<char>>,
}

impl View for OutputContext {
    type V = OutputContextView;

    open spec fn view(&self) -> OutputContextView {
        OutputContextView {
            active_output: name_view(self.active_output),
            active_workspace: self.active_workspace,
            bound_output: name_view(self.bound_output),
        }
    }
}

/// Whether two optional names spell the same, or are both absent.
pub fn same_name(a: &Option<String>, b: &Option<String>) -> (res: bool)
    ensures
        res == (name_view(*a) == name_view(*b)),
{
    match (a, b) {
        (None, None) => true,
        (Some(x), Some(y)) => *x == *y,
        _ => false,
    }
}

impl OutputContext {
    /// A context in which nothing has focus yet, bound to `bound_output`.
    pub fn new(bound_output: Option<String>) -> (res: OutputContext)
        ensures
            res@ == (OutputContextView {
                active_output: None,
                active_workspace: None,
                bound_output: name_view(bound_output),
            }),
    {
        OutputContext { active_output: None, active_workspace: None, bound_output }
    }

    /// Records that focus moved to `output`. Returns whether the context changed.
    pub fn set_active_output(&mut self, output: Option<String>) -> (changed: bool)
        ensures
            final(self)@ == (OutputContextView {
                active_output: name_view(output),
                ..old(self)@
            }),
            changed == (final(self)@ != old(self)@),
    {
        if same_name(&self.active_output, &output) {
            false
        } else {
            self.active_output = output;
            true
        }
    }

    /// Records that focus moved to `workspace`. Returns whether the context changed.
    pub fn set_active_workspace(&mut self, workspace: Option<u64>) -> (changed: bool)
        ensures
            final(self)@ == (OutputContextView { active_workspace: workspace, ..old(self)@ }),
            changed == (final(self)@ != old(self)@),
    {
        let changed = match (self.active_workspace, workspace) {
            (None, None) => false,
            (Some(x), Some(y)) => x != y,
            _ => true,
        };
        self.active_workspace = workspace;
        changed
    }
}

} // verus!
