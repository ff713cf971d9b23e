use vstd::prelude::*;

verus! {

/// Start-up bookkeeping of the user interface: whether the render pipeline
/// has been launched, and whether the page has rendered once (so that the
/// canvas it draws on exists).
#[derive(Clone, Copy, Debug, PartialEq, Eq, Structural)]
pub struct StartupFlags {
    pub pipeline_started: bool,
    pub initial_load: bool,
}

/// One start-up check, made on every render of the page. Returns whether to
/// launch the render pipeline now, and the flags after: the pipeline is
/// launched once, on the first render after the initial load.
pub fn start(flags: StartupFlags) -> (r: (bool, StartupFlags))
    ensures
        r.0 == (!flags.pipeline_started && flags.initial_load),
        r.1 == (StartupFlags { pipeline_started: flags.pipeline_started || r.0, initial_load: true }),
{
    let launch = !flags.pipeline_started && flags.initial_load;
    (launch, StartupFlags { pipeline_started: flags.pipeline_started || launch, initial_load: true })
}

} // verus!
