use vstd::prelude::*;

verus! {

/// One step of preparing the proxy's listening socket.
#[derive(Debug, Clone, Copy, PartialEq, Eq, Structural)]
pub enum SetupStep {
    /// Create the socket's parent directory, with any missing ancestors.
    CreateParentDir,
    /// Remove whatever is at the socket path, without asking whose it is.
    RemoveStaleSocket,
    /// Bind the listening socket at its path.
    Bind,
}

/// One step of shutting down after an interrupt.
#[derive(Debug, Clone, Copy, PartialEq, Eq, Structural)]
pub enum ShutdownStep {
    /// Remove the proxy's socket; a failure here is ignored.
    RemoveSocket,
    /// End the process with this status. The backend agent is left running.
    Exit(i32),
}

/// The steps, in order, that prepare the socket, each fatal if it fails:
/// create the parent directory if it is missing, clear what is at the
/// path if anything is, then bind.
pub fn setup_steps(parent_missing: bool, socket_present: bool) -> (r: Vec<SetupStep>)
    ensures
        r@ == (if parent_missing {
            seq![SetupStep::CreateParentDir]
        } else {
            Seq::empty()
        }) + (if socket_present {
            seq![SetupStep::RemoveStaleSocket]
        } else {
            Seq::empty()
        }) + seq![SetupStep::Bind],
{
    let mut steps: Vec<SetupStep> = Vec::new();
    if parent_missing {
        steps.push(SetupStep::CreateParentDir);
    }
    if socket_present {
        steps.push(SetupStep::RemoveStaleSocket);
    }
    steps.push(SetupStep::Bind);
    proof {
        assert(steps@ =~= (if parent_missing {
            seq![SetupStep::CreateParentDir]
        } else {
            Seq::empty()
        }) + (if socket_present {
            seq![SetupStep::RemoveStaleSocket]
        } else {
            Seq::empty()
        }) + seq![SetupStep::Bind]);
    }
    steps
}

/// The steps, in order, taken on an interrupt: remove the socket if it is
/// there, then exit successfully. Sessions are not drained and the backend
/// is sent no signal.
pub fn shutdown_steps(socket_present: bool) -> (r: Vec<ShutdownStep>)
    ensures
        r@ == (if socket_present {
            seq![ShutdownStep::RemoveSocket, ShutdownStep::Exit(0)]
        } else {
            seq![ShutdownStep::Exit(0)]
        }),
{
    let mut steps: Vec<ShutdownStep> = Vec::new();
    if socket_present {
        steps.push(ShutdownStep::RemoveSocket);
    }
    steps.push(ShutdownStep::Exit(0));
    proof {
        if socket_present {
            assert(steps@ =~= seq![ShutdownStep::RemoveSocket, ShutdownStep::Exit(0)]);
        } else {
            assert(steps@ =~= seq![ShutdownStep::Exit(0)]);
        }
    }
    steps
}

} // verus!
