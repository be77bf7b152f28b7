use vstd::prelude::*;

verus! {

/// Every way in which a step of reconciliation can fail.
#[derive(Clone, Copy, Debug, PartialEq, Eq, Structural)]
pub enum ReconcileError {
    /// The ingress service object could not be fetched from the cluster.
    UpstreamUnavailable,
    /// The ingress service exposes no port list.
    TopologyIncomplete,
    /// The public address could not be determined.
    AddressResolutionFailed,
    /// The configuration template could not be rendered.
    TemplateError,
    /// No connection to the remote host could be opened.
    ConnectError,
    /// The remote host refused the credential.
    AuthError,
    /// Reading or writing the remote configuration file failed.
    RemoteIOError,
    /// The reload command failed or could not be run.
    RemoteExecError,
}

} // verus!
