use vstd::prelude::*;

verus! {

/// What a status check reports about the local inference daemon.
#[derive(Clone, Copy, Debug, PartialEq, Eq, Structural)]
pub enum DaemonStatus {
    Running,
    Installed,
    NotInstalled,
}

/// The platform family the gateway runs on, which decides whether the
/// daemon can be looked up on the search path and started automatically.
#[derive(Clone, Copy, Debug, PartialEq, Eq, Structural)]
pub enum Platform {
    Posix,
    Other,
}

pub open spec fn status_label_spec(s: DaemonStatus) -> Seq<char> {
    match s {
        DaemonStatus::Running => "running"@,
        DaemonStatus::Installed => "installed"@,
        DaemonStatus::NotInstalled => "not_installed"@,
    }
}

impl DaemonStatus {
    /// The text the host application receives for this status.
    pub fn label(&self) -> (r: String)
        ensures
            r@ == status_label_spec(*self),
    {
        match self {
            DaemonStatus::Running => String::from_str("running"),
            DaemonStatus::Installed => String::from_str("installed"),
            DaemonStatus::NotInstalled => String::from_str("not_installed"),
        }
    }
}

/// What a status check does after probing the daemon's HTTP endpoint.
#[derive(Clone, Copy, Debug, PartialEq, Eq, Structural)]
pub enum StatusStep {
    /// The status is known.
    Done(DaemonStatus),
    /// The daemon did not answer: look for its executable on the search path
    /// and hand the outcome to `status_after_lookup`.
    LookUpExecutable,
}

/// The decision after the probe: any answer at all means the daemon runs;
/// without one, a POSIX platform goes on to look for the executable, any
/// other platform reports the daemon as not installed.
pub open spec fn status_after_probe_spec(platform: Platform, answered: bool) -> StatusStep {
    if answered {
        StatusStep::Done(DaemonStatus::Running)
    } else if platform == Platform::Posix {
        StatusStep::LookUpExecutable
    } else {
        StatusStep::Done(DaemonStatus::NotInstalled)
    }
}

/// The decision after the search-path lookup. `lookup` is `None` where the
/// lookup itself could not be run, else whether it found the executable.
pub open spec fn status_after_lookup_spec(lookup: Option<bool>) -> DaemonStatus {
    if lookup == Some(true) {
        DaemonStatus::Installed
    } else {
        DaemonStatus::NotInstalled
    }
}

/// The status a whole check reports; `lookup` is consulted only where the
/// probe step asks for it.
pub open spec fn status_spec(platform: Platform, answered: bool, lookup: Option<bool>) -> DaemonStatus {
    match status_after_probe_spec(platform, answered) {
        StatusStep::Done(s) => s,
        StatusStep::LookUpExecutable => status_after_lookup_spec(lookup),
    }
}

/// Decides the status from whether the daemon answered the probe request.
pub fn status_after_probe(platform: Platform, answered: bool) -> (r: StatusStep)
    ensures
        r == status_after_probe_spec(platform, answered),
{
    if answered {
        StatusStep::Done(DaemonStatus::Running)
    } else {
        match platform {
            Platform::Posix => StatusStep::LookUpExecutable,
            Platform::Other => StatusStep::Done(DaemonStatus::NotInstalled),
        }
    }
}

/// Decides the status from the outcome of the search-path lookup.
pub fn status_after_lookup(lookup: Option<bool>) -> (r: DaemonStatus)
    ensures
        r == status_after_lookup_spec(lookup),
{
    match lookup {
        Some(found) => if found {
            DaemonStatus::Installed
        } else {
            DaemonStatus::NotInstalled
        },
        None => DaemonStatus::NotInstalled,
    }
}

/// The whole status check, given the outcomes of the probe and of the
/// lookup (the latter ignored where the probe step does not ask for it).
pub fn classify_status(platform: Platform, answered: bool, lookup: Option<bool>) -> (r: DaemonStatus)
    ensures
        r == status_spec(platform, answered, lookup),
{
    match status_after_probe(platform, answered) {
        StatusStep::Done(s) => s,
        StatusStep::LookUpExecutable => status_after_lookup(lookup),
    }
}

/// In every combination of platform and daemon state the check reports one
/// of the three labels: `running` whenever the daemon answered; on POSIX
/// without an answer, `installed` exactly when the executable was found and
/// `not_installed` otherwise; on any other platform without an answer,
/// `not_installed`.
pub proof fn status_is_always_one_of_three(platform: Platform, answered: bool, lookup: Option<bool>)
    ensures
        ({
            let l = status_label_spec(status_spec(platform, answered, lookup));
            l == "running"@ || l == "installed"@ || l == "not_installed"@
        }),
        answered ==> status_spec(platform, answered, lookup) == DaemonStatus::Running,
        !answered && platform == Platform::Posix ==> (status_spec(platform, answered, lookup)
            == DaemonStatus::Installed <==> lookup == Some(true)),
        !answered && platform == Platform::Posix && lookup != Some(true) ==> status_spec(
            platform,
            answered,
            lookup,
        ) == DaemonStatus::NotInstalled,
        !answered && platform == Platform::Other ==> status_spec(platform, answered, lookup)
            == DaemonStatus::NotInstalled,
{
}

} // verus!
