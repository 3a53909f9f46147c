//! Remote, time-bounded network packet capture: resolve a single execution
//! target, compose a capture filter, select the engine able to produce the
//! requested container format, render one shell-safe remote command, and
//! build the exact invocation of the transport channel that will run it.
//!
//! Every decision a run makes is taken here and proved against its
//! contract; spawning the channel process, copying its output stream, and
//! the duration guard's timer live with the binary around the library.

pub mod capture;
pub mod cli;
pub mod filter;
pub mod k8s;
pub mod ssh;
pub mod text;

use vstd::prelude::*;
use vstd::string::StringExecFns;

verus! {

/// Why a capture run failed. Every failure is fatal to the run: a capture
/// session is a single best-effort attempt and is never retried.
#[derive(Debug, Clone, PartialEq, Eq)]
pub enum KcapError {
    /// Neither an explicit host nor a pod reference was supplied.
    NoTargetSpecified,
    /// A pod reference resolved to no assigned node.
    PodNodeUnassigned { pod: String },
    /// The node-lookup command could not run or returned non-zero status;
    /// carries the underlying diagnostic text.
    LookupFailed { program: String, detail: String },
    /// The remote command completed but returned a non-zero status.
    RemoteExit { detail: String },
}

impl KcapError {
    /// The human-readable message for this failure, with enough context to
    /// be actionable from the top-level message alone.
    pub open spec fn spec_message(&self) -> Seq<char> {
        match self {
            KcapError::NoTargetSpecified => "no target specified: set --ssh-host or --pod"@,
            KcapError::PodNodeUnassigned { pod } => "pod "@ + pod@ + " has no nodeName"@,
            KcapError::LookupFailed { program, detail } => program@ + " failed: "@ + detail@,
            KcapError::RemoteExit { detail } => "remote command failed with status "@ + detail@,
        }
    }

    /// Renders the failure as one message line.
    pub fn message(&self) -> (r: String)
        ensures
            r@ == self.spec_message(),
    {
        match self {
            KcapError::NoTargetSpecified => {
                let r = "no target specified: set --ssh-host or --pod".to_owned();
                r
            },
            KcapError::PodNodeUnassigned { pod } => {
                let mut r = String::new();
                r.append("pod ");
                r.append(pod.as_str());
                r.append(" has no nodeName");
                proof {
                    assert(r@ =~= self.spec_message());
                }
                r
            },
            KcapError::LookupFailed { program, detail } => {
                let mut r = String::new();
                r.append(program.as_str());
                r.append(" failed: ");
                r.append(detail.as_str());
                proof {
                    assert(r@ =~= self.spec_message());
                }
                r
            },
            KcapError::RemoteExit { detail } => {
                let mut r = String::new();
                r.append("remote command failed with status ");
                r.append(detail.as_str());
                proof {
                    assert(r@ =~= self.spec_message());
                }
                r
            },
        }
    }
}

/// The namespace a pod reference falls back to when none is given.
pub open spec fn spec_default_namespace() -> Seq<char> {
    "default"@
}

/// Which single execution channel will run the command. An explicit host
/// is always honored, bypassing any pod reference; a pod reference alone
/// yields the exec channel, with the namespace defaulted; with neither,
/// resolution fails.
pub open spec fn spec_resolve_target(
    ssh_host: Option<Seq<char>>,
    namespace: Option<Seq<char>>,
    pod: Option<Seq<char>>,
    container: Option<Seq<char>>,
) -> Option<k8s::TargetView> {
    if ssh_host is Some {
        Some(k8s::TargetView::Ssh { host: ssh_host->0 })
    } else if pod is Some {
        Some(
            k8s::TargetView::KubernetesExec {
                namespace: if namespace is Some {
                    namespace->0
                } else {
                    spec_default_namespace()
                },
                pod: pod->0,
                container,
            },
        )
    } else {
        None
    }
}

/// Chooses the single host that will execute the capture command, before
/// any process is spawned.
pub fn resolve_target(args: &cli::Args) -> (r: Result<k8s::Target, KcapError>)
    ensures
        match spec_resolve_target(
            args.ssh_host.deep_view(),
            args.namespace.deep_view(),
            args.pod.deep_view(),
            args.container.deep_view(),
        ) {
            Some(t) => r matches Ok(rt) && rt@ == t,
            None => r matches Err(e) && e is NoTargetSpecified,
        },
{
    if let Some(host) = &args.ssh_host {
        return Ok(k8s::Target::Ssh { host: host.clone() });
    }

    if let Some(pod) = &args.pod {
        let ns: String = match &args.namespace {
            Some(n) => n.clone(),
            None => "default".to_owned(),
        };
        return Ok(
            k8s::Target::KubernetesExec {
                namespace: ns,
                pod: pod.clone(),
                container: args.container.clone(),
            },
        );
    }

    Err(KcapError::NoTargetSpecified)
}

/// Everything one capture run needs before a process exists: the resolved
/// target, the rendered remote command, the channel program with its full
/// argument list, the guard duration (zero means unbounded), the output
/// sink, and whether the requested format is degraded by the selected
/// engine.
#[derive(Debug)]
pub struct CapturePlan {
    pub target: k8s::Target,
    pub remote_cmd: String,
    pub program: String,
    pub args: Vec<String>,
    pub duration_secs: u64,
    pub output: String,
    pub format_degraded: bool,
}

/// The filter expression one run renders from its arguments.
pub open spec fn spec_plan_filter(args: cli::Args) -> Option<Seq<char>> {
    filter::spec_filter(args.port, args.protocol, args.filter.deep_view())
}

/// The remote command one run renders from its arguments.
pub open spec fn spec_plan_command(args: cli::Args) -> Seq<char> {
    capture::spec_capture_command(
        capture::spec_select_tool(args.format),
        args.iface@,
        args.format,
        spec_plan_filter(args),
    )
}

/// Sequences one run's decisions: resolve the target, build the filter,
/// select the engine, render the remote command, and build the channel's
/// own invocation. All of it happens before any process exists, so a
/// resolution or construction failure never leaves an orphaned remote
/// process. Spawning, draining and awaiting the process are the caller's
/// work, on the plan's exact argument lists.
pub fn plan_capture(args: &cli::Args) -> (r: Result<CapturePlan, KcapError>)
    ensures
        match spec_resolve_target(
            args.ssh_host.deep_view(),
            args.namespace.deep_view(),
            args.pod.deep_view(),
            args.container.deep_view(),
        ) {
            Some(t) => r matches Ok(plan) && {
                &&& plan.target@ == t
                &&& plan.remote_cmd@ == spec_plan_command(*args)
                &&& plan.duration_secs == (match args.duration {
                    Some(d) => d,
                    None => 0u64,
                })
                &&& plan.output@ == args.output@
                &&& plan.format_degraded == (args.format is Pcapng && capture::spec_select_tool(
                    args.format,
                ) is Tcpdump)
                &&& (t matches k8s::TargetView::Ssh { host } ==> plan.program@ == "ssh"@
                    && text::strs_view(plan.args@) == ssh::spec_ssh_args(
                    args.ssh_user.deep_view(),
                    host,
                    args.ssh_port,
                    args.jump_host.deep_view(),
                    spec_plan_command(*args),
                ))
                &&& (t matches k8s::TargetView::KubernetesExec { namespace, pod, container }
                    ==> plan.program@ == "kubectl"@ && text::strs_view(plan.args@)
                    == k8s::spec_kubectl_exec_args(
                    namespace,
                    pod,
                    container,
                    spec_plan_command(*args),
                ))
            },
            None => r matches Err(e) && e is NoTargetSpecified,
        },
{
    let target = match resolve_target(args) {
        Ok(t) => t,
        Err(e) => {
            return Err(e);
        },
    };

    let filter_text: Option<String> = filter::build_filter(
        args.port,
        args.protocol,
        match &args.filter {
            Some(f) => Some(f.as_str()),
            None => None,
        },
    );

    let tool = capture::select_tool(args.format);
    let format_degraded = match (args.format, tool) {
        (cli::CaptureFormat::Pcapng, capture::CaptureTool::Tcpdump) => true,
        _ => false,
    };

    let remote_cmd = capture::build_capture_command(
        tool,
        args.iface.as_str(),
        args.format,
        match &filter_text {
            Some(f) => Some(f.as_str()),
            None => None,
        },
    );

    let (program, channel_args): (String, Vec<String>) = match &target {
        k8s::Target::Ssh { host } => {
            let ssh_args = ssh::build_ssh_args(
                match &args.ssh_user {
                    Some(u) => Some(u.as_str()),
                    None => None,
                },
                host.as_str(),
                args.ssh_port,
                match &args.jump_host {
                    Some(j) => Some(j.as_str()),
                    None => None,
                },
                remote_cmd.as_str(),
            );
            ("ssh".to_owned(), ssh_args)
        },
        k8s::Target::KubernetesExec { namespace, pod, container } => {
            let kubectl_args = k8s::build_kubectl_exec_args(
                namespace.as_str(),
                pod.as_str(),
                match container {
                    Some(c) => Some(c.as_str()),
                    None => None,
                },
                remote_cmd.as_str(),
            );
            ("kubectl".to_owned(), kubectl_args)
        },
    };

    let duration_secs: u64 = match args.duration {
        Some(d) => d,
        None => 0,
    };

    Ok(
        CapturePlan {
            target,
            remote_cmd,
            program,
            args: channel_args,
            duration_secs,
            output: args.output.clone(),
            format_degraded,
        },
    )
}

/// Maps the remote process's final status to the run's outcome: success
/// exactly when the remote command exited successfully, and otherwise a
/// failure that carries the status text, while whatever bytes were already
/// written to the sink stay preserved.
pub fn exit_status_to_result(exit_success: bool, status_text: String) -> (r: Result<
    (),
    KcapError,
>)
    ensures
        exit_success <==> r is Ok,
        !exit_success ==> (r matches Err(e) && e matches KcapError::RemoteExit { detail } && detail@
            == status_text@),
{
    if exit_success {
        Ok(())
    } else {
        Err(KcapError::RemoteExit { detail: status_text })
    }
}

} // verus!
