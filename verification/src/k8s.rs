use vstd::prelude::*;

use crate::KcapError;
use crate::text::strs_view;

verus! {

/// Resolved target for running remote capture: exactly one execution
/// channel, decided before any process is spawned.
#[derive(Debug, Clone)]
pub enum Target {
    Ssh { host: String },
    KubernetesExec { namespace: String, pod: String, container: Option<String> },
}

/// The mathematical value of a `Target`: the same variants over character
/// sequences.
pub enum TargetView {
    Ssh { host: Seq<char> },
    KubernetesExec { namespace: Seq<char>, pod: Seq<char>, container: Option<Seq<char>> },
}

impl View for Target {
    type V = TargetView;

    open spec fn view(&self) -> TargetView {
        match self {
            Target::Ssh { host } => TargetView::Ssh { host: host@ },
            Target::KubernetesExec { namespace, pod, container } => TargetView::KubernetesExec {
                namespace: namespace@,
                pod: pod@,
                container: container.deep_view(),
            },
        }
    }
}

/// Executes external commands for capture-related queries. What a run of
/// the command yields is up to the implementation; the one obligation is
/// that a failure to run it is reported as a lookup failure, so that the
/// underlying diagnostic text reaches the operator.
pub trait Runner {
    /// Runs a command and returns trimmed standard output on success.
    fn run_capture(&mut self, program: &str, args: &[&str]) -> (r: Result<String, KcapError>)
        ensures
            r matches Err(e) ==> e is LookupFailed,
    ;
}

/// Records the last command executed by a runner.
#[derive(Debug, Clone)]
pub struct CommandRecord {
    pub program: String,
    pub args: Vec<String>,
}

/// Test runner that returns a fixed node name and records calls.
#[derive(Debug)]
pub struct FakeRunner {
    pub node_name: String,
    pub last_command: CommandRecord,
}

impl FakeRunner {
    /// Creates a FakeRunner that returns the provided node name.
    pub fn new(node_name: &str) -> (r: FakeRunner)
        ensures
            r.node_name@ == node_name@,
            r.last_command.program@.len() == 0,
            r.last_command.args@.len() == 0,
    {
        FakeRunner {
            node_name: node_name.to_owned(),
            last_command: CommandRecord { program: String::new(), args: Vec::new() },
        }
    }
}

/// The contents of a list of borrowed strings, as the sequence of their
/// views.
pub open spec fn strs_of_refs(v: Seq<&str>) -> Seq<Seq<char>> {
    v.map_values(|a: &str| a@)
}

impl Runner for FakeRunner {
    fn run_capture(&mut self, program: &str, args: &[&str]) -> (r: Result<String, KcapError>)
        ensures
            r matches Ok(node) && node@ == old(self).node_name@,
            final(self).node_name@ == old(self).node_name@,
            final(self).last_command.program@ == program@,
            strs_view(final(self).last_command.args@) == strs_of_refs(args@),
    {
        self.last_command.program = program.to_owned();
        let mut recorded: Vec<String> = Vec::new();
        let mut i: usize = 0;
        while i < args.len()
            invariant
                i <= args@.len(),
                recorded@.len() == i,
                forall|j: int| 0 <= j < i ==> recorded@[j]@ == args@[j]@,
            decreases args@.len() - i,
        {
            recorded.push(args[i].to_owned());
            i = i + 1;
        }
        self.last_command.args = recorded;
        proof {
            assert(strs_view(self.last_command.args@) =~= strs_of_refs(args@));
        }
        Ok(self.node_name.clone())
    }
}

/// Classifies the outcome of one external lookup command: a successful run
/// yields its standard output, a failed one a lookup failure that carries
/// the command's diagnostic text, so operators can tell a missing pod from
/// a broken lookup.
pub fn classify_lookup_output(program: &str, success: bool, stdout: String, stderr: String) -> (r:
    Result<String, KcapError>)
    ensures
        success ==> (r matches Ok(s) && s@ == stdout@),
        !success ==> (r matches Err(e) && e matches KcapError::LookupFailed {
            program: p,
            detail,
        } && p@ == program@ && detail@ == stderr@),
{
    if success {
        Ok(stdout)
    } else {
        Err(KcapError::LookupFailed { program: program.to_owned(), detail: stderr })
    }
}

/// Accepts a looked-up node name when the pod has one; an empty name means
/// the pod is not scheduled anywhere yet and resolution must fail.
pub fn validate_node_name(pod: &str, node: String) -> (r: Result<String, KcapError>)
    ensures
        node@.len() > 0 ==> (r matches Ok(n) && n@ == node@),
        node@.len() == 0 ==> (r matches Err(e) && e matches KcapError::PodNodeUnassigned {
            pod: p,
        } && p@ == pod@),
{
    if node.as_str().is_empty() {
        Err(KcapError::PodNodeUnassigned { pod: pod.to_owned() })
    } else {
        Ok(node)
    }
}

/// The node-lookup invocation: ask kubectl for the pod's recorded node
/// name, and nothing else.
pub open spec fn spec_node_lookup_args(namespace: Seq<char>, pod: Seq<char>) -> Seq<Seq<char>> {
    seq!["get"@, "pod"@, pod, "-n"@, namespace, "-o"@, "jsonpath={.spec.nodeName}"@]
}

/// Builds the kubectl argument list that reads the node hosting a pod.
pub fn node_lookup_args(namespace: &str, pod: &str) -> (r: Vec<String>)
    ensures
        strs_view(r@) == spec_node_lookup_args(namespace@, pod@),
{
    let mut args: Vec<String> = Vec::new();
    args.push("get".to_owned());
    args.push("pod".to_owned());
    args.push(pod.to_owned());
    args.push("-n".to_owned());
    args.push(namespace.to_owned());
    args.push("-o".to_owned());
    args.push("jsonpath={.spec.nodeName}".to_owned());
    proof {
        assert(strs_view(args@) =~= spec_node_lookup_args(namespace@, pod@));
    }
    args
}

/// Resolves a Kubernetes pod to the name of the node currently hosting it,
/// by handing the runner exactly the `node_lookup_args` invocation of
/// kubectl. Whatever the runner answers, a returned node name is never
/// empty, and a failure is either the runner's own or names the
/// unscheduled pod.
pub fn resolve_pod_node<R: Runner>(runner: &mut R, namespace: &str, pod: &str) -> (r: Result<
    String,
    KcapError,
>)
    ensures
        r matches Ok(node) ==> node@.len() > 0,
        r matches Err(e) ==> e is LookupFailed || (e matches KcapError::PodNodeUnassigned {
            pod: p,
        } && p@ == pod@),
{
    let args = node_lookup_args(namespace, pod);
    let mut arg_refs: Vec<&str> = Vec::new();
    let mut i: usize = 0;
    while i < args.len()
        invariant
            i <= args@.len(),
            arg_refs@.len() == i,
            forall|j: int| 0 <= j < i ==> arg_refs@[j]@ == args@[j]@,
        decreases args@.len() - i,
    {
        arg_refs.push(args[i].as_str());
        i = i + 1;
    }
    proof {
        assert(strs_of_refs(arg_refs@) =~= spec_node_lookup_args(namespace@, pod@));
    }
    match runner.run_capture("kubectl", arg_refs.as_slice()) {
        Ok(node) => validate_node_name(pod, node),
        Err(e) => Err(e),
    }
}

/// The exec channel's argument list: the exec verb, the namespace flag,
/// the pod, the optional container flag, then the separator and the nested
/// shell invocation that interprets the already-escaped command once more.
pub open spec fn spec_kubectl_exec_args(
    namespace: Seq<char>,
    pod: Seq<char>,
    container: Option<Seq<char>>,
    remote_cmd: Seq<char>,
) -> Seq<Seq<char>> {
    let head = seq!["exec"@, "-n"@, namespace, pod];
    let with_container = match container {
        Some(c) => head + seq!["-c"@, c],
        None => head,
    };
    with_container + seq!["--"@, "sh"@, "-c"@, remote_cmd]
}

/// Builds kubectl exec arguments for running a remote command inside a pod.
pub fn build_kubectl_exec_args(
    namespace: &str,
    pod: &str,
    container: Option<&str>,
    remote_cmd: &str,
) -> (r: Vec<String>)
    ensures
        strs_view(r@) == spec_kubectl_exec_args(
            namespace@,
            pod@,
            container.deep_view(),
            remote_cmd@,
        ),
{
    let mut args: Vec<String> = Vec::new();
    args.push("exec".to_owned());
    args.push("-n".to_owned());
    args.push(namespace.to_owned());
    args.push(pod.to_owned());

    if let Some(c) = container {
        args.push("-c".to_owned());
        args.push(c.to_owned());
    }

    args.push("--".to_owned());
    args.push("sh".to_owned());
    args.push("-c".to_owned());
    args.push(remote_cmd.to_owned());
    proof {
        assert(strs_view(args@) =~= spec_kubectl_exec_args(
            namespace@,
            pod@,
            container.deep_view(),
            remote_cmd@,
        ));
    }
    args
}

/// Transport argument shape of the exec channel: the final four tokens are
/// always the separator and the nested shell invocation, and the container
/// flag, when present, stands immediately before them.
pub proof fn lemma_exec_args_shape(
    namespace: Seq<char>,
    pod: Seq<char>,
    container: Option<Seq<char>>,
    remote_cmd: Seq<char>,
)
    ensures
        spec_kubectl_exec_args(namespace, pod, container, remote_cmd).len() == (if container
            is Some {
            10int
        } else {
            8int
        }),
        ({
            let a = spec_kubectl_exec_args(namespace, pod, container, remote_cmd);
            &&& a[a.len() - 4] == "--"@
            &&& a[a.len() - 3] == "sh"@
            &&& a[a.len() - 2] == "-c"@
            &&& a[a.len() - 1] == remote_cmd
            &&& (container matches Some(c) ==> a[a.len() - 6] == "-c"@ && a[a.len() - 5] == c)
        }),
{
}

} // verus!
