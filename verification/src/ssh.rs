use vstd::prelude::*;

use crate::text::{dec_rep, strs_view, u64_to_dec};
use vstd::string::StringExecFns;

verus! {

/// The address token of the direct-host channel: `user@host` when an
/// identity is given, the bare host otherwise.
pub open spec fn spec_ssh_target(user: Option<Seq<char>>, host: Seq<char>) -> Seq<char> {
    match user {
        Some(u) => u + "@"@ + host,
        None => host,
    }
}

/// The direct-host channel's argument list: non-interactive batch mode,
/// the explicit port, the optional jump host, the address, then the
/// separator and the nested shell invocation that interprets the
/// already-escaped command once more.
pub open spec fn spec_ssh_args(
    user: Option<Seq<char>>,
    host: Seq<char>,
    port: u16,
    jump_host: Option<Seq<char>>,
    remote_cmd: Seq<char>,
) -> Seq<Seq<char>> {
    let head = seq!["-o"@, "BatchMode=yes"@, "-p"@, dec_rep(port as nat)];
    let with_jump = match jump_host {
        Some(j) => head + seq!["-J"@, j],
        None => head,
    };
    with_jump + seq![spec_ssh_target(user, host), "--"@, "sh"@, "-c"@, remote_cmd]
}

/// Builds SSH arguments for running a remote command on a direct host.
pub fn build_ssh_args(
    user: Option<&str>,
    host: &str,
    port: u16,
    jump_host: Option<&str>,
    remote_cmd: &str,
) -> (r: Vec<String>)
    ensures
        strs_view(r@) == spec_ssh_args(
            user.deep_view(),
            host@,
            port,
            jump_host.deep_view(),
            remote_cmd@,
        ),
{
    let mut args: Vec<String> = Vec::new();
    args.push("-o".to_owned());
    args.push("BatchMode=yes".to_owned());
    args.push("-p".to_owned());
    args.push(u64_to_dec(port as u64));

    if let Some(jump) = jump_host {
        args.push("-J".to_owned());
        args.push(jump.to_owned());
    }

    let target: String = match user {
        Some(u) => {
            let mut t = String::new();
            t.append(u);
            t.append("@");
            t.append(host);
            proof {
                assert(t@ =~= spec_ssh_target(user.deep_view(), host@));
            }
            t
        },
        None => host.to_owned(),
    };
    args.push(target);

    args.push("--".to_owned());
    args.push("sh".to_owned());
    args.push("-c".to_owned());
    args.push(remote_cmd.to_owned());
    proof {
        assert(strs_view(args@) =~= spec_ssh_args(
            user.deep_view(),
            host@,
            port,
            jump_host.deep_view(),
            remote_cmd@,
        ));
    }
    args
}

/// Transport argument shape of the direct-host channel: the final five
/// tokens are always the address, the separator, and the nested shell
/// invocation.
pub proof fn lemma_ssh_args_shape(
    user: Option<Seq<char>>,
    host: Seq<char>,
    port: u16,
    jump_host: Option<Seq<char>>,
    remote_cmd: Seq<char>,
)
    ensures
        spec_ssh_args(user, host, port, jump_host, remote_cmd).len() == (if jump_host is Some {
            11int
        } else {
            9int
        }),
        ({
            let a = spec_ssh_args(user, host, port, jump_host, remote_cmd);
            &&& a[a.len() - 5] == spec_ssh_target(user, host)
            &&& a[a.len() - 4] == "--"@
            &&& a[a.len() - 3] == "sh"@
            &&& a[a.len() - 2] == "-c"@
            &&& a[a.len() - 1] == remote_cmd
        }),
{
}

} // verus!
