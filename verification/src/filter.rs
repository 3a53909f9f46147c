use vstd::prelude::*;

use crate::cli::Protocol;
use crate::text::{dec_rep, push_dec_u64};
use vstd::string::StringExecFns;

verus! {

/// The port/protocol clause of a capture filter: `"tcp port <p>"`,
/// `"udp port <p>"`, or `"port <p>"` when any protocol is accepted.
pub open spec fn spec_port_clause(port: u16, protocol: Protocol) -> Seq<char> {
    match protocol {
        Protocol::Tcp => "tcp port "@ + dec_rep(port as nat),
        Protocol::Udp => "udp port "@ + dec_rep(port as nat),
        Protocol::All => "port "@ + dec_rep(port as nat),
    }
}

/// The full filter expression. Both operands are parenthesized before the
/// conjunction so that free-form text cannot change how the remote tool
/// parses the port clause.
pub open spec fn spec_filter(port: Option<u16>, protocol: Protocol, extra: Option<Seq<char>>) -> Option<
    Seq<char>,
> {
    match (port, extra) {
        (Some(p), Some(e)) => Some(
            "("@ + spec_port_clause(p, protocol) + ") and ("@ + e + ")"@,
        ),
        (Some(p), None) => Some(spec_port_clause(p, protocol)),
        (None, Some(e)) => Some(e),
        (None, None) => None,
    }
}

/// Renders the optional port/protocol constraint for one capture run.
fn port_clause(port: u16, protocol: Protocol) -> (r: String)
    ensures
        r@ == spec_port_clause(port, protocol),
{
    let mut s = String::new();
    match protocol {
        Protocol::Tcp => s.append("tcp port "),
        Protocol::Udp => s.append("udp port "),
        Protocol::All => s.append("port "),
    }
    push_dec_u64(&mut s, port as u64);
    proof {
        assert(s@ =~= spec_port_clause(port, protocol));
    }
    s
}

/// Composes the optional port/protocol constraint with optional free-form
/// filter text into one expression, or nothing when neither is given.
pub fn build_filter(port: Option<u16>, protocol: Protocol, extra: Option<&str>) -> (r: Option<
    String,
>)
    ensures
        r matches Some(s) ==> spec_filter(port, protocol, extra.deep_view()) matches Some(v) && s@
            == v,
        r is None <==> spec_filter(port, protocol, extra.deep_view()) is None,
{
    let base: Option<String> = match port {
        Some(p) => Some(port_clause(p, protocol)),
        None => None,
    };

    match (base, extra) {
        (Some(b), Some(e)) => {
            let mut s = String::new();
            s.append("(");
            s.append(b.as_str());
            s.append(") and (");
            s.append(e);
            s.append(")");
            proof {
                assert(s@ =~= "("@ + spec_port_clause(port->0, protocol) + ") and ("@ + e@
                    + ")"@);
            }
            Some(s)
        },
        (Some(b), None) => Some(b),
        (None, Some(e)) => Some(e.to_owned()),
        (None, None) => None,
    }
}

} // verus!
