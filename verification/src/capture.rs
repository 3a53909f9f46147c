use vstd::prelude::*;

use crate::cli::CaptureFormat;
use crate::text::{dec_rep, push_char, strs_view, u64_to_dec};
use vstd::string::{StrSliceExecFns, StringExecFns};

verus! {

/// The remote program that performs the capture.
#[derive(Debug, Copy, Clone, PartialEq, Eq, Structural)]
pub enum CaptureTool {
    Tcpdump,
    Tshark,
}

/// The engine each container format selects: only tshark can emit pcapng
/// reliably, while pcap is served by tcpdump.
pub open spec fn spec_select_tool(format: CaptureFormat) -> CaptureTool {
    match format {
        CaptureFormat::Pcapng => CaptureTool::Tshark,
        CaptureFormat::Pcap => CaptureTool::Tcpdump,
    }
}

/// Maps the requested container format to the capture engine able to
/// produce it.
pub fn select_tool(format: CaptureFormat) -> (tool: CaptureTool)
    ensures
        tool == spec_select_tool(format),
{
    match format {
        CaptureFormat::Pcapng => CaptureTool::Tshark,
        CaptureFormat::Pcap => CaptureTool::Tcpdump,
    }
}

/// The escape sequence that stands for one single quote inside a
/// single-quoted shell word: close the quote, emit an escaped literal
/// quote, reopen the quote.
pub open spec fn quote_escape() -> Seq<char> {
    seq!['\'', '\\', '\'', '\'']
}

/// How one character is rendered inside the single-quoted wrapping.
pub open spec fn escaped_char(c: char) -> Seq<char> {
    if c == '\'' {
        quote_escape()
    } else {
        seq![c]
    }
}

/// The body of a single-quoted shell word: every single quote replaced by
/// its escape sequence, all other characters kept.
pub open spec fn escape_quotes(s: Seq<char>) -> Seq<char>
    decreases s.len(),
{
    if s.len() == 0 {
        Seq::empty()
    } else {
        escaped_char(s[0]) + escape_quotes(s.skip(1))
    }
}

/// The full single-quoted shell word for `s`. The empty input renders as
/// an empty quoted pair, never as an omitted argument.
pub open spec fn spec_quoted(s: Seq<char>) -> Seq<char> {
    seq!['\''] + escape_quotes(s) + seq!['\'']
}

/// The inverse of `escape_quotes`: each occurrence of the escape sequence
/// becomes a single quote again, all other characters are kept.
pub open spec fn unescape_quotes(s: Seq<char>) -> Seq<char>
    decreases s.len(),
{
    if s.len() == 0 {
        Seq::empty()
    } else if s.len() >= 4 && s.take(4) == quote_escape() {
        seq!['\''] + unescape_quotes(s.skip(4))
    } else {
        seq![s[0]] + unescape_quotes(s.skip(1))
    }
}

proof fn lemma_escape_quotes_snoc(s: Seq<char>, i: int)
    requires
        0 <= i < s.len(),
    ensures
        escape_quotes(s.take(i + 1)) == escape_quotes(s.take(i)) + escaped_char(s[i]),
    decreases i,
{
    if i == 0 {
        assert(s.take(1) =~= seq![s[0]]);
        assert(s.take(1).skip(1) =~= Seq::<char>::empty());
        assert(s.take(0) =~= Seq::<char>::empty());
        assert(escape_quotes(s.take(1)) =~= escape_quotes(s.take(0)) + escaped_char(s[0]));
    } else {
        lemma_escape_quotes_snoc(s.skip(1), i - 1);
        assert(s.take(i + 1).skip(1) =~= s.skip(1).take(i));
        assert(s.take(i).skip(1) =~= s.skip(1).take(i - 1));
        assert(s.take(i + 1)[0] == s[0]);
        assert(s.take(i)[0] == s[0]);
        assert(s.skip(1)[i - 1] == s[i]);
        assert(escape_quotes(s.take(i + 1)) == escaped_char(s[0]) + escape_quotes(
            s.skip(1).take(i),
        ));
        assert(escape_quotes(s.take(i)) == escaped_char(s[0]) + escape_quotes(
            s.skip(1).take(i - 1),
        ));
        assert(escape_quotes(s.take(i + 1)) =~= escape_quotes(s.take(i)) + escaped_char(s[i]));
    }
}

/// Escaping round-trip: unescaping the escaped body of any string yields
/// the original string, whatever single quotes it held.
pub proof fn lemma_escape_round_trip(s: Seq<char>)
    ensures
        unescape_quotes(escape_quotes(s)) == s,
    decreases s.len(),
{
    if s.len() == 0 {
        assert(unescape_quotes(escape_quotes(s)) =~= s);
    } else {
        lemma_escape_round_trip(s.skip(1));
        let e = escape_quotes(s);
        if s[0] == '\'' {
            assert(e =~= quote_escape() + escape_quotes(s.skip(1)));
            assert(e.take(4) =~= quote_escape());
            assert(e.skip(4) =~= escape_quotes(s.skip(1)));
            assert(unescape_quotes(e) == seq!['\''] + unescape_quotes(escape_quotes(s.skip(1))));
            assert(seq!['\''] + s.skip(1) =~= s);
        } else {
            assert(e =~= seq![s[0]] + escape_quotes(s.skip(1)));
            assert(e[0] == s[0]);
            if e.len() >= 4 {
                assert(e.take(4)[0] == s[0]);
                assert(quote_escape()[0] == '\'');
                assert(e.take(4) != quote_escape());
            }
            assert(e.skip(1) =~= escape_quotes(s.skip(1)));
            assert(unescape_quotes(e) == seq![s[0]] + unescape_quotes(escape_quotes(s.skip(1))));
            assert(seq![s[0]] + s.skip(1) =~= s);
        }
    }
}

/// The round trip through the full quoted word: the wrapping quotes are
/// there, and unescaping what stands between them yields the input again.
pub proof fn lemma_quoting_round_trip(s: Seq<char>)
    ensures
        spec_quoted(s).len() >= 2,
        spec_quoted(s).first() == '\'',
        spec_quoted(s).last() == '\'',
        unescape_quotes(spec_quoted(s).subrange(1, spec_quoted(s).len() - 1)) == s,
{
    lemma_escape_round_trip(s);
    assert(spec_quoted(s).subrange(1, spec_quoted(s).len() - 1) =~= escape_quotes(s));
}

/// Wraps a filter expression in single quotes so that it cannot terminate
/// the enclosing quoting when the remote shell interprets the command.
pub fn shell_escape_single_quotes(input: &str) -> (r: String)
    ensures
        r@ == spec_quoted(input@),
        input@.len() == 0 ==> r@ == seq!['\'', '\''],
{
    let n = input.unicode_len();
    let mut out = String::new();
    push_char(&mut out, '\'');
    proof {
        assert(out@ =~= seq!['\''] + escape_quotes(input@.take(0)));
    }
    let mut i: usize = 0;
    while i < n
        invariant
            n == input@.len(),
            i <= n,
            out@ == seq!['\''] + escape_quotes(input@.take(i as int)),
        decreases n - i,
    {
        let c = input.get_char(i);
        if c == '\'' {
            out.append("'\\''");
            proof {
                reveal_strlit("'\\''");
                assert("'\\''"@ =~= quote_escape());
                lemma_escape_quotes_snoc(input@, i as int);
                assert(out@ =~= seq!['\''] + escape_quotes(input@.take(i + 1)));
            }
        } else {
            push_char(&mut out, c);
            proof {
                lemma_escape_quotes_snoc(input@, i as int);
                assert(out@ =~= seq!['\''] + escape_quotes(input@.take(i + 1)));
            }
        }
        i = i + 1;
    }
    push_char(&mut out, '\'');
    proof {
        assert(input@.take(n as int) =~= input@);
        assert(out@ =~= spec_quoted(input@));
    }
    out
}

/// The container format name as the specific engine's format flag expects
/// it.
pub open spec fn spec_format_name(format: CaptureFormat) -> Seq<char> {
    match format {
        CaptureFormat::Pcap => "pcap"@,
        CaptureFormat::Pcapng => "pcapng"@,
    }
}

/// The single shell line that runs the capture and streams its bytes to
/// standard output. The filter, when present, is embedded in its quoted
/// form only.
pub open spec fn spec_capture_command(
    tool: CaptureTool,
    iface: Seq<char>,
    format: CaptureFormat,
    filter: Option<Seq<char>>,
) -> Seq<char> {
    match tool {
        CaptureTool::Tcpdump => {
            let base = "tcpdump -i "@ + iface + " -U -s 0"@;
            let with_filter = match filter {
                Some(f) => base + " "@ + spec_quoted(f),
                None => base,
            };
            with_filter + " -w -"@
        },
        CaptureTool::Tshark => {
            let base = "tshark -i "@ + iface + " -q -w - -F "@ + spec_format_name(format);
            match filter {
                Some(f) => base + " -f "@ + spec_quoted(f),
                None => base,
            }
        },
    }
}

/// Renders the selected engine's invocation as one shell-safe command
/// line that streams capture bytes to standard output.
pub fn build_capture_command(
    tool: CaptureTool,
    iface: &str,
    format: CaptureFormat,
    filter: Option<&str>,
) -> (r: String)
    ensures
        r@ == spec_capture_command(tool, iface@, format, filter.deep_view()),
{
    let filter_escaped: Option<String> = match filter {
        Some(f) => Some(shell_escape_single_quotes(f)),
        None => None,
    };

    match tool {
        CaptureTool::Tcpdump => {
            let mut cmd = String::new();
            cmd.append("tcpdump -i ");
            cmd.append(iface);
            cmd.append(" -U -s 0");
            if let Some(f) = &filter_escaped {
                cmd.append(" ");
                cmd.append(f.as_str());
            }
            cmd.append(" -w -");
            proof {
                assert(cmd@ =~= spec_capture_command(tool, iface@, format, filter.deep_view()));
            }
            cmd
        },
        CaptureTool::Tshark => {
            let mut cmd = String::new();
            cmd.append("tshark -i ");
            cmd.append(iface);
            cmd.append(" -q -w - -F ");
            match format {
                CaptureFormat::Pcap => cmd.append("pcap"),
                CaptureFormat::Pcapng => cmd.append("pcapng"),
            }
            if let Some(f) = &filter_escaped {
                cmd.append(" -f ");
                cmd.append(f.as_str());
            }
            proof {
                assert(cmd@ =~= spec_capture_command(tool, iface@, format, filter.deep_view()));
            }
            cmd
        },
    }
}

/// The duration guard's termination argv on Unix-like platforms: the
/// graceful termination signal, addressed to the spawned process.
pub open spec fn spec_kill_term_args(pid: nat) -> Seq<Seq<char>> {
    seq!["-TERM"@, dec_rep(pid)]
}

/// Builds the argument list of the `kill` command the duration guard runs
/// once its timer elapses.
pub fn kill_term_args(pid: u32) -> (r: Vec<String>)
    ensures
        strs_view(r@) == spec_kill_term_args(pid as nat),
{
    let mut args: Vec<String> = Vec::new();
    args.push("-TERM".to_owned());
    args.push(u64_to_dec(pid as u64));
    proof {
        assert(strs_view(args@) =~= spec_kill_term_args(pid as nat));
    }
    args
}

/// The duration guard's termination argv on Windows: end the process and
/// its child tree, forcefully.
pub open spec fn spec_taskkill_args(pid: nat) -> Seq<Seq<char>> {
    seq!["/PID"@, dec_rep(pid), "/T"@, "/F"@]
}

/// Builds the argument list of the `taskkill` command the duration guard
/// runs once its timer elapses.
pub fn taskkill_args(pid: u32) -> (r: Vec<String>)
    ensures
        strs_view(r@) == spec_taskkill_args(pid as nat),
{
    let mut args: Vec<String> = Vec::new();
    args.push("/PID".to_owned());
    args.push(u64_to_dec(pid as u64));
    args.push("/T".to_owned());
    args.push("/F".to_owned());
    proof {
        assert(strs_view(args@) =~= spec_taskkill_args(pid as nat));
    }
    args
}

} // verus!
