//! Argument lists of the two child processes and the final access URL:
//! the scheduler invocation that launches the notebook, the tunnel
//! invocation that forwards a local port to the discovered node, and the
//! URL the user opens once the tunnel is up.

use vstd::prelude::*;
use vstd::string::*;
use crate::config::{SallocArgs, opt_flag, push_opt_flag, spec_salloc_flags};
use crate::text::{dec_str, u16_dec};

verus! {

/// The notebook flags at the tail of the scheduler invocation: listen
/// port, no browser, loopback bind address, and the explicit credential
/// flag only when one is pre-known.
pub open spec fn spec_notebook_flags(notebook_port: u16, token: Option<String>) -> Seq<Seq<char>> {
    seq!["--port="@ + dec_str(notebook_port as nat), "--no-browser"@, "--ip=127.0.0.1"@]
        + opt_flag("--NotebookApp.token="@, token)
}

/// The whole argument list of the scheduler invocation: the resource
/// flags, the fixed flags asking for verbose diagnostics and environment
/// preservation, the wrapper launch script, and the notebook flags.
pub open spec fn spec_salloc_invocation(
    a: SallocArgs,
    script: Seq<char>,
    notebook_port: u16,
    token: Option<String>,
) -> Seq<Seq<char>> {
    spec_salloc_flags(a) + seq!["-v"@, "--preserve-env"@, script] + spec_notebook_flags(
        notebook_port,
        token,
    )
}

/// Builds the scheduler invocation, as [`spec_salloc_invocation`] lists
/// it.
pub fn salloc_invocation(
    a: &SallocArgs,
    script: &str,
    notebook_port: u16,
    token: &Option<String>,
) -> (args: Vec<String>)
    ensures
        args.deep_view() == spec_salloc_invocation(*a, script@, notebook_port, *token),
{
    let mut args = a.get_args();
    args.push(String::from_str("-v"));
    args.push(String::from_str("--preserve-env"));
    args.push(String::from_str(script));
    let mut port_flag = String::from_str("--port=");
    let port_dec = u16_dec(notebook_port);
    port_flag.append(port_dec.as_str());
    args.push(port_flag);
    args.push(String::from_str("--no-browser"));
    args.push(String::from_str("--ip=127.0.0.1"));
    push_opt_flag(&mut args, "--NotebookApp.token=", token);
    proof {
        assert(args.deep_view() =~= spec_salloc_invocation(*a, script@, notebook_port, *token));
    }
    args
}

/// The forwarding spec `localhost:<local>:localhost:<notebook>` handed
/// to the tunnel process.
pub open spec fn spec_forward(local_port: u16, notebook_port: u16) -> Seq<char> {
    "localhost:"@ + dec_str(local_port as nat) + ":localhost:"@ + dec_str(notebook_port as nat)
}

/// Builds the forwarding spec, as [`spec_forward`] writes it.
pub fn forward_spec(local_port: u16, notebook_port: u16) -> (s: String)
    ensures
        s@ == spec_forward(local_port, notebook_port),
{
    let mut s = String::from_str("localhost:");
    let local_dec = u16_dec(local_port);
    s.append(local_dec.as_str());
    s.append(":localhost:");
    let notebook_dec = u16_dec(notebook_port);
    s.append(notebook_dec.as_str());
    s
}

/// The argument list of the tunnel invocation: no remote command,
/// forward only, the forwarding spec, and the discovered node as the
/// remote login target.
pub open spec fn spec_tunnel_invocation(
    local_port: u16,
    notebook_port: u16,
    node: Seq<char>,
) -> Seq<Seq<char>> {
    seq!["-N"@, "-L"@, spec_forward(local_port, notebook_port), node]
}

/// Builds the tunnel invocation, as [`spec_tunnel_invocation`] lists it.
pub fn tunnel_invocation(local_port: u16, notebook_port: u16, node: &str) -> (args: Vec<String>)
    ensures
        args.deep_view() == spec_tunnel_invocation(local_port, notebook_port, node@),
{
    let mut args: Vec<String> = Vec::new();
    args.push(String::from_str("-N"));
    args.push(String::from_str("-L"));
    args.push(forward_spec(local_port, notebook_port));
    args.push(String::from_str(node));
    proof {
        assert(args.deep_view() =~= spec_tunnel_invocation(local_port, notebook_port, node@));
    }
    args
}

/// The local access URL `http://localhost:<port>/?token=<credential>`,
/// with whichever credential is in effect.
pub open spec fn spec_access_url(local_port: u16, credential: Seq<char>) -> Seq<char> {
    "http://localhost:"@ + dec_str(local_port as nat) + "/?token="@ + credential
}

/// Builds the access URL, as [`spec_access_url`] writes it.
pub fn access_url(local_port: u16, credential: &str) -> (s: String)
    ensures
        s@ == spec_access_url(local_port, credential@),
{
    let mut s = String::from_str("http://localhost:");
    let local_dec = u16_dec(local_port);
    s.append(local_dec.as_str());
    s.append("/?token=");
    s.append(credential);
    s
}

} // verus!
