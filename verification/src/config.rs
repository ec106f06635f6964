//! Configuration of one session: the allocation request's resource
//! parameters, the session ports and optional pre-known credential, and
//! the precedence that layers command-line values over file values over
//! built-in defaults.

use vstd::prelude::*;
use vstd::string::*;

verus! {

/// Why configuration was rejected.
#[derive(Clone, Copy, Debug, PartialEq, Eq, Structural)]
pub enum ConfigError {
    /// No time limit was given by any source.
    MissingTimeLimit,
}

/// Resource parameters of one allocation request. Each is optional here;
/// a request is usable once [`SallocArgs::validated`] accepts it, which
/// requires at least the time limit.
#[derive(Clone, Debug, PartialEq)]
pub struct SallocArgs {
    pub time: Option<String>,
    pub mem_per_cpu: Option<String>,
    pub gres: Option<String>,
    pub nodes: Option<String>,
    pub cpus_per_task: Option<String>,
    pub mem: Option<String>,
    pub constraint: Option<String>,
}

/// The `--name=value` flag of one optional parameter, as zero or one
/// entries of an argument list.
pub open spec fn opt_flag(prefix: Seq<char>, v: Option<String>) -> Seq<Seq<char>> {
    match v {
        Some(s) => seq![prefix + s@],
        None => Seq::empty(),
    }
}

/// The scheduler flags a request turns into: one `--name=value` flag for
/// each parameter that is present, in a fixed order.
pub open spec fn spec_salloc_flags(a: SallocArgs) -> Seq<Seq<char>> {
    opt_flag("--time="@, a.time) + opt_flag("--mem-per-cpu="@, a.mem_per_cpu) + opt_flag(
        "--gres="@,
        a.gres,
    ) + opt_flag("--nodes="@, a.nodes) + opt_flag("--cpus-per-task="@, a.cpus_per_task) + opt_flag(
        "--mem="@,
        a.mem,
    ) + opt_flag("--constraint="@, a.constraint)
}

/// Appends the flag of one optional parameter to an argument list.
pub(crate) fn push_opt_flag(args: &mut Vec<String>, prefix: &str, v: &Option<String>)
    ensures
        final(args).deep_view() == old(args).deep_view() + opt_flag(prefix@, *v),
{
    match v {
        Some(s) => {
            let mut f = String::from_str(prefix);
            f.append(s.as_str());
            args.push(f);
            proof {
                assert(args.deep_view() =~= old(args).deep_view() + opt_flag(prefix@, *v));
            }
        },
        None => {
            proof {
                assert(args.deep_view() =~= old(args).deep_view() + opt_flag(prefix@, *v));
            }
        },
    }
}

/// The first of two optional values: how an explicit setting shadows a
/// fallback.
pub open spec fn first_of<T>(primary: Option<T>, fallback: Option<T>) -> Option<T> {
    if primary is Some {
        primary
    } else {
        fallback
    }
}

/// An optional setting resolved against its fallback and its default.
pub open spec fn first_or<T>(primary: Option<T>, fallback: Option<T>, dflt: T) -> T {
    match first_of(primary, fallback) {
        Some(v) => v,
        None => dflt,
    }
}

/// Executable [`first_of`].
fn pick<T>(primary: Option<T>, fallback: Option<T>) -> (r: Option<T>)
    ensures
        r == first_of(primary, fallback),
{
    match primary {
        Some(p) => Some(p),
        None => fallback,
    }
}

/// Executable [`first_or`].
fn pick_or<T>(primary: Option<T>, fallback: Option<T>, dflt: T) -> (r: T)
    ensures
        r == first_or(primary, fallback, dflt),
{
    match primary {
        Some(p) => p,
        None => match fallback {
            Some(f) => f,
            None => dflt,
        },
    }
}

impl SallocArgs {
    /// A request with nothing set: what either source starts from.
    pub fn empty() -> (a: Self)
        ensures
            a.time is None,
            a.mem_per_cpu is None,
            a.gres is None,
            a.nodes is None,
            a.cpus_per_task is None,
            a.mem is None,
            a.constraint is None,
    {
        SallocArgs {
            time: None,
            mem_per_cpu: None,
            gres: None,
            nodes: None,
            cpus_per_task: None,
            mem: None,
            constraint: None,
        }
    }

    /// The `--name=value` scheduler flags for every parameter that is
    /// present, as [`spec_salloc_flags`] lists them.
    pub fn get_args(&self) -> (args: Vec<String>)
        ensures
            args.deep_view() == spec_salloc_flags(*self),
    {
        let mut args: Vec<String> = Vec::new();
        push_opt_flag(&mut args, "--time=", &self.time);
        push_opt_flag(&mut args, "--mem-per-cpu=", &self.mem_per_cpu);
        push_opt_flag(&mut args, "--gres=", &self.gres);
        push_opt_flag(&mut args, "--nodes=", &self.nodes);
        push_opt_flag(&mut args, "--cpus-per-task=", &self.cpus_per_task);
        push_opt_flag(&mut args, "--mem=", &self.mem);
        push_opt_flag(&mut args, "--constraint=", &self.constraint);
        proof {
            assert(args.deep_view() =~= spec_salloc_flags(*self));
        }
        args
    }

    /// Layers one request over another, parameter by parameter: a value
    /// in `primary` wins; one present only in `fallback` fills the gap.
    pub fn merged(primary: Self, fallback: Self) -> (m: Self)
        ensures
            m.time == first_of(primary.time, fallback.time),
            m.mem_per_cpu == first_of(primary.mem_per_cpu, fallback.mem_per_cpu),
            m.gres == first_of(primary.gres, fallback.gres),
            m.nodes == first_of(primary.nodes, fallback.nodes),
            m.cpus_per_task == first_of(primary.cpus_per_task, fallback.cpus_per_task),
            m.mem == first_of(primary.mem, fallback.mem),
            m.constraint == first_of(primary.constraint, fallback.constraint),
    {
        SallocArgs {
            time: pick(primary.time, fallback.time),
            mem_per_cpu: pick(primary.mem_per_cpu, fallback.mem_per_cpu),
            gres: pick(primary.gres, fallback.gres),
            nodes: pick(primary.nodes, fallback.nodes),
            cpus_per_task: pick(primary.cpus_per_task, fallback.cpus_per_task),
            mem: pick(primary.mem, fallback.mem),
            constraint: pick(primary.constraint, fallback.constraint),
        }
    }

    /// Accepts a request exactly when the required time limit is
    /// present; without one, construction of a usable request fails.
    pub fn validated(self) -> (r: Result<Self, ConfigError>)
        ensures
            self.time is Some ==> r == Ok::<SallocArgs, ConfigError>(self),
            self.time is None ==> r == Err::<SallocArgs, ConfigError>(
                ConfigError::MissingTimeLimit,
            ),
    {
        if self.time.is_some() {
            Ok(self)
        } else {
            Err(ConfigError::MissingTimeLimit)
        }
    }
}

/// Built-in default for the notebook's listen port.
pub const DEFAULT_NOTEBOOK_PORT: u16 = 8889;

/// Built-in default for the local forwarding port.
pub const DEFAULT_LOCAL_PORT: u16 = 58889;

/// The session parameters the tunnel and the access URL are built from,
/// resolved once before scanning starts.
#[derive(Clone, Debug, PartialEq)]
pub struct SessionConfig {
    /// Port the notebook server listens on, on the allocated node.
    pub notebook_port: u16,
    /// Local port the tunnel binds on the workstation.
    pub local_port: u16,
    /// Credential known ahead of scanning, if any.
    pub token: Option<String>,
}

impl SessionConfig {
    /// Resolves the session parameters with the precedence command line
    /// over configuration file over built-in default. The credential has
    /// no default: it stays absent when neither source names one.
    pub fn resolve(
        cli_notebook_port: Option<u16>,
        cli_local_port: Option<u16>,
        cli_token: Option<String>,
        file_notebook_port: Option<u16>,
        file_local_port: Option<u16>,
        file_token: Option<String>,
    ) -> (c: Self)
        ensures
            c.notebook_port == first_or(
                cli_notebook_port,
                file_notebook_port,
                DEFAULT_NOTEBOOK_PORT,
            ),
            c.local_port == first_or(cli_local_port, file_local_port, DEFAULT_LOCAL_PORT),
            c.token == first_of(cli_token, file_token),
    {
        SessionConfig {
            notebook_port: pick_or(cli_notebook_port, file_notebook_port, DEFAULT_NOTEBOOK_PORT),
            local_port: pick_or(cli_local_port, file_local_port, DEFAULT_LOCAL_PORT),
            token: pick(cli_token, file_token),
        }
    }
}

} // verus!
