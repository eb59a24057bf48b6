//! The executor's command line, split into its own options and the user
//! command, and the validated configuration of one execution.
use vstd::prelude::*;
use crate::accounting::MAX_TIME_LIMIT_US;

verus! {

/// The token that separates the executor's options from the user command.
pub open spec fn separator() -> Seq<char> {
    "--"@
}

pub open spec fn texts(v: Seq<String>) -> Seq<Seq<char>> {
    v.map_values(|s: String| s@)
}

/// Whether `p` is the first position of the separator in `args`.
pub open spec fn first_separator(args: Seq<Seq<char>>, p: int) -> bool {
    &&& 0 <= p < args.len()
    &&& args[p] == separator()
    &&& forall|i: int| 0 <= i < p ==> #[trigger] args[i] != separator()
}

/// Copies `v[lo..hi]`.
fn clone_range(v: &Vec<String>, lo: usize, hi: usize) -> (r: Vec<String>)
    requires
        lo <= hi <= v@.len(),
    ensures
        r@ == v@.subrange(lo as int, hi as int),
{
    let mut r: Vec<String> = Vec::new();
    let mut i: usize = lo;
    while i < hi
        invariant
            lo <= i <= hi <= v@.len(),
            r@ == v@.subrange(lo as int, i as int),
        decreases hi - i,
    {
        let s = v[i].clone();
        r.push(s);
        assert(r@ =~= v@.subrange(lo as int, i + 1));
        i = i + 1;
    }
    r
}

/// Splits the command line at its first `--`: the executor's own arguments
/// before it, the user command after it. `None` when there is no `--`.
pub fn split_command_line(args: &Vec<String>) -> (r: Option<(Vec<String>, Vec<String>)>)
    ensures
        r.is_none() <==> forall|i: int| 0 <= i < args@.len() ==> #[trigger] args@[i]@ != separator(),
        r matches Some((mine, user)) ==> exists|p: int|
            {
                &&& #[trigger] first_separator(texts(args@), p)
                &&& mine@ == args@.subrange(0, p)
                &&& user@ == args@.subrange(p + 1, args@.len() as int)
            },
{
    let sep: String = "--".to_owned();
    let n = args.len();
    let mut p: usize = 0;
    while p < n
        invariant
            p <= n == args@.len(),
            sep@ == separator(),
            forall|i: int| 0 <= i < p ==> #[trigger] args@[i]@ != separator(),
        decreases n - p,
    {
        if args[p] == sep {
            let mine = clone_range(args, 0, p);
            let user = clone_range(args, p + 1, n);
            assert(first_separator(texts(args@), p as int));
            return Some((mine, user));
        }
        p = p + 1;
    }
    None
}

/// Why a configuration was refused.
#[derive(Clone, Copy, Debug, PartialEq, Eq, Structural)]
pub enum ConfigError {
    /// The time limit lies outside zero to one hour.
    TimeLimitOutOfRange,
    /// The user command has no program name.
    EmptyCommand,
}

/// Settings of one execution.
pub struct Config {
    /// Host directory seen by the command as its working directory.
    pub workdir: Vec<u8>,
    /// Whether writes to the workdir are discarded (copy-on-write overlay).
    pub overlay: bool,
    /// Time limit in microseconds.
    pub time_limit_us: u64,
    /// Where the one-line result record is written, if anywhere.
    pub result_path: Option<String>,
    /// Program name followed by its arguments.
    pub user_argv: Vec<String>,
}

/// Workdir used when none is given: the current directory.
pub open spec fn default_workdir() -> Seq<u8> {
    seq![0x2eu8]
}

impl Config {
    pub open spec fn well_formed(&self) -> bool {
        &&& self.time_limit_us <= MAX_TIME_LIMIT_US
        &&& self.user_argv@.len() > 0
    }

    /// Builds a configuration, filling in the current directory and the
    /// one-hour limit where no value is given.
    pub fn new(
        workdir: Option<Vec<u8>>,
        overlay: bool,
        time_limit_us: Option<u64>,
        result_path: Option<String>,
        user_argv: Vec<String>,
    ) -> (r: Result<Config, ConfigError>)
        ensures
            r.is_ok() <==> (!(time_limit_us matches Some(t) && t > MAX_TIME_LIMIT_US) && user_argv@.len()
                > 0),
            (time_limit_us matches Some(t) && t > MAX_TIME_LIMIT_US) <==> r == Err::<Config, ConfigError>(
                ConfigError::TimeLimitOutOfRange,
            ),
            r == Err::<Config, ConfigError>(ConfigError::EmptyCommand) <==> (!(time_limit_us matches Some(
                t,
            ) && t > MAX_TIME_LIMIT_US) && user_argv@.len() == 0),
            r matches Ok(c) ==> {
                &&& c.well_formed()
                &&& c.workdir@ == match workdir {
                    Some(w) => w@,
                    None => default_workdir(),
                }
                &&& c.overlay == overlay
                &&& c.time_limit_us == match time_limit_us {
                    Some(t) => t,
                    None => MAX_TIME_LIMIT_US,
                }
                &&& c.result_path == result_path
                &&& c.user_argv == user_argv
            },
    {
        let tl = match time_limit_us {
            Some(t) => t,
            None => MAX_TIME_LIMIT_US,
        };
        if tl > MAX_TIME_LIMIT_US {
            return Err(ConfigError::TimeLimitOutOfRange);
        }
        if user_argv.len() == 0 {
            return Err(ConfigError::EmptyCommand);
        }
        let workdir = match workdir {
            Some(w) => w,
            None => {
                let mut d: Vec<u8> = Vec::new();
                d.push(0x2eu8);
                assert(d@ =~= default_workdir());
                d
            },
        };
        Ok(Config { workdir, overlay, time_limit_us: tl, result_path, user_argv })
    }
}

} // verus!
