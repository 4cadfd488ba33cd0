//! Command-line options of a run, read with getopts.
use crate::config::{Config, Operation};
use vstd::prelude::*;

verus! {

pub const DEFAULT_TASKS: usize = 5;

pub const DEFAULT_LOOP_COUNT: usize = 50;

pub const DEFAULT_RAMP_SECONDS: u64 = 0;

pub const DEFAULT_MAX_RETRIES: usize = 3;

pub const DEFAULT_RETRY_INITIAL_DELAY_MS: u64 = 1000;

/// Value of a non-empty sequence of decimal digits.
pub open spec fn digits_value(s: Seq<char>) -> int
    decreases s.len(),
{
    if s.len() == 0 {
        0
    } else {
        digits_value(s.drop_last()) * 10 + (s.last() as int - '0' as int)
    }
}

pub open spec fn all_digits(s: Seq<char>) -> bool {
    forall|i: int| 0 <= i < s.len() ==> '0' <= #[trigger] s[i] <= '9'
}

/// An unsigned decimal as `u64`'s `FromStr` reads it: an optional `+`, then at
/// least one digit and nothing else, of a value that fits.
pub open spec fn decimal_u64(s: Seq<char>) -> Option<u64> {
    let d = if s.len() > 0 && s[0] == '+' {
        s.drop_first()
    } else {
        s
    };
    if d.len() > 0 && all_digits(d) && digits_value(d) <= u64::MAX {
        Some(digits_value(d) as u64)
    } else {
        None
    }
}

/// The value of an optional numeric option: `default` when it is absent or not
/// a decimal that fits in `max`.
pub open spec fn number_or(v: Option<Seq<char>>, default: u64, max: u64) -> u64 {
    match v {
        Some(s) => match decimal_u64(s) {
            Some(n) if n <= max => n,
            _ => default,
        },
        None => default,
    }
}

/// The text of an optional string.
pub open spec fn opt_view(v: Option<String>) -> Option<Seq<char>> {
    match v {
        Some(s) => Some(s@),
        None => None,
    }
}

/// The value given for `name` in `values`, if any.
pub open spec fn value_in(values: Map<Seq<char>, Seq<char>>, name: Seq<char>) -> Option<
    Seq<char>,
> {
    if values.contains_key(name) {
        Some(values[name])
    } else {
        None
    }
}

/// `r` is the configuration that the option values give: numeric options
/// absent, not decimal or too large take their defaults, and the api must
/// name an operation kind.
pub open spec fn gives_config(
    r: Result<Config, ArgsError>,
    tasks: Option<Seq<char>>,
    loop_count: Option<Seq<char>>,
    ramp_seconds: Option<Seq<char>>,
    api: Option<Seq<char>>,
    max_retries: Option<Seq<char>>,
    retry_initial_delay_ms: Option<Seq<char>>,
) -> bool {
    match api {
        Some(a) if operation_named(a) is Some => {
            &&& r is Ok
            &&& r->Ok_0.tasks == number_or(tasks, DEFAULT_TASKS as u64, usize::MAX as u64)
            &&& r->Ok_0.loop_count == number_or(
                loop_count,
                DEFAULT_LOOP_COUNT as u64,
                usize::MAX as u64,
            )
            &&& r->Ok_0.ramp_seconds == number_or(ramp_seconds, DEFAULT_RAMP_SECONDS, u64::MAX)
            &&& r->Ok_0.api@ == a
            &&& r->Ok_0.max_retries == number_or(
                max_retries,
                DEFAULT_MAX_RETRIES as u64,
                usize::MAX as u64,
            )
            &&& r->Ok_0.retry_initial_delay_ms == number_or(
                retry_initial_delay_ms,
                DEFAULT_RETRY_INITIAL_DELAY_MS,
                u64::MAX,
            )
        },
        _ => r == Err::<Config, ArgsError>(ArgsError::BadApi),
    }
}

/// The texts of a list of strings.
pub open spec fn texts(args: Seq<String>) -> Seq<Seq<char>> {
    args.map_values(|a: String| a@)
}

/// The operation kind named `api`.
pub open spec fn operation_named(api: Seq<char>) -> Option<Operation> {
    if api == "cpu"@ {
        Some(Operation::Cpu)
    } else if api == "db"@ {
        Some(Operation::Db)
    } else {
        None
    }
}

/// Why the command line gives no run.
#[derive(Clone, Debug, PartialEq, Eq)]
pub enum ArgsError {
    /// Help was asked for.
    Help,
    /// The options could not be read; the text says why.
    BadOptions(String),
    /// The operation kind is missing or unknown.
    BadApi,
}

#[verifier::external_type_specification]
#[verifier::external_body]
pub struct ExOptions(getopts::Options);

#[verifier::external_type_specification]
#[verifier::external_body]
pub struct ExMatches(getopts::Matches);

#[verifier::external_type_specification]
#[verifier::external_body]
pub struct ExFail(getopts::Fail);

/// An option definition: short name, long name, and whether it takes a value.
pub type OptionDef = (Seq<char>, Seq<char>, bool);

/// The option definitions held by an option set, in the order they were added.
pub uninterp spec fn option_defs(o: getopts::Options) -> Seq<OptionDef>;

/// What getopts makes of `args` against the definitions `defs`: `None` when it
/// refuses them, else the value given for each name that has one.
pub uninterp spec fn getopts_values(defs: Seq<OptionDef>, args: Seq<Seq<char>>) -> Option<
    Map<Seq<char>, Seq<char>>,
>;

/// The names that getopts finds given in `args` against `defs`.
pub uninterp spec fn getopts_present(defs: Seq<OptionDef>, args: Seq<Seq<char>>) -> Set<Seq<char>>;

/// The value that a parse result holds for each name that has one.
pub uninterp spec fn matched_values(m: getopts::Matches) -> Map<Seq<char>, Seq<char>>;

/// The names that a parse result holds as given.
pub uninterp spec fn matched_present(m: getopts::Matches) -> Set<Seq<char>>;

/// The help text of an option set under the header `brief`.
pub uninterp spec fn usage_text(o: getopts::Options, brief: Seq<char>) -> Seq<char>;

/// Names getopts accepts: the short one empty or one ASCII character, the long
/// one empty or longer than one character, and not both empty.
pub open spec fn names_valid(short: Seq<char>, long: Seq<char>) -> bool {
    &&& (short.len() == 0 || (short.len() == 1 && (short[0] as u32) < 128))
    &&& (long.len() == 0 || long.len() > 1)
    &&& (short.len() > 0 || long.len() > 0)
}

/// Relies on `getopts::Options::new`: no option defined yet.
#[verifier::external_body]
fn options_new() -> (r: getopts::Options)
    ensures
        option_defs(r) == Seq::<OptionDef>::empty(),
{
    getopts::Options::new()
}

/// Relies on `getopts::Options::optopt`: appends an optional option that takes
/// a value; it panics on names that `names_valid` rejects.
#[verifier::external_body]
fn add_value_option(opts: &mut getopts::Options, short: &str, long: &str, desc: &str, hint: &str)
    requires
        names_valid(short@, long@),
    ensures
        option_defs(*final(opts)) == option_defs(*old(opts)).push((short@, long@, true)),
{
    opts.optopt(short, long, desc, hint);
}

/// Relies on `getopts::Options::optflag`: appends an optional option that takes
/// no value; it panics on names that `names_valid` rejects.
#[verifier::external_body]
fn add_flag(opts: &mut getopts::Options, short: &str, long: &str, desc: &str)
    requires
        names_valid(short@, long@),
    ensures
        option_defs(*final(opts)) == option_defs(*old(opts)).push((short@, long@, false)),
{
    opts.optflag(short, long, desc);
}

/// Relies on `getopts::Options::parse`: refuses `args` or holds what was given.
/// `long_to_short` panics on an option without any name, which `names_valid`
/// leaves out of every option set built here.
#[verifier::external_body]
fn parse_with(opts: &getopts::Options, args: &[String]) -> (r: Result<getopts::Matches, getopts::Fail>)
    requires
        forall|i: int|
            0 <= i < option_defs(*opts).len() ==> (#[trigger] option_defs(*opts)[i]).0.len() > 0
                || option_defs(*opts)[i].1.len() > 0,
    ensures
        (r is Ok) == (getopts_values(option_defs(*opts), texts(args@)) is Some),
        r matches Ok(m) ==> matched_values(m) == getopts_values(
            option_defs(*opts),
            texts(args@),
        )->Some_0 && matched_present(m) == getopts_present(option_defs(*opts), texts(args@)),
{
    opts.parse(args)
}

/// Relies on `getopts::Fail`'s `Display`: the reason a command line was refused.
#[verifier::external_body]
fn fail_text(f: &getopts::Fail) -> String {
    format!("{}", f)
}

/// Relies on `getopts::Options::usage`: the help text under `brief`.
#[verifier::external_body]
fn usage_of(opts: &getopts::Options, brief: &str) -> (r: String)
    ensures
        r@ == usage_text(*opts, brief@),
{
    opts.usage(brief)
}

/// Relies on `getopts::Matches::opt_present`, which panics on a name that was
/// not defined.
#[verifier::external_body]
fn flag_given(m: &ParsedArgs, name: &str) -> (r: bool)
    requires
        m.names@.contains(name@),
    ensures
        r == matched_present(m.matches).contains(name@),
{
    m.matches.opt_present(name)
}

/// Relies on `getopts::Matches::opt_str`, which panics on a name that was not
/// defined.
#[verifier::external_body]
fn value_given(m: &ParsedArgs, name: &str) -> (r: Option<String>)
    requires
        m.names@.contains(name@),
    ensures
        opt_view(r) == value_in(matched_values(m.matches), name@),
{
    m.matches.opt_str(name)
}

/// Relies on `u64`'s `FromStr`: an optional `+` then decimal digits, nothing
/// else, of a value that fits.
#[verifier::external_body]
fn parse_u64(s: &str) -> (r: Option<u64>)
    ensures
        r == decimal_u64(s@),
{
    s.parse::<u64>().ok()
}

/// Every definition has a short or a long name.
pub open spec fn all_named(defs: Seq<OptionDef>) -> bool {
    forall|i: int| 0 <= i < defs.len() ==> (#[trigger] defs[i]).0.len() > 0 || defs[i].1.len() > 0
}

/// An option set, with the names defined in it.
pub struct OptionSet {
    opts: getopts::Options,
    names: Ghost<Set<Seq<char>>>,
}

/// The options found on a command line, with the names that were defined.
pub struct ParsedArgs {
    matches: getopts::Matches,
    names: Ghost<Set<Seq<char>>>,
}

impl ParsedArgs {
    /// The names that were defined when these options were read.
    pub closed spec fn names(&self) -> Set<Seq<char>> {
        self.names@
    }

    /// The value found for each name that has one.
    pub closed spec fn values(&self) -> Map<Seq<char>, Seq<char>> {
        matched_values(self.matches)
    }

    /// The names found given.
    pub closed spec fn present(&self) -> Set<Seq<char>> {
        matched_present(self.matches)
    }
}

/// The long names of the value options and both names of the help flag.
pub open spec fn run_option_names() -> Set<Seq<char>> {
    set![
        "tasks"@,
        "loop"@,
        "ramp"@,
        "api"@,
        "max-retries"@,
        "retry-ms"@,
        "h"@,
        "help"@,
    ]
}

/// The definitions of a run's options, in order: six value options known by
/// their long names, then the help flag `-h`, `--help`.
pub open spec fn run_option_defs() -> Seq<OptionDef> {
    seq![
        (""@, "tasks"@, true),
        (""@, "loop"@, true),
        (""@, "ramp"@, true),
        (""@, "api"@, true),
        (""@, "max-retries"@, true),
        (""@, "retry-ms"@, true),
        ("h"@, "help"@, false),
    ]
}

/// The header of the help text for `program`.
pub open spec fn usage_brief(program: Seq<char>) -> Seq<char> {
    "Usage: "@ + program + " [options]"@
}

impl OptionSet {
    /// The names defined in this option set.
    pub closed spec fn names(&self) -> Set<Seq<char>> {
        self.names@
    }

    /// The definitions held, in order.
    pub closed spec fn defs(&self) -> Seq<OptionDef> {
        option_defs(self.opts)
    }

    /// The help text under the header `brief`.
    pub closed spec fn help_text(&self, brief: Seq<char>) -> Seq<char> {
        usage_text(self.opts, brief)
    }

    fn add_value(&mut self, long: &str, desc: &str, hint: &str)
        requires
            long@.len() > 1,
        ensures
            final(self).names@ == old(self).names@.insert(long@),
            final(self).defs() == old(self).defs().push((""@, long@, true)),
    {
        proof {
            reveal_strlit("");
        }
        add_value_option(&mut self.opts, "", long, desc, hint);
        self.names = Ghost(self.names@.insert(long@));
    }

    /// The options of a run: tasks, loop, ramp, api, max-retries, retry-ms
    /// and the help flag.
    pub fn for_run() -> (r: OptionSet)
        ensures
            r.names() == run_option_names(),
            r.defs() == run_option_defs(),
    {
        let mut s = OptionSet { opts: options_new(), names: Ghost(Set::empty()) };
        proof {
            reveal_strlit("tasks");
            reveal_strlit("loop");
            reveal_strlit("ramp");
            reveal_strlit("api");
            reveal_strlit("max-retries");
            reveal_strlit("retry-ms");
            reveal_strlit("h");
            reveal_strlit("help");
        }
        s.add_value("tasks", "Number of tasks (default: 5)", "TASKS");
        s.add_value("loop", "Loop count per task (default: 50)", "LOOP");
        s.add_value("ramp", "Ramp-up time in seconds (default: 0)", "RAMP");
        s.add_value("api", "API type, either 'cpu' or 'db' (required)", "API");
        s.add_value("max-retries", "Maximum number of retries (default: 3)", "RETRIES");
        s.add_value("retry-ms", "Initial delay in ms before retrying (default: 1000)", "DELAY");
        add_flag(&mut s.opts, "h", "help", "Print this help menu");
        s.names = Ghost(s.names@.insert("h"@).insert("help"@));
        assert(s.names@ =~= run_option_names());
        assert(s.defs() =~= run_option_defs());
        s
    }

    /// The help text, headed by a usage line for `program`.
    pub fn usage(&self, program: &str) -> (r: String)
        ensures
            r@ == self.help_text(usage_brief(program@)),
    {
        let brief = "Usage: ".to_owned().concat(program).concat(" [options]");
        usage_of(&self.opts, brief.as_str())
    }

    /// Reads `args` (the program name left out) against this option set:
    /// the reason getopts gives when it refuses them, else what it found.
    pub fn parse(&self, args: &[String]) -> (r: Result<ParsedArgs, String>)
        requires
            all_named(self.defs()),
        ensures
            (r is Ok) == (getopts_values(self.defs(), texts(args@)) is Some),
            r matches Ok(p) ==> {
                &&& p.names() == self.names()
                &&& p.values() == getopts_values(self.defs(), texts(args@))->Some_0
                &&& p.present() == getopts_present(self.defs(), texts(args@))
            },
    {
        match parse_with(&self.opts, args) {
            Ok(m) => Ok(ParsedArgs { matches: m, names: Ghost(self.names@) }),
            Err(f) => Err(fail_text(&f)),
        }
    }
}

/// Exec form of `number_or`.
fn number_or_default(v: &Option<String>, default: u64, max: u64) -> (r: u64)
    ensures
        r == number_or(opt_view(*v), default, max),
{
    match v {
        Some(s) => match parse_u64(s.as_str()) {
            Some(n) => if n <= max {
                n
            } else {
                default
            },
            None => default,
        },
        None => default,
    }
}

impl Operation {
    /// The operation kind named `api`: `"cpu"` or `"db"`.
    pub fn from_api(api: &String) -> (r: Option<Operation>)
        ensures
            r == operation_named(api@),
    {
        let cpu = "cpu".to_owned();
        let db = "db".to_owned();
        proof {
            reveal_strlit("cpu");
            reveal_strlit("db");
        }
        if *api == cpu {
            Some(Operation::Cpu)
        } else if *api == db {
            Some(Operation::Db)
        } else {
            None
        }
    }
}

impl Config {
    /// The configuration given by the option values as found on a command
    /// line: a numeric option that is absent, not a decimal or too large takes
    /// its default; the api must name an operation kind.
    pub fn from_values(
        tasks: Option<String>,
        loop_count: Option<String>,
        ramp_seconds: Option<String>,
        api: Option<String>,
        max_retries: Option<String>,
        retry_initial_delay_ms: Option<String>,
    ) -> (r: Result<Config, ArgsError>)
        ensures
            gives_config(
                r,
                opt_view(tasks),
                opt_view(loop_count),
                opt_view(ramp_seconds),
                opt_view(api),
                opt_view(max_retries),
                opt_view(retry_initial_delay_ms),
            ),
    {
        let usize_max: u64 = if usize::MAX as u64 == u64::MAX { u64::MAX } else { usize::MAX as u64 };
        let a = match api {
            Some(a) => a,
            None => return Err(ArgsError::BadApi),
        };
        if Operation::from_api(&a).is_none() {
            return Err(ArgsError::BadApi);
        }
        let t = number_or_default(&tasks, DEFAULT_TASKS as u64, usize_max);
        let l = number_or_default(&loop_count, DEFAULT_LOOP_COUNT as u64, usize_max);
        let rs = number_or_default(&ramp_seconds, DEFAULT_RAMP_SECONDS, u64::MAX);
        let m = number_or_default(&max_retries, DEFAULT_MAX_RETRIES as u64, usize_max);
        let d = number_or_default(&retry_initial_delay_ms, DEFAULT_RETRY_INITIAL_DELAY_MS, u64::MAX);
        Ok(
            Config {
                tasks: t as usize,
                loop_count: l as usize,
                ramp_seconds: rs,
                api: a,
                max_retries: m as usize,
                retry_initial_delay_ms: d,
            },
        )
    }

    /// The configuration given by a command line `args` (program name first):
    /// a command line that getopts refuses gives `BadOptions`; else the help
    /// flag gives `Help`; else the option values decide as in `from_values`.
    pub fn from_args(args: &Vec<String>) -> (r: Result<Config, ArgsError>)
        requires
            args@.len() >= 1,
        ensures
            ({
                let rest = texts(args@).drop_first();
                let v = getopts_values(run_option_defs(), rest);
                &&& v is None ==> (r is Err && r->Err_0 is BadOptions)
                &&& (v is Some && getopts_present(run_option_defs(), rest).contains("h"@)) ==> r
                    == Err::<Config, ArgsError>(ArgsError::Help)
                &&& (v is Some && !getopts_present(run_option_defs(), rest).contains("h"@))
                    ==> gives_config(
                    r,
                    value_in(v->Some_0, "tasks"@),
                    value_in(v->Some_0, "loop"@),
                    value_in(v->Some_0, "ramp"@),
                    value_in(v->Some_0, "api"@),
                    value_in(v->Some_0, "max-retries"@),
                    value_in(v->Some_0, "retry-ms"@),
                )
            }),
    {
        let set = OptionSet::for_run();
        let rest = vstd::slice::slice_subrange(args.as_slice(), 1, args.len());
        proof {
            assert(texts(rest@) =~= texts(args@).drop_first());
            reveal_strlit("");
            reveal_strlit("tasks");
            reveal_strlit("loop");
            reveal_strlit("ramp");
            reveal_strlit("api");
            reveal_strlit("max-retries");
            reveal_strlit("retry-ms");
            reveal_strlit("h");
            reveal_strlit("help");
            assert(all_named(run_option_defs()));
        }
        let parsed = match set.parse(rest) {
            Ok(p) => p,
            Err(text) => return Err(ArgsError::BadOptions(text)),
        };
        if flag_given(&parsed, "h") {
            return Err(ArgsError::Help);
        }
        Config::from_values(
            value_given(&parsed, "tasks"),
            value_given(&parsed, "loop"),
            value_given(&parsed, "ramp"),
            value_given(&parsed, "api"),
            value_given(&parsed, "max-retries"),
            value_given(&parsed, "retry-ms"),
        )
    }
}

} // verus!
