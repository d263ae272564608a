//! Resolving the raw invocation arguments into a search configuration:
//! pure validation, no side effects.

use vstd::prelude::*;
use crate::text::str_eq;

verus! {

/// Where the text to search comes from: a file on disk or standard input.
pub enum Source {
    FilePath(String),
    Stdin,
}

/// One validated invocation: what to look for, where, and how to compare.
pub struct SearchConfig {
    pub query: String,
    pub source: Source,
    pub case_sensitive: bool,
}

/// Why the raw arguments could not be resolved: a required argument is
/// absent, or an argument in flag position is not a known flag. Each variant
/// names the offender.
pub enum ConfigError {
    MissingArgument(String),
    UnknownFlag(String),
}

impl ConfigError {
    /// Human-readable description of the failure, naming the offending
    /// argument.
    pub fn message(&self) -> (s: String)
        ensures
            (*self matches ConfigError::MissingArgument(name) ==> s@ == "missing argument: "@
                + name@),
            (*self matches ConfigError::UnknownFlag(flag) ==> s@ == "unknown flag: "@ + flag@),
    {
        match self {
            ConfigError::MissingArgument(name) => String::from_str("missing argument: ").concat(
                name.as_str(),
            ),
            ConfigError::UnknownFlag(flag) => String::from_str("unknown flag: ").concat(
                flag.as_str(),
            ),
        }
    }
}

/// An argument is in flag position when it starts with two dashes.
pub open spec fn is_flag(arg: Seq<char>) -> bool {
    arg.len() >= 2 && arg[0] == '-' && arg[1] == '-'
}

/// The one flag this tool knows: it switches matching to case-insensitive.
pub open spec fn is_ignore_case_flag(arg: Seq<char>) -> bool {
    arg == "--ignore-case"@
}

/// A flag-position argument the tool does not know.
pub open spec fn is_unknown_flag(arg: Seq<char>) -> bool {
    is_flag(arg) && !is_ignore_case_flag(arg)
}

/// The positional arguments: those not in flag position, in order. The first
/// is the query, the second the path.
pub open spec fn positionals(args: Seq<Seq<char>>) -> Seq<Seq<char>>
    decreases args.len(),
{
    if args.len() == 0 {
        Seq::empty()
    } else {
        let rest = positionals(args.drop_last());
        if is_flag(args.last()) {
            rest
        } else {
            rest.push(args.last())
        }
    }
}

/// The path argument that selects standard input.
pub open spec fn is_stdin_path(path: Seq<char>) -> bool {
    path == "-"@
}

/// The resolved source for a given path argument.
pub open spec fn source_of(path: Seq<char>, source: Source) -> bool {
    if is_stdin_path(path) {
        source matches Source::Stdin
    } else {
        source matches Source::FilePath(p) && p@ == path
    }
}

/// Everything `resolve` promises of a returned configuration.
pub open spec fn resolved_config(args: Seq<Seq<char>>, config: SearchConfig) -> bool {
    &&& config.query@ == positionals(args)[0]
    &&& source_of(positionals(args)[1], config.source)
    &&& config.case_sensitive == !(exists|i: int|
        0 <= i < args.len() && is_ignore_case_flag(args[i]))
}

/// Validates the raw arguments and builds the configuration.
///
/// Flags may stand anywhere; the first non-flag argument is the query, the
/// second the path (`-` selects standard input), later non-flag arguments
/// are ignored. An unknown flag fails, naming the first offender; otherwise
/// a missing query or path fails, naming the absent argument.
pub fn resolve(raw_args: &Vec<String>) -> (r: Result<SearchConfig, ConfigError>)
    ensures
        ({
            let args = raw_args.deep_view();
            &&& r is Ok <==> (!(exists|i: int| 0 <= i < args.len() && is_unknown_flag(args[i]))
                && positionals(args).len() >= 2)
            &&& (r matches Ok(config) ==> resolved_config(args, config))
            &&& (exists|i: int| 0 <= i < args.len() && is_unknown_flag(args[i])) <==> (r matches Err(
                ConfigError::UnknownFlag(f),
            ))
            &&& (r matches Err(ConfigError::UnknownFlag(f)) ==> exists|i: int|
                {
                    &&& 0 <= i < args.len()
                    &&& is_unknown_flag(args[i])
                    &&& f@ == args[i]
                    &&& forall|j: int| 0 <= j < i ==> !is_unknown_flag(args[j])
                })
            &&& (!(exists|i: int| 0 <= i < args.len() && is_unknown_flag(args[i]))
                && positionals(args).len() == 0 ==> (r matches Err(ConfigError::MissingArgument(m))
                && m@ == "query"@))
            &&& (!(exists|i: int| 0 <= i < args.len() && is_unknown_flag(args[i]))
                && positionals(args).len() == 1 ==> (r matches Err(ConfigError::MissingArgument(m))
                && m@ == "path"@))
        }),
{
    let ghost args = raw_args.deep_view();
    let n = raw_args.len();
    let mut query: Option<String> = None;
    let mut path: Option<String> = None;
    let mut ignore_case = false;
    let mut i: usize = 0;
    proof {
        assert(positionals(args.subrange(0, 0)) =~= Seq::<Seq<char>>::empty());
    }
    while i < n
        invariant
            i <= n,
            n == raw_args.len(),
            args == raw_args.deep_view(),
            forall|j: int| 0 <= j < i ==> !is_unknown_flag(args[j]),
            ignore_case == exists|j: int| 0 <= j < i && is_ignore_case_flag(args[j]),
            ({
                let pos = positionals(args.subrange(0, i as int));
                &&& (pos.len() == 0 <==> query is None)
                &&& (query matches Some(q) ==> pos.len() >= 1 && q@ == pos[0])
                &&& (pos.len() <= 1 <==> path is None)
                &&& (path matches Some(p) ==> pos.len() >= 2 && p@ == pos[1])
            }),
        decreases n - i,
    {
        let arg = &raw_args[i];
        let ghost pre = args.subrange(0, i as int);
        proof {
            reveal_strlit("--ignore-case");
            assert(args[i as int] == arg@);
            assert(args.subrange(0, i + 1) =~= pre.push(args[i as int]));
            assert(args.subrange(0, i + 1).drop_last() =~= pre);
        }
        let flaggish = arg.as_str().unicode_len() >= 2 && arg.as_str().get_char(0) == '-'
            && arg.as_str().get_char(1) == '-';
        if flaggish {
            if str_eq(arg.as_str(), "--ignore-case") {
                ignore_case = true;
            } else {
                return Err(ConfigError::UnknownFlag(arg.clone()));
            }
        } else {
            if query.is_none() {
                query = Some(arg.clone());
            } else if path.is_none() {
                path = Some(arg.clone());
            }
        }
        i = i + 1;
    }
    proof {
        assert(args.subrange(0, n as int) =~= args);
    }
    let q = match query {
        None => {
            return Err(ConfigError::MissingArgument(String::from_str("query")));
        },
        Some(q) => q,
    };
    let p = match path {
        None => {
            return Err(ConfigError::MissingArgument(String::from_str("path")));
        },
        Some(p) => p,
    };
    let source = if str_eq(p.as_str(), "-") {
        Source::Stdin
    } else {
        Source::FilePath(p)
    };
    Ok(SearchConfig { query: q, source, case_sensitive: !ignore_case })
}

} // verus!
