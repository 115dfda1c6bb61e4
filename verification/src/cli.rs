//! The command line: `--path <dir>` (or `-p`, or `--path=<dir>`), `--help`, `--version`.
use vstd::prelude::*;
use crate::text::{chars_eq, chars_of, extend_chars, string_of};

verus! {

/// Parsed command line.
#[derive(Debug)]
pub struct Cli {
    /// Library directory given with `--path`.
    pub path: Option<String>,
}

/// What the command line asks for.
#[derive(Debug)]
pub enum Command {
    /// Print the usage text and exit.
    Help,
    /// Print the version and exit.
    Version,
    /// Start the program.
    Run(Cli),
}

/// The meaning of a command line, over texts.
pub enum Parsed {
    Help,
    Version,
    Run(Option<Seq<char>>),
    Error(Seq<char>),
}

/// `p` is a prefix of `s`.
pub open spec fn has_prefix(s: Seq<char>, p: Seq<char>) -> bool {
    p.len() <= s.len() && s.take(p.len() as int) == p
}

/// `s` with every leading copy of `p` removed, as `str::trim_start_matches` does.
pub open spec fn strip_repeated(s: Seq<char>, p: Seq<char>) -> Seq<char>
    decreases s.len(),
{
    if p.len() > 0 && has_prefix(s, p) {
        strip_repeated(s.skip(p.len() as int), p)
    } else {
        s
    }
}

/// The error for a flag that needs a directory but has none.
pub open spec fn missing_value_error(flag: Seq<char>) -> Seq<char> {
    "'"@ + flag + "' requires a directory argument"@
}

/// The error for a bare path.
pub open spec fn bare_path_error(arg: Seq<char>) -> Seq<char> {
    "unexpected argument '"@ + arg + "'; pass a library with '--path "@ + arg + "'"@
}

/// The error for an unknown option.
pub open spec fn unknown_option_error(arg: Seq<char>) -> Seq<char> {
    "unknown option '"@ + arg + "'"@
}

/// Reads the arguments left to right; the last `--path` wins, `--help` and
/// `--version` stop at once, and the first bad argument is the error.
pub open spec fn parse_from(args: Seq<Seq<char>>, path: Option<Seq<char>>) -> Parsed
    decreases args.len(),
{
    if args.len() == 0 {
        Parsed::Run(path)
    } else {
        let a = args[0];
        let rest = args.drop_first();
        if a == "-h"@ || a == "--help"@ {
            Parsed::Help
        } else if a == "-v"@ || a == "--version"@ {
            Parsed::Version
        } else if a == "-p"@ || a == "--path"@ {
            if rest.len() == 0 {
                Parsed::Error(missing_value_error(a))
            } else {
                parse_from(rest.drop_first(), Some(rest[0]))
            }
        } else if has_prefix(a, "--path="@) {
            let value = strip_repeated(a, "--path="@);
            if value.len() == 0 {
                Parsed::Error(missing_value_error("--path"@))
            } else {
                parse_from(rest, Some(value))
            }
        } else if !(a.len() > 0 && a[0] == '-') {
            Parsed::Error(bare_path_error(a))
        } else {
            Parsed::Error(unknown_option_error(a))
        }
    }
}

/// The texts of the arguments.
pub open spec fn arg_texts(args: Seq<String>) -> Seq<Seq<char>> {
    args.map_values(|a: String| a@)
}

/// The command an outcome stands for, if it is no error.
pub open spec fn command_matches(c: Command, p: Parsed) -> bool {
    match (c, p) {
        (Command::Help, Parsed::Help) => true,
        (Command::Version, Parsed::Version) => true,
        (Command::Run(cli), Parsed::Run(path)) => match (cli.path, path) {
            (None, None) => true,
            (Some(a), Some(b)) => a@ == b,
            _ => false,
        },
        _ => false,
    }
}

fn starts_with_chars(s: &Vec<char>, p: &Vec<char>) -> (res: bool)
    ensures
        res == has_prefix(s@, p@),
{
    if p.len() > s.len() {
        return false;
    }
    let mut i: usize = 0;
    while i < p.len()
        invariant
            p.len() <= s.len(),
            i <= p.len(),
            forall|j: int| 0 <= j < i ==> s@[j] == p@[j],
        decreases p.len() - i,
    {
        if s[i] != p[i] {
            assert(s@.take(p.len() as int)[i as int] != p@[i as int]);
            return false;
        }
        i += 1;
    }
    assert(s@.take(p.len() as int) =~= p@);
    true
}

fn starts_at(s: &Vec<char>, p: &Vec<char>, k: usize) -> (res: bool)
    requires
        k <= s@.len(),
    ensures
        res == has_prefix(s@.skip(k as int), p@),
{
    if p.len() > s.len() - k {
        return false;
    }
    let mut i: usize = 0;
    while i < p.len()
        invariant
            k <= s@.len(),
            p.len() <= s.len() - k,
            i <= p.len(),
            forall|j: int| 0 <= j < i ==> s@[k + j] == p@[j],
        decreases p.len() - i,
    {
        if s[k + i] != p[i] {
            assert(s@.skip(k as int).take(p.len() as int)[i as int] != p@[i as int]);
            return false;
        }
        i += 1;
    }
    assert(s@.skip(k as int).take(p.len() as int) =~= p@);
    true
}

fn is_text(a: &Vec<char>, lit: &str) -> (res: bool)
    ensures
        res == (a@ == lit@),
{
    let l = chars_of(lit);
    chars_eq(a, &l)
}

fn text_of(parts: &Vec<char>) -> (res: String)
    ensures
        res@ == parts@,
{
    string_of(parts)
}

/// Parses the arguments (without the program name) into a command, or the
/// message describing what is wrong with them.
pub fn parse_command(args: &[String]) -> (res: Result<Command, String>)
    ensures
        match parse_from(arg_texts(args@), None) {
            Parsed::Error(msg) => res matches Err(m) && m@ == msg,
            p => res matches Ok(c) && command_matches(c, p),
        },
{
    proof {
        reveal_strlit("-h");
        reveal_strlit("--help");
        reveal_strlit("-v");
        reveal_strlit("--version");
        reveal_strlit("-p");
        reveal_strlit("--path");
        reveal_strlit("--path=");
        reveal_strlit("'");
        reveal_strlit("' requires a directory argument");
        reveal_strlit("unexpected argument '");
        reveal_strlit("'; pass a library with '--path ");
        reveal_strlit("unknown option '");
    }
    let ghost all = arg_texts(args@);
    let mut path: Option<Vec<char>> = None;
    let mut i: usize = 0;
    let prefix = chars_of("--path=");
    assert(all.skip(0) =~= all);
    while i < args.len()
        invariant
            i <= args@.len(),
            all == arg_texts(args@),
            prefix@ == "--path="@,
            prefix@.len() == 7,
            parse_from(all, None) == parse_from(all.skip(i as int), match path {
                Some(p) => Some(p@),
                None => None,
            }),
        decreases args@.len() - i,
    {
        let a = chars_of(args[i].as_str());
        let ghost rest = all.skip(i as int);
        assert(rest[0] == a@);
        assert(rest.drop_first() =~= all.skip(i + 1));
        if is_text(&a, "-h") || is_text(&a, "--help") {
            return Ok(Command::Help);
        } else if is_text(&a, "-v") || is_text(&a, "--version") {
            return Ok(Command::Version);
        } else if is_text(&a, "-p") || is_text(&a, "--path") {
            if i + 1 >= args.len() {
                let mut m = chars_of("'");
                extend_chars(&mut m, &a);
                let tail = chars_of("' requires a directory argument");
                extend_chars(&mut m, &tail);
                return Err(text_of(&m));
            }
            let v = chars_of(args[i + 1].as_str());
            assert(all.skip(i + 1)[0] == v@);
            assert(all.skip(i + 1).drop_first() =~= all.skip(i + 2));
            path = Some(v);
            i += 2;
        } else if starts_with_chars(&a, &prefix) {
            let mut k: usize = 0;
            assert(a@.skip(0) =~= a@);
            while starts_at(&a, &prefix, k)
                invariant
                    k <= a@.len(),
                    prefix@ == "--path="@,
                    prefix@.len() == 7,
                    strip_repeated(a@, prefix@) == strip_repeated(a@.skip(k as int), prefix@),
                decreases a@.len() - k,
            {
                assert(a@.skip(k as int).len() == a@.len() - k);
                assert(k + 7 <= a@.len());
                assert(a@.len() == a.len());
                assert(a@.skip(k as int).skip(7) =~= a@.skip(k + 7));
                k += 7;
            }
            let mut value: Vec<char> = Vec::new();
            let start = k;
            assert(a@.subrange(start as int, start as int) =~= Seq::<char>::empty());
            while k < a.len()
                invariant
                    start <= k <= a@.len(),
                    value@ == a@.subrange(start as int, k as int),
                decreases a@.len() - k,
            {
                value.push(a[k]);
                assert(a@.subrange(start as int, k + 1) =~= a@.subrange(start as int, k as int).push(a@[k as int]));
                k += 1;
            }
            assert(value@ =~= a@.skip(start as int));
            assert(value@ == strip_repeated(a@, prefix@));
            if value.len() == 0 {
                let mut m = chars_of("'");
                let flag = chars_of("--path");
                extend_chars(&mut m, &flag);
                let tail = chars_of("' requires a directory argument");
                extend_chars(&mut m, &tail);
                return Err(text_of(&m));
            }
            path = Some(value);
            i += 1;
        } else if !(a.len() > 0 && a[0] == '-') {
            let mut m = chars_of("unexpected argument '");
            extend_chars(&mut m, &a);
            let mid = chars_of("'; pass a library with '--path ");
            extend_chars(&mut m, &mid);
            extend_chars(&mut m, &a);
            let tail = chars_of("'");
            extend_chars(&mut m, &tail);
            return Err(text_of(&m));
        } else {
            let mut m = chars_of("unknown option '");
            extend_chars(&mut m, &a);
            let tail = chars_of("'");
            extend_chars(&mut m, &tail);
            return Err(text_of(&m));
        }
    }
    match path {
        Some(p) => Ok(Command::Run(Cli { path: Some(text_of(&p)) })),
        None => Ok(Command::Run(Cli { path: None })),
    }
}

/// Parses the arguments (without the program name). `Ok(None)` means the
/// command line only asks for the usage text or the version (printed by the
/// caller) and the program should then exit successfully; `Err` carries a
/// message describing what was wrong with the invocation.
pub fn parse_args(args: &[String]) -> (res: Result<Option<Cli>, String>)
    ensures
        match parse_from(arg_texts(args@), None) {
            Parsed::Error(msg) => res matches Err(m) && m@ == msg,
            Parsed::Help | Parsed::Version => res matches Ok(None),
            Parsed::Run(path) => res matches Ok(Some(cli)) && match (cli.path, path) {
                (None, None) => true,
                (Some(a), Some(b)) => a@ == b,
                _ => false,
            },
        },
{
    match parse_command(args) {
        Ok(Command::Run(cli)) => Ok(Some(cli)),
        Ok(_) => Ok(None),
        Err(e) => Err(e),
    }
}

} // verus!
