use vstd::prelude::*;
use vstd::string::is_ascii_spec_bytes;

use crate::config::Config;

verus! {

pub open spec fn is_digit(c: char) -> bool {
    '0' <= c <= '9'
}

pub open spec fn all_digits(s: Seq<char>) -> bool {
    forall|i: int| 0 <= i < s.len() ==> is_digit(#[trigger] s[i])
}

/// The value of a run of decimal digits, most significant first.
pub open spec fn digits_value(s: Seq<char>) -> int
    decreases s.len(),
{
    if s.len() == 0 {
        0
    } else {
        10 * digits_value(s.drop_last()) + (s.last() as int - '0' as int)
    }
}

/// A decimal `i32`: an optional `+` or `-`, then one or more digits, with a
/// value in range.
pub open spec fn decimal_i32(s: Seq<char>) -> Option<i32> {
    let signed = s.len() > 0 && (s[0] == '-' || s[0] == '+');
    let body = if signed {
        s.drop_first()
    } else {
        s
    };
    let v = if s.len() > 0 && s[0] == '-' {
        -digits_value(body)
    } else {
        digits_value(body)
    };
    if body.len() > 0 && all_digits(body) && i32::MIN <= v <= i32::MAX {
        Some(v as i32)
    } else {
        None
    }
}

proof fn lemma_digits_value_nonneg(s: Seq<char>)
    requires
        all_digits(s),
    ensures
        digits_value(s) >= 0,
    decreases s.len(),
{
    if s.len() > 0 {
        lemma_digits_value_nonneg(s.drop_last());
    }
}

/// Reads a decimal `i32`, as `str::parse::<i32>` does.
pub fn parse_i32(s: &str) -> (r: Option<i32>)
    ensures
        r == decimal_i32(s@),
{
    if !s.is_ascii() {
        proof {
            if decimal_i32(s@) is Some {
                assert forall|i: int| 0 <= i < s@.len() implies '\0' <= #[trigger] s@[i] <= '\u{7f}' by {
                    if i > 0 && (s@[0] == '-' || s@[0] == '+') {
                        assert(s@.drop_first()[i - 1] == s@[i]);
                    }
                }
            }
        }
        return None;
    }
    let b = s.as_bytes();
    proof {
        broadcast use is_ascii_spec_bytes;
        assert(b@ =~= Seq::new(s@.len(), |i| s@.index(i) as u8));
    }
    let n = b.len();
    proof {
        assert forall|k: int| 0 <= k < n implies (#[trigger] b@[k]) as int == s@[k] as int by {
            assert(vstd::utf8::is_ascii_chars(s@));
            assert(s@[k] <= '\u{7f}');
        }
    }
    let mut i: usize = 0;
    let mut neg = false;
    if n > 0 && (b[0] == 45u8 || b[0] == 43u8) {
        neg = b[0] == 45u8;
        i = 1;
    }
    let start = i;
    let ghost body = s@.subrange(start as int, n as int);
    proof {
        if n > 0 {
            assert(b@[0] as int == s@[0] as int);
        }
        assert((start == 1) == (s@.len() > 0 && (s@[0] == '-' || s@[0] == '+')));
        assert(neg == (s@.len() > 0 && s@[0] == '-'));
        assert(start == 1 ==> body =~= s@.drop_first());
        assert(start == 0 ==> body =~= s@);
    }
    if i >= n {
        return None;
    }
    let mut acc: i64 = 0;
    let mut big = false;
    while i < n
        invariant
            n == s@.len(),
            b@ == Seq::new(s@.len(), |k| s@.index(k) as u8),
            forall|k: int| 0 <= k < n ==> (#[trigger] b@[k]) as int == s@[k] as int,
            start <= i <= n,
            start <= 1,
            (start == 1) == (s@.len() > 0 && (s@[0] == '-' || s@[0] == '+')),
            neg == (s@.len() > 0 && s@[0] == '-'),
            start == 1 ==> body == s@.drop_first(),
            start == 0 ==> body == s@,
            body == s@.subrange(start as int, n as int),
            all_digits(s@.subrange(start as int, i as int)),
            !big ==> acc == digits_value(s@.subrange(start as int, i as int)) && 0 <= acc
                <= 2147483648,
            big ==> digits_value(s@.subrange(start as int, i as int)) > 2147483648,
        decreases n - i,
    {
        let d = b[i];
        assert(d as int == s@[i as int] as int);
        let ghost p = s@.subrange(start as int, i as int);
        let ghost q = s@.subrange(start as int, i + 1);
        proof {
            assert(q.drop_last() =~= p);
            assert(q.last() == s@[i as int]);
        }
        if d < 48u8 || d > 57u8 {
            proof {
                assert(body[i - start] == s@[i as int]);
                assert(!is_digit(body[i - start]));
            }
            proof {
                assert(!all_digits(body));
            }
            return None;
        }
        proof {
            assert forall|k: int| 0 <= k < q.len() implies is_digit(#[trigger] q[k]) by {
                if k < p.len() {
                    assert(q[k] == p[k]);
                }
            }
            lemma_digits_value_nonneg(p);
        }
        if !big {
            acc = acc * 10 + (d - 48u8) as i64;
            if acc > 2147483648 {
                big = true;
            }
        }
        i = i + 1;
    }
    proof {
        assert(s@.subrange(start as int, i as int) =~= body);
    }
    if big {
        return None;
    }
    if neg {
        Some((-acc) as i32)
    } else if acc <= 2147483647 {
        Some(acc as i32)
    } else {
        None
    }
}

/// An option of the command line.
#[derive(Debug, Clone, Copy, PartialEq, Eq, Structural)]
pub enum Flag {
    Recursive,
    Verbose,
    Xattr,
    NoPermissions,
    DryRun,
    Help,
}

/// The option that an argument names, if any; any other argument is positional.
pub open spec fn flag_spec(a: Seq<char>) -> Option<Flag> {
    if a == "--recursive"@ || a == "-R"@ {
        Some(Flag::Recursive)
    } else if a == "--verbose"@ || a == "-v"@ {
        Some(Flag::Verbose)
    } else if a == "--xattr"@ || a == "-x"@ {
        Some(Flag::Xattr)
    } else if a == "--no-permissions"@ {
        Some(Flag::NoPermissions)
    } else if a == "--dry-run"@ {
        Some(Flag::DryRun)
    } else if a == "--help"@ || a == "-h"@ {
        Some(Flag::Help)
    } else {
        None
    }
}

fn same_text(a: &String, lit: &str) -> (r: bool)
    ensures
        r == (a@ == lit@),
{
    let l = lit.to_owned();
    a.eq(&l)
}

/// The option that an argument names, if any.
pub fn classify(a: &String) -> (r: Option<Flag>)
    ensures
        r == flag_spec(a@),
{
    if same_text(a, "--recursive") || same_text(a, "-R") {
        Some(Flag::Recursive)
    } else if same_text(a, "--verbose") || same_text(a, "-v") {
        Some(Flag::Verbose)
    } else if same_text(a, "--xattr") || same_text(a, "-x") {
        Some(Flag::Xattr)
    } else if same_text(a, "--no-permissions") {
        Some(Flag::NoPermissions)
    } else if same_text(a, "--dry-run") {
        Some(Flag::DryRun)
    } else if same_text(a, "--help") || same_text(a, "-h") {
        Some(Flag::Help)
    } else {
        None
    }
}

/// Some argument names the option.
pub open spec fn has_flag(args: Seq<Seq<char>>, f: Flag) -> bool
    decreases args.len(),
{
    args.len() > 0 && (flag_spec(args.last()) == Some(f) || has_flag(args.drop_last(), f))
}

/// The arguments that name no option, in their order.
pub open spec fn positionals(args: Seq<Seq<char>>) -> Seq<Seq<char>>
    decreases args.len(),
{
    if args.len() == 0 {
        Seq::empty()
    } else if flag_spec(args.last()) is None {
        positionals(args.drop_last()).push(args.last())
    } else {
        positionals(args.drop_last())
    }
}

pub open spec fn texts(args: Seq<String>) -> Seq<Seq<char>> {
    args.map_values(|a: String| a@)
}

/// What the command line asks for.
#[derive(Debug, Clone, PartialEq, Eq)]
pub enum ArgOutcome {
    /// Show the usage text and stop.
    Help,
    /// There are not exactly two positional arguments.
    Missing,
    /// The first positional argument is no decimal `i32`.
    BadDifference,
    /// Shift the hierarchy at `path` as `config` says.
    Run { config: Config, path: String },
}

/// Reads the command line: the options in any order and position, then the
/// offset and the path as the two positional arguments.
pub fn parse_args(args: &Vec<String>) -> (r: ArgOutcome)
    ensures
        (r is Help) == has_flag(texts(args@), Flag::Help),
        (r is Missing) == (!has_flag(texts(args@), Flag::Help) && positionals(texts(args@)).len()
            != 2),
        (r is BadDifference) == (!has_flag(texts(args@), Flag::Help) && positionals(
            texts(args@),
        ).len() == 2 && decimal_i32(positionals(texts(args@))[0]) is None),
        r matches ArgOutcome::Run { config, path } ==> path@ == positionals(texts(args@))[1]
            && config == (Config {
            difference: decimal_i32(positionals(texts(args@))[0])->0,
            recursive: has_flag(texts(args@), Flag::Recursive),
            verbose: has_flag(texts(args@), Flag::Verbose),
            no_permissions: has_flag(texts(args@), Flag::NoPermissions),
            with_xattr: has_flag(texts(args@), Flag::Xattr),
            dry_run: has_flag(texts(args@), Flag::DryRun),
        }),
{
    let ghost t = texts(args@);
    let mut config = Config::default();
    let mut help = false;
    let mut pos: Vec<String> = Vec::new();
    let mut i: usize = 0;
    while i < args.len()
        invariant
            i <= args@.len(),
            t == texts(args@),
            help == has_flag(t.take(i as int), Flag::Help),
            config.difference == 0,
            config.recursive == has_flag(t.take(i as int), Flag::Recursive),
            config.verbose == has_flag(t.take(i as int), Flag::Verbose),
            config.no_permissions == has_flag(t.take(i as int), Flag::NoPermissions),
            config.with_xattr == has_flag(t.take(i as int), Flag::Xattr),
            config.dry_run == has_flag(t.take(i as int), Flag::DryRun),
            texts(pos@) == positionals(t.take(i as int)),
        decreases args@.len() - i,
    {
        let a = &args[i];
        proof {
            assert(t.take(i + 1).drop_last() =~= t.take(i as int));
            assert(t.take(i + 1).last() == a@);
        }
        match classify(a) {
            Some(Flag::Recursive) => config.recursive = true,
            Some(Flag::Verbose) => config.verbose = true,
            Some(Flag::Xattr) => config.with_xattr = true,
            Some(Flag::NoPermissions) => config.no_permissions = true,
            Some(Flag::DryRun) => config.dry_run = true,
            Some(Flag::Help) => help = true,
            None => {
                let ghost before = pos@;
                pos.push(a.clone());
                proof {
                    assert(texts(pos@) =~= texts(before).push(a@));
                }
            },
        }
        i = i + 1;
    }
    proof {
        assert(t.take(i as int) =~= t);
    }
    if help {
        return ArgOutcome::Help;
    }
    if pos.len() != 2 {
        return ArgOutcome::Missing;
    }
    proof {
        assert(texts(pos@)[0] == pos@[0]@);
        assert(texts(pos@)[1] == pos@[1]@);
    }
    match parse_i32(pos[0].as_str()) {
        None => ArgOutcome::BadDifference,
        Some(d) => {
            config.difference = d;
            ArgOutcome::Run { config, path: pos[1].clone() }
        },
    }
}

} // verus!
