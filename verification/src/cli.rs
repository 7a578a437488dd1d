//! Parsing and validation of the command-line argument vector.
//!
//! The grammar accepted here is the program's whole CLI surface: one
//! required positional URL, an optional `-m`/`--method` option restricted to
//! `get` and `post` (defaulting to `get`), and `-V`/`--version`. Everything
//! is specified by `spec_parse`, and `parse_args` is proved to compute it.

use vstd::prelude::*;
use vstd::string::StrSliceExecFns;

use crate::text::str_eq;

verus! {

/// The HTTP method of a validated invocation.
#[derive(Clone, Copy, PartialEq, Eq, Structural, Debug)]
pub enum Method {
    Get,
    Post,
}

/// Why an argument vector was rejected before any request was attempted.
#[derive(Clone, Copy, PartialEq, Eq, Structural, Debug)]
pub enum UsageError {
    /// No URL was supplied, or the supplied URL was empty.
    MissingUrl,
    /// The method value was not `get` or `post`.
    BadMethod,
    /// The method option appeared more than once.
    DuplicateMethod,
    /// The method option was the last argument, with no value after it.
    MissingMethodValue,
    /// An argument began with `-` but is not a recognized option.
    UnknownOption,
    /// More than one positional argument was supplied.
    ExtraPositional,
}

/// A validated invocation: an accepted method together with the URL to
/// request. Parsing only ever produces well-formed invocations.
#[derive(Clone, PartialEq, Eq, Debug)]
pub struct Invocation {
    pub method: Method,
    pub url: String,
}

impl Invocation {
    /// The URL of a validated invocation is never empty.
    pub open spec fn well_formed(&self) -> bool {
        self.url@.len() > 0
    }
}

/// What a successfully parsed argument vector asks the program to do.
#[derive(Clone, PartialEq, Eq, Debug)]
pub enum Cli {
    /// Print the program's version and exit successfully.
    Version,
    /// Perform one request for the given invocation.
    Run(Invocation),
}

/// Specification-level image of a parsed argument vector.
pub enum Parsed {
    Version,
    Run(Method, Seq<char>),
}

impl View for Cli {
    type V = Parsed;

    open spec fn view(&self) -> Parsed {
        match self {
            Cli::Version => Parsed::Version,
            Cli::Run(inv) => Parsed::Run(inv.method, inv.url@),
        }
    }
}

/// Specification-level image of a scanned argument vector, before the
/// method value has been validated.
pub enum Scanned {
    Version,
    Run { method_text: Option<Seq<char>>, url: Seq<char> },
}

/// An argument of this shape is an option, so an unrecognized one is a
/// usage error rather than a positional argument. A lone `-` is a value.
pub open spec fn is_option_like(a: Seq<char>) -> bool {
    a.len() > 1 && a[0] == '-'
}

/// Scans the argument vector left to right. `method_text` and `url` hold
/// what earlier arguments already supplied. A version flag wins as soon as
/// it is seen; the first offending argument decides the error.
pub open spec fn spec_scan(
    args: Seq<Seq<char>>,
    method_text: Option<Seq<char>>,
    url: Option<Seq<char>>,
) -> Result<Scanned, UsageError>
    decreases args.len(),
{
    if args.len() == 0 {
        match url {
            Some(u) => Ok(Scanned::Run { method_text, url: u }),
            None => Err(UsageError::MissingUrl),
        }
    } else {
        let a = args[0];
        let rest = args.drop_first();
        if a == "-V"@ || a == "--version"@ {
            Ok(Scanned::Version)
        } else if a == "-m"@ || a == "--method"@ {
            if method_text is Some {
                Err(UsageError::DuplicateMethod)
            } else if rest.len() == 0 {
                Err(UsageError::MissingMethodValue)
            } else {
                spec_scan(rest.drop_first(), Some(rest[0]), url)
            }
        } else if is_option_like(a) {
            Err(UsageError::UnknownOption)
        } else {
            match url {
                Some(_) => Err(UsageError::ExtraPositional),
                None => spec_scan(rest, method_text, Some(a)),
            }
        }
    }
}

/// The method a method argument stands for, if it is an accepted one.
pub open spec fn spec_method_of(t: Seq<char>) -> Option<Method> {
    if t == "get"@ {
        Some(Method::Get)
    } else if t == "post"@ {
        Some(Method::Post)
    } else {
        None
    }
}

/// Validates a scanned run: the URL must be non-empty and the method value,
/// if one was supplied, must be accepted. Without one the method is GET.
pub open spec fn spec_validate(method_text: Option<Seq<char>>, url: Seq<char>) -> Result<
    Parsed,
    UsageError,
> {
    if url.len() == 0 {
        Err(UsageError::MissingUrl)
    } else {
        match method_text {
            None => Ok(Parsed::Run(Method::Get, url)),
            Some(t) => match spec_method_of(t) {
                Some(m) => Ok(Parsed::Run(m, url)),
                None => Err(UsageError::BadMethod),
            },
        }
    }
}

/// What parsing an argument vector (without the program name) yields.
pub open spec fn spec_parse(args: Seq<Seq<char>>) -> Result<Parsed, UsageError> {
    match spec_scan(args, None, None) {
        Ok(Scanned::Version) => Ok(Parsed::Version),
        Ok(Scanned::Run { method_text, url }) => spec_validate(method_text, url),
        Err(e) => Err(e),
    }
}

/// Maps a method argument to its `Method`, if it is one of the two
/// accepted values.
pub fn method_of(t: &str) -> (m: Option<Method>)
    ensures
        m == spec_method_of(t@),
{
    if str_eq(t, "get") {
        Some(Method::Get)
    } else if str_eq(t, "post") {
        Some(Method::Post)
    } else {
        None
    }
}

/// Executable image of `Scanned`.
enum ScanOut {
    Version,
    Run { method_text: Option<String>, url: String },
}

/// The character sequence an optional argument text stands for.
pub open spec fn opt_text(o: Option<String>) -> Option<Seq<char>> {
    match o {
        Some(s) => Some(s@),
        None => None,
    }
}

impl View for ScanOut {
    type V = Scanned;

    closed spec fn view(&self) -> Scanned {
        match self {
            ScanOut::Version => Scanned::Version,
            ScanOut::Run { method_text, url } => Scanned::Run {
                method_text: opt_text(*method_text),
                url: url@,
            },
        }
    }
}

fn scan_from(args: &Vec<String>, i: usize, method_text: Option<String>, url: Option<String>) -> (r:
    Result<ScanOut, UsageError>)
    requires
        i <= args.len(),
    ensures
        (match r {
            Ok(o) => spec_scan(args.deep_view().skip(i as int), opt_text(method_text), opt_text(url))
                == Ok::<Scanned, UsageError>(o@),
            Err(e) => spec_scan(
                args.deep_view().skip(i as int),
                opt_text(method_text),
                opt_text(url),
            ) == Err::<Scanned, UsageError>(e),
        }),
    decreases args.len() - i,
{
    let ghost s = args.deep_view();
    if i == args.len() {
        proof {
            assert(s.skip(i as int) =~= Seq::<Seq<char>>::empty());
        }
        match url {
            Some(u) => Ok(ScanOut::Run { method_text, url: u }),
            None => Err(UsageError::MissingUrl),
        }
    } else {
        let a: &String = &args[i];
        proof {
            assert(s.skip(i as int)[0] == s[i as int]);
            assert(s[i as int] == args@[i as int]@);
            assert(s.skip(i as int).drop_first() =~= s.skip(i as int + 1));
        }
        if str_eq(a.as_str(), "-V") || str_eq(a.as_str(), "--version") {
            Ok(ScanOut::Version)
        } else if str_eq(a.as_str(), "-m") || str_eq(a.as_str(), "--method") {
            if method_text.is_some() {
                Err(UsageError::DuplicateMethod)
            } else if i + 1 == args.len() {
                Err(UsageError::MissingMethodValue)
            } else {
                let v = args[i + 1].clone();
                proof {
                    assert(s.skip(i as int).drop_first()[0] == s[i as int + 1]);
                    assert(s.skip(i as int).drop_first().drop_first() =~= s.skip(i as int + 2));
                }
                scan_from(args, i + 2, Some(v), url)
            }
        } else {
            let alen = a.as_str().unicode_len();
            let option_like = alen > 1 && a.as_str().get_char(0) == '-';
            if option_like {
                Err(UsageError::UnknownOption)
            } else if url.is_some() {
                Err(UsageError::ExtraPositional)
            } else {
                scan_from(args, i + 1, method_text, Some(a.clone()))
            }
        }
    }
}

/// Parses an argument vector (without the program name) into what the
/// program should do, or the usage error that rejects the vector.
pub fn parse_args(args: &Vec<String>) -> (r: Result<Cli, UsageError>)
    ensures
        (match r {
            Ok(c) => spec_parse(args.deep_view()) == Ok::<Parsed, UsageError>(c@),
            Err(e) => spec_parse(args.deep_view()) == Err::<Parsed, UsageError>(e),
        }),
        r matches Ok(Cli::Run(inv)) ==> inv.well_formed(),
{
    proof {
        assert(args.deep_view().skip(0) =~= args.deep_view());
    }
    match scan_from(args, 0, None, None) {
        Err(e) => Err(e),
        Ok(ScanOut::Version) => Ok(Cli::Version),
        Ok(ScanOut::Run { method_text, url }) => {
            if url.as_str().unicode_len() == 0 {
                Err(UsageError::MissingUrl)
            } else {
                match method_text {
                    None => Ok(Cli::Run(Invocation { method: Method::Get, url })),
                    Some(t) => match method_of(t.as_str()) {
                        Some(m) => Ok(Cli::Run(Invocation { method: m, url })),
                        None => Err(UsageError::BadMethod),
                    },
                }
            }
        },
    }
}

/// A method value that is neither `get` nor `post` is rejected: parsing
/// yields a usage error, never a validated invocation, whatever the rest of
/// the vector holds.
pub proof fn lemma_invalid_method_rejected(args: Seq<Seq<char>>, t: Seq<char>)
    requires
        spec_scan(args, None, None) matches Ok(Scanned::Run { method_text, .. }) && method_text
            == Some(t),
        t != "get"@,
        t != "post"@,
    ensures
        spec_parse(args) is Err,
{
}

/// Parsing is idempotent: equal argument vectors parse to equal results,
/// however often parsing is repeated.
pub proof fn lemma_parse_deterministic(a: Seq<Seq<char>>, b: Seq<Seq<char>>)
    requires
        a == b,
    ensures
        spec_parse(a) == spec_parse(b),
{
}

} // verus!
