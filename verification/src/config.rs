//! Where the configuration and the wallet are looked for, and how much is
//! logged.

use vstd::prelude::*;
use crate::command::opt_text;

verus! {

/// The configuration file in the working directory.
pub open spec fn local_config() -> Seq<char> {
    "./client_config.yaml"@
}

/// The configuration file below the home directory.
pub open spec fn home_config() -> Seq<char> {
    "/.walrus/client_config.yaml"@
}

/// The wallet file in the working directory.
pub open spec fn local_wallet() -> Seq<char> {
    "./sui_config.yaml"@
}

/// The wallet file below the home directory.
pub open spec fn home_wallet() -> Seq<char> {
    "/.sui/sui_config/client.yaml"@
}

/// The places to look in, in order: the path that was given and no other
/// where one was given, else the file in the working directory and then,
/// where the home directory is known, the file below it.
pub open spec fn candidates(
    given: Option<Seq<char>>,
    home: Option<Seq<char>>,
    local: Seq<char>,
    below_home: Seq<char>,
) -> Seq<Seq<char>> {
    match given {
        Some(path) => seq![path],
        None => match home {
            Some(home) => seq![local, home + below_home],
            None => seq![local],
        },
    }
}

/// The places where the configuration is looked for.
pub open spec fn config_candidates(given: Option<Seq<char>>, home: Option<Seq<char>>) -> Seq<
    Seq<char>,
> {
    candidates(given, home, local_config(), home_config())
}

/// The places where the wallet is looked for. The path that is given is
/// the one of the invocation or else the one that the configuration names.
pub open spec fn wallet_candidates(given: Option<Seq<char>>, home: Option<Seq<char>>) -> Seq<
    Seq<char>,
> {
    candidates(given, home, local_wallet(), home_wallet())
}

/// What the logger is told: everything from `info` up, and then whatever
/// the environment asks for.
pub open spec fn log_directive(from_environment: Option<Seq<char>>) -> Seq<char> {
    match from_environment {
        Some(more) => "info,"@ + more,
        None => "info,"@,
    }
}

/// The characters of each text.
pub open spec fn texts(paths: Seq<String>) -> Seq<Seq<char>> {
    Seq::new(paths.len(), |i: int| paths[i]@)
}

fn list(given: Option<String>, home: Option<String>, local: &str, below_home: &str) -> (r: Vec<
    String,
>)
    ensures
        texts(r@) == candidates(opt_text(given), opt_text(home), local@, below_home@),
{
    let mut paths: Vec<String> = Vec::new();
    match given {
        Some(path) => {
            paths.push(path);
        },
        None => {
            paths.push(String::from_str(local));
            match home {
                Some(home) => {
                    let mut path = home;
                    path.append(below_home);
                    paths.push(path);
                },
                None => {},
            }
        },
    }
    assert(texts(paths@) =~= candidates(opt_text(given), opt_text(home), local@, below_home@));
    paths
}

/// The places where the configuration is looked for, see
/// [`config_candidates`]. `home` is the home directory, where it is known.
pub fn configuration_paths(given: Option<String>, home: Option<String>) -> (r: Vec<String>)
    ensures
        texts(r@) == config_candidates(opt_text(given), opt_text(home)),
{
    list(given, home, "./client_config.yaml", "/.walrus/client_config.yaml")
}

/// The places where the wallet is looked for, see [`wallet_candidates`].
pub fn wallet_paths(given: Option<String>, home: Option<String>) -> (r: Vec<String>)
    ensures
        texts(r@) == wallet_candidates(opt_text(given), opt_text(home)),
{
    list(given, home, "./sui_config.yaml", "/.sui/sui_config/client.yaml")
}

/// The first `n` of `places`, with a comma and a space between.
pub open spec fn listed(places: Seq<Seq<char>>, n: nat) -> Seq<char>
    decreases n,
{
    if n == 0 || n > places.len() {
        Seq::empty()
    } else if n == 1 {
        places[0]
    } else {
        listed(places, (n - 1) as nat) + ", "@ + places[n - 1]
    }
}

/// What is said when a file of some kind is in none of the places where it
/// was looked for: the kind, and every place that was tried.
pub open spec fn not_found(kind: Seq<char>, places: Seq<Seq<char>>) -> Seq<char> {
    "could not find the "@ + kind + "; tried: "@ + listed(places, places.len())
}

/// What is said when a file of some kind is in none of the places where it
/// was looked for, see [`not_found`].
pub fn not_found_message(kind: &str, places: &Vec<String>) -> (r: String)
    ensures
        r@ == not_found(kind@, texts(places@)),
{
    let mut out = String::from_str("could not find the ");
    out.append(kind);
    out.append("; tried: ");
    let ghost head = out@;
    let mut i: usize = 0;
    assert(out@ =~= head + listed(texts(places@), 0));
    while i < places.len()
        invariant
            i <= places@.len(),
            out@ == head + listed(texts(places@), i as nat),
        decreases places@.len() - i,
    {
        if i > 0 {
            out.append(", ");
        }
        out.append(places[i].as_str());
        i += 1;
        assert(texts(places@)[i - 1] == places@[i - 1]@);
        assert(out@ =~= head + listed(texts(places@), i as nat));
    }
    out
}

/// What the logger is told, see [`log_directive`].
pub fn tracing_directive(from_environment: Option<String>) -> (r: String)
    ensures
        r@ == log_directive(opt_text(from_environment)),
{
    let mut out = String::from_str("info,");
    match from_environment {
        Some(more) => {
            out.append(more.as_str());
        },
        None => {},
    }
    out
}

} // verus!
