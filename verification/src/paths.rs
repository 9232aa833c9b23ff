//! Where the helper programs of the decoder are looked for.

use vstd::prelude::*;

verus! {

/// Installed interpreters that are tried on Windows, in this order.
pub const PYTHON_CANDIDATES: usize = 6;

/// The command that the search path resolves, used where no candidate is
/// installed.
pub open spec fn python_command() -> Seq<char> {
    "python"@
}

/// The `i`-th place where an interpreter is looked for on Windows.
pub open spec fn python_candidate_spec(i: int) -> Seq<char> {
    if i == 0 {
        "C:\\Users\\Amministratore\\AppData\\Local\\Programs\\Python\\Python313\\python.exe"@
    } else if i == 1 {
        "C:\\Users\\Amministratore\\AppData\\Local\\Programs\\Python\\Python312\\python.exe"@
    } else if i == 2 {
        "C:\\Program Files\\Python313\\python.exe"@
    } else if i == 3 {
        "C:\\Program Files\\Python312\\python.exe"@
    } else if i == 4 {
        "C:\\Program Files (x86)\\Python313\\python.exe"@
    } else {
        "C:\\Program Files (x86)\\Python312\\python.exe"@
    }
}

/// The `i`-th place where an interpreter is looked for on Windows.
pub fn python_candidate(i: usize) -> (path: &'static str)
    ensures
        path@ == python_candidate_spec(i as int),
{
    if i == 0 {
        "C:\\Users\\Amministratore\\AppData\\Local\\Programs\\Python\\Python313\\python.exe"
    } else if i == 1 {
        "C:\\Users\\Amministratore\\AppData\\Local\\Programs\\Python\\Python312\\python.exe"
    } else if i == 2 {
        "C:\\Program Files\\Python313\\python.exe"
    } else if i == 3 {
        "C:\\Program Files\\Python312\\python.exe"
    } else if i == 4 {
        "C:\\Program Files (x86)\\Python313\\python.exe"
    } else {
        "C:\\Program Files (x86)\\Python312\\python.exe"
    }
}

/// The first of the candidates from `from` on that is present, if any.
pub open spec fn first_present(present: Seq<bool>, from: int) -> Option<int>
    decreases present.len() - from,
{
    if from < 0 || from >= present.len() {
        None
    } else if present[from] {
        Some(from)
    } else {
        first_present(present, from + 1)
    }
}

/// The interpreter to run, `present` saying which candidates exist: on
/// Windows the first candidate that exists, and the plain command where none
/// does or on any other system.
pub open spec fn chosen_python(windows: bool, present: Seq<bool>) -> Seq<char> {
    if windows {
        match first_present(present, 0) {
            Some(i) => python_candidate_spec(i),
            None => python_command(),
        }
    } else {
        python_command()
    }
}

/// `std::path::Path::exists` on the given path. The answer depends on what
/// is on disk, so nothing is claimed of it.
#[verifier::external_body]
fn path_exists(path: &str) -> (present: bool) {
    std::path::Path::new(path).exists()
}

/// The interpreter to run, `present` saying which of the candidates exist.
pub fn choose_python(windows: bool, present: &Vec<bool>) -> (path: String)
    requires
        present@.len() == PYTHON_CANDIDATES,
    ensures
        path@ == chosen_python(windows, present@),
{
    if windows {
        let mut i: usize = 0;
        while i < PYTHON_CANDIDATES
            invariant
                windows,
                i <= PYTHON_CANDIDATES,
                present@.len() == PYTHON_CANDIDATES,
                first_present(present@, 0) == first_present(present@, i as int),
            decreases PYTHON_CANDIDATES - i,
        {
            assert(first_present(present@, i as int) == if present@[i as int] {
                Some(i as int)
            } else {
                first_present(present@, i + 1)
            });
            if present[i] {
                return python_candidate(i).to_owned();
            }
            i = i + 1;
        }
        assert(first_present(present@, i as int) is None);
        "python".to_owned()
    } else {
        "python".to_owned()
    }
}

/// Finds the interpreter that runs the fetcher: on Windows the first
/// installed candidate, else the plain command. The candidates are looked for
/// in order, and no further once one was found.
pub fn find_python_executable(windows: bool) -> (path: String)
    ensures
        exists|present: Seq<bool>|
            present.len() == PYTHON_CANDIDATES && path@ == #[trigger] chosen_python(
                windows,
                present,
            ),
        !windows ==> path@ == python_command(),
{
    let mut present: Vec<bool> = Vec::new();
    let mut found = false;
    let mut i: usize = 0;
    while i < PYTHON_CANDIDATES
        invariant
            i <= PYTHON_CANDIDATES,
            present@.len() == i,
        decreases PYTHON_CANDIDATES - i,
    {
        let here = windows && !found && path_exists(python_candidate(i));
        if here {
            found = true;
        }
        present.push(here);
        i = i + 1;
    }
    choose_python(windows, &present)
}

/// The directory that the engine's helpers live under on Windows, where the
/// environment names none.
pub open spec fn windows_base_path() -> Seq<char> {
    "F:\\Programmi\\Bots\\DiscordMusicBot"@
}

/// The directory that the engine's helpers live under elsewhere, where the
/// environment names none.
pub open spec fn unix_base_path() -> Seq<char> {
    "/home/ubuntu/DiscordBots/DiscordMusicBot"@
}

/// The directory that the engine's helpers live under: the one that the
/// environment names, `configured`, or the system's default.
pub fn get_base_path(configured: Option<String>, windows: bool) -> (path: String)
    ensures
        path@ == match configured {
            Some(named) => named@,
            None => if windows {
                windows_base_path()
            } else {
                unix_base_path()
            },
        },
{
    match configured {
        Some(named) => named,
        None => if windows {
            "F:\\Programmi\\Bots\\DiscordMusicBot".to_owned()
        } else {
            "/home/ubuntu/DiscordBots/DiscordMusicBot".to_owned()
        },
    }
}

} // verus!
