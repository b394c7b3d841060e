//! Command line entry point.
//!
//! Bloom is a GUI application, so on Windows release builds the linker gives it
//! no console of its own. A redirected stdout still works, but printing to the
//! terminal that launched it does not. The console is borrowed from the parent
//! first, and only for the flags that print and exit.

use std::path::PathBuf;
use vstd::prelude::*;

verus! {

/// `std::path::PathBuf`, carried through as an opaque value.
#[verifier::external_type_specification]
#[verifier::external_body]
pub struct ExPathBuf(PathBuf);

/// The parsed command line.
#[derive(Debug)]
pub struct Cli {
    /// Image or video file to open on start
    pub media: Option<PathBuf>,
}

/// The four flags that print and exit: `-h`, `--help`, `-V`, `--version`.
pub open spec fn info_flag(arg: Seq<char>) -> bool {
    ||| arg =~= seq!['-', 'h']
    ||| arg =~= seq!['-', '-', 'h', 'e', 'l', 'p']
    ||| arg =~= seq!['-', 'V']
    ||| arg =~= seq!['-', '-', 'v', 'e', 'r', 's', 'i', 'o', 'n']
}

/// Whether any argument after the program's own name is one of the flags
/// that print and exit.
pub open spec fn requests_console(args: Seq<String>) -> bool {
    exists|i: int| 1 <= i < args.len() && #[trigger] info_flag(args[i]@)
}

/// Whether `arg` is exactly one of `-h`, `--help`, `-V`, `--version`.
pub fn is_info_flag(arg: &str) -> (r: bool)
    ensures
        r == info_flag(arg@),
{
    let n = arg.unicode_len();
    if n == 2 {
        arg.get_char(0) == '-' && (arg.get_char(1) == 'h' || arg.get_char(1) == 'V')
    } else if n == 6 {
        arg.get_char(0) == '-' && arg.get_char(1) == '-' && arg.get_char(2) == 'h'
            && arg.get_char(3) == 'e' && arg.get_char(4) == 'l' && arg.get_char(5) == 'p'
    } else if n == 9 {
        arg.get_char(0) == '-' && arg.get_char(1) == '-' && arg.get_char(2) == 'v'
            && arg.get_char(3) == 'e' && arg.get_char(4) == 'r' && arg.get_char(5) == 's'
            && arg.get_char(6) == 'i' && arg.get_char(7) == 'o' && arg.get_char(8) == 'n'
    } else {
        false
    }
}

/// Whether the console must be borrowed before parsing: some argument after
/// the program's name (`args[0]`) is `-h`, `--help`, `-V` or `--version`.
pub fn console_requested(args: &Vec<String>) -> (r: bool)
    ensures
        r == requests_console(args@),
{
    let mut i: usize = 1;
    while i < args.len()
        invariant
            1 <= i,
            i <= args.len() || args.len() == 0,
            forall|j: int| 1 <= j < i && j < args.len() ==> !info_flag(#[trigger] args@[j]@),
        decreases args.len() - i,
    {
        if is_info_flag(args[i].as_str()) {
            return true;
        }
        i = i + 1;
    }
    false
}

/// Borrows the parent process's console. Only Windows gives a GUI program no
/// console of its own; on every other platform there is nothing to do.
pub fn attach_console() {
}

/// The program's own name never borrows the console, even when it reads
/// like a flag; any of the four flags after it does, wherever it stands.
pub proof fn lemma_only_flags_after_the_name(args: Seq<String>, k: int)
    requires
        0 <= k < args.len(),
    ensures
        args.len() == 1 ==> !requests_console(args),
        k >= 1 && info_flag(args[k]@) ==> requests_console(args),
{
    if k >= 1 && info_flag(args[k]@) {
        assert(info_flag(args[k]@));
    }
}

/// The flags that borrow the console are exactly `-h`, `--help`, `-V` and
/// `--version`, character for character: no other text, not one that merely
/// contains one of them, is such a flag.
pub proof fn lemma_info_flags_are_exact(arg: Seq<char>)
    ensures
        info_flag(arg) <==> (arg == seq!['-', 'h'] || arg == seq!['-', '-', 'h', 'e', 'l', 'p'] || arg
            == seq!['-', 'V'] || arg == seq!['-', '-', 'v', 'e', 'r', 's', 'i', 'o', 'n']),
{
    if arg =~= seq!['-', 'h'] {
    }
    if arg =~= seq!['-', '-', 'h', 'e', 'l', 'p'] {
    }
    if arg =~= seq!['-', 'V'] {
    }
    if arg =~= seq!['-', '-', 'v', 'e', 'r', 's', 'i', 'o', 'n'] {
    }
}

/// The console is borrowed exactly when some argument after the program's
/// name is one of the four flags, character for character; an argument that
/// only contains one of them (such as `beach-house.jpg`) does not count.
pub proof fn lemma_console_only_for_exact_flags(args: Seq<String>)
    ensures
        requests_console(args) <==> exists|i: int|
            1 <= i < args.len() && (#[trigger] args[i]@ == seq!['-', 'h'] || args[i]@ == seq![
                '-',
                '-',
                'h',
                'e',
                'l',
                'p',
            ] || args[i]@ == seq!['-', 'V'] || args[i]@ == seq![
                '-',
                '-',
                'v',
                'e',
                'r',
                's',
                'i',
                'o',
                'n',
            ]),
{
    assert forall|i: int| 1 <= i < args.len() implies (info_flag(#[trigger] args[i]@) <==> (args[i]@
        == seq!['-', 'h'] || args[i]@ == seq!['-', '-', 'h', 'e', 'l', 'p'] || args[i]@ == seq![
        '-',
        'V',
    ] || args[i]@ == seq!['-', '-', 'v', 'e', 'r', 's', 'i', 'o', 'n'])) by {
        lemma_info_flags_are_exact(args[i]@);
    }
}

/// The program's name never matters: replacing it does not change the answer.
pub proof fn lemma_program_name_does_not_matter(args: Seq<String>, name: String)
    requires
        args.len() >= 1,
    ensures
        requests_console(args.update(0, name)) == requests_console(args),
{
    let other = args.update(0, name);
    if requests_console(args) {
        let i = choose|i: int| 1 <= i < args.len() && #[trigger] info_flag(args[i]@);
        assert(other[i] == args[i]);
    }
    if requests_console(other) {
        let i = choose|i: int| 1 <= i < other.len() && #[trigger] info_flag(other[i]@);
        assert(other[i] == args[i]);
    }
}

} // verus!
