//! The command line of the launcher that signs a binary and then runs it.
//!
//! The launcher is called as
//! `launcher [--entitlements <path>]... <binary> [args...]`. Options come
//! first; `-e` is short for `--entitlements`, and of several the last one
//! counts. The first word that is no option names the binary, and all that
//! follows is handed to the binary untouched.

use vstd::prelude::*;

verus! {

/// What the launcher was asked to do.
#[derive(Debug, PartialEq, Eq)]
pub struct Launch {
    /// The entitlements file to sign with.
    pub entitlements: String,
    /// The binary to sign and run.
    pub binary: String,
    /// The arguments for the binary.
    pub args: Vec<String>,
}

/// A [`Launch`] as plain sequences of characters.
pub struct LaunchView {
    pub entitlements: Seq<char>,
    pub binary: Seq<char>,
    pub args: Seq<Seq<char>>,
}

/// Why a command line names no launch.
#[derive(Clone, Copy, Debug, PartialEq, Eq)]
pub enum LaunchError {
    /// The command line ends with `--entitlements` or `-e`.
    MissingEntitlementsPath,
    /// No word is left to name the binary.
    MissingBinary,
}

/// The words of a command line as sequences of characters.
pub open spec fn words(args: Seq<String>) -> Seq<Seq<char>> {
    Seq::new(args.len(), |i: int| args[i]@)
}

impl View for Launch {
    type V = LaunchView;

    open spec fn view(&self) -> LaunchView {
        LaunchView {
            entitlements: self.entitlements@,
            binary: self.binary@,
            args: words(self.args@),
        }
    }
}

/// Whether `word` is the option that names the entitlements file.
pub open spec fn is_entitlements_flag(word: Seq<char>) -> bool {
    word == "--entitlements"@ || word == "-e"@
}

/// What the words from `at` on ask for, with `entitlements` the file named
/// so far.
pub open spec fn parse_from(line: Seq<Seq<char>>, at: int, entitlements: Seq<char>) -> Result<
    LaunchView,
    LaunchError,
>
    decreases line.len() - at,
{
    if at < 0 || at >= line.len() {
        Err(LaunchError::MissingBinary)
    } else if is_entitlements_flag(line[at]) {
        if at + 1 < line.len() {
            parse_from(line, at + 2, line[at + 1])
        } else {
            Err(LaunchError::MissingEntitlementsPath)
        }
    } else {
        Ok(
            LaunchView {
                entitlements,
                binary: line[at],
                args: line.subrange(at + 1, line.len() as int),
            },
        )
    }
}

/// What a whole command line asks for. The first word is the launcher's own
/// name and is passed over.
pub open spec fn parse(line: Seq<Seq<char>>, default_entitlements: Seq<char>) -> Result<
    LaunchView,
    LaunchError,
> {
    parse_from(line, 1, default_entitlements)
}

/// The result of [`parse_launch`] as plain sequences.
pub open spec fn outcome_view(outcome: Result<Launch, LaunchError>) -> Result<
    LaunchView,
    LaunchError,
> {
    match outcome {
        Ok(launch) => Ok(launch@),
        Err(error) => Err(error),
    }
}

/// The entitlements file to use where the command line names none: the one
/// from the environment if there is one, `entitlements.xml` otherwise.
pub fn default_entitlements(from_environment: Option<String>) -> (path: String)
    ensures
        path@ == match from_environment {
            Some(given) => given@,
            None => "entitlements.xml"@,
        },
{
    match from_environment {
        Some(given) => given,
        None => "entitlements.xml".to_owned(),
    }
}

/// Reads the launcher's command line, `args[0]` being the launcher's own
/// name.
pub fn parse_launch(args: &Vec<String>, default_entitlements: String) -> (outcome: Result<
    Launch,
    LaunchError,
>)
    ensures
        outcome_view(outcome) == parse(words(args@), default_entitlements@),
{
    let long_flag = "--entitlements".to_owned();
    let short_flag = "-e".to_owned();
    let mut entitlements = default_entitlements;
    let mut at: usize = 1;
    while at < args.len() && (args[at] == long_flag || args[at] == short_flag)
        invariant
            1 <= at,
            long_flag@ == "--entitlements"@,
            short_flag@ == "-e"@,
            parse(words(args@), default_entitlements@) == parse_from(
                words(args@),
                at as int,
                entitlements@,
            ),
        decreases args.len() - at,
    {
        if args.len() - at < 2 {
            return Err(LaunchError::MissingEntitlementsPath);
        }
        entitlements = args[at + 1].clone();
        at = at + 2;
    }
    if at >= args.len() {
        return Err(LaunchError::MissingBinary);
    }
    let binary = args[at].clone();
    let mut rest: Vec<String> = Vec::new();
    let mut next: usize = at + 1;
    while next < args.len()
        invariant
            at < next <= args.len(),
            rest@.len() == next - (at + 1),
            forall|i: int| 0 <= i < rest@.len() ==> rest@[i]@ == args@[at + 1 + i]@,
        decreases args.len() - next,
    {
        rest.push(args[next].clone());
        next = next + 1;
    }
    assert(words(rest@) =~= words(args@).subrange(at + 1, args.len() as int));
    Ok(Launch { entitlements, binary, args: rest })
}

/// The arguments for the signing tool: sign `binary` ad hoc with the
/// entitlements, nested code included, replacing a signature that is there.
pub fn codesign_args(launch: &Launch) -> (arguments: Vec<String>)
    ensures
        words(arguments@) == seq![
            "--sign"@,
            "-"@,
            "--entitlements"@,
            launch.entitlements@,
            "--deep"@,
            "--force"@,
            launch.binary@,
        ],
{
    let mut arguments: Vec<String> = Vec::new();
    arguments.push("--sign".to_owned());
    arguments.push("-".to_owned());
    arguments.push("--entitlements".to_owned());
    arguments.push(launch.entitlements.clone());
    arguments.push("--deep".to_owned());
    arguments.push("--force".to_owned());
    arguments.push(launch.binary.clone());
    assert(words(arguments@) =~= seq![
        "--sign"@,
        "-"@,
        "--entitlements"@,
        launch.entitlements@,
        "--deep"@,
        "--force"@,
        launch.binary@,
    ]);
    arguments
}

} // verus!
