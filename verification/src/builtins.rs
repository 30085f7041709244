use vstd::prelude::*;

verus! {

/// The commands the shell runs in-process instead of spawning an
/// executable.
#[derive(Clone, Copy, PartialEq, Eq, Structural, Debug)]
pub enum BuiltinKind {
    Cd,
    Pwd,
    Exit,
    History,
}

pub open spec fn cd_chars() -> Seq<char> {
    seq!['c', 'd']
}

pub open spec fn pwd_chars() -> Seq<char> {
    seq!['p', 'w', 'd']
}

pub open spec fn exit_chars() -> Seq<char> {
    seq!['e', 'x', 'i', 't']
}

pub open spec fn history_chars() -> Seq<char> {
    seq!['h', 'i', 's', 't', 'o', 'r', 'y']
}

/// The filesystem root, the default destination of a bare `cd`.
pub open spec fn root_chars() -> Seq<char> {
    seq!['/']
}

/// The builtin a command word names, if any. Anything else is the name of
/// an external command.
pub open spec fn classify_spec(w: Seq<char>) -> Option<BuiltinKind> {
    if w == cd_chars() {
        Some(BuiltinKind::Cd)
    } else if w == pwd_chars() {
        Some(BuiltinKind::Pwd)
    } else if w == exit_chars() {
        Some(BuiltinKind::Exit)
    } else if w == history_chars() {
        Some(BuiltinKind::History)
    } else {
        None
    }
}

/// Recognizes a builtin command word by exact match.
pub fn classify(w: &Vec<char>) -> (r: Option<BuiltinKind>)
    ensures
        r == classify_spec(w@),
{
    if w.len() == 2 && w[0] == 'c' && w[1] == 'd' {
        proof {
            assert(w@ =~= cd_chars());
        }
        Some(BuiltinKind::Cd)
    } else if w.len() == 3 && w[0] == 'p' && w[1] == 'w' && w[2] == 'd' {
        proof {
            assert(w@ =~= pwd_chars());
        }
        Some(BuiltinKind::Pwd)
    } else if w.len() == 4 && w[0] == 'e' && w[1] == 'x' && w[2] == 'i' && w[3] == 't' {
        proof {
            assert(w@ =~= exit_chars());
        }
        Some(BuiltinKind::Exit)
    } else if w.len() == 7 && w[0] == 'h' && w[1] == 'i' && w[2] == 's' && w[3] == 't' && w[4]
        == 'o' && w[5] == 'r' && w[6] == 'y' {
        proof {
            assert(w@ =~= history_chars());
        }
        Some(BuiltinKind::History)
    } else {
        proof {
            assert(w@ != cd_chars() && w@ != pwd_chars() && w@ != exit_chars() && w@
                != history_chars());
        }
        None
    }
}

/// What a builtin asks the surrounding process to do.
#[derive(Debug)]
pub enum BuiltinAction {
    /// Change the working directory to the given path.
    ChangeDir(Vec<char>),
    /// Print the current working directory.
    PrintCwd,
    /// Leave the read loop at once.
    ExitShell,
    /// Print the history store's entries as a numbered list.
    ShowHistory,
}

/// The mathematical content of a [`BuiltinAction`].
pub enum BuiltinActionModel {
    ChangeDir(Seq<char>),
    PrintCwd,
    ExitShell,
    ShowHistory,
}

impl View for BuiltinAction {
    type V = BuiltinActionModel;

    open spec fn view(&self) -> BuiltinActionModel {
        match self {
            BuiltinAction::ChangeDir(p) => BuiltinActionModel::ChangeDir(p@),
            BuiltinAction::PrintCwd => BuiltinActionModel::PrintCwd,
            BuiltinAction::ExitShell => BuiltinActionModel::ExitShell,
            BuiltinAction::ShowHistory => BuiltinActionModel::ShowHistory,
        }
    }
}

/// A builtin given an argument count it does not accept.
#[derive(Clone, Copy, PartialEq, Eq, Structural, Debug)]
pub enum BuiltinError {
    /// `cd` takes at most one argument.
    CdTooManyArgs,
    /// The named builtin takes no arguments at all.
    ArgsNotAllowed(BuiltinKind),
}

/// What a builtin does with its argument list: `cd` with no argument goes
/// to the filesystem root, with one argument to that path, and rejects
/// more; `pwd`, `exit` and `history` reject any argument.
pub open spec fn run_builtin_spec(kind: BuiltinKind, args: Seq<Seq<char>>) -> Result<
    BuiltinActionModel,
    BuiltinError,
> {
    match kind {
        BuiltinKind::Cd => {
            if args.len() == 0 {
                Ok(BuiltinActionModel::ChangeDir(root_chars()))
            } else if args.len() == 1 {
                Ok(BuiltinActionModel::ChangeDir(args[0]))
            } else {
                Err(BuiltinError::CdTooManyArgs)
            }
        },
        BuiltinKind::Pwd => {
            if args.len() == 0 {
                Ok(BuiltinActionModel::PrintCwd)
            } else {
                Err(BuiltinError::ArgsNotAllowed(BuiltinKind::Pwd))
            }
        },
        BuiltinKind::Exit => {
            if args.len() == 0 {
                Ok(BuiltinActionModel::ExitShell)
            } else {
                Err(BuiltinError::ArgsNotAllowed(BuiltinKind::Exit))
            }
        },
        BuiltinKind::History => {
            if args.len() == 0 {
                Ok(BuiltinActionModel::ShowHistory)
            } else {
                Err(BuiltinError::ArgsNotAllowed(BuiltinKind::History))
            }
        },
    }
}

/// Dispatches a builtin on its residual argument list. An argument-count
/// error changes nothing: the caller reports it and skips the rest of the
/// pipeline.
pub fn run_builtin(kind: BuiltinKind, args: &Vec<Vec<char>>) -> (r: Result<
    BuiltinAction,
    BuiltinError,
>)
    ensures
        match r {
            Ok(a) => run_builtin_spec(kind, args@.map_values(|w: Vec<char>| w@)) == Ok::<
                BuiltinActionModel,
                BuiltinError,
            >(a@),
            Err(e) => run_builtin_spec(kind, args@.map_values(|w: Vec<char>| w@)) == Err::<
                BuiltinActionModel,
                BuiltinError,
            >(e),
        },
{
    match kind {
        BuiltinKind::Cd => {
            if args.len() == 0 {
                let mut root: Vec<char> = Vec::new();
                root.push('/');
                proof {
                    assert(root@ =~= root_chars());
                }
                Ok(BuiltinAction::ChangeDir(root))
            } else if args.len() == 1 {
                Ok(BuiltinAction::ChangeDir(crate::stage::clone_chars(&args[0])))
            } else {
                Err(BuiltinError::CdTooManyArgs)
            }
        },
        BuiltinKind::Pwd => {
            if args.len() == 0 {
                Ok(BuiltinAction::PrintCwd)
            } else {
                Err(BuiltinError::ArgsNotAllowed(BuiltinKind::Pwd))
            }
        },
        BuiltinKind::Exit => {
            if args.len() == 0 {
                Ok(BuiltinAction::ExitShell)
            } else {
                Err(BuiltinError::ArgsNotAllowed(BuiltinKind::Exit))
            }
        },
        BuiltinKind::History => {
            if args.len() == 0 {
                Ok(BuiltinAction::ShowHistory)
            } else {
                Err(BuiltinError::ArgsNotAllowed(BuiltinKind::History))
            }
        },
    }
}

} // verus!
