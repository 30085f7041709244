use vstd::prelude::*;
use crate::tokenize::copy_range;

verus! {

/// The three redirection directions a stage can ask for.
#[derive(Clone, Copy, PartialEq, Eq, Structural, Debug)]
pub enum RedirOp {
    Stdin,
    Stdout,
    Stderr,
}

/// The token that redirects standard output.
pub open spec fn out_tok() -> Seq<char> {
    seq!['>']
}

/// The token that redirects standard input.
pub open spec fn in_tok() -> Seq<char> {
    seq!['<']
}

/// The token that redirects standard error.
pub open spec fn err_tok() -> Seq<char> {
    seq!['2', '>']
}

/// The redirection operator a token denotes, if any.
pub open spec fn op_of(tok: Seq<char>) -> Option<RedirOp> {
    if tok == out_tok() {
        Some(RedirOp::Stdout)
    } else if tok == in_tok() {
        Some(RedirOp::Stdin)
    } else if tok == err_tok() {
        Some(RedirOp::Stderr)
    } else {
        None
    }
}

/// Recognizes a redirection operator token.
pub fn op_of_token(tok: &Vec<char>) -> (r: Option<RedirOp>)
    ensures
        r == op_of(tok@),
{
    if tok.len() == 1 && tok[0] == '>' {
        proof {
            assert(tok@ =~= out_tok());
        }
        Some(RedirOp::Stdout)
    } else if tok.len() == 1 && tok[0] == '<' {
        proof {
            assert(tok@ =~= in_tok());
        }
        Some(RedirOp::Stdin)
    } else if tok.len() == 2 && tok[0] == '2' && tok[1] == '>' {
        proof {
            assert(tok@ =~= err_tok());
        }
        Some(RedirOp::Stderr)
    } else {
        proof {
            assert(tok@ != out_tok() && tok@ != in_tok() && tok@ != err_tok());
        }
        None
    }
}

/// The mathematical content of one pipeline stage.
pub struct StageModel {
    pub command: Seq<char>,
    pub args: Seq<Seq<char>>,
    pub redirect_in: Option<Seq<char>>,
    pub redirect_out: Option<Seq<char>>,
    pub redirect_err: Option<Seq<char>>,
}

/// One command of a pipeline: its name, the arguments left after
/// redirection stripping, and the redirection targets found.
#[derive(Debug)]
pub struct Stage {
    pub command: Vec<char>,
    pub args: Vec<Vec<char>>,
    pub redirect_in: Option<Vec<char>>,
    pub redirect_out: Option<Vec<char>>,
    pub redirect_err: Option<Vec<char>>,
}

impl View for Stage {
    type V = StageModel;

    open spec fn view(&self) -> StageModel {
        StageModel {
            command: self.command@,
            args: self.args@.map_values(|a: Vec<char>| a@),
            redirect_in: match self.redirect_in {
                Some(p) => Some(p@),
                None => None,
            },
            redirect_out: match self.redirect_out {
                Some(p) => Some(p@),
                None => None,
            },
            redirect_err: match self.redirect_err {
                Some(p) => Some(p@),
                None => None,
            },
        }
    }
}

/// What can go wrong while turning a line into a pipeline.
#[derive(Clone, Copy, PartialEq, Eq, Structural, Debug)]
pub enum ParseError {
    /// A stage substring held no words at all.
    EmptyStage,
    /// A redirection operator stood last in a stage, with no target path after it.
    MissingRedirectTarget,
}

/// The first argument position at or after `from` holding a redirection
/// operator token, or `-1` when there is none.
pub open spec fn first_op_from(toks: Seq<Seq<char>>, from: int) -> int
    decreases toks.len() - from,
{
    if from >= toks.len() {
        -1
    } else if op_of(toks[from]) is Some {
        from
    } else {
        first_op_from(toks, from + 1)
    }
}

pub proof fn lemma_first_op_bounds(toks: Seq<Seq<char>>, from: int)
    requires
        0 <= from,
    ensures
        first_op_from(toks, from) == -1 || (from <= first_op_from(toks, from)
            < toks.len() && op_of(toks[first_op_from(toks, from)]) is Some),
    decreases toks.len() - from,
{
    if from >= toks.len() {
    } else if op_of(toks[from]) is Some {
    } else {
        lemma_first_op_bounds(toks, from + 1);
    }
}

/// Finds the first redirection operator among the argument tokens.
pub fn find_op(toks: &Vec<Vec<char>>) -> (r: Option<usize>)
    ensures
        match r {
            Some(j) => first_op_from(toks@.map_values(|t: Vec<char>| t@), 0) == j as int && j
                < toks.len(),
            None => first_op_from(toks@.map_values(|t: Vec<char>| t@), 0) == -1,
        },
{
    let ghost m = toks@.map_values(|t: Vec<char>| t@);
    let mut i: usize = 0;
    loop
        invariant
            i <= toks.len(),
            m == toks@.map_values(|t: Vec<char>| t@),
            first_op_from(m, 0) == first_op_from(m, i as int),
        decreases toks.len() - i,
    {
        if i >= toks.len() {
            return None;
        }
        if op_of_token(&toks[i]).is_some() {
            return Some(i);
        }
        i = i + 1;
    }
}

/// Copies the characters of one word.
pub fn clone_chars(w: &Vec<char>) -> (r: Vec<char>)
    ensures
        r@ == w@,
{
    let r = copy_range(w, 0, w.len());
    proof {
        assert(w@.subrange(0, w@.len() as int) =~= w@);
    }
    r
}

/// Copies the words `ws[a..b]` into a fresh vector.
pub fn copy_words(ws: &Vec<Vec<char>>, a: usize, b: usize) -> (r: Vec<Vec<char>>)
    requires
        a <= b <= ws.len(),
    ensures
        r@.map_values(|w: Vec<char>| w@) == ws@.map_values(|w: Vec<char>| w@).subrange(
            a as int,
            b as int,
        ),
{
    let mut r: Vec<Vec<char>> = Vec::new();
    proof {
        assert(r@.map_values(|w: Vec<char>| w@) =~= ws@.map_values(|w: Vec<char>| w@).subrange(
            a as int,
            a as int,
        ));
    }
    let mut i: usize = a;
    while i < b
        invariant
            a <= i <= b <= ws.len(),
            r@.map_values(|w: Vec<char>| w@) == ws@.map_values(|w: Vec<char>| w@).subrange(
                a as int,
                i as int,
            ),
        decreases b - i,
    {
        let w = clone_chars(&ws[i]);
        let ghost pre = r@;
        let ghost m = ws@.map_values(|w: Vec<char>| w@);
        r.push(w);
        proof {
            assert(w@ == m[i as int]);
            assert(r@.map_values(|w: Vec<char>| w@) =~= pre.map_values(|w: Vec<char>| w@).push(
                w@,
            ));
            assert(m.subrange(a as int, i as int).push(m[i as int]) =~= m.subrange(a as int, i + 1));
        }
        i = i + 1;
    }
    r
}

/// The stage that a list of words denotes: the first word is the command;
/// among the rest, the first redirection operator and the token after it
/// become the redirection, and only the tokens before the operator remain
/// as arguments. An operator with no token after it is an error, as is a
/// stage with no words.
pub open spec fn stage_of_words(words: Seq<Seq<char>>) -> Result<StageModel, ParseError> {
    if words.len() == 0 {
        Err(ParseError::EmptyStage)
    } else {
        let args = words.drop_first();
        let j = first_op_from(args, 0);
        if j < 0 {
            Ok(
                StageModel {
                    command: words[0],
                    args: args,
                    redirect_in: None,
                    redirect_out: None,
                    redirect_err: None,
                },
            )
        } else if j + 1 >= args.len() {
            Err(ParseError::MissingRedirectTarget)
        } else {
            let residual = args.subrange(0, j);
            let path = args[j + 1];
            match op_of(args[j]) {
                Some(RedirOp::Stdin) => Ok(
                    StageModel {
                        command: words[0],
                        args: residual,
                        redirect_in: Some(path),
                        redirect_out: None,
                        redirect_err: None,
                    },
                ),
                Some(RedirOp::Stdout) => Ok(
                    StageModel {
                        command: words[0],
                        args: residual,
                        redirect_in: None,
                        redirect_out: Some(path),
                        redirect_err: None,
                    },
                ),
                Some(RedirOp::Stderr) => Ok(
                    StageModel {
                        command: words[0],
                        args: residual,
                        redirect_in: None,
                        redirect_out: None,
                        redirect_err: Some(path),
                    },
                ),
                None => Err(ParseError::EmptyStage),
            }
        }
    }
}

/// Builds a [`Stage`] from the words of one stage substring, resolving its
/// redirection.
pub fn make_stage(words: &Vec<Vec<char>>) -> (r: Result<Stage, ParseError>)
    ensures
        match r {
            Ok(st) => stage_of_words(words@.map_values(|w: Vec<char>| w@)) == Ok::<
                StageModel,
                ParseError,
            >(st@),
            Err(e) => stage_of_words(words@.map_values(|w: Vec<char>| w@)) == Err::<
                StageModel,
                ParseError,
            >(e),
        },
{
    let ghost wm = words@.map_values(|w: Vec<char>| w@);
    if words.len() == 0 {
        return Err(ParseError::EmptyStage);
    }
    let command = clone_chars(&words[0]);
    let args = copy_words(words, 1, words.len());
    proof {
        assert(wm.subrange(1, wm.len() as int) =~= wm.drop_first());
    }
    let ghost am = wm.drop_first();
    match find_op(&args) {
        None => {
            let st = Stage {
                command,
                args,
                redirect_in: None,
                redirect_out: None,
                redirect_err: None,
            };
            Ok(st)
        },
        Some(j) => {
            proof {
                lemma_first_op_bounds(am, 0);
            }
            if j + 1 >= args.len() {
                return Err(ParseError::MissingRedirectTarget);
            }
            let path = clone_chars(&args[j + 1]);
            let op = op_of_token(&args[j]);
            let residual = copy_words(&args, 0, j);
            match op {
                Some(RedirOp::Stdin) => Ok(
                    Stage {
                        command,
                        args: residual,
                        redirect_in: Some(path),
                        redirect_out: None,
                        redirect_err: None,
                    },
                ),
                Some(RedirOp::Stdout) => Ok(
                    Stage {
                        command,
                        args: residual,
                        redirect_in: None,
                        redirect_out: Some(path),
                        redirect_err: None,
                    },
                ),
                Some(RedirOp::Stderr) => Ok(
                    Stage {
                        command,
                        args: residual,
                        redirect_in: None,
                        redirect_out: None,
                        redirect_err: Some(path),
                    },
                ),
                None => {
                    proof {
                        assert(false);
                    }
                    Err(ParseError::EmptyStage)
                },
            }
        },
    }
}

} // verus!
