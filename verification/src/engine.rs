use vstd::prelude::*;
use crate::builtins::{
    BuiltinAction, BuiltinActionModel, BuiltinError, classify, classify_spec, run_builtin,
    run_builtin_spec,
};
use crate::endpoints::{
    EndpointModel, StreamEndpoint, plan_endpoints, stderr_spec, stdin_spec, stdout_spec,
};
use crate::stage::{ParseError, Stage, StageModel, clone_chars, copy_words, make_stage, stage_of_words};
use crate::tokenize::{
    background_spec, body_spec, split_stages, split_words, stages_of, strip_background, trim,
    trim_spec, words_of,
};

verus! {

/// The mathematical content of a [`Pipeline`].
pub struct PipelineModel {
    pub stages: Seq<StageModel>,
    pub background: bool,
}

/// The stages parsed from one input line, in order, and whether the line
/// asked to run in the background.
#[derive(Debug)]
pub struct Pipeline {
    pub stages: Vec<Stage>,
    pub background: bool,
}

impl View for Pipeline {
    type V = PipelineModel;

    open spec fn view(&self) -> PipelineModel {
        PipelineModel {
            stages: self.stages@.map_values(|s: Stage| s@),
            background: self.background,
        }
    }
}

/// What one input line amounts to.
#[derive(Debug)]
pub enum ParsedLine {
    /// Nothing but whitespace: the shell prompts again.
    Empty,
    /// A pipeline to execute.
    Run(Pipeline),
}

/// The stages that a sequence of stage substrings denotes, or the first
/// error found scanning left to right.
pub open spec fn stages_models(texts: Seq<Seq<char>>) -> Result<Seq<StageModel>, ParseError>
    decreases texts.len(),
{
    if texts.len() == 0 {
        Ok(Seq::empty())
    } else {
        match stage_of_words(words_of(texts[0])) {
            Err(e) => Err(e),
            Ok(m) => match stages_models(texts.drop_first()) {
                Err(e) => Err(e),
                Ok(ms) => Ok(seq![m] + ms),
            },
        }
    }
}

/// What parsing an input line yields: `Ok(None)` for a line that is empty
/// once the background operator and surrounding whitespace are removed,
/// `Ok(Some(pipeline))` for a line to run, and the first parse error
/// otherwise.
pub open spec fn parse_line_spec(line: Seq<char>) -> Result<Option<PipelineModel>, ParseError> {
    let trimmed = trim_spec(body_spec(line));
    if trimmed.len() == 0 {
        Ok(None)
    } else {
        match stages_models(stages_of(trimmed)) {
            Err(e) => Err(e),
            Ok(ms) => Ok(Some(PipelineModel { stages: ms, background: background_spec(line) })),
        }
    }
}

/// Parses one raw input line into a pipeline: detects and strips a
/// trailing background operator, trims whitespace, splits the remainder
/// into stages on the pipe separator, splits each stage into words, and
/// resolves each stage's redirection.
pub fn parse_line(line: &Vec<char>) -> (r: Result<ParsedLine, ParseError>)
    ensures
        match r {
            Ok(ParsedLine::Empty) => parse_line_spec(line@) == Ok::<
                Option<PipelineModel>,
                ParseError,
            >(None),
            Ok(ParsedLine::Run(p)) => parse_line_spec(line@) == Ok::<
                Option<PipelineModel>,
                ParseError,
            >(Some(p@)) && p@.stages.len() >= 1,
            Err(e) => parse_line_spec(line@) == Err::<Option<PipelineModel>, ParseError>(e),
        },
{
    let (body, bg) = strip_background(line);
    let trimmed = trim(&body);
    if trimmed.len() == 0 {
        return Ok(ParsedLine::Empty);
    }
    let texts = split_stages(&trimmed);
    let ghost tm = texts@.map_values(|v: Vec<char>| v@);
    proof {
        assert(tm == stages_of(trim_spec(body_spec(line@))));
    }
    let mut stages: Vec<Stage> = Vec::new();
    let mut i: usize = 0;
    proof {
        assert(tm.skip(0) =~= tm);
        assert(stages@.map_values(|s: Stage| s@) =~= Seq::<StageModel>::empty());
        if stages_models(tm) is Ok {
            let ms = stages_models(tm)->Ok_0;
            assert(Seq::<StageModel>::empty() + ms =~= ms);
        }
    }
    while i < texts.len()
        invariant
            i <= texts.len(),
            tm == texts@.map_values(|v: Vec<char>| v@),
            trimmed@ == trim_spec(body_spec(line@)),
            trimmed@.len() > 0,
            tm == stages_of(trim_spec(body_spec(line@))),
            bg == background_spec(line@),
            match stages_models(tm.skip(i as int)) {
                Ok(ms) => stages_models(tm) == Ok::<Seq<StageModel>, ParseError>(
                    stages@.map_values(|s: Stage| s@) + ms,
                ),
                Err(e) => stages_models(tm) == Err::<Seq<StageModel>, ParseError>(e),
            },
        decreases texts.len() - i,
    {
        proof {
            assert(tm.skip(i as int).len() > 0);
            assert(tm.skip(i as int)[0] == tm[i as int]);
            assert(tm.skip(i as int).drop_first() =~= tm.skip(i + 1));
        }
        let words = split_words(&texts[i]);
        proof {
            assert(words@.map_values(|w: Vec<char>| w@) == words_of(tm[i as int]));
        }
        match make_stage(&words) {
            Err(e) => {
                proof {
                    assert(stages_models(tm.skip(i as int)) == Err::<Seq<StageModel>, ParseError>(
                        e,
                    ));
                }
                return Err(e);
            },
            Ok(st) => {
                let ghost done = stages@.map_values(|s: Stage| s@);
                stages.push(st);
                proof {
                    assert(stages@.map_values(|s: Stage| s@) =~= done.push(st@));
                    if stages_models(tm.skip(i + 1)) is Ok {
                        let ms = stages_models(tm.skip(i + 1))->Ok_0;
                        assert(done.push(st@) + ms =~= done + (seq![st@] + ms));
                    }
                }
            },
        }
        i = i + 1;
    }
    proof {
        assert(tm.skip(i as int) =~= Seq::<Seq<char>>::empty());
        assert(stages_models(tm.skip(i as int)) == Ok::<Seq<StageModel>, ParseError>(Seq::empty()));
        let done = stages@.map_values(|s: Stage| s@);
        assert(done + Seq::<StageModel>::empty() =~= done);
    }
    let p = Pipeline { stages, background: bg };
    Ok(ParsedLine::Run(p))
}

/// Everything an external stage's spawn needs: the command word, the
/// residual arguments, and the three resolved stream endpoints.
#[derive(Debug)]
pub struct SpawnRequest {
    pub command: Vec<char>,
    pub args: Vec<Vec<char>>,
    pub stdin: StreamEndpoint,
    pub stdout: StreamEndpoint,
    pub stderr: StreamEndpoint,
}

/// The mathematical content of a [`SpawnRequest`].
pub struct SpawnRequestModel {
    pub command: Seq<char>,
    pub args: Seq<Seq<char>>,
    pub stdin: EndpointModel,
    pub stdout: EndpointModel,
    pub stderr: EndpointModel,
}

impl View for SpawnRequest {
    type V = SpawnRequestModel;

    open spec fn view(&self) -> SpawnRequestModel {
        SpawnRequestModel {
            command: self.command@,
            args: self.args@.map_values(|a: Vec<char>| a@),
            stdin: self.stdin@,
            stdout: self.stdout@,
            stderr: self.stderr@,
        }
    }
}

/// What the engine does with one stage: run a builtin in-process, or
/// spawn an external command.
#[derive(Debug)]
pub enum StageAction {
    Builtin(Result<BuiltinAction, BuiltinError>),
    Spawn(SpawnRequest),
}

/// The mathematical content of a [`StageAction`].
pub enum StageActionModel {
    Builtin(Result<BuiltinActionModel, BuiltinError>),
    Spawn(SpawnRequestModel),
}

impl View for StageAction {
    type V = StageActionModel;

    open spec fn view(&self) -> StageActionModel {
        match self {
            StageAction::Builtin(res) => StageActionModel::Builtin(
                match res {
                    Ok(a) => Ok(a@),
                    Err(e) => Err(*e),
                },
            ),
            StageAction::Spawn(rq) => StageActionModel::Spawn(rq@),
        }
    }
}

/// The action one stage calls for. A stage whose command word is a builtin
/// is dispatched in-process; it never feeds a pipe, so a builtin standing
/// before the last position leaves the following stage without a
/// predecessor — a documented limitation, not a supported use.
pub open spec fn stage_action_spec(
    st: StageModel,
    has_predecessor: bool,
    is_last: bool,
    background: bool,
) -> StageActionModel {
    match classify_spec(st.command) {
        Some(k) => StageActionModel::Builtin(run_builtin_spec(k, st.args)),
        None => StageActionModel::Spawn(
            SpawnRequestModel {
                command: st.command,
                args: st.args,
                stdin: stdin_spec(st, has_predecessor),
                stdout: stdout_spec(st, is_last, background),
                stderr: stderr_spec(st),
            },
        ),
    }
}

/// Decides one stage: dispatch its builtin, or resolve its endpoints and
/// ask for a spawn.
pub fn stage_action(st: &Stage, has_predecessor: bool, is_last: bool, background: bool) -> (a:
    StageAction)
    ensures
        a@ == stage_action_spec(st@, has_predecessor, is_last, background),
{
    match classify(&st.command) {
        Some(k) => StageAction::Builtin(run_builtin(k, &st.args)),
        None => {
            let (stdin, stdout, stderr) = plan_endpoints(st, has_predecessor, is_last, background);
            let command = clone_chars(&st.command);
            let args = copy_words(&st.args, 0, st.args.len());
            proof {
                let am = st.args@.map_values(|w: Vec<char>| w@);
                assert(am.subrange(0, am.len() as int) =~= am);
            }
            StageAction::Spawn(SpawnRequest { command, args, stdin, stdout, stderr })
        },
    }
}

/// How one stage ended: an external spawn succeeded or failed, or a
/// builtin ran.
#[derive(Clone, Copy, PartialEq, Eq, Structural, Debug)]
pub enum StageOutcome {
    Spawned,
    SpawnFailed,
    BuiltinDone,
}

/// Only a successful spawn leaves a predecessor for the next stage: a
/// failed spawn severs the pipe rather than passing a broken stream on,
/// and a builtin never feeds one.
pub fn next_has_predecessor(o: StageOutcome) -> (b: bool)
    ensures
        b == (o is Spawned),
{
    match o {
        StageOutcome::Spawned => true,
        StageOutcome::SpawnFailed => false,
        StageOutcome::BuiltinDone => false,
    }
}

/// Whether the pipeline goes on after this stage's action: only a
/// builtin's argument-count error abandons the remaining stages.
pub open spec fn continues_spec(a: StageActionModel) -> bool {
    !(a matches StageActionModel::Builtin(Err(_)))
}

/// Decides whether the remaining stages still run.
pub fn pipeline_continues(a: &StageAction) -> (b: bool)
    ensures
        b == continues_spec(a@),
{
    match a {
        StageAction::Builtin(res) => res.is_ok(),
        StageAction::Spawn(_) => true,
    }
}

/// The engine blocks on the pipeline's terminal process exactly when the
/// line runs in the foreground and its last stage left a process to wait
/// for.
pub fn should_wait(background: bool, spawned_last: bool) -> (b: bool)
    ensures
        b == (!background && spawned_last),
{
    !background && spawned_last
}

/// A foreground line with a single stage whose command word is no builtin
/// spawns exactly one process — its one stage's action is a spawn whose
/// streams are the shell's own (absent redirections) — and the engine then
/// waits for that process before reading further input.
pub proof fn lemma_single_stage_foreground(m: PipelineModel)
    requires
        m.stages.len() == 1,
        !m.background,
        classify_spec(m.stages[0].command) is None,
    ensures
        stage_action_spec(m.stages[0], false, true, false) matches StageActionModel::Spawn(rq)
            && rq.command == m.stages[0].command && rq.args == m.stages[0].args,
        m.stages[0].redirect_in is None ==> (stage_action_spec(m.stages[0], false, true, false)
            matches StageActionModel::Spawn(rq) && rq.stdin == EndpointModel::Inherited),
        m.stages[0].redirect_out is None ==> (stage_action_spec(m.stages[0], false, true, false)
            matches StageActionModel::Spawn(rq) && rq.stdout == EndpointModel::Inherited),
        should_wait_spec(m.background, true),
{
}

/// When the engine blocks: see [`should_wait`].
pub open spec fn should_wait_spec(background: bool, spawned_last: bool) -> bool {
    !background && spawned_last
}

/// A line with no pipe separator parses into exactly one stage.
pub proof fn lemma_no_sep_single_stage(s: Seq<char>)
    requires
        0 <= s.len(),
        crate::tokenize::find_sep_from(s, 0) == -1,
    ensures
        stages_of(s) == seq![s],
{
    assert(s.subrange(0, s.len() as int) =~= s);
}

/// A line whose trimmed body holds no pipe separator yields, when it
/// parses at all, a pipeline of exactly one stage — so the engine issues
/// exactly one action for it.
pub proof fn lemma_no_pipe_one_stage(line: Seq<char>, m: PipelineModel)
    requires
        parse_line_spec(line) == Ok::<Option<PipelineModel>, ParseError>(Some(m)),
        crate::tokenize::find_sep_from(trim_spec(body_spec(line)), 0) == -1,
    ensures
        m.stages.len() == 1,
{
    let trimmed = trim_spec(body_spec(line));
    lemma_no_sep_single_stage(trimmed);
    let texts = seq![trimmed];
    assert(texts.drop_first() =~= Seq::<Seq<char>>::empty());
    assert(texts[0] == trimmed);
    assert(stages_models(Seq::<Seq<char>>::empty()) == Ok::<Seq<StageModel>, ParseError>(
        Seq::empty(),
    ));
    match stage_of_words(words_of(trimmed)) {
        Err(e) => {
            assert(stages_models(texts) == Err::<Seq<StageModel>, ParseError>(e));
            assert(false);
        },
        Ok(m0) => {
            assert(stages_models(texts) == Ok::<Seq<StageModel>, ParseError>(
                seq![m0] + Seq::empty(),
            ));
            assert(m.stages == seq![m0] + Seq::<StageModel>::empty());
            assert(m.stages.len() == 1);
        },
    }
}

} // verus!
