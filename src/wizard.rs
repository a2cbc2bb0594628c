use vstd::prelude::*;
use crate::input::{
    choose_model, max_tokens_from, max_tokens_for, menu_choice, server_url_for,
    server_url_or_default, trim_line, trim_of, MenuChoice, MenuChoiceView,
};
use crate::model::{Config, ConfigView, Model, ModelView};

verus! {

/// Menu shown while the backend is chosen.
pub const MENU_PROMPT: &'static str = "Select model:\n 1 for gpt-4o-mini\n 2 for gpt-4o\n 3 for ollama (llama3.1)\n 4 for llamacpp (.gguf model)";

/// Prompt for the model file of a local file model.
pub const MODEL_PATH_PROMPT: &'static str = "Enter path to .gguf model file: ";

/// Prompt for the server endpoint of a local file model.
pub const SERVER_URL_PROMPT: &'static str = "Enter server URL (default: http://localhost:8000): ";

/// Prompt for the token limit.
pub const MAX_TOKENS_PROMPT: &'static str = "Enter max tokens (1-4096): ";

/// Shown when a menu answer matches no key.
pub const UNKNOWN_CHOICE_MESSAGE: &'static str = "Invalid choice. Please try again.";

/// Shown when the model path answer is blank.
pub const EMPTY_MODEL_PATH_MESSAGE: &'static str = "Model path cannot be empty. Please try again.";

/// Shown when a token-limit answer is not a number in range.
pub const INVALID_MAX_TOKENS_MESSAGE: &'static str = "Invalid input. Please enter a number between 1 and 4096.";

/// Where the wizard stands: which answer it waits for, or its result.
pub enum Stage {
    ChooseModel,
    EnterModelPath,
    EnterServerUrl { model_path: String },
    EnterMaxTokens { model: Model },
    Done { config: Config },
}

/// Mathematical view of a [`Stage`].
pub enum StageView {
    ChooseModel,
    EnterModelPath,
    EnterServerUrl { model_path: Seq<char> },
    EnterMaxTokens { model: ModelView },
    Done { config: ConfigView },
}

impl View for Stage {
    type V = StageView;

    open spec fn view(&self) -> StageView {
        match self {
            Stage::ChooseModel => StageView::ChooseModel,
            Stage::EnterModelPath => StageView::EnterModelPath,
            Stage::EnterServerUrl { model_path } => StageView::EnterServerUrl {
                model_path: model_path@,
            },
            Stage::EnterMaxTokens { model } => StageView::EnterMaxTokens { model: model@ },
            Stage::Done { config } => StageView::Done { config: config@ },
        }
    }
}

impl StageView {
    /// Every value a stage carries is well formed: a path is non-empty, a
    /// model and a configuration satisfy their own conditions.
    pub open spec fn wf(self) -> bool {
        match self {
            StageView::ChooseModel => true,
            StageView::EnterModelPath => true,
            StageView::EnterServerUrl { model_path } => model_path.len() > 0,
            StageView::EnterMaxTokens { model } => model.wf(),
            StageView::Done { config } => config.wf(),
        }
    }
}

/// How one answer was taken.
#[derive(Clone, Copy, Debug, PartialEq, Eq, Structural)]
pub enum Feedback {
    /// The answer was used and the wizard moved on.
    Accepted,
    /// The menu answer matched no key; the menu is asked again.
    UnknownChoice,
    /// The model path was blank; it is asked again.
    EmptyModelPath,
    /// The token limit was not a number in range; it is asked again.
    InvalidMaxTokens,
}

/// The stage that follows `s` on the trimmed answer `t`, and how the answer
/// was taken. An answer that is refused leaves the stage as it was.
pub open spec fn next_stage(s: StageView, t: Seq<char>) -> (StageView, Feedback) {
    match s {
        StageView::ChooseModel => match menu_choice(t) {
            MenuChoiceView::Picked(m) => (StageView::EnterMaxTokens { model: m }, Feedback::Accepted),
            MenuChoiceView::LocalFile => (StageView::EnterModelPath, Feedback::Accepted),
            MenuChoiceView::Unknown => (s, Feedback::UnknownChoice),
        },
        StageView::EnterModelPath => if t.len() == 0 {
            (s, Feedback::EmptyModelPath)
        } else {
            (StageView::EnterServerUrl { model_path: t }, Feedback::Accepted)
        },
        StageView::EnterServerUrl { model_path } => (
            StageView::EnterMaxTokens {
                model: ModelView::LlamaCpp { model_path, server_url: server_url_for(t) },
            },
            Feedback::Accepted,
        ),
        StageView::EnterMaxTokens { model } => match max_tokens_for(t) {
            Some(n) => (
                StageView::Done { config: ConfigView { model, max_tokens: n as int } },
                Feedback::Accepted,
            ),
            None => (s, Feedback::InvalidMaxTokens),
        },
        StageView::Done { .. } => (s, Feedback::Accepted),
    }
}

/// Takes the trimmed answer `t` at a stage that is not done.
pub fn advance(stage: Stage, t: &str) -> (r: (Stage, Feedback))
    requires
        !(stage@ is Done),
    ensures
        (r.0@, r.1) == next_stage(stage@, t@),
        stage@.wf() ==> r.0@.wf(),
{
    proof {
        reveal_strlit("llama3.1");
        reveal_strlit("http://localhost:8000");
    }
    match stage {
        Stage::ChooseModel => match choose_model(t) {
            MenuChoice::Picked(m) => (Stage::EnterMaxTokens { model: m }, Feedback::Accepted),
            MenuChoice::LocalFile => (Stage::EnterModelPath, Feedback::Accepted),
            MenuChoice::Unknown => (Stage::ChooseModel, Feedback::UnknownChoice),
        },
        Stage::EnterModelPath => if t.is_empty() {
            (Stage::EnterModelPath, Feedback::EmptyModelPath)
        } else {
            (Stage::EnterServerUrl { model_path: t.to_string() }, Feedback::Accepted)
        },
        Stage::EnterServerUrl { model_path } => {
            let server_url = server_url_or_default(t);
            (
                Stage::EnterMaxTokens { model: Model::LlamaCpp { model_path, server_url } },
                Feedback::Accepted,
            )
        },
        Stage::EnterMaxTokens { model } => match max_tokens_from(t) {
            Some(n) => (Stage::Done { config: Config { model, max_tokens: n } }, Feedback::Accepted),
            None => (Stage::EnterMaxTokens { model }, Feedback::InvalidMaxTokens),
        },
        Stage::Done { config } => (Stage::Done { config }, Feedback::Accepted),
    }
}

} // verus!

verus! {

/// Text shown to ask for the answer that stage `s` waits for.
pub open spec fn prompt_text(s: StageView) -> Seq<char> {
    match s {
        StageView::ChooseModel => MENU_PROMPT@,
        StageView::EnterModelPath => MODEL_PATH_PROMPT@,
        StageView::EnterServerUrl { .. } => SERVER_URL_PROMPT@,
        StageView::EnterMaxTokens { .. } => MAX_TOKENS_PROMPT@,
        StageView::Done { .. } => Seq::empty(),
    }
}

/// Text shown after an answer: nothing when it was used, else the reason.
pub open spec fn feedback_text(f: Feedback) -> Seq<char> {
    match f {
        Feedback::Accepted => Seq::empty(),
        Feedback::UnknownChoice => UNKNOWN_CHOICE_MESSAGE@,
        Feedback::EmptyModelPath => EMPTY_MODEL_PATH_MESSAGE@,
        Feedback::InvalidMaxTokens => INVALID_MAX_TOKENS_MESSAGE@,
    }
}

impl Feedback {
    /// The message to show for this feedback; empty for an accepted answer.
    pub fn message(&self) -> (r: String)
        ensures
            r@ == feedback_text(*self),
    {
        match self {
            Feedback::Accepted => String::new(),
            Feedback::UnknownChoice => UNKNOWN_CHOICE_MESSAGE.to_string(),
            Feedback::EmptyModelPath => EMPTY_MODEL_PATH_MESSAGE.to_string(),
            Feedback::InvalidMaxTokens => INVALID_MAX_TOKENS_MESSAGE.to_string(),
        }
    }

    /// Whether the answer was refused and its question is asked again.
    pub fn is_rejection(&self) -> (r: bool)
        ensures
            r == (*self != Feedback::Accepted),
    {
        !matches!(self, Feedback::Accepted)
    }
}

/// The trimmed form of each line.
pub open spec fn trimmed_lines(lines: Seq<String>) -> Seq<Seq<char>> {
    lines.map_values(|l: String| trim_of(l@))
}

/// Where the wizard stands after taking the trimmed answers `ts` from stage
/// `s`, and how many of them it took: it stops at the first one that
/// finishes it, or when the answers run out.
pub open spec fn run_stages(s: StageView, ts: Seq<Seq<char>>) -> (StageView, nat)
    decreases ts.len(),
{
    if ts.len() == 0 || s is Done {
        (s, 0)
    } else {
        let rest = run_stages(next_stage(s, ts[0]).0, ts.skip(1));
        (rest.0, rest.1 + 1)
    }
}

/// The configuration wizard: asks for a backend, then for a token limit,
/// and holds the finished [`Config`].
pub struct Wizard {
    stage: Stage,
}

impl View for Wizard {
    type V = StageView;

    closed spec fn view(&self) -> StageView {
        self.stage@
    }
}

impl Wizard {
    /// A wizard at its first question, the menu of backends.
    pub fn new() -> (r: Wizard)
        ensures
            r@ == StageView::ChooseModel,
            r@.wf(),
    {
        Wizard { stage: Stage::ChooseModel }
    }

    /// Whether the configuration is complete.
    pub fn is_done(&self) -> (r: bool)
        ensures
            r == (self@ is Done),
    {
        matches!(self.stage, Stage::Done { .. })
    }

    /// The question to show now; empty once the wizard is done.
    pub fn prompt(&self) -> (r: String)
        ensures
            r@ == prompt_text(self@),
    {
        match &self.stage {
            Stage::ChooseModel => MENU_PROMPT.to_string(),
            Stage::EnterModelPath => MODEL_PATH_PROMPT.to_string(),
            Stage::EnterServerUrl { .. } => SERVER_URL_PROMPT.to_string(),
            Stage::EnterMaxTokens { .. } => MAX_TOKENS_PROMPT.to_string(),
            Stage::Done { .. } => String::new(),
        }
    }

    /// Takes one line of input, as typed, for the current question. The
    /// line is trimmed before it is read.
    pub fn feed(&mut self, line: &str) -> (r: Feedback)
        requires
            !(old(self)@ is Done),
        ensures
            (final(self)@, r) == next_stage(old(self)@, trim_of(line@)),
            old(self)@.wf() ==> final(self)@.wf(),
    {
        let t = trim_line(line);
        let mut current = Stage::ChooseModel;
        std::mem::swap(&mut self.stage, &mut current);
        let (next, feedback) = advance(current, t);
        self.stage = next;
        feedback
    }

    /// Takes lines in order until the wizard is done or the lines run out,
    /// and returns how many it took.
    pub fn feed_lines(&mut self, lines: &Vec<String>) -> (n: usize)
        ensures
            (final(self)@, n as nat) == run_stages(old(self)@, trimmed_lines(lines@)),
            old(self)@.wf() ==> final(self)@.wf(),
    {
        let ghost ts = trimmed_lines(lines@);
        let ghost start = self@;
        let mut i: usize = 0;
        assert(ts.skip(0) =~= ts);
        while i < lines.len() && !self.is_done()
            invariant
                ts == trimmed_lines(lines@),
                i <= lines@.len(),
                run_stages(start, ts).0 == run_stages(self@, ts.skip(i as int)).0,
                run_stages(start, ts).1 == run_stages(self@, ts.skip(i as int)).1 + i,
                start.wf() ==> self@.wf(),
            decreases lines@.len() - i,
        {
            proof {
                assert(ts.skip(i as int)[0] == ts[i as int]);
                assert(ts.skip(i as int).skip(1) =~= ts.skip(i + 1));
            }
            self.feed(lines[i].as_str());
            i = i + 1;
        }
        i
    }

    /// The finished configuration, or `None` while answers are still needed.
    pub fn into_config(self) -> (r: Option<Config>)
        ensures
            match self@ {
                StageView::Done { config } => r is Some && r->Some_0@ == config,
                _ => r is None,
            },
    {
        match self.stage {
            Stage::Done { config } => Some(config),
            _ => None,
        }
    }
}

} // verus!
