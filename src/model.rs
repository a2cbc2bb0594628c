use vstd::prelude::*;

verus! {

/// Upper bound, inclusive, on the token limit of a configuration.
pub const MAX_TOKENS_LIMIT: i32 = 4096;

/// Server endpoint used for a local file model when none is given.
pub const DEFAULT_SERVER_URL: &'static str = "http://localhost:8000";

/// Name of the model that the local inference daemon is asked to run.
pub const OLLAMA_MODEL_NAME: &'static str = "llama3.1";

/// The language-model backend chosen by the user.
#[derive(Clone, Debug, PartialEq, Eq)]
pub enum Model {
    OpenAiGpt4o,
    OpenAiGpt4oMini,
    Ollama(String),
    LlamaCpp { model_path: String, server_url: String },
}

/// Mathematical view of a [`Model`]: its text fields as character sequences.
pub enum ModelView {
    OpenAiGpt4o,
    OpenAiGpt4oMini,
    Ollama(Seq<char>),
    LlamaCpp { model_path: Seq<char>, server_url: Seq<char> },
}

impl View for Model {
    type V = ModelView;

    open spec fn view(&self) -> ModelView {
        match self {
            Model::OpenAiGpt4o => ModelView::OpenAiGpt4o,
            Model::OpenAiGpt4oMini => ModelView::OpenAiGpt4oMini,
            Model::Ollama(name) => ModelView::Ollama(name@),
            Model::LlamaCpp { model_path, server_url } => ModelView::LlamaCpp {
                model_path: model_path@,
                server_url: server_url@,
            },
        }
    }
}

/// The finished result of the wizard: a backend and a token limit.
#[derive(Clone, Debug, PartialEq, Eq)]
pub struct Config {
    pub model: Model,
    pub max_tokens: i32,
}

/// Mathematical view of a [`Config`].
pub struct ConfigView {
    pub model: ModelView,
    pub max_tokens: int,
}

impl View for Config {
    type V = ConfigView;

    open spec fn view(&self) -> ConfigView {
        ConfigView { model: self.model@, max_tokens: self.max_tokens as int }
    }
}

impl ModelView {
    /// A model is well formed when every text it carries is non-empty.
    pub open spec fn wf(self) -> bool {
        match self {
            ModelView::OpenAiGpt4o => true,
            ModelView::OpenAiGpt4oMini => true,
            ModelView::Ollama(name) => name.len() > 0,
            ModelView::LlamaCpp { model_path, server_url } => model_path.len() > 0
                && server_url.len() > 0,
        }
    }
}

impl ConfigView {
    /// A configuration is well formed when its model is, and its token limit
    /// lies in `1..=MAX_TOKENS_LIMIT`.
    pub open spec fn wf(self) -> bool {
        &&& self.model.wf()
        &&& 1 <= self.max_tokens <= MAX_TOKENS_LIMIT
    }
}

} // verus!
