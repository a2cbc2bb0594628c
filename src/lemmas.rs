use vstd::prelude::*;
use crate::input::{max_tokens_for, menu_choice};
use crate::model::{ConfigView, ModelView, DEFAULT_SERVER_URL, OLLAMA_MODEL_NAME};
use crate::wizard::{next_stage, run_stages, Feedback, StageView};

verus! {

/// Keys `1`, `2` and `3` choose their backend with the one answer: the
/// wizard goes straight on to the token limit with that model.
pub proof fn lemma_fixed_keys_choose_at_once(t: Seq<char>)
    requires
        t == seq!['1'] || t == seq!['2'] || t == seq!['3'],
    ensures
        t == seq!['1'] ==> next_stage(StageView::ChooseModel, t) == (
            StageView::EnterMaxTokens { model: ModelView::OpenAiGpt4o },
            Feedback::Accepted,
        ),
        t == seq!['2'] ==> next_stage(StageView::ChooseModel, t) == (
            StageView::EnterMaxTokens { model: ModelView::OpenAiGpt4oMini },
            Feedback::Accepted,
        ),
        t == seq!['3'] ==> next_stage(StageView::ChooseModel, t) == (
            StageView::EnterMaxTokens { model: ModelView::Ollama(OLLAMA_MODEL_NAME@) },
            Feedback::Accepted,
        ),
{
    assert(seq!['1'] != seq!['2']) by {
        assert(seq!['1'][0] != seq!['2'][0]);
    }
    assert(seq!['1'] != seq!['3']) by {
        assert(seq!['1'][0] != seq!['3'][0]);
    }
    assert(seq!['2'] != seq!['3']) by {
        assert(seq!['2'][0] != seq!['3'][0]);
    }
}

/// Key `4`, a model path and a server answer make a local file model with
/// that path; a blank server answer gives the default endpoint, any other
/// is kept as it is.
pub proof fn lemma_local_file_answers(path: Seq<char>, url: Seq<char>)
    requires
        path.len() > 0,
    ensures
        run_stages(StageView::ChooseModel, seq![seq!['4'], path, url]) == (
            StageView::EnterMaxTokens {
                model: ModelView::LlamaCpp {
                    model_path: path,
                    server_url: if url.len() == 0 { DEFAULT_SERVER_URL@ } else { url },
                },
            },
            3nat,
        ),
{
    reveal_with_fuel(run_stages, 4);
    let ts = seq![seq!['4'], path, url];
    assert(seq!['4'] != seq!['1']) by {
        assert(seq!['4'][0] != seq!['1'][0]);
    }
    assert(seq!['4'] != seq!['2']) by {
        assert(seq!['4'][0] != seq!['2'][0]);
    }
    assert(seq!['4'] != seq!['3']) by {
        assert(seq!['4'][0] != seq!['3'][0]);
    }
    assert(menu_choice(seq!['4']) is LocalFile);
    assert(ts.skip(1) =~= seq![path, url]);
    assert(ts.skip(1).skip(1) =~= seq![url]);
    assert(ts.skip(1).skip(1).skip(1) =~= Seq::<Seq<char>>::empty());
}

/// An answer to the menu that is none of its keys is refused and changes
/// nothing: the wizard asks the menu again, and goes on from the next answer
/// as if the refused one had not been given.
pub proof fn lemma_unknown_key_asks_again(t: Seq<char>, rest: Seq<Seq<char>>)
    requires
        t != seq!['1'],
        t != seq!['2'],
        t != seq!['3'],
        t != seq!['4'],
    ensures
        next_stage(StageView::ChooseModel, t) == (StageView::ChooseModel, Feedback::UnknownChoice),
        run_stages(StageView::ChooseModel, seq![t] + rest) == (
            run_stages(StageView::ChooseModel, rest).0,
            run_stages(StageView::ChooseModel, rest).1 + 1,
        ),
{
    assert((seq![t] + rest).skip(1) =~= rest);
}

/// The token-limit question is answered by its first line alone: two input
/// streams whose first trimmed lines agree and are accepted finish the
/// wizard the same way, after one line, whatever follows.
pub proof fn lemma_max_tokens_from_first_answer(
    model: ModelView,
    a: Seq<Seq<char>>,
    b: Seq<Seq<char>>,
)
    requires
        a.len() > 0,
        b.len() > 0,
        a[0] == b[0],
        max_tokens_for(a[0]) is Some,
    ensures
        run_stages(StageView::EnterMaxTokens { model }, a) == run_stages(
            StageView::EnterMaxTokens { model },
            b,
        ),
        run_stages(StageView::EnterMaxTokens { model }, a) == (
            StageView::Done {
                config: ConfigView {
                    model,
                    max_tokens: max_tokens_for(a[0])->Some_0 as int,
                },
            },
            1nat,
        ),
{
    reveal_with_fuel(run_stages, 2);
}

/// Every stage reached from a well-formed one is well formed; in particular a
/// finished configuration has a token limit in range and non-empty texts.
pub proof fn lemma_runs_stay_well_formed(s: StageView, ts: Seq<Seq<char>>)
    requires
        s.wf(),
    ensures
        run_stages(s, ts).0.wf(),
    decreases ts.len(),
{
    if ts.len() > 0 && !(s is Done) {
        lemma_step_keeps_well_formed(s, ts[0]);
        lemma_runs_stay_well_formed(next_stage(s, ts[0]).0, ts.skip(1));
    }
}

/// One answer keeps a well-formed stage well formed.
pub proof fn lemma_step_keeps_well_formed(s: StageView, t: Seq<char>)
    requires
        s.wf(),
    ensures
        next_stage(s, t).0.wf(),
{
    reveal_strlit("llama3.1");
    reveal_strlit("http://localhost:8000");
}

} // verus!
