use config_wizard::{
    advance, choose_model, max_tokens_from, server_url_or_default, Config, Feedback, MenuChoice,
    Model, Stage, Wizard, DEFAULT_SERVER_URL, MAX_TOKENS_LIMIT, OLLAMA_MODEL_NAME,
};

fn finish(answers: &[&str]) -> Option<Config> {
    let mut w = Wizard::new();
    for a in answers {
        if w.is_done() {
            break;
        }
        w.feed(a);
    }
    w.into_config()
}

fn lines(answers: &[&str]) -> Vec<String> {
    answers.iter().map(|a| a.to_string()).collect()
}

#[test]
fn key_one_chooses_at_once() {
    let mut w = Wizard::new();
    assert_eq!(w.feed("1\n"), Feedback::Accepted);
    assert_eq!(w.prompt(), "Enter max tokens (1-4096): ");
    assert_eq!(w.feed("100"), Feedback::Accepted);
    assert!(w.is_done());
    assert_eq!(
        w.into_config(),
        Some(Config { model: Model::OpenAiGpt4o, max_tokens: 100 })
    );
}

#[test]
fn key_two_chooses_at_once() {
    assert_eq!(
        finish(&["2", "7"]),
        Some(Config { model: Model::OpenAiGpt4oMini, max_tokens: 7 })
    );
}

#[test]
fn key_three_chooses_at_once() {
    assert_eq!(
        finish(&["3", "4096"]),
        Some(Config { model: Model::Ollama("llama3.1".to_string()), max_tokens: 4096 })
    );
    assert_eq!(OLLAMA_MODEL_NAME, "llama3.1");
}

#[test]
fn menu_answer_is_trimmed() {
    let mut w = Wizard::new();
    assert_eq!(w.feed("  3 \r\n"), Feedback::Accepted);
    assert_eq!(w.prompt(), "Enter max tokens (1-4096): ");
    assert_eq!(w.feed(" 12\t\n"), Feedback::Accepted);
    assert_eq!(
        w.into_config(),
        Some(Config { model: Model::Ollama("llama3.1".to_string()), max_tokens: 12 })
    );
}

#[test]
fn local_file_with_blank_url_uses_default() {
    let mut w = Wizard::new();
    assert_eq!(w.feed("4\n"), Feedback::Accepted);
    assert_eq!(w.prompt(), "Enter path to .gguf model file: ");
    assert_eq!(w.feed("model.gguf\n"), Feedback::Accepted);
    assert_eq!(w.prompt(), "Enter server URL (default: http://localhost:8000): ");
    assert_eq!(w.feed("\n"), Feedback::Accepted);
    assert_eq!(w.feed("256\n"), Feedback::Accepted);
    assert_eq!(
        w.into_config(),
        Some(Config {
            model: Model::LlamaCpp {
                model_path: "model.gguf".to_string(),
                server_url: "http://localhost:8000".to_string(),
            },
            max_tokens: 256,
        })
    );
}

#[test]
fn local_file_with_given_url_keeps_it() {
    assert_eq!(
        finish(&["4", "model.gguf", "http://host:9000", "1"]),
        Some(Config {
            model: Model::LlamaCpp {
                model_path: "model.gguf".to_string(),
                server_url: "http://host:9000".to_string(),
            },
            max_tokens: 1,
        })
    );
}

#[test]
fn local_file_answers_are_trimmed() {
    assert_eq!(
        finish(&["4", "  /models/a b.gguf \n", "  http://host:9000 \n", "10"]),
        Some(Config {
            model: Model::LlamaCpp {
                model_path: "/models/a b.gguf".to_string(),
                server_url: "http://host:9000".to_string(),
            },
            max_tokens: 10,
        })
    );
}

#[test]
fn blank_model_path_is_asked_again() {
    let mut w = Wizard::new();
    w.feed("4");
    assert_eq!(w.feed("   \n"), Feedback::EmptyModelPath);
    assert_eq!(w.prompt(), "Enter path to .gguf model file: ");
    assert_eq!(w.feed("m.gguf"), Feedback::Accepted);
    assert_eq!(w.prompt(), "Enter server URL (default: http://localhost:8000): ");
}

#[test]
fn unknown_menu_answers_ask_again() {
    let mut w = Wizard::new();
    for bad in ["5", "", "abc", "0", "11", "1 2", "four"] {
        assert_eq!(w.feed(bad), Feedback::UnknownChoice);
        assert!(!w.is_done());
        assert_eq!(w.prompt(), "Select model:\n 1 for gpt-4o-mini\n 2 for gpt-4o\n 3 for ollama (llama3.1)\n 4 for llamacpp (.gguf model)");
    }
    assert_eq!(w.feed("1"), Feedback::Accepted);
    assert_eq!(w.feed("9"), Feedback::Accepted);
    assert_eq!(
        w.into_config(),
        Some(Config { model: Model::OpenAiGpt4o, max_tokens: 9 })
    );
}

#[test]
fn max_tokens_bounds_are_accepted() {
    assert_eq!(max_tokens_from("1"), Some(1));
    assert_eq!(max_tokens_from("4096"), Some(4096));
    assert_eq!(max_tokens_from("+42"), Some(42));
    assert_eq!(max_tokens_from("0042"), Some(42));
    assert_eq!(MAX_TOKENS_LIMIT, 4096);
}

#[test]
fn max_tokens_out_of_range_or_not_a_number_is_refused() {
    for bad in ["0", "4097", "-5", "abc", "", "+", "-", "12a", "2147483648", "99999999999", "4 096"] {
        assert_eq!(max_tokens_from(bad), None, "{:?}", bad);
    }
}

#[test]
fn max_tokens_question_repeats_until_valid() {
    let mut w = Wizard::new();
    w.feed("2");
    for bad in ["0", "4097", "-5", "abc", ""] {
        assert_eq!(w.feed(bad), Feedback::InvalidMaxTokens);
        assert!(!w.is_done());
        assert_eq!(w.prompt(), "Enter max tokens (1-4096): ");
    }
    assert_eq!(w.feed("4096"), Feedback::Accepted);
    assert_eq!(
        w.into_config(),
        Some(Config { model: Model::OpenAiGpt4oMini, max_tokens: 4096 })
    );
}

#[test]
fn same_first_token_answer_gives_same_result() {
    let mut a = Wizard::new();
    a.feed("1");
    let mut b = Wizard::new();
    b.feed("1");
    let na = a.feed_lines(&lines(&["300", "abc", "5"]));
    let nb = b.feed_lines(&lines(&["300", "4096"]));
    assert_eq!(na, 1);
    assert_eq!(nb, 1);
    let ca = a.into_config();
    assert_eq!(ca, b.into_config());
    assert_eq!(ca, Some(Config { model: Model::OpenAiGpt4o, max_tokens: 300 }));
}

#[test]
fn feed_lines_stops_when_done() {
    let mut w = Wizard::new();
    let n = w.feed_lines(&lines(&["x", "4", "", "p.gguf", "", "5000", "64", "extra", "more"]));
    assert_eq!(n, 7);
    assert_eq!(
        w.into_config(),
        Some(Config {
            model: Model::LlamaCpp {
                model_path: "p.gguf".to_string(),
                server_url: "http://localhost:8000".to_string(),
            },
            max_tokens: 64,
        })
    );
}

#[test]
fn feed_lines_that_run_out_leave_wizard_waiting() {
    let mut w = Wizard::new();
    let n = w.feed_lines(&lines(&["9", "3"]));
    assert_eq!(n, 2);
    assert!(!w.is_done());
    assert_eq!(w.prompt(), "Enter max tokens (1-4096): ");
    assert_eq!(w.into_config(), None);
    let mut e = Wizard::new();
    assert_eq!(e.feed_lines(&Vec::new()), 0);
    assert_eq!(e.into_config(), None);
}

#[test]
fn finished_wizard_has_empty_prompt() {
    let mut w = Wizard::new();
    w.feed_lines(&lines(&["1", "2"]));
    assert!(w.is_done());
    assert_eq!(w.prompt(), "");
}

#[test]
fn feedback_messages() {
    assert_eq!(Feedback::Accepted.message(), "");
    assert_eq!(Feedback::UnknownChoice.message(), "Invalid choice. Please try again.");
    assert_eq!(
        Feedback::InvalidMaxTokens.message(),
        "Invalid input. Please enter a number between 1 and 4096."
    );
    assert_eq!(
        Feedback::EmptyModelPath.message(),
        "Model path cannot be empty. Please try again."
    );
    assert!(!Feedback::Accepted.is_rejection());
    assert!(Feedback::UnknownChoice.is_rejection());
    assert!(Feedback::EmptyModelPath.is_rejection());
    assert!(Feedback::InvalidMaxTokens.is_rejection());
}

#[test]
fn menu_keys_on_trimmed_text() {
    assert!(matches!(choose_model("1"), MenuChoice::Picked(Model::OpenAiGpt4o)));
    assert!(matches!(choose_model("2"), MenuChoice::Picked(Model::OpenAiGpt4oMini)));
    assert!(matches!(choose_model("3"), MenuChoice::Picked(Model::Ollama(ref n)) if n == "llama3.1"));
    assert!(matches!(choose_model("4"), MenuChoice::LocalFile));
    assert!(matches!(choose_model(" 1"), MenuChoice::Unknown));
    assert!(matches!(choose_model(""), MenuChoice::Unknown));
    assert!(matches!(choose_model("5"), MenuChoice::Unknown));
}

#[test]
fn server_url_default_rule() {
    assert_eq!(server_url_or_default(""), "http://localhost:8000");
    assert_eq!(DEFAULT_SERVER_URL, "http://localhost:8000");
    assert_eq!(server_url_or_default("http://host:9000"), "http://host:9000");
}

#[test]
fn advance_moves_between_stages() {
    let (s, f) = advance(Stage::ChooseModel, "4");
    assert_eq!(f, Feedback::Accepted);
    assert!(matches!(s, Stage::EnterModelPath));
    let (s, f) = advance(s, "m.gguf");
    assert_eq!(f, Feedback::Accepted);
    assert!(matches!(s, Stage::EnterServerUrl { ref model_path } if model_path == "m.gguf"));
    let (s, _) = advance(s, "");
    let (s, f) = advance(s, "abc");
    assert_eq!(f, Feedback::InvalidMaxTokens);
    let (s, f) = advance(s, "33");
    assert_eq!(f, Feedback::Accepted);
    match s {
        Stage::Done { config } => assert_eq!(
            config,
            Config {
                model: Model::LlamaCpp {
                    model_path: "m.gguf".to_string(),
                    server_url: "http://localhost:8000".to_string(),
                },
                max_tokens: 33,
            }
        ),
        _ => panic!("wizard should be done"),
    }
}
