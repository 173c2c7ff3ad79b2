use neural_how::CompletionProvider;
use neural_how::Question;

fn q(text: &str, token: &str) -> Question {
    Question::new(String::from(text), String::from(token))
}

#[test]
fn no_separator_fails_and_returns_question_unchanged() {
    let r = q("list files", "plaintoken").deconstruct();
    match r {
        Ok(_) => panic!("token without separator must not decode"),
        Err(back) => {
            assert_eq!(back.question, "list files");
            assert_eq!(back.token, "plaintoken");
        }
    }
}

#[test]
fn unknown_tag_fails_and_returns_question_unchanged() {
    let r = q("list files", "custom-gptj_6B-secret").deconstruct();
    match r {
        Ok(_) => panic!("unknown provider tag must not decode"),
        Err(back) => {
            assert_eq!(back.question, "list files");
            assert_eq!(back.token, "custom-gptj_6B-secret");
        }
    }
}

#[test]
fn empty_token_fails() {
    assert!(q("x", "").deconstruct().is_err());
}

#[test]
fn empty_engine_fails() {
    assert!(q("x", "openai-").deconstruct().is_err());
    assert!(q("x", "openai--sk").deconstruct().is_err());
    assert!(q("x", "textsynth-").deconstruct().is_err());
}

#[test]
fn openai_engine_underscores_become_hyphens() {
    let c = q("list files", "openai-text_davinci_003-sk-XYZ").deconstruct().unwrap();
    assert_eq!(c.provider(), CompletionProvider::OpenAI);
    assert_eq!(c.engine(), "text-davinci-003");
    assert_eq!(c.secret(), "sk-XYZ");
    assert_eq!(c.max_tokens(), 256);
}

#[test]
fn textsynth_engine_passes_through_and_secret_rejoins() {
    let c = q("list files", "textsynth-gptj_6B-abc-def").deconstruct().unwrap();
    assert_eq!(c.provider(), CompletionProvider::TextSynth { top_k: 1 });
    assert_eq!(c.engine(), "gptj_6B");
    assert_eq!(c.secret(), "abc-def");
}

#[test]
fn missing_secret_is_empty() {
    let c = q("x", "openai-ada").deconstruct().unwrap();
    assert_eq!(c.engine(), "ada");
    assert_eq!(c.secret(), "");
}

#[test]
fn prompt_and_stop_are_templated() {
    let c = q("list files", "openai-ada-sk").deconstruct().unwrap();
    assert_eq!(c.prompt(), "how list files\nA:\n```bash\n");
    assert_eq!(c.stop(), "\n```");
}
