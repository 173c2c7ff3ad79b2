use neural_how::jsonio::finish_extraction;
use neural_how::Completion;
use neural_how::Question;

fn openai_completion() -> Completion {
    Question::new(String::from("q"), String::from("openai-ada-sk"))
        .deconstruct()
        .unwrap()
}

fn textsynth_completion() -> Completion {
    Question::new(String::from("q"), String::from("textsynth-gptj_6B-sk"))
        .deconstruct()
        .unwrap()
}

#[test]
fn openai_answer_is_at_choices_0_text() {
    let r = openai_completion().complete("{\"choices\":[{\"text\":\"ls -la\"}]}");
    assert_eq!(r, Ok(String::from("ls -la")));
}

#[test]
fn openai_empty_choices_is_a_parse_failure_with_raw_body() {
    let body = "{\"choices\":[]}";
    let r = openai_completion().complete(body);
    assert_eq!(r, Err(String::from(body)));
}

#[test]
fn openai_wrongly_shaped_text_is_a_parse_failure() {
    let body = "{\"choices\":[{\"text\":5}]}";
    let r = openai_completion().complete(body);
    assert_eq!(r, Err(String::from(body)));
}

#[test]
fn textsynth_answer_is_at_text() {
    let r = textsynth_completion().complete("{\"text\":\"ls -la\"}");
    assert_eq!(r, Ok(String::from("ls -la")));
}

#[test]
fn textsynth_empty_object_is_a_parse_failure_with_raw_body() {
    let r = textsynth_completion().complete("{}");
    assert_eq!(r, Err(String::from("{}")));
}

#[test]
fn textsynth_non_string_text_is_a_parse_failure() {
    let body = "{\"text\":[1,2]}";
    let r = textsynth_completion().complete(body);
    assert_eq!(r, Err(String::from(body)));
}

#[test]
fn unparsable_body_is_a_parse_failure_with_raw_body() {
    let r = textsynth_completion().complete("not json");
    assert_eq!(r, Err(String::from("not json")));
}

#[test]
fn providers_do_not_read_each_others_shape() {
    let r = openai_completion().complete("{\"text\":\"ls -la\"}");
    assert!(r.is_err());
    let r = textsynth_completion().complete("{\"choices\":[{\"text\":\"ls -la\"}]}");
    assert!(r.is_err());
}

#[test]
fn finish_extraction_keeps_the_found_answer() {
    assert_eq!(
        finish_extraction(Some(String::from("ls")), "raw"),
        Ok(String::from("ls"))
    );
    assert_eq!(
        finish_extraction(None, "raw"),
        Err(String::from("raw"))
    );
}
