use openapi::models::Models;
use openapi::requests::completion::{
    Completion, CompletionRequest, Ieee32, WireCompletionRequest, IEEE32_ONE_BITS,
};
use openapi::settings::APISettings;

fn custom_request() -> CompletionRequest {
    CompletionRequest {
        engine: Models::CodeSearchAdaText001,
        prompt: "Say hi".to_string(),
        suffix: Some("end".to_string()),
        temperature: Ieee32 { bits: 0.7f32.to_bits() },
        top_p: Ieee32 { bits: 0.9f32.to_bits() },
        max_token: 64,
        n: 2,
        stream: false,
        log_probs: Some(3),
        echo: true,
        stop: Some("\n".to_string()),
        presence_penalty: Ieee32 { bits: (-1.5f32).to_bits() },
        best_of: 4,
        user: Some("user-42".to_string()),
    }
}

#[test]
fn default_request_has_the_documented_values() {
    let r = CompletionRequest::default();
    assert_eq!(r.engine, Models::TextSimilarityDavinci001);
    assert_eq!(r.prompt, "");
    assert_eq!(r.suffix, None);
    assert_eq!(f32::from_bits(r.temperature.bits), 0.0);
    assert_eq!(f32::from_bits(r.top_p.bits), 1.0);
    assert_eq!(IEEE32_ONE_BITS, 1.0f32.to_bits());
    assert_eq!(r.max_token, 2048);
    assert_eq!(r.n, 1);
    assert!(!r.stream);
    assert_eq!(r.log_probs, None);
    assert!(!r.echo);
    assert_eq!(r.stop, None);
    assert_eq!(f32::from_bits(r.presence_penalty.bits), 0.0);
    assert_eq!(r.best_of, 1);
    assert_eq!(r.user, None);
}

#[test]
fn wire_record_uses_the_api_names() {
    let w = custom_request().to_wire();
    assert_eq!(w.model, "code-search-ada-text-001");
    assert_eq!(w.max_tokens, 64);
    assert_eq!(w.logprobs, Some(3));
    assert_eq!(w.prompt, "Say hi");
    assert_eq!(f32::from_bits(w.presence_penalty.bits), -1.5);
}

#[test]
fn wire_round_trip_keeps_every_field() {
    let back = CompletionRequest::from_wire(custom_request().to_wire());
    assert_eq!(back, Some(custom_request()));
    let back = CompletionRequest::from_wire(CompletionRequest::default().to_wire());
    assert_eq!(back, Some(CompletionRequest::default()));
}

#[test]
fn wire_record_with_unknown_model_is_refused() {
    let mut w: WireCompletionRequest = custom_request().to_wire();
    w.model = "davinci-002".to_string();
    assert_eq!(CompletionRequest::from_wire(w), None);
}

#[test]
fn clone_keeps_every_field() {
    assert_eq!(custom_request().clone(), custom_request());
}

#[test]
fn execute_varies_only_the_prompt() {
    let mut c = Completion::new(APISettings::new("k".to_string(), None)).unwrap();
    c.save_settings(custom_request());
    let first = c.execute("one".to_string());
    assert_eq!(first.prompt, "one");
    let second = c.execute("two".to_string());
    let mut expected = custom_request();
    expected.prompt = "two".to_string();
    assert_eq!(second, expected);
    assert_eq!(c.base, expected);
}

#[test]
fn new_facade_starts_from_the_default_template() {
    let c = Completion::new(APISettings::new("k".to_string(), None)).unwrap();
    assert_eq!(c.base, CompletionRequest::default());
    assert_eq!(c.client.settings.secret_key, "k");
}

#[test]
fn execute_with_leaves_the_template_alone() {
    let mut c = Completion::new(APISettings::new("k".to_string(), None)).unwrap();
    c.execute("kept".to_string());
    let sent = c.execute_with(custom_request());
    assert_eq!(sent, custom_request());
    assert_eq!(c.base.prompt, "kept");
    assert_eq!(c.base.engine, Models::TextSimilarityDavinci001);
}

#[test]
fn completion_calls_go_to_the_completion_endpoint() {
    let settings = APISettings::new("sk-9".to_string(), None).set_host("http://h".to_string());
    let c = Completion::new(settings).unwrap();
    let p = c.completions_post(vec![1, 2, 3]);
    assert_eq!(p.url, "http://h/completions");
    assert_eq!(p.content_type, "application/json");
    assert_eq!(p.bearer_token, "sk-9");
    assert_eq!(p.body, vec![1, 2, 3]);
}
