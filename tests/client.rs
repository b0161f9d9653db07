use openapi::client::{OpenAPIClient, ResponseStep, STATUS_OK};
use openapi::errors::Errors;
use openapi::requests::completion::{Choice, CompletionResponse, Usage};
use openapi::settings::APISettings;

fn sample_response() -> CompletionResponse {
    CompletionResponse {
        id: "cmpl-1".to_string(),
        object: "text_completion".to_string(),
        created: 1_670_000_000,
        model: "text-similarity-davinci-001".to_string(),
        choices: vec![
            Choice {
                text: "first".to_string(),
                index: 0,
                log_probs: None,
                finish_reason: "length".to_string(),
            },
            Choice {
                text: "second".to_string(),
                index: 1,
                log_probs: Some("x".to_string()),
                finish_reason: "stop".to_string(),
            },
        ],
        usage: Usage { prompt_tokens: 5, completion_tokens: 7, total_tokens: 12 },
    }
}

#[test]
fn post_joins_host_and_path_and_authenticates() {
    let settings = APISettings::new("sk-abc".to_string(), None).set_host("http://127.0.0.1:9".to_string());
    let client = OpenAPIClient::new(settings).unwrap();
    let p = client.post("/completions", vec![123, 125]);
    assert_eq!(p.url, "http://127.0.0.1:9/completions");
    assert_eq!(p.content_type, "application/json");
    assert_eq!(p.bearer_token, "sk-abc");
    assert_eq!(p.body, vec![123, 125]);
}

#[test]
fn post_does_not_normalise_the_path() {
    let settings = APISettings::new("k".to_string(), None);
    let client = OpenAPIClient::new(settings).unwrap();
    let p = client.post("completions", Vec::new());
    assert_eq!(p.url, "https://api.openai.com/v1completions");
}

#[test]
fn success_status_asks_for_the_body() {
    assert_eq!(STATUS_OK, 200);
    assert!(matches!(OpenAPIClient::handle_status(200), ResponseStep::DecodeBody));
}

#[test]
fn failure_statuses_give_request_failed() {
    for status in [401u16, 429, 500, 201, 301, 404] {
        match OpenAPIClient::handle_status(status) {
            ResponseStep::Fail(Errors::Message(m)) => assert_eq!(m, "Something went wrong"),
            other => panic!("status {} gave {:?}", status, other),
        }
    }
}

#[test]
fn decoded_body_is_returned_unchanged() {
    let r = OpenAPIClient::handle_body(Ok(sample_response())).unwrap();
    assert_eq!(r, sample_response());
    assert_eq!(r.choices[0].text, "first");
    assert_eq!(r.choices[1].index, 1);
    assert_eq!(r.usage.total_tokens, r.usage.prompt_tokens + r.usage.completion_tokens);
}

#[test]
fn malformed_body_is_a_decoding_error() {
    let bad = serde_json::from_str::<serde_json::Value>("{\"id\": ").unwrap_err();
    let r = OpenAPIClient::handle_body::<CompletionResponse>(Err(bad));
    assert!(matches!(r, Err(Errors::Json(_))));
    assert!(!matches!(r, Err(Errors::RequestError(_))));
}
