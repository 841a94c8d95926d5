use omlx::ai::AiRequest;
use omlx::client::{ModelFamily, OmlxClient};
use omlx::exchange::ExchangeState;
use omlx::text::contains;

fn client(omlx_key: Option<&str>, llm_key: Option<&str>) -> OmlxClient {
    OmlxClient::new(
        "http://host/v1".to_string(),
        "gemma-4-27b-it".to_string(),
        131_072,
        8192,
        300,
        omlx_key.map(|k| k.to_string()),
        llm_key.map(|k| k.to_string()),
    )
}

fn bearer(omlx_key: Option<&str>, llm_key: Option<&str>) -> Option<String> {
    let request: AiRequest<f32> = AiRequest {
        system: None,
        messages: vec![],
        tools: None,
        temperature: None,
        response_format: None,
        context_tag: None,
    };
    client(omlx_key, llm_key).begin(request).0.bearer
}

#[test]
fn the_key_for_omlx_goes_first() {
    assert_eq!(bearer(Some("a"), Some("b")).as_deref(), Some("a"));
    assert_eq!(bearer(Some("a"), None).as_deref(), Some("a"));
    assert_eq!(bearer(None, Some("b")).as_deref(), Some("b"));
}

#[test]
fn an_empty_key_is_not_sent() {
    assert_eq!(bearer(None, None), None);
    assert_eq!(bearer(None, Some("")), None);
    assert_eq!(bearer(Some(""), Some("b")), None);
}

#[test]
fn an_exchange_begins_with_the_request_for_the_model() {
    let request = AiRequest {
        system: Some("Be brief.".to_string()),
        messages: vec![],
        tools: None,
        temperature: Some(0.5),
        response_format: None,
        context_tag: Some("tag".to_string()),
    };
    let (post, state) = client(None, None).begin(request);
    assert_eq!(post.url, "http://host/v1");
    assert_eq!(post.body.model, "gemma-4-27b-it");
    assert_eq!(post.body.max_tokens, Some(8192));
    assert_eq!(post.body.temperature, Some(0.5));
    assert_eq!(post.body.messages.len(), 1);
    assert!(matches!(state, ExchangeState::Sending { url } if url == "http://host/v1"));
}

#[test]
fn capabilities_are_those_of_the_client() {
    let capabilities = client(None, None).get_capabilities();
    assert_eq!(capabilities.model_name, "gemma-4-27b-it");
    assert_eq!(capabilities.context_window_size, 131_072);
    assert_eq!(client(None, None).api_timeout_secs(), 300);
}

#[test]
fn a_client_estimates_as_the_library_does() {
    let request: AiRequest<f32> = AiRequest {
        system: Some("four".to_string()),
        messages: vec![],
        tools: None,
        temperature: None,
        response_format: None,
        context_tag: None,
    };
    assert_eq!(client(None, None).estimate_tokens(&request, &|text: &str| text.len()), 4);
}

#[test]
fn the_default_endpoint_is_on_this_machine() {
    assert_eq!(
        OmlxClient::default_base_url(),
        "http://localhost:1993/v1/chat/completions"
    );
}

#[test]
fn every_model_has_the_same_default_context_window() {
    for model in ["qwen3.5-27b", "Gemma-4", "Llama-3", "mistral-7b", "phi", ""] {
        assert_eq!(OmlxClient::default_context_window_for_model(model), 131_072);
    }
}

#[test]
fn qwen_has_a_larger_default_of_output_tokens() {
    assert_eq!(OmlxClient::default_max_tokens_for_model("qwen3.5-27b"), 16_384);
    assert_eq!(OmlxClient::default_max_tokens_for_model("mlx/QWEN-é"), 16_384);
    assert_eq!(OmlxClient::default_max_tokens_for_model("gemma-4-27b-it"), 8192);
    assert_eq!(OmlxClient::default_max_tokens_for_model("llama"), 8192);
    assert_eq!(OmlxClient::default_max_tokens_for_model(""), 8192);
}

#[test]
fn a_family_is_known_by_the_first_word_that_fits() {
    assert_eq!(ModelFamily::of("Qwen3"), ModelFamily::Qwen);
    assert_eq!(ModelFamily::of("gemma-on-qwen"), ModelFamily::Qwen);
    assert_eq!(ModelFamily::of("GEMMA-4"), ModelFamily::Gemma);
    assert_eq!(ModelFamily::of("CodeLlama"), ModelFamily::Llama);
    assert_eq!(ModelFamily::of("Mistral-Nemo"), ModelFamily::Mistral);
    assert_eq!(ModelFamily::of("phi-4"), ModelFamily::Other);
    assert_eq!(ModelFamily::of_lowercase("Qwen3"), ModelFamily::Other);
}

#[test]
fn a_part_is_found_where_it_stands() {
    assert!(contains("abc", ""));
    assert!(contains("", ""));
    assert!(contains("abc", "abc"));
    assert!(contains("aab", "ab"));
    assert!(contains("über json", "json"));
    assert!(!contains("", "a"));
    assert!(!contains("ab", "abc"));
    assert!(!contains("a-b", "ab"));
}

#[test]
fn the_case_of_ascii_letters_in_a_name_does_not_matter() {
    for (a, b) in [
        ("qwen3", "QWEN3"),
        ("Gemma-ÉΣ", "gEMMA-ÉΣ"),
        ("ΟΔΟΣqwen", "ΟΔΟΣQWen"),
        ("phi", "PHI"),
    ] {
        assert!(a.eq_ignore_ascii_case(b));
        assert_eq!(ModelFamily::of(a), ModelFamily::of(b));
        assert_eq!(
            OmlxClient::default_max_tokens_for_model(a),
            OmlxClient::default_max_tokens_for_model(b)
        );
    }
    assert_eq!(OmlxClient::default_max_tokens_for_model("ΟΔΟΣQWen"), 16_384);
}
