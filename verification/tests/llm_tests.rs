use grass::error::GrassError;
use grass::llm::{
    truncate_string, GrassChatMessage, GrassChoice, GrassContentSanitizerFilter, GrassLlmRequest,
    GrassLlmResponse, GrassLlmService, GrassMessageRole, GrassRequestFilter, GrassResponseFilter,
    GrassStreamEvent, GrassSystemPromptFilter, GrassTokenLimitFilter, GrassUsage,
};
use grass::providers::{
    anthropic_request, anthropic_response, chat_request_body, chunk_event, cohere_request,
    cohere_response, delta_stream_event, fresh_response_id, gemini_request, gemini_response,
    hf_content, hf_prompt, hf_request, ollama_response, openai_response, openai_stream_event,
    stop_response, GrassAnthropicProvider, GrassAnthropicReply, GrassAzureOpenAiProvider,
    GrassAzureReply, GrassCohereProvider, GrassCohereReply, GrassCustomProvider,
    GrassGeminiCandidate, GrassGeminiProvider, GrassGeminiReply, GrassGeminiUsage,
    GrassHuggingFaceProvider, GrassOllamaProvider, GrassOllamaReply, GrassOpenAiProvider,
    GrassOpenAiReply,
};

fn msg(role: GrassMessageRole, content: &str) -> GrassChatMessage {
    GrassChatMessage { role, content: content.into(), name: None }
}

fn request(messages: Vec<GrassChatMessage>) -> GrassLlmRequest {
    GrassLlmRequest {
        model: "m1".into(),
        messages,
        temperature_bits: Some(0.5f32.to_bits()),
        max_tokens: None,
        stream: false,
        tools: None,
    }
}

fn response_with(contents: &[&str], total: u32) -> GrassLlmResponse {
    GrassLlmResponse {
        id: "r1".into(),
        model: "m1".into(),
        choices: contents
            .iter()
            .enumerate()
            .map(|(i, c)| GrassChoice {
                index: i as u32,
                message: msg(GrassMessageRole::Assistant, c),
                finish_reason: None,
            })
            .collect(),
        usage: GrassUsage { prompt_tokens: 0, completion_tokens: total, total_tokens: total },
    }
}

#[test]
fn test_system_prompt_filter() {
    let filter = GrassSystemPromptFilter {
        system_prompt: "Be helpful".into(),
    };
    let mut req = GrassLlmRequest {
        model: "gpt-4".into(),
        messages: vec![GrassChatMessage {
            role: GrassMessageRole::User,
            content: "hi".into(),
            name: None,
        }],
        temperature_bits: None,
        max_tokens: None,
        stream: false,
        tools: None,
    };
    filter.filter(&mut req);
    assert_eq!(req.messages.len(), 2);
    assert_eq!(req.messages[0].role, GrassMessageRole::System);
}

#[test]
fn system_prompt_filter_keeps_an_existing_system_message() {
    let filter = GrassSystemPromptFilter { system_prompt: "Be helpful".into() };
    let mut req = request(vec![msg(GrassMessageRole::User, "hi"), msg(GrassMessageRole::System, "own")]);
    filter.filter(&mut req);
    assert_eq!(req.messages.len(), 2);
    assert_eq!(req.messages[1].content, "own");
}

#[test]
fn test_llm_service_register() {
    let svc: GrassLlmService<GrassOpenAiProvider> = GrassLlmService::new();
    assert!(svc.list_providers().is_empty());
    assert!(svc.default_provider_name().is_none());
}

#[test]
fn llm_service_picks_the_first_provider_as_default() {
    let mut svc: GrassLlmService<u8> = GrassLlmService::new();
    assert_eq!(
        svc.completion_provider(),
        Err(GrassError::Llm("no default provider set".to_string()))
    );
    svc.register_provider("a", 1);
    svc.register_provider("b", 2);
    assert_eq!(svc.default_provider_name(), Some("a"));
    assert_eq!(svc.completion_provider(), Ok(&1));
    svc.set_default("c");
    assert_eq!(
        svc.completion_provider(),
        Err(GrassError::Llm("provider 'c' not found".to_string()))
    );
    assert_eq!(svc.list_providers(), vec!["a", "b"]);
    assert_eq!(svc.provider("b"), Some(&2));
}

#[test]
fn token_limit_filter_cuts_only_over_the_limit() {
    let long = "x".repeat(1500);
    let f = GrassTokenLimitFilter { max_tokens: 10 };
    let mut within = response_with(&[&long], 10);
    f.filter(&mut within);
    assert_eq!(within.choices[0].message.content.len(), 1500);
    let mut over = response_with(&[&long, "short"], 11);
    f.filter(&mut over);
    assert_eq!(over.choices[0].message.content.len(), 1000);
    assert_eq!(over.choices[1].message.content, "short");
    assert_eq!(truncate_string(&"héllo".to_string(), 3), "hé");
}

#[test]
fn sanitizer_strips_script_tags() {
    let mut r = response_with(&["a<script>b</script>c", "<scr<script>ipt>"], 1);
    GrassContentSanitizerFilter.filter(&mut r);
    assert_eq!(r.choices[0].message.content, "abc");
    assert_eq!(r.choices[1].message.content, "<script>");
}

#[test]
fn anthropic_request_moves_the_system_message() {
    let req = request(vec![
        msg(GrassMessageRole::System, "be brief"),
        msg(GrassMessageRole::User, "hi"),
        msg(GrassMessageRole::System, "ignored"),
        msg(GrassMessageRole::Assistant, "hello"),
    ]);
    let body = anthropic_request(&req, false);
    assert_eq!(body.system, Some("be brief".to_string()));
    assert_eq!(body.messages.len(), 2);
    assert_eq!(body.messages[0].content, "hi");
    assert_eq!(body.messages[1].content, "hello");
    assert_eq!(body.max_tokens, 4096);
    assert_eq!(body.temperature_bits, Some(0.5f32.to_bits()));
    let mut limited = request(vec![]);
    limited.max_tokens = Some(100);
    let body = anthropic_request(&limited, true);
    assert_eq!(body.max_tokens, 100);
    assert!(body.system.is_none());
    assert!(body.stream);
}

#[test]
fn anthropic_response_takes_the_first_block() {
    let r = anthropic_response(
        "sonnet-3".into(),
        GrassAnthropicReply {
            id: "a1".into(),
            content: vec!["first".into(), "second".into()],
            stop_reason: Some("end_turn".into()),
            input_tokens: 3,
            output_tokens: 4,
        },
    );
    assert_eq!(r.id, "a1");
    assert_eq!(r.model, "sonnet-3");
    assert_eq!(r.choices.len(), 1);
    assert_eq!(r.choices[0].message.content, "first");
    assert_eq!(r.choices[0].message.role, GrassMessageRole::Assistant);
    assert_eq!(r.choices[0].finish_reason, Some("end_turn".to_string()));
    assert_eq!(r.usage.total_tokens, 7);
    let empty = anthropic_response(
        "sonnet-3".into(),
        GrassAnthropicReply { id: "a2".into(), content: vec![], stop_reason: None, input_tokens: 0, output_tokens: 0 },
    );
    assert_eq!(empty.choices[0].message.content, "");
}

#[test]
fn cohere_request_splits_message_and_history() {
    let req = request(vec![
        msg(GrassMessageRole::System, "sys"),
        msg(GrassMessageRole::User, "q1"),
        msg(GrassMessageRole::Assistant, "a1"),
        msg(GrassMessageRole::Tool, "t1"),
        msg(GrassMessageRole::User, "q2"),
    ]);
    let body = cohere_request(&req);
    assert_eq!(body.message, "q2");
    let history = body.chat_history.unwrap();
    assert_eq!(history.len(), 2);
    assert_eq!((history[0].role.as_str(), history[0].message.as_str()), ("CHATBOT", "a1"));
    assert_eq!((history[1].role.as_str(), history[1].message.as_str()), ("USER", "t1"));
    let only_user = cohere_request(&request(vec![msg(GrassMessageRole::User, "q")]));
    assert!(only_user.chat_history.is_none());
    let nobody = cohere_request(&request(vec![]));
    assert_eq!(nobody.message, "");
}

#[test]
fn cohere_response_sums_the_tokens() {
    let r = cohere_response(
        "command".into(),
        GrassCohereReply { text: "answer".into(), generation_id: "g1".into(), tokens: Some((5, 6)) },
    );
    assert_eq!(r.id, "g1");
    assert_eq!(r.choices[0].message.content, "answer");
    assert_eq!(r.choices[0].finish_reason, Some("stop".to_string()));
    assert_eq!((r.usage.prompt_tokens, r.usage.completion_tokens, r.usage.total_tokens), (5, 6, 11));
    let r = cohere_response(
        "command".into(),
        GrassCohereReply { text: "x".into(), generation_id: "g2".into(), tokens: None },
    );
    assert_eq!(r.usage.total_tokens, 0);
}

#[test]
fn gemini_request_names_roles() {
    let body = gemini_request(&request(vec![
        msg(GrassMessageRole::System, "s"),
        msg(GrassMessageRole::User, "u"),
        msg(GrassMessageRole::Assistant, "a"),
    ]));
    let roles: Vec<&str> = body.contents.iter().map(|c| c.role.as_str()).collect();
    assert_eq!(roles, vec!["user", "user", "model"]);
    assert_eq!(body.contents[2].parts, vec!["a".to_string()]);
}

#[test]
fn gemini_response_reads_the_first_candidate() {
    let r = gemini_response(
        "id1".into(),
        "gemini-pro".into(),
        GrassGeminiReply {
            candidates: vec![GrassGeminiCandidate {
                parts: vec!["p1".into(), "p2".into()],
                finish_reason: Some("STOP".into()),
            }],
            usage: Some(GrassGeminiUsage { prompt_token_count: 1, candidates_token_count: 2, total_token_count: 9 }),
        },
    );
    assert_eq!(r.choices[0].message.content, "p1");
    assert_eq!(r.choices[0].finish_reason, Some("STOP".to_string()));
    assert_eq!(r.usage.total_tokens, 9);
    let none = gemini_response("id2".into(), "g".into(), GrassGeminiReply { candidates: vec![], usage: None });
    assert_eq!(none.choices[0].message.content, "");
    assert!(none.choices[0].finish_reason.is_none());
    assert_eq!(fresh_response_id().len(), 36);
}

#[test]
fn huggingface_prompt_lists_roles() {
    let msgs = vec![msg(GrassMessageRole::System, "s"), msg(GrassMessageRole::User, "hi")];
    assert_eq!(hf_prompt(&msgs), "System: s\nUser: hi");
    let body = hf_request(&request(msgs));
    assert!(!body.return_full_text);
    assert_eq!(hf_content("raw".into(), None), "raw");
    assert_eq!(hf_content("raw".into(), Some(vec!["gen".into()])), "gen");
    assert_eq!(hf_content("raw".into(), Some(vec![])), "");
    let r = stop_response("i".into(), "m".into(), "c".into());
    assert_eq!(r.choices[0].finish_reason, Some("stop".to_string()));
}

#[test]
fn openai_and_ollama_replies_carry_over() {
    let choice = GrassChoice { index: 2, message: msg(GrassMessageRole::Assistant, "x"), finish_reason: None };
    let r = openai_response(GrassOpenAiReply {
        id: "o1".into(),
        model: "gpt".into(),
        choices: vec![choice],
        usage: GrassUsage { prompt_tokens: 1, completion_tokens: 1, total_tokens: 2 },
    });
    assert_eq!(r.choices[0].index, 2);
    let r = ollama_response(
        "x1".into(),
        GrassOllamaReply { model: "llama".into(), message: msg(GrassMessageRole::Assistant, "y") },
    );
    assert_eq!(r.model, "llama");
    assert_eq!(r.choices[0].message.content, "y");
    let body = chat_request_body(request(vec![msg(GrassMessageRole::User, "q")]), true);
    assert!(body.stream);
    assert_eq!(body.messages.len(), 1);
}

#[test]
fn stream_chunks_become_events() {
    assert!(matches!(chunk_event("  [DONE]\n".into()), GrassStreamEvent::Done { .. }));
    match chunk_event("data".into()) {
        GrassStreamEvent::Delta { content } => assert_eq!(content, "data"),
        _ => panic!("expected a delta"),
    }
    assert!(matches!(openai_stream_event(b"[DONE]"), GrassStreamEvent::Done { .. }));
    match delta_stream_event(b"[DONE]") {
        GrassStreamEvent::Delta { content } => assert_eq!(content, "[DONE]"),
        _ => panic!("expected a delta"),
    }
    match openai_stream_event(&[0x61, 0xff]) {
        GrassStreamEvent::Delta { content } => assert_eq!(content, "a\u{fffd}"),
        _ => panic!("expected a delta"),
    }
}

#[test]
fn provider_endpoints() {
    let p = GrassOpenAiProvider::new("k").with_base_url("http://h");
    assert_eq!(p.completions_url(), "http://h/chat/completions");
    assert_eq!(p.authorization(), "Bearer k");
    assert_eq!(GrassAnthropicProvider::new("k").messages_url(), "https://api.anthropic.com/v1/messages");
    let az = GrassAzureOpenAiProvider::new("k", "https://az", "dep").with_api_version("v1");
    assert_eq!(az.completions_url(), "https://az/openai/deployments/dep/chat/completions?api-version=v1");
    let r = az.azure_response(GrassAzureReply {
        id: "z".into(),
        choices: vec![],
        usage: GrassUsage { prompt_tokens: 0, completion_tokens: 0, total_tokens: 0 },
    });
    assert_eq!(r.model, "dep");
    assert_eq!(GrassCohereProvider::new("k").chat_url(), "https://api.cohere.ai/v1/chat");
    assert_eq!(
        GrassGeminiProvider::new("k").generate_url("gem"),
        "https://generativelanguage.googleapis.com/v1beta/models/gem:generateContent?key=k"
    );
    assert_eq!(
        GrassHuggingFaceProvider::new("k").model_url("gpt2"),
        "https://api-inference.huggingface.co/models/gpt2"
    );
    assert_eq!(GrassOllamaProvider::new("http://o").chat_url(), "http://o/api/chat");
    let c = GrassCustomProvider::new("mine", "http://c").with_header("X", "1").with_header("X", "2");
    assert_eq!(c.name(), "mine");
    assert_eq!(c.headers().get("X"), Some(&"2".to_string()));
    assert_eq!(c.headers().len(), 1);
}
