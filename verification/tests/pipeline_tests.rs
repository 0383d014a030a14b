use embedding_service::config::Config;
use embedding_service::decimal::usize_to_string;
use embedding_service::error::AppError;
use embedding_service::handlers::{
    admit_request, extract_texts, finish_request, models_listing, token_total, validate_texts,
    EncodeResult, ValidationError,
};
use embedding_service::models::{EmbeddingInput, EmbeddingRequest};

#[test]
fn test_accurate_token_counting() {
    // Test that we're now using accurate tokenizer-based counting
    // This test will verify the new encode_with_stats integration
    let text = "Hello world test";
    let _texts = vec![text.to_string()];

    // Note: This test would require a model instance to fully test
    // For now, we verify the concept that tokenizer counting differs from word counting
    let word_count = text.split_whitespace().count();
    assert_eq!(word_count, 3);

    // Tokenizer-based counting might be different (e.g., subword tokenization)
    // The actual count depends on the model's tokenizer
    let empty_text = "";
    let empty_word_count = empty_text.split_whitespace().count();
    assert_eq!(empty_word_count, 0);

    let multi_space_text = "Hello   world";
    let multi_space_word_count = multi_space_text.split_whitespace().count();
    assert_eq!(multi_space_word_count, 2);
}

#[test]
fn test_extract_texts_normalizes_single_string() {
    let texts = extract_texts(EmbeddingInput::Single("hello world".to_string()));
    assert_eq!(texts, vec!["hello world".to_string()]);

    let texts = extract_texts(EmbeddingInput::Batch(vec![
        "hello".to_string(),
        "world".to_string(),
    ]));
    assert_eq!(texts, vec!["hello".to_string(), "world".to_string()]);
}

#[test]
fn test_empty_batch_is_rejected() {
    let r = validate_texts(&Vec::new(), 100, 8192);
    assert_eq!(r, Err(ValidationError::EmptyInput));
}

#[test]
fn test_empty_single_string_is_accepted() {
    let r = validate_texts(&vec![String::new()], 100, 8192);
    assert_eq!(r, Ok(()));
}

#[test]
fn test_batch_size_boundary() {
    let texts: Vec<String> = (0..3).map(|i| format!("text{}", i)).collect();

    // A batch of exactly the maximum passes; one more fails.
    assert_eq!(validate_texts(&texts, 3, 8192), Ok(()));
    assert_eq!(
        validate_texts(&texts, 2, 8192),
        Err(ValidationError::BatchTooLarge)
    );
}

#[test]
fn test_input_length_boundary() {
    let text = "a".repeat(10);

    // A text of exactly the maximum byte length passes; one more fails.
    assert_eq!(validate_texts(&vec![text.clone()], 100, 10), Ok(()));
    assert_eq!(
        validate_texts(&vec![text], 100, 9),
        Err(ValidationError::InputTooLong)
    );
}

#[test]
fn test_input_length_counts_bytes_not_characters() {
    // Four characters, eight bytes: the limit is measured in bytes.
    let text = "\u{e9}\u{e9}\u{e9}\u{e9}".repeat(1);
    assert_eq!(text.chars().count(), 4);
    assert_eq!(text.len(), 8);

    assert_eq!(validate_texts(&vec![text.clone()], 100, 8), Ok(()));
    assert_eq!(
        validate_texts(&vec![text], 100, 7),
        Err(ValidationError::InputTooLong)
    );
}

#[test]
fn test_emptiness_is_checked_before_batch_size() {
    // With a maximum batch size of zero, an empty batch is still reported
    // as empty, not as oversized: the first failing check wins.
    let r = validate_texts(&Vec::new(), 0, 8192);
    assert_eq!(r, Err(ValidationError::EmptyInput));
}

#[test]
fn test_admit_request_empty_input_envelope() {
    let request = EmbeddingRequest {
        input: EmbeddingInput::Batch(Vec::new()),
        model: Some("test-model".to_string()),
    };
    let r = admit_request(request, 100, 8192);
    let (status, body) = r.err().expect("an empty batch must be rejected");

    assert_eq!(status, 400);
    assert_eq!(body.error.message, "Input cannot be empty");
    assert_eq!(body.error.error_type, "invalid_request_error");
    assert_eq!(body.error.code.as_deref(), Some("empty_input"));
}

#[test]
fn test_admit_request_oversized_batch_envelope() {
    let request = EmbeddingRequest {
        input: EmbeddingInput::Batch(vec![
            "text1".to_string(),
            "text2".to_string(),
            "text3".to_string(),
        ]),
        model: Some("test-model".to_string()),
    };
    let r = admit_request(request, 2, 8192);
    let (status, body) = r.err().expect("an oversized batch must be rejected");

    assert_eq!(status, 400);
    assert_eq!(body.error.message, "Batch size exceeds maximum of 2");
    assert_eq!(body.error.error_type, "invalid_request_error");
    assert_eq!(body.error.code.as_deref(), Some("batch_too_large"));
}

#[test]
fn test_admit_request_oversized_text_envelope() {
    let request = EmbeddingRequest {
        input: EmbeddingInput::Single("a".repeat(20)),
        model: Some("test-model".to_string()),
    };
    let r = admit_request(request, 100, 10);
    let (status, body) = r.err().expect("an oversized text must be rejected");

    assert_eq!(status, 400);
    assert_eq!(body.error.message, "Input exceeds maximum length of 10");
    assert_eq!(body.error.error_type, "invalid_request_error");
    assert_eq!(body.error.code.as_deref(), Some("input_too_long"));
}

#[test]
fn test_admit_request_passes_texts_through_in_order() {
    let request = EmbeddingRequest {
        input: EmbeddingInput::Batch(vec!["First text".to_string(), "Second text".to_string()]),
        model: Some("test-model".to_string()),
    };
    let (texts, hint) = admit_request(request, 100, 8192)
        .ok()
        .expect("a small batch is admitted");
    assert_eq!(texts, vec!["First text".to_string(), "Second text".to_string()]);
    assert_eq!(hint.as_deref(), Some("test-model"));
}

#[test]
fn test_token_total_sums_counts() {
    assert_eq!(token_total(&vec![2, 1]), Some(3));
    assert_eq!(token_total(&Vec::new()), Some(0));
    assert_eq!(token_total(&vec![0, 0, 0]), Some(0));
}

#[test]
fn test_token_total_reports_overflow() {
    assert_eq!(token_total(&vec![usize::MAX, 1]), None);
    assert_eq!(token_total(&vec![usize::MAX]), Some(usize::MAX));
}

#[test]
fn test_response_is_index_aligned() {
    let result = EncodeResult {
        embeddings: vec![vec![0.1f32, 0.2], vec![0.3f32, 0.4]],
        token_counts: vec![2, 2],
    };
    let response = finish_request(Ok(result), Some("test-model".to_string()), "test-model")
        .ok()
        .expect("a successful encode yields a response");

    assert_eq!(response.object, "list");
    assert_eq!(response.data.len(), 2);
    assert_eq!(response.data[0].index, 0);
    assert_eq!(response.data[1].index, 1);
    assert_eq!(response.data[0].object, "embedding");
    assert_eq!(response.data[0].embedding, vec![0.1f32, 0.2]);
    assert_eq!(response.data[1].embedding, vec![0.3f32, 0.4]);
    assert_eq!(response.usage.prompt_tokens, 4);
    assert_eq!(response.usage.total_tokens, 4);
}

#[test]
fn test_usage_sums_reported_token_counts() {
    // Input ["a b", "c"] with an encoder reporting counts [2, 1].
    let result = EncodeResult {
        embeddings: vec![vec![1.0f32], vec![2.0f32]],
        token_counts: vec![2, 1],
    };
    let response = finish_request(Ok(result), None, "test-model")
        .ok()
        .expect("a successful encode yields a response");

    assert_eq!(response.usage.total_tokens, 3);
    assert_eq!(response.usage.prompt_tokens, 3);
}

#[test]
fn test_empty_string_yields_zero_usage() {
    // An empty single string is admitted, and an encoder reporting a
    // zero token count for it yields zero usage.
    let request = EmbeddingRequest {
        input: EmbeddingInput::Single(String::new()),
        model: Some("test-model".to_string()),
    };
    let (texts, hint) = admit_request(request, 100, 8192)
        .ok()
        .expect("an empty single string is admitted");
    assert_eq!(texts, vec![String::new()]);

    let result = EncodeResult {
        embeddings: vec![vec![0.0f32; 4]],
        token_counts: vec![0],
    };
    let response = finish_request(Ok(result), hint, "test-model")
        .ok()
        .expect("a successful encode yields a response");

    assert_eq!(response.data.len(), 1);
    assert_eq!(response.usage.prompt_tokens, 0);
    assert_eq!(response.usage.total_tokens, 0);
}

#[test]
fn test_model_hint_echoed_and_default_applied() {
    let result = || EncodeResult {
        embeddings: vec![vec![1.0f32]],
        token_counts: vec![1],
    };

    let hinted = finish_request(Ok(result()), Some("client-model".to_string()), "server-model")
        .ok()
        .expect("a successful encode yields a response");
    assert_eq!(hinted.model, "client-model");

    let defaulted = finish_request(Ok(result()), None, "server-model")
        .ok()
        .expect("a successful encode yields a response");
    assert_eq!(defaulted.model, "server-model");
}

#[test]
fn test_identical_inputs_yield_identical_responses() {
    let result = || EncodeResult {
        embeddings: vec![vec![0.25f32, -1.5], vec![3.75f32]],
        token_counts: vec![2, 1],
    };

    let first = finish_request(Ok(result()), None, "test-model").ok().unwrap();
    let second = finish_request(Ok(result()), None, "test-model").ok().unwrap();

    assert_eq!(first.object, second.object);
    assert_eq!(first.model, second.model);
    assert_eq!(first.usage.prompt_tokens, second.usage.prompt_tokens);
    assert_eq!(first.usage.total_tokens, second.usage.total_tokens);
    assert_eq!(first.data.len(), second.data.len());
    for (a, b) in first.data.iter().zip(second.data.iter()) {
        assert_eq!(a.object, b.object);
        assert_eq!(a.index, b.index);
        assert_eq!(a.embedding, b.embedding);
    }
}

#[test]
fn test_worker_failure_becomes_server_error() {
    let outcome: Result<EncodeResult<Vec<f32>>, String> = Err("task panicked".to_string());
    let (status, body) = finish_request(outcome, None, "test-model")
        .err()
        .expect("a worker failure must be reported");

    assert_eq!(status, 500);
    assert_eq!(
        body.error.message,
        "Embedding generation task failed: task panicked"
    );
    assert_eq!(body.error.error_type, "server_error");
    assert!(body.error.code.is_none());
}

#[test]
fn test_app_error_mapping() {
    let (status, body) = AppError::ModelError("bad weights".to_string()).into_response();
    assert_eq!(status, 500);
    assert_eq!(body.error.message, "Model inference failed: bad weights");
    assert_eq!(body.error.error_type, "server_error");
    assert!(body.error.code.is_none());

    let (status, body) = AppError::InvalidInput("no such field".to_string()).into_response();
    assert_eq!(status, 400);
    assert_eq!(body.error.message, "no such field");
    assert_eq!(body.error.error_type, "invalid_request_error");
    assert!(body.error.code.is_none());

    let (status, body) = AppError::InternalServerError("out of memory".to_string()).into_response();
    assert_eq!(status, 500);
    assert_eq!(body.error.message, "out of memory");
    assert_eq!(body.error.error_type, "server_error");
    assert!(body.error.code.is_none());
}

#[test]
fn test_models_listing_shape() {
    let listing = models_listing("test-model");

    assert_eq!(listing.object, "list");
    assert_eq!(listing.data.len(), 1);
    assert_eq!(listing.data[0].id, "test-model");
    assert_eq!(listing.data[0].object, "model");
    assert_eq!(listing.data[0].owned_by, "local");
}

#[test]
fn test_decimal_rendering() {
    assert_eq!(usize_to_string(0), "0");
    assert_eq!(usize_to_string(7), "7");
    assert_eq!(usize_to_string(10), "10");
    assert_eq!(usize_to_string(100), "100");
    assert_eq!(usize_to_string(8192), "8192");
}

#[test]
fn test_default_config_values() {
    let config = Config::default();

    assert_eq!(config.host, "127.0.0.1");
    assert_eq!(config.port, 8080);
    assert_eq!(config.model_path, "minishlab/potion-base-8M");
    assert!(config.auth_key.is_none());
    assert!(config.cors_origins.is_none());
    assert!(!config.cors_allow_credentials);
    assert_eq!(config.max_batch_size, 100);
    assert_eq!(config.max_input_length, 8192);
    assert_eq!(config.max_request_size_mb, 8);
    assert!(!config.normalize_embeddings);
}
