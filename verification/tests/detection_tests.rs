use fortified_llm_client::{detect_provider_type, ProviderType};

#[test]
fn test_detect_ollama_by_path() {
    let url = "http://localhost:11434/api/generate";
    assert!(matches!(detect_provider_type(url), ProviderType::Ollama));
}

#[test]
fn test_detect_openai_by_path() {
    let url = "https://api.openai.com/v1/chat/completions";
    assert!(matches!(detect_provider_type(url), ProviderType::OpenAI));
}

#[test]
fn test_detect_ollama_by_port() {
    let url = "http://localhost:11434";
    assert!(matches!(detect_provider_type(url), ProviderType::Ollama));

    let url = "http://127.0.0.1:11434";
    assert!(matches!(detect_provider_type(url), ProviderType::Ollama));
}

#[test]
fn test_detect_default_openai() {
    let url = "https://api.example.com";
    assert!(matches!(detect_provider_type(url), ProviderType::OpenAI));
}

#[test]
fn test_path_overrides_port() {
    // Port says Ollama, but path says OpenAI → path wins
    let url = "http://localhost:11434/v1/chat/completions";
    assert!(matches!(detect_provider_type(url), ProviderType::OpenAI));
}

#[test]
fn test_provider_detection_ollama_localhost() {
    let url = "http://localhost:11434/api/generate";
    let provider_type = detect_provider_type(url);
    assert!(matches!(provider_type, ProviderType::Ollama));
}

#[test]
fn test_provider_detection_ollama_ip() {
    let url = "http://127.0.0.1:11434/api/generate";
    let provider_type = detect_provider_type(url);
    assert!(matches!(provider_type, ProviderType::Ollama));
}

#[test]
fn test_provider_detection_openai() {
    let url = "https://api.openai.com/v1/chat/completions";
    let provider_type = detect_provider_type(url);
    assert!(matches!(provider_type, ProviderType::OpenAI));
}

#[test]
fn test_provider_detection_groq() {
    let url = "https://api.groq.com/openai/v1/chat/completions";
    let provider_type = detect_provider_type(url);
    assert!(matches!(provider_type, ProviderType::OpenAI));
}

#[test]
fn test_provider_detection_azure() {
    let url = "https://myresource.openai.azure.com/openai/deployments/gpt-4/chat/completions";
    let provider_type = detect_provider_type(url);
    assert!(matches!(provider_type, ProviderType::OpenAI));
}

#[test]
fn test_provider_detection_ollama_openai_compat_endpoint() {
    // Path-based detection should respect explicit /v1/chat/completions endpoint
    // even on localhost:11434
    let url = "http://localhost:11434/v1/chat/completions";
    let provider_type = detect_provider_type(url);
    assert!(matches!(provider_type, ProviderType::OpenAI));
}

#[test]
fn test_provider_detection_ollama_native_endpoint() {
    // Explicit /api/generate path should always use Ollama format
    let url = "http://localhost:11434/api/generate";
    let provider_type = detect_provider_type(url);
    assert!(matches!(provider_type, ProviderType::Ollama));
}

#[test]
fn test_provider_detection_ollama_port_fallback() {
    // Without explicit path, localhost:11434 falls back to Ollama
    let url = "http://localhost:11434";
    let provider_type = detect_provider_type(url);
    assert!(matches!(provider_type, ProviderType::Ollama));
}

#[test]
fn test_provider_detection_path_takes_precedence() {
    // Path-based detection should override port-based detection
    let url = "http://localhost:11434/v1/chat/completions";
    let provider_type = detect_provider_type(url);
    assert!(
        matches!(provider_type, ProviderType::OpenAI),
        "Path /v1/chat/completions should override port 11434 detection"
    );
}

#[test]
fn test_detection_edges() {
    assert_eq!(detect_provider_type(""), ProviderType::OpenAI);
    // The first path rule wins where both paths occur.
    assert_eq!(
        detect_provider_type("http://h/v1/chat/completions?next=/api/generate"),
        ProviderType::Ollama
    );
    assert_eq!(
        detect_provider_type("http://ollama-server.local:8080/api/generate"),
        ProviderType::Ollama
    );
    assert_eq!(
        detect_provider_type("http://localhost:1143"),
        ProviderType::OpenAI
    );
}
