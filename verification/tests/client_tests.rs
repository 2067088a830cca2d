use ollama_tui::ollama::client::{
    Method, Operation, PULL_TIMEOUT_SECS, REQUEST_TIMEOUT_SECS,
};
use ollama_tui::ollama::OllamaClient;

#[test]
fn each_operation_has_its_endpoint() {
    let client = OllamaClient::new("http://localhost:11434");
    assert_eq!(client.url(Operation::CheckHealth), "http://localhost:11434/api/tags");
    assert_eq!(client.url(Operation::ListModels), "http://localhost:11434/api/tags");
    assert_eq!(client.url(Operation::ListRunningModels), "http://localhost:11434/api/ps");
    assert_eq!(client.url(Operation::Generate), "http://localhost:11434/api/generate");
    assert_eq!(client.url(Operation::PullModel), "http://localhost:11434/api/pull");
    assert_eq!(client.url(Operation::DeleteModel), "http://localhost:11434/api/delete");
    assert_eq!(client.url(Operation::ShowModel), "http://localhost:11434/api/show");
    assert_eq!(client.url(Operation::UnloadAllModels), "http://localhost:11434/api/generate");
    assert_eq!(Operation::ShowModel.endpoint_path(), "/api/show");
    assert_eq!(OllamaClient::new("").url(Operation::ListModels), "/api/tags");
}

#[test]
fn each_operation_has_its_method() {
    assert_eq!(Operation::CheckHealth.http_method(), Method::Get);
    assert_eq!(Operation::ListModels.http_method(), Method::Get);
    assert_eq!(Operation::ListRunningModels.http_method(), Method::Get);
    assert_eq!(Operation::Generate.http_method(), Method::Post);
    assert_eq!(Operation::PullModel.http_method(), Method::Post);
    assert_eq!(Operation::DeleteModel.http_method(), Method::Delete);
    assert_eq!(Operation::ShowModel.http_method(), Method::Post);
    assert_eq!(Operation::UnloadAllModels.http_method(), Method::Post);
}

#[test]
fn pulling_may_take_half_an_hour() {
    assert_eq!(REQUEST_TIMEOUT_SECS, 30);
    assert_eq!(PULL_TIMEOUT_SECS, 1800);
    assert_eq!(Operation::PullModel.timeout_secs(), 1800);
    for operation in [
        Operation::CheckHealth,
        Operation::ListModels,
        Operation::ListRunningModels,
        Operation::Generate,
        Operation::DeleteModel,
        Operation::ShowModel,
        Operation::UnloadAllModels,
    ] {
        assert_eq!(operation.timeout_secs(), 30);
    }
}

#[test]
fn health_is_a_successful_reply() {
    let client = OllamaClient::new("http://localhost:11434");
    assert!(client.check_health(Some(200)));
    assert!(client.check_health(Some(204)));
    assert!(client.check_health(Some(299)));
    assert!(!client.check_health(Some(199)));
    assert!(!client.check_health(Some(300)));
    assert!(!client.check_health(Some(404)));
    assert!(!client.check_health(Some(500)));
    assert!(!client.check_health(None));
}

#[test]
fn a_refusal_is_reported_with_its_status() {
    let client = OllamaClient::new("http://localhost:11434");
    assert_eq!(client.check_status(Operation::ListModels, 200, "200 OK"), Ok(()));
    assert_eq!(
        client.check_status(Operation::ListModels, 404, "404 Not Found"),
        Err("Failed to list models: 404 Not Found".to_string())
    );
    assert_eq!(
        client.check_status(Operation::ListRunningModels, 500, "500 Internal Server Error"),
        Err("Failed to list running models: 500 Internal Server Error".to_string())
    );
    assert_eq!(
        client.check_status(Operation::Generate, 400, "400 Bad Request"),
        Err("Failed to generate: 400 Bad Request".to_string())
    );
    assert_eq!(
        client.check_status(Operation::PullModel, 300, "300 Multiple Choices"),
        Err("Failed to pull model: 300 Multiple Choices".to_string())
    );
    assert_eq!(
        client.check_status(Operation::DeleteModel, 199, "199"),
        Err("Failed to delete model: 199".to_string())
    );
    assert_eq!(
        client.check_status(Operation::ShowModel, 404, "404 Not Found"),
        Err("Failed to show model: 404 Not Found".to_string())
    );
    assert_eq!(
        client.check_status(Operation::CheckHealth, 503, "503 Service Unavailable"),
        Err("Failed to check health: 503 Service Unavailable".to_string())
    );
}

#[test]
fn unloading_tolerates_a_refusal() {
    let client = OllamaClient::new("http://localhost:11434");
    assert_eq!(client.check_status(Operation::UnloadAllModels, 400, "400 Bad Request"), Ok(()));
    assert_eq!(client.check_status(Operation::UnloadAllModels, 200, "200 OK"), Ok(()));
}

#[test]
fn requests_name_the_model() {
    let client = OllamaClient::new("http://localhost:11434");
    let pull = client.pull_request("llama3.2");
    assert_eq!(pull.name, "llama3.2");
    assert_eq!(pull.stream, Some(false));
    assert_eq!(client.delete_request("mistral:7b").name, "mistral:7b");
    assert_eq!(client.show_request("qwen").name, "qwen");
}
