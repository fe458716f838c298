use summary_models::error::ModelError;
use summary_models::paths::{get_models_directory, FsPath};
use summary_models::registry::{get_available_models, get_default_model, get_model_by_name, get_model_path};

fn path_of(parts: &[&str]) -> FsPath {
    FsPath::new(parts.iter().map(|p| p.to_string()).collect())
}

#[test]
fn models_listed_non_empty_with_unique_names() {
    let models = get_available_models();
    assert!(!models.is_empty());
    for i in 0..models.len() {
        for j in 0..models.len() {
            if i != j {
                assert_ne!(models[i].name, models[j].name);
            }
        }
    }
    let names: Vec<&str> = models.iter().map(|m| m.name.as_str()).collect();
    assert_eq!(names, vec!["gemma3:1b", "gemma3:4b", "mistral:7b"]);
}

#[test]
fn every_listed_model_found_by_name() {
    for m in get_available_models() {
        let found = get_model_by_name(&m.name).expect("listed model is found");
        assert_eq!(found.name, m.name);
        assert_eq!(found.display_name, m.display_name);
        assert_eq!(found.gguf_file, m.gguf_file);
        assert_eq!(found.template, m.template);
        assert_eq!(found.download_url, m.download_url);
        assert_eq!(found.size_mb, m.size_mb);
        assert_eq!(found.context_size, m.context_size);
        assert_eq!(found.layer_count, m.layer_count);
        assert_eq!(found.sampling.temperature_centi, m.sampling.temperature_centi);
        assert_eq!(found.sampling.top_k, m.sampling.top_k);
        assert_eq!(found.sampling.top_p_centi, m.sampling.top_p_centi);
        assert_eq!(found.sampling.stop_tokens, m.sampling.stop_tokens);
        assert_eq!(found.description, m.description);
    }
}

#[test]
fn unknown_model_not_found() {
    assert!(get_model_by_name("nonexistent:1b").is_none());
}

#[test]
fn model_lookup_is_case_sensitive() {
    assert!(get_model_by_name("Gemma3:1b").is_none());
    assert!(get_model_by_name("").is_none());
}

#[test]
fn default_model_is_first_listed() {
    let d = get_default_model();
    let first = &get_available_models()[0];
    assert_eq!(d.name, first.name);
    assert_eq!(d.gguf_file, first.gguf_file);
    assert_eq!(d.name, "gemma3:1b");
}

#[test]
fn model_metadata_values() {
    let m = get_model_by_name("mistral:7b").unwrap();
    assert_eq!(m.gguf_file, "Mistral-7B-Instruct-v0.3-Q4_K_M.gguf");
    assert_eq!(m.template, "mistral");
    assert_eq!(m.size_mb, 4368);
    assert_eq!(m.context_size, 32768);
    assert_eq!(m.layer_count, 32);
    assert_eq!(m.sampling.temperature_centi, 70);
    assert_eq!(m.sampling.top_k, 40);
    assert_eq!(m.sampling.top_p_centi, 90);
    assert_eq!(m.sampling.stop_tokens, vec!["</s>".to_string()]);
    let g = get_model_by_name("gemma3:4b").unwrap();
    assert_eq!(g.sampling.stop_tokens, vec!["<end_of_turn>".to_string()]);
    assert_eq!(g.sampling.temperature_centi, 100);
    assert_eq!(g.sampling.top_p_centi, 95);
}

#[test]
fn model_path_of_gemma3_1b() {
    let root = path_of(&["/", "data"]);
    let p = get_model_path(&root, "gemma3:1b").unwrap();
    assert_eq!(p.parts, vec!["/", "data", "gemma-3-1b-it-Q8_0.gguf"]);
}

#[test]
fn model_path_of_mistral_7b() {
    let p = get_model_path(&path_of(&["/", "m"]), "mistral:7b").unwrap();
    assert_eq!(p.parts, vec!["/", "m", "Mistral-7B-Instruct-v0.3-Q4_K_M.gguf"]);
}

#[test]
fn model_path_in_models_directory() {
    let dir = get_models_directory(&path_of(&["/", "app"]));
    let p = get_model_path(&dir, "gemma3:4b").unwrap();
    assert_eq!(p.parts, vec!["/", "app", "models", "summary", "gemma-3-4b-it-Q4_K_M.gguf"]);
}

#[test]
fn model_path_of_unknown_model() {
    let root = path_of(&["/", "data"]);
    match get_model_path(&root, "nonexistent:1b") {
        Err(ModelError::NotFound(name)) => assert_eq!(name, "nonexistent:1b"),
        _ => panic!("expected NotFound"),
    }
}

#[test]
fn models_directory_under_data() {
    let d = get_models_directory(&path_of(&["/", "data"]));
    assert_eq!(d.parts, vec!["/", "data", "models", "summary"]);
}

#[test]
fn path_join_appends_component() {
    let p = path_of(&["a"]).join("b");
    assert_eq!(p.parts, vec!["a", "b"]);
    let e = path_of(&[]).join("x");
    assert_eq!(e.parts, vec!["x"]);
}

#[test]
fn error_messages_carry_identifier() {
    assert_eq!(ModelError::NotFound("x:1b".to_string()).message(), "Unknown model: x:1b");
    assert_eq!(ModelError::UnknownTemplate("foo".to_string()).message(), "Unknown template: foo");
}
