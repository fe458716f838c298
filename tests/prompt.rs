use summary_models::error::ModelError;
use summary_models::prompt::format_prompt;
use summary_models::registry::get_available_models;

#[test]
fn gemma3_prompt_literal() {
    let r = format_prompt("gemma3", "SYS", "USR").unwrap();
    assert_eq!(
        r,
        "<start_of_turn>user\nSYS<end_of_turn>\n<start_of_turn>user\nUSR<end_of_turn>\n<start_of_turn>model\n"
    );
}

#[test]
fn chatml_prompt_literal() {
    let r = format_prompt("chatml", "S", "U").unwrap();
    assert_eq!(r, "<|im_start|>system\nS<|im_end|>\n<|im_start|>user\nU<|im_end|>\n<|im_start|>assistant\n");
}

#[test]
fn llama3_prompt_literal() {
    let r = format_prompt("llama3", "S", "U").unwrap();
    assert_eq!(
        r,
        "<|begin_of_text|><|start_header_id|>system<|end_header_id|>\nS<|eot_id|><|start_header_id|>user<|end_header_id|>\nU<|eot_id|><|start_header_id|>assistant<|end_header_id|>\n"
    );
}

#[test]
fn mistral_prompt_literal() {
    let r = format_prompt("mistral", "S", "U").unwrap();
    assert_eq!(r, "<s>[INST] S\n\nU [/INST]");
}

#[test]
fn unknown_template_rejected() {
    match format_prompt("unknown-template", "a", "b") {
        Err(ModelError::UnknownTemplate(name)) => assert_eq!(name, "unknown-template"),
        _ => panic!("expected UnknownTemplate"),
    }
}

#[test]
fn template_name_is_case_sensitive() {
    assert!(format_prompt("Gemma3", "a", "b").is_err());
    assert!(format_prompt("", "a", "b").is_err());
}

#[test]
fn injected_placeholder_not_expanded() {
    let r = format_prompt("mistral", "{user_prompt}", "X").unwrap();
    assert_eq!(r, "<s>[INST] {user_prompt}\n\nX [/INST]");
    let r2 = format_prompt("mistral", "A", "{system_prompt}").unwrap();
    assert_eq!(r2, "<s>[INST] A\n\n{system_prompt} [/INST]");
}

#[test]
fn prompts_inserted_verbatim() {
    let r = format_prompt("mistral", "", "héllo ✓\n").unwrap();
    assert_eq!(r, "<s>[INST] \n\nhéllo ✓\n [/INST]");
}

#[test]
fn builtin_templates_are_known() {
    for m in get_available_models() {
        assert!(format_prompt(&m.template, "s", "u").is_ok());
    }
}
