//! The built-in models: their metadata, lookup by name, and where their
//! files live on disk.

use vstd::prelude::*;

use crate::error::ModelError;
use crate::prompt::{GEMMA3_ID, MISTRAL_ID};
use crate::paths::FsPath;

verus! {

/// Sampling parameters for text generation. Fractional values are held in
/// hundredths: a temperature of 0.7 is `70`.
#[derive(Debug, Clone)]
pub struct SamplingParams {
    /// Randomness of sampling, in hundredths (100 is balanced).
    pub temperature_centi: u32,
    /// Number of most likely tokens kept (0 disables the limit).
    pub top_k: i32,
    /// Nucleus sampling threshold, in hundredths (100 disables it).
    pub top_p_centi: u32,
    /// Generation stops where any of these appears in the output.
    pub stop_tokens: Vec<String>,
}

/// What a `SamplingParams` holds, as mathematical values.
pub struct SamplingInfo {
    pub temperature_centi: u32,
    pub top_k: i32,
    pub top_p_centi: u32,
    pub stop_tokens: Seq<Seq<char>>,
}

impl View for SamplingParams {
    type V = SamplingInfo;

    open spec fn view(&self) -> SamplingInfo {
        SamplingInfo {
            temperature_centi: self.temperature_centi,
            top_k: self.top_k,
            top_p_centi: self.top_p_centi,
            stop_tokens: self.stop_tokens@.map_values(|s: String| s@),
        }
    }
}

/// A built-in model and all its metadata.
#[derive(Debug, Clone)]
pub struct ModelDef {
    /// Unique key, `family:variant` (such as `gemma3:1b`).
    pub name: String,
    /// Name shown to users.
    pub display_name: String,
    /// Name of the GGUF weights file inside the models directory.
    pub gguf_file: String,
    /// Identifier of the prompt template that frames prompts for this model.
    pub template: String,
    /// Where the weights file can be downloaded from.
    pub download_url: String,
    /// Size of the weights file, in megabytes.
    pub size_mb: u64,
    /// Context window, in tokens.
    pub context_size: u32,
    /// Number of transformer layers.
    pub layer_count: u32,
    /// Sampling defaults for this model.
    pub sampling: SamplingParams,
    /// Short description shown to users.
    pub description: String,
}

/// What a `ModelDef` holds, as mathematical values.
pub struct ModelInfo {
    pub name: Seq<char>,
    pub display_name: Seq<char>,
    pub gguf_file: Seq<char>,
    pub template: Seq<char>,
    pub download_url: Seq<char>,
    pub size_mb: u64,
    pub context_size: u32,
    pub layer_count: u32,
    pub sampling: SamplingInfo,
    pub description: Seq<char>,
}

impl View for ModelDef {
    type V = ModelInfo;

    open spec fn view(&self) -> ModelInfo {
        ModelInfo {
            name: self.name@,
            display_name: self.display_name@,
            gguf_file: self.gguf_file@,
            template: self.template@,
            download_url: self.download_url@,
            size_mb: self.size_mb,
            context_size: self.context_size,
            layer_count: self.layer_count,
            sampling: self.sampling@,
            description: self.description@,
        }
    }
}

pub const GEMMA3_1B_NAME: &'static str = "gemma3:1b";
pub const GEMMA3_1B_DISPLAY: &'static str = "Gemma 3 1B (Fast)";
pub const GEMMA3_1B_FILE: &'static str = "gemma-3-1b-it-Q8_0.gguf";
pub const GEMMA3_1B_URL: &'static str = "https://huggingface.co/unsloth/gemma-3-1b-it-GGUF/resolve/main/gemma-3-1b-it-Q8_0.gguf";
pub const GEMMA3_1B_ABOUT: &'static str = "Fastest model. Runs on any hardware with ~1GB RAM. Good for quick summaries.";

pub const GEMMA3_4B_NAME: &'static str = "gemma3:4b";
pub const GEMMA3_4B_DISPLAY: &'static str = "Gemma 3 4B (Balanced)";
pub const GEMMA3_4B_FILE: &'static str = "gemma-3-4b-it-Q4_K_M.gguf";
pub const GEMMA3_4B_URL: &'static str = "https://huggingface.co/unsloth/gemma-3-4b-it-GGUF/resolve/main/gemma-3-4b-it-Q4_K_M.gguf";
pub const GEMMA3_4B_ABOUT: &'static str = "Balanced model. Great quality/speed trade-off. Requires ~3.5GB RAM.";

pub const MISTRAL_7B_NAME: &'static str = "mistral:7b";
pub const MISTRAL_7B_DISPLAY: &'static str = "Mistral 7B v0.3 (High-Quality)";
pub const MISTRAL_7B_FILE: &'static str = "Mistral-7B-Instruct-v0.3-Q4_K_M.gguf";
pub const MISTRAL_7B_URL: &'static str = "https://huggingface.co/lmstudio-community/Mistral-7B-Instruct-v0.3-GGUF/resolve/main/Mistral-7B-Instruct-v0.3-Q4_K_M.gguf";
pub const MISTRAL_7B_ABOUT: &'static str = "High-quality model. Best results but requires ~6GB RAM. Ideal for detailed summaries.";

/// Stop tokens of the two model families.
pub const GEMMA3_STOP: &'static str = "<end_of_turn>";
pub const MISTRAL_STOP: &'static str = "</s>";

/// The metadata of one model, from its parts.
pub open spec fn model_info(
    name: &str,
    display_name: &str,
    gguf_file: &str,
    template: &str,
    download_url: &str,
    size_mb: u64,
    context_size: u32,
    layer_count: u32,
    temperature_centi: u32,
    top_k: i32,
    top_p_centi: u32,
    stop: &str,
    description: &str,
) -> ModelInfo {
    ModelInfo {
        name: name@,
        display_name: display_name@,
        gguf_file: gguf_file@,
        template: template@,
        download_url: download_url@,
        size_mb,
        context_size,
        layer_count,
        sampling: SamplingInfo {
            temperature_centi,
            top_k,
            top_p_centi,
            stop_tokens: seq![stop@],
        },
        description: description@,
    }
}

/// The built-in models, in order; the first is the default.
pub open spec fn builtin_models() -> Seq<ModelInfo> {
    seq![
        model_info(GEMMA3_1B_NAME, GEMMA3_1B_DISPLAY, GEMMA3_1B_FILE, GEMMA3_ID,
            GEMMA3_1B_URL, 806, 8192, 26, 100, 64, 95, GEMMA3_STOP, GEMMA3_1B_ABOUT),
        model_info(GEMMA3_4B_NAME, GEMMA3_4B_DISPLAY, GEMMA3_4B_FILE, GEMMA3_ID,
            GEMMA3_4B_URL, 2550, 32768, 35, 100, 64, 95, GEMMA3_STOP, GEMMA3_4B_ABOUT),
        model_info(MISTRAL_7B_NAME, MISTRAL_7B_DISPLAY, MISTRAL_7B_FILE, MISTRAL_ID,
            MISTRAL_7B_URL, 4368, 32768, 32, 70, 40, 90, MISTRAL_STOP, MISTRAL_7B_ABOUT),
    ]
}

/// No two models of `models` share a name.
pub open spec fn names_distinct(models: Seq<ModelInfo>) -> bool {
    forall|i: int, j: int|
        0 <= i < models.len() && 0 <= j < models.len() && i != j
            ==> #[trigger] models[i].name != #[trigger] models[j].name
}

/// The first model at index `i` or later whose name is `name`.
pub open spec fn find_from(models: Seq<ModelInfo>, name: Seq<char>, i: int) -> Option<ModelInfo>
    decreases models.len() - i,
{
    if i < 0 || i >= models.len() {
        None
    } else if models[i].name == name {
        Some(models[i])
    } else {
        find_from(models, name, i + 1)
    }
}

/// The built-in model named `name`: the first whose name matches exactly.
pub open spec fn lookup_model(name: Seq<char>) -> Option<ModelInfo> {
    find_from(builtin_models(), name, 0)
}

fn make_model(
    name: &str,
    display_name: &str,
    gguf_file: &str,
    template: &str,
    download_url: &str,
    size_mb: u64,
    context_size: u32,
    layer_count: u32,
    temperature_centi: u32,
    top_k: i32,
    top_p_centi: u32,
    stop: &str,
    description: &str,
) -> (r: ModelDef)
    ensures
        r@ == model_info(name, display_name, gguf_file, template, download_url, size_mb,
            context_size, layer_count, temperature_centi, top_k, top_p_centi, stop, description),
{
    let mut stop_tokens: Vec<String> = Vec::new();
    stop_tokens.push(stop.to_owned());
    let r = ModelDef {
        name: name.to_owned(),
        display_name: display_name.to_owned(),
        gguf_file: gguf_file.to_owned(),
        template: template.to_owned(),
        download_url: download_url.to_owned(),
        size_mb,
        context_size,
        layer_count,
        sampling: SamplingParams { temperature_centi, top_k, top_p_centi, stop_tokens },
        description: description.to_owned(),
    };
    assert(r.sampling.stop_tokens@.map_values(|s: String| s@) =~= seq![stop@]);
    r
}

/// All built-in models, in their fixed order. The list is never empty and no
/// two models share a name.
pub fn get_available_models() -> (r: Vec<ModelDef>)
    ensures
        r@.map_values(|m: ModelDef| m@) == builtin_models(),
        r@.len() > 0,
        names_distinct(r@.map_values(|m: ModelDef| m@)),
{
    let mut r: Vec<ModelDef> = Vec::new();
    r.push(make_model(GEMMA3_1B_NAME, GEMMA3_1B_DISPLAY, GEMMA3_1B_FILE, GEMMA3_ID,
        GEMMA3_1B_URL, 806, 8192, 26, 100, 64, 95, GEMMA3_STOP, GEMMA3_1B_ABOUT));
    r.push(make_model(GEMMA3_4B_NAME, GEMMA3_4B_DISPLAY, GEMMA3_4B_FILE, GEMMA3_ID,
        GEMMA3_4B_URL, 2550, 32768, 35, 100, 64, 95, GEMMA3_STOP, GEMMA3_4B_ABOUT));
    r.push(make_model(MISTRAL_7B_NAME, MISTRAL_7B_DISPLAY, MISTRAL_7B_FILE, MISTRAL_ID,
        MISTRAL_7B_URL, 4368, 32768, 32, 70, 40, 90, MISTRAL_STOP, MISTRAL_7B_ABOUT));
    assert(r@.map_values(|m: ModelDef| m@) =~= builtin_models());
    proof {
        lemma_builtin_names_distinct();
    }
    r
}

/// The built-in models have pairwise distinct names.
pub proof fn lemma_builtin_names_distinct()
    ensures
        builtin_models().len() > 0,
        names_distinct(builtin_models()),
{
    reveal_strlit("gemma3:1b");
    reveal_strlit("gemma3:4b");
    reveal_strlit("mistral:7b");
    let m = builtin_models();
    assert(m[0].name[7] != m[1].name[7]);
    assert(m[0].name[0] != m[2].name[0]);
    assert(m[1].name[0] != m[2].name[0]);
}

/// The model named exactly `name` (case-sensitive), or `None` where no
/// built-in model has that name.
pub fn get_model_by_name(name: &str) -> (r: Option<ModelDef>)
    ensures
        match r {
            Some(m) => lookup_model(name@) == Some(m@),
            None => lookup_model(name@) is None,
        },
{
    let mut models = get_available_models();
    let ghost all = models@.map_values(|m: ModelDef| m@);
    let key = name.to_owned();
    let n = models.len();
    let mut i: usize = 0;
    while i < n
        invariant
            n == models.len(),
            i <= n,
            models@.map_values(|m: ModelDef| m@) == all,
            all == builtin_models(),
            key@ == name@,
            lookup_model(name@) == find_from(all, name@, i as int),
        decreases n - i,
    {
        assert(all[i as int] == models@[i as int]@);
        if models[i].name == key {
            let m = models.remove(i);
            return Some(m);
        }
        i = i + 1;
    }
    None
}

/// The default model: the first of `get_available_models()`.
pub fn get_default_model() -> (r: ModelDef)
    ensures
        r@ == builtin_models()[0],
{
    let mut models = get_available_models();
    assert(models@[0]@ == models@.map_values(|m: ModelDef| m@)[0]);
    models.remove(0)
}

/// Where the weights file of model `model_name` lies: `models_root` (the
/// models directory, see `get_models_directory`) joined with the model's file
/// name. Fails with `NotFound` where no built-in model has that name. Nothing
/// on disk is read.
pub fn get_model_path(models_root: &FsPath, model_name: &str) -> (r: Result<FsPath, ModelError>)
    ensures
        match lookup_model(model_name@) {
            Some(m) => r is Ok && r->Ok_0@ == models_root@.push(m.gguf_file),
            None => r is Err && (match r->Err_0 {
                ModelError::NotFound(n) => n@ == model_name@,
                _ => false,
            }),
        },
{
    match get_model_by_name(model_name) {
        Some(model) => Ok(models_root.join(model.gguf_file.as_str())),
        None => Err(ModelError::NotFound(model_name.to_owned())),
    }
}

/// With distinct names, searching from any index at or before `i` for the
/// name of model `i` finds model `i`.
proof fn lemma_find_distinct(models: Seq<ModelInfo>, i: int, k: int)
    requires
        names_distinct(models),
        0 <= k <= i < models.len(),
    ensures
        find_from(models, models[i].name, k) == Some(models[i]),
    decreases i - k,
{
    if k < i {
        assert(models[k].name != models[i].name);
        lemma_find_distinct(models, i, k + 1);
    }
}

/// Every listed model is found by its own name.
pub proof fn lemma_listed_model_found(i: int)
    requires
        0 <= i < builtin_models().len(),
    ensures
        lookup_model(builtin_models()[i].name) == Some(builtin_models()[i]),
{
    lemma_builtin_names_distinct();
    lemma_find_distinct(builtin_models(), i, 0);
}

/// The model `gemma3:1b` is the first built-in model, so its file is
/// `gemma-3-1b-it-Q8_0.gguf`.
pub proof fn lemma_gemma3_1b_lookup()
    ensures
        lookup_model(GEMMA3_1B_NAME@) == Some(builtin_models()[0]),
        builtin_models()[0].gguf_file == GEMMA3_1B_FILE@,
{
}

/// Default limit on generated tokens.
pub const DEFAULT_MAX_TOKENS: i32 = 2048;

/// Seconds of inactivity after which the inference process is stopped.
pub const DEFAULT_IDLE_TIMEOUT_SECS: u64 = 300;

/// Seconds to wait for a generated response.
pub const GENERATION_TIMEOUT_SECS: u64 = 300;

} // verus!
