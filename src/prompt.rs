//! Chat templates and the substitution that frames a system and a user
//! prompt with one of them.

use vstd::prelude::*;
use vstd::std_specs::iter::IteratorSpec;

use crate::error::ModelError;
use crate::registry::builtin_models;

verus! {

/// Identifiers of the known templates.
pub const GEMMA3_ID: &'static str = "gemma3";
pub const CHATML_ID: &'static str = "chatml";
pub const LLAMA3_ID: &'static str = "llama3";
pub const MISTRAL_ID: &'static str = "mistral";

/// Placeholder replaced by the system prompt.
pub const SYSTEM_PLACEHOLDER: &'static str = "{system_prompt}";

/// Placeholder replaced by the user prompt.
pub const USER_PLACEHOLDER: &'static str = "{user_prompt}";

/// Gemma 3 chat template.
pub const GEMMA3_TEMPLATE: &'static str = "<start_of_turn>user\n{system_prompt}<end_of_turn>\n<start_of_turn>user\n{user_prompt}<end_of_turn>\n<start_of_turn>model\n";

/// ChatML template (Qwen, Phi and many others).
pub const CHATML_TEMPLATE: &'static str = "<|im_start|>system\n{system_prompt}<|im_end|>\n<|im_start|>user\n{user_prompt}<|im_end|>\n<|im_start|>assistant\n";

/// Llama 3 chat template.
pub const LLAMA3_TEMPLATE: &'static str = "<|begin_of_text|><|start_header_id|>system<|end_header_id|>\n{system_prompt}<|eot_id|><|start_header_id|>user<|end_header_id|>\n{user_prompt}<|eot_id|><|start_header_id|>assistant<|end_header_id|>\n";

/// Mistral v0.3 chat template.
pub const MISTRAL_TEMPLATE: &'static str = "<s>[INST] {system_prompt}\n\n{user_prompt} [/INST]";

/// The template text that identifier `name` stands for, if any.
pub open spec fn template_for(name: Seq<char>) -> Option<Seq<char>> {
    if name == GEMMA3_ID@ {
        Some(GEMMA3_TEMPLATE@)
    } else if name == CHATML_ID@ {
        Some(CHATML_TEMPLATE@)
    } else if name == LLAMA3_ID@ {
        Some(LLAMA3_TEMPLATE@)
    } else if name == MISTRAL_ID@ {
        Some(MISTRAL_TEMPLATE@)
    } else {
        None
    }
}

/// `text` begins with the non-empty `token`.
pub open spec fn starts_with_token(text: Seq<char>, token: Seq<char>) -> bool {
    0 < token.len() <= text.len() && text.subrange(0, token.len() as int) == token
}

/// `template` with each placeholder replaced by its prompt, in one pass from
/// left to right: text that a prompt brings in is never scanned again.
pub open spec fn fill_template(template: Seq<char>, system: Seq<char>, user: Seq<char>) -> Seq<char>
    decreases template.len(),
{
    if template.len() == 0 {
        template
    } else if starts_with_token(template, SYSTEM_PLACEHOLDER@) {
        system + fill_template(template.skip(SYSTEM_PLACEHOLDER@.len() as int), system, user)
    } else if starts_with_token(template, USER_PLACEHOLDER@) {
        user + fill_template(template.skip(USER_PLACEHOLDER@.len() as int), system, user)
    } else {
        seq![template[0]] + fill_template(template.drop_first(), system, user)
    }
}

/// The characters of `s`, in order.
fn chars_of(s: &str) -> (r: Vec<char>)
    ensures
        r@ == s@,
{
    let mut it = s.chars();
    let mut r: Vec<char> = Vec::new();
    loop
        invariant
            r@ + it.remaining() == s@,
        ensures
            r@ == s@,
        decreases s@.len() - r@.len(),
    {
        match it.next() {
            Some(c) => {
                r.push(c);
            },
            None => {
                assert(r@ =~= s@);
                break;
            },
        }
    }
    r
}

/// Whether `token` occurs in `text` at position `i`.
fn token_at(text: &Vec<char>, i: usize, token: &Vec<char>) -> (r: bool)
    requires
        i <= text.len(),
    ensures
        r == starts_with_token(text@.skip(i as int), token@),
{
    let n = token.len();
    if n == 0 || n > text.len() - i {
        return false;
    }
    let mut k: usize = 0;
    while k < n
        invariant
            0 < n == token.len(),
            n <= text.len() - i,
            k <= n,
            forall|j: int| 0 <= j < k ==> text@[i + j] == token@[j],
        decreases n - k,
    {
        if text[i + k] != token[k] {
            assert(text@.skip(i as int).subrange(0, n as int)[k as int] != token@[k as int]);
            return false;
        }
        k = k + 1;
    }
    assert(text@.skip(i as int).subrange(0, n as int) =~= token@);
    true
}

/// `template` with its placeholders replaced, as `fill_template` says.
fn fill(template: &str, system: &str, user: &str) -> (r: String)
    ensures
        r@ == fill_template(template@, system@, user@),
{
    let tc = chars_of(template);
    let sp = chars_of(SYSTEM_PLACEHOLDER);
    let up = chars_of(USER_PLACEHOLDER);
    let ghost t = template@;
    let n = tc.len();
    let mut out = String::new();
    let mut start: usize = 0;
    let mut i: usize = 0;
    assert(t.skip(0) =~= t);
    assert(t.subrange(0, 0) =~= Seq::<char>::empty());
    while i < n
        invariant
            tc@ == t,
            template@ == t,
            sp@ == SYSTEM_PLACEHOLDER@,
            up@ == USER_PLACEHOLDER@,
            n == t.len(),
            start <= i <= n,
            out@ + t.subrange(start as int, i as int) + fill_template(t.skip(i as int), system@, user@)
                == fill_template(t, system@, user@),
        decreases n - i,
    {
        let ghost rest = t.skip(i as int);
        let ghost before = out@ + t.subrange(start as int, i as int);
        if token_at(&tc, i, &sp) {
            let seg = template.substring_char(start, i);
            out.append(seg);
            out.append(system);
            let next = i + sp.len();
            assert(rest.skip(sp@.len() as int) =~= t.skip(next as int));
            assert(t.subrange(next as int, next as int) =~= Seq::<char>::empty());
            assert(out@ + t.subrange(next as int, next as int) + fill_template(t.skip(next as int), system@, user@)
                =~= before + (system@ + fill_template(rest.skip(sp@.len() as int), system@, user@)));
            i = next;
            start = next;
        } else if token_at(&tc, i, &up) {
            let seg = template.substring_char(start, i);
            out.append(seg);
            out.append(user);
            let next = i + up.len();
            assert(rest.skip(up@.len() as int) =~= t.skip(next as int));
            assert(t.subrange(next as int, next as int) =~= Seq::<char>::empty());
            assert(out@ + t.subrange(next as int, next as int) + fill_template(t.skip(next as int), system@, user@)
                =~= before + (user@ + fill_template(rest.skip(up@.len() as int), system@, user@)));
            i = next;
            start = next;
        } else {
            assert(rest.drop_first() =~= t.skip(i + 1));
            assert(out@ + t.subrange(start as int, i + 1) + fill_template(t.skip(i + 1), system@, user@)
                =~= before + (seq![rest[0]] + fill_template(rest.drop_first(), system@, user@)));
            i = i + 1;
        }
    }
    let seg = template.substring_char(start, n);
    out.append(seg);
    assert(t.skip(n as int).len() == 0);
    assert(out@ =~= out@ + fill_template(t.skip(n as int), system@, user@));
    out
}

/// Frames `system_prompt` and `user_prompt` with the template named
/// `template_name` (`gemma3`, `chatml`, `llama3` or `mistral`). The prompts are
/// inserted verbatim; a placeholder inside a prompt is left as it is. Fails
/// with `UnknownTemplate` for any other identifier.
pub fn format_prompt(template_name: &str, system_prompt: &str, user_prompt: &str) -> (r: Result<String, ModelError>)
    ensures
        match template_for(template_name@) {
            Some(t) => r is Ok && r->Ok_0@ == fill_template(t, system_prompt@, user_prompt@),
            None => r is Err && (match r->Err_0 {
                ModelError::UnknownTemplate(n) => n@ == template_name@,
                _ => false,
            }),
        },
{
    let key = template_name.to_owned();
    let template = if key == GEMMA3_ID.to_owned() {
        GEMMA3_TEMPLATE
    } else if key == CHATML_ID.to_owned() {
        CHATML_TEMPLATE
    } else if key == LLAMA3_ID.to_owned() {
        LLAMA3_TEMPLATE
    } else if key == MISTRAL_ID.to_owned() {
        MISTRAL_TEMPLATE
    } else {
        return Err(ModelError::UnknownTemplate(key));
    };
    Ok(fill(template, system_prompt, user_prompt))
}

/// Every built-in model names a template that `format_prompt` knows.
pub proof fn lemma_builtin_templates_known(i: int)
    requires
        0 <= i < builtin_models().len(),
    ensures
        template_for(builtin_models()[i].template) is Some,
{
}
} // verus!
