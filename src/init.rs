//! Starting a project from a language template.

use vstd::prelude::*;
use crate::model::Config;
use crate::text::same_text;

verus! {

/// Language used when none is asked for.
pub const DEFAULT_LANGUAGE: &'static str = "js";

/// The answer that lets the scaffolder write into a non-empty directory.
pub const YES: &'static str = "yes";

/// What `str::trim` returns for the text.
pub uninterp spec fn trim_of(s: Seq<char>) -> Seq<char>;

/// What `str::to_lowercase` returns for the text.
pub uninterp spec fn lower_of(s: Seq<char>) -> Seq<char>;

/// Relies on str::trim: leading and trailing Unicode white space removed;
/// the result depends on the characters alone.
#[verifier::external_body]
fn trim_whitespace(s: &str) -> (r: &str)
    ensures
        r@ == trim_of(s@),
{
    s.trim()
}

/// Relies on str::to_lowercase: the result depends on the characters alone.
#[verifier::external_body]
fn lowercase(s: &str) -> (r: String)
    ensures
        r@ == lower_of(s@),
{
    s.to_lowercase()
}

/// The language a project is started in.
pub open spec fn chosen_language(language: Option<String>) -> Seq<char> {
    match language {
        Some(l) => l@,
        None => DEFAULT_LANGUAGE@,
    }
}

/// The repository that holds the template for `language`.
pub open spec fn template_of(git_url: Seq<char>, language: Seq<char>) -> Seq<char> {
    git_url + "-"@ + language + "/"@
}

/// Whether `language` is among the allowed ones.
pub fn is_allowed(config: &Config, language: &str) -> (r: bool)
    ensures
        r == exists|i: int| 0 <= i < config.allowed_languages@.len() && (#[trigger] config.allowed_languages@[i])@ == language@,
{
    let mut i: usize = 0;
    while i < config.allowed_languages.len()
        invariant
            i <= config.allowed_languages@.len(),
            forall|j: int| 0 <= j < i ==> (#[trigger] config.allowed_languages@[j])@ != language@,
        decreases config.allowed_languages@.len() - i,
    {
        if same_text(config.allowed_languages[i].as_str(), language) {
            assert(config.allowed_languages@[i as int]@ == language@);
            return true;
        }
        i = i + 1;
    }
    false
}

/// The template repository for a new project in `language` (the default
/// language when `None`), or the language itself as the error when the
/// configuration does not allow it.
pub fn template_url(config: &Config, language: Option<String>) -> (r: Result<String, String>)
    ensures
        (exists|i: int| 0 <= i < config.allowed_languages@.len() && (#[trigger] config.allowed_languages@[i])@ == chosen_language(language)) <==> r is Ok,
        r matches Ok(url) ==> url@ == template_of(config.git_url@, chosen_language(language)),
        r matches Err(l) ==> l@ == chosen_language(language),
{
    let lang = match language {
        Some(l) => l,
        None => String::from_str(DEFAULT_LANGUAGE),
    };
    if !is_allowed(config, lang.as_str()) {
        return Err(lang);
    }
    let mut url = config.git_url.clone();
    url.append("-");
    url.append(lang.as_str());
    url.append("/");
    Ok(url)
}

/// Whether an answer, already trimmed and lowercased, is `yes`.
pub fn is_yes(normalized: &str) -> (r: bool)
    ensures
        r == (normalized@ == YES@),
{
    same_text(normalized, YES)
}

/// Whether the user's answer agrees to go on: `yes` in any case, with any
/// surrounding white space.
pub fn confirms(answer: &str) -> (r: bool)
    ensures
        r == (lower_of(trim_of(answer@)) == YES@),
{
    let t = trim_whitespace(answer);
    let l = lowercase(t);
    is_yes(l.as_str())
}

} // verus!
