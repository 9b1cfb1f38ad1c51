//! Rendering one template into the text of the generated file.
//!
//! The caller fetches the template from [`template_url`] and hands the
//! response's status code and body to [`render_template`], which returns the
//! text to write and, for a response that is no success, a warning to show.

use vstd::prelude::*;
use crate::catalog::{is_template_file, TEMPLATE_SUFFIX};
use crate::status::{is_success, status_is_success};
use crate::text::{chars_of, ends_with};

verus! {

/// Where the raw templates are served from.
pub const RAW_CONTENT_BASE_URL: &'static str =
    "https://raw.githubusercontent.com/github/gitignore/main";

/// The first lines of every generated file, up to the name in the header of
/// the template.
pub const LEADING_BANNER: &'static str =
    "# Generated gitignore file\n# Created with ignore-gen\n\n# ===== ";

/// What follows the name in the header of the template.
pub const HEADER_END: &'static str = " =====\n";

/// What follows the body of the template.
pub const TRAILING_BANNER: &'static str = "\n\n# End of Generated File with ignore-gen\n\n";

/// The file name to ask for: the template argument itself if it already
/// ends in the suffix, otherwise the argument with the suffix appended.
pub open spec fn request_file_name(template: Seq<char>) -> Seq<char> {
    if is_template_file(template) {
        template
    } else {
        template + TEMPLATE_SUFFIX@
    }
}

/// The address of the raw template: base address, a slash, the file name.
pub open spec fn template_url_of(template: Seq<char>) -> Seq<char> {
    RAW_CONTENT_BASE_URL@ + "/"@ + request_file_name(template)
}

/// The text of the generated file: the leading banner, the header naming
/// the template argument as given, the body verbatim, the trailing banner.
pub open spec fn composed(template: Seq<char>, body: Seq<char>) -> Seq<char> {
    LEADING_BANNER@ + template + HEADER_END@ + body + TRAILING_BANNER@
}

/// The warning for a template whose response was no success.
pub open spec fn warning_of(template: Seq<char>) -> Seq<char> {
    "Warning: Template '"@ + template + "' not found"@
}

/// A template named with the suffix and the same template named without it
/// are requested from the same address. The generated texts name the
/// argument as it was given, so they differ in the header line and agree in
/// everything before and after the name.
pub proof fn lemma_suffix_is_optional(name: Seq<char>, body: Seq<char>)
    requires
        !is_template_file(name),
    ensures
        request_file_name(name + TEMPLATE_SUFFIX@) == request_file_name(name),
        template_url_of(name + TEMPLATE_SUFFIX@) == template_url_of(name),
        composed(name, body) == LEADING_BANNER@ + name + (HEADER_END@ + body + TRAILING_BANNER@),
        composed(name + TEMPLATE_SUFFIX@, body) == LEADING_BANNER@ + name + TEMPLATE_SUFFIX@ + (
        HEADER_END@ + body + TRAILING_BANNER@),
{
    let with_suffix = name + TEMPLATE_SUFFIX@;
    assert(with_suffix.subrange(with_suffix.len() - TEMPLATE_SUFFIX@.len(), with_suffix.len() as int)
        =~= TEMPLATE_SUFFIX@);
    assert(composed(name, body) =~= LEADING_BANNER@ + name + (HEADER_END@ + body
        + TRAILING_BANNER@));
    assert(composed(with_suffix, body) =~= LEADING_BANNER@ + name + TEMPLATE_SUFFIX@ + (HEADER_END@
        + body + TRAILING_BANNER@));
}

/// The file name to request always ends in the suffix, and asking for it
/// again changes nothing.
pub proof fn lemma_request_file_name_is_template(template: Seq<char>)
    ensures
        is_template_file(request_file_name(template)),
        request_file_name(request_file_name(template)) == request_file_name(template),
{
    if !is_template_file(template) {
        let file = template + TEMPLATE_SUFFIX@;
        assert(file.subrange(file.len() - TEMPLATE_SUFFIX@.len(), file.len() as int)
            =~= TEMPLATE_SUFFIX@);
    }
}

/// The file name to request for the template argument.
pub fn normalize_template_name(template: &str) -> (file: String)
    ensures
        file@ == request_file_name(template@),
{
    let chars = chars_of(template);
    let tail = chars_of(TEMPLATE_SUFFIX);
    let mut file = template.to_owned();
    if !ends_with(&chars, &tail) {
        file.append(TEMPLATE_SUFFIX);
    }
    file
}

/// The address to fetch the template from.
pub fn template_url(template: &str) -> (url: String)
    ensures
        url@ == template_url_of(template@),
{
    let file = normalize_template_name(template);
    let mut url = RAW_CONTENT_BASE_URL.to_owned();
    url.append("/");
    url.append(file.as_str());
    url
}

/// The text of the generated file for a template argument and its body.
pub fn compose(template: &str, body: &str) -> (content: String)
    ensures
        content@ == composed(template@, body@),
{
    let mut content = LEADING_BANNER.to_owned();
    content.append(template);
    content.append(HEADER_END);
    content.append(body);
    content.append(TRAILING_BANNER);
    content
}

/// What to do with the response to a template request.
#[derive(Debug, Clone, PartialEq, Eq)]
pub struct Rendered {
    /// The text to write to the destination, replacing what was there.
    pub content: String,
    /// A warning to show on the error stream before writing, if any.
    pub warning: Option<String>,
}

/// Decides what to write for a template, given the response to its request.
///
/// A response that is no success does not stop the generation: its body is
/// composed into the file like any other, and the result carries a warning
/// that names the template argument. The file is written either way.
pub fn render_template(template: &str, status: u16, body: &str) -> (out: Rendered)
    ensures
        out.content@ == composed(template@, body@),
        status_is_success(status) ==> out.warning is None,
        !status_is_success(status) ==> out.warning is Some && out.warning->Some_0@ == warning_of(
            template@,
        ),
{
    let warning = if is_success(status) {
        None
    } else {
        let mut text = "Warning: Template '".to_owned();
        text.append(template);
        text.append("' not found");
        Some(text)
    };
    Rendered { content: compose(template, body), warning }
}

} // verus!
