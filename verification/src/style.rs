//! The look of the progress display, which `indicatif` builds from a
//! template.

use indicatif::style::TemplateError;
use indicatif::ProgressStyle;
use vstd::prelude::*;

use crate::error::Failure;

verus! {

/// `indicatif::ProgressStyle`, the look of a progress bar: nothing is known
/// of what it holds.
#[verifier::external_type_specification]
#[verifier::external_body]
pub struct ExProgressStyle(ProgressStyle);

/// `indicatif::style::TemplateError`, which says where a template went
/// wrong: nothing is known of what it holds.
#[verifier::external_type_specification]
#[verifier::external_body]
pub struct ExTemplateError(TemplateError);

/// Whether `indicatif` takes `template` as the template of a progress bar.
pub uninterp spec fn template_accepted(template: Seq<char>) -> bool;

/// No character of `text` is a decimal digit.
pub open spec fn digit_free(text: Seq<char>) -> bool {
    forall|i: int| 0 <= i < text.len() ==> !('0' <= #[trigger] text[i] <= '9')
}

/// Every character of `text` is a printable ASCII character.
pub open spec fn printable(text: Seq<char>) -> bool {
    forall|i: int| 0 <= i < text.len() ==> ' ' <= #[trigger] text[i] <= '~'
}

/// `ProgressStyle::default_bar` builds the style that bars have by default,
/// from a template and characters of its own.
pub assume_specification[ ProgressStyle::default_bar ]() -> ProgressStyle;

/// `ProgressStyle::template` reads `s` as the style's template. It gives the
/// style back where it takes the template, and an error where it does not;
/// which of the two depends on `s` alone. It reads a width as a 16-bit
/// number and does not return where the digits do not fit: a template
/// without digits has no width.
pub assume_specification[ ProgressStyle::template ](style: ProgressStyle, s: &str) -> (result:
    Result<ProgressStyle, TemplateError>)
    requires
        digit_free(s@),
    ensures
        result is Ok <==> template_accepted(s@),
;

/// `ProgressStyle::progress_chars` sets the characters that a bar is drawn
/// with. It wants at least two of them, all of one width, and does not
/// return otherwise: printable ASCII characters have width one each.
pub assume_specification[ ProgressStyle::progress_chars ](
    style: ProgressStyle,
    s: &str,
) -> ProgressStyle
    requires
        s@.len() >= 2,
        printable(s@),
;

/// The template of the progress display: a line for the message, then a
/// spinner, the time that has passed, the bar, the bytes so far and in all,
/// the rate and the time that is left.
pub open spec fn template_text() -> Seq<char> {
    "{msg}\n{spinner:.green} [{elapsed_precise}] [{wide_bar:.cyan/blue}] {bytes}/{total_bytes} ({bytes_per_sec}, {eta})"@
}

/// The characters of the bar: done, current, to do.
pub open spec fn bar_characters() -> Seq<char> {
    "#>-"@
}

/// The template of the progress display.
pub fn template() -> (text: &'static str)
    ensures
        text@ == template_text(),
        digit_free(text@),
{
    proof {
        reveal_strlit(
            "{msg}\n{spinner:.green} [{elapsed_precise}] [{wide_bar:.cyan/blue}] {bytes}/{total_bytes} ({bytes_per_sec}, {eta})",
        );
    }
    "{msg}\n{spinner:.green} [{elapsed_precise}] [{wide_bar:.cyan/blue}] {bytes}/{total_bytes} ({bytes_per_sec}, {eta})"
}

/// The characters of the bar.
pub fn characters() -> (text: &'static str)
    ensures
        text@ == bar_characters(),
        text@.len() == 3,
        printable(text@),
{
    proof {
        reveal_strlit("#>-");
    }
    "#>-"
}

/// Builds the style of the progress display: the default bar, with the
/// template and the characters of this display. There is a style where
/// `indicatif` takes the template, and a failure of the template where it
/// does not.
pub fn progress_style() -> (style: Result<ProgressStyle, Failure>)
    ensures
        style is Ok <==> template_accepted(template_text()),
        style is Err ==> style == Err::<ProgressStyle, Failure>(Failure::Template),
{
    match ProgressStyle::default_bar().template(template()) {
        Ok(style) => Ok(style.progress_chars(characters())),
        Err(_) => Err(Failure::Template),
    }
}

} // verus!
