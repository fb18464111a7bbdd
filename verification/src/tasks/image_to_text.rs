//! Image-to-text (OCR) captcha task type.

use vstd::prelude::*;
use base64::Engine;
use crate::proxy::opt_view;

verus! {

/// The standard (padded, RFC 4648) base64 encoding of `bytes`.
pub uninterp spec fn base64_standard(bytes: Seq<u8>) -> Seq<char>;

/// Whether the base64 text of `n` bytes has a length that fits in `usize`.
pub open spec fn base64_len_fits(n: nat) -> bool {
    (n + 2) / 3 * 4 <= usize::MAX
}

/// Encodes `bytes` with `base64::engine::general_purpose::STANDARD.encode`.
/// Trusted: the result is the standard padded base64 text of the bytes, named
/// `base64_standard`; the crate panics when the output length overflows
/// `usize`, which `requires` rules out.
#[verifier::external_body]
fn base64_standard_encode(bytes: &[u8]) -> (s: String)
    requires
        base64_len_fits(bytes@.len()),
    ensures
        s@ == base64_standard(bytes@),
{
    base64::engine::general_purpose::STANDARD.encode(bytes)
}

/// Image-to-text captcha task.
#[derive(Debug, Clone)]
pub struct ImageToText {
    /// Base64-encoded image (without a data URI prefix).
    pub body: String,
    /// Page source URL, to improve accuracy.
    pub website_url: Option<String>,
    /// Recognition module (for example "common" or "number").
    pub module: Option<String>,
    /// The answer holds several space-separated words.
    pub phrase: bool,
    /// The answer is case-sensitive.
    pub case_sensitive: bool,
    /// Numeric constraint: 0 none, 1 numbers only, 2 letters only,
    /// 3 numbers or letters, 4 both numbers and letters.
    pub numeric: u8,
    /// The captcha asks for a calculation.
    pub math: bool,
    /// Minimum answer length (0: no restriction).
    pub min_length: u32,
    /// Maximum answer length (0: no restriction).
    pub max_length: u32,
    /// Instruction text for workers.
    pub comment: Option<String>,
    /// Base64-encoded instruction image for workers.
    pub img_instructions: Option<String>,
}

impl ImageToText {
    /// Whether every option is at its default: only `body` is set.
    pub open spec fn only_body(&self) -> bool {
        &&& self.website_url is None
        &&& self.module is None
        &&& !self.phrase
        &&& !self.case_sensitive
        &&& self.numeric == 0
        &&& !self.math
        &&& self.min_length == 0
        &&& self.max_length == 0
        &&& self.comment is None
        &&& self.img_instructions is None
    }

    /// A task with the given base64 body and no options.
    fn with_body(body: String) -> (t: Self)
        ensures
            t.body == body,
            t.only_body(),
    {
        ImageToText {
            body,
            website_url: None,
            module: None,
            phrase: false,
            case_sensitive: false,
            numeric: 0,
            math: false,
            min_length: 0,
            max_length: 0,
            comment: None,
            img_instructions: None,
        }
    }

    /// A task for the raw image `bytes`, which are base64-encoded.
    pub fn from_bytes(bytes: &[u8]) -> (t: Self)
        requires
            base64_len_fits(bytes@.len()),
        ensures
            t.body@ == base64_standard(bytes@),
            t.only_body(),
    {
        Self::with_body(base64_standard_encode(bytes))
    }

    /// A task for an image that is already base64-encoded.
    pub fn from_base64(base64: &str) -> (t: Self)
        ensures
            t.body@ == base64@,
            t.only_body(),
    {
        Self::with_body(base64.to_string())
    }

    /// Sets the website URL.
    pub fn with_website_url(self, url: &str) -> (t: Self)
        ensures
            opt_view(t.website_url) == Some(url@),
            t == (ImageToText { website_url: t.website_url, ..self }),
    {
        let mut t = self;
        t.website_url = Some(url.to_string());
        t
    }

    /// Sets the recognition module.
    pub fn with_module(self, module: &str) -> (t: Self)
        ensures
            opt_view(t.module) == Some(module@),
            t == (ImageToText { module: t.module, ..self }),
    {
        let mut t = self;
        t.module = Some(module.to_string());
        t
    }

    /// The answer must hold several space-separated words.
    pub fn phrase(self) -> (t: Self)
        ensures
            t == (ImageToText { phrase: true, ..self }),
    {
        let mut t = self;
        t.phrase = true;
        t
    }

    /// The answer is case-sensitive.
    pub fn case_sensitive(self) -> (t: Self)
        ensures
            t == (ImageToText { case_sensitive: true, ..self }),
    {
        let mut t = self;
        t.case_sensitive = true;
        t
    }

    /// Numbers only.
    pub fn numbers_only(self) -> (t: Self)
        ensures
            t == (ImageToText { numeric: 1, ..self }),
    {
        self.with_numeric(1)
    }

    /// Letters only.
    pub fn letters_only(self) -> (t: Self)
        ensures
            t == (ImageToText { numeric: 2, ..self }),
    {
        self.with_numeric(2)
    }

    /// Either numbers or letters.
    pub fn numbers_or_letters(self) -> (t: Self)
        ensures
            t == (ImageToText { numeric: 3, ..self }),
    {
        self.with_numeric(3)
    }

    /// Both numbers and letters.
    pub fn alphanumeric(self) -> (t: Self)
        ensures
            t == (ImageToText { numeric: 4, ..self }),
    {
        self.with_numeric(4)
    }

    /// Sets the numeric constraint directly.
    pub fn with_numeric(self, numeric: u8) -> (t: Self)
        ensures
            t == (ImageToText { numeric, ..self }),
    {
        let mut t = self;
        t.numeric = numeric;
        t
    }

    /// The captcha asks for a calculation.
    pub fn math(self) -> (t: Self)
        ensures
            t == (ImageToText { math: true, ..self }),
    {
        let mut t = self;
        t.math = true;
        t
    }

    /// Sets the minimum answer length.
    pub fn with_min_length(self, length: u32) -> (t: Self)
        ensures
            t == (ImageToText { min_length: length, ..self }),
    {
        let mut t = self;
        t.min_length = length;
        t
    }

    /// Sets the maximum answer length.
    pub fn with_max_length(self, length: u32) -> (t: Self)
        ensures
            t == (ImageToText { max_length: length, ..self }),
    {
        let mut t = self;
        t.max_length = length;
        t
    }

    /// Sets the instruction text for workers.
    pub fn with_comment(self, comment: &str) -> (t: Self)
        ensures
            opt_view(t.comment) == Some(comment@),
            t == (ImageToText { comment: t.comment, ..self }),
    {
        let mut t = self;
        t.comment = Some(comment.to_string());
        t
    }

    /// Sets the base64-encoded instruction image.
    pub fn with_img_instructions(self, img: &str) -> (t: Self)
        ensures
            opt_view(t.img_instructions) == Some(img@),
            t == (ImageToText { img_instructions: t.img_instructions, ..self }),
    {
        let mut t = self;
        t.img_instructions = Some(img.to_string());
        t
    }

    /// Sets the instruction image from raw bytes, which are base64-encoded.
    pub fn with_img_instructions_bytes(self, bytes: &[u8]) -> (t: Self)
        requires
            base64_len_fits(bytes@.len()),
        ensures
            opt_view(t.img_instructions) == Some(base64_standard(bytes@)),
            t == (ImageToText { img_instructions: t.img_instructions, ..self }),
    {
        let mut t = self;
        t.img_instructions = Some(base64_standard_encode(bytes));
        t
    }

    /// The base64 image body.
    pub fn body(&self) -> (s: &str)
        ensures
            s@ == self.body@,
    {
        self.body.as_str()
    }

    /// Whether the answer is case-sensitive.
    pub fn is_case_sensitive(&self) -> (b: bool)
        ensures
            b == self.case_sensitive,
    {
        self.case_sensitive
    }

    /// Whether the answer is a phrase.
    pub fn is_phrase(&self) -> (b: bool)
        ensures
            b == self.phrase,
    {
        self.phrase
    }

    /// Whether the captcha asks for a calculation.
    pub fn is_math(&self) -> (b: bool)
        ensures
            b == self.math,
    {
        self.math
    }
}

} // verus!
