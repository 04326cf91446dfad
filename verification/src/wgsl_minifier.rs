use vstd::prelude::*;
use vstd::string::StringSliceAdditionalSpecFns;
use vstd::utf8::{encode_utf8, is_ascii_chars};

use crate::text::push_char;

verus! {

// ---------------------------------------------------------------------------
// Shader compilation through naga
// ---------------------------------------------------------------------------

#[verifier::external_type_specification]
#[verifier::external_body]
pub struct ExNagaModule(naga::Module);

#[verifier::external_type_specification]
#[verifier::external_body]
pub struct ExNagaModuleInfo(naga::valid::ModuleInfo);

#[verifier::external_type_specification]
#[verifier::external_body]
pub struct ExWgslParseError(naga::front::wgsl::ParseError);

#[verifier::external_type_specification]
#[verifier::external_body]
pub struct ExNagaValidationError(naga::valid::ValidationError);

#[verifier::external_type_specification]
#[verifier::external_body]
#[verifier::reject_recursive_types(E)]
pub struct ExNagaWithSpan<E>(naga::WithSpan<E>);

#[verifier::external_type_specification]
#[verifier::external_body]
pub struct ExWgslWriteError(naga::back::wgsl::Error);

/// Why a shader could not be minified.
pub enum MinifyError {
    /// The WGSL front end rejected the source.
    Parse(naga::front::wgsl::ParseError),
    /// The parsed module failed validation.
    Validate(Box<naga::WithSpan<naga::valid::ValidationError>>),
    /// The WGSL back end could not print the validated module.
    Write(naga::back::wgsl::Error),
}

/// The `Display` text of a WGSL parse error. It is left unstated here.
#[verifier::external_body]
fn parse_error_text(error: &naga::front::wgsl::ParseError) -> (r: String) {
    format!("{error}")
}

/// The `Display` text of a validation error. It is left unstated here.
#[verifier::external_body]
fn validation_error_text(error: &naga::WithSpan<naga::valid::ValidationError>) -> (r: String) {
    format!("{error}")
}

/// The `Display` text of a WGSL writer error. It is left unstated here.
#[verifier::external_body]
fn write_error_text(error: &naga::back::wgsl::Error) -> (r: String) {
    format!("{error}")
}

impl MinifyError {
    /// The text that names the stage that failed.
    pub open spec fn message_prefix(&self) -> Seq<char> {
        match self {
            MinifyError::Parse(_) => "WGSL parse error: "@,
            MinifyError::Validate(_) => "WGSL validation error: "@,
            MinifyError::Write(_) => "WGSL write error: "@,
        }
    }

    /// A human-readable description: the stage that failed, then the
    /// compiler's own message.
    pub fn message(&self) -> (r: String)
        ensures
            r@.len() >= self.message_prefix().len(),
            r@.subrange(0, self.message_prefix().len() as int) == self.message_prefix(),
    {
        let (mut text, detail) = match self {
            MinifyError::Parse(error) => ("WGSL parse error: ".to_owned(), parse_error_text(error)),
            MinifyError::Validate(error) => (
                "WGSL validation error: ".to_owned(),
                validation_error_text(error),
            ),
            MinifyError::Write(error) => ("WGSL write error: ".to_owned(), write_error_text(error)),
        };
        let ghost prefix = text@;
        text.append(detail.as_str());
        assert(text@.subrange(0, prefix.len() as int) =~= prefix);
        text
    }
}

/// Whether naga's WGSL front end (`naga::front::wgsl::parse_str`) accepts
/// the source text `source`.
pub uninterp spec fn wgsl_parses(source: Seq<char>) -> bool;

/// Whether naga's validator (`naga::valid::Validator::validate`, with every
/// validation flag and every capability) accepts the module parsed from the
/// source text `source`. It speaks of sources that parse.
pub uninterp spec fn wgsl_validates(source: Seq<char>) -> bool;

/// The WGSL text `naga::back::wgsl::write_string` prints, with no writer
/// flags, for the validated module of the source text `source`; `None` when
/// the writer fails. It speaks of sources that parse and validate.
pub uninterp spec fn wgsl_printed(source: Seq<char>) -> Option<Seq<char>>;

/// A module parsed from WGSL, with the source text it was parsed from.
/// Only `parse_wgsl` makes one.
struct ParsedWgsl {
    module: naga::Module,
    source: Ghost<Seq<char>>,
}

/// A parsed module that passed validation, with its validation info and the
/// source text it was parsed from. Only `validate_module` makes one.
struct ValidatedWgsl {
    module: naga::Module,
    info: naga::valid::ModuleInfo,
    source: Ghost<Seq<char>>,
}

/// Parses WGSL source with `naga::front::wgsl::parse_str`, which is a
/// function of the source text alone. The module it builds is kept
/// together with that text.
#[verifier::external_body]
fn parse_wgsl(source: &str) -> (r: Result<ParsedWgsl, naga::front::wgsl::ParseError>)
    ensures
        r is Ok <==> wgsl_parses(source@),
        r matches Ok(parsed) ==> parsed.source@ == source@,
{
    naga::front::wgsl::parse_str(source).map(|module| ParsedWgsl { module, source: Ghost(source@) })
}

/// Validates a parsed module with `naga::valid::Validator::validate`, using
/// every validation flag and every capability. The validator is a function
/// of the module, so of the source it was parsed from.
#[verifier::external_body]
fn validate_module(
    parsed: ParsedWgsl,
) -> (r: Result<ValidatedWgsl, Box<naga::WithSpan<naga::valid::ValidationError>>>)
    ensures
        r is Ok <==> wgsl_validates(parsed.source@),
        r matches Ok(validated) ==> validated.source@ == parsed.source@,
{
    let ParsedWgsl { module, source } = parsed;
    let info = naga::valid::Validator::new(
        naga::valid::ValidationFlags::all(),
        naga::valid::Capabilities::all(),
    ).validate(&module).map_err(Box::new)?;
    Ok(ValidatedWgsl { module, info, source })
}

/// Prints a validated module as WGSL with `naga::back::wgsl::write_string`
/// and no writer flags. The printed text is a function of the module and its
/// validation info, so of the source they came from.
#[verifier::external_body]
fn write_wgsl(validated: &ValidatedWgsl) -> (r: Result<String, naga::back::wgsl::Error>)
    ensures
        r is Ok <==> wgsl_printed(validated.source@) is Some,
        r matches Ok(printed) ==> wgsl_printed(validated.source@) == Some(printed@),
{
    naga::back::wgsl::write_string(&validated.module, &validated.info, naga::back::wgsl::WriterFlags::empty())
}

/// What `minify_wgsl` makes of the WGSL source `source`: the stage that
/// rejects it, or the minified text naga printed for it.
pub enum WgslOutcome {
    ParseFails,
    ValidationFails,
    WriteFails,
    Minified(Seq<char>),
}

/// The outcome of compiling and minifying the WGSL source `source`.
pub open spec fn wgsl_outcome(source: Seq<char>) -> WgslOutcome {
    if !wgsl_parses(source) {
        WgslOutcome::ParseFails
    } else if !wgsl_validates(source) {
        WgslOutcome::ValidationFails
    } else {
        match wgsl_printed(source) {
            None => WgslOutcome::WriteFails,
            Some(printed) => WgslOutcome::Minified(minified(encode_utf8(printed))),
        }
    }
}

/// Law: the shader that comes out is naga's printed module, minified; the
/// source text itself is not minified. A source that parses and validates
/// and that naga prints as `printed` comes out as the minified UTF-8 of
/// `printed`, so comments and layout of the source never reach the output.
pub proof fn lemma_minify_uses_printed_module(source: Seq<char>, printed: Seq<char>)
    requires
        wgsl_parses(source),
        wgsl_validates(source),
        wgsl_printed(source) == Some(printed),
    ensures
        wgsl_outcome(source) == WgslOutcome::Minified(minified(encode_utf8(printed))),
{
}

/// Law: two sources that naga reads as the same module (they print the same
/// text, as sources that differ only in comments or spacing do) minify to
/// the same shader.
pub proof fn lemma_same_module_same_shader(a: Seq<char>, b: Seq<char>)
    requires
        wgsl_parses(a),
        wgsl_parses(b),
        wgsl_validates(a),
        wgsl_validates(b),
        wgsl_printed(a) == wgsl_printed(b),
    ensures
        wgsl_outcome(a) == wgsl_outcome(b),
{
}

/// Compiles WGSL source through naga (parse, validate, print) and minifies
/// the whitespace of the printed shader.
pub fn minify_wgsl(input: &str) -> (r: Result<String, MinifyError>)
    ensures
        match wgsl_outcome(input@) {
            WgslOutcome::ParseFails => r matches Err(MinifyError::Parse(_)),
            WgslOutcome::ValidationFails => r matches Err(MinifyError::Validate(_)),
            WgslOutcome::WriteFails => r matches Err(MinifyError::Write(_)),
            WgslOutcome::Minified(text) => r matches Ok(output) && output@ == text,
        },
        !wgsl_parses(input@) ==> r matches Err(MinifyError::Parse(_)),
        wgsl_parses(input@) && !wgsl_validates(input@) ==> r matches Err(MinifyError::Validate(_)),
        wgsl_parses(input@) && wgsl_validates(input@) && wgsl_printed(input@) is None ==> r matches Err(
            MinifyError::Write(_),
        ),
        wgsl_parses(input@) && wgsl_validates(input@) && wgsl_printed(input@) is Some ==> (r matches Ok(
            output,
        ) && output@ == minified(encode_utf8(wgsl_printed(input@)->0))),
        r matches Ok(output) ==> is_tightly_spaced(output@),
{
    let parsed = match parse_wgsl(input) {
        Ok(parsed) => parsed,
        Err(err) => return Err(MinifyError::Parse(err)),
    };
    let validated = match validate_module(parsed) {
        Ok(validated) => validated,
        Err(err) => return Err(MinifyError::Validate(err)),
    };
    let printed = match write_wgsl(&validated) {
        Ok(printed) => printed,
        Err(err) => return Err(MinifyError::Write(err)),
    };
    let printed_text: &str = printed.as_str();
    let output = minify_whitespace(printed_text);
    proof {
        lemma_minified_is_tightly_spaced(printed_text.spec_bytes());
    }
    Ok(output)
}

// ---------------------------------------------------------------------------
// Byte classes
// ---------------------------------------------------------------------------

/// ASCII whitespace as `u8::is_ascii_whitespace` classifies it:
/// space, horizontal tab, line feed, form feed and carriage return.
pub open spec fn spec_is_whitespace(byte: u8) -> bool {
    byte == 0x20u8 || byte == 0x09u8 || byte == 0x0Au8 || byte == 0x0Cu8 || byte == 0x0Du8
}

/// ASCII letters.
pub open spec fn spec_is_alphabetic(byte: u8) -> bool {
    (0x41u8 <= byte <= 0x5Au8) || (0x61u8 <= byte <= 0x7Au8)
}

/// ASCII letters and digits.
pub open spec fn spec_is_alphanumeric(byte: u8) -> bool {
    spec_is_alphabetic(byte) || (0x30u8 <= byte <= 0x39u8)
}

/// Bytes that may be part of a WGSL identifier, keyword or number.
pub open spec fn spec_is_word_byte(byte: u8) -> bool {
    spec_is_alphanumeric(byte) || byte == 0x5Fu8
}

/// Two tokens must stay apart exactly when both touching bytes are word bytes.
pub open spec fn spec_needs_separator(previous: u8, next: u8) -> bool {
    spec_is_word_byte(previous) && spec_is_word_byte(next)
}

fn is_ascii_whitespace(byte: u8) -> (r: bool)
    ensures
        r == spec_is_whitespace(byte),
{
    byte == 0x20u8 || byte == 0x09u8 || byte == 0x0Au8 || byte == 0x0Cu8 || byte == 0x0Du8
}

fn is_ascii_alphabetic(byte: u8) -> (r: bool)
    ensures
        r == spec_is_alphabetic(byte),
{
    (0x41u8 <= byte && byte <= 0x5Au8) || (0x61u8 <= byte && byte <= 0x7Au8)
}

fn is_ascii_alphanumeric(byte: u8) -> (r: bool)
    ensures
        r == spec_is_alphanumeric(byte),
{
    is_ascii_alphabetic(byte) || (0x30u8 <= byte && byte <= 0x39u8)
}

/// Whether two tokens, ending in `previous` and starting with `next`, would
/// merge into one if the whitespace between them were dropped.
pub fn needs_separator(previous: u8, next: u8) -> (r: bool)
    ensures
        r == spec_needs_separator(previous, next),
{
    is_word_byte(previous) && is_word_byte(next)
}

/// Whether `byte` may be part of a WGSL word (letter, digit or underscore).
pub fn is_word_byte(byte: u8) -> (r: bool)
    ensures
        r == spec_is_word_byte(byte),
{
    is_ascii_alphanumeric(byte) || byte == 0x5Fu8
}

/// Whether `byte` may start a WGSL identifier (letter or underscore).
pub fn is_word_start(byte: u8) -> (r: bool)
    ensures
        r == (spec_is_alphabetic(byte) || byte == 0x5Fu8),
{
    is_ascii_alphabetic(byte) || byte == 0x5Fu8
}

/// Whether `byte` may continue a WGSL identifier (letter, digit or underscore).
pub fn is_word_continue(byte: u8) -> (r: bool)
    ensures
        r == spec_is_word_byte(byte),
{
    is_ascii_alphanumeric(byte) || byte == 0x5Fu8
}

/// The kind of the last token a tokenizer has emitted.
#[derive(Clone, Copy, PartialEq, Eq, Structural, Debug)]
pub enum TokenKind {
    Nothing,
    Word,
    String,
    Punctuation,
}

/// Two consecutive tokens need a space between them exactly when both are words.
pub fn needs_space(previous: TokenKind, current: TokenKind) -> (r: bool)
    ensures
        r == (previous == TokenKind::Word && current == TokenKind::Word),
{
    match (previous, current) {
        (TokenKind::Word, TokenKind::Word) => true,
        _ => false,
    }
}

// ---------------------------------------------------------------------------
// What minification produces
// ---------------------------------------------------------------------------

/// The text that whitespace minification produces from `s[i..]`, read as a
/// stream: `previous` is the last non-whitespace byte already emitted, and
/// `pending` records that whitespace was skipped since then. A skipped run of
/// whitespace becomes a single space when the bytes on both sides of it are
/// word bytes, and disappears otherwise (also at the start and the end).
/// Every other byte is kept, as the character with the same code.
pub open spec fn minify_from(s: Seq<u8>, i: int, previous: Option<u8>, pending: bool) -> Seq<char>
    decreases s.len() - i,
{
    if i < 0 || i >= s.len() {
        Seq::empty()
    } else if spec_is_whitespace(s[i]) {
        minify_from(s, i + 1, previous, true)
    } else {
        let separator = if pending && previous is Some && spec_needs_separator(
            previous->0,
            s[i],
        ) {
            seq![' ']
        } else {
            Seq::empty()
        };
        separator + seq![s[i] as char] + minify_from(s, i + 1, Some(s[i]), false)
    }
}

/// The whitespace-minified form of the byte string `s`.
pub open spec fn minified(s: Seq<u8>) -> Seq<char> {
    minify_from(s, 0, None, false)
}

// ---------------------------------------------------------------------------
// Whitespace minification
// ---------------------------------------------------------------------------

/// Removes every run of ASCII whitespace from `input`, keeping a single space
/// only where the run separates two word bytes.
pub fn minify_whitespace(input: &str) -> (output: String)
    ensures
        output@ == minified(input.spec_bytes()),
{
    let mut output = String::new();
    let bytes = input.as_bytes();
    let ghost s = bytes@;

    let mut i: usize = 0;
    let mut previous_non_space: Option<u8> = None;

    while i < bytes.len()
        invariant
            s == bytes@,
            i <= s.len(),
            output@ + minify_from(s, i as int, previous_non_space, false) == minified(s),
        decreases s.len() - i,
    {
        let byte = bytes[i];

        if is_ascii_whitespace(byte) {
            assert(minify_from(s, i as int, previous_non_space, false) == minify_from(
                s,
                i + 1,
                previous_non_space,
                true,
            ));
            let ghost run_start = i;
            i += 1;

            while i < bytes.len() && is_ascii_whitespace(bytes[i])
                invariant
                    s == bytes@,
                    run_start < i <= s.len(),
                    output@ + minify_from(s, i as int, previous_non_space, true) == minified(s),
                decreases s.len() - i,
            {
                assert(minify_from(s, i as int, previous_non_space, true) == minify_from(
                    s,
                    i + 1,
                    previous_non_space,
                    true,
                ));
                i += 1;
            }

            if i < bytes.len() {
                let next = bytes[i];
                let ghost rest = seq![next as char] + minify_from(s, i + 1, Some(next), false);
                assert(minify_from(s, i as int, previous_non_space, false) == rest);
                match previous_non_space {
                    Some(previous) => {
                        if needs_separator(previous, next) {
                            assert(minify_from(s, i as int, previous_non_space, true) == seq![' ']
                                + rest);
                            push_char(&mut output, ' ');
                            assert(output@ + minify_from(s, i as int, previous_non_space, false)
                                == minified(s));
                        } else {
                            assert(minify_from(s, i as int, previous_non_space, true) =~= rest);
                        }
                    },
                    None => {
                        assert(minify_from(s, i as int, previous_non_space, true) =~= rest);
                    },
                }
            } else {
                assert(output@ + minify_from(s, i as int, previous_non_space, false) =~= minified(
                    s,
                ));
            }
            continue;
        }
        assert(minify_from(s, i as int, previous_non_space, false) =~= seq![byte as char]
            + minify_from(s, i + 1, Some(byte), false));
        push_char(&mut output, byte as char);
        previous_non_space = Some(byte);
        i += 1;
        assert(output@ + minify_from(s, i as int, previous_non_space, false) =~= minified(s));
    }
    assert(output@ =~= minified(s));
    output
}


// ---------------------------------------------------------------------------
// Laws of minification
// ---------------------------------------------------------------------------

/// ASCII whitespace among characters.
pub open spec fn spec_is_whitespace_char(c: char) -> bool {
    c == ' ' || c == '\t' || c == '\n' || c == '\x0C' || c == '\r'
}

/// Word characters (letters, digits, underscore).
pub open spec fn spec_is_word_char(c: char) -> bool {
    ('0' <= c <= '9') || ('A' <= c <= 'Z') || ('a' <= c <= 'z') || c == '_'
}

/// The only whitespace left in `t` is single spaces, each with a word character
/// on both sides.
pub open spec fn is_tightly_spaced(t: Seq<char>) -> bool {
    forall|k: int|
        0 <= k < t.len() && #[trigger] spec_is_whitespace_char(t[k]) ==> {
            &&& t[k] == ' '
            &&& 0 < k
            &&& k + 1 < t.len()
            &&& spec_is_word_char(t[k - 1])
            &&& spec_is_word_char(t[k + 1])
        }
}

/// The non-whitespace bytes of `s[i..]`, in order, as characters.
pub open spec fn visible_bytes_from(s: Seq<u8>, i: int) -> Seq<char>
    decreases s.len() - i,
{
    if i < 0 || i >= s.len() {
        Seq::empty()
    } else if spec_is_whitespace(s[i]) {
        visible_bytes_from(s, i + 1)
    } else {
        seq![s[i] as char] + visible_bytes_from(s, i + 1)
    }
}

/// The non-whitespace characters of `t`, in order.
pub open spec fn visible_chars(t: Seq<char>) -> Seq<char>
    decreases t.len(),
{
    if t.len() == 0 {
        Seq::empty()
    } else if spec_is_whitespace_char(t[0]) {
        visible_chars(t.drop_first())
    } else {
        seq![t[0]] + visible_chars(t.drop_first())
    }
}

/// All bytes are ASCII.
pub open spec fn is_ascii_bytes(s: Seq<u8>) -> bool {
    forall|i: int| 0 <= i < s.len() ==> #[trigger] s[i] < 0x80u8
}

/// The bytes of a text made of characters below U+0100, one byte per character.
pub open spec fn char_codes(t: Seq<char>) -> Seq<u8> {
    t.map_values(|c: char| c as u8)
}

proof fn lemma_byte_char_classes(b: u8)
    ensures
        spec_is_whitespace_char(b as char) == spec_is_whitespace(b),
        spec_is_word_char(b as char) == spec_is_word_byte(b),
        (b as char) as u8 == b,
        (b as char) == ' ' <==> b == 0x20u8,
{
}


/// `t` is tightly spaced when it follows the byte `previous` (if any) in the output.
spec fn spaced_after(t: Seq<char>, previous: Option<u8>) -> bool {
    forall|k: int|
        0 <= k < t.len() && #[trigger] spec_is_whitespace_char(t[k]) ==> {
            &&& t[k] == ' '
            &&& k + 1 < t.len()
            &&& spec_is_word_char(t[k + 1])
            &&& k == 0 ==> previous is Some && spec_is_word_byte(previous->0)
            &&& k > 0 ==> spec_is_word_char(t[k - 1])
        }
}

proof fn lemma_minify_from_spaced(s: Seq<u8>, i: int, previous: Option<u8>, pending: bool)
    ensures
        spaced_after(minify_from(s, i, previous, pending), previous),
    decreases s.len() - i,
{
    if i < 0 || i >= s.len() {
    } else if spec_is_whitespace(s[i]) {
        lemma_minify_from_spaced(s, i + 1, previous, true);
    } else {
        let b = s[i];
        lemma_byte_char_classes(b);
        let rest = minify_from(s, i + 1, Some(b), false);
        lemma_minify_from_spaced(s, i + 1, Some(b), false);
        let with_sep = pending && previous is Some && spec_needs_separator(previous->0, b);
        let t = minify_from(s, i, previous, pending);
        if with_sep {
            assert(t =~= seq![' '] + seq![b as char] + rest);
            assert forall|k: int|
                0 <= k < t.len() && #[trigger] spec_is_whitespace_char(t[k]) implies {
                &&& t[k] == ' '
                &&& k + 1 < t.len()
                &&& spec_is_word_char(t[k + 1])
                &&& k == 0 ==> previous is Some && spec_is_word_byte(previous->0)
                &&& k > 0 ==> spec_is_word_char(t[k - 1])
            } by {
                if k >= 2 {
                    assert(t[k] == rest[k - 2]);
                    assert(spec_is_whitespace_char(rest[k - 2]));
                    assert(t[k + 1] == rest[k - 1]);
                    if k > 2 {
                        assert(t[k - 1] == rest[k - 3]);
                    }
                }
            }
        } else {
            assert(t =~= seq![b as char] + rest);
            assert forall|k: int|
                0 <= k < t.len() && #[trigger] spec_is_whitespace_char(t[k]) implies {
                &&& t[k] == ' '
                &&& k + 1 < t.len()
                &&& spec_is_word_char(t[k + 1])
                &&& k == 0 ==> previous is Some && spec_is_word_byte(previous->0)
                &&& k > 0 ==> spec_is_word_char(t[k - 1])
            } by {
                if k >= 1 {
                    assert(t[k] == rest[k - 1]);
                    assert(spec_is_whitespace_char(rest[k - 1]));
                    assert(t[k + 1] == rest[k]);
                    if k > 1 {
                        assert(t[k - 1] == rest[k - 2]);
                    }
                }
            }
        }
    }
}

/// Law: minified text keeps no whitespace except single spaces that separate
/// two word characters; in particular it neither starts nor ends with a space.
pub proof fn lemma_minified_is_tightly_spaced(s: Seq<u8>)
    ensures
        is_tightly_spaced(minified(s)),
{
    lemma_minify_from_spaced(s, 0, None, false);
}

proof fn lemma_visible_chars_concat(a: Seq<char>, b: Seq<char>)
    ensures
        visible_chars(a + b) == visible_chars(a) + visible_chars(b),
    decreases a.len(),
{
    if a.len() == 0 {
        assert(a + b =~= b);
    } else {
        assert((a + b).drop_first() =~= a.drop_first() + b);
        lemma_visible_chars_concat(a.drop_first(), b);
        assert((a + b)[0] == a[0]);
        if !spec_is_whitespace_char(a[0]) {
            assert(seq![a[0]] + visible_chars(a.drop_first() + b) =~= seq![a[0]] + visible_chars(
                a.drop_first(),
            ) + visible_chars(b));
        }
    }
}

proof fn lemma_minify_from_visible(s: Seq<u8>, i: int, previous: Option<u8>, pending: bool)
    ensures
        visible_chars(minify_from(s, i, previous, pending)) == visible_bytes_from(s, i),
    decreases s.len() - i,
{
    if i < 0 || i >= s.len() {
    } else if spec_is_whitespace(s[i]) {
        lemma_minify_from_visible(s, i + 1, previous, true);
    } else {
        let b = s[i];
        lemma_byte_char_classes(b);
        let rest = minify_from(s, i + 1, Some(b), false);
        lemma_minify_from_visible(s, i + 1, Some(b), false);
        let with_sep = pending && previous is Some && spec_needs_separator(previous->0, b);
        let one = seq![b as char];
        assert(one.drop_first() =~= Seq::<char>::empty());
        assert(visible_chars(Seq::<char>::empty()) == Seq::<char>::empty());
        assert(visible_chars(one) =~= one);
        lemma_visible_chars_concat(one, rest);
        if with_sep {
            let sp = seq![' '];
            assert(sp.drop_first() =~= Seq::<char>::empty());
            assert(visible_chars(sp) =~= Seq::<char>::empty());
            lemma_visible_chars_concat(sp, one + rest);
            assert(minify_from(s, i, previous, pending) =~= sp + (one + rest));
            assert(visible_chars(sp + (one + rest)) =~= visible_chars(one + rest));
        } else {
            assert(minify_from(s, i, previous, pending) =~= one + rest);
        }
    }
}

/// Law: minification changes nothing but whitespace: the non-whitespace
/// characters of the output are exactly the non-whitespace bytes of the input,
/// in the same order.
pub proof fn lemma_minified_keeps_visible_text(s: Seq<u8>)
    ensures
        visible_chars(minified(s)) == visible_bytes_from(s, 0),
{
    lemma_minify_from_visible(s, 0, None, false);
}

proof fn lemma_minify_from_len(s: Seq<u8>, i: int, previous: Option<u8>, pending: bool)
    requires
        0 <= i <= s.len(),
    ensures
        minify_from(s, i, previous, pending).len() + i <= s.len() + (if pending { 1int } else { 0 }),
        !pending ==> minify_from(s, i, previous, pending).len() + i <= s.len(),
    decreases s.len() - i,
{
    if i >= s.len() {
    } else if spec_is_whitespace(s[i]) {
        lemma_minify_from_len(s, i + 1, previous, true);
    } else {
        lemma_minify_from_len(s, i + 1, Some(s[i]), false);
    }
}

/// Law: minification never makes a text longer.
pub proof fn lemma_minified_not_longer(s: Seq<u8>)
    ensures
        minified(s).len() <= s.len(),
{
    lemma_minify_from_len(s, 0, None, false);
}


spec fn bytes_tightly_spaced(t: Seq<u8>) -> bool {
    forall|k: int|
        0 <= k < t.len() && #[trigger] spec_is_whitespace(t[k]) ==> {
            &&& t[k] == 0x20u8
            &&& 0 < k
            &&& k + 1 < t.len()
            &&& spec_is_word_byte(t[k - 1])
            &&& spec_is_word_byte(t[k + 1])
        }
}

proof fn lemma_tightly_spaced_fixpoint(t: Seq<u8>, i: int)
    requires
        bytes_tightly_spaced(t),
        0 <= i <= t.len(),
        i > 0 ==> !spec_is_whitespace(t[i - 1]),
    ensures
        minify_from(t, i, if i == 0 { None } else { Some(t[i - 1]) }, false) == t.skip(i).map_values(
            |b: u8| b as char,
        ),
    decreases t.len() - i,
{
    let previous = if i == 0 { None } else { Some(t[i - 1]) };
    if i == t.len() {
        assert(t.skip(i).map_values(|b: u8| b as char) =~= Seq::<char>::empty());
    } else if !spec_is_whitespace(t[i]) {
        lemma_tightly_spaced_fixpoint(t, i + 1);
        assert(t.skip(i).map_values(|b: u8| b as char) =~= seq![t[i] as char] + t.skip(
            i + 1,
        ).map_values(|b: u8| b as char));
    } else {
        assert(spec_is_whitespace(t[i]));
        assert(!spec_is_whitespace(t[i + 1]));
        lemma_tightly_spaced_fixpoint(t, i + 2);
        assert(minify_from(t, i, previous, false) == minify_from(t, i + 1, previous, true));
        assert(minify_from(t, i + 1, previous, true) =~= seq![' '] + seq![t[i + 1] as char]
            + minify_from(t, i + 2, Some(t[i + 1]), false));
        assert(t.skip(i).map_values(|b: u8| b as char) =~= seq![' '] + seq![t[i + 1] as char]
            + t.skip(i + 2).map_values(|b: u8| b as char));
    }
}

proof fn lemma_minify_from_ascii(s: Seq<u8>, i: int, previous: Option<u8>, pending: bool)
    requires
        is_ascii_bytes(s),
    ensures
        is_ascii_chars(minify_from(s, i, previous, pending)),
    decreases s.len() - i,
{
    if i < 0 || i >= s.len() {
    } else if spec_is_whitespace(s[i]) {
        lemma_minify_from_ascii(s, i + 1, previous, true);
        assert(minify_from(s, i, previous, pending) == minify_from(s, i + 1, previous, true));
    } else {
        lemma_minify_from_ascii(s, i + 1, Some(s[i]), false);
        let rest = minify_from(s, i + 1, Some(s[i]), false);
        let t = minify_from(s, i, previous, pending);
        assert(s[i] < 0x80u8);
        assert forall|k: int| 0 <= k < t.len() implies '\0' <= #[trigger] t[k] <= '\u{7f}' by {
            if pending && previous is Some && spec_needs_separator(previous->0, s[i]) {
                assert(t =~= seq![' '] + seq![s[i] as char] + rest);
                if k >= 2 {
                    assert(t[k] == rest[k - 2]);
                }
            } else {
                assert(t =~= seq![s[i] as char] + rest);
                if k >= 1 {
                    assert(t[k] == rest[k - 1]);
                }
            }
        }
    }
}

proof fn lemma_ascii_char_code(c: char)
    requires
        '\0' <= c <= '\u{7f}',
    ensures
        ((c as u8) as char) == c,
{
    let code = c as u32;
    assert(code < 0x80);
    assert(code as u8 == code) by (bit_vector)
        requires
            code < 0x80u32,
    ;
}

/// Law: on ASCII text, minifying the minified text again changes nothing.
pub proof fn lemma_minify_idempotent(s: Seq<u8>)
    requires
        is_ascii_bytes(s),
    ensures
        minified(char_codes(minified(s))) == minified(s),
{
    let out = minified(s);
    lemma_minified_is_tightly_spaced(s);
    lemma_minify_from_ascii(s, 0, None, false);
    let t = char_codes(out);
    assert forall|k: int| 0 <= k < out.len() implies #[trigger] (t[k] as char) == out[k] && (
    spec_is_whitespace(t[k]) == spec_is_whitespace_char(out[k])) && (spec_is_word_byte(t[k])
        == spec_is_word_char(out[k])) by {
        assert('\0' <= out[k] <= '\u{7f}');
        lemma_ascii_char_code(out[k]);
        lemma_byte_char_classes(t[k]);
    }
    assert forall|k: int| 0 <= k < t.len() && #[trigger] spec_is_whitespace(t[k]) implies {
        &&& t[k] == 0x20u8
        &&& 0 < k
        &&& k + 1 < t.len()
        &&& spec_is_word_byte(t[k - 1])
        &&& spec_is_word_byte(t[k + 1])
    } by {
        assert((t[k] as char) == out[k]);
        assert(spec_is_whitespace_char(out[k]));
        assert((t[k - 1] as char) == out[k - 1]);
        assert((t[k + 1] as char) == out[k + 1]);
        lemma_byte_char_classes(t[k - 1]);
        lemma_byte_char_classes(t[k + 1]);
        lemma_byte_char_classes(t[k]);
    }
    lemma_tightly_spaced_fixpoint(t, 0);
    assert(t.skip(0).map_values(|b: u8| b as char) =~= out);
}

} // verus!
