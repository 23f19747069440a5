//! The headers that go with every request: those that are configured, with
//! environment variables filled in, and the metadata that say who asks.
use vstd::prelude::*;
use vstd::string::*;

use crate::error::{Error, RootCause};
use crate::messages::{Platform, PropertyValue};
use crate::text::{chars_of, text_of};

verus! {

/// A character that a variable's name may start with.
pub open spec fn starts_name(c: char) -> bool {
    ('a' <= c && c <= 'z') || ('A' <= c && c <= 'Z') || c == '_'
}

/// A character that a variable's name may go on with.
pub open spec fn continues_name(c: char) -> bool {
    starts_name(c) || ('0' <= c && c <= '9')
}

/// A reference to a variable starts at `i`: a dollar sign and the start of a name.
pub open spec fn is_reference(text: Seq<char>, i: int) -> bool {
    0 <= i && i + 1 < text.len() && text[i] == '$' && starts_name(text[i + 1])
}

/// Where the name that reaches up to `i` ends.
pub open spec fn name_end(text: Seq<char>, i: int) -> int
    decreases text.len() - i,
{
    if 0 <= i < text.len() && continues_name(text[i]) {
        name_end(text, i + 1)
    } else {
        i
    }
}

/// A text taken apart: variables, each with the text before it, and the text after
/// the last.
pub ghost struct Template {
    pub variables: Seq<(Seq<char>, Seq<char>)>,
    pub tail: Seq<char>,
}

/// `text` taken apart from `i` on, where the text since `start` is still to be
/// placed.
pub open spec fn template_from(text: Seq<char>, start: int, i: int) -> Template
    decreases text.len() - i,
{
    if i < 0 || i >= text.len() {
        Template { variables: Seq::empty(), tail: text.subrange(start, text.len() as int) }
    } else if is_reference(text, i) {
        proof {
            name_end_moves_on(text, i + 2);
        }
        let end = name_end(text, i + 2);
        let rest = template_from(text, end, end);
        Template {
            variables: seq![(text.subrange(start, i), text.subrange(i + 1, end))] + rest.variables,
            tail: rest.tail,
        }
    } else {
        template_from(text, start, i + 1)
    }
}

/// A text taken apart at its references to variables.
pub open spec fn template(text: Seq<char>) -> Template {
    template_from(text, 0, 0)
}

/// The text with the first `n` variables replaced by `values`.
pub open spec fn filled(t: Template, values: Seq<Seq<char>>, n: int) -> Seq<char>
    decreases n,
{
    if n <= 0 {
        Seq::empty()
    } else {
        filled(t, values, n - 1) + t.variables[n - 1].0 + values[n - 1]
    }
}

/// The text with its variables replaced by `values`.
pub open spec fn substituted(t: Template, values: Seq<Seq<char>>) -> Seq<char> {
    filled(t, values, t.variables.len() as int) + t.tail
}

/// A name ends inside its text, and not before it starts.
pub proof fn name_end_moves_on(text: Seq<char>, i: int)
    requires
        0 <= i <= text.len(),
    ensures
        i <= name_end(text, i) <= text.len(),
    decreases text.len() - i,
{
    if i < text.len() && continues_name(text[i]) {
        name_end_moves_on(text, i + 1);
    }
}

fn char_starts_name(c: char) -> (yes: bool)
    ensures
        yes == starts_name(c),
{
    ('a' <= c && c <= 'z') || ('A' <= c && c <= 'Z') || c == '_'
}

fn char_continues_name(c: char) -> (yes: bool)
    ensures
        yes == continues_name(c),
{
    char_starts_name(c) || ('0' <= c && c <= '9')
}

/// A text taken apart at its references to variables: each variable with the text
/// before it, and the text after the last.
#[derive(Debug)]
pub struct EnvTemplate {
    pub variables: Vec<(String, String)>,
    pub tail: String,
}

impl View for EnvTemplate {
    type V = Template;

    open spec fn view(&self) -> Template {
        Template { variables: self.variables.deep_view(), tail: self.tail@ }
    }
}

/// Takes a text apart at its references to variables: a dollar sign and a name of
/// letters, digits and underscores that does not start with a digit, as long as it
/// can be.
pub fn parse_env_references(s: &str) -> (parsed: EnvTemplate)
    ensures
        parsed@ == template(s@),
{
    let chars = chars_of(s);
    let ghost text = s@;
    let mut variables: Vec<(String, String)> = Vec::new();
    let mut start: usize = 0;
    let mut i: usize = 0;
    let count: usize = chars.len();
    proof {
        assert(variables.deep_view() =~= Seq::empty());
        assert(Seq::<(Seq<char>, Seq<char>)>::empty() + template(text).variables =~= template(
            text,
        ).variables);
    }
    while i < count
        invariant
            chars@ == text,
            text.len() == count,
            start <= i <= text.len(),
            template(text).variables == variables.deep_view() + template_from(
                text,
                start as int,
                i as int,
            ).variables,
            template(text).tail == template_from(text, start as int, i as int).tail,
        decreases text.len() - i,
    {
        if chars[i] == '$' && i < count - 1 && char_starts_name(chars[i + 1]) {
            let mut end: usize = i + 2;
            while end < count && char_continues_name(chars[end])
                invariant
                    chars@ == text,
                    text.len() == count,
                    i + 2 <= end <= text.len(),
                    name_end(text, i + 2) == name_end(text, end as int),
                decreases text.len() - end,
            {
                end = end + 1;
            }
            let ghost before = variables.deep_view();
            let ghost rest = template_from(text, end as int, end as int);
            let literal = text_of(&chars, start, i);
            let name = text_of(&chars, i + 1, end);
            let ghost piece = (literal@, name@);
            variables.push((literal, name));
            proof {
                assert(is_reference(text, i as int));
                assert(end == name_end(text, i + 2));
                assert(variables.deep_view() =~= before.push(piece));
                assert(template_from(text, start as int, i as int).variables =~= seq![piece]
                    + rest.variables);
                assert(before + (seq![piece] + rest.variables) =~= before.push(piece)
                    + rest.variables);
            }
            start = end;
            i = end;
        } else {
            assert(!is_reference(text, i as int));
            i = i + 1;
        }
    }
    let tail = text_of(&chars, start, count);
    proof {
        assert(variables.deep_view() + Seq::empty() =~= variables.deep_view());
    }
    EnvTemplate { variables, tail }
}

/// Why a variable has no value.
#[derive(Debug)]
pub enum VarError {
    NotPresent,
    /// The value is not valid text; it is given in its quoted form.
    NotUnicode(String),
}

/// What is said of a variable without a value.
pub open spec fn var_error_text(error: VarError) -> Seq<char> {
    match error {
        VarError::NotPresent => "environment variable not found"@,
        VarError::NotUnicode(quoted) => "environment variable was not valid unicode: "@ + quoted@,
    }
}

/// `error` says that the variable `name` could not be filled in.
pub open spec fn is_substitution_error(error: Error, name: Seq<char>, cause: VarError) -> bool {
    &&& error.root matches RootCause::Message(text)
    &&& text@ == var_error_text(cause)
    &&& error.layers() == seq!["Error substituting `$"@ + name + "`"@]
}

/// A lookup of the variable `name` may give `reply`.
pub open spec fn gives<F: Fn(&str) -> Result<String, VarError>>(
    getter: F,
    name: Seq<char>,
    reply: Result<String, VarError>,
) -> bool {
    exists|key: &str| key@ == name && #[trigger] call_ensures(getter, (key,), reply)
}

/// The first `n` variables were looked up and gave `values`.
pub open spec fn gave<F: Fn(&str) -> Result<String, VarError>>(
    getter: F,
    t: Template,
    values: Seq<String>,
    n: int,
) -> bool {
    &&& values.len() == n
    &&& forall|i: int|
        0 <= i < n ==> gives(
            getter,
            t.variables[i].1,
            Ok::<String, VarError>(#[trigger] values[i]),
        )
}

/// Texts by what they say.
pub open spec fn texts(values: Seq<String>) -> Seq<Seq<char>> {
    values.map_values(|value: String| value@)
}

fn substitution_error(name: &String, cause: VarError) -> (error: Error)
    ensures
        is_substitution_error(error, name@, cause),
{
    let text = match cause {
        VarError::NotPresent => "environment variable not found".to_owned(),
        VarError::NotUnicode(quoted) => {
            let mut text = "environment variable was not valid unicode: ".to_owned();
            text.append(quoted.as_str());
            text
        },
    };
    let mut context = "Error substituting `$".to_owned();
    context.append(name.as_str());
    context.append("`");
    let error = Error::msg(text).context(context);
    assert(error.layers() =~= seq!["Error substituting `$"@ + name@ + "`"@]);
    error
}

proof fn filled_ignores_later(t: Template, values: Seq<Seq<char>>, more: Seq<char>, n: int)
    requires
        0 <= n <= values.len(),
    ensures
        filled(t, values.push(more), n) == filled(t, values, n),
    decreases n,
{
    if n > 0 {
        filled_ignores_later(t, values, more, n - 1);
    }
}

/// `text` is what filling in the variables of `source` may come to.
pub open spec fn fills_in<F: Fn(&str) -> Result<String, VarError>>(
    getter: F,
    source: Seq<char>,
    text: Seq<char>,
) -> bool {
    exists|values: Seq<String>|
        {
            &&& #[trigger] gave(
                getter,
                template(source),
                values,
                template(source).variables.len() as int,
            )
            &&& text == substituted(template(source), texts(values))
        }
}

/// `error` is what filling in the variables of `source` may fail with: the first
/// variable without a value.
pub open spec fn fails_to_fill_in<F: Fn(&str) -> Result<String, VarError>>(
    getter: F,
    source: Seq<char>,
    error: Error,
) -> bool {
    exists|values: Seq<String>, cause: VarError|
        {
            &&& values.len() < template(source).variables.len()
            &&& #[trigger] gave(getter, template(source), values, values.len() as int)
            &&& gives(
                getter,
                template(source).variables[values.len() as int].1,
                Err::<String, VarError>(cause),
            )
            &&& #[trigger] is_substitution_error(
                error,
                template(source).variables[values.len() as int].1,
                cause,
            )
        }
}

/// Replaces each reference to a variable by its value. Fails at the first variable
/// without one.
pub fn substitute_env_vars_impl<F: Fn(&str) -> Result<String, VarError>>(s: &str, getter: F) -> (
    outcome: Result<String, Error>)
    requires
        forall|key: &str| #[trigger] call_requires(getter, (key,)),
    ensures
        outcome matches Ok(text) ==> fills_in(getter, s@, text@),
        outcome matches Err(error) ==> fails_to_fill_in(getter, s@, error),
{
    substitute_with(s, &getter)
}

fn substitute_with<F: Fn(&str) -> Result<String, VarError>>(s: &str, getter: &F) -> (
    outcome: Result<String, Error>)
    requires
        forall|key: &str| #[trigger] call_requires(*getter, (key,)),
    ensures
        outcome matches Ok(text) ==> fills_in(*getter, s@, text@),
        outcome matches Err(error) ==> fails_to_fill_in(*getter, s@, error),
{
    let parsed = parse_env_references(s);
    let ghost t = template(s@);
    let ghost mut values: Seq<String> = Seq::empty();
    let mut out = String::new();
    let mut i: usize = 0;
    assert(out@ =~= filled(t, texts(values), 0));
    while i < parsed.variables.len()
        invariant
            forall|key: &str| #[trigger] call_requires(*getter, (key,)),
            parsed@ == t,
            t == template(s@),
            i <= parsed.variables@.len(),
            t.variables.len() == parsed.variables@.len(),
            gave(*getter, t, values, i as int),
            out@ == filled(t, texts(values), i as int),
        decreases parsed.variables@.len() - i,
    {
        assert(t.variables[i as int] == (parsed.variables@[i as int].0@, parsed.variables@[i as int].1@));
        out.append(parsed.variables[i].0.as_str());
        let key: &str = parsed.variables[i].1.as_str();
        match (*getter)(key) {
            Ok(value) => {
                out.append(value.as_str());
                proof {
                    assert(call_ensures(*getter, (key,), Ok::<String, VarError>(value)));
                    assert(gives(*getter, t.variables[i as int].1, Ok::<String, VarError>(value)));
                    let before = values;
                    values = values.push(value);
                    filled_ignores_later(t, texts(before), value@, i as int);
                    assert(texts(values) =~= texts(before).push(value@));
                    assert forall|j: int| 0 <= j < i + 1 implies gives(
                        *getter,
                        t.variables[j].1,
                        Ok::<String, VarError>(#[trigger] values[j]),
                    ) by {
                        if j < i {
                            assert(values[j] == before[j]);
                        }
                    }
                }
            },
            Err(cause) => {
                assert(call_ensures(*getter, (key,), Err::<String, VarError>(cause)));
                assert(gives(*getter, t.variables[i as int].1, Err::<String, VarError>(cause)));
                let error = substitution_error(&parsed.variables[i].1, cause);
                assert(is_substitution_error(error, t.variables[i as int].1, cause));
                return Err(error);
            },
        }
        i = i + 1;
    }
    out.append(parsed.tail.as_str());
    Ok(out)
}

proof fn filled_from_the_front(
    first: (Seq<char>, Seq<char>),
    rest: Template,
    value: Seq<char>,
    values: Seq<Seq<char>>,
    n: int,
)
    requires
        0 <= n <= rest.variables.len(),
        values.len() == rest.variables.len(),
    ensures
        filled(
            Template { variables: seq![first] + rest.variables, tail: rest.tail },
            seq![value] + values,
            n + 1,
        ) == first.0 + value + filled(rest, values, n),
    decreases n,
{
    let t = Template { variables: seq![first] + rest.variables, tail: rest.tail };
    let vs = seq![value] + values;
    if n == 0 {
        assert(filled(t, vs, 0) =~= Seq::empty());
        assert(filled(t, vs, 1) =~= first.0 + value + filled(rest, values, 0));
    } else {
        filled_from_the_front(first, rest, value, values, n - 1);
        assert(t.variables[n] == rest.variables[n - 1]);
        assert(vs[n] == values[n - 1]);
        assert(filled(t, vs, n + 1) =~= first.0 + value + filled(rest, values, n));
    }
}

/// The references of a text, as they stand in it.
pub open spec fn own_references(t: Template) -> Seq<Seq<char>> {
    t.variables.map_values(|variable: (Seq<char>, Seq<char>)| seq!['$'] + variable.1)
}

proof fn references_rebuild_from(text: Seq<char>, start: int, i: int)
    requires
        0 <= start <= i <= text.len(),
    ensures
        substituted(
            template_from(text, start, i),
            own_references(template_from(text, start, i)),
        ) =~= text.subrange(start, text.len() as int),
    decreases text.len() - i,
{
    let t = template_from(text, start, i);
    if i >= text.len() {
        assert(own_references(t) =~= Seq::empty());
    } else if is_reference(text, i) {
        name_end_moves_on(text, i + 2);
        let end = name_end(text, i + 2);
        let rest = template_from(text, end, end);
        references_rebuild_from(text, end, end);
        let first = (text.subrange(start, i), text.subrange(i + 1, end));
        let value = seq!['$'] + first.1;
        assert(own_references(t) =~= seq![value] + own_references(rest));
        filled_from_the_front(
            first,
            rest,
            value,
            own_references(rest),
            rest.variables.len() as int,
        );
        assert(value =~= text.subrange(i, end));
        assert(t.variables.len() == rest.variables.len() + 1);
        let middle = filled(rest, own_references(rest), rest.variables.len() as int);
        assert(substituted(t, own_references(t)) =~= first.0 + value + (middle + rest.tail));
        assert(middle + rest.tail =~= text.subrange(end, text.len() as int));
    } else {
        references_rebuild_from(text, start, i + 1);
    }
}

/// Replacing every variable by its own reference gives the text back: taking a text
/// apart loses nothing and changes no order.
pub proof fn references_rebuild_the_text(text: Seq<char>)
    ensures
        substituted(template(text), own_references(template(text))) == text,
{
    references_rebuild_from(text, 0, 0);
    assert(text.subrange(0, text.len() as int) =~= text);
}

proof fn no_reference_from(text: Seq<char>, start: int, i: int)
    requires
        0 <= start <= i <= text.len(),
        forall|k: int| i <= k < text.len() ==> !is_reference(text, k),
    ensures
        template_from(text, start, i).variables.len() == 0,
        template_from(text, start, i).tail == text.subrange(start, text.len() as int),
    decreases text.len() - i,
{
    if i < text.len() {
        no_reference_from(text, start, i + 1);
    }
}

/// A text without references is left as it is.
pub proof fn text_without_references_stays(text: Seq<char>, values: Seq<Seq<char>>)
    requires
        forall|k: int| 0 <= k < text.len() ==> !is_reference(text, k),
    ensures
        template(text).variables.len() == 0,
        substituted(template(text), values) == text,
{
    no_reference_from(text, 0, 0);
    assert(substituted(template(text), values) =~= text);
}

/// A header that is configured.
#[derive(Debug)]
pub struct HttpHeader {
    pub key: String,
    pub value: String,
}

/// The error of a header name that is not one.
#[verifier::external_type_specification]
#[verifier::external_body]
pub struct ExInvalidMetadataKey(tonic::metadata::errors::InvalidMetadataKey);

/// The error of a header value that is not one.
#[verifier::external_type_specification]
#[verifier::external_body]
pub struct ExInvalidMetadataValue(tonic::metadata::errors::InvalidMetadataValue);

/// A character that a header's name may hold.
pub open spec fn is_name_char(c: char) -> bool {
    ||| 'a' <= c && c <= 'z'
    ||| 'A' <= c && c <= 'Z'
    ||| '0' <= c && c <= '9'
    ||| c == '!' || c == '#' || c == '$' || c == '%' || c == '&' || c == '\'' || c == '*'
    ||| c == '+' || c == '-' || c == '.' || c == '^' || c == '_' || c == '`' || c == '|'
    ||| c == '~'
}

/// A character with a capital of the Latin alphabet made small.
pub open spec fn small(c: char) -> char {
    if 'A' <= c && c <= 'Z' {
        (c as int + 32) as char
    } else {
        c
    }
}

/// How long a header's name may be.
pub const MAX_HEADER_NAME_LEN: usize = 65_535;

/// The form in which a header name is sent, which is in small letters; nothing where
/// a text is not the name of a header with text for a value. Names that end in `-bin`
/// are those of headers with bytes for a value.
pub open spec fn header_name(text: Seq<char>) -> Option<Seq<char>> {
    let name = text.map_values(|c: char| small(c));
    if 0 < text.len() <= MAX_HEADER_NAME_LEN && (forall|i: int|
        0 <= i < text.len() ==> is_name_char(#[trigger] text[i])) && !"-bin"@.is_suffix_of(name) {
        Some(name)
    } else {
        None
    }
}

/// `tonic::metadata::MetadataKey::<Ascii>::from_bytes`: the name in small letters,
/// for a text that is not empty, not too long, made of the characters of a name and
/// not that of a header with bytes for a value; an error for any other.
#[verifier::external_body]
fn metadata_key(key: &str) -> (name: Result<String, tonic::metadata::errors::InvalidMetadataKey>)
    ensures
        name is Ok == (header_name(key@) is Some),
        name matches Ok(n) ==> header_name(key@) == Some(n@),
{
    let key = tonic::metadata::MetadataKey::<tonic::metadata::Ascii>::from_bytes(key.as_bytes())?;
    Ok(key.as_str().to_owned())
}

/// A character that a header's value may hold: none of the control characters but
/// the tab.
pub open spec fn is_header_char(c: char) -> bool {
    ((c as int) >= 32 && (c as int) != 127) || c == '\t'
}

/// A text that a header may have as its value.
pub open spec fn is_header_value(text: Seq<char>) -> bool {
    forall|i: int| 0 <= i < text.len() ==> is_header_char(#[trigger] text[i])
}

/// `tonic::metadata::MetadataValue::try_from` a `String`: succeeds for a text
/// without control characters other than the tab, and fails for any other.
#[verifier::external_body]
fn metadata_value(value: &String) -> (checked: Result<
    (),
    tonic::metadata::errors::InvalidMetadataValue,
>)
    ensures
        checked is Ok == is_header_value(value@),
{
    tonic::metadata::MetadataValue::try_from(value)?;
    Ok(())
}

/// The headers that go with every request, by the name under which each is sent.
#[derive(Debug)]
pub struct InjectHeadersInterceptor {
    pub headers: Vec<(String, String)>,
}

/// What is said of a header that is not one.
pub open spec fn invalid_header_text(what: Seq<char>, key: Seq<char>, value: Seq<char>) -> Seq<char> {
    "Invalid "@ + what + " in header: `"@ + key + ": "@ + value + "`"@
}

/// `outcome` is what a configured header comes to once its variables are filled in.
pub open spec fn is_checked_header(
    key: Seq<char>,
    value: Seq<char>,
    outcome: Result<(String, String), Error>,
) -> bool {
    match header_name(key) {
        None => {
            &&& outcome matches Err(error)
            &&& error.root matches RootCause::Message(text)
            &&& text@ == "invalid gRPC metadata key name"@
            &&& error.layers() == seq![invalid_header_text("key"@, key, value)]
        },
        Some(name) => if is_header_value(value) {
            outcome matches Ok(header) && header.0@ == name && header.1@ == value
        } else {
            &&& outcome matches Err(error)
            &&& error.root matches RootCause::Message(text)
            &&& text@ == "failed to parse metadata value"@
            &&& error.layers() == seq![invalid_header_text("value"@, name, value)]
        },
    }
}

fn invalid_header(what: &str, key: &str, value: &str) -> (text: String)
    ensures
        text@ == invalid_header_text(what@, key@, value@),
{
    let mut text = "Invalid ".to_owned();
    text.append(what);
    text.append(" in header: `");
    text.append(key);
    text.append(": ");
    text.append(value);
    text.append("`");
    text
}

/// Checks a header whose variables are filled in.
pub fn check_header(key: String, value: String) -> (outcome: Result<(String, String), Error>)
    ensures
        is_checked_header(key@, value@, outcome),
{
    let name = match metadata_key(key.as_str()) {
        Ok(name) => name,
        Err(_) => {
            let error = Error::msg("invalid gRPC metadata key name".to_owned()).context(
                invalid_header("key", key.as_str(), value.as_str()),
            );
            assert(error.layers() =~= seq![invalid_header_text("key"@, key@, value@)]);
            return Err(error);
        },
    };
    match metadata_value(&value) {
        Ok(_) => Ok((name, value)),
        Err(_) => {
            let error = Error::msg("failed to parse metadata value".to_owned()).context(
                invalid_header("value", name.as_str(), value.as_str()),
            );
            assert(error.layers() =~= seq![invalid_header_text("value"@, name@, value@)]);
            Err(error)
        },
    }
}

/// `header` is what a configured header may come to.
pub open spec fn is_injected<F: Fn(&str) -> Result<String, VarError>>(
    getter: F,
    source: HttpHeader,
    header: (String, String),
) -> bool {
    exists|key: Seq<char>|
        {
            &&& #[trigger] fills_in(getter, source.key@, key)
            &&& header_name(key) == Some(header.0@)
            &&& fills_in(getter, source.value@, header.1@)
            &&& is_header_value(header.1@)
        }
}

/// A configured header may come to a header.
pub open spec fn can_inject<F: Fn(&str) -> Result<String, VarError>>(
    getter: F,
    source: HttpHeader,
) -> bool {
    exists|header: (String, String)| is_injected(getter, source, header)
}

/// `error` is what a configured header may fail with.
pub open spec fn fails_to_inject<F: Fn(&str) -> Result<String, VarError>>(
    getter: F,
    source: HttpHeader,
    error: Error,
) -> bool {
    ||| fails_to_fill_in(getter, source.key@, error)
    ||| {
        &&& exists|key: Seq<char>| #[trigger] fills_in(getter, source.key@, key)
        &&& fails_to_fill_in(getter, source.value@, error)
    }
    ||| exists|key: Seq<char>, value: Seq<char>|
        {
            &&& fills_in(getter, source.key@, key)
            &&& fills_in(getter, source.value@, value)
            &&& #[trigger] is_checked_header(key, value, Err::<(String, String), Error>(error))
        }
}

impl InjectHeadersInterceptor {
    /// Fills in the variables of the configured headers and checks them. Fails at
    /// the first header whose variables have no value or that is not a header.
    pub fn new<F: Fn(&str) -> Result<String, VarError>>(headers: &Vec<HttpHeader>, getter: &F) -> (
        interceptor: Result<Self, Error>)
        requires
            forall|key: &str| #[trigger] call_requires(*getter, (key,)),
        ensures
            interceptor matches Ok(injected) ==> {
                &&& injected.headers@.len() == headers@.len()
                &&& forall|i: int|
                    0 <= i < headers@.len() ==> is_injected(
                        *getter,
                        headers@[i],
                        #[trigger] injected.headers@[i],
                    )
            },
            interceptor matches Err(error) ==> exists|i: int, inner: Error|
                {
                    &&& 0 <= i < headers@.len()
                    &&& forall|j: int|
                        0 <= j < i ==> can_inject(*getter, #[trigger] headers@[j])
                    &&& #[trigger] fails_to_inject(*getter, headers@[i], inner)
                    &&& error.wraps(inner, "Error converting headers"@)
                },
    {
        let mut injected: Vec<(String, String)> = Vec::new();
        let mut i: usize = 0;
        while i < headers.len()
            invariant
                forall|key: &str| #[trigger] call_requires(*getter, (key,)),
                i <= headers@.len(),
                injected@.len() == i,
                forall|j: int|
                    0 <= j < i ==> is_injected(*getter, headers@[j], #[trigger] injected@[j]),
            decreases headers@.len() - i,
        {
            match convert_header(&headers[i], getter) {
                Ok(header) => {
                    injected.push(header);
                },
                Err(error) => {
                    assert(fails_to_inject(*getter, headers@[i as int], error));
                    assert forall|j: int| 0 <= j < i implies can_inject(
                        *getter,
                        #[trigger] headers@[j],
                    ) by {
                        assert(is_injected(*getter, headers@[j], injected@[j]));
                    }
                    return Err(error.context("Error converting headers".to_owned()));
                },
            }
            i = i + 1;
        }
        Ok(InjectHeadersInterceptor { headers: injected })
    }
}

fn convert_header<F: Fn(&str) -> Result<String, VarError>>(header: &HttpHeader, getter: &F) -> (
    outcome: Result<(String, String), Error>)
    requires
        forall|key: &str| #[trigger] call_requires(*getter, (key,)),
    ensures
        outcome matches Ok(injected) ==> is_injected(*getter, *header, injected),
        outcome matches Err(error) ==> fails_to_inject(*getter, *header, error),
{
    let key = match substitute_with(header.key.as_str(), getter) {
        Ok(key) => key,
        Err(error) => {
            return Err(error);
        },
    };
    let value = match substitute_with(header.value.as_str(), getter) {
        Ok(value) => value,
        Err(error) => {
            return Err(error);
        },
    };
    check_header(key, value)
}

/// The header that carries metadata in the form that the public service knows.
pub open spec fn request_metadata_key() -> Seq<char> {
    "build.bazel.remote.execution.v2.requestmetadata-bin"@
}

/// The header that carries metadata in the form that the internal service knows.
pub open spec fn internal_metadata_key() -> Seq<char> {
    "re-metadata-bin"@
}

/// Who a build is for.
#[derive(Debug)]
pub struct BuckInfo {
    pub build_id: String,
}

/// Who asks, as callers hold it.
#[derive(Debug)]
pub struct RemoteExecutionMetadata {
    pub platform: Option<Platform>,
    pub use_case_id: String,
    pub buck_info: Option<BuckInfo>,
}

/// Who asks, as the wire carries it.
#[derive(Debug)]
pub enum RequestMetadata {
    /// For the public service.
    Public {
        tool_name: String,
        tool_version: String,
        action_id: String,
        tool_invocation_id: String,
        correlated_invocations_id: String,
        action_mnemonic: String,
        target_id: String,
        configuration_id: String,
    },
    /// For the internal service.
    Internal { platform: Option<Platform>, use_case_id: Option<String> },
}

/// A header with metadata, to be encoded and attached to a request.
#[derive(Debug)]
pub struct MetadataHeader {
    pub key: &'static str,
    pub metadata: RequestMetadata,
}

/// What a platform that may be absent says.
pub open spec fn optional_platform(platform: Option<Platform>) -> Option<Seq<PropertyValue>> {
    match platform {
        Some(platform) => Some(platform@),
        None => None,
    }
}

/// `header` tells the service who asks.
pub open spec fn tells_who_asks(
    metadata: RemoteExecutionMetadata,
    use_fbcode_metadata: bool,
    header: MetadataHeader,
) -> bool {
    if use_fbcode_metadata {
        &&& header.key@ == internal_metadata_key()
        &&& header.metadata matches RequestMetadata::Internal { platform, use_case_id }
        &&& optional_platform(platform) == optional_platform(metadata.platform)
        &&& use_case_id == Some(metadata.use_case_id)
    } else {
        &&& header.key@ == request_metadata_key()
        &&& header.metadata matches RequestMetadata::Public {
            tool_name,
            tool_version,
            action_id,
            tool_invocation_id,
            correlated_invocations_id,
            action_mnemonic,
            target_id,
            configuration_id,
        }
        &&& tool_name@ == "buck2"@
        &&& tool_version@ == "0.1.0"@
        &&& action_id@ == Seq::<char>::empty()
        &&& tool_invocation_id@ == match metadata.buck_info {
            Some(info) => info.build_id@,
            None => Seq::empty(),
        }
        &&& correlated_invocations_id@ == Seq::<char>::empty()
        &&& action_mnemonic@ == Seq::<char>::empty()
        &&& target_id@ == Seq::<char>::empty()
        &&& configuration_id@ == Seq::<char>::empty()
    }
}

/// The metadata to attach to a request, in the form that the service knows.
pub fn with_re_metadata(metadata: &RemoteExecutionMetadata, use_fbcode_metadata: bool) -> (header:
    MetadataHeader)
    ensures
        tells_who_asks(*metadata, use_fbcode_metadata, header),
{
    if use_fbcode_metadata {
        let platform = match &metadata.platform {
            Some(platform) => Some(platform.clone()),
            None => None,
        };
        MetadataHeader {
            key: "re-metadata-bin",
            metadata: RequestMetadata::Internal {
                platform,
                use_case_id: Some(metadata.use_case_id.clone()),
            },
        }
    } else {
        let tool_invocation_id = match &metadata.buck_info {
            Some(info) => info.build_id.clone(),
            None => String::new(),
        };
        MetadataHeader {
            key: "build.bazel.remote.execution.v2.requestmetadata-bin",
            metadata: RequestMetadata::Public {
                tool_name: "buck2".to_owned(),
                tool_version: "0.1.0".to_owned(),
                action_id: String::new(),
                tool_invocation_id,
                correlated_invocations_id: String::new(),
                action_mnemonic: String::new(),
                target_id: String::new(),
                configuration_id: String::new(),
            },
        }
    }
}

/// A variable's name is made of letters of the Latin alphabet, digits and underscores,
/// and does not start with a digit.
pub proof fn names_are_letters_digits_and_underscores(c: char)
    ensures
        starts_name(c) <==> ('a' <= c && c <= 'z') || ('A' <= c && c <= 'Z') || c == '_',
        continues_name(c) <==> starts_name(c) || ('0' <= c && c <= '9'),
        !starts_name('$'),
        !continues_name('$'),
{
}

/// Every variable has a name that is one.
spec fn has_names(t: Template) -> bool {
    forall|k: int, j: int|
        #![trigger t.variables[k].1[j]]
        0 <= k < t.variables.len() && 0 <= j < t.variables[k].1.len() ==> continues_name(
            t.variables[k].1[j],
        )
}

/// Every name starts as one.
spec fn has_starts(t: Template) -> bool {
    forall|k: int|
        0 <= k < t.variables.len() ==> (#[trigger] t.variables[k]).1.len() > 0 && starts_name(
            t.variables[k].1[0],
        )
}

/// The texts between the variables hold no reference.
spec fn has_plain_texts(t: Template) -> bool {
    &&& forall|k: int, j: int|
        #![trigger t.variables[k].0[j]]
        0 <= k < t.variables.len() && 0 <= j < t.variables[k].0.len() ==> !is_reference(
            t.variables[k].0,
            j,
        )
    &&& forall|j: int| 0 <= j < t.tail.len() ==> !is_reference(t.tail, j)
}

/// The text after each variable does not go on with its name.
spec fn has_whole_names(t: Template) -> bool {
    &&& forall|k: int|
        0 < k < t.variables.len() && (#[trigger] t.variables[k]).0.len() > 0 ==> !continues_name(
            t.variables[k].0[0],
        )
    &&& t.variables.len() > 0 && t.tail.len() > 0 ==> !continues_name(t.tail[0])
}

/// What comes first starts where the text is taken up.
spec fn starts_at(t: Template, text: Seq<char>, start: int) -> bool {
    &&& t.variables.len() > 0 && t.variables[0].0.len() > 0 ==> start < text.len()
        && t.variables[0].0[0] == text[start]
    &&& t.variables.len() == 0 && t.tail.len() > 0 ==> start < text.len() && t.tail[0]
        == text[start]
}

proof fn name_end_stops(text: Seq<char>, i: int)
    requires
        0 <= i <= text.len(),
    ensures
        i <= name_end(text, i) <= text.len(),
        name_end(text, i) < text.len() ==> !continues_name(text[name_end(text, i)]),
        forall|k: int| i <= k < name_end(text, i) ==> continues_name(#[trigger] text[k]),
    decreases text.len() - i,
{
    if i < text.len() && continues_name(text[i]) {
        name_end_stops(text, i + 1);
    }
}

proof fn plain_subrange(text: Seq<char>, from: int, to: int)
    requires
        0 <= from <= to <= text.len(),
        forall|k: int| from <= k < to ==> !is_reference(text, k),
    ensures
        forall|j: int| 0 <= j < to - from ==> !is_reference(text.subrange(from, to), j),
{
    assert forall|j: int| 0 <= j < to - from implies !is_reference(text.subrange(from, to), j) by {
        assert(!is_reference(text, from + j));
    }
}

proof fn parts_are_well_cut(text: Seq<char>, start: int, i: int)
    requires
        0 <= start <= i <= text.len(),
        forall|k: int| start <= k < i ==> !is_reference(text, k),
    ensures
        has_names(template_from(text, start, i)),
        has_starts(template_from(text, start, i)),
        has_plain_texts(template_from(text, start, i)),
        has_whole_names(template_from(text, start, i)),
        starts_at(template_from(text, start, i), text, start),
    decreases text.len() - i,
{
    let t = template_from(text, start, i);
    if i >= text.len() {
        plain_subrange(text, start, text.len() as int);
    } else if is_reference(text, i) {
        name_end_stops(text, i + 2);
        let end = name_end(text, i + 2);
        let rest = template_from(text, end, end);
        parts_are_well_cut(text, end, end);
        plain_subrange(text, start, i);
        let first = (text.subrange(start, i), text.subrange(i + 1, end));
        assert forall|k: int, j: int|
            #![trigger t.variables[k].1[j]]
            0 <= k < t.variables.len() && 0 <= j < t.variables[k].1.len() implies continues_name(
            t.variables[k].1[j],
        ) by {
            if k == 0 {
                assert(t.variables[0].1[j] == text[i + 1 + j]);
            } else {
                assert(t.variables[k] == rest.variables[k - 1]);
                assert(continues_name(rest.variables[k - 1].1[j]));
            }
        }
        assert forall|k: int| 0 <= k < t.variables.len() implies (
        #[trigger] t.variables[k]).1.len() > 0 && starts_name(t.variables[k].1[0]) by {
            if k > 0 {
                assert(t.variables[k] == rest.variables[k - 1]);
            }
        }
        assert forall|k: int, j: int|
            #![trigger t.variables[k].0[j]]
            0 <= k < t.variables.len() && 0 <= j < t.variables[k].0.len() implies !is_reference(
            t.variables[k].0,
            j,
        ) by {
            if k > 0 {
                assert(t.variables[k] == rest.variables[k - 1]);
                assert(!is_reference(rest.variables[k - 1].0, j)) by {
                    let c = rest.variables[k - 1].0[j];
                }
            } else {
                assert(t.variables[0].0 == first.0);
            }
        }
        assert forall|k: int|
            0 < k < t.variables.len() && (
            #[trigger] t.variables[k]).0.len() > 0 implies !continues_name(
            t.variables[k].0[0],
        ) by {
            assert(t.variables[k] == rest.variables[k - 1]);
        }
    } else {
        parts_are_well_cut(text, start, i + 1);
    }
}

/// A text is taken apart at all of its references and nowhere else: every variable has
/// a name that is one, each name is as long as it can be, and no text between or after
/// the variables holds a reference.
pub proof fn references_are_found_whole(text: Seq<char>, k: int, j: int)
    ensures
        ({
            let t = template(text);
            &&& 0 <= k < t.variables.len() ==> t.variables[k].1.len() > 0 && starts_name(
                t.variables[k].1[0],
            )
            &&& 0 <= k < t.variables.len() && 0 <= j < t.variables[k].1.len() ==> continues_name(
                t.variables[k].1[j],
            )
            &&& 0 <= k < t.variables.len() && 0 <= j && j + 1 < t.variables[k].0.len() ==> !(
            t.variables[k].0[j] == '$' && starts_name(t.variables[k].0[j + 1]))
            &&& 0 <= j && j + 1 < t.tail.len() ==> !(t.tail[j] == '$' && starts_name(
                t.tail[j + 1],
            ))
            &&& 0 < k < t.variables.len() && t.variables[k].0.len() > 0 ==> !continues_name(
                t.variables[k].0[0],
            )
            &&& t.variables.len() > 0 && t.tail.len() > 0 ==> !continues_name(t.tail[0])
        }),
{
    parts_are_well_cut(text, 0, 0);
    let t = template(text);
    if 0 <= k < t.variables.len() && 0 <= j && j + 1 < t.variables[k].0.len() {
        let c = t.variables[k].0[j];
        assert(!is_reference(t.variables[k].0, j));
    }
    if 0 <= j && j + 1 < t.tail.len() {
        assert(!is_reference(t.tail, j));
    }
}

/// Values stand where their references stood: the first in front of what the rest of
/// the text comes to, behind the text before its reference.
pub proof fn values_stand_where_references_stood(
    first: (Seq<char>, Seq<char>),
    rest: Template,
    value: Seq<char>,
    values: Seq<Seq<char>>,
)
    requires
        values.len() == rest.variables.len(),
    ensures
        substituted(
            (Template { variables: seq![first] + rest.variables, tail: rest.tail }),
            seq![value] + values,
        ) == first.0 + value + substituted(rest, values),
        substituted((Template { variables: Seq::empty(), tail: rest.tail }), Seq::empty())
            == rest.tail,
{
    filled_from_the_front(first, rest, value, values, rest.variables.len() as int);
    let t = Template { variables: seq![first] + rest.variables, tail: rest.tail };
    assert(substituted(t, seq![value] + values) =~= first.0 + value + substituted(rest, values));
    let none = Template { variables: Seq::<(Seq<char>, Seq<char>)>::empty(), tail: rest.tail };
    assert(substituted(none, Seq::empty()) =~= rest.tail);
}

/// Filling in a text fails only for a variable of the text that has no value, and says
/// which variable that is and why it has none. The variables before it were looked up and
/// had one. A text that is filled in has what the lookup of each variable gave.
pub proof fn only_missing_variables_fail<F: Fn(&str) -> Result<String, VarError>>(
    s: &str,
    getter: F,
    outcome: Result<String, Error>,
)
    requires
        call_ensures(substitute_env_vars_impl::<F>, (s, getter), outcome),
    ensures
        outcome matches Err(error) ==> exists|i: int, cause: VarError|
            {
                &&& 0 <= i < template(s@).variables.len()
                &&& #[trigger] gives(
                    getter,
                    template(s@).variables[i].1,
                    Err::<String, VarError>(cause),
                )
                &&& error.root is Message
                &&& cause is NotPresent ==> error.root->Message_0@
                    == "environment variable not found"@
                &&& cause matches VarError::NotUnicode(quoted) ==> error.root->Message_0@
                    == "environment variable was not valid unicode: "@ + quoted@
                &&& error.layers().len() == 1
                &&& error.layers()[0] == "Error substituting `$"@ + template(s@).variables[i].1
                    + "`"@
            },
        template(s@).variables.len() == 0 ==> outcome is Ok && outcome->Ok_0@ == s@,
        outcome matches Err(error) ==> exists|values: Seq<String>, cause: VarError|
            {
                &&& values.len() < template(s@).variables.len()
                &&& #[trigger] gave(getter, template(s@), values, values.len() as int)
                &&& forall|k: int|
                    0 <= k < values.len() ==> gives(
                        getter,
                        template(s@).variables[k].1,
                        Ok::<String, VarError>(#[trigger] values[k]),
                    )
                &&& gives(
                    getter,
                    template(s@).variables[values.len() as int].1,
                    Err::<String, VarError>(cause),
                )
                &&& #[trigger] is_substitution_error(
                    error,
                    template(s@).variables[values.len() as int].1,
                    cause,
                )
            },
        outcome matches Ok(text) ==> exists|values: Seq<String>|
            {
                &&& #[trigger] gave(
                    getter,
                    template(s@),
                    values,
                    template(s@).variables.len() as int,
                )
                &&& values.len() == template(s@).variables.len()
                &&& forall|k: int|
                    0 <= k < values.len() ==> gives(
                        getter,
                        template(s@).variables[k].1,
                        Ok::<String, VarError>(#[trigger] values[k]),
                    )
                &&& text@ == substituted(template(s@), texts(values))
            },
{
    let t = template(s@);
    if t.variables.len() == 0 {
        if outcome is Ok {
            references_rebuild_the_text(s@);
            let values = choose|values: Seq<String>|
                {
                    &&& #[trigger] gave(getter, t, values, t.variables.len() as int)
                    &&& outcome->Ok_0@ == substituted(t, texts(values))
                };
            assert(own_references(t) =~= Seq::empty());
            assert(texts(values) =~= Seq::empty());
        }
    }
    if outcome is Err {
        let error = outcome->Err_0;
        let (values, cause) = choose|values: Seq<String>, cause: VarError|
            {
                &&& values.len() < t.variables.len()
                &&& #[trigger] gave(getter, t, values, values.len() as int)
                &&& gives(
                    getter,
                    t.variables[values.len() as int].1,
                    Err::<String, VarError>(cause),
                )
                &&& #[trigger] is_substitution_error(
                    error,
                    t.variables[values.len() as int].1,
                    cause,
                )
            };
        assert(gives(getter, t.variables[values.len() as int].1, Err::<String, VarError>(cause)));
    }
}

/// A header is taken exactly where its name is one and its value holds no control
/// character but the tab. It is then sent under its name in small letters, with its
/// value unchanged; otherwise the part that does not fit is named.
pub proof fn headers_are_checked(
    key: String,
    value: String,
    outcome: Result<(String, String), Error>,
    i: int,
)
    requires
        call_ensures(check_header, (key, value), outcome),
    ensures
        ({
            let valued = forall|j: int|
                0 <= j < value@.len() ==> (((#[trigger] value@[j]) as int) >= 32 && (
                value@[j] as int) != 127) || value@[j] == '\t';
            &&& outcome is Ok <==> header_name(key@) is Some && valued
            &&& outcome matches Ok(header) ==> {
                &&& header.1@ == value@
                &&& 0 < header.0@.len() <= 65_535
                &&& header.0@.len() == key@.len()
                &&& 0 <= i < key@.len() ==> {
                    &&& 'A' <= key@[i] && key@[i] <= 'Z' ==> header.0@[i] as int == key@[i] as int
                        + 32
                    &&& !('A' <= key@[i] && key@[i] <= 'Z') ==> header.0@[i] == key@[i]
                }
            }
            &&& header_name(key@) is None ==> outcome->Err_0.root is Message
                && outcome->Err_0.root->Message_0@ == "invalid gRPC metadata key name"@
                && outcome->Err_0.layers() == seq![
                "Invalid "@ + "key"@ + " in header: `"@ + key@ + ": "@ + value@ + "`"@,
            ]
            &&& header_name(key@) matches Some(name) ==> !valued ==> outcome->Err_0.root is Message
                && outcome->Err_0.root->Message_0@ == "failed to parse metadata value"@
                && outcome->Err_0.layers() == seq![
                "Invalid "@ + "value"@ + " in header: `"@ + name + ": "@ + value@ + "`"@,
            ]
        }),
{
}

/// The service learns who asks in the form that it knows: the public one the tool, its
/// version and the build, the internal one the platform and the use case.
pub proof fn services_learn_who_asks(
    metadata: RemoteExecutionMetadata,
    use_fbcode_metadata: bool,
    header: MetadataHeader,
)
    requires
        call_ensures(with_re_metadata, (&metadata, use_fbcode_metadata), header),
    ensures
        use_fbcode_metadata <==> header.metadata is Internal,
        use_fbcode_metadata ==> header.key@ == "re-metadata-bin"@,
        !use_fbcode_metadata ==> header.key@
            == "build.bazel.remote.execution.v2.requestmetadata-bin"@,
        header.metadata matches RequestMetadata::Internal { platform, use_case_id } ==> {
            &&& use_case_id is Some
            &&& use_case_id->0@ == metadata.use_case_id@
            &&& platform is Some <==> metadata.platform is Some
            &&& platform is Some ==> platform->0@ == metadata.platform->0@
        },
        header.metadata matches RequestMetadata::Public {
            tool_name,
            tool_version,
            action_id,
            tool_invocation_id,
            correlated_invocations_id,
            action_mnemonic,
            target_id,
            configuration_id,
        } ==> {
            &&& action_id@.len() == 0
            &&& correlated_invocations_id@.len() == 0
            &&& action_mnemonic@.len() == 0
            &&& target_id@.len() == 0
            &&& configuration_id@.len() == 0
            &&& tool_name@ == "buck2"@
            &&& tool_version@ == "0.1.0"@
            &&& metadata.buck_info matches Some(info) ==> tool_invocation_id@ == info.build_id@
            &&& metadata.buck_info is None ==> tool_invocation_id@.len() == 0
        },
{
}

/// Every configured header is sent once, in order, under the name that its own name
/// comes to once its variables are filled in, with what its own value comes to.
pub proof fn every_configured_header_is_sent<F: Fn(&str) -> Result<String, VarError>>(
    headers: Vec<HttpHeader>,
    getter: F,
    interceptor: Result<InjectHeadersInterceptor, Error>,
    i: int,
)
    requires
        call_ensures(InjectHeadersInterceptor::new::<F>, (&headers, &getter), interceptor),
        interceptor is Ok,
        0 <= i < headers@.len(),
    ensures
        interceptor->Ok_0.headers@.len() == headers@.len(),
        exists|key: Seq<char>| #[trigger]
            fills_in(getter, headers@[i].key@, key) && header_name(key) == Some(
                interceptor->Ok_0.headers@[i].0@,
            ),
        fills_in(getter, headers@[i].value@, interceptor->Ok_0.headers@[i].1@),
        forall|j: int|
            0 <= j < interceptor->Ok_0.headers@[i].1@.len() ==> ((
            #[trigger] interceptor->Ok_0.headers@[i].1@[j]) as int >= 32
                && interceptor->Ok_0.headers@[i].1@[j] as int != 127)
                || interceptor->Ok_0.headers@[i].1@[j] == '\t',
{
    let sent = interceptor->Ok_0.headers@[i];
    assert(is_injected(getter, headers@[i], sent));
    assert forall|j: int| 0 <= j < sent.1@.len() implies ((#[trigger] sent.1@[j]) as int >= 32
        && sent.1@[j] as int != 127) || sent.1@[j] == '\t' by {
        assert(is_header_char(sent.1@[j]));
    }
}

/// What fails is the first header that cannot be sent, and it fails for its own reason
/// behind one context: a variable of its name without a value, one of its value once the
/// name is filled in, or what the check of the filled in header says. Every header before
/// it can be sent.
pub proof fn the_first_bad_header_is_named<F: Fn(&str) -> Result<String, VarError>>(
    headers: Vec<HttpHeader>,
    getter: F,
    error: Error,
    i: int,
) -> (bad: int)
    requires
        call_ensures(InjectHeadersInterceptor::new::<F>, (&headers, &getter), Err(error)),
    ensures
        0 <= bad < headers@.len(),
        0 <= i < bad ==> exists|key: Seq<char>, value: Seq<char>|
            {
                &&& #[trigger] fills_in(getter, headers@[i].key@, key)
                &&& #[trigger] fills_in(getter, headers@[i].value@, value)
                &&& header_name(key) is Some
                &&& is_header_value(value)
            },
        error.layers().len() > 0,
        error.layers().last() == "Error converting headers"@,
        exists|inner: Error|
            {
                &&& error.wraps(inner, "Error converting headers"@)
                &&& ({
                    ||| fails_to_fill_in(getter, headers@[bad].key@, inner)
                    ||| {
                        &&& exists|key: Seq<char>| #[trigger]
                            fills_in(getter, headers@[bad].key@, key)
                        &&& fails_to_fill_in(getter, headers@[bad].value@, inner)
                    }
                    ||| exists|key: Seq<char>, value: Seq<char>|
                        {
                            &&& fills_in(getter, headers@[bad].key@, key)
                            &&& fills_in(getter, headers@[bad].value@, value)
                            &&& #[trigger] is_checked_header(
                                key,
                                value,
                                Err::<(String, String), Error>(inner),
                            )
                        }
                })
            },
{
    let (bad, inner) = choose|bad: int, inner: Error|
        {
            &&& 0 <= bad < headers@.len()
            &&& forall|j: int| 0 <= j < bad ==> can_inject(getter, #[trigger] headers@[j])
            &&& #[trigger] fails_to_inject(getter, headers@[bad], inner)
            &&& error.wraps(inner, "Error converting headers"@)
        };
    if 0 <= i < bad {
        assert(can_inject(getter, headers@[i]));
        let header = choose|header: (String, String)| is_injected(getter, headers@[i], header);
        assert(is_injected(getter, headers@[i], header));
        assert(fills_in(getter, headers@[i].value@, header.1@));
    }
    bad
}

} // verus!
