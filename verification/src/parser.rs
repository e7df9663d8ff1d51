//! The TOML front end: reading manifest text, recognizing the table
//! headers that older tools accepted without a newline, and reporting the
//! keys that the schema does not use.
use serde::Deserialize;
use toml::de::Error as TomlError;

use vstd::prelude::*;

use crate::schema::manifest::Manifest;
use crate::text::{concat2, decimal, u64_to_decimal};

verus! {

/// Declares `toml::de::Error` so that errors can carry it.
#[verifier::external_type_specification]
#[verifier::external_body]
pub struct ExTomlError(TomlError);

/// The errors of reading a manifest.
#[derive(Debug)]
pub enum Error {
    DeserializerError(TomlError),
    FailedToParseToml(String),
    UnusedKeys(Vec<String>),
}

/// The result type of reading a manifest.
pub type Result<T> = std::result::Result<T, Error>;

/// The explanation given for a table header that is not followed by a
/// newline.
pub const TOML_WITHOUT_NEWLINES: &'static str = "The TOML spec requires newlines after table definitions (e.g., `[a] b = 1` is\ninvalid), but this file has a table header which does not have a newline after\nit. A newline needs to be added in order to parse this file.\n'cargo' will also reflect this warning as a hard error in the future.";

/// What `str::parse::<toml::Value>` makes of `data`: the value read, or
/// the `{:?}` text of the error that the `toml` crate reports.
pub uninterp spec fn toml_read(data: Seq<char>) -> std::result::Result<toml::Value, Seq<char>>;

/// Whether the `toml` crate reads `data` as a TOML document once it no
/// longer requires a newline after each table header.
pub uninterp spec fn toml_accepts_without_newlines(data: Seq<char>) -> bool;

/// The text that the `Display` formatting of `toml::de::Error` gives for
/// `e`.
pub uninterp spec fn toml_error_display(e: TomlError) -> Seq<char>;

/// Calls `str::parse::<toml::Value>` and formats an error with `{:?}`;
/// claims that the value read, or the error text, is the one named
/// `toml_read` of the input.
#[verifier::external_body]
fn toml_parse(data: &str) -> (res: std::result::Result<toml::Value, String>)
    ensures
        match res {
            Ok(v) => toml_read(data@) == Ok::<toml::Value, Seq<char>>(v),
            Err(report) => toml_read(data@) == Err::<toml::Value, Seq<char>>(report@),
        },
{
    data.parse::<toml::Value>().map_err(|e| format!("{:?}", e))
}

/// Calls `toml::Value::deserialize` on a `toml::de::Deserializer` set not to
/// require a newline after table headers; claims that the answer is the
/// value named `toml_accepts_without_newlines` of the input.
#[verifier::external_body]
fn toml_parses_without_newlines(data: &str) -> (res: bool)
    ensures
        res == toml_accepts_without_newlines(data@),
{
    let mut parser = toml::de::Deserializer::new(data);
    parser.set_require_newline_after_table(false);
    toml::Value::deserialize(&mut parser).is_ok()
}

/// Calls the `Display` formatting of `toml::de::Error`; claims that the
/// text is the value named `toml_error_display` of the error.
#[verifier::external_body]
fn toml_error_text(e: &TomlError) -> (res: String)
    ensures
        res@ == toml_error_display(*e),
{
    format!("{}", e)
}

/// An error for text that could not be read as TOML.
fn parse_err(value: String) -> (res: Error)
    ensures
        res matches Error::FailedToParseToml(s) && s@ == value@,
{
    Error::FailedToParseToml(value)
}

/// Reads the text with the lenient reader, which accepts a table header
/// without a newline after it: where that succeeds, the text fails only for
/// that reason, and the error explains so.
fn deserialize_toml_without_newlines(data: &str) -> (res: Option<Error>)
    ensures
        toml_accepts_without_newlines(data@) ==> (res matches Some(Error::FailedToParseToml(s))
            && s@ == TOML_WITHOUT_NEWLINES@),
        !toml_accepts_without_newlines(data@) ==> res is None,
{
    if toml_parses_without_newlines(data) {
        Some(parse_err(String::from_str(TOML_WITHOUT_NEWLINES)))
    } else {
        None
    }
}

/// Reads the text as TOML: the value that the `toml` crate reads, or an
/// error carrying its report.
pub fn parse_toml(data: &str) -> (res: Result<toml::Value>)
    ensures
        match (res, toml_read(data@)) {
            (Ok(v), Ok(w)) => v == w,
            (Err(Error::FailedToParseToml(s)), Err(report)) => s@ == report,
            _ => false,
        },
{
    match toml_parse(data) {
        Ok(v) => Ok(v),
        Err(report) => Err(parse_err(report)),
    }
}

/// Reads the text of a manifest as TOML. A table header without a newline
/// after it, which older tools accepted, gets its own explanation; any
/// other failure carries the report of the `toml` crate.
pub fn parse_cargo_toml(data: &str) -> (res: Result<toml::Value>)
    ensures
        match (res, toml_read(data@)) {
            (Ok(v), Ok(w)) => v == w,
            (Err(Error::FailedToParseToml(s)), Err(report)) => s@ == if toml_accepts_without_newlines(
                data@,
            ) {
                TOML_WITHOUT_NEWLINES@
            } else {
                report
            },
            _ => false,
        },
{
    match parse_toml(data) {
        Ok(v) => Ok(v),
        Err(e) => match deserialize_toml_without_newlines(data) {
            Some(lenient) => Err(lenient),
            None => Err(e),
        },
    }
}

/// One step of the path to a key that deserialization ignored, from the
/// root down.
#[derive(Clone, Debug, PartialEq, Eq)]
pub enum IgnoredPathStep {
    /// An element of a sequence, by index.
    Index(usize),
    /// An entry of a map, by key.
    Key(String),
    /// An optional value.
    Optional,
    /// The payload of a newtype variant.
    NewtypeVariant,
    /// The payload of a newtype struct.
    NewtypeStruct,
}

/// The text of one more step: sequence indices and map keys are appended,
/// after a `.` unless the text is still empty; the other steps add nothing.
pub open spec fn extend_path_text(text: Seq<char>, step: IgnoredPathStep) -> Seq<char> {
    let sep = if text.len() == 0 {
        Seq::<char>::empty()
    } else {
        seq!['.']
    };
    match step {
        IgnoredPathStep::Index(index) => text + sep + decimal(index as nat),
        IgnoredPathStep::Key(key) => text + sep + key@,
        _ => text,
    }
}

/// The text `start` with the steps of a path appended, from the root down.
pub open spec fn path_text_from(start: Seq<char>, steps: Seq<IgnoredPathStep>) -> Seq<char>
    decreases steps.len(),
{
    if steps.len() == 0 {
        start
    } else {
        extend_path_text(path_text_from(start, steps.drop_last()), steps.last())
    }
}

/// The dotted text of a path, from the root down.
pub open spec fn path_text(steps: Seq<IgnoredPathStep>) -> Seq<char> {
    path_text_from(Seq::empty(), steps)
}

/// Whether a step stands for a wrapper (an optional value or a newtype)
/// rather than for a key or an index.
pub open spec fn is_wrapper_step(step: IgnoredPathStep) -> bool {
    step is Optional || step is NewtypeVariant || step is NewtypeStruct
}

/// Law: wrapper steps add nothing to the text of a path, wherever they
/// stand and whatever text the path is appended to; a path of no steps
/// leaves the text as it is.
pub proof fn law_wrapper_steps_add_nothing(
    start: Seq<char>,
    steps: Seq<IgnoredPathStep>,
    i: int,
    step: IgnoredPathStep,
)
    requires
        0 <= i <= steps.len(),
        is_wrapper_step(step),
    ensures
        path_text_from(start, steps.insert(i, step)) == path_text_from(start, steps),
        path_text_from(start, Seq::<IgnoredPathStep>::empty()) == start,
    decreases steps.len(),
{
    let inserted = steps.insert(i, step);
    if i == steps.len() {
        assert(inserted.drop_last() =~= steps);
    } else {
        law_wrapper_steps_add_nothing(start, steps.drop_last(), i, step);
        assert(inserted.drop_last() =~= steps.drop_last().insert(i, step));
        assert(inserted.last() == steps.last());
    }
}

/// Law: a path is appended step by step: appending `steps` and then one
/// more step is appending that step to the text of `steps`.
pub proof fn law_path_text_steps_compose(
    start: Seq<char>,
    steps: Seq<IgnoredPathStep>,
    step: IgnoredPathStep,
)
    ensures
        path_text_from(start, steps.push(step)) == path_text_from(
            path_text_from(start, steps),
            seq![step],
        ),
{
    lemma_one_step(path_text_from(start, steps), step);
    assert(steps.push(step).drop_last() =~= steps);
}

/// Appending one step to text is extending the text by that step.
proof fn lemma_one_step(t: Seq<char>, step: IgnoredPathStep)
    ensures
        path_text_from(t, seq![step]) == extend_path_text(t, step),
{
    let one = seq![step];
    assert(one.drop_last() =~= Seq::<IgnoredPathStep>::empty());
    assert(path_text_from(t, one.drop_last()) == t);
    assert(one.last() == step);
}

/// Law: a key or an index appended to non-empty text comes after exactly
/// one `.`; appended to empty text it stands alone. So the text of a path
/// is its keys and indices joined by `.`: `bin.0.name`.
pub proof fn law_steps_are_joined_by_dots(t: Seq<char>, key: String, index: usize)
    ensures
        t.len() > 0 ==> path_text_from(t, seq![IgnoredPathStep::Key(key)]) == t + "."@ + key@,
        t.len() > 0 ==> path_text_from(t, seq![IgnoredPathStep::Index(index)]) == t + "."@
            + decimal(index as nat),
        path_text_from(Seq::empty(), seq![IgnoredPathStep::Key(key)]) == key@,
        path_text_from(Seq::empty(), seq![IgnoredPathStep::Index(index)]) == decimal(
            index as nat,
        ),
{
    reveal_strlit(".");
    lemma_one_step(t, IgnoredPathStep::Key(key));
    lemma_one_step(t, IgnoredPathStep::Index(index));
    lemma_one_step(Seq::empty(), IgnoredPathStep::Key(key));
    lemma_one_step(Seq::empty(), IgnoredPathStep::Index(index));
    assert(Seq::<char>::empty() + Seq::<char>::empty() + key@ =~= key@);
    assert(Seq::<char>::empty() + Seq::<char>::empty() + decimal(index as nat) =~= decimal(
        index as nat,
    ));
    assert(seq!['.'] =~= "."@);
}

/// Appends the text of one step to `dst`.
fn push_step(dst: &mut String, step: &IgnoredPathStep)
    ensures
        final(dst)@ == extend_path_text(old(dst)@, *step),
{
    match step {
        IgnoredPathStep::Index(index) => {
            if dst.unicode_len() != 0 {
                dst.append(".");
            }
            let digits = u64_to_decimal(*index as u64);
            dst.append(digits.as_str());
        },
        IgnoredPathStep::Key(key) => {
            if dst.unicode_len() != 0 {
                dst.append(".");
            }
            dst.append(key.as_str());
        },
        _ => {},
    }
    proof {
        reveal_strlit(".");
    }
}

/// Appends the dotted text of the path to an ignored key to `dst`: each
/// key or index in turn, after a `.` unless the text is still empty.
pub fn push_ignored_path(dst: &mut String, steps: &Vec<IgnoredPathStep>)
    ensures
        final(dst)@ == path_text_from(old(dst)@, steps@),
{
    let ghost start = dst@;
    let mut i: usize = 0;
    assert(steps@.subrange(0, 0) =~= Seq::<IgnoredPathStep>::empty());
    while i < steps.len()
        invariant
            i <= steps.len(),
            dst@ == path_text_from(start, steps@.subrange(0, i as int)),
        decreases steps.len() - i,
    {
        assert(steps@.subrange(0, i + 1).drop_last() =~= steps@.subrange(0, i as int));
        push_step(dst, &steps[i]);
        i = i + 1;
    }
    assert(steps@.subrange(0, i as int) =~= steps@);
}

/// The dotted text of the path to an ignored key: `a.b.0` for the first
/// element of `b` in the table `a`.
pub fn stringify_ignored_path(steps: &Vec<IgnoredPathStep>) -> (res: String)
    ensures
        res@ == path_text(steps@),
{
    let mut dst = String::new();
    push_ignored_path(&mut dst, steps);
    dst
}

/// Decides the outcome of reading a manifest: a deserialization error
/// stands; otherwise the manifest is refused when any key was ignored,
/// with the dotted paths of those keys in order.
pub fn finish_parse_v1(
    deserialized: std::result::Result<Manifest, TomlError>,
    ignored: &Vec<Vec<IgnoredPathStep>>,
) -> (res: Result<Manifest>)
    ensures
        match deserialized {
            Err(e) => res == Err::<Manifest, Error>(Error::DeserializerError(e)),
            Ok(m) => if ignored.len() == 0 {
                res == Ok::<Manifest, Error>(m)
            } else {
                res matches Err(Error::UnusedKeys(keys)) && keys.deep_view()
                    == ignored@.map_values(|p: Vec<IgnoredPathStep>| path_text(p@))
            },
        },
{
    match deserialized {
        Err(e) => Err(Error::DeserializerError(e)),
        Ok(m) => {
            if ignored.len() == 0 {
                Ok(m)
            } else {
                let mut keys: Vec<String> = Vec::new();
                let mut i: usize = 0;
                while i < ignored.len()
                    invariant
                        i <= ignored.len(),
                        keys.deep_view() == ignored@.subrange(0, i as int).map_values(
                            |p: Vec<IgnoredPathStep>| path_text(p@),
                        ),
                    decreases ignored.len() - i,
                {
                    let k = stringify_ignored_path(&ignored[i]);
                    let ghost prev = keys@;
                    keys.push(k);
                    assert(keys.deep_view() =~= prev.map_values(|s: String| s@).push(k@));
                    assert(ignored@.subrange(0, i + 1).map_values(
                        |p: Vec<IgnoredPathStep>| path_text(p@),
                    ) =~= ignored@.subrange(0, i as int).map_values(
                        |p: Vec<IgnoredPathStep>| path_text(p@),
                    ).push(k@));
                    i = i + 1;
                }
                assert(ignored@.subrange(0, i as int) =~= ignored@);
                Err(Error::UnusedKeys(keys))
            }
        },
    }
}

/// The listing of unused keys: each key on a line of its own after `- `.
pub open spec fn unused_keys_text(keys: Seq<Seq<char>>) -> Seq<char>
    decreases keys.len(),
{
    if keys.len() == 0 {
        "Unused keys:"@
    } else {
        unused_keys_text(keys.drop_last()) + "\n- "@ + keys.last()
    }
}

impl Error {
    /// The human-readable description of the error.
    pub fn message(&self) -> (res: String)
        ensures
            match self {
                Error::DeserializerError(e) => res@ == "Failed to Deserialize TOML into Manifest: "@
                    + toml_error_display(*e),
                Error::FailedToParseToml(s) => res@ == "Failed to parse toml: "@ + s@,
                Error::UnusedKeys(keys) => res@ == unused_keys_text(keys.deep_view()),
            },
    {
        match self {
            Error::DeserializerError(e) => {
                let t = toml_error_text(e);
                let res = concat2("Failed to Deserialize TOML into Manifest: ", t.as_str());
                assert(res@ == "Failed to Deserialize TOML into Manifest: "@ + t@);
                res
            },
            Error::FailedToParseToml(s) => concat2("Failed to parse toml: ", s.as_str()),
            Error::UnusedKeys(keys) => {
                let mut res = String::from_str("Unused keys:");
                let mut i: usize = 0;
                while i < keys.len()
                    invariant
                        i <= keys.len(),
                        res@ == unused_keys_text(keys.deep_view().subrange(0, i as int)),
                    decreases keys.len() - i,
                {
                    assert(keys.deep_view().subrange(0, i + 1).drop_last() =~= keys.deep_view().subrange(0, i as int));
                    res.append("\n- ");
                    res.append(keys[i].as_str());
                    i = i + 1;
                }
                assert(keys.deep_view().subrange(0, i as int) =~= keys.deep_view());
                res
            },
        }
    }
}

} // verus!
