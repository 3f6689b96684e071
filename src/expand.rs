//! Expansion of an argument list `(RecordType, TableRoute, IdType?)` into
//! the source of the accessor functions.

use vstd::prelude::*;
use crate::render::{render, render_accessors};
use quote::ToTokens;
use syn::parse::Parser;
use syn::punctuated::Punctuated;

verus! {

/// A type given as a path.
pub struct TypePath {
    /// The identifiers of the path's segments, in order.
    pub segments: Vec<String>,
    /// The path as source text, generic arguments and a leading `::`
    /// included.
    pub text: String,
}

/// One argument of the expansion: a reference to a type, as written.
pub struct TypeRef {
    /// The type as source text.
    pub text: String,
    /// The path, where the type is one; `None` for any other type (a tuple,
    /// a reference, an array, ...).
    pub path: Option<TypePath>,
}

/// The most tokens that an argument list text may start.  syn's parser
/// has no depth limit of its own: it recurses on nested delimiters, on
/// reference, pointer and operator prefixes, and on the expressions of
/// array lengths.  Each level takes at least one token, so this bounds the
/// depth, and with it the stack that the parser uses.
pub const MAX_TOKENS: usize = 48;

pub open spec fn is_word_char(c: char) -> bool {
    ('a' <= c && c <= 'z') || ('A' <= c && c <= 'Z') || ('0' <= c && c <= '9') || c == '_'
}

pub open spec fn is_blank(c: char) -> bool {
    c == ' ' || c == '\t' || c == '\n' || c == '\r'
}

/// Whether the last character of `s` is counted: every character but
/// blanks, and of a run of word characters only the first.  Each token
/// starts at a counted character.
pub open spec fn starts_token(s: Seq<char>) -> bool {
    let c = s.last();
    if is_blank(c) {
        false
    } else if is_word_char(c) {
        s.len() < 2 || !is_word_char(s[s.len() - 2])
    } else {
        true
    }
}

/// How many counted characters `s` holds: at least the number of its
/// tokens.
pub open spec fn token_starts(s: Seq<char>) -> nat
    decreases s.len(),
{
    if s.len() == 0 {
        0
    } else {
        token_starts(s.drop_last()) + if starts_token(s) {
            1nat
        } else {
            0nat
        }
    }
}

proof fn lemma_token_starts_bounded(s: Seq<char>)
    ensures
        token_starts(s) <= s.len(),
    decreases s.len(),
{
    if s.len() > 0 {
        lemma_token_starts_bounded(s.drop_last());
    }
}

fn is_word_char_exec(c: char) -> (b: bool)
    ensures
        b == is_word_char(c),
{
    ('a' <= c && c <= 'z') || ('A' <= c && c <= 'Z') || ('0' <= c && c <= '9') || c == '_'
}

/// Counts the characters of `s` at which a token may start, which callers
/// compare with `MAX_TOKENS` before generating.
pub fn count_token_starts(s: &str) -> (n: usize)
    ensures
        n == token_starts(s@),
{
    let len: usize = s.unicode_len();
    let mut n: usize = 0;
    let mut i: usize = 0;
    let mut prev_word = false;
    while i < len
        invariant
            len == s@.len(),
            i <= len,
            n == token_starts(s@.subrange(0, i as int)),
            prev_word == (i > 0 && is_word_char(s@[i - 1])),
        decreases len - i,
    {
        let c = s.get_char(i);
        let word = is_word_char_exec(c);
        proof {
            let next = s@.subrange(0, i + 1);
            assert(next.drop_last() =~= s@.subrange(0, i as int));
            assert(next.last() == c);
            if i > 0 {
                assert(next[i - 1] == s@[i - 1]);
            }
            lemma_token_starts_bounded(s@.subrange(0, i as int));
        }
        let blank = c == ' ' || c == '\t' || c == '\n' || c == '\r';
        if !blank && (!word || !prev_word) {
            n = n + 1;
        }
        prev_word = word;
        i = i + 1;
    }
    assert(s@.subrange(0, len as int) =~= s@);
    n
}

/// Whether the key type argument must be given, or falls back to the
/// default key type when left out.
#[derive(Clone, Copy, PartialEq, Eq, Debug, Structural)]
pub enum KeyMode {
    Required,
    Defaulted,
}

/// Why an argument list cannot be expanded.
#[derive(Clone, Copy, PartialEq, Eq, Debug, Structural)]
pub enum ExpandError {
    /// The input is not a comma-separated list of types.
    Unparsable,
    /// No record type argument was given.
    MissingRecordType,
    /// No table route argument was given.
    MissingTableRoute,
    /// The key type is required and was not given.
    MissingIdType,
    /// The record type argument is not a path.
    InvalidRecordType,
    /// The table route argument is not a path.
    InvalidTableRoute,
}

/// What an error says, naming the argument at fault.
pub open spec fn error_message(e: ExpandError) -> Seq<char> {
    match e {
        ExpandError::Unparsable => "expected a comma-separated list of types"@,
        ExpandError::MissingRecordType => "missing the first argument, the record type"@,
        ExpandError::MissingTableRoute => "missing the second argument, the table route"@,
        ExpandError::MissingIdType => "missing the third argument, the key type"@,
        ExpandError::InvalidRecordType => "the first argument, the record type, must be a type path"@,
        ExpandError::InvalidTableRoute => "the second argument, the table route, must be a path"@,
    }
}

impl ExpandError {
    /// A description of the error that names the argument at fault.
    pub fn message(&self) -> (m: &'static str)
        ensures
            m@ == error_message(*self),
    {
        match self {
            ExpandError::Unparsable => "expected a comma-separated list of types",
            ExpandError::MissingRecordType => "missing the first argument, the record type",
            ExpandError::MissingTableRoute => "missing the second argument, the table route",
            ExpandError::MissingIdType => "missing the third argument, the key type",
            ExpandError::InvalidRecordType => "the first argument, the record type, must be a type path",
            ExpandError::InvalidTableRoute => "the second argument, the table route, must be a path",
        }
    }
}

/// The shape of an argument: the identifiers of its path's segments, or
/// `None` where it is no path.
pub open spec fn shape_of(t: TypeRef) -> Option<Seq<Seq<char>>> {
    match t.path {
        Some(p) => Some(p.segments@.map_values(|s: String| s@)),
        None => None,
    }
}

pub open spec fn shapes(ts: Seq<TypeRef>) -> Seq<Option<Seq<Seq<char>>>> {
    ts.map_values(|t: TypeRef| shape_of(t))
}

/// A path with at least one segment.
pub open spec fn is_path(shape: Option<Seq<Seq<char>>>) -> bool {
    shape is Some && shape->0.len() > 0
}

/// The first failing check on the arguments, in this order: the record type
/// and the table route are there, the key type is there when required, the
/// record type is a path, the table route is a path.  Arguments past the
/// third are not read.
pub open spec fn argument_error(sh: Seq<Option<Seq<Seq<char>>>>, mode: KeyMode) -> Option<ExpandError> {
    if sh.len() < 1 {
        Some(ExpandError::MissingRecordType)
    } else if sh.len() < 2 {
        Some(ExpandError::MissingTableRoute)
    } else if mode == KeyMode::Required && sh.len() < 3 {
        Some(ExpandError::MissingIdType)
    } else if !is_path(sh[0]) {
        Some(ExpandError::InvalidRecordType)
    } else if !is_path(sh[1]) {
        Some(ExpandError::InvalidTableRoute)
    } else {
        None
    }
}

/// The record type's identifier: the first segment of its path.
pub open spec fn record_ident(sh: Seq<Option<Seq<Seq<char>>>>) -> Seq<char> {
    sh[0]->0[0]
}

/// The table route as written: the text of the second argument's path.
pub open spec fn route_text(ts: Seq<TypeRef>) -> Seq<char> {
    ts[1].path->0.text@
}

/// The key type used when none is given.
pub open spec fn default_key() -> Seq<char> {
    "Uuid"@
}

/// The key type: the third argument, else the default.
pub open spec fn key_text(ts: Seq<TypeRef>) -> Seq<char> {
    if ts.len() >= 3 {
        ts[2].text@
    } else {
        default_key()
    }
}

/// A record type argument that is no path fails the expansion, before any
/// name is derived: with `InvalidRecordType` wherever all the arguments the
/// mode needs are there.
pub proof fn lemma_invalid_record_type_rejected(
    ts: Seq<TypeRef>,
    mode: KeyMode,
    r: Result<String, ExpandError>,
)
    requires
        ts.len() >= 1,
        !is_path(shape_of(ts[0])),
        expanded(ts, mode, r),
    ensures
        r is Err,
        ts.len() >= 3 || (ts.len() == 2 && mode == KeyMode::Defaulted) ==> r == Err::<
            String,
            ExpandError,
        >(ExpandError::InvalidRecordType),
{
    assert(shapes(ts)[0] == shape_of(ts[0]));
}

/// Too few arguments for the mode fail the expansion with the error that
/// names the first missing one.
pub proof fn lemma_missing_argument_named(
    ts: Seq<TypeRef>,
    mode: KeyMode,
    r: Result<String, ExpandError>,
)
    requires
        expanded(ts, mode, r),
    ensures
        ts.len() == 0 ==> r == Err::<String, ExpandError>(ExpandError::MissingRecordType),
        ts.len() == 1 ==> r == Err::<String, ExpandError>(ExpandError::MissingTableRoute),
        ts.len() == 2 && mode == KeyMode::Required ==> r == Err::<String, ExpandError>(
            ExpandError::MissingIdType,
        ),
{
}

/// Leaving out the key type in the defaulting mode gives the same result
/// as giving the default key type as third argument, in either mode: the
/// same accessors, or the same error.
pub proof fn lemma_default_key_only_changes_key(
    ts: Seq<TypeRef>,
    key: TypeRef,
    mode: KeyMode,
    r2: Result<String, ExpandError>,
    r3: Result<String, ExpandError>,
)
    requires
        ts.len() == 2,
        key.text@ == default_key(),
        expanded(ts, KeyMode::Defaulted, r2),
        expanded(ts.push(key), mode, r3),
    ensures
        r2 is Ok <==> r3 is Ok,
        r2 is Ok ==> r2->Ok_0@ == r3->Ok_0@,
        r2 is Err ==> r2 == r3,
{
    let t3 = ts.push(key);
    assert(shapes(t3)[0] == shapes(ts)[0]);
    assert(shapes(t3)[1] == shapes(ts)[1]);
    assert(t3[1] == ts[1]);
}

/// Whether `t` is a path with at least one segment.
fn is_path_ref(t: &TypeRef) -> (b: bool)
    ensures
        b == is_path(shape_of(*t)),
{
    match &t.path {
        Some(p) => p.segments.len() > 0,
        None => false,
    }
}

/// What expanding `ts` in `mode` returns: the first argument error, else
/// the accessors of the record type, stored under the table route, keyed by
/// the key type.
pub open spec fn expanded(ts: Seq<TypeRef>, mode: KeyMode, r: Result<String, ExpandError>) -> bool {
    match argument_error(shapes(ts), mode) {
        Some(e) => r == Err::<String, ExpandError>(e),
        None => r matches Ok(f) && f@ == render(record_ident(shapes(ts)), route_text(ts), key_text(ts)),
    }
}

/// Expands the arguments `types` into the accessor functions of the record
/// type they name, or says which argument is missing or malformed.
pub fn expand(types: &Vec<TypeRef>, mode: KeyMode) -> (r: Result<String, ExpandError>)
    ensures
        expanded(types@, mode, r),
{
    let ghost sh = shapes(types@);
    if types.len() < 1 {
        return Err(ExpandError::MissingRecordType);
    }
    if types.len() < 2 {
        return Err(ExpandError::MissingTableRoute);
    }
    if mode == KeyMode::Required && types.len() < 3 {
        return Err(ExpandError::MissingIdType);
    }
    if !is_path_ref(&types[0]) {
        return Err(ExpandError::InvalidRecordType);
    }
    if !is_path_ref(&types[1]) {
        return Err(ExpandError::InvalidTableRoute);
    }
    let record = match &types[0].path {
        Some(p) => p.segments[0].as_str(),
        None => "",
    };
    let route = match &types[1].path {
        Some(p) => p.text.as_str(),
        None => "",
    };
    let key = if types.len() >= 3 {
        types[2].text.clone()
    } else {
        String::from_str("Uuid")
    };
    Ok(render_accessors(record, route, key.as_str()))
}

/// Relies on syn's `Punctuated::<Type, Comma>::parse_terminated` to read a
/// comma-separated list of types, on `Type::Path` to tell paths apart, on
/// `Ident`'s `to_string` for the segments' identifiers and on the token
/// printer for the text.  What comes back depends on the lexer in use
/// (rustc's inside a procedural macro, proc-macro2's own elsewhere), so
/// nothing is stated of it.  The parser recurses without a depth limit, at
/// most once per token: the bound on the tokens keeps it within the stack.
#[verifier::external_body]
fn parse_type_list(input: &str) -> (r: Option<Vec<TypeRef>>)
    requires
        token_starts(input@) <= MAX_TOKENS,
{
    let list = Punctuated::<syn::Type, syn::token::Comma>::parse_terminated.parse_str(input).ok()?;
    Some(list.iter().map(|t| TypeRef {
        text: t.to_token_stream().to_string(),
        path: match t {
            syn::Type::Path(p) => Some(TypePath {
                segments: p.path.segments.iter().map(|s| s.ident.to_string()).collect(),
                text: p.path.to_token_stream().to_string(),
            }),
            _ => None,
        },
    }).collect())
}

/// What generating from an argument list text returns, whatever the parser
/// made of the text: `Unparsable`, or the expansion of the list of types
/// it read.
pub open spec fn generated(mode: KeyMode, r: Result<String, ExpandError>) -> bool {
    r == Err::<String, ExpandError>(ExpandError::Unparsable) || exists|ts: Seq<TypeRef>|
        #[trigger] expanded(ts, mode, r)
}

fn generate(input: &str, mode: KeyMode) -> (r: Result<String, ExpandError>)
    requires
        token_starts(input@) <= MAX_TOKENS,
    ensures
        generated(mode, r),
{
    match parse_type_list(input) {
        None => Err(ExpandError::Unparsable),
        Some(types) => {
            let r = expand(&types, mode);
            assert(expanded(types@, mode, r));
            r
        },
    }
}

/// Generates the accessor functions from the text of the argument list
/// `RecordType, TableRoute` or `RecordType, TableRoute, IdType`; without a
/// key type the default one is used.
pub fn generate_sql_methods(input: &str) -> (r: Result<String, ExpandError>)
    requires
        token_starts(input@) <= MAX_TOKENS,
    ensures
        generated(KeyMode::Defaulted, r),
{
    generate(input, KeyMode::Defaulted)
}

/// Generates the accessor functions from the text of the argument list
/// `RecordType, TableRoute, IdType`; the key type must be given.
pub fn generate_sql_methods_with_required_key(input: &str) -> (r: Result<String, ExpandError>)
    requires
        token_starts(input@) <= MAX_TOKENS,
    ensures
        generated(KeyMode::Required, r),
{
    generate(input, KeyMode::Required)
}

} // verus!
