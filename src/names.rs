//! The family of names derived from a record type's identifier.

use vstd::prelude::*;
use crate::normalize::{camel_case_to_snake_case, is_ascii_upper, snake_case};

verus! {

/// The lowercase form of `s`, as `str::to_lowercase` gives it under
/// Unicode's lowercase mapping.
pub uninterp spec fn lowercase_of(s: Seq<char>) -> Seq<char>;

/// Relies on `str::to_lowercase`, whose result depends on the characters
/// alone.
#[verifier::external_body]
fn to_lowercase(s: &str) -> (r: String)
    ensures
        r@ == lowercase_of(s@),
{
    s.to_lowercase()
}

/// The stem of the function names: the snake-case form of the record type's
/// identifier, then lowercased in full, which also lowercases the letters
/// outside ASCII that the snake-case pass leaves alone.
pub open spec fn stem_of(record: Seq<char>) -> Seq<char> {
    lowercase_of(snake_case(record))
}

/// Computes the stem of the function names of the record type `record`.
pub fn stem(record: &str) -> (r: String)
    ensures
        r@ == stem_of(record@),
{
    let snake = camel_case_to_snake_case(record);
    to_lowercase(snake.as_str())
}

pub open spec fn get_name(stem: Seq<char>) -> Seq<char> {
    "get_"@ + stem
}

pub open spec fn insert_name(stem: Seq<char>) -> Seq<char> {
    "insert_"@ + stem
}

pub open spec fn update_name(stem: Seq<char>) -> Seq<char> {
    "update_"@ + stem
}

pub open spec fn patch_name(stem: Seq<char>) -> Seq<char> {
    "patch_"@ + stem
}

pub open spec fn delete_name(stem: Seq<char>) -> Seq<char> {
    "delete_"@ + stem
}

/// The connection-level variant of a pool-level function name.
pub open spec fn with_conn(name: Seq<char>) -> Seq<char> {
    name + "_with_conn"@
}

/// The companion shape used for full writes.
pub open spec fn insertable_name(record: Seq<char>) -> Seq<char> {
    "Insertable"@ + record
}

/// The sparse companion shape used for partial writes.
pub open spec fn updatable_name(record: Seq<char>) -> Seq<char> {
    "Updatable"@ + record
}

/// Every name derived from one record type identifier.
pub struct DerivedNames {
    pub stem: String,
    pub get: String,
    pub get_with_conn: String,
    pub insertable: String,
    pub insert: String,
    pub insert_with_conn: String,
    pub updatable: String,
    pub update: String,
    pub update_with_conn: String,
    pub patch: String,
    pub patch_with_conn: String,
    pub delete: String,
    pub delete_with_conn: String,
}

impl DerivedNames {
    /// The names are those derived from `record`: the functions' from its
    /// lowercased snake-case stem, the companion shapes' from `record` as
    /// written.
    pub open spec fn derived_from(&self, record: Seq<char>) -> bool {
        self.derived_from_stem(record, stem_of(record))
    }

    /// The names are those of the record type `record` whose function names
    /// have the stem `stem`.
    pub open spec fn derived_from_stem(&self, record: Seq<char>, stem: Seq<char>) -> bool {
        &&& self.stem@ == stem
        &&& self.get@ == get_name(stem)
        &&& self.get_with_conn@ == with_conn(get_name(stem))
        &&& self.insertable@ == insertable_name(record)
        &&& self.insert@ == insert_name(stem)
        &&& self.insert_with_conn@ == with_conn(insert_name(stem))
        &&& self.updatable@ == updatable_name(record)
        &&& self.update@ == update_name(stem)
        &&& self.update_with_conn@ == with_conn(update_name(stem))
        &&& self.patch@ == patch_name(stem)
        &&& self.patch_with_conn@ == with_conn(patch_name(stem))
        &&& self.delete@ == delete_name(stem)
        &&& self.delete_with_conn@ == with_conn(delete_name(stem))
    }
}

/// The function names and companion shape names of the record type
/// `record` whose function names have the stem `stem`, in a fixed order.
pub open spec fn role_names(record: Seq<char>, stem: Seq<char>) -> Seq<Seq<char>> {
    seq![
        get_name(stem),
        with_conn(get_name(stem)),
        insertable_name(record),
        insert_name(stem),
        with_conn(insert_name(stem)),
        updatable_name(record),
        update_name(stem),
        with_conn(update_name(stem)),
        patch_name(stem),
        with_conn(patch_name(stem)),
        delete_name(stem),
        with_conn(delete_name(stem)),
    ]
}

/// No two of the function and companion shape names coincide, whatever the
/// record type and the stem; the stem itself differs from all of them
/// unless it starts with an uppercase ASCII letter.
pub proof fn lemma_role_names_distinct(record: Seq<char>, stem: Seq<char>)
    ensures
        forall|i: int, j: int|
            0 <= i < j < role_names(record, stem).len() ==> role_names(record, stem)[i]
                != role_names(record, stem)[j],
        stem.len() == 0 || !is_ascii_upper(stem[0]) ==> forall|i: int|
            0 <= i < role_names(record, stem).len() ==> role_names(record, stem)[i] != stem,
{
    reveal_strlit("get_");
    reveal_strlit("insert_");
    reveal_strlit("update_");
    reveal_strlit("patch_");
    reveal_strlit("delete_");
    reveal_strlit("_with_conn");
    reveal_strlit("Insertable");
    reveal_strlit("Updatable");
    let names = role_names(record, stem);
    // Each name is told apart by its first character and its length.
    assert(names[0][0] == 'g' && names[0].len() == stem.len() + 4);
    assert(names[1][0] == 'g' && names[1].len() == stem.len() + 14);
    assert(names[2][0] == 'I' && names[2].len() == record.len() + 10);
    assert(names[3][0] == 'i' && names[3].len() == stem.len() + 7);
    assert(names[4][0] == 'i' && names[4].len() == stem.len() + 17);
    assert(names[5][0] == 'U' && names[5].len() == record.len() + 9);
    assert(names[6][0] == 'u' && names[6].len() == stem.len() + 7);
    assert(names[7][0] == 'u' && names[7].len() == stem.len() + 17);
    assert(names[8][0] == 'p' && names[8].len() == stem.len() + 6);
    assert(names[9][0] == 'p' && names[9].len() == stem.len() + 16);
    assert(names[10][0] == 'd' && names[10].len() == stem.len() + 7);
    assert(names[11][0] == 'd' && names[11].len() == stem.len() + 17);
}

/// `prefix` followed by `stem`.
fn prefixed(prefix: &str, stem: &str) -> (r: String)
    ensures
        r@ == prefix@ + stem@,
{
    let mut r = String::from_str(prefix);
    r.append(stem);
    r
}

/// `name` followed by the connection-level suffix.
fn conn_variant(name: &String) -> (r: String)
    ensures
        r@ == with_conn(name@),
{
    let mut r = name.clone();
    r.append("_with_conn");
    r
}

/// Derives the names of the accessor functions and companion shapes of the
/// record type called `record`.
pub fn derive_names(record: &str) -> (names: DerivedNames)
    ensures
        names.derived_from(record@),
{
    let stem = stem(record);
    names_from_stem(record, stem.as_str())
}

/// Derives the names of the accessor functions and companion shapes of the
/// record type called `record`, whose function names have the stem `stem`.
pub fn names_from_stem(record: &str, stem: &str) -> (names: DerivedNames)
    ensures
        names.derived_from_stem(record@, stem@),
{
    let get = prefixed("get_", stem);
    let get_with_conn = conn_variant(&get);
    let insert = prefixed("insert_", stem);
    let insert_with_conn = conn_variant(&insert);
    let update = prefixed("update_", stem);
    let update_with_conn = conn_variant(&update);
    let patch = prefixed("patch_", stem);
    let patch_with_conn = conn_variant(&patch);
    let delete = prefixed("delete_", stem);
    let delete_with_conn = conn_variant(&delete);
    let insertable = prefixed("Insertable", record);
    let updatable = prefixed("Updatable", record);
    DerivedNames {
        stem: String::from_str(stem),
        get,
        get_with_conn,
        insertable,
        insert,
        insert_with_conn,
        updatable,
        update,
        update_with_conn,
        patch,
        patch_with_conn,
        delete,
        delete_with_conn,
    }
}

} // verus!
