//! Rendering of the accessor functions as Rust source text.

use vstd::prelude::*;
use crate::names::{
    delete_name, get_name, insert_name, insertable_name, names_from_stem, patch_name, stem, stem_of,
    update_name, updatable_name, with_conn,
};

verus! {

/// A pool-level function: it takes a connection from the pool and hands the
/// work on to the connection-level function `target`.
pub open spec fn pool_fn(
    name: Seq<char>,
    params: Seq<char>,
    ret: Seq<char>,
    target: Seq<char>,
    args: Seq<char>,
) -> Seq<char> {
    "pub fn "@ + name + "("@ + params + "pool: &PgPool) -> Result<"@ + ret
        + ", SqlError> {\n    use diesel::prelude::*;\n\n    let mut conn = get_connection!(pool);\n    "@
        + target + "("@ + args + "&mut conn)\n}\n\n"@
}

/// The first line of a connection-level function.
pub open spec fn conn_fn_head(name: Seq<char>, params: Seq<char>, ret: Seq<char>) -> Seq<char> {
    "pub fn "@ + name + "("@ + params + "conn: &mut PgPooledConnection) -> Result<"@ + ret
        + ", SqlError> {\n"@
}

/// The tail of a store call: a failure is logged, naming the record type,
/// and wrapped in the uniform error.
pub open spec fn log_and_wrap(message: Seq<char>, record: Seq<char>) -> Seq<char> {
    "        .map_err(|e| {\n            log::error!(\"Failed to "@ + message
        + " (error: {e})\", stringify!("@ + record
        + "));\n            SqlError::DieselError(e)\n        })?;\n"@
}

/// The parameter list piece that takes the key `struct_id`.
pub open spec fn key_param(key: Seq<char>) -> Seq<char> {
    "struct_id: &"@ + key + ", "@
}

/// Connection-level lookup by primary key.
pub open spec fn get_conn_fn(name: Seq<char>, record: Seq<char>, route: Seq<char>, key: Seq<char>) -> Seq<char> {
    conn_fn_head(name, key_param(key), record)
        + "    use diesel::prelude::*;\n\n    let result = "@ + route
        + "::table\n        .find(struct_id)\n        .first(conn)\n"@
        + log_and_wrap("get {} with ID {struct_id}"@, record)
        + "    Ok(result)\n}\n\n"@
}

/// Connection-level insertion of a full write shape, stamping both
/// timestamps with the store's current time.
pub open spec fn insert_conn_fn(name: Seq<char>, record: Seq<char>, route: Seq<char>) -> Seq<char> {
    conn_fn_head(name, "new_struct: &"@ + insertable_name(record) + ", "@, record)
        + "    use "@ + route + "::dsl::*;\n    use diesel::prelude::*;\n\n    let result = diesel::insert_into("@
        + route
        + "::table)\n        .values((\n            new_struct,\n            created_at.eq(diesel::dsl::now),\n            updated_at.eq(diesel::dsl::now)\n        ))\n        .get_result(conn)\n"@
        + log_and_wrap("insert new {}"@, record)
        + "    Ok(result)\n}\n\n"@
}

/// Connection-level update of the row with key `struct_id` from the write
/// shape `shape`, stamping the update time; `verb` names the operation in
/// the failure message.
pub open spec fn write_conn_fn(
    name: Seq<char>,
    verb: Seq<char>,
    shape: Seq<char>,
    record: Seq<char>,
    route: Seq<char>,
    key: Seq<char>,
) -> Seq<char> {
    conn_fn_head(name, key_param(key) + "updated_struct: &"@ + shape + ", "@, record)
        + "    use "@ + route + "::dsl::*;\n    use diesel::prelude::*;\n\n    let result = diesel::update("@
        + route
        + "::table.find(struct_id))\n        .set((updated_struct, updated_at.eq(diesel::dsl::now)))\n        .get_result(conn)\n"@
        + log_and_wrap(verb + " {} with ID {struct_id}"@, record)
        + "    Ok(result)\n}\n\n"@
}

/// Connection-level deletion of the row with key `struct_id`.
pub open spec fn delete_conn_fn(name: Seq<char>, record: Seq<char>, route: Seq<char>, key: Seq<char>) -> Seq<char> {
    conn_fn_head(name, key_param(key), "()"@)
        + "    use "@ + route + "::dsl::*;\n    use diesel::prelude::*;\n\n    diesel::delete("@
        + route + "::table.find(struct_id))\n        .execute(conn)\n"@
        + log_and_wrap("delete {} with ID {struct_id}"@, record)
        + "    Ok(())\n}\n\n"@
}

/// The whole fragment for the record type `record`, stored under the table
/// route `route` with keys of type `key`: the pool-level and the
/// connection-level function of get, insert, update, patch and delete.
pub open spec fn render(record: Seq<char>, route: Seq<char>, key: Seq<char>) -> Seq<char> {
    render_from_stem(record, stem_of(record), route, key)
}

/// The fragment of `render`, with `stem` as the stem of the function names.
pub open spec fn render_from_stem(
    record: Seq<char>,
    stem: Seq<char>,
    route: Seq<char>,
    key: Seq<char>,
) -> Seq<char> {
    let insertable = insertable_name(record);
    let updatable = updatable_name(record);
    pool_fn(get_name(stem), key_param(key), record, with_conn(get_name(stem)), "struct_id, "@)
        + get_conn_fn(with_conn(get_name(stem)), record, route, key)
        + pool_fn(
            insert_name(stem),
            "new_struct: &"@ + insertable + ", "@,
            record,
            with_conn(insert_name(stem)),
            "new_struct, "@,
        )
        + insert_conn_fn(with_conn(insert_name(stem)), record, route)
        + pool_fn(
            update_name(stem),
            key_param(key) + "updated_struct: &"@ + insertable + ", "@,
            record,
            with_conn(update_name(stem)),
            "struct_id, updated_struct, "@,
        )
        + write_conn_fn(with_conn(update_name(stem)), "update"@, insertable, record, route, key)
        + pool_fn(
            patch_name(stem),
            key_param(key) + "updated_struct: &"@ + updatable + ", "@,
            record,
            with_conn(patch_name(stem)),
            "struct_id, updated_struct, "@,
        )
        + write_conn_fn(with_conn(patch_name(stem)), "patch"@, updatable, record, route, key)
        + pool_fn(delete_name(stem), key_param(key), "()"@, with_conn(delete_name(stem)), "struct_id, "@)
        + delete_conn_fn(with_conn(delete_name(stem)), record, route, key)
}

fn render_pool_fn(name: &str, params: &str, ret: &str, target: &str, args: &str) -> (r: String)
    ensures
        r@ == pool_fn(name@, params@, ret@, target@, args@),
{
    let mut r = String::from_str("pub fn ");
    r.append(name);
    r.append("(");
    r.append(params);
    r.append("pool: &PgPool) -> Result<");
    r.append(ret);
    r.append(", SqlError> {\n    use diesel::prelude::*;\n\n    let mut conn = get_connection!(pool);\n    ");
    r.append(target);
    r.append("(");
    r.append(args);
    r.append("&mut conn)\n}\n\n");
    r
}

fn render_conn_fn_head(name: &str, params: &str, ret: &str) -> (r: String)
    ensures
        r@ == conn_fn_head(name@, params@, ret@),
{
    let mut r = String::from_str("pub fn ");
    r.append(name);
    r.append("(");
    r.append(params);
    r.append("conn: &mut PgPooledConnection) -> Result<");
    r.append(ret);
    r.append(", SqlError> {\n");
    r
}

fn render_log_and_wrap(message: &str, record: &str) -> (r: String)
    ensures
        r@ == log_and_wrap(message@, record@),
{
    let mut r = String::from_str("        .map_err(|e| {\n            log::error!(\"Failed to ");
    r.append(message);
    r.append(" (error: {e})\", stringify!(");
    r.append(record);
    r.append("));\n            SqlError::DieselError(e)\n        })?;\n");
    r
}

fn render_key_param(key: &str) -> (r: String)
    ensures
        r@ == key_param(key@),
{
    let mut r = String::from_str("struct_id: &");
    r.append(key);
    r.append(", ");
    r
}

fn render_get_conn_fn(name: &str, record: &str, route: &str, key: &str) -> (r: String)
    ensures
        r@ == get_conn_fn(name@, record@, route@, key@),
{
    let params = render_key_param(key);
    let mut r = render_conn_fn_head(name, params.as_str(), record);
    r.append("    use diesel::prelude::*;\n\n    let result = ");
    r.append(route);
    r.append("::table\n        .find(struct_id)\n        .first(conn)\n");
    let tail = render_log_and_wrap("get {} with ID {struct_id}", record);
    r.append(tail.as_str());
    r.append("    Ok(result)\n}\n\n");
    r
}

fn render_insert_conn_fn(name: &str, insertable: &str, record: &str, route: &str) -> (r: String)
    requires
        insertable@ == insertable_name(record@),
    ensures
        r@ == insert_conn_fn(name@, record@, route@),
{
    let mut params = String::from_str("new_struct: &");
    params.append(insertable);
    params.append(", ");
    let mut r = render_conn_fn_head(name, params.as_str(), record);
    r.append("    use ");
    r.append(route);
    r.append("::dsl::*;\n    use diesel::prelude::*;\n\n    let result = diesel::insert_into(");
    r.append(route);
    r.append(
        "::table)\n        .values((\n            new_struct,\n            created_at.eq(diesel::dsl::now),\n            updated_at.eq(diesel::dsl::now)\n        ))\n        .get_result(conn)\n",
    );
    let tail = render_log_and_wrap("insert new {}", record);
    r.append(tail.as_str());
    r.append("    Ok(result)\n}\n\n");
    r
}

/// The parameter list piece that takes the key and a write shape.
fn render_write_params(key: &str, shape: &str) -> (r: String)
    ensures
        r@ == key_param(key@) + "updated_struct: &"@ + shape@ + ", "@,
{
    let mut r = render_key_param(key);
    r.append("updated_struct: &");
    r.append(shape);
    r.append(", ");
    r
}

fn render_write_conn_fn(
    name: &str,
    verb: &str,
    shape: &str,
    record: &str,
    route: &str,
    key: &str,
) -> (r: String)
    ensures
        r@ == write_conn_fn(name@, verb@, shape@, record@, route@, key@),
{
    let params = render_write_params(key, shape);
    let mut r = render_conn_fn_head(name, params.as_str(), record);
    r.append("    use ");
    r.append(route);
    r.append("::dsl::*;\n    use diesel::prelude::*;\n\n    let result = diesel::update(");
    r.append(route);
    r.append(
        "::table.find(struct_id))\n        .set((updated_struct, updated_at.eq(diesel::dsl::now)))\n        .get_result(conn)\n",
    );
    let mut message = String::from_str(verb);
    message.append(" {} with ID {struct_id}");
    let tail = render_log_and_wrap(message.as_str(), record);
    r.append(tail.as_str());
    r.append("    Ok(result)\n}\n\n");
    r
}

fn render_delete_conn_fn(name: &str, record: &str, route: &str, key: &str) -> (r: String)
    ensures
        r@ == delete_conn_fn(name@, record@, route@, key@),
{
    let params = render_key_param(key);
    let mut r = render_conn_fn_head(name, params.as_str(), "()");
    r.append("    use ");
    r.append(route);
    r.append("::dsl::*;\n    use diesel::prelude::*;\n\n    diesel::delete(");
    r.append(route);
    r.append("::table.find(struct_id))\n        .execute(conn)\n");
    let tail = render_log_and_wrap("delete {} with ID {struct_id}", record);
    r.append(tail.as_str());
    r.append("    Ok(())\n}\n\n");
    r
}

/// Renders the accessor functions of the record type `record`, stored under
/// the table route `route`, with primary keys of type `key`.
pub fn render_accessors(record: &str, route: &str, key: &str) -> (fragment: String)
    ensures
        fragment@ == render(record@, route@, key@),
{
    let stem = stem(record);
    render_accessors_from_stem(record, stem.as_str(), route, key)
}

/// Renders the accessor functions as `render_accessors` does, with `stem` as
/// the stem of the function names.
pub fn render_accessors_from_stem(record: &str, stem: &str, route: &str, key: &str) -> (fragment: String)
    ensures
        fragment@ == render_from_stem(record@, stem@, route@, key@),
{
    let n = names_from_stem(record, stem);
    let key_params = render_key_param(key);
    let mut insert_params = String::from_str("new_struct: &");
    insert_params.append(n.insertable.as_str());
    insert_params.append(", ");
    let update_params = render_write_params(key, n.insertable.as_str());
    let patch_params = render_write_params(key, n.updatable.as_str());

    let mut r = render_pool_fn(
        n.get.as_str(),
        key_params.as_str(),
        record,
        n.get_with_conn.as_str(),
        "struct_id, ",
    );
    let part = render_get_conn_fn(n.get_with_conn.as_str(), record, route, key);
    r.append(part.as_str());
    let part = render_pool_fn(
        n.insert.as_str(),
        insert_params.as_str(),
        record,
        n.insert_with_conn.as_str(),
        "new_struct, ",
    );
    r.append(part.as_str());
    let part = render_insert_conn_fn(n.insert_with_conn.as_str(), n.insertable.as_str(), record, route);
    r.append(part.as_str());
    let part = render_pool_fn(
        n.update.as_str(),
        update_params.as_str(),
        record,
        n.update_with_conn.as_str(),
        "struct_id, updated_struct, ",
    );
    r.append(part.as_str());
    let part = render_write_conn_fn(
        n.update_with_conn.as_str(),
        "update",
        n.insertable.as_str(),
        record,
        route,
        key,
    );
    r.append(part.as_str());
    let part = render_pool_fn(
        n.patch.as_str(),
        patch_params.as_str(),
        record,
        n.patch_with_conn.as_str(),
        "struct_id, updated_struct, ",
    );
    r.append(part.as_str());
    let part = render_write_conn_fn(
        n.patch_with_conn.as_str(),
        "patch",
        n.updatable.as_str(),
        record,
        route,
        key,
    );
    r.append(part.as_str());
    let part = render_pool_fn(
        n.delete.as_str(),
        key_params.as_str(),
        "()",
        n.delete_with_conn.as_str(),
        "struct_id, ",
    );
    r.append(part.as_str());
    let part = render_delete_conn_fn(n.delete_with_conn.as_str(), record, route, key);
    r.append(part.as_str());
    r
}

} // verus!
