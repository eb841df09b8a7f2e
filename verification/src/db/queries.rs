//! The catalogue's search query, and how a stored row becomes a [`MediaFile`].

use vstd::prelude::*;
use vstd::string::*;

use crate::db::models::{type_of_stored_name, MediaFile, MediaType};
use crate::text::{chars_of, push_string, str_eq, string_views};

verus! {

/// The columns of a catalogue row, selected from the catalogue table.
pub const SELECT_MEDIA: &'static str =
    "SELECT id, path, media_type, size_bytes, thumbnail_path, vtt_path, process_status, last_modified FROM media_files";

/// The characters with the Unicode `White_Space` property, i.e. those for
/// which `char::is_whitespace` holds.
pub open spec fn is_white_space(c: char) -> bool {
    let u = c as u32;
    ||| (0x9 <= u && u <= 0xD)
    ||| u == 0x20
    ||| u == 0x85
    ||| u == 0xA0
    ||| u == 0x1680
    ||| (0x2000 <= u && u <= 0x200A)
    ||| u == 0x2028
    ||| u == 0x2029
    ||| u == 0x202F
    ||| u == 0x205F
    ||| u == 0x3000
}

/// Whether `c` is whitespace.
pub fn char_is_whitespace(c: char) -> (w: bool)
    ensures
        w == is_white_space(c),
{
    let u = c as u32;
    (0x9 <= u && u <= 0xD) || u == 0x20 || u == 0x85 || u == 0xA0 || u == 0x1680 || (0x2000 <= u
        && u <= 0x200A) || u == 0x2028 || u == 0x2029 || u == 0x202F || u == 0x205F || u == 0x3000
}

/// The SQL that lists the files still waiting for processing.
pub open spec fn pending_media_sql_text() -> Seq<char> {
    SELECT_MEDIA@ + " WHERE process_status = 'pending'"@
}

/// The SQL that reads the file with id `?1`.
pub open spec fn media_by_id_sql_text() -> Seq<char> {
    SELECT_MEDIA@ + " WHERE id = ?1"@
}

/// The query for the files still waiting for processing.
pub fn pending_media_sql() -> (sql: String)
    ensures
        sql@ == pending_media_sql_text(),
{
    let mut sql = String::from_str(SELECT_MEDIA);
    sql.append(" WHERE process_status = 'pending'");
    sql
}

/// The query for one file by id; its one parameter is the id.
pub fn media_by_id_sql() -> (sql: String)
    ensures
        sql@ == media_by_id_sql_text(),
{
    let mut sql = String::from_str(SELECT_MEDIA);
    sql.append(" WHERE id = ?1");
    sql
}

/// Whether the text is empty or whitespace only, i.e. trims to nothing.
pub open spec fn is_blank(s: Seq<char>) -> bool {
    forall|i: int| 0 <= i < s.len() ==> is_white_space(#[trigger] s[i])
}

/// Whether `s` trims to nothing.
pub fn blank(s: &str) -> (b: bool)
    ensures
        b == is_blank(s@),
{
    let chars = chars_of(s);
    let mut i: usize = 0;
    while i < chars.len()
        invariant
            chars@ == s@,
            i <= chars.len(),
            forall|j: int| 0 <= j < i ==> is_white_space(#[trigger] s@[j]),
        decreases chars.len() - i,
    {
        if !char_is_whitespace(chars[i]) {
            return false;
        }
        i = i + 1;
    }
    true
}

/// The sort order used when none is given.
pub open spec fn default_sort() -> Seq<char> {
    "last_modified_desc"@
}

/// The `ORDER BY` clause for a sort order; unknown orders sort newest first.
pub open spec fn order_clause(sort: Seq<char>) -> Seq<char> {
    if sort == "name_asc"@ {
        " ORDER BY path ASC"@
    } else if sort == "name_desc"@ {
        " ORDER BY path DESC"@
    } else if sort == "size_asc"@ {
        " ORDER BY size_bytes ASC"@
    } else if sort == "size_desc"@ {
        " ORDER BY size_bytes DESC"@
    } else if sort == "last_modified_asc"@ {
        " ORDER BY last_modified ASC"@
    } else {
        " ORDER BY last_modified DESC"@
    }
}

/// The search text that filters by path, if any: blank text filters nothing.
pub open spec fn path_filter(search: Option<Seq<char>>) -> Option<Seq<char>> {
    match search {
        Some(s) => if is_blank(s) { None } else { Some(s) },
        None => None,
    }
}

/// The SQL of a search.
pub open spec fn search_sql(search: Option<Seq<char>>, sort: Option<Seq<char>>) -> Seq<char> {
    SELECT_MEDIA@ + (if path_filter(search) is Some { " WHERE path LIKE ?1"@ } else { Seq::empty() })
        + order_clause(
        match sort {
            Some(s) => s,
            None => default_sort(),
        },
    )
}

/// The parameters of a search: the filter text wrapped in `%` wildcards.
pub open spec fn search_params(search: Option<Seq<char>>) -> Seq<Seq<char>> {
    match path_filter(search) {
        Some(s) => seq!["%"@ + s + "%"@],
        None => Seq::empty(),
    }
}

/// A search binds its one parameter exactly when its SQL filters by path, and
/// blank search text lists the same files, in the same order, as no search text.
pub proof fn lemma_search_consistent(search: Option<Seq<char>>, sort: Option<Seq<char>>)
    ensures
        search_sql(search, sort) == SELECT_MEDIA@ + (if search_params(search).len() == 1 {
            " WHERE path LIKE ?1"@
        } else {
            Seq::empty()
        }) + order_clause(
            match sort {
                Some(s) => s,
                None => default_sort(),
            },
        ),
        search_params(search).len() <= 1,
        search matches Some(s) && is_blank(s) ==> search_sql(search, sort) == search_sql(None, sort)
            && search_params(search) == search_params(None),
{
}

/// Each sort order sorts by its column: names by path, sizes by size, dates
/// by modification time, `_asc` ascending and `_desc` descending; any other
/// order sorts newest first.
pub proof fn lemma_sort_orders(other: Seq<char>)
    requires
        other != "name_asc"@,
        other != "name_desc"@,
        other != "size_asc"@,
        other != "size_desc"@,
        other != "last_modified_asc"@,
    ensures
        order_clause("name_asc"@) == " ORDER BY "@ + "path"@ + " ASC"@,
        order_clause("name_desc"@) == " ORDER BY "@ + "path"@ + " DESC"@,
        order_clause("size_asc"@) == " ORDER BY "@ + "size_bytes"@ + " ASC"@,
        order_clause("size_desc"@) == " ORDER BY "@ + "size_bytes"@ + " DESC"@,
        order_clause("last_modified_asc"@) == " ORDER BY "@ + "last_modified"@ + " ASC"@,
        order_clause("last_modified_desc"@) == " ORDER BY "@ + "last_modified"@ + " DESC"@,
        order_clause(other) == " ORDER BY "@ + "last_modified"@ + " DESC"@,
        order_clause(default_sort()) == " ORDER BY "@ + "last_modified"@ + " DESC"@,
{
    reveal_strlit("name_asc");
    reveal_strlit("name_desc");
    reveal_strlit("size_asc");
    reveal_strlit("size_desc");
    reveal_strlit("last_modified_asc");
    reveal_strlit("last_modified_desc");
    reveal_strlit(" ORDER BY ");
    reveal_strlit("path");
    reveal_strlit("size_bytes");
    reveal_strlit("last_modified");
    reveal_strlit(" ASC");
    reveal_strlit(" DESC");
    reveal_strlit(" ORDER BY path ASC");
    reveal_strlit(" ORDER BY path DESC");
    reveal_strlit(" ORDER BY size_bytes ASC");
    reveal_strlit(" ORDER BY size_bytes DESC");
    reveal_strlit(" ORDER BY last_modified ASC");
    reveal_strlit(" ORDER BY last_modified DESC");
    assert("name_desc"@.len() != "name_asc"@.len());
    assert("name_desc"@ != "name_asc"@);
    assert("size_asc"@[0] != "name_asc"@[0]);
    assert("size_asc"@ != "name_desc"@);
    assert("size_desc"@[0] != "name_asc"@[0]);
    assert("size_desc"@[0] != "name_desc"@[0]);
    assert("size_desc"@.len() != "size_asc"@.len());
    assert("size_desc"@ != "size_asc"@);
    assert("last_modified_desc"@.len() != "last_modified_asc"@.len());
    assert("last_modified_asc"@ != "name_asc"@);
    assert("last_modified_asc"@ != "name_desc"@);
    assert("last_modified_asc"@ != "size_asc"@);
    assert("last_modified_asc"@ != "size_desc"@);
    assert("last_modified_desc"@ != "name_asc"@);
    assert("last_modified_desc"@ != "name_desc"@);
    assert("last_modified_desc"@ != "size_asc"@);
    assert("last_modified_desc"@ != "size_desc"@);
    assert("last_modified_desc"@ != "last_modified_asc"@);
    assert(" ORDER BY path ASC"@ =~= " ORDER BY "@ + "path"@ + " ASC"@);
    assert(" ORDER BY path DESC"@ =~= " ORDER BY "@ + "path"@ + " DESC"@);
    assert(" ORDER BY size_bytes ASC"@ =~= " ORDER BY "@ + "size_bytes"@ + " ASC"@);
    assert(" ORDER BY size_bytes DESC"@ =~= " ORDER BY "@ + "size_bytes"@ + " DESC"@);
    assert(" ORDER BY last_modified ASC"@ =~= " ORDER BY "@ + "last_modified"@ + " ASC"@);
    assert(" ORDER BY last_modified DESC"@ =~= " ORDER BY "@ + "last_modified"@ + " DESC"@);
}

/// A parameterised query.
pub struct SearchQuery {
    pub sql: String,
    pub params: Vec<String>,
}

/// The characters of an optional string slice.
pub open spec fn opt_view(s: Option<&str>) -> Option<Seq<char>> {
    match s {
        Some(t) => Some(t@),
        None => None,
    }
}

fn sql_order_clause(sort: &str) -> (clause: &'static str)
    ensures
        clause@ == order_clause(sort@),
{
    if str_eq(sort, "name_asc") {
        " ORDER BY path ASC"
    } else if str_eq(sort, "name_desc") {
        " ORDER BY path DESC"
    } else if str_eq(sort, "size_asc") {
        " ORDER BY size_bytes ASC"
    } else if str_eq(sort, "size_desc") {
        " ORDER BY size_bytes DESC"
    } else if str_eq(sort, "last_modified_asc") {
        " ORDER BY last_modified ASC"
    } else {
        " ORDER BY last_modified DESC"
    }
}

/// The SQL of a search whose text, if any, is known to be blank or not.
pub open spec fn search_sql_given(search: Option<Seq<char>>, search_blank: bool, sort: Option<
    Seq<char>,
>) -> Seq<char> {
    SELECT_MEDIA@ + (if search is Some && !search_blank {
        " WHERE path LIKE ?1"@
    } else {
        Seq::empty()
    }) + order_clause(
        match sort {
            Some(s) => s,
            None => default_sort(),
        },
    )
}

/// The parameters of a search whose text, if any, is known to be blank or not.
pub open spec fn search_params_given(search: Option<Seq<char>>, search_blank: bool) -> Seq<
    Seq<char>,
> {
    match search {
        Some(s) => if search_blank { Seq::empty() } else { seq!["%"@ + s + "%"@] },
        None => Seq::empty(),
    }
}

/// The listing query, given whether the search text (if any) trims to nothing:
/// blank text filters nothing, other text keeps the paths that contain it; the
/// sort order picks the `ORDER BY` clause (newest first by default).
pub fn search_query_given(search: Option<&str>, search_blank: bool, sort: Option<&str>) -> (q:
    SearchQuery)
    ensures
        q.sql@ == search_sql_given(opt_view(search), search_blank, opt_view(sort)),
        string_views(q.params@) == search_params_given(opt_view(search), search_blank),
{
    let mut sql = String::from_str(SELECT_MEDIA);
    let mut params: Vec<String> = Vec::new();
    if let Some(s) = search {
        if !search_blank {
            sql.append(" WHERE path LIKE ?1");
            let mut pattern = String::from_str("%");
            pattern.append(s);
            pattern.append("%");
            push_string(&mut params, pattern.as_str());
        }
    }
    let clause = match sort {
        Some(s) => sql_order_clause(s),
        None => sql_order_clause("last_modified_desc"),
    };
    sql.append(clause);
    assert(string_views(params@) =~= search_params_given(opt_view(search), search_blank));
    SearchQuery { sql, params }
}

/// The query listing the catalogue: filtered by a path substring when the
/// search text is not blank, sorted by the given order (newest first by default).
pub fn search_query(search: Option<&str>, sort: Option<&str>) -> (q: SearchQuery)
    ensures
        q.sql@ == search_sql(opt_view(search), opt_view(sort)),
        string_views(q.params@) == search_params(opt_view(search)),
{
    let search_blank = match search {
        Some(s) => blank(s),
        None => false,
    };
    let q = search_query_given(search, search_blank, sort);
    assert(string_views(q.params@) =~= search_params(opt_view(search)));
    q
}

/// The catalogue entry for a stored row; an unrecognised type name reads as `Unknown`.
pub fn media_file_from_row(
    id: i64,
    path: String,
    media_type: &str,
    size_bytes: i64,
    thumbnail_path: Option<String>,
    vtt_path: Option<String>,
    process_status: String,
    last_modified: i64,
) -> (file: MediaFile)
    ensures
        file == (MediaFile {
            id,
            path,
            media_type: type_of_stored_name(media_type@),
            size_bytes,
            thumbnail_path,
            vtt_path,
            process_status,
            last_modified,
        }),
{
    MediaFile {
        id,
        path,
        media_type: MediaType::from_string(media_type),
        size_bytes,
        thumbnail_path,
        vtt_path,
        process_status,
        last_modified,
    }
}

}
