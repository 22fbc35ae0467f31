pub mod create_text;
pub mod view_text;

use vstd::prelude::*;
use std::collections::HashMap;
use crate::helpers::export::{
    category_name_in, category_name_of, exported_template, exported_text, name_by_id_map, names_by_id,
};
use crate::row_col::{ColSpec, Row, int_at, rows_view, text_at, text_or_empty};
use crate::text::{contains, is_substring, lowercase, opt_view, to_lowercase, trim, trimmed};

verus! {

/// Whether a listed row is a text or a template.
#[derive(Clone, Copy, PartialEq, Eq, Structural, Debug)]
pub enum RowKind {
    Text,
    Template,
}

/// One line of the list of texts and templates.
#[derive(Debug)]
pub struct ListRow {
    pub kind: RowKind,
    pub id: i64,
    pub title: String,
    pub type_of_text: String,
    pub category: String,
    pub meta_category: String,
}

pub struct ListRowSpec {
    pub kind: RowKind,
    pub id: int,
    pub title: Seq<char>,
    pub type_of_text: Seq<char>,
    pub category: Seq<char>,
    pub meta_category: Seq<char>,
}

impl View for ListRow {
    type V = ListRowSpec;

    open spec fn view(&self) -> ListRowSpec {
        ListRowSpec {
            kind: self.kind,
            id: self.id as int,
            title: self.title@,
            type_of_text: self.type_of_text@,
            category: self.category@,
            meta_category: self.meta_category@,
        }
    }
}

pub open spec fn list_view(v: Seq<ListRow>) -> Seq<ListRowSpec> {
    v.map_values(|r: ListRow| r@)
}

/// The list screen: the search box and the rows it shows.
pub struct EditTextState {
    pub search_query: String,
    pub rows: Vec<ListRow>,
}

impl Default for EditTextState {
    fn default() -> (s: Self)
        ensures
            s.search_query@ == Seq::<char>::empty(),
            s.rows@ == Seq::<ListRow>::empty(),
    {
        EditTextState { search_query: String::new(), rows: Vec::new() }
    }
}

/// What the list screen asks for.
#[derive(Clone, Copy, PartialEq, Eq, Structural, Debug)]
pub enum EditTextAction {
    Nothing,
    Back,
    NewText,
    NewTemplate,
    EditText(i64),
    EditTemplate(i64),
    FillTemplate(i64),
    DeleteText(i64),
    DeleteTemplate(i64),
}

/// The action of a row's Delete button.
pub fn delete_action(row: &ListRow) -> (a: EditTextAction)
    ensures
        row.kind == RowKind::Text ==> a == EditTextAction::DeleteText(row.id),
        row.kind == RowKind::Template ==> a == EditTextAction::DeleteTemplate(row.id),
{
    match row.kind {
        RowKind::Text => EditTextAction::DeleteText(row.id),
        RowKind::Template => EditTextAction::DeleteTemplate(row.id),
    }
}

/// The action of a row's Edit button.
pub fn edit_action(row: &ListRow) -> (a: EditTextAction)
    ensures
        row.kind == RowKind::Text ==> a == EditTextAction::EditText(row.id),
        row.kind == RowKind::Template ==> a == EditTextAction::EditTemplate(row.id),
{
    match row.kind {
        RowKind::Text => EditTextAction::EditText(row.id),
        RowKind::Template => EditTextAction::EditTemplate(row.id),
    }
}

/// The message for a stored row whose id is not an integer.
pub open spec fn bad_id_message() -> Seq<char> {
    "expected an integer id in the first column"@
}

/// The message for a stored row whose title is not text.
pub open spec fn bad_title_message() -> Seq<char> {
    "expected a text title in the second column"@
}

/// A stored row can be listed when it has an integer id and a text title.
pub open spec fn parses(row: Seq<ColSpec>) -> bool {
    int_at(row, 0) is Some && text_at(row, 1) is Some
}

pub open spec fn parse_error(row: Seq<ColSpec>) -> Seq<char> {
    if int_at(row, 0) is None {
        bad_id_message()
    } else {
        bad_title_message()
    }
}

pub open spec fn name_or_empty(n: Option<Seq<char>>) -> Seq<char> {
    match n {
        Some(s) => s,
        None => Seq::empty(),
    }
}

/// The line for a stored text or template. Texts keep their categories in
/// the fourth and fifth columns and their type in the sixth; templates keep
/// their categories in the sixth and seventh and have no type.
pub open spec fn list_row_of(row: Seq<ColSpec>, kind: RowKind, names: Map<i64, String>) -> ListRowSpec {
    let (cat, meta) = match kind {
        RowKind::Text => (3int, 4int),
        RowKind::Template => (5int, 6int),
    };
    ListRowSpec {
        kind,
        id: int_at(row, 0)->0,
        title: text_at(row, 1)->0,
        type_of_text: match kind {
            RowKind::Text => text_or_empty(row, 5),
            RowKind::Template => Seq::empty(),
        },
        category: name_or_empty(category_name_in(row, cat, names)),
        meta_category: name_or_empty(category_name_in(row, meta, names)),
    }
}

/// Reads one stored row into a line of the list.
pub fn parse_row(r: &Row, kind: RowKind, names: &HashMap<i64, String>) -> (res: Result<ListRow, String>)
    requires
        r.cols@.len() >= 2,
    ensures
        parses(r@) ==> (res matches Ok(l) && l@ == list_row_of(r@, kind, names@)),
        !parses(r@) ==> (res matches Err(e) && e@ == parse_error(r@)),
{
    let id = match r.int_at(0) {
        Some(v) => v,
        None => {
            return Err("expected an integer id in the first column".to_string());
        },
    };
    let title = match r.text_at(1) {
        Some(t) => t,
        None => {
            return Err("expected a text title in the second column".to_string());
        },
    };
    let (cat_idx, meta_idx): (usize, usize) = match kind {
        RowKind::Text => (3, 4),
        RowKind::Template => (5, 6),
    };
    let category = match category_name_of(r, cat_idx, names) {
        Some(n) => n,
        None => String::new(),
    };
    let meta_category = match category_name_of(r, meta_idx, names) {
        Some(n) => n,
        None => String::new(),
    };
    let type_of_text = match kind {
        RowKind::Text => r.text_or_empty(5),
        RowKind::Template => String::new(),
    };
    Ok(ListRow { kind, id, title, type_of_text, category, meta_category })
}

/// A line matches a search (already trimmed and lower-cased) when the search
/// is empty or occurs in the lower-cased title, category, meta category or type.
pub open spec fn row_matches(r: ListRowSpec, needle: Seq<char>) -> bool {
    ||| needle.len() == 0
    ||| is_substring(needle, lowercase(r.title))
    ||| is_substring(needle, lowercase(r.category))
    ||| is_substring(needle, lowercase(r.meta_category))
    ||| is_substring(needle, lowercase(r.type_of_text))
}

pub fn matches_search(row: &ListRow, needle: &str) -> (r: bool)
    ensures
        r == row_matches(row@, needle@),
{
    if needle.is_empty() {
        return true;
    }
    contains(to_lowercase(row.title.as_str()).as_str(), needle) || contains(
        to_lowercase(row.category.as_str()).as_str(),
        needle,
    ) || contains(to_lowercase(row.meta_category.as_str()).as_str(), needle) || contains(
        to_lowercase(row.type_of_text.as_str()).as_str(),
        needle,
    )
}

/// The stored rows all have at least an id and a title column.
pub open spec fn wide_enough(rows: Seq<Row>) -> bool {
    forall|i: int| 0 <= i < rows.len() ==> (#[trigger] rows[i]).cols@.len() >= 2
}

/// The error of the first row that cannot be listed, if any.
pub open spec fn first_parse_error(rows: Seq<Seq<ColSpec>>) -> Option<Seq<char>>
    decreases rows.len(),
{
    if rows.len() == 0 {
        None
    } else {
        match first_parse_error(rows.drop_last()) {
            Some(e) => Some(e),
            None => if parses(rows.last()) {
                None
            } else {
                Some(parse_error(rows.last()))
            },
        }
    }
}

/// The lines of the rows that match the search, in row order.
pub open spec fn listed(
    rows: Seq<Seq<ColSpec>>,
    kind: RowKind,
    names: Map<i64, String>,
    needle: Seq<char>,
) -> Seq<ListRowSpec>
    decreases rows.len(),
{
    if rows.len() == 0 {
        Seq::empty()
    } else {
        let rest = listed(rows.drop_last(), kind, names, needle);
        let line = list_row_of(rows.last(), kind, names);
        if row_matches(line, needle) {
            rest.push(line)
        } else {
            rest
        }
    }
}

proof fn lemma_first_error_kept(rows: Seq<Seq<ColSpec>>, j: int)
    requires
        0 <= j <= rows.len(),
        first_parse_error(rows.take(j)) is Some,
    ensures
        first_parse_error(rows) == first_parse_error(rows.take(j)),
    decreases rows.len(),
{
    if j == rows.len() {
        assert(rows.take(j) =~= rows);
    } else {
        assert(rows.drop_last().take(j) =~= rows.take(j));
        lemma_first_error_kept(rows.drop_last(), j);
    }
}

fn list_rows_into(
    out: &mut Vec<ListRow>,
    rows: &Vec<Row>,
    kind: RowKind,
    names: &HashMap<i64, String>,
    needle: &str,
) -> (res: Result<(), String>)
    requires
        wide_enough(rows@),
    ensures
        first_parse_error(rows_view(rows@)) matches Some(e) ==> (res matches Err(m) && m@ == e),
        first_parse_error(rows_view(rows@)) is None ==> res is Ok && list_view(final(out)@)
            == list_view(old(out)@) + listed(rows_view(rows@), kind, names@, needle@),
{
    let ghost all = rows_view(rows@);
    let ghost start = list_view(out@);
    let mut k: usize = 0;
    while k < rows.len()
        invariant
            k <= rows@.len(),
            all == rows_view(rows@),
            wide_enough(rows@),
            first_parse_error(all.take(k as int)) is None,
            list_view(out@) =~= start + listed(all.take(k as int), kind, names@, needle@),
        decreases rows@.len() - k,
    {
        assert(all.take(k + 1).drop_last() =~= all.take(k as int));
        assert(all.take(k + 1).last() == rows@[k as int]@);
        assert(rows@[k as int].cols@.len() >= 2);
        let ghost before = list_view(out@);
        match parse_row(&rows[k], kind, names) {
            Ok(line) => {
                if matches_search(&line, needle) {
                    out.push(line);
                    assert(list_view(out@) =~= before.push(line@));
                }
            },
            Err(e) => {
                proof {
                    lemma_first_error_kept(all, k + 1);
                }
                return Err(e);
            },
        }
        k += 1;
    }
    assert(all.take(rows@.len() as int) =~= all);
    Ok(())
}

/// The search as it is compared: trimmed, then lower-cased.
pub open spec fn needle_of(search: Seq<char>) -> Seq<char> {
    lowercase(trimmed(search))
}

/// The list of texts then templates that match the search, with their
/// categories named; the first row that cannot be read makes it an error.
pub fn load_rows(
    text_rows: &Vec<Row>,
    template_rows: &Vec<Row>,
    triples: &Vec<(i64, String, String)>,
    search: &str,
) -> (res: Result<Vec<ListRow>, String>)
    requires
        wide_enough(text_rows@),
        wide_enough(template_rows@),
    ensures
        first_parse_error(rows_view(text_rows@)) matches Some(e) ==> (res matches Err(m) && m@
            == e),
        first_parse_error(rows_view(text_rows@)) is None ==> (first_parse_error(
            rows_view(template_rows@),
        ) matches Some(e) ==> (res matches Err(m) && m@ == e)),
        first_parse_error(rows_view(text_rows@)) is None && first_parse_error(
            rows_view(template_rows@),
        ) is None ==> (res matches Ok(v) && list_view(v@) == listed(
            rows_view(text_rows@),
            RowKind::Text,
            names_by_id(triples@),
            needle_of(search@),
        ) + listed(
            rows_view(template_rows@),
            RowKind::Template,
            names_by_id(triples@),
            needle_of(search@),
        )),
{
    let names = name_by_id_map(triples);
    let needle = to_lowercase(trim(search));
    let mut out: Vec<ListRow> = Vec::new();
    assert(list_view(out@) =~= Seq::empty());
    match list_rows_into(&mut out, text_rows, RowKind::Text, &names, needle.as_str()) {
        Ok(()) => {},
        Err(e) => {
            return Err(e);
        },
    }
    match list_rows_into(&mut out, template_rows, RowKind::Template, &names, needle.as_str()) {
        Ok(()) => {},
        Err(e) => {
            return Err(e);
        },
    }
    Ok(out)
}

/// Each category a line of the list shows is the name of the id stored in
/// the row's own column: a text's in its fourth and fifth columns, a
/// template's in its sixth and seventh; a column without a known id shows
/// nothing. Only texts show a type.
pub proof fn law_list_names_each_stored_category(row: Seq<ColSpec>, names: Map<i64, String>, id: i64)
    requires
        row.len() >= 7,
    ensures
        row[3] == ColSpec::Integer(id as int) && names.contains_key(id) ==> list_row_of(
            row,
            RowKind::Text,
            names,
        ).category == names[id]@,
        row[4] == ColSpec::Integer(id as int) && names.contains_key(id) ==> list_row_of(
            row,
            RowKind::Text,
            names,
        ).meta_category == names[id]@,
        row[5] == ColSpec::Integer(id as int) && names.contains_key(id) ==> list_row_of(
            row,
            RowKind::Template,
            names,
        ).category == names[id]@,
        row[6] == ColSpec::Integer(id as int) && names.contains_key(id) ==> list_row_of(
            row,
            RowKind::Template,
            names,
        ).meta_category == names[id]@,
        !(row[5] is Integer) ==> list_row_of(row, RowKind::Template, names).category.len() == 0,
        !(row[6] is Integer) ==> list_row_of(row, RowKind::Template, names).meta_category.len()
            == 0,
        !(row[3] is Integer) ==> list_row_of(row, RowKind::Text, names).category.len() == 0,
        !(row[4] is Integer) ==> list_row_of(row, RowKind::Text, names).meta_category.len() == 0,
        list_row_of(row, RowKind::Template, names).type_of_text.len() == 0,
{
}

/// The list and the export name the same categories for a stored template
/// or text.
pub proof fn law_list_and_export_agree_on_categories(row: Seq<ColSpec>, names: Map<i64, String>)
    ensures
        list_row_of(row, RowKind::Template, names).category == name_or_empty(
            exported_template(row, names).category,
        ),
        list_row_of(row, RowKind::Template, names).meta_category == name_or_empty(
            exported_template(row, names).meta_category,
        ),
        list_row_of(row, RowKind::Text, names).category == name_or_empty(
            exported_text(row, names).category,
        ),
        list_row_of(row, RowKind::Text, names).meta_category == name_or_empty(
            exported_text(row, names).meta_category,
        ),
{
}

/// Every readable row whose line matches the search is listed, and every
/// listed line is the line of a row that matches: a template is found by the
/// name of the meta category stored in its seventh column as by any other of
/// its fields.
pub proof fn law_search_finds_by_each_field(
    rows: Seq<Seq<ColSpec>>,
    kind: RowKind,
    names: Map<i64, String>,
    needle: Seq<char>,
)
    ensures
        forall|j: int|
            #![trigger rows[j]]
            0 <= j < rows.len() && row_matches(list_row_of(rows[j], kind, names), needle)
                ==> listed(rows, kind, names, needle).contains(list_row_of(rows[j], kind, names)),
        forall|i: int|
            #![trigger listed(rows, kind, names, needle)[i]]
            0 <= i < listed(rows, kind, names, needle).len() ==> exists|j: int|
                #![trigger rows[j]]
                0 <= j < rows.len() && listed(rows, kind, names, needle)[i] == list_row_of(
                    rows[j],
                    kind,
                    names,
                ) && row_matches(listed(rows, kind, names, needle)[i], needle),
        forall|j: int, id: i64|
            #![trigger rows[j], names[id]]
            0 <= j < rows.len() && kind == RowKind::Template && rows[j].len() >= 7 && rows[j][6]
                == ColSpec::Integer(id as int) && names.contains_key(id) && is_substring(
                needle,
                lowercase(names[id]@),
            ) ==> listed(rows, kind, names, needle).contains(list_row_of(rows[j], kind, names)),
    decreases rows.len(),
{
    if rows.len() > 0 {
        let front = rows.drop_last();
        law_search_finds_by_each_field(front, kind, names, needle);
        let rest = listed(front, kind, names, needle);
        let all = listed(rows, kind, names, needle);
        let last = list_row_of(rows.last(), kind, names);
        assert forall|j: int|
            #![trigger rows[j]]
            0 <= j < rows.len() && row_matches(list_row_of(rows[j], kind, names), needle)
                implies all.contains(list_row_of(rows[j], kind, names)) by {
            if j < front.len() {
                assert(rows[j] == front[j]);
                let i = choose|i: int| 0 <= i < rest.len() && rest[i] == list_row_of(front[j], kind, names);
                assert(all[i] == rest[i]);
            } else {
                assert(rows[j] == rows.last());
                assert(all[rest.len() as int] == last);
            }
        }
        assert forall|i: int|
            #![trigger all[i]]
            0 <= i < all.len() implies exists|j: int|
                #![trigger rows[j]]
                0 <= j < rows.len() && all[i] == list_row_of(rows[j], kind, names) && row_matches(
                    all[i],
                    needle,
                ) by {
            if i < rest.len() {
                assert(all[i] == rest[i]);
                let j = choose|j: int|
                    #![trigger front[j]]
                    0 <= j < front.len() && rest[i] == list_row_of(front[j], kind, names)
                        && row_matches(rest[i], needle);
                assert(rows[j] == front[j]);
            } else {
                let j = rows.len() - 1;
                assert(rows[j] == rows.last());
            }
        }
        assert forall|j: int, id: i64|
            #![trigger rows[j], names[id]]
            0 <= j < rows.len() && kind == RowKind::Template && rows[j].len() >= 7 && rows[j][6]
                == ColSpec::Integer(id as int) && names.contains_key(id) && is_substring(
                needle,
                lowercase(names[id]@),
            ) implies all.contains(list_row_of(rows[j], kind, names)) by {
            assert(list_row_of(rows[j], kind, names).meta_category == names[id]@);
            assert(row_matches(list_row_of(rows[j], kind, names), needle));
        }
    }
}


} // verus!
