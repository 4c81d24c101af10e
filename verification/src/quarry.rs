//! Quarry: the latest result of a stored database query.
use vstd::prelude::*;
use vstd::string::*;
use crate::error::ToolsError;
use crate::json::{decoded_rows, items_view, lemma_decoded_rows_step, JsonValue, JsonView};
use crate::text::{decimal, strings_view, u64_to_string};

verus! {

/// What a [`Quarry`] stands for.
pub struct QuarryView {
    pub id: u64,
    pub columns: Seq<Seq<char>>,
    pub rows: Seq<Seq<JsonView>>,
}

/// A stored query, known by its number, with the table of its latest result.
#[derive(Debug, Default, PartialEq)]
pub struct Quarry {
    id: u64,
    columns: Vec<String>,
    rows: Vec<Vec<JsonValue>>,
}

/// The views of a list of rows, in order.
pub open spec fn rows_view(rows: Seq<Vec<JsonValue>>) -> Seq<Seq<JsonView>> {
    rows.map_values(|row: Vec<JsonValue>| items_view(row@))
}

impl View for Quarry {
    type V = QuarryView;

    closed spec fn view(&self) -> QuarryView {
        QuarryView {
            id: self.id,
            columns: strings_view(self.columns@),
            rows: rows_view(self.rows@),
        }
    }
}

/// The address of the latest result of the query with the number `id`.
pub open spec fn result_address(id: u64) -> Seq<char> {
    "https://quarry.wmcloud.org/query/"@ + decimal(id as nat) + "/result/latest/0/json"@
}

/// The title that a header entry gives: its text, or nothing where it is no string.
pub open spec fn column_title(entry: JsonView) -> Seq<char> {
    match entry.as_str() {
        Some(s) => s,
        None => Seq::empty(),
    }
}

/// The first index at which `title` stands in `columns`.
pub open spec fn first_index_of(columns: Seq<Seq<char>>, title: Seq<char>) -> Option<int>
    decreases columns.len(),
{
    if columns.len() == 0 {
        None
    } else {
        match first_index_of(columns.drop_last(), title) {
            Some(i) => Some(i),
            None => if columns.last() == title {
                Some(columns.len() - 1)
            } else {
                None
            },
        }
    }
}

/// What the answer of the tool makes of a query, and the failure that it
/// reports. The columns are taken before the rows are looked at.
pub open spec fn quarry_after(quarry: QuarryView, j: JsonView) -> (QuarryView, Option<Seq<char>>) {
    match j.get("headers"@) {
        None => (quarry, Some("No headers in Quarry JSON"@)),
        Some(headers) => match headers.as_array() {
            None => (quarry, Some("['headers'] is not an array in Quarry JSON"@)),
            Some(titles) => {
                let titled = QuarryView {
                    columns: titles.map_values(|e: JsonView| column_title(e)),
                    ..quarry
                };
                match j.get("rows"@) {
                    None => (titled, Some("No rows in Quarry JSON"@)),
                    Some(rows) => match rows.as_array() {
                        None => (titled, Some("Rows is not an array in Quarry JSON"@)),
                        Some(entries) => (
                            QuarryView {
                                rows: decoded_rows(entries, |e: JsonView| e.as_array()),
                                ..titled
                            },
                            None,
                        ),
                    },
                }
            },
        },
    }
}

impl Quarry {
    /// The query with the number `id`, not fetched yet.
    pub fn new(id: u64) -> (r: Self)
        ensures
            r@ == (QuarryView { id, columns: Seq::empty(), rows: Seq::empty() }),
    {
        let r = Quarry { id, columns: Vec::new(), rows: Vec::new() };
        assert(strings_view(r.columns@) =~= Seq::empty());
        assert(rows_view(r.rows@) =~= Seq::empty());
        r
    }

    /// The titles of the columns.
    pub fn columns(&self) -> (r: &[String])
        ensures
            strings_view(r@) == self@.columns,
    {
        self.columns.as_slice()
    }

    /// The number of the first column with the given title.
    pub fn colnum(&self, title: &str) -> (r: Option<usize>)
        ensures
            match r {
                Some(i) => first_index_of(self@.columns, title@) == Some(i as int),
                None => first_index_of(self@.columns, title@) is None,
            },
    {
        let ghost columns = strings_view(self.columns@);
        let wanted = title.to_owned();
        let mut i: usize = 0;
        assert(columns.take(0) =~= Seq::<Seq<char>>::empty());
        while i < self.columns.len()
            invariant
                i <= self.columns.len(),
                wanted@ == title@,
                columns == strings_view(self.columns@),
                first_index_of(columns.take(i as int), title@) is None,
            decreases self.columns.len() - i,
        {
            assert(columns.take(i + 1).drop_last() =~= columns.take(i as int));
            assert(columns.take(i + 1).last() == self.columns@[i as int]@);
            if self.columns[i] == wanted {
                proof {
                    lemma_first_index_prefix(columns, title@, i + 1);
                }
                return Some(i);
            }
            i = i + 1;
        }
        assert(columns.take(i as int) =~= columns);
        None
    }

    /// The rows of the table.
    pub fn rows(&self) -> (r: &[Vec<JsonValue>])
        ensures
            rows_view(r@) == self@.rows,
    {
        self.rows.as_slice()
    }

    /// The number of the query.
    pub fn id(&self) -> (r: u64)
        ensures
            r == self@.id,
    {
        self.id
    }

    /// The address to fetch the latest result from.
    pub fn get_url(&self) -> (r: String)
        ensures
            r@ == result_address(self@.id),
    {
        let mut url = "https://quarry.wmcloud.org/query/".to_owned();
        url.append(u64_to_string(self.id).as_str());
        url.append("/result/latest/0/json");
        url
    }

    /// Reads the answer of the tool: the entries of `headers` give the column
    /// titles (an entry that is no string gives an empty title), the entries
    /// of `rows` that are arrays give the rows.
    pub fn from_json(&mut self, json: &JsonValue) -> (r: Result<(), ToolsError>)
        ensures
            final(self)@ == quarry_after(old(self)@, json@).0,
            match r {
                Ok(_) => quarry_after(old(self)@, json@).1 is None,
                Err(e) => e matches ToolsError::Json(m) && quarry_after(old(self)@, json@).1
                    == Some(m@),
            },
    {
        let headers = match json.get("headers") {
            Some(headers) => headers,
            None => { return Err(ToolsError::Json("No headers in Quarry JSON".to_owned())); },
        };
        let titles = match headers.as_array() {
            Some(titles) => titles,
            None => {
                return Err(
                    ToolsError::Json("['headers'] is not an array in Quarry JSON".to_owned()),
                );
            },
        };
        let mut columns: Vec<String> = Vec::new();
        let mut i: usize = 0;
        while i < titles.len()
            invariant
                i <= titles.len(),
                columns@.len() == i,
                forall|k: int| 0 <= k < i ==> (#[trigger] columns@[k])@ == column_title(titles@[k]@),
            decreases titles.len() - i,
        {
            let title = match titles[i].as_str() {
                Some(s) => s.to_owned(),
                None => String::new(),
            };
            columns.push(title);
            i = i + 1;
        }
        assert(strings_view(columns@) =~= items_view(titles@).map_values(
            |e: JsonView| column_title(e),
        ));
        self.columns = columns;
        let rows = match json.get("rows") {
            Some(rows) => rows,
            None => { return Err(ToolsError::Json("No rows in Quarry JSON".to_owned())); },
        };
        let entries = match rows.as_array() {
            Some(entries) => entries,
            None => {
                return Err(ToolsError::Json("Rows is not an array in Quarry JSON".to_owned()));
            },
        };
        let ghost all = items_view(entries@);
        let ghost decode = |e: JsonView| e.as_array();
        let mut table: Vec<Vec<JsonValue>> = Vec::new();
        let mut k: usize = 0;
        assert(all.take(0) =~= Seq::<JsonView>::empty());
        while k < entries.len()
            invariant
                k <= entries.len(),
                all == items_view(entries@),
                decode == |e: JsonView| e.as_array(),
                rows_view(table@) == decoded_rows(all.take(k as int), decode),
            decreases entries.len() - k,
        {
            proof {
                lemma_decoded_rows_step(all, decode, k as int);
            }
            let ghost so_far = rows_view(table@);
            match entries[k].as_array() {
                Some(cells) => {
                    let mut row: Vec<JsonValue> = Vec::new();
                    let mut c: usize = 0;
                    while c < cells.len()
                        invariant
                            c <= cells.len(),
                            row@.len() == c,
                            forall|n: int| 0 <= n < c ==> (#[trigger] row@[n])@ == cells@[n]@,
                        decreases cells.len() - c,
                    {
                        row.push(cells[c].copy());
                        c = c + 1;
                    }
                    assert(items_view(row@) =~= items_view(cells@));
                    table.push(row);
                    assert(rows_view(table@) =~= so_far.push(items_view(cells@)));
                },
                None => {},
            }
            k = k + 1;
        }
        assert(all.take(k as int) =~= all);
        self.rows = table;
        Ok(())
    }
}

/// An index found in a prefix of the columns is the index found in all of them.
pub proof fn lemma_first_index_prefix(columns: Seq<Seq<char>>, title: Seq<char>, n: int)
    requires
        0 <= n <= columns.len(),
        first_index_of(columns.take(n), title) is Some,
    ensures
        first_index_of(columns, title) == first_index_of(columns.take(n), title),
    decreases columns.len() - n,
{
    if n < columns.len() {
        assert(columns.take(n + 1).drop_last() =~= columns.take(n));
        lemma_first_index_prefix(columns, title, n + 1);
    } else {
        assert(columns.take(n) =~= columns);
    }
}

} // verus!
