//! The archive listing: the latest public pastes, optionally of one format.
use vstd::prelude::*;
use crate::access::{attr_of, safe_select, trimmed_text};
use crate::dom::{all_but_first, attr_at, first, match_count, step, text_at, Document, Element, Place};
use crate::registry::{Selectors, ARCHIVE_TABLE, CELL1_LINK, CELL2, CELL3_LINK, OG_URL, TABLE_ROW};
use crate::text::{
    chars_of, lemma_empty_literal, nonempty, replace_all, replace_chars, replace_str, string_of,
    trim,
};

verus! {

/// The prefix of an archive page's canonical URL.
pub const ARCHIVE_URL_PREFIX: &'static str = "https://pastebin.com/archive";

/// One row of the archive listing.
pub struct Archive {
    pub id: String,
    pub title: String,
    pub age: String,
    pub format: String,
}

/// What an `Archive` holds, as values.
pub ghost struct ArchiveModel {
    pub id: Seq<char>,
    pub title: Seq<char>,
    pub age: Seq<char>,
    pub format: Seq<char>,
}

impl View for Archive {
    type V = ArchiveModel;

    open spec fn view(&self) -> ArchiveModel {
        ArchiveModel { id: self.id@, title: self.title@, age: self.age@, format: self.format@ }
    }
}

/// The trimmed text of an optional element, or `default`.
pub open spec fn trimmed_or(e: Option<Place>, default: Seq<char>) -> Seq<char> {
    match e {
        Some(q) => trim(text_at(q)),
        None => default,
    }
}

/// The archive entry in table row `q`.
pub open spec fn archive_at(q: Place) -> ArchiveModel {
    ArchiveModel {
        id: match attr_at(first(q, CELL1_LINK@), "href"@) {
            Some(h) => replace_all(h, "/"@, Seq::empty()),
            None => "unknown"@,
        },
        title: trimmed_or(first(q, CELL1_LINK@), "Untitled"@),
        age: trimmed_or(first(q, CELL2@), "Unknown"@),
        format: match attr_at(first(q, CELL3_LINK@), "href"@) {
            Some(h) => replace_all(h, "/archive/"@, Seq::empty()),
            None => "text"@,
        },
    }
}

/// The trimmed text of an optional element, or `default`.
fn trimmed_or_exec(e: Option<Element>, default: &str) -> (r: String)
    ensures
        r@ == trimmed_or(crate::dom::place_of(e), default@),
{
    match e {
        Some(q) => string_of(trimmed_text(&q).as_slice()),
        None => String::from_str(default),
    }
}

impl Archive {
    /// Reads one row of the archive table.
    pub fn from_element(parent: &Element, sels: &Selectors) -> (r: Archive)
        ensures
            r@ == archive_at(parent@),
    {
        proof {
            use_type_invariant(sels);
            lemma_empty_literal();
        }
        let link = safe_select(parent, &sels.cell1_link);
        let id = match attr_of(link, "href") {
            Some(h) => replace_str(h.as_str(), "/", ""),
            None => String::from_str("unknown"),
        };
        let title = trimmed_or_exec(link, "Untitled");
        let age = trimmed_or_exec(safe_select(parent, &sels.cell2), "Unknown");
        let format = match attr_of(safe_select(parent, &sels.cell3_link), "href") {
            Some(h) => replace_str(h.as_str(), "/archive/", ""),
            None => String::from_str("text"),
        };
        Archive { id, title, age, format }
    }
}

/// An archive page: the format it is filtered by, and its entries.
pub struct ArchivePage {
    pub format: Option<String>,
    pub archives: Vec<Archive>,
}

/// What an `ArchivePage` holds, as values.
pub ghost struct ArchivePageModel {
    pub format: Option<Seq<char>>,
    pub archives: Seq<ArchiveModel>,
}

impl View for ArchivePage {
    type V = ArchivePageModel;

    open spec fn view(&self) -> ArchivePageModel {
        ArchivePageModel {
            format: self.format.deep_view(),
            archives: self.archives@.map_values(|a: Archive| a@),
        }
    }
}

/// The format filter named by a canonical URL: what is left after the
/// archive prefix and every slash are removed, if anything is.
pub open spec fn format_filter(url: Seq<char>) -> Option<Seq<char>> {
    nonempty(replace_all(replace_all(url, ARCHIVE_URL_PREFIX@, Seq::empty()), seq!['/'], Seq::empty()))
}

/// The entries of the archive table at `t`: one per row after the header.
pub open spec fn entries_at(t: Place) -> Seq<ArchiveModel> {
    all_but_first(t, TABLE_ROW@).map_values(|q: Place| archive_at(q))
}

/// An archive table with `n + 1` rows yields exactly `n` entries: the
/// header row is left out, and entry `i` is read from row `i + 1`.
pub proof fn lemma_header_row_excluded(t: Place, n: nat)
    requires
        match_count(t.src, t.at, TABLE_ROW@) == n + 1,
    ensures
        entries_at(t).len() == n,
        forall|i: int|
            0 <= i < n ==> #[trigger] entries_at(t)[i] == archive_at(step(t, TABLE_ROW@, i + 1)),
{
}

/// The archive page read from the document parsed from `src`. Without the
/// archive table it has no entries.
pub open spec fn archive_page_of(src: Seq<char>) -> ArchivePageModel {
    let root = Place { src, at: Seq::empty() };
    ArchivePageModel {
        format: match attr_at(first(root, OG_URL@), "content"@) {
            Some(c) => format_filter(c),
            None => None,
        },
        archives: match first(root, ARCHIVE_TABLE@) {
            Some(t) => entries_at(t),
            None => Seq::empty(),
        },
    }
}

/// The text itself, or `None` when it is empty.
pub fn none_if_empty(string: String) -> (r: Option<String>)
    ensures
        r.deep_view() == nonempty(string@),
{
    if string.as_str().unicode_len() == 0 {
        None
    } else {
        Some(string)
    }
}

/// Reads the format filter named by an archive page's canonical URL.
pub fn format_filter_of(url: &str) -> (r: Option<String>)
    ensures
        r.deep_view() == format_filter(url@),
{
    let slash = vec!['/'];
    let none: Vec<char> = Vec::new();
    assert(slash@ =~= seq!['/']);
    assert(none@ =~= Seq::<char>::empty());
    proof {
        lemma_empty_literal();
    }
    let rest = replace_str(url, ARCHIVE_URL_PREFIX, "");
    let bare = replace_chars(&chars_of(rest.as_str()), &slash, &none);
    none_if_empty(string_of(bare.as_slice()))
}

impl ArchivePage {
    /// Reads an archive page.
    pub fn from_html(dom: &Document, sels: &Selectors) -> (r: ArchivePage)
        ensures
            r@ == archive_page_of(dom@),
    {
        proof {
            use_type_invariant(sels);
            lemma_empty_literal();
        }
        let root = dom.root();
        let format = match attr_of(safe_select(&root, &sels.og_url), "content") {
            Some(c) => format_filter_of(c.as_str()),
            None => None,
        };
        let mut archives: Vec<Archive> = Vec::new();
        match safe_select(&root, &sels.archive_table) {
            Some(table) => {
                let rows = table.select_all(&sels.table_row);
                let mut i: usize = 1;
                while i < rows.len()
                    invariant
                        sels.wf(),
                        1 <= i,
                        i <= rows@.len() || i == 1,
                        rows@.len() == match_count(table@.src, table@.at, TABLE_ROW@),
                        forall|k: int| 0 <= k < rows@.len() ==> #[trigger] rows@[k]@ == step(table@, TABLE_ROW@, k),
                        archives@.map_values(|a: Archive| a@) == Seq::new(
                            (i - 1) as nat,
                            |k: int| archive_at(step(table@, TABLE_ROW@, k + 1)),
                        ),
                    decreases rows@.len() - i,
                {
                    let entry = Archive::from_element(&rows[i], sels);
                    let ghost before = archives@.map_values(|a: Archive| a@);
                    archives.push(entry);
                    assert(archives@.map_values(|a: Archive| a@) =~= before.push(entry@));
                    assert(before.push(entry@) =~= Seq::new(
                        i as nat,
                        |k: int| archive_at(step(table@, TABLE_ROW@, k + 1)),
                    ));
                    i = i + 1;
                }
                proof {
                    let lhs = Seq::new((i - 1) as nat, |k: int| archive_at(step(table@, TABLE_ROW@, k + 1)));
                    let rhs = entries_at(table@);
                    assert(lhs.len() == rhs.len());
                    assert forall|k: int| 0 <= k < lhs.len() implies lhs[k] == rhs[k] by {
                        assert(all_but_first(table@, TABLE_ROW@)[k] == step(table@, TABLE_ROW@, k + 1));
                    }
                    assert(lhs =~= rhs);
                }
            },
            None => {
                assert(archives@.map_values(|a: Archive| a@) =~= Seq::empty());
            },
        }
        ArchivePage { format, archives }
    }
}

} // verus!
