//! Pastes: the rendered code block, comments, the paste page itself, and
//! the markers of locked and burn-after-reading pastes.
use vstd::prelude::*;
use crate::access::{attr_of, has_match, safe_select, text_or_empty, trimmed_text};
use crate::dom::{
    all, attr_at, first, any_match, match_count, place_of, step, text_at, Document, Element, Place,
};
use crate::error::StructuralError;
use crate::registry::{
    Selectors, BURN, CATEGORY, CODE, COMMENT_COUNT, COMMENT_ITEM, CSRF, DATE_SPAN, DISLIKE,
    EDIT_SPAN, EXPIRE, FIRST_CHILD, FORMAT_LINK, LIKE, LINK, NOTICE, OG_URL, PASSWORD_FIELD,
    POST_VIEW, RATING, REPLY_LINK, REPORT_LINK, SIZE_LINE, SOURCE, TAG, TITLE, UNLISTED, VISITS,
};
use crate::scalar::{date_or_epoch, parse_size, parse_u32, safe_parse_date, size_or_zero};
use crate::text::{
    chars_eq, chars_of, lemma_empty_literal, parse_u32_spec, replace_all, replace_chars,
    replace_str, split_once, split_once_chars, string_of, trim, trim_chars,
};
use crate::user::{count_at, opt_text, simple_user_at, text_in, SimpleUser, SimpleUserModel};

verus! {

/// The prefix of a paste's canonical URL.
pub const PASTE_URL_PREFIX: &'static str = "https://pastebin.com/";

/// The text that opens the notice of a paste that is a comment.
pub const COMMENT_MARKER: &'static str = "This is comment for paste";

/// A rendered code block: a paste's or a comment's.
pub struct PasteContainer {
    pub category: Option<String>,
    pub size: u64,
    pub likes: Option<u32>,
    pub dislikes: Option<u32>,
    pub id: Option<String>,
    pub format: String,
    pub format_name: String,
    pub content: String,
}

/// What a `PasteContainer` holds, as values.
pub ghost struct PasteContainerModel {
    pub category: Option<Seq<char>>,
    pub size: u64,
    pub likes: Option<u32>,
    pub dislikes: Option<u32>,
    pub id: Option<Seq<char>>,
    pub format: Seq<char>,
    pub format_name: Seq<char>,
    pub content: Seq<char>,
}

impl View for PasteContainer {
    type V = PasteContainerModel;

    open spec fn view(&self) -> PasteContainerModel {
        PasteContainerModel {
            category: self.category.deep_view(),
            size: self.size,
            likes: self.likes,
            dislikes: self.dislikes,
            id: self.id.deep_view(),
            format: self.format@,
            format_name: self.format_name@,
            content: self.content@,
        }
    }
}

/// The part of a label after its first space.
pub open spec fn after_space(t: Seq<char>) -> Option<Seq<char>> {
    match split_once(t, seq![' ']) {
        Some((_, rest)) => Some(rest),
        None => None,
    }
}

/// The size in a line such as `text 1.5 KB\n...`: what stands between the
/// first space of the trimmed line and the next line break.
pub open spec fn size_text(t: Seq<char>) -> Option<Seq<char>> {
    match after_space(trim(t)) {
        Some(rest) => match split_once(rest, seq!['\n']) {
            Some((size, _)) => Some(size),
            None => None,
        },
        None => None,
    }
}

/// The number in an optional element, if its trimmed text is one.
pub open spec fn number_at(e: Option<Place>) -> Option<u32> {
    match e {
        Some(q) => parse_u32_spec(trim(text_at(q))),
        None => None,
    }
}

/// The code block at `p`.
pub open spec fn container_at(p: Place) -> PasteContainerModel {
    PasteContainerModel {
        category: match first(p, CATEGORY@) {
            Some(q) => after_space(trim(text_at(q))),
            None => None,
        },
        size: match first(p, SIZE_LINE@) {
            Some(q) => match size_text(text_at(q)) {
                Some(s) => size_or_zero(s),
                None => 0,
            },
            None => 0,
        },
        likes: number_at(first(p, LIKE@)),
        dislikes: number_at(first(p, DISLIKE@)),
        id: match attr_at(first(p, REPORT_LINK@), "href"@) {
            Some(h) => Some(replace_all(h, "/report/"@, Seq::empty())),
            None => None,
        },
        format: match attr_at(first(p, FORMAT_LINK@), "href"@) {
            Some(h) => replace_all(h, "/archive/"@, Seq::empty()),
            None => "text"@,
        },
        format_name: match first(p, FORMAT_LINK@) {
            Some(q) => trim(text_at(q)),
            None => "Plain Text"@,
        },
        content: match first(p, SOURCE@) {
            Some(q) => text_at(q),
            None => Seq::empty(),
        },
    }
}

/// The code block that stands for a missing one: plain text, no content.
pub open spec fn default_container() -> PasteContainerModel {
    PasteContainerModel {
        category: None,
        size: 0,
        likes: None,
        dislikes: None,
        id: None,
        format: "text"@,
        format_name: "Plain Text"@,
        content: Seq::empty(),
    }
}

/// The code block below `p`, or the default one.
pub open spec fn container_in(p: Place) -> PasteContainerModel {
    match first(p, CODE@) {
        Some(q) => container_at(q),
        None => default_container(),
    }
}

/// The creation date below `p`; the epoch where it is missing or unreadable.
pub open spec fn date_at(p: Place) -> i64 {
    match attr_at(first(p, DATE_SPAN@), "title"@) {
        Some(t) => date_or_epoch(t),
        None => 0,
    }
}

/// The edit date below `p`, from a title such as `Last edit on: ...`.
pub open spec fn edit_date_at(p: Place) -> Option<i64> {
    match attr_at(first(p, EDIT_SPAN@), "title"@) {
        Some(t) => match split_once(t, seq![':']) {
            Some((_, d)) => Some(date_or_epoch(trim(d))),
            None => None,
        },
        None => None,
    }
}

/// The category in a label such as `1 Cooking`: what follows the first
/// space of the trimmed label.
pub fn category_of(label: &str) -> (r: Option<String>)
    ensures
        r.deep_view() == after_space(trim(label@)),
{
    let t = trim_chars(&chars_of(label));
    let space = vec![' '];
    assert(space@ =~= seq![' ']);
    match split_once_chars(&t, &space) {
        Some((_, rest)) => Some(string_of(rest.as_slice())),
        None => None,
    }
}

/// The size in a line such as `text 1.5 KB\n...`.
pub fn size_text_of(line: &str) -> (r: Option<String>)
    ensures
        r.deep_view() == size_text(line@),
{
    let t = trim_chars(&chars_of(line));
    let space = vec![' '];
    let newline = vec!['\n'];
    assert(space@ =~= seq![' ']);
    assert(newline@ =~= seq!['\n']);
    match split_once_chars(&t, &space) {
        Some((_, rest)) => match split_once_chars(&rest, &newline) {
            Some((size, _)) => Some(string_of(size.as_slice())),
            None => None,
        },
        None => None,
    }
}

/// The paste id in a link such as `/AbCd1234#comment`: the slashes removed,
/// then what stands before the first `#`.
pub open spec fn parent_id(href: Seq<char>) -> Option<Seq<char>> {
    match split_once(replace_all(href, seq!['/'], Seq::empty()), seq!['#']) {
        Some((id, _)) => Some(id),
        None => None,
    }
}

/// Reads the paste id in a link such as `/AbCd1234#comment`.
pub fn parent_id_of(href: &str) -> (r: Option<String>)
    ensures
        r.deep_view() == parent_id(href@),
{
    let slash = vec!['/'];
    let hash = vec!['#'];
    let none: Vec<char> = Vec::new();
    assert(slash@ =~= seq!['/']);
    assert(hash@ =~= seq!['#']);
    assert(none@ =~= Seq::<char>::empty());
    let bare = replace_chars(&chars_of(href), &slash, &none);
    match split_once_chars(&bare, &hash) {
        Some((id, _)) => Some(string_of(id.as_slice())),
        None => None,
    }
}

/// The number in an optional element, if its trimmed text is one.
fn number_in(e: Option<Element>) -> (r: Option<u32>)
    ensures
        r == number_at(place_of(e)),
{
    match e {
        Some(q) => parse_u32(&trimmed_text(&q)),
        None => None,
    }
}

/// The byte size in an optional size line; zero where there is none.
fn size_in(e: Option<Element>) -> (r: u64)
    ensures
        r == (match place_of(e) {
            Some(q) => match size_text(text_at(q)) {
                Some(s) => size_or_zero(s),
                None => 0,
            },
            None => 0,
        }),
{
    match e {
        Some(q) => match size_text_of(q.text().as_str()) {
            Some(size) => parse_size(size.as_str()),
            None => 0,
        },
        None => 0,
    }
}

impl PasteContainer {
    /// The code block that stands for a missing one.
    pub fn plain() -> (r: PasteContainer)
        ensures
            r@ == default_container(),
    {
        proof {
            lemma_empty_literal();
        }
        PasteContainer {
            category: None,
            size: 0,
            likes: None,
            dislikes: None,
            id: None,
            format: String::from_str("text"),
            format_name: String::from_str("Plain Text"),
            content: String::new(),
        }
    }

    /// Reads the code block at `parent`.
    pub fn from_element(parent: &Element, sels: &Selectors) -> (r: PasteContainer)
        ensures
            r@ == container_at(parent@),
    {
        proof {
            use_type_invariant(sels);
            lemma_empty_literal();
        }
        let category = match safe_select(parent, &sels.category) {
            Some(q) => category_of(q.text().as_str()),
            None => None,
        };
        let size = size_in(safe_select(parent, &sels.size_line));
        let likes = number_in(safe_select(parent, &sels.like));
        let dislikes = number_in(safe_select(parent, &sels.dislike));
        let id = match attr_of(safe_select(parent, &sels.report_link), "href") {
            Some(h) => Some(replace_str(h.as_str(), "/report/", "")),
            None => None,
        };
        let format_el = safe_select(parent, &sels.format_link);
        let format = match attr_of(format_el, "href") {
            Some(h) => replace_str(h.as_str(), "/archive/", ""),
            None => String::from_str("text"),
        };
        let format_name = match format_el {
            Some(q) => string_of(trimmed_text(&q).as_slice()),
            None => String::from_str("Plain Text"),
        };
        let content = match safe_select(parent, &sels.source) {
            Some(q) => q.text(),
            None => String::new(),
        };
        PasteContainer { category, size, likes, dislikes, id, format, format_name, content }
    }

    /// Reads the code block below `parent`, or gives the default one.
    pub fn within(parent: &Element, sels: &Selectors) -> (r: PasteContainer)
        ensures
            r@ == container_in(parent@),
    {
        proof {
            use_type_invariant(sels);
        }
        match safe_select(parent, &sels.code) {
            Some(q) => PasteContainer::from_element(&q, sels),
            None => PasteContainer::plain(),
        }
    }
}

/// Reads the creation date below `parent`.
pub fn date_below(parent: &Element, sels: &Selectors) -> (r: i64)
    ensures
        r == date_at(parent@),
{
    proof {
        use_type_invariant(sels);
    }
    match attr_of(safe_select(parent, &sels.date_span), "title") {
        Some(t) => safe_parse_date(t.as_str()),
        None => 0,
    }
}

/// Reads the edit date below `parent`.
pub fn edit_date_below(parent: &Element, sels: &Selectors) -> (r: Option<i64>)
    ensures
        r == edit_date_at(parent@),
{
    proof {
        use_type_invariant(sels);
    }
    match attr_of(safe_select(parent, &sels.edit_span), "title") {
        Some(t) => {
            let colon = vec![':'];
            assert(colon@ =~= seq![':']);
            match split_once_chars(&chars_of(t.as_str()), &colon) {
                Some((_, d)) => {
                    let day = string_of(trim_chars(&d).as_slice());
                    Some(safe_parse_date(day.as_str()))
                },
                None => None,
            }
        },
        None => None,
    }
}

/// A comment on a paste.
pub struct Comment {
    pub author: SimpleUser,
    pub date: i64,
    pub edit_date: Option<i64>,
    pub container: PasteContainer,
    pub num_comments: u32,
}

/// What a `Comment` holds, as values.
pub ghost struct CommentModel {
    pub author: SimpleUserModel,
    pub date: i64,
    pub edit_date: Option<i64>,
    pub container: PasteContainerModel,
    pub num_comments: u32,
}

impl View for Comment {
    type V = CommentModel;

    open spec fn view(&self) -> CommentModel {
        CommentModel {
            author: self.author@,
            date: self.date,
            edit_date: self.edit_date,
            container: self.container@,
            num_comments: self.num_comments,
        }
    }
}

/// The comment at `p`: its author, dates and code block all come from
/// below `p`.
pub open spec fn comment_at(p: Place) -> CommentModel {
    CommentModel {
        author: simple_user_at(p),
        date: date_at(p),
        edit_date: edit_date_at(p),
        container: container_in(p),
        num_comments: match number_at(first(p, REPLY_LINK@)) {
            Some(n) => n,
            None => 0,
        },
    }
}

impl Comment {
    /// Reads the comment at `parent`.
    pub fn from_element(parent: &Element, sels: &Selectors) -> (r: Comment)
        ensures
            r@ == comment_at(parent@),
    {
        proof {
            use_type_invariant(sels);
        }
        let author = SimpleUser::from_element(parent, sels);
        let date = date_below(parent, sels);
        let edit_date = edit_date_below(parent, sels);
        let container = PasteContainer::within(parent, sels);
        let num_comments = match number_in(safe_select(parent, &sels.reply_link)) {
            Some(n) => n,
            None => 0,
        };
        Comment { author, date, edit_date, container, num_comments }
    }
}

/// A paste page.
pub struct Paste {
    pub id: String,
    pub title: Option<String>,
    pub tags: Vec<String>,
    pub container: PasteContainer,
    pub author: SimpleUser,
    pub date: i64,
    pub edit_date: Option<i64>,
    pub views: u32,
    /// The rating as the page writes it, trimmed; it is a decimal number.
    pub rating: String,
    pub expire: String,
    pub comment_for: Option<String>,
    pub unlisted: bool,
    pub num_comments: Option<u32>,
    pub comments: Vec<Comment>,
    pub locked: bool,
}

/// What a `Paste` holds, as values.
pub ghost struct PasteModel {
    pub id: Seq<char>,
    pub title: Option<Seq<char>>,
    pub tags: Seq<Seq<char>>,
    pub container: PasteContainerModel,
    pub author: SimpleUserModel,
    pub date: i64,
    pub edit_date: Option<i64>,
    pub views: u32,
    pub rating: Seq<char>,
    pub expire: Seq<char>,
    pub comment_for: Option<Seq<char>>,
    pub unlisted: bool,
    pub num_comments: Option<u32>,
    pub comments: Seq<CommentModel>,
    pub locked: bool,
}

impl View for Paste {
    type V = PasteModel;

    open spec fn view(&self) -> PasteModel {
        PasteModel {
            id: self.id@,
            title: self.title.deep_view(),
            tags: self.tags.deep_view(),
            container: self.container@,
            author: self.author@,
            date: self.date,
            edit_date: self.edit_date,
            views: self.views,
            rating: self.rating@,
            expire: self.expire@,
            comment_for: self.comment_for.deep_view(),
            unlisted: self.unlisted,
            num_comments: self.num_comments,
            comments: self.comments@.map_values(|c: Comment| c@),
            locked: self.locked,
        }
    }
}

/// The parent paste that the notice at `q` names, if `q` is the notice of
/// a comment: its first child reads exactly the marker, and its first
/// link points at `/<id>#...`.
pub open spec fn notice_target(q: Place) -> Option<Seq<char>> {
    match first(q, FIRST_CHILD@) {
        Some(c) => if trim(text_at(c)) == COMMENT_MARKER@ {
            match attr_at(first(q, LINK@), "href"@) {
                Some(h) => parent_id(h),
                None => None,
            }
        } else {
            None
        },
        None => None,
    }
}

/// The first parent paste that one of the notices names.
pub open spec fn first_target(notices: Seq<Place>) -> Option<Seq<char>>
    decreases notices.len(),
{
    if notices.len() == 0 {
        None
    } else {
        match notice_target(notices[0]) {
            Some(id) => Some(id),
            None => first_target(notices.drop_first()),
        }
    }
}

/// The canonical id of the page at `root`.
pub open spec fn page_id(root: Place) -> Seq<char> {
    match attr_at(first(root, OG_URL@), "content"@) {
        Some(c) => replace_all(c, PASTE_URL_PREFIX@, Seq::empty()),
        None => "unknown"@,
    }
}

/// The comment counter below `p`: absent without its markup, zero where it
/// holds no number.
pub open spec fn comment_count_at(p: Place) -> Option<u32> {
    match first(p, COMMENT_COUNT@) {
        Some(q) => Some(
            match parse_u32_spec(trim(text_at(q))) {
                Some(n) => n,
                None => 0,
            },
        ),
        None => None,
    }
}

/// The paste read from the page container `p` of a page whose id is `id`.
pub open spec fn paste_at(id: Seq<char>, p: Place) -> PasteModel {
    PasteModel {
        id,
        title: opt_text(first(p, TITLE@)),
        tags: all(p, TAG@).map_values(|q: Place| text_at(q)),
        container: container_in(p),
        author: simple_user_at(p),
        date: date_at(p),
        edit_date: edit_date_at(p),
        views: count_at(first(p, VISITS@)),
        rating: text_or_empty(first(p, RATING@)),
        expire: match first(p, EXPIRE@) {
            Some(q) => trim(text_at(q)),
            None => "Unknown"@,
        },
        comment_for: first_target(all(p, NOTICE@)),
        unlisted: any_match(p, UNLISTED@),
        num_comments: comment_count_at(p),
        comments: all(p, COMMENT_ITEM@).map_values(|q: Place| comment_at(q)),
        locked: comment_count_at(p) is None,
    }
}

/// The paste read from the document parsed from `src`; `None` where the
/// page has no paste container.
pub open spec fn paste_of(src: Seq<char>) -> Option<PasteModel> {
    let root = Place { src, at: Seq::empty() };
    match first(root, POST_VIEW@) {
        Some(p) => Some(paste_at(page_id(root), p)),
        None => None,
    }
}

/// Every field of a code block whose markup is missing holds its default:
/// no category, size zero, no like or dislike counts, no report id, the
/// plain-text format, and empty content.
pub proof fn lemma_container_defaults(p: Place)
    ensures
        !any_match(p, CATEGORY@) ==> container_at(p).category is None,
        !any_match(p, SIZE_LINE@) ==> container_at(p).size == 0,
        !any_match(p, LIKE@) ==> container_at(p).likes is None,
        !any_match(p, DISLIKE@) ==> container_at(p).dislikes is None,
        !any_match(p, REPORT_LINK@) ==> container_at(p).id is None,
        !any_match(p, FORMAT_LINK@) ==> container_at(p).format == "text"@ && container_at(p).format_name
            == "Plain Text"@,
        !any_match(p, SOURCE@) ==> container_at(p).content == Seq::<char>::empty(),
{
}

/// Every field of a comment whose markup is missing holds its default: the
/// default code block, the epoch as date, no edit date, and no replies.
pub proof fn lemma_comment_defaults(p: Place)
    ensures
        !any_match(p, CODE@) ==> comment_at(p).container == default_container(),
        !any_match(p, DATE_SPAN@) ==> comment_at(p).date == 0,
        !any_match(p, EDIT_SPAN@) ==> comment_at(p).edit_date is None,
        !any_match(p, REPLY_LINK@) ==> comment_at(p).num_comments == 0,
{
}

/// A paste container with `m` comment items yields exactly `m` comments,
/// in order, and the `i`-th of them (its author, dates and code block) is
/// read from the `i`-th item alone.
pub proof fn lemma_comments_follow_items(id: Seq<char>, p: Place, m: nat)
    requires
        match_count(p.src, p.at, COMMENT_ITEM@) == m,
    ensures
        paste_at(id, p).comments.len() == m,
        forall|i: int|
            0 <= i < m ==> #[trigger] paste_at(id, p).comments[i] == comment_at(
                step(p, COMMENT_ITEM@, i),
            ),
        forall|i: int|
            0 <= i < m ==> #[trigger] paste_at(id, p).comments[i].container == container_in(
                step(p, COMMENT_ITEM@, i),
            ),
{
}

/// Reading a document depends on its text alone: two readings of the same
/// document give equal records.
pub proof fn lemma_paste_reading_repeats(src: Seq<char>, again: Seq<char>)
    requires
        src == again,
    ensures
        paste_of(src) == paste_of(again),
{
}

/// Reads the parent paste that a notice names, if it is the notice of a
/// comment.
fn notice_target_of(notice: &Element, sels: &Selectors) -> (r: Option<String>)
    ensures
        r.deep_view() == notice_target(notice@),
{
    proof {
        use_type_invariant(sels);
        lemma_empty_literal();
    }
    let child = match safe_select(notice, &sels.first_child) {
        Some(c) => c,
        None => return None,
    };
    if !chars_eq(&trimmed_text(&child), &chars_of(COMMENT_MARKER)) {
        return None;
    }
    match attr_of(safe_select(notice, &sels.link), "href") {
        Some(h) => parent_id_of(h.as_str()),
        None => None,
    }
}

impl Paste {
    /// Reads a paste page. Fails where the page has no paste container.
    pub fn from_html(dom: &Document, sels: &Selectors) -> (r: Result<Paste, StructuralError>)
        ensures
            match r {
                Ok(p) => paste_of(dom@) == Some(p@),
                Err(e) => paste_of(dom@) is None && e.anchor@ == POST_VIEW@,
            },
    {
        proof {
            use_type_invariant(sels);
            lemma_empty_literal();
        }
        let root = dom.root();
        let id = match attr_of(safe_select(&root, &sels.og_url), "content") {
            Some(c) => replace_str(c.as_str(), PASTE_URL_PREFIX, ""),
            None => String::from_str("unknown"),
        };
        let parent = match safe_select(&root, &sels.post_view) {
            Some(p) => p,
            None => return Err(StructuralError { anchor: String::from_str(POST_VIEW) }),
        };
        let title = text_in(safe_select(&parent, &sels.title));
        let tag_els = parent.select_all(&sels.tag);
        let mut tags: Vec<String> = Vec::new();
        let mut i: usize = 0;
        while i < tag_els.len()
            invariant
                i <= tag_els@.len(),
                tag_els@.len() == match_count(parent@.src, parent@.at, TAG@),
                forall|k: int| 0 <= k < tag_els@.len() ==> #[trigger] tag_els@[k]@ == step(parent@, TAG@, k),
                tags.deep_view() == Seq::new(i as nat, |k: int| text_at(step(parent@, TAG@, k))),
            decreases tag_els@.len() - i,
        {
            let t = tag_els[i].text();
            let ghost before = tags.deep_view();
            tags.push(t);
            assert(tags.deep_view() =~= before.push(t@));
            assert(before.push(t@) =~= Seq::new((i + 1) as nat, |k: int| text_at(step(parent@, TAG@, k))));
            i = i + 1;
        }
        assert(tags.deep_view() =~= all(parent@, TAG@).map_values(|q: Place| text_at(q)));
        let container = PasteContainer::within(&parent, sels);
        let author = SimpleUser::from_element(&parent, sels);
        let date = date_below(&parent, sels);
        let edit_date = edit_date_below(&parent, sels);
        let views = match safe_select(&parent, &sels.visits) {
            Some(q) => crate::scalar::safe_parse_number(q.text().as_str()),
            None => 0,
        };
        let rating = crate::access::safe_text_content(safe_select(&parent, &sels.rating));
        let expire = match safe_select(&parent, &sels.expire) {
            Some(q) => string_of(trimmed_text(&q).as_slice()),
            None => String::from_str("Unknown"),
        };
        let notices = parent.select_all(&sels.notice);
        let mut comment_for: Option<String> = None;
        let mut j: usize = 0;
        assert(all(parent@, NOTICE@).subrange(0, notices@.len() as int) =~= all(parent@, NOTICE@));
        while j < notices.len() && comment_for.is_none()
            invariant
                sels.wf(),
                j <= notices@.len(),
                notices@.len() == match_count(parent@.src, parent@.at, NOTICE@),
                forall|k: int| 0 <= k < notices@.len() ==> #[trigger] notices@[k]@ == step(parent@, NOTICE@, k),
                comment_for is None ==> first_target(all(parent@, NOTICE@)) == first_target(
                    all(parent@, NOTICE@).subrange(j as int, notices@.len() as int),
                ),
                comment_for is Some ==> comment_for.deep_view() == first_target(all(parent@, NOTICE@)),
            decreases notices@.len() - j,
        {
            let ghost rest = all(parent@, NOTICE@).subrange(j as int, notices@.len() as int);
            assert(rest[0] == notices@[j as int]@);
            assert(rest.drop_first() =~= all(parent@, NOTICE@).subrange(j + 1, notices@.len() as int));
            comment_for = notice_target_of(&notices[j], sels);
            j = j + 1;
        }
        assert(all(parent@, NOTICE@).subrange(notices@.len() as int, notices@.len() as int) =~= Seq::<Place>::empty());
        let unlisted = has_match(&parent, &sels.unlisted);
        let num_comments = match safe_select(&parent, &sels.comment_count) {
            Some(q) => Some(
                match parse_u32(&trimmed_text(&q)) {
                    Some(n) => n,
                    None => 0,
                },
            ),
            None => None,
        };
        let items = parent.select_all(&sels.comment_item);
        let mut comments: Vec<Comment> = Vec::new();
        let mut m: usize = 0;
        while m < items.len()
            invariant
                sels.wf(),
                m <= items@.len(),
                items@.len() == match_count(parent@.src, parent@.at, COMMENT_ITEM@),
                forall|k: int| 0 <= k < items@.len() ==> #[trigger] items@[k]@ == step(parent@, COMMENT_ITEM@, k),
                comments@.map_values(|c: Comment| c@) == Seq::new(m as nat, |k: int| comment_at(step(parent@, COMMENT_ITEM@, k))),
            decreases items@.len() - m,
        {
            let c = Comment::from_element(&items[m], sels);
            let ghost before = comments@.map_values(|c: Comment| c@);
            comments.push(c);
            assert(comments@.map_values(|c: Comment| c@) =~= before.push(c@));
            assert(before.push(c@) =~= Seq::new((m + 1) as nat, |k: int| comment_at(step(parent@, COMMENT_ITEM@, k))));
            m = m + 1;
        }
        assert(comments@.map_values(|c: Comment| c@) =~= all(parent@, COMMENT_ITEM@).map_values(|q: Place| comment_at(q)));
        let locked = num_comments.is_none();
        Ok(
            Paste {
                id,
                title,
                tags,
                container,
                author,
                date,
                edit_date,
                views,
                rating,
                expire,
                comment_for,
                unlisted,
                num_comments,
                comments,
                locked,
            },
        )
    }
}

/// Whether the page asks for a paste's password.
pub fn is_locked(dom: &Document, sels: &Selectors) -> (r: bool)
    ensures
        r == any_match(Place { src: dom@, at: Seq::empty() }, PASSWORD_FIELD@),
{
    proof {
        use_type_invariant(sels);
    }
    has_match(&dom.root(), &sels.password_field)
}

/// Whether the page marks a paste as burn-after-reading.
pub fn is_burn(dom: &Document, sels: &Selectors) -> (r: bool)
    ensures
        r == any_match(Place { src: dom@, at: Seq::empty() }, BURN@),
{
    proof {
        use_type_invariant(sels);
    }
    has_match(&dom.root(), &sels.burn)
}

/// The page's CSRF token, if it carries one.
pub fn get_csrftoken(dom: &Document, sels: &Selectors) -> (r: Option<String>)
    ensures
        r.deep_view() == attr_at(first(Place { src: dom@, at: Seq::empty() }, CSRF@), "content"@),
{
    proof {
        use_type_invariant(sels);
    }
    attr_of(safe_select(&dom.root(), &sels.csrf), "content")
}

} // verus!
