//! Users: the author block of a paste or comment, and a profile page with
//! its table of pastes.
use vstd::prelude::*;
use crate::access::{
    attr_of, attr_or_empty, has_match, safe_attr_content, safe_select, safe_text_content,
    text_or_empty,
};
use crate::dom::{
    all_but_first, attr_at, first, any_match, place_of, text_at, Document, Element, Place,
};
use crate::registry::{
    Selectors, CELL1_LINK, CELL2, CELL3, CELL4, CELL5, CELL6_LINK, DATE_JOINED, LOCATION,
    OG_URL, PASTE_VIEWS, PRO, PROFILE_VIEWS, RATING, TABLE_ROW, USERNAME, USERNAME_LINK,
    USER_ICON, USER_VIEW, WEBSITE,
};
use crate::scalar::{date_or_epoch, safe_parse_date, safe_parse_number};
use crate::text::{lemma_empty_literal, lenient_number, replace_all, replace_str};

verus! {

/// The prefix of a profile's canonical URL.
pub const USER_URL_PREFIX: &'static str = "https://pastebin.com/u/";

/// The icon shown for a profile that has none.
pub const DEFAULT_AVATAR: &'static str = "/imgs/default_avatar.png";

/// An icon path of the site rewritten under this service's `/imgs/`.
pub open spec fn icon_path(src: Seq<char>) -> Seq<char> {
    replace_all(
        replace_all(src, "/themes/pastebin/img/"@, "/imgs/"@),
        "/cache/img/"@,
        "/imgs/"@,
    )
}

/// The count in an optional element, read leniently; zero when absent.
pub open spec fn count_at(e: Option<Place>) -> u32 {
    match e {
        Some(q) => lenient_number(text_at(q)),
        None => 0,
    }
}

/// The author of a paste or comment.
pub struct SimpleUser {
    pub username: String,
    pub registered: bool,
    pub pro: bool,
    pub icon_url: String,
}

/// What a `SimpleUser` holds, as values.
pub ghost struct SimpleUserModel {
    pub username: Seq<char>,
    pub registered: bool,
    pub pro: bool,
    pub icon_url: Seq<char>,
}

impl View for SimpleUser {
    type V = SimpleUserModel;

    open spec fn view(&self) -> SimpleUserModel {
        SimpleUserModel {
            username: self.username@,
            registered: self.registered,
            pro: self.pro,
            icon_url: self.icon_url@,
        }
    }
}

/// The author found below `p`; every field that has no markup is empty or
/// false.
pub open spec fn simple_user_at(p: Place) -> SimpleUserModel {
    SimpleUserModel {
        username: text_or_empty(first(p, USERNAME@)),
        registered: any_match(p, USERNAME_LINK@),
        pro: any_match(p, PRO@),
        icon_url: match attr_at(first(p, USER_ICON@), "src"@) {
            Some(v) => icon_path(v),
            None => Seq::empty(),
        },
    }
}

/// Every field of an author block whose markup is missing holds its
/// default: no name element gives the empty name, no name link an
/// unregistered user, no pro marker a user who is not pro, and no icon
/// image the empty icon path.
pub proof fn lemma_simple_user_defaults(p: Place)
    ensures
        !any_match(p, USERNAME@) ==> simple_user_at(p).username == Seq::<char>::empty(),
        !any_match(p, USERNAME_LINK@) ==> !simple_user_at(p).registered,
        !any_match(p, PRO@) ==> !simple_user_at(p).pro,
        !any_match(p, USER_ICON@) ==> simple_user_at(p).icon_url == Seq::<char>::empty(),
{
}

/// Rewrites an icon path of the site under `/imgs/`.
pub fn rewrite_icon(src: &str) -> (r: String)
    ensures
        r@ == icon_path(src@),
{
    let once = replace_str(src, "/themes/pastebin/img/", "/imgs/");
    replace_str(once.as_str(), "/cache/img/", "/imgs/")
}

impl SimpleUser {
    /// Reads the author block below `parent`.
    pub fn from_element(parent: &Element, sels: &Selectors) -> (r: SimpleUser)
        ensures
            r@ == simple_user_at(parent@),
    {
        proof {
            use_type_invariant(sels);
        }
        let username = safe_text_content(safe_select(parent, &sels.username));
        let registered = has_match(parent, &sels.username_link);
        let pro = has_match(parent, &sels.pro);
        let icon_url = match attr_of(safe_select(parent, &sels.user_icon), "src") {
            Some(src) => rewrite_icon(src.as_str()),
            None => String::new(),
        };
        SimpleUser { username, registered, pro, icon_url }
    }
}

/// One row of a profile's paste table.
pub struct UserPaste {
    pub id: String,
    pub title: String,
    pub age: String,
    pub expires: String,
    pub views: u32,
    pub num_comments: u32,
    pub format: String,
}

/// What a `UserPaste` holds, as values.
pub ghost struct UserPasteModel {
    pub id: Seq<char>,
    pub title: Seq<char>,
    pub age: Seq<char>,
    pub expires: Seq<char>,
    pub views: u32,
    pub num_comments: u32,
    pub format: Seq<char>,
}

impl View for UserPaste {
    type V = UserPasteModel;

    open spec fn view(&self) -> UserPasteModel {
        UserPasteModel {
            id: self.id@,
            title: self.title@,
            age: self.age@,
            expires: self.expires@,
            views: self.views,
            num_comments: self.num_comments,
            format: self.format@,
        }
    }
}

/// The paste summary in table row `q`.
pub open spec fn user_paste_at(q: Place) -> UserPasteModel {
    UserPasteModel {
        id: replace_all(attr_or_empty(first(q, CELL1_LINK@), "href"@), "/"@, Seq::empty()),
        title: text_or_empty(first(q, CELL1_LINK@)),
        age: text_or_empty(first(q, CELL2@)),
        expires: text_or_empty(first(q, CELL3@)),
        views: count_at(first(q, CELL4@)),
        num_comments: count_at(first(q, CELL5@)),
        format: replace_all(attr_or_empty(first(q, CELL6_LINK@), "href"@), "/archive/"@, Seq::empty()),
    }
}

/// The count in an optional element, read leniently; zero when absent.
fn count_in(e: Option<Element>) -> (r: u32)
    ensures
        r == count_at(place_of(e)),
{
    match e {
        Some(q) => safe_parse_number(q.text().as_str()),
        None => 0,
    }
}

impl UserPaste {
    /// Reads one row of a profile's paste table.
    pub fn from_element(parent: &Element, sels: &Selectors) -> (r: UserPaste)
        ensures
            r@ == user_paste_at(parent@),
    {
        proof {
            use_type_invariant(sels);
            lemma_empty_literal();
        }
        let id_link = safe_select(parent, &sels.cell1_link);
        let href = safe_attr_content(id_link, "href");
        let id = replace_str(href.as_str(), "/", "");
        let title = safe_text_content(id_link);
        let age = safe_text_content(safe_select(parent, &sels.cell2));
        let expires = safe_text_content(safe_select(parent, &sels.cell3));
        let views = count_in(safe_select(parent, &sels.cell4));
        let num_comments = count_in(safe_select(parent, &sels.cell5));
        let format_href = safe_attr_content(safe_select(parent, &sels.cell6_link), "href");
        let format = replace_str(format_href.as_str(), "/archive/", "");
        UserPaste { id, title, age, expires, views, num_comments, format }
    }
}

/// A profile page.
pub struct User {
    pub username: String,
    pub icon_url: String,
    pub website: Option<String>,
    pub location: Option<String>,
    pub profile_views: u32,
    pub paste_views: u32,
    /// The rating as the page writes it; it is a decimal number.
    pub rating: String,
    pub date_joined: i64,
    pub pro: bool,
    pub pastes: Vec<UserPaste>,
}

/// What a `User` holds, as values.
pub ghost struct UserModel {
    pub username: Seq<char>,
    pub icon_url: Seq<char>,
    pub website: Option<Seq<char>>,
    pub location: Option<Seq<char>>,
    pub profile_views: u32,
    pub paste_views: u32,
    pub rating: Seq<char>,
    pub date_joined: i64,
    pub pro: bool,
    pub pastes: Seq<UserPasteModel>,
}

impl View for User {
    type V = UserModel;

    open spec fn view(&self) -> UserModel {
        UserModel {
            username: self.username@,
            icon_url: self.icon_url@,
            website: self.website.deep_view(),
            location: self.location.deep_view(),
            profile_views: self.profile_views,
            paste_views: self.paste_views,
            rating: self.rating@,
            date_joined: self.date_joined,
            pro: self.pro,
            pastes: self.pastes@.map_values(|p: UserPaste| p@),
        }
    }
}

/// The text of an optional element, untrimmed.
pub open spec fn opt_text(e: Option<Place>) -> Option<Seq<char>> {
    match e {
        Some(q) => Some(text_at(q)),
        None => None,
    }
}

/// The profile read from the document parsed from `src`. Without the
/// profile container it keeps the name and leaves every statistic zero or
/// absent.
pub open spec fn user_of(src: Seq<char>) -> UserModel {
    let root = Place { src, at: Seq::empty() };
    let username = match attr_at(first(root, OG_URL@), "content"@) {
        Some(c) => replace_all(c, USER_URL_PREFIX@, Seq::empty()),
        None => "unknown"@,
    };
    match first(root, USER_VIEW@) {
        None => UserModel {
            username,
            icon_url: DEFAULT_AVATAR@,
            website: None,
            location: None,
            profile_views: 0,
            paste_views: 0,
            rating: Seq::empty(),
            date_joined: 0,
            pro: false,
            pastes: Seq::empty(),
        },
        Some(u) => UserModel {
            username,
            icon_url: match attr_at(first(u, USER_ICON@), "src"@) {
                Some(v) => icon_path(v),
                None => DEFAULT_AVATAR@,
            },
            website: attr_at(first(u, WEBSITE@), "href"@),
            location: opt_text(first(u, LOCATION@)),
            profile_views: count_at(first(u, PROFILE_VIEWS@)),
            paste_views: count_at(first(u, PASTE_VIEWS@)),
            rating: match opt_text(first(u, RATING@)) {
                Some(t) => t,
                None => Seq::empty(),
            },
            date_joined: match attr_at(first(u, DATE_JOINED@), "title"@) {
                Some(t) => date_or_epoch(t),
                None => 0,
            },
            pro: any_match(u, PRO@),
            pastes: all_but_first(root, TABLE_ROW@).map_values(|q: Place| user_paste_at(q)),
        },
    }
}

/// The untrimmed text of an optional element.
pub fn text_in(e: Option<Element>) -> (r: Option<String>)
    ensures
        r.deep_view() == opt_text(place_of(e)),
{
    match e {
        Some(q) => Some(q.text()),
        None => None,
    }
}

impl User {
    /// Reads a profile page.
    pub fn from_html(dom: &Document, sels: &Selectors) -> (r: User)
        ensures
            r@ == user_of(dom@),
    {
        proof {
            use_type_invariant(sels);
            lemma_empty_literal();
        }
        let root = dom.root();
        let username = match attr_of(safe_select(&root, &sels.og_url), "content") {
            Some(c) => replace_str(c.as_str(), USER_URL_PREFIX, ""),
            None => String::from_str("unknown"),
        };
        let parent = match safe_select(&root, &sels.user_view) {
            Some(u) => u,
            None => {
                let pastes: Vec<UserPaste> = Vec::new();
                assert(pastes@.map_values(|p: UserPaste| p@) =~= Seq::empty());
                return User {
                    username,
                    icon_url: String::from_str(DEFAULT_AVATAR),
                    website: None,
                    location: None,
                    profile_views: 0,
                    paste_views: 0,
                    rating: String::new(),
                    date_joined: 0,
                    pro: false,
                    pastes,
                };
            },
        };
        let icon_url = match attr_of(safe_select(&parent, &sels.user_icon), "src") {
            Some(src) => rewrite_icon(src.as_str()),
            None => String::from_str(DEFAULT_AVATAR),
        };
        let website = attr_of(safe_select(&parent, &sels.website), "href");
        let location = text_in(safe_select(&parent, &sels.location));
        let profile_views = count_in(safe_select(&parent, &sels.profile_views));
        let paste_views = count_in(safe_select(&parent, &sels.paste_views));
        let rating = match text_in(safe_select(&parent, &sels.rating)) {
            Some(t) => t,
            None => String::new(),
        };
        let date_joined = match attr_of(safe_select(&parent, &sels.date_joined), "title") {
            Some(t) => safe_parse_date(t.as_str()),
            None => 0,
        };
        let pro = has_match(&parent, &sels.pro);
        let rows = root.select_all(&sels.table_row);
        let mut pastes: Vec<UserPaste> = Vec::new();
        let mut i: usize = 1;
        while i < rows.len()
            invariant
                sels.wf(),
                1 <= i,
                i <= rows@.len() || i == 1,
                rows@.len() == crate::dom::match_count(root@.src, root@.at, TABLE_ROW@),
                forall|k: int| 0 <= k < rows@.len() ==> #[trigger] rows@[k]@ == crate::dom::step(root@, TABLE_ROW@, k),
                pastes@.map_values(|p: UserPaste| p@) == Seq::new((i - 1) as nat, |k: int| user_paste_at(crate::dom::step(root@, TABLE_ROW@, k + 1))),
            decreases rows@.len() - i,
        {
            let row = UserPaste::from_element(&rows[i], sels);
            let ghost before = pastes@.map_values(|p: UserPaste| p@);
            pastes.push(row);
            assert(pastes@.map_values(|p: UserPaste| p@) =~= before.push(row@));
            assert(before.push(row@) =~= Seq::new(i as nat, |k: int| user_paste_at(crate::dom::step(root@, TABLE_ROW@, k + 1))));
            i = i + 1;
        }
        proof {
            let lhs = Seq::new((i - 1) as nat, |k: int| user_paste_at(crate::dom::step(root@, TABLE_ROW@, k + 1)));
            let rhs = all_but_first(root@, TABLE_ROW@).map_values(|q: Place| user_paste_at(q));
            assert(lhs.len() == rhs.len());
            assert forall|k: int| 0 <= k < lhs.len() implies lhs[k] == rhs[k] by {
                assert(all_but_first(root@, TABLE_ROW@)[k] == crate::dom::step(root@, TABLE_ROW@, k + 1));
            }
            assert(lhs =~= rhs);
        }
        User {
            username,
            icon_url,
            website,
            location,
            profile_views,
            paste_views,
            rating,
            date_joined,
            pro,
            pastes,
        }
    }
}

} // verus!
