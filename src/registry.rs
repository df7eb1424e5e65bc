//! The fixed set of compiled selectors that the extractors use, built once
//! and passed by reference.
use vstd::prelude::*;
use crate::dom::{Sel, selector_parses};

verus! {

/// A user's name.
pub const USERNAME: &'static str = ".username";

/// The link that a registered user's name carries.
pub const USERNAME_LINK: &'static str = ".username>a";

/// The pro-account marker.
pub const PRO: &'static str = ".pro";

/// A user's icon image.
pub const USER_ICON: &'static str = ".user-icon>img";

/// A paste's category label.
pub const CATEGORY: &'static str = "span[title=Category]";

/// The line that carries a paste's size.
pub const SIZE_LINE: &'static str = ".left";

/// The like counter.
pub const LIKE: &'static str = ".-like";

/// The dislike counter.
pub const DISLIKE: &'static str = ".-dislike";

/// The report link, whose path ends in the paste's id.
pub const REPORT_LINK: &'static str = "a[href^='/report/']";

/// The syntax-format link.
pub const FORMAT_LINK: &'static str = "a.h_800[href^='/archive/']";

/// The code listing.
pub const SOURCE: &'static str = ".source>ol";

/// The span whose title holds the creation date.
pub const DATE_SPAN: &'static str = ".date>span";

/// The span whose title holds the edit date.
pub const EDIT_SPAN: &'static str = ".date>span:nth-child(2)";

/// The rendered code block.
pub const CODE: &'static str = ".highlighted-code";

/// A comment's reply counter.
pub const REPLY_LINK: &'static str = "a[href='#comments']";

/// The canonical-URL meta tag.
pub const OG_URL: &'static str = "meta[property='og:url']";

/// The container of a paste page.
pub const POST_VIEW: &'static str = ".post-view";

/// A paste's title.
pub const TITLE: &'static str = ".info-top>h1";

/// A paste's tags.
pub const TAG: &'static str = ".tags>a";

/// A paste's view counter.
pub const VISITS: &'static str = ".visits";

/// A rating.
pub const RATING: &'static str = ".rating";

/// A paste's expiry.
pub const EXPIRE: &'static str = ".expire";

/// A notice block.
pub const NOTICE: &'static str = ".notice";

/// Any element that is its parent's first child.
pub const FIRST_CHILD: &'static str = "*:first-child";

/// Any link.
pub const LINK: &'static str = "a";

/// The unlisted marker.
pub const UNLISTED: &'static str = ".unlisted";

/// A paste's comment counter.
pub const COMMENT_COUNT: &'static str = "div[title=Comments]>a";

/// One comment of a paste.
pub const COMMENT_ITEM: &'static str = ".comments__list>ul>li";

/// The container of a profile page.
pub const USER_VIEW: &'static str = ".user-view";

/// A user's website link.
pub const WEBSITE: &'static str = ".web";

/// A user's location.
pub const LOCATION: &'static str = ".location";

/// A profile's view counter.
pub const PROFILE_VIEWS: &'static str = ".views:not(.-all)";

/// The view counter over all of a user's pastes.
pub const PASTE_VIEWS: &'static str = ".views.-all";

/// The element whose title holds the date a user joined.
pub const DATE_JOINED: &'static str = ".date-text";

/// A row of a listing table.
pub const TABLE_ROW: &'static str = ".maintable>tbody>tr";

/// The link in a row's first cell.
pub const CELL1_LINK: &'static str = "td:nth-child(1)>a";

/// A row's second cell.
pub const CELL2: &'static str = "td:nth-child(2)";

/// A row's third cell.
pub const CELL3: &'static str = "td:nth-child(3)";

/// The link in a row's third cell.
pub const CELL3_LINK: &'static str = "td:nth-child(3)>a";

/// A row's fourth cell.
pub const CELL4: &'static str = "td:nth-child(4)";

/// A row's fifth cell.
pub const CELL5: &'static str = "td:nth-child(5)";

/// The link in a row's sixth cell.
pub const CELL6_LINK: &'static str = "td:nth-child(6)>a";

/// The container of an archive listing.
pub const ARCHIVE_TABLE: &'static str = ".archive-table";

/// The password field of a locked paste.
pub const PASSWORD_FIELD: &'static str = "#postpasswordverificationform-password";

/// The burn-after-reading marker.
pub const BURN: &'static str = ".burn, .-burn";

/// The CSRF-token meta tag.
pub const CSRF: &'static str = "meta[name=csrf-token]";


/// One compiled selector for each of the constants above.
pub struct Selectors {
    pub(crate) username: Sel,
    pub(crate) username_link: Sel,
    pub(crate) pro: Sel,
    pub(crate) user_icon: Sel,
    pub(crate) category: Sel,
    pub(crate) size_line: Sel,
    pub(crate) like: Sel,
    pub(crate) dislike: Sel,
    pub(crate) report_link: Sel,
    pub(crate) format_link: Sel,
    pub(crate) source: Sel,
    pub(crate) date_span: Sel,
    pub(crate) edit_span: Sel,
    pub(crate) code: Sel,
    pub(crate) reply_link: Sel,
    pub(crate) og_url: Sel,
    pub(crate) post_view: Sel,
    pub(crate) title: Sel,
    pub(crate) tag: Sel,
    pub(crate) visits: Sel,
    pub(crate) rating: Sel,
    pub(crate) expire: Sel,
    pub(crate) notice: Sel,
    pub(crate) first_child: Sel,
    pub(crate) link: Sel,
    pub(crate) unlisted: Sel,
    pub(crate) comment_count: Sel,
    pub(crate) comment_item: Sel,
    pub(crate) user_view: Sel,
    pub(crate) website: Sel,
    pub(crate) location: Sel,
    pub(crate) profile_views: Sel,
    pub(crate) paste_views: Sel,
    pub(crate) date_joined: Sel,
    pub(crate) table_row: Sel,
    pub(crate) cell1_link: Sel,
    pub(crate) cell2: Sel,
    pub(crate) cell3: Sel,
    pub(crate) cell3_link: Sel,
    pub(crate) cell4: Sel,
    pub(crate) cell5: Sel,
    pub(crate) cell6_link: Sel,
    pub(crate) archive_table: Sel,
    pub(crate) password_field: Sel,
    pub(crate) burn: Sel,
    pub(crate) csrf: Sel,
}

/// Whether every selector text of the registry compiles.
pub open spec fn all_selectors_parse() -> bool {
    selector_parses(USERNAME@)
        && selector_parses(USERNAME_LINK@)
        && selector_parses(PRO@)
        && selector_parses(USER_ICON@)
        && selector_parses(CATEGORY@)
        && selector_parses(SIZE_LINE@)
        && selector_parses(LIKE@)
        && selector_parses(DISLIKE@)
        && selector_parses(REPORT_LINK@)
        && selector_parses(FORMAT_LINK@)
        && selector_parses(SOURCE@)
        && selector_parses(DATE_SPAN@)
        && selector_parses(EDIT_SPAN@)
        && selector_parses(CODE@)
        && selector_parses(REPLY_LINK@)
        && selector_parses(OG_URL@)
        && selector_parses(POST_VIEW@)
        && selector_parses(TITLE@)
        && selector_parses(TAG@)
        && selector_parses(VISITS@)
        && selector_parses(RATING@)
        && selector_parses(EXPIRE@)
        && selector_parses(NOTICE@)
        && selector_parses(FIRST_CHILD@)
        && selector_parses(LINK@)
        && selector_parses(UNLISTED@)
        && selector_parses(COMMENT_COUNT@)
        && selector_parses(COMMENT_ITEM@)
        && selector_parses(USER_VIEW@)
        && selector_parses(WEBSITE@)
        && selector_parses(LOCATION@)
        && selector_parses(PROFILE_VIEWS@)
        && selector_parses(PASTE_VIEWS@)
        && selector_parses(DATE_JOINED@)
        && selector_parses(TABLE_ROW@)
        && selector_parses(CELL1_LINK@)
        && selector_parses(CELL2@)
        && selector_parses(CELL3@)
        && selector_parses(CELL3_LINK@)
        && selector_parses(CELL4@)
        && selector_parses(CELL5@)
        && selector_parses(CELL6_LINK@)
        && selector_parses(ARCHIVE_TABLE@)
        && selector_parses(PASSWORD_FIELD@)
        && selector_parses(BURN@)
        && selector_parses(CSRF@)
}

impl Selectors {
    /// Each field holds the selector compiled from its constant.
    #[verifier::type_invariant]
    pub(crate) open spec fn wf(&self) -> bool {
        self.username@ == USERNAME@
            && self.username_link@ == USERNAME_LINK@
            && self.pro@ == PRO@
            && self.user_icon@ == USER_ICON@
            && self.category@ == CATEGORY@
            && self.size_line@ == SIZE_LINE@
            && self.like@ == LIKE@
            && self.dislike@ == DISLIKE@
            && self.report_link@ == REPORT_LINK@
            && self.format_link@ == FORMAT_LINK@
            && self.source@ == SOURCE@
            && self.date_span@ == DATE_SPAN@
            && self.edit_span@ == EDIT_SPAN@
            && self.code@ == CODE@
            && self.reply_link@ == REPLY_LINK@
            && self.og_url@ == OG_URL@
            && self.post_view@ == POST_VIEW@
            && self.title@ == TITLE@
            && self.tag@ == TAG@
            && self.visits@ == VISITS@
            && self.rating@ == RATING@
            && self.expire@ == EXPIRE@
            && self.notice@ == NOTICE@
            && self.first_child@ == FIRST_CHILD@
            && self.link@ == LINK@
            && self.unlisted@ == UNLISTED@
            && self.comment_count@ == COMMENT_COUNT@
            && self.comment_item@ == COMMENT_ITEM@
            && self.user_view@ == USER_VIEW@
            && self.website@ == WEBSITE@
            && self.location@ == LOCATION@
            && self.profile_views@ == PROFILE_VIEWS@
            && self.paste_views@ == PASTE_VIEWS@
            && self.date_joined@ == DATE_JOINED@
            && self.table_row@ == TABLE_ROW@
            && self.cell1_link@ == CELL1_LINK@
            && self.cell2@ == CELL2@
            && self.cell3@ == CELL3@
            && self.cell3_link@ == CELL3_LINK@
            && self.cell4@ == CELL4@
            && self.cell5@ == CELL5@
            && self.cell6_link@ == CELL6_LINK@
            && self.archive_table@ == ARCHIVE_TABLE@
            && self.password_field@ == PASSWORD_FIELD@
            && self.burn@ == BURN@
            && self.csrf@ == CSRF@
    }

    /// Compiles every selector; `None` where one of them does not compile.
    pub fn new() -> (r: Option<Selectors>)
        ensures
            r is Some <==> all_selectors_parse(),
    {
        let username = match Sel::new(USERNAME) {
            Some(s) => s,
            None => return None,
        };
        let username_link = match Sel::new(USERNAME_LINK) {
            Some(s) => s,
            None => return None,
        };
        let pro = match Sel::new(PRO) {
            Some(s) => s,
            None => return None,
        };
        let user_icon = match Sel::new(USER_ICON) {
            Some(s) => s,
            None => return None,
        };
        let category = match Sel::new(CATEGORY) {
            Some(s) => s,
            None => return None,
        };
        let size_line = match Sel::new(SIZE_LINE) {
            Some(s) => s,
            None => return None,
        };
        let like = match Sel::new(LIKE) {
            Some(s) => s,
            None => return None,
        };
        let dislike = match Sel::new(DISLIKE) {
            Some(s) => s,
            None => return None,
        };
        let report_link = match Sel::new(REPORT_LINK) {
            Some(s) => s,
            None => return None,
        };
        let format_link = match Sel::new(FORMAT_LINK) {
            Some(s) => s,
            None => return None,
        };
        let source = match Sel::new(SOURCE) {
            Some(s) => s,
            None => return None,
        };
        let date_span = match Sel::new(DATE_SPAN) {
            Some(s) => s,
            None => return None,
        };
        let edit_span = match Sel::new(EDIT_SPAN) {
            Some(s) => s,
            None => return None,
        };
        let code = match Sel::new(CODE) {
            Some(s) => s,
            None => return None,
        };
        let reply_link = match Sel::new(REPLY_LINK) {
            Some(s) => s,
            None => return None,
        };
        let og_url = match Sel::new(OG_URL) {
            Some(s) => s,
            None => return None,
        };
        let post_view = match Sel::new(POST_VIEW) {
            Some(s) => s,
            None => return None,
        };
        let title = match Sel::new(TITLE) {
            Some(s) => s,
            None => return None,
        };
        let tag = match Sel::new(TAG) {
            Some(s) => s,
            None => return None,
        };
        let visits = match Sel::new(VISITS) {
            Some(s) => s,
            None => return None,
        };
        let rating = match Sel::new(RATING) {
            Some(s) => s,
            None => return None,
        };
        let expire = match Sel::new(EXPIRE) {
            Some(s) => s,
            None => return None,
        };
        let notice = match Sel::new(NOTICE) {
            Some(s) => s,
            None => return None,
        };
        let first_child = match Sel::new(FIRST_CHILD) {
            Some(s) => s,
            None => return None,
        };
        let link = match Sel::new(LINK) {
            Some(s) => s,
            None => return None,
        };
        let unlisted = match Sel::new(UNLISTED) {
            Some(s) => s,
            None => return None,
        };
        let comment_count = match Sel::new(COMMENT_COUNT) {
            Some(s) => s,
            None => return None,
        };
        let comment_item = match Sel::new(COMMENT_ITEM) {
            Some(s) => s,
            None => return None,
        };
        let user_view = match Sel::new(USER_VIEW) {
            Some(s) => s,
            None => return None,
        };
        let website = match Sel::new(WEBSITE) {
            Some(s) => s,
            None => return None,
        };
        let location = match Sel::new(LOCATION) {
            Some(s) => s,
            None => return None,
        };
        let profile_views = match Sel::new(PROFILE_VIEWS) {
            Some(s) => s,
            None => return None,
        };
        let paste_views = match Sel::new(PASTE_VIEWS) {
            Some(s) => s,
            None => return None,
        };
        let date_joined = match Sel::new(DATE_JOINED) {
            Some(s) => s,
            None => return None,
        };
        let table_row = match Sel::new(TABLE_ROW) {
            Some(s) => s,
            None => return None,
        };
        let cell1_link = match Sel::new(CELL1_LINK) {
            Some(s) => s,
            None => return None,
        };
        let cell2 = match Sel::new(CELL2) {
            Some(s) => s,
            None => return None,
        };
        let cell3 = match Sel::new(CELL3) {
            Some(s) => s,
            None => return None,
        };
        let cell3_link = match Sel::new(CELL3_LINK) {
            Some(s) => s,
            None => return None,
        };
        let cell4 = match Sel::new(CELL4) {
            Some(s) => s,
            None => return None,
        };
        let cell5 = match Sel::new(CELL5) {
            Some(s) => s,
            None => return None,
        };
        let cell6_link = match Sel::new(CELL6_LINK) {
            Some(s) => s,
            None => return None,
        };
        let archive_table = match Sel::new(ARCHIVE_TABLE) {
            Some(s) => s,
            None => return None,
        };
        let password_field = match Sel::new(PASSWORD_FIELD) {
            Some(s) => s,
            None => return None,
        };
        let burn = match Sel::new(BURN) {
            Some(s) => s,
            None => return None,
        };
        let csrf = match Sel::new(CSRF) {
            Some(s) => s,
            None => return None,
        };
        Some(Selectors {
            username,
            username_link,
            pro,
            user_icon,
            category,
            size_line,
            like,
            dislike,
            report_link,
            format_link,
            source,
            date_span,
            edit_span,
            code,
            reply_link,
            og_url,
            post_view,
            title,
            tag,
            visits,
            rating,
            expire,
            notice,
            first_child,
            link,
            unlisted,
            comment_count,
            comment_item,
            user_view,
            website,
            location,
            profile_views,
            paste_views,
            date_joined,
            table_row,
            cell1_link,
            cell2,
            cell3,
            cell3_link,
            cell4,
            cell5,
            cell6_link,
            archive_table,
            password_field,
            burn,
            csrf,
        })
    }
}

} // verus!
