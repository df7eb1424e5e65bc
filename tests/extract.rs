use pastescrape::archive::{none_if_empty, ArchivePage};
use pastescrape::dom::{Document, Sel};
use pastescrape::paste::{get_csrftoken, is_burn, is_locked, Comment, Paste, PasteContainer};
use pastescrape::registry::Selectors;
use pastescrape::user::{SimpleUser, User};

const PASTE_PAGE: &str = r##"
<html>
  <head><meta property="og:url" content="https://pastebin.com/AbCd1234"></head>
  <body>
    <div class="post-view">
      <div class="info-top"><h1>My title</h1></div>
      <div class="tags"><a href="/tags/rust">rust</a><a href="/tags/web">web</a></div>
      <div class="username"><a href="/u/alice">alice</a></div>
      <div class="user-icon"><img src="/cache/img/1/2/3/4.jpg"></div>
      <div class="date"><span title="Thursday 2nd of May 2024 10:05:29 AM CDT">May 2nd, 2024</span><span title="Last edit on: Thursday 2nd of May 2024 10:06:29 AM CDT">edited</span></div>
      <div class="visits"> 1,234 </div>
      <div class="rating"> 4.5 </div>
      <div class="expire"> Never </div>
      <div class="unlisted"></div>
      <div title="Comments"><a href="#comments"> 2 </a></div>
      <div class="notice"><span>This is comment for paste</span> <a href="/XyZ987#c1">parent</a></div>
      <div class="highlighted-code">
        <div class="top-buttons">
          <div class="left"> text 1.5 KB
            | 0.00 secs</div>
          <span title="Category">1 Cooking</span>
          <a class="h_800" href="/archive/rust">Rust</a>
          <div class="-like"> 7 </div>
          <div class="-dislike">x</div>
          <a href="/report/AbCd1234">report</a>
        </div>
        <div class="source"><ol><li>fn main() {}</li></ol></div>
      </div>
      <div class="comments__list"><ul>
        <li>
          <div class="username">bob</div>
          <div class="date"><span title="Friday 3rd of May 2024 10:05:29 AM CDT">x</span></div>
          <div class="highlighted-code"><div class="source"><ol><li>first comment</li></ol></div></div>
          <a href="#comments">3</a>
        </li>
        <li>
          <div class="username"><a href="/u/carol">carol</a></div>
          <div class="highlighted-code"><div class="source"><ol><li>second comment</li></ol></div></div>
        </li>
      </ul></div>
    </div>
  </body>
</html>
"##;

fn selectors() -> Selectors {
    Selectors::new().expect("every selector of the registry compiles")
}

#[test]
fn test_parse_simple_user() {
    let dom = Document::parse(
        r#"
            <div class="user">
                <div class="user-icon">
                    <img src="/themes/pastebin/img/user.png">
                </div>
                <div class="username">
                    <a href="/u/user">user</a>
                </div>
                <div class="pro"></div>
            </div>
        "#,
    );
    let sels = selectors();
    let root = dom.root();
    let user_sel = Sel::new(".user").unwrap();
    let user = SimpleUser::from_element(&root.select_first(&user_sel).unwrap(), &sels);

    assert_eq!(user.username, "user");
    assert_eq!(user.registered, true);
    assert_eq!(user.pro, true);
    assert_eq!(user.icon_url, "/imgs/user.png");
}

#[test]
fn test_get_csrftoken() {
    let dom = Document::parse(
        r#"
            <html>
                <head>
                    <meta name="csrf-token" content="token">
                </head>
            </html>
        "#,
    );

    assert_eq!(get_csrftoken(&dom, &selectors()), Some("token".to_string()));
}

#[test]
fn test_is_locked() {
    let dom = Document::parse(
        r#"
            <form id="postpasswordverificationform">
                <input id="postpasswordverificationform-password">
            </form>
        "#,
    );

    assert_eq!(is_locked(&dom, &selectors()), true);
}

#[test]
fn test_is_burn() {
    let dom = Document::parse(
        r#"
            <div class="burn"></div>
        "#,
    );

    assert_eq!(is_burn(&dom, &selectors()), true);
}

#[test]
fn empty_div_gives_default_author() {
    let dom = Document::parse("<div></div>");
    let sels = selectors();
    let div = dom.root().select_first(&Sel::new("div").unwrap()).unwrap();
    let user = SimpleUser::from_element(&div, &sels);
    assert_eq!(user.username, "");
    assert_eq!(user.registered, false);
    assert_eq!(user.pro, false);
    assert_eq!(user.icon_url, "");
}

#[test]
fn empty_div_gives_default_container_and_comment() {
    let dom = Document::parse("<div></div>");
    let sels = selectors();
    let div = dom.root().select_first(&Sel::new("div").unwrap()).unwrap();
    let c = PasteContainer::from_element(&div, &sels);
    assert_eq!(c.category, None);
    assert_eq!(c.size, 0);
    assert_eq!(c.likes, None);
    assert_eq!(c.dislikes, None);
    assert_eq!(c.id, None);
    assert_eq!(c.format, "text");
    assert_eq!(c.format_name, "Plain Text");
    assert_eq!(c.content, "");
    let comment = Comment::from_element(&div, &sels);
    assert_eq!(comment.date, 0);
    assert_eq!(comment.edit_date, None);
    assert_eq!(comment.num_comments, 0);
    assert_eq!(comment.container.format, "text");
}

#[test]
fn locked_and_burn_are_independent() {
    let sels = selectors();
    let both = Document::parse(
        r#"<form><input id="postpasswordverificationform-password"></form><div class="-burn"></div>"#,
    );
    assert!(is_locked(&both, &sels));
    assert!(is_burn(&both, &sels));
    let burn_only = Document::parse(r#"<div class="burn"></div>"#);
    assert!(!is_locked(&burn_only, &sels));
    assert!(is_burn(&burn_only, &sels));
    let neither = Document::parse("<p>hello</p>");
    assert!(!is_locked(&neither, &sels));
    assert!(!is_burn(&neither, &sels));
    assert_eq!(get_csrftoken(&neither, &sels), None);
}

#[test]
fn paste_page_is_read_field_by_field() {
    let dom = Document::parse(PASTE_PAGE);
    let sels = selectors();
    let paste = Paste::from_html(&dom, &sels).ok().unwrap();
    assert_eq!(paste.id, "AbCd1234");
    assert_eq!(paste.title, Some("My title".to_string()));
    assert_eq!(paste.tags, vec!["rust".to_string(), "web".to_string()]);
    assert_eq!(paste.author.username, "alice");
    assert!(paste.author.registered);
    assert!(!paste.author.pro);
    assert_eq!(paste.author.icon_url, "/imgs/1/2/3/4.jpg");
    assert_eq!(paste.date, 1714662329);
    assert_eq!(paste.edit_date, Some(1714662389));
    assert_eq!(paste.views, 1234);
    assert_eq!(paste.rating, "4.5");
    assert_eq!(paste.expire, "Never");
    assert_eq!(paste.comment_for, Some("XyZ987".to_string()));
    assert!(paste.unlisted);
    assert_eq!(paste.num_comments, Some(2));
    assert!(!paste.locked);
    let c = &paste.container;
    assert_eq!(c.category, Some("Cooking".to_string()));
    assert_eq!(c.size, 1500);
    assert_eq!(c.likes, Some(7));
    assert_eq!(c.dislikes, None);
    assert_eq!(c.id, Some("AbCd1234".to_string()));
    assert_eq!(c.format, "rust");
    assert_eq!(c.format_name, "Rust");
    assert_eq!(c.content, "fn main() {}");
}

#[test]
fn comments_keep_their_own_content() {
    let dom = Document::parse(PASTE_PAGE);
    let sels = selectors();
    let paste = Paste::from_html(&dom, &sels).ok().unwrap();
    assert_eq!(paste.comments.len(), 2);
    let first = &paste.comments[0];
    let second = &paste.comments[1];
    assert_eq!(first.author.username, "bob");
    assert!(!first.author.registered);
    assert_eq!(first.date, 1714748729);
    assert_eq!(first.num_comments, 3);
    assert_eq!(first.container.content, "first comment");
    assert_eq!(second.author.username, "carol");
    assert!(second.author.registered);
    assert!(!second.author.pro);
    assert_eq!(second.date, 0);
    assert_eq!(second.num_comments, 0);
    assert_eq!(second.container.content, "second comment");
}

#[test]
fn reading_a_paste_twice_gives_equal_records() {
    let dom = Document::parse(PASTE_PAGE);
    let sels = selectors();
    let a = Paste::from_html(&dom, &sels).ok().unwrap();
    let b = Paste::from_html(&dom, &sels).ok().unwrap();
    assert_eq!(a.id, b.id);
    assert_eq!(a.title, b.title);
    assert_eq!(a.tags, b.tags);
    assert_eq!(a.date, b.date);
    assert_eq!(a.edit_date, b.edit_date);
    assert_eq!(a.views, b.views);
    assert_eq!(a.comment_for, b.comment_for);
    assert_eq!(a.container.content, b.container.content);
    assert_eq!(a.comments.len(), b.comments.len());
    for (x, y) in a.comments.iter().zip(b.comments.iter()) {
        assert_eq!(x.author.username, y.author.username);
        assert_eq!(x.container.content, y.container.content);
    }
}

#[test]
fn paste_without_container_is_a_structural_error() {
    let dom = Document::parse("<html><body><p>nothing here</p></body></html>");
    match Paste::from_html(&dom, &selectors()) {
        Ok(_) => panic!("a page without .post-view is no paste"),
        Err(e) => {
            assert_eq!(e.anchor, ".post-view");
            assert_eq!(e.message(), "required element not found: .post-view");
        }
    }
}

#[test]
fn paste_without_comment_counter_is_locked() {
    let dom = Document::parse(
        r#"<meta property="og:url" content="https://pastebin.com/Q1"><div class="post-view"></div>"#,
    );
    let paste = Paste::from_html(&dom, &selectors()).ok().unwrap();
    assert_eq!(paste.id, "Q1");
    assert_eq!(paste.title, None);
    assert_eq!(paste.num_comments, None);
    assert!(paste.locked);
    assert_eq!(paste.expire, "Unknown");
    assert_eq!(paste.rating, "");
    assert_eq!(paste.comment_for, None);
    assert_eq!(paste.container.format, "text");
    assert!(paste.comments.is_empty());
}

#[test]
fn notice_without_marker_names_no_parent() {
    let dom = Document::parse(
        r#"<div class="post-view"><div class="notice"><span>Something else</span><a href="/Z#x">z</a></div></div>"#,
    );
    let paste = Paste::from_html(&dom, &selectors()).ok().unwrap();
    assert_eq!(paste.comment_for, None);
    assert_eq!(paste.id, "unknown");
}

const ARCHIVE_PAGE: &str = r#"
<html><head><meta property="og:url" content="https://pastebin.com/archive/python"></head>
<body><div class="archive-table"><table class="maintable"><tbody>
<tr><th>Name / Title</th><th>Posted</th><th>Syntax</th></tr>
<tr><td><a href="/aaa111"> First </a></td><td> 5 sec ago </td><td><a href="/archive/python">Python</a></td></tr>
<tr><td><a href="/bbb222">Second</a></td><td>1 min ago</td><td><a href="/archive/c">C</a></td></tr>
<tr><td>no link</td></tr>
</tbody></table></div></body></html>
"#;

#[test]
fn archive_rows_exclude_header() {
    let dom = Document::parse(ARCHIVE_PAGE);
    let page = ArchivePage::from_html(&dom, &selectors());
    assert_eq!(page.format, Some("python".to_string()));
    assert_eq!(page.archives.len(), 3);
    assert_eq!(page.archives[0].id, "aaa111");
    assert_eq!(page.archives[0].title, "First");
    assert_eq!(page.archives[0].age, "5 sec ago");
    assert_eq!(page.archives[0].format, "python");
    assert_eq!(page.archives[1].id, "bbb222");
    assert_eq!(page.archives[1].format, "c");
    assert_eq!(page.archives[2].id, "unknown");
    assert_eq!(page.archives[2].title, "Untitled");
    assert_eq!(page.archives[2].age, "Unknown");
    assert_eq!(page.archives[2].format, "text");
}

#[test]
fn archive_without_table_is_empty() {
    let dom = Document::parse(
        r#"<meta property="og:url" content="https://pastebin.com/archive"><p>none</p>"#,
    );
    let page = ArchivePage::from_html(&dom, &selectors());
    assert_eq!(page.format, None);
    assert!(page.archives.is_empty());
}

#[test]
fn none_if_empty_keeps_text() {
    assert_eq!(none_if_empty(String::new()), None);
    assert_eq!(none_if_empty("x".to_string()), Some("x".to_string()));
}

const USER_PAGE: &str = r#"
<html><head><meta property="og:url" content="https://pastebin.com/u/dave"></head>
<body>
<div class="user-view">
  <div class="user-icon"><img src="/themes/pastebin/img/guest.png"></div>
  <a class="web" href="https://example.org">site</a>
  <span class="location">Berlin</span>
  <span class="views">1,000</span>
  <span class="views -all">25,000</span>
  <span class="rating">4.2</span>
  <span class="date-text" title="Thursday 2nd of May 2024 10:05:29 AM CDT">May 2024</span>
  <span class="pro"></span>
</div>
<table class="maintable"><tbody>
<tr><th>Name</th></tr>
<tr><td><a href="/p1">Paste one</a></td><td>1 day</td><td>Never</td><td>1,234</td><td>5</td><td><a href="/archive/rust">Rust</a></td></tr>
</tbody></table>
</body></html>
"#;

#[test]
fn user_profile_is_read() {
    let dom = Document::parse(USER_PAGE);
    let user = User::from_html(&dom, &selectors());
    assert_eq!(user.username, "dave");
    assert_eq!(user.icon_url, "/imgs/guest.png");
    assert_eq!(user.website, Some("https://example.org".to_string()));
    assert_eq!(user.location, Some("Berlin".to_string()));
    assert_eq!(user.profile_views, 1000);
    assert_eq!(user.paste_views, 25000);
    assert_eq!(user.rating, "4.2");
    assert_eq!(user.date_joined, 1714662329);
    assert!(user.pro);
    assert_eq!(user.pastes.len(), 1);
    let p = &user.pastes[0];
    assert_eq!(p.id, "p1");
    assert_eq!(p.title, "Paste one");
    assert_eq!(p.age, "1 day");
    assert_eq!(p.expires, "Never");
    assert_eq!(p.views, 1234);
    assert_eq!(p.num_comments, 5);
    assert_eq!(p.format, "rust");
}

#[test]
fn user_without_profile_block_gets_minimal_record() {
    let dom = Document::parse(
        r#"<meta property="og:url" content="https://pastebin.com/u/erin"><table class="maintable"><tbody><tr></tr><tr></tr></tbody></table>"#,
    );
    let user = User::from_html(&dom, &selectors());
    assert_eq!(user.username, "erin");
    assert_eq!(user.icon_url, "/imgs/default_avatar.png");
    assert_eq!(user.website, None);
    assert_eq!(user.location, None);
    assert_eq!(user.profile_views, 0);
    assert_eq!(user.paste_views, 0);
    assert_eq!(user.date_joined, 0);
    assert!(!user.pro);
    assert!(user.pastes.is_empty());
}
