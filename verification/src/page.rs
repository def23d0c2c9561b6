use vstd::prelude::*;

use crate::dom::{element, empty_leaf, external_link, has, links_safe, markup_leaf, no_link, opt, styled, text_leaf, Content, Node, Tag};

verus! {

// ── Global stylesheet and reveal script ──────────────────────────────────

/// Fonts, keyframes and hover rules of the page.
pub const GLOBAL_CSS: &'static str = "@import url(\"https://fonts.googleapis.com/css2?family=Share+Tech+Mono&family=Barlow+Condensed:ital,wght@0,400;0,700;0,900;1,900&display=swap\");*{margin:0;padding:0;box-sizing:border-box;}html{scroll-behavior:smooth;}body{background:#05070d;overflow-x:hidden;font-family:'Share Tech Mono',monospace;}#glc{position:fixed;inset:0;width:100%;height:100%;z-index:0;display:block;}#eth-root{position:relative;z-index:10;}a{text-decoration:none;}@keyframes ethPulse{0%,100%{opacity:1;transform:scale(1)}50%{opacity:.35;transform:scale(.7)}}@keyframes ethBlink{50%{opacity:0}}@keyframes ethReveal{from{opacity:0;transform:translateY(30px)}to{opacity:1;transform:none}}.eth-nav a{color:#6a8494;font-size:.66rem;letter-spacing:.22em;padding:.4rem .85rem;border:1px solid transparent;transition:color .2s,border-color .2s,background .2s;}.eth-nav a:hover{color:#00ffe7;border-color:rgba(0,255,231,.3);background:rgba(0,255,231,.05);}.eth-card{transition:transform .25s cubic-bezier(.16,1,.3,1),border-color .25s,background .25s;}.eth-card:hover{transform:translateY(-4px);border-color:rgba(0,255,231,.35)!important;background:rgba(12,16,26,.96)!important;}.eth-pill{transition:border-color .2s,background .2s,color .2s,transform .15s;}.eth-pill:hover{border-color:#b700ff;background:rgba(183,0,255,.16);color:#fff;transform:translateY(-1px);}.eth-ct{transition:border-color .22s,background .22s,transform .22s;}.eth-ct:hover{border-color:rgba(0,255,231,.4)!important;background:rgba(12,16,26,.95)!important;transform:translateX(5px);}.eth-rev{opacity:0;}.eth-rev.on{animation:ethReveal .7s cubic-bezier(.16,1,.3,1) forwards;}@media(max-width:760px){.eth-nav-links{display:none!important;}.eth-about{grid-template-columns:1fr!important;}.eth-contact{grid-template-columns:1fr!important;}}";

/// Scroll reveal: marks every `.eth-card` hidden and fades it in, with a
/// staggered delay, once it intersects the viewport.
pub const REVEAL_SCRIPT: &'static str = "const io=new IntersectionObserver(es=>{es.forEach(e=>{if(e.isIntersecting){e.target.classList.add('on');io.unobserve(e.target);}});},{threshold:.12});document.querySelectorAll('.eth-card').forEach((c,i)=>{c.classList.add('eth-rev');c.style.animationDelay=(i%6*0.06)+'s';io.observe(c);});";

/// The `<style>` element appended to the document head.
pub fn stylesheet() -> (n: Node)
    ensures
        has(n, Tag::Style, None, None, None),
        no_link(n),
        text_leaf(n, GLOBAL_CSS@),
        links_safe(n),
{
    let mut n = element(Tag::Style);
    n.content = Content::Text(GLOBAL_CSS.to_owned());
    n
}

/// The `<script>` element appended to the body after the page, which turns
/// on the scroll reveal of the cards.
pub fn reveal_script() -> (n: Node)
    ensures
        has(n, Tag::Script, None, None, None),
        no_link(n),
        text_leaf(n, REVEAL_SCRIPT@),
        links_safe(n),
{
    let mut n = element(Tag::Script);
    n.content = Content::Text(REVEAL_SCRIPT.to_owned());
    n
}

// ── Section headers ──────────────────────────────────────────────────────

pub const HEADER_STYLE: &'static str = "display:flex;align-items:flex-end;gap:1.5rem;margin-bottom:3rem;";
pub const HEADER_META_STYLE: &'static str = "display:flex;flex-direction:column;gap:.4rem;";
pub const HEADER_NUM_STYLE: &'static str = "font-size:.62rem;letter-spacing:.22em;color:#ff2f6e;";
pub const HEADER_TITLE_STYLE: &'static str = "font-family:'Barlow Condensed',sans-serif;font-weight:900;\
             font-size:clamp(2rem,5vw,3.4rem);line-height:.92;color:#fff;";
pub const HEADER_LINE_STYLE: &'static str = "flex:1;max-width:320px;height:1px;margin-bottom:.5rem;\
             background:linear-gradient(90deg,rgba(0,255,231,.35),transparent);";

/// `n` is the header of a section numbered `num` and titled `title`: a row
/// holding the number above the title, then a fading rule.
pub open spec fn is_section_header(n: Node, num: Seq<char>, title: Seq<char>) -> bool {
    let meta = n.children@[0];
    let line = n.children@[1];
    &&& has(n, Tag::Div, None, None, Some(HEADER_STYLE@)) && no_link(n) && n.content is Empty
    &&& n.children@.len() == 2
    &&& has(meta, Tag::Div, None, None, Some(HEADER_META_STYLE@)) && no_link(meta)
    &&& meta.content is Empty && meta.children@.len() == 2
    &&& has(meta.children@[0], Tag::Span, None, None, Some(HEADER_NUM_STYLE@))
    &&& no_link(meta.children@[0]) && text_leaf(meta.children@[0], num)
    &&& has(meta.children@[1], Tag::H2, None, None, Some(HEADER_TITLE_STYLE@))
    &&& no_link(meta.children@[1]) && text_leaf(meta.children@[1], title)
    &&& has(line, Tag::Div, None, None, Some(HEADER_LINE_STYLE@)) && no_link(line) && empty_leaf(line)
}

/// A leaf of kind `tag` with an inline style and a text.
fn styled_text(tag: Tag, style: &str, text: &str) -> (n: Node)
    ensures
        has(n, tag, None, None, Some(style@)),
        no_link(n),
        text_leaf(n, text@),
        links_safe(n),
{
    let mut n = styled(tag, style);
    n.content = Content::Text(text.to_owned());
    n
}

/// A leaf of kind `tag` with an inline style and a markup fragment.
fn styled_markup(tag: Tag, style: &str, markup: &str) -> (n: Node)
    ensures
        has(n, tag, None, None, Some(style@)),
        no_link(n),
        markup_leaf(n, markup@),
        links_safe(n),
{
    let mut n = styled(tag, style);
    n.content = Content::Markup(markup.to_owned());
    n
}

/// The header that opens each section.
pub fn section_header(num: &str, title: &str) -> (n: Node)
    ensures
        is_section_header(n, num@, title@),
        links_safe(n),
{
    let mut h = styled(Tag::Div, HEADER_STYLE);
    let mut meta = styled(Tag::Div, HEADER_META_STYLE);
    let num_node = styled_text(Tag::Span, HEADER_NUM_STYLE, num);
    let title_node = styled_text(Tag::H2, HEADER_TITLE_STYLE, title);
    meta.children.push(num_node);
    meta.children.push(title_node);
    assert(links_safe(meta));
    h.children.push(meta);
    let line = styled(Tag::Div, HEADER_LINE_STYLE);
    h.children.push(line);
    assert(links_safe(h));
    h
}

// ── Navigation bar ───────────────────────────────────────────────────────

pub const NAV_STYLE: &'static str = "position:fixed;top:0;left:0;right:0;z-index:100;height:3.9rem;\
         display:flex;align-items:center;justify-content:space-between;\
         padding:0 2rem;background:rgba(5,7,13,.96);\
         border-bottom:1px solid rgba(0,255,231,.1);\
         box-shadow:0 2px 34px rgba(0,0,0,.6);backdrop-filter:blur(16px);";
pub const BRAND_STYLE: &'static str = "font-size:.8rem;letter-spacing:.14em;";
pub const BRAND_HTML: &'static str = "<span style=\"color:#4a6070\">//</span> \
         <span style=\"color:#39ff14\">eth3rn5l</span>\
         <span style=\"color:#4a6070\">.dev</span>";
pub const NAV_LINKS_STYLE: &'static str = "display:flex;gap:.2rem;";
pub const STATUS_STYLE: &'static str = "display:flex;align-items:center;gap:.5rem;font-size:.6rem;color:#4a6070;";
pub const DOT_STYLE: &'static str = "width:6px;height:6px;border-radius:50%;background:#39ff14;\
         box-shadow:0 0 7px #39ff14;animation:ethPulse 2s infinite;";

/// One entry of the navigation bar.
pub struct NavEntry {
    /// The in-page anchor the entry jumps to.
    pub href: &'static str,
    pub label: &'static str,
}

/// The navigation entries, in order, as (anchor, label).
pub open spec fn nav_plan() -> Seq<(Seq<char>, Seq<char>)> {
    seq![
        ("#about"@, "ABOUT"@),
        ("#projects"@, "PROJECTS"@),
        ("#skills"@, "SKILLS"@),
        ("#contact"@, "CONTACT"@),
    ]
}

/// The navigation entries.
pub fn nav_entries() -> (r: Vec<NavEntry>)
    ensures
        r@.len() == nav_plan().len(),
        forall|i: int| 0 <= i < r@.len() ==> (#[trigger] r@[i].href@, r@[i].label@) == nav_plan()[i],
{
    let mut r: Vec<NavEntry> = Vec::new();
    r.push(NavEntry { href: "#about", label: "ABOUT" });
    r.push(NavEntry { href: "#projects", label: "PROJECTS" });
    r.push(NavEntry { href: "#skills", label: "SKILLS" });
    r.push(NavEntry { href: "#contact", label: "CONTACT" });
    r
}

/// `n` is an unstyled link to `href` labelled `label`.
pub open spec fn is_nav_link(n: Node, href: Seq<char>, label: Seq<char>) -> bool {
    &&& has(n, Tag::A, None, None, None)
    &&& opt(n.href) == Some(href) && n.target is None && n.rel is None
    &&& text_leaf(n, label)
}

/// `n` is the fixed navigation bar: the brand, the entries of `nav_plan`
/// as links in order, and the "available" status with its pulsing dot.
pub open spec fn is_nav(n: Node) -> bool {
    let brand = n.children@[0];
    let links = n.children@[1];
    let status = n.children@[2];
    &&& has(n, Tag::Nav, None, Some("eth-nav"@), Some(NAV_STYLE@)) && no_link(n)
    &&& n.content is Empty && n.children@.len() == 3
    &&& has(brand, Tag::Div, None, None, Some(BRAND_STYLE@)) && no_link(brand)
    &&& markup_leaf(brand, BRAND_HTML@)
    &&& has(links, Tag::Div, None, Some("eth-nav-links"@), Some(NAV_LINKS_STYLE@)) && no_link(links)
    &&& links.content is Empty && links.children@.len() == nav_plan().len()
    &&& forall|i: int| 0 <= i < nav_plan().len() ==>
        is_nav_link(#[trigger] links.children@[i], nav_plan()[i].0, nav_plan()[i].1)
    &&& has(status, Tag::Div, None, None, Some(STATUS_STYLE@)) && no_link(status)
    &&& status.content is Empty && status.children@.len() == 2
    &&& has(status.children@[0], Tag::Div, None, None, Some(DOT_STYLE@))
    &&& no_link(status.children@[0]) && empty_leaf(status.children@[0])
    &&& has(status.children@[1], Tag::Span, None, None, None) && no_link(status.children@[1])
    &&& text_leaf(status.children@[1], "available"@)
}

/// The fixed navigation bar.
pub fn nav() -> (n: Node)
    ensures
        is_nav(n),
        links_safe(n),
{
    let mut nav = styled(Tag::Nav, NAV_STYLE);
    nav.class = Some("eth-nav".to_owned());
    let brand = styled_markup(Tag::Div, BRAND_STYLE, BRAND_HTML);
    nav.children.push(brand);
    let mut links = styled(Tag::Div, NAV_LINKS_STYLE);
    links.class = Some("eth-nav-links".to_owned());
    let entries = nav_entries();
    for i in 0..entries.len()
        invariant
            entries@.len() == nav_plan().len(),
            forall|k: int| 0 <= k < entries@.len() ==>
                (#[trigger] entries@[k].href@, entries@[k].label@) == nav_plan()[k],
            has(links, Tag::Div, None, Some("eth-nav-links"@), Some(NAV_LINKS_STYLE@)),
            no_link(links),
            links.content is Empty,
            links.children@.len() == i,
            forall|k: int| 0 <= k < i ==>
                is_nav_link(#[trigger] links.children@[k], nav_plan()[k].0, nav_plan()[k].1),
            forall|k: int| 0 <= k < i ==> links_safe(#[trigger] links.children@[k]),
    {
        let mut a = element(Tag::A);
        a.href = Some(entries[i].href.to_owned());
        a.content = Content::Text(entries[i].label.to_owned());
        assert(links_safe(a));
        links.children.push(a);
    }
    assert(links_safe(links));
    nav.children.push(links);
    let mut status = styled(Tag::Div, STATUS_STYLE);
    let dot = styled(Tag::Div, DOT_STYLE);
    status.children.push(dot);
    let mut stxt = element(Tag::Span);
    stxt.content = Content::Text("available".to_owned());
    assert(links_safe(stxt));
    status.children.push(stxt);
    assert(links_safe(status));
    nav.children.push(status);
    assert(links_safe(nav));
    nav
}

// ── Hero ─────────────────────────────────────────────────────────────────

pub const HERO_STYLE: &'static str = "min-height:100vh;display:flex;flex-direction:column;justify-content:flex-end;\
         padding:0 2rem 5rem;pointer-events:none;";
pub const EYEBROW_STYLE: &'static str = "font-size:.7rem;letter-spacing:.18em;color:#4a6070;margin-bottom:.8rem;";
pub const EYEBROW_HTML: &'static str = "<span style=\"color:#ff2f6e\">\u{2014}</span> \
         offensive security // red team // open source";
pub const HERO_NAME_STYLE: &'static str = "font-family:'Barlow Condensed',sans-serif;font-weight:900;\
         font-size:clamp(3.5rem,12vw,9rem);line-height:.86;color:#fff;\
         text-shadow:0 0 70px rgba(0,255,231,.28);";
pub const HERO_NAME_HTML: &'static str = "ETH3RN5L<br><span style=\"color:#ff2f6e;font-style:italic;\
         text-shadow:0 0 55px rgba(255,47,110,.55)\">ETHAN</span>";
pub const HERO_SUB_STYLE: &'static str = "margin-top:1.1rem;font-size:.82rem;letter-spacing:.12em;color:#00ffe7;\
         display:flex;gap:1.4rem;align-items:center;flex-wrap:wrap;";
pub const HERO_SUB_HTML: &'static str = "<span>LACERENZA</span><span style=\"opacity:.3\">/</span>\
         <span>PENTESTER</span><span style=\"opacity:.3\">/</span>\
         <span>RED TEAMER<span style=\"animation:ethBlink .9s step-end infinite\">_</span></span>";

/// `n` is the hero: the eyebrow line, the name and the subtitle, each a
/// markup fragment.
pub open spec fn is_hero(n: Node) -> bool {
    &&& has(n, Tag::Section, None, None, Some(HERO_STYLE@)) && no_link(n)
    &&& n.content is Empty && n.children@.len() == 3
    &&& has(n.children@[0], Tag::P, None, None, Some(EYEBROW_STYLE@)) && no_link(n.children@[0])
    &&& markup_leaf(n.children@[0], EYEBROW_HTML@)
    &&& has(n.children@[1], Tag::H1, None, None, Some(HERO_NAME_STYLE@)) && no_link(n.children@[1])
    &&& markup_leaf(n.children@[1], HERO_NAME_HTML@)
    &&& has(n.children@[2], Tag::Div, None, None, Some(HERO_SUB_STYLE@)) && no_link(n.children@[2])
    &&& markup_leaf(n.children@[2], HERO_SUB_HTML@)
}

/// The full-height hero with the name.
pub fn hero() -> (n: Node)
    ensures
        is_hero(n),
        links_safe(n),
{
    let mut hero = styled(Tag::Section, HERO_STYLE);
    hero.children.push(styled_markup(Tag::P, EYEBROW_STYLE, EYEBROW_HTML));
    hero.children.push(styled_markup(Tag::H1, HERO_NAME_STYLE, HERO_NAME_HTML));
    hero.children.push(styled_markup(Tag::Div, HERO_SUB_STYLE, HERO_SUB_HTML));
    assert(links_safe(hero));
    hero
}

// ── Footer ───────────────────────────────────────────────────────────────

pub const FOOTER_STYLE: &'static str = "background:#39ff14;padding:.8rem 2rem;display:flex;\
         align-items:center;justify-content:space-between;flex-wrap:wrap;gap:.5rem;\
         font-size:.7rem;letter-spacing:.1em;color:#000;";
pub const FOOTER_LEFT_STYLE: &'static str = "font-weight:700;";
pub const FOOTER_LEFT_TEXT: &'static str = "\u{25B6} ETH3RN5L // OFFENSIVE SECURITY";
pub const FOOTER_RIGHT_STYLE: &'static str = "opacity:.55;";
pub const FOOTER_RIGHT_TEXT: &'static str = "ethanlacerenza.github.io";

/// `n` is the footer strip with its two texts.
pub open spec fn is_footer(n: Node) -> bool {
    &&& has(n, Tag::Footer, None, None, Some(FOOTER_STYLE@)) && no_link(n)
    &&& n.content is Empty && n.children@.len() == 2
    &&& has(n.children@[0], Tag::Span, None, None, Some(FOOTER_LEFT_STYLE@)) && no_link(n.children@[0])
    &&& text_leaf(n.children@[0], FOOTER_LEFT_TEXT@)
    &&& has(n.children@[1], Tag::Span, None, None, Some(FOOTER_RIGHT_STYLE@)) && no_link(n.children@[1])
    &&& text_leaf(n.children@[1], FOOTER_RIGHT_TEXT@)
}

/// The footer strip.
pub fn footer() -> (n: Node)
    ensures
        is_footer(n),
        links_safe(n),
{
    let mut footer = styled(Tag::Footer, FOOTER_STYLE);
    footer.children.push(styled_text(Tag::Span, FOOTER_LEFT_STYLE, FOOTER_LEFT_TEXT));
    footer.children.push(styled_text(Tag::Span, FOOTER_RIGHT_STYLE, FOOTER_RIGHT_TEXT));
    assert(links_safe(footer));
    footer
}

// ── Sections ─────────────────────────────────────────────────────────────

pub const SECTION_STYLE: &'static str = "max-width:1120px;margin:0 auto;padding:5rem 2rem;";

/// `n` is a content section with anchor `id` whose header is numbered `num`
/// and titled `title`; its body is its second child.
pub open spec fn is_section(n: Node, id: Seq<char>, num: Seq<char>, title: Seq<char>) -> bool {
    &&& has(n, Tag::Section, Some(id), None, Some(SECTION_STYLE@)) && no_link(n)
    &&& n.content is Empty && n.children@.len() == 2
    &&& is_section_header(n.children@[0], num, title)
}

/// A section with its header; the body is pushed by the caller.
fn section(id: &str, num: &str, title: &str) -> (n: Node)
    ensures
        has(n, Tag::Section, Some(id@), None, Some(SECTION_STYLE@)),
        no_link(n),
        n.content is Empty,
        n.children@.len() == 1,
        is_section_header(n.children@[0], num@, title@),
        links_safe(n),
{
    let mut n = styled(Tag::Section, SECTION_STYLE);
    n.id = Some(id.to_owned());
    n.children.push(section_header(num, title));
    assert(links_safe(n));
    n
}

// ── About ────────────────────────────────────────────────────────────────

pub const ABOUT_GRID_STYLE: &'static str = "display:grid;grid-template-columns:1fr 1fr;gap:4rem;align-items:start;";
pub const BIO_STYLE: &'static str = "font-size:1.12rem;line-height:1.8;color:#c8dce8;max-width:50ch;\
         text-shadow:0 1px 10px rgba(5,7,13,.9);";
pub const BIO_HTML: &'static str = "I'm <b style=\"color:#00ffe7\">Ethan Lacerenza</b>, aka \
         <b style=\"color:#00ffe7\">eth3rn5l</b> — an offensive security \
         researcher and red teamer focused on structured, repeatable attack \
         methodologies.<br><br>I build tools and mindmaps that turn chaotic \
         pentesting knowledge into clean, actionable flows. My work sits at the \
         intersection of <b style=\"color:#00ffe7\">offensive security</b>, \
         <b style=\"color:#00ffe7\">open source</b>, and the belief that good \
         documentation is itself a weapon.";
pub const PILLS_STYLE: &'static str = "display:flex;flex-wrap:wrap;gap:.5rem;margin-top:1.8rem;";
pub const PILL_STYLE: &'static str = "font-size:.63rem;letter-spacing:.1em;padding:.35rem .85rem;\
             border:1px solid rgba(183,0,255,.35);color:rgba(183,0,255,.85);\
             background:rgba(12,16,26,.7);";
pub const STATS_STYLE: &'static str = "display:flex;flex-direction:column;gap:1.4rem;";
pub const STAT_CARD_STYLE: &'static str = "padding:1.5rem 1.5rem 1.5rem 1.8rem;border:1px solid rgba(255,255,255,.08);\
             border-left:3px solid #ff2f6e;background:rgba(10,13,22,.88);";
pub const STAT_VALUE_STYLE: &'static str = "font-family:'Barlow Condensed',sans-serif;font-weight:900;\
             font-size:2.6rem;line-height:1;color:#fff;";
pub const STAT_LABEL_STYLE: &'static str = "font-size:.62rem;letter-spacing:.15em;color:#5a7080;margin-top:.35rem;";

/// The skill pills under the biography, in order.
pub open spec fn pill_plan() -> Seq<Seq<char>> {
    seq![
        "OSCP mindset"@,
        "Red Team"@,
        "OSINT"@,
        "Privilege Escalation"@,
        "Lateral Movement"@,
        "Post-Exploitation"@,
        "Mindmapping"@,
    ]
}

/// The labels of the skill pills.
pub fn pill_labels() -> (r: Vec<&'static str>)
    ensures
        r@.len() == pill_plan().len(),
        forall|i: int| 0 <= i < r@.len() ==> #[trigger] r@[i]@ == pill_plan()[i],
{
    let mut r: Vec<&'static str> = Vec::new();
    r.push("OSCP mindset");
    r.push("Red Team");
    r.push("OSINT");
    r.push("Privilege Escalation");
    r.push("Lateral Movement");
    r.push("Post-Exploitation");
    r.push("Mindmapping");
    r
}

/// A figure shown on a stat card.
pub struct Stat {
    pub value: &'static str,
    pub label: &'static str,
}

/// The stat cards of the about section, in order, as (value, label).
pub open spec fn stat_plan() -> Seq<(Seq<char>, Seq<char>)> {
    seq![
        ("Gh0stFl0w"@, "flagship project · 7 stars"@),
        ("6+"@, "pentest phases mapped"@),
        ("MIT"@, "open source · free to use"@),
    ]
}

/// The figures of the stat cards.
pub fn stats() -> (r: Vec<Stat>)
    ensures
        r@.len() == stat_plan().len(),
        forall|i: int| 0 <= i < r@.len() ==> (#[trigger] r@[i].value@, r@[i].label@) == stat_plan()[i],
{
    let mut r: Vec<Stat> = Vec::new();
    r.push(Stat { value: "Gh0stFl0w", label: "flagship project · 7 stars" });
    r.push(Stat { value: "6+", label: "pentest phases mapped" });
    r.push(Stat { value: "MIT", label: "open source · free to use" });
    r
}

/// `n` is a pill labelled `label`.
pub open spec fn is_pill(n: Node, label: Seq<char>) -> bool {
    has(n, Tag::Span, None, Some("eth-pill"@), Some(PILL_STYLE@)) && no_link(n) && text_leaf(n, label)
}

/// `n` is a stat card showing `value` above `label`.
pub open spec fn is_stat_card(n: Node, value: Seq<char>, label: Seq<char>) -> bool {
    &&& has(n, Tag::Div, None, Some("eth-card"@), Some(STAT_CARD_STYLE@)) && no_link(n)
    &&& n.content is Empty && n.children@.len() == 2
    &&& has(n.children@[0], Tag::Div, None, None, Some(STAT_VALUE_STYLE@)) && no_link(n.children@[0])
    &&& text_leaf(n.children@[0], value)
    &&& has(n.children@[1], Tag::Div, None, None, Some(STAT_LABEL_STYLE@)) && no_link(n.children@[1])
    &&& text_leaf(n.children@[1], label)
}

/// `n` is the about section: the biography with its pills on the left, the
/// stat cards on the right.
pub open spec fn is_about(n: Node) -> bool {
    let grid = n.children@[1];
    let left = grid.children@[0];
    let pills = left.children@[1];
    let stats = grid.children@[1];
    &&& is_section(n, "about"@, "// 01"@, "About"@)
    &&& has(grid, Tag::Div, None, Some("eth-about"@), Some(ABOUT_GRID_STYLE@)) && no_link(grid)
    &&& grid.content is Empty && grid.children@.len() == 2
    &&& has(left, Tag::Div, None, None, None) && no_link(left)
    &&& left.content is Empty && left.children@.len() == 2
    &&& has(left.children@[0], Tag::P, None, None, Some(BIO_STYLE@)) && no_link(left.children@[0])
    &&& markup_leaf(left.children@[0], BIO_HTML@)
    &&& has(pills, Tag::Div, None, None, Some(PILLS_STYLE@)) && no_link(pills)
    &&& pills.content is Empty && pills.children@.len() == pill_plan().len()
    &&& forall|i: int| 0 <= i < pill_plan().len() ==> is_pill(#[trigger] pills.children@[i], pill_plan()[i])
    &&& has(stats, Tag::Div, None, None, Some(STATS_STYLE@)) && no_link(stats)
    &&& stats.content is Empty && stats.children@.len() == stat_plan().len()
    &&& forall|i: int| 0 <= i < stat_plan().len() ==>
        is_stat_card(#[trigger] stats.children@[i], stat_plan()[i].0, stat_plan()[i].1)
}

/// The pills row.
fn pills_row() -> (n: Node)
    ensures
        has(n, Tag::Div, None, None, Some(PILLS_STYLE@)),
        no_link(n),
        n.content is Empty,
        n.children@.len() == pill_plan().len(),
        forall|i: int| 0 <= i < pill_plan().len() ==> is_pill(#[trigger] n.children@[i], pill_plan()[i]),
        links_safe(n),
{
    let mut pills = styled(Tag::Div, PILLS_STYLE);
    let labels = pill_labels();
    for i in 0..labels.len()
        invariant
            labels@.len() == pill_plan().len(),
            forall|k: int| 0 <= k < labels@.len() ==> #[trigger] labels@[k]@ == pill_plan()[k],
            has(pills, Tag::Div, None, None, Some(PILLS_STYLE@)),
            no_link(pills),
            pills.content is Empty,
            pills.children@.len() == i,
            forall|k: int| 0 <= k < i ==> is_pill(#[trigger] pills.children@[k], pill_plan()[k]),
            forall|k: int| 0 <= k < i ==> links_safe(#[trigger] pills.children@[k]),
    {
        let mut pill = styled_text(Tag::Span, PILL_STYLE, labels[i]);
        pill.class = Some("eth-pill".to_owned());
        assert(links_safe(pill));
        pills.children.push(pill);
    }
    assert(links_safe(pills));
    pills
}

/// A stat card.
fn stat_card(value: &str, label: &str) -> (n: Node)
    ensures
        is_stat_card(n, value@, label@),
        links_safe(n),
{
    let mut card = styled(Tag::Div, STAT_CARD_STYLE);
    card.class = Some("eth-card".to_owned());
    card.children.push(styled_text(Tag::Div, STAT_VALUE_STYLE, value));
    card.children.push(styled_text(Tag::Div, STAT_LABEL_STYLE, label));
    assert(links_safe(card));
    card
}

/// The column of stat cards.
fn stats_column() -> (n: Node)
    ensures
        has(n, Tag::Div, None, None, Some(STATS_STYLE@)),
        no_link(n),
        n.content is Empty,
        n.children@.len() == stat_plan().len(),
        forall|i: int| 0 <= i < stat_plan().len() ==>
            is_stat_card(#[trigger] n.children@[i], stat_plan()[i].0, stat_plan()[i].1),
        links_safe(n),
{
    let mut col = styled(Tag::Div, STATS_STYLE);
    let figures = stats();
    for i in 0..figures.len()
        invariant
            figures@.len() == stat_plan().len(),
            forall|k: int| 0 <= k < figures@.len() ==>
                (#[trigger] figures@[k].value@, figures@[k].label@) == stat_plan()[k],
            has(col, Tag::Div, None, None, Some(STATS_STYLE@)),
            no_link(col),
            col.content is Empty,
            col.children@.len() == i,
            forall|k: int| 0 <= k < i ==>
                is_stat_card(#[trigger] col.children@[k], stat_plan()[k].0, stat_plan()[k].1),
            forall|k: int| 0 <= k < i ==> links_safe(#[trigger] col.children@[k]),
    {
        col.children.push(stat_card(figures[i].value, figures[i].label));
    }
    assert(links_safe(col));
    col
}

/// The about section.
pub fn about_section() -> (n: Node)
    ensures
        is_about(n),
        links_safe(n),
{
    let mut about = section("about", "// 01", "About");
    let mut grid = styled(Tag::Div, ABOUT_GRID_STYLE);
    grid.class = Some("eth-about".to_owned());
    let mut left = element(Tag::Div);
    left.children.push(styled_markup(Tag::P, BIO_STYLE, BIO_HTML));
    left.children.push(pills_row());
    assert(links_safe(left));
    grid.children.push(left);
    grid.children.push(stats_column());
    assert(links_safe(grid));
    about.children.push(grid);
    assert(links_safe(about));
    about
}

// ── Projects ─────────────────────────────────────────────────────────────

pub const PROJECT_GRID_STYLE: &'static str = "display:grid;grid-template-columns:repeat(auto-fill,minmax(320px,1fr));gap:1.2rem;";
pub const PROJECT_CARD_STYLE: &'static str = "background:rgba(10,13,22,.9);border:1px solid rgba(255,255,255,.08);\
             padding:1.5rem;display:flex;flex-direction:column;";
pub const PROJECT_TOP_STYLE: &'static str = "display:flex;justify-content:space-between;align-items:flex-start;margin-bottom:1rem;";
pub const PROJECT_NAME_STYLE: &'static str = "font-family:'Barlow Condensed',sans-serif;font-weight:900;\
             font-size:1.35rem;color:#fff;letter-spacing:.02em;";
pub const BADGE_STYLE: &'static str = "font-size:.6rem;padding:.2rem .55rem;border:1px solid rgba(57,255,20,.4);\
                 color:#39ff14;white-space:nowrap;";
pub const PROJECT_DESC_STYLE: &'static str = "font-size:.92rem;line-height:1.65;color:#8aabb8;flex:1;";
pub const TAG_ROW_STYLE: &'static str = "display:flex;flex-wrap:wrap;gap:.35rem;margin-top:1.2rem;";
pub const TAG_STYLE: &'static str = "font-size:.58rem;letter-spacing:.08em;padding:.18rem .5rem;\
                 border:1px solid rgba(0,255,231,.2);color:rgba(0,255,231,.6);";
pub const PROJECT_LINK_STYLE: &'static str = "display:inline-block;margin-top:1.2rem;font-size:.66rem;\
                 letter-spacing:.12em;color:#ff2f6e;";
pub const PROJECT_LINK_TEXT: &'static str = "View on GitHub \u{2192}";

pub const GHOSTFLOW_DESC: &'static str = "Pentesting mindmaps covering the full offensive lifecycle — from recon to reporting. Built in Notion and Excalidraw for fast in-field reference.";
pub const FILE_TRANSFER_DESC: &'static str = "Structured exfiltration and file-transfer techniques across heterogeneous environments. A core module of Gh0stFl0w.";
pub const WEB_INFO_DESC: &'static str = "OSINT and web reconnaissance workflows covering passive and active information gathering for penetration testing engagements.";
pub const ASSESSMENT_DESC: &'static str = "Templates and checklists for structured security assessments, from scoping to final report delivery.";
pub const NEXT_DROP_DESC: &'static str = "Something new is being built. Watch the repo.";

/// A project card's data. An empty `badge` shows no badge; an empty `url`
/// shows no link.
pub struct Project {
    pub name: &'static str,
    pub badge: &'static str,
    pub desc: &'static str,
    pub tags: Vec<&'static str>,
    pub url: &'static str,
}

/// A project's data as character sequences.
pub struct ProjectView {
    pub name: Seq<char>,
    pub badge: Seq<char>,
    pub desc: Seq<char>,
    pub tags: Seq<Seq<char>>,
    pub url: Seq<char>,
}

/// The characters of a project's fields.
pub open spec fn project_view(p: Project) -> ProjectView {
    ProjectView {
        name: p.name@,
        badge: p.badge@,
        desc: p.desc@,
        tags: p.tags@.map_values(|t: &'static str| t@),
        url: p.url@,
    }
}

/// The projects, in the order they are shown.
pub open spec fn project_plan() -> Seq<ProjectView> {
    seq![
        ProjectView {
            name: "Gh0stFl0w"@,
            badge: "\u{2605} 7"@,
            desc: GHOSTFLOW_DESC@,
            tags: seq!["Pentesting"@, "Mindmap"@, "Recon"@, "PrivEsc"@],
            url: "https://github.com/ethanlacerenza/Gh0stFl0w"@,
        },
        ProjectView {
            name: "File Transfer Methodology"@,
            badge: ""@,
            desc: FILE_TRANSFER_DESC@,
            tags: seq!["Exfiltration"@, "OPSEC"@, "Post-Exploit"@],
            url: ""@,
        },
        ProjectView {
            name: "Web Info Gathering"@,
            badge: ""@,
            desc: WEB_INFO_DESC@,
            tags: seq!["OSINT"@, "Recon"@, "Web"@],
            url: ""@,
        },
        ProjectView {
            name: "Security Assessment"@,
            badge: ""@,
            desc: ASSESSMENT_DESC@,
            tags: seq!["Assessment"@, "Reporting"@, "Methodology"@],
            url: ""@,
        },
        ProjectView {
            name: "Next drop"@,
            badge: ""@,
            desc: NEXT_DROP_DESC@,
            tags: seq!["soon"@],
            url: "https://github.com/ethanlacerenza"@,
        },
    ]
}

/// A list of string slices made of the given ones.
fn strs(a: &'static str, b: &'static str, c: &'static str) -> (r: Vec<&'static str>)
    ensures
        r@.map_values(|t: &'static str| t@) == seq![a@, b@, c@],
{
    let mut r: Vec<&'static str> = Vec::new();
    r.push(a);
    r.push(b);
    r.push(c);
    assert(r@.map_values(|t: &'static str| t@) =~= seq![a@, b@, c@]);
    r
}

/// The project data.
pub fn projects() -> (r: Vec<Project>)
    ensures
        r@.len() == project_plan().len(),
        forall|i: int| 0 <= i < r@.len() ==> #[trigger] project_view(r@[i]) == project_plan()[i],
{
    let mut ghost_tags: Vec<&'static str> = Vec::new();
    ghost_tags.push("Pentesting");
    ghost_tags.push("Mindmap");
    ghost_tags.push("Recon");
    ghost_tags.push("PrivEsc");
    assert(ghost_tags@.map_values(|t: &'static str| t@)
        =~= seq!["Pentesting"@, "Mindmap"@, "Recon"@, "PrivEsc"@]);
    let mut soon_tags: Vec<&'static str> = Vec::new();
    soon_tags.push("soon");
    assert(soon_tags@.map_values(|t: &'static str| t@) =~= seq!["soon"@]);
    let mut r: Vec<Project> = Vec::new();
    r.push(Project {
        name: "Gh0stFl0w",
        badge: "\u{2605} 7",
        desc: GHOSTFLOW_DESC,
        tags: ghost_tags,
        url: "https://github.com/ethanlacerenza/Gh0stFl0w",
    });
    r.push(Project {
        name: "File Transfer Methodology",
        badge: "",
        desc: FILE_TRANSFER_DESC,
        tags: strs("Exfiltration", "OPSEC", "Post-Exploit"),
        url: "",
    });
    r.push(Project {
        name: "Web Info Gathering",
        badge: "",
        desc: WEB_INFO_DESC,
        tags: strs("OSINT", "Recon", "Web"),
        url: "",
    });
    r.push(Project {
        name: "Security Assessment",
        badge: "",
        desc: ASSESSMENT_DESC,
        tags: strs("Assessment", "Reporting", "Methodology"),
        url: "",
    });
    r.push(Project {
        name: "Next drop",
        badge: "",
        desc: NEXT_DROP_DESC,
        tags: soon_tags,
        url: "https://github.com/ethanlacerenza",
    });
    r
}

/// `n` is a tag chip reading `t`.
pub open spec fn is_tag_chip(n: Node, t: Seq<char>) -> bool {
    has(n, Tag::Span, None, None, Some(TAG_STYLE@)) && no_link(n) && text_leaf(n, t)
}

/// `n` is the card of project `p`: a top row with the name and, when the
/// badge is not empty, the badge; the description; the row of tag chips;
/// and, when the url is not empty, a link to it that opens in a new tab.
pub open spec fn is_project_card(n: Node, p: ProjectView) -> bool {
    let top = n.children@[0];
    let desc = n.children@[1];
    let tags = n.children@[2];
    &&& has(n, Tag::Div, None, Some("eth-card"@), Some(PROJECT_CARD_STYLE@)) && no_link(n)
    &&& n.content is Empty
    &&& n.children@.len() == if p.url.len() > 0 { 4int } else { 3int }
    &&& has(top, Tag::Div, None, None, Some(PROJECT_TOP_STYLE@)) && no_link(top)
    &&& top.content is Empty
    &&& top.children@.len() == if p.badge.len() > 0 { 2int } else { 1int }
    &&& has(top.children@[0], Tag::Div, None, None, Some(PROJECT_NAME_STYLE@)) && no_link(top.children@[0])
    &&& text_leaf(top.children@[0], p.name)
    &&& p.badge.len() > 0 ==> {
        &&& has(top.children@[1], Tag::Div, None, None, Some(BADGE_STYLE@)) && no_link(top.children@[1])
        &&& text_leaf(top.children@[1], p.badge)
    }
    &&& has(desc, Tag::P, None, None, Some(PROJECT_DESC_STYLE@)) && no_link(desc)
    &&& text_leaf(desc, p.desc)
    &&& has(tags, Tag::Div, None, None, Some(TAG_ROW_STYLE@)) && no_link(tags)
    &&& tags.content is Empty && tags.children@.len() == p.tags.len()
    &&& forall|i: int| 0 <= i < p.tags.len() ==> is_tag_chip(#[trigger] tags.children@[i], p.tags[i])
    &&& p.url.len() > 0 ==> {
        &&& has(n.children@[3], Tag::A, None, None, Some(PROJECT_LINK_STYLE@))
        &&& external_link(n.children@[3], p.url)
        &&& text_leaf(n.children@[3], PROJECT_LINK_TEXT@)
    }
}

/// The card of one project.
pub fn project_card(p: &Project) -> (n: Node)
    ensures
        is_project_card(n, project_view(*p)),
        links_safe(n),
{
    let ghost pv = project_view(*p);
    let mut card = styled(Tag::Div, PROJECT_CARD_STYLE);
    card.class = Some("eth-card".to_owned());
    let mut top = styled(Tag::Div, PROJECT_TOP_STYLE);
    top.children.push(styled_text(Tag::Div, PROJECT_NAME_STYLE, p.name));
    if !p.badge.is_empty() {
        top.children.push(styled_text(Tag::Div, BADGE_STYLE, p.badge));
    }
    assert(links_safe(top));
    card.children.push(top);
    card.children.push(styled_text(Tag::P, PROJECT_DESC_STYLE, p.desc));
    let mut row = styled(Tag::Div, TAG_ROW_STYLE);
    for i in 0..p.tags.len()
        invariant
            pv == project_view(*p),
            has(row, Tag::Div, None, None, Some(TAG_ROW_STYLE@)),
            no_link(row),
            row.content is Empty,
            row.children@.len() == i,
            forall|k: int| 0 <= k < i ==> is_tag_chip(#[trigger] row.children@[k], pv.tags[k]),
            forall|k: int| 0 <= k < i ==> links_safe(#[trigger] row.children@[k]),
    {
        row.children.push(styled_text(Tag::Span, TAG_STYLE, p.tags[i]));
    }
    assert(links_safe(row));
    card.children.push(row);
    if !p.url.is_empty() {
        let mut a = styled_text(Tag::A, PROJECT_LINK_STYLE, PROJECT_LINK_TEXT);
        a.href = Some(p.url.to_owned());
        a.target = Some("_blank".to_owned());
        a.rel = Some("noopener".to_owned());
        assert(links_safe(a));
        card.children.push(a);
    }
    assert(links_safe(card));
    card
}

/// `n` is the projects section: one card per entry of `project_plan`, in
/// order.
pub open spec fn is_projects(n: Node) -> bool {
    let grid = n.children@[1];
    &&& is_section(n, "projects"@, "// 02"@, "Projects"@)
    &&& has(grid, Tag::Div, None, None, Some(PROJECT_GRID_STYLE@)) && no_link(grid)
    &&& grid.content is Empty && grid.children@.len() == project_plan().len()
    &&& forall|i: int| 0 <= i < project_plan().len() ==>
        is_project_card(#[trigger] grid.children@[i], project_plan()[i])
}

/// The projects section.
pub fn projects_section() -> (n: Node)
    ensures
        is_projects(n),
        links_safe(n),
{
    let mut sec = section("projects", "// 02", "Projects");
    let mut grid = styled(Tag::Div, PROJECT_GRID_STYLE);
    let data = projects();
    for i in 0..data.len()
        invariant
            data@.len() == project_plan().len(),
            forall|k: int| 0 <= k < data@.len() ==> #[trigger] project_view(data@[k]) == project_plan()[k],
            has(grid, Tag::Div, None, None, Some(PROJECT_GRID_STYLE@)),
            no_link(grid),
            grid.content is Empty,
            grid.children@.len() == i,
            forall|k: int| 0 <= k < i ==> is_project_card(#[trigger] grid.children@[k], project_plan()[k]),
            forall|k: int| 0 <= k < i ==> links_safe(#[trigger] grid.children@[k]),
    {
        let card = project_card(&data[i]);
        assert(project_view(data@[i as int]) == project_plan()[i as int]);
        grid.children.push(card);
    }
    assert(links_safe(grid));
    sec.children.push(grid);
    assert(links_safe(sec));
    sec
}

// ── Skills ───────────────────────────────────────────────────────────────

pub const SKILLS_GRID_STYLE: &'static str = "display:grid;grid-template-columns:repeat(auto-fill,minmax(250px,1fr));gap:.7rem;";
pub const SKILL_CARD_STYLE: &'static str = "display:flex;align-items:center;gap:1rem;padding:1rem 1.3rem;\
                      background:rgba(10,13,22,.9);border:1px solid rgba(255,255,255,.08);";
pub const SKILL_ICON_STYLE_HEAD: &'static str = "width:2.6rem;height:2.6rem;flex-shrink:0;display:flex;\
                      align-items:center;justify-content:center;font-size:1rem;\
                      border:1px solid ";
pub const SKILL_BODY_STYLE: &'static str = "display:flex;flex-direction:column;gap:.2rem;";
pub const SKILL_NAME_STYLE: &'static str = "font-family:'Barlow Condensed',sans-serif;font-weight:700;\
             font-size:1.05rem;color:#fff;";
pub const SKILL_SUB_STYLE: &'static str = "font-size:.58rem;color:#5a7080;letter-spacing:.08em;";

/// A toolkit entry.
pub struct Skill {
    pub icon: &'static str,
    pub name: &'static str,
    pub sub: &'static str,
    /// The accent colour of the icon's border and glyph.
    pub color: &'static str,
}

/// A toolkit entry as character sequences.
pub struct SkillView {
    pub icon: Seq<char>,
    pub name: Seq<char>,
    pub sub: Seq<char>,
    pub color: Seq<char>,
}

/// The characters of a toolkit entry.
pub open spec fn skill_view(s: Skill) -> SkillView {
    SkillView { icon: s.icon@, name: s.name@, sub: s.sub@, color: s.color@ }
}

/// The toolkit entries, in order.
pub open spec fn skill_plan() -> Seq<SkillView> {
    seq![
        SkillView { icon: "\u{25C8}"@, name: "Penetration Testing"@, sub: "web · network · ad"@, color: "#ff2f6e"@ },
        SkillView { icon: "\u{2B21}"@, name: "OSINT & Recon"@, sub: "passive · active"@, color: "#00ffe7"@ },
        SkillView { icon: "\u{25B2}"@, name: "Privilege Escalation"@, sub: "linux · windows"@, color: "#b700ff"@ },
        SkillView { icon: "\u{2192}"@, name: "Lateral Movement"@, sub: "pivoting · tunneling"@, color: "#ff2f6e"@ },
        SkillView { icon: "\u{25C9}"@, name: "Post-Exploitation"@, sub: "persistence · exfil"@, color: "#39ff14"@ },
        SkillView { icon: "\u{25B8}"@, name: "Payload Crafting"@, sub: "custom · obfuscated"@, color: "#00ffe7"@ },
        SkillView { icon: "\u{229E}"@, name: "Notion / Excalidraw"@, sub: "knowledge base"@, color: "#b700ff"@ },
        SkillView { icon: "\u{2261}"@, name: "Report Writing"@, sub: "technical · executive"@, color: "#ff2f6e"@ },
    ]
}

/// The toolkit data.
pub fn skills() -> (r: Vec<Skill>)
    ensures
        r@.len() == skill_plan().len(),
        forall|i: int| 0 <= i < r@.len() ==> #[trigger] skill_view(r@[i]) == skill_plan()[i],
{
    let mut r: Vec<Skill> = Vec::new();
    r.push(Skill { icon: "\u{25C8}", name: "Penetration Testing", sub: "web · network · ad", color: "#ff2f6e" });
    r.push(Skill { icon: "\u{2B21}", name: "OSINT & Recon", sub: "passive · active", color: "#00ffe7" });
    r.push(Skill { icon: "\u{25B2}", name: "Privilege Escalation", sub: "linux · windows", color: "#b700ff" });
    r.push(Skill { icon: "\u{2192}", name: "Lateral Movement", sub: "pivoting · tunneling", color: "#ff2f6e" });
    r.push(Skill { icon: "\u{25C9}", name: "Post-Exploitation", sub: "persistence · exfil", color: "#39ff14" });
    r.push(Skill { icon: "\u{25B8}", name: "Payload Crafting", sub: "custom · obfuscated", color: "#00ffe7" });
    r.push(Skill { icon: "\u{229E}", name: "Notion / Excalidraw", sub: "knowledge base", color: "#b700ff" });
    r.push(Skill { icon: "\u{2261}", name: "Report Writing", sub: "technical · executive", color: "#ff2f6e" });
    r
}

/// The style of a skill icon: its border and glyph take the accent colour.
pub open spec fn skill_icon_style(color: Seq<char>) -> Seq<char> {
    SKILL_ICON_STYLE_HEAD@ + color + ";color:"@ + color + ";"@
}

/// The inline style of a skill icon in the accent colour `color`.
pub fn icon_style(color: &str) -> (r: String)
    ensures
        r@ == skill_icon_style(color@),
{
    let mut r = SKILL_ICON_STYLE_HEAD.to_owned();
    r.append(color);
    r.append(";color:");
    r.append(color);
    r.append(";");
    r
}

/// `n` is the card of toolkit entry `s`: the icon in its accent colour, then
/// the name above the subtitle.
pub open spec fn is_skill_card(n: Node, s: SkillView) -> bool {
    let icon = n.children@[0];
    let body = n.children@[1];
    &&& has(n, Tag::Div, None, Some("eth-card"@), Some(SKILL_CARD_STYLE@)) && no_link(n)
    &&& n.content is Empty && n.children@.len() == 2
    &&& has(icon, Tag::Div, None, None, Some(skill_icon_style(s.color))) && no_link(icon)
    &&& text_leaf(icon, s.icon)
    &&& has(body, Tag::Div, None, None, Some(SKILL_BODY_STYLE@)) && no_link(body)
    &&& body.content is Empty && body.children@.len() == 2
    &&& has(body.children@[0], Tag::Div, None, None, Some(SKILL_NAME_STYLE@)) && no_link(body.children@[0])
    &&& text_leaf(body.children@[0], s.name)
    &&& has(body.children@[1], Tag::Div, None, None, Some(SKILL_SUB_STYLE@)) && no_link(body.children@[1])
    &&& text_leaf(body.children@[1], s.sub)
}

/// The card of one toolkit entry.
pub fn skill_card(s: &Skill) -> (n: Node)
    ensures
        is_skill_card(n, skill_view(*s)),
        links_safe(n),
{
    let mut card = styled(Tag::Div, SKILL_CARD_STYLE);
    card.class = Some("eth-card".to_owned());
    let style = icon_style(s.color);
    card.children.push(styled_text(Tag::Div, style.as_str(), s.icon));
    let mut body = styled(Tag::Div, SKILL_BODY_STYLE);
    body.children.push(styled_text(Tag::Div, SKILL_NAME_STYLE, s.name));
    body.children.push(styled_text(Tag::Div, SKILL_SUB_STYLE, s.sub));
    assert(links_safe(body));
    card.children.push(body);
    assert(links_safe(card));
    card
}

/// `n` is the toolkit section: one card per entry of `skill_plan`, in order.
pub open spec fn is_skills(n: Node) -> bool {
    let grid = n.children@[1];
    &&& is_section(n, "skills"@, "// 03"@, "Toolkit"@)
    &&& has(grid, Tag::Div, None, None, Some(SKILLS_GRID_STYLE@)) && no_link(grid)
    &&& grid.content is Empty && grid.children@.len() == skill_plan().len()
    &&& forall|i: int| 0 <= i < skill_plan().len() ==> is_skill_card(#[trigger] grid.children@[i], skill_plan()[i])
}

/// The toolkit section.
pub fn skills_section() -> (n: Node)
    ensures
        is_skills(n),
        links_safe(n),
{
    let mut sec = section("skills", "// 03", "Toolkit");
    let mut grid = styled(Tag::Div, SKILLS_GRID_STYLE);
    let data = skills();
    for i in 0..data.len()
        invariant
            data@.len() == skill_plan().len(),
            forall|k: int| 0 <= k < data@.len() ==> #[trigger] skill_view(data@[k]) == skill_plan()[k],
            has(grid, Tag::Div, None, None, Some(SKILLS_GRID_STYLE@)),
            no_link(grid),
            grid.content is Empty,
            grid.children@.len() == i,
            forall|k: int| 0 <= k < i ==> is_skill_card(#[trigger] grid.children@[k], skill_plan()[k]),
            forall|k: int| 0 <= k < i ==> links_safe(#[trigger] grid.children@[k]),
    {
        let card = skill_card(&data[i]);
        assert(skill_view(data@[i as int]) == skill_plan()[i as int]);
        grid.children.push(card);
    }
    assert(links_safe(grid));
    sec.children.push(grid);
    assert(links_safe(sec));
    sec
}

// ── Contact ──────────────────────────────────────────────────────────────

pub const CONTACT_GRID_STYLE: &'static str = "display:grid;grid-template-columns:1fr 1fr;gap:3rem;align-items:start;";
pub const CONTACT_COPY_STYLE: &'static str = "font-size:1.1rem;line-height:1.78;color:#8aabb8;max-width:38ch;\
         text-shadow:0 1px 10px rgba(5,7,13,.9);";
pub const CONTACT_HTML: &'static str = "Open to <b style=\"color:#c8dce8\">red team engagements</b>, consulting, \
         and collaborations on offensive security research.<br><br>\
         Reach out via GitHub or LinkedIn.";
pub const CONTACT_LINKS_STYLE: &'static str = "display:flex;flex-direction:column;gap:1rem;";
pub const CONTACT_LINK_STYLE: &'static str = "display:flex;align-items:center;gap:1rem;padding:1rem 1.5rem;\
             background:rgba(10,13,22,.9);border:1px solid rgba(255,255,255,.08);";
pub const CONTACT_ICON_STYLE: &'static str = "width:2.4rem;height:2.4rem;flex-shrink:0;display:flex;\
             align-items:center;justify-content:center;font-size:1.1rem;\
             border:1px solid rgba(0,255,231,.3);color:#00ffe7;";
pub const CONTACT_BODY_STYLE: &'static str = "display:flex;flex-direction:column;gap:.15rem;";
pub const CONTACT_LABEL_STYLE: &'static str = "font-size:.6rem;letter-spacing:.15em;color:#5a7080;";
pub const CONTACT_VALUE_STYLE: &'static str = "font-family:'Barlow Condensed',sans-serif;font-weight:700;\
             font-size:1rem;color:#fff;";
pub const CONTACT_ARROW_STYLE: &'static str = "margin-left:auto;color:#5a7080;";
pub const ARROW: &'static str = "\u{2192}";

/// An external profile.
pub struct Contact {
    pub icon: &'static str,
    pub label: &'static str,
    pub value: &'static str,
    pub url: &'static str,
}

/// A profile as character sequences.
pub struct ContactView {
    pub icon: Seq<char>,
    pub label: Seq<char>,
    pub value: Seq<char>,
    pub url: Seq<char>,
}

/// The characters of a profile.
pub open spec fn contact_view(c: Contact) -> ContactView {
    ContactView { icon: c.icon@, label: c.label@, value: c.value@, url: c.url@ }
}

/// The profiles, in order.
pub open spec fn contact_plan() -> Seq<ContactView> {
    seq![
        ContactView { icon: "\u{2B21}"@, label: "GITHUB"@, value: "ethanlacerenza"@,
            url: "https://github.com/ethanlacerenza"@ },
        ContactView { icon: "\u{25C8}"@, label: "LINKEDIN"@, value: "Ethan Lacerenza"@,
            url: "https://www.linkedin.com/in/ethan-lacerenza-2633421ab/"@ },
    ]
}

/// The profile data.
pub fn contacts() -> (r: Vec<Contact>)
    ensures
        r@.len() == contact_plan().len(),
        forall|i: int| 0 <= i < r@.len() ==> #[trigger] contact_view(r@[i]) == contact_plan()[i],
{
    let mut r: Vec<Contact> = Vec::new();
    r.push(Contact { icon: "\u{2B21}", label: "GITHUB", value: "ethanlacerenza",
        url: "https://github.com/ethanlacerenza" });
    r.push(Contact { icon: "\u{25C8}", label: "LINKEDIN", value: "Ethan Lacerenza",
        url: "https://www.linkedin.com/in/ethan-lacerenza-2633421ab/" });
    r
}

/// `n` is the link to profile `c`, opening in a new tab: the icon, the label
/// above the value, then an arrow.
pub open spec fn is_contact_link(n: Node, c: ContactView) -> bool {
    let icon = n.children@[0];
    let body = n.children@[1];
    let arrow = n.children@[2];
    &&& has(n, Tag::A, None, Some("eth-ct"@), Some(CONTACT_LINK_STYLE@)) && external_link(n, c.url)
    &&& n.content is Empty && n.children@.len() == 3
    &&& has(icon, Tag::Div, None, None, Some(CONTACT_ICON_STYLE@)) && no_link(icon)
    &&& text_leaf(icon, c.icon)
    &&& has(body, Tag::Div, None, None, Some(CONTACT_BODY_STYLE@)) && no_link(body)
    &&& body.content is Empty && body.children@.len() == 2
    &&& has(body.children@[0], Tag::Span, None, None, Some(CONTACT_LABEL_STYLE@)) && no_link(body.children@[0])
    &&& text_leaf(body.children@[0], c.label)
    &&& has(body.children@[1], Tag::Span, None, None, Some(CONTACT_VALUE_STYLE@)) && no_link(body.children@[1])
    &&& text_leaf(body.children@[1], c.value)
    &&& has(arrow, Tag::Span, None, None, Some(CONTACT_ARROW_STYLE@)) && no_link(arrow)
    &&& text_leaf(arrow, ARROW@)
}

/// The link to one profile.
pub fn contact_link(c: &Contact) -> (n: Node)
    ensures
        is_contact_link(n, contact_view(*c)),
        links_safe(n),
{
    let mut a = styled(Tag::A, CONTACT_LINK_STYLE);
    a.class = Some("eth-ct".to_owned());
    a.href = Some(c.url.to_owned());
    a.target = Some("_blank".to_owned());
    a.rel = Some("noopener".to_owned());
    a.children.push(styled_text(Tag::Div, CONTACT_ICON_STYLE, c.icon));
    let mut body = styled(Tag::Div, CONTACT_BODY_STYLE);
    body.children.push(styled_text(Tag::Span, CONTACT_LABEL_STYLE, c.label));
    body.children.push(styled_text(Tag::Span, CONTACT_VALUE_STYLE, c.value));
    assert(links_safe(body));
    a.children.push(body);
    a.children.push(styled_text(Tag::Span, CONTACT_ARROW_STYLE, ARROW));
    assert(links_safe(a));
    a
}

/// `n` is the contact section: the invitation on the left, one link per
/// entry of `contact_plan` on the right.
pub open spec fn is_contact(n: Node) -> bool {
    let grid = n.children@[1];
    let links = grid.children@[1];
    &&& is_section(n, "contact"@, "// 04"@, "Contact"@)
    &&& has(grid, Tag::Div, None, Some("eth-contact"@), Some(CONTACT_GRID_STYLE@)) && no_link(grid)
    &&& grid.content is Empty && grid.children@.len() == 2
    &&& has(grid.children@[0], Tag::P, None, None, Some(CONTACT_COPY_STYLE@)) && no_link(grid.children@[0])
    &&& markup_leaf(grid.children@[0], CONTACT_HTML@)
    &&& has(links, Tag::Div, None, None, Some(CONTACT_LINKS_STYLE@)) && no_link(links)
    &&& links.content is Empty && links.children@.len() == contact_plan().len()
    &&& forall|i: int| 0 <= i < contact_plan().len() ==>
        is_contact_link(#[trigger] links.children@[i], contact_plan()[i])
}

/// The contact section.
pub fn contact_section() -> (n: Node)
    ensures
        is_contact(n),
        links_safe(n),
{
    let mut sec = section("contact", "// 04", "Contact");
    let mut grid = styled(Tag::Div, CONTACT_GRID_STYLE);
    grid.class = Some("eth-contact".to_owned());
    grid.children.push(styled_markup(Tag::P, CONTACT_COPY_STYLE, CONTACT_HTML));
    let mut links = styled(Tag::Div, CONTACT_LINKS_STYLE);
    let data = contacts();
    for i in 0..data.len()
        invariant
            data@.len() == contact_plan().len(),
            forall|k: int| 0 <= k < data@.len() ==> #[trigger] contact_view(data@[k]) == contact_plan()[k],
            has(links, Tag::Div, None, None, Some(CONTACT_LINKS_STYLE@)),
            no_link(links),
            links.content is Empty,
            links.children@.len() == i,
            forall|k: int| 0 <= k < i ==> is_contact_link(#[trigger] links.children@[k], contact_plan()[k]),
            forall|k: int| 0 <= k < i ==> links_safe(#[trigger] links.children@[k]),
    {
        let link = contact_link(&data[i]);
        assert(contact_view(data@[i as int]) == contact_plan()[i as int]);
        links.children.push(link);
    }
    assert(links_safe(links));
    grid.children.push(links);
    assert(links_safe(grid));
    sec.children.push(grid);
    assert(links_safe(sec));
    sec
}

// ── Whole page ───────────────────────────────────────────────────────────

pub const SHEET_STYLE: &'static str = "background:linear-gradient(180deg,transparent,rgba(5,7,13,.9) 4%,rgba(5,7,13,.9) 96%,transparent);\
         backdrop-filter:blur(9px);";

/// `n` is the page root: the navigation bar, the hero, the translucent
/// sheet holding the about, projects, toolkit and contact sections in that
/// order, and the footer.
pub open spec fn is_root(n: Node) -> bool {
    let sheet = n.children@[2];
    &&& has(n, Tag::Div, Some("eth-root"@), None, None) && no_link(n)
    &&& n.content is Empty && n.children@.len() == 4
    &&& is_nav(n.children@[0])
    &&& is_hero(n.children@[1])
    &&& has(sheet, Tag::Div, None, None, Some(SHEET_STYLE@)) && no_link(sheet)
    &&& sheet.content is Empty && sheet.children@.len() == 4
    &&& is_about(sheet.children@[0])
    &&& is_projects(sheet.children@[1])
    &&& is_skills(sheet.children@[2])
    &&& is_contact(sheet.children@[3])
    &&& is_footer(n.children@[3])
}

/// The root element of the page, appended to the body.
pub fn root() -> (n: Node)
    ensures
        is_root(n),
        links_safe(n),
{
    let mut root = element(Tag::Div);
    root.id = Some("eth-root".to_owned());
    root.children.push(nav());
    root.children.push(hero());
    let mut sheet = styled(Tag::Div, SHEET_STYLE);
    sheet.children.push(about_section());
    sheet.children.push(projects_section());
    sheet.children.push(skills_section());
    sheet.children.push(contact_section());
    assert(links_safe(sheet));
    root.children.push(sheet);
    root.children.push(footer());
    assert(links_safe(root));
    root
}

/// What the page adds to the document: elements appended to the head, then
/// elements appended to the body, each in order.
pub struct Page {
    pub head: Vec<Node>,
    pub body: Vec<Node>,
}

/// `p` adds the global stylesheet to the head, and the page root followed
/// by the reveal script to the body.
pub open spec fn is_page(p: Page) -> bool {
    &&& p.head@.len() == 1
    &&& has(p.head@[0], Tag::Style, None, None, None) && no_link(p.head@[0])
    &&& text_leaf(p.head@[0], GLOBAL_CSS@)
    &&& p.body@.len() == 2
    &&& is_root(p.body@[0])
    &&& has(p.body@[1], Tag::Script, None, None, None) && no_link(p.body@[1])
    &&& text_leaf(p.body@[1], REVEAL_SCRIPT@)
}

/// Every element of the page that opens a new tab denies it a handle on
/// the page.
pub open spec fn page_links_safe(p: Page) -> bool {
    &&& forall|i: int| 0 <= i < p.head@.len() ==> links_safe(#[trigger] p.head@[i])
    &&& forall|i: int| 0 <= i < p.body@.len() ==> links_safe(#[trigger] p.body@[i])
}

/// The whole page.
pub fn page() -> (p: Page)
    ensures
        is_page(p),
        page_links_safe(p),
{
    let mut head: Vec<Node> = Vec::new();
    head.push(stylesheet());
    let mut body: Vec<Node> = Vec::new();
    body.push(root());
    body.push(reveal_script());
    Page { head, body }
}

/// Each link of the navigation bar points, as `#id`, at the section of the
/// sheet in the same position, and there is one link per section.
pub open spec fn nav_anchors_resolve(root: Node) -> bool {
    let links = root.children@[0].children@[1].children@;
    let sections = root.children@[2].children@;
    &&& links.len() == sections.len()
    &&& forall|i: int| 0 <= i < sections.len() ==> match opt(#[trigger] sections[i].id) {
        Some(id) => opt(links[i].href) == Some("#"@ + id),
        None => false,
    }
}

/// Every in-page link of the navigation bar reaches a section of the page.
pub proof fn lemma_nav_anchors_resolve(root: Node)
    requires
        is_root(root),
    ensures
        nav_anchors_resolve(root),
{
    reveal_strlit("#");
    reveal_strlit("#about");
    reveal_strlit("about");
    reveal_strlit("#projects");
    reveal_strlit("projects");
    reveal_strlit("#skills");
    reveal_strlit("skills");
    reveal_strlit("#contact");
    reveal_strlit("contact");
    let links = root.children@[0].children@[1].children@;
    let sections = root.children@[2].children@;
    assert(is_nav_link(links[0], nav_plan()[0].0, nav_plan()[0].1));
    assert(is_nav_link(links[1], nav_plan()[1].0, nav_plan()[1].1));
    assert(is_nav_link(links[2], nav_plan()[2].0, nav_plan()[2].1));
    assert(is_nav_link(links[3], nav_plan()[3].0, nav_plan()[3].1));
    assert("#about"@ =~= "#"@ + "about"@);
    assert("#projects"@ =~= "#"@ + "projects"@);
    assert("#skills"@ =~= "#"@ + "skills"@);
    assert("#contact"@ =~= "#"@ + "contact"@);
}

// ── Laws of the page ─────────────────────────────────────────────────────

/// The plain text an element shows, or the empty sequence when it holds no
/// plain text.
pub open spec fn shown_text(n: Node) -> Seq<char> {
    match n.content {
        Content::Text(t) => t@,
        _ => Seq::empty(),
    }
}

/// `n` holds the markup fragment `m`, set as inner HTML.
pub open spec fn holds_markup(n: Node, m: Seq<char>) -> bool {
    n.content matches Content::Markup(s) && s@ == m
}

/// The icon of a skill card is outlined and drawn in the skill's accent
/// colour `c`, whatever it is: the style is the fixed box layout, which ends
/// in `border:1px solid `, followed directly by `c`, and it ends with the
/// declaration `;color:` `c` `;`. Border and glyph thus always share the
/// accent colour.
pub proof fn lemma_icon_in_accent_colour(c: Seq<char>)
    ensures
        ({
            let st = skill_icon_style(c);
            let h = SKILL_ICON_STYLE_HEAD@.len() as int;
            &&& h >= 17
            &&& SKILL_ICON_STYLE_HEAD@.subrange(h - 17, h) == "border:1px solid "@
            &&& st.len() == h + 2 * c.len() + 8
            &&& st.subrange(0, h) == SKILL_ICON_STYLE_HEAD@
            &&& st.subrange(h, h + c.len()) == c
            &&& st.subrange(st.len() - (c.len() + 8), st.len() as int) == ";color:"@ + c + ";"@
        }),
{
    reveal_strlit("border:1px solid ");
    reveal_strlit(";color:");
    reveal_strlit(";");
    reveal_strlit("width:2.6rem;height:2.6rem;flex-shrink:0;display:flex;\
                      align-items:center;justify-content:center;font-size:1rem;\
                      border:1px solid ");
    let st = skill_icon_style(c);
    let h = SKILL_ICON_STYLE_HEAD@.len() as int;
    assert(SKILL_ICON_STYLE_HEAD@.subrange(h - 17, h) =~= "border:1px solid "@);
    assert(st.subrange(0, h) =~= SKILL_ICON_STYLE_HEAD@);
    assert(st.subrange(h, h + c.len()) =~= c);
    assert(st.subrange(st.len() - (c.len() + 8), st.len() as int) =~= ";color:"@ + c + ";"@);
}

/// Every skill card shows its icon in the skill's own accent colour: the
/// icon style carries the colour of the skill it was built for.
pub proof fn lemma_skill_icon_colour(n: Node, s: SkillView)
    requires
        is_skill_card(n, s),
    ensures
        opt(n.children@[0].style) == Some(skill_icon_style(s.color)),
        shown_text(n.children@[0]) == s.icon,
{
    lemma_icon_in_accent_colour(s.color);
}

/// A project card shows a badge exactly when the project's badge text is
/// not empty, independently of its url, and the badge shows that text; it
/// ends with a link exactly when the url is not empty, independently of its
/// badge, and that link goes to the url in a new tab without a handle on the
/// page.
pub proof fn lemma_project_card_badge_and_link(n: Node, p: ProjectView)
    requires
        is_project_card(n, p),
    ensures
        (n.children@[0].children@.len() == 2) <==> p.badge.len() > 0,
        n.children@[0].children@.len() == 1 || n.children@[0].children@.len() == 2,
        shown_text(n.children@[0].children@[0]) == p.name,
        p.badge.len() > 0 ==> shown_text(n.children@[0].children@[1]) == p.badge,
        (n.children@.len() == 4) <==> p.url.len() > 0,
        n.children@.len() == 3 || n.children@.len() == 4,
        p.url.len() > 0 ==> n.children@[3].tag == Tag::A && opt(n.children@[3].href) == Some(p.url)
            && opt(n.children@[3].target) == Some("_blank"@) && opt(n.children@[3].rel) == Some("noopener"@),
{
}

/// The two contact links open the profile they name: the one labelled
/// `GITHUB` goes to `https://github.com/` followed by the handle it shows,
/// the one labelled `LINKEDIN` to a page under `https://www.linkedin.com/in/`,
/// and the two go to different places.
pub proof fn lemma_contact_links_reach_their_profile(n: Node)
    requires
        is_contact(n),
    ensures
        ({
            let links = n.children@[1].children@[1].children@;
            &&& links.len() == 2
            &&& shown_text(links[0].children@[1].children@[0]) == "GITHUB"@
            &&& shown_text(links[1].children@[1].children@[0]) == "LINKEDIN"@
            &&& opt(links[0].href) != opt(links[1].href)
            &&& forall|i: int| 0 <= i < 2 ==> {
                let label = shown_text(#[trigger] links[i].children@[1].children@[0]);
                let value = shown_text(links[i].children@[1].children@[1]);
                &&& label == "GITHUB"@ ==> opt(links[i].href) == Some("https://github.com/"@ + value)
                &&& label == "LINKEDIN"@ ==> (opt(links[i].href) matches Some(u)
                    && "https://www.linkedin.com/in/"@.is_prefix_of(u))
            }
        }),
{
    reveal_strlit("GITHUB");
    reveal_strlit("LINKEDIN");
    reveal_strlit("https://github.com/");
    reveal_strlit("ethanlacerenza");
    reveal_strlit("https://github.com/ethanlacerenza");
    reveal_strlit("https://www.linkedin.com/in/");
    reveal_strlit("https://www.linkedin.com/in/ethan-lacerenza-2633421ab/");
    let links = n.children@[1].children@[1].children@;
    assert(is_contact_link(links[0], contact_plan()[0]));
    assert(is_contact_link(links[1], contact_plan()[1]));
    assert("https://github.com/ethanlacerenza"@ =~= "https://github.com/"@ + "ethanlacerenza"@);
    assert("https://www.linkedin.com/in/"@ =~= "https://www.linkedin.com/in/ethan-lacerenza-2633421ab/"@.subrange(0, 28));
    assert("GITHUB"@.len() != "LINKEDIN"@.len());
    assert("https://github.com/ethanlacerenza"@.len()
        != "https://www.linkedin.com/in/ethan-lacerenza-2633421ab/"@.len());
}

/// The fragments of markup that carry tags are set as inner HTML, so the
/// reader sees them rendered rather than their raw tags: the biography of
/// the about section holds `BIO_HTML` as markup, and that fragment contains
/// the tag opener `<`.
pub proof fn lemma_about_bio_is_markup(n: Node)
    requires
        is_about(n),
    ensures
        holds_markup(n.children@[1].children@[0].children@[0], BIO_HTML@),
        BIO_HTML@.contains('<'),
{
    reveal_strlit("I'm <b style=\"color:#00ffe7\">Ethan Lacerenza</b>, aka \
         <b style=\"color:#00ffe7\">eth3rn5l</b> — an offensive security \
         researcher and red teamer focused on structured, repeatable attack \
         methodologies.<br><br>I build tools and mindmaps that turn chaotic \
         pentesting knowledge into clean, actionable flows. My work sits at the \
         intersection of <b style=\"color:#00ffe7\">offensive security</b>, \
         <b style=\"color:#00ffe7\">open source</b>, and the belief that good \
         documentation is itself a weapon.");
    assert(BIO_HTML@[4] == '<');
}

/// The three lines of the hero (eyebrow, name, subtitle) are set as inner
/// HTML, and each of those fragments contains the tag opener `<`.
pub proof fn lemma_hero_lines_are_markup(n: Node)
    requires
        is_hero(n),
    ensures
        holds_markup(n.children@[0], EYEBROW_HTML@),
        holds_markup(n.children@[1], HERO_NAME_HTML@),
        holds_markup(n.children@[2], HERO_SUB_HTML@),
        EYEBROW_HTML@.contains('<'),
        HERO_NAME_HTML@.contains('<'),
        HERO_SUB_HTML@.contains('<'),
{
    reveal_strlit("<span style=\"color:#ff2f6e\">\u{2014}</span> \
         offensive security // red team // open source");
    reveal_strlit("ETH3RN5L<br><span style=\"color:#ff2f6e;font-style:italic;\
         text-shadow:0 0 55px rgba(255,47,110,.55)\">ETHAN</span>");
    reveal_strlit("<span>LACERENZA</span><span style=\"opacity:.3\">/</span>\
         <span>PENTESTER</span><span style=\"opacity:.3\">/</span>\
         <span>RED TEAMER<span style=\"animation:ethBlink .9s step-end infinite\">_</span></span>");
    assert(EYEBROW_HTML@[0] == '<');
    assert(HERO_NAME_HTML@[8] == '<');
    assert(HERO_SUB_HTML@[0] == '<');
}

/// The remaining markup of the page is set as inner HTML as well: the brand
/// of the navigation bar and the invitation of the contact section.
pub proof fn lemma_nav_and_contact_markup(root: Node)
    requires
        is_root(root),
    ensures
        holds_markup(root.children@[0].children@[0], BRAND_HTML@),
        holds_markup(root.children@[2].children@[3].children@[1].children@[0], CONTACT_HTML@),
        BRAND_HTML@.contains('<'),
        CONTACT_HTML@.contains('<'),
{
    reveal_strlit("<span style=\"color:#4a6070\">//</span> \
         <span style=\"color:#39ff14\">eth3rn5l</span>\
         <span style=\"color:#4a6070\">.dev</span>");
    reveal_strlit("Open to <b style=\"color:#c8dce8\">red team engagements</b>, consulting, \
         and collaborations on offensive security research.<br><br>\
         Reach out via GitHub or LinkedIn.");
    assert(BRAND_HTML@[0] == '<');
    assert(CONTACT_HTML@[8] == '<');
}

/// The projects that link somewhere link into the GitHub profile that the
/// contact section lists: every non-empty project url starts with it.
pub proof fn lemma_project_links_under_profile()
    ensures
        forall|i: int| 0 <= i < project_plan().len() && (#[trigger] project_plan()[i]).url.len() > 0
            ==> contact_plan()[0].url.is_prefix_of(project_plan()[i].url),
        contact_plan()[0].label == "GITHUB"@,
{
    reveal_strlit("https://github.com/ethanlacerenza");
    reveal_strlit("https://github.com/ethanlacerenza/Gh0stFl0w");
    reveal_strlit("");
    assert(contact_plan()[0].url.is_prefix_of(project_plan()[0].url));
    assert(contact_plan()[0].url.is_prefix_of(project_plan()[4].url));
}

/// Only the flagship project, the first one, carries a badge, and the first
/// stat card names that same project.
pub proof fn lemma_flagship_project()
    ensures
        project_plan()[0].badge.len() > 0,
        forall|i: int| 1 <= i < project_plan().len() ==> (#[trigger] project_plan()[i]).badge.len() == 0,
        stat_plan()[0].0 == project_plan()[0].name,
{
    reveal_strlit("\u{2605} 7");
    reveal_strlit("");
}

/// The upper-case form of an ASCII letter; other characters are unchanged.
pub open spec fn ascii_upper(c: char) -> char {
    if 'a' <= c && c <= 'z' {
        ((c as u32) - 32) as char
    } else {
        c
    }
}

/// Each entry of the navigation bar is labelled with the name of the
/// section it jumps to, in capitals: the label is the anchor without its
/// leading `#`, upper-cased.
pub proof fn lemma_nav_labels_name_their_anchor()
    ensures
        forall|i: int| 0 <= i < nav_plan().len() ==> {
            let (href, label) = #[trigger] nav_plan()[i];
            &&& href.len() > 0 && href[0] == '#'
            &&& label.len() + 1 == href.len()
            &&& forall|k: int| 0 <= k < label.len() ==> #[trigger] label[k] == ascii_upper(href[k + 1])
        },
{
    reveal_strlit("#about");
    reveal_strlit("ABOUT");
    reveal_strlit("#projects");
    reveal_strlit("PROJECTS");
    reveal_strlit("#skills");
    reveal_strlit("SKILLS");
    reveal_strlit("#contact");
    reveal_strlit("CONTACT");
}

} // verus!
