use eth3rn5l_portfolio::dom::{element, styled, Content, Node, Tag};
use eth3rn5l_portfolio::page::{
    about_section, contact_link, contacts, footer, hero, icon_style, nav, nav_entries, page,
    pill_labels, project_card, projects, projects_section, reveal_script, root, section_header,
    skill_card, skills, skills_section, stats, stylesheet, contact_section, GLOBAL_CSS,
    REVEAL_SCRIPT, SKILL_ICON_STYLE_HEAD,
};

fn text(n: &Node) -> &str {
    match &n.content {
        Content::Text(s) => s.as_str(),
        _ => panic!("not a text node"),
    }
}

fn markup(n: &Node) -> &str {
    match &n.content {
        Content::Markup(s) => s.as_str(),
        _ => panic!("not a markup node"),
    }
}

fn s(o: &Option<String>) -> Option<&str> {
    o.as_deref()
}

fn all_links_safe(n: &Node) -> bool {
    (s(&n.target) != Some("_blank") || s(&n.rel) == Some("noopener"))
        && n.children.iter().all(all_links_safe)
}

fn count_blank(n: &Node) -> usize {
    (s(&n.target) == Some("_blank")) as usize + n.children.iter().map(count_blank).sum::<usize>()
}

#[test]
fn tag_names() {
    let all = [
        (Tag::Style, "style"),
        (Tag::Script, "script"),
        (Tag::Div, "div"),
        (Tag::Nav, "nav"),
        (Tag::Span, "span"),
        (Tag::A, "a"),
        (Tag::Section, "section"),
        (Tag::P, "p"),
        (Tag::H1, "h1"),
        (Tag::H2, "h2"),
        (Tag::Footer, "footer"),
    ];
    for (t, name) in all {
        assert_eq!(t.name(), name);
    }
}

#[test]
fn element_is_bare_and_styled_has_only_style() {
    let e = element(Tag::Span);
    assert_eq!(e.tag, Tag::Span);
    assert!(e.id.is_none() && e.class.is_none() && e.style.is_none() && e.href.is_none());
    assert!(matches!(e.content, Content::Empty) && e.children.is_empty());
    let st = styled(Tag::Div, "color:red;");
    assert_eq!(s(&st.style), Some("color:red;"));
    assert!(st.class.is_none() && st.children.is_empty());
}

#[test]
fn head_and_body_elements() {
    let p = page();
    assert_eq!(p.head.len(), 1);
    assert_eq!(p.head[0].tag, Tag::Style);
    assert_eq!(text(&p.head[0]), GLOBAL_CSS);
    assert_eq!(p.body.len(), 2);
    assert_eq!(s(&p.body[0].id), Some("eth-root"));
    assert_eq!(p.body[1].tag, Tag::Script);
    assert_eq!(text(&p.body[1]), REVEAL_SCRIPT);
}

#[test]
fn stylesheet_and_script_texts() {
    let css = stylesheet();
    assert!(text(&css).starts_with("@import url(\"https://fonts.googleapis.com/css2?"));
    assert!(text(&css).contains("@keyframes ethReveal"));
    let js = reveal_script();
    assert!(text(&js).contains("document.querySelectorAll('.eth-card')"));
}

#[test]
fn nav_links_point_at_sections_in_order() {
    let r = root();
    let links = &r.children[0].children[1].children;
    let sections = &r.children[2].children;
    assert_eq!(links.len(), 4);
    assert_eq!(sections.len(), 4);
    for (link, sec) in links.iter().zip(sections.iter()) {
        let id = s(&sec.id).unwrap();
        assert_eq!(s(&link.href).unwrap(), format!("#{}", id));
    }
    let labels: Vec<&str> = links.iter().map(text).collect();
    assert_eq!(labels, vec!["ABOUT", "PROJECTS", "SKILLS", "CONTACT"]);
}

#[test]
fn nav_structure() {
    let n = nav();
    assert_eq!(n.tag, Tag::Nav);
    assert_eq!(s(&n.class), Some("eth-nav"));
    assert_eq!(n.children.len(), 3);
    assert!(markup(&n.children[0]).contains("eth3rn5l"));
    assert_eq!(s(&n.children[1].class), Some("eth-nav-links"));
    assert_eq!(text(&n.children[2].children[1]), "available");
    let e = nav_entries();
    assert_eq!(e.len(), 4);
    assert_eq!((e[2].href, e[2].label), ("#skills", "SKILLS"));
}

#[test]
fn hero_has_name_and_subtitle() {
    let h = hero();
    assert_eq!(h.tag, Tag::Section);
    assert_eq!(h.children.len(), 3);
    assert_eq!(h.children[1].tag, Tag::H1);
    assert!(markup(&h.children[1]).starts_with("ETH3RN5L<br>"));
    assert!(markup(&h.children[2]).contains("PENTESTER"));
}

#[test]
fn section_header_number_and_title() {
    let h = section_header("// 07", "Extra");
    assert_eq!(h.children.len(), 2);
    assert_eq!(text(&h.children[0].children[0]), "// 07");
    assert_eq!(h.children[0].children[1].tag, Tag::H2);
    assert_eq!(text(&h.children[0].children[1]), "Extra");
}

#[test]
fn section_ids_and_headers() {
    let r = root();
    let expected = [
        ("about", "// 01", "About"),
        ("projects", "// 02", "Projects"),
        ("skills", "// 03", "Toolkit"),
        ("contact", "// 04", "Contact"),
    ];
    for (sec, (id, num, title)) in r.children[2].children.iter().zip(expected) {
        assert_eq!(sec.tag, Tag::Section);
        assert_eq!(s(&sec.id), Some(id));
        let meta = &sec.children[0].children[0];
        assert_eq!(text(&meta.children[0]), num);
        assert_eq!(text(&meta.children[1]), title);
    }
}

#[test]
fn about_has_pills_and_stats() {
    let a = about_section();
    let grid = &a.children[1];
    assert_eq!(s(&grid.class), Some("eth-about"));
    let pills: Vec<&str> = grid.children[0].children[1].children.iter().map(text).collect();
    assert_eq!(
        pills,
        vec![
            "OSCP mindset",
            "Red Team",
            "OSINT",
            "Privilege Escalation",
            "Lateral Movement",
            "Post-Exploitation",
            "Mindmapping"
        ]
    );
    assert_eq!(pill_labels().len(), 7);
    let st = &grid.children[1].children;
    assert_eq!(st.len(), 3);
    assert_eq!(s(&st[0].class), Some("eth-card"));
    assert_eq!(text(&st[0].children[0]), "Gh0stFl0w");
    assert_eq!(text(&st[1].children[1]), "pentest phases mapped");
    assert_eq!(stats()[2].value, "MIT");
}

#[test]
fn first_project_has_badge_and_link() {
    let data = projects();
    assert_eq!(data.len(), 5);
    let card = project_card(&data[0]);
    assert_eq!(card.children.len(), 4);
    let top = &card.children[0];
    assert_eq!(top.children.len(), 2);
    assert_eq!(text(&top.children[0]), "Gh0stFl0w");
    assert_eq!(text(&top.children[1]), "\u{2605} 7");
    let tags: Vec<&str> = card.children[2].children.iter().map(text).collect();
    assert_eq!(tags, vec!["Pentesting", "Mindmap", "Recon", "PrivEsc"]);
    let a = &card.children[3];
    assert_eq!(a.tag, Tag::A);
    assert_eq!(s(&a.href), Some("https://github.com/ethanlacerenza/Gh0stFl0w"));
    assert_eq!(s(&a.target), Some("_blank"));
    assert_eq!(s(&a.rel), Some("noopener"));
    assert_eq!(text(a), "View on GitHub \u{2192}");
}

#[test]
fn project_without_url_or_badge_has_no_link_or_badge() {
    let data = projects();
    let card = project_card(&data[1]);
    assert_eq!(card.children.len(), 3);
    assert_eq!(card.children[0].children.len(), 1);
    assert_eq!(text(&card.children[0].children[0]), "File Transfer Methodology");
    let tags: Vec<&str> = card.children[2].children.iter().map(text).collect();
    assert_eq!(tags, vec!["Exfiltration", "OPSEC", "Post-Exploit"]);
    assert!(card.children.iter().all(|c| c.tag != Tag::A));
}

#[test]
fn project_grid_links() {
    let sec = projects_section();
    let cards = &sec.children[1].children;
    assert_eq!(cards.len(), 5);
    let with_link: Vec<usize> = cards
        .iter()
        .enumerate()
        .filter(|(_, c)| c.children.len() == 4)
        .map(|(i, _)| i)
        .collect();
    assert_eq!(with_link, vec![0, 4]);
    assert_eq!(s(&cards[4].children[3].href), Some("https://github.com/ethanlacerenza"));
    assert_eq!(text(&cards[4].children[1]), "Something new is being built. Watch the repo.");
}

#[test]
fn skill_icon_takes_accent_colour() {
    assert_eq!(
        icon_style("#b700ff"),
        "width:2.6rem;height:2.6rem;flex-shrink:0;display:flex;align-items:center;justify-content:center;font-size:1rem;border:1px solid #b700ff;color:#b700ff;"
    );
    assert_eq!(icon_style("#b700ff"), format!("{}#b700ff;color:#b700ff;", SKILL_ICON_STYLE_HEAD));
}

#[test]
fn skill_cards() {
    let data = skills();
    assert_eq!(data.len(), 8);
    let card = skill_card(&data[4]);
    assert_eq!(s(&card.class), Some("eth-card"));
    assert_eq!(text(&card.children[0]), "\u{25C9}");
    assert_eq!(s(&card.children[0].style).unwrap(), icon_style("#39ff14"));
    assert_eq!(text(&card.children[1].children[0]), "Post-Exploitation");
    assert_eq!(text(&card.children[1].children[1]), "persistence · exfil");
    let sec = skills_section();
    assert_eq!(sec.children[1].children.len(), 8);
}

#[test]
fn contact_links_open_safely() {
    let data = contacts();
    assert_eq!(data.len(), 2);
    let a = contact_link(&data[1]);
    assert_eq!(a.tag, Tag::A);
    assert_eq!(s(&a.class), Some("eth-ct"));
    assert_eq!(s(&a.href), Some("https://www.linkedin.com/in/ethan-lacerenza-2633421ab/"));
    assert_eq!(s(&a.target), Some("_blank"));
    assert_eq!(s(&a.rel), Some("noopener"));
    assert_eq!(text(&a.children[1].children[0]), "LINKEDIN");
    assert_eq!(text(&a.children[1].children[1]), "Ethan Lacerenza");
    assert_eq!(text(&a.children[2]), "\u{2192}");
    let sec = contact_section();
    assert_eq!(s(&sec.children[1].class), Some("eth-contact"));
    assert_eq!(sec.children[1].children[1].children.len(), 2);
}

#[test]
fn footer_texts() {
    let f = footer();
    assert_eq!(f.tag, Tag::Footer);
    assert_eq!(text(&f.children[0]), "\u{25B6} ETH3RN5L // OFFENSIVE SECURITY");
    assert_eq!(text(&f.children[1]), "ethanlacerenza.github.io");
}

#[test]
fn every_new_tab_link_is_noopener() {
    let p = page();
    assert!(p.head.iter().all(all_links_safe));
    assert!(p.body.iter().all(all_links_safe));
    assert_eq!(count_blank(&p.body[0]), 4);
}
