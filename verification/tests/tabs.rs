use gem::address::Url;
use gem::cfg::{ColorParams, Config, Rgb};
use gem::doc::GemDoc;
use gem::gemtext::{GemTextLine, Heading};
use gem::msg::{Focus, Key, ViewMsg};
use gem::screen::{DataScreen, Screen};
use gem::status::{parse_status, PermanentFailure, Status};
use gem::tab::Tab;
use gem::tabs::TabServer;

fn screen() -> DataScreen {
    DataScreen::new(&Screen::origin(20, 6), 2, 1)
}

fn tab(address: &str) -> Tab {
    Tab::new(&screen(), Url::parse(address).unwrap())
}

fn three() -> TabServer {
    let mut tabs = TabServer::new(&screen(), tab("gemini://a/"));
    tabs.open(tab("gemini://b/"));
    tabs.open(tab("gemini://c/"));
    tabs
}

fn addresses(tabs: &TabServer) -> Vec<String> {
    tabs.tabs.iter().map(|t| t.url.as_str().to_string()).collect()
}

#[test]
fn opening_a_tab_shows_it() {
    let tabs = three();
    assert_eq!(tabs.curindex, 2);
    assert_eq!(addresses(&tabs), vec!["gemini://a/", "gemini://b/", "gemini://c/"]);
    assert_eq!(tabs.focus, Focus::Tab);
}

#[test]
fn cycling_goes_round() {
    let cfg = Config::default();
    let mut tabs = three();
    assert_eq!(tabs.update(&Key::Char('N'), &cfg), Some(ViewMsg::CycleRight));
    assert_eq!(tabs.curindex, 0);
    assert_eq!(tabs.update(&Key::Char('N'), &cfg), Some(ViewMsg::CycleRight));
    assert_eq!(tabs.curindex, 1);
    assert_eq!(tabs.update(&Key::Char('E'), &cfg), Some(ViewMsg::CycleLeft));
    assert_eq!(tabs.update(&Key::Char('E'), &cfg), Some(ViewMsg::CycleLeft));
    assert_eq!(tabs.curindex, 2);
}

#[test]
fn deleting_shows_the_last_tab() {
    let cfg = Config::default();
    let mut tabs = three();
    tabs.process_view_msg(&ViewMsg::CycleRight);
    assert_eq!(tabs.update(&Key::Char('v'), &cfg), Some(ViewMsg::Default));
    assert_eq!(tabs.update(&Key::Char('y'), &cfg), Some(ViewMsg::DeleteMe));
    assert_eq!(addresses(&tabs), vec!["gemini://b/", "gemini://c/"]);
    assert_eq!(tabs.curindex, 1);
}

#[test]
fn the_last_tab_is_not_deleted() {
    let mut tabs = TabServer::new(&screen(), tab("gemini://a/"));
    tabs.process_view_msg(&ViewMsg::DeleteMe);
    assert_eq!(addresses(&tabs), vec!["gemini://a/"]);
    assert_eq!(tabs.curindex, 0);
    tabs.process_view_msg(&ViewMsg::CycleLeft);
    assert_eq!(tabs.curindex, 0);
    tabs.process_view_msg(&ViewMsg::CycleRight);
    assert_eq!(tabs.curindex, 0);
    tabs.process_view_msg(&ViewMsg::Go("gemini://x/".to_string()));
    assert_eq!(addresses(&tabs), vec!["gemini://a/"]);
}

#[test]
fn the_global_key_takes_the_keys_from_the_tabs() {
    let cfg = Config::default();
    let mut tabs = three();
    assert_eq!(tabs.update(&Key::Char('g'), &cfg), Some(ViewMsg::Global));
    assert_eq!(tabs.focus, Focus::Global);
    assert_eq!(tabs.update(&Key::Char('N'), &cfg), None);
    assert_eq!(tabs.curindex, 2);
    assert_eq!(tabs.update(&Key::Char('c'), &cfg), Some(ViewMsg::ReloadConfig));
    assert_eq!(tabs.focus, Focus::Tab);
    tabs.update(&Key::Char('g'), &cfg);
    assert_eq!(tabs.update(&Key::Char('t'), &cfg), Some(ViewMsg::Default));
    assert_eq!(tabs.focus, Focus::Tab);
    tabs.update(&Key::Char('g'), &cfg);
    assert_eq!(tabs.update(&Key::Esc, &cfg), Some(ViewMsg::Default));
    assert_eq!(tabs.focus, Focus::Tab);
}

#[test]
fn resize_reaches_every_tab() {
    let mut tabs = three();
    let scr = DataScreen::new(&Screen::origin(40, 10), 2, 1);
    tabs.resize(&scr);
    assert_eq!(tabs.scr, scr);
    assert!(tabs.tabs.iter().all(|t| t.scr == scr && t.reader.doc.scr == scr));
    assert_eq!(tabs.curindex, 2);
}

#[test]
fn banner() {
    let url = Url::parse("gemini://h/x").unwrap();
    assert_eq!(TabServer::bannerstr(0, 1, &url), "1/1: gemini://h/x");
    assert_eq!(TabServer::bannerstr(9, 120, &url), "10/120: gemini://h/x");
    assert_eq!(TabServer::bannerstr(0, 0, &url), "1/0: gemini://h/x");
    assert_eq!(TabServer::bannerline(5), "-----");
    assert_eq!(TabServer::bannerline(0), "");
}

#[test]
fn document_of_a_response() {
    let url = Url::parse("gemini://h/").unwrap();
    let doc = GemDoc::new(url.clone(), parse_status("20 text/gemini"), "# Hi\n");
    assert_eq!(doc.doc, vec![GemTextLine::Heading(Heading::One("Hi".to_string()))]);
    assert_eq!(doc.url, url);
    let doc = GemDoc::new(url.clone(), parse_status("51 gone away"), "# Hi\n");
    assert_eq!(
        doc.status,
        Status::PermanentFailure(PermanentFailure::NotFound, "gone away".to_string())
    );
    assert_eq!(doc.doc, vec![GemTextLine::Text("Permanent failure: gone away".to_string())]);
    let mut colors = ColorParams::default();
    colors.text = Rgb(9, 9, 9);
    let shown = colors.from_gem_doc(&doc);
    assert_eq!(shown.len(), 1);
    assert_eq!(shown[0].color, Rgb(9, 9, 9));
    assert_eq!(shown[0].text, "Permanent failure: gone away");
    assert!(shown[0].wrap);
}
