use gem::address::Url;
use gem::cfg::{
    ColorParams, Config, DialogKeyParams, FormatParams, KeyParams, Rgb, TabKeyParams,
};
use gem::client::{read_response, NetworkError};
use gem::dialog::{Dialog, InputType};
use gem::editor::Editor;
use gem::gemtext::{parse_doc, GemTextLine, Heading, Scheme};
use gem::msg::{Action, InputMsg, Key, ViewMsg};
use gem::pos::{Pos, PosCol, TextDim};
use gem::reader::{wrap_list, DisplayDoc, DisplayText, Reader};
use gem::screen::{DataScreen, Screen};
use gem::status::{Input, Status};
use gem::tab::{
    command, describe_line, describe_status, display_lines, line_text, text_type, Command, Tab,
};

fn screen() -> DataScreen {
    DataScreen::new(&Screen::origin(20, 6), 2, 1)
}

fn url(s: &str) -> Url {
    Url::parse(s).unwrap()
}

fn fetched(response: &str) -> Result<(Status, String), NetworkError> {
    read_response(&response.as_bytes().to_vec())
}

fn browsing(body: &str) -> Tab {
    let cfg = Config::default();
    let mut tab = Tab::new(&screen(), url("gemini://h/"));
    tab.load(url("gemini://h/"), fetched(&format!("20 text/gemini\r\n{}", body)), &cfg);
    tab
}

#[test]
fn defaults() {
    let cfg = Config::default();
    assert_eq!(cfg.init_url, "gemini://datapulp.smol.pub/");
    assert_eq!(cfg.scroll_at, 3);
    assert_eq!(cfg.keys, KeyParams::default());
    assert_eq!(cfg.format, FormatParams::default());
    assert_eq!(cfg.colors, ColorParams::default());
    assert_eq!(DialogKeyParams::default(), DialogKeyParams { ack: 'y', yes: 'y', no: 'n' });
    let keys = KeyParams::default();
    assert_eq!((keys.global, keys.load_cfg, keys.msg_view, keys.tab_view), ('g', 'c', 'm', 't'));
    assert_eq!(keys.tab, TabKeyParams::default());
    let tab = TabKeyParams::default();
    assert_eq!((tab.move_up, tab.move_down, tab.move_left, tab.move_right), ('o', 'i', 'e', 'n'));
    assert_eq!((tab.cycle_left, tab.cycle_right), ('E', 'N'));
    assert_eq!((tab.inspect, tab.delete_tab, tab.new_tab), ('w', 'v', 'p'));
    let format = FormatParams::default();
    assert_eq!(format.margin, 2);
    assert_eq!(format.list_prefix, "- ");
    assert_eq!((format.heading1, format.heading2, format.heading3), ((3, 2), (2, 1), (1, 0)));
    let colors = ColorParams::default();
    assert_eq!(colors.get_background(), Rgb(205, 205, 205));
    assert_eq!(colors.get_banner(), Rgb(0, 0, 0));
    assert_eq!(colors.get_dialog(), Rgb(0, 0, 0));
}

#[test]
fn colours_go_by_the_kind_of_line() {
    let mut colors = ColorParams::default();
    colors.link = Rgb(1, 1, 1);
    colors.badlink = Rgb(2, 2, 2);
    colors.preformat = Rgb(3, 3, 3);
    colors.heading2 = Rgb(4, 4, 4);
    let doc = parse_doc("=> /a\n=> http://[\n```\nraw\n```\n## two\ntext", &url("gemini://h/"));
    let styles: Vec<(Rgb, bool)> = doc.iter().map(|l| colors.from_gem_type(l)).collect();
    assert_eq!(
        styles,
        vec![
            (Rgb(1, 1, 1), true),
            (Rgb(2, 2, 2), true),
            (Rgb(3, 3, 3), false),
            (Rgb(4, 4, 4), true),
            (Rgb(0, 0, 0), true)
        ]
    );
    let shown = display_lines(&colors, &doc);
    assert_eq!(shown[0], DisplayText::new("/a", Rgb(1, 1, 1), true));
    assert_eq!(shown[2], DisplayText::new("raw", Rgb(3, 3, 3), false));
    assert_eq!(shown.len(), 5);
}

#[test]
fn editor_edits_at_the_cursor() {
    let mut e = Editor::new(&screen(), "abc", Rgb(0, 0, 0));
    assert_eq!(e.idx(), 0);
    assert!(e.insert('x'));
    assert_eq!(e.get_text(), "xabc");
    assert_eq!(e.idx(), 1);
    assert!(e.move_right(2));
    assert!(e.delete());
    assert_eq!(e.get_text(), "xab");
    assert_eq!(e.idx(), 3);
    assert!(!e.delete());
    assert!(e.backspace());
    assert_eq!(e.get_text(), "xa");
    assert_eq!(e.idx(), 2);
    assert!(e.move_left(5));
    assert_eq!(e.idx(), 0);
    assert!(!e.backspace());
    assert!(!e.move_left(1));
    assert!(e.delete());
    assert_eq!(e.get_text(), "a");
    assert_eq!(e.y_len(), 1);
    assert_eq!(e.x_len(0), Some(1));
    assert_eq!(e.x_len(1), None);
}

#[test]
fn editor_scrolls_over_a_long_text() {
    let mut e = Editor::new(&screen(), "", Rgb(0, 0, 0));
    for c in "the quick brown fox jumps over".chars() {
        e.insert(c);
    }
    assert_eq!(e.get_text(), "the quick brown fox jumps over");
    assert_eq!(e.idx(), 30);
    assert_eq!(e.pcol, PosCol { cursor: 20, scroll: 10 });
    e.resize(&DataScreen::new(&Screen::origin(10, 6), 0, 0));
    assert_eq!(e.idx(), 30);
    assert_eq!(e.pcol, PosCol { cursor: 10, scroll: 20 });
    e.insert('é');
    assert_eq!(e.get_text(), "the quick brown fox jumps overé");
}

#[test]
fn dialog_for_text() {
    let cfg = Config::default();
    let mut d = Dialog::text(&screen(), &cfg, "name: ");
    assert_eq!(d.prompt, "name: ");
    assert_eq!(d.update(&Key::Char('h')), Some(InputMsg::Default));
    assert_eq!(d.update(&Key::Char('i')), Some(InputMsg::Default));
    assert_eq!(d.update(&Key::Char('y')), Some(InputMsg::Default));
    assert_eq!(d.update(&Key::Backspace), Some(InputMsg::Default));
    assert_eq!(d.update(&Key::Delete), None);
    assert_eq!(d.update(&Key::Right), None);
    assert_eq!(d.update(&Key::Left), Some(InputMsg::Default));
    assert_eq!(d.update(&Key::Left), Some(InputMsg::Default));
    assert_eq!(d.update(&Key::Left), None);
    assert_eq!(d.update(&Key::Backspace), None);
    assert_eq!(d.update(&Key::Delete), Some(InputMsg::Default));
    assert_eq!(d.update(&Key::Up), None);
    assert_eq!(d.update(&Key::Other), None);
    assert_eq!(d.update(&Key::Enter), Some(InputMsg::Text("i".to_string())));
    assert_eq!(d.update(&Key::Esc), Some(InputMsg::Cancel));
}

#[test]
fn dialog_for_yes_or_no() {
    let cfg = Config::default();
    let mut d = Dialog::ask(&screen(), &cfg, "sure?");
    assert_eq!(d.input_type, InputType::Ask('y', 'n'));
    assert_eq!(d.update(&Key::Char('y')), Some(InputMsg::Yes));
    assert_eq!(d.update(&Key::Char('n')), Some(InputMsg::No));
    assert_eq!(d.update(&Key::Char('x')), None);
    assert_eq!(d.update(&Key::Enter), None);
    assert_eq!(d.update(&Key::Esc), Some(InputMsg::Cancel));
}

#[test]
fn dialog_to_acknowledge_takes_any_key() {
    let cfg = Config::default();
    let mut d = Dialog::ack(&screen(), &cfg, "read this");
    assert_eq!(d.input_type, InputType::Ack('y'));
    assert_eq!(d.update(&Key::Char('q')), Some(InputMsg::Ack));
    assert_eq!(d.update(&Key::Enter), Some(InputMsg::Ack));
    assert_eq!(d.update(&Key::Esc), Some(InputMsg::Cancel));
    d.resize(&DataScreen::new(&Screen::origin(10, 6), 0, 0));
    assert_eq!(d.scr, DataScreen::new(&Screen::origin(10, 6), 0, 0));
}

#[test]
fn display_rows_name_their_lines() {
    let lines = vec![
        DisplayText::new("hello world", Rgb(0, 0, 0), true),
        DisplayText::new("hello world", Rgb(0, 0, 0), false),
        DisplayText::default(),
    ];
    let expected = vec![
        (0usize, "hello".to_string()),
        (0, "world".to_string()),
        (1, "hello world".to_string()),
        (2, "".to_string()),
    ];
    assert_eq!(wrap_list(&lines, 6), expected);
    let scr = DataScreen::new(&Screen::origin(6, 3), 0, 0);
    let mut doc = DisplayDoc::new(lines, &scr);
    assert_eq!(doc.txt, expected);
    assert_eq!(doc.y_len(), 4);
    assert_eq!(doc.x_len(2), Some(11));
    assert_eq!(doc.x_len(4), None);
    let mut pos = Pos::origin(&scr.outer);
    assert_eq!(doc.select(&pos), Some(0));
    pos.move_down(&scr, &doc, 2);
    assert_eq!(doc.select(&pos), Some(1));
    pos.move_down(&scr, &doc, 2);
    assert_eq!(doc.select(&pos), None);
    doc.resize(&DataScreen::new(&Screen::origin(20, 3), 0, 0));
    assert_eq!(doc.txt.len(), 3);
    assert_eq!(DisplayDoc::default(&scr).select(&Pos::origin(&scr.outer)), None);
}

#[test]
fn reader_moves_over_the_rows() {
    let lines =
        vec![DisplayText::new("ab", Rgb(0, 0, 0), true), DisplayText::new("abcdef", Rgb(0, 0, 0), true)];
    let scr = DataScreen::new(&Screen::origin(10, 3), 0, 0);
    let mut r = Reader::new(&scr, lines);
    assert!(r.move_down(1));
    assert!(r.move_right(4));
    assert_eq!(r.pos.x, PosCol { cursor: 4, scroll: 0 });
    assert!(r.move_up(1));
    assert_eq!(r.pos.x, PosCol { cursor: 2, scroll: 0 });
    assert_eq!(r.select(), Some(0));
    assert!(r.move_left(1));
    assert!(!r.move_up(1));
    r.resize(&DataScreen::new(&Screen::origin(3, 3), 0, 0));
    assert_eq!(r.doc.txt.len(), 3);
    assert_eq!(r.pos.y, PosCol { cursor: 1, scroll: 0 });
    assert_eq!(r.select(), Some(1));
}

#[test]
fn keys_stand_for_commands() {
    let keys = KeyParams::default();
    assert_eq!(command(&Key::Char('i'), &keys), Command::MoveDown);
    assert_eq!(command(&Key::Char('o'), &keys), Command::MoveUp);
    assert_eq!(command(&Key::Char('e'), &keys), Command::MoveLeft);
    assert_eq!(command(&Key::Char('n'), &keys), Command::MoveRight);
    assert_eq!(command(&Key::Char('E'), &keys), Command::CycleLeft);
    assert_eq!(command(&Key::Char('N'), &keys), Command::CycleRight);
    assert_eq!(command(&Key::Char('v'), &keys), Command::DeleteTab);
    assert_eq!(command(&Key::Char('p'), &keys), Command::NewTab);
    assert_eq!(command(&Key::Char('w'), &keys), Command::Inspect);
    assert_eq!(command(&Key::Char('g'), &keys), Command::Global);
    assert_eq!(command(&Key::Char('z'), &keys), Command::Ignore);
    assert_eq!(command(&Key::Enter, &keys), Command::Ignore);
}

#[test]
fn lines_in_words() {
    let doc = parse_doc("# h\n=> /a label\n=> http://[ bad\ntext", &url("gemini://h/"));
    assert_eq!(line_text(&doc[0]), "h");
    assert_eq!(line_text(&doc[1]), "label");
    assert_eq!(describe_line(&doc[0]), "Heading 1: h");
    assert_eq!(describe_line(&doc[1]), "Link: label");
    assert_eq!(describe_line(&doc[2]), "Unresolved link: http://[");
    assert_eq!(describe_line(&doc[3]), "Text: text");
    assert_eq!(describe_line(&GemTextLine::Quote("q".into())), "Quote: q");
    assert_eq!(describe_line(&GemTextLine::ListItem("- i".into())), "List item: - i");
    assert_eq!(describe_line(&GemTextLine::PreFormat("p".into())), "Preformatted: p");
    assert_eq!(describe_line(&GemTextLine::Heading(Heading::Two("t".into()))), "Heading 2: t");
    assert_eq!(describe_line(&GemTextLine::Heading(Heading::Three("t".into()))), "Heading 3: t");
    assert_eq!(
        describe_status(&Status::InputExpected(Input::Sensitive, "pw".into())),
        "Input expected: pw"
    );
    assert!(text_type("text/gemini"));
    assert!(!text_type("image/png"));
    assert!(!text_type("text"));
}

#[test]
fn success_with_text_shows_the_document() {
    let tab = browsing("# Hi\n=> /a label\n");
    assert!(tab.dialog.is_none());
    assert_eq!(tab.url, url("gemini://h/"));
    assert_eq!(
        tab.doc,
        vec![
            GemTextLine::Heading(Heading::One("Hi".to_string())),
            GemTextLine::Link(Scheme::Gemini(url("gemini://h/a")), "label".to_string()),
        ]
    );
    assert_eq!(tab.reader.doc.txt, vec![(0usize, "Hi".to_string()), (1, "label".to_string())]);
}

#[test]
fn redirect_asks_and_yes_fetches_the_target() {
    let cfg = Config::default();
    let mut tab = browsing("old\n");
    tab.load(url("gemini://h/"), fetched("30 gemini://h/new\r\n"), &cfg);
    let dialog = tab.dialog.clone().unwrap();
    assert_eq!(dialog.prompt, "go to gemini://h/new?");
    assert_eq!(dialog.input_type, InputType::Ask('y', 'n'));
    assert_eq!(tab.action, Action::Go("gemini://h/new".to_string()));
    assert_eq!(tab.doc, vec![GemTextLine::Text("old".to_string())]);
    assert_eq!(tab.update(&Key::Char('x'), &cfg), None);
    assert!(tab.dialog.is_some());
    assert_eq!(tab.update(&Key::Char('y'), &cfg), Some(ViewMsg::Go("gemini://h/new".to_string())));
    assert!(tab.dialog.is_none());
    tab.load(url("gemini://h/new"), fetched("20 text/gemini\r\n# New\n"), &cfg);
    assert_eq!(tab.url, url("gemini://h/new"));
    assert_eq!(tab.doc, vec![GemTextLine::Heading(Heading::One("New".to_string()))]);
    assert!(tab.dialog.is_none());
}

#[test]
fn redirect_to_a_relative_target() {
    let cfg = Config::default();
    let mut tab = browsing("old\n");
    tab.load(url("gemini://h/dir/page"), fetched("31 other\r\n"), &cfg);
    assert_eq!(tab.dialog.clone().unwrap().prompt, "go to other?");
    assert_eq!(tab.action, Action::Go("gemini://h/dir/other".to_string()));
    tab.load(url("gemini://h/dir/page"), fetched("30 http://[\r\n"), &cfg);
    assert_eq!(tab.action, Action::Go("http://[".to_string()));
}

#[test]
fn redirect_refused_keeps_the_document() {
    let cfg = Config::default();
    for key in [Key::Char('n'), Key::Esc] {
        let mut tab = browsing("old\n");
        tab.load(url("gemini://h/"), fetched("30 gemini://h/new\r\n"), &cfg);
        assert_eq!(tab.update(&key, &cfg), Some(ViewMsg::Default));
        assert!(tab.dialog.is_none());
        assert_eq!(tab.action, Action::Nothing);
        assert_eq!(tab.doc, vec![GemTextLine::Text("old".to_string())]);
        assert_eq!(tab.url, url("gemini://h/"));
    }
}

#[test]
fn input_asks_for_text_and_replies_with_a_query() {
    let cfg = Config::default();
    let mut tab = browsing("old\n");
    tab.load(url("gemini://h/search"), fetched("10 what for?\r\n"), &cfg);
    let dialog = tab.dialog.clone().unwrap();
    assert_eq!(dialog.prompt, "what for?");
    assert!(matches!(dialog.input_type, InputType::Text(_)));
    assert_eq!(tab.action, Action::Reply("gemini://h/search".to_string()));
    assert_eq!(tab.update(&Key::Char('a'), &cfg), Some(ViewMsg::Default));
    assert_eq!(tab.update(&Key::Char(' '), &cfg), Some(ViewMsg::Default));
    assert_eq!(tab.update(&Key::Char('b'), &cfg), Some(ViewMsg::Default));
    assert_eq!(tab.update(&Key::Up, &cfg), None);
    assert_eq!(
        tab.update(&Key::Enter, &cfg),
        Some(ViewMsg::Go("gemini://h/search?a%20b".to_string()))
    );
    assert!(tab.dialog.is_none());
    assert_eq!(tab.doc, vec![GemTextLine::Text("old".to_string())]);
}

#[test]
fn success_without_text_asks() {
    let cfg = Config::default();
    let mut tab = browsing("old\n");
    tab.load(url("gemini://h/pic"), fetched("20 image/png\r\n\u{1}\u{2}"), &cfg);
    assert_eq!(tab.dialog.clone().unwrap().prompt, "download nontext type: image/png?");
    assert_eq!(tab.dialog.clone().unwrap().input_type, InputType::Ask('y', 'n'));
    assert_eq!(tab.action, Action::Nothing);
    assert_eq!(tab.update(&Key::Char('y'), &cfg), Some(ViewMsg::Default));
    assert!(tab.dialog.is_none());
    assert_eq!(tab.doc, vec![GemTextLine::Text("old".to_string())]);
}

#[test]
fn certificate_required_is_acknowledged() {
    let cfg = Config::default();
    let mut tab = browsing("old\n");
    tab.load(url("gemini://h/"), fetched("60 need a certificate\r\n"), &cfg);
    assert_eq!(tab.dialog.clone().unwrap().prompt, "need a certificate");
    assert_eq!(tab.dialog.clone().unwrap().input_type, InputType::Ack('y'));
    assert_eq!(tab.update(&Key::Char('q'), &cfg), Some(ViewMsg::Default));
    assert!(tab.dialog.is_none());
    assert_eq!(tab.doc, vec![GemTextLine::Text("old".to_string())]);
}

#[test]
fn failures_are_shown_as_a_line() {
    let cfg = Config::default();
    let mut tab = browsing("old\n");
    tab.load(url("gemini://h/x"), fetched("51 not found\r\n"), &cfg);
    assert!(tab.dialog.is_none());
    assert_eq!(tab.url, url("gemini://h/x"));
    assert_eq!(tab.doc, vec![GemTextLine::Text("Permanent failure: not found".to_string())]);
    tab.load(url("gemini://h/y"), fetched("44 slow down\r\n"), &cfg);
    assert_eq!(tab.doc, vec![GemTextLine::Text("Temporary failure: slow down".to_string())]);
    tab.load(url("gemini://h/z"), fetched("99 ???\r\n"), &cfg);
    assert_eq!(tab.doc, vec![GemTextLine::Text("Unknown status: ???".to_string())]);
    tab.load(url("gemini://h/z"), fetched("what is this\r\n"), &cfg);
    assert_eq!(tab.doc, vec![GemTextLine::Text("Malformed response: is this".to_string())]);
}

#[test]
fn network_errors_are_shown_as_a_line() {
    let cfg = Config::default();
    let mut tab = browsing("old\n");
    tab.load(url("gemini://h/x"), fetched("no line end"), &cfg);
    assert_eq!(tab.doc, vec![GemTextLine::Text("Could not find the clrf".to_string())]);
    tab.load(url("gemini://h/y"), Err(NetworkError::Connect("h:1965".to_string())), &cfg);
    assert_eq!(tab.doc, vec![GemTextLine::Text("Could not connect to h:1965".to_string())]);
    assert_eq!(tab.url, url("gemini://h/y"));
    tab.fail(url("gemini://h/z"), "relative URL without a base", &cfg);
    assert_eq!(tab.doc, vec![GemTextLine::Text("relative URL without a base".to_string())]);
    assert!(tab.dialog.is_none());
}

#[test]
fn inspecting_a_link_asks_whether_to_follow_it() {
    let cfg = Config::default();
    let mut tab = browsing("text\n=> /a label\n=> http://[ bad\n");
    assert_eq!(tab.update(&Key::Char('w'), &cfg), Some(ViewMsg::Default));
    assert_eq!(tab.dialog.clone().unwrap().prompt, "Text: text");
    assert_eq!(tab.dialog.clone().unwrap().input_type, InputType::Ack('y'));
    assert_eq!(tab.update(&Key::Enter, &cfg), Some(ViewMsg::Default));
    assert!(tab.dialog.is_none());
    assert_eq!(tab.update(&Key::Char('i'), &cfg), Some(ViewMsg::Default));
    assert_eq!(tab.update(&Key::Char('w'), &cfg), Some(ViewMsg::Default));
    assert_eq!(tab.dialog.clone().unwrap().prompt, "go to gemini://h/a?");
    assert_eq!(tab.action, Action::Go("gemini://h/a".to_string()));
    assert_eq!(tab.update(&Key::Char('y'), &cfg), Some(ViewMsg::Go("gemini://h/a".to_string())));
    assert_eq!(tab.update(&Key::Char('i'), &cfg), Some(ViewMsg::Default));
    assert_eq!(tab.update(&Key::Char('w'), &cfg), Some(ViewMsg::Default));
    assert_eq!(tab.dialog.clone().unwrap().prompt, "Unresolved link: http://[");
    assert_eq!(tab.action, Action::Nothing);
}

#[test]
fn inspecting_nothing_does_nothing() {
    let cfg = Config::default();
    let mut tab = Tab::new(&screen(), url("gemini://h/"));
    assert_eq!(tab.update(&Key::Char('w'), &cfg), None);
    assert!(tab.dialog.is_none());
}

#[test]
fn browsing_keys() {
    let cfg = Config::default();
    let mut tab = browsing("one\ntwo\n");
    assert_eq!(tab.update(&Key::Char('E'), &cfg), Some(ViewMsg::CycleLeft));
    assert_eq!(tab.update(&Key::Char('N'), &cfg), Some(ViewMsg::CycleRight));
    assert_eq!(tab.update(&Key::Char('g'), &cfg), Some(ViewMsg::Global));
    assert_eq!(tab.update(&Key::Char('z'), &cfg), None);
    assert_eq!(tab.update(&Key::Enter, &cfg), None);
    assert_eq!(tab.update(&Key::Char('n'), &cfg), Some(ViewMsg::Default));
    assert_eq!(tab.reader.pos.x, PosCol { cursor: 1, scroll: 0 });
    assert_eq!(tab.update(&Key::Char('i'), &cfg), Some(ViewMsg::Default));
    assert_eq!(tab.reader.pos.y, PosCol { cursor: 1, scroll: 0 });
    assert_eq!(tab.update(&Key::Char('e'), &cfg), Some(ViewMsg::Default));
    assert_eq!(tab.reader.pos.x, PosCol { cursor: 0, scroll: 0 });
    assert_eq!(tab.update(&Key::Char('o'), &cfg), Some(ViewMsg::Default));
    assert_eq!(tab.reader.pos.y, PosCol { cursor: 0, scroll: 0 });
}

#[test]
fn deleting_a_tab_asks_first() {
    let cfg = Config::default();
    let mut tab = browsing("one\n");
    assert_eq!(tab.update(&Key::Char('v'), &cfg), Some(ViewMsg::Default));
    assert_eq!(tab.dialog.clone().unwrap().prompt, "Delete current tab?");
    assert_eq!(tab.action, Action::DeleteMe);
    assert_eq!(tab.update(&Key::Char('y'), &cfg), Some(ViewMsg::DeleteMe));
    assert!(tab.dialog.is_none());
}

#[test]
fn a_new_tab_asks_for_its_address() {
    let cfg = Config::default();
    let mut tab = browsing("one\n");
    assert_eq!(tab.update(&Key::Char('p'), &cfg), Some(ViewMsg::Default));
    assert_eq!(tab.dialog.clone().unwrap().prompt, "enter path: ");
    assert_eq!(tab.action, Action::GoTo);
    for c in "gemini://x/".chars() {
        tab.update(&Key::Char(c), &cfg);
    }
    assert_eq!(tab.update(&Key::Enter, &cfg), Some(ViewMsg::Open("gemini://x/".to_string())));
    assert!(tab.dialog.is_none());
}

#[test]
fn resize_keeps_document_and_dialog() {
    let cfg = Config::default();
    let mut tab = browsing("the quick brown fox jumps over the lazy dog\n");
    assert_eq!(tab.reader.doc.txt.len(), 3);
    tab.update(&Key::Char('v'), &cfg);
    let scr = DataScreen::new(&Screen::origin(50, 6), 2, 1);
    tab.resize(&scr);
    assert_eq!(tab.reader.doc.txt.len(), 1);
    assert_eq!(tab.scr, scr);
    assert_eq!(tab.dialog.clone().unwrap().scr, scr);
    assert_eq!(tab.doc.len(), 1);
}
