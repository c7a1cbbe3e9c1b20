use ruty::apps::{score_application, AppIndexer, Application};
use ruty::desktop::{
    get_desktop_dirs, parse_desktop_file, read_desktop_entry, read_fields, split_list,
};

const FIREFOX: &str = "# a browser\n[Desktop Entry]\nName=Firefox\nGenericName = Web Browser\nExec=firefox %u\nIcon=firefox\nType=Application\nCategories=Network;WebBrowser;\nKeywords=web;internet\nTerminal=false\n\n[Desktop Action new-window]\nName=New Window\nExec=firefox --new-window %u\n";

fn app(id: &str, name: &str) -> Application {
    Application {
        id: id.to_string(),
        name: name.to_string(),
        generic_name: None,
        comment: None,
        command: id.to_string(),
        icon: None,
        categories: Vec::new(),
        keywords: Vec::new(),
        terminal: false,
        no_display: false,
        desktop_file: format!("/usr/share/applications/{}.desktop", id),
    }
}

fn sample_indexer() -> AppIndexer {
    let mut found = Vec::new();
    found.push(parse_desktop_file("/usr/share/applications/firefox.desktop", FIREFOX).unwrap());
    found.push(app("files", "Files"));
    found.push(app("fire-alarm", "fire alarm"));
    let mut hidden = app("firewall", "Firewall");
    hidden.no_display = true;
    found.push(hidden);
    let mut editor = app("gedit", "Text Editor");
    editor.keywords = vec!["Campfire".to_string()];
    found.push(editor);
    let mut term = app("term", "Terminal");
    term.categories = vec!["System".to_string(), "Firestarter".to_string()];
    found.push(term);
    let mut gimp = app("gimp", "GIMP");
    gimp.generic_name = Some("Image FIRE Editor".to_string());
    found.push(gimp);
    AppIndexer::new(found)
}

fn ids(found: Vec<&Application>) -> Vec<String> {
    found.into_iter().map(|a| a.id.clone()).collect()
}

#[test]
fn test_indexer_creation() {
    let indexer = sample_indexer();
    println!("Found {} applications", indexer.all().len());
    assert!(indexer.all().len() > 0, "Should find some applications");
}

#[test]
fn test_search() {
    let indexer = sample_indexer();
    let results = indexer.search("fire");
    for app in results {
        println!("Found: {} ({})", app.name, app.command);
    }
}

#[test]
fn index_is_sorted_by_lowercase_name() {
    let indexer = sample_indexer();
    let names: Vec<&str> = indexer.all().iter().map(|a| a.name.as_str()).collect();
    assert_eq!(
        names,
        vec!["Files", "fire alarm", "Firefox", "Firewall", "GIMP", "Terminal", "Text Editor"]
    );
}

#[test]
fn sort_keeps_equal_names_in_the_order_found() {
    let indexer = AppIndexer::new(vec![app("b", "Same"), app("a", "same"), app("c", "SAME")]);
    let order: Vec<&str> = indexer.all().iter().map(|a| a.id.as_str()).collect();
    assert_eq!(order, vec!["b", "a", "c"]);
}

#[test]
fn search_ranks_by_score() {
    let indexer = sample_indexer();
    assert_eq!(
        ids(indexer.search("FIRE")),
        vec!["firefox", "fire-alarm", "gimp", "gedit", "term"]
    );
    assert_eq!(ids(indexer.search("firefox")), vec!["firefox"]);
    assert!(indexer.search("zzz").is_empty());
}

#[test]
fn search_returns_at_most_ten() {
    let mut found = Vec::new();
    for i in 0..30 {
        found.push(app(&format!("app{:02}", i), &format!("App {:02}", i)));
    }
    let indexer = AppIndexer::new(found);
    let hits = ids(indexer.search("app"));
    assert_eq!(hits.len(), 10);
    assert_eq!(hits[0], "app00");
    assert_eq!(hits[9], "app09");
}

#[test]
fn empty_query_lists_the_first_twenty_visible() {
    let mut found = Vec::new();
    for i in 0..30 {
        let mut a = app(&format!("app{:02}", i), &format!("App {:02}", i));
        a.no_display = i % 3 == 0;
        found.push(a);
    }
    let indexer = AppIndexer::new(found);
    let hits = ids(indexer.search(""));
    assert_eq!(hits.len(), 20);
    assert_eq!(hits[0], "app01");
    assert_eq!(hits[1], "app02");
    assert_eq!(hits[19], "app29");
    let few = sample_indexer();
    assert_eq!(few.search("").len(), 6);
}

#[test]
fn scores_follow_the_table() {
    let mut a = app("firefox", "Firefox");
    a.generic_name = Some("Web Browser".to_string());
    a.keywords = vec!["Internet".to_string()];
    a.categories = vec!["Network".to_string()];
    assert_eq!(score_application(&a, "firefox"), 1000);
    assert_eq!(score_application(&a, "fire"), 593);
    assert_eq!(score_application(&a, "efo"), 200);
    assert_eq!(score_application(&a, "browser"), 150);
    assert_eq!(score_application(&a, "inter"), 100);
    assert_eq!(score_application(&a, "netw"), 50);
    assert_eq!(score_application(&a, "zzz"), 0);
    let long = app("long", &"x".repeat(150));
    assert_eq!(score_application(&long, "xx"), 500);
    let accented = app("e", "Éditeur");
    assert_eq!(score_application(&accented, "é"), 592);
    let indexer = sample_indexer();
    assert_eq!(indexer.calculate_score(&a, "fire"), 593);
}

#[test]
fn launch_command_strips_field_codes() {
    let mut a = app("x", "X");
    a.command = "  firefox %u --name=%c %F  ".to_string();
    let inv = a.launch_command().unwrap();
    assert_eq!(inv.program, "firefox");
    assert_eq!(inv.args, vec!["--name="]);
    a.command = "env A=1 prog %%ff %k".to_string();
    let inv = a.launch_command().unwrap();
    assert_eq!(inv.program, "env");
    assert_eq!(inv.args, vec!["A=1", "prog", "%f"]);
}

#[test]
fn launch_command_rejects_an_empty_command() {
    let mut a = app("x", "X");
    a.command = " %f %U ".to_string();
    assert_eq!(a.launch_command().unwrap_err(), "Empty exec command");
    a.command = String::new();
    assert_eq!(a.launch_command().unwrap_err(), "Empty exec command");
    assert_eq!(a.launch_error("no such file"), "Failed to launch X: no such file");
}

#[test]
fn launch_by_identifier() {
    let indexer = sample_indexer();
    let inv = indexer.launch_command("firefox").unwrap();
    assert_eq!(inv.program, "firefox");
    assert!(inv.args.is_empty());
    assert_eq!(indexer.launch_command("nope").unwrap_err(), "App not found: nope");
}

#[test]
fn desktop_entry_is_read_from_its_section() {
    let a = parse_desktop_file("/usr/share/applications/firefox.desktop", FIREFOX).unwrap();
    assert_eq!(a.id, "firefox");
    assert_eq!(a.name, "Firefox");
    assert_eq!(a.generic_name.as_deref(), Some("Web Browser"));
    assert_eq!(a.comment, None);
    assert_eq!(a.command, "firefox %u");
    assert_eq!(a.icon.as_deref(), Some("firefox"));
    assert_eq!(a.categories, vec!["Network", "WebBrowser"]);
    assert_eq!(a.keywords, vec!["web", "internet"]);
    assert!(!a.terminal);
    assert!(!a.no_display);
    assert_eq!(a.desktop_file, "/usr/share/applications/firefox.desktop");
    let copy = a.clone();
    assert_eq!(copy.id, a.id);
    assert_eq!(copy.keywords, a.keywords);
}

#[test]
fn desktop_entry_needs_name_exec_and_type() {
    assert!(read_desktop_entry(Some("a"), "a.desktop", "[Desktop Entry]\nExec=a\n").is_none());
    assert!(read_desktop_entry(Some("a"), "a.desktop", "[Desktop Entry]\nName=A\n").is_none());
    assert!(read_desktop_entry(
        Some("a"),
        "a.desktop",
        "[Desktop Entry]\nName=A\nExec=a\nType=Link\n"
    )
    .is_none());
    assert!(read_desktop_entry(Some("a"), "a.desktop", "Name=A\nExec=a\n").is_none());
    assert!(read_desktop_entry(None, "a.desktop", "[Desktop Entry]\nName=A\nExec=a\n").is_none());
    let a = read_desktop_entry(Some("a"), "a.desktop", "[Desktop Entry]\r\nName=A\r\nExec=a\r\n")
        .unwrap();
    assert_eq!(a.name, "A");
    assert_eq!(a.command, "a");
}

#[test]
fn later_values_and_flags() {
    let content = "[Desktop Entry]\nName=Old\nName = New \nExec=run=fast\nNoDisplay=true\nTerminal=True\n[Other]\nName=Hidden\n";
    let a = read_desktop_entry(Some("x"), "x.desktop", content).unwrap();
    assert_eq!(a.name, "New");
    assert_eq!(a.command, "run=fast");
    assert!(a.no_display);
    assert!(!a.terminal);
    let fields = read_fields(content);
    assert_eq!(fields.get("Name").as_deref(), Some("New"));
    assert_eq!(fields.get("Missing"), None);
    assert_eq!(split_list("a;;b;"), vec!["a", "b"]);
    assert!(split_list("").is_empty());
}

#[test]
fn desktop_directories_follow_the_environment() {
    assert_eq!(
        get_desktop_dirs(Some("/home/u"), Some("/usr/share:/opt/share")),
        vec![
            "/usr/share/applications",
            "/usr/local/share/applications",
            "/home/u/.local/share/applications",
            "/usr/share/applications",
            "/opt/share/applications",
            "/var/lib/flatpak/exports/share/applications",
            "/home/u/.local/share/flatpak/exports/share/applications",
            "/var/lib/snapd/desktop/applications",
        ]
    );
    assert_eq!(
        get_desktop_dirs(None, None),
        vec![
            "/usr/share/applications",
            "/usr/local/share/applications",
            "/var/lib/flatpak/exports/share/applications",
            "/var/lib/snapd/desktop/applications",
        ]
    );
}
