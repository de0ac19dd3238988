use justlist::bb_prs::model::{Author, Link, LinkList, PullRequest, Response, User};
use justlist::bb_prs::{label_of, ListPullRequests};
use justlist::bookmarks::Bookmarks;
use justlist::git_repo::{is_git_repo, SearchGitRepos};
use justlist::launcher::command_line;
use justlist::paths::PathEntry;
use justlist::plugin::{JustListAction, JustListPlugin};
use justlist::search::{is_match, parse_query_flags, QueryFlags, Search};
use justlist::serialization::{Groups, ListGroup, SelectableItem};
use std::path::PathBuf;

fn item(label: &str, param: &str) -> SelectableItem {
    SelectableItem { label: label.to_string(), param: param.to_string() }
}

fn upstream() -> Groups {
    Groups {
        groups: vec![
            ListGroup {
                label: "first".to_string(),
                items: vec![item("a", "1"), item("b", "2")],
                command_template: Some("open".to_string()),
                is_terminal: Some(true),
            },
            ListGroup {
                label: "second".to_string(),
                items: vec![],
                command_template: None,
                is_terminal: None,
            },
        ],
    }
}

fn flat(doc: &Groups) -> Vec<(String, Vec<(String, String)>, Option<String>, Option<bool>)> {
    doc.groups
        .iter()
        .map(|g| {
            (
                g.label.clone(),
                g.items.iter().map(|i| (i.label.clone(), i.param.clone())).collect(),
                g.command_template.clone(),
                g.is_terminal,
            )
        })
        .collect()
}

fn path(
    path: &str,
    file_name: &str,
    extension: Option<&str>,
    parent: Option<&str>,
    is_dir: bool,
) -> PathEntry {
    PathEntry {
        path: path.to_string(),
        file_name: file_name.to_string(),
        extension: extension.map(|e| e.to_string()),
        parent_name: parent.map(|p| p.to_string()),
        is_dir,
    }
}

fn walked() -> Vec<PathEntry> {
    vec![
        path("/w/proj", "proj", None, Some("w"), true),
        path("/w/proj/.git", ".git", None, Some("proj"), true),
        path("/w/proj/main.rs", "main.rs", Some("rs"), Some("proj"), false),
        path("/w/proj/notes.git", "notes.git", Some("git"), Some("proj"), false),
        path("/w/docs", "docs", None, Some("w"), true),
        path("/w/docs/rs.txt", "rs.txt", Some("txt"), Some("docs"), false),
        path("/w/sub.git", "sub.git", Some("git"), Some("w"), true),
    ]
}

fn search_options(query: &str, flags: &str, title: Option<&str>) -> justlist::search::Options {
    justlist::search::Options {
        query: query.to_string(),
        command_template: "edit".to_string(),
        query_flags: parse_query_flags(flags),
        verbose: false,
        depth: 1,
        working_dir: None,
        title: title.map(|t| t.to_string()),
        is_terminal: true,
    }
}

fn pull_request(id: i64, state: &str, title: &str, links: &[&str]) -> PullRequest {
    PullRequest {
        id,
        title: title.to_string(),
        state: state.to_string(),
        author: Author { user: User { display_name: format!("user {}", id) } },
        links: LinkList { selfs: links.iter().map(|l| Link { href: l.to_string() }).collect() },
    }
}

fn pr_options() -> justlist::bb_prs::Options {
    justlist::bb_prs::Options {
        url: "http://host/prs".to_string(),
        token: "t".to_string(),
        command_template: "browse".to_string(),
    }
}

fn bookmark_options() -> justlist::bookmarks::Options {
    justlist::bookmarks::Options {
        path: "http://host/bookmarks.json".to_string(),
        user: None,
        password: None,
        command_template: "visit".to_string(),
    }
}

#[test]
fn query_flags_are_read_from_letters() {
    let f = parse_query_flags("");
    assert!(f.names && !f.directories && !f.extensions);
    let f = parse_query_flags("d");
    assert!(!f.names && f.directories && !f.extensions);
    let f = parse_query_flags("e");
    assert!(!f.names && !f.directories && f.extensions);
    let f = parse_query_flags("n");
    assert!(f.names && !f.directories && !f.extensions);
    let f = parse_query_flags("xdnze");
    assert!(f.names && f.directories && f.extensions);
    let f = parse_query_flags("xyz");
    assert!(!f.names && !f.directories && !f.extensions);
    let f = parse_query_flags("ND");
    assert!(!f.names && !f.directories && !f.extensions);
}

#[test]
fn match_looks_where_the_flags_say() {
    let names = QueryFlags { names: true, directories: false, extensions: false };
    let dirs = QueryFlags { names: false, directories: true, extensions: false };
    let exts = QueryFlags { names: false, directories: false, extensions: true };
    let none = QueryFlags { names: false, directories: false, extensions: false };
    let file = path("/w/proj/main.rs", "main.rs", Some("rs"), Some("proj"), false);
    let dir = path("/w/docs", "docs", None, Some("w"), true);
    let bare = path("/w/Makefile", "Makefile", None, Some("w"), false);
    assert!(is_match("main", &file, &names));
    assert!(!is_match("main", &file, &dirs));
    assert!(!is_match("main", &file, &exts));
    assert!(is_match("rs", &file, &exts));
    assert!(is_match("rs", &file, &names));
    assert!(!is_match("xyz", &file, &names));
    assert!(is_match("doc", &dir, &dirs));
    assert!(!is_match("doc", &dir, &names));
    assert!(!is_match("doc", &dir, &exts));
    assert!(!is_match("Make", &bare, &exts));
    assert!(is_match("Make", &bare, &names));
    assert!(!is_match("", &file, &none));
    assert!(is_match("", &file, &names));
}

#[test]
fn working_dir_falls_back_to_default() {
    let default = PathBuf::from("/default");
    let mut options = search_options("q", "", None);
    assert_eq!(options.get_working_dir_or(&default), &PathBuf::from("/default"));
    options.working_dir = Some(PathBuf::from("/given"));
    assert_eq!(options.get_working_dir_or(&default), &PathBuf::from("/given"));
}

#[test]
fn search_adds_one_group_of_matches() {
    let search = Search { entries: walked() };
    let options = search_options("rs", "ne", None);
    let group = search.group(&options);
    assert_eq!(group.label, "files");
    assert_eq!(group.command_template.as_deref(), Some("edit"));
    assert_eq!(group.is_terminal, Some(true));
    let found: Vec<(&str, &str)> =
        group.items.iter().map(|i| (i.label.as_str(), i.param.as_str())).collect();
    assert_eq!(found, vec![("main.rs", "/w/proj/main.rs"), ("rs.txt", "/w/docs/rs.txt")]);
    let titled = search.group(&search_options("doc", "d", Some("dirs")));
    assert_eq!(titled.label, "dirs");
    assert_eq!(titled.items.len(), 1);
    assert_eq!(titled.items[0].label, "docs");
    assert_eq!(titled.items[0].param, "/w/docs");
}

#[test]
fn search_without_match_adds_empty_group() {
    let search = Search { entries: walked() };
    let options = search_options("nothing", "nde", None);
    let mut doc = upstream();
    search.execute(&mut doc, &options);
    assert_eq!(doc.groups.len(), 3);
    assert_eq!(flat(&doc)[..2], flat(&upstream())[..]);
    assert_eq!(doc.groups[2].label, "files");
    assert!(doc.groups[2].items.is_empty());
}

#[test]
fn git_repo_is_a_directory_named_dot_git() {
    assert!(is_git_repo(&path("/w/proj/.git", ".git", None, Some("proj"), true)));
    assert!(is_git_repo(&path("/w/sub.git", "sub.git", Some("git"), Some("w"), true)));
    let file = path("/w/proj/notes.git", "notes.git", Some("git"), Some("proj"), false);
    assert!(!is_git_repo(&file));
    assert!(!is_git_repo(&path("/w/proj/.github", ".github", None, Some("proj"), true)));
    assert!(!is_git_repo(&path("/w/git", "git", None, Some("w"), true)));
    assert!(!is_git_repo(&path("/w/.gi", ".gi", None, Some("w"), true)));
}

#[test]
fn git_repos_are_listed_under_their_directory() {
    let mut entries = walked();
    entries.push(path(".git", ".git", None, None, true));
    let action = SearchGitRepos { entries };
    let options = justlist::git_repo::Options {
        command_template: "code".to_string(),
        depth: 2,
        working_dir: None,
        verbose: true,
        is_terminal: false,
    };
    let mut doc = upstream();
    action.execute(&mut doc, &options);
    assert_eq!(doc.groups.len(), 3);
    assert_eq!(flat(&doc)[..2], flat(&upstream())[..]);
    let group = &doc.groups[2];
    assert_eq!(group.label, "git repos");
    assert_eq!(group.command_template.as_deref(), Some("code"));
    assert_eq!(group.is_terminal, Some(false));
    let found: Vec<(&str, &str)> =
        group.items.iter().map(|i| (i.label.as_str(), i.param.as_str())).collect();
    assert_eq!(found, vec![("proj", "/w/proj/.git"), ("w", "/w/sub.git")]);
}

#[test]
fn pull_request_getters() {
    let pr = pull_request(7, "OPEN", "Fix it", &["http://host/pr/7", "http://other"]);
    assert!(pr.has_link());
    assert_eq!(pr.link(), "http://host/pr/7");
    assert_eq!(pr.author(), "user 7");
    let bare = pull_request(8, "OPEN", "No link", &[]);
    assert!(!bare.has_link());
    assert!(Response { values: vec![pull_request(7, "OPEN", "Fix it", &["l"])] }.has_links());
    assert!(!Response { values: vec![pr, bare] }.has_links());
    assert!(Response { values: vec![] }.has_links());
}

#[test]
fn pull_request_label_format() {
    assert_eq!(label_of("OPEN", "Fix it"), "[OPEN] Fix it");
    assert_eq!(label_of("", ""), "[] ");
}

#[test]
fn pull_requests_become_one_group() {
    let response = Response {
        values: vec![
            pull_request(1, "OPEN", "First", &["http://host/pr/1"]),
            pull_request(2, "MERGED", "Second", &["http://host/pr/2"]),
        ],
    };
    let group = ListPullRequests::process_response(&response, "browse");
    assert_eq!(group.label, "PR");
    assert_eq!(group.command_template.as_deref(), Some("browse"));
    assert_eq!(group.is_terminal, Some(false));
    let found: Vec<(&str, &str)> =
        group.items.iter().map(|i| (i.label.as_str(), i.param.as_str())).collect();
    assert_eq!(
        found,
        vec![("[OPEN] First", "http://host/pr/1"), ("[MERGED] Second", "http://host/pr/2")]
    );
}

#[test]
fn failed_fetch_passes_document_through() {
    let plugin = JustListPlugin::new(pr_options());
    let out = plugin.main(&ListPullRequests { fetched: None }, Some(upstream()));
    assert_eq!(flat(&out), flat(&upstream()));
    let plugin = JustListPlugin::new(bookmark_options());
    let out = plugin.main(&Bookmarks { fetched: None }, Some(upstream()));
    assert_eq!(flat(&out), flat(&upstream()));
    let out = plugin.main(&Bookmarks { fetched: None }, None);
    assert!(out.groups.is_empty());
}

#[test]
fn bookmarks_get_the_command_of_the_options() {
    let fetched = upstream();
    let stamped = Bookmarks::process_response(&fetched, "visit");
    assert_eq!(stamped.groups.len(), 2);
    for (got, was) in stamped.groups.iter().zip(fetched.groups.iter()) {
        assert_eq!(got.label, was.label);
        assert_eq!(got.command_template.as_deref(), Some("visit"));
        assert_eq!(got.is_terminal, was.is_terminal);
        assert_eq!(got.items.len(), was.items.len());
    }
    assert_eq!(stamped.groups[0].items[1].label, "b");
    assert_eq!(stamped.groups[0].items[1].param, "2");
}

#[test]
fn bookmarks_are_appended() {
    let plugin = JustListPlugin::new(bookmark_options());
    let fetched = Groups {
        groups: vec![ListGroup {
            label: "sites".to_string(),
            items: vec![item("rust", "https://rust-lang.org")],
            command_template: Some("ignored".to_string()),
            is_terminal: None,
        }],
    };
    let out = plugin.main(&Bookmarks { fetched: Some(fetched) }, Some(upstream()));
    assert_eq!(out.groups.len(), 3);
    assert_eq!(flat(&out)[..2], flat(&upstream())[..]);
    assert_eq!(out.groups[2].label, "sites");
    assert_eq!(out.groups[2].command_template.as_deref(), Some("visit"));
    assert_eq!(out.groups[2].is_terminal, None);
    assert_eq!(out.groups[2].items[0].param, "https://rust-lang.org");
}

#[test]
fn bookmark_credentials_need_user_and_password() {
    let mut options = bookmark_options();
    assert!(options.credentials().is_none());
    options.user = Some("u".to_string());
    assert!(options.credentials().is_none());
    options.password = Some("p".to_string());
    let (user, password) = options.credentials().expect("both are given");
    assert_eq!(user, "u");
    assert_eq!(password, "p");
    options.user = None;
    assert!(options.credentials().is_none());
}

#[test]
fn generator_without_input_starts_from_empty_document() {
    let plugin = JustListPlugin::new(search_options("main", "", None));
    let out = plugin.main(&Search { entries: walked() }, None);
    assert_eq!(out.groups.len(), 1);
    assert_eq!(out.groups[0].items.len(), 1);
    assert_eq!(out.groups[0].items[0].label, "main.rs");
}

#[test]
fn generators_in_a_row_add_up() {
    let first = JustListPlugin::new(search_options("rs", "n", Some("sources")));
    let second = JustListPlugin::new(pr_options());
    let response = Response { values: vec![pull_request(1, "OPEN", "First", &["l1"])] };
    let after_first = first.main(&Search { entries: walked() }, Some(upstream()));
    let kept = flat(&after_first);
    assert_eq!(kept.len(), 3);
    assert_eq!(kept[..2], flat(&upstream())[..]);
    let after_second =
        second.main(&ListPullRequests { fetched: Some(response) }, Some(after_first));
    let all = flat(&after_second);
    assert_eq!(all.len(), 4);
    assert_eq!(all[..3], kept[..]);
    assert_eq!(all[3].0, "PR");
    assert_eq!(all[3].1, vec![("[OPEN] First".to_string(), "l1".to_string())]);
    assert_eq!(all[3].2.as_deref(), Some("browse"));
}

#[test]
fn document_copy_says_the_same() {
    let doc = upstream();
    let copy = Groups { groups: doc.groups.iter().map(|g| g.duplicate()).collect() };
    assert_eq!(flat(&copy), flat(&doc));
    let mut grown = upstream();
    grown.push_group(doc.groups[0].duplicate());
    assert_eq!(grown.groups.len(), 3);
    assert_eq!(flat(&grown)[2], flat(&doc)[0]);
    let one = doc.groups[0].items[0].duplicate();
    assert_eq!(one.label, "a");
    assert_eq!(one.param, "1");
}

#[test]
fn command_line_splits_program_from_arguments() {
    assert!(command_line(vec![]).is_none());
    let only = command_line(vec!["ls".to_string()]).expect("one word is a program");
    assert_eq!(only.program, "ls");
    assert!(only.args.is_empty());
    let line = command_line(vec!["code".to_string(), "-n".to_string(), "/w/proj".to_string()])
        .expect("the first word is the program");
    assert_eq!(line.program, "code");
    assert_eq!(line.args, vec!["-n".to_string(), "/w/proj".to_string()]);
}
