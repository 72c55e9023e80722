use spacer_core::browser::{action_for, Action, App, Key, Modifiers, Tab};
use spacer_core::model::{Change, Config, Space};
use spacer_core::paths::{config_path, join_path, spacer_dir, state_path};
use spacer_core::shell::{choose_shell, shell_name, snippet_for, BASH_ZSH, SH};

#[test]
fn paths_join_like_unix() {
    assert_eq!(join_path("/root", "alpha"), "/root/alpha");
    assert_eq!(join_path("/root/", "alpha"), "/root/alpha");
    assert_eq!(join_path("", "alpha"), "alpha");
    assert_eq!(join_path("/root", "/abs"), "/abs");
    assert_eq!(spacer_dir("/w"), "/w/.spacer");
    assert_eq!(config_path("/w"), "/w/.spacer/config.json");
    assert_eq!(state_path("/w"), "/w/.spacer/state.json");
}

#[test]
fn change_worktree_path() {
    let c = Change { name: "feat".to_string(), project: "web".to_string(), space: "alpha".to_string() };
    assert_eq!(c.worktree_path("/alpha/web"), "/alpha/web/feat");
}

#[test]
fn shell_choice() {
    assert_eq!(shell_name("/bin/zsh"), "zsh");
    assert_eq!(shell_name("bash"), "bash");
    assert_eq!(shell_name("/usr/bin/"), "");
    assert_eq!(choose_shell(Some("bash".to_string()), Some("/bin/zsh".to_string())), "bash");
    assert_eq!(choose_shell(None, Some("/bin/zsh".to_string())), "zsh");
    assert_eq!(choose_shell(None, None), "sh");
    assert_eq!(snippet_for("zsh"), Ok(BASH_ZSH));
    assert_eq!(snippet_for("bash"), Ok(BASH_ZSH));
    assert_eq!(snippet_for("sh"), Ok(SH));
    assert!(snippet_for("fish").is_err());
}

#[test]
fn tabs_cycle() {
    assert_eq!(Tab::Spaces.next(), Tab::Projects);
    assert_eq!(Tab::Spaces.next().next().next(), Tab::Spaces);
    assert_eq!(Tab::Projects.title(), "Projects");
}

#[test]
fn browser_selection_wraps_and_stops() {
    let mut config = Config::default();
    config.spaces.push(Space { name: "a".to_string(), path: "a".to_string() });
    config.spaces.push(Space { name: "b".to_string(), path: "b".to_string() });
    let mut app = App::new(config);
    app.prev();
    assert_eq!(app.selected, 0);
    app.next();
    assert_eq!(app.selected, 1);
    app.next();
    assert_eq!(app.selected, 0);
    app.next();
    app.next_tab();
    assert_eq!(app.active_tab, Tab::Projects);
    assert_eq!(app.selected, 0);
    app.next();
    assert_eq!(app.selected, 0);
}

#[test]
fn keys_map_to_actions() {
    assert_eq!(action_for(Modifiers::Plain, Key::Char('q')), Action::Quit);
    assert_eq!(action_for(Modifiers::Control, Key::Char('c')), Action::Quit);
    assert_eq!(action_for(Modifiers::Control, Key::Char('q')), Action::Ignore);
    assert_eq!(action_for(Modifiers::Plain, Key::Char('c')), Action::Ignore);
    assert_eq!(action_for(Modifiers::Plain, Key::Char('j')), Action::Next);
    assert_eq!(action_for(Modifiers::Other, Key::Down), Action::Next);
    assert_eq!(action_for(Modifiers::Control, Key::Char('k')), Action::Prev);
    assert_eq!(action_for(Modifiers::Plain, Key::Up), Action::Prev);
    assert_eq!(action_for(Modifiers::Other, Key::Tab), Action::NextTab);
    assert_eq!(action_for(Modifiers::Plain, Key::Other), Action::Ignore);
}

#[test]
fn actions_move_the_browser() {
    let mut c = Config::default();
    c.spaces.push(Space { name: "a".to_string(), path: "a".to_string() });
    c.spaces.push(Space { name: "b".to_string(), path: "b".to_string() });
    let mut app = App::new(c);
    app.apply(Action::Next);
    assert_eq!(app.selected, 1);
    app.apply(Action::Next);
    assert_eq!(app.selected, 0);
    app.apply(Action::Next);
    app.apply(Action::Prev);
    assert_eq!(app.selected, 0);
    app.apply(Action::Ignore);
    assert_eq!(app.selected, 0);
    app.apply(Action::NextTab);
    assert_eq!(app.active_tab, Tab::Projects);
    assert_eq!(app.selected, 0);
    app.apply(Action::Quit);
    assert_eq!(app.active_tab, Tab::Projects);
}

#[test]
fn tab_bar_order() {
    assert_eq!(Tab::all(), [Tab::Spaces, Tab::Projects, Tab::Changes]);
    assert_eq!(Tab::Spaces.position(), 0);
    assert_eq!(Tab::Projects.position(), 1);
    assert_eq!(Tab::Changes.position(), 2);
}
