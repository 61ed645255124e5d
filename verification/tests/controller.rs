use menu_shell::command::{parse_command, CommandId, EditCommand};
use menu_shell::menu::{build_menu, MenuNode};
use menu_shell::shell::{menu_policy, reuse_policy, AppContext, Effect, ReusePolicy, WindowSpec};
use menu_shell::str_eq;

fn plain_spec(title: &str, width: u32, height: u32, content: &str) -> WindowSpec {
    WindowSpec {
        title: title.to_owned(),
        width,
        height,
        resizable: true,
        centered: true,
        content: content.to_owned(),
    }
}

fn context_with_main() -> AppContext {
    let mut ctx = AppContext::new(false);
    ctx.create_window("main", plain_spec("main", 1024, 768, "index.html"));
    ctx
}

fn count_named(ctx: &AppContext, name: &str) -> usize {
    ctx.windows.iter().filter(|w| w.name == name).count()
}

#[test]
fn str_eq_agrees_with_equality() {
    assert!(str_eq("preferences", "preferences"));
    assert!(!str_eq("preferences", "preference"));
    assert!(!str_eq("", "a"));
    assert!(str_eq("", ""));
    assert!(str_eq("偏好设置", "偏好设置"));
    assert!(!str_eq("偏好设置", "关于"));
}

#[test]
fn parse_known_commands() {
    assert_eq!(parse_command("preferences"), CommandId::Preferences);
    assert_eq!(parse_command("quit"), CommandId::Quit);
    assert_eq!(parse_command("copy"), CommandId::CopyText);
    assert_eq!(parse_command("paste"), CommandId::PasteText);
    assert_eq!(parse_command("cut"), CommandId::CutText);
    assert_eq!(parse_command("selectAll"), CommandId::SelectAllText);
    assert_eq!(parse_command("fullscreen"), CommandId::Fullscreen);
    assert_eq!(parse_command("reload"), CommandId::Reload);
    assert_eq!(parse_command("devtools"), CommandId::Devtools);
    assert_eq!(parse_command("about"), CommandId::About);
    assert_eq!(parse_command("documentation"), CommandId::Documentation);
}

#[test]
fn parse_unknown_commands() {
    assert_eq!(parse_command("nonexistent"), CommandId::Unknown);
    assert_eq!(parse_command(""), CommandId::Unknown);
    assert_eq!(parse_command("Preferences"), CommandId::Unknown);
    assert_eq!(parse_command("selectall"), CommandId::Unknown);
}

#[test]
fn menu_has_four_groups_in_order() {
    let groups = build_menu();
    assert_eq!(groups.len(), 4);
    let labels: Vec<&str> = groups
        .iter()
        .map(|g| match g {
            MenuNode::Submenu { label, .. } => label.as_str(),
            _ => panic!("top level node is not a submenu"),
        })
        .collect();
    assert_eq!(labels, vec!["文件", "编辑", "视图", "帮助"]);
}

fn group_ids(group: &MenuNode) -> Vec<String> {
    match group {
        MenuNode::Submenu { entries, .. } => entries
            .iter()
            .filter_map(|e| match e {
                MenuNode::Item { id, .. } => Some(id.clone()),
                _ => None,
            })
            .collect(),
        _ => panic!("top level node is not a submenu"),
    }
}

#[test]
fn menu_item_ids_match_the_table() {
    let groups = build_menu();
    assert_eq!(group_ids(&groups[0]), vec!["preferences", "quit"]);
    assert_eq!(group_ids(&groups[1]), vec!["copy", "paste", "cut", "selectAll"]);
    assert_eq!(group_ids(&groups[2]), vec!["fullscreen", "reload", "devtools"]);
    assert_eq!(group_ids(&groups[3]), vec!["about", "documentation"]);
}

#[test]
fn every_menu_command_has_a_dispatch_arm() {
    let groups = build_menu();
    let mut seen = Vec::new();
    for group in &groups {
        for id in group_ids(group) {
            assert_ne!(parse_command(id.as_str()), CommandId::Unknown, "id {} fell to the default", id);
            assert!(!seen.contains(&id), "id {} appears twice in the menu", id);
            seen.push(id);
        }
    }
    assert_eq!(seen.len(), 11);
}

#[test]
fn preferences_dispatched_twice_reuses_one_window() {
    let mut ctx = context_with_main();
    let e1 = ctx.dispatch("preferences", 0);
    assert!(matches!(e1, Effect::CreateWindow { index: 1 }));
    assert_eq!(count_named(&ctx, "preferences"), 1);
    assert!(ctx.windows[1].focused);

    let e2 = ctx.dispatch("preferences", 0);
    assert!(matches!(e2, Effect::ShowFocus { index: 1 }));
    assert_eq!(count_named(&ctx, "preferences"), 1);
    assert!(ctx.windows[1].focused);
    assert!(ctx.windows[1].visible);
    assert_eq!(ctx.windows.len(), 2);
}

#[test]
fn preferences_window_uses_the_fixed_parameters() {
    let mut ctx = context_with_main();
    ctx.dispatch("preferences", 0);
    let w = &ctx.windows[1];
    assert_eq!(w.name, "preferences");
    assert_eq!(w.params.title, "偏好设置");
    assert_eq!(w.params.width, 800);
    assert_eq!(w.params.height, 600);
    assert!(w.params.centered);
    assert_eq!(w.params.content, "index.html#/preferences");
}

#[test]
fn toggle_fullscreen_twice_is_identity() {
    let mut ctx = context_with_main();
    assert!(!ctx.windows[0].fullscreen);
    let e1 = ctx.dispatch("fullscreen", 0);
    assert!(matches!(e1, Effect::SetFullscreen { index: 0, on: true }));
    assert!(ctx.windows[0].fullscreen);
    let e2 = ctx.dispatch("fullscreen", 0);
    assert!(matches!(e2, Effect::SetFullscreen { index: 0, on: false }));
    assert!(!ctx.windows[0].fullscreen);
}

#[test]
fn menu_attachment_follows_the_policy() {
    assert!(menu_policy("main"));
    assert!(!menu_policy("preferences"));
    assert!(menu_policy("about"));

    let mut ctx = AppContext::new(false);
    let main_idx = ctx.create_window("main", plain_spec("main", 1024, 768, "index.html"));
    assert!(ctx.windows[main_idx].menu_attached);

    let mut ctx2 = context_with_main();
    ctx2.dispatch("preferences", 0);
    assert!(!ctx2.windows[1].menu_attached);
}

#[test]
fn unknown_command_changes_nothing() {
    let mut ctx = context_with_main();
    let before_len = ctx.windows.len();
    let e = ctx.dispatch("nonexistent", 0);
    assert!(matches!(e, Effect::NoOp));
    assert_eq!(ctx.windows.len(), before_len);
    assert!(!ctx.terminated);
    assert_eq!(ctx.windows[0].name, "main");
    assert!(!ctx.windows[0].fullscreen);
}

#[test]
fn about_dispatched_twice_creates_two_windows() {
    let mut ctx = context_with_main();
    let e1 = ctx.dispatch("about", 0);
    assert!(matches!(e1, Effect::CreateWindow { index: 1 }));
    let e2 = ctx.dispatch("about", 0);
    assert!(matches!(e2, Effect::CreateWindow { index: 2 }));
    assert_eq!(count_named(&ctx, "about"), 2);
    for w in ctx.windows.iter().filter(|w| w.name == "about") {
        assert_eq!(w.params.width, 400);
        assert_eq!(w.params.height, 300);
        assert!(!w.params.resizable);
        assert_eq!(w.params.title, "关于");
        assert_eq!(w.params.content, "index.html#/about");
        assert!(w.menu_attached);
    }
}

#[test]
fn quit_terminates_and_absorbs_later_events() {
    let mut ctx = context_with_main();
    let e = ctx.dispatch("quit", 0);
    assert!(matches!(e, Effect::Terminate { code: 0 }));
    assert!(ctx.terminated);

    let after = ctx.dispatch("about", 0);
    assert!(matches!(after, Effect::NoOp));
    assert_eq!(ctx.windows.len(), 1);
    let again = ctx.dispatch("preferences", 0);
    assert!(matches!(again, Effect::NoOp));
    assert_eq!(ctx.windows.len(), 1);
}

#[test]
fn edit_commands_are_forwarded_to_the_source_window() {
    let mut ctx = context_with_main();
    assert!(matches!(
        ctx.dispatch("copy", 0),
        Effect::ForwardEdit { index: 0, cmd: EditCommand::CopyText }
    ));
    assert!(matches!(
        ctx.dispatch("paste", 0),
        Effect::ForwardEdit { index: 0, cmd: EditCommand::PasteText }
    ));
    assert!(matches!(
        ctx.dispatch("cut", 0),
        Effect::ForwardEdit { index: 0, cmd: EditCommand::CutText }
    ));
    assert!(matches!(
        ctx.dispatch("selectAll", 0),
        Effect::ForwardEdit { index: 0, cmd: EditCommand::SelectAllText }
    ));
}

#[test]
fn reload_is_a_no_op_without_content() {
    let mut ctx = AppContext::new(false);
    ctx.create_window("main", plain_spec("main", 1024, 768, ""));
    let e = ctx.dispatch("reload", 0);
    assert!(matches!(e, Effect::NoOp));

    let mut ctx2 = context_with_main();
    let e2 = ctx2.dispatch("reload", 0);
    assert!(matches!(e2, Effect::ReloadContent { index: 0 }));
}

#[test]
fn devtools_is_gated_by_the_build_mode() {
    let mut prod = context_with_main();
    assert!(matches!(prod.dispatch("devtools", 0), Effect::NoOp));

    let mut dev = AppContext::new(true);
    dev.create_window("main", plain_spec("main", 1024, 768, "index.html"));
    assert!(matches!(dev.dispatch("devtools", 0), Effect::OpenDevtools { index: 0 }));
}

#[test]
fn documentation_opens_the_fixed_url() {
    let mut ctx = context_with_main();
    match ctx.dispatch("documentation", 0) {
        Effect::OpenExternal { url } => {
            assert_eq!(url, "https://github.com/yourusername/yourrepo/wiki");
        }
        other => panic!("unexpected effect {:?}", other),
    }
    assert_eq!(ctx.windows.len(), 1);
}

#[test]
fn find_reflects_the_live_set_after_close() {
    let mut ctx = context_with_main();
    ctx.dispatch("preferences", 0);
    assert_eq!(ctx.find("preferences"), Some(1));

    ctx.window_closed(1);
    assert_eq!(ctx.find("preferences"), None);
    assert_eq!(ctx.find("main"), Some(0));

    let e = ctx.dispatch("preferences", 0);
    assert!(matches!(e, Effect::CreateWindow { index: 1 }));
    assert_eq!(count_named(&ctx, "preferences"), 1);
}

#[test]
fn reuse_policy_table() {
    assert_eq!(reuse_policy("preferences"), ReusePolicy::ReuseAndFocus);
    assert_eq!(reuse_policy("main"), ReusePolicy::ReuseAndFocus);
    assert_eq!(reuse_policy("about"), ReusePolicy::CreateAnew);
}

#[test]
fn show_or_create_focuses_an_existing_window() {
    let mut ctx = context_with_main();
    ctx.windows[0].focused = false;
    ctx.windows[0].visible = false;
    let e = ctx.show_or_create("main", plain_spec("main", 1, 1, ""));
    assert!(matches!(e, Effect::ShowFocus { index: 0 }));
    assert!(ctx.windows[0].focused);
    assert!(ctx.windows[0].visible);
    assert_eq!(ctx.windows.len(), 1);
}
