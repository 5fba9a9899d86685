use foreci::dashboard::{App, MenuAction, Tab};
use foreci::workload::{DockerCompose, DockerImage};

fn compose(name: &str) -> DockerCompose {
    DockerCompose {
        name: name.to_string(),
        service: "web".to_string(),
        image: "nginx:latest".to_string(),
        ports: String::new(),
        container_name: String::new(),
        hostname: String::new(),
        build_context: String::new(),
        dockerfile: String::new(),
        environment: vec![],
        volumes: vec![],
        networks: vec![],
        restart: String::new(),
    }
}

fn app_with(n: usize) -> App {
    let mut app = App::new();
    app.begin_container_fetch();
    for i in 0..n {
        app.add_compose_output("{}", Some(compose(&format!("stack{}", i))));
    }
    app.finish_container_fetch();
    app
}

#[test]
fn select_next_wraps_around() {
    let mut app = app_with(3);
    for start in 0..3usize {
        app.container_idx = Some(start);
        for _ in 0..3 {
            app.select_next_container();
        }
        assert_eq!(app.container_idx, Some(start));
    }
    app.container_idx = Some(2);
    app.select_next_container();
    assert_eq!(app.container_idx, Some(0));
    app.select_prev_container();
    assert_eq!(app.container_idx, Some(2));
}

#[test]
fn select_prev_on_empty_list_is_noop() {
    let mut app = App::new();
    app.select_prev_container();
    assert_eq!(app.container_idx, None);
    app.select_next_container();
    assert_eq!(app.container_idx, None);
    app.select_prev_image();
    app.select_next_image();
    assert_eq!(app.image_idx, None);
}

#[test]
fn select_from_nothing_goes_to_ends() {
    let mut app = app_with(4);
    app.container_idx = None;
    app.select_prev_container();
    assert_eq!(app.container_idx, Some(3));
    app.container_idx = None;
    app.select_next_container();
    assert_eq!(app.container_idx, Some(0));
}

#[test]
fn menu_next_three_times_returns() {
    let mut app = app_with(2);
    app.toggle_expand();
    for m in 0..3usize {
        app.menu_selection = m;
        app.menu_next();
        app.menu_next();
        app.menu_next();
        assert_eq!(app.menu_selection, m);
        assert_eq!(app.expanded_index, Some(0));
    }
    app.menu_selection = 0;
    app.menu_prev();
    assert_eq!(app.menu_selection, 2);
    assert_eq!(app.get_menu_action(), Some(MenuAction::Delete));
}

#[test]
fn menu_moves_only_when_expanded() {
    let mut app = app_with(2);
    app.menu_next();
    assert_eq!(app.menu_selection, 0);
    assert_eq!(app.get_menu_action(), None);
}

#[test]
fn expand_then_delete_scenario() {
    let mut app = app_with(3);
    app.select_next_container();
    assert_eq!(app.container_idx, Some(1));
    app.toggle_expand();
    assert_eq!(app.expanded_index, Some(1));
    assert_eq!(app.menu_selection, 0);
    app.menu_next();
    app.menu_next();
    assert_eq!(app.expanded_index, Some(1));
    assert_eq!(app.menu_selection, 2);
    assert_eq!(app.get_menu_action(), Some(MenuAction::Delete));
    assert!(app.execute_menu_action().is_none());
    assert_eq!(app.containers.len(), 2);
    assert_eq!(app.containers[0].name, "stack0");
    assert_eq!(app.containers[1].name, "stack2");
    assert_eq!(app.expanded_index, None);
    assert_eq!(app.menu_selection, 0);
    let sel = app.container_idx.expect("selection stays");
    assert!(sel < app.containers.len());
    assert!(app.log.to_display_string().ends_with("[Info] Deleting: stack1"));
}

#[test]
fn delete_last_entry_clamps_selection() {
    let mut app = app_with(2);
    app.container_idx = Some(1);
    app.toggle_expand();
    app.menu_prev();
    app.execute_menu_action();
    assert_eq!(app.containers.len(), 1);
    assert_eq!(app.container_idx, Some(0));
    app.toggle_expand();
    app.menu_prev();
    app.execute_menu_action();
    assert_eq!(app.containers.len(), 0);
    assert_eq!(app.container_idx, None);
}

#[test]
fn toggle_same_entry_collapses() {
    let mut app = app_with(2);
    app.toggle_expand();
    assert_eq!(app.expanded_index, Some(0));
    app.menu_next();
    app.select_next_container();
    assert_eq!(app.container_idx, Some(0));
    app.container_idx = Some(1);
    app.toggle_expand();
    assert_eq!(app.expanded_index, Some(1));
    assert_eq!(app.menu_selection, 0);
    app.toggle_expand();
    assert_eq!(app.expanded_index, None);
}

#[test]
fn cancel_collapses_from_any_state() {
    let mut app = app_with(2);
    app.toggle_expand();
    app.menu_next();
    app.cancel_menu();
    assert_eq!(app.expanded_index, None);
    assert_eq!(app.menu_selection, 0);
    app.cancel_menu();
    assert_eq!(app.expanded_index, None);
}

#[test]
fn stop_only_logs() {
    let mut app = app_with(1);
    app.toggle_expand();
    app.menu_next();
    assert_eq!(app.get_menu_action(), Some(MenuAction::Stop));
    assert!(app.execute_menu_action().is_none());
    assert_eq!(app.containers.len(), 1);
    assert_eq!(app.expanded_index, None);
    assert!(app.log.to_display_string().ends_with("[Info] Stopping: stack0"));
}

#[test]
fn execute_with_menu_closed_does_nothing() {
    let mut app = app_with(1);
    assert!(app.execute_menu_action().is_none());
    assert_eq!(app.containers.len(), 1);
}

#[test]
fn delete_key_removes_last() {
    let mut app = app_with(3);
    app.container_idx = Some(2);
    app.toggle_expand();
    app.delete();
    assert_eq!(app.containers.len(), 2);
    assert_eq!(app.containers[1].name, "stack1");
    assert_eq!(app.container_idx, Some(1));
    assert_eq!(app.expanded_index, None);
    let mut empty = App::new();
    empty.delete();
    assert!(empty.containers.is_empty());
}

#[test]
fn tabs_cycle_both_ways() {
    let mut app = App::new();
    assert_eq!(app.current_tab, Tab::Containers);
    app.next_tab();
    assert_eq!(app.current_tab, Tab::Images);
    for _ in 0..4 {
        app.next_tab();
    }
    assert_eq!(app.current_tab, Tab::Containers);
    app.prev_tab();
    assert_eq!(app.current_tab, Tab::Settings);
    app.prev_tab();
    assert_eq!(app.current_tab, Tab::Logs);
}

#[test]
fn details_flag_is_set() {
    let mut app = App::new();
    app.toggle_details();
    app.toggle_details();
    assert!(app.details_state);
}

#[test]
fn container_fetch_replaces_list() {
    let mut app = app_with(3);
    assert_eq!(app.container_idx, Some(0));
    app.toggle_expand();
    app.begin_container_fetch();
    assert!(app.loading);
    assert!(app.containers.is_empty());
    assert_eq!(app.expanded_index, None);
    app.add_compose_output("not json", None);
    app.finish_container_fetch();
    assert!(!app.loading);
    assert!(app.containers.is_empty());
    assert_eq!(app.container_idx, None);
    assert!(app.log.to_display_string().ends_with("[Info] not json"));
}

#[test]
fn image_fetch_logs_count() {
    let mut app = App::new();
    app.begin_image_fetch();
    app.finish_image_fetch();
    assert_eq!(app.image_idx, None);
    assert!(app.log.to_display_string().ends_with("[Info] No Docker images found"));
    app.begin_image_fetch();
    for i in 0..12 {
        app.add_image(DockerImage {
            repository: format!("repo{}", i),
            tag: "latest".to_string(),
            image_id: "id".to_string(),
            created: "now".to_string(),
            size: "1MB".to_string(),
        });
    }
    app.finish_image_fetch();
    assert_eq!(app.image_idx, Some(0));
    assert!(app.log.to_display_string().ends_with("[Info] Found 12 images"));
    app.select_prev_image();
    assert_eq!(app.image_idx, Some(11));
    app.select_next_image();
    assert_eq!(app.image_idx, Some(0));
}

#[test]
fn default_dashboard_is_empty() {
    let app = App::default();
    assert_eq!(app.current_tab, Tab::Containers);
    assert_eq!(app.expanded_index, None);
    assert_eq!(app.menu_selection, 0);
    assert!(app.containers.is_empty() && app.images.is_empty());
    assert!(app.cpu_data.is_empty() && app.mem_data.is_empty() && app.net_data.is_empty());
    assert!(!app.loading && !app.log_stream_active && !app.analytics_active);
    assert_eq!(app.log_scroll, 0);
    assert_eq!(app.log.to_display_string(), "");
}

#[test]
fn telemetry_follows_selected_container() {
    let mut app = app_with(2);
    assert_eq!(app.selected_container_id(), Some("stack0".to_string()));
    app.containers[1].container_name = "explicit".to_string();
    app.select_next_container();
    assert_eq!(app.selected_container_id(), Some("explicit".to_string()));
    let empty = App::new();
    assert_eq!(empty.selected_container_id(), None);
}
