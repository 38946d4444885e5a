use zfs_space_visualizer::config::{Commands, Config, ConfigError};
use zfs_space_visualizer::state::{AppState, AppView};
use zfs_space_visualizer::theme::{Color, Theme, ThemeManager};
use zfs_space_visualizer::ui::{
    bar_fill, calculate_dataset_name_width, calculate_dataset_scaling, calculate_max_pool_name_width,
    calculate_snapshot_name_width, calculate_snapshot_scaling, dataset_display_name, pool_bar_fill,
    pool_usage_label, prefetch_status_text, progress_bar_cells, snapshot_display_name, status_title,
    truncate_with_ellipsis, usage_percent, CellStyle, BAR_WIDTH,
};
use zfs_space_visualizer::zfs::{Dataset, Pool, Snapshot};

fn pool(name: &str, size: u64, allocated: u64) -> Pool {
    Pool { name: name.to_string(), size, allocated, free: size - allocated, health: "ONLINE".to_string(), usable_size: size }
}

#[test]
fn tank_usage_bar() {
    let p = pool("tank", 10995116277760, 3298534883328);
    assert_eq!(pool_bar_fill(&p), 6);
    assert_eq!(pool_usage_label(&p), "3.0T / 10.0T (30%)");
}

#[test]
fn usage_edges() {
    let empty = pool("e", 0, 0);
    assert_eq!(pool_bar_fill(&empty), 0);
    assert_eq!(pool_usage_label(&empty), "0B / 0B (0%)");
    let full = pool("f", 1024, 1024);
    assert_eq!(pool_bar_fill(&full), BAR_WIDTH);
    assert_eq!(pool_usage_label(&full), "1.0K / 1.0K (100%)");
    assert_eq!(usage_percent(1, 8), 12);
    assert_eq!(usage_percent(1, 200), 0);
    assert_eq!(usage_percent(3, 200), 2);
    assert_eq!(usage_percent(5, 3), 167);
}

#[test]
fn bar_fill_rounds_down_and_caps() {
    assert_eq!(bar_fill(0, 10), 0);
    assert_eq!(bar_fill(1, 10), 2);
    assert_eq!(bar_fill(9, 10), 18);
    assert_eq!(bar_fill(1, 21), 0);
    assert_eq!(bar_fill(50, 10), 20);
    assert_eq!(bar_fill(5, 0), 0);
    assert_eq!(bar_fill(u128::MAX - 1, u128::MAX), 19);
}

#[test]
fn truncation() {
    assert_eq!(truncate_with_ellipsis("short", 10), "short");
    assert_eq!(truncate_with_ellipsis("abcdefghij", 10), "abcdefghij");
    assert_eq!(truncate_with_ellipsis("abcdefghij", 7), "ab...ij");
    assert_eq!(truncate_with_ellipsis("abcdefghij", 8), "ab...hij");
    assert_eq!(truncate_with_ellipsis("abcdefghij", 3), "...");
    assert_eq!(truncate_with_ellipsis("abcdefghij", 2), "..");
    assert_eq!(truncate_with_ellipsis("abcdefghij", 0), "");
}

#[test]
fn pool_name_width() {
    assert_eq!(calculate_max_pool_name_width(&[]), 20);
    assert_eq!(calculate_max_pool_name_width(&[pool("tank", 1, 0)]), 20);
    let long = "a-very-long-pool-name-indeed";
    assert_eq!(calculate_max_pool_name_width(&[pool("tank", 1, 0), pool(long, 1, 0)]), long.len());
}

#[test]
fn name_widths() {
    assert_eq!(calculate_dataset_name_width(100), 21);
    assert_eq!(calculate_dataset_name_width(79), 20);
    assert_eq!(calculate_dataset_name_width(80), 1);
    assert_eq!(calculate_snapshot_name_width(100), 46);
    assert_eq!(calculate_snapshot_name_width(60), 20);
    assert_eq!(calculate_snapshot_name_width(10), 20);
}

#[test]
fn display_names() {
    assert_eq!(dataset_display_name("tank/home", "tank", 20), "home");
    assert_eq!(dataset_display_name("tank", "tank", 20), "(root dataset)");
    assert_eq!(dataset_display_name("tank/home/alice/projects", "tank", 10), "hom...ects");
    assert_eq!(dataset_display_name("other/x", "tank", 20), "other/x");
    assert_eq!(snapshot_display_name(&"tank/home@daily-2024".to_string(), 20), "daily-2024");
    assert_eq!(snapshot_display_name(&"noat".to_string(), 20), "noat");
}

#[test]
fn scaling_values() {
    let none = calculate_dataset_scaling(&[]);
    assert_eq!((none.max_dataset_size, none.max_snapshot_size, none.max_total_size), (1, 1, 1));
    let d = |r: u64, s: u64| Dataset { name: "x".to_string(), used: 0, available: 0, referenced: r, snapshot_used: s };
    let v = calculate_dataset_scaling(&[d(5, 1), d(2, 9), d(u64::MAX, u64::MAX)]);
    assert_eq!(v.max_dataset_size, u64::MAX);
    assert_eq!(v.max_snapshot_size, u64::MAX);
    assert_eq!(v.max_total_size, 2 * (u64::MAX as u128));
    let s = |u: u64, r: u64| Snapshot { name: "x".to_string(), used: u, referenced: r, creation: String::new() };
    let sv = calculate_snapshot_scaling(&[s(3, 10), s(7, 2)]);
    assert_eq!((sv.max_used_size, sv.max_referenced_size), (7, 10));
    let se = calculate_snapshot_scaling(&[]);
    assert_eq!((se.max_used_size, se.max_referenced_size), (1, 1));
}

#[test]
fn config_validation() {
    let c = |t: Option<usize>| Config { command: None, readonly: false, threads: t };
    assert!(c(None).validate().is_ok());
    assert!(c(Some(1)).validate().is_ok());
    assert!(c(Some(1000)).validate().is_ok());
    let zero = c(Some(0)).validate().err().unwrap();
    assert!(matches!(zero, ConfigError::ZeroThreads));
    assert_eq!(zero.message(), "Thread count must be at least 1");
    let many = c(Some(1001)).validate().err().unwrap();
    assert!(matches!(many, ConfigError::TooManyThreads));
    assert_eq!(many.message(), "Thread count must not exceed 1000");
    let u = Config { command: Some(Commands::Update), readonly: true, threads: None };
    assert!(u.validate().is_ok());
}

#[test]
fn thread_counts() {
    let c = |t: Option<usize>| Config { command: None, readonly: false, threads: t };
    assert_eq!(c(Some(5)).effective_thread_count(Some(64)), 5);
    assert_eq!(c(Some(0)).effective_thread_count(Some(64)), 1);
    assert_eq!(c(None).effective_thread_count(Some(4)), 32);
    assert_eq!(c(None).effective_thread_count(None), 32);
    assert_eq!(c(None).effective_thread_count(Some(0)), 1);
    assert_eq!(c(None).effective_thread_count(Some(usize::MAX)), 1000);
    assert_eq!(c(None).effective_thread_count(Some(200)), 1000);
    assert_eq!(c(None).effective_thread_count(Some(125)), 1000);
    assert_eq!(c(None).effective_thread_count(Some(124)), 992);
    assert!(Config::default().threads.is_none());
}

#[test]
fn theme_cursor() {
    let mut t = ThemeManager::new();
    assert_eq!(t.current_theme, Theme::Dark);
    t.previous_theme();
    assert_eq!(t.selected_theme_index, 0);
    t.next_theme();
    t.next_theme();
    assert_eq!(t.selected_theme_index, 1);
    t.select_theme();
    assert_eq!(t.current_theme, Theme::Light);
    assert_eq!(t.get_colors().accent, Color::Blue);
    t.previous_theme();
    t.set_selected_index_from_theme();
    assert_eq!(t.selected_theme_index, 1);
    assert_eq!(Theme::Dark.get_colors().accent, Color::Cyan);
    assert_eq!(Theme::default(), Theme::Dark);
}

#[test]
fn scroll_keeps_selection_visible() {
    let mut s = AppState::new(Config::default(), None);
    s.current_view = AppView::DatasetView("tank".to_string());
    s.data_manager.datasets = (0..30)
        .map(|i| Dataset { name: format!("tank/{}", i), used: 0, available: 0, referenced: 0, snapshot_used: 0 })
        .collect();
    s.selected_dataset_index = 25;
    s.update_scroll(10);
    assert_eq!(s.dataset_scroll_offset, 16);
    assert_eq!(s.get_visible_range(30, 10), (16, 26));
    s.selected_dataset_index = 3;
    s.update_scroll(10);
    assert_eq!(s.dataset_scroll_offset, 3);
    s.selected_dataset_index = 29;
    s.update_scroll(10);
    assert_eq!(s.dataset_scroll_offset, 20);
    assert_eq!(s.get_visible_range(30, 10), (20, 30));
    s.update_scroll(50);
    assert_eq!(s.dataset_scroll_offset, 0);
    s.current_view = AppView::PoolList;
    assert_eq!(s.get_visible_range(5, 10), (0, 5));
}

#[test]
fn bar_cells_overlay_label_on_the_right() {
    let cells = progress_bar_cells(6, '#', "3.0T");
    assert_eq!(cells.len(), 20);
    let text: String = cells.iter().map(|c| c.ch).collect();
    assert_eq!(text, "######          3.0T");
    assert_eq!(cells[0].style, CellStyle::Fill);
    assert_eq!(cells[6].style, CellStyle::Empty);
    assert_eq!(cells[16].style, CellStyle::TextOnEmpty);
    let full = progress_bar_cells(20, '#', "ab");
    assert_eq!(full[19].style, CellStyle::TextOnFill);
    assert_eq!(full[18].ch, 'a');
    let long = progress_bar_cells(0, '#', "abcdefghijklmnopqrstuvwxyz");
    assert_eq!(long.iter().map(|c| c.ch).collect::<String>(), "abcdefghijklmnopqrst");
}

#[test]
fn status_titles() {
    let mut s = AppState::new(Config::default(), None);
    assert_eq!(prefetch_status_text(&s.data_manager), " [Loading snapshots...]");
    assert_eq!(status_title(&s), "Pool List (0/0) [Loading snapshots...]");
    s.data_manager.begin_prefetch(vec![Ok(vec![
        Dataset { name: "tank".to_string(), used: 0, available: 0, referenced: 0, snapshot_used: 0 },
        Dataset { name: "tank/a".to_string(), used: 0, available: 0, referenced: 0, snapshot_used: 0 },
    ])]);
    s.data_manager.record_prefetch_result("tank", Ok(vec![]));
    assert_eq!(prefetch_status_text(&s.data_manager), " [Loading snapshots for dataset 1 of 2...]");
    s.data_manager.record_prefetch_result("tank/a", Ok(vec![]));
    assert_eq!(prefetch_status_text(&s.data_manager), "");
    s.current_view = AppView::DatasetView("tank".to_string());
    assert_eq!(status_title(&s), "Datasets in tank (0/0)");
    s.current_view = AppView::Help;
    assert_eq!(status_title(&s), "Help & Settings");
}
