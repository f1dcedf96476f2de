//! Tests for the command palette

use corty_tui::slash_command::SlashCommand;
use corty_tui::widgets::command_popup::{filter_text, select_with_prefix, CommandPopup};

#[test]
fn test_palette_starts_with_all_commands() {
    let popup = CommandPopup::new();
    assert_eq!(
        popup.filtered_commands(),
        &vec![SlashCommand::Clear, SlashCommand::AskAI, SlashCommand::Fullscreen]
    );
    assert_eq!(popup.selected_index(), Some(0));
    assert_eq!(popup.selected_command(), Some(SlashCommand::Clear));
    assert_eq!(popup.filter(), "");
    assert!(popup.has_commands());
}

#[test]
fn test_filter_cl_yields_clear_selected() {
    let mut popup = CommandPopup::new();
    popup.update_filter("/cl");
    assert_eq!(popup.filter(), "cl");
    assert_eq!(popup.filtered_commands(), &vec![SlashCommand::Clear]);
    assert_eq!(popup.selected_index(), Some(0));
    assert_eq!(popup.selected_command(), Some(SlashCommand::Clear));
}

#[test]
fn test_filter_z_yields_nothing_and_no_selection() {
    let mut popup = CommandPopup::new();
    popup.update_filter("/z");
    assert!(popup.filtered_commands().is_empty());
    assert_eq!(popup.selected_index(), None);
    assert_eq!(popup.selected_command(), None);
    assert!(!popup.has_commands());
}

#[test]
fn test_filter_ignores_case() {
    let mut popup = CommandPopup::new();
    popup.update_filter("/FULL");
    assert_eq!(popup.filtered_commands(), &vec![SlashCommand::Fullscreen]);
    popup.update_filter("/Ask-AI");
    assert_eq!(popup.filtered_commands(), &vec![SlashCommand::AskAI]);
}

#[test]
fn test_filter_matches_prefixes_only() {
    let mut popup = CommandPopup::new();
    // "lear" is within "clear", and not at its start.
    popup.update_filter("/lear");
    assert!(popup.filtered_commands().is_empty());
    // Longer than the name.
    popup.update_filter("/clearing");
    assert!(popup.filtered_commands().is_empty());
    popup.update_filter("/clear");
    assert_eq!(popup.filtered_commands(), &vec![SlashCommand::Clear]);
}

#[test]
fn test_empty_filter_keeps_the_order_of_the_list() {
    let mut popup = CommandPopup::new();
    popup.update_filter("/z");
    popup.update_filter("/");
    assert_eq!(
        popup.filtered_commands(),
        &vec![SlashCommand::Clear, SlashCommand::AskAI, SlashCommand::Fullscreen]
    );
    // The selection defaults to the first command.
    assert_eq!(popup.selected_index(), Some(0));
}

#[test]
fn test_filter_text_ends_at_the_first_white_space() {
    assert_eq!(filter_text("/cl"), "cl");
    assert_eq!(filter_text("/ask-ai what is this"), "ask-ai");
    assert_eq!(filter_text("/full\tscreen"), "full");
    assert_eq!(filter_text("/a\u{3000}b"), "a");
    assert_eq!(filter_text("/ cl"), "");
    assert_eq!(filter_text("/"), "");
    assert_eq!(filter_text(""), "");
    // Without the trigger there is no filter.
    assert_eq!(filter_text("cl"), "");
    assert_eq!(filter_text(" /cl"), "");
    // Only the first trigger is taken off.
    assert_eq!(filter_text("//c"), "/c");
    assert_eq!(filter_text("/é✓x y"), "é✓x");
}

#[test]
fn test_text_without_trigger_shows_all_commands() {
    let mut popup = CommandPopup::new();
    popup.update_filter("clear");
    assert_eq!(popup.filter(), "");
    assert_eq!(popup.filtered_commands().len(), 3);
}

#[test]
fn test_selection_is_clamped_into_the_filtered_list() {
    let mut popup = CommandPopup::new();
    popup.select_next();
    popup.select_next();
    assert_eq!(popup.selected_index(), Some(2));
    popup.update_filter("/f");
    assert_eq!(popup.filtered_commands(), &vec![SlashCommand::Fullscreen]);
    assert_eq!(popup.selected_index(), Some(0));
    // A selection within the list stays.
    popup.update_filter("/");
    popup.select_next();
    popup.apply_filter();
    assert_eq!(popup.selected_index(), Some(1));
}

#[test]
fn test_selection_wraps_around() {
    let mut popup = CommandPopup::new();
    popup.select_previous();
    assert_eq!(popup.selected_index(), Some(2));
    assert_eq!(popup.selected_command(), Some(SlashCommand::Fullscreen));
    popup.select_next();
    assert_eq!(popup.selected_index(), Some(0));
    popup.select_next();
    assert_eq!(popup.selected_index(), Some(1));
    assert_eq!(popup.selected_command(), Some(SlashCommand::AskAI));
    popup.select_previous();
    assert_eq!(popup.selected_index(), Some(0));
}

#[test]
fn test_selection_stays_none_in_an_empty_list() {
    let mut popup = CommandPopup::new();
    popup.update_filter("/z");
    popup.select_next();
    assert_eq!(popup.selected_index(), None);
    popup.select_previous();
    assert_eq!(popup.selected_index(), None);
}

#[test]
fn test_palette_height() {
    let mut popup = CommandPopup::new();
    assert_eq!(popup.calculate_height(), 5);
    popup.update_filter("/c");
    assert_eq!(popup.calculate_height(), 3);
    // An empty list still takes one row for its notice.
    popup.update_filter("/z");
    assert_eq!(popup.calculate_height(), 3);
}

#[test]
fn test_select_with_prefix_keeps_order() {
    let commands = vec![SlashCommand::Fullscreen, SlashCommand::Clear, SlashCommand::AskAI];
    let names = vec!["alpha".to_string(), "beta".to_string(), "alp".to_string()];
    assert_eq!(
        select_with_prefix(&commands, &names, "al"),
        vec![SlashCommand::Fullscreen, SlashCommand::AskAI]
    );
    assert_eq!(select_with_prefix(&commands, &names, "alph"), vec![SlashCommand::Fullscreen]);
    assert_eq!(select_with_prefix(&commands, &names, ""), commands);
    assert!(select_with_prefix(&commands, &names, "AL").is_empty());
    // A command without a name is not kept.
    assert_eq!(
        select_with_prefix(&commands, &vec!["x".to_string()], ""),
        vec![SlashCommand::Fullscreen]
    );
}
