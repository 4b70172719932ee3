use pg_index_import::cli::{select_run_mode, Cli, ExclusiveOptions, RunMode};
use pg_index_import::settings::Settings;

fn cli(export: Option<bool>, import: Option<bool>) -> Cli {
    Cli {
        exclusive_options: ExclusiveOptions { export, import },
        config_file: String::from("pg_index_import.toml"),
        source_schema: String::from("*"),
        source_table: String::from("orders"),
        output_dir: Some(String::from("OUTPUT")),
        input_dir: Some(String::from("INPUT")),
        threads: 2,
        timeout_in_hours: 24,
    }
}

#[test]
fn settings_copy_every_option() {
    let args = cli(Some(true), None);
    let settings = Settings::from_args(&args);
    assert_eq!(settings.get_source_schema_name_as_ref().as_str(), "*");
    assert_eq!(settings.get_source_table_name_as_ref().as_str(), "orders");
    assert_eq!(
        settings.get_output_dir_as_ref().as_deref(),
        Some("OUTPUT")
    );
    assert_eq!(settings.get_input_dir_as_ref().as_deref(), Some("INPUT"));
    assert_eq!(settings.get_threads(), 2);
    assert_eq!(settings.get_timeout(), 24);
}

#[test]
fn settings_keep_missing_directories_missing() {
    let mut args = cli(None, Some(true));
    args.output_dir = None;
    args.input_dir = None;
    let settings = Settings::from_args(&args);
    assert!(settings.get_output_dir_as_ref().is_none());
    assert!(settings.get_input_dir_as_ref().is_none());
}

#[test]
fn export_switch_selects_export() {
    let opts = ExclusiveOptions {
        export: Some(true),
        import: None,
    };
    assert_eq!(select_run_mode(&opts), Some(RunMode::Export));
}

#[test]
fn import_switch_selects_import() {
    let opts = ExclusiveOptions {
        export: None,
        import: Some(true),
    };
    assert_eq!(select_run_mode(&opts), Some(RunMode::Import));
}

#[test]
fn conflicting_switches_select_nothing() {
    let both = ExclusiveOptions {
        export: Some(true),
        import: Some(true),
    };
    assert_eq!(select_run_mode(&both), None);
    let neither = ExclusiveOptions {
        export: None,
        import: None,
    };
    assert_eq!(select_run_mode(&neither), None);
}
