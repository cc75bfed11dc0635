use mtg_image_downloader::cli::{
    default_catalog_path, default_output_directory, Config, MtgCli, MtgCmd, DEFAULT_POOL_SIZE,
};

#[test]
fn defaults_are_the_usual_places() {
    assert_eq!(DEFAULT_POOL_SIZE, 128);
    assert_eq!(default_output_directory(), "./images");
    assert_eq!(default_catalog_path(), "./scryfall-oracle-cards.json");
    let config = Config::default();
    assert_eq!(config.pool_size, 128);
    assert_eq!(config.output_directory, "./images");
    assert_eq!(config.catalog_path, "./scryfall-oracle-cards.json");
}

#[test]
fn config_refuses_an_empty_pool() {
    assert_eq!(Config::new(0, "out".to_string(), "cards.json".to_string()), None);
    let config = Config::new(1, "out".to_string(), "cards.json".to_string()).unwrap();
    assert_eq!(config.pool_size, 1);
    assert_eq!(config.output_directory, "out");
    assert_eq!(config.catalog_path, "cards.json");
}

#[test]
fn load_command_names_the_catalog() {
    let cli = MtgCli::new(MtgCmd::Load { path: "my-cards.json".to_string() });
    assert_eq!(cli.cmd(), &MtgCmd::Load { path: "my-cards.json".to_string() });
    let config = cli.config();
    assert_eq!(config.catalog_path, "my-cards.json");
    assert_eq!(config.pool_size, 128);
    assert_eq!(config.output_directory, "./images");
}

#[test]
fn default_load_command_reads_the_usual_catalog() {
    assert_eq!(
        MtgCmd::load_default(),
        MtgCmd::Load { path: "./scryfall-oracle-cards.json".to_string() }
    );
    assert_eq!(MtgCmd::load_default().config(), Config::default());
}
