use thin_pool_docker_volume::config::{socket_path, Config, Startup, IMPORT_EXISTING};

fn config(import_existing: bool) -> Config {
    Config {
        vg_name: "docker_thin_vg".to_string(),
        thin_pool_name: "docker_thin_pool".to_string(),
        import_existing,
    }
}

#[test]
fn socket_defaults_to_the_plugin_directory() {
    assert_eq!(socket_path(None), "/run/docker/plugins/lvm_thin_pool.sock");
    assert_eq!(socket_path(Some("/tmp/x.sock".to_string())), "/tmp/x.sock");
}

#[test]
fn existing_lvs_are_imported_or_cleaned() {
    assert!(IMPORT_EXISTING);
    assert_eq!(config(true).startup(), Startup::Import);
    assert_eq!(config(false).startup(), Startup::Clean);
}
