use server_launcher::paths::{
    dev_cli_probe_paths, find_dev_cli_path, DEV_CLI_PROBES, ENTRY_SCRIPT_NAME, MODULES_DIR_NAME,
    SERVER_DIR_NAME,
};

#[test]
fn probe_paths_are_parent_grandparent_then_local() {
    assert_eq!(dev_cli_probe_paths(), ["../cli.js", "../../cli.js", "cli.js"]);
    assert_eq!(dev_cli_probe_paths().len(), DEV_CLI_PROBES);
}

#[test]
fn bundle_layout_names() {
    assert_eq!(SERVER_DIR_NAME, "server");
    assert_eq!(ENTRY_SCRIPT_NAME, "cli.js");
    assert_eq!(MODULES_DIR_NAME, "node_modules");
}

#[test]
fn parent_script_is_chosen_when_it_exists() {
    assert_eq!(find_dev_cli_path(&[true, false, false]), "../cli.js");
}

#[test]
fn grandparent_script_is_chosen_when_parent_is_missing() {
    assert_eq!(find_dev_cli_path(&[false, true, false]), "../../cli.js");
}

#[test]
fn local_script_is_chosen_when_it_is_the_only_one() {
    assert_eq!(find_dev_cli_path(&[false, false, true]), "cli.js");
}

#[test]
fn default_is_used_when_nothing_exists() {
    assert_eq!(find_dev_cli_path(&[false, false, false]), "../cli.js");
}

#[test]
fn first_existing_wins_over_later_ones() {
    assert_eq!(find_dev_cli_path(&[true, true, true]), "../cli.js");
    assert_eq!(find_dev_cli_path(&[true, false, true]), "../cli.js");
    assert_eq!(find_dev_cli_path(&[true, true, false]), "../cli.js");
    assert_eq!(find_dev_cli_path(&[false, true, true]), "../../cli.js");
}

#[test]
fn choice_is_the_first_existing_probe_path_for_every_outcome() {
    let paths = dev_cli_probe_paths();
    for bits in 0..8u8 {
        let exists = [bits & 1 != 0, bits & 2 != 0, bits & 4 != 0];
        let expected = match exists.iter().position(|found| *found) {
            Some(first) => paths[first],
            None => "../cli.js",
        };
        assert_eq!(find_dev_cli_path(&exists), expected);
    }
}
