use frontier::config::{resolve, Config, ConfigError, PkgMgrs, TomlField};

fn good_config_contents() -> String {
    "[package_manager]\n\
     name = \"pacman\"\n\
     args = [\"--noconfirm\"]\n\
     \n\
     [pkgs]\n\
     install = [\n\
     \t\"neofetch\",\n\
     \t\"neovim\",\n\
     \t\"lolcat\",\n\
     ]\n"
        .to_string()
}

#[test]
fn good_config() {
    let config_contents = good_config_contents();

    let config = Config::build(config_contents);

    assert!(config.is_ok(), "Config was: {:?}", config);
}

#[test]
fn good_config_no_args() {
    let config_contents = "[package_manager]\n\
         name = \"pacman\"\n\
         \n\
         [pkgs]\n\
         install = [\"neovim\"]\n"
        .to_string();

    let config = Config::build(config_contents);

    assert!(config.is_ok(), "Config was: {:?}", config);
}

#[test]
fn bad_config_missing_package_manager_name() {
    let config_contents = "[package_manager]\n\
         args = [\"--noconfirm\"]\n\
         \n\
         [pkgs]\n\
         install = [\"neovim\"]\n"
        .to_string();

    let config = Config::build(config_contents);

    assert!(config.is_err(), "Config was: {:?}", config);
}

#[test]
fn bad_config_missing_pkgs_install() {
    let config_contents = "[package_manager]\n\
         name = \"pacman\"\n\
         \n\
         [pkgs]\n"
        .to_string();

    let config = Config::build(config_contents);

    assert!(config.is_err(), "Config was: {:?}", config);
}

#[test]
fn bad_config_args_not_array() {
    let config_contents = "[package_manager]\n\
         name = \"pacman\"\n\
         args = \"--noconfirm\"\n\
         \n\
         [pkgs]\n\
         install = [\"neovim\"]\n"
        .to_string();

    let config = Config::build(config_contents).unwrap();

    let args_to_pkg_mgr = config.args_to_pkg_mgr();

    assert!(args_to_pkg_mgr.is_err(), "Args were: {:?}", args_to_pkg_mgr);
}

#[test]
fn bad_config_install_not_array() {
    let config_contents = "[package_manager]\n\
         name = \"pacman\"\n\
         \n\
         [pkgs]\n\
         install = \"vim\"\n"
        .to_string();

    let config = Config::build(config_contents).unwrap();

    let pkgs_to_install = config.pkgs_to_install();

    assert!(pkgs_to_install.is_err(), "Install was: {:?}", pkgs_to_install);
}

#[test]
fn bad_config_unsupported_package_manager() {
    let config_contents = "[package_manager]\n\
         name = \"foobar\"\n\
         \n\
         [pkgs]\n\
         install = [\"neovim\"]\n"
        .to_string();

    let config = Config::build(config_contents).unwrap();

    let pkg_mgr = config.pkg_mgr();

    assert!(pkg_mgr.is_err(), "Package manager was: {:?}", pkg_mgr);
}

#[test]
fn bad_config_package_manager_not_string() {
    let config_contents = "[package_manager]\n\
         name = 3\n\
         \n\
         [pkgs]\n\
         install = [\"neovim\"]\n"
        .to_string();

    let config = Config::build(config_contents).unwrap();

    let pkg_mgr = config.pkg_mgr();

    assert!(pkg_mgr.is_err(), "Package manager was: {:?}", pkg_mgr);
}

#[test]
fn parse_error_on_malformed_text() {
    let config = Config::build("this is not = [ valid".to_string());
    assert!(config.is_err(), "Config was: {:?}", config);
    let message = config.unwrap_err().message();
    assert!(!message.is_empty());
}

#[test]
fn missing_name_message() {
    let config = Config::build("[package_manager]\n[pkgs]\ninstall = []\n".to_string());
    let err = config.unwrap_err();
    assert_eq!(err.message(), "missing field `name` of [package_manager].");
}

#[test]
fn missing_install_message() {
    let config = Config::build("[package_manager]\nname = \"pacman\"\n[pkgs]\n".to_string());
    let err = config.unwrap_err();
    assert_eq!(err.message(), "missing field `install` of [pkgs].");
}

#[test]
fn install_list_preserved_exactly() {
    let config = Config::build(good_config_contents()).unwrap();
    let pkgs = config.pkgs_to_install().unwrap();
    assert_eq!(
        pkgs,
        vec!["neofetch".to_string(), "neovim".to_string(), "lolcat".to_string()]
    );
}

#[test]
fn install_list_drops_non_string_elements() {
    let config_contents = "[package_manager]\n\
         name = \"pacman\"\n\
         \n\
         [pkgs]\n\
         install = [\"vim\", 3, \"git\", true]\n"
        .to_string();

    let config = Config::build(config_contents).unwrap();
    let pkgs = config.pkgs_to_install().unwrap();
    assert_eq!(pkgs, vec!["vim".to_string(), "git".to_string()]);
}

#[test]
fn install_not_array_error_message() {
    let config_contents = "[package_manager]\n\
         name = \"pacman\"\n\
         \n\
         [pkgs]\n\
         install = \"vim\"\n"
        .to_string();

    let config = Config::build(config_contents).unwrap();
    let err = config.pkgs_to_install().unwrap_err();
    assert_eq!(err, ConfigError::InstallNotArray);
    assert_eq!(err.message(), "expected field `install` of [pkgs] to be an array.");
}

#[test]
fn name_not_string_error_message() {
    let config_contents = "[package_manager]\n\
         name = 3\n\
         \n\
         [pkgs]\n\
         install = [\"vim\"]\n"
        .to_string();

    let config = Config::build(config_contents).unwrap();
    let err = config.pkg_mgr().unwrap_err();
    assert_eq!(err, ConfigError::NameNotString);
    assert_eq!(
        err.message(),
        "expected field `name` of [package_manager] to be a string."
    );
}

#[test]
fn args_not_array_error_message() {
    let config_contents = "[package_manager]\n\
         name = \"pacman\"\n\
         args = 7\n\
         \n\
         [pkgs]\n\
         install = [\"vim\"]\n"
        .to_string();

    let config = Config::build(config_contents).unwrap();
    let err = config.args_to_pkg_mgr().unwrap_err();
    assert_eq!(err, ConfigError::ArgsNotArray);
    assert_eq!(
        err.message(),
        "expected field `args` of [package_manager] to be an array."
    );
}

#[test]
fn absent_args_means_no_arguments() {
    let config_contents = "[package_manager]\n\
         name = \"yay\"\n\
         \n\
         [pkgs]\n\
         install = [\"vim\"]\n"
        .to_string();

    let config = Config::build(config_contents).unwrap();
    let args = config.args_to_pkg_mgr().unwrap();
    assert_eq!(args, Vec::<String>::new());
}

#[test]
fn scenario_pacman_vim_git() {
    let config_contents = "[package_manager]\nname=\"pacman\"\n[pkgs]\ninstall=[\"vim\",\"git\"]".to_string();

    let config = Config::build(config_contents).unwrap();
    assert_eq!(config.pkg_mgr().unwrap(), PkgMgrs::Pacman);
    assert_eq!(
        config.pkgs_to_install().unwrap(),
        vec!["vim".to_string(), "git".to_string()]
    );
}

#[test]
fn resolve_known_and_unknown_names() {
    assert_eq!(resolve("apt").unwrap(), PkgMgrs::Apt);
    assert_eq!(resolve("brew").unwrap(), PkgMgrs::Brew);
    assert_eq!(resolve("pacman").unwrap(), PkgMgrs::Pacman);
    assert_eq!(resolve("paru").unwrap(), PkgMgrs::Paru);
    assert_eq!(resolve("yay").unwrap(), PkgMgrs::Yay);
    assert_eq!(resolve("dnf").unwrap_err(), ConfigError::UnsupportedManager);
    assert_eq!(resolve("Pacman").unwrap_err(), ConfigError::UnsupportedManager);
    assert_eq!(resolve("").unwrap_err(), ConfigError::UnsupportedManager);
}

#[test]
fn unsupported_manager_mentions_spelling() {
    let err = resolve("foobar").unwrap_err();
    assert_eq!(err, ConfigError::UnsupportedManager);
    assert!(err.message().contains("spelling"));
}

#[test]
fn descriptor_fields_for_each_manager() {
    let apt = PkgMgrs::Apt.descriptor();
    assert_eq!(apt.name, "apt");
    assert_eq!(apt.invocation, "apt");
    assert!(apt.needs_sudo);
    assert_eq!(apt.install_flag, "install");
    assert_eq!(apt.confirm_flags, vec!["-y".to_string()]);
    assert_eq!(apt.list_invocation, "apt-mark");
    assert_eq!(apt.list_args, vec!["showmanual".to_string()]);

    let pacman = PkgMgrs::Pacman.descriptor();
    assert!(pacman.needs_sudo);
    assert_eq!(pacman.install_flag, "-S");
    assert_eq!(pacman.list_args, vec!["-Qeq".to_string()]);

    let yay = PkgMgrs::Yay.descriptor();
    assert!(!yay.needs_sudo);
    assert_eq!(yay.invocation, "yay");
    assert_eq!(yay.confirm_flags, vec!["--noconfirm".to_string()]);

    let brew = PkgMgrs::Brew.descriptor();
    assert!(!brew.needs_sudo);
    assert_eq!(brew.install_flag, "install");
    assert_eq!(brew.confirm_flags, Vec::<String>::new());

    let paru = PkgMgrs::Paru.descriptor();
    assert!(!paru.needs_sudo);
    assert_eq!(paru.install_flag, "-S");
}

#[test]
fn build_keeps_field_shapes() {
    let config = Config::build(good_config_contents()).unwrap();
    assert!(matches!(config.package_manager.name, TomlField::Str(_)));
    assert!(matches!(config.package_manager.args, Some(TomlField::Array(_))));
    assert!(matches!(config.pkgs.install, TomlField::Array(_)));
}
