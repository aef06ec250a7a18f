use eshu_shapeshifter::scanner::{parse_installed_packages, parse_passwd, parse_unit_files};

#[test]
fn pacman_listing_parses_name_and_version() {
    let out = "bash 5.2.026-2\nvim 9.1.0-1\nbroken\n";
    let pkgs = parse_installed_packages("pacman", out);
    assert_eq!(pkgs.len(), 2);
    assert_eq!(pkgs[0].name, "bash");
    assert_eq!(pkgs[0].version, "5.2.026-2");
    assert_eq!(pkgs[0].description, None);
    assert_eq!(pkgs[1].name, "vim");
}

#[test]
fn dpkg_listing_keeps_installed_rows_and_descriptions() {
    let out = "Desired=Unknown/Install\nii  vim  2:9.0  amd64  Vi IMproved enhanced editor\nrc  old-pkg  1.0  amd64  removed\nii  dash  0.5.12\n";
    let pkgs = parse_installed_packages("apt", out);
    assert_eq!(pkgs.len(), 2);
    assert_eq!(pkgs[0].name, "vim");
    assert_eq!(pkgs[0].version, "2:9.0");
    assert_eq!(
        pkgs[0].description,
        Some("amd64 Vi IMproved enhanced editor".to_string())
    );
    assert_eq!(pkgs[1].name, "dash");
    assert_eq!(pkgs[1].description, Some(String::new()));
}

#[test]
fn dnf_listing_strips_architecture_and_header() {
    let out = "Installed Packages\nbash.x86_64  5.2.26-1.fc39  @anaconda\nvim-minimal.x86_64  2:9.1  @updates\n";
    let pkgs = parse_installed_packages("dnf", out);
    assert_eq!(pkgs.len(), 2);
    assert_eq!(pkgs[0].name, "bash");
    assert_eq!(pkgs[0].version, "5.2.26-1.fc39");
    assert_eq!(pkgs[1].name, "vim-minimal");
}

#[test]
fn other_managers_yield_nothing() {
    assert!(parse_installed_packages("portage", "a b\n").is_empty());
}

#[test]
fn passwd_keeps_root_and_regular_users() {
    let content = "root:x:0:0:root:/root:/bin/bash\n\
                   daemon:x:1:1:daemon:/usr/sbin:/usr/sbin/nologin\n\
                   alice:x:1000:1000:Alice:/home/alice:/bin/zsh\n\
                   short:line\n";
    let users = parse_passwd(content);
    assert_eq!(users.len(), 2);
    assert_eq!(users[0].name, "root");
    assert_eq!(users[0].uid, 0);
    assert_eq!(users[1].name, "alice");
    assert_eq!(users[1].uid, 1000);
    assert_eq!(users[1].gid, 1000);
    assert_eq!(users[1].home, "/home/alice");
    assert_eq!(users[1].shell, "/bin/zsh");
}

#[test]
fn unit_listing_skips_header_and_trims_suffix() {
    let out = "UNIT FILE                STATE    PRESET\n\
               sshd.service             enabled  enabled\n\
               bluetooth.service        disabled enabled\n\
               \n";
    let services = parse_unit_files(out);
    assert_eq!(services.len(), 2);
    assert_eq!(services[0].name, "sshd");
    assert!(services[0].enabled);
    assert_eq!(services[1].name, "bluetooth");
    assert!(!services[1].enabled);
    assert!(!services[0].running);
}
