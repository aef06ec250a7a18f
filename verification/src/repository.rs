//! The curated distribution repository: the profiles the engine supports and
//! the lookup over them. Downloading remote profiles is the binary's work.
use vstd::prelude::*;
use crate::chars::{contains_sub, lower_chars, spec_contains, spec_lower, str_to_chars};
use crate::config::{ConfigPath, DistroFamily, DistroProfile, InitSystem, PackageManager};
use crate::distro::spec_pm_is;

verus! {
/// The profile describes Arch Linux.
pub open spec fn spec_is_arch_profile(p: DistroProfile) -> bool {
    &&& p.name@ == "Arch Linux"@
    &&& p.version@ == "rolling"@
    &&& p.family == DistroFamily::Arch
    &&& spec_pm_is(p.package_manager, "pacman"@, "pacman -S --noconfirm"@, "pacman -R --noconfirm"@, "pacman -Syu --noconfirm"@, "pacman -Ss"@, "pacman -Q"@)
    &&& p.init_system == InitSystem::Systemd
    &&& p.base_packages.deep_view() == seq!["base"@, "linux"@, "linux-firmware"@, "base-devel"@, "networkmanager"@]
    &&& p.config_paths@.len() == 0
    &&& p.pre_migration_hooks.deep_view() == seq!["pacman-key --init"@, "pacman-key --populate archlinux"@]
    &&& p.post_migration_hooks.deep_view() == seq!["systemctl enable NetworkManager"@, "mkinitcpio -P"@, "grub-mkconfig -o /boot/grub/grub.cfg"@]
    &&& p.package_mappings@.len() == 0
}

/// Builds the Arch Linux profile.
pub fn create_arch_profile() -> (r: DistroProfile)
    ensures
        spec_is_arch_profile(r),
{
    let mut base_packages: Vec<String> = Vec::new();
    base_packages.push(String::from_str("base"));
    base_packages.push(String::from_str("linux"));
    base_packages.push(String::from_str("linux-firmware"));
    base_packages.push(String::from_str("base-devel"));
    base_packages.push(String::from_str("networkmanager"));
    assert(base_packages.deep_view() =~~= seq!["base"@, "linux"@, "linux-firmware"@, "base-devel"@, "networkmanager"@]);
    let mut pre_migration_hooks: Vec<String> = Vec::new();
    pre_migration_hooks.push(String::from_str("pacman-key --init"));
    pre_migration_hooks.push(String::from_str("pacman-key --populate archlinux"));
    assert(pre_migration_hooks.deep_view() =~~= seq!["pacman-key --init"@, "pacman-key --populate archlinux"@]);
    let mut post_migration_hooks: Vec<String> = Vec::new();
    post_migration_hooks.push(String::from_str("systemctl enable NetworkManager"));
    post_migration_hooks.push(String::from_str("mkinitcpio -P"));
    post_migration_hooks.push(String::from_str("grub-mkconfig -o /boot/grub/grub.cfg"));
    assert(post_migration_hooks.deep_view() =~~= seq!["systemctl enable NetworkManager"@, "mkinitcpio -P"@, "grub-mkconfig -o /boot/grub/grub.cfg"@]);
    DistroProfile {
        name: String::from_str("Arch Linux"),
        version: String::from_str("rolling"),
        family: DistroFamily::Arch,
        package_manager: PackageManager {
            name: String::from_str("pacman"),
            install_cmd: String::from_str("pacman -S --noconfirm"),
            remove_cmd: String::from_str("pacman -R --noconfirm"),
            update_cmd: String::from_str("pacman -Syu --noconfirm"),
            search_cmd: String::from_str("pacman -Ss"),
            list_installed_cmd: String::from_str("pacman -Q"),
        },
        init_system: InitSystem::Systemd,
        base_packages,
        config_paths: Vec::<ConfigPath>::new(),
        pre_migration_hooks,
        post_migration_hooks,
        package_mappings: Vec::<ConfigPath>::new(),
    }
}

/// The profile describes Ubuntu.
pub open spec fn spec_is_ubuntu_profile(p: DistroProfile) -> bool {
    &&& p.name@ == "Ubuntu"@
    &&& p.version@ == "22.04"@
    &&& p.family == DistroFamily::Debian
    &&& spec_pm_is(p.package_manager, "apt"@, "apt install -y"@, "apt remove -y"@, "apt update && apt upgrade -y"@, "apt search"@, "dpkg -l"@)
    &&& p.init_system == InitSystem::Systemd
    &&& p.base_packages.deep_view() == seq!["ubuntu-minimal"@, "linux-generic"@, "network-manager"@]
    &&& p.config_paths@.len() == 0
    &&& p.pre_migration_hooks.deep_view() == seq!["apt update"@]
    &&& p.post_migration_hooks.deep_view() == seq!["systemctl enable NetworkManager"@, "update-grub"@]
    &&& p.package_mappings@.len() == 0
}

/// Builds the Ubuntu profile.
pub fn create_ubuntu_profile() -> (r: DistroProfile)
    ensures
        spec_is_ubuntu_profile(r),
{
    let mut base_packages: Vec<String> = Vec::new();
    base_packages.push(String::from_str("ubuntu-minimal"));
    base_packages.push(String::from_str("linux-generic"));
    base_packages.push(String::from_str("network-manager"));
    assert(base_packages.deep_view() =~~= seq!["ubuntu-minimal"@, "linux-generic"@, "network-manager"@]);
    let mut pre_migration_hooks: Vec<String> = Vec::new();
    pre_migration_hooks.push(String::from_str("apt update"));
    assert(pre_migration_hooks.deep_view() =~~= seq!["apt update"@]);
    let mut post_migration_hooks: Vec<String> = Vec::new();
    post_migration_hooks.push(String::from_str("systemctl enable NetworkManager"));
    post_migration_hooks.push(String::from_str("update-grub"));
    assert(post_migration_hooks.deep_view() =~~= seq!["systemctl enable NetworkManager"@, "update-grub"@]);
    DistroProfile {
        name: String::from_str("Ubuntu"),
        version: String::from_str("22.04"),
        family: DistroFamily::Debian,
        package_manager: PackageManager {
            name: String::from_str("apt"),
            install_cmd: String::from_str("apt install -y"),
            remove_cmd: String::from_str("apt remove -y"),
            update_cmd: String::from_str("apt update && apt upgrade -y"),
            search_cmd: String::from_str("apt search"),
            list_installed_cmd: String::from_str("dpkg -l"),
        },
        init_system: InitSystem::Systemd,
        base_packages,
        config_paths: Vec::<ConfigPath>::new(),
        pre_migration_hooks,
        post_migration_hooks,
        package_mappings: Vec::<ConfigPath>::new(),
    }
}

/// The profile describes Debian.
pub open spec fn spec_is_debian_profile(p: DistroProfile) -> bool {
    &&& p.name@ == "Debian"@
    &&& p.version@ == "12"@
    &&& p.family == DistroFamily::Debian
    &&& spec_pm_is(p.package_manager, "apt"@, "apt install -y"@, "apt remove -y"@, "apt update && apt upgrade -y"@, "apt search"@, "dpkg -l"@)
    &&& p.init_system == InitSystem::Systemd
    &&& p.base_packages.deep_view() == seq!["base-files"@, "linux-image-amd64"@, "network-manager"@]
    &&& p.config_paths@.len() == 0
    &&& p.pre_migration_hooks.deep_view() == seq!["apt update"@]
    &&& p.post_migration_hooks.deep_view() == seq!["systemctl enable NetworkManager"@, "update-grub"@]
    &&& p.package_mappings@.len() == 0
}

/// Builds the Debian profile.
pub fn create_debian_profile() -> (r: DistroProfile)
    ensures
        spec_is_debian_profile(r),
{
    let mut base_packages: Vec<String> = Vec::new();
    base_packages.push(String::from_str("base-files"));
    base_packages.push(String::from_str("linux-image-amd64"));
    base_packages.push(String::from_str("network-manager"));
    assert(base_packages.deep_view() =~~= seq!["base-files"@, "linux-image-amd64"@, "network-manager"@]);
    let mut pre_migration_hooks: Vec<String> = Vec::new();
    pre_migration_hooks.push(String::from_str("apt update"));
    assert(pre_migration_hooks.deep_view() =~~= seq!["apt update"@]);
    let mut post_migration_hooks: Vec<String> = Vec::new();
    post_migration_hooks.push(String::from_str("systemctl enable NetworkManager"));
    post_migration_hooks.push(String::from_str("update-grub"));
    assert(post_migration_hooks.deep_view() =~~= seq!["systemctl enable NetworkManager"@, "update-grub"@]);
    DistroProfile {
        name: String::from_str("Debian"),
        version: String::from_str("12"),
        family: DistroFamily::Debian,
        package_manager: PackageManager {
            name: String::from_str("apt"),
            install_cmd: String::from_str("apt install -y"),
            remove_cmd: String::from_str("apt remove -y"),
            update_cmd: String::from_str("apt update && apt upgrade -y"),
            search_cmd: String::from_str("apt search"),
            list_installed_cmd: String::from_str("dpkg -l"),
        },
        init_system: InitSystem::Systemd,
        base_packages,
        config_paths: Vec::<ConfigPath>::new(),
        pre_migration_hooks,
        post_migration_hooks,
        package_mappings: Vec::<ConfigPath>::new(),
    }
}

/// The profile describes Fedora.
pub open spec fn spec_is_fedora_profile(p: DistroProfile) -> bool {
    &&& p.name@ == "Fedora"@
    &&& p.version@ == "39"@
    &&& p.family == DistroFamily::RedHat
    &&& spec_pm_is(p.package_manager, "dnf"@, "dnf install -y"@, "dnf remove -y"@, "dnf upgrade -y"@, "dnf search"@, "dnf list installed"@)
    &&& p.init_system == InitSystem::Systemd
    &&& p.base_packages.deep_view() == seq!["basesystem"@, "kernel"@, "NetworkManager"@]
    &&& p.config_paths@.len() == 0
    &&& p.pre_migration_hooks.deep_view() == Seq::<Seq<char>>::empty()
    &&& p.post_migration_hooks.deep_view() == seq!["systemctl enable NetworkManager"@, "grub2-mkconfig -o /boot/grub2/grub.cfg"@]
    &&& p.package_mappings@.len() == 0
}

/// Builds the Fedora profile.
pub fn create_fedora_profile() -> (r: DistroProfile)
    ensures
        spec_is_fedora_profile(r),
{
    let mut base_packages: Vec<String> = Vec::new();
    base_packages.push(String::from_str("basesystem"));
    base_packages.push(String::from_str("kernel"));
    base_packages.push(String::from_str("NetworkManager"));
    assert(base_packages.deep_view() =~~= seq!["basesystem"@, "kernel"@, "NetworkManager"@]);
    let mut pre_migration_hooks: Vec<String> = Vec::new();
    assert(pre_migration_hooks.deep_view() =~~= Seq::<Seq<char>>::empty());
    let mut post_migration_hooks: Vec<String> = Vec::new();
    post_migration_hooks.push(String::from_str("systemctl enable NetworkManager"));
    post_migration_hooks.push(String::from_str("grub2-mkconfig -o /boot/grub2/grub.cfg"));
    assert(post_migration_hooks.deep_view() =~~= seq!["systemctl enable NetworkManager"@, "grub2-mkconfig -o /boot/grub2/grub.cfg"@]);
    DistroProfile {
        name: String::from_str("Fedora"),
        version: String::from_str("39"),
        family: DistroFamily::RedHat,
        package_manager: PackageManager {
            name: String::from_str("dnf"),
            install_cmd: String::from_str("dnf install -y"),
            remove_cmd: String::from_str("dnf remove -y"),
            update_cmd: String::from_str("dnf upgrade -y"),
            search_cmd: String::from_str("dnf search"),
            list_installed_cmd: String::from_str("dnf list installed"),
        },
        init_system: InitSystem::Systemd,
        base_packages,
        config_paths: Vec::<ConfigPath>::new(),
        pre_migration_hooks,
        post_migration_hooks,
        package_mappings: Vec::<ConfigPath>::new(),
    }
}

/// The profile describes openSUSE.
pub open spec fn spec_is_opensuse_profile(p: DistroProfile) -> bool {
    &&& p.name@ == "openSUSE"@
    &&& p.version@ == "Tumbleweed"@
    &&& p.family == DistroFamily::Suse
    &&& spec_pm_is(p.package_manager, "zypper"@, "zypper install -y"@, "zypper remove -y"@, "zypper update -y"@, "zypper search"@, "zypper packages --installed-only"@)
    &&& p.init_system == InitSystem::Systemd
    &&& p.base_packages.deep_view() == seq!["patterns-base-base"@, "kernel-default"@, "NetworkManager"@]
    &&& p.config_paths@.len() == 0
    &&& p.pre_migration_hooks.deep_view() == Seq::<Seq<char>>::empty()
    &&& p.post_migration_hooks.deep_view() == seq!["systemctl enable NetworkManager"@, "grub2-mkconfig -o /boot/grub2/grub.cfg"@]
    &&& p.package_mappings@.len() == 0
}

/// Builds the openSUSE profile.
pub fn create_opensuse_profile() -> (r: DistroProfile)
    ensures
        spec_is_opensuse_profile(r),
{
    let mut base_packages: Vec<String> = Vec::new();
    base_packages.push(String::from_str("patterns-base-base"));
    base_packages.push(String::from_str("kernel-default"));
    base_packages.push(String::from_str("NetworkManager"));
    assert(base_packages.deep_view() =~~= seq!["patterns-base-base"@, "kernel-default"@, "NetworkManager"@]);
    let mut pre_migration_hooks: Vec<String> = Vec::new();
    assert(pre_migration_hooks.deep_view() =~~= Seq::<Seq<char>>::empty());
    let mut post_migration_hooks: Vec<String> = Vec::new();
    post_migration_hooks.push(String::from_str("systemctl enable NetworkManager"));
    post_migration_hooks.push(String::from_str("grub2-mkconfig -o /boot/grub2/grub.cfg"));
    assert(post_migration_hooks.deep_view() =~~= seq!["systemctl enable NetworkManager"@, "grub2-mkconfig -o /boot/grub2/grub.cfg"@]);
    DistroProfile {
        name: String::from_str("openSUSE"),
        version: String::from_str("Tumbleweed"),
        family: DistroFamily::Suse,
        package_manager: PackageManager {
            name: String::from_str("zypper"),
            install_cmd: String::from_str("zypper install -y"),
            remove_cmd: String::from_str("zypper remove -y"),
            update_cmd: String::from_str("zypper update -y"),
            search_cmd: String::from_str("zypper search"),
            list_installed_cmd: String::from_str("zypper packages --installed-only"),
        },
        init_system: InitSystem::Systemd,
        base_packages,
        config_paths: Vec::<ConfigPath>::new(),
        pre_migration_hooks,
        post_migration_hooks,
        package_mappings: Vec::<ConfigPath>::new(),
    }
}

/// The profile describes Kali Linux.
pub open spec fn spec_is_kali_profile(p: DistroProfile) -> bool {
    &&& p.name@ == "Kali Linux"@
    &&& p.version@ == "2024.1"@
    &&& p.family == DistroFamily::Debian
    &&& spec_pm_is(p.package_manager, "apt"@, "apt install -y"@, "apt remove -y"@, "apt update && apt upgrade -y"@, "apt search"@, "dpkg -l"@)
    &&& p.init_system == InitSystem::Systemd
    &&& p.base_packages.deep_view() == seq!["kali-linux-core"@, "kali-linux-default"@, "kali-tools-top10"@, "linux-image-amd64"@, "network-manager"@, "nmap"@, "metasploit-framework"@, "burpsuite"@, "wireshark"@, "aircrack-ng"@, "john"@, "hashcat"@, "sqlmap"@]
    &&& p.config_paths@.len() == 0
    &&& p.pre_migration_hooks.deep_view() == seq!["wget -q -O - https://archive.kali.org/archive-key.asc | apt-key add -"@, "echo 'deb http://http.kali.org/kali kali-rolling main contrib non-free non-free-firmware' > /etc/apt/sources.list"@, "apt update"@]
    &&& p.post_migration_hooks.deep_view() == seq!["systemctl enable NetworkManager"@, "systemctl enable lightdm"@, "update-grub"@, "update-initramfs -u"@]
    &&& p.package_mappings@.len() == 0
}

/// Builds the Kali Linux profile.
pub fn create_kali_profile() -> (r: DistroProfile)
    ensures
        spec_is_kali_profile(r),
{
    let mut base_packages: Vec<String> = Vec::new();
    base_packages.push(String::from_str("kali-linux-core"));
    base_packages.push(String::from_str("kali-linux-default"));
    base_packages.push(String::from_str("kali-tools-top10"));
    base_packages.push(String::from_str("linux-image-amd64"));
    base_packages.push(String::from_str("network-manager"));
    base_packages.push(String::from_str("nmap"));
    base_packages.push(String::from_str("metasploit-framework"));
    base_packages.push(String::from_str("burpsuite"));
    base_packages.push(String::from_str("wireshark"));
    base_packages.push(String::from_str("aircrack-ng"));
    base_packages.push(String::from_str("john"));
    base_packages.push(String::from_str("hashcat"));
    base_packages.push(String::from_str("sqlmap"));
    assert(base_packages.deep_view() =~~= seq!["kali-linux-core"@, "kali-linux-default"@, "kali-tools-top10"@, "linux-image-amd64"@, "network-manager"@, "nmap"@, "metasploit-framework"@, "burpsuite"@, "wireshark"@, "aircrack-ng"@, "john"@, "hashcat"@, "sqlmap"@]);
    let mut pre_migration_hooks: Vec<String> = Vec::new();
    pre_migration_hooks.push(String::from_str("wget -q -O - https://archive.kali.org/archive-key.asc | apt-key add -"));
    pre_migration_hooks.push(String::from_str("echo 'deb http://http.kali.org/kali kali-rolling main contrib non-free non-free-firmware' > /etc/apt/sources.list"));
    pre_migration_hooks.push(String::from_str("apt update"));
    assert(pre_migration_hooks.deep_view() =~~= seq!["wget -q -O - https://archive.kali.org/archive-key.asc | apt-key add -"@, "echo 'deb http://http.kali.org/kali kali-rolling main contrib non-free non-free-firmware' > /etc/apt/sources.list"@, "apt update"@]);
    let mut post_migration_hooks: Vec<String> = Vec::new();
    post_migration_hooks.push(String::from_str("systemctl enable NetworkManager"));
    post_migration_hooks.push(String::from_str("systemctl enable lightdm"));
    post_migration_hooks.push(String::from_str("update-grub"));
    post_migration_hooks.push(String::from_str("update-initramfs -u"));
    assert(post_migration_hooks.deep_view() =~~= seq!["systemctl enable NetworkManager"@, "systemctl enable lightdm"@, "update-grub"@, "update-initramfs -u"@]);
    DistroProfile {
        name: String::from_str("Kali Linux"),
        version: String::from_str("2024.1"),
        family: DistroFamily::Debian,
        package_manager: PackageManager {
            name: String::from_str("apt"),
            install_cmd: String::from_str("apt install -y"),
            remove_cmd: String::from_str("apt remove -y"),
            update_cmd: String::from_str("apt update && apt upgrade -y"),
            search_cmd: String::from_str("apt search"),
            list_installed_cmd: String::from_str("dpkg -l"),
        },
        init_system: InitSystem::Systemd,
        base_packages,
        config_paths: Vec::<ConfigPath>::new(),
        pre_migration_hooks,
        post_migration_hooks,
        package_mappings: Vec::<ConfigPath>::new(),
    }
}

/// The profile describes Hyprland.
pub open spec fn spec_is_hyprland_profile(p: DistroProfile) -> bool {
    &&& p.name@ == "Hyprland"@
    &&& p.version@ == "rolling"@
    &&& p.family == DistroFamily::Arch
    &&& spec_pm_is(p.package_manager, "pacman"@, "pacman -S --noconfirm"@, "pacman -R --noconfirm"@, "pacman -Syu --noconfirm"@, "pacman -Ss"@, "pacman -Q"@)
    &&& p.init_system == InitSystem::Systemd
    &&& p.base_packages.deep_view() == seq!["base"@, "linux"@, "linux-firmware"@, "base-devel"@, "networkmanager"@, "hyprland"@, "hyprpaper"@, "hyprlock"@, "waybar"@, "rofi-wayland"@, "kitty"@, "dunst"@, "pipewire"@, "pipewire-pulse"@, "wireplumber"@, "ttf-jetbrains-mono-nerd"@, "papirus-icon-theme"@]
    &&& p.config_paths@.len() == 0
    &&& p.pre_migration_hooks.deep_view() == seq!["pacman-key --init"@, "pacman-key --populate archlinux"@]
    &&& p.post_migration_hooks.deep_view() == seq!["systemctl enable NetworkManager"@, "systemctl --user enable pipewire"@, "systemctl --user enable wireplumber"@, "mkinitcpio -P"@, "grub-mkconfig -o /boot/grub/grub.cfg"@, "mkdir -p ~/.config/hypr"@, "mkdir -p ~/.config/waybar"@]
    &&& p.package_mappings@.len() == 0
}

/// Builds the Hyprland profile.
pub fn create_hyprland_profile() -> (r: DistroProfile)
    ensures
        spec_is_hyprland_profile(r),
{
    let mut base_packages: Vec<String> = Vec::new();
    base_packages.push(String::from_str("base"));
    base_packages.push(String::from_str("linux"));
    base_packages.push(String::from_str("linux-firmware"));
    base_packages.push(String::from_str("base-devel"));
    base_packages.push(String::from_str("networkmanager"));
    base_packages.push(String::from_str("hyprland"));
    base_packages.push(String::from_str("hyprpaper"));
    base_packages.push(String::from_str("hyprlock"));
    base_packages.push(String::from_str("waybar"));
    base_packages.push(String::from_str("rofi-wayland"));
    base_packages.push(String::from_str("kitty"));
    base_packages.push(String::from_str("dunst"));
    base_packages.push(String::from_str("pipewire"));
    base_packages.push(String::from_str("pipewire-pulse"));
    base_packages.push(String::from_str("wireplumber"));
    base_packages.push(String::from_str("ttf-jetbrains-mono-nerd"));
    base_packages.push(String::from_str("papirus-icon-theme"));
    assert(base_packages.deep_view() =~~= seq!["base"@, "linux"@, "linux-firmware"@, "base-devel"@, "networkmanager"@, "hyprland"@, "hyprpaper"@, "hyprlock"@, "waybar"@, "rofi-wayland"@, "kitty"@, "dunst"@, "pipewire"@, "pipewire-pulse"@, "wireplumber"@, "ttf-jetbrains-mono-nerd"@, "papirus-icon-theme"@]);
    let mut pre_migration_hooks: Vec<String> = Vec::new();
    pre_migration_hooks.push(String::from_str("pacman-key --init"));
    pre_migration_hooks.push(String::from_str("pacman-key --populate archlinux"));
    assert(pre_migration_hooks.deep_view() =~~= seq!["pacman-key --init"@, "pacman-key --populate archlinux"@]);
    let mut post_migration_hooks: Vec<String> = Vec::new();
    post_migration_hooks.push(String::from_str("systemctl enable NetworkManager"));
    post_migration_hooks.push(String::from_str("systemctl --user enable pipewire"));
    post_migration_hooks.push(String::from_str("systemctl --user enable wireplumber"));
    post_migration_hooks.push(String::from_str("mkinitcpio -P"));
    post_migration_hooks.push(String::from_str("grub-mkconfig -o /boot/grub/grub.cfg"));
    post_migration_hooks.push(String::from_str("mkdir -p ~/.config/hypr"));
    post_migration_hooks.push(String::from_str("mkdir -p ~/.config/waybar"));
    assert(post_migration_hooks.deep_view() =~~= seq!["systemctl enable NetworkManager"@, "systemctl --user enable pipewire"@, "systemctl --user enable wireplumber"@, "mkinitcpio -P"@, "grub-mkconfig -o /boot/grub/grub.cfg"@, "mkdir -p ~/.config/hypr"@, "mkdir -p ~/.config/waybar"@]);
    DistroProfile {
        name: String::from_str("Hyprland"),
        version: String::from_str("rolling"),
        family: DistroFamily::Arch,
        package_manager: PackageManager {
            name: String::from_str("pacman"),
            install_cmd: String::from_str("pacman -S --noconfirm"),
            remove_cmd: String::from_str("pacman -R --noconfirm"),
            update_cmd: String::from_str("pacman -Syu --noconfirm"),
            search_cmd: String::from_str("pacman -Ss"),
            list_installed_cmd: String::from_str("pacman -Q"),
        },
        init_system: InitSystem::Systemd,
        base_packages,
        config_paths: Vec::<ConfigPath>::new(),
        pre_migration_hooks,
        post_migration_hooks,
        package_mappings: Vec::<ConfigPath>::new(),
    }
}

/// The profile describes Garuda Dragonized.
pub open spec fn spec_is_garuda_dragonized_profile(p: DistroProfile) -> bool {
    &&& p.name@ == "Garuda Dragonized"@
    &&& p.version@ == "rolling"@
    &&& p.family == DistroFamily::Arch
    &&& spec_pm_is(p.package_manager, "pacman"@, "pacman -S --noconfirm"@, "pacman -R --noconfirm"@, "pacman -Syu --noconfirm"@, "pacman -Ss"@, "pacman -Q"@)
    &&& p.init_system == InitSystem::Systemd
    &&& p.base_packages.deep_view() == seq!["base"@, "linux-zen"@, "linux-zen-headers"@, "linux-firmware"@, "base-devel"@, "networkmanager"@, "plasma-meta"@, "sddm"@, "gamemode"@, "mangohud"@, "steam"@, "lutris"@, "wine-staging"@, "timeshift"@, "pipewire"@, "pipewire-pulse"@, "wireplumber"@]
    &&& p.config_paths@.len() == 0
    &&& p.pre_migration_hooks.deep_view() == seq!["pacman-key --init"@, "pacman-key --populate archlinux"@, "pacman-key --recv-key 3056513887B78AEB --keyserver keyserver.ubuntu.com"@, "pacman-key --lsign-key 3056513887B78AEB"@]
    &&& p.post_migration_hooks.deep_view() == seq!["systemctl enable NetworkManager"@, "systemctl enable sddm"@, "systemctl enable fstrim.timer"@, "systemctl --user enable pipewire"@, "systemctl --user enable wireplumber"@, "mkinitcpio -P"@, "grub-mkconfig -o /boot/grub/grub.cfg"@, "echo 'vm.swappiness=10' >> /etc/sysctl.d/99-swappiness.conf"@]
    &&& p.package_mappings@.len() == 0
}

/// Builds the Garuda Dragonized profile.
pub fn create_garuda_dragonized_profile() -> (r: DistroProfile)
    ensures
        spec_is_garuda_dragonized_profile(r),
{
    let mut base_packages: Vec<String> = Vec::new();
    base_packages.push(String::from_str("base"));
    base_packages.push(String::from_str("linux-zen"));
    base_packages.push(String::from_str("linux-zen-headers"));
    base_packages.push(String::from_str("linux-firmware"));
    base_packages.push(String::from_str("base-devel"));
    base_packages.push(String::from_str("networkmanager"));
    base_packages.push(String::from_str("plasma-meta"));
    base_packages.push(String::from_str("sddm"));
    base_packages.push(String::from_str("gamemode"));
    base_packages.push(String::from_str("mangohud"));
    base_packages.push(String::from_str("steam"));
    base_packages.push(String::from_str("lutris"));
    base_packages.push(String::from_str("wine-staging"));
    base_packages.push(String::from_str("timeshift"));
    base_packages.push(String::from_str("pipewire"));
    base_packages.push(String::from_str("pipewire-pulse"));
    base_packages.push(String::from_str("wireplumber"));
    assert(base_packages.deep_view() =~~= seq!["base"@, "linux-zen"@, "linux-zen-headers"@, "linux-firmware"@, "base-devel"@, "networkmanager"@, "plasma-meta"@, "sddm"@, "gamemode"@, "mangohud"@, "steam"@, "lutris"@, "wine-staging"@, "timeshift"@, "pipewire"@, "pipewire-pulse"@, "wireplumber"@]);
    let mut pre_migration_hooks: Vec<String> = Vec::new();
    pre_migration_hooks.push(String::from_str("pacman-key --init"));
    pre_migration_hooks.push(String::from_str("pacman-key --populate archlinux"));
    pre_migration_hooks.push(String::from_str("pacman-key --recv-key 3056513887B78AEB --keyserver keyserver.ubuntu.com"));
    pre_migration_hooks.push(String::from_str("pacman-key --lsign-key 3056513887B78AEB"));
    assert(pre_migration_hooks.deep_view() =~~= seq!["pacman-key --init"@, "pacman-key --populate archlinux"@, "pacman-key --recv-key 3056513887B78AEB --keyserver keyserver.ubuntu.com"@, "pacman-key --lsign-key 3056513887B78AEB"@]);
    let mut post_migration_hooks: Vec<String> = Vec::new();
    post_migration_hooks.push(String::from_str("systemctl enable NetworkManager"));
    post_migration_hooks.push(String::from_str("systemctl enable sddm"));
    post_migration_hooks.push(String::from_str("systemctl enable fstrim.timer"));
    post_migration_hooks.push(String::from_str("systemctl --user enable pipewire"));
    post_migration_hooks.push(String::from_str("systemctl --user enable wireplumber"));
    post_migration_hooks.push(String::from_str("mkinitcpio -P"));
    post_migration_hooks.push(String::from_str("grub-mkconfig -o /boot/grub/grub.cfg"));
    post_migration_hooks.push(String::from_str("echo 'vm.swappiness=10' >> /etc/sysctl.d/99-swappiness.conf"));
    assert(post_migration_hooks.deep_view() =~~= seq!["systemctl enable NetworkManager"@, "systemctl enable sddm"@, "systemctl enable fstrim.timer"@, "systemctl --user enable pipewire"@, "systemctl --user enable wireplumber"@, "mkinitcpio -P"@, "grub-mkconfig -o /boot/grub/grub.cfg"@, "echo 'vm.swappiness=10' >> /etc/sysctl.d/99-swappiness.conf"@]);
    DistroProfile {
        name: String::from_str("Garuda Dragonized"),
        version: String::from_str("rolling"),
        family: DistroFamily::Arch,
        package_manager: PackageManager {
            name: String::from_str("pacman"),
            install_cmd: String::from_str("pacman -S --noconfirm"),
            remove_cmd: String::from_str("pacman -R --noconfirm"),
            update_cmd: String::from_str("pacman -Syu --noconfirm"),
            search_cmd: String::from_str("pacman -Ss"),
            list_installed_cmd: String::from_str("pacman -Q"),
        },
        init_system: InitSystem::Systemd,
        base_packages,
        config_paths: Vec::<ConfigPath>::new(),
        pre_migration_hooks,
        post_migration_hooks,
        package_mappings: Vec::<ConfigPath>::new(),
    }
}

/// The profile describes NixOS.
pub open spec fn spec_is_nixos_profile(p: DistroProfile) -> bool {
    &&& p.name@ == "NixOS"@
    &&& p.version@ == "23.11"@
    &&& p.family == DistroFamily::Nix
    &&& spec_pm_is(p.package_manager, "nix"@, "nix-env -iA nixos."@, "nix-env -e"@, "nixos-rebuild switch --upgrade"@, "nix search nixpkgs"@, "nix-env -q"@)
    &&& p.init_system == InitSystem::Systemd
    &&& p.base_packages.deep_view() == seq!["gnome.gnome-shell"@, "gnome.nautilus"@, "gnome.gnome-terminal"@, "firefox"@, "git"@, "vim"@, "htop"@]
    &&& p.config_paths@.len() == 0
    &&& p.pre_migration_hooks.deep_view() == seq!["curl -L https://nixos.org/nix/install | sh"@, "nix-channel --add https://nixos.org/channels/nixos-23.11 nixos"@, "nix-channel --update"@]
    &&& p.post_migration_hooks.deep_view() == seq!["systemctl enable NetworkManager"@, "systemctl enable gdm"@, "nixos-rebuild switch"@, "nix-collect-garbage -d"@]
    &&& p.package_mappings@.len() == 0
}

/// Builds the NixOS profile.
pub fn create_nixos_profile() -> (r: DistroProfile)
    ensures
        spec_is_nixos_profile(r),
{
    let mut base_packages: Vec<String> = Vec::new();
    base_packages.push(String::from_str("gnome.gnome-shell"));
    base_packages.push(String::from_str("gnome.nautilus"));
    base_packages.push(String::from_str("gnome.gnome-terminal"));
    base_packages.push(String::from_str("firefox"));
    base_packages.push(String::from_str("git"));
    base_packages.push(String::from_str("vim"));
    base_packages.push(String::from_str("htop"));
    assert(base_packages.deep_view() =~~= seq!["gnome.gnome-shell"@, "gnome.nautilus"@, "gnome.gnome-terminal"@, "firefox"@, "git"@, "vim"@, "htop"@]);
    let mut pre_migration_hooks: Vec<String> = Vec::new();
    pre_migration_hooks.push(String::from_str("curl -L https://nixos.org/nix/install | sh"));
    pre_migration_hooks.push(String::from_str("nix-channel --add https://nixos.org/channels/nixos-23.11 nixos"));
    pre_migration_hooks.push(String::from_str("nix-channel --update"));
    assert(pre_migration_hooks.deep_view() =~~= seq!["curl -L https://nixos.org/nix/install | sh"@, "nix-channel --add https://nixos.org/channels/nixos-23.11 nixos"@, "nix-channel --update"@]);
    let mut post_migration_hooks: Vec<String> = Vec::new();
    post_migration_hooks.push(String::from_str("systemctl enable NetworkManager"));
    post_migration_hooks.push(String::from_str("systemctl enable gdm"));
    post_migration_hooks.push(String::from_str("nixos-rebuild switch"));
    post_migration_hooks.push(String::from_str("nix-collect-garbage -d"));
    assert(post_migration_hooks.deep_view() =~~= seq!["systemctl enable NetworkManager"@, "systemctl enable gdm"@, "nixos-rebuild switch"@, "nix-collect-garbage -d"@]);
    DistroProfile {
        name: String::from_str("NixOS"),
        version: String::from_str("23.11"),
        family: DistroFamily::Nix,
        package_manager: PackageManager {
            name: String::from_str("nix"),
            install_cmd: String::from_str("nix-env -iA nixos."),
            remove_cmd: String::from_str("nix-env -e"),
            update_cmd: String::from_str("nixos-rebuild switch --upgrade"),
            search_cmd: String::from_str("nix search nixpkgs"),
            list_installed_cmd: String::from_str("nix-env -q"),
        },
        init_system: InitSystem::Systemd,
        base_packages,
        config_paths: Vec::<ConfigPath>::new(),
        pre_migration_hooks,
        post_migration_hooks,
        package_mappings: Vec::<ConfigPath>::new(),
    }
}

/// The profile describes Pop!_OS COSMIC.
pub open spec fn spec_is_pop_cosmic_profile(p: DistroProfile) -> bool {
    &&& p.name@ == "Pop!_OS COSMIC"@
    &&& p.version@ == "24.04"@
    &&& p.family == DistroFamily::Debian
    &&& spec_pm_is(p.package_manager, "apt"@, "apt install -y"@, "apt remove -y"@, "apt update && apt upgrade -y"@, "apt search"@, "dpkg -l"@)
    &&& p.init_system == InitSystem::Systemd
    &&& p.base_packages.deep_view() == seq!["pop-desktop"@, "linux-generic"@, "network-manager"@, "cosmic-session"@, "cosmic-comp"@, "cosmic-panel"@, "cosmic-launcher"@, "cosmic-settings"@, "system76-power"@, "system76-scheduler"@, "pipewire"@, "pipewire-pulse"@]
    &&& p.config_paths@.len() == 0
    &&& p.pre_migration_hooks.deep_view() == seq!["add-apt-repository -y ppa:system76/pop"@, "add-apt-repository -y ppa:system76-dev/stable"@, "apt update"@]
    &&& p.post_migration_hooks.deep_view() == seq!["systemctl enable NetworkManager"@, "systemctl enable system76-power"@, "systemctl enable system76-scheduler"@, "systemctl --user enable pipewire"@, "update-grub"@, "update-initramfs -u"@]
    &&& p.package_mappings@.len() == 0
}

/// Builds the Pop!_OS COSMIC profile.
pub fn create_pop_cosmic_profile() -> (r: DistroProfile)
    ensures
        spec_is_pop_cosmic_profile(r),
{
    let mut base_packages: Vec<String> = Vec::new();
    base_packages.push(String::from_str("pop-desktop"));
    base_packages.push(String::from_str("linux-generic"));
    base_packages.push(String::from_str("network-manager"));
    base_packages.push(String::from_str("cosmic-session"));
    base_packages.push(String::from_str("cosmic-comp"));
    base_packages.push(String::from_str("cosmic-panel"));
    base_packages.push(String::from_str("cosmic-launcher"));
    base_packages.push(String::from_str("cosmic-settings"));
    base_packages.push(String::from_str("system76-power"));
    base_packages.push(String::from_str("system76-scheduler"));
    base_packages.push(String::from_str("pipewire"));
    base_packages.push(String::from_str("pipewire-pulse"));
    assert(base_packages.deep_view() =~~= seq!["pop-desktop"@, "linux-generic"@, "network-manager"@, "cosmic-session"@, "cosmic-comp"@, "cosmic-panel"@, "cosmic-launcher"@, "cosmic-settings"@, "system76-power"@, "system76-scheduler"@, "pipewire"@, "pipewire-pulse"@]);
    let mut pre_migration_hooks: Vec<String> = Vec::new();
    pre_migration_hooks.push(String::from_str("add-apt-repository -y ppa:system76/pop"));
    pre_migration_hooks.push(String::from_str("add-apt-repository -y ppa:system76-dev/stable"));
    pre_migration_hooks.push(String::from_str("apt update"));
    assert(pre_migration_hooks.deep_view() =~~= seq!["add-apt-repository -y ppa:system76/pop"@, "add-apt-repository -y ppa:system76-dev/stable"@, "apt update"@]);
    let mut post_migration_hooks: Vec<String> = Vec::new();
    post_migration_hooks.push(String::from_str("systemctl enable NetworkManager"));
    post_migration_hooks.push(String::from_str("systemctl enable system76-power"));
    post_migration_hooks.push(String::from_str("systemctl enable system76-scheduler"));
    post_migration_hooks.push(String::from_str("systemctl --user enable pipewire"));
    post_migration_hooks.push(String::from_str("update-grub"));
    post_migration_hooks.push(String::from_str("update-initramfs -u"));
    assert(post_migration_hooks.deep_view() =~~= seq!["systemctl enable NetworkManager"@, "systemctl enable system76-power"@, "systemctl enable system76-scheduler"@, "systemctl --user enable pipewire"@, "update-grub"@, "update-initramfs -u"@]);
    DistroProfile {
        name: String::from_str("Pop!_OS COSMIC"),
        version: String::from_str("24.04"),
        family: DistroFamily::Debian,
        package_manager: PackageManager {
            name: String::from_str("apt"),
            install_cmd: String::from_str("apt install -y"),
            remove_cmd: String::from_str("apt remove -y"),
            update_cmd: String::from_str("apt update && apt upgrade -y"),
            search_cmd: String::from_str("apt search"),
            list_installed_cmd: String::from_str("dpkg -l"),
        },
        init_system: InitSystem::Systemd,
        base_packages,
        config_paths: Vec::<ConfigPath>::new(),
        pre_migration_hooks,
        post_migration_hooks,
        package_mappings: Vec::<ConfigPath>::new(),
    }
}

/// The names of the curated profiles, in repository order.
pub open spec fn spec_curated_names() -> Seq<Seq<char>> {
    seq!["Arch Linux"@, "Ubuntu"@, "Debian"@, "Fedora"@, "openSUSE"@, "Kali Linux"@, "Hyprland"@, "Garuda Dragonized"@, "NixOS"@, "Pop!_OS COSMIC"@]
}

/// The list holds exactly the ten curated profiles, in order.
pub open spec fn spec_is_curated(ps: Seq<DistroProfile>) -> bool {
    &&& ps.len() == 10
    &&& spec_is_arch_profile(ps[0])
    &&& spec_is_ubuntu_profile(ps[1])
    &&& spec_is_debian_profile(ps[2])
    &&& spec_is_fedora_profile(ps[3])
    &&& spec_is_opensuse_profile(ps[4])
    &&& spec_is_kali_profile(ps[5])
    &&& spec_is_hyprland_profile(ps[6])
    &&& spec_is_garuda_dragonized_profile(ps[7])
    &&& spec_is_nixos_profile(ps[8])
    &&& spec_is_pop_cosmic_profile(ps[9])
}

/// The curated list of supported distributions.
pub fn get_curated_distros() -> (r: Vec<DistroProfile>)
    ensures
        spec_is_curated(r@),
{
    let mut r: Vec<DistroProfile> = Vec::new();
    r.push(create_arch_profile());
    r.push(create_ubuntu_profile());
    r.push(create_debian_profile());
    r.push(create_fedora_profile());
    r.push(create_opensuse_profile());
    r.push(create_kali_profile());
    r.push(create_hyprland_profile());
    r.push(create_garuda_dragonized_profile());
    r.push(create_nixos_profile());
    r.push(create_pop_cosmic_profile());
    r
}

/// The index of the first curated profile whose case-folded name contains the
/// case-folded query.
pub open spec fn spec_find_profile(names: Seq<Seq<char>>, q: Seq<char>) -> Option<int>
    decreases names.len(),
{
    if names.len() == 0 {
        None
    } else if spec_contains(spec_lower(names[0]), spec_lower(q)) {
        Some(0)
    } else {
        match spec_find_profile(names.drop_first(), q) {
            Some(i) => Some(i + 1),
            None => None,
        }
    }
}

/// The profile at a curated index is described by that index's predicate.
pub open spec fn spec_profile_at(i: int, p: DistroProfile) -> bool {
    if i == 0 {
        spec_is_arch_profile(p)
    } else if i == 1 {
        spec_is_ubuntu_profile(p)
    } else if i == 2 {
        spec_is_debian_profile(p)
    } else if i == 3 {
        spec_is_fedora_profile(p)
    } else if i == 4 {
        spec_is_opensuse_profile(p)
    } else if i == 5 {
        spec_is_kali_profile(p)
    } else if i == 6 {
        spec_is_hyprland_profile(p)
    } else if i == 7 {
        spec_is_garuda_dragonized_profile(p)
    } else if i == 8 {
        spec_is_nixos_profile(p)
    } else if i == 9 {
        spec_is_pop_cosmic_profile(p)
    } else {
        false
    }
}

/// Looks a distribution up by name: the first curated profile whose name
/// contains the query, case folded; none when no profile matches.
#[verifier::loop_isolation(false)]
pub fn get_distro_profile(name: &str) -> (r: Option<DistroProfile>)
    ensures
        match spec_find_profile(spec_curated_names(), name@) {
            Some(i) => r is Some && spec_profile_at(i, r->0),
            None => r is None,
        },
{
    let mut distros = get_curated_distros();
    let ghost cnames = spec_curated_names();
    let q = lower_chars(&str_to_chars(name));
    assert(cnames.skip(0) =~= cnames);
    let mut i: usize = 0;
    while i < distros.len()
        invariant
            0 <= i <= 10,
            distros@.len() == 10,
            spec_is_curated(distros@),
            q@ == spec_lower(name@),
            spec_find_profile(cnames, name@) == (match spec_find_profile(
                cnames.skip(i as int),
                name@,
            ) {
                Some(k) => Some(k + i),
                None => None::<int>,
            }),
        decreases 10 - i,
    {
        proof {
            assert(cnames.skip(i as int)[0] == cnames[i as int]);
            assert(cnames.skip(i as int).drop_first() =~= cnames.skip(i as int + 1));
            assert(distros@[i as int].name@ == cnames[i as int]);
        }
        let dn = lower_chars(&str_to_chars(distros[i].name.as_str()));
        if contains_sub(&dn, &q) {
            assert(spec_find_profile(cnames, name@) == Some(i as int));
            let p = distros.remove(i);
            return Some(p);
        }
        i = i + 1;
    }
    assert(cnames.skip(10) =~= Seq::<Seq<char>>::empty());
    None
}

} // verus!
