//! The vendor catalog: every package manager this front end knows, its
//! executable name, its assume-yes flag, and its command templates. The
//! catalog is total: every vendor has exactly one profile.

use vstd::prelude::*;

verus! {

/// A package-manager backend available on this platform, in resolution order:
/// common managers come first so that a host with several prefers the
/// conventional one.
#[derive(Clone, Copy, Debug, PartialEq, Eq, Structural)]
pub enum Vendor {
    Apt,
    Yay,
    Yum,
    Pacman,
    Apk,
    Emerge,
    Guix,
    NixEnv,
    Slackpkg,
    Cards,
    Dnf,
    Eopkg,
    Opkg,
    Urpm,
    Xbps,
    Zypper,
    Flatpak,
    Snap,
}

/// An abstract package-management operation, independent of any vendor.
#[derive(Clone, Copy, Debug, PartialEq, Eq, Structural)]
pub enum PlsCommand {
    Install,
    Remove,
    Upgrade,
    Search,
    Info,
    Update,
    UpgradeAll,
    List,
}

/// The mathematical model of a vendor's profile: its executable name, its
/// assume-yes flag text, and one command template per operation. An empty
/// template means the vendor does not support that operation.
pub ghost struct ProfileSpec {
    pub executable: Seq<char>,
    pub yes_flag: Seq<char>,
    pub install: Seq<char>,
    pub remove: Seq<char>,
    pub upgrade: Seq<char>,
    pub search: Seq<char>,
    pub info: Seq<char>,
    pub update: Seq<char>,
    pub upgrade_all: Seq<char>,
    pub list: Seq<char>,
}

/// A vendor's profile: the executable probed for on the host, the flag that
/// answers prompts with yes, and the command templates. Templates may hold the
/// placeholders `$yes` and `$args`.
#[derive(Clone, Copy, Debug)]
pub struct VendorData {
    pub vendor: Vendor,
    pub executable: &'static str,
    pub yes_flag: &'static str,
    pub install: &'static str,
    pub remove: &'static str,
    pub upgrade: &'static str,
    pub search: &'static str,
    pub info: &'static str,
    pub update: &'static str,
    pub upgrade_all: &'static str,
    pub list: &'static str,
}

impl View for VendorData {
    type V = ProfileSpec;

    open spec fn view(&self) -> ProfileSpec {
        ProfileSpec {
            executable: self.executable@,
            yes_flag: self.yes_flag@,
            install: self.install@,
            remove: self.remove@,
            upgrade: self.upgrade@,
            search: self.search@,
            info: self.info@,
            update: self.update@,
            upgrade_all: self.upgrade_all@,
            list: self.list@,
        }
    }
}

/// The profile of each vendor, as a total function: the model of the catalog.
pub open spec fn profile_spec(v: Vendor) -> ProfileSpec {
    match v {
        Vendor::Apt => ProfileSpec {
            executable: "apt"@,
            yes_flag: "--yes"@,
            install: "apt install $yes $args"@,
            remove: "apt remove $yes $args"@,
            upgrade: "apt install --only-upgrade $yes $args"@,
            search: "apt search $args"@,
            info: "apt show $args"@,
            update: "apt update $yes"@,
            upgrade_all: "apt upgrade $yes"@,
            list: "apt list --installed"@,
        },
        Vendor::Yay => ProfileSpec {
            executable: "yay"@,
            yes_flag: "--noconfirm"@,
            install: "yay --topdown --cleanafter -S $yes $args"@,
            remove: "pacman -Rs $yes $args"@,
            upgrade: "yay --topdown --cleanafter -S $yes $args"@,
            search: "yay --topdown -Ss $args"@,
            info: "yay --topdown -Si $args"@,
            update: "yay --topdown -Sy $yes"@,
            upgrade_all: "yay --topdown -Syu $yes"@,
            list: "pacman -Q"@,
        },
        Vendor::Yum => ProfileSpec {
            executable: "yum"@,
            yes_flag: "--assumeyes"@,
            install: "yum install $yes $args"@,
            remove: "yum remove $yes $args"@,
            upgrade: "yum update $yes $args"@,
            search: "yum search $args"@,
            info: "yum info $args"@,
            update: "yum check-update $yes"@,
            upgrade_all: "yum update $yes"@,
            list: "yum list --installed"@,
        },
        Vendor::Pacman => ProfileSpec {
            executable: "pacman"@,
            yes_flag: "--noconfirm"@,
            install: "pacman -S $yes $args"@,
            remove: "pacman -Rs $yes $args"@,
            upgrade: "pacman -S $yes $args"@,
            search: "pacman -Ss $args"@,
            info: "pacman -Si $args"@,
            update: "pacman -Sy $yes"@,
            upgrade_all: "pacman -Syu $yes"@,
            list: "pacman -Q"@,
        },
        Vendor::Apk => ProfileSpec {
            executable: "apk"@,
            yes_flag: ""@,
            install: "apk add $args"@,
            remove: "apk del $args"@,
            upgrade: "apk upgrade $args"@,
            search: "apk search $args"@,
            info: "apk info $args"@,
            update: "apk update"@,
            upgrade_all: "apk upgrade"@,
            list: "apk list --installed"@,
        },
        Vendor::Emerge => ProfileSpec {
            executable: "emerge"@,
            yes_flag: ""@,
            install: "emerge $args"@,
            remove: "emerge --depclean $args"@,
            upgrade: "emerge --update $args"@,
            search: "emerge --search $args"@,
            info: "emerge --info $args"@,
            update: "emerge --sync"@,
            upgrade_all: "emerge -vuDN @world"@,
            list: "qlist -Iv"@,
        },
        Vendor::Guix => ProfileSpec {
            executable: "guix"@,
            yes_flag: ""@,
            install: "guix install $yes $args"@,
            remove: "guix remove $yes $args"@,
            upgrade: "guix upgrade $yes $args"@,
            search: "guix search $args"@,
            info: "guix show $args"@,
            update: "guix refresh $yes"@,
            upgrade_all: "guix upgrade $yes"@,
            list: "guix package --list-installed"@,
        },
        Vendor::NixEnv => ProfileSpec {
            executable: "nix-env"@,
            yes_flag: ""@,
            install: "nix-env --install $args"@,
            remove: "nix-env --uninstall $args"@,
            upgrade: "nix-env --upgrade $args"@,
            search: "nix-env -qaP $args"@,
            info: "nix-env -qa --description $args"@,
            update: "nix-channel --update"@,
            upgrade_all: "nix-env --upgrade"@,
            list: "nix-env --query --installed"@,
        },
        Vendor::Slackpkg => ProfileSpec {
            executable: "slackpkg"@,
            yes_flag: ""@,
            install: "slackpkg install $args"@,
            remove: "slackpkg remove $args"@,
            upgrade: "slackpkg upgrade $args"@,
            search: "slackpkg search $args"@,
            info: "slackpkg info $args"@,
            update: "slackpkg update"@,
            upgrade_all: "slackpkg upgrade-all"@,
            list: "ls -1 /var/log/packages"@,
        },
        Vendor::Cards => ProfileSpec {
            executable: "cards"@,
            yes_flag: ""@,
            install: "cards install $args"@,
            remove: "cards remove $args"@,
            upgrade: "cards install --upgrade $args"@,
            search: "cards search $args"@,
            info: "cards info $args"@,
            update: "cards sync"@,
            upgrade_all: "cards upgrade"@,
            list: "cards list"@,
        },
        Vendor::Dnf => ProfileSpec {
            executable: "dnf"@,
            yes_flag: "--assumeyes"@,
            install: "dnf install $yes $args"@,
            remove: "dnf remove $yes $args"@,
            upgrade: "dnf upgrade $yes $args"@,
            search: "dnf search $args"@,
            info: "dnf info $args"@,
            update: "dnf check-update $yes"@,
            upgrade_all: "dnf update $yes"@,
            list: "dnf list --installed"@,
        },
        Vendor::Eopkg => ProfileSpec {
            executable: "eopkg"@,
            yes_flag: "--yes-all"@,
            install: "eopkg install $yes $args"@,
            remove: "eopkg remove $yes $args"@,
            upgrade: "eopkg upgrade $yes $args"@,
            search: "eopkg search $args"@,
            info: "eopkg info $args"@,
            update: "eopkg update-repo $yes"@,
            upgrade_all: "eopkg upgrade $yes"@,
            list: "eopkg list-installed"@,
        },
        Vendor::Opkg => ProfileSpec {
            executable: "opkg"@,
            yes_flag: ""@,
            install: "opkg install $args"@,
            remove: "opkg remove $args"@,
            upgrade: "opkg upgrade $args"@,
            search: "opkg find $args"@,
            info: "opkg info $args"@,
            update: "opkg update"@,
            upgrade_all: "opkg upgrade"@,
            list: "opkg list-installed"@,
        },
        Vendor::Urpm => ProfileSpec {
            executable: "urpm"@,
            yes_flag: ""@,
            install: "urpmi $args"@,
            remove: "urpme $args"@,
            upgrade: "urpmi $args"@,
            search: "urpmq --fuzzy $args"@,
            info: "urpmq -i $args"@,
            update: "urpmi.update -a"@,
            upgrade_all: "urpmi --auto-update"@,
            list: "rpm --query --all"@,
        },
        Vendor::Xbps => ProfileSpec {
            executable: "xbps"@,
            yes_flag: "--yes"@,
            install: "xbps-install $yes $args"@,
            remove: "xbps-remove $yes $args"@,
            upgrade: "xbps-install --update $yes $args"@,
            search: "xbps-query -Rs $args"@,
            info: "xbps-query -RS $args"@,
            update: "xbps-install --sync $yes"@,
            upgrade_all: "xbps-install --update $yes"@,
            list: "xbps-query --list-pkgs"@,
        },
        Vendor::Zypper => ProfileSpec {
            executable: "zypper"@,
            yes_flag: "--no-confirm"@,
            install: "zypper install $yes $args"@,
            remove: "zypper remove $yes $args"@,
            upgrade: "zypper update $yes $args"@,
            search: "zypper search $args"@,
            info: "zypper info $args"@,
            update: "zypper refresh $yes"@,
            upgrade_all: "zypper update $yes"@,
            list: "zypper search --installed-only"@,
        },
        Vendor::Flatpak => ProfileSpec {
            executable: "flatpak"@,
            yes_flag: "--assumeyes"@,
            install: "flatpak --user install $yes $args"@,
            remove: "flatpak --user uninstall $yes $args"@,
            upgrade: "flatpak --user update $yes $args"@,
            search: "flatpak --user search $args"@,
            info: "flatpak --user info $args"@,
            update: ""@,
            upgrade_all: "flatpak --user update $yes"@,
            list: "flatpak --user list"@,
        },
        Vendor::Snap => ProfileSpec {
            executable: "snap"@,
            yes_flag: ""@,
            install: "snap install --classic $args"@,
            remove: "snap remove $args"@,
            upgrade: "snap refresh $args"@,
            search: "snap find $args"@,
            info: "snap info $args"@,
            update: ""@,
            upgrade_all: "snap refresh"@,
            list: "snap list"@,
        },
    }
}

impl Vendor {
    /// Looks the vendor up in the catalog. Total: every vendor has a row.
    pub fn data(&self) -> (r: VendorData)
        ensures
            r.vendor == *self,
            r@ == profile_spec(*self),
    {
        match *self {
            Vendor::Apt => VendorData {
                vendor: Vendor::Apt,
                executable: "apt",
                yes_flag: "--yes",
                install: "apt install $yes $args",
                remove: "apt remove $yes $args",
                upgrade: "apt install --only-upgrade $yes $args",
                search: "apt search $args",
                info: "apt show $args",
                update: "apt update $yes",
                upgrade_all: "apt upgrade $yes",
                list: "apt list --installed",
            },
            Vendor::Yay => VendorData {
                vendor: Vendor::Yay,
                executable: "yay",
                yes_flag: "--noconfirm",
                install: "yay --topdown --cleanafter -S $yes $args",
                remove: "pacman -Rs $yes $args",
                upgrade: "yay --topdown --cleanafter -S $yes $args",
                search: "yay --topdown -Ss $args",
                info: "yay --topdown -Si $args",
                update: "yay --topdown -Sy $yes",
                upgrade_all: "yay --topdown -Syu $yes",
                list: "pacman -Q",
            },
            Vendor::Yum => VendorData {
                vendor: Vendor::Yum,
                executable: "yum",
                yes_flag: "--assumeyes",
                install: "yum install $yes $args",
                remove: "yum remove $yes $args",
                upgrade: "yum update $yes $args",
                search: "yum search $args",
                info: "yum info $args",
                update: "yum check-update $yes",
                upgrade_all: "yum update $yes",
                list: "yum list --installed",
            },
            Vendor::Pacman => VendorData {
                vendor: Vendor::Pacman,
                executable: "pacman",
                yes_flag: "--noconfirm",
                install: "pacman -S $yes $args",
                remove: "pacman -Rs $yes $args",
                upgrade: "pacman -S $yes $args",
                search: "pacman -Ss $args",
                info: "pacman -Si $args",
                update: "pacman -Sy $yes",
                upgrade_all: "pacman -Syu $yes",
                list: "pacman -Q",
            },
            Vendor::Apk => VendorData {
                vendor: Vendor::Apk,
                executable: "apk",
                yes_flag: "",
                install: "apk add $args",
                remove: "apk del $args",
                upgrade: "apk upgrade $args",
                search: "apk search $args",
                info: "apk info $args",
                update: "apk update",
                upgrade_all: "apk upgrade",
                list: "apk list --installed",
            },
            Vendor::Emerge => VendorData {
                vendor: Vendor::Emerge,
                executable: "emerge",
                yes_flag: "",
                install: "emerge $args",
                remove: "emerge --depclean $args",
                upgrade: "emerge --update $args",
                search: "emerge --search $args",
                info: "emerge --info $args",
                update: "emerge --sync",
                upgrade_all: "emerge -vuDN @world",
                list: "qlist -Iv",
            },
            Vendor::Guix => VendorData {
                vendor: Vendor::Guix,
                executable: "guix",
                yes_flag: "",
                install: "guix install $yes $args",
                remove: "guix remove $yes $args",
                upgrade: "guix upgrade $yes $args",
                search: "guix search $args",
                info: "guix show $args",
                update: "guix refresh $yes",
                upgrade_all: "guix upgrade $yes",
                list: "guix package --list-installed",
            },
            Vendor::NixEnv => VendorData {
                vendor: Vendor::NixEnv,
                executable: "nix-env",
                yes_flag: "",
                install: "nix-env --install $args",
                remove: "nix-env --uninstall $args",
                upgrade: "nix-env --upgrade $args",
                search: "nix-env -qaP $args",
                info: "nix-env -qa --description $args",
                update: "nix-channel --update",
                upgrade_all: "nix-env --upgrade",
                list: "nix-env --query --installed",
            },
            Vendor::Slackpkg => VendorData {
                vendor: Vendor::Slackpkg,
                executable: "slackpkg",
                yes_flag: "",
                install: "slackpkg install $args",
                remove: "slackpkg remove $args",
                upgrade: "slackpkg upgrade $args",
                search: "slackpkg search $args",
                info: "slackpkg info $args",
                update: "slackpkg update",
                upgrade_all: "slackpkg upgrade-all",
                list: "ls -1 /var/log/packages",
            },
            Vendor::Cards => VendorData {
                vendor: Vendor::Cards,
                executable: "cards",
                yes_flag: "",
                install: "cards install $args",
                remove: "cards remove $args",
                upgrade: "cards install --upgrade $args",
                search: "cards search $args",
                info: "cards info $args",
                update: "cards sync",
                upgrade_all: "cards upgrade",
                list: "cards list",
            },
            Vendor::Dnf => VendorData {
                vendor: Vendor::Dnf,
                executable: "dnf",
                yes_flag: "--assumeyes",
                install: "dnf install $yes $args",
                remove: "dnf remove $yes $args",
                upgrade: "dnf upgrade $yes $args",
                search: "dnf search $args",
                info: "dnf info $args",
                update: "dnf check-update $yes",
                upgrade_all: "dnf update $yes",
                list: "dnf list --installed",
            },
            Vendor::Eopkg => VendorData {
                vendor: Vendor::Eopkg,
                executable: "eopkg",
                yes_flag: "--yes-all",
                install: "eopkg install $yes $args",
                remove: "eopkg remove $yes $args",
                upgrade: "eopkg upgrade $yes $args",
                search: "eopkg search $args",
                info: "eopkg info $args",
                update: "eopkg update-repo $yes",
                upgrade_all: "eopkg upgrade $yes",
                list: "eopkg list-installed",
            },
            Vendor::Opkg => VendorData {
                vendor: Vendor::Opkg,
                executable: "opkg",
                yes_flag: "",
                install: "opkg install $args",
                remove: "opkg remove $args",
                upgrade: "opkg upgrade $args",
                search: "opkg find $args",
                info: "opkg info $args",
                update: "opkg update",
                upgrade_all: "opkg upgrade",
                list: "opkg list-installed",
            },
            Vendor::Urpm => VendorData {
                vendor: Vendor::Urpm,
                executable: "urpm",
                yes_flag: "",
                install: "urpmi $args",
                remove: "urpme $args",
                upgrade: "urpmi $args",
                search: "urpmq --fuzzy $args",
                info: "urpmq -i $args",
                update: "urpmi.update -a",
                upgrade_all: "urpmi --auto-update",
                list: "rpm --query --all",
            },
            Vendor::Xbps => VendorData {
                vendor: Vendor::Xbps,
                executable: "xbps",
                yes_flag: "--yes",
                install: "xbps-install $yes $args",
                remove: "xbps-remove $yes $args",
                upgrade: "xbps-install --update $yes $args",
                search: "xbps-query -Rs $args",
                info: "xbps-query -RS $args",
                update: "xbps-install --sync $yes",
                upgrade_all: "xbps-install --update $yes",
                list: "xbps-query --list-pkgs",
            },
            Vendor::Zypper => VendorData {
                vendor: Vendor::Zypper,
                executable: "zypper",
                yes_flag: "--no-confirm",
                install: "zypper install $yes $args",
                remove: "zypper remove $yes $args",
                upgrade: "zypper update $yes $args",
                search: "zypper search $args",
                info: "zypper info $args",
                update: "zypper refresh $yes",
                upgrade_all: "zypper update $yes",
                list: "zypper search --installed-only",
            },
            Vendor::Flatpak => VendorData {
                vendor: Vendor::Flatpak,
                executable: "flatpak",
                yes_flag: "--assumeyes",
                install: "flatpak --user install $yes $args",
                remove: "flatpak --user uninstall $yes $args",
                upgrade: "flatpak --user update $yes $args",
                search: "flatpak --user search $args",
                info: "flatpak --user info $args",
                update: "",
                upgrade_all: "flatpak --user update $yes",
                list: "flatpak --user list",
            },
            Vendor::Snap => VendorData {
                vendor: Vendor::Snap,
                executable: "snap",
                yes_flag: "",
                install: "snap install --classic $args",
                remove: "snap remove $args",
                upgrade: "snap refresh $args",
                search: "snap find $args",
                info: "snap info $args",
                update: "",
                upgrade_all: "snap refresh",
                list: "snap list",
            },
        }
    }
}

/// The canonical display name of each vendor.
pub open spec fn vendor_name(v: Vendor) -> Seq<char> {
    match v {
        Vendor::Apt => "Apt"@,
        Vendor::Yay => "Yay"@,
        Vendor::Yum => "Yum"@,
        Vendor::Pacman => "Pacman"@,
        Vendor::Apk => "Apk"@,
        Vendor::Emerge => "Emerge"@,
        Vendor::Guix => "Guix"@,
        Vendor::NixEnv => "NixEnv"@,
        Vendor::Slackpkg => "Slackpkg"@,
        Vendor::Cards => "Cards"@,
        Vendor::Dnf => "Dnf"@,
        Vendor::Eopkg => "Eopkg"@,
        Vendor::Opkg => "Opkg"@,
        Vendor::Urpm => "Urpm"@,
        Vendor::Xbps => "Xbps"@,
        Vendor::Zypper => "Zypper"@,
        Vendor::Flatpak => "Flatpak"@,
        Vendor::Snap => "Snap"@,
    }
}

/// All vendors, in the order the resolver probes them.
pub open spec fn vendor_order() -> Seq<Vendor> {
    seq![
        Vendor::Apt,
        Vendor::Yay,
        Vendor::Yum,
        Vendor::Pacman,
        Vendor::Apk,
        Vendor::Emerge,
        Vendor::Guix,
        Vendor::NixEnv,
        Vendor::Slackpkg,
        Vendor::Cards,
        Vendor::Dnf,
        Vendor::Eopkg,
        Vendor::Opkg,
        Vendor::Urpm,
        Vendor::Xbps,
        Vendor::Zypper,
        Vendor::Flatpak,
        Vendor::Snap,
    ]
}

impl Vendor {
    /// The vendor's canonical display name.
    pub fn name(&self) -> (r: &'static str)
        ensures
            r@ == vendor_name(*self),
    {
        match *self {
            Vendor::Apt => "Apt",
            Vendor::Yay => "Yay",
            Vendor::Yum => "Yum",
            Vendor::Pacman => "Pacman",
            Vendor::Apk => "Apk",
            Vendor::Emerge => "Emerge",
            Vendor::Guix => "Guix",
            Vendor::NixEnv => "NixEnv",
            Vendor::Slackpkg => "Slackpkg",
            Vendor::Cards => "Cards",
            Vendor::Dnf => "Dnf",
            Vendor::Eopkg => "Eopkg",
            Vendor::Opkg => "Opkg",
            Vendor::Urpm => "Urpm",
            Vendor::Xbps => "Xbps",
            Vendor::Zypper => "Zypper",
            Vendor::Flatpak => "Flatpak",
            Vendor::Snap => "Snap",
        }
    }

    /// All vendors, in resolution order.
    pub fn all() -> (r: Vec<Vendor>)
        ensures
            r@ == vendor_order(),
    {
        let order = vec![
            Vendor::Apt,
            Vendor::Yay,
            Vendor::Yum,
            Vendor::Pacman,
            Vendor::Apk,
            Vendor::Emerge,
            Vendor::Guix,
            Vendor::NixEnv,
            Vendor::Slackpkg,
            Vendor::Cards,
            Vendor::Dnf,
            Vendor::Eopkg,
            Vendor::Opkg,
            Vendor::Urpm,
            Vendor::Xbps,
            Vendor::Zypper,
            Vendor::Flatpak,
            Vendor::Snap,
        ];
        proof {
            assert(order@ =~= vendor_order());
        }
        order
    }
}

/// Every vendor's profile names a non-empty executable; the catalog never
/// lacks a slot, an unsupported operation is an empty template, not a missing
/// one.
pub proof fn lemma_profiles_have_executables(v: Vendor)
    ensures
        profile_spec(v).executable.len() > 0,
{
    reveal_strlit("apt");
    reveal_strlit("yay");
    reveal_strlit("yum");
    reveal_strlit("pacman");
    reveal_strlit("apk");
    reveal_strlit("emerge");
    reveal_strlit("guix");
    reveal_strlit("nix-env");
    reveal_strlit("slackpkg");
    reveal_strlit("cards");
    reveal_strlit("dnf");
    reveal_strlit("eopkg");
    reveal_strlit("opkg");
    reveal_strlit("urpm");
    reveal_strlit("xbps");
    reveal_strlit("zypper");
    reveal_strlit("flatpak");
    reveal_strlit("snap");
}

} // verus!
