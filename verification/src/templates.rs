use vstd::prelude::*;

use vstd::string::StringExecFns;

use crate::commands::{enter, enter_step, wait, wait_screen_rect, CmdView, VncCmd};

verus! {

/// A partition request for the guest disk.
#[derive(Clone, Debug)]
pub struct Partition {
    pub label: String,
    pub size: String,
    pub format: String,
    pub mount_point: String,
}

/// A post-install provisioning step: a script uploaded and executed over the
/// guest shell.
#[derive(Clone, Debug)]
pub struct Provisioner {
    pub script: String,
}

/// The installation media a build must resolve, by URL and checksum, before
/// the VM can launch.
#[derive(Clone, Debug)]
pub struct MediaRequest {
    pub url: String,
    pub checksum: String,
}

/// The supported Ubuntu Server releases.
#[derive(Clone, Copy, Debug, PartialEq, Eq, Structural)]
pub enum UbuntuServerVersion {
    Jammy,
}

/// The Ubuntu Server template: an unattended install from the given media,
/// reached over the shell once the installer has finished.
#[derive(Clone, Debug)]
pub struct UbuntuServerTemplate {
    pub root_password: String,
    /// The installation media URL.
    pub iso_url: String,
    /// A hash of the installation media.
    pub iso_checksum: String,
    pub version: UbuntuServerVersion,
    pub partitions: Option<Vec<Partition>>,
    pub provisioners: Option<Vec<Provisioner>>,
}

impl Default for UbuntuServerTemplate {
    /// The default template: root password `root`, no media, no partitions,
    /// no provisioners.
    fn default() -> (r: UbuntuServerTemplate)
        ensures
            r.root_password@ == "root"@,
            r.iso_url@ == ""@,
            r.iso_checksum@ == "none"@,
            r.version is Jammy,
            r.partitions is None,
            r.provisioners is None,
    {
        UbuntuServerTemplate {
            root_password: String::from_str("root"),
            iso_url: String::from_str(""),
            iso_checksum: String::from_str("none"),
            version: UbuntuServerVersion::Jammy,
            partitions: None,
            provisioners: None,
        }
    }
}

impl UbuntuServerTemplate {
    /// The media this template installs from.
    pub fn media_request(&self) -> (r: MediaRequest)
        ensures
            r.url@ == self.iso_url@,
            r.checksum@ == self.iso_checksum@,
    {
        MediaRequest { url: self.iso_url.clone(), checksum: self.iso_checksum.clone() }
    }

    /// The scripted-install phase of this template: the installer runs
    /// unattended, so the console script is empty.
    pub fn boot_script(&self) -> (r: Vec<Vec<VncCmd>>)
        ensures
            r.deep_view() == Seq::<Seq<CmdView>>::empty(),
    {
        let r: Vec<Vec<VncCmd>> = Vec::new();
        proof {
            assert(r.deep_view() =~= Seq::<Seq<CmdView>>::empty());
        }
        r
    }

    /// The user the shell-reachability phase logs in as.
    pub fn ssh_username(&self) -> (r: &'static str)
        ensures
            r@ == "root"@,
    {
        "root"
    }

    /// The password the shell-reachability phase logs in with.
    pub fn ssh_password(&self) -> (r: String)
        ensures
            r@ == self.root_password@,
    {
        self.root_password.clone()
    }

    /// The guest shutdown command issued once post-install is done.
    pub fn shutdown_command(&self) -> (r: &'static str)
        ensures
            r@ == "poweroff"@,
    {
        "poweroff"
    }
}

/// What a template shares with every other: its base kind and the guest
/// storage size.
#[derive(Clone, Copy, Debug, PartialEq, Eq, Structural)]
pub enum TemplateBase {
    GoldbootLinux,
}

/// The general, template-independent part of a template's configuration.
#[derive(Debug)]
pub struct GeneralContainer {
    pub base: TemplateBase,
    pub storage_size: String,
}

/// The goldboot Linux template: boots a stock live ISO, scripts a temporary
/// root password and shell access over the console, then installs over the
/// shell.
#[derive(Debug)]
pub struct GoldbootLinuxTemplate {
    pub general: GeneralContainer,
}

impl Default for GoldbootLinuxTemplate {
    /// The default template: a four-gibibyte guest disk.
    fn default() -> (r: GoldbootLinuxTemplate)
        ensures
            r.general.base is GoldbootLinux,
            r.general.storage_size@ == "4 GiB"@,
    {
        GoldbootLinuxTemplate {
            general: GeneralContainer {
                base: TemplateBase::GoldbootLinux,
                storage_size: String::from_str("4 GiB"),
            },
        }
    }
}

/// The login-screen hash the goldboot Linux boot script waits for.
pub open spec fn gb_linux_login_hash() -> Seq<char> {
    "5b3ca88689e9d671903b3040889c7fa1cb5f244a"@
}

/// The console script of the goldboot Linux template: wait out the early
/// boot, wait for the login screen region, set a temporary root password,
/// permit root logins over the shell, and restart the shell daemon.
pub open spec fn gb_linux_script(pw: Seq<char>) -> Seq<Seq<CmdView>> {
    seq![
        seq![CmdView::Wait(50)],
        seq![CmdView::WaitScreenRect(gb_linux_login_hash(), 100, 0, 1024, 400)],
        enter_step("passwd"@),
        enter_step(pw),
        enter_step(pw),
        enter_step("echo 'AcceptEnv *' >>/etc/ssh/sshd_config"@),
        enter_step("echo 'PermitRootLogin yes' >>/etc/ssh/sshd_config"@),
        enter_step("systemctl restart sshd"@),
    ]
}

impl GoldbootLinuxTemplate {
    /// The general configuration shared with every template.
    pub fn general(&self) -> (r: GeneralContainer)
        ensures
            r == self.general,
    {
        GeneralContainer {
            base: self.general.base,
            storage_size: self.general.storage_size.clone(),
        }
    }

    /// The live media this template boots.
    pub fn media_request(&self) -> (r: MediaRequest)
        ensures
            r.url@ == "https://mirrors.edge.kernel.org/archlinux/iso/latest/archlinux-2022.03.01-x86_64.iso"@,
            r.checksum@ == "none"@,
    {
        MediaRequest {
            url: String::from_str(
                "https://mirrors.edge.kernel.org/archlinux/iso/latest/archlinux-2022.03.01-x86_64.iso",
            ),
            checksum: String::from_str("none"),
        }
    }

    /// The scripted-install phase of this template, configuring the given
    /// temporary root password.
    pub fn boot_script(&self, temp_password: &str) -> (r: Vec<Vec<VncCmd>>)
        ensures
            r.deep_view() == gb_linux_script(temp_password@),
    {
        let mut r: Vec<Vec<VncCmd>> = Vec::new();
        r.push(wait(50));
        r.push(wait_screen_rect("5b3ca88689e9d671903b3040889c7fa1cb5f244a", 100, 0, 1024, 400));
        r.push(enter("passwd"));
        r.push(enter(temp_password));
        r.push(enter(temp_password));
        r.push(enter("echo 'AcceptEnv *' >>/etc/ssh/sshd_config"));
        r.push(enter("echo 'PermitRootLogin yes' >>/etc/ssh/sshd_config"));
        r.push(enter("systemctl restart sshd"));
        proof {
            assert(r.deep_view() =~= gb_linux_script(temp_password@));
        }
        r
    }

    /// The user the shell-reachability phase logs in as.
    pub fn ssh_username(&self) -> (r: &'static str)
        ensures
            r@ == "root"@,
    {
        "root"
    }

    /// The environment variable the post-install payload reads the final
    /// root password from.
    pub fn payload_env_var(&self) -> (r: &'static str)
        ensures
            r@ == "GB_ROOT_PASSWORD"@,
    {
        "GB_ROOT_PASSWORD"
    }

    /// The guest shutdown command issued once post-install is done.
    pub fn shutdown_command(&self) -> (r: &'static str)
        ensures
            r@ == "poweroff"@,
    {
        "poweroff"
    }
}

} // verus!
