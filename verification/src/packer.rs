use vstd::prelude::*;

use vstd::string::StringExecFns;

verus! {

/// A packer-style build description: QEMU builders and their provisioners.
#[derive(Clone, Debug)]
pub struct PackerTemplate {
    pub builders: Vec<QemuBuilder>,
    pub provisioners: Vec<PackerProvisioner>,
}

impl Default for PackerTemplate {
    /// An empty template: no builders, no provisioners.
    fn default() -> (r: PackerTemplate)
        ensures
            r.builders@.len() == 0,
            r.provisioners@.len() == 0,
    {
        PackerTemplate { builders: Vec::new(), provisioners: Vec::new() }
    }
}

/// A packer-style QEMU builder configuration.
#[derive(Clone, Debug)]
pub struct QemuBuilder {
    pub boot_command: Vec<String>,
    pub boot_wait: String,
    pub communicator: String,
    pub disk_compression: bool,
    pub disk_size: String,
    pub format: String,
    pub headless: bool,
    pub iso_checksum: String,
    pub iso_url: String,
    pub memory: String,
    pub output_directory: String,
    pub qemu_binary: Option<String>,
    pub qemuargs: Option<Vec<Vec<String>>>,
    pub builder_type: String,
    pub shutdown_command: String,
    pub ssh_password: Option<String>,
    pub ssh_username: Option<String>,
    pub ssh_wait_timeout: Option<String>,
    pub vm_name: Option<String>,
    pub winrm_insecure: Option<bool>,
    pub winrm_password: Option<String>,
    pub winrm_timeout: Option<String>,
    pub winrm_username: Option<String>,
    pub floppy_files: Option<Vec<String>>,
    pub disk_interface: String,
}

/// The fields of a builder that `QemuBuilder::new` leaves at their
/// defaults: empty strings and absent options.
pub open spec fn qemu_builder_rest_default(r: QemuBuilder) -> bool {
    &&& r.boot_command@.len() == 0
    &&& r.boot_wait@ == Seq::<char>::empty()
    &&& r.communicator@ == Seq::<char>::empty()
    &&& r.disk_size@ == Seq::<char>::empty()
    &&& r.iso_checksum@ == Seq::<char>::empty()
    &&& r.iso_url@ == Seq::<char>::empty()
    &&& r.memory@ == Seq::<char>::empty()
    &&& r.output_directory@ == Seq::<char>::empty()
    &&& r.qemu_binary is None
    &&& r.qemuargs is None
    &&& r.shutdown_command@ == Seq::<char>::empty()
    &&& r.ssh_password is None
    &&& r.ssh_username is None
    &&& r.ssh_wait_timeout is None
    &&& r.vm_name is None
    &&& r.winrm_insecure is None
    &&& r.winrm_password is None
    &&& r.winrm_timeout is None
    &&& r.winrm_username is None
    &&& r.floppy_files is None
}

impl Default for QemuBuilder {
    /// The all-empty builder: empty strings, absent options, false flags.
    fn default() -> (r: QemuBuilder)
        ensures
            qemu_builder_rest_default(r),
            !r.disk_compression,
            r.format@ == Seq::<char>::empty(),
            !r.headless,
            r.builder_type@ == Seq::<char>::empty(),
            r.disk_interface@ == Seq::<char>::empty(),
    {
        QemuBuilder {
            boot_command: Vec::new(),
            boot_wait: String::new(),
            communicator: String::new(),
            disk_compression: false,
            disk_size: String::new(),
            format: String::new(),
            headless: false,
            iso_checksum: String::new(),
            iso_url: String::new(),
            memory: String::new(),
            output_directory: String::new(),
            qemu_binary: None,
            qemuargs: None,
            builder_type: String::new(),
            shutdown_command: String::new(),
            ssh_password: None,
            ssh_username: None,
            ssh_wait_timeout: None,
            vm_name: None,
            winrm_insecure: None,
            winrm_password: None,
            winrm_timeout: None,
            winrm_username: None,
            floppy_files: None,
            disk_interface: String::new(),
        }
    }
}

impl QemuBuilder {
    /// A builder prepared for this system's use of QEMU: qcow2 output,
    /// headless, compressed disk, IDE disk interface; everything else at its
    /// default.
    pub fn new() -> (r: QemuBuilder)
        ensures
            qemu_builder_rest_default(r),
            r.format@ == "qcow2"@,
            r.headless,
            r.builder_type@ == "qemu"@,
            r.disk_compression,
            r.disk_interface@ == "ide"@,
    {
        let mut builder = QemuBuilder::default();
        builder.format = String::from_str("qcow2");
        builder.headless = true;
        builder.builder_type = String::from_str("qemu");
        builder.disk_compression = true;
        builder.disk_interface = String::from_str("ide");
        builder
    }
}

/// A packer-style provisioner configuration.
#[derive(Clone, Debug)]
pub struct PackerProvisioner {
    pub extra_arguments: Vec<String>,
    pub playbook_file: Option<String>,
    pub provisioner_type: String,
    pub scripts: Vec<String>,
    pub use_proxy: Option<bool>,
    pub user: Option<String>,
}

impl Default for PackerProvisioner {
    /// The all-empty provisioner.
    fn default() -> (r: PackerProvisioner)
        ensures
            r.extra_arguments@.len() == 0,
            r.playbook_file is None,
            r.provisioner_type@ == Seq::<char>::empty(),
            r.scripts@.len() == 0,
            r.use_proxy is None,
            r.user is None,
    {
        PackerProvisioner {
            extra_arguments: Vec::new(),
            playbook_file: None,
            provisioner_type: String::new(),
            scripts: Vec::new(),
            use_proxy: None,
            user: None,
        }
    }
}

} // verus!
