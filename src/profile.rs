//! The VM profile and the argument list of each `VBoxManage` invocation.
use vstd::prelude::*;
use vstd::string::StrSliceExecFns;
use vstd::string::StringExecFns;
use crate::plan::Step;

verus! {

pub const SATA_CONTROLLER_NAME: &'static str = "SATA Controller";
pub const IDE_CONTROLLER_NAME: &'static str = "IDE Controller";
pub const SATA_CONTROLLER: &'static str = "IntelAhci";
pub const IDE_CONTROLLER: &'static str = "PIIX4";
pub const DIGITS: &'static str = "0123456789";

/// The decimal digits of `n`, without leading zeros.
pub open spec fn decimal(n: nat) -> Seq<char>
    decreases n,
{
    if n < 10 {
        seq![DIGITS@[n as int]]
    } else {
        decimal(n / 10).push(DIGITS@[(n % 10) as int])
    }
}

/// The decimal text of `n`.
pub fn decimal_string(n: u32) -> (r: String)
    ensures
        r@ == decimal(n as nat),
    decreases n,
{
    proof {
        reveal_strlit("0123456789");
    }
    let d = (n % 10) as usize;
    let digit = DIGITS.substring_char(d, d + 1);
    assert(digit@ =~= seq![DIGITS@[d as int]]);
    if n < 10 {
        String::from_str(digit)
    } else {
        let mut s = decimal_string(n / 10);
        s.append(digit);
        s
    }
}

/// The views of a list of arguments.
pub open spec fn args_view(v: Seq<String>) -> Seq<Seq<char>> {
    v.map_values(|s: String| s@)
}

/// The profile of the VM to provision. Every field is fixed when the profile
/// is made, except the medium identifier, which is unset until the disk is
/// found or created.
pub struct VBox {
    pub exe: String,
    pub name: String,
    pub ostype: String,
    pub basefolder: String,
    pub hdd_name: String,
    pub medium_id: Option<String>,
    pub iso: String,
    pub pass_file: String,
    pub memory_mb: u32,
    pub vram_mb: u32,
    pub disk_size_mb: u32,
    pub cpus: u32,
    pub user: String,
    pub full_user_name: String,
    pub password: String,
    pub time_zone: String,
}

/// The path of the disk image: `<basefolder>/<ostype>/<hdd_name>`.
pub open spec fn medium_name_of(v: VBox) -> Seq<char> {
    v.basefolder@ + "/"@ + v.ostype@ + "/"@ + v.hdd_name@
}

pub open spec fn boot_args(first: Seq<char>, second: Seq<char>) -> Seq<Seq<char>> {
    seq!["--boot1"@, first, "--boot2"@, second, "--boot3"@, "none"@, "--boot4"@, "none"@]
}

/// The arguments of `step`, after the program name.
pub open spec fn command_of(v: VBox, step: Step) -> Seq<Seq<char>> {
    match step {
        Step::CheckVm => seq!["showvminfo"@, v.name@],
        Step::CreateVm => seq![
            "createvm"@, "--name"@, v.name@, "--ostype"@, v.ostype@, "--register"@,
            "--basefolder"@, v.basefolder@,
        ],
        Step::EnableIoapic => seq!["modifyvm"@, v.name@, "--ioapic"@, "on"@],
        Step::SetMemory => seq![
            "modifyvm"@, v.name@, "--memory"@, decimal(v.memory_mb as nat), "--vram"@,
            decimal(v.vram_mb as nat),
        ],
        Step::SetNic1 => seq!["modifyvm"@, v.name@, "--nic1"@, "nat"@],
        Step::CheckMedium | Step::RecheckMedium => seq!["showmediuminfo"@, medium_name_of(v)],
        Step::CreateDisk => seq![
            "createhd"@, "--filename"@, medium_name_of(v), "--size"@,
            decimal(v.disk_size_mb as nat), "--format"@, "VDI"@,
        ],
        Step::CheckSataController => seq![
            "storagectl"@, v.name@, "--name"@, SATA_CONTROLLER_NAME@, "--controller"@,
            SATA_CONTROLLER@,
        ],
        Step::CreateSataController => seq![
            "storagectl"@, v.name@, "--name"@, SATA_CONTROLLER_NAME@, "--add"@, "sata"@,
            "--controller"@, SATA_CONTROLLER@,
        ],
        Step::AttachDisk => seq![
            "storageattach"@, v.name@, "--storagectl"@, SATA_CONTROLLER_NAME@, "--port"@, "0"@,
            "--device"@, "0"@, "--type"@, "hdd"@, "--medium"@, medium_name_of(v),
        ],
        Step::CheckIdeController => seq![
            "storagectl"@, v.name@, "--name"@, IDE_CONTROLLER_NAME@, "--controller"@,
            IDE_CONTROLLER@,
        ],
        Step::CreateIdeController => seq![
            "storagectl"@, v.name@, "--name"@, IDE_CONTROLLER_NAME@, "--add"@, "ide"@,
            "--controller"@, IDE_CONTROLLER@,
        ],
        Step::AttachIso => seq![
            "storageattach"@, v.name@, "--storagectl"@, IDE_CONTROLLER_NAME@, "--port"@, "0"@,
            "--device"@, "0"@, "--type"@, "dvddrive"@, "--medium"@, v.iso@,
        ],
        Step::SetBootOrder => seq!["modifyvm"@, v.name@] + boot_args("dvd"@, "disk"@) + seq![
            "--cpus"@, decimal(v.cpus as nat)],
        Step::InstallOs => seq![
            "unattended"@, "install"@, v.name@, "--iso"@, v.iso@, "--user"@, v.user@,
            "--full-user-name"@, v.full_user_name@, "--password"@, v.password@,
            "--install-additions"@, "--time-zone"@, v.time_zone@,
        ],
        Step::PostInstall => seq!["modifyvm"@, v.name@] + boot_args("disk"@, "dvd"@),
    }
}

/// The arguments that encrypt the registered disk image, once its identifier
/// is known; `size` follows the password file.
pub open spec fn encrypt_command_of(v: VBox, size: u32) -> Option<Seq<Seq<char>>> {
    match v.medium_id {
        Some(id) => Some(seq![
            "encryptmedium"@, id@, "--newpassword"@, v.pass_file@, decimal(size as nat),
            "--newpassword-id"@, "1"@,
            "--cipher"@, "AES-XTS128-PLAIN64"@,
        ]),
        None => None,
    }
}

fn text(s: &str) -> (r: String)
    ensures
        r@ == s@,
{
    String::from_str(s)
}

impl VBox {
    /// The profile with the built-in settings: an Ubuntu guest named `Ubuntu`.
    pub fn new() -> (r: VBox)
        ensures
            r.exe@ == "VBoxManage"@,
            r.name@ == "Ubuntu"@,
            r.ostype@ == "Ubuntu_64"@,
            r.basefolder@ == "C:/VMs"@,
            r.hdd_name@ == "Ubuntu_DISK.vdi"@,
            r.medium_id is None,
            r.iso@ == "C:/Users/User/Downloads/ubuntu-22.04.3-live-server-amd64.iso"@,
            r.pass_file@ == "C:/Users/User/Projects/vbox/tmp/pass"@,
            r.memory_mb == 4048,
            r.vram_mb == 128,
            r.disk_size_mb == 20000,
            r.cpus == 4,
            r.user@ == "test"@,
            r.full_user_name@ == "Test"@,
            r.password@ == "test"@,
            r.time_zone@ == "CET"@,
    {
        VBox {
            exe: text("VBoxManage"),
            name: text("Ubuntu"),
            ostype: text("Ubuntu_64"),
            basefolder: text("C:/VMs"),
            hdd_name: text("Ubuntu_DISK.vdi"),
            medium_id: None,
            iso: text("C:/Users/User/Downloads/ubuntu-22.04.3-live-server-amd64.iso"),
            pass_file: text("C:/Users/User/Projects/vbox/tmp/pass"),
            memory_mb: 4048,
            vram_mb: 128,
            disk_size_mb: 20000,
            cpus: 4,
            user: text("test"),
            full_user_name: text("Test"),
            password: text("test"),
            time_zone: text("CET"),
        }
    }

    /// The path of the disk image.
    pub fn get_medium_name(&self) -> (r: String)
        ensures
            r@ == medium_name_of(*self),
    {
        let mut r = self.basefolder.clone();
        r.append("/");
        r.append(self.ostype.as_str());
        r.append("/");
        r.append(self.hdd_name.as_str());
        r
    }

    /// Records the identifier under which the disk image is registered.
    pub fn set_medium_id(&mut self, medium_id: &str)
        ensures
            final(self).medium_id matches Some(id) && id@ == medium_id@,
            *final(self) == (VBox { medium_id: final(self).medium_id, ..*old(self) }),
    {
        self.medium_id = Some(String::from_str(medium_id));
    }

    /// Asks whether the VM is registered.
    pub fn showvminfo(&self) -> (r: Vec<String>)
        ensures
            args_view(r@) == command_of(*self, Step::CheckVm),
    {
        let r = vec![text("showvminfo"), self.name.clone()];
        assert(args_view(r@) =~= command_of(*self, Step::CheckVm));
        r
    }

    /// Creates and registers the VM.
    pub fn createvm(&self) -> (r: Vec<String>)
        ensures
            args_view(r@) == command_of(*self, Step::CreateVm),
    {
        let r = vec![
            text("createvm"),
            text("--name"),
            self.name.clone(),
            text("--ostype"),
            self.ostype.clone(),
            text("--register"),
            text("--basefolder"),
            self.basefolder.clone(),
        ];
        assert(args_view(r@) =~= command_of(*self, Step::CreateVm));
        r
    }

    /// Switches the IO-APIC on.
    pub fn enable_ioapic(&self) -> (r: Vec<String>)
        ensures
            args_view(r@) == command_of(*self, Step::EnableIoapic),
    {
        let r = vec![text("modifyvm"), self.name.clone(), text("--ioapic"), text("on")];
        assert(args_view(r@) =~= command_of(*self, Step::EnableIoapic));
        r
    }

    /// Sets the memory and video memory sizes, in megabytes.
    pub fn set_memory(&self) -> (r: Vec<String>)
        ensures
            args_view(r@) == command_of(*self, Step::SetMemory),
    {
        let r = vec![
            text("modifyvm"),
            self.name.clone(),
            text("--memory"),
            decimal_string(self.memory_mb),
            text("--vram"),
            decimal_string(self.vram_mb),
        ];
        assert(args_view(r@) =~= command_of(*self, Step::SetMemory));
        r
    }

    /// Puts the first network interface in NAT mode.
    pub fn set_nic1(&self) -> (r: Vec<String>)
        ensures
            args_view(r@) == command_of(*self, Step::SetNic1),
    {
        let r = vec![text("modifyvm"), self.name.clone(), text("--nic1"), text("nat")];
        assert(args_view(r@) =~= command_of(*self, Step::SetNic1));
        r
    }

    /// Asks for the disk image's registration.
    pub fn showmediuminfo(&self) -> (r: Vec<String>)
        ensures
            args_view(r@) == command_of(*self, Step::CheckMedium),
    {
        let r = vec![text("showmediuminfo"), self.get_medium_name()];
        assert(args_view(r@) =~= command_of(*self, Step::CheckMedium));
        r
    }

    /// Creates the disk image in VDI format.
    pub fn createhd(&self) -> (r: Vec<String>)
        ensures
            args_view(r@) == command_of(*self, Step::CreateDisk),
    {
        let r = vec![
            text("createhd"),
            text("--filename"),
            self.get_medium_name(),
            text("--size"),
            decimal_string(self.disk_size_mb),
            text("--format"),
            text("VDI"),
        ];
        assert(args_view(r@) =~= command_of(*self, Step::CreateDisk));
        r
    }

    /// Asks whether the SATA controller exists.
    pub fn get_sata_controller(&self) -> (r: Vec<String>)
        ensures
            args_view(r@) == command_of(*self, Step::CheckSataController),
    {
        let r = vec![
            text("storagectl"),
            self.name.clone(),
            text("--name"),
            text(SATA_CONTROLLER_NAME),
            text("--controller"),
            text(SATA_CONTROLLER),
        ];
        assert(args_view(r@) =~= command_of(*self, Step::CheckSataController));
        r
    }

    /// Adds the SATA controller.
    pub fn set_sata_controller(&self) -> (r: Vec<String>)
        ensures
            args_view(r@) == command_of(*self, Step::CreateSataController),
    {
        let r = vec![
            text("storagectl"),
            self.name.clone(),
            text("--name"),
            text(SATA_CONTROLLER_NAME),
            text("--add"),
            text("sata"),
            text("--controller"),
            text(SATA_CONTROLLER),
        ];
        assert(args_view(r@) =~= command_of(*self, Step::CreateSataController));
        r
    }

    /// Attaches the disk image to the SATA controller, port 0, device 0.
    pub fn attach_sata_controller(&self) -> (r: Vec<String>)
        ensures
            args_view(r@) == command_of(*self, Step::AttachDisk),
    {
        let r = vec![
            text("storageattach"),
            self.name.clone(),
            text("--storagectl"),
            text(SATA_CONTROLLER_NAME),
            text("--port"),
            text("0"),
            text("--device"),
            text("0"),
            text("--type"),
            text("hdd"),
            text("--medium"),
            self.get_medium_name(),
        ];
        assert(args_view(r@) =~= command_of(*self, Step::AttachDisk));
        r
    }

    /// Asks whether the IDE controller exists.
    pub fn get_ide_controller(&self) -> (r: Vec<String>)
        ensures
            args_view(r@) == command_of(*self, Step::CheckIdeController),
    {
        let r = vec![
            text("storagectl"),
            self.name.clone(),
            text("--name"),
            text(IDE_CONTROLLER_NAME),
            text("--controller"),
            text(IDE_CONTROLLER),
        ];
        assert(args_view(r@) =~= command_of(*self, Step::CheckIdeController));
        r
    }

    /// Adds the IDE controller.
    pub fn set_ide_controller(&self) -> (r: Vec<String>)
        ensures
            args_view(r@) == command_of(*self, Step::CreateIdeController),
    {
        let r = vec![
            text("storagectl"),
            self.name.clone(),
            text("--name"),
            text(IDE_CONTROLLER_NAME),
            text("--add"),
            text("ide"),
            text("--controller"),
            text(IDE_CONTROLLER),
        ];
        assert(args_view(r@) =~= command_of(*self, Step::CreateIdeController));
        r
    }

    /// Attaches the installation image to the IDE controller, port 0, device 0.
    pub fn attach_ide_controller(&self) -> (r: Vec<String>)
        ensures
            args_view(r@) == command_of(*self, Step::AttachIso),
    {
        let r = vec![
            text("storageattach"),
            self.name.clone(),
            text("--storagectl"),
            text(IDE_CONTROLLER_NAME),
            text("--port"),
            text("0"),
            text("--device"),
            text("0"),
            text("--type"),
            text("dvddrive"),
            text("--medium"),
            self.iso.clone(),
        ];
        assert(args_view(r@) =~= command_of(*self, Step::AttachIso));
        r
    }

    /// Boots from the optical drive first, then the disk, and sets the CPU count.
    pub fn modifyvm(&self) -> (r: Vec<String>)
        ensures
            args_view(r@) == command_of(*self, Step::SetBootOrder),
    {
        let r = vec![
            text("modifyvm"),
            self.name.clone(),
            text("--boot1"),
            text("dvd"),
            text("--boot2"),
            text("disk"),
            text("--boot3"),
            text("none"),
            text("--boot4"),
            text("none"),
            text("--cpus"),
            decimal_string(self.cpus),
        ];
        assert(args_view(r@) =~= command_of(*self, Step::SetBootOrder));
        r
    }

    /// Runs the unattended installation from the installation image.
    pub fn install_os(&self) -> (r: Vec<String>)
        ensures
            args_view(r@) == command_of(*self, Step::InstallOs),
    {
        let r = vec![
            text("unattended"),
            text("install"),
            self.name.clone(),
            text("--iso"),
            self.iso.clone(),
            text("--user"),
            self.user.clone(),
            text("--full-user-name"),
            self.full_user_name.clone(),
            text("--password"),
            self.password.clone(),
            text("--install-additions"),
            text("--time-zone"),
            self.time_zone.clone(),
        ];
        assert(args_view(r@) =~= command_of(*self, Step::InstallOs));
        r
    }

    /// Boots from the disk first, then the optical drive.
    pub fn postinstall(&self) -> (r: Vec<String>)
        ensures
            args_view(r@) == command_of(*self, Step::PostInstall),
    {
        let r = vec![
            text("modifyvm"),
            self.name.clone(),
            text("--boot1"),
            text("disk"),
            text("--boot2"),
            text("dvd"),
            text("--boot3"),
            text("none"),
            text("--boot4"),
            text("none"),
        ];
        assert(args_view(r@) =~= command_of(*self, Step::PostInstall));
        r
    }

    /// Encrypts the registered disk image with AES-XTS128-PLAIN64, the new
    /// password read from the password file and `size` passed after it; `None` while no medium
    /// identifier is recorded.
    pub fn encryptmedium(&self, size: u32) -> (r: Option<Vec<String>>)
        ensures
            match r {
                Some(a) => encrypt_command_of(*self, size) == Some(args_view(a@)),
                None => encrypt_command_of(*self, size) is None,
            },
    {
        match &self.medium_id {
            Some(id) => {
                let r = vec![
                    text("encryptmedium"),
                    id.clone(),
                    text("--newpassword"),
                    self.pass_file.clone(),
                    decimal_string(size),
                    text("--newpassword-id"),
                    text("1"),
                    text("--cipher"),
                    text("AES-XTS128-PLAIN64"),
                ];
                assert(Some(args_view(r@)) =~= encrypt_command_of(*self, size));
                Some(r)
            },
            None => None,
        }
    }

    /// The arguments of `step`, after the program name.
    pub fn command(&self, step: Step) -> (r: Vec<String>)
        ensures
            args_view(r@) == command_of(*self, step),
    {
        match step {
            Step::CheckVm => self.showvminfo(),
            Step::CreateVm => self.createvm(),
            Step::EnableIoapic => self.enable_ioapic(),
            Step::SetMemory => self.set_memory(),
            Step::SetNic1 => self.set_nic1(),
            Step::CheckMedium => self.showmediuminfo(),
            Step::RecheckMedium => self.showmediuminfo(),
            Step::CreateDisk => self.createhd(),
            Step::CheckSataController => self.get_sata_controller(),
            Step::CreateSataController => self.set_sata_controller(),
            Step::AttachDisk => self.attach_sata_controller(),
            Step::CheckIdeController => self.get_ide_controller(),
            Step::CreateIdeController => self.set_ide_controller(),
            Step::AttachIso => self.attach_ide_controller(),
            Step::SetBootOrder => self.modifyvm(),
            Step::InstallOs => self.install_os(),
            Step::PostInstall => self.postinstall(),
        }
    }
}

} // verus!
