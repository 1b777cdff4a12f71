use vbox_setup::plan::Step;
use vbox_setup::profile::{decimal_string, VBox};

fn strs(v: &[&str]) -> Vec<String> {
    v.iter().map(|s| s.to_string()).collect()
}

#[test]
fn decimal_text_of_numbers() {
    assert_eq!(decimal_string(0), "0");
    assert_eq!(decimal_string(7), "7");
    assert_eq!(decimal_string(10), "10");
    assert_eq!(decimal_string(4048), "4048");
    assert_eq!(decimal_string(u32::MAX), "4294967295");
}

#[test]
fn default_profile() {
    let v = VBox::new();
    assert_eq!(v.exe, "VBoxManage");
    assert_eq!(v.name, "Ubuntu");
    assert_eq!(v.ostype, "Ubuntu_64");
    assert_eq!(v.medium_id, None);
    assert_eq!(v.memory_mb, 4048);
    assert_eq!(v.vram_mb, 128);
    assert_eq!(v.disk_size_mb, 20000);
    assert_eq!(v.cpus, 4);
}

#[test]
fn medium_name_joins_folder_type_and_file() {
    assert_eq!(VBox::new().get_medium_name(), "C:/VMs/Ubuntu_64/Ubuntu_DISK.vdi");
}

#[test]
fn medium_id_is_recorded() {
    let mut v = VBox::new();
    v.set_medium_id("3f2504e0-4f89-11d3-9a0c-0305e82c3301");
    assert_eq!(v.medium_id, Some("3f2504e0-4f89-11d3-9a0c-0305e82c3301".to_string()));
    assert_eq!(v.name, "Ubuntu");
}

#[test]
fn vm_commands() {
    let v = VBox::new();
    assert_eq!(v.showvminfo(), strs(&["showvminfo", "Ubuntu"]));
    assert_eq!(
        v.createvm(),
        strs(&["createvm", "--name", "Ubuntu", "--ostype", "Ubuntu_64", "--register", "--basefolder", "C:/VMs"])
    );
    assert_eq!(v.enable_ioapic(), strs(&["modifyvm", "Ubuntu", "--ioapic", "on"]));
    assert_eq!(v.set_memory(), strs(&["modifyvm", "Ubuntu", "--memory", "4048", "--vram", "128"]));
    assert_eq!(v.set_nic1(), strs(&["modifyvm", "Ubuntu", "--nic1", "nat"]));
}

#[test]
fn disk_commands() {
    let v = VBox::new();
    let path = "C:/VMs/Ubuntu_64/Ubuntu_DISK.vdi";
    assert_eq!(v.showmediuminfo(), strs(&["showmediuminfo", path]));
    assert_eq!(
        v.createhd(),
        strs(&["createhd", "--filename", path, "--size", "20000", "--format", "VDI"])
    );
    assert_eq!(v.command(Step::RecheckMedium), v.showmediuminfo());
}

#[test]
fn controller_commands() {
    let v = VBox::new();
    assert_eq!(
        v.get_sata_controller(),
        strs(&["storagectl", "Ubuntu", "--name", "SATA Controller", "--controller", "IntelAhci"])
    );
    assert_eq!(
        v.set_sata_controller(),
        strs(&["storagectl", "Ubuntu", "--name", "SATA Controller", "--add", "sata", "--controller", "IntelAhci"])
    );
    assert_eq!(
        v.get_ide_controller(),
        strs(&["storagectl", "Ubuntu", "--name", "IDE Controller", "--controller", "PIIX4"])
    );
    assert_eq!(
        v.set_ide_controller(),
        strs(&["storagectl", "Ubuntu", "--name", "IDE Controller", "--add", "ide", "--controller", "PIIX4"])
    );
    assert_eq!(
        v.attach_sata_controller(),
        strs(&[
            "storageattach", "Ubuntu", "--storagectl", "SATA Controller", "--port", "0", "--device", "0",
            "--type", "hdd", "--medium", "C:/VMs/Ubuntu_64/Ubuntu_DISK.vdi",
        ])
    );
    assert_eq!(
        v.attach_ide_controller(),
        strs(&[
            "storageattach", "Ubuntu", "--storagectl", "IDE Controller", "--port", "0", "--device", "0",
            "--type", "dvddrive", "--medium", "C:/Users/User/Downloads/ubuntu-22.04.3-live-server-amd64.iso",
        ])
    );
}

#[test]
fn boot_order_before_and_after_install() {
    let v = VBox::new();
    assert_eq!(
        v.modifyvm(),
        strs(&["modifyvm", "Ubuntu", "--boot1", "dvd", "--boot2", "disk", "--boot3", "none", "--boot4", "none", "--cpus", "4"])
    );
    assert_eq!(
        v.postinstall(),
        strs(&["modifyvm", "Ubuntu", "--boot1", "disk", "--boot2", "dvd", "--boot3", "none", "--boot4", "none"])
    );
}

#[test]
fn install_command() {
    let v = VBox::new();
    assert_eq!(
        v.install_os(),
        strs(&[
            "unattended", "install", "Ubuntu", "--iso", "C:/Users/User/Downloads/ubuntu-22.04.3-live-server-amd64.iso",
            "--user", "test", "--full-user-name", "Test", "--password", "test", "--install-additions",
            "--time-zone", "CET",
        ])
    );
}

#[test]
fn encryption_needs_medium_id() {
    let mut v = VBox::new();
    assert_eq!(v.encryptmedium(20000), None);
    v.set_medium_id("abc");
    assert_eq!(
        v.encryptmedium(20000),
        Some(strs(&[
            "encryptmedium", "abc", "--newpassword", "C:/Users/User/Projects/vbox/tmp/pass", "20000",
            "--newpassword-id", "1", "--cipher", "AES-XTS128-PLAIN64",
        ]))
    );
}
